//! Editing a long text in an external editor, as a protocol of steps.
//!
//! The editor needs the terminal, so the interactive screen is suspended
//! around it: suspended before the editor starts, and resumed afterwards
//! whether the editor succeeded, failed or could not be launched. The
//! session here decides which step comes next and what the edit comes to;
//! the caller does the steps and reports how each one went.

use vstd::prelude::*;
use vstd::string::StringExecFns;
use crate::text::join3;

verus! {

/// The editor to run: the configured one, or `vim` where none is configured.
pub open spec fn editor_of(configured: Option<Seq<char>>) -> Seq<char> {
    match configured {
        Some(name) => name,
        None => "vim"@,
    }
}

/// Picks the editor from the configured name, if there is one.
pub fn resolve_editor(configured: Option<String>) -> (editor: String)
    ensures
        editor@ == editor_of(
            match configured {
                Some(name) => Some(name@),
                None => None,
            },
        ),
{
    match configured {
        Some(name) => name,
        None => "vim".to_string(),
    }
}

/// One piece of outside work of an edit.
#[derive(Debug, Clone, Copy, PartialEq, Eq, Structural)]
pub enum EditorStep {
    /// Write the current text to the draft file.
    WriteDraft,
    /// Leave the interactive screen.
    SuspendTerminal,
    /// Run the editor on the draft file and wait for it.
    RunEditor,
    /// Return to the interactive screen.
    ResumeTerminal,
    /// Read the draft file back.
    ReadDraft,
    /// Remove the draft file.
    RemoveDraft,
}

/// How a step went.
#[derive(Debug)]
pub enum StepReport {
    /// The step was done.
    Done,
    /// The step failed, or the editor could not be launched.
    Failed(String),
    /// The editor ran and exited.
    Exited { success: bool },
    /// The draft was read and held this text.
    Read(String),
}

/// The mathematical content of a [`StepReport`].
pub enum StepReportView {
    Done,
    Failed(Seq<char>),
    Exited { success: bool },
    Read(Seq<char>),
}

impl View for StepReport {
    type V = StepReportView;

    open spec fn view(&self) -> StepReportView {
        match *self {
            StepReport::Done => StepReportView::Done,
            StepReport::Failed(text) => StepReportView::Failed(text@),
            StepReport::Exited { success } => StepReportView::Exited { success },
            StepReport::Read(text) => StepReportView::Read(text@),
        }
    }
}

/// An edit in progress.
#[derive(Debug)]
pub struct EditorSession {
    /// The editor that is run.
    pub editor: String,
    /// The step to do next; none when the edit is over.
    pub next: Option<EditorStep>,
    /// Whether the interactive screen may be suspended.
    pub suspended: bool,
    /// Whether the editor exited successfully, so that the draft counts.
    pub accepted: bool,
    /// What the edit comes to: the new text, nothing where the editor was
    /// left without success, or the text of the first failure.
    pub result: Result<Option<String>, String>,
}

/// The mathematical content of an [`EditorSession`].
#[verifier::ext_equal]
pub struct EditorSessionView {
    pub editor: Seq<char>,
    pub next: Option<EditorStep>,
    pub suspended: bool,
    pub accepted: bool,
    pub result: Result<Option<Seq<char>>, Seq<char>>,
}

impl View for EditorSession {
    type V = EditorSessionView;

    open spec fn view(&self) -> EditorSessionView {
        EditorSessionView {
            editor: self.editor@,
            next: self.next,
            suspended: self.suspended,
            accepted: self.accepted,
            result: match self.result {
                Ok(Some(text)) => Ok(Some(text@)),
                Ok(None) => Ok(None),
                Err(text) => Err(text@),
            },
        }
    }
}

/// The message for an editor that could not be launched.
pub open spec fn launch_failure(editor: Seq<char>, reason: Seq<char>) -> Seq<char> {
    "Failed to launch editor '"@ + editor + "': "@ + reason
}

/// The number of steps that an edit has left at most.
pub open spec fn steps_left(next: Option<EditorStep>) -> nat {
    match next {
        Some(EditorStep::WriteDraft) => 6,
        Some(EditorStep::SuspendTerminal) => 5,
        Some(EditorStep::RunEditor) => 4,
        Some(EditorStep::ResumeTerminal) => 3,
        Some(EditorStep::ReadDraft) => 2,
        Some(EditorStep::RemoveDraft) => 1,
        None => 0,
    }
}

impl EditorSessionView {
    /// The session before its first step.
    pub open spec fn start(editor: Seq<char>) -> EditorSessionView {
        EditorSessionView {
            editor,
            next: Some(EditorStep::WriteDraft),
            suspended: false,
            accepted: false,
            result: Ok(None),
        }
    }

    /// The session with a failure recorded, unless one is recorded already.
    pub open spec fn failing(self, text: Seq<char>) -> EditorSessionView {
        if self.result.is_ok() {
            EditorSessionView { result: Err(text), ..self }
        } else {
            self
        }
    }

    /// The session after the step that was due went as `report` says.
    ///
    /// A draft that cannot be written ends the edit at once. From the moment
    /// the terminal is asked to suspend, every path leads through
    /// `ResumeTerminal`. The draft is read back only after the editor
    /// exited successfully and the terminal resumed without a failure, and
    /// it is removed at the end in any case.
    pub open spec fn advanced(self, report: StepReportView) -> EditorSessionView {
        match self.next {
            Some(EditorStep::WriteDraft) => match report {
                StepReportView::Failed(text) => EditorSessionView {
                    next: None,
                    ..self.failing(text)
                },
                _ => EditorSessionView { next: Some(EditorStep::SuspendTerminal), ..self },
            },
            Some(EditorStep::SuspendTerminal) => match report {
                StepReportView::Failed(text) => EditorSessionView {
                    next: Some(EditorStep::ResumeTerminal),
                    suspended: true,
                    ..self.failing(text)
                },
                _ => EditorSessionView {
                    next: Some(EditorStep::RunEditor),
                    suspended: true,
                    ..self
                },
            },
            Some(EditorStep::RunEditor) => match report {
                StepReportView::Exited { success: true } => EditorSessionView {
                    next: Some(EditorStep::ResumeTerminal),
                    accepted: true,
                    ..self
                },
                StepReportView::Failed(reason) => EditorSessionView {
                    next: Some(EditorStep::ResumeTerminal),
                    ..self.failing(launch_failure(self.editor, reason))
                },
                _ => EditorSessionView { next: Some(EditorStep::ResumeTerminal), ..self },
            },
            Some(EditorStep::ResumeTerminal) => {
                let resumed = match report {
                    StepReportView::Failed(text) => self.failing(text),
                    _ => self,
                };
                EditorSessionView {
                    next: if resumed.accepted && resumed.result.is_ok() {
                        Some(EditorStep::ReadDraft)
                    } else {
                        Some(EditorStep::RemoveDraft)
                    },
                    suspended: false,
                    ..resumed
                }
            },
            Some(EditorStep::ReadDraft) => match report {
                StepReportView::Read(text) => EditorSessionView {
                    next: Some(EditorStep::RemoveDraft),
                    result: if self.result.is_ok() {
                        Ok(Some(text))
                    } else {
                        self.result
                    },
                    ..self
                },
                StepReportView::Failed(text) => EditorSessionView {
                    next: Some(EditorStep::RemoveDraft),
                    ..self.failing(text)
                },
                _ => EditorSessionView { next: Some(EditorStep::RemoveDraft), ..self },
            },
            Some(EditorStep::RemoveDraft) => EditorSessionView { next: None, ..self },
            None => self,
        }
    }

    /// What holds of every session that started at the start: the terminal
    /// is suspended exactly between the step that suspends it and the step
    /// that resumes it, and the draft counts only without a failure.
    pub open spec fn consistent(self) -> bool {
        &&& self.suspended <==> (self.next == Some(EditorStep::RunEditor) || self.next == Some(
            EditorStep::ResumeTerminal,
        ))
        &&& self.next == Some(EditorStep::ReadDraft) ==> self.accepted && self.result.is_ok()
        &&& self.result matches Ok(Some(_)) ==> self.next == Some(EditorStep::RemoveDraft)
            || self.next.is_none()
    }
}

/// Every session stays consistent: the start is, and every step keeps it.
/// So the editor runs only while the terminal is suspended, and an edit
/// that is over has left the terminal resumed, however its steps went.
pub proof fn lemma_editor_session_consistent(s: EditorSessionView, report: StepReportView)
    ensures
        EditorSessionView::start(s.editor).consistent(),
        s.consistent() ==> s.advanced(report).consistent(),
        s.consistent() && s.next == Some(EditorStep::RunEditor) ==> s.suspended,
        s.consistent() && s.next.is_none() ==> !s.suspended,
{
}

/// Every step brings the end nearer, so an edit is over after six steps at
/// most.
pub proof fn lemma_editor_session_ends(s: EditorSessionView, report: StepReportView)
    requires
        s.next.is_some(),
    ensures
        steps_left(s.advanced(report).next) < steps_left(s.next),
{
}

/// Once the terminal has been asked to suspend, the edit cannot end without
/// the step that resumes it: from a suspended session every step leads to a
/// suspended session or is that step.
pub proof fn lemma_editor_resumes_before_end(s: EditorSessionView, report: StepReportView)
    requires
        s.consistent(),
        s.suspended,
    ensures
        s.advanced(report).suspended || s.next == Some(EditorStep::ResumeTerminal),
        s.advanced(report).next.is_some(),
{
}

impl EditorSession {
    /// A session before its first step.
    pub fn start(editor: String) -> (session: EditorSession)
        ensures
            session@ == EditorSessionView::start(editor@),
    {
        EditorSession {
            editor,
            next: Some(EditorStep::WriteDraft),
            suspended: false,
            accepted: false,
            result: Ok(None),
        }
    }

    /// Records a failure, unless one is recorded already.
    fn fail(&mut self, text: String)
        ensures
            final(self)@ == old(self)@.failing(text@),
    {
        if self.result.is_ok() {
            self.result = Err(text);
        }
    }

    /// Takes the report of the step that was due and moves to the next.
    pub fn advance(&mut self, report: StepReport)
        ensures
            final(self)@ == old(self)@.advanced(report@),
    {
        match self.next {
            Some(EditorStep::WriteDraft) => match report {
                StepReport::Failed(text) => {
                    self.fail(text);
                    self.next = None;
                },
                _ => {
                    self.next = Some(EditorStep::SuspendTerminal);
                },
            },
            Some(EditorStep::SuspendTerminal) => {
                self.suspended = true;
                match report {
                    StepReport::Failed(text) => {
                        self.fail(text);
                        self.next = Some(EditorStep::ResumeTerminal);
                    },
                    _ => {
                        self.next = Some(EditorStep::RunEditor);
                    },
                }
            },
            Some(EditorStep::RunEditor) => {
                match report {
                    StepReport::Exited { success: true } => {
                        self.accepted = true;
                    },
                    StepReport::Failed(reason) => {
                        let mut text = join3(
                            "Failed to launch editor '",
                            self.editor.as_str(),
                            "': ",
                        );
                        text.append(reason.as_str());
                        self.fail(text);
                    },
                    _ => {},
                }
                self.next = Some(EditorStep::ResumeTerminal);
            },
            Some(EditorStep::ResumeTerminal) => {
                if let StepReport::Failed(text) = report {
                    self.fail(text);
                }
                self.suspended = false;
                self.next = if self.accepted && self.result.is_ok() {
                    Some(EditorStep::ReadDraft)
                } else {
                    Some(EditorStep::RemoveDraft)
                };
            },
            Some(EditorStep::ReadDraft) => {
                match report {
                    StepReport::Read(text) => {
                        if self.result.is_ok() {
                            self.result = Ok(Some(text));
                        }
                    },
                    StepReport::Failed(text) => {
                        self.fail(text);
                    },
                    _ => {},
                }
                self.next = Some(EditorStep::RemoveDraft);
            },
            Some(EditorStep::RemoveDraft) => {
                self.next = None;
            },
            None => {},
        }
    }
}

} // verus!
