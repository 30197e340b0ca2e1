//! A terminal kanban board for personal task tracking: epics hold stories,
//! stories hold tasks, and every story sits in one of four status columns.
//!
//! The heart of the crate is the interactive state machine: [`input`] maps
//! keys to [`actions`], [`dispatch`] turns an action into the next [`app`]
//! state, asking the store in [`db`] for what the action needs, and
//! [`refresh`] resynchronizes the cached lists with the store. [`laws`]
//! states what holds of every step. What is asked of the store is made by
//! pure functions: [`request`] names the change and the read of an action,
//! [`statements`] the SQL text and parameters of every operation. [`view`]
//! decides what the screen shows, [`editor`] how an external editor is run,
//! and [`cli_handler`] plans and runs batch commands against the same store.

pub mod actions;
pub mod app;
pub mod cli;
pub mod cli_handler;
pub mod db;
pub mod dispatch;
pub mod editor;
pub mod epics;
pub mod input;
pub mod laws;
pub mod models;
pub mod refresh;
pub mod request;
pub mod statements;
mod text;
pub mod view;
