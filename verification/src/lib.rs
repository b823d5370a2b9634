//! Hook invocation core for a conversational command-line client.
//!
//! A hook is an optional executable that the user places in a hooks directory.
//! At fixed points of a request's life the client hands a payload to the hook
//! and takes the hook's answer in its place. This crate holds the decisions of
//! that exchange: which environment changes surround a call and how they are
//! undone, whether a hook is installed, what follows from the way a hook ended,
//! and the transcript from which an unsaved session gets its name.
//!
//! - [`environment`]: the scope of one invocation, the operations that install
//!   and release it, and the proof that releasing undoes installing.
//! - [`locator`]: whether a hook is on a search path.
//! - [`outcome`]: how a hook ended, and the ways in which a transform fails.
//! - [`bridge`]: the transform itself, as a machine that is driven step by
//!   step.
//! - [`course`]: what the steps of a transform add up to, in every world.
//! - [`hooks`]: the hooks that the client knows.
//! - [`autoname`]: the transcript from which a session is named.
//!
//! The library changes no environment and starts no process. Its driver does,
//! one [`bridge::Directive`] at a time.

pub mod autoname;
pub mod bridge;
pub mod course;
pub mod environment;
pub mod hooks;
pub mod locator;
pub mod outcome;
