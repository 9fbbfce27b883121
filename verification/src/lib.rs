//! Command-dispatch layer of a cheatsheet/snippet command-line tool.
//!
//! A fully parsed [`config::Config`] selects at most one command. The
//! dispatcher picks the collaborator (flow) that handles that command,
//! and, when the collaborator fails, layers a human-readable context
//! message onto the error before it propagates.
//!
//! The collaborators themselves (interactive browsing, query filtering,
//! snippet execution, and so on) are external programs' worth of work and
//! live outside this crate. The dispatcher's two decisions are verified
//! here: [`dispatch::plan`] chooses the one collaborator invocation for a
//! configuration, and [`dispatch::handle_outcome`] turns the
//! collaborator's outcome into the dispatcher's result, adding exactly
//! one context layer on failure.

pub mod config;
pub mod dispatch;
pub mod error;
