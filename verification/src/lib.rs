//! Verified core of a desktop front-end for managing containerized Linux
//! environments ("boxes") through an external command-line tool.
//!
//! The front-end itself is a thin shell: it renders one tab per box and wires
//! buttons to subcommands of the external tool. Everything that can be
//! checked lives here:
//!
//! - [`record`]: the snapshot record describing one managed box;
//! - [`text`]: the string splitting and trimming the parser is built on;
//! - [`invocation`]: argument lists handed to the external tool, built so a
//!   box name is always one discrete argument;
//! - [`registry`]: parsing of the tool's list output into records, and the
//!   startup gate that keeps the list query from ever running when the tool
//!   is absent;
//! - [`dispatch`]: the per-action argument lists, the confirmation gate in
//!   front of deletion, and the mapping from exit status to reported outcome.
//!
//! The process spawning itself, and the widget tree around it, stay in the
//! unverified front-end; it only runs the invocations built here and feeds
//! the captured text and exit codes back in.

pub mod dispatch;
pub mod invocation;
pub mod record;
pub mod registry;
pub mod text;
