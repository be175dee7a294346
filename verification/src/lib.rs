//! The command-line front end of a linter for `.env` files.
//!
//! A run goes through these steps, each of them a module of this library:
//!
//! - [`schema`] declares the arguments of the default check and of the
//!   `list`, `fix` and `compare` subcommands. The declarations are built
//!   with `clap`; [`declaration`] and [`command`] say what each of its
//!   builders does.
//! - [`word`] tells a command word from a path: a first argument that is
//!   a command word and selects no command asks for the unknown command.
//! - [`parser`] hands the schema and any other argument vector to `clap`
//!   and returns the invocation or the refusal; [`matches`] says what the
//!   matches of `clap` hold, and [`invocation`] reads them into plain
//!   values.
//! - [`router`] selects the command and builds the [`context`] that the
//!   operation is handed; [`policy`] switches colour off where `--no-color`
//!   asks for it.
//! - [`exit`] maps the outcome of the operation to the exit code and to the
//!   lines that are still to be printed.
//!
//! [`run`] puts the steps before the operation into one function and states
//! what holds of every run. The operations themselves (to check, to fix, to
//! compare, to name the checks) are not part of this library: the program
//! calls the one that it is routed to and hands back the outcome.

pub mod command;
pub mod context;
pub mod declaration;
pub mod exit;
pub mod invocation;
pub mod matches;
pub mod parser;
pub mod policy;
pub mod router;
pub mod run;
pub mod schema;
pub mod word;
