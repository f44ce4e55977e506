//! Kubeconfig inspection for a shell plugin.
//!
//! The library holds the two mechanisms that the plugin rests on. The first
//! is a tree of command words that resolves the subcommand given on the
//! command line to a handler. The second lays a parsed kubeconfig out as an
//! ordered, nested row. Reading the arguments of a call into the state of an
//! invocation belongs to it as well. Reading files and talking to the shell
//! do not: the caller hands in what it read and takes rows back.

pub mod args;
pub mod error;
pub mod kubectl;
pub mod plugins;
pub mod row;
pub mod signature;

pub use kubectl::{Command, Kubectl, List};
