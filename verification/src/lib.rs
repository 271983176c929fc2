//! Coordination core of a notification relay and of a key-agent shim.
//!
//! A background agent appends status lines to a log; a relay loaded into a
//! client process tails that log and shows new lines on standard error, until
//! the client starts to print on its own. The shim presents the agent to a
//! client as a token module: it reroutes the client's agent socket, mutes
//! standard error for the length of a session and hands out session handles.
//!
//! Every function here decides; none touches a descriptor, a file or the
//! environment. The caller performs what a function asks for and reports what
//! came of it.

#![allow(non_camel_case_types, non_snake_case, non_upper_case_globals, unused_variables)]

pub mod arbiter;
pub mod arbiter_laws;
pub mod descriptors;
pub mod fdswap;
pub mod flag;
pub mod lines;
pub mod load;
pub mod paths;
pub mod pkcs11;
pub mod relay;
pub mod relay_laws;
pub mod session;
pub mod session_laws;
pub mod shim;
pub mod unsupported;
