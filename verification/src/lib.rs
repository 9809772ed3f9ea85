//! Scripts that live in chat messages.
//!
//! A message whose body is a fenced `neo` block defines a script. The script
//! is compiled, anchored to that message, and from then on called for the
//! events of its channel, until the message is edited or its author
//! disables it.
//!
//! The library decides and keeps the books; it never runs a script. For each
//! event it says which statements are to be evaluated in which engines, and
//! it takes the results back: a script may loop, fail or break off, and what
//! is kept here stays whole.
//!
//! - [`extract`] recognizes a script block in a message body.
//! - [`script`] holds one script, makes the calls of its hooks and sorts
//!   their results.
//! - [`registry`] keeps the live scripts, at most one per message, and
//!   routes events to them.
//! - [`lifecycle`] creates, replaces and removes scripts.
//! - [`handler`] turns the three events of the chat platform into plans.
//! - [`feedback`] names the signals that a script's message carries.
//! - [`neoapi`] holds the message and user handles that scripts see, and
//!   the functions that every script can call.
//! - [`sandbox`] is what the library relies on of the interpreter.
//! - [`text`] works on strings as sequences of characters.

pub mod extract;
pub mod feedback;
pub mod handler;
pub mod lifecycle;
pub mod neoapi;
pub mod registry;
pub mod sandbox;
pub mod script;
pub mod text;
