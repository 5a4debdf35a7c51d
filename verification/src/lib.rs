//! Decisions behind a small tool that reaches a home server over SSH, either
//! directly or through a relay host, copies files to it, and sets up
//! key-based authentication.
//!
//! The tool does its work by running `ssh`, `scp`, `ssh-keygen`, `ssh-add`
//! and `ssh-copy-id`. This library never runs anything. It decides what is
//! to be run, in which order, what is logged, and what a failure means, and
//! leaves the running to a driver:
//!
//! * [`config`] resolves the connection topology from a configuration
//!   script;
//! * [`connect`] opens a session on the target;
//! * [`transfer`] copies a file to the target;
//! * [`setup`] provisions the key and the SSH client configuration;
//! * [`protocol`] is the vocabulary between an operation and its driver;
//! * [`laws`] states what holds of every session;
//! * [`text`] and [`lua`] hold what is taken on trust from the standard
//!   library and from the Lua interpreter.
//!
//! An operation starts with a function that returns its first turn, a state
//! and a [`protocol::Step`]. The driver logs the lines of the step and
//! performs its request; unless the request is [`protocol::Request::Done`],
//! it then hands the reply to the `next` method of the state, which returns
//! the following turn.

pub mod config;
pub mod connect;
pub mod laws;
pub mod lua;
pub mod protocol;
pub mod setup;
pub mod text;
pub mod transfer;
