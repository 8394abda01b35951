//! A command gateway between a chat platform, an identity ledger and a
//! downstream processor.
//!
//! A command arrives, is let in by a guard, and is run as a session: the user
//! is registered with the ledger, the command acts, what it did is persisted,
//! and one reply leaves. The ledger and the processor are reached by the
//! caller; the library decides what is asked of them and in which order, and
//! proves that no record is written for a user whom the ledger has not
//! confirmed.
//!
//! - [`text`], [`grammar`]: characters, searching, trimming; the three
//!   command grammars.
//! - [`principal`], [`model`]: identities and the records kept on the ledger.
//! - [`ledger`], [`backend`], [`slack`]: the ledger's calls and the two
//!   clients that make them.
//! - [`processor`]: requests to the processor and the reading of its answers.
//! - [`command`], [`definition`], [`handler`]: invocations, results, command
//!   schemas, handlers and their registry.
//! - [`engine`], [`workflow`]: the session of a command, as a model and in
//!   executable form.
//! - [`auth`], [`service`], [`response`]: the guards and the service routes.
//! - [`reply`]: the words of the gateway.
//! - [`laws`]: what holds of every invocation.

pub mod auth;
pub mod backend;
pub mod command;
pub mod definition;
pub mod engine;
pub mod grammar;
pub mod handler;
pub mod laws;
pub mod ledger;
pub mod model;
pub mod principal;
pub mod processor;
pub mod reply;
pub mod response;
pub mod service;
pub mod slack;
pub mod text;
pub mod workflow;
