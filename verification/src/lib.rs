//! Runs the official Codex terminal with a named ChatGPT account.
//!
//! Everything here is decided from plain values: what a frame, a token, a file or the end of a
//! process means, and what is to be done next. Whoever reads, sends and waits asks this library
//! what to do, step by step.

pub mod accounts;
pub mod auth;
pub mod bridge;
pub mod children;
pub mod cli;
pub mod codex;
pub mod connections;
pub mod courses;
pub mod credentials;
pub mod disk;
pub mod display;
pub mod error;
pub mod exchange;
pub mod flow;
pub mod helper;
pub mod host;
pub mod json;
pub mod path;
pub mod process;
pub mod profile;
pub mod promises;
pub mod record;
pub mod relay;
pub mod rpc;
pub mod serving;
pub mod session;
pub mod store;
pub mod terminal;
pub mod text;
pub mod wire;
