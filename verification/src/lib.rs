//! A version manager for the `go` toolchain and the `sop` tool that runs on it.
//!
//! The crate holds the decisions of the manager: how a version specifier is
//! resolved, which `go` a `sop` release needs, what the installer does after
//! each observation, and how the persisted defaults change. Every function
//! is stated over plain values and proved against its contract. Network and
//! filesystem work is left to the caller, who is told what to do by a
//! [`effects::Request`] and answers with a [`effects::Reply`].
//!
//! - [`resolve`] turns `latest`, `1.22` or `1.22.0` into a version.
//! - [`compat`] knows the `go` versions that a `sop` version runs on.
//! - [`install`] fetches one version of a tool, step by step.
//! - [`session`] carries out `default`, `update` and `remove`.
//! - [`commands`] and [`report`] read what the user asked for and decide
//!   what `list` and `which` show.
//! - [`paths`], [`platform`], [`config`], [`version`], [`text`] and
//!   [`error`] hold what the others share.

pub mod commands;
pub mod compat;
pub mod config;
pub mod effects;
pub mod error;
pub mod install;
pub mod paths;
pub mod platform;
pub mod report;
pub mod resolve;
pub mod session;
pub mod text;
pub mod version;
