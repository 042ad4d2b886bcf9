//! Synchronises a declared set of issue labels onto a repository of a
//! GitHub-style REST API by replacing what is there: every label the
//! repository holds is deleted, then every declared label is created.
//!
//! The library performs no network or file access. It builds each request,
//! reads each reply and decides what comes next; the caller sends the request
//! and hands back what came of it.
//!
//! - `label`: labels and their JSON objects.
//! - `config`: the declared state.
//! - `error`: the failures.
//! - `github`: the three requests and how their answers are read.
//! - `reconcile`: a run of requests, step by step.
//! - `trace`: what holds of every run, proved.
//! - `command`: the commands and their messages.

pub mod command;
pub mod config;
pub mod error;
pub mod github;
pub mod label;
pub mod reconcile;
pub mod trace;
