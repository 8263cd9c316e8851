//! Handlers: each pairs one request with a repository that offers exactly
//! the capabilities the request needs.

pub mod device;
pub mod device_group;

use vstd::prelude::*;

verus! {

/// A command together with the repository it will change.
pub struct CommandHandler<C, R> {
    pub command: C,
    pub repo: R,
}

impl<C, R> CommandHandler<C, R> {
    /// Pairs `command` with `repo`.
    pub fn new(command: C, repo: R) -> (handler: Self)
        ensures
            handler.command == command,
            handler.repo == repo,
    {
        Self { command, repo }
    }
}

/// A query together with the repository it will read.
pub struct QueryHandler<Q, R> {
    pub query: Q,
    pub repo: R,
}

impl<Q, R> QueryHandler<Q, R> {
    /// Pairs `query` with `repo`.
    pub fn new(query: Q, repo: R) -> (handler: Self)
        ensures
            handler.query == query,
            handler.repo == repo,
    {
        Self { query, repo }
    }
}

} // verus!
