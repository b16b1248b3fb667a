//! The composition root: the one place where a repository is wired into the query.
use vstd::prelude::*;
use crate::query::{hello_world, GetHelloWorldQuery, InMemoryRepository, Repository};

verus! {

/// Holds the pre-built query that the transport layer resolves.
pub struct Container<R> where R: Repository {
    pub hello_world_query: GetHelloWorldQuery<R>,
}

impl<R> Container<R> where R: Repository {
    pub fn new(repository: R) -> (c: Self)
        ensures
            c.hello_world_query.repository() == repository,
            c.hello_world_query.greeting() == repository.greeting(),
    {
        Self { hello_world_query: GetHelloWorldQuery::new(repository) }
    }
}

/// Any container built on the in-memory repository answers exactly
/// "Hello, world!", and the answer depends on nothing but the repository's type.
pub proof fn lemma_in_memory_container_greets(c: Container<InMemoryRepository>)
    ensures
        c.hello_world_query.greeting() == hello_world(),
        c.hello_world_query.greeting() == "Hello, world!"@,
{
}

/// Swapping the repository is all it takes to change the answer: a container
/// built from any repository answers with that repository's greeting, with no
/// other change to the wiring.
pub proof fn lemma_container_answers_with_repository<R: Repository>(repository: R, c: Container<R>)
    requires
        c.hello_world_query.repository() == repository,
    ensures
        c.hello_world_query.greeting() == repository.greeting(),
{
}

} // verus!
