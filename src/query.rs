//! The repository capability and the query (use case) built on it.
use vstd::prelude::*;

verus! {

/// The greeting that the in-memory repository holds.
pub open spec fn hello_world() -> Seq<char> {
    "Hello, world!"@
}

/// A source of the greeting. Implementations may differ in where the text
/// comes from; each one names it through `greeting`, and `get_hello_world`
/// must always succeed with exactly that text.
pub trait Repository {
    /// The text that this repository answers with.
    spec fn greeting(&self) -> Seq<char>;

    fn get_hello_world(&self) -> (r: &'static str)
        ensures
            r@ == self.greeting(),
    ;
}

/// The use case: owns one repository and answers with its greeting, unchanged.
pub struct GetHelloWorldQuery<R> where R: Repository {
    repository: R,
}

impl<R> GetHelloWorldQuery<R> where R: Repository {
    /// The repository that this query was built with.
    pub closed spec fn repository(&self) -> R {
        self.repository
    }

    /// What `execute` answers with.
    pub open spec fn greeting(&self) -> Seq<char> {
        self.repository().greeting()
    }

    pub fn new(repository: R) -> (q: Self)
        ensures
            q.repository() == repository,
    {
        Self { repository }
    }

    /// Asks the repository once and hands its answer back unchanged. The
    /// query is never mutated, so every call, from any number of callers at
    /// once, gives the same text.
    pub fn execute(&self) -> (r: &'static str)
        ensures
            r@ == self.greeting(),
    {
        self.repository.get_hello_world()
    }
}

/// A repository without state that always answers "Hello, world!".
#[derive(Default)]
pub struct InMemoryRepository;

impl Repository for InMemoryRepository {
    open spec fn greeting(&self) -> Seq<char> {
        hello_world()
    }

    fn get_hello_world(&self) -> (r: &'static str) {
        "Hello, world!"
    }
}

/// A repository that answers with a text fixed when it is built: a stand-in
/// for another source of the greeting, interchangeable with the in-memory one.
pub struct FixedTextRepository {
    text: &'static str,
}

impl FixedTextRepository {
    /// The text given at construction.
    pub closed spec fn text(&self) -> Seq<char> {
        self.text@
    }

    pub fn new(text: &'static str) -> (r: Self)
        ensures
            r.text() == text@,
    {
        Self { text }
    }
}

impl Repository for FixedTextRepository {
    open spec fn greeting(&self) -> Seq<char> {
        self.text()
    }

    fn get_hello_world(&self) -> (r: &'static str) {
        self.text
    }
}

} // verus!
