//! The HTTP transport: one route, `GET /hello`, answered by the container's query.
use std::sync::Arc;
use vstd::prelude::*;
use axum::extract::State;
use axum::routing::get;
use axum::Router;
use crate::di::Container;
use crate::query::{hello_world, InMemoryRepository, Repository};

verus! {

/// The one path that the router serves.
pub const HELLO_PATH: &'static str = "/hello";

#[verifier::external_type_specification]
#[verifier::external_body]
#[verifier::reject_recursive_types(S)]
pub struct ExRouter<S>(Router<S>);

/// A character that a URI path carries as itself: an ASCII letter or digit,
/// one of the unreserved marks `-`, `.`, `_`, `~`, or the separator `/`.
pub open spec fn is_plain_path_char(c: char) -> bool {
    ('a' <= c && c <= 'z') || ('A' <= c && c <= 'Z') || ('0' <= c && c <= '9') || c == '-'
        || c == '.' || c == '_' || c == '~' || c == '/'
}

/// A path that a request can name exactly and that a fresh axum router takes
/// without panicking: it starts with `/` and holds only plain characters, so
/// no query, fragment, parameter or wildcard.
pub open spec fn is_plain_route(path: Seq<char>) -> bool {
    &&& path.len() > 0
    &&& path[0] == '/'
    &&& forall|i: int| 0 <= i < path.len() ==> is_plain_path_char(#[trigger] path[i])
}

/// The answers of a router: each (method, path) that it answers with a
/// status other than 404, mapped to that status and the body. Every request
/// whose method and path are not a key here is answered with 404.
pub uninterp spec fn responses(r: Router) -> Map<(Seq<char>, Seq<char>), (u16, Seq<char>)>;

/// Relies on axum's `Router::new`, `Router::route`, `routing::get`,
/// `MethodRouter::head_service`, `MethodRouter::fallback_service` and
/// `Router::with_state`. A fresh router answers 404 to everything; this one
/// gets a single route at `path`. `GET` there is answered by the container's
/// query, whose `&'static str` axum sends as a 200 with that text as body.
/// `HEAD`, which axum would otherwise hand to the `GET` handler, and every
/// other method go to an empty router, which answers 404. `route` panics
/// only on a path that is empty, does not start with `/`, or that its path
/// tree refuses (parameters, wildcards, a conflicting route), which
/// `requires` leaves out.
#[verifier::external_body]
fn greeting_router<R>(path: &str, container: Arc<Container<R>>) -> (r: Router)
    where R: Repository + Send + Sync + 'static,
    requires
        is_plain_route(path@),
    ensures
        responses(r) == map![("GET"@, path@) => (200u16, container.hello_world_query.greeting())],
{
    let method_router = get(|State(c): State<Arc<Container<R>>>| {
        std::future::ready(c.hello_world_query.execute())
    });
    let method_router = method_router
        .head_service(Router::<()>::new())
        .fallback_service(Router::<()>::new());
    Router::new().route(path, method_router).with_state(container)
}

/// The router of the service: `GET /hello` answers 200 with the query's
/// greeting as body; every other method or path answers 404.
pub fn get_router<R>(container: Arc<Container<R>>) -> (r: Router)
    where R: Repository + Send + Sync + 'static,
    ensures
        responses(r) == map![("GET"@, "/hello"@) => (200u16, container.hello_world_query.greeting())],
{
    proof {
        reveal_strlit("/hello");
    }
    greeting_router(HELLO_PATH, container)
}

/// The router over a container built on the in-memory repository answers
/// `GET /hello` with 200 and exactly "Hello, world!", and answers 404 to
/// every other method at `/hello` and to every other path.
pub proof fn lemma_in_memory_router_greets(c: Arc<Container<InMemoryRepository>>, r: Router)
    requires
        responses(r) == map![("GET"@, "/hello"@) => (200u16, c.hello_world_query.greeting())],
    ensures
        responses(r).contains_key(("GET"@, "/hello"@)),
        responses(r)[("GET"@, "/hello"@)] == (200u16, hello_world()),
        forall|m: Seq<char>, p: Seq<char>|
            (m, p) != ("GET"@, "/hello"@) ==> !#[trigger] responses(r).contains_key((m, p)),
{
}

/// Swapping the repository changes what the router answers and nothing else:
/// over a container built from any repository, `GET /hello` answers 200 with
/// that repository's greeting.
pub proof fn lemma_router_answers_with_repository<R>(repository: R, c: Arc<Container<R>>, r: Router)
    where R: Repository + Send + Sync + 'static,
    requires
        c.hello_world_query.repository() == repository,
        responses(r) == map![("GET"@, "/hello"@) => (200u16, c.hello_world_query.greeting())],
    ensures
        responses(r)[("GET"@, "/hello"@)] == (200u16, repository.greeting()),
{
}

/// The server's configuration: the TCP port to bind and the shared,
/// read-only container that every request reads.
pub struct Server<R> where R: Repository + Send + Sync + 'static {
    port: u16,
    container: Arc<Container<R>>,
}

impl<R> Server<R> where R: Repository + Send + Sync + 'static {
    /// The port that the server binds.
    pub closed spec fn spec_port(&self) -> u16 {
        self.port
    }

    /// The container that the server hands to every request.
    pub closed spec fn spec_container(&self) -> Arc<Container<R>> {
        self.container
    }

    pub fn new(port: u16, container: Arc<Container<R>>) -> (s: Self)
        ensures
            s.spec_port() == port,
            s.spec_container() == container,
    {
        Self { port, container }
    }

    pub fn port(&self) -> (p: u16)
        ensures
            p == self.spec_port(),
    {
        self.port
    }

    pub fn container(&self) -> (c: &Arc<Container<R>>)
        ensures
            *c == self.spec_container(),
    {
        &self.container
    }
}

} // verus!
