use std::sync::Arc;

use hello_service::di::Container;
use hello_service::query::{FixedTextRepository, GetHelloWorldQuery, InMemoryRepository, Repository};

#[test]
fn test_get_hello_world() {
    // Given
    let repository = InMemoryRepository;
    let query = GetHelloWorldQuery::new(repository);

    // When
    let result = query.execute();

    // Then
    assert_eq!(result, "Hello, world!");
}

#[test]
fn in_memory_repository_answers_hello_world() {
    let repository = InMemoryRepository::default();
    assert_eq!(repository.get_hello_world(), "Hello, world!");
}

#[test]
fn fixed_text_repository_answers_its_text() {
    let repository = FixedTextRepository::new("Bonjour, monde!");
    assert_eq!(repository.get_hello_world(), "Bonjour, monde!");
}

#[test]
fn repeated_calls_give_the_same_answer() {
    let container = Container::new(InMemoryRepository);
    for _ in 0..10 {
        assert_eq!(container.hello_world_query.execute(), "Hello, world!");
    }
}

#[test]
fn swapped_repository_changes_the_answer() {
    let query = GetHelloWorldQuery::new(FixedTextRepository::new("Bonjour, monde!"));
    assert_eq!(query.execute(), "Bonjour, monde!");
    let container = Container::new(FixedTextRepository::new("Bonjour, monde!"));
    assert_eq!(container.hello_world_query.execute(), "Bonjour, monde!");
}

#[test]
fn concurrent_executions_agree() {
    let runtime = tokio::runtime::Builder::new_multi_thread()
        .worker_threads(4)
        .build()
        .unwrap();
    let container = Arc::new(Container::new(InMemoryRepository));
    let results = runtime.block_on(async {
        let mut handles = Vec::new();
        for _ in 0..100 {
            let c = Arc::clone(&container);
            handles.push(tokio::spawn(async move { c.hello_world_query.execute() }));
        }
        let mut results = Vec::new();
        for h in handles {
            results.push(h.await.unwrap());
        }
        results
    });
    assert_eq!(results.len(), 100);
    assert!(results.iter().all(|r| *r == "Hello, world!"));
}
