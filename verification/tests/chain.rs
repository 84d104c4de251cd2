use source_chain::AnySource;
use source_chain::MemorySource;
use source_chain::NoSource;
use source_chain::Source;
use source_chain::SourceError;

#[test]
fn it_works() {
    assert_eq!(2 + 2, 4);
}

#[test]
fn empty_source_fails_on_every_path() {
    let src = NoSource;
    assert_eq!(src.modified("a.txt"), Err(SourceError::NotFound));
    assert!(src.load("a.txt").is_err());
    assert!(src.load_with_metadata("a.txt").is_err());
    assert_eq!(src.modified(""), Err(SourceError::NotFound));
    assert!(src.load("").is_err());
    assert!(src.load_with_metadata("").is_err());
}

#[test]
fn fresh_chain_fails_on_every_path() {
    let chain = AnySource::new();
    assert_eq!(chain.modified("anything"), Err(SourceError::NotFound));
    assert!(chain.load("anything").is_err());
    assert!(chain.load_with_metadata("anything").is_err());
    assert_eq!(chain.modified(""), Err(SourceError::NotFound));
}

fn backend_a() -> MemorySource {
    MemorySource::new().with_entry(String::from("a.txt"), vec![1, 2, 3], 10)
}

fn backend_b() -> MemorySource {
    MemorySource::new()
        .with_entry(String::from("a.txt"), vec![9, 9, 9], 20)
        .with_entry(String::from("b.txt"), vec![4, 5, 6], 30)
}

#[test]
fn last_added_backend_wins() {
    let chain = AnySource::new().with_source(backend_b()).with_source(backend_a());
    assert_eq!(chain.load("a.txt").unwrap(), vec![1, 2, 3]);
    assert_eq!(chain.modified("a.txt").unwrap(), 10);
    assert_eq!(chain.load_with_metadata("a.txt").unwrap(), (vec![1, 2, 3], 10));
}

#[test]
fn chain_falls_back_on_failure() {
    let chain = AnySource::new().with_source(backend_b()).with_source(backend_a());
    assert_eq!(chain.load("b.txt").unwrap(), vec![4, 5, 6]);
    assert_eq!(chain.modified("b.txt").unwrap(), 30);
    assert_eq!(chain.load_with_metadata("b.txt").unwrap(), (vec![4, 5, 6], 30));
}

#[test]
fn concrete_two_backend_scenario() {
    let chain = AnySource::new().with_source(backend_b()).with_source(backend_a());
    assert_eq!(chain.load("a.txt").unwrap(), vec![1, 2, 3]);
    assert_eq!(chain.load("b.txt").unwrap(), vec![4, 5, 6]);
    assert_eq!(chain.load("c.txt"), Err(SourceError::NotFound));
}

#[test]
fn first_of_group_wins() {
    let x = MemorySource::new().with_entry(String::from("p"), vec![1], 1);
    let y = MemorySource::new().with_entry(String::from("p"), vec![2], 2);
    let z = MemorySource::new().with_entry(String::from("p"), vec![3], 3);
    let chain = AnySource::new().with_sources(vec![x, y, z]);
    assert_eq!(chain.load("p").unwrap(), vec![1]);
    assert_eq!(chain.modified("p").unwrap(), 1);
    assert_eq!(chain.load_with_metadata("p").unwrap(), (vec![1], 1));
}

#[test]
fn group_falls_through_failing_elements() {
    let x = MemorySource::new().with_entry(String::from("other"), vec![7], 7);
    let y = MemorySource::new().with_entry(String::from("p"), vec![2], 2);
    let chain = AnySource::new().with_sources(vec![x, y]);
    assert_eq!(chain.load("p").unwrap(), vec![2]);
    assert_eq!(chain.load("other").unwrap(), vec![7]);
}

#[test]
fn empty_group_fails() {
    let chain = AnySource::new().with_sources(Vec::<MemorySource>::new());
    assert_eq!(chain.modified("p"), Err(SourceError::NotFound));
    assert!(chain.load("p").is_err());
    assert!(chain.load_with_metadata("p").is_err());
}

#[test]
fn unregistered_path_fails_everywhere() {
    let chain = AnySource::new()
        .with_source(backend_b())
        .with_sources(vec![backend_a()]);
    assert_eq!(chain.modified("missing.txt"), Err(SourceError::NotFound));
    assert_eq!(chain.load("missing.txt"), Err(SourceError::NotFound));
    assert_eq!(
        chain.load_with_metadata("missing.txt"),
        Err(SourceError::NotFound)
    );
}

#[test]
fn with_source_leaves_original_chain_intact() {
    let original = AnySource::new().with_source(backend_b());
    let extended = original.clone().with_source(backend_a());
    assert_eq!(extended.load("a.txt").unwrap(), vec![1, 2, 3]);
    assert_eq!(original.load("a.txt").unwrap(), vec![9, 9, 9]);
    assert_eq!(original.modified("a.txt").unwrap(), 20);
    assert_eq!(original.load("b.txt").unwrap(), vec![4, 5, 6]);
}

#[test]
fn bulk_constructor_tries_in_order() {
    let chain = AnySource::from_sources(vec![backend_a(), backend_b()]);
    assert_eq!(chain.load("a.txt").unwrap(), vec![1, 2, 3]);
    assert_eq!(chain.load("b.txt").unwrap(), vec![4, 5, 6]);
    assert_eq!(chain.load("c.txt"), Err(SourceError::NotFound));
}

#[test]
fn memory_source_first_matching_entry_wins() {
    let src = MemorySource::new()
        .with_entry(String::from("dup"), vec![1], 1)
        .with_entry(String::from("dup"), vec![2], 2);
    assert_eq!(src.load("dup").unwrap(), vec![1]);
    assert_eq!(src.modified("dup").unwrap(), 1);
    assert_eq!(src.load_with_metadata("dup").unwrap(), (vec![1], 1));
}

#[test]
fn memory_source_misses_report_not_found() {
    let src = MemorySource::new().with_entry(String::from("a"), vec![1], 1);
    assert_eq!(src.load("b"), Err(SourceError::NotFound));
    assert_eq!(src.modified(""), Err(SourceError::NotFound));
    assert_eq!(src.load_with_metadata("aa"), Err(SourceError::NotFound));
}
