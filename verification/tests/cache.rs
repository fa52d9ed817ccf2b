use gaia::cache::PageCache;
use gaia::source::PageSource;
use gaia::NavError;

/// A generator that records every index it is asked for.
struct CountingSource {
    calls: Vec<usize>,
}

impl CountingSource {
    fn new() -> Self {
        Self { calls: Vec::new() }
    }

    fn calls_for(&self, index: usize) -> usize {
        self.calls.iter().filter(|&&i| i == index).count()
    }
}

impl PageSource<String> for CountingSource {
    fn fetch(&mut self, index: usize) -> Option<String> {
        self.calls.push(index);
        Some(format!("Page {index}"))
    }
}

/// A generator that never produces content.
struct EmptySource;

impl PageSource<String> for EmptySource {
    fn fetch(&mut self, _index: usize) -> Option<String> {
        None
    }
}

#[test]
fn hit_does_not_reach_the_generator() {
    let mut cache: PageCache<String> = PageCache::new(3);
    let mut source = CountingSource::new();

    assert!(cache.get_or_generate(&mut source, 1).is_ok());
    assert!(cache.get_or_generate(&mut source, 1).is_ok());

    assert_eq!(source.calls_for(1), 1);
    assert_eq!(cache.get(1).as_str(), "Page 1");
}

#[test]
fn capacity_overflow_evicts_the_least_recently_used() {
    let k = 3;
    let mut cache: PageCache<String> = PageCache::new(k);
    let mut source = CountingSource::new();

    for i in 0..(k + 1) {
        assert!(cache.get_or_generate(&mut source, i).is_ok());
    }

    // The first requested page left; every later one stayed.
    assert!(!cache.contains(0));
    for i in 1..(k + 1) {
        assert!(cache.contains(i));
    }

    // Requesting the evicted page reaches the generator a second time.
    assert!(cache.get_or_generate(&mut source, 0).is_ok());
    assert_eq!(source.calls_for(0), 2);
}

#[test]
fn refreshed_entry_survives_the_next_eviction() {
    let mut cache: PageCache<String> = PageCache::new(2);
    let mut source = CountingSource::new();

    assert!(cache.get_or_generate(&mut source, 0).is_ok());
    assert!(cache.get_or_generate(&mut source, 1).is_ok());
    // Touch page 0 again: page 1 becomes the least recently used.
    assert!(cache.get_or_generate(&mut source, 0).is_ok());
    assert!(cache.get_or_generate(&mut source, 2).is_ok());

    assert!(cache.contains(0));
    assert!(!cache.contains(1));
    assert!(cache.contains(2));
    assert_eq!(source.calls_for(0), 1);
}

#[test]
fn generation_failure_inserts_nothing() {
    let mut cache: PageCache<String> = PageCache::new(2);
    let mut source = EmptySource;

    assert_eq!(cache.get_or_generate(&mut source, 0), Err(NavError::NotFound));
    assert!(!cache.contains(0));
    assert_eq!(cache.len(), 0);
}
