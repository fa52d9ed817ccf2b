use gaia::paginate::{Paginate, PaginateEmbedsLazily};
use gaia::source::{PageSource, VecPageSource};
use gaia::NavError;

/// Generates `"Page {i}"` for every index.
struct NumberedSource;

impl PageSource<String> for NumberedSource {
    fn fetch(&mut self, index: usize) -> Option<String> {
        Some(format!("Page {index}"))
    }
}

#[test]
fn eager_walks_forward_and_back() {
    let pages = [10, 20, 30];
    let mut p = Paginate::new(&pages);

    assert_eq!(p.max(), 3);
    assert_eq!(p.current_idx(), 0);
    assert_eq!(p.current_page(), Some(&10));
    assert_eq!(p.next_page(), Some(&20));
    assert_eq!(p.next_page(), Some(&30));
    assert_eq!(p.next_page(), None);
    assert_eq!(p.current_idx(), 2);
    assert_eq!(p.previous_page(), Some(&20));
    assert_eq!(p.first_page(), Some(&10));
    assert_eq!(p.last_page(), Some(&30));
}

#[test]
fn eager_refuses_to_move_before_the_first_page() {
    let pages = ["only"];
    let mut p = Paginate::new(&pages);
    assert_eq!(p.previous_page(), None);
    assert_eq!(p.current_idx(), 0);
}

#[test]
fn eager_empty_slice_has_no_pages() {
    let pages: [u8; 0] = [];
    let mut p = Paginate::new(&pages);
    assert_eq!(p.current_page(), None);
    assert_eq!(p.first_page(), None);
    assert_eq!(p.last_page(), None);
    assert_eq!(p.current_idx(), 0);
}

#[test]
fn lazy_scenario_over_twenty_five_pages() {
    let mut p: PaginateEmbedsLazily<String, NumberedSource> =
        PaginateEmbedsLazily::new(25, NumberedSource, 10);

    assert!(p.first_page().is_ok());
    assert_eq!(p.current_page().unwrap().as_str(), "Page 0");

    for _ in 0..3 {
        assert!(p.next_page().is_ok());
    }
    assert_eq!(p.current_page().unwrap().as_str(), "Page 3");

    assert!(p.jump_to(24).is_ok());
    assert_eq!(p.current_page().unwrap().as_str(), "Page 24");

    assert_eq!(p.jump_to(25), Err(NavError::OutOfRange { min: 0, max: 24 }));
    assert_eq!(p.current_idx(), 24);

    assert!(p.last_page().is_ok());
    assert_eq!(p.current_page().unwrap().as_str(), "Page 24");

    let mut fresh: PaginateEmbedsLazily<String, NumberedSource> =
        PaginateEmbedsLazily::new(25, NumberedSource, 10);
    assert_eq!(fresh.previous_page(), Err(NavError::Boundary));
    assert_eq!(fresh.current_idx(), 0);
}

#[test]
fn lazy_boundaries_leave_the_position_alone() {
    let mut p: PaginateEmbedsLazily<String, NumberedSource> =
        PaginateEmbedsLazily::new(2, NumberedSource, 10);

    assert_eq!(p.previous_page(), Err(NavError::Boundary));
    assert_eq!(p.current_idx(), 0);

    assert!(p.last_page().is_ok());
    assert_eq!(p.next_page(), Err(NavError::Boundary));
    assert_eq!(p.current_idx(), 1);
}

#[test]
fn lazy_over_a_vec_source() {
    let source = VecPageSource::new(vec!["a".to_string(), "b".to_string()]);
    let mut p = PaginateEmbedsLazily::new(2, source, 10);
    assert!(p.first_page().is_ok());
    assert_eq!(p.current_page().unwrap().as_str(), "a");
    assert!(p.next_page().is_ok());
    assert_eq!(p.current_page().unwrap().as_str(), "b");
    assert!(p.is_empty() == false);
    assert_eq!(p.len(), 2);
}

/// Produces nothing for page 1.
struct HoleySource;

impl PageSource<String> for HoleySource {
    fn fetch(&mut self, index: usize) -> Option<String> {
        if index == 1 {
            None
        } else {
            Some(format!("Page {index}"))
        }
    }
}

#[test]
fn lazy_failed_generation_aborts_the_move() {
    let mut p = PaginateEmbedsLazily::new(3, HoleySource, 10);
    assert!(p.first_page().is_ok());
    assert_eq!(p.next_page(), Err(NavError::NotFound));
    assert_eq!(p.current_idx(), 0);
    assert_eq!(p.current_page().unwrap().as_str(), "Page 0");
    // The failure was transient for the caller: jumping over it still works.
    assert!(p.jump_to(2).is_ok());
    assert_eq!(p.current_page().unwrap().as_str(), "Page 2");
}
