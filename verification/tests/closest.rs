use gaia::closest::find_closest_match;

#[test]
fn test() {
    let list = ["Hello", "Hi"];
    let input = "He";
    let closest = find_closest_match(input, &list);

    assert_eq!(closest, Some("Hi"))
}

#[test]
fn no_match_when_everything_is_far() {
    let list = ["completely", "unrelated", "words"];
    let closest = find_closest_match("zzzzzzzzzz", &list);
    assert_eq!(closest, None);
}

#[test]
fn exact_match_wins() {
    let list = ["alpha", "beta", "gamma"];
    assert_eq!(find_closest_match("beta", &list), Some("beta"));
}

#[test]
fn earliest_of_equally_near_candidates_wins() {
    // Both candidates are at distance 1 from the input.
    let list = ["cat", "car"];
    assert_eq!(find_closest_match("cab", &list), Some("cat"));
}

#[test]
fn empty_list_matches_nothing() {
    let list: [&str; 0] = [];
    assert_eq!(find_closest_match("anything", &list), None);
}
