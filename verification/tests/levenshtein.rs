use sf2deluge::levenshtein::distance;

#[test]
fn test_distance() {
    let data = [
        ("water", "wine", 3),
        ("kitten", "sitting", 3),
        ("saturday", "sunday", 3),
        ("pheromones", "photographer", 8),
    ];
    for (a, b, d) in data {
        assert_eq!(distance(a, b), d);
    }
}

#[test]
fn test_distance_edges() {
    assert_eq!(distance("", ""), 0);
    assert_eq!(distance("", "abc"), 3);
    assert_eq!(distance("abc", ""), 3);
    assert_eq!(distance("same", "same"), 0);
}
