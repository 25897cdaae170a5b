use filecopy::invocation::Invocation;

fn paths(items: &[&str]) -> Vec<String> {
    items.iter().map(|item| String::from(*item)).collect()
}

#[test]
fn no_path_makes_no_invocation() {
    assert!(Invocation::new(0, Vec::new()).is_none());
}

#[test]
fn one_path_makes_no_invocation() {
    assert!(Invocation::new(3, paths(&["a.txt"])).is_none());
}

#[test]
fn two_paths_make_an_invocation() {
    let invocation = Invocation::new(1, paths(&["a.txt", "b.txt"])).unwrap();
    assert_eq!(invocation.verbosity(), 1);
    assert_eq!(invocation.paths(), &paths(&["a.txt", "b.txt"]));
}

#[test]
fn split_takes_the_last_path_as_destination() {
    let invocation = Invocation::new(0, paths(&["a.txt", "b.txt"])).unwrap();
    let (sources, destination) = invocation.split();
    assert_eq!(sources, paths(&["a.txt"]));
    assert_eq!(destination, "b.txt");
}

#[test]
fn split_keeps_the_order_of_the_sources() {
    let invocation = Invocation::new(2, paths(&["c", "a", "b", "a", "out"])).unwrap();
    let (sources, destination) = invocation.split();
    assert_eq!(sources, paths(&["c", "a", "b", "a"]));
    assert_eq!(destination, "out");
}
