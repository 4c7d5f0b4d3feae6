//! Resolution of fixture identifiers under the fixed root.

use benchkit::resolver::ResourceResolver;

#[test]
fn resolves_under_fixed_root() {
    let resolver = ResourceResolver::new(String::from("root"));
    assert_eq!(resolver.resolve("foo/bar.mun"), "root/benches/resources/foo/bar.mun");
}

#[test]
fn resolves_absolute_style_root() {
    let resolver = ResourceResolver::new(String::from("/home/dev/project"));
    assert_eq!(resolver.resolve("fibonacci.mun"), "/home/dev/project/benches/resources/fibonacci.mun");
}

#[test]
fn resolution_is_repeatable() {
    let resolver = ResourceResolver::new(String::from("root"));
    let first = resolver.resolve("foo/bar.mun");
    let second = resolver.resolve("foo/bar.mun");
    assert_eq!(first, second);
}
