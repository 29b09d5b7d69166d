use error_core::say_hello;

#[test]
fn say_hello_world() {
    assert_eq!(say_hello(None), "Hello, world!");
}

#[test]
fn say_hello_name() {
    assert_eq!(say_hello(Some("Heath")), "Hello, Heath!");
    assert_eq!(say_hello(Some("")), "Hello, !");
}
