use asset_service::greeter::{greeting, MyGreeter};

#[test]
fn greeting_wraps_the_name() {
    assert_eq!(greeting("world"), "Hello world!");
}

#[test]
fn greeting_of_empty_name() {
    assert_eq!(greeting(""), "Hello !");
}

#[test]
fn greeter_says_hello() {
    let greeter = MyGreeter::new();
    assert_eq!(greeter.say_hello("tonic"), "Hello tonic!");
    let by_default = MyGreeter::default();
    assert_eq!(by_default.say_hello("again"), "Hello again!");
}
