use ownership_core::text::{concat_owned, first_token, first_word};

#[test]
fn first_token_stops_at_space() {
    assert_eq!(first_token("hello world"), "hello");
}

#[test]
fn first_token_without_space_is_whole_text() {
    assert_eq!(first_token("solo"), "solo");
}

#[test]
fn first_token_edge_cases() {
    assert_eq!(first_token(""), "");
    assert_eq!(first_token(" leading"), "");
    assert_eq!(first_token("a  b"), "a");
}

#[test]
fn first_token_keeps_multibyte_characters_whole() {
    assert_eq!(first_token("السلام عليكم"), "السلام");
    assert_eq!(first_token("héllo wörld"), "héllo");
    assert_eq!(first_token("日本語"), "日本語");
}

#[test]
fn first_word_of_owned_text() {
    let s = String::from("hello world");
    let word = first_word(&s);
    assert_eq!(word, "hello");
}

#[test]
fn concat_owned_keeps_borrowed_operand() {
    let a = String::from("Hello");
    let b = String::from("world");
    let r = concat_owned(a, ", ");
    let r = concat_owned(r, &b);
    let r = concat_owned(r, "!");
    assert_eq!(r, "Hello, world!");
    assert_eq!(b, "world");
}

#[test]
fn concat_owned_multibyte_and_empty() {
    let r = concat_owned(String::from("السلام عليكم"), "foo");
    assert_eq!(r, "السلام عليكمfoo");
    assert_eq!(concat_owned(String::new(), ""), "");
}
