use rust_tour::lifetimes::{
    lifetime_with_error_handling, longest, string_literal, ImportantExcerpt, Point,
};
use rust_tour::ownership::{
    calculate_length, change, first_word, gives_ownership, no_dangle, takes_and_gives_back,
};

#[test]
fn first_word_stops_at_the_first_space() {
    assert_eq!(first_word("hello world"), "hello");
    assert_eq!(first_word("hello"), "hello");
    assert_eq!(first_word(""), "");
    assert_eq!(first_word(" leading"), "");
    assert_eq!(first_word("a b c"), "a");
    assert_eq!(first_word("tab\tis no space"), "tab\tis");
}

#[test]
fn first_word_of_text_beyond_ascii() {
    assert_eq!(first_word("Grüß Gott!"), "Grüß");
    assert_eq!(first_word("世界，你好"), "世界，你好");
    assert_eq!(first_word("世界 你好"), "世界");
}

#[test]
fn first_word_of_an_owned_string() {
    let s = String::from("hello world");
    let word = first_word(&s);
    assert_eq!(word, "hello");
}

#[test]
fn length_counts_bytes() {
    assert_eq!(calculate_length(&String::from("hello")), 5);
    assert_eq!(calculate_length(&String::new()), 0);
    assert_eq!(calculate_length(&String::from("世界")), 6);
}

#[test]
fn change_appends_world() {
    let mut s = String::from("hello");
    change(&mut s);
    assert_eq!(s, "hello, world");
    change(&mut s);
    assert_eq!(s, "hello, world, world");
}

#[test]
fn ownership_moves_in_and_out() {
    assert_eq!(no_dangle(), "hello");
    assert_eq!(gives_ownership(), "yours");
    let s2 = String::from("hello");
    let s3 = takes_and_gives_back(s2);
    assert_eq!(s3, "hello");
}

#[test]
fn longest_prefers_the_second_on_a_tie() {
    assert_eq!(longest("abcd", "xyz"), "abcd");
    assert_eq!(longest("xyz", "abcd"), "abcd");
    assert_eq!(longest("abc", "xyz"), "xyz");
    assert_eq!(longest("", ""), "");
    assert_eq!(longest("世", "ab"), "世");
}

#[test]
fn excerpt_and_literal() {
    let novel = String::from("Call me Ishmael. Some years ago...");
    let first_sentence = novel.split('.').next().expect("Could not find a '.'");
    let i = ImportantExcerpt { part: first_sentence };
    assert_eq!(i.level(), 3);
    assert_eq!(i.announce_and_return_part(), "Call me Ishmael");
    assert_eq!(string_literal(), "I have a static lifetime.");
    assert_eq!(lifetime_with_error_handling(), Ok("成功"));
}

#[test]
fn borrowed_point_hands_out_what_it_borrowed() {
    let x = 10;
    let y = 20;
    let p = Point::new(&x, &y);
    assert_eq!(*p.get_x(), 10);
    assert_eq!(*p.get_y(), 20);
}
