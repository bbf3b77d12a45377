use sm::text::{join_with_spaces, split_tokens, usize_to_string};

#[test]
fn decimal_rendering() {
    assert_eq!(usize_to_string(0), "0");
    assert_eq!(usize_to_string(7), "7");
    assert_eq!(usize_to_string(10), "10");
    assert_eq!(usize_to_string(42), "42");
    assert_eq!(usize_to_string(12345), "12345");
}

#[test]
fn joining_with_spaces() {
    assert_eq!(join_with_spaces(&Vec::new()), "");
    assert_eq!(join_with_spaces(&vec!["one".to_string()]), "one");
    assert_eq!(
        join_with_spaces(&vec!["a.cpp".to_string(), "b.cpp".to_string(), "c.cpp".to_string()]),
        "a.cpp b.cpp c.cpp"
    );
}

#[test]
fn splitting_into_tokens() {
    assert_eq!(split_tokens("g++ -c a.cpp"), vec!["g++", "-c", "a.cpp"]);
    assert_eq!(split_tokens("  spaced \t out \n words  "), vec!["spaced", "out", "words"]);
    assert_eq!(split_tokens(""), Vec::<String>::new());
    assert_eq!(split_tokens(" \t "), Vec::<String>::new());
    assert_eq!(split_tokens("single"), vec!["single"]);
}
