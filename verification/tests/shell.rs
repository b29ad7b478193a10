use punch::shell::shell_quote;

#[test]
fn plain_words_are_put_in_single_quotes() {
    assert_eq!(shell_quote("https://demo.com"), "'https://demo.com'");
    assert_eq!(shell_quote(""), "''");
    assert_eq!(shell_quote("$HOME `x` \\ \""), "'$HOME `x` \\ \"'");
}

#[test]
fn single_quotes_are_put_in_double_quotes() {
    assert_eq!(shell_quote("a'b"), "'a'\"'\"'b'");
    assert_eq!(shell_quote("'"), "''\"'\"''");
}

/// What a POSIX shell makes of a word in quotes.
fn read(word: &str) -> String {
    let mut value = String::new();
    let mut quote: Option<char> = None;
    for c in word.chars() {
        match quote {
            None => quote = Some(c),
            Some(open) if open == c => quote = None,
            Some(_) => value.push(c),
        }
    }
    assert!(quote.is_none());
    value
}

#[test]
fn quoted_words_are_read_back() {
    for value in ["", "x", "'", "''", "a'b'c", "it's \"fine\"", "中'文"] {
        assert_eq!(read(&shell_quote(value)), value);
    }
}
