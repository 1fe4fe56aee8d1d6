use chatwork_post::headers::{chatwork_api_headers, TOKEN_HEADER};

#[test]
fn headers_hold_the_token_alone() {
    let headers = chatwork_api_headers("TOK");
    assert_eq!(headers.len(), 1);
    assert_eq!(headers.keys_len(), 1);
    let names: Vec<String> = headers.keys().map(|name| name.as_str().to_string()).collect();
    assert_eq!(names, vec!["x-chatworktoken".to_string()]);
    assert_eq!(headers.get("x-chatworktoken").unwrap(), "TOK");
    assert_eq!(headers.get_all("x-chatworktoken").iter().count(), 1);
}

#[test]
fn headers_are_found_under_the_token_header_name() {
    assert_eq!(TOKEN_HEADER, "X-ChatWorkToken");
    let headers = chatwork_api_headers("0123456789abcdef");
    assert_eq!(headers.get(TOKEN_HEADER).unwrap(), "0123456789abcdef");
    assert_eq!(headers.get("X-CHATWORKTOKEN").unwrap(), "0123456789abcdef");
    assert_eq!(headers.get_all(TOKEN_HEADER).iter().count(), 1);
    assert!(headers.get("authorization").is_none());
    assert!(headers.get("content-type").is_none());
}

#[test]
fn headers_keep_the_token_unchanged() {
    let tokens: Vec<&str> = vec!["", " ", " padded ", "a b\tc", "UPPER lower", "~!@#$%^&*()", "\"quoted\""];
    for token in tokens {
        let headers = chatwork_api_headers(token);
        assert_eq!(headers.len(), 1);
        assert_eq!(headers.get(TOKEN_HEADER).unwrap(), token);
    }
}

#[test]
fn headers_keep_a_token_beyond_ascii_as_its_bytes() {
    let token = "\u{30c8}\u{30fc}\u{30af}\u{30f3}-\u{00e9}-\u{1f511}";
    let headers = chatwork_api_headers(token);
    assert_eq!(headers.len(), 1);
    assert_eq!(headers.get(TOKEN_HEADER).unwrap(), token);
}

#[test]
fn headers_keep_a_token_with_control_characters() {
    let tokens: Vec<&str> =
        vec!["a\nb", "a\rb", "a\r\nb", "\u{0}", "tok\u{1f}", "tok\u{7f}", "\u{7f}", "\t", "\n"];
    for token in tokens {
        let headers = chatwork_api_headers(token);
        assert_eq!(headers.len(), 1);
        assert_eq!(headers.keys_len(), 1);
        assert_eq!(headers.get(TOKEN_HEADER).unwrap(), token);
    }
}

#[test]
fn headers_add_nothing_to_the_token() {
    let headers = chatwork_api_headers("Bearer");
    assert_eq!(headers.get(TOKEN_HEADER).unwrap(), "Bearer");
    let cased = chatwork_api_headers("MiXeD");
    assert_eq!(cased.get(TOKEN_HEADER).unwrap(), "MiXeD");
    let encoded = chatwork_api_headers("a%20b+c=d&e");
    assert_eq!(encoded.get(TOKEN_HEADER).unwrap(), "a%20b+c=d&e");
}
