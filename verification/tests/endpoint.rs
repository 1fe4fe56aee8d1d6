use chatwork_post::endpoint::{post_message_url, post_message_url_text, API_HOST, API_SCHEME};

#[test]
fn url_text_is_scheme_host_and_room_path() {
    assert_eq!(post_message_url_text(42), "https://api.chatwork.com/v2/rooms/42/messages");
    assert_eq!(post_message_url_text(0), "https://api.chatwork.com/v2/rooms/0/messages");
    assert_eq!(
        post_message_url_text(u32::MAX),
        "https://api.chatwork.com/v2/rooms/4294967295/messages"
    );
}

#[test]
fn url_text_is_built_from_the_constants() {
    assert_eq!(API_SCHEME, "https");
    assert_eq!(API_HOST, "api.chatwork.com");
    let rooms: Vec<u32> = vec![0, 1, 10, 12345, 4_000_000_000];
    for room in rooms {
        let expected = format!("{}://{}/v2/rooms/{}/messages", API_SCHEME, API_HOST, room);
        assert_eq!(post_message_url_text(room), expected);
    }
}

#[test]
fn url_has_the_fixed_scheme_and_host_and_the_room_path() {
    let rooms: Vec<u32> = vec![0, 7, 42, 1000, 65536, u32::MAX];
    for room in rooms {
        let url = post_message_url(room).unwrap();
        assert_eq!(url.scheme(), "https");
        assert_eq!(url.host_str(), Some("api.chatwork.com"));
        assert_eq!(url.path(), format!("/v2/rooms/{}/messages", room));
        assert_eq!(url.port(), None);
        assert_eq!(url.query(), None);
        assert_eq!(url.fragment(), None);
        assert_eq!(url.username(), "");
        assert_eq!(url.password(), None);
    }
}

#[test]
fn url_is_what_the_parser_makes_of_the_text() {
    let rooms: Vec<u32> = vec![0, 42, u32::MAX];
    for room in rooms {
        let text = post_message_url_text(room);
        let url = post_message_url(room).unwrap();
        assert_eq!(url, url::Url::parse(&text).unwrap());
        assert_eq!(url.as_str(), text);
    }
}

#[test]
fn urls_of_two_rooms_differ() {
    assert_ne!(post_message_url_text(1), post_message_url_text(10));
    assert_ne!(post_message_url_text(12), post_message_url_text(21));
    assert_ne!(post_message_url(1).unwrap(), post_message_url(2).unwrap());
}
