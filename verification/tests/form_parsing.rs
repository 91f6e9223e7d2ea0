use rocket_auth::form::parse_form;
use rocket_auth::form::url_decode;
use rocket_auth::FormItem;

fn parsed(body: &[u8]) -> Vec<FormItem> {
    parse_form(body).expect("body should be well formed")
}

fn pair(item: &FormItem) -> (&[u8], &[u8]) {
    (item.key.as_slice(), item.value.as_slice())
}

#[test]
fn parse_two_items() {
    let items = parsed(b"username=bob&password=pw");
    assert_eq!(items.len(), 2);
    assert_eq!(pair(&items[0]), (b"username".as_slice(), b"bob".as_slice()));
    assert_eq!(pair(&items[1]), (b"password".as_slice(), b"pw".as_slice()));
}

#[test]
fn parse_empty_body() {
    let items = parsed(b"");
    assert_eq!(items.len(), 0);
}

#[test]
fn parse_malformed_second_equals() {
    assert!(parse_form(b"a=b=c").is_none());
    assert!(parse_form(b"key=value&a==").is_none());
}

#[test]
fn parse_item_without_value() {
    let items = parsed(b"a&b=c");
    assert_eq!(items.len(), 2);
    assert_eq!(pair(&items[0]), (b"a".as_slice(), b"".as_slice()));
    assert_eq!(pair(&items[1]), (b"b".as_slice(), b"c".as_slice()));
}

#[test]
fn parse_lone_separator() {
    let items = parsed(b"&");
    assert_eq!(items.len(), 1);
    assert_eq!(pair(&items[0]), (b"".as_slice(), b"".as_slice()));
}

#[test]
fn parse_trailing_separator() {
    let items = parsed(b"a=b&");
    assert_eq!(items.len(), 1);
    assert_eq!(pair(&items[0]), (b"a".as_slice(), b"b".as_slice()));
}

#[test]
fn parse_plain_body_single_item() {
    let items = parsed(b"justakey");
    assert_eq!(items.len(), 1);
    assert_eq!(pair(&items[0]), (b"justakey".as_slice(), b"".as_slice()));
}

#[test]
fn url_decode_plus_and_percent() {
    assert_eq!(url_decode(b"a+b%41"), b"a bA".to_vec());
}

#[test]
fn url_decode_incomplete_escape_kept() {
    assert_eq!(url_decode(b"%4g%"), b"%4g%".to_vec());
    assert_eq!(url_decode(b"100%"), b"100%".to_vec());
}

#[test]
fn url_decode_escaped_plus() {
    assert_eq!(url_decode(b"%2B"), b"+".to_vec());
    assert_eq!(url_decode(b"%2b"), b"+".to_vec());
}

#[test]
fn url_decode_plain_unchanged() {
    assert_eq!(url_decode(b"bob"), b"bob".to_vec());
}

#[test]
fn key_value_decoded_both_sides() {
    let items = parsed(b"user%20name=a+b");
    let (k, v) = items[0].key_value_decoded();
    assert_eq!(k, b"user name".to_vec());
    assert_eq!(v, b"a b".to_vec());
}
