use dust_bridging::uri::parse_token_id;

fn parse(s: &str) -> Option<u16> {
    parse_token_id(&s.as_bytes().to_vec())
}

#[test]
fn degods_uri_parses_to_3250() {
    assert_eq!(parse("https://metadata.degods.com/g/3250.json"), Some(3250));
}

#[test]
fn y00ts_uri_parses_to_67() {
    assert_eq!(parse("https://metadata.y00ts.com/y/67.json"), Some(67));
}

#[test]
fn uri_without_json_suffix_is_fatal() {
    assert_eq!(parse("https://metadata.degods.com/g/3250"), None);
    assert_eq!(parse("https://metadata.degods.com/g/3250.jso"), None);
}

#[test]
fn uri_without_slash_is_fatal() {
    assert_eq!(parse("3250.json"), None);
    assert_eq!(parse(""), None);
}

#[test]
fn non_numeral_content_is_fatal() {
    assert_eq!(parse("https://x.com/g/32a50.json"), None);
    assert_eq!(parse("https://x.com/g/.json"), None);
    assert_eq!(parse("https://x.com/g/-1.json"), None);
    assert_eq!(parse("https://x.com/g/+3.json"), None);
}

#[test]
fn numeral_must_fit_sixteen_bits() {
    assert_eq!(parse("https://x.com/g/65535.json"), Some(65535));
    assert_eq!(parse("https://x.com/g/65536.json"), None);
    assert_eq!(parse("https://x.com/g/999999.json"), None);
}

#[test]
fn last_slash_and_first_json_bound_the_numeral() {
    // the slash taken is the last one
    assert_eq!(parse("https://x.com/7/42.json"), Some(42));
    // the ".json" taken is the first one: it precedes the last slash,
    // so no numeral lies between them
    assert_eq!(parse("https://x.com/a.json/42.json"), None);
    // right-padded URIs still parse up to the first ".json"
    assert_eq!(parse("https://x.com/g/12.json\0\0\0\0"), Some(12));
}

#[test]
fn leading_zeros_are_plain_decimal() {
    assert_eq!(parse("https://x.com/g/007.json"), Some(7));
    assert_eq!(parse("https://x.com/g/0.json"), Some(0));
}
