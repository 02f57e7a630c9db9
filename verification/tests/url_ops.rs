use uuid_url_module::failure::{Domain, Failure};
use uuid_url_module::search_params::{
    build_search_params, form_decoded, params_of_bytes, parse_query, SearchParamsInit,
};
use uuid_url_module::url::{can_parse, construct, url_object};
use uuid_url_module::url_object::{PropertyValue, ScriptValue, UrlObject, UrlParts};

const NO_URL: Failure = Failure::MalformedInput(Domain::Url);

fn pairs(items: &[(&str, &str)]) -> Vec<(String, String)> {
    items.iter().map(|(k, v)| (k.to_string(), v.to_string())).collect()
}

fn params(query: &str) -> Vec<(String, String)> {
    build_search_params(Some(&SearchParamsInit::Query(query.to_string()))).pairs
}

#[test]
fn can_parse_refuses_a_broken_host() {
    assert!(!can_parse("http://[invalid"));
}

#[test]
fn construct_fails_with_the_url_message() {
    let failure = construct("http://[invalid", None).unwrap_err();
    assert_eq!(failure, NO_URL);
    assert_eq!(failure.message(), "Not a valid URL");
}

#[test]
fn construct_resolves_against_a_base() {
    let object = construct("/path", Some("https://example.com")).unwrap();
    assert!(object.has_value);
    assert_eq!(object.parts.host.as_deref(), Some("example.com"));
    assert_eq!(object.parts.href, "https://example.com/path");
    assert_eq!(object.parts.path, "/path");
    assert_eq!(object.parts.scheme, "https");
}

#[test]
fn construct_takes_an_absolute_url_apart() {
    let parts = construct("https://user:pw@Example.com:8080/a/b?x=1&y=2#frag", None)
        .unwrap()
        .parts;
    assert_eq!(
        parts,
        UrlParts {
            href: "https://user:pw@example.com:8080/a/b?x=1&y=2#frag".to_string(),
            scheme: "https".to_string(),
            username: "user".to_string(),
            password: Some("pw".to_string()),
            host: Some("example.com".to_string()),
            port: Some(8080),
            path: "/a/b".to_string(),
            query: Some("x=1&y=2".to_string()),
            fragment: Some("frag".to_string()),
        }
    );
}

#[test]
fn construct_leaves_out_what_a_url_lacks() {
    let parts = construct("http://example.org", None).unwrap().parts;
    assert_eq!(parts.href, "http://example.org/");
    assert_eq!(parts.username, "");
    assert_eq!(parts.password, None);
    assert_eq!(parts.port, None);
    assert_eq!(parts.path, "/");
    assert_eq!(parts.query, None);
    assert_eq!(parts.fragment, None);
    let data = construct("data:text/plain,Stuff", None).unwrap().parts;
    assert_eq!(data.host, None);
    assert_eq!(data.path, "text/plain,Stuff");
}

#[test]
fn construct_drops_the_default_port() {
    let parts = construct("https://example.com:443/", None).unwrap().parts;
    assert_eq!(parts.port, None);
    assert_eq!(parts.href, "https://example.com/");
}

#[test]
fn construct_with_an_absolute_input_ignores_the_base() {
    let object = construct("https://other.example/x", Some("https://example.com/a/b")).unwrap();
    assert_eq!(object.parts.href, "https://other.example/x");
}

#[test]
fn construct_resolves_relative_references() {
    let base = Some("https://example.com/a/b/c?q#f");
    assert_eq!(construct("d", base).unwrap().parts.href, "https://example.com/a/b/d");
    assert_eq!(construct("../d", base).unwrap().parts.href, "https://example.com/a/d");
    assert_eq!(construct("?x", base).unwrap().parts.href, "https://example.com/a/b/c?x");
    assert_eq!(construct("//h.example/p", base).unwrap().parts.href, "https://h.example/p");
}

#[test]
fn construct_needs_a_base_for_a_relative_input() {
    assert_eq!(construct("/path", None), Err(NO_URL));
    assert_eq!(construct("", None), Err(NO_URL));
    assert!(!can_parse("/path"));
}

#[test]
fn construct_refuses_a_broken_base() {
    assert_eq!(construct("/path", Some("not a base")), Err(NO_URL));
    assert_eq!(construct("https://example.com/", Some("http://[invalid")), Err(NO_URL));
    assert_eq!(construct("/path", Some("data:text/plain,Stuff")), Err(NO_URL));
}

#[test]
fn can_parse_agrees_with_construct() {
    for input in ["https://example.com", "http://[::1]:80/", "mailto:a@b.c", "x", "http://", ""] {
        assert_eq!(can_parse(input), construct(input, None).is_ok(), "{:?}", input);
    }
    assert!(can_parse("https://example.com"));
    assert!(can_parse("mailto:a@b.c"));
}

#[test]
fn url_object_of_a_failure() {
    assert_eq!(url_object(Err(url::ParseError::EmptyHost)), Err(NO_URL));
    assert_eq!(url_object(Err(url::ParseError::RelativeUrlWithoutBase)), Err(NO_URL));
}

#[test]
fn url_object_of_parts() {
    let parts = construct("https://example.com/", None).unwrap().parts;
    assert_eq!(
        url_object(Ok(parts.clone())),
        Ok(UrlObject { parts, has_value: true })
    );
}

#[test]
fn object_without_a_value_is_the_empty_text() {
    let empty = UrlObject::new();
    assert!(!empty.has_value);
    assert_eq!(empty.parts.href, "");
    assert_eq!(empty.parts.host, None);
    assert_eq!(empty.into_value(), ScriptValue::Text(String::new()));
}

#[test]
fn object_with_a_value_is_its_parts() {
    let object = construct("https://example.com/x", None).unwrap();
    let parts = object.parts.clone();
    assert_eq!(object.into_value(), ScriptValue::Object(parts.clone()));
    assert_eq!(UrlObject::of(parts.clone()), UrlObject { parts, has_value: true });
}

#[test]
fn search_params_keep_order_and_repeats() {
    assert_eq!(params("a=1&a=2&b=3"), pairs(&[("a", "1"), ("a", "2"), ("b", "3")]));
}

#[test]
fn search_params_from_nothing() {
    assert_eq!(build_search_params(None).pairs, pairs(&[]));
    assert_eq!(params(""), pairs(&[]));
    assert_eq!(params("?"), pairs(&[]));
    assert_eq!(params("&&&"), pairs(&[]));
}

#[test]
fn search_params_drop_one_question_mark() {
    assert_eq!(params("?a=1&b=2"), pairs(&[("a", "1"), ("b", "2")]));
    assert_eq!(params("??a=1"), pairs(&[("?a", "1")]));
    assert_eq!(params("a=?"), pairs(&[("a", "?")]));
}

#[test]
fn search_params_split_at_the_first_equals_sign() {
    assert_eq!(params("a=b=c"), pairs(&[("a", "b=c")]));
    assert_eq!(params("a"), pairs(&[("a", "")]));
    assert_eq!(params("a="), pairs(&[("a", "")]));
    assert_eq!(params("=b"), pairs(&[("", "b")]));
    assert_eq!(params("="), pairs(&[("", "")]));
}

#[test]
fn search_params_skip_empty_parameters() {
    assert_eq!(params("&a=1&&b=2&"), pairs(&[("a", "1"), ("b", "2")]));
}

#[test]
fn search_params_decode_escapes_and_plus_signs() {
    assert_eq!(params("a+b=c%20d"), pairs(&[("a b", "c d")]));
    assert_eq!(params("%61=%2B%26%3D"), pairs(&[("a", "+&=")]));
    assert_eq!(params("k=%C3%A9"), pairs(&[("k", "\u{e9}")]));
    assert_eq!(params("k=%c3%a9"), pairs(&[("k", "\u{e9}")]));
    assert_eq!(params("caf\u{e9}=\u{2603}"), pairs(&[("caf\u{e9}", "\u{2603}")]));
}

#[test]
fn search_params_leave_a_lone_percent_sign() {
    assert_eq!(params("a=100%"), pairs(&[("a", "100%")]));
    assert_eq!(params("a=%zz"), pairs(&[("a", "%zz")]));
    assert_eq!(params("a=%4"), pairs(&[("a", "%4")]));
    assert_eq!(params("a=%%41"), pairs(&[("a", "%A")]));
}

#[test]
fn search_params_replace_what_is_not_utf8() {
    assert_eq!(params("a=%ff"), pairs(&[("a", "\u{fffd}")]));
    assert_eq!(params("a=x%C3"), pairs(&[("a", "x\u{fffd}")]));
}

#[test]
fn search_params_from_pairs() {
    let given = pairs(&[("b", "2"), ("a", "1"), ("b", "3"), ("a+b", "%20")]);
    let made = build_search_params(Some(&SearchParamsInit::Pairs(given.clone())));
    assert_eq!(made.pairs, given);
}

#[test]
fn search_params_of_joined_queries() {
    let first = "x=1&y=2";
    let second = "z=3&x=4";
    let mut want = params(first);
    want.extend(params(second));
    assert_eq!(params(&format!("{}&{}", first, second)), want);
}

#[test]
fn parse_query_gives_decoded_bytes() {
    assert_eq!(
        parse_query(b"a=1&b=%00%ff&c"),
        vec![
            (b"a".to_vec(), b"1".to_vec()),
            (b"b".to_vec(), vec![0x00, 0xff]),
            (b"c".to_vec(), Vec::new()),
        ]
    );
    assert_eq!(parse_query(b"?a=1"), vec![(b"?a".to_vec(), b"1".to_vec())]);
}

#[test]
fn form_decoded_bytes() {
    assert_eq!(form_decoded(b""), b"".to_vec());
    assert_eq!(form_decoded(b"a+b%2Bc"), b"a b+c".to_vec());
    assert_eq!(form_decoded(b"%"), b"%".to_vec());
    assert_eq!(form_decoded(b"%2"), b"%2".to_vec());
    assert_eq!(form_decoded(b"%2g%41"), b"%2gA".to_vec());
    assert_eq!(form_decoded(b"%fF%Ff"), vec![0xff, 0xff]);
}

#[test]
fn params_of_bytes_reads_utf8() {
    let made = params_of_bytes(&vec![(b"k".to_vec(), vec![0xe2, 0x98, 0x83]), (vec![0x80], Vec::new())]);
    assert_eq!(made.pairs, pairs(&[("k", "\u{2603}"), ("\u{fffd}", "")]));
}

#[test]
fn properties_of_a_full_url() {
    let parts = construct("https://user:pw@example.com:8080/a/b?x=1#frag", None)
        .unwrap()
        .parts;
    let text = |s: &str| PropertyValue::Text(s.to_string());
    assert_eq!(
        parts.properties(),
        vec![
            ("href".to_string(), text("https://user:pw@example.com:8080/a/b?x=1#frag")),
            ("scheme".to_string(), text("https")),
            ("username".to_string(), text("user")),
            ("password".to_string(), text("pw")),
            ("hostname".to_string(), text("example.com")),
            ("port".to_string(), PropertyValue::Number(8080)),
            ("path".to_string(), text("/a/b")),
            ("query".to_string(), text("x=1")),
            ("fragment".to_string(), text("frag")),
        ]
    );
}

#[test]
fn properties_of_a_bare_url() {
    let parts = construct("data:,x", None).unwrap().parts;
    let text = |s: &str| PropertyValue::Text(s.to_string());
    assert_eq!(
        parts.properties(),
        vec![
            ("href".to_string(), text("data:,x")),
            ("scheme".to_string(), text("data")),
            ("username".to_string(), text("")),
            ("password".to_string(), PropertyValue::Missing),
            ("hostname".to_string(), PropertyValue::Missing),
            ("port".to_string(), PropertyValue::Missing),
            ("path".to_string(), text(",x")),
            ("query".to_string(), PropertyValue::Missing),
            ("fragment".to_string(), PropertyValue::Missing),
        ]
    );
}
