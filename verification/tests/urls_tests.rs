use jpdb_flow::request::{FormRequest, HttpRequest, Method};
use jpdb_flow::urls::{abs_url, dec_string, search_path, DOMAIN, URL_PREFIX};

#[test]
fn absolute_urls_join_prefix_domain_and_path() {
    assert_eq!(URL_PREFIX, "https://");
    assert_eq!(DOMAIN, "jpdb.io");
    assert_eq!(abs_url("/deck/5/add"), "https://jpdb.io/deck/5/add");
    assert_eq!(abs_url(""), "https://jpdb.io");
}

#[test]
fn search_paths_embed_the_word() {
    assert_eq!(search_path("猫"), "/search?q=猫&lang=english#a");
    assert_eq!(search_path("cat"), "/search?q=cat&lang=english#a");
}

#[test]
fn decimal_rendering() {
    assert_eq!(dec_string(0), "0");
    assert_eq!(dec_string(5), "5");
    assert_eq!(dec_string(10), "10");
    assert_eq!(dec_string(1234567890), "1234567890");
    assert_eq!(dec_string(u64::MAX), "18446744073709551615");
}

#[test]
fn get_requests_carry_no_body() {
    let r = HttpRequest::get_to("/vocabulary/1442/neko");
    assert!(matches!(r.method, Method::Get));
    assert_eq!(r.url, "https://jpdb.io/vocabulary/1442/neko");
    assert!(r.form_body.is_none());
}

#[test]
fn form_encoding_escapes_reserved_characters() {
    let fr = FormRequest {
        path: String::from("/p"),
        fields: vec![
            (String::from("a"), String::from("b c")),
            (String::from("x"), String::from("1/2")),
        ],
    };
    let http = fr.to_http();
    assert!(matches!(http.method, Method::Post));
    assert_eq!(http.url, "https://jpdb.io/p");
    // Percent-encoding shows the pairs were really encoded, not echoed.
    assert_eq!(http.form_body.as_deref(), Some("a=b+c&x=1%2F2"));
}

#[test]
fn form_encoding_of_no_pairs_is_empty() {
    let fr = FormRequest { path: String::from("/p"), fields: vec![] };
    let http = fr.to_http();
    assert_eq!(http.form_body.as_deref(), Some(""));
}

#[test]
fn encoding_agrees_with_the_urlencoded_format() {
    let pairs = vec![
        (String::from("sentence"), String::from("猫がいる。")),
        (String::from("translation"), String::from("")),
    ];
    let expected = serde_urlencoded::to_string(&pairs).unwrap();
    let fr = FormRequest { path: String::from("/edit-shown-sentence?v=1&s=2&r=3"), fields: pairs };
    assert_eq!(fr.to_http().form_body.as_deref(), Some(expected.as_str()));
}
