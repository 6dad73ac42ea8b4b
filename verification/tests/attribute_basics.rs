use domatt::anchor::{ATagRel, Download, Href, HrefLang, Ping, ReferrerPolicy, Rel, Target, Type};
use domatt::Attribute;
use domatt::{attribute_strings, HtmlAttributeReferrerPolicy, TargetOption, Url};

#[test]
fn download_wraps_or_empties() {
    let set = Download::new(Some(String::from("report.pdf")));
    assert_eq!(set.get_key(), "download");
    assert_eq!(set.get_val(), Some("report.pdf"));
    let unset = Download::new(None);
    assert_eq!(unset.get_val(), Some(""));
}

#[test]
fn href_stores_the_url_serialization() {
    let url = Url::parse("https://example.com").unwrap();
    let href = Href::new(url);
    assert_eq!(href.get_key(), "href");
    assert_eq!(href.get_val(), Some("https://example.com/"));
}

#[test]
fn href_lang_key_is_camel_cased() {
    let attr = HrefLang::new(String::from("en"));
    assert_eq!(attr.get_key(), "hrefLang");
    assert_eq!(attr.get_val(), Some("en"));
}

#[test]
fn ping_joins_urls_with_spaces() {
    let a = Url::parse("https://a.example/x").unwrap();
    let b = Url::parse("https://b.example/y").unwrap();
    let ping = Ping::new(vec![a, b]);
    assert_eq!(ping.get_key(), "ping");
    assert_eq!(
        ping.get_val(),
        Some("https://a.example/x https://b.example/y")
    );
}

#[test]
fn ping_of_nothing_is_empty() {
    let ping = Ping::new(Vec::new());
    assert_eq!(ping.get_val(), Some(""));
}

#[test]
fn rel_joins_link_types() {
    let rel = Rel::new(vec![ATagRel::Noopener, ATagRel::Noreferrer, ATagRel::Me]);
    assert_eq!(rel.get_key(), "rel");
    assert_eq!(rel.get_val(), Some("noopener noreferrer me"));
}

#[test]
fn referrer_policy_serializes_kebab_case() {
    let p = ReferrerPolicy::new(HtmlAttributeReferrerPolicy::NoReferrerWhenDowngrade);
    assert_eq!(p.get_key(), "referrerpolicy");
    assert_eq!(p.get_val(), Some("no-referrer-when-downgrade"));
    let blank = ReferrerPolicy::new(HtmlAttributeReferrerPolicy::Blank);
    assert_eq!(blank.get_val(), Some(""));
}

#[test]
fn target_serializes_fixed_words() {
    assert_eq!(Target::new(TargetOption::Self_).get_val(), Some("_self"));
    assert_eq!(Target::new(TargetOption::Blank).get_val(), Some("_blank"));
    let custom = Target::new(TargetOption::Custom(String::from("tab-7")));
    assert_eq!(custom.get_val(), Some("Custom"));
}

#[test]
fn anchor_type_key_is_target() {
    let t = Type::new(String::from("text/html"));
    assert_eq!(t.get_key(), "target");
    assert_eq!(t.get_val(), Some("text/html"));
}

#[test]
fn attribute_strings_pairs_key_and_value() {
    let href = Href::new(Url::parse("https://example.com/a").unwrap());
    let (key, value) = attribute_strings(&href);
    assert_eq!(key, "href");
    assert_eq!(value, "https://example.com/a");
}

#[test]
fn attribute_strings_gives_boolean_attributes_an_empty_value() {
    let open = domatt::details::Open;
    let (key, value) = attribute_strings(&open);
    assert_eq!(key, "open");
    assert_eq!(value, "");
}

#[test]
fn url_parse_rejects_what_the_parser_rejects() {
    assert!(Url::parse("not a url").is_none());
    assert!(Url::parse("https://example.com").is_some());
}

#[test]
fn url_parse_normalizes() {
    let u = Url::parse("HTTPS://EXAMPLE.com/Path").unwrap();
    assert_eq!(u.as_str(), "https://example.com/Path");
}
