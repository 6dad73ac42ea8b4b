use domatt::keys::{attribute_key, event_key, key_case, KeyCase};
use domatt::text::{bool_to_string, i64_to_string, join_spaces, u64_to_string};
use domatt::{AttributeError, NumberOrString};

fn chars(s: &str) -> Vec<char> {
    s.chars().collect()
}

#[test]
fn key_case_reads_the_convention_labels() {
    assert_eq!(key_case("camelCase"), KeyCase::Camel);
    assert_eq!(key_case("kebab-case"), KeyCase::Kebab);
    assert_eq!(key_case("lowercase"), KeyCase::Lower);
    assert_eq!(key_case("panose-1"), KeyCase::AsIs);
}

#[test]
fn attribute_keys_match_the_derived_ones() {
    assert_eq!(attribute_key(&chars("AriaAtomic"), KeyCase::Kebab), "aria-atomic");
    assert_eq!(attribute_key(&chars("HrefLang"), KeyCase::Camel), "hrefLang");
    assert_eq!(attribute_key(&chars("AccessKey"), KeyCase::Lower), "accesskey");
    assert_eq!(attribute_key(&chars("Panose1"), KeyCase::AsIs), "Panose1");
}

#[test]
fn word_splitting_handles_acronyms_and_digits() {
    assert_eq!(attribute_key(&chars("ClassID"), KeyCase::Camel), "classId");
    assert_eq!(attribute_key(&chars("XChannelSelector"), KeyCase::Camel), "xChannelSelector");
    assert_eq!(attribute_key(&chars("X1"), KeyCase::Kebab), "x-1");
    assert_eq!(attribute_key(&chars("In2"), KeyCase::Lower), "in2");
}

#[test]
fn event_keys_are_flat_lowercase() {
    assert_eq!(event_key(&chars("MouseEnter")), "mouseenter");
    assert_eq!(event_key(&chars("Blur")), "blur");
}

#[test]
fn numbers_render_in_decimal() {
    assert_eq!(u64_to_string(0), "0");
    assert_eq!(u64_to_string(90210), "90210");
    assert_eq!(i64_to_string(-42), "-42");
    assert_eq!(i64_to_string(i64::MIN), "-9223372036854775808");
    assert_eq!(i64_to_string(i64::MAX), "9223372036854775807");
}

#[test]
fn flags_render_as_words() {
    assert_eq!(bool_to_string(true), "true");
    assert_eq!(bool_to_string(false), "false");
}

#[test]
fn join_spaces_puts_single_spaces_between_words() {
    assert_eq!(join_spaces(&vec![]), "");
    assert_eq!(join_spaces(&vec![String::from("one")]), "one");
    assert_eq!(
        join_spaces(&vec![String::from("a"), String::from(""), String::from("c")]),
        "a  c"
    );
}

#[test]
fn number_or_string_serializes_both_arms() {
    assert_eq!(NumberOrString::Number(-5).to_string(), "-5");
    assert_eq!(NumberOrString::String(String::from("4em")).to_string(), "4em");
}

#[test]
fn attribute_error_describes_itself() {
    let err = AttributeError {
        key: String::from("href"),
        value: String::from("x"),
        tag: String::from("a"),
        message: String::from("Failed to set attribute."),
    };
    assert_eq!(
        err.describe(),
        "Failed to set attribute. Key: href, Value: x, Element Tag: a"
    );
}
