use domatt::aria::{AriaAtomic, AriaControls, AriaHasPopup, AriaHasPopupOption, AriaSetSize};
use domatt::global::{
    AccessKey, AriaRole, CustomAttribute, Data, Draggable, InputMode, InputModeOption, ItemType,
    Role, TabIndex, Title,
};
use domatt::Attribute;
use domatt::Url;

#[test]
fn access_key_joins_characters_under_a_spaced_key() {
    let attr = AccessKey::new(vec!['a', 'b']);
    assert_eq!(attr.get_key(), "accesskey");
    assert_eq!(attr.get_val(), Some("a b"));
}

#[test]
fn tab_index_renders_negative_numbers() {
    let attr = TabIndex::new(-1);
    assert_eq!(attr.get_key(), "tabindex");
    assert_eq!(attr.get_val(), Some("-1"));
}

#[test]
fn draggable_renders_the_flag() {
    assert_eq!(Draggable::new(true).get_val(), Some("true"));
    assert_eq!(Draggable::new(false).get_val(), Some("false"));
}

#[test]
fn title_wraps_the_text() {
    let attr = Title::new(String::from("hello"));
    assert_eq!(attr.get_key(), "title");
    assert_eq!(attr.get_val(), Some("hello"));
}

#[test]
fn data_attribute_builds_its_key_from_the_suffix() {
    let attr = Data::new(String::from("count"), String::from("3"));
    assert_eq!(attr.get_key(), "data-count");
    assert_eq!(attr.get_val(), Some("3"));
}

#[test]
fn custom_attribute_keeps_key_and_optional_value() {
    let with = CustomAttribute::new("x-mark", Some(String::from("here")));
    assert_eq!(with.get_key(), "x-mark");
    assert_eq!(with.get_val(), Some("here"));
    let without = CustomAttribute::new("x-flag", None);
    assert_eq!(without.get_val(), None);
}

#[test]
fn role_serializes_the_variant_word() {
    let role = Role::new(AriaRole::ListBox);
    assert_eq!(role.get_key(), "role");
    assert_eq!(role.get_val(), Some("listbox"));
    let custom = Role::new(AriaRole::Custom(String::from("doc-toc")));
    assert_eq!(custom.get_val(), Some("custom"));
}

#[test]
fn item_type_takes_a_url() {
    let attr = ItemType::new(Url::parse("https://schema.org/Person").unwrap());
    assert_eq!(attr.get_key(), "itemtype");
    assert_eq!(attr.get_val(), Some("https://schema.org/Person"));
}

#[test]
fn input_mode_serializes_lowercase() {
    let attr = InputMode::new(InputModeOption::Decimal);
    assert_eq!(attr.get_key(), "inputmode");
    assert_eq!(attr.get_val(), Some("decimal"));
    assert_eq!(InputMode::new(InputModeOption::NoneValue).get_val(), Some("none"));
}

#[test]
fn aria_atomic_renders_the_flag() {
    let attr = AriaAtomic::new(true);
    assert_eq!(attr.get_key(), "aria-atomic");
    assert_eq!(attr.get_val(), Some("true"));
}

#[test]
fn aria_controls_joins_ids() {
    let attr = AriaControls::new(vec![String::from("a"), String::from("b"), String::from("c")]);
    assert_eq!(attr.get_key(), "aria-controls");
    assert_eq!(attr.get_val(), Some("a b c"));
}

#[test]
fn aria_set_size_renders_signed_numbers() {
    let attr = AriaSetSize::new(-3);
    assert_eq!(attr.get_key(), "aria-setsize");
    assert_eq!(attr.get_val(), Some("-3"));
}

#[test]
fn aria_has_popup_serializes_the_option() {
    let attr = AriaHasPopup::new(AriaHasPopupOption::Dialog);
    assert_eq!(attr.get_key(), "aria-haspopup");
    assert_eq!(attr.get_val(), Some("dialog"));
}
