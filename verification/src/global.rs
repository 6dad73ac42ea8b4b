//! Attributes shared by every HTML element.

use vstd::prelude::*;
use vstd::seq_lib::*;
use crate::text::{spec_join_spaces, join_spaces, join_chars, spec_bool, bool_to_string, spec_idec, i64_to_string};
use crate::{Attribute, Url};

verus! {

/// Marks an attribute as accepted by every HTML element.
pub trait GlobalAttribute: Attribute {}

/// <https://developer.mozilla.org/en-US/docs/Web/HTML/Global_attributes/accesskey>
#[derive(Debug)]
pub struct AccessKey(String);

impl AccessKey {
    /// Joins the given characters with spaces.
    pub fn new(val: Vec<char>) -> (r: Self)
        ensures
            r.spec_val() == Some(spec_join_spaces(val@.map_values(|c: char| seq![c]))),
    {
        AccessKey(join_chars(&val))
    }
}

impl Attribute for AccessKey {
    open spec fn spec_key(&self) -> Seq<char> {
        "accesskey"@
    }

    closed spec fn spec_val(&self) -> Option<Seq<char>> {
        Some(self.0@)
    }

    fn get_key(&self) -> &str {
        "accesskey"
    }

    fn get_val(&self) -> Option<&str> {
        Some(self.0.as_str())
    }
}

impl GlobalAttribute for AccessKey {}
impl crate::anchor::AnchorAttribute for AccessKey {}
impl crate::area::AreaAttribute for AccessKey {}
impl crate::audio::AudioAttribute for AccessKey {}
impl crate::base::BaseAttribute for AccessKey {}
impl crate::blockquote::BlockQuoteAttribute for AccessKey {}
impl crate::button::ButtonAttribute for AccessKey {}
impl crate::canvas::CanvasAttribute for AccessKey {}
impl crate::col::ColAttribute for AccessKey {}
impl crate::colgroup::ColGroupAttribute for AccessKey {}
impl crate::data::DataAttribute for AccessKey {}
impl crate::details::DetailsAttribute for AccessKey {}
impl crate::svg::SvgAttribute for AccessKey {}

/// <https://developer.mozilla.org/en-US/docs/Web/HTML/Global_attributes/autocapitalize>
#[derive(Debug)]
pub struct AutoCapitalize(AutoCapitalizeOptions);

impl AutoCapitalize {
    /// Wraps the chosen option.
    pub fn new(val: AutoCapitalizeOptions) -> (r: Self)
        ensures
            r.spec_val() == Some(val.spec_str()),
    {
        AutoCapitalize(val)
    }
}

impl Attribute for AutoCapitalize {
    open spec fn spec_key(&self) -> Seq<char> {
        "autocapitalize"@
    }

    closed spec fn spec_val(&self) -> Option<Seq<char>> {
        Some(self.0.spec_str())
    }

    fn get_key(&self) -> &str {
        "autocapitalize"
    }

    fn get_val(&self) -> Option<&str> {
        Some(self.0.as_str())
    }
}

impl GlobalAttribute for AutoCapitalize {}
impl crate::anchor::AnchorAttribute for AutoCapitalize {}
impl crate::area::AreaAttribute for AutoCapitalize {}
impl crate::audio::AudioAttribute for AutoCapitalize {}
impl crate::base::BaseAttribute for AutoCapitalize {}
impl crate::blockquote::BlockQuoteAttribute for AutoCapitalize {}
impl crate::button::ButtonAttribute for AutoCapitalize {}
impl crate::canvas::CanvasAttribute for AutoCapitalize {}
impl crate::col::ColAttribute for AutoCapitalize {}
impl crate::colgroup::ColGroupAttribute for AutoCapitalize {}
impl crate::data::DataAttribute for AutoCapitalize {}
impl crate::details::DetailsAttribute for AutoCapitalize {}
impl crate::svg::SvgAttribute for AutoCapitalize {}

#[derive(Debug)]
pub enum AutoCapitalizeOptions {
    Off,
    NoneValue,
    On,
    Sentences,
    Words,
    Characters,
}

impl AutoCapitalizeOptions {
    /// The serialized form of the option.
    pub open spec fn spec_str(&self) -> Seq<char> {
        match self {
            AutoCapitalizeOptions::Off => "off"@,
            AutoCapitalizeOptions::NoneValue => "none"@,
            AutoCapitalizeOptions::On => "on"@,
            AutoCapitalizeOptions::Sentences => "sentences"@,
            AutoCapitalizeOptions::Words => "words"@,
            AutoCapitalizeOptions::Characters => "characters"@,
        }
    }

    /// The serialized form of the option.
    pub fn as_str(&self) -> (r: &str)
        ensures
            r@ == self.spec_str(),
    {
        match self {
            AutoCapitalizeOptions::Off => "off",
            AutoCapitalizeOptions::NoneValue => "none",
            AutoCapitalizeOptions::On => "on",
            AutoCapitalizeOptions::Sentences => "sentences",
            AutoCapitalizeOptions::Words => "words",
            AutoCapitalizeOptions::Characters => "characters",
        }
    }
}

/// <https://developer.mozilla.org/en-US/docs/Web/HTML/Global_attributes/autofocus>
#[derive(Debug)]
pub struct Autofocus;

impl Attribute for Autofocus {
    open spec fn spec_key(&self) -> Seq<char> {
        "autofocus"@
    }

    open spec fn spec_val(&self) -> Option<Seq<char>> {
        None
    }

    fn get_key(&self) -> &str {
        "autofocus"
    }

    fn get_val(&self) -> Option<&str> {
        None
    }
}

impl GlobalAttribute for Autofocus {}
impl crate::anchor::AnchorAttribute for Autofocus {}
impl crate::area::AreaAttribute for Autofocus {}
impl crate::audio::AudioAttribute for Autofocus {}
impl crate::base::BaseAttribute for Autofocus {}
impl crate::blockquote::BlockQuoteAttribute for Autofocus {}
impl crate::button::ButtonAttribute for Autofocus {}
impl crate::canvas::CanvasAttribute for Autofocus {}
impl crate::col::ColAttribute for Autofocus {}
impl crate::colgroup::ColGroupAttribute for Autofocus {}
impl crate::data::DataAttribute for Autofocus {}
impl crate::details::DetailsAttribute for Autofocus {}
impl crate::svg::SvgAttribute for Autofocus {}

/// <https://developer.mozilla.org/en-US/docs/Web/HTML/Global_attributes/contenteditable>
#[derive(Debug)]
pub struct ContentEditable(ContentEditableOptions);

impl ContentEditable {
    /// Wraps the chosen option.
    pub fn new(val: ContentEditableOptions) -> (r: Self)
        ensures
            r.spec_val() == Some(val.spec_str()),
    {
        ContentEditable(val)
    }
}

impl Attribute for ContentEditable {
    open spec fn spec_key(&self) -> Seq<char> {
        "contenteditable"@
    }

    closed spec fn spec_val(&self) -> Option<Seq<char>> {
        Some(self.0.spec_str())
    }

    fn get_key(&self) -> &str {
        "contenteditable"
    }

    fn get_val(&self) -> Option<&str> {
        Some(self.0.as_str())
    }
}

impl GlobalAttribute for ContentEditable {}
impl crate::anchor::AnchorAttribute for ContentEditable {}
impl crate::area::AreaAttribute for ContentEditable {}
impl crate::audio::AudioAttribute for ContentEditable {}
impl crate::base::BaseAttribute for ContentEditable {}
impl crate::blockquote::BlockQuoteAttribute for ContentEditable {}
impl crate::button::ButtonAttribute for ContentEditable {}
impl crate::canvas::CanvasAttribute for ContentEditable {}
impl crate::col::ColAttribute for ContentEditable {}
impl crate::colgroup::ColGroupAttribute for ContentEditable {}
impl crate::data::DataAttribute for ContentEditable {}
impl crate::details::DetailsAttribute for ContentEditable {}
impl crate::svg::SvgAttribute for ContentEditable {}

/// <https://developer.mozilla.org/en-US/docs/Web/HTML/Global_attributes/data-*>
#[derive(Debug)]
pub struct Data {
    key: String,
    value: String,
}

impl Data {
    /// Builds a `data-*` attribute: the key is `data-` followed by the
    /// given suffix, the value is stored as given.
    pub fn new(suffix: String, value: String) -> (r: Self)
        ensures
            r.spec_key() == "data-"@ + suffix@,
            r.spec_val() == Some(value@),
    {
        let mut key = String::from_str("data-");
        key.append(suffix.as_str());
        Data { key, value }
    }
}

impl Attribute for Data {
    closed spec fn spec_key(&self) -> Seq<char> {
        self.key@
    }

    closed spec fn spec_val(&self) -> Option<Seq<char>> {
        Some(self.value@)
    }

    fn get_key(&self) -> &str {
        self.key.as_str()
    }

    fn get_val(&self) -> Option<&str> {
        Some(self.value.as_str())
    }
}

impl GlobalAttribute for Data {}

impl crate::anchor::AnchorAttribute for Data {}
impl crate::area::AreaAttribute for Data {}
impl crate::audio::AudioAttribute for Data {}
impl crate::base::BaseAttribute for Data {}
impl crate::blockquote::BlockQuoteAttribute for Data {}
impl crate::button::ButtonAttribute for Data {}
impl crate::canvas::CanvasAttribute for Data {}
impl crate::col::ColAttribute for Data {}
impl crate::colgroup::ColGroupAttribute for Data {}
impl crate::data::DataAttribute for Data {}
impl crate::details::DetailsAttribute for Data {}
impl crate::svg::SvgAttribute for Data {}

/// <https://developer.mozilla.org/en-US/docs/Web/HTML/Global_attributes/dir>
#[derive(Debug)]
pub struct Dir(DirOptions);

impl Dir {
    /// Wraps the chosen option.
    pub fn new(val: DirOptions) -> (r: Self)
        ensures
            r.spec_val() == Some(val.spec_str()),
    {
        Dir(val)
    }
}

impl Attribute for Dir {
    open spec fn spec_key(&self) -> Seq<char> {
        "dir"@
    }

    closed spec fn spec_val(&self) -> Option<Seq<char>> {
        Some(self.0.spec_str())
    }

    fn get_key(&self) -> &str {
        "dir"
    }

    fn get_val(&self) -> Option<&str> {
        Some(self.0.as_str())
    }
}

impl GlobalAttribute for Dir {}
impl crate::anchor::AnchorAttribute for Dir {}
impl crate::area::AreaAttribute for Dir {}
impl crate::audio::AudioAttribute for Dir {}
impl crate::base::BaseAttribute for Dir {}
impl crate::blockquote::BlockQuoteAttribute for Dir {}
impl crate::button::ButtonAttribute for Dir {}
impl crate::canvas::CanvasAttribute for Dir {}
impl crate::col::ColAttribute for Dir {}
impl crate::colgroup::ColGroupAttribute for Dir {}
impl crate::data::DataAttribute for Dir {}
impl crate::details::DetailsAttribute for Dir {}
impl crate::svg::SvgAttribute for Dir {}

#[derive(Debug)]
pub enum DirOptions {
    Ltr,
    Rtl,
    Auto,
}

impl DirOptions {
    /// The serialized form of the option.
    pub open spec fn spec_str(&self) -> Seq<char> {
        match self {
            DirOptions::Ltr => "ltr"@,
            DirOptions::Rtl => "rtl"@,
            DirOptions::Auto => "auto"@,
        }
    }

    /// The serialized form of the option.
    pub fn as_str(&self) -> (r: &str)
        ensures
            r@ == self.spec_str(),
    {
        match self {
            DirOptions::Ltr => "ltr",
            DirOptions::Rtl => "rtl",
            DirOptions::Auto => "auto",
        }
    }
}

/// <https://developer.mozilla.org/en-US/docs/Web/HTML/Global_attributes/draggable>
#[derive(Debug)]
pub struct Draggable(String);

impl Draggable {
    /// Stores the flag serialized as `true` or `false`.
    pub fn new(val: bool) -> (r: Self)
        ensures
            r.spec_val() == Some(spec_bool(val)),
    {
        Draggable(bool_to_string(val))
    }
}

impl Attribute for Draggable {
    open spec fn spec_key(&self) -> Seq<char> {
        "draggable"@
    }

    closed spec fn spec_val(&self) -> Option<Seq<char>> {
        Some(self.0@)
    }

    fn get_key(&self) -> &str {
        "draggable"
    }

    fn get_val(&self) -> Option<&str> {
        Some(self.0.as_str())
    }
}

impl GlobalAttribute for Draggable {}
impl crate::anchor::AnchorAttribute for Draggable {}
impl crate::area::AreaAttribute for Draggable {}
impl crate::audio::AudioAttribute for Draggable {}
impl crate::base::BaseAttribute for Draggable {}
impl crate::blockquote::BlockQuoteAttribute for Draggable {}
impl crate::button::ButtonAttribute for Draggable {}
impl crate::canvas::CanvasAttribute for Draggable {}
impl crate::col::ColAttribute for Draggable {}
impl crate::colgroup::ColGroupAttribute for Draggable {}
impl crate::data::DataAttribute for Draggable {}
impl crate::details::DetailsAttribute for Draggable {}
impl crate::svg::SvgAttribute for Draggable {}

/// <https://developer.mozilla.org/en-US/docs/Web/HTML/Global_attributes/enterkeyhint>
#[derive(Debug)]
pub struct EnterKeyHint(EnterKeyHintOption);

impl EnterKeyHint {
    /// Wraps the chosen option.
    pub fn new(val: EnterKeyHintOption) -> (r: Self)
        ensures
            r.spec_val() == Some(val.spec_str()),
    {
        EnterKeyHint(val)
    }
}

impl Attribute for EnterKeyHint {
    open spec fn spec_key(&self) -> Seq<char> {
        "enterkeyhint"@
    }

    closed spec fn spec_val(&self) -> Option<Seq<char>> {
        Some(self.0.spec_str())
    }

    fn get_key(&self) -> &str {
        "enterkeyhint"
    }

    fn get_val(&self) -> Option<&str> {
        Some(self.0.as_str())
    }
}

impl GlobalAttribute for EnterKeyHint {}
impl crate::anchor::AnchorAttribute for EnterKeyHint {}
impl crate::area::AreaAttribute for EnterKeyHint {}
impl crate::audio::AudioAttribute for EnterKeyHint {}
impl crate::base::BaseAttribute for EnterKeyHint {}
impl crate::blockquote::BlockQuoteAttribute for EnterKeyHint {}
impl crate::button::ButtonAttribute for EnterKeyHint {}
impl crate::canvas::CanvasAttribute for EnterKeyHint {}
impl crate::col::ColAttribute for EnterKeyHint {}
impl crate::colgroup::ColGroupAttribute for EnterKeyHint {}
impl crate::data::DataAttribute for EnterKeyHint {}
impl crate::details::DetailsAttribute for EnterKeyHint {}
impl crate::svg::SvgAttribute for EnterKeyHint {}

#[derive(Debug)]
pub enum EnterKeyHintOption {
    Enter,
    Done,
    Go,
    Next,
    Previous,
    Search,
    Send,
}

impl EnterKeyHintOption {
    /// The serialized form of the option.
    pub open spec fn spec_str(&self) -> Seq<char> {
        match self {
            EnterKeyHintOption::Enter => "enter"@,
            EnterKeyHintOption::Done => "done"@,
            EnterKeyHintOption::Go => "go"@,
            EnterKeyHintOption::Next => "next"@,
            EnterKeyHintOption::Previous => "previous"@,
            EnterKeyHintOption::Search => "search"@,
            EnterKeyHintOption::Send => "send"@,
        }
    }

    /// The serialized form of the option.
    pub fn as_str(&self) -> (r: &str)
        ensures
            r@ == self.spec_str(),
    {
        match self {
            EnterKeyHintOption::Enter => "enter",
            EnterKeyHintOption::Done => "done",
            EnterKeyHintOption::Go => "go",
            EnterKeyHintOption::Next => "next",
            EnterKeyHintOption::Previous => "previous",
            EnterKeyHintOption::Search => "search",
            EnterKeyHintOption::Send => "send",
        }
    }
}

/// <https://developer.mozilla.org/en-US/docs/Web/HTML/Global_attributes/hidden>
#[derive(Debug)]
pub struct Hidden;

impl Attribute for Hidden {
    open spec fn spec_key(&self) -> Seq<char> {
        "hidden"@
    }

    open spec fn spec_val(&self) -> Option<Seq<char>> {
        None
    }

    fn get_key(&self) -> &str {
        "hidden"
    }

    fn get_val(&self) -> Option<&str> {
        None
    }
}

impl GlobalAttribute for Hidden {}
impl crate::anchor::AnchorAttribute for Hidden {}
impl crate::area::AreaAttribute for Hidden {}
impl crate::audio::AudioAttribute for Hidden {}
impl crate::base::BaseAttribute for Hidden {}
impl crate::blockquote::BlockQuoteAttribute for Hidden {}
impl crate::button::ButtonAttribute for Hidden {}
impl crate::canvas::CanvasAttribute for Hidden {}
impl crate::col::ColAttribute for Hidden {}
impl crate::colgroup::ColGroupAttribute for Hidden {}
impl crate::data::DataAttribute for Hidden {}
impl crate::details::DetailsAttribute for Hidden {}
impl crate::svg::SvgAttribute for Hidden {}

/// <https://developer.mozilla.org/en-US/docs/Web/HTML/Global_attributes/id>
#[derive(Debug)]
pub struct Id(String);

impl Id {
    /// Wraps the given value.
    pub fn new(val: String) -> (r: Self)
        ensures
            r.spec_val() == Some(val@),
    {
        Id(val)
    }
}

impl Attribute for Id {
    open spec fn spec_key(&self) -> Seq<char> {
        "id"@
    }

    closed spec fn spec_val(&self) -> Option<Seq<char>> {
        Some(self.0@)
    }

    fn get_key(&self) -> &str {
        "id"
    }

    fn get_val(&self) -> Option<&str> {
        Some(self.0.as_str())
    }
}

impl GlobalAttribute for Id {}
impl crate::anchor::AnchorAttribute for Id {}
impl crate::area::AreaAttribute for Id {}
impl crate::audio::AudioAttribute for Id {}
impl crate::base::BaseAttribute for Id {}
impl crate::blockquote::BlockQuoteAttribute for Id {}
impl crate::button::ButtonAttribute for Id {}
impl crate::canvas::CanvasAttribute for Id {}
impl crate::col::ColAttribute for Id {}
impl crate::colgroup::ColGroupAttribute for Id {}
impl crate::data::DataAttribute for Id {}
impl crate::details::DetailsAttribute for Id {}
impl crate::svg::SvgAttribute for Id {}

/// <https://developer.mozilla.org/en-US/docs/Web/HTML/Global_attributes/inputmode>
#[derive(Debug)]
pub struct InputMode(InputModeOption);

impl InputMode {
    /// Wraps the chosen option.
    pub fn new(val: InputModeOption) -> (r: Self)
        ensures
            r.spec_val() == Some(val.spec_str()),
    {
        InputMode(val)
    }
}

impl Attribute for InputMode {
    open spec fn spec_key(&self) -> Seq<char> {
        "inputmode"@
    }

    closed spec fn spec_val(&self) -> Option<Seq<char>> {
        Some(self.0.spec_str())
    }

    fn get_key(&self) -> &str {
        "inputmode"
    }

    fn get_val(&self) -> Option<&str> {
        Some(self.0.as_str())
    }
}

impl GlobalAttribute for InputMode {}
impl crate::anchor::AnchorAttribute for InputMode {}
impl crate::area::AreaAttribute for InputMode {}
impl crate::audio::AudioAttribute for InputMode {}
impl crate::base::BaseAttribute for InputMode {}
impl crate::blockquote::BlockQuoteAttribute for InputMode {}
impl crate::button::ButtonAttribute for InputMode {}
impl crate::canvas::CanvasAttribute for InputMode {}
impl crate::col::ColAttribute for InputMode {}
impl crate::colgroup::ColGroupAttribute for InputMode {}
impl crate::data::DataAttribute for InputMode {}
impl crate::details::DetailsAttribute for InputMode {}
impl crate::svg::SvgAttribute for InputMode {}

#[derive(Debug, Default)]
pub enum InputModeOption {
    NoneValue,
    #[default]
    Text,
    Decimal,
    Numeric,
    Tel,
    Search,
    Email,
    Url,
}

impl InputModeOption {
    /// The serialized form of the option.
    pub open spec fn spec_str(&self) -> Seq<char> {
        match self {
            InputModeOption::NoneValue => "none"@,
            InputModeOption::Text => "text"@,
            InputModeOption::Decimal => "decimal"@,
            InputModeOption::Numeric => "numeric"@,
            InputModeOption::Tel => "tel"@,
            InputModeOption::Search => "search"@,
            InputModeOption::Email => "email"@,
            InputModeOption::Url => "url"@,
        }
    }

    /// The serialized form of the option.
    pub fn as_str(&self) -> (r: &str)
        ensures
            r@ == self.spec_str(),
    {
        match self {
            InputModeOption::NoneValue => "none",
            InputModeOption::Text => "text",
            InputModeOption::Decimal => "decimal",
            InputModeOption::Numeric => "numeric",
            InputModeOption::Tel => "tel",
            InputModeOption::Search => "search",
            InputModeOption::Email => "email",
            InputModeOption::Url => "url",
        }
    }
}

/// <https://developer.mozilla.org/en-US/docs/Web/HTML/Global_attributes/is>
#[derive(Debug)]
pub struct Is(String);

impl Is {
    /// Wraps the given value.
    pub fn new(val: String) -> (r: Self)
        ensures
            r.spec_val() == Some(val@),
    {
        Is(val)
    }
}

impl Attribute for Is {
    open spec fn spec_key(&self) -> Seq<char> {
        "is"@
    }

    closed spec fn spec_val(&self) -> Option<Seq<char>> {
        Some(self.0@)
    }

    fn get_key(&self) -> &str {
        "is"
    }

    fn get_val(&self) -> Option<&str> {
        Some(self.0.as_str())
    }
}

impl GlobalAttribute for Is {}
impl crate::anchor::AnchorAttribute for Is {}
impl crate::area::AreaAttribute for Is {}
impl crate::audio::AudioAttribute for Is {}
impl crate::base::BaseAttribute for Is {}
impl crate::blockquote::BlockQuoteAttribute for Is {}
impl crate::button::ButtonAttribute for Is {}
impl crate::canvas::CanvasAttribute for Is {}
impl crate::col::ColAttribute for Is {}
impl crate::colgroup::ColGroupAttribute for Is {}
impl crate::data::DataAttribute for Is {}
impl crate::details::DetailsAttribute for Is {}
impl crate::svg::SvgAttribute for Is {}

/// <https://developer.mozilla.org/en-US/docs/Web/HTML/Global_attributes/itemid>
#[derive(Debug)]
pub struct ItemId(String);

impl ItemId {
    /// Wraps the given value.
    pub fn new(val: String) -> (r: Self)
        ensures
            r.spec_val() == Some(val@),
    {
        ItemId(val)
    }
}

impl Attribute for ItemId {
    open spec fn spec_key(&self) -> Seq<char> {
        "itemid"@
    }

    closed spec fn spec_val(&self) -> Option<Seq<char>> {
        Some(self.0@)
    }

    fn get_key(&self) -> &str {
        "itemid"
    }

    fn get_val(&self) -> Option<&str> {
        Some(self.0.as_str())
    }
}

impl GlobalAttribute for ItemId {}
impl crate::anchor::AnchorAttribute for ItemId {}
impl crate::area::AreaAttribute for ItemId {}
impl crate::audio::AudioAttribute for ItemId {}
impl crate::base::BaseAttribute for ItemId {}
impl crate::blockquote::BlockQuoteAttribute for ItemId {}
impl crate::button::ButtonAttribute for ItemId {}
impl crate::canvas::CanvasAttribute for ItemId {}
impl crate::col::ColAttribute for ItemId {}
impl crate::colgroup::ColGroupAttribute for ItemId {}
impl crate::data::DataAttribute for ItemId {}
impl crate::details::DetailsAttribute for ItemId {}
impl crate::svg::SvgAttribute for ItemId {}

/// <https://developer.mozilla.org/en-US/docs/Web/HTML/Global_attributes/itemprop>
#[derive(Debug)]
pub struct ItemProp(String);

impl ItemProp {
    /// Wraps the given value.
    pub fn new(val: String) -> (r: Self)
        ensures
            r.spec_val() == Some(val@),
    {
        ItemProp(val)
    }
}

impl Attribute for ItemProp {
    open spec fn spec_key(&self) -> Seq<char> {
        "itemprop"@
    }

    closed spec fn spec_val(&self) -> Option<Seq<char>> {
        Some(self.0@)
    }

    fn get_key(&self) -> &str {
        "itemprop"
    }

    fn get_val(&self) -> Option<&str> {
        Some(self.0.as_str())
    }
}

impl GlobalAttribute for ItemProp {}
impl crate::anchor::AnchorAttribute for ItemProp {}
impl crate::area::AreaAttribute for ItemProp {}
impl crate::audio::AudioAttribute for ItemProp {}
impl crate::base::BaseAttribute for ItemProp {}
impl crate::blockquote::BlockQuoteAttribute for ItemProp {}
impl crate::button::ButtonAttribute for ItemProp {}
impl crate::canvas::CanvasAttribute for ItemProp {}
impl crate::col::ColAttribute for ItemProp {}
impl crate::colgroup::ColGroupAttribute for ItemProp {}
impl crate::data::DataAttribute for ItemProp {}
impl crate::details::DetailsAttribute for ItemProp {}
impl crate::svg::SvgAttribute for ItemProp {}

/// <https://developer.mozilla.org/en-US/docs/Web/HTML/Global_attributes/itemref>
#[derive(Debug)]
pub struct ItemRef(String);

impl ItemRef {
    /// Joins the given words with spaces.
    pub fn new(val: Vec<String>) -> (r: Self)
        ensures
            r.spec_val() == Some(spec_join_spaces(val@.map_values(|s: String| s@))),
    {
        ItemRef(join_spaces(&val))
    }
}

impl Attribute for ItemRef {
    open spec fn spec_key(&self) -> Seq<char> {
        "itemref"@
    }

    closed spec fn spec_val(&self) -> Option<Seq<char>> {
        Some(self.0@)
    }

    fn get_key(&self) -> &str {
        "itemref"
    }

    fn get_val(&self) -> Option<&str> {
        Some(self.0.as_str())
    }
}

impl GlobalAttribute for ItemRef {}
impl crate::anchor::AnchorAttribute for ItemRef {}
impl crate::area::AreaAttribute for ItemRef {}
impl crate::audio::AudioAttribute for ItemRef {}
impl crate::base::BaseAttribute for ItemRef {}
impl crate::blockquote::BlockQuoteAttribute for ItemRef {}
impl crate::button::ButtonAttribute for ItemRef {}
impl crate::canvas::CanvasAttribute for ItemRef {}
impl crate::col::ColAttribute for ItemRef {}
impl crate::colgroup::ColGroupAttribute for ItemRef {}
impl crate::data::DataAttribute for ItemRef {}
impl crate::details::DetailsAttribute for ItemRef {}
impl crate::svg::SvgAttribute for ItemRef {}

/// <https://developer.mozilla.org/en-US/docs/Web/HTML/Global_attributes/itemscope>
#[derive(Debug)]
pub struct ItemScope;

impl Attribute for ItemScope {
    open spec fn spec_key(&self) -> Seq<char> {
        "itemscope"@
    }

    open spec fn spec_val(&self) -> Option<Seq<char>> {
        None
    }

    fn get_key(&self) -> &str {
        "itemscope"
    }

    fn get_val(&self) -> Option<&str> {
        None
    }
}

impl GlobalAttribute for ItemScope {}
impl crate::anchor::AnchorAttribute for ItemScope {}
impl crate::area::AreaAttribute for ItemScope {}
impl crate::audio::AudioAttribute for ItemScope {}
impl crate::base::BaseAttribute for ItemScope {}
impl crate::blockquote::BlockQuoteAttribute for ItemScope {}
impl crate::button::ButtonAttribute for ItemScope {}
impl crate::canvas::CanvasAttribute for ItemScope {}
impl crate::col::ColAttribute for ItemScope {}
impl crate::colgroup::ColGroupAttribute for ItemScope {}
impl crate::data::DataAttribute for ItemScope {}
impl crate::details::DetailsAttribute for ItemScope {}
impl crate::svg::SvgAttribute for ItemScope {}

/// <https://developer.mozilla.org/en-US/docs/Web/HTML/Global_attributes/itemtype>
#[derive(Debug)]
pub struct ItemType(String);

impl ItemType {
    /// Stores the URL's serialization.
    pub fn new(val: Url) -> (r: Self)
        ensures
            r.spec_val() == Some(val.spec_str()),
    {
        ItemType(String::from_str(val.as_str()))
    }
}

impl Attribute for ItemType {
    open spec fn spec_key(&self) -> Seq<char> {
        "itemtype"@
    }

    closed spec fn spec_val(&self) -> Option<Seq<char>> {
        Some(self.0@)
    }

    fn get_key(&self) -> &str {
        "itemtype"
    }

    fn get_val(&self) -> Option<&str> {
        Some(self.0.as_str())
    }
}

impl GlobalAttribute for ItemType {}
impl crate::anchor::AnchorAttribute for ItemType {}
impl crate::area::AreaAttribute for ItemType {}
impl crate::audio::AudioAttribute for ItemType {}
impl crate::base::BaseAttribute for ItemType {}
impl crate::blockquote::BlockQuoteAttribute for ItemType {}
impl crate::button::ButtonAttribute for ItemType {}
impl crate::canvas::CanvasAttribute for ItemType {}
impl crate::col::ColAttribute for ItemType {}
impl crate::colgroup::ColGroupAttribute for ItemType {}
impl crate::data::DataAttribute for ItemType {}
impl crate::details::DetailsAttribute for ItemType {}
impl crate::svg::SvgAttribute for ItemType {}

/// <https://developer.mozilla.org/en-US/docs/Web/HTML/Global_attributes/lang>
#[derive(Debug)]
pub struct Lang(String);

impl Lang {
    /// Wraps the given value.
    pub fn new(val: String) -> (r: Self)
        ensures
            r.spec_val() == Some(val@),
    {
        Lang(val)
    }
}

impl Attribute for Lang {
    open spec fn spec_key(&self) -> Seq<char> {
        "lang"@
    }

    closed spec fn spec_val(&self) -> Option<Seq<char>> {
        Some(self.0@)
    }

    fn get_key(&self) -> &str {
        "lang"
    }

    fn get_val(&self) -> Option<&str> {
        Some(self.0.as_str())
    }
}

impl GlobalAttribute for Lang {}
impl crate::anchor::AnchorAttribute for Lang {}
impl crate::area::AreaAttribute for Lang {}
impl crate::audio::AudioAttribute for Lang {}
impl crate::base::BaseAttribute for Lang {}
impl crate::blockquote::BlockQuoteAttribute for Lang {}
impl crate::button::ButtonAttribute for Lang {}
impl crate::canvas::CanvasAttribute for Lang {}
impl crate::col::ColAttribute for Lang {}
impl crate::colgroup::ColGroupAttribute for Lang {}
impl crate::data::DataAttribute for Lang {}
impl crate::details::DetailsAttribute for Lang {}
impl crate::svg::SvgAttribute for Lang {}

/// <https://developer.mozilla.org/en-US/docs/Web/HTML/Global_attributes/nonce>
#[derive(Debug)]
pub struct Nonce(String);

impl Nonce {
    /// Wraps the given value.
    pub fn new(val: String) -> (r: Self)
        ensures
            r.spec_val() == Some(val@),
    {
        Nonce(val)
    }
}

impl Attribute for Nonce {
    open spec fn spec_key(&self) -> Seq<char> {
        "nonce"@
    }

    closed spec fn spec_val(&self) -> Option<Seq<char>> {
        Some(self.0@)
    }

    fn get_key(&self) -> &str {
        "nonce"
    }

    fn get_val(&self) -> Option<&str> {
        Some(self.0.as_str())
    }
}

impl GlobalAttribute for Nonce {}
impl crate::anchor::AnchorAttribute for Nonce {}
impl crate::area::AreaAttribute for Nonce {}
impl crate::audio::AudioAttribute for Nonce {}
impl crate::base::BaseAttribute for Nonce {}
impl crate::blockquote::BlockQuoteAttribute for Nonce {}
impl crate::button::ButtonAttribute for Nonce {}
impl crate::canvas::CanvasAttribute for Nonce {}
impl crate::col::ColAttribute for Nonce {}
impl crate::colgroup::ColGroupAttribute for Nonce {}
impl crate::data::DataAttribute for Nonce {}
impl crate::details::DetailsAttribute for Nonce {}
impl crate::svg::SvgAttribute for Nonce {}

/// <https://developer.mozilla.org/en-US/docs/Web/HTML/Global_attributes/part>
#[derive(Debug)]
pub struct Part(String);

impl Part {
    /// Joins the given words with spaces.
    pub fn new(val: Vec<String>) -> (r: Self)
        ensures
            r.spec_val() == Some(spec_join_spaces(val@.map_values(|s: String| s@))),
    {
        Part(join_spaces(&val))
    }
}

impl Attribute for Part {
    open spec fn spec_key(&self) -> Seq<char> {
        "part"@
    }

    closed spec fn spec_val(&self) -> Option<Seq<char>> {
        Some(self.0@)
    }

    fn get_key(&self) -> &str {
        "part"
    }

    fn get_val(&self) -> Option<&str> {
        Some(self.0.as_str())
    }
}

impl GlobalAttribute for Part {}
impl crate::anchor::AnchorAttribute for Part {}
impl crate::area::AreaAttribute for Part {}
impl crate::audio::AudioAttribute for Part {}
impl crate::base::BaseAttribute for Part {}
impl crate::blockquote::BlockQuoteAttribute for Part {}
impl crate::button::ButtonAttribute for Part {}
impl crate::canvas::CanvasAttribute for Part {}
impl crate::col::ColAttribute for Part {}
impl crate::colgroup::ColGroupAttribute for Part {}
impl crate::data::DataAttribute for Part {}
impl crate::details::DetailsAttribute for Part {}
impl crate::svg::SvgAttribute for Part {}

/// <https://developer.mozilla.org/en-US/docs/Web/HTML/Global_attributes/slot>
#[derive(Debug)]
pub struct Slot(String);

impl Slot {
    /// Wraps the given value.
    pub fn new(val: String) -> (r: Self)
        ensures
            r.spec_val() == Some(val@),
    {
        Slot(val)
    }
}

impl Attribute for Slot {
    open spec fn spec_key(&self) -> Seq<char> {
        "slot"@
    }

    closed spec fn spec_val(&self) -> Option<Seq<char>> {
        Some(self.0@)
    }

    fn get_key(&self) -> &str {
        "slot"
    }

    fn get_val(&self) -> Option<&str> {
        Some(self.0.as_str())
    }
}

impl GlobalAttribute for Slot {}
impl crate::anchor::AnchorAttribute for Slot {}
impl crate::area::AreaAttribute for Slot {}
impl crate::audio::AudioAttribute for Slot {}
impl crate::base::BaseAttribute for Slot {}
impl crate::blockquote::BlockQuoteAttribute for Slot {}
impl crate::button::ButtonAttribute for Slot {}
impl crate::canvas::CanvasAttribute for Slot {}
impl crate::col::ColAttribute for Slot {}
impl crate::colgroup::ColGroupAttribute for Slot {}
impl crate::data::DataAttribute for Slot {}
impl crate::details::DetailsAttribute for Slot {}
impl crate::svg::SvgAttribute for Slot {}

/// <https://developer.mozilla.org/en-US/docs/Web/HTML/Global_attributes/spellcheck>
#[derive(Debug)]
pub struct Spellcheck(String);

impl Spellcheck {
    /// Stores the flag serialized as `true` or `false`.
    pub fn new(val: bool) -> (r: Self)
        ensures
            r.spec_val() == Some(spec_bool(val)),
    {
        Spellcheck(bool_to_string(val))
    }
}

impl Attribute for Spellcheck {
    open spec fn spec_key(&self) -> Seq<char> {
        "spellcheck"@
    }

    closed spec fn spec_val(&self) -> Option<Seq<char>> {
        Some(self.0@)
    }

    fn get_key(&self) -> &str {
        "spellcheck"
    }

    fn get_val(&self) -> Option<&str> {
        Some(self.0.as_str())
    }
}

impl GlobalAttribute for Spellcheck {}
impl crate::anchor::AnchorAttribute for Spellcheck {}
impl crate::area::AreaAttribute for Spellcheck {}
impl crate::audio::AudioAttribute for Spellcheck {}
impl crate::base::BaseAttribute for Spellcheck {}
impl crate::blockquote::BlockQuoteAttribute for Spellcheck {}
impl crate::button::ButtonAttribute for Spellcheck {}
impl crate::canvas::CanvasAttribute for Spellcheck {}
impl crate::col::ColAttribute for Spellcheck {}
impl crate::colgroup::ColGroupAttribute for Spellcheck {}
impl crate::data::DataAttribute for Spellcheck {}
impl crate::details::DetailsAttribute for Spellcheck {}
impl crate::svg::SvgAttribute for Spellcheck {}

/// <https://developer.mozilla.org/en-US/docs/Web/HTML/Global_attributes/tabindex>
#[derive(Debug)]
pub struct TabIndex(String);

impl TabIndex {
    /// Stores the number rendered in decimal.
    pub fn new(val: i16) -> (r: Self)
        ensures
            r.spec_val() == Some(spec_idec(val as int)),
    {
        TabIndex(i64_to_string(val as i64))
    }
}

impl Attribute for TabIndex {
    open spec fn spec_key(&self) -> Seq<char> {
        "tabindex"@
    }

    closed spec fn spec_val(&self) -> Option<Seq<char>> {
        Some(self.0@)
    }

    fn get_key(&self) -> &str {
        "tabindex"
    }

    fn get_val(&self) -> Option<&str> {
        Some(self.0.as_str())
    }
}

impl GlobalAttribute for TabIndex {}
impl crate::anchor::AnchorAttribute for TabIndex {}
impl crate::area::AreaAttribute for TabIndex {}
impl crate::audio::AudioAttribute for TabIndex {}
impl crate::base::BaseAttribute for TabIndex {}
impl crate::blockquote::BlockQuoteAttribute for TabIndex {}
impl crate::button::ButtonAttribute for TabIndex {}
impl crate::canvas::CanvasAttribute for TabIndex {}
impl crate::col::ColAttribute for TabIndex {}
impl crate::colgroup::ColGroupAttribute for TabIndex {}
impl crate::data::DataAttribute for TabIndex {}
impl crate::details::DetailsAttribute for TabIndex {}
impl crate::svg::SvgAttribute for TabIndex {}

/// <https://developer.mozilla.org/en-US/docs/Web/HTML/Global_attributes/title>
#[derive(Debug)]
pub struct Title(String);

impl Title {
    /// Wraps the given value.
    pub fn new(val: String) -> (r: Self)
        ensures
            r.spec_val() == Some(val@),
    {
        Title(val)
    }
}

impl Attribute for Title {
    open spec fn spec_key(&self) -> Seq<char> {
        "title"@
    }

    closed spec fn spec_val(&self) -> Option<Seq<char>> {
        Some(self.0@)
    }

    fn get_key(&self) -> &str {
        "title"
    }

    fn get_val(&self) -> Option<&str> {
        Some(self.0.as_str())
    }
}

impl GlobalAttribute for Title {}
impl crate::anchor::AnchorAttribute for Title {}
impl crate::area::AreaAttribute for Title {}
impl crate::audio::AudioAttribute for Title {}
impl crate::base::BaseAttribute for Title {}
impl crate::blockquote::BlockQuoteAttribute for Title {}
impl crate::button::ButtonAttribute for Title {}
impl crate::canvas::CanvasAttribute for Title {}
impl crate::col::ColAttribute for Title {}
impl crate::colgroup::ColGroupAttribute for Title {}
impl crate::data::DataAttribute for Title {}
impl crate::details::DetailsAttribute for Title {}
impl crate::svg::SvgAttribute for Title {}

/// <https://developer.mozilla.org/en-US/docs/Web/HTML/Global_attributes/translate>
#[derive(Debug)]
pub struct Translate(TranslateOption);

impl Translate {
    /// Wraps the chosen option.
    pub fn new(val: TranslateOption) -> (r: Self)
        ensures
            r.spec_val() == Some(val.spec_str()),
    {
        Translate(val)
    }
}

impl Attribute for Translate {
    open spec fn spec_key(&self) -> Seq<char> {
        "translate"@
    }

    closed spec fn spec_val(&self) -> Option<Seq<char>> {
        Some(self.0.spec_str())
    }

    fn get_key(&self) -> &str {
        "translate"
    }

    fn get_val(&self) -> Option<&str> {
        Some(self.0.as_str())
    }
}

impl GlobalAttribute for Translate {}
impl crate::anchor::AnchorAttribute for Translate {}
impl crate::area::AreaAttribute for Translate {}
impl crate::audio::AudioAttribute for Translate {}
impl crate::base::BaseAttribute for Translate {}
impl crate::blockquote::BlockQuoteAttribute for Translate {}
impl crate::button::ButtonAttribute for Translate {}
impl crate::canvas::CanvasAttribute for Translate {}
impl crate::col::ColAttribute for Translate {}
impl crate::colgroup::ColGroupAttribute for Translate {}
impl crate::data::DataAttribute for Translate {}
impl crate::details::DetailsAttribute for Translate {}
impl crate::svg::SvgAttribute for Translate {}

/// <https://developer.mozilla.org/en-US/docs/Web/HTML/Global_attributes/role>
#[derive(Debug)]
pub struct Role(AriaRole);

impl Role {
    /// Wraps the chosen option.
    pub fn new(val: AriaRole) -> (r: Self)
        ensures
            r.spec_val() == Some(val.spec_str()),
    {
        Role(val)
    }
}

impl Attribute for Role {
    open spec fn spec_key(&self) -> Seq<char> {
        "role"@
    }

    closed spec fn spec_val(&self) -> Option<Seq<char>> {
        Some(self.0.spec_str())
    }

    fn get_key(&self) -> &str {
        "role"
    }

    fn get_val(&self) -> Option<&str> {
        Some(self.0.as_str())
    }
}

impl GlobalAttribute for Role {}
impl crate::anchor::AnchorAttribute for Role {}
impl crate::area::AreaAttribute for Role {}
impl crate::audio::AudioAttribute for Role {}
impl crate::base::BaseAttribute for Role {}
impl crate::blockquote::BlockQuoteAttribute for Role {}
impl crate::button::ButtonAttribute for Role {}
impl crate::canvas::CanvasAttribute for Role {}
impl crate::col::ColAttribute for Role {}
impl crate::colgroup::ColGroupAttribute for Role {}
impl crate::data::DataAttribute for Role {}
impl crate::details::DetailsAttribute for Role {}
impl crate::svg::SvgAttribute for Role {}

/// An enum representing the different options for the `aria-role` attribute.
///
///  <https://developer.mozilla.org/en-US/docs/Web/Accessibility/ARIA/Roles>
#[derive(Debug)]
pub enum AriaRole {
    Alert,
    AlertDialog,
    Application,
    Article,
    Banner,
    Button,
    Cell,
    Checkbox,
    ColumnHeader,
    Combobox,
    Complementary,
    ContentInfo,
    Definition,
    Dialog,
    Directory,
    Document,
    Feed,
    Figure,
    Form,
    Grid,
    GridCell,
    Group,
    Heading,
    Img,
    Link,
    List,
    ListBox,
    ListItem,
    Log,
    Main,
    Marquee,
    Math,
    Menu,
    Menubar,
    MenuItem,
    MenuItemCheckbox,
    MenuItemRadio,
    Navigation,
    NoneValue,
    Note,
    Option,
    Presentation,
    ProgressBar,
    Radio,
    RadioGroup,
    Region,
    Row,
    RowGroup,
    RowHeader,
    ScrollBar,
    Search,
    SearchBox,
    Separator,
    Slider,
    SpinButton,
    Status,
    Switch,
    Tab,
    Table,
    TabLList,
    TabPanel,
    Term,
    TextNox,
    Timer,
    Toolbar,
    Tooltip,
    Tree,
    TreeGrid,
    TreeItem,
    Custom(String),
}

impl AriaRole {
    /// The serialized form of the option.
    pub open spec fn spec_str(&self) -> Seq<char> {
        match self {
            AriaRole::Alert => "alert"@,
            AriaRole::AlertDialog => "alertdialog"@,
            AriaRole::Application => "application"@,
            AriaRole::Article => "article"@,
            AriaRole::Banner => "banner"@,
            AriaRole::Button => "button"@,
            AriaRole::Cell => "cell"@,
            AriaRole::Checkbox => "checkbox"@,
            AriaRole::ColumnHeader => "columnheader"@,
            AriaRole::Combobox => "combobox"@,
            AriaRole::Complementary => "complementary"@,
            AriaRole::ContentInfo => "contentinfo"@,
            AriaRole::Definition => "definition"@,
            AriaRole::Dialog => "dialog"@,
            AriaRole::Directory => "directory"@,
            AriaRole::Document => "document"@,
            AriaRole::Feed => "feed"@,
            AriaRole::Figure => "figure"@,
            AriaRole::Form => "form"@,
            AriaRole::Grid => "grid"@,
            AriaRole::GridCell => "gridcell"@,
            AriaRole::Group => "group"@,
            AriaRole::Heading => "heading"@,
            AriaRole::Img => "img"@,
            AriaRole::Link => "link"@,
            AriaRole::List => "list"@,
            AriaRole::ListBox => "listbox"@,
            AriaRole::ListItem => "listitem"@,
            AriaRole::Log => "log"@,
            AriaRole::Main => "main"@,
            AriaRole::Marquee => "marquee"@,
            AriaRole::Math => "math"@,
            AriaRole::Menu => "menu"@,
            AriaRole::Menubar => "menubar"@,
            AriaRole::MenuItem => "menuitem"@,
            AriaRole::MenuItemCheckbox => "menuitemcheckbox"@,
            AriaRole::MenuItemRadio => "menuitemradio"@,
            AriaRole::Navigation => "navigation"@,
            AriaRole::NoneValue => "none"@,
            AriaRole::Note => "note"@,
            AriaRole::Option => "option"@,
            AriaRole::Presentation => "presentation"@,
            AriaRole::ProgressBar => "progressbar"@,
            AriaRole::Radio => "radio"@,
            AriaRole::RadioGroup => "radiogroup"@,
            AriaRole::Region => "region"@,
            AriaRole::Row => "row"@,
            AriaRole::RowGroup => "rowgroup"@,
            AriaRole::RowHeader => "rowheader"@,
            AriaRole::ScrollBar => "scrollbar"@,
            AriaRole::Search => "search"@,
            AriaRole::SearchBox => "searchbox"@,
            AriaRole::Separator => "separator"@,
            AriaRole::Slider => "slider"@,
            AriaRole::SpinButton => "spinbutton"@,
            AriaRole::Status => "status"@,
            AriaRole::Switch => "switch"@,
            AriaRole::Tab => "tab"@,
            AriaRole::Table => "table"@,
            AriaRole::TabLList => "tabllist"@,
            AriaRole::TabPanel => "tabpanel"@,
            AriaRole::Term => "term"@,
            AriaRole::TextNox => "textnox"@,
            AriaRole::Timer => "timer"@,
            AriaRole::Toolbar => "toolbar"@,
            AriaRole::Tooltip => "tooltip"@,
            AriaRole::Tree => "tree"@,
            AriaRole::TreeGrid => "treegrid"@,
            AriaRole::TreeItem => "treeitem"@,
            AriaRole::Custom(_) => "custom"@,
        }
    }

    /// The serialized form of the option.
    pub fn as_str(&self) -> (r: &str)
        ensures
            r@ == self.spec_str(),
    {
        match self {
            AriaRole::Alert => "alert",
            AriaRole::AlertDialog => "alertdialog",
            AriaRole::Application => "application",
            AriaRole::Article => "article",
            AriaRole::Banner => "banner",
            AriaRole::Button => "button",
            AriaRole::Cell => "cell",
            AriaRole::Checkbox => "checkbox",
            AriaRole::ColumnHeader => "columnheader",
            AriaRole::Combobox => "combobox",
            AriaRole::Complementary => "complementary",
            AriaRole::ContentInfo => "contentinfo",
            AriaRole::Definition => "definition",
            AriaRole::Dialog => "dialog",
            AriaRole::Directory => "directory",
            AriaRole::Document => "document",
            AriaRole::Feed => "feed",
            AriaRole::Figure => "figure",
            AriaRole::Form => "form",
            AriaRole::Grid => "grid",
            AriaRole::GridCell => "gridcell",
            AriaRole::Group => "group",
            AriaRole::Heading => "heading",
            AriaRole::Img => "img",
            AriaRole::Link => "link",
            AriaRole::List => "list",
            AriaRole::ListBox => "listbox",
            AriaRole::ListItem => "listitem",
            AriaRole::Log => "log",
            AriaRole::Main => "main",
            AriaRole::Marquee => "marquee",
            AriaRole::Math => "math",
            AriaRole::Menu => "menu",
            AriaRole::Menubar => "menubar",
            AriaRole::MenuItem => "menuitem",
            AriaRole::MenuItemCheckbox => "menuitemcheckbox",
            AriaRole::MenuItemRadio => "menuitemradio",
            AriaRole::Navigation => "navigation",
            AriaRole::NoneValue => "none",
            AriaRole::Note => "note",
            AriaRole::Option => "option",
            AriaRole::Presentation => "presentation",
            AriaRole::ProgressBar => "progressbar",
            AriaRole::Radio => "radio",
            AriaRole::RadioGroup => "radiogroup",
            AriaRole::Region => "region",
            AriaRole::Row => "row",
            AriaRole::RowGroup => "rowgroup",
            AriaRole::RowHeader => "rowheader",
            AriaRole::ScrollBar => "scrollbar",
            AriaRole::Search => "search",
            AriaRole::SearchBox => "searchbox",
            AriaRole::Separator => "separator",
            AriaRole::Slider => "slider",
            AriaRole::SpinButton => "spinbutton",
            AriaRole::Status => "status",
            AriaRole::Switch => "switch",
            AriaRole::Tab => "tab",
            AriaRole::Table => "table",
            AriaRole::TabLList => "tabllist",
            AriaRole::TabPanel => "tabpanel",
            AriaRole::Term => "term",
            AriaRole::TextNox => "textnox",
            AriaRole::Timer => "timer",
            AriaRole::Toolbar => "toolbar",
            AriaRole::Tooltip => "tooltip",
            AriaRole::Tree => "tree",
            AriaRole::TreeGrid => "treegrid",
            AriaRole::TreeItem => "treeitem",
            AriaRole::Custom(_) => "custom",
        }
    }
}

/// An enum representing the different options for the `aria-role` attribute.
///
/// <https://developer.mozilla.org/en-US/docs/Web/HTML/Global_attributes/contenteditable>
#[derive(Debug)]
pub enum ContentEditableOptions {
    True,
    False,
    Inherit,
}

impl ContentEditableOptions {
    /// The serialized form of the option.
    pub open spec fn spec_str(&self) -> Seq<char> {
        match self {
            ContentEditableOptions::True => "true"@,
            ContentEditableOptions::False => "false"@,
            ContentEditableOptions::Inherit => "inherit"@,
        }
    }

    /// The serialized form of the option.
    pub fn as_str(&self) -> (r: &str)
        ensures
            r@ == self.spec_str(),
    {
        match self {
            ContentEditableOptions::True => "true",
            ContentEditableOptions::False => "false",
            ContentEditableOptions::Inherit => "inherit",
        }
    }
}

/// An enum representing the different options for the `translate` attribute.
///
/// <https://developer.mozilla.org/en-US/docs/Web/HTML/Global_attributes/translate>
#[derive(Debug)]
pub enum TranslateOption {
    Yes,
    No,
}

impl TranslateOption {
    /// The serialized form of the option.
    pub open spec fn spec_str(&self) -> Seq<char> {
        match self {
            TranslateOption::Yes => "yes"@,
            TranslateOption::No => "no"@,
        }
    }

    /// The serialized form of the option.
    pub fn as_str(&self) -> (r: &str)
        ensures
            r@ == self.spec_str(),
    {
        match self {
            TranslateOption::Yes => "yes",
            TranslateOption::No => "no",
        }
    }
}

/// An attribute under a caller-chosen key; the value is optional, and
/// `None` makes it a boolean attribute.
#[derive(Debug)]
pub struct CustomAttribute {
    key: String,
    value: Option<String>,
}

impl CustomAttribute {
    /// Stores the key and the optional value as given.
    pub fn new(key: &str, value: Option<String>) -> (r: Self)
        ensures
            r.spec_key() == key@,
            r.spec_val() == match value {
                Some(v) => Some(v@),
                None => None::<Seq<char>>,
            },
    {
        CustomAttribute { key: String::from_str(key), value }
    }
}

impl Attribute for CustomAttribute {
    closed spec fn spec_key(&self) -> Seq<char> {
        self.key@
    }

    closed spec fn spec_val(&self) -> Option<Seq<char>> {
        match self.value {
            Some(v) => Some(v@),
            None => None,
        }
    }

    fn get_key(&self) -> &str {
        self.key.as_str()
    }

    fn get_val(&self) -> Option<&str> {
        match &self.value {
            Some(v) => Some(v.as_str()),
            None => None,
        }
    }
}

impl GlobalAttribute for CustomAttribute {}

impl crate::anchor::AnchorAttribute for CustomAttribute {}
impl crate::area::AreaAttribute for CustomAttribute {}
impl crate::audio::AudioAttribute for CustomAttribute {}
impl crate::base::BaseAttribute for CustomAttribute {}
impl crate::blockquote::BlockQuoteAttribute for CustomAttribute {}
impl crate::button::ButtonAttribute for CustomAttribute {}
impl crate::canvas::CanvasAttribute for CustomAttribute {}
impl crate::col::ColAttribute for CustomAttribute {}
impl crate::colgroup::ColGroupAttribute for CustomAttribute {}
impl crate::data::DataAttribute for CustomAttribute {}
impl crate::details::DetailsAttribute for CustomAttribute {}
impl crate::svg::SvgAttribute for CustomAttribute {}

} // verus!
