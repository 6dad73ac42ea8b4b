//! An enum of the global HTML attribute keys.

use vstd::prelude::*;
use crate::text::{spec_bool, bool_to_string, spec_udec, u64_to_string};
use crate::global::AriaRole;

verus! {

/// An enum representing the different options for the `aria-role` attribute.
///
/// <https://developer.mozilla.org/en-US/docs/Web/HTML/Global_attributes/contenteditable>
#[derive(Debug)]
pub enum ContentEditable {
    True,
    False,
    Inherit,
}

impl ContentEditable {
    /// The serialized form of the option.
    pub open spec fn spec_str(&self) -> Seq<char> {
        match self {
            ContentEditable::True => "true"@,
            ContentEditable::False => "false"@,
            ContentEditable::Inherit => "inherit"@,
        }
    }

    /// The serialized form of the option.
    pub fn as_str(&self) -> (r: &str)
        ensures
            r@ == self.spec_str(),
    {
        match self {
            ContentEditable::True => "true",
            ContentEditable::False => "false",
            ContentEditable::Inherit => "inherit",
        }
    }
}

/// An enum representing the different options for the `translate` attribute.
///
/// <https://developer.mozilla.org/en-US/docs/Web/HTML/Global_attributes/translate>
#[derive(Debug)]
pub enum Translate {
    Yes,
    No,
}

impl Translate {
    /// The serialized form of the option.
    pub open spec fn spec_str(&self) -> Seq<char> {
        match self {
            Translate::Yes => "yes"@,
            Translate::No => "no"@,
        }
    }

    /// The serialized form of the option.
    pub fn as_str(&self) -> (r: &str)
        ensures
            r@ == self.spec_str(),
    {
        match self {
            Translate::Yes => "yes",
            Translate::No => "no",
        }
    }
}

/// An enum representing the different options for the `unselectable` attribute.
///
/// <https://developer.mozilla.org/en-US/docs/Web/HTML/Global_attributes/unselectable>
#[derive(Debug)]
pub enum Unselectable {
    On,
    Off,
}

impl Unselectable {
    /// The serialized form of the option.
    pub open spec fn spec_str(&self) -> Seq<char> {
        match self {
            Unselectable::On => "on"@,
            Unselectable::Off => "off"@,
        }
    }

    /// The serialized form of the option.
    pub fn as_str(&self) -> (r: &str)
        ensures
            r@ == self.spec_str(),
    {
        match self {
            Unselectable::On => "on",
            Unselectable::Off => "off",
        }
    }
}

/// An enum representing the different options for the `inputmode` attribute.
///
/// <https://developer.mozilla.org/en-US/docs/Web/HTML/Global_attributes/inputmode>
#[derive(Debug)]
pub enum InputMode {
    NoneValue,
    Text,
    Tel,
    Url,
    Email,
    Numeric,
    Decimal,
    Search,
}

impl InputMode {
    /// The serialized form of the option.
    pub open spec fn spec_str(&self) -> Seq<char> {
        match self {
            InputMode::NoneValue => "none"@,
            InputMode::Text => "text"@,
            InputMode::Tel => "tel"@,
            InputMode::Url => "url"@,
            InputMode::Email => "email"@,
            InputMode::Numeric => "numeric"@,
            InputMode::Decimal => "decimal"@,
            InputMode::Search => "search"@,
        }
    }

    /// The serialized form of the option.
    pub fn as_str(&self) -> (r: &str)
        ensures
            r@ == self.spec_str(),
    {
        match self {
            InputMode::NoneValue => "none",
            InputMode::Text => "text",
            InputMode::Tel => "tel",
            InputMode::Url => "url",
            InputMode::Email => "email",
            InputMode::Numeric => "numeric",
            InputMode::Decimal => "decimal",
            InputMode::Search => "search",
        }
    }
}

/// An enum defining the different generic html attribute keys. Each variant takes either tuple
/// that represents the valid values for the attributes or nothing to represent a boolean
/// attribute. Note that 'class' and 'style' are not available because these are expected to
/// be handled by whatever UI framework you're using.
#[derive(Debug)]
pub enum HtmlAttributes<'a> {
    AccessKey(&'a str),
    ContentEditable(&'a ContentEditable),
    ContextMenu(&'a str),
    Dir(&'a str),
    Draggable(bool),
    Hidden(bool),
    Id(&'a str),
    Lang(&'a str),
    Placeholder(&'a str),
    Slot(&'a str),
    SpellCheck(bool),
    TabIndex(u64),
    Title(&'a str),
    Translate(&'a Translate),
    Role(&'a AriaRole),
    About(&'a str),
    Datatype(&'a str),
    Inlist(&'a str),
    Prefix(&'a str),
    Property(&'a str),
    Resource(&'a str),
    Typeof(&'a str),
    Vocab(&'a str),
    AutoCapitalize(&'a str),
    AutoCorrect(&'a str),
    AutoSave(&'a str),
    Color(&'a str),
    ItemProp(&'a str),
    ItemScope(bool),
    ItemType(&'a str),
    ItemID(&'a str),
    ItemRef(&'a str),
    Results(u64),
    Security(&'a str),
    Unselectable(&'a Unselectable),
    InputMode(&'a InputMode),
    Is(&'a str),
}

impl<'a> HtmlAttributes<'a> {
    /// The DOM key for this attribute.
    pub open spec fn spec_key(&self) -> Seq<char> {
        match self {
            HtmlAttributes::AccessKey(_) => "accesskey"@,
            HtmlAttributes::ContentEditable(_) => "contenteditable"@,
            HtmlAttributes::ContextMenu(_) => "contextmenu"@,
            HtmlAttributes::Dir(_) => "dir"@,
            HtmlAttributes::Draggable(_) => "draggable"@,
            HtmlAttributes::Hidden(_) => "hidden"@,
            HtmlAttributes::Id(_) => "id"@,
            HtmlAttributes::Lang(_) => "lang"@,
            HtmlAttributes::Placeholder(_) => "placeholder"@,
            HtmlAttributes::Slot(_) => "slot"@,
            HtmlAttributes::SpellCheck(_) => "spellcheck"@,
            HtmlAttributes::TabIndex(_) => "tabindex"@,
            HtmlAttributes::Title(_) => "title"@,
            HtmlAttributes::Translate(_) => "translate"@,
            HtmlAttributes::Role(_) => "role"@,
            HtmlAttributes::About(_) => "about"@,
            HtmlAttributes::Datatype(_) => "datatype"@,
            HtmlAttributes::Inlist(_) => "inlist"@,
            HtmlAttributes::Prefix(_) => "prefix"@,
            HtmlAttributes::Property(_) => "property"@,
            HtmlAttributes::Resource(_) => "resource"@,
            HtmlAttributes::Typeof(_) => "typeof"@,
            HtmlAttributes::Vocab(_) => "vocab"@,
            HtmlAttributes::AutoCapitalize(_) => "autocapitalize"@,
            HtmlAttributes::AutoCorrect(_) => "autocorrect"@,
            HtmlAttributes::AutoSave(_) => "autosave"@,
            HtmlAttributes::Color(_) => "color"@,
            HtmlAttributes::ItemProp(_) => "itemprop"@,
            HtmlAttributes::ItemScope(_) => "itemscope"@,
            HtmlAttributes::ItemType(_) => "itemtype"@,
            HtmlAttributes::ItemID(_) => "itemid"@,
            HtmlAttributes::ItemRef(_) => "itemref"@,
            HtmlAttributes::Results(_) => "results"@,
            HtmlAttributes::Security(_) => "security"@,
            HtmlAttributes::Unselectable(_) => "unselectable"@,
            HtmlAttributes::InputMode(_) => "inputmode"@,
            HtmlAttributes::Is(_) => "is"@,
        }
    }

    /// The serialized value; `None` stands for a boolean attribute.
    pub open spec fn spec_val(&self) -> Option<Seq<char>> {
        match self {
            HtmlAttributes::AccessKey(val) => Some(val@),
            HtmlAttributes::ContentEditable(val) => Some(val.spec_str()),
            HtmlAttributes::ContextMenu(val) => Some(val@),
            HtmlAttributes::Dir(val) => Some(val@),
            HtmlAttributes::Draggable(val) => Some(spec_bool(*val)),
            HtmlAttributes::Hidden(val) => Some(spec_bool(*val)),
            HtmlAttributes::Id(val) => Some(val@),
            HtmlAttributes::Lang(val) => Some(val@),
            HtmlAttributes::Placeholder(val) => Some(val@),
            HtmlAttributes::Slot(val) => Some(val@),
            HtmlAttributes::SpellCheck(val) => Some(spec_bool(*val)),
            HtmlAttributes::TabIndex(val) => Some(spec_udec(*val as nat)),
            HtmlAttributes::Title(val) => Some(val@),
            HtmlAttributes::Translate(val) => Some(val.spec_str()),
            HtmlAttributes::Role(val) => match val {
                AriaRole::Custom(custom_val) => Some(custom_val@),
                _ => Some(val.spec_str()),
            },
            HtmlAttributes::About(val) => Some(val@),
            HtmlAttributes::Datatype(val) => Some(val@),
            HtmlAttributes::Inlist(val) => Some(val@),
            HtmlAttributes::Prefix(val) => Some(val@),
            HtmlAttributes::Property(val) => Some(val@),
            HtmlAttributes::Resource(val) => Some(val@),
            HtmlAttributes::Typeof(val) => Some(val@),
            HtmlAttributes::Vocab(val) => Some(val@),
            HtmlAttributes::AutoCapitalize(val) => Some(val@),
            HtmlAttributes::AutoCorrect(val) => Some(val@),
            HtmlAttributes::AutoSave(val) => Some(val@),
            HtmlAttributes::Color(val) => Some(val@),
            HtmlAttributes::ItemProp(val) => Some(val@),
            HtmlAttributes::ItemScope(val) => Some(spec_bool(*val)),
            HtmlAttributes::ItemType(val) => Some(val@),
            HtmlAttributes::ItemID(val) => Some(val@),
            HtmlAttributes::ItemRef(val) => Some(val@),
            HtmlAttributes::Results(val) => Some(spec_udec(*val as nat)),
            HtmlAttributes::Security(val) => Some(val@),
            HtmlAttributes::Unselectable(val) => Some(val.spec_str()),
            HtmlAttributes::InputMode(val) => Some(val.spec_str()),
            HtmlAttributes::Is(val) => Some(val@),
        }
    }

    /// Returns the DOM key for this attribute.
    pub fn get_key(&self) -> (r: String)
        ensures
            r@ == self.spec_key(),
    {
        String::from_str(
            match self {
                HtmlAttributes::AccessKey(_) => "accesskey",
                HtmlAttributes::ContentEditable(_) => "contenteditable",
                HtmlAttributes::ContextMenu(_) => "contextmenu",
                HtmlAttributes::Dir(_) => "dir",
                HtmlAttributes::Draggable(_) => "draggable",
                HtmlAttributes::Hidden(_) => "hidden",
                HtmlAttributes::Id(_) => "id",
                HtmlAttributes::Lang(_) => "lang",
                HtmlAttributes::Placeholder(_) => "placeholder",
                HtmlAttributes::Slot(_) => "slot",
                HtmlAttributes::SpellCheck(_) => "spellcheck",
                HtmlAttributes::TabIndex(_) => "tabindex",
                HtmlAttributes::Title(_) => "title",
                HtmlAttributes::Translate(_) => "translate",
                HtmlAttributes::Role(_) => "role",
                HtmlAttributes::About(_) => "about",
                HtmlAttributes::Datatype(_) => "datatype",
                HtmlAttributes::Inlist(_) => "inlist",
                HtmlAttributes::Prefix(_) => "prefix",
                HtmlAttributes::Property(_) => "property",
                HtmlAttributes::Resource(_) => "resource",
                HtmlAttributes::Typeof(_) => "typeof",
                HtmlAttributes::Vocab(_) => "vocab",
                HtmlAttributes::AutoCapitalize(_) => "autocapitalize",
                HtmlAttributes::AutoCorrect(_) => "autocorrect",
                HtmlAttributes::AutoSave(_) => "autosave",
                HtmlAttributes::Color(_) => "color",
                HtmlAttributes::ItemProp(_) => "itemprop",
                HtmlAttributes::ItemScope(_) => "itemscope",
                HtmlAttributes::ItemType(_) => "itemtype",
                HtmlAttributes::ItemID(_) => "itemid",
                HtmlAttributes::ItemRef(_) => "itemref",
                HtmlAttributes::Results(_) => "results",
                HtmlAttributes::Security(_) => "security",
                HtmlAttributes::Unselectable(_) => "unselectable",
                HtmlAttributes::InputMode(_) => "inputmode",
                HtmlAttributes::Is(_) => "is",
            },
        )
    }

    /// Returns the serialized value, `None` for a boolean attribute.
    pub fn get_val(&self) -> (r: Option<String>)
        ensures
            match r {
                Some(s) => self.spec_val() == Some(s@),
                None => self.spec_val() is None,
            },
    {
        match self {
            HtmlAttributes::AccessKey(val) => Some(String::from_str(val)),
            HtmlAttributes::ContentEditable(val) => Some(String::from_str(val.as_str())),
            HtmlAttributes::ContextMenu(val) => Some(String::from_str(val)),
            HtmlAttributes::Dir(val) => Some(String::from_str(val)),
            HtmlAttributes::Draggable(val) => Some(bool_to_string(*val)),
            HtmlAttributes::Hidden(val) => Some(bool_to_string(*val)),
            HtmlAttributes::Id(val) => Some(String::from_str(val)),
            HtmlAttributes::Lang(val) => Some(String::from_str(val)),
            HtmlAttributes::Placeholder(val) => Some(String::from_str(val)),
            HtmlAttributes::Slot(val) => Some(String::from_str(val)),
            HtmlAttributes::SpellCheck(val) => Some(bool_to_string(*val)),
            HtmlAttributes::TabIndex(val) => Some(u64_to_string(*val as u64)),
            HtmlAttributes::Title(val) => Some(String::from_str(val)),
            HtmlAttributes::Translate(val) => Some(String::from_str(val.as_str())),
            HtmlAttributes::Role(val) => match val {
                AriaRole::Custom(custom_val) => Some(custom_val.clone()),
                _ => Some(String::from_str(val.as_str())),
            },
            HtmlAttributes::About(val) => Some(String::from_str(val)),
            HtmlAttributes::Datatype(val) => Some(String::from_str(val)),
            HtmlAttributes::Inlist(val) => Some(String::from_str(val)),
            HtmlAttributes::Prefix(val) => Some(String::from_str(val)),
            HtmlAttributes::Property(val) => Some(String::from_str(val)),
            HtmlAttributes::Resource(val) => Some(String::from_str(val)),
            HtmlAttributes::Typeof(val) => Some(String::from_str(val)),
            HtmlAttributes::Vocab(val) => Some(String::from_str(val)),
            HtmlAttributes::AutoCapitalize(val) => Some(String::from_str(val)),
            HtmlAttributes::AutoCorrect(val) => Some(String::from_str(val)),
            HtmlAttributes::AutoSave(val) => Some(String::from_str(val)),
            HtmlAttributes::Color(val) => Some(String::from_str(val)),
            HtmlAttributes::ItemProp(val) => Some(String::from_str(val)),
            HtmlAttributes::ItemScope(val) => Some(bool_to_string(*val)),
            HtmlAttributes::ItemType(val) => Some(String::from_str(val)),
            HtmlAttributes::ItemID(val) => Some(String::from_str(val)),
            HtmlAttributes::ItemRef(val) => Some(String::from_str(val)),
            HtmlAttributes::Results(val) => Some(u64_to_string(*val as u64)),
            HtmlAttributes::Security(val) => Some(String::from_str(val)),
            HtmlAttributes::Unselectable(val) => Some(String::from_str(val.as_str())),
            HtmlAttributes::InputMode(val) => Some(String::from_str(val.as_str())),
            HtmlAttributes::Is(val) => Some(String::from_str(val)),
        }
    }
}

} // verus!
