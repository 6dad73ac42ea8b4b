//! Attributes of the `button` element.

use vstd::prelude::*;
use crate::{Attribute, Url, TargetOption};

verus! {

/// Marks an attribute as accepted by the `button` element.
pub trait ButtonAttribute: Attribute {}

/// <https://developer.mozilla.org/en-US/docs/Web/HTML/Element/button#attr-autofocus>
#[derive(Debug)]
pub struct Autofocus;

impl Attribute for Autofocus {
    open spec fn spec_key(&self) -> Seq<char> {
        "autofocus"@
    }

    open spec fn spec_val(&self) -> Option<Seq<char>> {
        None
    }

    fn get_key(&self) -> &str {
        "autofocus"
    }

    fn get_val(&self) -> Option<&str> {
        None
    }
}

impl ButtonAttribute for Autofocus {}

/// <https://developer.mozilla.org/en-US/docs/Web/HTML/Element/button#attr-disabled>
#[derive(Debug)]
pub struct Disabled;

impl Attribute for Disabled {
    open spec fn spec_key(&self) -> Seq<char> {
        "disabled"@
    }

    open spec fn spec_val(&self) -> Option<Seq<char>> {
        None
    }

    fn get_key(&self) -> &str {
        "disabled"
    }

    fn get_val(&self) -> Option<&str> {
        None
    }
}

impl ButtonAttribute for Disabled {}

/// <https://developer.mozilla.org/en-US/docs/Web/HTML/Element/button#attr-form>
#[derive(Debug)]
pub struct Form(String);

impl Form {
    /// Wraps the given value.
    pub fn new(val: String) -> (r: Self)
        ensures
            r.spec_val() == Some(val@),
    {
        Form(val)
    }
}

impl Attribute for Form {
    open spec fn spec_key(&self) -> Seq<char> {
        "form"@
    }

    closed spec fn spec_val(&self) -> Option<Seq<char>> {
        Some(self.0@)
    }

    fn get_key(&self) -> &str {
        "form"
    }

    fn get_val(&self) -> Option<&str> {
        Some(self.0.as_str())
    }
}

impl ButtonAttribute for Form {}

/// <https://developer.mozilla.org/en-US/docs/Web/HTML/Element/button#attr-formaction>
#[derive(Debug)]
pub struct FormAction(String);

impl FormAction {
    /// Stores the URL's serialization.
    pub fn new(val: Url) -> (r: Self)
        ensures
            r.spec_val() == Some(val.spec_str()),
    {
        FormAction(String::from_str(val.as_str()))
    }
}

impl Attribute for FormAction {
    open spec fn spec_key(&self) -> Seq<char> {
        "formaction"@
    }

    closed spec fn spec_val(&self) -> Option<Seq<char>> {
        Some(self.0@)
    }

    fn get_key(&self) -> &str {
        "formaction"
    }

    fn get_val(&self) -> Option<&str> {
        Some(self.0.as_str())
    }
}

impl ButtonAttribute for FormAction {}

/// <https://developer.mozilla.org/en-US/docs/Web/HTML/Element/button#attr-formenctype>
#[derive(Debug)]
pub struct FormEncType(FormEncTypeOption);

impl FormEncType {
    /// Wraps the chosen option.
    pub fn new(val: FormEncTypeOption) -> (r: Self)
        ensures
            r.spec_val() == Some(val.spec_str()),
    {
        FormEncType(val)
    }
}

impl Attribute for FormEncType {
    open spec fn spec_key(&self) -> Seq<char> {
        "formenctype"@
    }

    closed spec fn spec_val(&self) -> Option<Seq<char>> {
        Some(self.0.spec_str())
    }

    fn get_key(&self) -> &str {
        "formenctype"
    }

    fn get_val(&self) -> Option<&str> {
        Some(self.0.as_str())
    }
}

impl ButtonAttribute for FormEncType {}

/// <https://developer.mozilla.org/en-US/docs/Web/HTML/Element/button#attr-formmethod>
#[derive(Debug)]
pub struct FormMethod(FormMethodOption);

impl FormMethod {
    /// Wraps the chosen option.
    pub fn new(val: FormMethodOption) -> (r: Self)
        ensures
            r.spec_val() == Some(val.spec_str()),
    {
        FormMethod(val)
    }
}

impl Attribute for FormMethod {
    open spec fn spec_key(&self) -> Seq<char> {
        "formmethod"@
    }

    closed spec fn spec_val(&self) -> Option<Seq<char>> {
        Some(self.0.spec_str())
    }

    fn get_key(&self) -> &str {
        "formmethod"
    }

    fn get_val(&self) -> Option<&str> {
        Some(self.0.as_str())
    }
}

impl ButtonAttribute for FormMethod {}

/// <https://developer.mozilla.org/en-US/docs/Web/HTML/Element/button#attr-formnovalidate>
#[derive(Debug)]
pub struct FormNoValidate;

impl Attribute for FormNoValidate {
    open spec fn spec_key(&self) -> Seq<char> {
        "formnovalidate"@
    }

    open spec fn spec_val(&self) -> Option<Seq<char>> {
        None
    }

    fn get_key(&self) -> &str {
        "formnovalidate"
    }

    fn get_val(&self) -> Option<&str> {
        None
    }
}

impl ButtonAttribute for FormNoValidate {}

/// <https://developer.mozilla.org/en-US/docs/Web/HTML/Element/button#attr-formtarget>
#[derive(Debug)]
pub struct FormTarget(TargetOption);

impl FormTarget {
    /// Wraps the chosen option.
    pub fn new(val: TargetOption) -> (r: Self)
        ensures
            r.spec_val() == Some(val.spec_str()),
    {
        FormTarget(val)
    }
}

impl Attribute for FormTarget {
    open spec fn spec_key(&self) -> Seq<char> {
        "formtarget"@
    }

    closed spec fn spec_val(&self) -> Option<Seq<char>> {
        Some(self.0.spec_str())
    }

    fn get_key(&self) -> &str {
        "formtarget"
    }

    fn get_val(&self) -> Option<&str> {
        Some(self.0.as_str())
    }
}

impl ButtonAttribute for FormTarget {}

/// <https://developer.mozilla.org/en-US/docs/Web/HTML/Element/button#attr-name>
#[derive(Debug)]
pub struct Name(String);

impl Name {
    /// Wraps the given value.
    pub fn new(val: String) -> (r: Self)
        ensures
            r.spec_val() == Some(val@),
    {
        Name(val)
    }
}

impl Attribute for Name {
    open spec fn spec_key(&self) -> Seq<char> {
        "name"@
    }

    closed spec fn spec_val(&self) -> Option<Seq<char>> {
        Some(self.0@)
    }

    fn get_key(&self) -> &str {
        "name"
    }

    fn get_val(&self) -> Option<&str> {
        Some(self.0.as_str())
    }
}

impl ButtonAttribute for Name {}

/// <https://developer.mozilla.org/en-US/docs/Web/HTML/Element/button#attr-type>
#[derive(Debug)]
pub struct Type(ButtonTypeOption);

impl Type {
    /// Wraps the chosen option.
    pub fn new(val: ButtonTypeOption) -> (r: Self)
        ensures
            r.spec_val() == Some(val.spec_str()),
    {
        Type(val)
    }
}

impl Attribute for Type {
    open spec fn spec_key(&self) -> Seq<char> {
        "type"@
    }

    closed spec fn spec_val(&self) -> Option<Seq<char>> {
        Some(self.0.spec_str())
    }

    fn get_key(&self) -> &str {
        "type"
    }

    fn get_val(&self) -> Option<&str> {
        Some(self.0.as_str())
    }
}

impl ButtonAttribute for Type {}

/// <https://developer.mozilla.org/en-US/docs/Web/HTML/Element/button#attr-value>
#[derive(Debug)]
pub struct Value(String);

impl Value {
    /// Wraps the given value.
    pub fn new(val: String) -> (r: Self)
        ensures
            r.spec_val() == Some(val@),
    {
        Value(val)
    }
}

impl Attribute for Value {
    open spec fn spec_key(&self) -> Seq<char> {
        "value"@
    }

    closed spec fn spec_val(&self) -> Option<Seq<char>> {
        Some(self.0@)
    }

    fn get_key(&self) -> &str {
        "value"
    }

    fn get_val(&self) -> Option<&str> {
        Some(self.0.as_str())
    }
}

impl ButtonAttribute for Value {}

/// An enum representing the different options for the type attribute of a button element.
///
///  <https://developer.mozilla.org/en-US/docs/Web/HTML/Element/button#attr-type>
#[derive(Debug)]
pub enum ButtonTypeOption {
    Submit,
    Reset,
    Button,
}

impl ButtonTypeOption {
    /// The serialized form of the option.
    pub open spec fn spec_str(&self) -> Seq<char> {
        match self {
            ButtonTypeOption::Submit => "submit"@,
            ButtonTypeOption::Reset => "reset"@,
            ButtonTypeOption::Button => "button"@,
        }
    }

    /// The serialized form of the option.
    pub fn as_str(&self) -> (r: &str)
        ensures
            r@ == self.spec_str(),
    {
        match self {
            ButtonTypeOption::Submit => "submit",
            ButtonTypeOption::Reset => "reset",
            ButtonTypeOption::Button => "button",
        }
    }
}

/// An enum representing the different options for the formenctype attribute of a button element.
///
///  <https://developer.mozilla.org/en-US/docs/Web/HTML/Element/button#attr-type>
#[derive(Debug)]
pub enum FormEncTypeOption {
    Application,
    Multipart,
    Text,
}

impl FormEncTypeOption {
    /// The serialized form of the option.
    pub open spec fn spec_str(&self) -> Seq<char> {
        match self {
            FormEncTypeOption::Application => "application/x-www-form-urlencoded"@,
            FormEncTypeOption::Multipart => "multipart/form-data"@,
            FormEncTypeOption::Text => "text/plain"@,
        }
    }

    /// The serialized form of the option.
    pub fn as_str(&self) -> (r: &str)
        ensures
            r@ == self.spec_str(),
    {
        match self {
            FormEncTypeOption::Application => "application/x-www-form-urlencoded",
            FormEncTypeOption::Multipart => "multipart/form-data",
            FormEncTypeOption::Text => "text/plain",
        }
    }
}

/// An enum representing the different options for the formmethod attribute of a button element.
///
///  <https://developer.mozilla.org/en-US/docs/Web/HTML/Element/button#attr-type>
#[derive(Debug)]
pub enum FormMethodOption {
    Post,
    Get,
}

impl FormMethodOption {
    /// The serialized form of the option.
    pub open spec fn spec_str(&self) -> Seq<char> {
        match self {
            FormMethodOption::Post => "post"@,
            FormMethodOption::Get => "get"@,
        }
    }

    /// The serialized form of the option.
    pub fn as_str(&self) -> (r: &str)
        ensures
            r@ == self.spec_str(),
    {
        match self {
            FormMethodOption::Post => "post",
            FormMethodOption::Get => "get",
        }
    }
}

} // verus!
