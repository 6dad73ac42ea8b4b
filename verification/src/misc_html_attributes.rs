//! A catch-all enum of HTML attribute keys, regardless of element type.

use vstd::prelude::*;
use crate::text::{spec_bool, bool_to_string, spec_idec, i64_to_string};
use crate::NumberOrString;

verus! {

/// An enum representing the different options for the `frameborder` attribute.
///
/// <https://www.w3resource.com/html/attributes/html-frameborder-attribute.php#:~:text=The%20purpose%20of%20the%20HTML,1%E2%80%9D%20or%20%E2%80%9C0%E2%80%9D.&text=HTML%20frameborder%20attribute%20supports%20frame%20and%20iframe%20elements.>
#[derive(Debug, PartialEq, Clone, Eq)]
pub enum FrameBorder {
    Zero,
    One,
}

impl FrameBorder {
    /// The serialized form of the option.
    pub open spec fn spec_str(&self) -> Seq<char> {
        match self {
            FrameBorder::Zero => "0"@,
            FrameBorder::One => "1"@,
        }
    }

    /// The serialized form of the option.
    pub fn as_str(&self) -> (r: &str)
        ensures
            r@ == self.spec_str(),
    {
        match self {
            FrameBorder::Zero => "0",
            FrameBorder::One => "1",
        }
    }
}

/// An enum representing the different options for the `capture` attribute.
///
/// <https://developer.mozilla.org/en-US/docs/Web/HTML/Global_attributes/inputmode>
#[derive(Debug, PartialEq, Clone, Eq)]
pub enum Capture {
    User,
    Environment,
}

impl Capture {
    /// The serialized form of the option.
    pub open spec fn spec_str(&self) -> Seq<char> {
        match self {
            Capture::User => "user"@,
            Capture::Environment => "environment"@,
        }
    }

    /// The serialized form of the option.
    pub fn as_str(&self) -> (r: &str)
        ensures
            r@ == self.spec_str(),
    {
        match self {
            Capture::User => "user",
            Capture::Environment => "environment",
        }
    }
}

/// An enum of many different html attribute keys, regardless of element type. This can be
/// used in conjunction with [html_attributes] to give you access to practically all HTML
/// attributes. Each variant takes either tuple that represents the valid values for the
/// attributes or nothing to represent a boolean attribute.
///
/// Two values are equal exactly when they stand for the same
/// attribute, whatever values they carry; no hashing is offered.
#[derive(Debug, Clone, Eq)]
pub enum MiscHtmlAttributes {
    Accept(String),
    AcceptCharset(String),
    Action(String),
    AllowFullScreen(bool),
    AllowTransparency(bool),
    Alt(String),
    As(String),
    Async,
    AutoComplete(String),
    AutoFocus,
    AutoPlay,
    Capture(Capture),
    CellPadding(crate::NumberOrString),
    CellSpacing(crate::NumberOrString),
    CharSet(String),
    Challenge(String),
    Checked,
    Cite(String),
    ClassID(String),
    Cols(i64),
    ColSpan(i64),
    Content(String),
    Controls,
    Coords(String),
    CrossOrigin(String),
    Data(String),
    DateTime(String),
    Default,
    Defer,
    Disabled,
    Download,
    EncType(String),
    Form(String),
    FormAction(String),
    FormEncType(String),
    FormMethod(String),
    FormNoValidate,
    FormTarget(String),
    FrameBorder(FrameBorder),
    Headers(String),
    Height(crate::NumberOrString),
    High(i64),
    Href(String),
    HrefLang(String),
    For(String),
    HttpEquiv(String),
    Integrity(String),
    KeyParams(String),
    KeyType(String),
    Kind(String),
    Label(String),
    List(String),
    Loop,
    Low(i64),
    Manifest(String),
    MarginHeight(i64),
    MarginWidth(i64),
    Max(crate::NumberOrString),
    MaxLength(i64),
    Media(String),
    MediaGroup(String),
    Method(String),
    Min(crate::NumberOrString),
    MinLength(i64),
    Multiple,
    Muted,
    Name(String),
    Nonce(String),
    NoValidate,
    Open,
    Optimum(i64),
    Pattern(String),
    Placeholder(String),
    PlaysInline,
    Poster(String),
    Preload(String),
    ReadOnly,
    Rel(String),
    Required,
    Reversed,
    Rows(i64),
    RowSpan(i64),
    Sandbox(String),
    Scope(String),
    Scoped,
    Scrolling(String),
    Seamless,
    Selected,
    Shape(String),
    Size(i64),
    Sizes(String),
    Span(i64),
    Src(String),
    SrcDoc(String),
    SrcLang(String),
    SrcSet(String),
    Start(i64),
    Step(crate::NumberOrString),
    Summary(String),
    Target(String),
    Type(String),
    UseMap(String),
    Value(String),
    Width(crate::NumberOrString),
    Wwmode(String),
    Wrap(String),
}

impl MiscHtmlAttributes {
    /// The DOM key for this attribute.
    pub open spec fn spec_key(&self) -> Seq<char> {
        match self {
            MiscHtmlAttributes::Accept(_) => "accept"@,
            MiscHtmlAttributes::AcceptCharset(_) => "accept-charset"@,
            MiscHtmlAttributes::Action(_) => "action"@,
            MiscHtmlAttributes::AllowFullScreen(_) => "allowfullscreen"@,
            MiscHtmlAttributes::AllowTransparency(_) => "allowtransparency"@,
            MiscHtmlAttributes::Alt(_) => "alt"@,
            MiscHtmlAttributes::As(_) => "as"@,
            MiscHtmlAttributes::Async => "async"@,
            MiscHtmlAttributes::AutoComplete(_) => "autocomplete"@,
            MiscHtmlAttributes::AutoFocus => "autofocus"@,
            MiscHtmlAttributes::AutoPlay => "autoplay"@,
            MiscHtmlAttributes::Capture(_) => "capture"@,
            MiscHtmlAttributes::CellPadding(_) => "cellpadding"@,
            MiscHtmlAttributes::CellSpacing(_) => "cellspacing"@,
            MiscHtmlAttributes::CharSet(_) => "charset"@,
            MiscHtmlAttributes::Challenge(_) => "challenge"@,
            MiscHtmlAttributes::Checked => "checked"@,
            MiscHtmlAttributes::Cite(_) => "cite"@,
            MiscHtmlAttributes::ClassID(_) => "classid"@,
            MiscHtmlAttributes::Cols(_) => "cols"@,
            MiscHtmlAttributes::ColSpan(_) => "colspan"@,
            MiscHtmlAttributes::Content(_) => "content"@,
            MiscHtmlAttributes::Controls => "controls"@,
            MiscHtmlAttributes::Coords(_) => "coords"@,
            MiscHtmlAttributes::CrossOrigin(_) => "crossorigin"@,
            MiscHtmlAttributes::Data(_) => "data"@,
            MiscHtmlAttributes::DateTime(_) => "datetime"@,
            MiscHtmlAttributes::Default => "default"@,
            MiscHtmlAttributes::Defer => "defer"@,
            MiscHtmlAttributes::Disabled => "disabled"@,
            MiscHtmlAttributes::Download => "download"@,
            MiscHtmlAttributes::EncType(_) => "enctype"@,
            MiscHtmlAttributes::Form(_) => "form"@,
            MiscHtmlAttributes::FormAction(_) => "formaction"@,
            MiscHtmlAttributes::FormEncType(_) => "formenctype"@,
            MiscHtmlAttributes::FormMethod(_) => "formmethod"@,
            MiscHtmlAttributes::FormNoValidate => "formnovalidate"@,
            MiscHtmlAttributes::FormTarget(_) => "formtarget"@,
            MiscHtmlAttributes::FrameBorder(_) => "frameborder"@,
            MiscHtmlAttributes::Headers(_) => "headers"@,
            MiscHtmlAttributes::Height(_) => "height"@,
            MiscHtmlAttributes::High(_) => "high"@,
            MiscHtmlAttributes::Href(_) => "href"@,
            MiscHtmlAttributes::HrefLang(_) => "hreflang"@,
            MiscHtmlAttributes::For(_) => "for"@,
            MiscHtmlAttributes::HttpEquiv(_) => "httpequiv"@,
            MiscHtmlAttributes::Integrity(_) => "integrity"@,
            MiscHtmlAttributes::KeyParams(_) => "keyparams"@,
            MiscHtmlAttributes::KeyType(_) => "keytype"@,
            MiscHtmlAttributes::Kind(_) => "kind"@,
            MiscHtmlAttributes::Label(_) => "label"@,
            MiscHtmlAttributes::List(_) => "list"@,
            MiscHtmlAttributes::Loop => "loop"@,
            MiscHtmlAttributes::Low(_) => "low"@,
            MiscHtmlAttributes::Manifest(_) => "manifest"@,
            MiscHtmlAttributes::MarginHeight(_) => "marginheight"@,
            MiscHtmlAttributes::MarginWidth(_) => "marginwidth"@,
            MiscHtmlAttributes::Max(_) => "max"@,
            MiscHtmlAttributes::MaxLength(_) => "maxlength"@,
            MiscHtmlAttributes::Media(_) => "media"@,
            MiscHtmlAttributes::MediaGroup(_) => "mediagroup"@,
            MiscHtmlAttributes::Method(_) => "method"@,
            MiscHtmlAttributes::Min(_) => "min"@,
            MiscHtmlAttributes::MinLength(_) => "minlength"@,
            MiscHtmlAttributes::Multiple => "multiple"@,
            MiscHtmlAttributes::Muted => "muted"@,
            MiscHtmlAttributes::Name(_) => "name"@,
            MiscHtmlAttributes::Nonce(_) => "nonce"@,
            MiscHtmlAttributes::NoValidate => "novalidate"@,
            MiscHtmlAttributes::Open => "open"@,
            MiscHtmlAttributes::Optimum(_) => "optimum"@,
            MiscHtmlAttributes::Pattern(_) => "pattern"@,
            MiscHtmlAttributes::Placeholder(_) => "placeholder"@,
            MiscHtmlAttributes::PlaysInline => "playsinline"@,
            MiscHtmlAttributes::Poster(_) => "poster"@,
            MiscHtmlAttributes::Preload(_) => "preload"@,
            MiscHtmlAttributes::ReadOnly => "readonly"@,
            MiscHtmlAttributes::Rel(_) => "rel"@,
            MiscHtmlAttributes::Required => "required"@,
            MiscHtmlAttributes::Reversed => "reversed"@,
            MiscHtmlAttributes::Rows(_) => "rows"@,
            MiscHtmlAttributes::RowSpan(_) => "rowspan"@,
            MiscHtmlAttributes::Sandbox(_) => "sandbox"@,
            MiscHtmlAttributes::Scope(_) => "scope"@,
            MiscHtmlAttributes::Scoped => "scoped"@,
            MiscHtmlAttributes::Scrolling(_) => "scrolling"@,
            MiscHtmlAttributes::Seamless => "seamless"@,
            MiscHtmlAttributes::Selected => "selected"@,
            MiscHtmlAttributes::Shape(_) => "shape"@,
            MiscHtmlAttributes::Size(_) => "size"@,
            MiscHtmlAttributes::Sizes(_) => "sizes"@,
            MiscHtmlAttributes::Span(_) => "span"@,
            MiscHtmlAttributes::Src(_) => "src"@,
            MiscHtmlAttributes::SrcDoc(_) => "srcdoc"@,
            MiscHtmlAttributes::SrcLang(_) => "srclang"@,
            MiscHtmlAttributes::SrcSet(_) => "srcset"@,
            MiscHtmlAttributes::Start(_) => "start"@,
            MiscHtmlAttributes::Step(_) => "step"@,
            MiscHtmlAttributes::Summary(_) => "summary"@,
            MiscHtmlAttributes::Target(_) => "target"@,
            MiscHtmlAttributes::Type(_) => "type"@,
            MiscHtmlAttributes::UseMap(_) => "usemap"@,
            MiscHtmlAttributes::Value(_) => "value"@,
            MiscHtmlAttributes::Width(_) => "width"@,
            MiscHtmlAttributes::Wwmode(_) => "wwmode"@,
            MiscHtmlAttributes::Wrap(_) => "wrap"@,
        }
    }

    /// The serialized value; `None` stands for a boolean attribute.
    pub open spec fn spec_val(&self) -> Option<Seq<char>> {
        match self {
            MiscHtmlAttributes::Accept(val) => Some(val@),
            MiscHtmlAttributes::AcceptCharset(val) => Some(val@),
            MiscHtmlAttributes::Action(val) => Some(val@),
            MiscHtmlAttributes::AllowFullScreen(val) => Some(spec_bool(*val)),
            MiscHtmlAttributes::AllowTransparency(val) => Some(spec_bool(*val)),
            MiscHtmlAttributes::Alt(val) => Some(val@),
            MiscHtmlAttributes::As(val) => Some(val@),
            MiscHtmlAttributes::Async => None,
            MiscHtmlAttributes::AutoComplete(val) => Some(val@),
            MiscHtmlAttributes::AutoFocus => None,
            MiscHtmlAttributes::AutoPlay => None,
            MiscHtmlAttributes::Capture(val) => Some(val.spec_str()),
            MiscHtmlAttributes::CellPadding(val) => Some(val.spec_str()),
            MiscHtmlAttributes::CellSpacing(val) => Some(val.spec_str()),
            MiscHtmlAttributes::CharSet(val) => Some(val@),
            MiscHtmlAttributes::Challenge(val) => Some(val@),
            MiscHtmlAttributes::Checked => None,
            MiscHtmlAttributes::Cite(val) => Some(val@),
            MiscHtmlAttributes::ClassID(val) => Some(val@),
            MiscHtmlAttributes::Cols(val) => Some(spec_idec(*val as int)),
            MiscHtmlAttributes::ColSpan(val) => Some(spec_idec(*val as int)),
            MiscHtmlAttributes::Content(val) => Some(val@),
            MiscHtmlAttributes::Controls => None,
            MiscHtmlAttributes::Coords(val) => Some(val@),
            MiscHtmlAttributes::CrossOrigin(val) => Some(val@),
            MiscHtmlAttributes::Data(val) => Some(val@),
            MiscHtmlAttributes::DateTime(val) => Some(val@),
            MiscHtmlAttributes::Default => None,
            MiscHtmlAttributes::Defer => None,
            MiscHtmlAttributes::Disabled => None,
            MiscHtmlAttributes::Download => None,
            MiscHtmlAttributes::EncType(val) => Some(val@),
            MiscHtmlAttributes::Form(val) => Some(val@),
            MiscHtmlAttributes::FormAction(val) => Some(val@),
            MiscHtmlAttributes::FormEncType(val) => Some(val@),
            MiscHtmlAttributes::FormMethod(val) => Some(val@),
            MiscHtmlAttributes::FormNoValidate => None,
            MiscHtmlAttributes::FormTarget(val) => Some(val@),
            MiscHtmlAttributes::FrameBorder(val) => Some(val.spec_str()),
            MiscHtmlAttributes::Headers(val) => Some(val@),
            MiscHtmlAttributes::Height(val) => Some(val.spec_str()),
            MiscHtmlAttributes::High(val) => Some(spec_idec(*val as int)),
            MiscHtmlAttributes::Href(val) => Some(val@),
            MiscHtmlAttributes::HrefLang(val) => Some(val@),
            MiscHtmlAttributes::For(val) => Some(val@),
            MiscHtmlAttributes::HttpEquiv(val) => Some(val@),
            MiscHtmlAttributes::Integrity(val) => Some(val@),
            MiscHtmlAttributes::KeyParams(val) => Some(val@),
            MiscHtmlAttributes::KeyType(val) => Some(val@),
            MiscHtmlAttributes::Kind(val) => Some(val@),
            MiscHtmlAttributes::Label(val) => Some(val@),
            MiscHtmlAttributes::List(val) => Some(val@),
            MiscHtmlAttributes::Loop => None,
            MiscHtmlAttributes::Low(val) => Some(spec_idec(*val as int)),
            MiscHtmlAttributes::Manifest(val) => Some(val@),
            MiscHtmlAttributes::MarginHeight(val) => Some(spec_idec(*val as int)),
            MiscHtmlAttributes::MarginWidth(val) => Some(spec_idec(*val as int)),
            MiscHtmlAttributes::Max(val) => Some(val.spec_str()),
            MiscHtmlAttributes::MaxLength(val) => Some(spec_idec(*val as int)),
            MiscHtmlAttributes::Media(val) => Some(val@),
            MiscHtmlAttributes::MediaGroup(val) => Some(val@),
            MiscHtmlAttributes::Method(val) => Some(val@),
            MiscHtmlAttributes::Min(val) => Some(val.spec_str()),
            MiscHtmlAttributes::MinLength(val) => Some(spec_idec(*val as int)),
            MiscHtmlAttributes::Multiple => None,
            MiscHtmlAttributes::Muted => None,
            MiscHtmlAttributes::Name(val) => Some(val@),
            MiscHtmlAttributes::Nonce(val) => Some(val@),
            MiscHtmlAttributes::NoValidate => None,
            MiscHtmlAttributes::Open => None,
            MiscHtmlAttributes::Optimum(val) => Some(spec_idec(*val as int)),
            MiscHtmlAttributes::Pattern(val) => Some(val@),
            MiscHtmlAttributes::Placeholder(val) => Some(val@),
            MiscHtmlAttributes::PlaysInline => None,
            MiscHtmlAttributes::Poster(val) => Some(val@),
            MiscHtmlAttributes::Preload(val) => Some(val@),
            MiscHtmlAttributes::ReadOnly => None,
            MiscHtmlAttributes::Rel(val) => Some(val@),
            MiscHtmlAttributes::Required => None,
            MiscHtmlAttributes::Reversed => None,
            MiscHtmlAttributes::Rows(val) => Some(spec_idec(*val as int)),
            MiscHtmlAttributes::RowSpan(val) => Some(spec_idec(*val as int)),
            MiscHtmlAttributes::Sandbox(val) => Some(val@),
            MiscHtmlAttributes::Scope(val) => Some(val@),
            MiscHtmlAttributes::Scoped => None,
            MiscHtmlAttributes::Scrolling(val) => Some(val@),
            MiscHtmlAttributes::Seamless => None,
            MiscHtmlAttributes::Selected => None,
            MiscHtmlAttributes::Shape(val) => Some(val@),
            MiscHtmlAttributes::Size(val) => Some(spec_idec(*val as int)),
            MiscHtmlAttributes::Sizes(val) => Some(val@),
            MiscHtmlAttributes::Span(val) => Some(spec_idec(*val as int)),
            MiscHtmlAttributes::Src(val) => Some(val@),
            MiscHtmlAttributes::SrcDoc(val) => Some(val@),
            MiscHtmlAttributes::SrcLang(val) => Some(val@),
            MiscHtmlAttributes::SrcSet(val) => Some(val@),
            MiscHtmlAttributes::Start(val) => Some(spec_idec(*val as int)),
            MiscHtmlAttributes::Step(val) => Some(val.spec_str()),
            MiscHtmlAttributes::Summary(val) => Some(val@),
            MiscHtmlAttributes::Target(val) => Some(val@),
            MiscHtmlAttributes::Type(val) => Some(val@),
            MiscHtmlAttributes::UseMap(val) => Some(val@),
            MiscHtmlAttributes::Value(val) => Some(val@),
            MiscHtmlAttributes::Width(val) => Some(val.spec_str()),
            MiscHtmlAttributes::Wwmode(val) => Some(val@),
            MiscHtmlAttributes::Wrap(val) => Some(val@),
        }
    }

    /// Returns the DOM key for this attribute.
    pub fn get_key(&self) -> (r: String)
        ensures
            r@ == self.spec_key(),
    {
        String::from_str(
            match self {
                MiscHtmlAttributes::Accept(_) => "accept",
                MiscHtmlAttributes::AcceptCharset(_) => "accept-charset",
                MiscHtmlAttributes::Action(_) => "action",
                MiscHtmlAttributes::AllowFullScreen(_) => "allowfullscreen",
                MiscHtmlAttributes::AllowTransparency(_) => "allowtransparency",
                MiscHtmlAttributes::Alt(_) => "alt",
                MiscHtmlAttributes::As(_) => "as",
                MiscHtmlAttributes::Async => "async",
                MiscHtmlAttributes::AutoComplete(_) => "autocomplete",
                MiscHtmlAttributes::AutoFocus => "autofocus",
                MiscHtmlAttributes::AutoPlay => "autoplay",
                MiscHtmlAttributes::Capture(_) => "capture",
                MiscHtmlAttributes::CellPadding(_) => "cellpadding",
                MiscHtmlAttributes::CellSpacing(_) => "cellspacing",
                MiscHtmlAttributes::CharSet(_) => "charset",
                MiscHtmlAttributes::Challenge(_) => "challenge",
                MiscHtmlAttributes::Checked => "checked",
                MiscHtmlAttributes::Cite(_) => "cite",
                MiscHtmlAttributes::ClassID(_) => "classid",
                MiscHtmlAttributes::Cols(_) => "cols",
                MiscHtmlAttributes::ColSpan(_) => "colspan",
                MiscHtmlAttributes::Content(_) => "content",
                MiscHtmlAttributes::Controls => "controls",
                MiscHtmlAttributes::Coords(_) => "coords",
                MiscHtmlAttributes::CrossOrigin(_) => "crossorigin",
                MiscHtmlAttributes::Data(_) => "data",
                MiscHtmlAttributes::DateTime(_) => "datetime",
                MiscHtmlAttributes::Default => "default",
                MiscHtmlAttributes::Defer => "defer",
                MiscHtmlAttributes::Disabled => "disabled",
                MiscHtmlAttributes::Download => "download",
                MiscHtmlAttributes::EncType(_) => "enctype",
                MiscHtmlAttributes::Form(_) => "form",
                MiscHtmlAttributes::FormAction(_) => "formaction",
                MiscHtmlAttributes::FormEncType(_) => "formenctype",
                MiscHtmlAttributes::FormMethod(_) => "formmethod",
                MiscHtmlAttributes::FormNoValidate => "formnovalidate",
                MiscHtmlAttributes::FormTarget(_) => "formtarget",
                MiscHtmlAttributes::FrameBorder(_) => "frameborder",
                MiscHtmlAttributes::Headers(_) => "headers",
                MiscHtmlAttributes::Height(_) => "height",
                MiscHtmlAttributes::High(_) => "high",
                MiscHtmlAttributes::Href(_) => "href",
                MiscHtmlAttributes::HrefLang(_) => "hreflang",
                MiscHtmlAttributes::For(_) => "for",
                MiscHtmlAttributes::HttpEquiv(_) => "httpequiv",
                MiscHtmlAttributes::Integrity(_) => "integrity",
                MiscHtmlAttributes::KeyParams(_) => "keyparams",
                MiscHtmlAttributes::KeyType(_) => "keytype",
                MiscHtmlAttributes::Kind(_) => "kind",
                MiscHtmlAttributes::Label(_) => "label",
                MiscHtmlAttributes::List(_) => "list",
                MiscHtmlAttributes::Loop => "loop",
                MiscHtmlAttributes::Low(_) => "low",
                MiscHtmlAttributes::Manifest(_) => "manifest",
                MiscHtmlAttributes::MarginHeight(_) => "marginheight",
                MiscHtmlAttributes::MarginWidth(_) => "marginwidth",
                MiscHtmlAttributes::Max(_) => "max",
                MiscHtmlAttributes::MaxLength(_) => "maxlength",
                MiscHtmlAttributes::Media(_) => "media",
                MiscHtmlAttributes::MediaGroup(_) => "mediagroup",
                MiscHtmlAttributes::Method(_) => "method",
                MiscHtmlAttributes::Min(_) => "min",
                MiscHtmlAttributes::MinLength(_) => "minlength",
                MiscHtmlAttributes::Multiple => "multiple",
                MiscHtmlAttributes::Muted => "muted",
                MiscHtmlAttributes::Name(_) => "name",
                MiscHtmlAttributes::Nonce(_) => "nonce",
                MiscHtmlAttributes::NoValidate => "novalidate",
                MiscHtmlAttributes::Open => "open",
                MiscHtmlAttributes::Optimum(_) => "optimum",
                MiscHtmlAttributes::Pattern(_) => "pattern",
                MiscHtmlAttributes::Placeholder(_) => "placeholder",
                MiscHtmlAttributes::PlaysInline => "playsinline",
                MiscHtmlAttributes::Poster(_) => "poster",
                MiscHtmlAttributes::Preload(_) => "preload",
                MiscHtmlAttributes::ReadOnly => "readonly",
                MiscHtmlAttributes::Rel(_) => "rel",
                MiscHtmlAttributes::Required => "required",
                MiscHtmlAttributes::Reversed => "reversed",
                MiscHtmlAttributes::Rows(_) => "rows",
                MiscHtmlAttributes::RowSpan(_) => "rowspan",
                MiscHtmlAttributes::Sandbox(_) => "sandbox",
                MiscHtmlAttributes::Scope(_) => "scope",
                MiscHtmlAttributes::Scoped => "scoped",
                MiscHtmlAttributes::Scrolling(_) => "scrolling",
                MiscHtmlAttributes::Seamless => "seamless",
                MiscHtmlAttributes::Selected => "selected",
                MiscHtmlAttributes::Shape(_) => "shape",
                MiscHtmlAttributes::Size(_) => "size",
                MiscHtmlAttributes::Sizes(_) => "sizes",
                MiscHtmlAttributes::Span(_) => "span",
                MiscHtmlAttributes::Src(_) => "src",
                MiscHtmlAttributes::SrcDoc(_) => "srcdoc",
                MiscHtmlAttributes::SrcLang(_) => "srclang",
                MiscHtmlAttributes::SrcSet(_) => "srcset",
                MiscHtmlAttributes::Start(_) => "start",
                MiscHtmlAttributes::Step(_) => "step",
                MiscHtmlAttributes::Summary(_) => "summary",
                MiscHtmlAttributes::Target(_) => "target",
                MiscHtmlAttributes::Type(_) => "type",
                MiscHtmlAttributes::UseMap(_) => "usemap",
                MiscHtmlAttributes::Value(_) => "value",
                MiscHtmlAttributes::Width(_) => "width",
                MiscHtmlAttributes::Wwmode(_) => "wwmode",
                MiscHtmlAttributes::Wrap(_) => "wrap",
            },
        )
    }

    /// Returns the serialized value, `None` for a boolean attribute.
    pub fn get_val(&self) -> (r: Option<String>)
        ensures
            match r {
                Some(s) => self.spec_val() == Some(s@),
                None => self.spec_val() is None,
            },
    {
        match self {
            MiscHtmlAttributes::Accept(val) => Some(val.clone()),
            MiscHtmlAttributes::AcceptCharset(val) => Some(val.clone()),
            MiscHtmlAttributes::Action(val) => Some(val.clone()),
            MiscHtmlAttributes::AllowFullScreen(val) => Some(bool_to_string(*val)),
            MiscHtmlAttributes::AllowTransparency(val) => Some(bool_to_string(*val)),
            MiscHtmlAttributes::Alt(val) => Some(val.clone()),
            MiscHtmlAttributes::As(val) => Some(val.clone()),
            MiscHtmlAttributes::Async => None,
            MiscHtmlAttributes::AutoComplete(val) => Some(val.clone()),
            MiscHtmlAttributes::AutoFocus => None,
            MiscHtmlAttributes::AutoPlay => None,
            MiscHtmlAttributes::Capture(val) => Some(String::from_str(val.as_str())),
            MiscHtmlAttributes::CellPadding(val) => Some(val.to_string()),
            MiscHtmlAttributes::CellSpacing(val) => Some(val.to_string()),
            MiscHtmlAttributes::CharSet(val) => Some(val.clone()),
            MiscHtmlAttributes::Challenge(val) => Some(val.clone()),
            MiscHtmlAttributes::Checked => None,
            MiscHtmlAttributes::Cite(val) => Some(val.clone()),
            MiscHtmlAttributes::ClassID(val) => Some(val.clone()),
            MiscHtmlAttributes::Cols(val) => Some(i64_to_string(*val as i64)),
            MiscHtmlAttributes::ColSpan(val) => Some(i64_to_string(*val as i64)),
            MiscHtmlAttributes::Content(val) => Some(val.clone()),
            MiscHtmlAttributes::Controls => None,
            MiscHtmlAttributes::Coords(val) => Some(val.clone()),
            MiscHtmlAttributes::CrossOrigin(val) => Some(val.clone()),
            MiscHtmlAttributes::Data(val) => Some(val.clone()),
            MiscHtmlAttributes::DateTime(val) => Some(val.clone()),
            MiscHtmlAttributes::Default => None,
            MiscHtmlAttributes::Defer => None,
            MiscHtmlAttributes::Disabled => None,
            MiscHtmlAttributes::Download => None,
            MiscHtmlAttributes::EncType(val) => Some(val.clone()),
            MiscHtmlAttributes::Form(val) => Some(val.clone()),
            MiscHtmlAttributes::FormAction(val) => Some(val.clone()),
            MiscHtmlAttributes::FormEncType(val) => Some(val.clone()),
            MiscHtmlAttributes::FormMethod(val) => Some(val.clone()),
            MiscHtmlAttributes::FormNoValidate => None,
            MiscHtmlAttributes::FormTarget(val) => Some(val.clone()),
            MiscHtmlAttributes::FrameBorder(val) => Some(String::from_str(val.as_str())),
            MiscHtmlAttributes::Headers(val) => Some(val.clone()),
            MiscHtmlAttributes::Height(val) => Some(val.to_string()),
            MiscHtmlAttributes::High(val) => Some(i64_to_string(*val as i64)),
            MiscHtmlAttributes::Href(val) => Some(val.clone()),
            MiscHtmlAttributes::HrefLang(val) => Some(val.clone()),
            MiscHtmlAttributes::For(val) => Some(val.clone()),
            MiscHtmlAttributes::HttpEquiv(val) => Some(val.clone()),
            MiscHtmlAttributes::Integrity(val) => Some(val.clone()),
            MiscHtmlAttributes::KeyParams(val) => Some(val.clone()),
            MiscHtmlAttributes::KeyType(val) => Some(val.clone()),
            MiscHtmlAttributes::Kind(val) => Some(val.clone()),
            MiscHtmlAttributes::Label(val) => Some(val.clone()),
            MiscHtmlAttributes::List(val) => Some(val.clone()),
            MiscHtmlAttributes::Loop => None,
            MiscHtmlAttributes::Low(val) => Some(i64_to_string(*val as i64)),
            MiscHtmlAttributes::Manifest(val) => Some(val.clone()),
            MiscHtmlAttributes::MarginHeight(val) => Some(i64_to_string(*val as i64)),
            MiscHtmlAttributes::MarginWidth(val) => Some(i64_to_string(*val as i64)),
            MiscHtmlAttributes::Max(val) => Some(val.to_string()),
            MiscHtmlAttributes::MaxLength(val) => Some(i64_to_string(*val as i64)),
            MiscHtmlAttributes::Media(val) => Some(val.clone()),
            MiscHtmlAttributes::MediaGroup(val) => Some(val.clone()),
            MiscHtmlAttributes::Method(val) => Some(val.clone()),
            MiscHtmlAttributes::Min(val) => Some(val.to_string()),
            MiscHtmlAttributes::MinLength(val) => Some(i64_to_string(*val as i64)),
            MiscHtmlAttributes::Multiple => None,
            MiscHtmlAttributes::Muted => None,
            MiscHtmlAttributes::Name(val) => Some(val.clone()),
            MiscHtmlAttributes::Nonce(val) => Some(val.clone()),
            MiscHtmlAttributes::NoValidate => None,
            MiscHtmlAttributes::Open => None,
            MiscHtmlAttributes::Optimum(val) => Some(i64_to_string(*val as i64)),
            MiscHtmlAttributes::Pattern(val) => Some(val.clone()),
            MiscHtmlAttributes::Placeholder(val) => Some(val.clone()),
            MiscHtmlAttributes::PlaysInline => None,
            MiscHtmlAttributes::Poster(val) => Some(val.clone()),
            MiscHtmlAttributes::Preload(val) => Some(val.clone()),
            MiscHtmlAttributes::ReadOnly => None,
            MiscHtmlAttributes::Rel(val) => Some(val.clone()),
            MiscHtmlAttributes::Required => None,
            MiscHtmlAttributes::Reversed => None,
            MiscHtmlAttributes::Rows(val) => Some(i64_to_string(*val as i64)),
            MiscHtmlAttributes::RowSpan(val) => Some(i64_to_string(*val as i64)),
            MiscHtmlAttributes::Sandbox(val) => Some(val.clone()),
            MiscHtmlAttributes::Scope(val) => Some(val.clone()),
            MiscHtmlAttributes::Scoped => None,
            MiscHtmlAttributes::Scrolling(val) => Some(val.clone()),
            MiscHtmlAttributes::Seamless => None,
            MiscHtmlAttributes::Selected => None,
            MiscHtmlAttributes::Shape(val) => Some(val.clone()),
            MiscHtmlAttributes::Size(val) => Some(i64_to_string(*val as i64)),
            MiscHtmlAttributes::Sizes(val) => Some(val.clone()),
            MiscHtmlAttributes::Span(val) => Some(i64_to_string(*val as i64)),
            MiscHtmlAttributes::Src(val) => Some(val.clone()),
            MiscHtmlAttributes::SrcDoc(val) => Some(val.clone()),
            MiscHtmlAttributes::SrcLang(val) => Some(val.clone()),
            MiscHtmlAttributes::SrcSet(val) => Some(val.clone()),
            MiscHtmlAttributes::Start(val) => Some(i64_to_string(*val as i64)),
            MiscHtmlAttributes::Step(val) => Some(val.to_string()),
            MiscHtmlAttributes::Summary(val) => Some(val.clone()),
            MiscHtmlAttributes::Target(val) => Some(val.clone()),
            MiscHtmlAttributes::Type(val) => Some(val.clone()),
            MiscHtmlAttributes::UseMap(val) => Some(val.clone()),
            MiscHtmlAttributes::Value(val) => Some(val.clone()),
            MiscHtmlAttributes::Width(val) => Some(val.to_string()),
            MiscHtmlAttributes::Wwmode(val) => Some(val.clone()),
            MiscHtmlAttributes::Wrap(val) => Some(val.clone()),
        }
    }
}

impl MiscHtmlAttributes {
    /// Which attribute a value stands for, as an index: what the
    /// variant-only equality compares.
    pub open spec fn spec_tag(&self) -> int {
        match self {
            MiscHtmlAttributes::Accept(_) => 0,
            MiscHtmlAttributes::AcceptCharset(_) => 1,
            MiscHtmlAttributes::Action(_) => 2,
            MiscHtmlAttributes::AllowFullScreen(_) => 3,
            MiscHtmlAttributes::AllowTransparency(_) => 4,
            MiscHtmlAttributes::Alt(_) => 5,
            MiscHtmlAttributes::As(_) => 6,
            MiscHtmlAttributes::Async => 7,
            MiscHtmlAttributes::AutoComplete(_) => 8,
            MiscHtmlAttributes::AutoFocus => 9,
            MiscHtmlAttributes::AutoPlay => 10,
            MiscHtmlAttributes::Capture(_) => 11,
            MiscHtmlAttributes::CellPadding(_) => 12,
            MiscHtmlAttributes::CellSpacing(_) => 13,
            MiscHtmlAttributes::CharSet(_) => 14,
            MiscHtmlAttributes::Challenge(_) => 15,
            MiscHtmlAttributes::Checked => 16,
            MiscHtmlAttributes::Cite(_) => 17,
            MiscHtmlAttributes::ClassID(_) => 18,
            MiscHtmlAttributes::Cols(_) => 19,
            MiscHtmlAttributes::ColSpan(_) => 20,
            MiscHtmlAttributes::Content(_) => 21,
            MiscHtmlAttributes::Controls => 22,
            MiscHtmlAttributes::Coords(_) => 23,
            MiscHtmlAttributes::CrossOrigin(_) => 24,
            MiscHtmlAttributes::Data(_) => 25,
            MiscHtmlAttributes::DateTime(_) => 26,
            MiscHtmlAttributes::Default => 27,
            MiscHtmlAttributes::Defer => 28,
            MiscHtmlAttributes::Disabled => 29,
            MiscHtmlAttributes::Download => 30,
            MiscHtmlAttributes::EncType(_) => 31,
            MiscHtmlAttributes::Form(_) => 32,
            MiscHtmlAttributes::FormAction(_) => 33,
            MiscHtmlAttributes::FormEncType(_) => 34,
            MiscHtmlAttributes::FormMethod(_) => 35,
            MiscHtmlAttributes::FormNoValidate => 36,
            MiscHtmlAttributes::FormTarget(_) => 37,
            MiscHtmlAttributes::FrameBorder(_) => 38,
            MiscHtmlAttributes::Headers(_) => 39,
            MiscHtmlAttributes::Height(_) => 40,
            MiscHtmlAttributes::High(_) => 41,
            MiscHtmlAttributes::Href(_) => 42,
            MiscHtmlAttributes::HrefLang(_) => 43,
            MiscHtmlAttributes::For(_) => 44,
            MiscHtmlAttributes::HttpEquiv(_) => 45,
            MiscHtmlAttributes::Integrity(_) => 46,
            MiscHtmlAttributes::KeyParams(_) => 47,
            MiscHtmlAttributes::KeyType(_) => 48,
            MiscHtmlAttributes::Kind(_) => 49,
            MiscHtmlAttributes::Label(_) => 50,
            MiscHtmlAttributes::List(_) => 51,
            MiscHtmlAttributes::Loop => 52,
            MiscHtmlAttributes::Low(_) => 53,
            MiscHtmlAttributes::Manifest(_) => 54,
            MiscHtmlAttributes::MarginHeight(_) => 55,
            MiscHtmlAttributes::MarginWidth(_) => 56,
            MiscHtmlAttributes::Max(_) => 57,
            MiscHtmlAttributes::MaxLength(_) => 58,
            MiscHtmlAttributes::Media(_) => 59,
            MiscHtmlAttributes::MediaGroup(_) => 60,
            MiscHtmlAttributes::Method(_) => 61,
            MiscHtmlAttributes::Min(_) => 62,
            MiscHtmlAttributes::MinLength(_) => 63,
            MiscHtmlAttributes::Multiple => 64,
            MiscHtmlAttributes::Muted => 65,
            MiscHtmlAttributes::Name(_) => 66,
            MiscHtmlAttributes::Nonce(_) => 67,
            MiscHtmlAttributes::NoValidate => 68,
            MiscHtmlAttributes::Open => 69,
            MiscHtmlAttributes::Optimum(_) => 70,
            MiscHtmlAttributes::Pattern(_) => 71,
            MiscHtmlAttributes::Placeholder(_) => 72,
            MiscHtmlAttributes::PlaysInline => 73,
            MiscHtmlAttributes::Poster(_) => 74,
            MiscHtmlAttributes::Preload(_) => 75,
            MiscHtmlAttributes::ReadOnly => 76,
            MiscHtmlAttributes::Rel(_) => 77,
            MiscHtmlAttributes::Required => 78,
            MiscHtmlAttributes::Reversed => 79,
            MiscHtmlAttributes::Rows(_) => 80,
            MiscHtmlAttributes::RowSpan(_) => 81,
            MiscHtmlAttributes::Sandbox(_) => 82,
            MiscHtmlAttributes::Scope(_) => 83,
            MiscHtmlAttributes::Scoped => 84,
            MiscHtmlAttributes::Scrolling(_) => 85,
            MiscHtmlAttributes::Seamless => 86,
            MiscHtmlAttributes::Selected => 87,
            MiscHtmlAttributes::Shape(_) => 88,
            MiscHtmlAttributes::Size(_) => 89,
            MiscHtmlAttributes::Sizes(_) => 90,
            MiscHtmlAttributes::Span(_) => 91,
            MiscHtmlAttributes::Src(_) => 92,
            MiscHtmlAttributes::SrcDoc(_) => 93,
            MiscHtmlAttributes::SrcLang(_) => 94,
            MiscHtmlAttributes::SrcSet(_) => 95,
            MiscHtmlAttributes::Start(_) => 96,
            MiscHtmlAttributes::Step(_) => 97,
            MiscHtmlAttributes::Summary(_) => 98,
            MiscHtmlAttributes::Target(_) => 99,
            MiscHtmlAttributes::Type(_) => 100,
            MiscHtmlAttributes::UseMap(_) => 101,
            MiscHtmlAttributes::Value(_) => 102,
            MiscHtmlAttributes::Width(_) => 103,
            MiscHtmlAttributes::Wwmode(_) => 104,
            MiscHtmlAttributes::Wrap(_) => 105,
        }
    }

    /// Which attribute a value stands for, as an index.
    fn tag(&self) -> (r: u32)
        ensures
            r as int == self.spec_tag(),
    {
        match self {
            MiscHtmlAttributes::Accept(_) => 0,
            MiscHtmlAttributes::AcceptCharset(_) => 1,
            MiscHtmlAttributes::Action(_) => 2,
            MiscHtmlAttributes::AllowFullScreen(_) => 3,
            MiscHtmlAttributes::AllowTransparency(_) => 4,
            MiscHtmlAttributes::Alt(_) => 5,
            MiscHtmlAttributes::As(_) => 6,
            MiscHtmlAttributes::Async => 7,
            MiscHtmlAttributes::AutoComplete(_) => 8,
            MiscHtmlAttributes::AutoFocus => 9,
            MiscHtmlAttributes::AutoPlay => 10,
            MiscHtmlAttributes::Capture(_) => 11,
            MiscHtmlAttributes::CellPadding(_) => 12,
            MiscHtmlAttributes::CellSpacing(_) => 13,
            MiscHtmlAttributes::CharSet(_) => 14,
            MiscHtmlAttributes::Challenge(_) => 15,
            MiscHtmlAttributes::Checked => 16,
            MiscHtmlAttributes::Cite(_) => 17,
            MiscHtmlAttributes::ClassID(_) => 18,
            MiscHtmlAttributes::Cols(_) => 19,
            MiscHtmlAttributes::ColSpan(_) => 20,
            MiscHtmlAttributes::Content(_) => 21,
            MiscHtmlAttributes::Controls => 22,
            MiscHtmlAttributes::Coords(_) => 23,
            MiscHtmlAttributes::CrossOrigin(_) => 24,
            MiscHtmlAttributes::Data(_) => 25,
            MiscHtmlAttributes::DateTime(_) => 26,
            MiscHtmlAttributes::Default => 27,
            MiscHtmlAttributes::Defer => 28,
            MiscHtmlAttributes::Disabled => 29,
            MiscHtmlAttributes::Download => 30,
            MiscHtmlAttributes::EncType(_) => 31,
            MiscHtmlAttributes::Form(_) => 32,
            MiscHtmlAttributes::FormAction(_) => 33,
            MiscHtmlAttributes::FormEncType(_) => 34,
            MiscHtmlAttributes::FormMethod(_) => 35,
            MiscHtmlAttributes::FormNoValidate => 36,
            MiscHtmlAttributes::FormTarget(_) => 37,
            MiscHtmlAttributes::FrameBorder(_) => 38,
            MiscHtmlAttributes::Headers(_) => 39,
            MiscHtmlAttributes::Height(_) => 40,
            MiscHtmlAttributes::High(_) => 41,
            MiscHtmlAttributes::Href(_) => 42,
            MiscHtmlAttributes::HrefLang(_) => 43,
            MiscHtmlAttributes::For(_) => 44,
            MiscHtmlAttributes::HttpEquiv(_) => 45,
            MiscHtmlAttributes::Integrity(_) => 46,
            MiscHtmlAttributes::KeyParams(_) => 47,
            MiscHtmlAttributes::KeyType(_) => 48,
            MiscHtmlAttributes::Kind(_) => 49,
            MiscHtmlAttributes::Label(_) => 50,
            MiscHtmlAttributes::List(_) => 51,
            MiscHtmlAttributes::Loop => 52,
            MiscHtmlAttributes::Low(_) => 53,
            MiscHtmlAttributes::Manifest(_) => 54,
            MiscHtmlAttributes::MarginHeight(_) => 55,
            MiscHtmlAttributes::MarginWidth(_) => 56,
            MiscHtmlAttributes::Max(_) => 57,
            MiscHtmlAttributes::MaxLength(_) => 58,
            MiscHtmlAttributes::Media(_) => 59,
            MiscHtmlAttributes::MediaGroup(_) => 60,
            MiscHtmlAttributes::Method(_) => 61,
            MiscHtmlAttributes::Min(_) => 62,
            MiscHtmlAttributes::MinLength(_) => 63,
            MiscHtmlAttributes::Multiple => 64,
            MiscHtmlAttributes::Muted => 65,
            MiscHtmlAttributes::Name(_) => 66,
            MiscHtmlAttributes::Nonce(_) => 67,
            MiscHtmlAttributes::NoValidate => 68,
            MiscHtmlAttributes::Open => 69,
            MiscHtmlAttributes::Optimum(_) => 70,
            MiscHtmlAttributes::Pattern(_) => 71,
            MiscHtmlAttributes::Placeholder(_) => 72,
            MiscHtmlAttributes::PlaysInline => 73,
            MiscHtmlAttributes::Poster(_) => 74,
            MiscHtmlAttributes::Preload(_) => 75,
            MiscHtmlAttributes::ReadOnly => 76,
            MiscHtmlAttributes::Rel(_) => 77,
            MiscHtmlAttributes::Required => 78,
            MiscHtmlAttributes::Reversed => 79,
            MiscHtmlAttributes::Rows(_) => 80,
            MiscHtmlAttributes::RowSpan(_) => 81,
            MiscHtmlAttributes::Sandbox(_) => 82,
            MiscHtmlAttributes::Scope(_) => 83,
            MiscHtmlAttributes::Scoped => 84,
            MiscHtmlAttributes::Scrolling(_) => 85,
            MiscHtmlAttributes::Seamless => 86,
            MiscHtmlAttributes::Selected => 87,
            MiscHtmlAttributes::Shape(_) => 88,
            MiscHtmlAttributes::Size(_) => 89,
            MiscHtmlAttributes::Sizes(_) => 90,
            MiscHtmlAttributes::Span(_) => 91,
            MiscHtmlAttributes::Src(_) => 92,
            MiscHtmlAttributes::SrcDoc(_) => 93,
            MiscHtmlAttributes::SrcLang(_) => 94,
            MiscHtmlAttributes::SrcSet(_) => 95,
            MiscHtmlAttributes::Start(_) => 96,
            MiscHtmlAttributes::Step(_) => 97,
            MiscHtmlAttributes::Summary(_) => 98,
            MiscHtmlAttributes::Target(_) => 99,
            MiscHtmlAttributes::Type(_) => 100,
            MiscHtmlAttributes::UseMap(_) => 101,
            MiscHtmlAttributes::Value(_) => 102,
            MiscHtmlAttributes::Width(_) => 103,
            MiscHtmlAttributes::Wwmode(_) => 104,
            MiscHtmlAttributes::Wrap(_) => 105,
        }
    }
}

impl PartialEq for MiscHtmlAttributes {
    fn eq(&self, other: &Self) -> (r: bool) {
        self.tag() == other.tag()
    }
}

impl vstd::std_specs::cmp::PartialEqSpecImpl for MiscHtmlAttributes {
    open spec fn obeys_eq_spec() -> bool {
        true
    }

    open spec fn eq_spec(&self, other: &Self) -> bool {
        self.spec_tag() == other.spec_tag()
    }
}

} // verus!
