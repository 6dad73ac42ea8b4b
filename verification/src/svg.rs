//! Attributes of SVG elements.

use vstd::prelude::*;
use crate::text::{spec_bool, bool_to_string, spec_idec, i64_to_string};
use crate::{Attribute, NumberOrString};
pub use crate::anchor::Href;

verus! {

/// Marks an attribute as accepted by SVG elements.
pub trait SvgAttribute: Attribute {}

/// <https://developer.mozilla.org/en-US/docs/Web/SVG/Attribute/color>
#[derive(Debug)]
pub struct Color(String);

impl Color {
    /// Wraps the given value.
    pub fn new(val: String) -> (r: Self)
        ensures
            r.spec_val() == Some(val@),
    {
        Color(val)
    }
}

impl Attribute for Color {
    open spec fn spec_key(&self) -> Seq<char> {
        "color"@
    }

    closed spec fn spec_val(&self) -> Option<Seq<char>> {
        Some(self.0@)
    }

    fn get_key(&self) -> &str {
        "color"
    }

    fn get_val(&self) -> Option<&str> {
        Some(self.0.as_str())
    }
}

impl crate::anchor::AnchorAttribute for Color {}
impl crate::area::AreaAttribute for Color {}
impl crate::audio::AudioAttribute for Color {}
impl crate::base::BaseAttribute for Color {}
impl crate::blockquote::BlockQuoteAttribute for Color {}
impl crate::button::ButtonAttribute for Color {}
impl crate::canvas::CanvasAttribute for Color {}
impl crate::col::ColAttribute for Color {}
impl crate::colgroup::ColGroupAttribute for Color {}
impl crate::data::DataAttribute for Color {}
impl crate::details::DetailsAttribute for Color {}
impl SvgAttribute for Color {}

/// <https://developer.mozilla.org/en-US/docs/Web/SVG/Attribute/height>
#[derive(Debug)]
pub struct Height(String);

impl Height {
    /// Stores the length's serialization.
    pub fn new(val: SvgLength) -> (r: Self)
        ensures
            r.spec_val() == Some(val.spec_str()),
    {
        Height(String::from_str(val.as_str()))
    }
}

impl Attribute for Height {
    open spec fn spec_key(&self) -> Seq<char> {
        "height"@
    }

    closed spec fn spec_val(&self) -> Option<Seq<char>> {
        Some(self.0@)
    }

    fn get_key(&self) -> &str {
        "height"
    }

    fn get_val(&self) -> Option<&str> {
        Some(self.0.as_str())
    }
}

impl crate::anchor::AnchorAttribute for Height {}
impl crate::area::AreaAttribute for Height {}
impl crate::audio::AudioAttribute for Height {}
impl crate::base::BaseAttribute for Height {}
impl crate::blockquote::BlockQuoteAttribute for Height {}
impl crate::button::ButtonAttribute for Height {}
impl crate::canvas::CanvasAttribute for Height {}
impl crate::col::ColAttribute for Height {}
impl crate::colgroup::ColGroupAttribute for Height {}
impl crate::data::DataAttribute for Height {}
impl crate::details::DetailsAttribute for Height {}
impl SvgAttribute for Height {}

/// <https://developer.mozilla.org/en-US/docs/Web/SVG/Attribute/id>
#[derive(Debug)]
pub struct Id(String);

impl Id {
    /// Wraps the given value.
    pub fn new(val: String) -> (r: Self)
        ensures
            r.spec_val() == Some(val@),
    {
        Id(val)
    }
}

impl Attribute for Id {
    open spec fn spec_key(&self) -> Seq<char> {
        "id"@
    }

    closed spec fn spec_val(&self) -> Option<Seq<char>> {
        Some(self.0@)
    }

    fn get_key(&self) -> &str {
        "id"
    }

    fn get_val(&self) -> Option<&str> {
        Some(self.0.as_str())
    }
}

impl crate::anchor::AnchorAttribute for Id {}
impl crate::area::AreaAttribute for Id {}
impl crate::audio::AudioAttribute for Id {}
impl crate::base::BaseAttribute for Id {}
impl crate::blockquote::BlockQuoteAttribute for Id {}
impl crate::button::ButtonAttribute for Id {}
impl crate::canvas::CanvasAttribute for Id {}
impl crate::col::ColAttribute for Id {}
impl crate::colgroup::ColGroupAttribute for Id {}
impl crate::data::DataAttribute for Id {}
impl crate::details::DetailsAttribute for Id {}
impl SvgAttribute for Id {}

/// <https://developer.mozilla.org/en-US/docs/Web/SVG/Attribute/lang>
#[derive(Debug)]
pub struct Lang(String);

impl Lang {
    /// Wraps the given value.
    pub fn new(val: String) -> (r: Self)
        ensures
            r.spec_val() == Some(val@),
    {
        Lang(val)
    }
}

impl Attribute for Lang {
    open spec fn spec_key(&self) -> Seq<char> {
        "lang"@
    }

    closed spec fn spec_val(&self) -> Option<Seq<char>> {
        Some(self.0@)
    }

    fn get_key(&self) -> &str {
        "lang"
    }

    fn get_val(&self) -> Option<&str> {
        Some(self.0.as_str())
    }
}

impl crate::anchor::AnchorAttribute for Lang {}
impl crate::area::AreaAttribute for Lang {}
impl crate::audio::AudioAttribute for Lang {}
impl crate::base::BaseAttribute for Lang {}
impl crate::blockquote::BlockQuoteAttribute for Lang {}
impl crate::button::ButtonAttribute for Lang {}
impl crate::canvas::CanvasAttribute for Lang {}
impl crate::col::ColAttribute for Lang {}
impl crate::colgroup::ColGroupAttribute for Lang {}
impl crate::data::DataAttribute for Lang {}
impl crate::details::DetailsAttribute for Lang {}
impl SvgAttribute for Lang {}

/// <https://developer.mozilla.org/en-US/docs/Web/SVG/Attribute/max>
#[derive(Debug)]
pub struct Max(String);

impl Max {
    /// Stores the value's serialization.
    pub fn new(val: NumberOrString) -> (r: Self)
        ensures
            r.spec_val() == Some(val.spec_str()),
    {
        Max(val.to_string())
    }
}

impl Attribute for Max {
    open spec fn spec_key(&self) -> Seq<char> {
        "max"@
    }

    closed spec fn spec_val(&self) -> Option<Seq<char>> {
        Some(self.0@)
    }

    fn get_key(&self) -> &str {
        "max"
    }

    fn get_val(&self) -> Option<&str> {
        Some(self.0.as_str())
    }
}

impl crate::anchor::AnchorAttribute for Max {}
impl crate::area::AreaAttribute for Max {}
impl crate::audio::AudioAttribute for Max {}
impl crate::base::BaseAttribute for Max {}
impl crate::blockquote::BlockQuoteAttribute for Max {}
impl crate::button::ButtonAttribute for Max {}
impl crate::canvas::CanvasAttribute for Max {}
impl crate::col::ColAttribute for Max {}
impl crate::colgroup::ColGroupAttribute for Max {}
impl crate::data::DataAttribute for Max {}
impl crate::details::DetailsAttribute for Max {}
impl SvgAttribute for Max {}

/// <https://developer.mozilla.org/en-US/docs/Web/SVG/Attribute/media>
#[derive(Debug)]
pub struct Media(String);

impl Media {
    /// Wraps the given value.
    pub fn new(val: String) -> (r: Self)
        ensures
            r.spec_val() == Some(val@),
    {
        Media(val)
    }
}

impl Attribute for Media {
    open spec fn spec_key(&self) -> Seq<char> {
        "media"@
    }

    closed spec fn spec_val(&self) -> Option<Seq<char>> {
        Some(self.0@)
    }

    fn get_key(&self) -> &str {
        "media"
    }

    fn get_val(&self) -> Option<&str> {
        Some(self.0.as_str())
    }
}

impl crate::anchor::AnchorAttribute for Media {}
impl crate::area::AreaAttribute for Media {}
impl crate::audio::AudioAttribute for Media {}
impl crate::base::BaseAttribute for Media {}
impl crate::blockquote::BlockQuoteAttribute for Media {}
impl crate::button::ButtonAttribute for Media {}
impl crate::canvas::CanvasAttribute for Media {}
impl crate::col::ColAttribute for Media {}
impl crate::colgroup::ColGroupAttribute for Media {}
impl crate::data::DataAttribute for Media {}
impl crate::details::DetailsAttribute for Media {}
impl SvgAttribute for Media {}

/// <https://developer.mozilla.org/en-US/docs/Web/SVG/Attribute/method>
#[derive(Debug)]
pub struct Method(String);

impl Method {
    /// Wraps the given value.
    pub fn new(val: String) -> (r: Self)
        ensures
            r.spec_val() == Some(val@),
    {
        Method(val)
    }
}

impl Attribute for Method {
    open spec fn spec_key(&self) -> Seq<char> {
        "method"@
    }

    closed spec fn spec_val(&self) -> Option<Seq<char>> {
        Some(self.0@)
    }

    fn get_key(&self) -> &str {
        "method"
    }

    fn get_val(&self) -> Option<&str> {
        Some(self.0.as_str())
    }
}

impl crate::anchor::AnchorAttribute for Method {}
impl crate::area::AreaAttribute for Method {}
impl crate::audio::AudioAttribute for Method {}
impl crate::base::BaseAttribute for Method {}
impl crate::blockquote::BlockQuoteAttribute for Method {}
impl crate::button::ButtonAttribute for Method {}
impl crate::canvas::CanvasAttribute for Method {}
impl crate::col::ColAttribute for Method {}
impl crate::colgroup::ColGroupAttribute for Method {}
impl crate::data::DataAttribute for Method {}
impl crate::details::DetailsAttribute for Method {}
impl SvgAttribute for Method {}

/// <https://developer.mozilla.org/en-US/docs/Web/SVG/Attribute/min>
#[derive(Debug)]
pub struct Min(String);

impl Min {
    /// Wraps the given value.
    pub fn new(val: String) -> (r: Self)
        ensures
            r.spec_val() == Some(val@),
    {
        Min(val)
    }
}

impl Attribute for Min {
    open spec fn spec_key(&self) -> Seq<char> {
        "min"@
    }

    closed spec fn spec_val(&self) -> Option<Seq<char>> {
        Some(self.0@)
    }

    fn get_key(&self) -> &str {
        "min"
    }

    fn get_val(&self) -> Option<&str> {
        Some(self.0.as_str())
    }
}

impl crate::anchor::AnchorAttribute for Min {}
impl crate::area::AreaAttribute for Min {}
impl crate::audio::AudioAttribute for Min {}
impl crate::base::BaseAttribute for Min {}
impl crate::blockquote::BlockQuoteAttribute for Min {}
impl crate::button::ButtonAttribute for Min {}
impl crate::canvas::CanvasAttribute for Min {}
impl crate::col::ColAttribute for Min {}
impl crate::colgroup::ColGroupAttribute for Min {}
impl crate::data::DataAttribute for Min {}
impl crate::details::DetailsAttribute for Min {}
impl SvgAttribute for Min {}

/// <https://developer.mozilla.org/en-US/docs/Web/SVG/Attribute/name>
#[derive(Debug)]
pub struct Name(String);

impl Name {
    /// Wraps the given value.
    pub fn new(val: String) -> (r: Self)
        ensures
            r.spec_val() == Some(val@),
    {
        Name(val)
    }
}

impl Attribute for Name {
    open spec fn spec_key(&self) -> Seq<char> {
        "name"@
    }

    closed spec fn spec_val(&self) -> Option<Seq<char>> {
        Some(self.0@)
    }

    fn get_key(&self) -> &str {
        "name"
    }

    fn get_val(&self) -> Option<&str> {
        Some(self.0.as_str())
    }
}

impl crate::anchor::AnchorAttribute for Name {}
impl crate::area::AreaAttribute for Name {}
impl crate::audio::AudioAttribute for Name {}
impl crate::base::BaseAttribute for Name {}
impl crate::blockquote::BlockQuoteAttribute for Name {}
impl crate::button::ButtonAttribute for Name {}
impl crate::canvas::CanvasAttribute for Name {}
impl crate::col::ColAttribute for Name {}
impl crate::colgroup::ColGroupAttribute for Name {}
impl crate::data::DataAttribute for Name {}
impl crate::details::DetailsAttribute for Name {}
impl SvgAttribute for Name {}

/// <https://developer.mozilla.org/en-US/docs/Web/SVG/Attribute/target>
#[derive(Debug)]
pub struct Target(String);

impl Target {
    /// Wraps the given value.
    pub fn new(val: String) -> (r: Self)
        ensures
            r.spec_val() == Some(val@),
    {
        Target(val)
    }
}

impl Attribute for Target {
    open spec fn spec_key(&self) -> Seq<char> {
        "target"@
    }

    closed spec fn spec_val(&self) -> Option<Seq<char>> {
        Some(self.0@)
    }

    fn get_key(&self) -> &str {
        "target"
    }

    fn get_val(&self) -> Option<&str> {
        Some(self.0.as_str())
    }
}

impl crate::anchor::AnchorAttribute for Target {}
impl crate::area::AreaAttribute for Target {}
impl crate::audio::AudioAttribute for Target {}
impl crate::base::BaseAttribute for Target {}
impl crate::blockquote::BlockQuoteAttribute for Target {}
impl crate::button::ButtonAttribute for Target {}
impl crate::canvas::CanvasAttribute for Target {}
impl crate::col::ColAttribute for Target {}
impl crate::colgroup::ColGroupAttribute for Target {}
impl crate::data::DataAttribute for Target {}
impl crate::details::DetailsAttribute for Target {}
impl SvgAttribute for Target {}

/// <https://developer.mozilla.org/en-US/docs/Web/SVG/Attribute/type>
#[derive(Debug)]
pub struct Type(String);

impl Type {
    /// Wraps the given value.
    pub fn new(val: String) -> (r: Self)
        ensures
            r.spec_val() == Some(val@),
    {
        Type(val)
    }
}

impl Attribute for Type {
    open spec fn spec_key(&self) -> Seq<char> {
        "type"@
    }

    closed spec fn spec_val(&self) -> Option<Seq<char>> {
        Some(self.0@)
    }

    fn get_key(&self) -> &str {
        "type"
    }

    fn get_val(&self) -> Option<&str> {
        Some(self.0.as_str())
    }
}

impl crate::anchor::AnchorAttribute for Type {}
impl crate::area::AreaAttribute for Type {}
impl crate::audio::AudioAttribute for Type {}
impl crate::base::BaseAttribute for Type {}
impl crate::blockquote::BlockQuoteAttribute for Type {}
impl crate::button::ButtonAttribute for Type {}
impl crate::canvas::CanvasAttribute for Type {}
impl crate::col::ColAttribute for Type {}
impl crate::colgroup::ColGroupAttribute for Type {}
impl crate::data::DataAttribute for Type {}
impl crate::details::DetailsAttribute for Type {}
impl SvgAttribute for Type {}

/// <https://developer.mozilla.org/en-US/docs/Web/SVG/Attribute/width>
#[derive(Debug)]
pub struct Width(String);

impl Width {
    /// Stores the length's serialization.
    pub fn new(val: SvgLength) -> (r: Self)
        ensures
            r.spec_val() == Some(val.spec_str()),
    {
        Width(String::from_str(val.as_str()))
    }
}

impl Attribute for Width {
    open spec fn spec_key(&self) -> Seq<char> {
        "width"@
    }

    closed spec fn spec_val(&self) -> Option<Seq<char>> {
        Some(self.0@)
    }

    fn get_key(&self) -> &str {
        "width"
    }

    fn get_val(&self) -> Option<&str> {
        Some(self.0.as_str())
    }
}

impl crate::anchor::AnchorAttribute for Width {}
impl crate::area::AreaAttribute for Width {}
impl crate::audio::AudioAttribute for Width {}
impl crate::base::BaseAttribute for Width {}
impl crate::blockquote::BlockQuoteAttribute for Width {}
impl crate::button::ButtonAttribute for Width {}
impl crate::canvas::CanvasAttribute for Width {}
impl crate::col::ColAttribute for Width {}
impl crate::colgroup::ColGroupAttribute for Width {}
impl crate::data::DataAttribute for Width {}
impl crate::details::DetailsAttribute for Width {}
impl SvgAttribute for Width {}

/// <https://developer.mozilla.org/en-US/docs/Web/SVG/Attribute/accumulate>
#[derive(Debug)]
pub struct Accumulate(AccumulateOption);

impl Accumulate {
    /// Wraps the chosen option.
    pub fn new(val: AccumulateOption) -> (r: Self)
        ensures
            r.spec_val() == Some(val.spec_str()),
    {
        Accumulate(val)
    }
}

impl Attribute for Accumulate {
    open spec fn spec_key(&self) -> Seq<char> {
        "accumulate"@
    }

    closed spec fn spec_val(&self) -> Option<Seq<char>> {
        Some(self.0.spec_str())
    }

    fn get_key(&self) -> &str {
        "accumulate"
    }

    fn get_val(&self) -> Option<&str> {
        Some(self.0.as_str())
    }
}

impl crate::anchor::AnchorAttribute for Accumulate {}
impl crate::area::AreaAttribute for Accumulate {}
impl crate::audio::AudioAttribute for Accumulate {}
impl crate::base::BaseAttribute for Accumulate {}
impl crate::blockquote::BlockQuoteAttribute for Accumulate {}
impl crate::button::ButtonAttribute for Accumulate {}
impl crate::canvas::CanvasAttribute for Accumulate {}
impl crate::col::ColAttribute for Accumulate {}
impl crate::colgroup::ColGroupAttribute for Accumulate {}
impl crate::data::DataAttribute for Accumulate {}
impl crate::details::DetailsAttribute for Accumulate {}
impl SvgAttribute for Accumulate {}

/// <https://developer.mozilla.org/en-US/docs/Web/SVG/Attribute/additive>
#[derive(Debug)]
pub struct Additive(AdditiveOption);

impl Additive {
    /// Wraps the chosen option.
    pub fn new(val: AdditiveOption) -> (r: Self)
        ensures
            r.spec_val() == Some(val.spec_str()),
    {
        Additive(val)
    }
}

impl Attribute for Additive {
    open spec fn spec_key(&self) -> Seq<char> {
        "additive"@
    }

    closed spec fn spec_val(&self) -> Option<Seq<char>> {
        Some(self.0.spec_str())
    }

    fn get_key(&self) -> &str {
        "additive"
    }

    fn get_val(&self) -> Option<&str> {
        Some(self.0.as_str())
    }
}

impl crate::anchor::AnchorAttribute for Additive {}
impl crate::area::AreaAttribute for Additive {}
impl crate::audio::AudioAttribute for Additive {}
impl crate::base::BaseAttribute for Additive {}
impl crate::blockquote::BlockQuoteAttribute for Additive {}
impl crate::button::ButtonAttribute for Additive {}
impl crate::canvas::CanvasAttribute for Additive {}
impl crate::col::ColAttribute for Additive {}
impl crate::colgroup::ColGroupAttribute for Additive {}
impl crate::data::DataAttribute for Additive {}
impl crate::details::DetailsAttribute for Additive {}
impl SvgAttribute for Additive {}

/// <https://developer.mozilla.org/en-US/docs/Web/SVG/Attribute/alignment-baseline>
#[derive(Debug)]
pub struct AlignmentBaseline(AlignmentBaselineOption);

impl AlignmentBaseline {
    /// Wraps the chosen option.
    pub fn new(val: AlignmentBaselineOption) -> (r: Self)
        ensures
            r.spec_val() == Some(val.spec_str()),
    {
        AlignmentBaseline(val)
    }
}

impl Attribute for AlignmentBaseline {
    open spec fn spec_key(&self) -> Seq<char> {
        "alignment-baseline"@
    }

    closed spec fn spec_val(&self) -> Option<Seq<char>> {
        Some(self.0.spec_str())
    }

    fn get_key(&self) -> &str {
        "alignment-baseline"
    }

    fn get_val(&self) -> Option<&str> {
        Some(self.0.as_str())
    }
}

impl crate::anchor::AnchorAttribute for AlignmentBaseline {}
impl crate::area::AreaAttribute for AlignmentBaseline {}
impl crate::audio::AudioAttribute for AlignmentBaseline {}
impl crate::base::BaseAttribute for AlignmentBaseline {}
impl crate::blockquote::BlockQuoteAttribute for AlignmentBaseline {}
impl crate::button::ButtonAttribute for AlignmentBaseline {}
impl crate::canvas::CanvasAttribute for AlignmentBaseline {}
impl crate::col::ColAttribute for AlignmentBaseline {}
impl crate::colgroup::ColGroupAttribute for AlignmentBaseline {}
impl crate::data::DataAttribute for AlignmentBaseline {}
impl crate::details::DetailsAttribute for AlignmentBaseline {}
impl SvgAttribute for AlignmentBaseline {}

/// <https://developer.mozilla.org/en-US/docs/Web/SVG/Attribute/amplitude>
#[derive(Debug)]
pub struct Amplitude(String);

impl Amplitude {
    /// Stores the value's serialization.
    pub fn new(val: NumberOrString) -> (r: Self)
        ensures
            r.spec_val() == Some(val.spec_str()),
    {
        Amplitude(val.to_string())
    }
}

impl Attribute for Amplitude {
    open spec fn spec_key(&self) -> Seq<char> {
        "amplitude"@
    }

    closed spec fn spec_val(&self) -> Option<Seq<char>> {
        Some(self.0@)
    }

    fn get_key(&self) -> &str {
        "amplitude"
    }

    fn get_val(&self) -> Option<&str> {
        Some(self.0.as_str())
    }
}

impl crate::anchor::AnchorAttribute for Amplitude {}
impl crate::area::AreaAttribute for Amplitude {}
impl crate::audio::AudioAttribute for Amplitude {}
impl crate::base::BaseAttribute for Amplitude {}
impl crate::blockquote::BlockQuoteAttribute for Amplitude {}
impl crate::button::ButtonAttribute for Amplitude {}
impl crate::canvas::CanvasAttribute for Amplitude {}
impl crate::col::ColAttribute for Amplitude {}
impl crate::colgroup::ColGroupAttribute for Amplitude {}
impl crate::data::DataAttribute for Amplitude {}
impl crate::details::DetailsAttribute for Amplitude {}
impl SvgAttribute for Amplitude {}

/// <https://developer.mozilla.org/en-US/docs/Web/SVG/Attribute/attributeName>
#[derive(Debug)]
pub struct AttributeName(String);

impl AttributeName {
    /// Wraps the given value.
    pub fn new(val: String) -> (r: Self)
        ensures
            r.spec_val() == Some(val@),
    {
        AttributeName(val)
    }
}

impl Attribute for AttributeName {
    open spec fn spec_key(&self) -> Seq<char> {
        "attributeName"@
    }

    closed spec fn spec_val(&self) -> Option<Seq<char>> {
        Some(self.0@)
    }

    fn get_key(&self) -> &str {
        "attributeName"
    }

    fn get_val(&self) -> Option<&str> {
        Some(self.0.as_str())
    }
}

impl crate::anchor::AnchorAttribute for AttributeName {}
impl crate::area::AreaAttribute for AttributeName {}
impl crate::audio::AudioAttribute for AttributeName {}
impl crate::base::BaseAttribute for AttributeName {}
impl crate::blockquote::BlockQuoteAttribute for AttributeName {}
impl crate::button::ButtonAttribute for AttributeName {}
impl crate::canvas::CanvasAttribute for AttributeName {}
impl crate::col::ColAttribute for AttributeName {}
impl crate::colgroup::ColGroupAttribute for AttributeName {}
impl crate::data::DataAttribute for AttributeName {}
impl crate::details::DetailsAttribute for AttributeName {}
impl SvgAttribute for AttributeName {}

/// <https://developer.mozilla.org/en-US/docs/Web/SVG/Attribute/attributeName>
#[derive(Debug)]
pub struct AutoReverse(String);

impl AutoReverse {
    /// Stores the flag serialized as `true` or `false`.
    pub fn new(val: bool) -> (r: Self)
        ensures
            r.spec_val() == Some(spec_bool(val)),
    {
        AutoReverse(bool_to_string(val))
    }
}

impl Attribute for AutoReverse {
    open spec fn spec_key(&self) -> Seq<char> {
        "auto-reverse"@
    }

    closed spec fn spec_val(&self) -> Option<Seq<char>> {
        Some(self.0@)
    }

    fn get_key(&self) -> &str {
        "auto-reverse"
    }

    fn get_val(&self) -> Option<&str> {
        Some(self.0.as_str())
    }
}

impl crate::anchor::AnchorAttribute for AutoReverse {}
impl crate::area::AreaAttribute for AutoReverse {}
impl crate::audio::AudioAttribute for AutoReverse {}
impl crate::base::BaseAttribute for AutoReverse {}
impl crate::blockquote::BlockQuoteAttribute for AutoReverse {}
impl crate::button::ButtonAttribute for AutoReverse {}
impl crate::canvas::CanvasAttribute for AutoReverse {}
impl crate::col::ColAttribute for AutoReverse {}
impl crate::colgroup::ColGroupAttribute for AutoReverse {}
impl crate::data::DataAttribute for AutoReverse {}
impl crate::details::DetailsAttribute for AutoReverse {}
impl SvgAttribute for AutoReverse {}

/// <https://developer.mozilla.org/en-US/docs/Web/SVG/Attribute/azimuth>
#[derive(Debug)]
pub struct Azimuth(String);

impl Azimuth {
    /// Stores the value's serialization.
    pub fn new(val: NumberOrString) -> (r: Self)
        ensures
            r.spec_val() == Some(val.spec_str()),
    {
        Azimuth(val.to_string())
    }
}

impl Attribute for Azimuth {
    open spec fn spec_key(&self) -> Seq<char> {
        "azimuth"@
    }

    closed spec fn spec_val(&self) -> Option<Seq<char>> {
        Some(self.0@)
    }

    fn get_key(&self) -> &str {
        "azimuth"
    }

    fn get_val(&self) -> Option<&str> {
        Some(self.0.as_str())
    }
}

impl crate::anchor::AnchorAttribute for Azimuth {}
impl crate::area::AreaAttribute for Azimuth {}
impl crate::audio::AudioAttribute for Azimuth {}
impl crate::base::BaseAttribute for Azimuth {}
impl crate::blockquote::BlockQuoteAttribute for Azimuth {}
impl crate::button::ButtonAttribute for Azimuth {}
impl crate::canvas::CanvasAttribute for Azimuth {}
impl crate::col::ColAttribute for Azimuth {}
impl crate::colgroup::ColGroupAttribute for Azimuth {}
impl crate::data::DataAttribute for Azimuth {}
impl crate::details::DetailsAttribute for Azimuth {}
impl SvgAttribute for Azimuth {}

/// <https://developer.mozilla.org/en-US/docs/Web/SVG/Attribute/baseFrequency>
#[derive(Debug)]
pub struct BaseFrequency(String);

impl BaseFrequency {
    /// Stores the value's serialization.
    pub fn new(val: NumberOrString) -> (r: Self)
        ensures
            r.spec_val() == Some(val.spec_str()),
    {
        BaseFrequency(val.to_string())
    }
}

impl Attribute for BaseFrequency {
    open spec fn spec_key(&self) -> Seq<char> {
        "baseFrequency"@
    }

    closed spec fn spec_val(&self) -> Option<Seq<char>> {
        Some(self.0@)
    }

    fn get_key(&self) -> &str {
        "baseFrequency"
    }

    fn get_val(&self) -> Option<&str> {
        Some(self.0.as_str())
    }
}

impl crate::anchor::AnchorAttribute for BaseFrequency {}
impl crate::area::AreaAttribute for BaseFrequency {}
impl crate::audio::AudioAttribute for BaseFrequency {}
impl crate::base::BaseAttribute for BaseFrequency {}
impl crate::blockquote::BlockQuoteAttribute for BaseFrequency {}
impl crate::button::ButtonAttribute for BaseFrequency {}
impl crate::canvas::CanvasAttribute for BaseFrequency {}
impl crate::col::ColAttribute for BaseFrequency {}
impl crate::colgroup::ColGroupAttribute for BaseFrequency {}
impl crate::data::DataAttribute for BaseFrequency {}
impl crate::details::DetailsAttribute for BaseFrequency {}
impl SvgAttribute for BaseFrequency {}

/// <https://developer.mozilla.org/en-US/docs/Web/SVG/Attribute/baseline-shift>
#[derive(Debug)]
pub struct BaselineShift(String);

impl BaselineShift {
    /// Stores the value's serialization.
    pub fn new(val: NumberOrString) -> (r: Self)
        ensures
            r.spec_val() == Some(val.spec_str()),
    {
        BaselineShift(val.to_string())
    }
}

impl Attribute for BaselineShift {
    open spec fn spec_key(&self) -> Seq<char> {
        "baseline-shift"@
    }

    closed spec fn spec_val(&self) -> Option<Seq<char>> {
        Some(self.0@)
    }

    fn get_key(&self) -> &str {
        "baseline-shift"
    }

    fn get_val(&self) -> Option<&str> {
        Some(self.0.as_str())
    }
}

impl crate::anchor::AnchorAttribute for BaselineShift {}
impl crate::area::AreaAttribute for BaselineShift {}
impl crate::audio::AudioAttribute for BaselineShift {}
impl crate::base::BaseAttribute for BaselineShift {}
impl crate::blockquote::BlockQuoteAttribute for BaselineShift {}
impl crate::button::ButtonAttribute for BaselineShift {}
impl crate::canvas::CanvasAttribute for BaselineShift {}
impl crate::col::ColAttribute for BaselineShift {}
impl crate::colgroup::ColGroupAttribute for BaselineShift {}
impl crate::data::DataAttribute for BaselineShift {}
impl crate::details::DetailsAttribute for BaselineShift {}
impl SvgAttribute for BaselineShift {}

/// <https://developer.mozilla.org/en-US/docs/Web/SVG/Attribute/begin>
#[derive(Debug)]
pub struct Begin(String);

impl Begin {
    /// Stores the value's serialization.
    pub fn new(val: NumberOrString) -> (r: Self)
        ensures
            r.spec_val() == Some(val.spec_str()),
    {
        Begin(val.to_string())
    }
}

impl Attribute for Begin {
    open spec fn spec_key(&self) -> Seq<char> {
        "begin"@
    }

    closed spec fn spec_val(&self) -> Option<Seq<char>> {
        Some(self.0@)
    }

    fn get_key(&self) -> &str {
        "begin"
    }

    fn get_val(&self) -> Option<&str> {
        Some(self.0.as_str())
    }
}

impl crate::anchor::AnchorAttribute for Begin {}
impl crate::area::AreaAttribute for Begin {}
impl crate::audio::AudioAttribute for Begin {}
impl crate::base::BaseAttribute for Begin {}
impl crate::blockquote::BlockQuoteAttribute for Begin {}
impl crate::button::ButtonAttribute for Begin {}
impl crate::canvas::CanvasAttribute for Begin {}
impl crate::col::ColAttribute for Begin {}
impl crate::colgroup::ColGroupAttribute for Begin {}
impl crate::data::DataAttribute for Begin {}
impl crate::details::DetailsAttribute for Begin {}
impl SvgAttribute for Begin {}

/// <https://developer.mozilla.org/en-US/docs/Web/SVG/Attribute/bias>
#[derive(Debug)]
pub struct Bias(String);

impl Bias {
    /// Stores the value's serialization.
    pub fn new(val: NumberOrString) -> (r: Self)
        ensures
            r.spec_val() == Some(val.spec_str()),
    {
        Bias(val.to_string())
    }
}

impl Attribute for Bias {
    open spec fn spec_key(&self) -> Seq<char> {
        "bias"@
    }

    closed spec fn spec_val(&self) -> Option<Seq<char>> {
        Some(self.0@)
    }

    fn get_key(&self) -> &str {
        "bias"
    }

    fn get_val(&self) -> Option<&str> {
        Some(self.0.as_str())
    }
}

impl crate::anchor::AnchorAttribute for Bias {}
impl crate::area::AreaAttribute for Bias {}
impl crate::audio::AudioAttribute for Bias {}
impl crate::base::BaseAttribute for Bias {}
impl crate::blockquote::BlockQuoteAttribute for Bias {}
impl crate::button::ButtonAttribute for Bias {}
impl crate::canvas::CanvasAttribute for Bias {}
impl crate::col::ColAttribute for Bias {}
impl crate::colgroup::ColGroupAttribute for Bias {}
impl crate::data::DataAttribute for Bias {}
impl crate::details::DetailsAttribute for Bias {}
impl SvgAttribute for Bias {}

/// <https://developer.mozilla.org/en-US/docs/Web/SVG/Attribute/calcMode>
#[derive(Debug)]
pub struct CalcMode(String);

impl CalcMode {
    /// Stores the value's serialization.
    pub fn new(val: NumberOrString) -> (r: Self)
        ensures
            r.spec_val() == Some(val.spec_str()),
    {
        CalcMode(val.to_string())
    }
}

impl Attribute for CalcMode {
    open spec fn spec_key(&self) -> Seq<char> {
        "calcMode"@
    }

    closed spec fn spec_val(&self) -> Option<Seq<char>> {
        Some(self.0@)
    }

    fn get_key(&self) -> &str {
        "calcMode"
    }

    fn get_val(&self) -> Option<&str> {
        Some(self.0.as_str())
    }
}

impl crate::anchor::AnchorAttribute for CalcMode {}
impl crate::area::AreaAttribute for CalcMode {}
impl crate::audio::AudioAttribute for CalcMode {}
impl crate::base::BaseAttribute for CalcMode {}
impl crate::blockquote::BlockQuoteAttribute for CalcMode {}
impl crate::button::ButtonAttribute for CalcMode {}
impl crate::canvas::CanvasAttribute for CalcMode {}
impl crate::col::ColAttribute for CalcMode {}
impl crate::colgroup::ColGroupAttribute for CalcMode {}
impl crate::data::DataAttribute for CalcMode {}
impl crate::details::DetailsAttribute for CalcMode {}
impl SvgAttribute for CalcMode {}

/// <https://developer.mozilla.org/en-US/docs/Web/SVG/Attribute/clipPath>
#[derive(Debug)]
pub struct ClipPath(String);

impl ClipPath {
    /// Wraps the given value.
    pub fn new(val: String) -> (r: Self)
        ensures
            r.spec_val() == Some(val@),
    {
        ClipPath(val)
    }
}

impl Attribute for ClipPath {
    open spec fn spec_key(&self) -> Seq<char> {
        "clipPath"@
    }

    closed spec fn spec_val(&self) -> Option<Seq<char>> {
        Some(self.0@)
    }

    fn get_key(&self) -> &str {
        "clipPath"
    }

    fn get_val(&self) -> Option<&str> {
        Some(self.0.as_str())
    }
}

impl crate::anchor::AnchorAttribute for ClipPath {}
impl crate::area::AreaAttribute for ClipPath {}
impl crate::audio::AudioAttribute for ClipPath {}
impl crate::base::BaseAttribute for ClipPath {}
impl crate::blockquote::BlockQuoteAttribute for ClipPath {}
impl crate::button::ButtonAttribute for ClipPath {}
impl crate::canvas::CanvasAttribute for ClipPath {}
impl crate::col::ColAttribute for ClipPath {}
impl crate::colgroup::ColGroupAttribute for ClipPath {}
impl crate::data::DataAttribute for ClipPath {}
impl crate::details::DetailsAttribute for ClipPath {}
impl SvgAttribute for ClipPath {}

/// <https://developer.mozilla.org/en-US/docs/Web/SVG/Attribute/clipPathUnits>
#[derive(Debug)]
pub struct ClipPathUnits(ClipPathUnitsOption);

impl ClipPathUnits {
    /// Wraps the chosen option.
    pub fn new(val: ClipPathUnitsOption) -> (r: Self)
        ensures
            r.spec_val() == Some(val.spec_str()),
    {
        ClipPathUnits(val)
    }
}

impl Attribute for ClipPathUnits {
    open spec fn spec_key(&self) -> Seq<char> {
        "clipPathUnits"@
    }

    closed spec fn spec_val(&self) -> Option<Seq<char>> {
        Some(self.0.spec_str())
    }

    fn get_key(&self) -> &str {
        "clipPathUnits"
    }

    fn get_val(&self) -> Option<&str> {
        Some(self.0.as_str())
    }
}

impl crate::anchor::AnchorAttribute for ClipPathUnits {}
impl crate::area::AreaAttribute for ClipPathUnits {}
impl crate::audio::AudioAttribute for ClipPathUnits {}
impl crate::base::BaseAttribute for ClipPathUnits {}
impl crate::blockquote::BlockQuoteAttribute for ClipPathUnits {}
impl crate::button::ButtonAttribute for ClipPathUnits {}
impl crate::canvas::CanvasAttribute for ClipPathUnits {}
impl crate::col::ColAttribute for ClipPathUnits {}
impl crate::colgroup::ColGroupAttribute for ClipPathUnits {}
impl crate::data::DataAttribute for ClipPathUnits {}
impl crate::details::DetailsAttribute for ClipPathUnits {}
impl SvgAttribute for ClipPathUnits {}

/// <https://developer.mozilla.org/en-US/docs/Web/SVG/Attribute/clip-rule>
#[derive(Debug)]
pub struct ClipRule(ClipRuleOption);

impl ClipRule {
    /// Wraps the chosen option.
    pub fn new(val: ClipRuleOption) -> (r: Self)
        ensures
            r.spec_val() == Some(val.spec_str()),
    {
        ClipRule(val)
    }
}

impl Attribute for ClipRule {
    open spec fn spec_key(&self) -> Seq<char> {
        "clip-rule"@
    }

    closed spec fn spec_val(&self) -> Option<Seq<char>> {
        Some(self.0.spec_str())
    }

    fn get_key(&self) -> &str {
        "clip-rule"
    }

    fn get_val(&self) -> Option<&str> {
        Some(self.0.as_str())
    }
}

impl crate::anchor::AnchorAttribute for ClipRule {}
impl crate::area::AreaAttribute for ClipRule {}
impl crate::audio::AudioAttribute for ClipRule {}
impl crate::base::BaseAttribute for ClipRule {}
impl crate::blockquote::BlockQuoteAttribute for ClipRule {}
impl crate::button::ButtonAttribute for ClipRule {}
impl crate::canvas::CanvasAttribute for ClipRule {}
impl crate::col::ColAttribute for ClipRule {}
impl crate::colgroup::ColGroupAttribute for ClipRule {}
impl crate::data::DataAttribute for ClipRule {}
impl crate::details::DetailsAttribute for ClipRule {}
impl SvgAttribute for ClipRule {}

/// <https://developer.mozilla.org/en-US/docs/Web/SVG/Attribute/color-interpolation>
#[derive(Debug)]
pub struct ColorInterpolation(String);

impl ColorInterpolation {
    /// Stores the value's serialization.
    pub fn new(val: NumberOrString) -> (r: Self)
        ensures
            r.spec_val() == Some(val.spec_str()),
    {
        ColorInterpolation(val.to_string())
    }
}

impl Attribute for ColorInterpolation {
    open spec fn spec_key(&self) -> Seq<char> {
        "color-interpolation"@
    }

    closed spec fn spec_val(&self) -> Option<Seq<char>> {
        Some(self.0@)
    }

    fn get_key(&self) -> &str {
        "color-interpolation"
    }

    fn get_val(&self) -> Option<&str> {
        Some(self.0.as_str())
    }
}

impl crate::anchor::AnchorAttribute for ColorInterpolation {}
impl crate::area::AreaAttribute for ColorInterpolation {}
impl crate::audio::AudioAttribute for ColorInterpolation {}
impl crate::base::BaseAttribute for ColorInterpolation {}
impl crate::blockquote::BlockQuoteAttribute for ColorInterpolation {}
impl crate::button::ButtonAttribute for ColorInterpolation {}
impl crate::canvas::CanvasAttribute for ColorInterpolation {}
impl crate::col::ColAttribute for ColorInterpolation {}
impl crate::colgroup::ColGroupAttribute for ColorInterpolation {}
impl crate::data::DataAttribute for ColorInterpolation {}
impl crate::details::DetailsAttribute for ColorInterpolation {}
impl SvgAttribute for ColorInterpolation {}

/// <https://developer.mozilla.org/en-US/docs/Web/SVG/Attribute/color-interpolation-filters>
#[derive(Debug)]
pub struct ColorInterpolationFilters(ColorInterpolationFiltersOption);

impl ColorInterpolationFilters {
    /// Wraps the chosen option.
    pub fn new(val: ColorInterpolationFiltersOption) -> (r: Self)
        ensures
            r.spec_val() == Some(val.spec_str()),
    {
        ColorInterpolationFilters(val)
    }
}

impl Attribute for ColorInterpolationFilters {
    open spec fn spec_key(&self) -> Seq<char> {
        "color-interpolation-filters"@
    }

    closed spec fn spec_val(&self) -> Option<Seq<char>> {
        Some(self.0.spec_str())
    }

    fn get_key(&self) -> &str {
        "color-interpolation-filters"
    }

    fn get_val(&self) -> Option<&str> {
        Some(self.0.as_str())
    }
}

impl crate::anchor::AnchorAttribute for ColorInterpolationFilters {}
impl crate::area::AreaAttribute for ColorInterpolationFilters {}
impl crate::audio::AudioAttribute for ColorInterpolationFilters {}
impl crate::base::BaseAttribute for ColorInterpolationFilters {}
impl crate::blockquote::BlockQuoteAttribute for ColorInterpolationFilters {}
impl crate::button::ButtonAttribute for ColorInterpolationFilters {}
impl crate::canvas::CanvasAttribute for ColorInterpolationFilters {}
impl crate::col::ColAttribute for ColorInterpolationFilters {}
impl crate::colgroup::ColGroupAttribute for ColorInterpolationFilters {}
impl crate::data::DataAttribute for ColorInterpolationFilters {}
impl crate::details::DetailsAttribute for ColorInterpolationFilters {}
impl SvgAttribute for ColorInterpolationFilters {}

/// <https://developer.mozilla.org/en-US/docs/Web/SVG/Attribute/color-rendering>
#[derive(Debug)]
pub struct ColorRendering(String);

impl ColorRendering {
    /// Stores the value's serialization.
    pub fn new(val: NumberOrString) -> (r: Self)
        ensures
            r.spec_val() == Some(val.spec_str()),
    {
        ColorRendering(val.to_string())
    }
}

impl Attribute for ColorRendering {
    open spec fn spec_key(&self) -> Seq<char> {
        "color-rendering"@
    }

    closed spec fn spec_val(&self) -> Option<Seq<char>> {
        Some(self.0@)
    }

    fn get_key(&self) -> &str {
        "color-rendering"
    }

    fn get_val(&self) -> Option<&str> {
        Some(self.0.as_str())
    }
}

impl crate::anchor::AnchorAttribute for ColorRendering {}
impl crate::area::AreaAttribute for ColorRendering {}
impl crate::audio::AudioAttribute for ColorRendering {}
impl crate::base::BaseAttribute for ColorRendering {}
impl crate::blockquote::BlockQuoteAttribute for ColorRendering {}
impl crate::button::ButtonAttribute for ColorRendering {}
impl crate::canvas::CanvasAttribute for ColorRendering {}
impl crate::col::ColAttribute for ColorRendering {}
impl crate::colgroup::ColGroupAttribute for ColorRendering {}
impl crate::data::DataAttribute for ColorRendering {}
impl crate::details::DetailsAttribute for ColorRendering {}
impl SvgAttribute for ColorRendering {}

/// <https://developer.mozilla.org/en-US/docs/Web/SVG/Attribute/cursor>
#[derive(Debug)]
pub struct Cursor(String);

impl Cursor {
    /// Stores the value's serialization.
    pub fn new(val: NumberOrString) -> (r: Self)
        ensures
            r.spec_val() == Some(val.spec_str()),
    {
        Cursor(val.to_string())
    }
}

impl Attribute for Cursor {
    open spec fn spec_key(&self) -> Seq<char> {
        "cursor"@
    }

    closed spec fn spec_val(&self) -> Option<Seq<char>> {
        Some(self.0@)
    }

    fn get_key(&self) -> &str {
        "cursor"
    }

    fn get_val(&self) -> Option<&str> {
        Some(self.0.as_str())
    }
}

impl crate::anchor::AnchorAttribute for Cursor {}
impl crate::area::AreaAttribute for Cursor {}
impl crate::audio::AudioAttribute for Cursor {}
impl crate::base::BaseAttribute for Cursor {}
impl crate::blockquote::BlockQuoteAttribute for Cursor {}
impl crate::button::ButtonAttribute for Cursor {}
impl crate::canvas::CanvasAttribute for Cursor {}
impl crate::col::ColAttribute for Cursor {}
impl crate::colgroup::ColGroupAttribute for Cursor {}
impl crate::data::DataAttribute for Cursor {}
impl crate::details::DetailsAttribute for Cursor {}
impl SvgAttribute for Cursor {}

/// <https://developer.mozilla.org/en-US/docs/Web/SVG/Attribute/cx>
#[derive(Debug)]
pub struct Cx(String);

impl Cx {
    /// Stores the value's serialization.
    pub fn new(val: NumberOrString) -> (r: Self)
        ensures
            r.spec_val() == Some(val.spec_str()),
    {
        Cx(val.to_string())
    }
}

impl Attribute for Cx {
    open spec fn spec_key(&self) -> Seq<char> {
        "cx"@
    }

    closed spec fn spec_val(&self) -> Option<Seq<char>> {
        Some(self.0@)
    }

    fn get_key(&self) -> &str {
        "cx"
    }

    fn get_val(&self) -> Option<&str> {
        Some(self.0.as_str())
    }
}

impl crate::anchor::AnchorAttribute for Cx {}
impl crate::area::AreaAttribute for Cx {}
impl crate::audio::AudioAttribute for Cx {}
impl crate::base::BaseAttribute for Cx {}
impl crate::blockquote::BlockQuoteAttribute for Cx {}
impl crate::button::ButtonAttribute for Cx {}
impl crate::canvas::CanvasAttribute for Cx {}
impl crate::col::ColAttribute for Cx {}
impl crate::colgroup::ColGroupAttribute for Cx {}
impl crate::data::DataAttribute for Cx {}
impl crate::details::DetailsAttribute for Cx {}
impl SvgAttribute for Cx {}

/// <https://developer.mozilla.org/en-US/docs/Web/SVG/Attribute/cy>
#[derive(Debug)]
pub struct Cy(String);

impl Cy {
    /// Stores the value's serialization.
    pub fn new(val: NumberOrString) -> (r: Self)
        ensures
            r.spec_val() == Some(val.spec_str()),
    {
        Cy(val.to_string())
    }
}

impl Attribute for Cy {
    open spec fn spec_key(&self) -> Seq<char> {
        "cy"@
    }

    closed spec fn spec_val(&self) -> Option<Seq<char>> {
        Some(self.0@)
    }

    fn get_key(&self) -> &str {
        "cy"
    }

    fn get_val(&self) -> Option<&str> {
        Some(self.0.as_str())
    }
}

impl crate::anchor::AnchorAttribute for Cy {}
impl crate::area::AreaAttribute for Cy {}
impl crate::audio::AudioAttribute for Cy {}
impl crate::base::BaseAttribute for Cy {}
impl crate::blockquote::BlockQuoteAttribute for Cy {}
impl crate::button::ButtonAttribute for Cy {}
impl crate::canvas::CanvasAttribute for Cy {}
impl crate::col::ColAttribute for Cy {}
impl crate::colgroup::ColGroupAttribute for Cy {}
impl crate::data::DataAttribute for Cy {}
impl crate::details::DetailsAttribute for Cy {}
impl SvgAttribute for Cy {}

/// <https://developer.mozilla.org/en-US/docs/Web/SVG/Attribute/d>
#[derive(Debug)]
pub struct D(String);

impl D {
    /// Wraps the given value.
    pub fn new(val: String) -> (r: Self)
        ensures
            r.spec_val() == Some(val@),
    {
        D(val)
    }
}

impl Attribute for D {
    open spec fn spec_key(&self) -> Seq<char> {
        "d"@
    }

    closed spec fn spec_val(&self) -> Option<Seq<char>> {
        Some(self.0@)
    }

    fn get_key(&self) -> &str {
        "d"
    }

    fn get_val(&self) -> Option<&str> {
        Some(self.0.as_str())
    }
}

impl crate::anchor::AnchorAttribute for D {}
impl crate::area::AreaAttribute for D {}
impl crate::audio::AudioAttribute for D {}
impl crate::base::BaseAttribute for D {}
impl crate::blockquote::BlockQuoteAttribute for D {}
impl crate::button::ButtonAttribute for D {}
impl crate::canvas::CanvasAttribute for D {}
impl crate::col::ColAttribute for D {}
impl crate::colgroup::ColGroupAttribute for D {}
impl crate::data::DataAttribute for D {}
impl crate::details::DetailsAttribute for D {}
impl SvgAttribute for D {}

/// <https://developer.mozilla.org/en-US/docs/Web/SVG/Attribute/decelerate>
#[derive(Debug)]
pub struct Decelerate(String);

impl Decelerate {
    /// Stores the value's serialization.
    pub fn new(val: NumberOrString) -> (r: Self)
        ensures
            r.spec_val() == Some(val.spec_str()),
    {
        Decelerate(val.to_string())
    }
}

impl Attribute for Decelerate {
    open spec fn spec_key(&self) -> Seq<char> {
        "decelerate"@
    }

    closed spec fn spec_val(&self) -> Option<Seq<char>> {
        Some(self.0@)
    }

    fn get_key(&self) -> &str {
        "decelerate"
    }

    fn get_val(&self) -> Option<&str> {
        Some(self.0.as_str())
    }
}

impl crate::anchor::AnchorAttribute for Decelerate {}
impl crate::area::AreaAttribute for Decelerate {}
impl crate::audio::AudioAttribute for Decelerate {}
impl crate::base::BaseAttribute for Decelerate {}
impl crate::blockquote::BlockQuoteAttribute for Decelerate {}
impl crate::button::ButtonAttribute for Decelerate {}
impl crate::canvas::CanvasAttribute for Decelerate {}
impl crate::col::ColAttribute for Decelerate {}
impl crate::colgroup::ColGroupAttribute for Decelerate {}
impl crate::data::DataAttribute for Decelerate {}
impl crate::details::DetailsAttribute for Decelerate {}
impl SvgAttribute for Decelerate {}

/// <https://developer.mozilla.org/en-US/docs/Web/SVG/Attribute/diffuseConstant>
#[derive(Debug)]
pub struct DiffuseConstant(String);

impl DiffuseConstant {
    /// Stores the value's serialization.
    pub fn new(val: NumberOrString) -> (r: Self)
        ensures
            r.spec_val() == Some(val.spec_str()),
    {
        DiffuseConstant(val.to_string())
    }
}

impl Attribute for DiffuseConstant {
    open spec fn spec_key(&self) -> Seq<char> {
        "diffuseConstant"@
    }

    closed spec fn spec_val(&self) -> Option<Seq<char>> {
        Some(self.0@)
    }

    fn get_key(&self) -> &str {
        "diffuseConstant"
    }

    fn get_val(&self) -> Option<&str> {
        Some(self.0.as_str())
    }
}

impl crate::anchor::AnchorAttribute for DiffuseConstant {}
impl crate::area::AreaAttribute for DiffuseConstant {}
impl crate::audio::AudioAttribute for DiffuseConstant {}
impl crate::base::BaseAttribute for DiffuseConstant {}
impl crate::blockquote::BlockQuoteAttribute for DiffuseConstant {}
impl crate::button::ButtonAttribute for DiffuseConstant {}
impl crate::canvas::CanvasAttribute for DiffuseConstant {}
impl crate::col::ColAttribute for DiffuseConstant {}
impl crate::colgroup::ColGroupAttribute for DiffuseConstant {}
impl crate::data::DataAttribute for DiffuseConstant {}
impl crate::details::DetailsAttribute for DiffuseConstant {}
impl SvgAttribute for DiffuseConstant {}

/// <https://developer.mozilla.org/en-US/docs/Web/SVG/Attribute/direction>
#[derive(Debug)]
pub struct Direction(String);

impl Direction {
    /// Stores the value's serialization.
    pub fn new(val: NumberOrString) -> (r: Self)
        ensures
            r.spec_val() == Some(val.spec_str()),
    {
        Direction(val.to_string())
    }
}

impl Attribute for Direction {
    open spec fn spec_key(&self) -> Seq<char> {
        "direction"@
    }

    closed spec fn spec_val(&self) -> Option<Seq<char>> {
        Some(self.0@)
    }

    fn get_key(&self) -> &str {
        "direction"
    }

    fn get_val(&self) -> Option<&str> {
        Some(self.0.as_str())
    }
}

impl crate::anchor::AnchorAttribute for Direction {}
impl crate::area::AreaAttribute for Direction {}
impl crate::audio::AudioAttribute for Direction {}
impl crate::base::BaseAttribute for Direction {}
impl crate::blockquote::BlockQuoteAttribute for Direction {}
impl crate::button::ButtonAttribute for Direction {}
impl crate::canvas::CanvasAttribute for Direction {}
impl crate::col::ColAttribute for Direction {}
impl crate::colgroup::ColGroupAttribute for Direction {}
impl crate::data::DataAttribute for Direction {}
impl crate::details::DetailsAttribute for Direction {}
impl SvgAttribute for Direction {}

/// <https://developer.mozilla.org/en-US/docs/Web/SVG/Attribute/display>
#[derive(Debug)]
pub struct Display(String);

impl Display {
    /// Stores the value's serialization.
    pub fn new(val: NumberOrString) -> (r: Self)
        ensures
            r.spec_val() == Some(val.spec_str()),
    {
        Display(val.to_string())
    }
}

impl Attribute for Display {
    open spec fn spec_key(&self) -> Seq<char> {
        "display"@
    }

    closed spec fn spec_val(&self) -> Option<Seq<char>> {
        Some(self.0@)
    }

    fn get_key(&self) -> &str {
        "display"
    }

    fn get_val(&self) -> Option<&str> {
        Some(self.0.as_str())
    }
}

impl crate::anchor::AnchorAttribute for Display {}
impl crate::area::AreaAttribute for Display {}
impl crate::audio::AudioAttribute for Display {}
impl crate::base::BaseAttribute for Display {}
impl crate::blockquote::BlockQuoteAttribute for Display {}
impl crate::button::ButtonAttribute for Display {}
impl crate::canvas::CanvasAttribute for Display {}
impl crate::col::ColAttribute for Display {}
impl crate::colgroup::ColGroupAttribute for Display {}
impl crate::data::DataAttribute for Display {}
impl crate::details::DetailsAttribute for Display {}
impl SvgAttribute for Display {}

/// <https://developer.mozilla.org/en-US/docs/Web/SVG/Attribute/divisor>
#[derive(Debug)]
pub struct Divisor(String);

impl Divisor {
    /// Stores the value's serialization.
    pub fn new(val: NumberOrString) -> (r: Self)
        ensures
            r.spec_val() == Some(val.spec_str()),
    {
        Divisor(val.to_string())
    }
}

impl Attribute for Divisor {
    open spec fn spec_key(&self) -> Seq<char> {
        "divisor"@
    }

    closed spec fn spec_val(&self) -> Option<Seq<char>> {
        Some(self.0@)
    }

    fn get_key(&self) -> &str {
        "divisor"
    }

    fn get_val(&self) -> Option<&str> {
        Some(self.0.as_str())
    }
}

impl crate::anchor::AnchorAttribute for Divisor {}
impl crate::area::AreaAttribute for Divisor {}
impl crate::audio::AudioAttribute for Divisor {}
impl crate::base::BaseAttribute for Divisor {}
impl crate::blockquote::BlockQuoteAttribute for Divisor {}
impl crate::button::ButtonAttribute for Divisor {}
impl crate::canvas::CanvasAttribute for Divisor {}
impl crate::col::ColAttribute for Divisor {}
impl crate::colgroup::ColGroupAttribute for Divisor {}
impl crate::data::DataAttribute for Divisor {}
impl crate::details::DetailsAttribute for Divisor {}
impl SvgAttribute for Divisor {}

/// <https://developer.mozilla.org/en-US/docs/Web/SVG/Attribute/dominant-baseline>
#[derive(Debug)]
pub struct DominantBaseline(String);

impl DominantBaseline {
    /// Stores the value's serialization.
    pub fn new(val: NumberOrString) -> (r: Self)
        ensures
            r.spec_val() == Some(val.spec_str()),
    {
        DominantBaseline(val.to_string())
    }
}

impl Attribute for DominantBaseline {
    open spec fn spec_key(&self) -> Seq<char> {
        "dominant-baseline"@
    }

    closed spec fn spec_val(&self) -> Option<Seq<char>> {
        Some(self.0@)
    }

    fn get_key(&self) -> &str {
        "dominant-baseline"
    }

    fn get_val(&self) -> Option<&str> {
        Some(self.0.as_str())
    }
}

impl crate::anchor::AnchorAttribute for DominantBaseline {}
impl crate::area::AreaAttribute for DominantBaseline {}
impl crate::audio::AudioAttribute for DominantBaseline {}
impl crate::base::BaseAttribute for DominantBaseline {}
impl crate::blockquote::BlockQuoteAttribute for DominantBaseline {}
impl crate::button::ButtonAttribute for DominantBaseline {}
impl crate::canvas::CanvasAttribute for DominantBaseline {}
impl crate::col::ColAttribute for DominantBaseline {}
impl crate::colgroup::ColGroupAttribute for DominantBaseline {}
impl crate::data::DataAttribute for DominantBaseline {}
impl crate::details::DetailsAttribute for DominantBaseline {}
impl SvgAttribute for DominantBaseline {}

/// <https://developer.mozilla.org/en-US/docs/Web/SVG/Attribute/dur>
#[derive(Debug)]
pub struct Dur(String);

impl Dur {
    /// Stores the value's serialization.
    pub fn new(val: NumberOrString) -> (r: Self)
        ensures
            r.spec_val() == Some(val.spec_str()),
    {
        Dur(val.to_string())
    }
}

impl Attribute for Dur {
    open spec fn spec_key(&self) -> Seq<char> {
        "dur"@
    }

    closed spec fn spec_val(&self) -> Option<Seq<char>> {
        Some(self.0@)
    }

    fn get_key(&self) -> &str {
        "dur"
    }

    fn get_val(&self) -> Option<&str> {
        Some(self.0.as_str())
    }
}

impl crate::anchor::AnchorAttribute for Dur {}
impl crate::area::AreaAttribute for Dur {}
impl crate::audio::AudioAttribute for Dur {}
impl crate::base::BaseAttribute for Dur {}
impl crate::blockquote::BlockQuoteAttribute for Dur {}
impl crate::button::ButtonAttribute for Dur {}
impl crate::canvas::CanvasAttribute for Dur {}
impl crate::col::ColAttribute for Dur {}
impl crate::colgroup::ColGroupAttribute for Dur {}
impl crate::data::DataAttribute for Dur {}
impl crate::details::DetailsAttribute for Dur {}
impl SvgAttribute for Dur {}

/// <https://developer.mozilla.org/en-US/docs/Web/SVG/Attribute/dx>
#[derive(Debug)]
pub struct Dx(String);

impl Dx {
    /// Stores the value's serialization.
    pub fn new(val: NumberOrString) -> (r: Self)
        ensures
            r.spec_val() == Some(val.spec_str()),
    {
        Dx(val.to_string())
    }
}

impl Attribute for Dx {
    open spec fn spec_key(&self) -> Seq<char> {
        "dx"@
    }

    closed spec fn spec_val(&self) -> Option<Seq<char>> {
        Some(self.0@)
    }

    fn get_key(&self) -> &str {
        "dx"
    }

    fn get_val(&self) -> Option<&str> {
        Some(self.0.as_str())
    }
}

impl crate::anchor::AnchorAttribute for Dx {}
impl crate::area::AreaAttribute for Dx {}
impl crate::audio::AudioAttribute for Dx {}
impl crate::base::BaseAttribute for Dx {}
impl crate::blockquote::BlockQuoteAttribute for Dx {}
impl crate::button::ButtonAttribute for Dx {}
impl crate::canvas::CanvasAttribute for Dx {}
impl crate::col::ColAttribute for Dx {}
impl crate::colgroup::ColGroupAttribute for Dx {}
impl crate::data::DataAttribute for Dx {}
impl crate::details::DetailsAttribute for Dx {}
impl SvgAttribute for Dx {}

/// <https://developer.mozilla.org/en-US/docs/Web/SVG/Attribute/dy>
#[derive(Debug)]
pub struct Dy(String);

impl Dy {
    /// Stores the value's serialization.
    pub fn new(val: NumberOrString) -> (r: Self)
        ensures
            r.spec_val() == Some(val.spec_str()),
    {
        Dy(val.to_string())
    }
}

impl Attribute for Dy {
    open spec fn spec_key(&self) -> Seq<char> {
        "dy"@
    }

    closed spec fn spec_val(&self) -> Option<Seq<char>> {
        Some(self.0@)
    }

    fn get_key(&self) -> &str {
        "dy"
    }

    fn get_val(&self) -> Option<&str> {
        Some(self.0.as_str())
    }
}

impl crate::anchor::AnchorAttribute for Dy {}
impl crate::area::AreaAttribute for Dy {}
impl crate::audio::AudioAttribute for Dy {}
impl crate::base::BaseAttribute for Dy {}
impl crate::blockquote::BlockQuoteAttribute for Dy {}
impl crate::button::ButtonAttribute for Dy {}
impl crate::canvas::CanvasAttribute for Dy {}
impl crate::col::ColAttribute for Dy {}
impl crate::colgroup::ColGroupAttribute for Dy {}
impl crate::data::DataAttribute for Dy {}
impl crate::details::DetailsAttribute for Dy {}
impl SvgAttribute for Dy {}

/// <https://developer.mozilla.org/en-US/docs/Web/SVG/Attribute/edgeMode>
#[derive(Debug)]
pub struct EdgeMode(String);

impl EdgeMode {
    /// Stores the value's serialization.
    pub fn new(val: NumberOrString) -> (r: Self)
        ensures
            r.spec_val() == Some(val.spec_str()),
    {
        EdgeMode(val.to_string())
    }
}

impl Attribute for EdgeMode {
    open spec fn spec_key(&self) -> Seq<char> {
        "edgeMode"@
    }

    closed spec fn spec_val(&self) -> Option<Seq<char>> {
        Some(self.0@)
    }

    fn get_key(&self) -> &str {
        "edgeMode"
    }

    fn get_val(&self) -> Option<&str> {
        Some(self.0.as_str())
    }
}

impl crate::anchor::AnchorAttribute for EdgeMode {}
impl crate::area::AreaAttribute for EdgeMode {}
impl crate::audio::AudioAttribute for EdgeMode {}
impl crate::base::BaseAttribute for EdgeMode {}
impl crate::blockquote::BlockQuoteAttribute for EdgeMode {}
impl crate::button::ButtonAttribute for EdgeMode {}
impl crate::canvas::CanvasAttribute for EdgeMode {}
impl crate::col::ColAttribute for EdgeMode {}
impl crate::colgroup::ColGroupAttribute for EdgeMode {}
impl crate::data::DataAttribute for EdgeMode {}
impl crate::details::DetailsAttribute for EdgeMode {}
impl SvgAttribute for EdgeMode {}

/// <https://developer.mozilla.org/en-US/docs/Web/SVG/Attribute/elevation>
#[derive(Debug)]
pub struct Elevation(String);

impl Elevation {
    /// Stores the value's serialization.
    pub fn new(val: NumberOrString) -> (r: Self)
        ensures
            r.spec_val() == Some(val.spec_str()),
    {
        Elevation(val.to_string())
    }
}

impl Attribute for Elevation {
    open spec fn spec_key(&self) -> Seq<char> {
        "elevation"@
    }

    closed spec fn spec_val(&self) -> Option<Seq<char>> {
        Some(self.0@)
    }

    fn get_key(&self) -> &str {
        "elevation"
    }

    fn get_val(&self) -> Option<&str> {
        Some(self.0.as_str())
    }
}

impl crate::anchor::AnchorAttribute for Elevation {}
impl crate::area::AreaAttribute for Elevation {}
impl crate::audio::AudioAttribute for Elevation {}
impl crate::base::BaseAttribute for Elevation {}
impl crate::blockquote::BlockQuoteAttribute for Elevation {}
impl crate::button::ButtonAttribute for Elevation {}
impl crate::canvas::CanvasAttribute for Elevation {}
impl crate::col::ColAttribute for Elevation {}
impl crate::colgroup::ColGroupAttribute for Elevation {}
impl crate::data::DataAttribute for Elevation {}
impl crate::details::DetailsAttribute for Elevation {}
impl SvgAttribute for Elevation {}

/// <https://developer.mozilla.org/en-US/docs/Web/SVG/Attribute/end>
#[derive(Debug)]
pub struct End(String);

impl End {
    /// Stores the value's serialization.
    pub fn new(val: NumberOrString) -> (r: Self)
        ensures
            r.spec_val() == Some(val.spec_str()),
    {
        End(val.to_string())
    }
}

impl Attribute for End {
    open spec fn spec_key(&self) -> Seq<char> {
        "end"@
    }

    closed spec fn spec_val(&self) -> Option<Seq<char>> {
        Some(self.0@)
    }

    fn get_key(&self) -> &str {
        "end"
    }

    fn get_val(&self) -> Option<&str> {
        Some(self.0.as_str())
    }
}

impl crate::anchor::AnchorAttribute for End {}
impl crate::area::AreaAttribute for End {}
impl crate::audio::AudioAttribute for End {}
impl crate::base::BaseAttribute for End {}
impl crate::blockquote::BlockQuoteAttribute for End {}
impl crate::button::ButtonAttribute for End {}
impl crate::canvas::CanvasAttribute for End {}
impl crate::col::ColAttribute for End {}
impl crate::colgroup::ColGroupAttribute for End {}
impl crate::data::DataAttribute for End {}
impl crate::details::DetailsAttribute for End {}
impl SvgAttribute for End {}

/// <https://developer.mozilla.org/en-US/docs/Web/SVG/Attribute/exponent>
#[derive(Debug)]
pub struct Exponent(String);

impl Exponent {
    /// Stores the value's serialization.
    pub fn new(val: NumberOrString) -> (r: Self)
        ensures
            r.spec_val() == Some(val.spec_str()),
    {
        Exponent(val.to_string())
    }
}

impl Attribute for Exponent {
    open spec fn spec_key(&self) -> Seq<char> {
        "exponent"@
    }

    closed spec fn spec_val(&self) -> Option<Seq<char>> {
        Some(self.0@)
    }

    fn get_key(&self) -> &str {
        "exponent"
    }

    fn get_val(&self) -> Option<&str> {
        Some(self.0.as_str())
    }
}

impl crate::anchor::AnchorAttribute for Exponent {}
impl crate::area::AreaAttribute for Exponent {}
impl crate::audio::AudioAttribute for Exponent {}
impl crate::base::BaseAttribute for Exponent {}
impl crate::blockquote::BlockQuoteAttribute for Exponent {}
impl crate::button::ButtonAttribute for Exponent {}
impl crate::canvas::CanvasAttribute for Exponent {}
impl crate::col::ColAttribute for Exponent {}
impl crate::colgroup::ColGroupAttribute for Exponent {}
impl crate::data::DataAttribute for Exponent {}
impl crate::details::DetailsAttribute for Exponent {}
impl SvgAttribute for Exponent {}

/// <https://developer.mozilla.org/en-US/docs/Web/SVG/Attribute/fill>
#[derive(Debug)]
pub struct Fill(String);

impl Fill {
    /// Wraps the given value.
    pub fn new(val: String) -> (r: Self)
        ensures
            r.spec_val() == Some(val@),
    {
        Fill(val)
    }
}

impl Attribute for Fill {
    open spec fn spec_key(&self) -> Seq<char> {
        "fill"@
    }

    closed spec fn spec_val(&self) -> Option<Seq<char>> {
        Some(self.0@)
    }

    fn get_key(&self) -> &str {
        "fill"
    }

    fn get_val(&self) -> Option<&str> {
        Some(self.0.as_str())
    }
}

impl crate::anchor::AnchorAttribute for Fill {}
impl crate::area::AreaAttribute for Fill {}
impl crate::audio::AudioAttribute for Fill {}
impl crate::base::BaseAttribute for Fill {}
impl crate::blockquote::BlockQuoteAttribute for Fill {}
impl crate::button::ButtonAttribute for Fill {}
impl crate::canvas::CanvasAttribute for Fill {}
impl crate::col::ColAttribute for Fill {}
impl crate::colgroup::ColGroupAttribute for Fill {}
impl crate::data::DataAttribute for Fill {}
impl crate::details::DetailsAttribute for Fill {}
impl SvgAttribute for Fill {}

/// <https://developer.mozilla.org/en-US/docs/Web/SVG/Attribute/fill-opacity>
#[derive(Debug)]
pub struct FillOpacity(String);

impl FillOpacity {
    /// Stores the value's serialization.
    pub fn new(val: NumberOrString) -> (r: Self)
        ensures
            r.spec_val() == Some(val.spec_str()),
    {
        FillOpacity(val.to_string())
    }
}

impl Attribute for FillOpacity {
    open spec fn spec_key(&self) -> Seq<char> {
        "fill-opacity"@
    }

    closed spec fn spec_val(&self) -> Option<Seq<char>> {
        Some(self.0@)
    }

    fn get_key(&self) -> &str {
        "fill-opacity"
    }

    fn get_val(&self) -> Option<&str> {
        Some(self.0.as_str())
    }
}

impl crate::anchor::AnchorAttribute for FillOpacity {}
impl crate::area::AreaAttribute for FillOpacity {}
impl crate::audio::AudioAttribute for FillOpacity {}
impl crate::base::BaseAttribute for FillOpacity {}
impl crate::blockquote::BlockQuoteAttribute for FillOpacity {}
impl crate::button::ButtonAttribute for FillOpacity {}
impl crate::canvas::CanvasAttribute for FillOpacity {}
impl crate::col::ColAttribute for FillOpacity {}
impl crate::colgroup::ColGroupAttribute for FillOpacity {}
impl crate::data::DataAttribute for FillOpacity {}
impl crate::details::DetailsAttribute for FillOpacity {}
impl SvgAttribute for FillOpacity {}

/// <https://developer.mozilla.org/en-US/docs/Web/SVG/Attribute/fill-rule>
#[derive(Debug)]
pub struct FillRule(FillRuleOption);

impl FillRule {
    /// Wraps the chosen option.
    pub fn new(val: FillRuleOption) -> (r: Self)
        ensures
            r.spec_val() == Some(val.spec_str()),
    {
        FillRule(val)
    }
}

impl Attribute for FillRule {
    open spec fn spec_key(&self) -> Seq<char> {
        "fill-rule"@
    }

    closed spec fn spec_val(&self) -> Option<Seq<char>> {
        Some(self.0.spec_str())
    }

    fn get_key(&self) -> &str {
        "fill-rule"
    }

    fn get_val(&self) -> Option<&str> {
        Some(self.0.as_str())
    }
}

impl crate::anchor::AnchorAttribute for FillRule {}
impl crate::area::AreaAttribute for FillRule {}
impl crate::audio::AudioAttribute for FillRule {}
impl crate::base::BaseAttribute for FillRule {}
impl crate::blockquote::BlockQuoteAttribute for FillRule {}
impl crate::button::ButtonAttribute for FillRule {}
impl crate::canvas::CanvasAttribute for FillRule {}
impl crate::col::ColAttribute for FillRule {}
impl crate::colgroup::ColGroupAttribute for FillRule {}
impl crate::data::DataAttribute for FillRule {}
impl crate::details::DetailsAttribute for FillRule {}
impl SvgAttribute for FillRule {}

/// <https://developer.mozilla.org/en-US/docs/Web/SVG/Attribute/filter>
#[derive(Debug)]
pub struct Filter(String);

impl Filter {
    /// Wraps the given value.
    pub fn new(val: String) -> (r: Self)
        ensures
            r.spec_val() == Some(val@),
    {
        Filter(val)
    }
}

impl Attribute for Filter {
    open spec fn spec_key(&self) -> Seq<char> {
        "filter"@
    }

    closed spec fn spec_val(&self) -> Option<Seq<char>> {
        Some(self.0@)
    }

    fn get_key(&self) -> &str {
        "filter"
    }

    fn get_val(&self) -> Option<&str> {
        Some(self.0.as_str())
    }
}

impl crate::anchor::AnchorAttribute for Filter {}
impl crate::area::AreaAttribute for Filter {}
impl crate::audio::AudioAttribute for Filter {}
impl crate::base::BaseAttribute for Filter {}
impl crate::blockquote::BlockQuoteAttribute for Filter {}
impl crate::button::ButtonAttribute for Filter {}
impl crate::canvas::CanvasAttribute for Filter {}
impl crate::col::ColAttribute for Filter {}
impl crate::colgroup::ColGroupAttribute for Filter {}
impl crate::data::DataAttribute for Filter {}
impl crate::details::DetailsAttribute for Filter {}
impl SvgAttribute for Filter {}

/// <https://developer.mozilla.org/en-US/docs/Web/SVG/Attribute/filterUnits>
#[derive(Debug)]
pub struct FilterUnits(String);

impl FilterUnits {
    /// Stores the value's serialization.
    pub fn new(val: NumberOrString) -> (r: Self)
        ensures
            r.spec_val() == Some(val.spec_str()),
    {
        FilterUnits(val.to_string())
    }
}

impl Attribute for FilterUnits {
    open spec fn spec_key(&self) -> Seq<char> {
        "filterUnits"@
    }

    closed spec fn spec_val(&self) -> Option<Seq<char>> {
        Some(self.0@)
    }

    fn get_key(&self) -> &str {
        "filterUnits"
    }

    fn get_val(&self) -> Option<&str> {
        Some(self.0.as_str())
    }
}

impl crate::anchor::AnchorAttribute for FilterUnits {}
impl crate::area::AreaAttribute for FilterUnits {}
impl crate::audio::AudioAttribute for FilterUnits {}
impl crate::base::BaseAttribute for FilterUnits {}
impl crate::blockquote::BlockQuoteAttribute for FilterUnits {}
impl crate::button::ButtonAttribute for FilterUnits {}
impl crate::canvas::CanvasAttribute for FilterUnits {}
impl crate::col::ColAttribute for FilterUnits {}
impl crate::colgroup::ColGroupAttribute for FilterUnits {}
impl crate::data::DataAttribute for FilterUnits {}
impl crate::details::DetailsAttribute for FilterUnits {}
impl SvgAttribute for FilterUnits {}

/// <https://developer.mozilla.org/en-US/docs/Web/SVG/Attribute/flood-color>
#[derive(Debug)]
pub struct FloodColor(String);

impl FloodColor {
    /// Stores the value's serialization.
    pub fn new(val: NumberOrString) -> (r: Self)
        ensures
            r.spec_val() == Some(val.spec_str()),
    {
        FloodColor(val.to_string())
    }
}

impl Attribute for FloodColor {
    open spec fn spec_key(&self) -> Seq<char> {
        "flood-color"@
    }

    closed spec fn spec_val(&self) -> Option<Seq<char>> {
        Some(self.0@)
    }

    fn get_key(&self) -> &str {
        "flood-color"
    }

    fn get_val(&self) -> Option<&str> {
        Some(self.0.as_str())
    }
}

impl crate::anchor::AnchorAttribute for FloodColor {}
impl crate::area::AreaAttribute for FloodColor {}
impl crate::audio::AudioAttribute for FloodColor {}
impl crate::base::BaseAttribute for FloodColor {}
impl crate::blockquote::BlockQuoteAttribute for FloodColor {}
impl crate::button::ButtonAttribute for FloodColor {}
impl crate::canvas::CanvasAttribute for FloodColor {}
impl crate::col::ColAttribute for FloodColor {}
impl crate::colgroup::ColGroupAttribute for FloodColor {}
impl crate::data::DataAttribute for FloodColor {}
impl crate::details::DetailsAttribute for FloodColor {}
impl SvgAttribute for FloodColor {}

/// <https://developer.mozilla.org/en-US/docs/Web/SVG/Attribute/flood-opacity>
#[derive(Debug)]
pub struct FloodOpacity(String);

impl FloodOpacity {
    /// Stores the value's serialization.
    pub fn new(val: NumberOrString) -> (r: Self)
        ensures
            r.spec_val() == Some(val.spec_str()),
    {
        FloodOpacity(val.to_string())
    }
}

impl Attribute for FloodOpacity {
    open spec fn spec_key(&self) -> Seq<char> {
        "flood-opacity"@
    }

    closed spec fn spec_val(&self) -> Option<Seq<char>> {
        Some(self.0@)
    }

    fn get_key(&self) -> &str {
        "flood-opacity"
    }

    fn get_val(&self) -> Option<&str> {
        Some(self.0.as_str())
    }
}

impl crate::anchor::AnchorAttribute for FloodOpacity {}
impl crate::area::AreaAttribute for FloodOpacity {}
impl crate::audio::AudioAttribute for FloodOpacity {}
impl crate::base::BaseAttribute for FloodOpacity {}
impl crate::blockquote::BlockQuoteAttribute for FloodOpacity {}
impl crate::button::ButtonAttribute for FloodOpacity {}
impl crate::canvas::CanvasAttribute for FloodOpacity {}
impl crate::col::ColAttribute for FloodOpacity {}
impl crate::colgroup::ColGroupAttribute for FloodOpacity {}
impl crate::data::DataAttribute for FloodOpacity {}
impl crate::details::DetailsAttribute for FloodOpacity {}
impl SvgAttribute for FloodOpacity {}

/// <https://developer.mozilla.org/en-US/docs/Web/SVG/Attribute/font-family>
#[derive(Debug)]
pub struct FontFamily(String);

impl FontFamily {
    /// Wraps the given value.
    pub fn new(val: String) -> (r: Self)
        ensures
            r.spec_val() == Some(val@),
    {
        FontFamily(val)
    }
}

impl Attribute for FontFamily {
    open spec fn spec_key(&self) -> Seq<char> {
        "font-family"@
    }

    closed spec fn spec_val(&self) -> Option<Seq<char>> {
        Some(self.0@)
    }

    fn get_key(&self) -> &str {
        "font-family"
    }

    fn get_val(&self) -> Option<&str> {
        Some(self.0.as_str())
    }
}

impl crate::anchor::AnchorAttribute for FontFamily {}
impl crate::area::AreaAttribute for FontFamily {}
impl crate::audio::AudioAttribute for FontFamily {}
impl crate::base::BaseAttribute for FontFamily {}
impl crate::blockquote::BlockQuoteAttribute for FontFamily {}
impl crate::button::ButtonAttribute for FontFamily {}
impl crate::canvas::CanvasAttribute for FontFamily {}
impl crate::col::ColAttribute for FontFamily {}
impl crate::colgroup::ColGroupAttribute for FontFamily {}
impl crate::data::DataAttribute for FontFamily {}
impl crate::details::DetailsAttribute for FontFamily {}
impl SvgAttribute for FontFamily {}

/// <https://developer.mozilla.org/en-US/docs/Web/SVG/Attribute/font-size>
#[derive(Debug)]
pub struct FontSize(String);

impl FontSize {
    /// Stores the value's serialization.
    pub fn new(val: NumberOrString) -> (r: Self)
        ensures
            r.spec_val() == Some(val.spec_str()),
    {
        FontSize(val.to_string())
    }
}

impl Attribute for FontSize {
    open spec fn spec_key(&self) -> Seq<char> {
        "font-size"@
    }

    closed spec fn spec_val(&self) -> Option<Seq<char>> {
        Some(self.0@)
    }

    fn get_key(&self) -> &str {
        "font-size"
    }

    fn get_val(&self) -> Option<&str> {
        Some(self.0.as_str())
    }
}

impl crate::anchor::AnchorAttribute for FontSize {}
impl crate::area::AreaAttribute for FontSize {}
impl crate::audio::AudioAttribute for FontSize {}
impl crate::base::BaseAttribute for FontSize {}
impl crate::blockquote::BlockQuoteAttribute for FontSize {}
impl crate::button::ButtonAttribute for FontSize {}
impl crate::canvas::CanvasAttribute for FontSize {}
impl crate::col::ColAttribute for FontSize {}
impl crate::colgroup::ColGroupAttribute for FontSize {}
impl crate::data::DataAttribute for FontSize {}
impl crate::details::DetailsAttribute for FontSize {}
impl SvgAttribute for FontSize {}

/// <https://developer.mozilla.org/en-US/docs/Web/SVG/Attribute/font-size-adjust>
#[derive(Debug)]
pub struct FontSizeAdjust(String);

impl FontSizeAdjust {
    /// Stores the value's serialization.
    pub fn new(val: NumberOrString) -> (r: Self)
        ensures
            r.spec_val() == Some(val.spec_str()),
    {
        FontSizeAdjust(val.to_string())
    }
}

impl Attribute for FontSizeAdjust {
    open spec fn spec_key(&self) -> Seq<char> {
        "font-size-adjust"@
    }

    closed spec fn spec_val(&self) -> Option<Seq<char>> {
        Some(self.0@)
    }

    fn get_key(&self) -> &str {
        "font-size-adjust"
    }

    fn get_val(&self) -> Option<&str> {
        Some(self.0.as_str())
    }
}

impl crate::anchor::AnchorAttribute for FontSizeAdjust {}
impl crate::area::AreaAttribute for FontSizeAdjust {}
impl crate::audio::AudioAttribute for FontSizeAdjust {}
impl crate::base::BaseAttribute for FontSizeAdjust {}
impl crate::blockquote::BlockQuoteAttribute for FontSizeAdjust {}
impl crate::button::ButtonAttribute for FontSizeAdjust {}
impl crate::canvas::CanvasAttribute for FontSizeAdjust {}
impl crate::col::ColAttribute for FontSizeAdjust {}
impl crate::colgroup::ColGroupAttribute for FontSizeAdjust {}
impl crate::data::DataAttribute for FontSizeAdjust {}
impl crate::details::DetailsAttribute for FontSizeAdjust {}
impl SvgAttribute for FontSizeAdjust {}

/// <https://developer.mozilla.org/en-US/docs/Web/SVG/Attribute/font-stretch>
#[derive(Debug)]
pub struct FontStretch(String);

impl FontStretch {
    /// Stores the value's serialization.
    pub fn new(val: NumberOrString) -> (r: Self)
        ensures
            r.spec_val() == Some(val.spec_str()),
    {
        FontStretch(val.to_string())
    }
}

impl Attribute for FontStretch {
    open spec fn spec_key(&self) -> Seq<char> {
        "font-stretch"@
    }

    closed spec fn spec_val(&self) -> Option<Seq<char>> {
        Some(self.0@)
    }

    fn get_key(&self) -> &str {
        "font-stretch"
    }

    fn get_val(&self) -> Option<&str> {
        Some(self.0.as_str())
    }
}

impl crate::anchor::AnchorAttribute for FontStretch {}
impl crate::area::AreaAttribute for FontStretch {}
impl crate::audio::AudioAttribute for FontStretch {}
impl crate::base::BaseAttribute for FontStretch {}
impl crate::blockquote::BlockQuoteAttribute for FontStretch {}
impl crate::button::ButtonAttribute for FontStretch {}
impl crate::canvas::CanvasAttribute for FontStretch {}
impl crate::col::ColAttribute for FontStretch {}
impl crate::colgroup::ColGroupAttribute for FontStretch {}
impl crate::data::DataAttribute for FontStretch {}
impl crate::details::DetailsAttribute for FontStretch {}
impl SvgAttribute for FontStretch {}

/// <https://developer.mozilla.org/en-US/docs/Web/SVG/Attribute/font-style>
#[derive(Debug)]
pub struct FontStyle(String);

impl FontStyle {
    /// Stores the value's serialization.
    pub fn new(val: NumberOrString) -> (r: Self)
        ensures
            r.spec_val() == Some(val.spec_str()),
    {
        FontStyle(val.to_string())
    }
}

impl Attribute for FontStyle {
    open spec fn spec_key(&self) -> Seq<char> {
        "font-style"@
    }

    closed spec fn spec_val(&self) -> Option<Seq<char>> {
        Some(self.0@)
    }

    fn get_key(&self) -> &str {
        "font-style"
    }

    fn get_val(&self) -> Option<&str> {
        Some(self.0.as_str())
    }
}

impl crate::anchor::AnchorAttribute for FontStyle {}
impl crate::area::AreaAttribute for FontStyle {}
impl crate::audio::AudioAttribute for FontStyle {}
impl crate::base::BaseAttribute for FontStyle {}
impl crate::blockquote::BlockQuoteAttribute for FontStyle {}
impl crate::button::ButtonAttribute for FontStyle {}
impl crate::canvas::CanvasAttribute for FontStyle {}
impl crate::col::ColAttribute for FontStyle {}
impl crate::colgroup::ColGroupAttribute for FontStyle {}
impl crate::data::DataAttribute for FontStyle {}
impl crate::details::DetailsAttribute for FontStyle {}
impl SvgAttribute for FontStyle {}

/// <https://developer.mozilla.org/en-US/docs/Web/SVG/Attribute/font-variant>
#[derive(Debug)]
pub struct FontVariant(String);

impl FontVariant {
    /// Stores the value's serialization.
    pub fn new(val: NumberOrString) -> (r: Self)
        ensures
            r.spec_val() == Some(val.spec_str()),
    {
        FontVariant(val.to_string())
    }
}

impl Attribute for FontVariant {
    open spec fn spec_key(&self) -> Seq<char> {
        "font-variant"@
    }

    closed spec fn spec_val(&self) -> Option<Seq<char>> {
        Some(self.0@)
    }

    fn get_key(&self) -> &str {
        "font-variant"
    }

    fn get_val(&self) -> Option<&str> {
        Some(self.0.as_str())
    }
}

impl crate::anchor::AnchorAttribute for FontVariant {}
impl crate::area::AreaAttribute for FontVariant {}
impl crate::audio::AudioAttribute for FontVariant {}
impl crate::base::BaseAttribute for FontVariant {}
impl crate::blockquote::BlockQuoteAttribute for FontVariant {}
impl crate::button::ButtonAttribute for FontVariant {}
impl crate::canvas::CanvasAttribute for FontVariant {}
impl crate::col::ColAttribute for FontVariant {}
impl crate::colgroup::ColGroupAttribute for FontVariant {}
impl crate::data::DataAttribute for FontVariant {}
impl crate::details::DetailsAttribute for FontVariant {}
impl SvgAttribute for FontVariant {}

/// <https://developer.mozilla.org/en-US/docs/Web/SVG/Attribute/font-weight>
#[derive(Debug)]
pub struct FontWeight(String);

impl FontWeight {
    /// Stores the value's serialization.
    pub fn new(val: NumberOrString) -> (r: Self)
        ensures
            r.spec_val() == Some(val.spec_str()),
    {
        FontWeight(val.to_string())
    }
}

impl Attribute for FontWeight {
    open spec fn spec_key(&self) -> Seq<char> {
        "font-weight"@
    }

    closed spec fn spec_val(&self) -> Option<Seq<char>> {
        Some(self.0@)
    }

    fn get_key(&self) -> &str {
        "font-weight"
    }

    fn get_val(&self) -> Option<&str> {
        Some(self.0.as_str())
    }
}

impl crate::anchor::AnchorAttribute for FontWeight {}
impl crate::area::AreaAttribute for FontWeight {}
impl crate::audio::AudioAttribute for FontWeight {}
impl crate::base::BaseAttribute for FontWeight {}
impl crate::blockquote::BlockQuoteAttribute for FontWeight {}
impl crate::button::ButtonAttribute for FontWeight {}
impl crate::canvas::CanvasAttribute for FontWeight {}
impl crate::col::ColAttribute for FontWeight {}
impl crate::colgroup::ColGroupAttribute for FontWeight {}
impl crate::data::DataAttribute for FontWeight {}
impl crate::details::DetailsAttribute for FontWeight {}
impl SvgAttribute for FontWeight {}

/// <https://developer.mozilla.org/en-US/docs/Web/SVG/Attribute/fr>
#[derive(Debug)]
pub struct Fr(String);

impl Fr {
    /// Stores the value's serialization.
    pub fn new(val: NumberOrString) -> (r: Self)
        ensures
            r.spec_val() == Some(val.spec_str()),
    {
        Fr(val.to_string())
    }
}

impl Attribute for Fr {
    open spec fn spec_key(&self) -> Seq<char> {
        "fr"@
    }

    closed spec fn spec_val(&self) -> Option<Seq<char>> {
        Some(self.0@)
    }

    fn get_key(&self) -> &str {
        "fr"
    }

    fn get_val(&self) -> Option<&str> {
        Some(self.0.as_str())
    }
}

impl crate::anchor::AnchorAttribute for Fr {}
impl crate::area::AreaAttribute for Fr {}
impl crate::audio::AudioAttribute for Fr {}
impl crate::base::BaseAttribute for Fr {}
impl crate::blockquote::BlockQuoteAttribute for Fr {}
impl crate::button::ButtonAttribute for Fr {}
impl crate::canvas::CanvasAttribute for Fr {}
impl crate::col::ColAttribute for Fr {}
impl crate::colgroup::ColGroupAttribute for Fr {}
impl crate::data::DataAttribute for Fr {}
impl crate::details::DetailsAttribute for Fr {}
impl SvgAttribute for Fr {}

/// <https://developer.mozilla.org/en-US/docs/Web/SVG/Attribute/from>
#[derive(Debug)]
pub struct From(String);

impl From {
    /// Stores the value's serialization.
    pub fn new(val: NumberOrString) -> (r: Self)
        ensures
            r.spec_val() == Some(val.spec_str()),
    {
        From(val.to_string())
    }
}

impl Attribute for From {
    open spec fn spec_key(&self) -> Seq<char> {
        "from"@
    }

    closed spec fn spec_val(&self) -> Option<Seq<char>> {
        Some(self.0@)
    }

    fn get_key(&self) -> &str {
        "from"
    }

    fn get_val(&self) -> Option<&str> {
        Some(self.0.as_str())
    }
}

impl crate::anchor::AnchorAttribute for From {}
impl crate::area::AreaAttribute for From {}
impl crate::audio::AudioAttribute for From {}
impl crate::base::BaseAttribute for From {}
impl crate::blockquote::BlockQuoteAttribute for From {}
impl crate::button::ButtonAttribute for From {}
impl crate::canvas::CanvasAttribute for From {}
impl crate::col::ColAttribute for From {}
impl crate::colgroup::ColGroupAttribute for From {}
impl crate::data::DataAttribute for From {}
impl crate::details::DetailsAttribute for From {}
impl SvgAttribute for From {}

/// <https://developer.mozilla.org/en-US/docs/Web/SVG/Attribute/fx>
#[derive(Debug)]
pub struct Fx(String);

impl Fx {
    /// Stores the value's serialization.
    pub fn new(val: NumberOrString) -> (r: Self)
        ensures
            r.spec_val() == Some(val.spec_str()),
    {
        Fx(val.to_string())
    }
}

impl Attribute for Fx {
    open spec fn spec_key(&self) -> Seq<char> {
        "fx"@
    }

    closed spec fn spec_val(&self) -> Option<Seq<char>> {
        Some(self.0@)
    }

    fn get_key(&self) -> &str {
        "fx"
    }

    fn get_val(&self) -> Option<&str> {
        Some(self.0.as_str())
    }
}

impl crate::anchor::AnchorAttribute for Fx {}
impl crate::area::AreaAttribute for Fx {}
impl crate::audio::AudioAttribute for Fx {}
impl crate::base::BaseAttribute for Fx {}
impl crate::blockquote::BlockQuoteAttribute for Fx {}
impl crate::button::ButtonAttribute for Fx {}
impl crate::canvas::CanvasAttribute for Fx {}
impl crate::col::ColAttribute for Fx {}
impl crate::colgroup::ColGroupAttribute for Fx {}
impl crate::data::DataAttribute for Fx {}
impl crate::details::DetailsAttribute for Fx {}
impl SvgAttribute for Fx {}

/// <https://developer.mozilla.org/en-US/docs/Web/SVG/Attribute/fy>
#[derive(Debug)]
pub struct Fy(String);

impl Fy {
    /// Stores the value's serialization.
    pub fn new(val: NumberOrString) -> (r: Self)
        ensures
            r.spec_val() == Some(val.spec_str()),
    {
        Fy(val.to_string())
    }
}

impl Attribute for Fy {
    open spec fn spec_key(&self) -> Seq<char> {
        "fy"@
    }

    closed spec fn spec_val(&self) -> Option<Seq<char>> {
        Some(self.0@)
    }

    fn get_key(&self) -> &str {
        "fy"
    }

    fn get_val(&self) -> Option<&str> {
        Some(self.0.as_str())
    }
}

impl crate::anchor::AnchorAttribute for Fy {}
impl crate::area::AreaAttribute for Fy {}
impl crate::audio::AudioAttribute for Fy {}
impl crate::base::BaseAttribute for Fy {}
impl crate::blockquote::BlockQuoteAttribute for Fy {}
impl crate::button::ButtonAttribute for Fy {}
impl crate::canvas::CanvasAttribute for Fy {}
impl crate::col::ColAttribute for Fy {}
impl crate::colgroup::ColGroupAttribute for Fy {}
impl crate::data::DataAttribute for Fy {}
impl crate::details::DetailsAttribute for Fy {}
impl SvgAttribute for Fy {}

/// <https://developer.mozilla.org/en-US/docs/Web/SVG/Attribute/gradientTransform>
#[derive(Debug)]
pub struct GradientTransform(String);

impl GradientTransform {
    /// Wraps the given value.
    pub fn new(val: String) -> (r: Self)
        ensures
            r.spec_val() == Some(val@),
    {
        GradientTransform(val)
    }
}

impl Attribute for GradientTransform {
    open spec fn spec_key(&self) -> Seq<char> {
        "gradientTransform"@
    }

    closed spec fn spec_val(&self) -> Option<Seq<char>> {
        Some(self.0@)
    }

    fn get_key(&self) -> &str {
        "gradientTransform"
    }

    fn get_val(&self) -> Option<&str> {
        Some(self.0.as_str())
    }
}

impl crate::anchor::AnchorAttribute for GradientTransform {}
impl crate::area::AreaAttribute for GradientTransform {}
impl crate::audio::AudioAttribute for GradientTransform {}
impl crate::base::BaseAttribute for GradientTransform {}
impl crate::blockquote::BlockQuoteAttribute for GradientTransform {}
impl crate::button::ButtonAttribute for GradientTransform {}
impl crate::canvas::CanvasAttribute for GradientTransform {}
impl crate::col::ColAttribute for GradientTransform {}
impl crate::colgroup::ColGroupAttribute for GradientTransform {}
impl crate::data::DataAttribute for GradientTransform {}
impl crate::details::DetailsAttribute for GradientTransform {}
impl SvgAttribute for GradientTransform {}

/// <https://developer.mozilla.org/en-US/docs/Web/SVG/Attribute/gradientUnits>
#[derive(Debug)]
pub struct GradientUnits(String);

impl GradientUnits {
    /// Wraps the given value.
    pub fn new(val: String) -> (r: Self)
        ensures
            r.spec_val() == Some(val@),
    {
        GradientUnits(val)
    }
}

impl Attribute for GradientUnits {
    open spec fn spec_key(&self) -> Seq<char> {
        "gradientUnits"@
    }

    closed spec fn spec_val(&self) -> Option<Seq<char>> {
        Some(self.0@)
    }

    fn get_key(&self) -> &str {
        "gradientUnits"
    }

    fn get_val(&self) -> Option<&str> {
        Some(self.0.as_str())
    }
}

impl crate::anchor::AnchorAttribute for GradientUnits {}
impl crate::area::AreaAttribute for GradientUnits {}
impl crate::audio::AudioAttribute for GradientUnits {}
impl crate::base::BaseAttribute for GradientUnits {}
impl crate::blockquote::BlockQuoteAttribute for GradientUnits {}
impl crate::button::ButtonAttribute for GradientUnits {}
impl crate::canvas::CanvasAttribute for GradientUnits {}
impl crate::col::ColAttribute for GradientUnits {}
impl crate::colgroup::ColGroupAttribute for GradientUnits {}
impl crate::data::DataAttribute for GradientUnits {}
impl crate::details::DetailsAttribute for GradientUnits {}
impl SvgAttribute for GradientUnits {}

/// <https://developer.mozilla.org/en-US/docs/Web/SVG/Attribute/image-rendering>
#[derive(Debug)]
pub struct ImageRendering(String);

impl ImageRendering {
    /// Wraps the given value.
    pub fn new(val: String) -> (r: Self)
        ensures
            r.spec_val() == Some(val@),
    {
        ImageRendering(val)
    }
}

impl Attribute for ImageRendering {
    open spec fn spec_key(&self) -> Seq<char> {
        "image-rendering"@
    }

    closed spec fn spec_val(&self) -> Option<Seq<char>> {
        Some(self.0@)
    }

    fn get_key(&self) -> &str {
        "image-rendering"
    }

    fn get_val(&self) -> Option<&str> {
        Some(self.0.as_str())
    }
}

impl crate::anchor::AnchorAttribute for ImageRendering {}
impl crate::area::AreaAttribute for ImageRendering {}
impl crate::audio::AudioAttribute for ImageRendering {}
impl crate::base::BaseAttribute for ImageRendering {}
impl crate::blockquote::BlockQuoteAttribute for ImageRendering {}
impl crate::button::ButtonAttribute for ImageRendering {}
impl crate::canvas::CanvasAttribute for ImageRendering {}
impl crate::col::ColAttribute for ImageRendering {}
impl crate::colgroup::ColGroupAttribute for ImageRendering {}
impl crate::data::DataAttribute for ImageRendering {}
impl crate::details::DetailsAttribute for ImageRendering {}
impl SvgAttribute for ImageRendering {}

/// <https://developer.mozilla.org/en-US/docs/Web/SVG/Attribute/in2>
#[derive(Debug)]
pub struct In2(String);

impl In2 {
    /// Stores the value's serialization.
    pub fn new(val: NumberOrString) -> (r: Self)
        ensures
            r.spec_val() == Some(val.spec_str()),
    {
        In2(val.to_string())
    }
}

impl Attribute for In2 {
    open spec fn spec_key(&self) -> Seq<char> {
        "in2"@
    }

    closed spec fn spec_val(&self) -> Option<Seq<char>> {
        Some(self.0@)
    }

    fn get_key(&self) -> &str {
        "in2"
    }

    fn get_val(&self) -> Option<&str> {
        Some(self.0.as_str())
    }
}

impl crate::anchor::AnchorAttribute for In2 {}
impl crate::area::AreaAttribute for In2 {}
impl crate::audio::AudioAttribute for In2 {}
impl crate::base::BaseAttribute for In2 {}
impl crate::blockquote::BlockQuoteAttribute for In2 {}
impl crate::button::ButtonAttribute for In2 {}
impl crate::canvas::CanvasAttribute for In2 {}
impl crate::col::ColAttribute for In2 {}
impl crate::colgroup::ColGroupAttribute for In2 {}
impl crate::data::DataAttribute for In2 {}
impl crate::details::DetailsAttribute for In2 {}
impl SvgAttribute for In2 {}

/// <https://developer.mozilla.org/en-US/docs/Web/SVG/Attribute/in>
#[derive(Debug)]
pub struct In(String);

impl In {
    /// Wraps the given value.
    pub fn new(val: String) -> (r: Self)
        ensures
            r.spec_val() == Some(val@),
    {
        In(val)
    }
}

impl Attribute for In {
    open spec fn spec_key(&self) -> Seq<char> {
        "in"@
    }

    closed spec fn spec_val(&self) -> Option<Seq<char>> {
        Some(self.0@)
    }

    fn get_key(&self) -> &str {
        "in"
    }

    fn get_val(&self) -> Option<&str> {
        Some(self.0.as_str())
    }
}

impl crate::anchor::AnchorAttribute for In {}
impl crate::area::AreaAttribute for In {}
impl crate::audio::AudioAttribute for In {}
impl crate::base::BaseAttribute for In {}
impl crate::blockquote::BlockQuoteAttribute for In {}
impl crate::button::ButtonAttribute for In {}
impl crate::canvas::CanvasAttribute for In {}
impl crate::col::ColAttribute for In {}
impl crate::colgroup::ColGroupAttribute for In {}
impl crate::data::DataAttribute for In {}
impl crate::details::DetailsAttribute for In {}
impl SvgAttribute for In {}

/// <https://developer.mozilla.org/en-US/docs/Web/SVG/Attribute/intercept>
#[derive(Debug)]
pub struct Intercept(String);

impl Intercept {
    /// Stores the value's serialization.
    pub fn new(val: NumberOrString) -> (r: Self)
        ensures
            r.spec_val() == Some(val.spec_str()),
    {
        Intercept(val.to_string())
    }
}

impl Attribute for Intercept {
    open spec fn spec_key(&self) -> Seq<char> {
        "intercept"@
    }

    closed spec fn spec_val(&self) -> Option<Seq<char>> {
        Some(self.0@)
    }

    fn get_key(&self) -> &str {
        "intercept"
    }

    fn get_val(&self) -> Option<&str> {
        Some(self.0.as_str())
    }
}

impl crate::anchor::AnchorAttribute for Intercept {}
impl crate::area::AreaAttribute for Intercept {}
impl crate::audio::AudioAttribute for Intercept {}
impl crate::base::BaseAttribute for Intercept {}
impl crate::blockquote::BlockQuoteAttribute for Intercept {}
impl crate::button::ButtonAttribute for Intercept {}
impl crate::canvas::CanvasAttribute for Intercept {}
impl crate::col::ColAttribute for Intercept {}
impl crate::colgroup::ColGroupAttribute for Intercept {}
impl crate::data::DataAttribute for Intercept {}
impl crate::details::DetailsAttribute for Intercept {}
impl SvgAttribute for Intercept {}

/// <https://developer.mozilla.org/en-US/docs/Web/SVG/Attribute/k1>
#[derive(Debug)]
pub struct K1(String);

impl K1 {
    /// Stores the value's serialization.
    pub fn new(val: NumberOrString) -> (r: Self)
        ensures
            r.spec_val() == Some(val.spec_str()),
    {
        K1(val.to_string())
    }
}

impl Attribute for K1 {
    open spec fn spec_key(&self) -> Seq<char> {
        "k1"@
    }

    closed spec fn spec_val(&self) -> Option<Seq<char>> {
        Some(self.0@)
    }

    fn get_key(&self) -> &str {
        "k1"
    }

    fn get_val(&self) -> Option<&str> {
        Some(self.0.as_str())
    }
}

impl crate::anchor::AnchorAttribute for K1 {}
impl crate::area::AreaAttribute for K1 {}
impl crate::audio::AudioAttribute for K1 {}
impl crate::base::BaseAttribute for K1 {}
impl crate::blockquote::BlockQuoteAttribute for K1 {}
impl crate::button::ButtonAttribute for K1 {}
impl crate::canvas::CanvasAttribute for K1 {}
impl crate::col::ColAttribute for K1 {}
impl crate::colgroup::ColGroupAttribute for K1 {}
impl crate::data::DataAttribute for K1 {}
impl crate::details::DetailsAttribute for K1 {}
impl SvgAttribute for K1 {}

/// <https://developer.mozilla.org/en-US/docs/Web/SVG/Attribute/k2>
#[derive(Debug)]
pub struct K2(String);

impl K2 {
    /// Stores the value's serialization.
    pub fn new(val: NumberOrString) -> (r: Self)
        ensures
            r.spec_val() == Some(val.spec_str()),
    {
        K2(val.to_string())
    }
}

impl Attribute for K2 {
    open spec fn spec_key(&self) -> Seq<char> {
        "k2"@
    }

    closed spec fn spec_val(&self) -> Option<Seq<char>> {
        Some(self.0@)
    }

    fn get_key(&self) -> &str {
        "k2"
    }

    fn get_val(&self) -> Option<&str> {
        Some(self.0.as_str())
    }
}

impl crate::anchor::AnchorAttribute for K2 {}
impl crate::area::AreaAttribute for K2 {}
impl crate::audio::AudioAttribute for K2 {}
impl crate::base::BaseAttribute for K2 {}
impl crate::blockquote::BlockQuoteAttribute for K2 {}
impl crate::button::ButtonAttribute for K2 {}
impl crate::canvas::CanvasAttribute for K2 {}
impl crate::col::ColAttribute for K2 {}
impl crate::colgroup::ColGroupAttribute for K2 {}
impl crate::data::DataAttribute for K2 {}
impl crate::details::DetailsAttribute for K2 {}
impl SvgAttribute for K2 {}

/// <https://developer.mozilla.org/en-US/docs/Web/SVG/Attribute/k3>
#[derive(Debug)]
pub struct K3(String);

impl K3 {
    /// Stores the value's serialization.
    pub fn new(val: NumberOrString) -> (r: Self)
        ensures
            r.spec_val() == Some(val.spec_str()),
    {
        K3(val.to_string())
    }
}

impl Attribute for K3 {
    open spec fn spec_key(&self) -> Seq<char> {
        "k3"@
    }

    closed spec fn spec_val(&self) -> Option<Seq<char>> {
        Some(self.0@)
    }

    fn get_key(&self) -> &str {
        "k3"
    }

    fn get_val(&self) -> Option<&str> {
        Some(self.0.as_str())
    }
}

impl crate::anchor::AnchorAttribute for K3 {}
impl crate::area::AreaAttribute for K3 {}
impl crate::audio::AudioAttribute for K3 {}
impl crate::base::BaseAttribute for K3 {}
impl crate::blockquote::BlockQuoteAttribute for K3 {}
impl crate::button::ButtonAttribute for K3 {}
impl crate::canvas::CanvasAttribute for K3 {}
impl crate::col::ColAttribute for K3 {}
impl crate::colgroup::ColGroupAttribute for K3 {}
impl crate::data::DataAttribute for K3 {}
impl crate::details::DetailsAttribute for K3 {}
impl SvgAttribute for K3 {}

/// <https://developer.mozilla.org/en-US/docs/Web/SVG/Attribute/k4>
#[derive(Debug)]
pub struct K4(String);

impl K4 {
    /// Stores the value's serialization.
    pub fn new(val: NumberOrString) -> (r: Self)
        ensures
            r.spec_val() == Some(val.spec_str()),
    {
        K4(val.to_string())
    }
}

impl Attribute for K4 {
    open spec fn spec_key(&self) -> Seq<char> {
        "k4"@
    }

    closed spec fn spec_val(&self) -> Option<Seq<char>> {
        Some(self.0@)
    }

    fn get_key(&self) -> &str {
        "k4"
    }

    fn get_val(&self) -> Option<&str> {
        Some(self.0.as_str())
    }
}

impl crate::anchor::AnchorAttribute for K4 {}
impl crate::area::AreaAttribute for K4 {}
impl crate::audio::AudioAttribute for K4 {}
impl crate::base::BaseAttribute for K4 {}
impl crate::blockquote::BlockQuoteAttribute for K4 {}
impl crate::button::ButtonAttribute for K4 {}
impl crate::canvas::CanvasAttribute for K4 {}
impl crate::col::ColAttribute for K4 {}
impl crate::colgroup::ColGroupAttribute for K4 {}
impl crate::data::DataAttribute for K4 {}
impl crate::details::DetailsAttribute for K4 {}
impl SvgAttribute for K4 {}

/// <https://developer.mozilla.org/en-US/docs/Web/SVG/Attribute/k>
#[derive(Debug)]
pub struct K(String);

impl K {
    /// Stores the value's serialization.
    pub fn new(val: NumberOrString) -> (r: Self)
        ensures
            r.spec_val() == Some(val.spec_str()),
    {
        K(val.to_string())
    }
}

impl Attribute for K {
    open spec fn spec_key(&self) -> Seq<char> {
        "k"@
    }

    closed spec fn spec_val(&self) -> Option<Seq<char>> {
        Some(self.0@)
    }

    fn get_key(&self) -> &str {
        "k"
    }

    fn get_val(&self) -> Option<&str> {
        Some(self.0.as_str())
    }
}

impl crate::anchor::AnchorAttribute for K {}
impl crate::area::AreaAttribute for K {}
impl crate::audio::AudioAttribute for K {}
impl crate::base::BaseAttribute for K {}
impl crate::blockquote::BlockQuoteAttribute for K {}
impl crate::button::ButtonAttribute for K {}
impl crate::canvas::CanvasAttribute for K {}
impl crate::col::ColAttribute for K {}
impl crate::colgroup::ColGroupAttribute for K {}
impl crate::data::DataAttribute for K {}
impl crate::details::DetailsAttribute for K {}
impl SvgAttribute for K {}

/// <https://developer.mozilla.org/en-US/docs/Web/SVG/Attribute/kernelMatrix>
#[derive(Debug)]
pub struct KernelMatrix(String);

impl KernelMatrix {
    /// Stores the value's serialization.
    pub fn new(val: NumberOrString) -> (r: Self)
        ensures
            r.spec_val() == Some(val.spec_str()),
    {
        KernelMatrix(val.to_string())
    }
}

impl Attribute for KernelMatrix {
    open spec fn spec_key(&self) -> Seq<char> {
        "kernelMatrix"@
    }

    closed spec fn spec_val(&self) -> Option<Seq<char>> {
        Some(self.0@)
    }

    fn get_key(&self) -> &str {
        "kernelMatrix"
    }

    fn get_val(&self) -> Option<&str> {
        Some(self.0.as_str())
    }
}

impl crate::anchor::AnchorAttribute for KernelMatrix {}
impl crate::area::AreaAttribute for KernelMatrix {}
impl crate::audio::AudioAttribute for KernelMatrix {}
impl crate::base::BaseAttribute for KernelMatrix {}
impl crate::blockquote::BlockQuoteAttribute for KernelMatrix {}
impl crate::button::ButtonAttribute for KernelMatrix {}
impl crate::canvas::CanvasAttribute for KernelMatrix {}
impl crate::col::ColAttribute for KernelMatrix {}
impl crate::colgroup::ColGroupAttribute for KernelMatrix {}
impl crate::data::DataAttribute for KernelMatrix {}
impl crate::details::DetailsAttribute for KernelMatrix {}
impl SvgAttribute for KernelMatrix {}

/// <https://developer.mozilla.org/en-US/docs/Web/SVG/Attribute/kernelUnitLength>
#[derive(Debug)]
pub struct KernelUnitLength(String);

impl KernelUnitLength {
    /// Stores the value's serialization.
    pub fn new(val: NumberOrString) -> (r: Self)
        ensures
            r.spec_val() == Some(val.spec_str()),
    {
        KernelUnitLength(val.to_string())
    }
}

impl Attribute for KernelUnitLength {
    open spec fn spec_key(&self) -> Seq<char> {
        "kernelUnitLength"@
    }

    closed spec fn spec_val(&self) -> Option<Seq<char>> {
        Some(self.0@)
    }

    fn get_key(&self) -> &str {
        "kernelUnitLength"
    }

    fn get_val(&self) -> Option<&str> {
        Some(self.0.as_str())
    }
}

impl crate::anchor::AnchorAttribute for KernelUnitLength {}
impl crate::area::AreaAttribute for KernelUnitLength {}
impl crate::audio::AudioAttribute for KernelUnitLength {}
impl crate::base::BaseAttribute for KernelUnitLength {}
impl crate::blockquote::BlockQuoteAttribute for KernelUnitLength {}
impl crate::button::ButtonAttribute for KernelUnitLength {}
impl crate::canvas::CanvasAttribute for KernelUnitLength {}
impl crate::col::ColAttribute for KernelUnitLength {}
impl crate::colgroup::ColGroupAttribute for KernelUnitLength {}
impl crate::data::DataAttribute for KernelUnitLength {}
impl crate::details::DetailsAttribute for KernelUnitLength {}
impl SvgAttribute for KernelUnitLength {}

/// <https://developer.mozilla.org/en-US/docs/Web/SVG/Attribute/kerning>
#[derive(Debug)]
pub struct Kerning(String);

impl Kerning {
    /// Stores the value's serialization.
    pub fn new(val: NumberOrString) -> (r: Self)
        ensures
            r.spec_val() == Some(val.spec_str()),
    {
        Kerning(val.to_string())
    }
}

impl Attribute for Kerning {
    open spec fn spec_key(&self) -> Seq<char> {
        "kerning"@
    }

    closed spec fn spec_val(&self) -> Option<Seq<char>> {
        Some(self.0@)
    }

    fn get_key(&self) -> &str {
        "kerning"
    }

    fn get_val(&self) -> Option<&str> {
        Some(self.0.as_str())
    }
}

impl crate::anchor::AnchorAttribute for Kerning {}
impl crate::area::AreaAttribute for Kerning {}
impl crate::audio::AudioAttribute for Kerning {}
impl crate::base::BaseAttribute for Kerning {}
impl crate::blockquote::BlockQuoteAttribute for Kerning {}
impl crate::button::ButtonAttribute for Kerning {}
impl crate::canvas::CanvasAttribute for Kerning {}
impl crate::col::ColAttribute for Kerning {}
impl crate::colgroup::ColGroupAttribute for Kerning {}
impl crate::data::DataAttribute for Kerning {}
impl crate::details::DetailsAttribute for Kerning {}
impl SvgAttribute for Kerning {}

/// <https://developer.mozilla.org/en-US/docs/Web/SVG/Attribute/keyPoints>
#[derive(Debug)]
pub struct KeyPoints(String);

impl KeyPoints {
    /// Stores the value's serialization.
    pub fn new(val: NumberOrString) -> (r: Self)
        ensures
            r.spec_val() == Some(val.spec_str()),
    {
        KeyPoints(val.to_string())
    }
}

impl Attribute for KeyPoints {
    open spec fn spec_key(&self) -> Seq<char> {
        "keyPoints"@
    }

    closed spec fn spec_val(&self) -> Option<Seq<char>> {
        Some(self.0@)
    }

    fn get_key(&self) -> &str {
        "keyPoints"
    }

    fn get_val(&self) -> Option<&str> {
        Some(self.0.as_str())
    }
}

impl crate::anchor::AnchorAttribute for KeyPoints {}
impl crate::area::AreaAttribute for KeyPoints {}
impl crate::audio::AudioAttribute for KeyPoints {}
impl crate::base::BaseAttribute for KeyPoints {}
impl crate::blockquote::BlockQuoteAttribute for KeyPoints {}
impl crate::button::ButtonAttribute for KeyPoints {}
impl crate::canvas::CanvasAttribute for KeyPoints {}
impl crate::col::ColAttribute for KeyPoints {}
impl crate::colgroup::ColGroupAttribute for KeyPoints {}
impl crate::data::DataAttribute for KeyPoints {}
impl crate::details::DetailsAttribute for KeyPoints {}
impl SvgAttribute for KeyPoints {}

/// <https://developer.mozilla.org/en-US/docs/Web/SVG/Attribute/keySplines>
#[derive(Debug)]
pub struct KeySplines(String);

impl KeySplines {
    /// Stores the value's serialization.
    pub fn new(val: NumberOrString) -> (r: Self)
        ensures
            r.spec_val() == Some(val.spec_str()),
    {
        KeySplines(val.to_string())
    }
}

impl Attribute for KeySplines {
    open spec fn spec_key(&self) -> Seq<char> {
        "keySplines"@
    }

    closed spec fn spec_val(&self) -> Option<Seq<char>> {
        Some(self.0@)
    }

    fn get_key(&self) -> &str {
        "keySplines"
    }

    fn get_val(&self) -> Option<&str> {
        Some(self.0.as_str())
    }
}

impl crate::anchor::AnchorAttribute for KeySplines {}
impl crate::area::AreaAttribute for KeySplines {}
impl crate::audio::AudioAttribute for KeySplines {}
impl crate::base::BaseAttribute for KeySplines {}
impl crate::blockquote::BlockQuoteAttribute for KeySplines {}
impl crate::button::ButtonAttribute for KeySplines {}
impl crate::canvas::CanvasAttribute for KeySplines {}
impl crate::col::ColAttribute for KeySplines {}
impl crate::colgroup::ColGroupAttribute for KeySplines {}
impl crate::data::DataAttribute for KeySplines {}
impl crate::details::DetailsAttribute for KeySplines {}
impl SvgAttribute for KeySplines {}

/// <https://developer.mozilla.org/en-US/docs/Web/SVG/Attribute/keyTimes>
#[derive(Debug)]
pub struct KeyTimes(String);

impl KeyTimes {
    /// Stores the value's serialization.
    pub fn new(val: NumberOrString) -> (r: Self)
        ensures
            r.spec_val() == Some(val.spec_str()),
    {
        KeyTimes(val.to_string())
    }
}

impl Attribute for KeyTimes {
    open spec fn spec_key(&self) -> Seq<char> {
        "keyTimes"@
    }

    closed spec fn spec_val(&self) -> Option<Seq<char>> {
        Some(self.0@)
    }

    fn get_key(&self) -> &str {
        "keyTimes"
    }

    fn get_val(&self) -> Option<&str> {
        Some(self.0.as_str())
    }
}

impl crate::anchor::AnchorAttribute for KeyTimes {}
impl crate::area::AreaAttribute for KeyTimes {}
impl crate::audio::AudioAttribute for KeyTimes {}
impl crate::base::BaseAttribute for KeyTimes {}
impl crate::blockquote::BlockQuoteAttribute for KeyTimes {}
impl crate::button::ButtonAttribute for KeyTimes {}
impl crate::canvas::CanvasAttribute for KeyTimes {}
impl crate::col::ColAttribute for KeyTimes {}
impl crate::colgroup::ColGroupAttribute for KeyTimes {}
impl crate::data::DataAttribute for KeyTimes {}
impl crate::details::DetailsAttribute for KeyTimes {}
impl SvgAttribute for KeyTimes {}

/// <https://developer.mozilla.org/en-US/docs/Web/SVG/Attribute/lengthAdjust>
#[derive(Debug)]
pub struct LengthAdjust(String);

impl LengthAdjust {
    /// Stores the value's serialization.
    pub fn new(val: NumberOrString) -> (r: Self)
        ensures
            r.spec_val() == Some(val.spec_str()),
    {
        LengthAdjust(val.to_string())
    }
}

impl Attribute for LengthAdjust {
    open spec fn spec_key(&self) -> Seq<char> {
        "lengthAdjust"@
    }

    closed spec fn spec_val(&self) -> Option<Seq<char>> {
        Some(self.0@)
    }

    fn get_key(&self) -> &str {
        "lengthAdjust"
    }

    fn get_val(&self) -> Option<&str> {
        Some(self.0.as_str())
    }
}

impl crate::anchor::AnchorAttribute for LengthAdjust {}
impl crate::area::AreaAttribute for LengthAdjust {}
impl crate::audio::AudioAttribute for LengthAdjust {}
impl crate::base::BaseAttribute for LengthAdjust {}
impl crate::blockquote::BlockQuoteAttribute for LengthAdjust {}
impl crate::button::ButtonAttribute for LengthAdjust {}
impl crate::canvas::CanvasAttribute for LengthAdjust {}
impl crate::col::ColAttribute for LengthAdjust {}
impl crate::colgroup::ColGroupAttribute for LengthAdjust {}
impl crate::data::DataAttribute for LengthAdjust {}
impl crate::details::DetailsAttribute for LengthAdjust {}
impl SvgAttribute for LengthAdjust {}

/// <https://developer.mozilla.org/en-US/docs/Web/SVG/Attribute/letter-spacing>
#[derive(Debug)]
pub struct LetterSpacing(String);

impl LetterSpacing {
    /// Stores the value's serialization.
    pub fn new(val: NumberOrString) -> (r: Self)
        ensures
            r.spec_val() == Some(val.spec_str()),
    {
        LetterSpacing(val.to_string())
    }
}

impl Attribute for LetterSpacing {
    open spec fn spec_key(&self) -> Seq<char> {
        "letter-spacing"@
    }

    closed spec fn spec_val(&self) -> Option<Seq<char>> {
        Some(self.0@)
    }

    fn get_key(&self) -> &str {
        "letter-spacing"
    }

    fn get_val(&self) -> Option<&str> {
        Some(self.0.as_str())
    }
}

impl crate::anchor::AnchorAttribute for LetterSpacing {}
impl crate::area::AreaAttribute for LetterSpacing {}
impl crate::audio::AudioAttribute for LetterSpacing {}
impl crate::base::BaseAttribute for LetterSpacing {}
impl crate::blockquote::BlockQuoteAttribute for LetterSpacing {}
impl crate::button::ButtonAttribute for LetterSpacing {}
impl crate::canvas::CanvasAttribute for LetterSpacing {}
impl crate::col::ColAttribute for LetterSpacing {}
impl crate::colgroup::ColGroupAttribute for LetterSpacing {}
impl crate::data::DataAttribute for LetterSpacing {}
impl crate::details::DetailsAttribute for LetterSpacing {}
impl SvgAttribute for LetterSpacing {}

/// <https://developer.mozilla.org/en-US/docs/Web/SVG/Attribute/lighting-color>
#[derive(Debug)]
pub struct LightingColor(String);

impl LightingColor {
    /// Stores the value's serialization.
    pub fn new(val: NumberOrString) -> (r: Self)
        ensures
            r.spec_val() == Some(val.spec_str()),
    {
        LightingColor(val.to_string())
    }
}

impl Attribute for LightingColor {
    open spec fn spec_key(&self) -> Seq<char> {
        "lighting-color"@
    }

    closed spec fn spec_val(&self) -> Option<Seq<char>> {
        Some(self.0@)
    }

    fn get_key(&self) -> &str {
        "lighting-color"
    }

    fn get_val(&self) -> Option<&str> {
        Some(self.0.as_str())
    }
}

impl crate::anchor::AnchorAttribute for LightingColor {}
impl crate::area::AreaAttribute for LightingColor {}
impl crate::audio::AudioAttribute for LightingColor {}
impl crate::base::BaseAttribute for LightingColor {}
impl crate::blockquote::BlockQuoteAttribute for LightingColor {}
impl crate::button::ButtonAttribute for LightingColor {}
impl crate::canvas::CanvasAttribute for LightingColor {}
impl crate::col::ColAttribute for LightingColor {}
impl crate::colgroup::ColGroupAttribute for LightingColor {}
impl crate::data::DataAttribute for LightingColor {}
impl crate::details::DetailsAttribute for LightingColor {}
impl SvgAttribute for LightingColor {}

/// <https://developer.mozilla.org/en-US/docs/Web/SVG/Attribute/limitingConeAngle>
#[derive(Debug)]
pub struct LimitingConeAngle(String);

impl LimitingConeAngle {
    /// Stores the value's serialization.
    pub fn new(val: NumberOrString) -> (r: Self)
        ensures
            r.spec_val() == Some(val.spec_str()),
    {
        LimitingConeAngle(val.to_string())
    }
}

impl Attribute for LimitingConeAngle {
    open spec fn spec_key(&self) -> Seq<char> {
        "limitingConeAngle"@
    }

    closed spec fn spec_val(&self) -> Option<Seq<char>> {
        Some(self.0@)
    }

    fn get_key(&self) -> &str {
        "limitingConeAngle"
    }

    fn get_val(&self) -> Option<&str> {
        Some(self.0.as_str())
    }
}

impl crate::anchor::AnchorAttribute for LimitingConeAngle {}
impl crate::area::AreaAttribute for LimitingConeAngle {}
impl crate::audio::AudioAttribute for LimitingConeAngle {}
impl crate::base::BaseAttribute for LimitingConeAngle {}
impl crate::blockquote::BlockQuoteAttribute for LimitingConeAngle {}
impl crate::button::ButtonAttribute for LimitingConeAngle {}
impl crate::canvas::CanvasAttribute for LimitingConeAngle {}
impl crate::col::ColAttribute for LimitingConeAngle {}
impl crate::colgroup::ColGroupAttribute for LimitingConeAngle {}
impl crate::data::DataAttribute for LimitingConeAngle {}
impl crate::details::DetailsAttribute for LimitingConeAngle {}
impl SvgAttribute for LimitingConeAngle {}

/// <https://developer.mozilla.org/en-US/docs/Web/SVG/Attribute/local>
#[derive(Debug)]
pub struct Local(String);

impl Local {
    /// Stores the value's serialization.
    pub fn new(val: NumberOrString) -> (r: Self)
        ensures
            r.spec_val() == Some(val.spec_str()),
    {
        Local(val.to_string())
    }
}

impl Attribute for Local {
    open spec fn spec_key(&self) -> Seq<char> {
        "local"@
    }

    closed spec fn spec_val(&self) -> Option<Seq<char>> {
        Some(self.0@)
    }

    fn get_key(&self) -> &str {
        "local"
    }

    fn get_val(&self) -> Option<&str> {
        Some(self.0.as_str())
    }
}

impl crate::anchor::AnchorAttribute for Local {}
impl crate::area::AreaAttribute for Local {}
impl crate::audio::AudioAttribute for Local {}
impl crate::base::BaseAttribute for Local {}
impl crate::blockquote::BlockQuoteAttribute for Local {}
impl crate::button::ButtonAttribute for Local {}
impl crate::canvas::CanvasAttribute for Local {}
impl crate::col::ColAttribute for Local {}
impl crate::colgroup::ColGroupAttribute for Local {}
impl crate::data::DataAttribute for Local {}
impl crate::details::DetailsAttribute for Local {}
impl SvgAttribute for Local {}

/// <https://developer.mozilla.org/en-US/docs/Web/SVG/Attribute/marker-end>
#[derive(Debug)]
pub struct MarkerEnd(String);

impl MarkerEnd {
    /// Wraps the given value.
    pub fn new(val: String) -> (r: Self)
        ensures
            r.spec_val() == Some(val@),
    {
        MarkerEnd(val)
    }
}

impl Attribute for MarkerEnd {
    open spec fn spec_key(&self) -> Seq<char> {
        "marker-end"@
    }

    closed spec fn spec_val(&self) -> Option<Seq<char>> {
        Some(self.0@)
    }

    fn get_key(&self) -> &str {
        "marker-end"
    }

    fn get_val(&self) -> Option<&str> {
        Some(self.0.as_str())
    }
}

impl crate::anchor::AnchorAttribute for MarkerEnd {}
impl crate::area::AreaAttribute for MarkerEnd {}
impl crate::audio::AudioAttribute for MarkerEnd {}
impl crate::base::BaseAttribute for MarkerEnd {}
impl crate::blockquote::BlockQuoteAttribute for MarkerEnd {}
impl crate::button::ButtonAttribute for MarkerEnd {}
impl crate::canvas::CanvasAttribute for MarkerEnd {}
impl crate::col::ColAttribute for MarkerEnd {}
impl crate::colgroup::ColGroupAttribute for MarkerEnd {}
impl crate::data::DataAttribute for MarkerEnd {}
impl crate::details::DetailsAttribute for MarkerEnd {}
impl SvgAttribute for MarkerEnd {}

/// <https://developer.mozilla.org/en-US/docs/Web/SVG/Attribute/markerHeight>
#[derive(Debug)]
pub struct MarkerHeight(String);

impl MarkerHeight {
    /// Stores the value's serialization.
    pub fn new(val: NumberOrString) -> (r: Self)
        ensures
            r.spec_val() == Some(val.spec_str()),
    {
        MarkerHeight(val.to_string())
    }
}

impl Attribute for MarkerHeight {
    open spec fn spec_key(&self) -> Seq<char> {
        "markerHeight"@
    }

    closed spec fn spec_val(&self) -> Option<Seq<char>> {
        Some(self.0@)
    }

    fn get_key(&self) -> &str {
        "markerHeight"
    }

    fn get_val(&self) -> Option<&str> {
        Some(self.0.as_str())
    }
}

impl crate::anchor::AnchorAttribute for MarkerHeight {}
impl crate::area::AreaAttribute for MarkerHeight {}
impl crate::audio::AudioAttribute for MarkerHeight {}
impl crate::base::BaseAttribute for MarkerHeight {}
impl crate::blockquote::BlockQuoteAttribute for MarkerHeight {}
impl crate::button::ButtonAttribute for MarkerHeight {}
impl crate::canvas::CanvasAttribute for MarkerHeight {}
impl crate::col::ColAttribute for MarkerHeight {}
impl crate::colgroup::ColGroupAttribute for MarkerHeight {}
impl crate::data::DataAttribute for MarkerHeight {}
impl crate::details::DetailsAttribute for MarkerHeight {}
impl SvgAttribute for MarkerHeight {}

/// <https://developer.mozilla.org/en-US/docs/Web/SVG/Attribute/marker-mid>
#[derive(Debug)]
pub struct MarkerMid(String);

impl MarkerMid {
    /// Wraps the given value.
    pub fn new(val: String) -> (r: Self)
        ensures
            r.spec_val() == Some(val@),
    {
        MarkerMid(val)
    }
}

impl Attribute for MarkerMid {
    open spec fn spec_key(&self) -> Seq<char> {
        "marker-mid"@
    }

    closed spec fn spec_val(&self) -> Option<Seq<char>> {
        Some(self.0@)
    }

    fn get_key(&self) -> &str {
        "marker-mid"
    }

    fn get_val(&self) -> Option<&str> {
        Some(self.0.as_str())
    }
}

impl crate::anchor::AnchorAttribute for MarkerMid {}
impl crate::area::AreaAttribute for MarkerMid {}
impl crate::audio::AudioAttribute for MarkerMid {}
impl crate::base::BaseAttribute for MarkerMid {}
impl crate::blockquote::BlockQuoteAttribute for MarkerMid {}
impl crate::button::ButtonAttribute for MarkerMid {}
impl crate::canvas::CanvasAttribute for MarkerMid {}
impl crate::col::ColAttribute for MarkerMid {}
impl crate::colgroup::ColGroupAttribute for MarkerMid {}
impl crate::data::DataAttribute for MarkerMid {}
impl crate::details::DetailsAttribute for MarkerMid {}
impl SvgAttribute for MarkerMid {}

/// <https://developer.mozilla.org/en-US/docs/Web/SVG/Attribute/marker-start>
#[derive(Debug)]
pub struct MarkerStart(String);

impl MarkerStart {
    /// Wraps the given value.
    pub fn new(val: String) -> (r: Self)
        ensures
            r.spec_val() == Some(val@),
    {
        MarkerStart(val)
    }
}

impl Attribute for MarkerStart {
    open spec fn spec_key(&self) -> Seq<char> {
        "marker-start"@
    }

    closed spec fn spec_val(&self) -> Option<Seq<char>> {
        Some(self.0@)
    }

    fn get_key(&self) -> &str {
        "marker-start"
    }

    fn get_val(&self) -> Option<&str> {
        Some(self.0.as_str())
    }
}

impl crate::anchor::AnchorAttribute for MarkerStart {}
impl crate::area::AreaAttribute for MarkerStart {}
impl crate::audio::AudioAttribute for MarkerStart {}
impl crate::base::BaseAttribute for MarkerStart {}
impl crate::blockquote::BlockQuoteAttribute for MarkerStart {}
impl crate::button::ButtonAttribute for MarkerStart {}
impl crate::canvas::CanvasAttribute for MarkerStart {}
impl crate::col::ColAttribute for MarkerStart {}
impl crate::colgroup::ColGroupAttribute for MarkerStart {}
impl crate::data::DataAttribute for MarkerStart {}
impl crate::details::DetailsAttribute for MarkerStart {}
impl SvgAttribute for MarkerStart {}

/// <https://developer.mozilla.org/en-US/docs/Web/SVG/Attribute/markerUnits>
#[derive(Debug)]
pub struct MarkerUnits(String);

impl MarkerUnits {
    /// Stores the value's serialization.
    pub fn new(val: NumberOrString) -> (r: Self)
        ensures
            r.spec_val() == Some(val.spec_str()),
    {
        MarkerUnits(val.to_string())
    }
}

impl Attribute for MarkerUnits {
    open spec fn spec_key(&self) -> Seq<char> {
        "markerUnits"@
    }

    closed spec fn spec_val(&self) -> Option<Seq<char>> {
        Some(self.0@)
    }

    fn get_key(&self) -> &str {
        "markerUnits"
    }

    fn get_val(&self) -> Option<&str> {
        Some(self.0.as_str())
    }
}

impl crate::anchor::AnchorAttribute for MarkerUnits {}
impl crate::area::AreaAttribute for MarkerUnits {}
impl crate::audio::AudioAttribute for MarkerUnits {}
impl crate::base::BaseAttribute for MarkerUnits {}
impl crate::blockquote::BlockQuoteAttribute for MarkerUnits {}
impl crate::button::ButtonAttribute for MarkerUnits {}
impl crate::canvas::CanvasAttribute for MarkerUnits {}
impl crate::col::ColAttribute for MarkerUnits {}
impl crate::colgroup::ColGroupAttribute for MarkerUnits {}
impl crate::data::DataAttribute for MarkerUnits {}
impl crate::details::DetailsAttribute for MarkerUnits {}
impl SvgAttribute for MarkerUnits {}

/// <https://developer.mozilla.org/en-US/docs/Web/SVG/Attribute/markerWidth>
#[derive(Debug)]
pub struct MarkerWidth(String);

impl MarkerWidth {
    /// Stores the value's serialization.
    pub fn new(val: NumberOrString) -> (r: Self)
        ensures
            r.spec_val() == Some(val.spec_str()),
    {
        MarkerWidth(val.to_string())
    }
}

impl Attribute for MarkerWidth {
    open spec fn spec_key(&self) -> Seq<char> {
        "markerWidth"@
    }

    closed spec fn spec_val(&self) -> Option<Seq<char>> {
        Some(self.0@)
    }

    fn get_key(&self) -> &str {
        "markerWidth"
    }

    fn get_val(&self) -> Option<&str> {
        Some(self.0.as_str())
    }
}

impl crate::anchor::AnchorAttribute for MarkerWidth {}
impl crate::area::AreaAttribute for MarkerWidth {}
impl crate::audio::AudioAttribute for MarkerWidth {}
impl crate::base::BaseAttribute for MarkerWidth {}
impl crate::blockquote::BlockQuoteAttribute for MarkerWidth {}
impl crate::button::ButtonAttribute for MarkerWidth {}
impl crate::canvas::CanvasAttribute for MarkerWidth {}
impl crate::col::ColAttribute for MarkerWidth {}
impl crate::colgroup::ColGroupAttribute for MarkerWidth {}
impl crate::data::DataAttribute for MarkerWidth {}
impl crate::details::DetailsAttribute for MarkerWidth {}
impl SvgAttribute for MarkerWidth {}

/// <https://developer.mozilla.org/en-US/docs/Web/SVG/Attribute/mask>
#[derive(Debug)]
pub struct Mask(String);

impl Mask {
    /// Wraps the given value.
    pub fn new(val: String) -> (r: Self)
        ensures
            r.spec_val() == Some(val@),
    {
        Mask(val)
    }
}

impl Attribute for Mask {
    open spec fn spec_key(&self) -> Seq<char> {
        "mask"@
    }

    closed spec fn spec_val(&self) -> Option<Seq<char>> {
        Some(self.0@)
    }

    fn get_key(&self) -> &str {
        "mask"
    }

    fn get_val(&self) -> Option<&str> {
        Some(self.0.as_str())
    }
}

impl crate::anchor::AnchorAttribute for Mask {}
impl crate::area::AreaAttribute for Mask {}
impl crate::audio::AudioAttribute for Mask {}
impl crate::base::BaseAttribute for Mask {}
impl crate::blockquote::BlockQuoteAttribute for Mask {}
impl crate::button::ButtonAttribute for Mask {}
impl crate::canvas::CanvasAttribute for Mask {}
impl crate::col::ColAttribute for Mask {}
impl crate::colgroup::ColGroupAttribute for Mask {}
impl crate::data::DataAttribute for Mask {}
impl crate::details::DetailsAttribute for Mask {}
impl SvgAttribute for Mask {}

/// <https://developer.mozilla.org/en-US/docs/Web/SVG/Attribute/maskContentUnits>
#[derive(Debug)]
pub struct MaskContentUnits(String);

impl MaskContentUnits {
    /// Stores the value's serialization.
    pub fn new(val: NumberOrString) -> (r: Self)
        ensures
            r.spec_val() == Some(val.spec_str()),
    {
        MaskContentUnits(val.to_string())
    }
}

impl Attribute for MaskContentUnits {
    open spec fn spec_key(&self) -> Seq<char> {
        "maskContentUnits"@
    }

    closed spec fn spec_val(&self) -> Option<Seq<char>> {
        Some(self.0@)
    }

    fn get_key(&self) -> &str {
        "maskContentUnits"
    }

    fn get_val(&self) -> Option<&str> {
        Some(self.0.as_str())
    }
}

impl crate::anchor::AnchorAttribute for MaskContentUnits {}
impl crate::area::AreaAttribute for MaskContentUnits {}
impl crate::audio::AudioAttribute for MaskContentUnits {}
impl crate::base::BaseAttribute for MaskContentUnits {}
impl crate::blockquote::BlockQuoteAttribute for MaskContentUnits {}
impl crate::button::ButtonAttribute for MaskContentUnits {}
impl crate::canvas::CanvasAttribute for MaskContentUnits {}
impl crate::col::ColAttribute for MaskContentUnits {}
impl crate::colgroup::ColGroupAttribute for MaskContentUnits {}
impl crate::data::DataAttribute for MaskContentUnits {}
impl crate::details::DetailsAttribute for MaskContentUnits {}
impl SvgAttribute for MaskContentUnits {}

/// <https://developer.mozilla.org/en-US/docs/Web/SVG/Attribute/maskUnits>
#[derive(Debug)]
pub struct MaskUnits(String);

impl MaskUnits {
    /// Stores the value's serialization.
    pub fn new(val: NumberOrString) -> (r: Self)
        ensures
            r.spec_val() == Some(val.spec_str()),
    {
        MaskUnits(val.to_string())
    }
}

impl Attribute for MaskUnits {
    open spec fn spec_key(&self) -> Seq<char> {
        "maskUnits"@
    }

    closed spec fn spec_val(&self) -> Option<Seq<char>> {
        Some(self.0@)
    }

    fn get_key(&self) -> &str {
        "maskUnits"
    }

    fn get_val(&self) -> Option<&str> {
        Some(self.0.as_str())
    }
}

impl crate::anchor::AnchorAttribute for MaskUnits {}
impl crate::area::AreaAttribute for MaskUnits {}
impl crate::audio::AudioAttribute for MaskUnits {}
impl crate::base::BaseAttribute for MaskUnits {}
impl crate::blockquote::BlockQuoteAttribute for MaskUnits {}
impl crate::button::ButtonAttribute for MaskUnits {}
impl crate::canvas::CanvasAttribute for MaskUnits {}
impl crate::col::ColAttribute for MaskUnits {}
impl crate::colgroup::ColGroupAttribute for MaskUnits {}
impl crate::data::DataAttribute for MaskUnits {}
impl crate::details::DetailsAttribute for MaskUnits {}
impl SvgAttribute for MaskUnits {}

/// <https://developer.mozilla.org/en-US/docs/Web/SVG/Attribute/mathematical>
#[derive(Debug)]
pub struct Mathematical(String);

impl Mathematical {
    /// Stores the value's serialization.
    pub fn new(val: NumberOrString) -> (r: Self)
        ensures
            r.spec_val() == Some(val.spec_str()),
    {
        Mathematical(val.to_string())
    }
}

impl Attribute for Mathematical {
    open spec fn spec_key(&self) -> Seq<char> {
        "mathematical"@
    }

    closed spec fn spec_val(&self) -> Option<Seq<char>> {
        Some(self.0@)
    }

    fn get_key(&self) -> &str {
        "mathematical"
    }

    fn get_val(&self) -> Option<&str> {
        Some(self.0.as_str())
    }
}

impl crate::anchor::AnchorAttribute for Mathematical {}
impl crate::area::AreaAttribute for Mathematical {}
impl crate::audio::AudioAttribute for Mathematical {}
impl crate::base::BaseAttribute for Mathematical {}
impl crate::blockquote::BlockQuoteAttribute for Mathematical {}
impl crate::button::ButtonAttribute for Mathematical {}
impl crate::canvas::CanvasAttribute for Mathematical {}
impl crate::col::ColAttribute for Mathematical {}
impl crate::colgroup::ColGroupAttribute for Mathematical {}
impl crate::data::DataAttribute for Mathematical {}
impl crate::details::DetailsAttribute for Mathematical {}
impl SvgAttribute for Mathematical {}

/// <https://developer.mozilla.org/en-US/docs/Web/SVG/Attribute/mode>
#[derive(Debug)]
pub struct Mode(String);

impl Mode {
    /// Stores the value's serialization.
    pub fn new(val: NumberOrString) -> (r: Self)
        ensures
            r.spec_val() == Some(val.spec_str()),
    {
        Mode(val.to_string())
    }
}

impl Attribute for Mode {
    open spec fn spec_key(&self) -> Seq<char> {
        "mode"@
    }

    closed spec fn spec_val(&self) -> Option<Seq<char>> {
        Some(self.0@)
    }

    fn get_key(&self) -> &str {
        "mode"
    }

    fn get_val(&self) -> Option<&str> {
        Some(self.0.as_str())
    }
}

impl crate::anchor::AnchorAttribute for Mode {}
impl crate::area::AreaAttribute for Mode {}
impl crate::audio::AudioAttribute for Mode {}
impl crate::base::BaseAttribute for Mode {}
impl crate::blockquote::BlockQuoteAttribute for Mode {}
impl crate::button::ButtonAttribute for Mode {}
impl crate::canvas::CanvasAttribute for Mode {}
impl crate::col::ColAttribute for Mode {}
impl crate::colgroup::ColGroupAttribute for Mode {}
impl crate::data::DataAttribute for Mode {}
impl crate::details::DetailsAttribute for Mode {}
impl SvgAttribute for Mode {}

/// <https://developer.mozilla.org/en-US/docs/Web/SVG/Attribute/numOctaves>
#[derive(Debug)]
pub struct NumOctaves(String);

impl NumOctaves {
    /// Stores the value's serialization.
    pub fn new(val: NumberOrString) -> (r: Self)
        ensures
            r.spec_val() == Some(val.spec_str()),
    {
        NumOctaves(val.to_string())
    }
}

impl Attribute for NumOctaves {
    open spec fn spec_key(&self) -> Seq<char> {
        "numOctaves"@
    }

    closed spec fn spec_val(&self) -> Option<Seq<char>> {
        Some(self.0@)
    }

    fn get_key(&self) -> &str {
        "numOctaves"
    }

    fn get_val(&self) -> Option<&str> {
        Some(self.0.as_str())
    }
}

impl crate::anchor::AnchorAttribute for NumOctaves {}
impl crate::area::AreaAttribute for NumOctaves {}
impl crate::audio::AudioAttribute for NumOctaves {}
impl crate::base::BaseAttribute for NumOctaves {}
impl crate::blockquote::BlockQuoteAttribute for NumOctaves {}
impl crate::button::ButtonAttribute for NumOctaves {}
impl crate::canvas::CanvasAttribute for NumOctaves {}
impl crate::col::ColAttribute for NumOctaves {}
impl crate::colgroup::ColGroupAttribute for NumOctaves {}
impl crate::data::DataAttribute for NumOctaves {}
impl crate::details::DetailsAttribute for NumOctaves {}
impl SvgAttribute for NumOctaves {}

/// <https://developer.mozilla.org/en-US/docs/Web/SVG/Attribute/offset>
#[derive(Debug)]
pub struct Offset(String);

impl Offset {
    /// Stores the value's serialization.
    pub fn new(val: NumberOrString) -> (r: Self)
        ensures
            r.spec_val() == Some(val.spec_str()),
    {
        Offset(val.to_string())
    }
}

impl Attribute for Offset {
    open spec fn spec_key(&self) -> Seq<char> {
        "offset"@
    }

    closed spec fn spec_val(&self) -> Option<Seq<char>> {
        Some(self.0@)
    }

    fn get_key(&self) -> &str {
        "offset"
    }

    fn get_val(&self) -> Option<&str> {
        Some(self.0.as_str())
    }
}

impl crate::anchor::AnchorAttribute for Offset {}
impl crate::area::AreaAttribute for Offset {}
impl crate::audio::AudioAttribute for Offset {}
impl crate::base::BaseAttribute for Offset {}
impl crate::blockquote::BlockQuoteAttribute for Offset {}
impl crate::button::ButtonAttribute for Offset {}
impl crate::canvas::CanvasAttribute for Offset {}
impl crate::col::ColAttribute for Offset {}
impl crate::colgroup::ColGroupAttribute for Offset {}
impl crate::data::DataAttribute for Offset {}
impl crate::details::DetailsAttribute for Offset {}
impl SvgAttribute for Offset {}

/// <https://developer.mozilla.org/en-US/docs/Web/SVG/Attribute/opacity>
#[derive(Debug)]
pub struct Opacity(String);

impl Opacity {
    /// Stores the value's serialization.
    pub fn new(val: NumberOrString) -> (r: Self)
        ensures
            r.spec_val() == Some(val.spec_str()),
    {
        Opacity(val.to_string())
    }
}

impl Attribute for Opacity {
    open spec fn spec_key(&self) -> Seq<char> {
        "opacity"@
    }

    closed spec fn spec_val(&self) -> Option<Seq<char>> {
        Some(self.0@)
    }

    fn get_key(&self) -> &str {
        "opacity"
    }

    fn get_val(&self) -> Option<&str> {
        Some(self.0.as_str())
    }
}

impl crate::anchor::AnchorAttribute for Opacity {}
impl crate::area::AreaAttribute for Opacity {}
impl crate::audio::AudioAttribute for Opacity {}
impl crate::base::BaseAttribute for Opacity {}
impl crate::blockquote::BlockQuoteAttribute for Opacity {}
impl crate::button::ButtonAttribute for Opacity {}
impl crate::canvas::CanvasAttribute for Opacity {}
impl crate::col::ColAttribute for Opacity {}
impl crate::colgroup::ColGroupAttribute for Opacity {}
impl crate::data::DataAttribute for Opacity {}
impl crate::details::DetailsAttribute for Opacity {}
impl SvgAttribute for Opacity {}

/// <https://developer.mozilla.org/en-US/docs/Web/SVG/Attribute/operator>
#[derive(Debug)]
pub struct Operator(String);

impl Operator {
    /// Stores the value's serialization.
    pub fn new(val: NumberOrString) -> (r: Self)
        ensures
            r.spec_val() == Some(val.spec_str()),
    {
        Operator(val.to_string())
    }
}

impl Attribute for Operator {
    open spec fn spec_key(&self) -> Seq<char> {
        "operator"@
    }

    closed spec fn spec_val(&self) -> Option<Seq<char>> {
        Some(self.0@)
    }

    fn get_key(&self) -> &str {
        "operator"
    }

    fn get_val(&self) -> Option<&str> {
        Some(self.0.as_str())
    }
}

impl crate::anchor::AnchorAttribute for Operator {}
impl crate::area::AreaAttribute for Operator {}
impl crate::audio::AudioAttribute for Operator {}
impl crate::base::BaseAttribute for Operator {}
impl crate::blockquote::BlockQuoteAttribute for Operator {}
impl crate::button::ButtonAttribute for Operator {}
impl crate::canvas::CanvasAttribute for Operator {}
impl crate::col::ColAttribute for Operator {}
impl crate::colgroup::ColGroupAttribute for Operator {}
impl crate::data::DataAttribute for Operator {}
impl crate::details::DetailsAttribute for Operator {}
impl SvgAttribute for Operator {}

/// <https://developer.mozilla.org/en-US/docs/Web/SVG/Attribute/order>
#[derive(Debug)]
pub struct Order(String);

impl Order {
    /// Stores the value's serialization.
    pub fn new(val: NumberOrString) -> (r: Self)
        ensures
            r.spec_val() == Some(val.spec_str()),
    {
        Order(val.to_string())
    }
}

impl Attribute for Order {
    open spec fn spec_key(&self) -> Seq<char> {
        "order"@
    }

    closed spec fn spec_val(&self) -> Option<Seq<char>> {
        Some(self.0@)
    }

    fn get_key(&self) -> &str {
        "order"
    }

    fn get_val(&self) -> Option<&str> {
        Some(self.0.as_str())
    }
}

impl crate::anchor::AnchorAttribute for Order {}
impl crate::area::AreaAttribute for Order {}
impl crate::audio::AudioAttribute for Order {}
impl crate::base::BaseAttribute for Order {}
impl crate::blockquote::BlockQuoteAttribute for Order {}
impl crate::button::ButtonAttribute for Order {}
impl crate::canvas::CanvasAttribute for Order {}
impl crate::col::ColAttribute for Order {}
impl crate::colgroup::ColGroupAttribute for Order {}
impl crate::data::DataAttribute for Order {}
impl crate::details::DetailsAttribute for Order {}
impl SvgAttribute for Order {}

/// <https://developer.mozilla.org/en-US/docs/Web/SVG/Attribute/orient>
#[derive(Debug)]
pub struct Orient(String);

impl Orient {
    /// Stores the value's serialization.
    pub fn new(val: NumberOrString) -> (r: Self)
        ensures
            r.spec_val() == Some(val.spec_str()),
    {
        Orient(val.to_string())
    }
}

impl Attribute for Orient {
    open spec fn spec_key(&self) -> Seq<char> {
        "orient"@
    }

    closed spec fn spec_val(&self) -> Option<Seq<char>> {
        Some(self.0@)
    }

    fn get_key(&self) -> &str {
        "orient"
    }

    fn get_val(&self) -> Option<&str> {
        Some(self.0.as_str())
    }
}

impl crate::anchor::AnchorAttribute for Orient {}
impl crate::area::AreaAttribute for Orient {}
impl crate::audio::AudioAttribute for Orient {}
impl crate::base::BaseAttribute for Orient {}
impl crate::blockquote::BlockQuoteAttribute for Orient {}
impl crate::button::ButtonAttribute for Orient {}
impl crate::canvas::CanvasAttribute for Orient {}
impl crate::col::ColAttribute for Orient {}
impl crate::colgroup::ColGroupAttribute for Orient {}
impl crate::data::DataAttribute for Orient {}
impl crate::details::DetailsAttribute for Orient {}
impl SvgAttribute for Orient {}

/// <https://developer.mozilla.org/en-US/docs/Web/SVG/Attribute/orientation>
#[derive(Debug)]
pub struct Orientation(String);

impl Orientation {
    /// Stores the value's serialization.
    pub fn new(val: NumberOrString) -> (r: Self)
        ensures
            r.spec_val() == Some(val.spec_str()),
    {
        Orientation(val.to_string())
    }
}

impl Attribute for Orientation {
    open spec fn spec_key(&self) -> Seq<char> {
        "orientation"@
    }

    closed spec fn spec_val(&self) -> Option<Seq<char>> {
        Some(self.0@)
    }

    fn get_key(&self) -> &str {
        "orientation"
    }

    fn get_val(&self) -> Option<&str> {
        Some(self.0.as_str())
    }
}

impl crate::anchor::AnchorAttribute for Orientation {}
impl crate::area::AreaAttribute for Orientation {}
impl crate::audio::AudioAttribute for Orientation {}
impl crate::base::BaseAttribute for Orientation {}
impl crate::blockquote::BlockQuoteAttribute for Orientation {}
impl crate::button::ButtonAttribute for Orientation {}
impl crate::canvas::CanvasAttribute for Orientation {}
impl crate::col::ColAttribute for Orientation {}
impl crate::colgroup::ColGroupAttribute for Orientation {}
impl crate::data::DataAttribute for Orientation {}
impl crate::details::DetailsAttribute for Orientation {}
impl SvgAttribute for Orientation {}

/// <https://developer.mozilla.org/en-US/docs/Web/SVG/Attribute/origin>
#[derive(Debug)]
pub struct Origin(String);

impl Origin {
    /// Stores the value's serialization.
    pub fn new(val: NumberOrString) -> (r: Self)
        ensures
            r.spec_val() == Some(val.spec_str()),
    {
        Origin(val.to_string())
    }
}

impl Attribute for Origin {
    open spec fn spec_key(&self) -> Seq<char> {
        "origin"@
    }

    closed spec fn spec_val(&self) -> Option<Seq<char>> {
        Some(self.0@)
    }

    fn get_key(&self) -> &str {
        "origin"
    }

    fn get_val(&self) -> Option<&str> {
        Some(self.0.as_str())
    }
}

impl crate::anchor::AnchorAttribute for Origin {}
impl crate::area::AreaAttribute for Origin {}
impl crate::audio::AudioAttribute for Origin {}
impl crate::base::BaseAttribute for Origin {}
impl crate::blockquote::BlockQuoteAttribute for Origin {}
impl crate::button::ButtonAttribute for Origin {}
impl crate::canvas::CanvasAttribute for Origin {}
impl crate::col::ColAttribute for Origin {}
impl crate::colgroup::ColGroupAttribute for Origin {}
impl crate::data::DataAttribute for Origin {}
impl crate::details::DetailsAttribute for Origin {}
impl SvgAttribute for Origin {}

/// <https://developer.mozilla.org/en-US/docs/Web/SVG/Attribute/overflow>
#[derive(Debug)]
pub struct Overflow(String);

impl Overflow {
    /// Stores the value's serialization.
    pub fn new(val: NumberOrString) -> (r: Self)
        ensures
            r.spec_val() == Some(val.spec_str()),
    {
        Overflow(val.to_string())
    }
}

impl Attribute for Overflow {
    open spec fn spec_key(&self) -> Seq<char> {
        "overflow"@
    }

    closed spec fn spec_val(&self) -> Option<Seq<char>> {
        Some(self.0@)
    }

    fn get_key(&self) -> &str {
        "overflow"
    }

    fn get_val(&self) -> Option<&str> {
        Some(self.0.as_str())
    }
}

impl crate::anchor::AnchorAttribute for Overflow {}
impl crate::area::AreaAttribute for Overflow {}
impl crate::audio::AudioAttribute for Overflow {}
impl crate::base::BaseAttribute for Overflow {}
impl crate::blockquote::BlockQuoteAttribute for Overflow {}
impl crate::button::ButtonAttribute for Overflow {}
impl crate::canvas::CanvasAttribute for Overflow {}
impl crate::col::ColAttribute for Overflow {}
impl crate::colgroup::ColGroupAttribute for Overflow {}
impl crate::data::DataAttribute for Overflow {}
impl crate::details::DetailsAttribute for Overflow {}
impl SvgAttribute for Overflow {}

/// <https://developer.mozilla.org/en-US/docs/Web/SVG/Attribute/overline-position>
#[derive(Debug)]
pub struct OverlinePosition(String);

impl OverlinePosition {
    /// Stores the value's serialization.
    pub fn new(val: NumberOrString) -> (r: Self)
        ensures
            r.spec_val() == Some(val.spec_str()),
    {
        OverlinePosition(val.to_string())
    }
}

impl Attribute for OverlinePosition {
    open spec fn spec_key(&self) -> Seq<char> {
        "overline-position"@
    }

    closed spec fn spec_val(&self) -> Option<Seq<char>> {
        Some(self.0@)
    }

    fn get_key(&self) -> &str {
        "overline-position"
    }

    fn get_val(&self) -> Option<&str> {
        Some(self.0.as_str())
    }
}

impl crate::anchor::AnchorAttribute for OverlinePosition {}
impl crate::area::AreaAttribute for OverlinePosition {}
impl crate::audio::AudioAttribute for OverlinePosition {}
impl crate::base::BaseAttribute for OverlinePosition {}
impl crate::blockquote::BlockQuoteAttribute for OverlinePosition {}
impl crate::button::ButtonAttribute for OverlinePosition {}
impl crate::canvas::CanvasAttribute for OverlinePosition {}
impl crate::col::ColAttribute for OverlinePosition {}
impl crate::colgroup::ColGroupAttribute for OverlinePosition {}
impl crate::data::DataAttribute for OverlinePosition {}
impl crate::details::DetailsAttribute for OverlinePosition {}
impl SvgAttribute for OverlinePosition {}

/// <https://developer.mozilla.org/en-US/docs/Web/SVG/Attribute/overline-thickness>
#[derive(Debug)]
pub struct OverlineThickness(String);

impl OverlineThickness {
    /// Stores the number rendered in decimal.
    pub fn new(val: i64) -> (r: Self)
        ensures
            r.spec_val() == Some(spec_idec(val as int)),
    {
        OverlineThickness(i64_to_string(val as i64))
    }
}

impl Attribute for OverlineThickness {
    open spec fn spec_key(&self) -> Seq<char> {
        "overline-thickness"@
    }

    closed spec fn spec_val(&self) -> Option<Seq<char>> {
        Some(self.0@)
    }

    fn get_key(&self) -> &str {
        "overline-thickness"
    }

    fn get_val(&self) -> Option<&str> {
        Some(self.0.as_str())
    }
}

impl crate::anchor::AnchorAttribute for OverlineThickness {}
impl crate::area::AreaAttribute for OverlineThickness {}
impl crate::audio::AudioAttribute for OverlineThickness {}
impl crate::base::BaseAttribute for OverlineThickness {}
impl crate::blockquote::BlockQuoteAttribute for OverlineThickness {}
impl crate::button::ButtonAttribute for OverlineThickness {}
impl crate::canvas::CanvasAttribute for OverlineThickness {}
impl crate::col::ColAttribute for OverlineThickness {}
impl crate::colgroup::ColGroupAttribute for OverlineThickness {}
impl crate::data::DataAttribute for OverlineThickness {}
impl crate::details::DetailsAttribute for OverlineThickness {}
impl SvgAttribute for OverlineThickness {}

/// <https://developer.mozilla.org/en-US/docs/Web/SVG/Attribute/paint-order>
#[derive(Debug)]
pub struct PaintOrder(String);

impl PaintOrder {
    /// Stores the value's serialization.
    pub fn new(val: NumberOrString) -> (r: Self)
        ensures
            r.spec_val() == Some(val.spec_str()),
    {
        PaintOrder(val.to_string())
    }
}

impl Attribute for PaintOrder {
    open spec fn spec_key(&self) -> Seq<char> {
        "paint-order"@
    }

    closed spec fn spec_val(&self) -> Option<Seq<char>> {
        Some(self.0@)
    }

    fn get_key(&self) -> &str {
        "paint-order"
    }

    fn get_val(&self) -> Option<&str> {
        Some(self.0.as_str())
    }
}

impl crate::anchor::AnchorAttribute for PaintOrder {}
impl crate::area::AreaAttribute for PaintOrder {}
impl crate::audio::AudioAttribute for PaintOrder {}
impl crate::base::BaseAttribute for PaintOrder {}
impl crate::blockquote::BlockQuoteAttribute for PaintOrder {}
impl crate::button::ButtonAttribute for PaintOrder {}
impl crate::canvas::CanvasAttribute for PaintOrder {}
impl crate::col::ColAttribute for PaintOrder {}
impl crate::colgroup::ColGroupAttribute for PaintOrder {}
impl crate::data::DataAttribute for PaintOrder {}
impl crate::details::DetailsAttribute for PaintOrder {}
impl SvgAttribute for PaintOrder {}

/// <https://developer.mozilla.org/en-US/docs/Web/SVG/Attribute/panose-1>
#[derive(Debug)]
pub struct Panose1(String);

impl Panose1 {
    /// Stores the value's serialization.
    pub fn new(val: NumberOrString) -> (r: Self)
        ensures
            r.spec_val() == Some(val.spec_str()),
    {
        Panose1(val.to_string())
    }
}

impl Attribute for Panose1 {
    open spec fn spec_key(&self) -> Seq<char> {
        "Panose1"@
    }

    closed spec fn spec_val(&self) -> Option<Seq<char>> {
        Some(self.0@)
    }

    fn get_key(&self) -> &str {
        "Panose1"
    }

    fn get_val(&self) -> Option<&str> {
        Some(self.0.as_str())
    }
}

impl crate::anchor::AnchorAttribute for Panose1 {}
impl crate::area::AreaAttribute for Panose1 {}
impl crate::audio::AudioAttribute for Panose1 {}
impl crate::base::BaseAttribute for Panose1 {}
impl crate::blockquote::BlockQuoteAttribute for Panose1 {}
impl crate::button::ButtonAttribute for Panose1 {}
impl crate::canvas::CanvasAttribute for Panose1 {}
impl crate::col::ColAttribute for Panose1 {}
impl crate::colgroup::ColGroupAttribute for Panose1 {}
impl crate::data::DataAttribute for Panose1 {}
impl crate::details::DetailsAttribute for Panose1 {}
impl SvgAttribute for Panose1 {}

/// <https://developer.mozilla.org/en-US/docs/Web/SVG/Attribute/path>
#[derive(Debug)]
pub struct Path(String);

impl Path {
    /// Wraps the given value.
    pub fn new(val: String) -> (r: Self)
        ensures
            r.spec_val() == Some(val@),
    {
        Path(val)
    }
}

impl Attribute for Path {
    open spec fn spec_key(&self) -> Seq<char> {
        "path"@
    }

    closed spec fn spec_val(&self) -> Option<Seq<char>> {
        Some(self.0@)
    }

    fn get_key(&self) -> &str {
        "path"
    }

    fn get_val(&self) -> Option<&str> {
        Some(self.0.as_str())
    }
}

impl crate::anchor::AnchorAttribute for Path {}
impl crate::area::AreaAttribute for Path {}
impl crate::audio::AudioAttribute for Path {}
impl crate::base::BaseAttribute for Path {}
impl crate::blockquote::BlockQuoteAttribute for Path {}
impl crate::button::ButtonAttribute for Path {}
impl crate::canvas::CanvasAttribute for Path {}
impl crate::col::ColAttribute for Path {}
impl crate::colgroup::ColGroupAttribute for Path {}
impl crate::data::DataAttribute for Path {}
impl crate::details::DetailsAttribute for Path {}
impl SvgAttribute for Path {}

/// <https://developer.mozilla.org/en-US/docs/Web/SVG/Attribute/pathLength>
#[derive(Debug)]
pub struct PathLength(String);

impl PathLength {
    /// Stores the value's serialization.
    pub fn new(val: NumberOrString) -> (r: Self)
        ensures
            r.spec_val() == Some(val.spec_str()),
    {
        PathLength(val.to_string())
    }
}

impl Attribute for PathLength {
    open spec fn spec_key(&self) -> Seq<char> {
        "pathLength"@
    }

    closed spec fn spec_val(&self) -> Option<Seq<char>> {
        Some(self.0@)
    }

    fn get_key(&self) -> &str {
        "pathLength"
    }

    fn get_val(&self) -> Option<&str> {
        Some(self.0.as_str())
    }
}

impl crate::anchor::AnchorAttribute for PathLength {}
impl crate::area::AreaAttribute for PathLength {}
impl crate::audio::AudioAttribute for PathLength {}
impl crate::base::BaseAttribute for PathLength {}
impl crate::blockquote::BlockQuoteAttribute for PathLength {}
impl crate::button::ButtonAttribute for PathLength {}
impl crate::canvas::CanvasAttribute for PathLength {}
impl crate::col::ColAttribute for PathLength {}
impl crate::colgroup::ColGroupAttribute for PathLength {}
impl crate::data::DataAttribute for PathLength {}
impl crate::details::DetailsAttribute for PathLength {}
impl SvgAttribute for PathLength {}

/// <https://developer.mozilla.org/en-US/docs/Web/SVG/Attribute/patternContentUnits>
#[derive(Debug)]
pub struct PatternContentUnits(String);

impl PatternContentUnits {
    /// Wraps the given value.
    pub fn new(val: String) -> (r: Self)
        ensures
            r.spec_val() == Some(val@),
    {
        PatternContentUnits(val)
    }
}

impl Attribute for PatternContentUnits {
    open spec fn spec_key(&self) -> Seq<char> {
        "patternContentUnits"@
    }

    closed spec fn spec_val(&self) -> Option<Seq<char>> {
        Some(self.0@)
    }

    fn get_key(&self) -> &str {
        "patternContentUnits"
    }

    fn get_val(&self) -> Option<&str> {
        Some(self.0.as_str())
    }
}

impl crate::anchor::AnchorAttribute for PatternContentUnits {}
impl crate::area::AreaAttribute for PatternContentUnits {}
impl crate::audio::AudioAttribute for PatternContentUnits {}
impl crate::base::BaseAttribute for PatternContentUnits {}
impl crate::blockquote::BlockQuoteAttribute for PatternContentUnits {}
impl crate::button::ButtonAttribute for PatternContentUnits {}
impl crate::canvas::CanvasAttribute for PatternContentUnits {}
impl crate::col::ColAttribute for PatternContentUnits {}
impl crate::colgroup::ColGroupAttribute for PatternContentUnits {}
impl crate::data::DataAttribute for PatternContentUnits {}
impl crate::details::DetailsAttribute for PatternContentUnits {}
impl SvgAttribute for PatternContentUnits {}

/// <https://developer.mozilla.org/en-US/docs/Web/SVG/Attribute/patternTransform>
#[derive(Debug)]
pub struct PatternTransform(String);

impl PatternTransform {
    /// Stores the value's serialization.
    pub fn new(val: NumberOrString) -> (r: Self)
        ensures
            r.spec_val() == Some(val.spec_str()),
    {
        PatternTransform(val.to_string())
    }
}

impl Attribute for PatternTransform {
    open spec fn spec_key(&self) -> Seq<char> {
        "patternTransform"@
    }

    closed spec fn spec_val(&self) -> Option<Seq<char>> {
        Some(self.0@)
    }

    fn get_key(&self) -> &str {
        "patternTransform"
    }

    fn get_val(&self) -> Option<&str> {
        Some(self.0.as_str())
    }
}

impl crate::anchor::AnchorAttribute for PatternTransform {}
impl crate::area::AreaAttribute for PatternTransform {}
impl crate::audio::AudioAttribute for PatternTransform {}
impl crate::base::BaseAttribute for PatternTransform {}
impl crate::blockquote::BlockQuoteAttribute for PatternTransform {}
impl crate::button::ButtonAttribute for PatternTransform {}
impl crate::canvas::CanvasAttribute for PatternTransform {}
impl crate::col::ColAttribute for PatternTransform {}
impl crate::colgroup::ColGroupAttribute for PatternTransform {}
impl crate::data::DataAttribute for PatternTransform {}
impl crate::details::DetailsAttribute for PatternTransform {}
impl SvgAttribute for PatternTransform {}

/// <https://developer.mozilla.org/en-US/docs/Web/SVG/Attribute/patternUnits>
#[derive(Debug)]
pub struct PatternUnits(String);

impl PatternUnits {
    /// Wraps the given value.
    pub fn new(val: String) -> (r: Self)
        ensures
            r.spec_val() == Some(val@),
    {
        PatternUnits(val)
    }
}

impl Attribute for PatternUnits {
    open spec fn spec_key(&self) -> Seq<char> {
        "patternUnits"@
    }

    closed spec fn spec_val(&self) -> Option<Seq<char>> {
        Some(self.0@)
    }

    fn get_key(&self) -> &str {
        "patternUnits"
    }

    fn get_val(&self) -> Option<&str> {
        Some(self.0.as_str())
    }
}

impl crate::anchor::AnchorAttribute for PatternUnits {}
impl crate::area::AreaAttribute for PatternUnits {}
impl crate::audio::AudioAttribute for PatternUnits {}
impl crate::base::BaseAttribute for PatternUnits {}
impl crate::blockquote::BlockQuoteAttribute for PatternUnits {}
impl crate::button::ButtonAttribute for PatternUnits {}
impl crate::canvas::CanvasAttribute for PatternUnits {}
impl crate::col::ColAttribute for PatternUnits {}
impl crate::colgroup::ColGroupAttribute for PatternUnits {}
impl crate::data::DataAttribute for PatternUnits {}
impl crate::details::DetailsAttribute for PatternUnits {}
impl SvgAttribute for PatternUnits {}

/// <https://developer.mozilla.org/en-US/docs/Web/SVG/Attribute/pointer-events>
#[derive(Debug)]
pub struct PointerEvents(String);

impl PointerEvents {
    /// Stores the value's serialization.
    pub fn new(val: NumberOrString) -> (r: Self)
        ensures
            r.spec_val() == Some(val.spec_str()),
    {
        PointerEvents(val.to_string())
    }
}

impl Attribute for PointerEvents {
    open spec fn spec_key(&self) -> Seq<char> {
        "pointer-events"@
    }

    closed spec fn spec_val(&self) -> Option<Seq<char>> {
        Some(self.0@)
    }

    fn get_key(&self) -> &str {
        "pointer-events"
    }

    fn get_val(&self) -> Option<&str> {
        Some(self.0.as_str())
    }
}

impl crate::anchor::AnchorAttribute for PointerEvents {}
impl crate::area::AreaAttribute for PointerEvents {}
impl crate::audio::AudioAttribute for PointerEvents {}
impl crate::base::BaseAttribute for PointerEvents {}
impl crate::blockquote::BlockQuoteAttribute for PointerEvents {}
impl crate::button::ButtonAttribute for PointerEvents {}
impl crate::canvas::CanvasAttribute for PointerEvents {}
impl crate::col::ColAttribute for PointerEvents {}
impl crate::colgroup::ColGroupAttribute for PointerEvents {}
impl crate::data::DataAttribute for PointerEvents {}
impl crate::details::DetailsAttribute for PointerEvents {}
impl SvgAttribute for PointerEvents {}

/// <https://developer.mozilla.org/en-US/docs/Web/SVG/Attribute/points>
#[derive(Debug)]
pub struct Points(String);

impl Points {
    /// Wraps the given value.
    pub fn new(val: String) -> (r: Self)
        ensures
            r.spec_val() == Some(val@),
    {
        Points(val)
    }
}

impl Attribute for Points {
    open spec fn spec_key(&self) -> Seq<char> {
        "points"@
    }

    closed spec fn spec_val(&self) -> Option<Seq<char>> {
        Some(self.0@)
    }

    fn get_key(&self) -> &str {
        "points"
    }

    fn get_val(&self) -> Option<&str> {
        Some(self.0.as_str())
    }
}

impl crate::anchor::AnchorAttribute for Points {}
impl crate::area::AreaAttribute for Points {}
impl crate::audio::AudioAttribute for Points {}
impl crate::base::BaseAttribute for Points {}
impl crate::blockquote::BlockQuoteAttribute for Points {}
impl crate::button::ButtonAttribute for Points {}
impl crate::canvas::CanvasAttribute for Points {}
impl crate::col::ColAttribute for Points {}
impl crate::colgroup::ColGroupAttribute for Points {}
impl crate::data::DataAttribute for Points {}
impl crate::details::DetailsAttribute for Points {}
impl SvgAttribute for Points {}

/// <https://developer.mozilla.org/en-US/docs/Web/SVG/Attribute/pointsAtX>
#[derive(Debug)]
pub struct PointsAtX(String);

impl PointsAtX {
    /// Stores the value's serialization.
    pub fn new(val: NumberOrString) -> (r: Self)
        ensures
            r.spec_val() == Some(val.spec_str()),
    {
        PointsAtX(val.to_string())
    }
}

impl Attribute for PointsAtX {
    open spec fn spec_key(&self) -> Seq<char> {
        "pointsAtX"@
    }

    closed spec fn spec_val(&self) -> Option<Seq<char>> {
        Some(self.0@)
    }

    fn get_key(&self) -> &str {
        "pointsAtX"
    }

    fn get_val(&self) -> Option<&str> {
        Some(self.0.as_str())
    }
}

impl crate::anchor::AnchorAttribute for PointsAtX {}
impl crate::area::AreaAttribute for PointsAtX {}
impl crate::audio::AudioAttribute for PointsAtX {}
impl crate::base::BaseAttribute for PointsAtX {}
impl crate::blockquote::BlockQuoteAttribute for PointsAtX {}
impl crate::button::ButtonAttribute for PointsAtX {}
impl crate::canvas::CanvasAttribute for PointsAtX {}
impl crate::col::ColAttribute for PointsAtX {}
impl crate::colgroup::ColGroupAttribute for PointsAtX {}
impl crate::data::DataAttribute for PointsAtX {}
impl crate::details::DetailsAttribute for PointsAtX {}
impl SvgAttribute for PointsAtX {}

/// <https://developer.mozilla.org/en-US/docs/Web/SVG/Attribute/pointsAtX>
#[derive(Debug)]
pub struct PointsAtY(String);

impl PointsAtY {
    /// Stores the value's serialization.
    pub fn new(val: NumberOrString) -> (r: Self)
        ensures
            r.spec_val() == Some(val.spec_str()),
    {
        PointsAtY(val.to_string())
    }
}

impl Attribute for PointsAtY {
    open spec fn spec_key(&self) -> Seq<char> {
        "pointsAtY"@
    }

    closed spec fn spec_val(&self) -> Option<Seq<char>> {
        Some(self.0@)
    }

    fn get_key(&self) -> &str {
        "pointsAtY"
    }

    fn get_val(&self) -> Option<&str> {
        Some(self.0.as_str())
    }
}

impl crate::anchor::AnchorAttribute for PointsAtY {}
impl crate::area::AreaAttribute for PointsAtY {}
impl crate::audio::AudioAttribute for PointsAtY {}
impl crate::base::BaseAttribute for PointsAtY {}
impl crate::blockquote::BlockQuoteAttribute for PointsAtY {}
impl crate::button::ButtonAttribute for PointsAtY {}
impl crate::canvas::CanvasAttribute for PointsAtY {}
impl crate::col::ColAttribute for PointsAtY {}
impl crate::colgroup::ColGroupAttribute for PointsAtY {}
impl crate::data::DataAttribute for PointsAtY {}
impl crate::details::DetailsAttribute for PointsAtY {}
impl SvgAttribute for PointsAtY {}

/// <https://developer.mozilla.org/en-US/docs/Web/SVG/Attribute/pointsAtZ>
#[derive(Debug)]
pub struct PointsAtZ(String);

impl PointsAtZ {
    /// Stores the value's serialization.
    pub fn new(val: NumberOrString) -> (r: Self)
        ensures
            r.spec_val() == Some(val.spec_str()),
    {
        PointsAtZ(val.to_string())
    }
}

impl Attribute for PointsAtZ {
    open spec fn spec_key(&self) -> Seq<char> {
        "pointsAtZ"@
    }

    closed spec fn spec_val(&self) -> Option<Seq<char>> {
        Some(self.0@)
    }

    fn get_key(&self) -> &str {
        "pointsAtZ"
    }

    fn get_val(&self) -> Option<&str> {
        Some(self.0.as_str())
    }
}

impl crate::anchor::AnchorAttribute for PointsAtZ {}
impl crate::area::AreaAttribute for PointsAtZ {}
impl crate::audio::AudioAttribute for PointsAtZ {}
impl crate::base::BaseAttribute for PointsAtZ {}
impl crate::blockquote::BlockQuoteAttribute for PointsAtZ {}
impl crate::button::ButtonAttribute for PointsAtZ {}
impl crate::canvas::CanvasAttribute for PointsAtZ {}
impl crate::col::ColAttribute for PointsAtZ {}
impl crate::colgroup::ColGroupAttribute for PointsAtZ {}
impl crate::data::DataAttribute for PointsAtZ {}
impl crate::details::DetailsAttribute for PointsAtZ {}
impl SvgAttribute for PointsAtZ {}

/// <https://developer.mozilla.org/en-US/docs/Web/SVG/Attribute/preserveAlpha>
#[derive(Debug)]
pub struct PreserveAlpha(String);

impl PreserveAlpha {
    /// Stores the flag serialized as `true` or `false`.
    pub fn new(val: bool) -> (r: Self)
        ensures
            r.spec_val() == Some(spec_bool(val)),
    {
        PreserveAlpha(bool_to_string(val))
    }
}

impl Attribute for PreserveAlpha {
    open spec fn spec_key(&self) -> Seq<char> {
        "preserveAlpha"@
    }

    closed spec fn spec_val(&self) -> Option<Seq<char>> {
        Some(self.0@)
    }

    fn get_key(&self) -> &str {
        "preserveAlpha"
    }

    fn get_val(&self) -> Option<&str> {
        Some(self.0.as_str())
    }
}

impl crate::anchor::AnchorAttribute for PreserveAlpha {}
impl crate::area::AreaAttribute for PreserveAlpha {}
impl crate::audio::AudioAttribute for PreserveAlpha {}
impl crate::base::BaseAttribute for PreserveAlpha {}
impl crate::blockquote::BlockQuoteAttribute for PreserveAlpha {}
impl crate::button::ButtonAttribute for PreserveAlpha {}
impl crate::canvas::CanvasAttribute for PreserveAlpha {}
impl crate::col::ColAttribute for PreserveAlpha {}
impl crate::colgroup::ColGroupAttribute for PreserveAlpha {}
impl crate::data::DataAttribute for PreserveAlpha {}
impl crate::details::DetailsAttribute for PreserveAlpha {}
impl SvgAttribute for PreserveAlpha {}

/// <https://developer.mozilla.org/en-US/docs/Web/SVG/Attribute/preserveAspectRatio>
#[derive(Debug)]
pub struct PreserveAspectRatio(String);

impl PreserveAspectRatio {
    /// Wraps the given value.
    pub fn new(val: String) -> (r: Self)
        ensures
            r.spec_val() == Some(val@),
    {
        PreserveAspectRatio(val)
    }
}

impl Attribute for PreserveAspectRatio {
    open spec fn spec_key(&self) -> Seq<char> {
        "preserveAspectRatio"@
    }

    closed spec fn spec_val(&self) -> Option<Seq<char>> {
        Some(self.0@)
    }

    fn get_key(&self) -> &str {
        "preserveAspectRatio"
    }

    fn get_val(&self) -> Option<&str> {
        Some(self.0.as_str())
    }
}

impl crate::anchor::AnchorAttribute for PreserveAspectRatio {}
impl crate::area::AreaAttribute for PreserveAspectRatio {}
impl crate::audio::AudioAttribute for PreserveAspectRatio {}
impl crate::base::BaseAttribute for PreserveAspectRatio {}
impl crate::blockquote::BlockQuoteAttribute for PreserveAspectRatio {}
impl crate::button::ButtonAttribute for PreserveAspectRatio {}
impl crate::canvas::CanvasAttribute for PreserveAspectRatio {}
impl crate::col::ColAttribute for PreserveAspectRatio {}
impl crate::colgroup::ColGroupAttribute for PreserveAspectRatio {}
impl crate::data::DataAttribute for PreserveAspectRatio {}
impl crate::details::DetailsAttribute for PreserveAspectRatio {}
impl SvgAttribute for PreserveAspectRatio {}

/// <https://developer.mozilla.org/en-US/docs/Web/SVG/Attribute/primitiveUnits>
#[derive(Debug)]
pub struct PrimitiveUnits(String);

impl PrimitiveUnits {
    /// Stores the value's serialization.
    pub fn new(val: NumberOrString) -> (r: Self)
        ensures
            r.spec_val() == Some(val.spec_str()),
    {
        PrimitiveUnits(val.to_string())
    }
}

impl Attribute for PrimitiveUnits {
    open spec fn spec_key(&self) -> Seq<char> {
        "primitiveUnits"@
    }

    closed spec fn spec_val(&self) -> Option<Seq<char>> {
        Some(self.0@)
    }

    fn get_key(&self) -> &str {
        "primitiveUnits"
    }

    fn get_val(&self) -> Option<&str> {
        Some(self.0.as_str())
    }
}

impl crate::anchor::AnchorAttribute for PrimitiveUnits {}
impl crate::area::AreaAttribute for PrimitiveUnits {}
impl crate::audio::AudioAttribute for PrimitiveUnits {}
impl crate::base::BaseAttribute for PrimitiveUnits {}
impl crate::blockquote::BlockQuoteAttribute for PrimitiveUnits {}
impl crate::button::ButtonAttribute for PrimitiveUnits {}
impl crate::canvas::CanvasAttribute for PrimitiveUnits {}
impl crate::col::ColAttribute for PrimitiveUnits {}
impl crate::colgroup::ColGroupAttribute for PrimitiveUnits {}
impl crate::data::DataAttribute for PrimitiveUnits {}
impl crate::details::DetailsAttribute for PrimitiveUnits {}
impl SvgAttribute for PrimitiveUnits {}

/// <https://developer.mozilla.org/en-US/docs/Web/SVG/Attribute/r>
#[derive(Debug)]
pub struct R(String);

impl R {
    /// Stores the value's serialization.
    pub fn new(val: NumberOrString) -> (r: Self)
        ensures
            r.spec_val() == Some(val.spec_str()),
    {
        R(val.to_string())
    }
}

impl Attribute for R {
    open spec fn spec_key(&self) -> Seq<char> {
        "r"@
    }

    closed spec fn spec_val(&self) -> Option<Seq<char>> {
        Some(self.0@)
    }

    fn get_key(&self) -> &str {
        "r"
    }

    fn get_val(&self) -> Option<&str> {
        Some(self.0.as_str())
    }
}

impl crate::anchor::AnchorAttribute for R {}
impl crate::area::AreaAttribute for R {}
impl crate::audio::AudioAttribute for R {}
impl crate::base::BaseAttribute for R {}
impl crate::blockquote::BlockQuoteAttribute for R {}
impl crate::button::ButtonAttribute for R {}
impl crate::canvas::CanvasAttribute for R {}
impl crate::col::ColAttribute for R {}
impl crate::colgroup::ColGroupAttribute for R {}
impl crate::data::DataAttribute for R {}
impl crate::details::DetailsAttribute for R {}
impl SvgAttribute for R {}

/// <https://developer.mozilla.org/en-US/docs/Web/SVG/Attribute/radius>
#[derive(Debug)]
pub struct Radius(String);

impl Radius {
    /// Stores the value's serialization.
    pub fn new(val: NumberOrString) -> (r: Self)
        ensures
            r.spec_val() == Some(val.spec_str()),
    {
        Radius(val.to_string())
    }
}

impl Attribute for Radius {
    open spec fn spec_key(&self) -> Seq<char> {
        "radius"@
    }

    closed spec fn spec_val(&self) -> Option<Seq<char>> {
        Some(self.0@)
    }

    fn get_key(&self) -> &str {
        "radius"
    }

    fn get_val(&self) -> Option<&str> {
        Some(self.0.as_str())
    }
}

impl crate::anchor::AnchorAttribute for Radius {}
impl crate::area::AreaAttribute for Radius {}
impl crate::audio::AudioAttribute for Radius {}
impl crate::base::BaseAttribute for Radius {}
impl crate::blockquote::BlockQuoteAttribute for Radius {}
impl crate::button::ButtonAttribute for Radius {}
impl crate::canvas::CanvasAttribute for Radius {}
impl crate::col::ColAttribute for Radius {}
impl crate::colgroup::ColGroupAttribute for Radius {}
impl crate::data::DataAttribute for Radius {}
impl crate::details::DetailsAttribute for Radius {}
impl SvgAttribute for Radius {}

/// <https://developer.mozilla.org/en-US/docs/Web/SVG/Attribute/refX>
#[derive(Debug)]
pub struct RefX(String);

impl RefX {
    /// Stores the value's serialization.
    pub fn new(val: NumberOrString) -> (r: Self)
        ensures
            r.spec_val() == Some(val.spec_str()),
    {
        RefX(val.to_string())
    }
}

impl Attribute for RefX {
    open spec fn spec_key(&self) -> Seq<char> {
        "refX"@
    }

    closed spec fn spec_val(&self) -> Option<Seq<char>> {
        Some(self.0@)
    }

    fn get_key(&self) -> &str {
        "refX"
    }

    fn get_val(&self) -> Option<&str> {
        Some(self.0.as_str())
    }
}

impl crate::anchor::AnchorAttribute for RefX {}
impl crate::area::AreaAttribute for RefX {}
impl crate::audio::AudioAttribute for RefX {}
impl crate::base::BaseAttribute for RefX {}
impl crate::blockquote::BlockQuoteAttribute for RefX {}
impl crate::button::ButtonAttribute for RefX {}
impl crate::canvas::CanvasAttribute for RefX {}
impl crate::col::ColAttribute for RefX {}
impl crate::colgroup::ColGroupAttribute for RefX {}
impl crate::data::DataAttribute for RefX {}
impl crate::details::DetailsAttribute for RefX {}
impl SvgAttribute for RefX {}

/// <https://developer.mozilla.org/en-US/docs/Web/SVG/Attribute/refY>
#[derive(Debug)]
pub struct RefY(String);

impl RefY {
    /// Stores the value's serialization.
    pub fn new(val: NumberOrString) -> (r: Self)
        ensures
            r.spec_val() == Some(val.spec_str()),
    {
        RefY(val.to_string())
    }
}

impl Attribute for RefY {
    open spec fn spec_key(&self) -> Seq<char> {
        "refY"@
    }

    closed spec fn spec_val(&self) -> Option<Seq<char>> {
        Some(self.0@)
    }

    fn get_key(&self) -> &str {
        "refY"
    }

    fn get_val(&self) -> Option<&str> {
        Some(self.0.as_str())
    }
}

impl crate::anchor::AnchorAttribute for RefY {}
impl crate::area::AreaAttribute for RefY {}
impl crate::audio::AudioAttribute for RefY {}
impl crate::base::BaseAttribute for RefY {}
impl crate::blockquote::BlockQuoteAttribute for RefY {}
impl crate::button::ButtonAttribute for RefY {}
impl crate::canvas::CanvasAttribute for RefY {}
impl crate::col::ColAttribute for RefY {}
impl crate::colgroup::ColGroupAttribute for RefY {}
impl crate::data::DataAttribute for RefY {}
impl crate::details::DetailsAttribute for RefY {}
impl SvgAttribute for RefY {}

/// <https://developer.mozilla.org/en-US/docs/Web/SVG/Attribute/rendering-intent>
#[derive(Debug)]
pub struct RenderingIntent(String);

impl RenderingIntent {
    /// Stores the value's serialization.
    pub fn new(val: NumberOrString) -> (r: Self)
        ensures
            r.spec_val() == Some(val.spec_str()),
    {
        RenderingIntent(val.to_string())
    }
}

impl Attribute for RenderingIntent {
    open spec fn spec_key(&self) -> Seq<char> {
        "rendering-intent"@
    }

    closed spec fn spec_val(&self) -> Option<Seq<char>> {
        Some(self.0@)
    }

    fn get_key(&self) -> &str {
        "rendering-intent"
    }

    fn get_val(&self) -> Option<&str> {
        Some(self.0.as_str())
    }
}

impl crate::anchor::AnchorAttribute for RenderingIntent {}
impl crate::area::AreaAttribute for RenderingIntent {}
impl crate::audio::AudioAttribute for RenderingIntent {}
impl crate::base::BaseAttribute for RenderingIntent {}
impl crate::blockquote::BlockQuoteAttribute for RenderingIntent {}
impl crate::button::ButtonAttribute for RenderingIntent {}
impl crate::canvas::CanvasAttribute for RenderingIntent {}
impl crate::col::ColAttribute for RenderingIntent {}
impl crate::colgroup::ColGroupAttribute for RenderingIntent {}
impl crate::data::DataAttribute for RenderingIntent {}
impl crate::details::DetailsAttribute for RenderingIntent {}
impl SvgAttribute for RenderingIntent {}

/// <https://developer.mozilla.org/en-US/docs/Web/SVG/Attribute/repeatCount>
#[derive(Debug)]
pub struct RepeatCount(String);

impl RepeatCount {
    /// Stores the value's serialization.
    pub fn new(val: NumberOrString) -> (r: Self)
        ensures
            r.spec_val() == Some(val.spec_str()),
    {
        RepeatCount(val.to_string())
    }
}

impl Attribute for RepeatCount {
    open spec fn spec_key(&self) -> Seq<char> {
        "repeatCount"@
    }

    closed spec fn spec_val(&self) -> Option<Seq<char>> {
        Some(self.0@)
    }

    fn get_key(&self) -> &str {
        "repeatCount"
    }

    fn get_val(&self) -> Option<&str> {
        Some(self.0.as_str())
    }
}

impl crate::anchor::AnchorAttribute for RepeatCount {}
impl crate::area::AreaAttribute for RepeatCount {}
impl crate::audio::AudioAttribute for RepeatCount {}
impl crate::base::BaseAttribute for RepeatCount {}
impl crate::blockquote::BlockQuoteAttribute for RepeatCount {}
impl crate::button::ButtonAttribute for RepeatCount {}
impl crate::canvas::CanvasAttribute for RepeatCount {}
impl crate::col::ColAttribute for RepeatCount {}
impl crate::colgroup::ColGroupAttribute for RepeatCount {}
impl crate::data::DataAttribute for RepeatCount {}
impl crate::details::DetailsAttribute for RepeatCount {}
impl SvgAttribute for RepeatCount {}

/// <https://developer.mozilla.org/en-US/docs/Web/SVG/Attribute/repeatDur>
#[derive(Debug)]
pub struct RepeatDur(String);

impl RepeatDur {
    /// Stores the value's serialization.
    pub fn new(val: NumberOrString) -> (r: Self)
        ensures
            r.spec_val() == Some(val.spec_str()),
    {
        RepeatDur(val.to_string())
    }
}

impl Attribute for RepeatDur {
    open spec fn spec_key(&self) -> Seq<char> {
        "repeatDur"@
    }

    closed spec fn spec_val(&self) -> Option<Seq<char>> {
        Some(self.0@)
    }

    fn get_key(&self) -> &str {
        "repeatDur"
    }

    fn get_val(&self) -> Option<&str> {
        Some(self.0.as_str())
    }
}

impl crate::anchor::AnchorAttribute for RepeatDur {}
impl crate::area::AreaAttribute for RepeatDur {}
impl crate::audio::AudioAttribute for RepeatDur {}
impl crate::base::BaseAttribute for RepeatDur {}
impl crate::blockquote::BlockQuoteAttribute for RepeatDur {}
impl crate::button::ButtonAttribute for RepeatDur {}
impl crate::canvas::CanvasAttribute for RepeatDur {}
impl crate::col::ColAttribute for RepeatDur {}
impl crate::colgroup::ColGroupAttribute for RepeatDur {}
impl crate::data::DataAttribute for RepeatDur {}
impl crate::details::DetailsAttribute for RepeatDur {}
impl SvgAttribute for RepeatDur {}

/// <https://developer.mozilla.org/en-US/docs/Web/SVG/Attribute/requiredExtensions>
#[derive(Debug)]
pub struct RequiredExtensions(String);

impl RequiredExtensions {
    /// Stores the value's serialization.
    pub fn new(val: NumberOrString) -> (r: Self)
        ensures
            r.spec_val() == Some(val.spec_str()),
    {
        RequiredExtensions(val.to_string())
    }
}

impl Attribute for RequiredExtensions {
    open spec fn spec_key(&self) -> Seq<char> {
        "requiredExtensions"@
    }

    closed spec fn spec_val(&self) -> Option<Seq<char>> {
        Some(self.0@)
    }

    fn get_key(&self) -> &str {
        "requiredExtensions"
    }

    fn get_val(&self) -> Option<&str> {
        Some(self.0.as_str())
    }
}

impl crate::anchor::AnchorAttribute for RequiredExtensions {}
impl crate::area::AreaAttribute for RequiredExtensions {}
impl crate::audio::AudioAttribute for RequiredExtensions {}
impl crate::base::BaseAttribute for RequiredExtensions {}
impl crate::blockquote::BlockQuoteAttribute for RequiredExtensions {}
impl crate::button::ButtonAttribute for RequiredExtensions {}
impl crate::canvas::CanvasAttribute for RequiredExtensions {}
impl crate::col::ColAttribute for RequiredExtensions {}
impl crate::colgroup::ColGroupAttribute for RequiredExtensions {}
impl crate::data::DataAttribute for RequiredExtensions {}
impl crate::details::DetailsAttribute for RequiredExtensions {}
impl SvgAttribute for RequiredExtensions {}

/// <https://developer.mozilla.org/en-US/docs/Web/SVG/Attribute/requiredFeatures>
#[derive(Debug)]
pub struct RequiredFeatures(String);

impl RequiredFeatures {
    /// Stores the value's serialization.
    pub fn new(val: NumberOrString) -> (r: Self)
        ensures
            r.spec_val() == Some(val.spec_str()),
    {
        RequiredFeatures(val.to_string())
    }
}

impl Attribute for RequiredFeatures {
    open spec fn spec_key(&self) -> Seq<char> {
        "requiredFeatures"@
    }

    closed spec fn spec_val(&self) -> Option<Seq<char>> {
        Some(self.0@)
    }

    fn get_key(&self) -> &str {
        "requiredFeatures"
    }

    fn get_val(&self) -> Option<&str> {
        Some(self.0.as_str())
    }
}

impl crate::anchor::AnchorAttribute for RequiredFeatures {}
impl crate::area::AreaAttribute for RequiredFeatures {}
impl crate::audio::AudioAttribute for RequiredFeatures {}
impl crate::base::BaseAttribute for RequiredFeatures {}
impl crate::blockquote::BlockQuoteAttribute for RequiredFeatures {}
impl crate::button::ButtonAttribute for RequiredFeatures {}
impl crate::canvas::CanvasAttribute for RequiredFeatures {}
impl crate::col::ColAttribute for RequiredFeatures {}
impl crate::colgroup::ColGroupAttribute for RequiredFeatures {}
impl crate::data::DataAttribute for RequiredFeatures {}
impl crate::details::DetailsAttribute for RequiredFeatures {}
impl SvgAttribute for RequiredFeatures {}

/// <https://developer.mozilla.org/en-US/docs/Web/SVG/Attribute/restart>
#[derive(Debug)]
pub struct Restart(String);

impl Restart {
    /// Stores the value's serialization.
    pub fn new(val: NumberOrString) -> (r: Self)
        ensures
            r.spec_val() == Some(val.spec_str()),
    {
        Restart(val.to_string())
    }
}

impl Attribute for Restart {
    open spec fn spec_key(&self) -> Seq<char> {
        "restart"@
    }

    closed spec fn spec_val(&self) -> Option<Seq<char>> {
        Some(self.0@)
    }

    fn get_key(&self) -> &str {
        "restart"
    }

    fn get_val(&self) -> Option<&str> {
        Some(self.0.as_str())
    }
}

impl crate::anchor::AnchorAttribute for Restart {}
impl crate::area::AreaAttribute for Restart {}
impl crate::audio::AudioAttribute for Restart {}
impl crate::base::BaseAttribute for Restart {}
impl crate::blockquote::BlockQuoteAttribute for Restart {}
impl crate::button::ButtonAttribute for Restart {}
impl crate::canvas::CanvasAttribute for Restart {}
impl crate::col::ColAttribute for Restart {}
impl crate::colgroup::ColGroupAttribute for Restart {}
impl crate::data::DataAttribute for Restart {}
impl crate::details::DetailsAttribute for Restart {}
impl SvgAttribute for Restart {}

/// <https://developer.mozilla.org/en-US/docs/Web/SVG/Attribute/result>
#[derive(Debug)]
pub struct Result(String);

impl Result {
    /// Wraps the given value.
    pub fn new(val: String) -> (r: Self)
        ensures
            r.spec_val() == Some(val@),
    {
        Result(val)
    }
}

impl Attribute for Result {
    open spec fn spec_key(&self) -> Seq<char> {
        "result"@
    }

    closed spec fn spec_val(&self) -> Option<Seq<char>> {
        Some(self.0@)
    }

    fn get_key(&self) -> &str {
        "result"
    }

    fn get_val(&self) -> Option<&str> {
        Some(self.0.as_str())
    }
}

impl crate::anchor::AnchorAttribute for Result {}
impl crate::area::AreaAttribute for Result {}
impl crate::audio::AudioAttribute for Result {}
impl crate::base::BaseAttribute for Result {}
impl crate::blockquote::BlockQuoteAttribute for Result {}
impl crate::button::ButtonAttribute for Result {}
impl crate::canvas::CanvasAttribute for Result {}
impl crate::col::ColAttribute for Result {}
impl crate::colgroup::ColGroupAttribute for Result {}
impl crate::data::DataAttribute for Result {}
impl crate::details::DetailsAttribute for Result {}
impl SvgAttribute for Result {}

/// <https://developer.mozilla.org/en-US/docs/Web/SVG/Attribute/rotate>
#[derive(Debug)]
pub struct Rotate(String);

impl Rotate {
    /// Stores the value's serialization.
    pub fn new(val: NumberOrString) -> (r: Self)
        ensures
            r.spec_val() == Some(val.spec_str()),
    {
        Rotate(val.to_string())
    }
}

impl Attribute for Rotate {
    open spec fn spec_key(&self) -> Seq<char> {
        "rotate"@
    }

    closed spec fn spec_val(&self) -> Option<Seq<char>> {
        Some(self.0@)
    }

    fn get_key(&self) -> &str {
        "rotate"
    }

    fn get_val(&self) -> Option<&str> {
        Some(self.0.as_str())
    }
}

impl crate::anchor::AnchorAttribute for Rotate {}
impl crate::area::AreaAttribute for Rotate {}
impl crate::audio::AudioAttribute for Rotate {}
impl crate::base::BaseAttribute for Rotate {}
impl crate::blockquote::BlockQuoteAttribute for Rotate {}
impl crate::button::ButtonAttribute for Rotate {}
impl crate::canvas::CanvasAttribute for Rotate {}
impl crate::col::ColAttribute for Rotate {}
impl crate::colgroup::ColGroupAttribute for Rotate {}
impl crate::data::DataAttribute for Rotate {}
impl crate::details::DetailsAttribute for Rotate {}
impl SvgAttribute for Rotate {}

/// <https://developer.mozilla.org/en-US/docs/Web/SVG/Attribute/rx>
#[derive(Debug)]
pub struct Rx(String);

impl Rx {
    /// Stores the value's serialization.
    pub fn new(val: NumberOrString) -> (r: Self)
        ensures
            r.spec_val() == Some(val.spec_str()),
    {
        Rx(val.to_string())
    }
}

impl Attribute for Rx {
    open spec fn spec_key(&self) -> Seq<char> {
        "rx"@
    }

    closed spec fn spec_val(&self) -> Option<Seq<char>> {
        Some(self.0@)
    }

    fn get_key(&self) -> &str {
        "rx"
    }

    fn get_val(&self) -> Option<&str> {
        Some(self.0.as_str())
    }
}

impl crate::anchor::AnchorAttribute for Rx {}
impl crate::area::AreaAttribute for Rx {}
impl crate::audio::AudioAttribute for Rx {}
impl crate::base::BaseAttribute for Rx {}
impl crate::blockquote::BlockQuoteAttribute for Rx {}
impl crate::button::ButtonAttribute for Rx {}
impl crate::canvas::CanvasAttribute for Rx {}
impl crate::col::ColAttribute for Rx {}
impl crate::colgroup::ColGroupAttribute for Rx {}
impl crate::data::DataAttribute for Rx {}
impl crate::details::DetailsAttribute for Rx {}
impl SvgAttribute for Rx {}

/// <https://developer.mozilla.org/en-US/docs/Web/SVG/Attribute/ry>
#[derive(Debug)]
pub struct Ry(String);

impl Ry {
    /// Stores the value's serialization.
    pub fn new(val: NumberOrString) -> (r: Self)
        ensures
            r.spec_val() == Some(val.spec_str()),
    {
        Ry(val.to_string())
    }
}

impl Attribute for Ry {
    open spec fn spec_key(&self) -> Seq<char> {
        "ry"@
    }

    closed spec fn spec_val(&self) -> Option<Seq<char>> {
        Some(self.0@)
    }

    fn get_key(&self) -> &str {
        "ry"
    }

    fn get_val(&self) -> Option<&str> {
        Some(self.0.as_str())
    }
}

impl crate::anchor::AnchorAttribute for Ry {}
impl crate::area::AreaAttribute for Ry {}
impl crate::audio::AudioAttribute for Ry {}
impl crate::base::BaseAttribute for Ry {}
impl crate::blockquote::BlockQuoteAttribute for Ry {}
impl crate::button::ButtonAttribute for Ry {}
impl crate::canvas::CanvasAttribute for Ry {}
impl crate::col::ColAttribute for Ry {}
impl crate::colgroup::ColGroupAttribute for Ry {}
impl crate::data::DataAttribute for Ry {}
impl crate::details::DetailsAttribute for Ry {}
impl SvgAttribute for Ry {}

/// <https://developer.mozilla.org/en-US/docs/Web/SVG/Attribute/scale>
#[derive(Debug)]
pub struct Scale(String);

impl Scale {
    /// Stores the value's serialization.
    pub fn new(val: NumberOrString) -> (r: Self)
        ensures
            r.spec_val() == Some(val.spec_str()),
    {
        Scale(val.to_string())
    }
}

impl Attribute for Scale {
    open spec fn spec_key(&self) -> Seq<char> {
        "scale"@
    }

    closed spec fn spec_val(&self) -> Option<Seq<char>> {
        Some(self.0@)
    }

    fn get_key(&self) -> &str {
        "scale"
    }

    fn get_val(&self) -> Option<&str> {
        Some(self.0.as_str())
    }
}

impl crate::anchor::AnchorAttribute for Scale {}
impl crate::area::AreaAttribute for Scale {}
impl crate::audio::AudioAttribute for Scale {}
impl crate::base::BaseAttribute for Scale {}
impl crate::blockquote::BlockQuoteAttribute for Scale {}
impl crate::button::ButtonAttribute for Scale {}
impl crate::canvas::CanvasAttribute for Scale {}
impl crate::col::ColAttribute for Scale {}
impl crate::colgroup::ColGroupAttribute for Scale {}
impl crate::data::DataAttribute for Scale {}
impl crate::details::DetailsAttribute for Scale {}
impl SvgAttribute for Scale {}

/// <https://developer.mozilla.org/en-US/docs/Web/SVG/Attribute/seed>
#[derive(Debug)]
pub struct Seed(String);

impl Seed {
    /// Stores the value's serialization.
    pub fn new(val: NumberOrString) -> (r: Self)
        ensures
            r.spec_val() == Some(val.spec_str()),
    {
        Seed(val.to_string())
    }
}

impl Attribute for Seed {
    open spec fn spec_key(&self) -> Seq<char> {
        "seed"@
    }

    closed spec fn spec_val(&self) -> Option<Seq<char>> {
        Some(self.0@)
    }

    fn get_key(&self) -> &str {
        "seed"
    }

    fn get_val(&self) -> Option<&str> {
        Some(self.0.as_str())
    }
}

impl crate::anchor::AnchorAttribute for Seed {}
impl crate::area::AreaAttribute for Seed {}
impl crate::audio::AudioAttribute for Seed {}
impl crate::base::BaseAttribute for Seed {}
impl crate::blockquote::BlockQuoteAttribute for Seed {}
impl crate::button::ButtonAttribute for Seed {}
impl crate::canvas::CanvasAttribute for Seed {}
impl crate::col::ColAttribute for Seed {}
impl crate::colgroup::ColGroupAttribute for Seed {}
impl crate::data::DataAttribute for Seed {}
impl crate::details::DetailsAttribute for Seed {}
impl SvgAttribute for Seed {}

/// <https://developer.mozilla.org/en-US/docs/Web/SVG/Attribute/shape-rendering>
#[derive(Debug)]
pub struct ShapeRendering(String);

impl ShapeRendering {
    /// Stores the value's serialization.
    pub fn new(val: NumberOrString) -> (r: Self)
        ensures
            r.spec_val() == Some(val.spec_str()),
    {
        ShapeRendering(val.to_string())
    }
}

impl Attribute for ShapeRendering {
    open spec fn spec_key(&self) -> Seq<char> {
        "shape-rendering"@
    }

    closed spec fn spec_val(&self) -> Option<Seq<char>> {
        Some(self.0@)
    }

    fn get_key(&self) -> &str {
        "shape-rendering"
    }

    fn get_val(&self) -> Option<&str> {
        Some(self.0.as_str())
    }
}

impl crate::anchor::AnchorAttribute for ShapeRendering {}
impl crate::area::AreaAttribute for ShapeRendering {}
impl crate::audio::AudioAttribute for ShapeRendering {}
impl crate::base::BaseAttribute for ShapeRendering {}
impl crate::blockquote::BlockQuoteAttribute for ShapeRendering {}
impl crate::button::ButtonAttribute for ShapeRendering {}
impl crate::canvas::CanvasAttribute for ShapeRendering {}
impl crate::col::ColAttribute for ShapeRendering {}
impl crate::colgroup::ColGroupAttribute for ShapeRendering {}
impl crate::data::DataAttribute for ShapeRendering {}
impl crate::details::DetailsAttribute for ShapeRendering {}
impl SvgAttribute for ShapeRendering {}

/// <https://developer.mozilla.org/en-US/docs/Web/SVG/Attribute/slope>
#[derive(Debug)]
pub struct Slope(String);

impl Slope {
    /// Stores the value's serialization.
    pub fn new(val: NumberOrString) -> (r: Self)
        ensures
            r.spec_val() == Some(val.spec_str()),
    {
        Slope(val.to_string())
    }
}

impl Attribute for Slope {
    open spec fn spec_key(&self) -> Seq<char> {
        "slope"@
    }

    closed spec fn spec_val(&self) -> Option<Seq<char>> {
        Some(self.0@)
    }

    fn get_key(&self) -> &str {
        "slope"
    }

    fn get_val(&self) -> Option<&str> {
        Some(self.0.as_str())
    }
}

impl crate::anchor::AnchorAttribute for Slope {}
impl crate::area::AreaAttribute for Slope {}
impl crate::audio::AudioAttribute for Slope {}
impl crate::base::BaseAttribute for Slope {}
impl crate::blockquote::BlockQuoteAttribute for Slope {}
impl crate::button::ButtonAttribute for Slope {}
impl crate::canvas::CanvasAttribute for Slope {}
impl crate::col::ColAttribute for Slope {}
impl crate::colgroup::ColGroupAttribute for Slope {}
impl crate::data::DataAttribute for Slope {}
impl crate::details::DetailsAttribute for Slope {}
impl SvgAttribute for Slope {}

/// <https://developer.mozilla.org/en-US/docs/Web/SVG/Attribute/spacing>
#[derive(Debug)]
pub struct Spacing(String);

impl Spacing {
    /// Stores the value's serialization.
    pub fn new(val: NumberOrString) -> (r: Self)
        ensures
            r.spec_val() == Some(val.spec_str()),
    {
        Spacing(val.to_string())
    }
}

impl Attribute for Spacing {
    open spec fn spec_key(&self) -> Seq<char> {
        "spacing"@
    }

    closed spec fn spec_val(&self) -> Option<Seq<char>> {
        Some(self.0@)
    }

    fn get_key(&self) -> &str {
        "spacing"
    }

    fn get_val(&self) -> Option<&str> {
        Some(self.0.as_str())
    }
}

impl crate::anchor::AnchorAttribute for Spacing {}
impl crate::area::AreaAttribute for Spacing {}
impl crate::audio::AudioAttribute for Spacing {}
impl crate::base::BaseAttribute for Spacing {}
impl crate::blockquote::BlockQuoteAttribute for Spacing {}
impl crate::button::ButtonAttribute for Spacing {}
impl crate::canvas::CanvasAttribute for Spacing {}
impl crate::col::ColAttribute for Spacing {}
impl crate::colgroup::ColGroupAttribute for Spacing {}
impl crate::data::DataAttribute for Spacing {}
impl crate::details::DetailsAttribute for Spacing {}
impl SvgAttribute for Spacing {}

/// <https://developer.mozilla.org/en-US/docs/Web/SVG/Attribute/specularConstant>
#[derive(Debug)]
pub struct SpecularConstant(String);

impl SpecularConstant {
    /// Stores the value's serialization.
    pub fn new(val: NumberOrString) -> (r: Self)
        ensures
            r.spec_val() == Some(val.spec_str()),
    {
        SpecularConstant(val.to_string())
    }
}

impl Attribute for SpecularConstant {
    open spec fn spec_key(&self) -> Seq<char> {
        "specularConstant"@
    }

    closed spec fn spec_val(&self) -> Option<Seq<char>> {
        Some(self.0@)
    }

    fn get_key(&self) -> &str {
        "specularConstant"
    }

    fn get_val(&self) -> Option<&str> {
        Some(self.0.as_str())
    }
}

impl crate::anchor::AnchorAttribute for SpecularConstant {}
impl crate::area::AreaAttribute for SpecularConstant {}
impl crate::audio::AudioAttribute for SpecularConstant {}
impl crate::base::BaseAttribute for SpecularConstant {}
impl crate::blockquote::BlockQuoteAttribute for SpecularConstant {}
impl crate::button::ButtonAttribute for SpecularConstant {}
impl crate::canvas::CanvasAttribute for SpecularConstant {}
impl crate::col::ColAttribute for SpecularConstant {}
impl crate::colgroup::ColGroupAttribute for SpecularConstant {}
impl crate::data::DataAttribute for SpecularConstant {}
impl crate::details::DetailsAttribute for SpecularConstant {}
impl SvgAttribute for SpecularConstant {}

/// <https://developer.mozilla.org/en-US/docs/Web/SVG/Attribute/specularExponent>
#[derive(Debug)]
pub struct SpecularExponent(String);

impl SpecularExponent {
    /// Stores the value's serialization.
    pub fn new(val: NumberOrString) -> (r: Self)
        ensures
            r.spec_val() == Some(val.spec_str()),
    {
        SpecularExponent(val.to_string())
    }
}

impl Attribute for SpecularExponent {
    open spec fn spec_key(&self) -> Seq<char> {
        "specularExponent"@
    }

    closed spec fn spec_val(&self) -> Option<Seq<char>> {
        Some(self.0@)
    }

    fn get_key(&self) -> &str {
        "specularExponent"
    }

    fn get_val(&self) -> Option<&str> {
        Some(self.0.as_str())
    }
}

impl crate::anchor::AnchorAttribute for SpecularExponent {}
impl crate::area::AreaAttribute for SpecularExponent {}
impl crate::audio::AudioAttribute for SpecularExponent {}
impl crate::base::BaseAttribute for SpecularExponent {}
impl crate::blockquote::BlockQuoteAttribute for SpecularExponent {}
impl crate::button::ButtonAttribute for SpecularExponent {}
impl crate::canvas::CanvasAttribute for SpecularExponent {}
impl crate::col::ColAttribute for SpecularExponent {}
impl crate::colgroup::ColGroupAttribute for SpecularExponent {}
impl crate::data::DataAttribute for SpecularExponent {}
impl crate::details::DetailsAttribute for SpecularExponent {}
impl SvgAttribute for SpecularExponent {}

/// <https://developer.mozilla.org/en-US/docs/Web/SVG/Attribute/speed>
#[derive(Debug)]
pub struct Speed(String);

impl Speed {
    /// Stores the value's serialization.
    pub fn new(val: NumberOrString) -> (r: Self)
        ensures
            r.spec_val() == Some(val.spec_str()),
    {
        Speed(val.to_string())
    }
}

impl Attribute for Speed {
    open spec fn spec_key(&self) -> Seq<char> {
        "speed"@
    }

    closed spec fn spec_val(&self) -> Option<Seq<char>> {
        Some(self.0@)
    }

    fn get_key(&self) -> &str {
        "speed"
    }

    fn get_val(&self) -> Option<&str> {
        Some(self.0.as_str())
    }
}

impl crate::anchor::AnchorAttribute for Speed {}
impl crate::area::AreaAttribute for Speed {}
impl crate::audio::AudioAttribute for Speed {}
impl crate::base::BaseAttribute for Speed {}
impl crate::blockquote::BlockQuoteAttribute for Speed {}
impl crate::button::ButtonAttribute for Speed {}
impl crate::canvas::CanvasAttribute for Speed {}
impl crate::col::ColAttribute for Speed {}
impl crate::colgroup::ColGroupAttribute for Speed {}
impl crate::data::DataAttribute for Speed {}
impl crate::details::DetailsAttribute for Speed {}
impl SvgAttribute for Speed {}

/// <https://developer.mozilla.org/en-US/docs/Web/SVG/Attribute/spreadMethod>
#[derive(Debug)]
pub struct SpreadMethod(String);

impl SpreadMethod {
    /// Wraps the given value.
    pub fn new(val: String) -> (r: Self)
        ensures
            r.spec_val() == Some(val@),
    {
        SpreadMethod(val)
    }
}

impl Attribute for SpreadMethod {
    open spec fn spec_key(&self) -> Seq<char> {
        "spreadMethod"@
    }

    closed spec fn spec_val(&self) -> Option<Seq<char>> {
        Some(self.0@)
    }

    fn get_key(&self) -> &str {
        "spreadMethod"
    }

    fn get_val(&self) -> Option<&str> {
        Some(self.0.as_str())
    }
}

impl crate::anchor::AnchorAttribute for SpreadMethod {}
impl crate::area::AreaAttribute for SpreadMethod {}
impl crate::audio::AudioAttribute for SpreadMethod {}
impl crate::base::BaseAttribute for SpreadMethod {}
impl crate::blockquote::BlockQuoteAttribute for SpreadMethod {}
impl crate::button::ButtonAttribute for SpreadMethod {}
impl crate::canvas::CanvasAttribute for SpreadMethod {}
impl crate::col::ColAttribute for SpreadMethod {}
impl crate::colgroup::ColGroupAttribute for SpreadMethod {}
impl crate::data::DataAttribute for SpreadMethod {}
impl crate::details::DetailsAttribute for SpreadMethod {}
impl SvgAttribute for SpreadMethod {}

/// <https://developer.mozilla.org/en-US/docs/Web/SVG/Attribute/startOffset>
#[derive(Debug)]
pub struct StartOffset(String);

impl StartOffset {
    /// Stores the value's serialization.
    pub fn new(val: NumberOrString) -> (r: Self)
        ensures
            r.spec_val() == Some(val.spec_str()),
    {
        StartOffset(val.to_string())
    }
}

impl Attribute for StartOffset {
    open spec fn spec_key(&self) -> Seq<char> {
        "startOffset"@
    }

    closed spec fn spec_val(&self) -> Option<Seq<char>> {
        Some(self.0@)
    }

    fn get_key(&self) -> &str {
        "startOffset"
    }

    fn get_val(&self) -> Option<&str> {
        Some(self.0.as_str())
    }
}

impl crate::anchor::AnchorAttribute for StartOffset {}
impl crate::area::AreaAttribute for StartOffset {}
impl crate::audio::AudioAttribute for StartOffset {}
impl crate::base::BaseAttribute for StartOffset {}
impl crate::blockquote::BlockQuoteAttribute for StartOffset {}
impl crate::button::ButtonAttribute for StartOffset {}
impl crate::canvas::CanvasAttribute for StartOffset {}
impl crate::col::ColAttribute for StartOffset {}
impl crate::colgroup::ColGroupAttribute for StartOffset {}
impl crate::data::DataAttribute for StartOffset {}
impl crate::details::DetailsAttribute for StartOffset {}
impl SvgAttribute for StartOffset {}

/// <https://developer.mozilla.org/en-US/docs/Web/SVG/Attribute/stdDeviation>
#[derive(Debug)]
pub struct StdDeviation(String);

impl StdDeviation {
    /// Stores the value's serialization.
    pub fn new(val: NumberOrString) -> (r: Self)
        ensures
            r.spec_val() == Some(val.spec_str()),
    {
        StdDeviation(val.to_string())
    }
}

impl Attribute for StdDeviation {
    open spec fn spec_key(&self) -> Seq<char> {
        "stdDeviation"@
    }

    closed spec fn spec_val(&self) -> Option<Seq<char>> {
        Some(self.0@)
    }

    fn get_key(&self) -> &str {
        "stdDeviation"
    }

    fn get_val(&self) -> Option<&str> {
        Some(self.0.as_str())
    }
}

impl crate::anchor::AnchorAttribute for StdDeviation {}
impl crate::area::AreaAttribute for StdDeviation {}
impl crate::audio::AudioAttribute for StdDeviation {}
impl crate::base::BaseAttribute for StdDeviation {}
impl crate::blockquote::BlockQuoteAttribute for StdDeviation {}
impl crate::button::ButtonAttribute for StdDeviation {}
impl crate::canvas::CanvasAttribute for StdDeviation {}
impl crate::col::ColAttribute for StdDeviation {}
impl crate::colgroup::ColGroupAttribute for StdDeviation {}
impl crate::data::DataAttribute for StdDeviation {}
impl crate::details::DetailsAttribute for StdDeviation {}
impl SvgAttribute for StdDeviation {}

/// <https://developer.mozilla.org/en-US/docs/Web/SVG/Attribute/stemh>
#[derive(Debug)]
pub struct Stemh(String);

impl Stemh {
    /// Stores the value's serialization.
    pub fn new(val: NumberOrString) -> (r: Self)
        ensures
            r.spec_val() == Some(val.spec_str()),
    {
        Stemh(val.to_string())
    }
}

impl Attribute for Stemh {
    open spec fn spec_key(&self) -> Seq<char> {
        "stemh"@
    }

    closed spec fn spec_val(&self) -> Option<Seq<char>> {
        Some(self.0@)
    }

    fn get_key(&self) -> &str {
        "stemh"
    }

    fn get_val(&self) -> Option<&str> {
        Some(self.0.as_str())
    }
}

impl crate::anchor::AnchorAttribute for Stemh {}
impl crate::area::AreaAttribute for Stemh {}
impl crate::audio::AudioAttribute for Stemh {}
impl crate::base::BaseAttribute for Stemh {}
impl crate::blockquote::BlockQuoteAttribute for Stemh {}
impl crate::button::ButtonAttribute for Stemh {}
impl crate::canvas::CanvasAttribute for Stemh {}
impl crate::col::ColAttribute for Stemh {}
impl crate::colgroup::ColGroupAttribute for Stemh {}
impl crate::data::DataAttribute for Stemh {}
impl crate::details::DetailsAttribute for Stemh {}
impl SvgAttribute for Stemh {}

/// <https://developer.mozilla.org/en-US/docs/Web/SVG/Attribute/stemv>
#[derive(Debug)]
pub struct Stemv(String);

impl Stemv {
    /// Stores the value's serialization.
    pub fn new(val: NumberOrString) -> (r: Self)
        ensures
            r.spec_val() == Some(val.spec_str()),
    {
        Stemv(val.to_string())
    }
}

impl Attribute for Stemv {
    open spec fn spec_key(&self) -> Seq<char> {
        "stemv"@
    }

    closed spec fn spec_val(&self) -> Option<Seq<char>> {
        Some(self.0@)
    }

    fn get_key(&self) -> &str {
        "stemv"
    }

    fn get_val(&self) -> Option<&str> {
        Some(self.0.as_str())
    }
}

impl crate::anchor::AnchorAttribute for Stemv {}
impl crate::area::AreaAttribute for Stemv {}
impl crate::audio::AudioAttribute for Stemv {}
impl crate::base::BaseAttribute for Stemv {}
impl crate::blockquote::BlockQuoteAttribute for Stemv {}
impl crate::button::ButtonAttribute for Stemv {}
impl crate::canvas::CanvasAttribute for Stemv {}
impl crate::col::ColAttribute for Stemv {}
impl crate::colgroup::ColGroupAttribute for Stemv {}
impl crate::data::DataAttribute for Stemv {}
impl crate::details::DetailsAttribute for Stemv {}
impl SvgAttribute for Stemv {}

/// <https://developer.mozilla.org/en-US/docs/Web/SVG/Attribute/stitchTiles>
#[derive(Debug)]
pub struct StitchTiles(String);

impl StitchTiles {
    /// Stores the value's serialization.
    pub fn new(val: NumberOrString) -> (r: Self)
        ensures
            r.spec_val() == Some(val.spec_str()),
    {
        StitchTiles(val.to_string())
    }
}

impl Attribute for StitchTiles {
    open spec fn spec_key(&self) -> Seq<char> {
        "stitchTiles"@
    }

    closed spec fn spec_val(&self) -> Option<Seq<char>> {
        Some(self.0@)
    }

    fn get_key(&self) -> &str {
        "stitchTiles"
    }

    fn get_val(&self) -> Option<&str> {
        Some(self.0.as_str())
    }
}

impl crate::anchor::AnchorAttribute for StitchTiles {}
impl crate::area::AreaAttribute for StitchTiles {}
impl crate::audio::AudioAttribute for StitchTiles {}
impl crate::base::BaseAttribute for StitchTiles {}
impl crate::blockquote::BlockQuoteAttribute for StitchTiles {}
impl crate::button::ButtonAttribute for StitchTiles {}
impl crate::canvas::CanvasAttribute for StitchTiles {}
impl crate::col::ColAttribute for StitchTiles {}
impl crate::colgroup::ColGroupAttribute for StitchTiles {}
impl crate::data::DataAttribute for StitchTiles {}
impl crate::details::DetailsAttribute for StitchTiles {}
impl SvgAttribute for StitchTiles {}

/// <https://developer.mozilla.org/en-US/docs/Web/SVG/Attribute/stop-color>
#[derive(Debug)]
pub struct StopColor(String);

impl StopColor {
    /// Wraps the given value.
    pub fn new(val: String) -> (r: Self)
        ensures
            r.spec_val() == Some(val@),
    {
        StopColor(val)
    }
}

impl Attribute for StopColor {
    open spec fn spec_key(&self) -> Seq<char> {
        "stop-color"@
    }

    closed spec fn spec_val(&self) -> Option<Seq<char>> {
        Some(self.0@)
    }

    fn get_key(&self) -> &str {
        "stop-color"
    }

    fn get_val(&self) -> Option<&str> {
        Some(self.0.as_str())
    }
}

impl crate::anchor::AnchorAttribute for StopColor {}
impl crate::area::AreaAttribute for StopColor {}
impl crate::audio::AudioAttribute for StopColor {}
impl crate::base::BaseAttribute for StopColor {}
impl crate::blockquote::BlockQuoteAttribute for StopColor {}
impl crate::button::ButtonAttribute for StopColor {}
impl crate::canvas::CanvasAttribute for StopColor {}
impl crate::col::ColAttribute for StopColor {}
impl crate::colgroup::ColGroupAttribute for StopColor {}
impl crate::data::DataAttribute for StopColor {}
impl crate::details::DetailsAttribute for StopColor {}
impl SvgAttribute for StopColor {}

/// <https://developer.mozilla.org/en-US/docs/Web/SVG/Attribute/stop-opacity>
#[derive(Debug)]
pub struct StopOpacity(String);

impl StopOpacity {
    /// Stores the value's serialization.
    pub fn new(val: NumberOrString) -> (r: Self)
        ensures
            r.spec_val() == Some(val.spec_str()),
    {
        StopOpacity(val.to_string())
    }
}

impl Attribute for StopOpacity {
    open spec fn spec_key(&self) -> Seq<char> {
        "stop-opacity"@
    }

    closed spec fn spec_val(&self) -> Option<Seq<char>> {
        Some(self.0@)
    }

    fn get_key(&self) -> &str {
        "stop-opacity"
    }

    fn get_val(&self) -> Option<&str> {
        Some(self.0.as_str())
    }
}

impl crate::anchor::AnchorAttribute for StopOpacity {}
impl crate::area::AreaAttribute for StopOpacity {}
impl crate::audio::AudioAttribute for StopOpacity {}
impl crate::base::BaseAttribute for StopOpacity {}
impl crate::blockquote::BlockQuoteAttribute for StopOpacity {}
impl crate::button::ButtonAttribute for StopOpacity {}
impl crate::canvas::CanvasAttribute for StopOpacity {}
impl crate::col::ColAttribute for StopOpacity {}
impl crate::colgroup::ColGroupAttribute for StopOpacity {}
impl crate::data::DataAttribute for StopOpacity {}
impl crate::details::DetailsAttribute for StopOpacity {}
impl SvgAttribute for StopOpacity {}

/// <https://developer.mozilla.org/en-US/docs/Web/SVG/Attribute/strikethrough-position>
#[derive(Debug)]
pub struct StrikethroughPosition(String);

impl StrikethroughPosition {
    /// Stores the value's serialization.
    pub fn new(val: NumberOrString) -> (r: Self)
        ensures
            r.spec_val() == Some(val.spec_str()),
    {
        StrikethroughPosition(val.to_string())
    }
}

impl Attribute for StrikethroughPosition {
    open spec fn spec_key(&self) -> Seq<char> {
        "strikethrough-position"@
    }

    closed spec fn spec_val(&self) -> Option<Seq<char>> {
        Some(self.0@)
    }

    fn get_key(&self) -> &str {
        "strikethrough-position"
    }

    fn get_val(&self) -> Option<&str> {
        Some(self.0.as_str())
    }
}

impl crate::anchor::AnchorAttribute for StrikethroughPosition {}
impl crate::area::AreaAttribute for StrikethroughPosition {}
impl crate::audio::AudioAttribute for StrikethroughPosition {}
impl crate::base::BaseAttribute for StrikethroughPosition {}
impl crate::blockquote::BlockQuoteAttribute for StrikethroughPosition {}
impl crate::button::ButtonAttribute for StrikethroughPosition {}
impl crate::canvas::CanvasAttribute for StrikethroughPosition {}
impl crate::col::ColAttribute for StrikethroughPosition {}
impl crate::colgroup::ColGroupAttribute for StrikethroughPosition {}
impl crate::data::DataAttribute for StrikethroughPosition {}
impl crate::details::DetailsAttribute for StrikethroughPosition {}
impl SvgAttribute for StrikethroughPosition {}

/// <https://developer.mozilla.org/en-US/docs/Web/SVG/Attribute/stroke>
#[derive(Debug)]
pub struct Stroke(String);

impl Stroke {
    /// Wraps the given value.
    pub fn new(val: String) -> (r: Self)
        ensures
            r.spec_val() == Some(val@),
    {
        Stroke(val)
    }
}

impl Attribute for Stroke {
    open spec fn spec_key(&self) -> Seq<char> {
        "stroke"@
    }

    closed spec fn spec_val(&self) -> Option<Seq<char>> {
        Some(self.0@)
    }

    fn get_key(&self) -> &str {
        "stroke"
    }

    fn get_val(&self) -> Option<&str> {
        Some(self.0.as_str())
    }
}

impl crate::anchor::AnchorAttribute for Stroke {}
impl crate::area::AreaAttribute for Stroke {}
impl crate::audio::AudioAttribute for Stroke {}
impl crate::base::BaseAttribute for Stroke {}
impl crate::blockquote::BlockQuoteAttribute for Stroke {}
impl crate::button::ButtonAttribute for Stroke {}
impl crate::canvas::CanvasAttribute for Stroke {}
impl crate::col::ColAttribute for Stroke {}
impl crate::colgroup::ColGroupAttribute for Stroke {}
impl crate::data::DataAttribute for Stroke {}
impl crate::details::DetailsAttribute for Stroke {}
impl SvgAttribute for Stroke {}

/// <https://developer.mozilla.org/en-US/docs/Web/SVG/Attribute/stroke-dasharray>
#[derive(Debug)]
pub struct StrokeDasharray(String);

impl StrokeDasharray {
    /// Wraps the given value.
    pub fn new(val: String) -> (r: Self)
        ensures
            r.spec_val() == Some(val@),
    {
        StrokeDasharray(val)
    }
}

impl Attribute for StrokeDasharray {
    open spec fn spec_key(&self) -> Seq<char> {
        "stroke-dasharray"@
    }

    closed spec fn spec_val(&self) -> Option<Seq<char>> {
        Some(self.0@)
    }

    fn get_key(&self) -> &str {
        "stroke-dasharray"
    }

    fn get_val(&self) -> Option<&str> {
        Some(self.0.as_str())
    }
}

impl crate::anchor::AnchorAttribute for StrokeDasharray {}
impl crate::area::AreaAttribute for StrokeDasharray {}
impl crate::audio::AudioAttribute for StrokeDasharray {}
impl crate::base::BaseAttribute for StrokeDasharray {}
impl crate::blockquote::BlockQuoteAttribute for StrokeDasharray {}
impl crate::button::ButtonAttribute for StrokeDasharray {}
impl crate::canvas::CanvasAttribute for StrokeDasharray {}
impl crate::col::ColAttribute for StrokeDasharray {}
impl crate::colgroup::ColGroupAttribute for StrokeDasharray {}
impl crate::data::DataAttribute for StrokeDasharray {}
impl crate::details::DetailsAttribute for StrokeDasharray {}
impl SvgAttribute for StrokeDasharray {}

/// <https://developer.mozilla.org/en-US/docs/Web/SVG/Attribute/stroke-dashoffset>
#[derive(Debug)]
pub struct StrokeDashoffset(String);

impl StrokeDashoffset {
    /// Wraps the given value.
    pub fn new(val: String) -> (r: Self)
        ensures
            r.spec_val() == Some(val@),
    {
        StrokeDashoffset(val)
    }
}

impl Attribute for StrokeDashoffset {
    open spec fn spec_key(&self) -> Seq<char> {
        "stroke-dashoffset"@
    }

    closed spec fn spec_val(&self) -> Option<Seq<char>> {
        Some(self.0@)
    }

    fn get_key(&self) -> &str {
        "stroke-dashoffset"
    }

    fn get_val(&self) -> Option<&str> {
        Some(self.0.as_str())
    }
}

impl crate::anchor::AnchorAttribute for StrokeDashoffset {}
impl crate::area::AreaAttribute for StrokeDashoffset {}
impl crate::audio::AudioAttribute for StrokeDashoffset {}
impl crate::base::BaseAttribute for StrokeDashoffset {}
impl crate::blockquote::BlockQuoteAttribute for StrokeDashoffset {}
impl crate::button::ButtonAttribute for StrokeDashoffset {}
impl crate::canvas::CanvasAttribute for StrokeDashoffset {}
impl crate::col::ColAttribute for StrokeDashoffset {}
impl crate::colgroup::ColGroupAttribute for StrokeDashoffset {}
impl crate::data::DataAttribute for StrokeDashoffset {}
impl crate::details::DetailsAttribute for StrokeDashoffset {}
impl SvgAttribute for StrokeDashoffset {}

/// <https://developer.mozilla.org/en-US/docs/Web/SVG/Attribute/stroke-linecap>
#[derive(Debug)]
pub struct StrokeLinecap(StrokeLinecapOption);

impl StrokeLinecap {
    /// Wraps the chosen option.
    pub fn new(val: StrokeLinecapOption) -> (r: Self)
        ensures
            r.spec_val() == Some(val.spec_str()),
    {
        StrokeLinecap(val)
    }
}

impl Attribute for StrokeLinecap {
    open spec fn spec_key(&self) -> Seq<char> {
        "stroke-linecap"@
    }

    closed spec fn spec_val(&self) -> Option<Seq<char>> {
        Some(self.0.spec_str())
    }

    fn get_key(&self) -> &str {
        "stroke-linecap"
    }

    fn get_val(&self) -> Option<&str> {
        Some(self.0.as_str())
    }
}

impl crate::anchor::AnchorAttribute for StrokeLinecap {}
impl crate::area::AreaAttribute for StrokeLinecap {}
impl crate::audio::AudioAttribute for StrokeLinecap {}
impl crate::base::BaseAttribute for StrokeLinecap {}
impl crate::blockquote::BlockQuoteAttribute for StrokeLinecap {}
impl crate::button::ButtonAttribute for StrokeLinecap {}
impl crate::canvas::CanvasAttribute for StrokeLinecap {}
impl crate::col::ColAttribute for StrokeLinecap {}
impl crate::colgroup::ColGroupAttribute for StrokeLinecap {}
impl crate::data::DataAttribute for StrokeLinecap {}
impl crate::details::DetailsAttribute for StrokeLinecap {}
impl SvgAttribute for StrokeLinecap {}

/// <https://developer.mozilla.org/en-US/docs/Web/SVG/Attribute/stroke-linejoin>
#[derive(Debug)]
pub struct StrokeLinejoin(StrokeLinejoinOption);

impl StrokeLinejoin {
    /// Wraps the chosen option.
    pub fn new(val: StrokeLinejoinOption) -> (r: Self)
        ensures
            r.spec_val() == Some(val.spec_str()),
    {
        StrokeLinejoin(val)
    }
}

impl Attribute for StrokeLinejoin {
    open spec fn spec_key(&self) -> Seq<char> {
        "stroke-linejoin"@
    }

    closed spec fn spec_val(&self) -> Option<Seq<char>> {
        Some(self.0.spec_str())
    }

    fn get_key(&self) -> &str {
        "stroke-linejoin"
    }

    fn get_val(&self) -> Option<&str> {
        Some(self.0.as_str())
    }
}

impl crate::anchor::AnchorAttribute for StrokeLinejoin {}
impl crate::area::AreaAttribute for StrokeLinejoin {}
impl crate::audio::AudioAttribute for StrokeLinejoin {}
impl crate::base::BaseAttribute for StrokeLinejoin {}
impl crate::blockquote::BlockQuoteAttribute for StrokeLinejoin {}
impl crate::button::ButtonAttribute for StrokeLinejoin {}
impl crate::canvas::CanvasAttribute for StrokeLinejoin {}
impl crate::col::ColAttribute for StrokeLinejoin {}
impl crate::colgroup::ColGroupAttribute for StrokeLinejoin {}
impl crate::data::DataAttribute for StrokeLinejoin {}
impl crate::details::DetailsAttribute for StrokeLinejoin {}
impl SvgAttribute for StrokeLinejoin {}

/// <https://developer.mozilla.org/en-US/docs/Web/SVG/Attribute/stroke-miterlimit>
#[derive(Debug)]
pub struct StrokeMiterlimit(String);

impl StrokeMiterlimit {
    /// Stores the value's serialization.
    pub fn new(val: NumberOrString) -> (r: Self)
        ensures
            r.spec_val() == Some(val.spec_str()),
    {
        StrokeMiterlimit(val.to_string())
    }
}

impl Attribute for StrokeMiterlimit {
    open spec fn spec_key(&self) -> Seq<char> {
        "stroke-miterlimit"@
    }

    closed spec fn spec_val(&self) -> Option<Seq<char>> {
        Some(self.0@)
    }

    fn get_key(&self) -> &str {
        "stroke-miterlimit"
    }

    fn get_val(&self) -> Option<&str> {
        Some(self.0.as_str())
    }
}

impl crate::anchor::AnchorAttribute for StrokeMiterlimit {}
impl crate::area::AreaAttribute for StrokeMiterlimit {}
impl crate::audio::AudioAttribute for StrokeMiterlimit {}
impl crate::base::BaseAttribute for StrokeMiterlimit {}
impl crate::blockquote::BlockQuoteAttribute for StrokeMiterlimit {}
impl crate::button::ButtonAttribute for StrokeMiterlimit {}
impl crate::canvas::CanvasAttribute for StrokeMiterlimit {}
impl crate::col::ColAttribute for StrokeMiterlimit {}
impl crate::colgroup::ColGroupAttribute for StrokeMiterlimit {}
impl crate::data::DataAttribute for StrokeMiterlimit {}
impl crate::details::DetailsAttribute for StrokeMiterlimit {}
impl SvgAttribute for StrokeMiterlimit {}

/// <https://developer.mozilla.org/en-US/docs/Web/SVG/Attribute/stroke-opacity>
#[derive(Debug)]
pub struct StrokeOpacity(String);

impl StrokeOpacity {
    /// Stores the value's serialization.
    pub fn new(val: NumberOrString) -> (r: Self)
        ensures
            r.spec_val() == Some(val.spec_str()),
    {
        StrokeOpacity(val.to_string())
    }
}

impl Attribute for StrokeOpacity {
    open spec fn spec_key(&self) -> Seq<char> {
        "stroke-opacity"@
    }

    closed spec fn spec_val(&self) -> Option<Seq<char>> {
        Some(self.0@)
    }

    fn get_key(&self) -> &str {
        "stroke-opacity"
    }

    fn get_val(&self) -> Option<&str> {
        Some(self.0.as_str())
    }
}

impl crate::anchor::AnchorAttribute for StrokeOpacity {}
impl crate::area::AreaAttribute for StrokeOpacity {}
impl crate::audio::AudioAttribute for StrokeOpacity {}
impl crate::base::BaseAttribute for StrokeOpacity {}
impl crate::blockquote::BlockQuoteAttribute for StrokeOpacity {}
impl crate::button::ButtonAttribute for StrokeOpacity {}
impl crate::canvas::CanvasAttribute for StrokeOpacity {}
impl crate::col::ColAttribute for StrokeOpacity {}
impl crate::colgroup::ColGroupAttribute for StrokeOpacity {}
impl crate::data::DataAttribute for StrokeOpacity {}
impl crate::details::DetailsAttribute for StrokeOpacity {}
impl SvgAttribute for StrokeOpacity {}

/// <https://developer.mozilla.org/en-US/docs/Web/SVG/Attribute/stroke-width>
#[derive(Debug)]
pub struct StrokeWidth(String);

impl StrokeWidth {
    /// Stores the value's serialization.
    pub fn new(val: NumberOrString) -> (r: Self)
        ensures
            r.spec_val() == Some(val.spec_str()),
    {
        StrokeWidth(val.to_string())
    }
}

impl Attribute for StrokeWidth {
    open spec fn spec_key(&self) -> Seq<char> {
        "stroke-width"@
    }

    closed spec fn spec_val(&self) -> Option<Seq<char>> {
        Some(self.0@)
    }

    fn get_key(&self) -> &str {
        "stroke-width"
    }

    fn get_val(&self) -> Option<&str> {
        Some(self.0.as_str())
    }
}

impl crate::anchor::AnchorAttribute for StrokeWidth {}
impl crate::area::AreaAttribute for StrokeWidth {}
impl crate::audio::AudioAttribute for StrokeWidth {}
impl crate::base::BaseAttribute for StrokeWidth {}
impl crate::blockquote::BlockQuoteAttribute for StrokeWidth {}
impl crate::button::ButtonAttribute for StrokeWidth {}
impl crate::canvas::CanvasAttribute for StrokeWidth {}
impl crate::col::ColAttribute for StrokeWidth {}
impl crate::colgroup::ColGroupAttribute for StrokeWidth {}
impl crate::data::DataAttribute for StrokeWidth {}
impl crate::details::DetailsAttribute for StrokeWidth {}
impl SvgAttribute for StrokeWidth {}

/// <https://developer.mozilla.org/en-US/docs/Web/SVG/Attribute/surfaceScale>
#[derive(Debug)]
pub struct SurfaceScale(String);

impl SurfaceScale {
    /// Stores the value's serialization.
    pub fn new(val: NumberOrString) -> (r: Self)
        ensures
            r.spec_val() == Some(val.spec_str()),
    {
        SurfaceScale(val.to_string())
    }
}

impl Attribute for SurfaceScale {
    open spec fn spec_key(&self) -> Seq<char> {
        "surfaceScale"@
    }

    closed spec fn spec_val(&self) -> Option<Seq<char>> {
        Some(self.0@)
    }

    fn get_key(&self) -> &str {
        "surfaceScale"
    }

    fn get_val(&self) -> Option<&str> {
        Some(self.0.as_str())
    }
}

impl crate::anchor::AnchorAttribute for SurfaceScale {}
impl crate::area::AreaAttribute for SurfaceScale {}
impl crate::audio::AudioAttribute for SurfaceScale {}
impl crate::base::BaseAttribute for SurfaceScale {}
impl crate::blockquote::BlockQuoteAttribute for SurfaceScale {}
impl crate::button::ButtonAttribute for SurfaceScale {}
impl crate::canvas::CanvasAttribute for SurfaceScale {}
impl crate::col::ColAttribute for SurfaceScale {}
impl crate::colgroup::ColGroupAttribute for SurfaceScale {}
impl crate::data::DataAttribute for SurfaceScale {}
impl crate::details::DetailsAttribute for SurfaceScale {}
impl SvgAttribute for SurfaceScale {}

/// <https://developer.mozilla.org/en-US/docs/Web/SVG/Attribute/systemLanguage>
#[derive(Debug)]
pub struct SystemLanguage(String);

impl SystemLanguage {
    /// Stores the value's serialization.
    pub fn new(val: NumberOrString) -> (r: Self)
        ensures
            r.spec_val() == Some(val.spec_str()),
    {
        SystemLanguage(val.to_string())
    }
}

impl Attribute for SystemLanguage {
    open spec fn spec_key(&self) -> Seq<char> {
        "systemLanguage"@
    }

    closed spec fn spec_val(&self) -> Option<Seq<char>> {
        Some(self.0@)
    }

    fn get_key(&self) -> &str {
        "systemLanguage"
    }

    fn get_val(&self) -> Option<&str> {
        Some(self.0.as_str())
    }
}

impl crate::anchor::AnchorAttribute for SystemLanguage {}
impl crate::area::AreaAttribute for SystemLanguage {}
impl crate::audio::AudioAttribute for SystemLanguage {}
impl crate::base::BaseAttribute for SystemLanguage {}
impl crate::blockquote::BlockQuoteAttribute for SystemLanguage {}
impl crate::button::ButtonAttribute for SystemLanguage {}
impl crate::canvas::CanvasAttribute for SystemLanguage {}
impl crate::col::ColAttribute for SystemLanguage {}
impl crate::colgroup::ColGroupAttribute for SystemLanguage {}
impl crate::data::DataAttribute for SystemLanguage {}
impl crate::details::DetailsAttribute for SystemLanguage {}
impl SvgAttribute for SystemLanguage {}

/// <https://developer.mozilla.org/en-US/docs/Web/SVG/Attribute/tableValues>
#[derive(Debug)]
pub struct TableValues(String);

impl TableValues {
    /// Stores the value's serialization.
    pub fn new(val: NumberOrString) -> (r: Self)
        ensures
            r.spec_val() == Some(val.spec_str()),
    {
        TableValues(val.to_string())
    }
}

impl Attribute for TableValues {
    open spec fn spec_key(&self) -> Seq<char> {
        "tableValues"@
    }

    closed spec fn spec_val(&self) -> Option<Seq<char>> {
        Some(self.0@)
    }

    fn get_key(&self) -> &str {
        "tableValues"
    }

    fn get_val(&self) -> Option<&str> {
        Some(self.0.as_str())
    }
}

impl crate::anchor::AnchorAttribute for TableValues {}
impl crate::area::AreaAttribute for TableValues {}
impl crate::audio::AudioAttribute for TableValues {}
impl crate::base::BaseAttribute for TableValues {}
impl crate::blockquote::BlockQuoteAttribute for TableValues {}
impl crate::button::ButtonAttribute for TableValues {}
impl crate::canvas::CanvasAttribute for TableValues {}
impl crate::col::ColAttribute for TableValues {}
impl crate::colgroup::ColGroupAttribute for TableValues {}
impl crate::data::DataAttribute for TableValues {}
impl crate::details::DetailsAttribute for TableValues {}
impl SvgAttribute for TableValues {}

/// <https://developer.mozilla.org/en-US/docs/Web/SVG/Attribute/targetX>
#[derive(Debug)]
pub struct TargetX(String);

impl TargetX {
    /// Stores the value's serialization.
    pub fn new(val: NumberOrString) -> (r: Self)
        ensures
            r.spec_val() == Some(val.spec_str()),
    {
        TargetX(val.to_string())
    }
}

impl Attribute for TargetX {
    open spec fn spec_key(&self) -> Seq<char> {
        "targetX"@
    }

    closed spec fn spec_val(&self) -> Option<Seq<char>> {
        Some(self.0@)
    }

    fn get_key(&self) -> &str {
        "targetX"
    }

    fn get_val(&self) -> Option<&str> {
        Some(self.0.as_str())
    }
}

impl crate::anchor::AnchorAttribute for TargetX {}
impl crate::area::AreaAttribute for TargetX {}
impl crate::audio::AudioAttribute for TargetX {}
impl crate::base::BaseAttribute for TargetX {}
impl crate::blockquote::BlockQuoteAttribute for TargetX {}
impl crate::button::ButtonAttribute for TargetX {}
impl crate::canvas::CanvasAttribute for TargetX {}
impl crate::col::ColAttribute for TargetX {}
impl crate::colgroup::ColGroupAttribute for TargetX {}
impl crate::data::DataAttribute for TargetX {}
impl crate::details::DetailsAttribute for TargetX {}
impl SvgAttribute for TargetX {}

/// <https://developer.mozilla.org/en-US/docs/Web/SVG/Attribute/targetY>
#[derive(Debug)]
pub struct TargetY(String);

impl TargetY {
    /// Stores the value's serialization.
    pub fn new(val: NumberOrString) -> (r: Self)
        ensures
            r.spec_val() == Some(val.spec_str()),
    {
        TargetY(val.to_string())
    }
}

impl Attribute for TargetY {
    open spec fn spec_key(&self) -> Seq<char> {
        "targetY"@
    }

    closed spec fn spec_val(&self) -> Option<Seq<char>> {
        Some(self.0@)
    }

    fn get_key(&self) -> &str {
        "targetY"
    }

    fn get_val(&self) -> Option<&str> {
        Some(self.0.as_str())
    }
}

impl crate::anchor::AnchorAttribute for TargetY {}
impl crate::area::AreaAttribute for TargetY {}
impl crate::audio::AudioAttribute for TargetY {}
impl crate::base::BaseAttribute for TargetY {}
impl crate::blockquote::BlockQuoteAttribute for TargetY {}
impl crate::button::ButtonAttribute for TargetY {}
impl crate::canvas::CanvasAttribute for TargetY {}
impl crate::col::ColAttribute for TargetY {}
impl crate::colgroup::ColGroupAttribute for TargetY {}
impl crate::data::DataAttribute for TargetY {}
impl crate::details::DetailsAttribute for TargetY {}
impl SvgAttribute for TargetY {}

/// <https://developer.mozilla.org/en-US/docs/Web/SVG/Attribute/text-anchor>
#[derive(Debug)]
pub struct TextAnchor(String);

impl TextAnchor {
    /// Stores the value's serialization.
    pub fn new(val: NumberOrString) -> (r: Self)
        ensures
            r.spec_val() == Some(val.spec_str()),
    {
        TextAnchor(val.to_string())
    }
}

impl Attribute for TextAnchor {
    open spec fn spec_key(&self) -> Seq<char> {
        "text-anchor"@
    }

    closed spec fn spec_val(&self) -> Option<Seq<char>> {
        Some(self.0@)
    }

    fn get_key(&self) -> &str {
        "text-anchor"
    }

    fn get_val(&self) -> Option<&str> {
        Some(self.0.as_str())
    }
}

impl crate::anchor::AnchorAttribute for TextAnchor {}
impl crate::area::AreaAttribute for TextAnchor {}
impl crate::audio::AudioAttribute for TextAnchor {}
impl crate::base::BaseAttribute for TextAnchor {}
impl crate::blockquote::BlockQuoteAttribute for TextAnchor {}
impl crate::button::ButtonAttribute for TextAnchor {}
impl crate::canvas::CanvasAttribute for TextAnchor {}
impl crate::col::ColAttribute for TextAnchor {}
impl crate::colgroup::ColGroupAttribute for TextAnchor {}
impl crate::data::DataAttribute for TextAnchor {}
impl crate::details::DetailsAttribute for TextAnchor {}
impl SvgAttribute for TextAnchor {}

/// <https://developer.mozilla.org/en-US/docs/Web/SVG/Attribute/text-decoration>
#[derive(Debug)]
pub struct TextDecoration(String);

impl TextDecoration {
    /// Stores the value's serialization.
    pub fn new(val: NumberOrString) -> (r: Self)
        ensures
            r.spec_val() == Some(val.spec_str()),
    {
        TextDecoration(val.to_string())
    }
}

impl Attribute for TextDecoration {
    open spec fn spec_key(&self) -> Seq<char> {
        "text-decoration"@
    }

    closed spec fn spec_val(&self) -> Option<Seq<char>> {
        Some(self.0@)
    }

    fn get_key(&self) -> &str {
        "text-decoration"
    }

    fn get_val(&self) -> Option<&str> {
        Some(self.0.as_str())
    }
}

impl crate::anchor::AnchorAttribute for TextDecoration {}
impl crate::area::AreaAttribute for TextDecoration {}
impl crate::audio::AudioAttribute for TextDecoration {}
impl crate::base::BaseAttribute for TextDecoration {}
impl crate::blockquote::BlockQuoteAttribute for TextDecoration {}
impl crate::button::ButtonAttribute for TextDecoration {}
impl crate::canvas::CanvasAttribute for TextDecoration {}
impl crate::col::ColAttribute for TextDecoration {}
impl crate::colgroup::ColGroupAttribute for TextDecoration {}
impl crate::data::DataAttribute for TextDecoration {}
impl crate::details::DetailsAttribute for TextDecoration {}
impl SvgAttribute for TextDecoration {}

/// <https://developer.mozilla.org/en-US/docs/Web/SVG/Attribute/textLength>
#[derive(Debug)]
pub struct TextLength(String);

impl TextLength {
    /// Stores the value's serialization.
    pub fn new(val: NumberOrString) -> (r: Self)
        ensures
            r.spec_val() == Some(val.spec_str()),
    {
        TextLength(val.to_string())
    }
}

impl Attribute for TextLength {
    open spec fn spec_key(&self) -> Seq<char> {
        "textLength"@
    }

    closed spec fn spec_val(&self) -> Option<Seq<char>> {
        Some(self.0@)
    }

    fn get_key(&self) -> &str {
        "textLength"
    }

    fn get_val(&self) -> Option<&str> {
        Some(self.0.as_str())
    }
}

impl crate::anchor::AnchorAttribute for TextLength {}
impl crate::area::AreaAttribute for TextLength {}
impl crate::audio::AudioAttribute for TextLength {}
impl crate::base::BaseAttribute for TextLength {}
impl crate::blockquote::BlockQuoteAttribute for TextLength {}
impl crate::button::ButtonAttribute for TextLength {}
impl crate::canvas::CanvasAttribute for TextLength {}
impl crate::col::ColAttribute for TextLength {}
impl crate::colgroup::ColGroupAttribute for TextLength {}
impl crate::data::DataAttribute for TextLength {}
impl crate::details::DetailsAttribute for TextLength {}
impl SvgAttribute for TextLength {}

/// <https://developer.mozilla.org/en-US/docs/Web/SVG/Attribute/text-rendering>
#[derive(Debug)]
pub struct TextRendering(String);

impl TextRendering {
    /// Stores the value's serialization.
    pub fn new(val: NumberOrString) -> (r: Self)
        ensures
            r.spec_val() == Some(val.spec_str()),
    {
        TextRendering(val.to_string())
    }
}

impl Attribute for TextRendering {
    open spec fn spec_key(&self) -> Seq<char> {
        "text-rendering"@
    }

    closed spec fn spec_val(&self) -> Option<Seq<char>> {
        Some(self.0@)
    }

    fn get_key(&self) -> &str {
        "text-rendering"
    }

    fn get_val(&self) -> Option<&str> {
        Some(self.0.as_str())
    }
}

impl crate::anchor::AnchorAttribute for TextRendering {}
impl crate::area::AreaAttribute for TextRendering {}
impl crate::audio::AudioAttribute for TextRendering {}
impl crate::base::BaseAttribute for TextRendering {}
impl crate::blockquote::BlockQuoteAttribute for TextRendering {}
impl crate::button::ButtonAttribute for TextRendering {}
impl crate::canvas::CanvasAttribute for TextRendering {}
impl crate::col::ColAttribute for TextRendering {}
impl crate::colgroup::ColGroupAttribute for TextRendering {}
impl crate::data::DataAttribute for TextRendering {}
impl crate::details::DetailsAttribute for TextRendering {}
impl SvgAttribute for TextRendering {}

/// <https://developer.mozilla.org/en-US/docs/Web/SVG/Attribute/to>
#[derive(Debug)]
pub struct To(String);

impl To {
    /// Stores the value's serialization.
    pub fn new(val: NumberOrString) -> (r: Self)
        ensures
            r.spec_val() == Some(val.spec_str()),
    {
        To(val.to_string())
    }
}

impl Attribute for To {
    open spec fn spec_key(&self) -> Seq<char> {
        "to"@
    }

    closed spec fn spec_val(&self) -> Option<Seq<char>> {
        Some(self.0@)
    }

    fn get_key(&self) -> &str {
        "to"
    }

    fn get_val(&self) -> Option<&str> {
        Some(self.0.as_str())
    }
}

impl crate::anchor::AnchorAttribute for To {}
impl crate::area::AreaAttribute for To {}
impl crate::audio::AudioAttribute for To {}
impl crate::base::BaseAttribute for To {}
impl crate::blockquote::BlockQuoteAttribute for To {}
impl crate::button::ButtonAttribute for To {}
impl crate::canvas::CanvasAttribute for To {}
impl crate::col::ColAttribute for To {}
impl crate::colgroup::ColGroupAttribute for To {}
impl crate::data::DataAttribute for To {}
impl crate::details::DetailsAttribute for To {}
impl SvgAttribute for To {}

/// <https://developer.mozilla.org/en-US/docs/Web/SVG/Attribute/transform>
#[derive(Debug)]
pub struct Transform(String);

impl Transform {
    /// Stores the value's serialization.
    pub fn new(val: NumberOrString) -> (r: Self)
        ensures
            r.spec_val() == Some(val.spec_str()),
    {
        Transform(val.to_string())
    }
}

impl Attribute for Transform {
    open spec fn spec_key(&self) -> Seq<char> {
        "transform"@
    }

    closed spec fn spec_val(&self) -> Option<Seq<char>> {
        Some(self.0@)
    }

    fn get_key(&self) -> &str {
        "transform"
    }

    fn get_val(&self) -> Option<&str> {
        Some(self.0.as_str())
    }
}

impl crate::anchor::AnchorAttribute for Transform {}
impl crate::area::AreaAttribute for Transform {}
impl crate::audio::AudioAttribute for Transform {}
impl crate::base::BaseAttribute for Transform {}
impl crate::blockquote::BlockQuoteAttribute for Transform {}
impl crate::button::ButtonAttribute for Transform {}
impl crate::canvas::CanvasAttribute for Transform {}
impl crate::col::ColAttribute for Transform {}
impl crate::colgroup::ColGroupAttribute for Transform {}
impl crate::data::DataAttribute for Transform {}
impl crate::details::DetailsAttribute for Transform {}
impl SvgAttribute for Transform {}

/// <https://developer.mozilla.org/en-US/docs/Web/SVG/Attribute/transform-origin>
#[derive(Debug)]
pub struct TransformOrigin(String);

impl TransformOrigin {
    /// Stores the value's serialization.
    pub fn new(val: NumberOrString) -> (r: Self)
        ensures
            r.spec_val() == Some(val.spec_str()),
    {
        TransformOrigin(val.to_string())
    }
}

impl Attribute for TransformOrigin {
    open spec fn spec_key(&self) -> Seq<char> {
        "transform-origin"@
    }

    closed spec fn spec_val(&self) -> Option<Seq<char>> {
        Some(self.0@)
    }

    fn get_key(&self) -> &str {
        "transform-origin"
    }

    fn get_val(&self) -> Option<&str> {
        Some(self.0.as_str())
    }
}

impl crate::anchor::AnchorAttribute for TransformOrigin {}
impl crate::area::AreaAttribute for TransformOrigin {}
impl crate::audio::AudioAttribute for TransformOrigin {}
impl crate::base::BaseAttribute for TransformOrigin {}
impl crate::blockquote::BlockQuoteAttribute for TransformOrigin {}
impl crate::button::ButtonAttribute for TransformOrigin {}
impl crate::canvas::CanvasAttribute for TransformOrigin {}
impl crate::col::ColAttribute for TransformOrigin {}
impl crate::colgroup::ColGroupAttribute for TransformOrigin {}
impl crate::data::DataAttribute for TransformOrigin {}
impl crate::details::DetailsAttribute for TransformOrigin {}
impl SvgAttribute for TransformOrigin {}

/// <https://developer.mozilla.org/en-US/docs/Web/SVG/Attribute/u1>
#[derive(Debug)]
pub struct U1(String);

impl U1 {
    /// Stores the value's serialization.
    pub fn new(val: NumberOrString) -> (r: Self)
        ensures
            r.spec_val() == Some(val.spec_str()),
    {
        U1(val.to_string())
    }
}

impl Attribute for U1 {
    open spec fn spec_key(&self) -> Seq<char> {
        "u1"@
    }

    closed spec fn spec_val(&self) -> Option<Seq<char>> {
        Some(self.0@)
    }

    fn get_key(&self) -> &str {
        "u1"
    }

    fn get_val(&self) -> Option<&str> {
        Some(self.0.as_str())
    }
}

impl crate::anchor::AnchorAttribute for U1 {}
impl crate::area::AreaAttribute for U1 {}
impl crate::audio::AudioAttribute for U1 {}
impl crate::base::BaseAttribute for U1 {}
impl crate::blockquote::BlockQuoteAttribute for U1 {}
impl crate::button::ButtonAttribute for U1 {}
impl crate::canvas::CanvasAttribute for U1 {}
impl crate::col::ColAttribute for U1 {}
impl crate::colgroup::ColGroupAttribute for U1 {}
impl crate::data::DataAttribute for U1 {}
impl crate::details::DetailsAttribute for U1 {}
impl SvgAttribute for U1 {}

/// <https://developer.mozilla.org/en-US/docs/Web/SVG/Attribute/u2>
#[derive(Debug)]
pub struct U2(String);

impl U2 {
    /// Stores the value's serialization.
    pub fn new(val: NumberOrString) -> (r: Self)
        ensures
            r.spec_val() == Some(val.spec_str()),
    {
        U2(val.to_string())
    }
}

impl Attribute for U2 {
    open spec fn spec_key(&self) -> Seq<char> {
        "u2"@
    }

    closed spec fn spec_val(&self) -> Option<Seq<char>> {
        Some(self.0@)
    }

    fn get_key(&self) -> &str {
        "u2"
    }

    fn get_val(&self) -> Option<&str> {
        Some(self.0.as_str())
    }
}

impl crate::anchor::AnchorAttribute for U2 {}
impl crate::area::AreaAttribute for U2 {}
impl crate::audio::AudioAttribute for U2 {}
impl crate::base::BaseAttribute for U2 {}
impl crate::blockquote::BlockQuoteAttribute for U2 {}
impl crate::button::ButtonAttribute for U2 {}
impl crate::canvas::CanvasAttribute for U2 {}
impl crate::col::ColAttribute for U2 {}
impl crate::colgroup::ColGroupAttribute for U2 {}
impl crate::data::DataAttribute for U2 {}
impl crate::details::DetailsAttribute for U2 {}
impl SvgAttribute for U2 {}

/// <https://developer.mozilla.org/en-US/docs/Web/SVG/Attribute/underline-position>
#[derive(Debug)]
pub struct UnderlinePosition(String);

impl UnderlinePosition {
    /// Stores the value's serialization.
    pub fn new(val: NumberOrString) -> (r: Self)
        ensures
            r.spec_val() == Some(val.spec_str()),
    {
        UnderlinePosition(val.to_string())
    }
}

impl Attribute for UnderlinePosition {
    open spec fn spec_key(&self) -> Seq<char> {
        "underline-position"@
    }

    closed spec fn spec_val(&self) -> Option<Seq<char>> {
        Some(self.0@)
    }

    fn get_key(&self) -> &str {
        "underline-position"
    }

    fn get_val(&self) -> Option<&str> {
        Some(self.0.as_str())
    }
}

impl crate::anchor::AnchorAttribute for UnderlinePosition {}
impl crate::area::AreaAttribute for UnderlinePosition {}
impl crate::audio::AudioAttribute for UnderlinePosition {}
impl crate::base::BaseAttribute for UnderlinePosition {}
impl crate::blockquote::BlockQuoteAttribute for UnderlinePosition {}
impl crate::button::ButtonAttribute for UnderlinePosition {}
impl crate::canvas::CanvasAttribute for UnderlinePosition {}
impl crate::col::ColAttribute for UnderlinePosition {}
impl crate::colgroup::ColGroupAttribute for UnderlinePosition {}
impl crate::data::DataAttribute for UnderlinePosition {}
impl crate::details::DetailsAttribute for UnderlinePosition {}
impl SvgAttribute for UnderlinePosition {}

/// <https://developer.mozilla.org/en-US/docs/Web/SVG/Attribute/underline-thickness>
#[derive(Debug)]
pub struct UnderlineThickness(String);

impl UnderlineThickness {
    /// Stores the value's serialization.
    pub fn new(val: NumberOrString) -> (r: Self)
        ensures
            r.spec_val() == Some(val.spec_str()),
    {
        UnderlineThickness(val.to_string())
    }
}

impl Attribute for UnderlineThickness {
    open spec fn spec_key(&self) -> Seq<char> {
        "underline-thickness"@
    }

    closed spec fn spec_val(&self) -> Option<Seq<char>> {
        Some(self.0@)
    }

    fn get_key(&self) -> &str {
        "underline-thickness"
    }

    fn get_val(&self) -> Option<&str> {
        Some(self.0.as_str())
    }
}

impl crate::anchor::AnchorAttribute for UnderlineThickness {}
impl crate::area::AreaAttribute for UnderlineThickness {}
impl crate::audio::AudioAttribute for UnderlineThickness {}
impl crate::base::BaseAttribute for UnderlineThickness {}
impl crate::blockquote::BlockQuoteAttribute for UnderlineThickness {}
impl crate::button::ButtonAttribute for UnderlineThickness {}
impl crate::canvas::CanvasAttribute for UnderlineThickness {}
impl crate::col::ColAttribute for UnderlineThickness {}
impl crate::colgroup::ColGroupAttribute for UnderlineThickness {}
impl crate::data::DataAttribute for UnderlineThickness {}
impl crate::details::DetailsAttribute for UnderlineThickness {}
impl SvgAttribute for UnderlineThickness {}

/// <https://developer.mozilla.org/en-US/docs/Web/SVG/Attribute/unicode>
#[derive(Debug)]
pub struct Unicode(String);

impl Unicode {
    /// Stores the value's serialization.
    pub fn new(val: NumberOrString) -> (r: Self)
        ensures
            r.spec_val() == Some(val.spec_str()),
    {
        Unicode(val.to_string())
    }
}

impl Attribute for Unicode {
    open spec fn spec_key(&self) -> Seq<char> {
        "unicode"@
    }

    closed spec fn spec_val(&self) -> Option<Seq<char>> {
        Some(self.0@)
    }

    fn get_key(&self) -> &str {
        "unicode"
    }

    fn get_val(&self) -> Option<&str> {
        Some(self.0.as_str())
    }
}

impl crate::anchor::AnchorAttribute for Unicode {}
impl crate::area::AreaAttribute for Unicode {}
impl crate::audio::AudioAttribute for Unicode {}
impl crate::base::BaseAttribute for Unicode {}
impl crate::blockquote::BlockQuoteAttribute for Unicode {}
impl crate::button::ButtonAttribute for Unicode {}
impl crate::canvas::CanvasAttribute for Unicode {}
impl crate::col::ColAttribute for Unicode {}
impl crate::colgroup::ColGroupAttribute for Unicode {}
impl crate::data::DataAttribute for Unicode {}
impl crate::details::DetailsAttribute for Unicode {}
impl SvgAttribute for Unicode {}

/// <https://developer.mozilla.org/en-US/docs/Web/SVG/Attribute/unicode-bidi>
#[derive(Debug)]
pub struct UnicodeBidi(String);

impl UnicodeBidi {
    /// Stores the value's serialization.
    pub fn new(val: NumberOrString) -> (r: Self)
        ensures
            r.spec_val() == Some(val.spec_str()),
    {
        UnicodeBidi(val.to_string())
    }
}

impl Attribute for UnicodeBidi {
    open spec fn spec_key(&self) -> Seq<char> {
        "unicode-bidi"@
    }

    closed spec fn spec_val(&self) -> Option<Seq<char>> {
        Some(self.0@)
    }

    fn get_key(&self) -> &str {
        "unicode-bidi"
    }

    fn get_val(&self) -> Option<&str> {
        Some(self.0.as_str())
    }
}

impl crate::anchor::AnchorAttribute for UnicodeBidi {}
impl crate::area::AreaAttribute for UnicodeBidi {}
impl crate::audio::AudioAttribute for UnicodeBidi {}
impl crate::base::BaseAttribute for UnicodeBidi {}
impl crate::blockquote::BlockQuoteAttribute for UnicodeBidi {}
impl crate::button::ButtonAttribute for UnicodeBidi {}
impl crate::canvas::CanvasAttribute for UnicodeBidi {}
impl crate::col::ColAttribute for UnicodeBidi {}
impl crate::colgroup::ColGroupAttribute for UnicodeBidi {}
impl crate::data::DataAttribute for UnicodeBidi {}
impl crate::details::DetailsAttribute for UnicodeBidi {}
impl SvgAttribute for UnicodeBidi {}

/// <https://developer.mozilla.org/en-US/docs/Web/SVG/Attribute/unicode-range>
#[derive(Debug)]
pub struct UnicodeRange(String);

impl UnicodeRange {
    /// Stores the value's serialization.
    pub fn new(val: NumberOrString) -> (r: Self)
        ensures
            r.spec_val() == Some(val.spec_str()),
    {
        UnicodeRange(val.to_string())
    }
}

impl Attribute for UnicodeRange {
    open spec fn spec_key(&self) -> Seq<char> {
        "unicode-range"@
    }

    closed spec fn spec_val(&self) -> Option<Seq<char>> {
        Some(self.0@)
    }

    fn get_key(&self) -> &str {
        "unicode-range"
    }

    fn get_val(&self) -> Option<&str> {
        Some(self.0.as_str())
    }
}

impl crate::anchor::AnchorAttribute for UnicodeRange {}
impl crate::area::AreaAttribute for UnicodeRange {}
impl crate::audio::AudioAttribute for UnicodeRange {}
impl crate::base::BaseAttribute for UnicodeRange {}
impl crate::blockquote::BlockQuoteAttribute for UnicodeRange {}
impl crate::button::ButtonAttribute for UnicodeRange {}
impl crate::canvas::CanvasAttribute for UnicodeRange {}
impl crate::col::ColAttribute for UnicodeRange {}
impl crate::colgroup::ColGroupAttribute for UnicodeRange {}
impl crate::data::DataAttribute for UnicodeRange {}
impl crate::details::DetailsAttribute for UnicodeRange {}
impl SvgAttribute for UnicodeRange {}

/// <https://developer.mozilla.org/en-US/docs/Web/SVG/Attribute/units-per-em>
#[derive(Debug)]
pub struct UnitsPerEm(String);

impl UnitsPerEm {
    /// Stores the value's serialization.
    pub fn new(val: NumberOrString) -> (r: Self)
        ensures
            r.spec_val() == Some(val.spec_str()),
    {
        UnitsPerEm(val.to_string())
    }
}

impl Attribute for UnitsPerEm {
    open spec fn spec_key(&self) -> Seq<char> {
        "units-per-em"@
    }

    closed spec fn spec_val(&self) -> Option<Seq<char>> {
        Some(self.0@)
    }

    fn get_key(&self) -> &str {
        "units-per-em"
    }

    fn get_val(&self) -> Option<&str> {
        Some(self.0.as_str())
    }
}

impl crate::anchor::AnchorAttribute for UnitsPerEm {}
impl crate::area::AreaAttribute for UnitsPerEm {}
impl crate::audio::AudioAttribute for UnitsPerEm {}
impl crate::base::BaseAttribute for UnitsPerEm {}
impl crate::blockquote::BlockQuoteAttribute for UnitsPerEm {}
impl crate::button::ButtonAttribute for UnitsPerEm {}
impl crate::canvas::CanvasAttribute for UnitsPerEm {}
impl crate::col::ColAttribute for UnitsPerEm {}
impl crate::colgroup::ColGroupAttribute for UnitsPerEm {}
impl crate::data::DataAttribute for UnitsPerEm {}
impl crate::details::DetailsAttribute for UnitsPerEm {}
impl SvgAttribute for UnitsPerEm {}

/// <https://developer.mozilla.org/en-US/docs/Web/SVG/Attribute/values>
#[derive(Debug)]
pub struct Values(String);

impl Values {
    /// Wraps the given value.
    pub fn new(val: String) -> (r: Self)
        ensures
            r.spec_val() == Some(val@),
    {
        Values(val)
    }
}

impl Attribute for Values {
    open spec fn spec_key(&self) -> Seq<char> {
        "values"@
    }

    closed spec fn spec_val(&self) -> Option<Seq<char>> {
        Some(self.0@)
    }

    fn get_key(&self) -> &str {
        "values"
    }

    fn get_val(&self) -> Option<&str> {
        Some(self.0.as_str())
    }
}

impl crate::anchor::AnchorAttribute for Values {}
impl crate::area::AreaAttribute for Values {}
impl crate::audio::AudioAttribute for Values {}
impl crate::base::BaseAttribute for Values {}
impl crate::blockquote::BlockQuoteAttribute for Values {}
impl crate::button::ButtonAttribute for Values {}
impl crate::canvas::CanvasAttribute for Values {}
impl crate::col::ColAttribute for Values {}
impl crate::colgroup::ColGroupAttribute for Values {}
impl crate::data::DataAttribute for Values {}
impl crate::details::DetailsAttribute for Values {}
impl SvgAttribute for Values {}

/// <https://developer.mozilla.org/en-US/docs/Web/SVG/Attribute/vector-effect>
#[derive(Debug)]
pub struct VectorEffect(String);

impl VectorEffect {
    /// Wraps the given value.
    pub fn new(val: String) -> (r: Self)
        ensures
            r.spec_val() == Some(val@),
    {
        VectorEffect(val)
    }
}

impl Attribute for VectorEffect {
    open spec fn spec_key(&self) -> Seq<char> {
        "vector-effect"@
    }

    closed spec fn spec_val(&self) -> Option<Seq<char>> {
        Some(self.0@)
    }

    fn get_key(&self) -> &str {
        "vector-effect"
    }

    fn get_val(&self) -> Option<&str> {
        Some(self.0.as_str())
    }
}

impl crate::anchor::AnchorAttribute for VectorEffect {}
impl crate::area::AreaAttribute for VectorEffect {}
impl crate::audio::AudioAttribute for VectorEffect {}
impl crate::base::BaseAttribute for VectorEffect {}
impl crate::blockquote::BlockQuoteAttribute for VectorEffect {}
impl crate::button::ButtonAttribute for VectorEffect {}
impl crate::canvas::CanvasAttribute for VectorEffect {}
impl crate::col::ColAttribute for VectorEffect {}
impl crate::colgroup::ColGroupAttribute for VectorEffect {}
impl crate::data::DataAttribute for VectorEffect {}
impl crate::details::DetailsAttribute for VectorEffect {}
impl SvgAttribute for VectorEffect {}

/// <https://developer.mozilla.org/en-US/docs/Web/SVG/Attribute/viewBox>
#[derive(Debug)]
pub struct ViewBox(String);

impl ViewBox {
    /// Wraps the given value.
    pub fn new(val: String) -> (r: Self)
        ensures
            r.spec_val() == Some(val@),
    {
        ViewBox(val)
    }
}

impl Attribute for ViewBox {
    open spec fn spec_key(&self) -> Seq<char> {
        "viewBox"@
    }

    closed spec fn spec_val(&self) -> Option<Seq<char>> {
        Some(self.0@)
    }

    fn get_key(&self) -> &str {
        "viewBox"
    }

    fn get_val(&self) -> Option<&str> {
        Some(self.0.as_str())
    }
}

impl crate::anchor::AnchorAttribute for ViewBox {}
impl crate::area::AreaAttribute for ViewBox {}
impl crate::audio::AudioAttribute for ViewBox {}
impl crate::base::BaseAttribute for ViewBox {}
impl crate::blockquote::BlockQuoteAttribute for ViewBox {}
impl crate::button::ButtonAttribute for ViewBox {}
impl crate::canvas::CanvasAttribute for ViewBox {}
impl crate::col::ColAttribute for ViewBox {}
impl crate::colgroup::ColGroupAttribute for ViewBox {}
impl crate::data::DataAttribute for ViewBox {}
impl crate::details::DetailsAttribute for ViewBox {}
impl SvgAttribute for ViewBox {}

/// <https://developer.mozilla.org/en-US/docs/Web/SVG/Attribute/visibility>
#[derive(Debug)]
pub struct Visibility(String);

impl Visibility {
    /// Stores the value's serialization.
    pub fn new(val: NumberOrString) -> (r: Self)
        ensures
            r.spec_val() == Some(val.spec_str()),
    {
        Visibility(val.to_string())
    }
}

impl Attribute for Visibility {
    open spec fn spec_key(&self) -> Seq<char> {
        "visibility"@
    }

    closed spec fn spec_val(&self) -> Option<Seq<char>> {
        Some(self.0@)
    }

    fn get_key(&self) -> &str {
        "visibility"
    }

    fn get_val(&self) -> Option<&str> {
        Some(self.0.as_str())
    }
}

impl crate::anchor::AnchorAttribute for Visibility {}
impl crate::area::AreaAttribute for Visibility {}
impl crate::audio::AudioAttribute for Visibility {}
impl crate::base::BaseAttribute for Visibility {}
impl crate::blockquote::BlockQuoteAttribute for Visibility {}
impl crate::button::ButtonAttribute for Visibility {}
impl crate::canvas::CanvasAttribute for Visibility {}
impl crate::col::ColAttribute for Visibility {}
impl crate::colgroup::ColGroupAttribute for Visibility {}
impl crate::data::DataAttribute for Visibility {}
impl crate::details::DetailsAttribute for Visibility {}
impl SvgAttribute for Visibility {}

/// An enum representing the different options for the `cross-origin` attribute.
///
/// <https://developer.mozilla.org/en-US/docs/Web/HTML/Attributes/crossorigin>
#[derive(Debug)]
pub enum CrossOrigin {
    Anonymous,
    UseCredentials,
    Blank,
}

impl CrossOrigin {
    /// The serialized form of the option.
    pub open spec fn spec_str(&self) -> Seq<char> {
        match self {
            CrossOrigin::Anonymous => "anonymous"@,
            CrossOrigin::UseCredentials => "use-credentials"@,
            CrossOrigin::Blank => ""@,
        }
    }

    /// The serialized form of the option.
    pub fn as_str(&self) -> (r: &str)
        ensures
            r@ == self.spec_str(),
    {
        match self {
            CrossOrigin::Anonymous => "anonymous",
            CrossOrigin::UseCredentials => "use-credentials",
            CrossOrigin::Blank => "",
        }
    }
}

/// An enum representing the different options for the `accumulate` attribute.
///
/// <https://developer.mozilla.org/en-US/docs/Web/SVG/Attribute/accumulate>
#[derive(Debug)]
pub enum AccumulateOption {
    NoneValue,
    Sum,
}

impl AccumulateOption {
    /// The serialized form of the option.
    pub open spec fn spec_str(&self) -> Seq<char> {
        match self {
            AccumulateOption::NoneValue => "none"@,
            AccumulateOption::Sum => "sum"@,
        }
    }

    /// The serialized form of the option.
    pub fn as_str(&self) -> (r: &str)
        ensures
            r@ == self.spec_str(),
    {
        match self {
            AccumulateOption::NoneValue => "none",
            AccumulateOption::Sum => "sum",
        }
    }
}

/// An enum representing the different options for the `additive` attribute.
///
/// <https://developer.mozilla.org/en-US/docs/Web/SVG/Attribute/additive>
#[derive(Debug)]
pub enum AdditiveOption {
    Replace,
    Sum,
}

impl AdditiveOption {
    /// The serialized form of the option.
    pub open spec fn spec_str(&self) -> Seq<char> {
        match self {
            AdditiveOption::Replace => "replace"@,
            AdditiveOption::Sum => "sum"@,
        }
    }

    /// The serialized form of the option.
    pub fn as_str(&self) -> (r: &str)
        ensures
            r@ == self.spec_str(),
    {
        match self {
            AdditiveOption::Replace => "replace",
            AdditiveOption::Sum => "sum",
        }
    }
}

/// An enum representing the different options for the `alignment-baseline` attribute.
///
/// <https://developer.mozilla.org/en-US/docs/Web/SVG/Attribute/alignment-baseline>
#[derive(Debug)]
pub enum AlignmentBaselineOption {
    Auto,
    Baseline,
    BeforeEdge,
    TextBeforeEdge,
    Middle,
    Central,
    AfterEdge,
    TextAfterEdge,
    Ideographic,
    Alphabetic,
    Hanging,
    Mathematical,
    Inherit,
}

impl AlignmentBaselineOption {
    /// The serialized form of the option.
    pub open spec fn spec_str(&self) -> Seq<char> {
        match self {
            AlignmentBaselineOption::Auto => "auto"@,
            AlignmentBaselineOption::Baseline => "baseline"@,
            AlignmentBaselineOption::BeforeEdge => "before-edge"@,
            AlignmentBaselineOption::TextBeforeEdge => "text-before-edge"@,
            AlignmentBaselineOption::Middle => "middle"@,
            AlignmentBaselineOption::Central => "central"@,
            AlignmentBaselineOption::AfterEdge => "after-edge"@,
            AlignmentBaselineOption::TextAfterEdge => "text-after-edge"@,
            AlignmentBaselineOption::Ideographic => "ideographic"@,
            AlignmentBaselineOption::Alphabetic => "alphabetic"@,
            AlignmentBaselineOption::Hanging => "hanging"@,
            AlignmentBaselineOption::Mathematical => "mathematical"@,
            AlignmentBaselineOption::Inherit => "inherit"@,
        }
    }

    /// The serialized form of the option.
    pub fn as_str(&self) -> (r: &str)
        ensures
            r@ == self.spec_str(),
    {
        match self {
            AlignmentBaselineOption::Auto => "auto",
            AlignmentBaselineOption::Baseline => "baseline",
            AlignmentBaselineOption::BeforeEdge => "before-edge",
            AlignmentBaselineOption::TextBeforeEdge => "text-before-edge",
            AlignmentBaselineOption::Middle => "middle",
            AlignmentBaselineOption::Central => "central",
            AlignmentBaselineOption::AfterEdge => "after-edge",
            AlignmentBaselineOption::TextAfterEdge => "text-after-edge",
            AlignmentBaselineOption::Ideographic => "ideographic",
            AlignmentBaselineOption::Alphabetic => "alphabetic",
            AlignmentBaselineOption::Hanging => "hanging",
            AlignmentBaselineOption::Mathematical => "mathematical",
            AlignmentBaselineOption::Inherit => "inherit",
        }
    }
}

/// An enum representing the different options for the `allow-reorder` attribute.
///
/// <https://developer.mozilla.org/en-US/docs/Web/SVG/Attribute/allow-reorder>
#[derive(Debug)]
pub enum AllowReorder {
    No,
    Yes,
}

impl AllowReorder {
    /// The serialized form of the option.
    pub open spec fn spec_str(&self) -> Seq<char> {
        match self {
            AllowReorder::No => "no"@,
            AllowReorder::Yes => "yes"@,
        }
    }

    /// The serialized form of the option.
    pub fn as_str(&self) -> (r: &str)
        ensures
            r@ == self.spec_str(),
    {
        match self {
            AllowReorder::No => "no",
            AllowReorder::Yes => "yes",
        }
    }
}

/// An enum representing the different options for the `clip-rule` attribute.
///
/// <https://developer.mozilla.org/en-US/docs/Web/SVG/Attribute/clip-rule>
#[derive(Debug)]
pub enum ClipRuleOption {
    Nonzero,
    Evenodd,
    Inherit,
}

impl ClipRuleOption {
    /// The serialized form of the option.
    pub open spec fn spec_str(&self) -> Seq<char> {
        match self {
            ClipRuleOption::Nonzero => "nonzero"@,
            ClipRuleOption::Evenodd => "evenodd"@,
            ClipRuleOption::Inherit => "inherit"@,
        }
    }

    /// The serialized form of the option.
    pub fn as_str(&self) -> (r: &str)
        ensures
            r@ == self.spec_str(),
    {
        match self {
            ClipRuleOption::Nonzero => "nonzero",
            ClipRuleOption::Evenodd => "evenodd",
            ClipRuleOption::Inherit => "inherit",
        }
    }
}

/// An enum representing the different options for the `clipPathUnits` attribute.
///
/// <https://developer.mozilla.org/en-US/docs/Web/SVG/Attribute/clipPathUnits>
#[derive(Debug)]
pub enum ClipPathUnitsOption {
    UserSpaceOnUse,
    ObjectBoundingBox,
}

impl ClipPathUnitsOption {
    /// The serialized form of the option.
    pub open spec fn spec_str(&self) -> Seq<char> {
        match self {
            ClipPathUnitsOption::UserSpaceOnUse => "userSpaceOnUse"@,
            ClipPathUnitsOption::ObjectBoundingBox => "objectBoundingBox"@,
        }
    }

    /// The serialized form of the option.
    pub fn as_str(&self) -> (r: &str)
        ensures
            r@ == self.spec_str(),
    {
        match self {
            ClipPathUnitsOption::UserSpaceOnUse => "userSpaceOnUse",
            ClipPathUnitsOption::ObjectBoundingBox => "objectBoundingBox",
        }
    }
}

/// An enum representing the different options for the `color-interpolation-filters` attribute.
///
/// <https://developer.mozilla.org/en-US/docs/Web/SVG/Attribute/color-interpolation-filters>
#[derive(Debug)]
pub enum ColorInterpolationFiltersOption {
    Auto,
    SRGB,
    LinearRGB,
    Inherit,
}

impl ColorInterpolationFiltersOption {
    /// The serialized form of the option.
    pub open spec fn spec_str(&self) -> Seq<char> {
        match self {
            ColorInterpolationFiltersOption::Auto => "auto"@,
            ColorInterpolationFiltersOption::SRGB => "sRGB"@,
            ColorInterpolationFiltersOption::LinearRGB => "linearRGB"@,
            ColorInterpolationFiltersOption::Inherit => "inherit"@,
        }
    }

    /// The serialized form of the option.
    pub fn as_str(&self) -> (r: &str)
        ensures
            r@ == self.spec_str(),
    {
        match self {
            ColorInterpolationFiltersOption::Auto => "auto",
            ColorInterpolationFiltersOption::SRGB => "sRGB",
            ColorInterpolationFiltersOption::LinearRGB => "linearRGB",
            ColorInterpolationFiltersOption::Inherit => "inherit",
        }
    }
}

/// An enum representing the different options for the `fill-rule` attribute.
///
/// <https://developer.mozilla.org/en-US/docs/Web/SVG/Attribute/fill-rule>
#[derive(Debug)]
pub enum FillRuleOption {
    Nonzero,
    Evenodd,
    Inherit,
}

impl FillRuleOption {
    /// The serialized form of the option.
    pub open spec fn spec_str(&self) -> Seq<char> {
        match self {
            FillRuleOption::Nonzero => "nonzero"@,
            FillRuleOption::Evenodd => "evenodd"@,
            FillRuleOption::Inherit => "inherit"@,
        }
    }

    /// The serialized form of the option.
    pub fn as_str(&self) -> (r: &str)
        ensures
            r@ == self.spec_str(),
    {
        match self {
            FillRuleOption::Nonzero => "nonzero",
            FillRuleOption::Evenodd => "evenodd",
            FillRuleOption::Inherit => "inherit",
        }
    }
}

/// An enum representing the different options for the `focusable` attribute.
///
/// <https://developer.mozilla.org/en-US/docs/Web/SVG/Attribute/focusable>
#[derive(Debug)]
pub enum FocusableOption {
    True,
    False,
    Auto,
}

impl FocusableOption {
    /// The serialized form of the option.
    pub open spec fn spec_str(&self) -> Seq<char> {
        match self {
            FocusableOption::True => "true"@,
            FocusableOption::False => "false"@,
            FocusableOption::Auto => "auto"@,
        }
    }

    /// The serialized form of the option.
    pub fn as_str(&self) -> (r: &str)
        ensures
            r@ == self.spec_str(),
    {
        match self {
            FocusableOption::True => "true",
            FocusableOption::False => "false",
            FocusableOption::Auto => "auto",
        }
    }
}

/// An enum representing the different options for the `stroke-linecap` attribute.
///
/// <https://developer.mozilla.org/en-US/docs/Web/SVG/Attribute/stroke-linecap>
#[derive(Debug)]
pub enum StrokeLinecapOption {
    Butt,
    Round,
    Square,
    Inherit,
}

impl StrokeLinecapOption {
    /// The serialized form of the option.
    pub open spec fn spec_str(&self) -> Seq<char> {
        match self {
            StrokeLinecapOption::Butt => "butt"@,
            StrokeLinecapOption::Round => "round"@,
            StrokeLinecapOption::Square => "square"@,
            StrokeLinecapOption::Inherit => "inherit"@,
        }
    }

    /// The serialized form of the option.
    pub fn as_str(&self) -> (r: &str)
        ensures
            r@ == self.spec_str(),
    {
        match self {
            StrokeLinecapOption::Butt => "butt",
            StrokeLinecapOption::Round => "round",
            StrokeLinecapOption::Square => "square",
            StrokeLinecapOption::Inherit => "inherit",
        }
    }
}

/// An enum representing the different options for the `stroke-linejoin` attribute.
///
/// <https://developer.mozilla.org/en-US/docs/Web/SVG/Attribute/stroke-linejoin>
#[derive(Debug)]
pub enum StrokeLinejoinOption {
    Miter,
    Round,
    Bevel,
    Inherit,
}

impl StrokeLinejoinOption {
    /// The serialized form of the option.
    pub open spec fn spec_str(&self) -> Seq<char> {
        match self {
            StrokeLinejoinOption::Miter => "miter"@,
            StrokeLinejoinOption::Round => "round"@,
            StrokeLinejoinOption::Bevel => "bevel"@,
            StrokeLinejoinOption::Inherit => "inherit"@,
        }
    }

    /// The serialized form of the option.
    pub fn as_str(&self) -> (r: &str)
        ensures
            r@ == self.spec_str(),
    {
        match self {
            StrokeLinejoinOption::Miter => "miter",
            StrokeLinejoinOption::Round => "round",
            StrokeLinejoinOption::Bevel => "bevel",
            StrokeLinejoinOption::Inherit => "inherit",
        }
    }
}

/// A length value with a unit, serialized as the decimal value with
/// the unit appended.
#[derive(Debug)]
pub struct SvgLength(String);

impl SvgLength {
    /// The length's serialized form.
    pub closed spec fn spec_str(&self) -> Seq<char> {
        self.0@
    }

    /// Renders the value in decimal and appends the unit.
    pub fn new(value: i64, unit: SvgLengthUnit) -> (r: Self)
        ensures
            r.spec_str() == spec_idec(value as int) + unit.spec_str(),
    {
        let mut s = i64_to_string(value);
        s.append(unit.as_str());
        SvgLength(s)
    }

    /// The length's serialized form.
    pub fn as_str(&self) -> (r: &str)
        ensures
            r@ == self.spec_str(),
    {
        self.0.as_str()
    }
}

/// An enum defining the different options for length units for svg elements.
#[derive(Debug)]
pub enum SvgLengthUnit {
    Em,
    Ex,
    Px,
    In,
    Cm,
    Mm,
    Pt,
    Pc,
    Percent,
}

impl SvgLengthUnit {
    /// The serialized form of the option.
    pub open spec fn spec_str(&self) -> Seq<char> {
        match self {
            SvgLengthUnit::Em => "em"@,
            SvgLengthUnit::Ex => "ex"@,
            SvgLengthUnit::Px => "px"@,
            SvgLengthUnit::In => "in"@,
            SvgLengthUnit::Cm => "cm"@,
            SvgLengthUnit::Mm => "mm"@,
            SvgLengthUnit::Pt => "pt"@,
            SvgLengthUnit::Pc => "pc"@,
            SvgLengthUnit::Percent => "%"@,
        }
    }

    /// The serialized form of the option.
    pub fn as_str(&self) -> (r: &str)
        ensures
            r@ == self.spec_str(),
    {
        match self {
            SvgLengthUnit::Em => "em",
            SvgLengthUnit::Ex => "ex",
            SvgLengthUnit::Px => "px",
            SvgLengthUnit::In => "in",
            SvgLengthUnit::Cm => "cm",
            SvgLengthUnit::Mm => "mm",
            SvgLengthUnit::Pt => "pt",
            SvgLengthUnit::Pc => "pc",
            SvgLengthUnit::Percent => "%",
        }
    }
}

/// <https://developer.mozilla.org/en-US/docs/Web/SVG/Attribute/word-spacing>
#[derive(Debug)]
pub struct WordSpacing(String);

impl WordSpacing {
    /// Stores the value's serialization.
    pub fn new(val: NumberOrString) -> (r: Self)
        ensures
            r.spec_val() == Some(val.spec_str()),
    {
        WordSpacing(val.to_string())
    }
}

impl Attribute for WordSpacing {
    open spec fn spec_key(&self) -> Seq<char> {
        "word-spacing"@
    }

    closed spec fn spec_val(&self) -> Option<Seq<char>> {
        Some(self.0@)
    }

    fn get_key(&self) -> &str {
        "word-spacing"
    }

    fn get_val(&self) -> Option<&str> {
        Some(self.0.as_str())
    }
}

impl crate::anchor::AnchorAttribute for WordSpacing {}
impl crate::area::AreaAttribute for WordSpacing {}
impl crate::audio::AudioAttribute for WordSpacing {}
impl crate::base::BaseAttribute for WordSpacing {}
impl crate::blockquote::BlockQuoteAttribute for WordSpacing {}
impl crate::button::ButtonAttribute for WordSpacing {}
impl crate::canvas::CanvasAttribute for WordSpacing {}
impl crate::col::ColAttribute for WordSpacing {}
impl crate::colgroup::ColGroupAttribute for WordSpacing {}
impl crate::data::DataAttribute for WordSpacing {}
impl crate::details::DetailsAttribute for WordSpacing {}
impl SvgAttribute for WordSpacing {}

/// <https://developer.mozilla.org/en-US/docs/Web/SVG/Attribute/writing-mode>
#[derive(Debug)]
pub struct WritingMode(String);

impl WritingMode {
    /// Stores the value's serialization.
    pub fn new(val: NumberOrString) -> (r: Self)
        ensures
            r.spec_val() == Some(val.spec_str()),
    {
        WritingMode(val.to_string())
    }
}

impl Attribute for WritingMode {
    open spec fn spec_key(&self) -> Seq<char> {
        "writing-mode"@
    }

    closed spec fn spec_val(&self) -> Option<Seq<char>> {
        Some(self.0@)
    }

    fn get_key(&self) -> &str {
        "writing-mode"
    }

    fn get_val(&self) -> Option<&str> {
        Some(self.0.as_str())
    }
}

impl crate::anchor::AnchorAttribute for WritingMode {}
impl crate::area::AreaAttribute for WritingMode {}
impl crate::audio::AudioAttribute for WritingMode {}
impl crate::base::BaseAttribute for WritingMode {}
impl crate::blockquote::BlockQuoteAttribute for WritingMode {}
impl crate::button::ButtonAttribute for WritingMode {}
impl crate::canvas::CanvasAttribute for WritingMode {}
impl crate::col::ColAttribute for WritingMode {}
impl crate::colgroup::ColGroupAttribute for WritingMode {}
impl crate::data::DataAttribute for WritingMode {}
impl crate::details::DetailsAttribute for WritingMode {}
impl SvgAttribute for WritingMode {}

/// <https://developer.mozilla.org/en-US/docs/Web/SVG/Attribute/x>
#[derive(Debug)]
pub struct X(String);

impl X {
    /// Stores the value's serialization.
    pub fn new(val: NumberOrString) -> (r: Self)
        ensures
            r.spec_val() == Some(val.spec_str()),
    {
        X(val.to_string())
    }
}

impl Attribute for X {
    open spec fn spec_key(&self) -> Seq<char> {
        "x"@
    }

    closed spec fn spec_val(&self) -> Option<Seq<char>> {
        Some(self.0@)
    }

    fn get_key(&self) -> &str {
        "x"
    }

    fn get_val(&self) -> Option<&str> {
        Some(self.0.as_str())
    }
}

impl crate::anchor::AnchorAttribute for X {}
impl crate::area::AreaAttribute for X {}
impl crate::audio::AudioAttribute for X {}
impl crate::base::BaseAttribute for X {}
impl crate::blockquote::BlockQuoteAttribute for X {}
impl crate::button::ButtonAttribute for X {}
impl crate::canvas::CanvasAttribute for X {}
impl crate::col::ColAttribute for X {}
impl crate::colgroup::ColGroupAttribute for X {}
impl crate::data::DataAttribute for X {}
impl crate::details::DetailsAttribute for X {}
impl SvgAttribute for X {}

/// <https://developer.mozilla.org/en-US/docs/Web/SVG/Attribute/x1>
#[derive(Debug)]
pub struct X1(String);

impl X1 {
    /// Stores the value's serialization.
    pub fn new(val: NumberOrString) -> (r: Self)
        ensures
            r.spec_val() == Some(val.spec_str()),
    {
        X1(val.to_string())
    }
}

impl Attribute for X1 {
    open spec fn spec_key(&self) -> Seq<char> {
        "x-1"@
    }

    closed spec fn spec_val(&self) -> Option<Seq<char>> {
        Some(self.0@)
    }

    fn get_key(&self) -> &str {
        "x-1"
    }

    fn get_val(&self) -> Option<&str> {
        Some(self.0.as_str())
    }
}

impl crate::anchor::AnchorAttribute for X1 {}
impl crate::area::AreaAttribute for X1 {}
impl crate::audio::AudioAttribute for X1 {}
impl crate::base::BaseAttribute for X1 {}
impl crate::blockquote::BlockQuoteAttribute for X1 {}
impl crate::button::ButtonAttribute for X1 {}
impl crate::canvas::CanvasAttribute for X1 {}
impl crate::col::ColAttribute for X1 {}
impl crate::colgroup::ColGroupAttribute for X1 {}
impl crate::data::DataAttribute for X1 {}
impl crate::details::DetailsAttribute for X1 {}
impl SvgAttribute for X1 {}

/// <https://developer.mozilla.org/en-US/docs/Web/SVG/Attribute/x2>
#[derive(Debug)]
pub struct X2(String);

impl X2 {
    /// Stores the value's serialization.
    pub fn new(val: NumberOrString) -> (r: Self)
        ensures
            r.spec_val() == Some(val.spec_str()),
    {
        X2(val.to_string())
    }
}

impl Attribute for X2 {
    open spec fn spec_key(&self) -> Seq<char> {
        "x-2"@
    }

    closed spec fn spec_val(&self) -> Option<Seq<char>> {
        Some(self.0@)
    }

    fn get_key(&self) -> &str {
        "x-2"
    }

    fn get_val(&self) -> Option<&str> {
        Some(self.0.as_str())
    }
}

impl crate::anchor::AnchorAttribute for X2 {}
impl crate::area::AreaAttribute for X2 {}
impl crate::audio::AudioAttribute for X2 {}
impl crate::base::BaseAttribute for X2 {}
impl crate::blockquote::BlockQuoteAttribute for X2 {}
impl crate::button::ButtonAttribute for X2 {}
impl crate::canvas::CanvasAttribute for X2 {}
impl crate::col::ColAttribute for X2 {}
impl crate::colgroup::ColGroupAttribute for X2 {}
impl crate::data::DataAttribute for X2 {}
impl crate::details::DetailsAttribute for X2 {}
impl SvgAttribute for X2 {}

/// <https://developer.mozilla.org/en-US/docs/Web/SVG/Attribute/xChannelSelector>
#[derive(Debug)]
pub struct XChannelSelector(String);

impl XChannelSelector {
    /// Stores the value's serialization.
    pub fn new(val: NumberOrString) -> (r: Self)
        ensures
            r.spec_val() == Some(val.spec_str()),
    {
        XChannelSelector(val.to_string())
    }
}

impl Attribute for XChannelSelector {
    open spec fn spec_key(&self) -> Seq<char> {
        "xChannelSelector"@
    }

    closed spec fn spec_val(&self) -> Option<Seq<char>> {
        Some(self.0@)
    }

    fn get_key(&self) -> &str {
        "xChannelSelector"
    }

    fn get_val(&self) -> Option<&str> {
        Some(self.0.as_str())
    }
}

impl crate::anchor::AnchorAttribute for XChannelSelector {}
impl crate::area::AreaAttribute for XChannelSelector {}
impl crate::audio::AudioAttribute for XChannelSelector {}
impl crate::base::BaseAttribute for XChannelSelector {}
impl crate::blockquote::BlockQuoteAttribute for XChannelSelector {}
impl crate::button::ButtonAttribute for XChannelSelector {}
impl crate::canvas::CanvasAttribute for XChannelSelector {}
impl crate::col::ColAttribute for XChannelSelector {}
impl crate::colgroup::ColGroupAttribute for XChannelSelector {}
impl crate::data::DataAttribute for XChannelSelector {}
impl crate::details::DetailsAttribute for XChannelSelector {}
impl SvgAttribute for XChannelSelector {}

/// <https://developer.mozilla.org/en-US/docs/Web/SVG/Attribute/xml:lang>
#[derive(Debug)]
pub struct XmlLang(String);

impl XmlLang {
    /// Stores the value's serialization.
    pub fn new(val: NumberOrString) -> (r: Self)
        ensures
            r.spec_val() == Some(val.spec_str()),
    {
        XmlLang(val.to_string())
    }
}

impl Attribute for XmlLang {
    open spec fn spec_key(&self) -> Seq<char> {
        "XmlLang"@
    }

    closed spec fn spec_val(&self) -> Option<Seq<char>> {
        Some(self.0@)
    }

    fn get_key(&self) -> &str {
        "XmlLang"
    }

    fn get_val(&self) -> Option<&str> {
        Some(self.0.as_str())
    }
}

impl crate::anchor::AnchorAttribute for XmlLang {}
impl crate::area::AreaAttribute for XmlLang {}
impl crate::audio::AudioAttribute for XmlLang {}
impl crate::base::BaseAttribute for XmlLang {}
impl crate::blockquote::BlockQuoteAttribute for XmlLang {}
impl crate::button::ButtonAttribute for XmlLang {}
impl crate::canvas::CanvasAttribute for XmlLang {}
impl crate::col::ColAttribute for XmlLang {}
impl crate::colgroup::ColGroupAttribute for XmlLang {}
impl crate::data::DataAttribute for XmlLang {}
impl crate::details::DetailsAttribute for XmlLang {}
impl SvgAttribute for XmlLang {}

/// <https://developer.mozilla.org/en-US/docs/Web/SVG/Attribute/y>
#[derive(Debug)]
pub struct Y(String);

impl Y {
    /// Stores the value's serialization.
    pub fn new(val: NumberOrString) -> (r: Self)
        ensures
            r.spec_val() == Some(val.spec_str()),
    {
        Y(val.to_string())
    }
}

impl Attribute for Y {
    open spec fn spec_key(&self) -> Seq<char> {
        "y"@
    }

    closed spec fn spec_val(&self) -> Option<Seq<char>> {
        Some(self.0@)
    }

    fn get_key(&self) -> &str {
        "y"
    }

    fn get_val(&self) -> Option<&str> {
        Some(self.0.as_str())
    }
}

impl crate::anchor::AnchorAttribute for Y {}
impl crate::area::AreaAttribute for Y {}
impl crate::audio::AudioAttribute for Y {}
impl crate::base::BaseAttribute for Y {}
impl crate::blockquote::BlockQuoteAttribute for Y {}
impl crate::button::ButtonAttribute for Y {}
impl crate::canvas::CanvasAttribute for Y {}
impl crate::col::ColAttribute for Y {}
impl crate::colgroup::ColGroupAttribute for Y {}
impl crate::data::DataAttribute for Y {}
impl crate::details::DetailsAttribute for Y {}
impl SvgAttribute for Y {}

/// <https://developer.mozilla.org/en-US/docs/Web/SVG/Attribute/y1>
#[derive(Debug)]
pub struct Y1(String);

impl Y1 {
    /// Stores the value's serialization.
    pub fn new(val: NumberOrString) -> (r: Self)
        ensures
            r.spec_val() == Some(val.spec_str()),
    {
        Y1(val.to_string())
    }
}

impl Attribute for Y1 {
    open spec fn spec_key(&self) -> Seq<char> {
        "y-1"@
    }

    closed spec fn spec_val(&self) -> Option<Seq<char>> {
        Some(self.0@)
    }

    fn get_key(&self) -> &str {
        "y-1"
    }

    fn get_val(&self) -> Option<&str> {
        Some(self.0.as_str())
    }
}

impl crate::anchor::AnchorAttribute for Y1 {}
impl crate::area::AreaAttribute for Y1 {}
impl crate::audio::AudioAttribute for Y1 {}
impl crate::base::BaseAttribute for Y1 {}
impl crate::blockquote::BlockQuoteAttribute for Y1 {}
impl crate::button::ButtonAttribute for Y1 {}
impl crate::canvas::CanvasAttribute for Y1 {}
impl crate::col::ColAttribute for Y1 {}
impl crate::colgroup::ColGroupAttribute for Y1 {}
impl crate::data::DataAttribute for Y1 {}
impl crate::details::DetailsAttribute for Y1 {}
impl SvgAttribute for Y1 {}

/// <https://developer.mozilla.org/en-US/docs/Web/SVG/Attribute/y2>
#[derive(Debug)]
pub struct Y2(String);

impl Y2 {
    /// Stores the value's serialization.
    pub fn new(val: NumberOrString) -> (r: Self)
        ensures
            r.spec_val() == Some(val.spec_str()),
    {
        Y2(val.to_string())
    }
}

impl Attribute for Y2 {
    open spec fn spec_key(&self) -> Seq<char> {
        "y-2"@
    }

    closed spec fn spec_val(&self) -> Option<Seq<char>> {
        Some(self.0@)
    }

    fn get_key(&self) -> &str {
        "y-2"
    }

    fn get_val(&self) -> Option<&str> {
        Some(self.0.as_str())
    }
}

impl crate::anchor::AnchorAttribute for Y2 {}
impl crate::area::AreaAttribute for Y2 {}
impl crate::audio::AudioAttribute for Y2 {}
impl crate::base::BaseAttribute for Y2 {}
impl crate::blockquote::BlockQuoteAttribute for Y2 {}
impl crate::button::ButtonAttribute for Y2 {}
impl crate::canvas::CanvasAttribute for Y2 {}
impl crate::col::ColAttribute for Y2 {}
impl crate::colgroup::ColGroupAttribute for Y2 {}
impl crate::data::DataAttribute for Y2 {}
impl crate::details::DetailsAttribute for Y2 {}
impl SvgAttribute for Y2 {}

/// <https://developer.mozilla.org/en-US/docs/Web/SVG/Attribute/yChannelSelector>
#[derive(Debug)]
pub struct YChannelSelector(String);

impl YChannelSelector {
    /// Stores the value's serialization.
    pub fn new(val: NumberOrString) -> (r: Self)
        ensures
            r.spec_val() == Some(val.spec_str()),
    {
        YChannelSelector(val.to_string())
    }
}

impl Attribute for YChannelSelector {
    open spec fn spec_key(&self) -> Seq<char> {
        "yChannelSelector"@
    }

    closed spec fn spec_val(&self) -> Option<Seq<char>> {
        Some(self.0@)
    }

    fn get_key(&self) -> &str {
        "yChannelSelector"
    }

    fn get_val(&self) -> Option<&str> {
        Some(self.0.as_str())
    }
}

impl crate::anchor::AnchorAttribute for YChannelSelector {}
impl crate::area::AreaAttribute for YChannelSelector {}
impl crate::audio::AudioAttribute for YChannelSelector {}
impl crate::base::BaseAttribute for YChannelSelector {}
impl crate::blockquote::BlockQuoteAttribute for YChannelSelector {}
impl crate::button::ButtonAttribute for YChannelSelector {}
impl crate::canvas::CanvasAttribute for YChannelSelector {}
impl crate::col::ColAttribute for YChannelSelector {}
impl crate::colgroup::ColGroupAttribute for YChannelSelector {}
impl crate::data::DataAttribute for YChannelSelector {}
impl crate::details::DetailsAttribute for YChannelSelector {}
impl SvgAttribute for YChannelSelector {}

/// <https://developer.mozilla.org/en-US/docs/Web/SVG/Attribute/z>
#[derive(Debug)]
pub struct Z(String);

impl Z {
    /// Stores the value's serialization.
    pub fn new(val: NumberOrString) -> (r: Self)
        ensures
            r.spec_val() == Some(val.spec_str()),
    {
        Z(val.to_string())
    }
}

impl Attribute for Z {
    open spec fn spec_key(&self) -> Seq<char> {
        "z"@
    }

    closed spec fn spec_val(&self) -> Option<Seq<char>> {
        Some(self.0@)
    }

    fn get_key(&self) -> &str {
        "z"
    }

    fn get_val(&self) -> Option<&str> {
        Some(self.0.as_str())
    }
}

impl crate::anchor::AnchorAttribute for Z {}
impl crate::area::AreaAttribute for Z {}
impl crate::audio::AudioAttribute for Z {}
impl crate::base::BaseAttribute for Z {}
impl crate::blockquote::BlockQuoteAttribute for Z {}
impl crate::button::ButtonAttribute for Z {}
impl crate::canvas::CanvasAttribute for Z {}
impl crate::col::ColAttribute for Z {}
impl crate::colgroup::ColGroupAttribute for Z {}
impl crate::data::DataAttribute for Z {}
impl crate::details::DetailsAttribute for Z {}
impl SvgAttribute for Z {}

/// <https://developer.mozilla.org/en-US/docs/Web/SVG/Attribute/crossorigin>
#[derive(Debug)]
pub struct Crossorigin(CrossOriginOption);

impl Crossorigin {
    /// Wraps the chosen option.
    pub fn new(val: CrossOriginOption) -> (r: Self)
        ensures
            r.spec_val() == Some(val.spec_str()),
    {
        Crossorigin(val)
    }
}

impl Attribute for Crossorigin {
    open spec fn spec_key(&self) -> Seq<char> {
        "crossorigin"@
    }

    closed spec fn spec_val(&self) -> Option<Seq<char>> {
        Some(self.0.spec_str())
    }

    fn get_key(&self) -> &str {
        "crossorigin"
    }

    fn get_val(&self) -> Option<&str> {
        Some(self.0.as_str())
    }
}

impl crate::anchor::AnchorAttribute for Crossorigin {}
impl crate::area::AreaAttribute for Crossorigin {}
impl crate::audio::AudioAttribute for Crossorigin {}
impl crate::base::BaseAttribute for Crossorigin {}
impl crate::blockquote::BlockQuoteAttribute for Crossorigin {}
impl crate::button::ButtonAttribute for Crossorigin {}
impl crate::canvas::CanvasAttribute for Crossorigin {}
impl crate::col::ColAttribute for Crossorigin {}
impl crate::colgroup::ColGroupAttribute for Crossorigin {}
impl crate::data::DataAttribute for Crossorigin {}
impl crate::details::DetailsAttribute for Crossorigin {}
impl SvgAttribute for Crossorigin {}

/// An enum representing the different options for the `cross-origin` attribute.
///
/// <https://developer.mozilla.org/en-US/docs/Web/HTML/Attributes/crossorigin>
#[derive(Debug)]
pub enum CrossOriginOption {
    Anonymous,
    UseCredentials,
    Blank,
}

impl CrossOriginOption {
    /// The serialized form of the option.
    pub open spec fn spec_str(&self) -> Seq<char> {
        match self {
            CrossOriginOption::Anonymous => "anonymous"@,
            CrossOriginOption::UseCredentials => "use-credentials"@,
            CrossOriginOption::Blank => ""@,
        }
    }

    /// The serialized form of the option.
    pub fn as_str(&self) -> (r: &str)
        ensures
            r@ == self.spec_str(),
    {
        match self {
            CrossOriginOption::Anonymous => "anonymous",
            CrossOriginOption::UseCredentials => "use-credentials",
            CrossOriginOption::Blank => "",
        }
    }
}

impl SvgAttribute for Href {}

} // verus!
