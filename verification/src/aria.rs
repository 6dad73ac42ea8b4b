//! WAI-ARIA attributes.

use vstd::prelude::*;
use vstd::seq_lib::*;
use crate::text::{spec_join_spaces, join_spaces, spec_bool, bool_to_string, spec_udec, spec_idec, u64_to_string, i64_to_string};
use crate::Attribute;

verus! {

/// Marks an attribute as one of the WAI-ARIA attributes.
pub trait AriaAttribute: Attribute {}

/// <https://developer.mozilla.org/en-US/docs/Web/Accessibility/ARIA/Attributes/aria-activedescendant>
#[derive(Debug)]
pub struct AriaActiveDescendant(String);

impl AriaActiveDescendant {
    /// Wraps the given value.
    pub fn new(val: String) -> (r: Self)
        ensures
            r.spec_val() == Some(val@),
    {
        AriaActiveDescendant(val)
    }
}

impl Attribute for AriaActiveDescendant {
    open spec fn spec_key(&self) -> Seq<char> {
        "aria-activedescendant"@
    }

    closed spec fn spec_val(&self) -> Option<Seq<char>> {
        Some(self.0@)
    }

    fn get_key(&self) -> &str {
        "aria-activedescendant"
    }

    fn get_val(&self) -> Option<&str> {
        Some(self.0.as_str())
    }
}

impl crate::anchor::AnchorAttribute for AriaActiveDescendant {}
impl crate::area::AreaAttribute for AriaActiveDescendant {}
impl crate::audio::AudioAttribute for AriaActiveDescendant {}
impl crate::base::BaseAttribute for AriaActiveDescendant {}
impl crate::blockquote::BlockQuoteAttribute for AriaActiveDescendant {}
impl crate::button::ButtonAttribute for AriaActiveDescendant {}
impl crate::canvas::CanvasAttribute for AriaActiveDescendant {}
impl crate::col::ColAttribute for AriaActiveDescendant {}
impl crate::colgroup::ColGroupAttribute for AriaActiveDescendant {}
impl crate::data::DataAttribute for AriaActiveDescendant {}
impl crate::details::DetailsAttribute for AriaActiveDescendant {}
impl crate::svg::SvgAttribute for AriaActiveDescendant {}

/// <https://developer.mozilla.org/en-US/docs/Web/Accessibility/ARIA/Attributes/aria-atomic>
#[derive(Debug)]
pub struct AriaAtomic(String);

impl AriaAtomic {
    /// Stores the flag serialized as `true` or `false`.
    pub fn new(val: bool) -> (r: Self)
        ensures
            r.spec_val() == Some(spec_bool(val)),
    {
        AriaAtomic(bool_to_string(val))
    }
}

impl Attribute for AriaAtomic {
    open spec fn spec_key(&self) -> Seq<char> {
        "aria-atomic"@
    }

    closed spec fn spec_val(&self) -> Option<Seq<char>> {
        Some(self.0@)
    }

    fn get_key(&self) -> &str {
        "aria-atomic"
    }

    fn get_val(&self) -> Option<&str> {
        Some(self.0.as_str())
    }
}

impl crate::anchor::AnchorAttribute for AriaAtomic {}
impl crate::area::AreaAttribute for AriaAtomic {}
impl crate::audio::AudioAttribute for AriaAtomic {}
impl crate::base::BaseAttribute for AriaAtomic {}
impl crate::blockquote::BlockQuoteAttribute for AriaAtomic {}
impl crate::button::ButtonAttribute for AriaAtomic {}
impl crate::canvas::CanvasAttribute for AriaAtomic {}
impl crate::col::ColAttribute for AriaAtomic {}
impl crate::colgroup::ColGroupAttribute for AriaAtomic {}
impl crate::data::DataAttribute for AriaAtomic {}
impl crate::details::DetailsAttribute for AriaAtomic {}
impl crate::svg::SvgAttribute for AriaAtomic {}

/// <https://developer.mozilla.org/en-US/docs/Web/Accessibility/ARIA/Attributes/aria-autocomplete>
#[derive(Debug)]
pub struct AriaAutocomplete(AriaAutocompleteOption);

impl AriaAutocomplete {
    /// Wraps the chosen option.
    pub fn new(val: AriaAutocompleteOption) -> (r: Self)
        ensures
            r.spec_val() == Some(val.spec_str()),
    {
        AriaAutocomplete(val)
    }
}

impl Attribute for AriaAutocomplete {
    open spec fn spec_key(&self) -> Seq<char> {
        "aria-autocomplete"@
    }

    closed spec fn spec_val(&self) -> Option<Seq<char>> {
        Some(self.0.spec_str())
    }

    fn get_key(&self) -> &str {
        "aria-autocomplete"
    }

    fn get_val(&self) -> Option<&str> {
        Some(self.0.as_str())
    }
}

impl crate::anchor::AnchorAttribute for AriaAutocomplete {}
impl crate::area::AreaAttribute for AriaAutocomplete {}
impl crate::audio::AudioAttribute for AriaAutocomplete {}
impl crate::base::BaseAttribute for AriaAutocomplete {}
impl crate::blockquote::BlockQuoteAttribute for AriaAutocomplete {}
impl crate::button::ButtonAttribute for AriaAutocomplete {}
impl crate::canvas::CanvasAttribute for AriaAutocomplete {}
impl crate::col::ColAttribute for AriaAutocomplete {}
impl crate::colgroup::ColGroupAttribute for AriaAutocomplete {}
impl crate::data::DataAttribute for AriaAutocomplete {}
impl crate::details::DetailsAttribute for AriaAutocomplete {}
impl crate::svg::SvgAttribute for AriaAutocomplete {}

/// <https://developer.mozilla.org/en-US/docs/Web/Accessibility/ARIA/Attributes/aria-busy>
#[derive(Debug)]
pub struct AriaBusy(String);

impl AriaBusy {
    /// Stores the flag serialized as `true` or `false`.
    pub fn new(val: bool) -> (r: Self)
        ensures
            r.spec_val() == Some(spec_bool(val)),
    {
        AriaBusy(bool_to_string(val))
    }
}

impl Attribute for AriaBusy {
    open spec fn spec_key(&self) -> Seq<char> {
        "aria-busy"@
    }

    closed spec fn spec_val(&self) -> Option<Seq<char>> {
        Some(self.0@)
    }

    fn get_key(&self) -> &str {
        "aria-busy"
    }

    fn get_val(&self) -> Option<&str> {
        Some(self.0.as_str())
    }
}

impl crate::anchor::AnchorAttribute for AriaBusy {}
impl crate::area::AreaAttribute for AriaBusy {}
impl crate::audio::AudioAttribute for AriaBusy {}
impl crate::base::BaseAttribute for AriaBusy {}
impl crate::blockquote::BlockQuoteAttribute for AriaBusy {}
impl crate::button::ButtonAttribute for AriaBusy {}
impl crate::canvas::CanvasAttribute for AriaBusy {}
impl crate::col::ColAttribute for AriaBusy {}
impl crate::colgroup::ColGroupAttribute for AriaBusy {}
impl crate::data::DataAttribute for AriaBusy {}
impl crate::details::DetailsAttribute for AriaBusy {}
impl crate::svg::SvgAttribute for AriaBusy {}

/// <https://developer.mozilla.org/en-US/docs/Web/Accessibility/ARIA/Attributes/aria-checked>
#[derive(Debug)]
pub struct AriaChecked(AriaCheckedOption);

impl AriaChecked {
    /// Wraps the chosen option.
    pub fn new(val: AriaCheckedOption) -> (r: Self)
        ensures
            r.spec_val() == Some(val.spec_str()),
    {
        AriaChecked(val)
    }
}

impl Attribute for AriaChecked {
    open spec fn spec_key(&self) -> Seq<char> {
        "aria-checked"@
    }

    closed spec fn spec_val(&self) -> Option<Seq<char>> {
        Some(self.0.spec_str())
    }

    fn get_key(&self) -> &str {
        "aria-checked"
    }

    fn get_val(&self) -> Option<&str> {
        Some(self.0.as_str())
    }
}

impl crate::anchor::AnchorAttribute for AriaChecked {}
impl crate::area::AreaAttribute for AriaChecked {}
impl crate::audio::AudioAttribute for AriaChecked {}
impl crate::base::BaseAttribute for AriaChecked {}
impl crate::blockquote::BlockQuoteAttribute for AriaChecked {}
impl crate::button::ButtonAttribute for AriaChecked {}
impl crate::canvas::CanvasAttribute for AriaChecked {}
impl crate::col::ColAttribute for AriaChecked {}
impl crate::colgroup::ColGroupAttribute for AriaChecked {}
impl crate::data::DataAttribute for AriaChecked {}
impl crate::details::DetailsAttribute for AriaChecked {}
impl crate::svg::SvgAttribute for AriaChecked {}

/// <https://developer.mozilla.org/en-US/docs/Web/Accessibility/ARIA/Attributes/aria-colcount>
#[derive(Debug)]
pub struct AriaColCount(String);

impl AriaColCount {
    /// Stores the number rendered in decimal.
    pub fn new(val: u8) -> (r: Self)
        ensures
            r.spec_val() == Some(spec_udec(val as nat)),
    {
        AriaColCount(u64_to_string(val as u64))
    }
}

impl Attribute for AriaColCount {
    open spec fn spec_key(&self) -> Seq<char> {
        "aria-colcount"@
    }

    closed spec fn spec_val(&self) -> Option<Seq<char>> {
        Some(self.0@)
    }

    fn get_key(&self) -> &str {
        "aria-colcount"
    }

    fn get_val(&self) -> Option<&str> {
        Some(self.0.as_str())
    }
}

/// <https://developer.mozilla.org/en-US/docs/Web/Accessibility/ARIA/Attributes/aria-colindex>
#[derive(Debug)]
pub struct AriaColIndex(String);

impl AriaColIndex {
    /// Stores the number rendered in decimal.
    pub fn new(val: u8) -> (r: Self)
        ensures
            r.spec_val() == Some(spec_udec(val as nat)),
    {
        AriaColIndex(u64_to_string(val as u64))
    }
}

impl Attribute for AriaColIndex {
    open spec fn spec_key(&self) -> Seq<char> {
        "aria-colindex"@
    }

    closed spec fn spec_val(&self) -> Option<Seq<char>> {
        Some(self.0@)
    }

    fn get_key(&self) -> &str {
        "aria-colindex"
    }

    fn get_val(&self) -> Option<&str> {
        Some(self.0.as_str())
    }
}

/// <https://developer.mozilla.org/en-US/docs/Web/Accessibility/ARIA/Attributes/aria-colspan>
#[derive(Debug)]
pub struct AriaColSpan(String);

impl AriaColSpan {
    /// Stores the number rendered in decimal.
    pub fn new(val: u8) -> (r: Self)
        ensures
            r.spec_val() == Some(spec_udec(val as nat)),
    {
        AriaColSpan(u64_to_string(val as u64))
    }
}

impl Attribute for AriaColSpan {
    open spec fn spec_key(&self) -> Seq<char> {
        "aria-colspan"@
    }

    closed spec fn spec_val(&self) -> Option<Seq<char>> {
        Some(self.0@)
    }

    fn get_key(&self) -> &str {
        "aria-colspan"
    }

    fn get_val(&self) -> Option<&str> {
        Some(self.0.as_str())
    }
}

/// <https://developer.mozilla.org/en-US/docs/Web/Accessibility/ARIA/Attributes/aria-controls>
#[derive(Debug)]
pub struct AriaControls(String);

impl AriaControls {
    /// Joins the given words with spaces.
    pub fn new(val: Vec<String>) -> (r: Self)
        ensures
            r.spec_val() == Some(spec_join_spaces(val@.map_values(|s: String| s@))),
    {
        AriaControls(join_spaces(&val))
    }
}

impl Attribute for AriaControls {
    open spec fn spec_key(&self) -> Seq<char> {
        "aria-controls"@
    }

    closed spec fn spec_val(&self) -> Option<Seq<char>> {
        Some(self.0@)
    }

    fn get_key(&self) -> &str {
        "aria-controls"
    }

    fn get_val(&self) -> Option<&str> {
        Some(self.0.as_str())
    }
}

impl crate::anchor::AnchorAttribute for AriaControls {}
impl crate::area::AreaAttribute for AriaControls {}
impl crate::audio::AudioAttribute for AriaControls {}
impl crate::base::BaseAttribute for AriaControls {}
impl crate::blockquote::BlockQuoteAttribute for AriaControls {}
impl crate::button::ButtonAttribute for AriaControls {}
impl crate::canvas::CanvasAttribute for AriaControls {}
impl crate::col::ColAttribute for AriaControls {}
impl crate::colgroup::ColGroupAttribute for AriaControls {}
impl crate::data::DataAttribute for AriaControls {}
impl crate::details::DetailsAttribute for AriaControls {}
impl crate::svg::SvgAttribute for AriaControls {}

/// <https://developer.mozilla.org/en-US/docs/Web/Accessibility/ARIA/Attributes/aria-current>
#[derive(Debug)]
pub struct AriaCurrent(AriaCurrentOption);

impl AriaCurrent {
    /// Wraps the chosen option.
    pub fn new(val: AriaCurrentOption) -> (r: Self)
        ensures
            r.spec_val() == Some(val.spec_str()),
    {
        AriaCurrent(val)
    }
}

impl Attribute for AriaCurrent {
    open spec fn spec_key(&self) -> Seq<char> {
        "aria-current"@
    }

    closed spec fn spec_val(&self) -> Option<Seq<char>> {
        Some(self.0.spec_str())
    }

    fn get_key(&self) -> &str {
        "aria-current"
    }

    fn get_val(&self) -> Option<&str> {
        Some(self.0.as_str())
    }
}

impl crate::anchor::AnchorAttribute for AriaCurrent {}
impl crate::area::AreaAttribute for AriaCurrent {}
impl crate::audio::AudioAttribute for AriaCurrent {}
impl crate::base::BaseAttribute for AriaCurrent {}
impl crate::blockquote::BlockQuoteAttribute for AriaCurrent {}
impl crate::button::ButtonAttribute for AriaCurrent {}
impl crate::canvas::CanvasAttribute for AriaCurrent {}
impl crate::col::ColAttribute for AriaCurrent {}
impl crate::colgroup::ColGroupAttribute for AriaCurrent {}
impl crate::data::DataAttribute for AriaCurrent {}
impl crate::details::DetailsAttribute for AriaCurrent {}
impl crate::svg::SvgAttribute for AriaCurrent {}

/// <https://developer.mozilla.org/en-US/docs/Web/Accessibility/ARIA/Attributes/aria-describedby>
#[derive(Debug)]
pub struct AriaDescribedby(String);

impl AriaDescribedby {
    /// Joins the given words with spaces.
    pub fn new(val: Vec<String>) -> (r: Self)
        ensures
            r.spec_val() == Some(spec_join_spaces(val@.map_values(|s: String| s@))),
    {
        AriaDescribedby(join_spaces(&val))
    }
}

impl Attribute for AriaDescribedby {
    open spec fn spec_key(&self) -> Seq<char> {
        "aria-describedby"@
    }

    closed spec fn spec_val(&self) -> Option<Seq<char>> {
        Some(self.0@)
    }

    fn get_key(&self) -> &str {
        "aria-describedby"
    }

    fn get_val(&self) -> Option<&str> {
        Some(self.0.as_str())
    }
}

impl crate::anchor::AnchorAttribute for AriaDescribedby {}
impl crate::area::AreaAttribute for AriaDescribedby {}
impl crate::audio::AudioAttribute for AriaDescribedby {}
impl crate::base::BaseAttribute for AriaDescribedby {}
impl crate::blockquote::BlockQuoteAttribute for AriaDescribedby {}
impl crate::button::ButtonAttribute for AriaDescribedby {}
impl crate::canvas::CanvasAttribute for AriaDescribedby {}
impl crate::col::ColAttribute for AriaDescribedby {}
impl crate::colgroup::ColGroupAttribute for AriaDescribedby {}
impl crate::data::DataAttribute for AriaDescribedby {}
impl crate::details::DetailsAttribute for AriaDescribedby {}
impl crate::svg::SvgAttribute for AriaDescribedby {}

/// <https://developer.mozilla.org/en-US/docs/Web/Accessibility/ARIA/Attributes/aria-details>
#[derive(Debug)]
pub struct AriaDetails(String);

impl AriaDetails {
    /// Joins the given words with spaces.
    pub fn new(val: Vec<String>) -> (r: Self)
        ensures
            r.spec_val() == Some(spec_join_spaces(val@.map_values(|s: String| s@))),
    {
        AriaDetails(join_spaces(&val))
    }
}

impl Attribute for AriaDetails {
    open spec fn spec_key(&self) -> Seq<char> {
        "aria-details"@
    }

    closed spec fn spec_val(&self) -> Option<Seq<char>> {
        Some(self.0@)
    }

    fn get_key(&self) -> &str {
        "aria-details"
    }

    fn get_val(&self) -> Option<&str> {
        Some(self.0.as_str())
    }
}

impl crate::anchor::AnchorAttribute for AriaDetails {}
impl crate::area::AreaAttribute for AriaDetails {}
impl crate::audio::AudioAttribute for AriaDetails {}
impl crate::base::BaseAttribute for AriaDetails {}
impl crate::blockquote::BlockQuoteAttribute for AriaDetails {}
impl crate::button::ButtonAttribute for AriaDetails {}
impl crate::canvas::CanvasAttribute for AriaDetails {}
impl crate::col::ColAttribute for AriaDetails {}
impl crate::colgroup::ColGroupAttribute for AriaDetails {}
impl crate::data::DataAttribute for AriaDetails {}
impl crate::details::DetailsAttribute for AriaDetails {}
impl crate::svg::SvgAttribute for AriaDetails {}

/// <https://developer.mozilla.org/en-US/docs/Web/Accessibility/ARIA/Attributes/aria-disabled>
#[derive(Debug)]
pub struct AriaDisabled(String);

impl AriaDisabled {
    /// Stores the flag serialized as `true` or `false`.
    pub fn new(val: bool) -> (r: Self)
        ensures
            r.spec_val() == Some(spec_bool(val)),
    {
        AriaDisabled(bool_to_string(val))
    }
}

impl Attribute for AriaDisabled {
    open spec fn spec_key(&self) -> Seq<char> {
        "aria-disabled"@
    }

    closed spec fn spec_val(&self) -> Option<Seq<char>> {
        Some(self.0@)
    }

    fn get_key(&self) -> &str {
        "aria-disabled"
    }

    fn get_val(&self) -> Option<&str> {
        Some(self.0.as_str())
    }
}

impl crate::anchor::AnchorAttribute for AriaDisabled {}
impl crate::area::AreaAttribute for AriaDisabled {}
impl crate::audio::AudioAttribute for AriaDisabled {}
impl crate::base::BaseAttribute for AriaDisabled {}
impl crate::blockquote::BlockQuoteAttribute for AriaDisabled {}
impl crate::button::ButtonAttribute for AriaDisabled {}
impl crate::canvas::CanvasAttribute for AriaDisabled {}
impl crate::col::ColAttribute for AriaDisabled {}
impl crate::colgroup::ColGroupAttribute for AriaDisabled {}
impl crate::data::DataAttribute for AriaDisabled {}
impl crate::details::DetailsAttribute for AriaDisabled {}
impl crate::svg::SvgAttribute for AriaDisabled {}

/// <https://developer.mozilla.org/en-US/docs/Web/Accessibility/ARIA/Attributes/aria-dropeffect>
#[derive(Debug)]
pub struct AriaDropEffect(AriaDropEffectOption);

impl AriaDropEffect {
    /// Wraps the chosen option.
    pub fn new(val: AriaDropEffectOption) -> (r: Self)
        ensures
            r.spec_val() == Some(val.spec_str()),
    {
        AriaDropEffect(val)
    }
}

impl Attribute for AriaDropEffect {
    open spec fn spec_key(&self) -> Seq<char> {
        "aria-dropeffect"@
    }

    closed spec fn spec_val(&self) -> Option<Seq<char>> {
        Some(self.0.spec_str())
    }

    fn get_key(&self) -> &str {
        "aria-dropeffect"
    }

    fn get_val(&self) -> Option<&str> {
        Some(self.0.as_str())
    }
}

impl crate::anchor::AnchorAttribute for AriaDropEffect {}
impl crate::area::AreaAttribute for AriaDropEffect {}
impl crate::audio::AudioAttribute for AriaDropEffect {}
impl crate::base::BaseAttribute for AriaDropEffect {}
impl crate::blockquote::BlockQuoteAttribute for AriaDropEffect {}
impl crate::button::ButtonAttribute for AriaDropEffect {}
impl crate::canvas::CanvasAttribute for AriaDropEffect {}
impl crate::col::ColAttribute for AriaDropEffect {}
impl crate::colgroup::ColGroupAttribute for AriaDropEffect {}
impl crate::data::DataAttribute for AriaDropEffect {}
impl crate::details::DetailsAttribute for AriaDropEffect {}
impl crate::svg::SvgAttribute for AriaDropEffect {}

/// <https://developer.mozilla.org/en-US/docs/Web/Accessibility/ARIA/Attributes/aria-errormessage>
#[derive(Debug)]
pub struct AriaErrorMessage(String);

impl AriaErrorMessage {
    /// Wraps the given value.
    pub fn new(val: String) -> (r: Self)
        ensures
            r.spec_val() == Some(val@),
    {
        AriaErrorMessage(val)
    }
}

impl Attribute for AriaErrorMessage {
    open spec fn spec_key(&self) -> Seq<char> {
        "aria-errormessage"@
    }

    closed spec fn spec_val(&self) -> Option<Seq<char>> {
        Some(self.0@)
    }

    fn get_key(&self) -> &str {
        "aria-errormessage"
    }

    fn get_val(&self) -> Option<&str> {
        Some(self.0.as_str())
    }
}

/// <https://developer.mozilla.org/en-US/docs/Web/Accessibility/ARIA/Attributes/aria-expanded>
#[derive(Debug)]
pub struct AriaExpanded(String);

impl AriaExpanded {
    /// Stores the flag serialized as `true` or `false`.
    pub fn new(val: bool) -> (r: Self)
        ensures
            r.spec_val() == Some(spec_bool(val)),
    {
        AriaExpanded(bool_to_string(val))
    }
}

impl Attribute for AriaExpanded {
    open spec fn spec_key(&self) -> Seq<char> {
        "aria-expanded"@
    }

    closed spec fn spec_val(&self) -> Option<Seq<char>> {
        Some(self.0@)
    }

    fn get_key(&self) -> &str {
        "aria-expanded"
    }

    fn get_val(&self) -> Option<&str> {
        Some(self.0.as_str())
    }
}

impl crate::anchor::AnchorAttribute for AriaExpanded {}
impl crate::area::AreaAttribute for AriaExpanded {}
impl crate::audio::AudioAttribute for AriaExpanded {}
impl crate::base::BaseAttribute for AriaExpanded {}
impl crate::blockquote::BlockQuoteAttribute for AriaExpanded {}
impl crate::button::ButtonAttribute for AriaExpanded {}
impl crate::canvas::CanvasAttribute for AriaExpanded {}
impl crate::col::ColAttribute for AriaExpanded {}
impl crate::colgroup::ColGroupAttribute for AriaExpanded {}
impl crate::data::DataAttribute for AriaExpanded {}
impl crate::details::DetailsAttribute for AriaExpanded {}
impl crate::svg::SvgAttribute for AriaExpanded {}

/// <https://developer.mozilla.org/en-US/docs/Web/Accessibility/ARIA/Attributes/aria-flowto>
#[derive(Debug)]
pub struct AriaFlowTo(String);

impl AriaFlowTo {
    /// Joins the given words with spaces.
    pub fn new(val: Vec<String>) -> (r: Self)
        ensures
            r.spec_val() == Some(spec_join_spaces(val@.map_values(|s: String| s@))),
    {
        AriaFlowTo(join_spaces(&val))
    }
}

impl Attribute for AriaFlowTo {
    open spec fn spec_key(&self) -> Seq<char> {
        "aria-flowto"@
    }

    closed spec fn spec_val(&self) -> Option<Seq<char>> {
        Some(self.0@)
    }

    fn get_key(&self) -> &str {
        "aria-flowto"
    }

    fn get_val(&self) -> Option<&str> {
        Some(self.0.as_str())
    }
}

impl crate::anchor::AnchorAttribute for AriaFlowTo {}
impl crate::area::AreaAttribute for AriaFlowTo {}
impl crate::audio::AudioAttribute for AriaFlowTo {}
impl crate::base::BaseAttribute for AriaFlowTo {}
impl crate::blockquote::BlockQuoteAttribute for AriaFlowTo {}
impl crate::button::ButtonAttribute for AriaFlowTo {}
impl crate::canvas::CanvasAttribute for AriaFlowTo {}
impl crate::col::ColAttribute for AriaFlowTo {}
impl crate::colgroup::ColGroupAttribute for AriaFlowTo {}
impl crate::data::DataAttribute for AriaFlowTo {}
impl crate::details::DetailsAttribute for AriaFlowTo {}
impl crate::svg::SvgAttribute for AriaFlowTo {}

/// <https://developer.mozilla.org/en-US/docs/Web/Accessibility/ARIA/Attributes/aria-grabbed>
#[derive(Debug)]
pub struct AriaGrabbed(String);

impl AriaGrabbed {
    /// Stores the flag serialized as `true` or `false`.
    pub fn new(val: bool) -> (r: Self)
        ensures
            r.spec_val() == Some(spec_bool(val)),
    {
        AriaGrabbed(bool_to_string(val))
    }
}

impl Attribute for AriaGrabbed {
    open spec fn spec_key(&self) -> Seq<char> {
        "aria-grabbed"@
    }

    closed spec fn spec_val(&self) -> Option<Seq<char>> {
        Some(self.0@)
    }

    fn get_key(&self) -> &str {
        "aria-grabbed"
    }

    fn get_val(&self) -> Option<&str> {
        Some(self.0.as_str())
    }
}

impl crate::anchor::AnchorAttribute for AriaGrabbed {}
impl crate::area::AreaAttribute for AriaGrabbed {}
impl crate::audio::AudioAttribute for AriaGrabbed {}
impl crate::base::BaseAttribute for AriaGrabbed {}
impl crate::blockquote::BlockQuoteAttribute for AriaGrabbed {}
impl crate::button::ButtonAttribute for AriaGrabbed {}
impl crate::canvas::CanvasAttribute for AriaGrabbed {}
impl crate::col::ColAttribute for AriaGrabbed {}
impl crate::colgroup::ColGroupAttribute for AriaGrabbed {}
impl crate::data::DataAttribute for AriaGrabbed {}
impl crate::details::DetailsAttribute for AriaGrabbed {}
impl crate::svg::SvgAttribute for AriaGrabbed {}

/// <https://developer.mozilla.org/en-US/docs/Web/Accessibility/ARIA/Attributes/aria-haspopup>
#[derive(Debug)]
pub struct AriaHasPopup(AriaHasPopupOption);

impl AriaHasPopup {
    /// Wraps the chosen option.
    pub fn new(val: AriaHasPopupOption) -> (r: Self)
        ensures
            r.spec_val() == Some(val.spec_str()),
    {
        AriaHasPopup(val)
    }
}

impl Attribute for AriaHasPopup {
    open spec fn spec_key(&self) -> Seq<char> {
        "aria-haspopup"@
    }

    closed spec fn spec_val(&self) -> Option<Seq<char>> {
        Some(self.0.spec_str())
    }

    fn get_key(&self) -> &str {
        "aria-haspopup"
    }

    fn get_val(&self) -> Option<&str> {
        Some(self.0.as_str())
    }
}

impl crate::anchor::AnchorAttribute for AriaHasPopup {}
impl crate::area::AreaAttribute for AriaHasPopup {}
impl crate::audio::AudioAttribute for AriaHasPopup {}
impl crate::base::BaseAttribute for AriaHasPopup {}
impl crate::blockquote::BlockQuoteAttribute for AriaHasPopup {}
impl crate::button::ButtonAttribute for AriaHasPopup {}
impl crate::canvas::CanvasAttribute for AriaHasPopup {}
impl crate::col::ColAttribute for AriaHasPopup {}
impl crate::colgroup::ColGroupAttribute for AriaHasPopup {}
impl crate::data::DataAttribute for AriaHasPopup {}
impl crate::details::DetailsAttribute for AriaHasPopup {}
impl crate::svg::SvgAttribute for AriaHasPopup {}

/// <https://developer.mozilla.org/en-US/docs/Web/Accessibility/ARIA/Attributes/aria-hidden>
#[derive(Debug)]
pub struct AriaHidden(String);

impl AriaHidden {
    /// Stores the flag serialized as `true` or `false`.
    pub fn new(val: bool) -> (r: Self)
        ensures
            r.spec_val() == Some(spec_bool(val)),
    {
        AriaHidden(bool_to_string(val))
    }
}

impl Attribute for AriaHidden {
    open spec fn spec_key(&self) -> Seq<char> {
        "aria-hidden"@
    }

    closed spec fn spec_val(&self) -> Option<Seq<char>> {
        Some(self.0@)
    }

    fn get_key(&self) -> &str {
        "aria-hidden"
    }

    fn get_val(&self) -> Option<&str> {
        Some(self.0.as_str())
    }
}

impl crate::anchor::AnchorAttribute for AriaHidden {}
impl crate::area::AreaAttribute for AriaHidden {}
impl crate::audio::AudioAttribute for AriaHidden {}
impl crate::base::BaseAttribute for AriaHidden {}
impl crate::blockquote::BlockQuoteAttribute for AriaHidden {}
impl crate::button::ButtonAttribute for AriaHidden {}
impl crate::canvas::CanvasAttribute for AriaHidden {}
impl crate::col::ColAttribute for AriaHidden {}
impl crate::colgroup::ColGroupAttribute for AriaHidden {}
impl crate::data::DataAttribute for AriaHidden {}
impl crate::details::DetailsAttribute for AriaHidden {}
impl crate::svg::SvgAttribute for AriaHidden {}

/// <https://developer.mozilla.org/en-US/docs/Web/Accessibility/ARIA/Attributes/aria-invalid>
#[derive(Debug)]
pub struct AriaInvalid(AriaHasPopupOption);

impl AriaInvalid {
    /// Wraps the chosen option.
    pub fn new(val: AriaHasPopupOption) -> (r: Self)
        ensures
            r.spec_val() == Some(val.spec_str()),
    {
        AriaInvalid(val)
    }
}

impl Attribute for AriaInvalid {
    open spec fn spec_key(&self) -> Seq<char> {
        "aria-invalid"@
    }

    closed spec fn spec_val(&self) -> Option<Seq<char>> {
        Some(self.0.spec_str())
    }

    fn get_key(&self) -> &str {
        "aria-invalid"
    }

    fn get_val(&self) -> Option<&str> {
        Some(self.0.as_str())
    }
}

/// <https://developer.mozilla.org/en-US/docs/Web/Accessibility/ARIA/Attributes/aria-keyshortcuts>
#[derive(Debug)]
pub struct AriaKeyshortcuts(String);

impl AriaKeyshortcuts {
    /// Wraps the given value.
    pub fn new(val: String) -> (r: Self)
        ensures
            r.spec_val() == Some(val@),
    {
        AriaKeyshortcuts(val)
    }
}

impl Attribute for AriaKeyshortcuts {
    open spec fn spec_key(&self) -> Seq<char> {
        "aria-keyshortcuts"@
    }

    closed spec fn spec_val(&self) -> Option<Seq<char>> {
        Some(self.0@)
    }

    fn get_key(&self) -> &str {
        "aria-keyshortcuts"
    }

    fn get_val(&self) -> Option<&str> {
        Some(self.0.as_str())
    }
}

impl crate::anchor::AnchorAttribute for AriaKeyshortcuts {}
impl crate::area::AreaAttribute for AriaKeyshortcuts {}
impl crate::audio::AudioAttribute for AriaKeyshortcuts {}
impl crate::base::BaseAttribute for AriaKeyshortcuts {}
impl crate::blockquote::BlockQuoteAttribute for AriaKeyshortcuts {}
impl crate::button::ButtonAttribute for AriaKeyshortcuts {}
impl crate::canvas::CanvasAttribute for AriaKeyshortcuts {}
impl crate::col::ColAttribute for AriaKeyshortcuts {}
impl crate::colgroup::ColGroupAttribute for AriaKeyshortcuts {}
impl crate::data::DataAttribute for AriaKeyshortcuts {}
impl crate::details::DetailsAttribute for AriaKeyshortcuts {}
impl crate::svg::SvgAttribute for AriaKeyshortcuts {}

/// <https://developer.mozilla.org/en-US/docs/Web/Accessibility/ARIA/Attributes/aria-label>
#[derive(Debug)]
pub struct AriaLabel(String);

impl AriaLabel {
    /// Wraps the given value.
    pub fn new(val: String) -> (r: Self)
        ensures
            r.spec_val() == Some(val@),
    {
        AriaLabel(val)
    }
}

impl Attribute for AriaLabel {
    open spec fn spec_key(&self) -> Seq<char> {
        "aria-label"@
    }

    closed spec fn spec_val(&self) -> Option<Seq<char>> {
        Some(self.0@)
    }

    fn get_key(&self) -> &str {
        "aria-label"
    }

    fn get_val(&self) -> Option<&str> {
        Some(self.0.as_str())
    }
}

impl crate::anchor::AnchorAttribute for AriaLabel {}
impl crate::area::AreaAttribute for AriaLabel {}
impl crate::audio::AudioAttribute for AriaLabel {}
impl crate::base::BaseAttribute for AriaLabel {}
impl crate::blockquote::BlockQuoteAttribute for AriaLabel {}
impl crate::button::ButtonAttribute for AriaLabel {}
impl crate::canvas::CanvasAttribute for AriaLabel {}
impl crate::col::ColAttribute for AriaLabel {}
impl crate::colgroup::ColGroupAttribute for AriaLabel {}
impl crate::data::DataAttribute for AriaLabel {}
impl crate::details::DetailsAttribute for AriaLabel {}
impl crate::svg::SvgAttribute for AriaLabel {}

/// <https://developer.mozilla.org/en-US/docs/Web/Accessibility/ARIA/Attributes/aria-labelledby>
#[derive(Debug)]
pub struct AriaLabelledBy(String);

impl AriaLabelledBy {
    /// Joins the given words with spaces.
    pub fn new(val: Vec<String>) -> (r: Self)
        ensures
            r.spec_val() == Some(spec_join_spaces(val@.map_values(|s: String| s@))),
    {
        AriaLabelledBy(join_spaces(&val))
    }
}

impl Attribute for AriaLabelledBy {
    open spec fn spec_key(&self) -> Seq<char> {
        "aria-labelledby"@
    }

    closed spec fn spec_val(&self) -> Option<Seq<char>> {
        Some(self.0@)
    }

    fn get_key(&self) -> &str {
        "aria-labelledby"
    }

    fn get_val(&self) -> Option<&str> {
        Some(self.0.as_str())
    }
}

impl crate::anchor::AnchorAttribute for AriaLabelledBy {}
impl crate::area::AreaAttribute for AriaLabelledBy {}
impl crate::audio::AudioAttribute for AriaLabelledBy {}
impl crate::base::BaseAttribute for AriaLabelledBy {}
impl crate::blockquote::BlockQuoteAttribute for AriaLabelledBy {}
impl crate::button::ButtonAttribute for AriaLabelledBy {}
impl crate::canvas::CanvasAttribute for AriaLabelledBy {}
impl crate::col::ColAttribute for AriaLabelledBy {}
impl crate::colgroup::ColGroupAttribute for AriaLabelledBy {}
impl crate::data::DataAttribute for AriaLabelledBy {}
impl crate::details::DetailsAttribute for AriaLabelledBy {}
impl crate::svg::SvgAttribute for AriaLabelledBy {}

/// <https://developer.mozilla.org/en-US/docs/Web/Accessibility/ARIA/Attributes/aria-level>
#[derive(Debug)]
pub struct AriaLevel(String);

impl AriaLevel {
    /// Stores the number rendered in decimal.
    pub fn new(val: u8) -> (r: Self)
        ensures
            r.spec_val() == Some(spec_udec(val as nat)),
    {
        AriaLevel(u64_to_string(val as u64))
    }
}

impl Attribute for AriaLevel {
    open spec fn spec_key(&self) -> Seq<char> {
        "aria-level"@
    }

    closed spec fn spec_val(&self) -> Option<Seq<char>> {
        Some(self.0@)
    }

    fn get_key(&self) -> &str {
        "aria-level"
    }

    fn get_val(&self) -> Option<&str> {
        Some(self.0.as_str())
    }
}

impl crate::anchor::AnchorAttribute for AriaLevel {}
impl crate::area::AreaAttribute for AriaLevel {}
impl crate::audio::AudioAttribute for AriaLevel {}
impl crate::base::BaseAttribute for AriaLevel {}
impl crate::blockquote::BlockQuoteAttribute for AriaLevel {}
impl crate::button::ButtonAttribute for AriaLevel {}
impl crate::canvas::CanvasAttribute for AriaLevel {}
impl crate::col::ColAttribute for AriaLevel {}
impl crate::colgroup::ColGroupAttribute for AriaLevel {}
impl crate::data::DataAttribute for AriaLevel {}
impl crate::details::DetailsAttribute for AriaLevel {}
impl crate::svg::SvgAttribute for AriaLevel {}

/// <https://developer.mozilla.org/en-US/docs/Web/Accessibility/ARIA/Attributes/aria-live>
#[derive(Debug)]
pub struct AriaLive(AriaLiveOption);

impl AriaLive {
    /// Wraps the chosen option.
    pub fn new(val: AriaLiveOption) -> (r: Self)
        ensures
            r.spec_val() == Some(val.spec_str()),
    {
        AriaLive(val)
    }
}

impl Attribute for AriaLive {
    open spec fn spec_key(&self) -> Seq<char> {
        "aria-live"@
    }

    closed spec fn spec_val(&self) -> Option<Seq<char>> {
        Some(self.0.spec_str())
    }

    fn get_key(&self) -> &str {
        "aria-live"
    }

    fn get_val(&self) -> Option<&str> {
        Some(self.0.as_str())
    }
}

impl crate::anchor::AnchorAttribute for AriaLive {}
impl crate::area::AreaAttribute for AriaLive {}
impl crate::audio::AudioAttribute for AriaLive {}
impl crate::base::BaseAttribute for AriaLive {}
impl crate::blockquote::BlockQuoteAttribute for AriaLive {}
impl crate::button::ButtonAttribute for AriaLive {}
impl crate::canvas::CanvasAttribute for AriaLive {}
impl crate::col::ColAttribute for AriaLive {}
impl crate::colgroup::ColGroupAttribute for AriaLive {}
impl crate::data::DataAttribute for AriaLive {}
impl crate::details::DetailsAttribute for AriaLive {}
impl crate::svg::SvgAttribute for AriaLive {}

/// <https://developer.mozilla.org/en-US/docs/Web/Accessibility/ARIA/Attributes/aria-modal>
#[derive(Debug)]
pub struct AriaModal(String);

impl AriaModal {
    /// Stores the flag serialized as `true` or `false`.
    pub fn new(val: bool) -> (r: Self)
        ensures
            r.spec_val() == Some(spec_bool(val)),
    {
        AriaModal(bool_to_string(val))
    }
}

impl Attribute for AriaModal {
    open spec fn spec_key(&self) -> Seq<char> {
        "aria-modal"@
    }

    closed spec fn spec_val(&self) -> Option<Seq<char>> {
        Some(self.0@)
    }

    fn get_key(&self) -> &str {
        "aria-modal"
    }

    fn get_val(&self) -> Option<&str> {
        Some(self.0.as_str())
    }
}

impl crate::anchor::AnchorAttribute for AriaModal {}
impl crate::area::AreaAttribute for AriaModal {}
impl crate::audio::AudioAttribute for AriaModal {}
impl crate::base::BaseAttribute for AriaModal {}
impl crate::blockquote::BlockQuoteAttribute for AriaModal {}
impl crate::button::ButtonAttribute for AriaModal {}
impl crate::canvas::CanvasAttribute for AriaModal {}
impl crate::col::ColAttribute for AriaModal {}
impl crate::colgroup::ColGroupAttribute for AriaModal {}
impl crate::data::DataAttribute for AriaModal {}
impl crate::details::DetailsAttribute for AriaModal {}
impl crate::svg::SvgAttribute for AriaModal {}

/// <https://developer.mozilla.org/en-US/docs/Web/Accessibility/ARIA/Attributes/aria-multiline>
#[derive(Debug)]
pub struct AriaMultiline(String);

impl AriaMultiline {
    /// Stores the flag serialized as `true` or `false`.
    pub fn new(val: bool) -> (r: Self)
        ensures
            r.spec_val() == Some(spec_bool(val)),
    {
        AriaMultiline(bool_to_string(val))
    }
}

impl Attribute for AriaMultiline {
    open spec fn spec_key(&self) -> Seq<char> {
        "aria-multiline"@
    }

    closed spec fn spec_val(&self) -> Option<Seq<char>> {
        Some(self.0@)
    }

    fn get_key(&self) -> &str {
        "aria-multiline"
    }

    fn get_val(&self) -> Option<&str> {
        Some(self.0.as_str())
    }
}

impl crate::anchor::AnchorAttribute for AriaMultiline {}
impl crate::area::AreaAttribute for AriaMultiline {}
impl crate::audio::AudioAttribute for AriaMultiline {}
impl crate::base::BaseAttribute for AriaMultiline {}
impl crate::blockquote::BlockQuoteAttribute for AriaMultiline {}
impl crate::button::ButtonAttribute for AriaMultiline {}
impl crate::canvas::CanvasAttribute for AriaMultiline {}
impl crate::col::ColAttribute for AriaMultiline {}
impl crate::colgroup::ColGroupAttribute for AriaMultiline {}
impl crate::data::DataAttribute for AriaMultiline {}
impl crate::details::DetailsAttribute for AriaMultiline {}
impl crate::svg::SvgAttribute for AriaMultiline {}

/// <https://developer.mozilla.org/en-US/docs/Web/Accessibility/ARIA/Attributes/aria-multiselectable>
#[derive(Debug)]
pub struct AriaMultiselectable(String);

impl AriaMultiselectable {
    /// Stores the flag serialized as `true` or `false`.
    pub fn new(val: bool) -> (r: Self)
        ensures
            r.spec_val() == Some(spec_bool(val)),
    {
        AriaMultiselectable(bool_to_string(val))
    }
}

impl Attribute for AriaMultiselectable {
    open spec fn spec_key(&self) -> Seq<char> {
        "aria-multiselectable"@
    }

    closed spec fn spec_val(&self) -> Option<Seq<char>> {
        Some(self.0@)
    }

    fn get_key(&self) -> &str {
        "aria-multiselectable"
    }

    fn get_val(&self) -> Option<&str> {
        Some(self.0.as_str())
    }
}

impl crate::anchor::AnchorAttribute for AriaMultiselectable {}
impl crate::area::AreaAttribute for AriaMultiselectable {}
impl crate::audio::AudioAttribute for AriaMultiselectable {}
impl crate::base::BaseAttribute for AriaMultiselectable {}
impl crate::blockquote::BlockQuoteAttribute for AriaMultiselectable {}
impl crate::button::ButtonAttribute for AriaMultiselectable {}
impl crate::canvas::CanvasAttribute for AriaMultiselectable {}
impl crate::col::ColAttribute for AriaMultiselectable {}
impl crate::colgroup::ColGroupAttribute for AriaMultiselectable {}
impl crate::data::DataAttribute for AriaMultiselectable {}
impl crate::details::DetailsAttribute for AriaMultiselectable {}
impl crate::svg::SvgAttribute for AriaMultiselectable {}

/// <https://developer.mozilla.org/en-US/docs/Web/Accessibility/ARIA/Attributes/aria-orientation>
#[derive(Debug)]
pub struct AriaOrientation(AriaOrientationOption);

impl AriaOrientation {
    /// Wraps the chosen option.
    pub fn new(val: AriaOrientationOption) -> (r: Self)
        ensures
            r.spec_val() == Some(val.spec_str()),
    {
        AriaOrientation(val)
    }
}

impl Attribute for AriaOrientation {
    open spec fn spec_key(&self) -> Seq<char> {
        "aria-orientation"@
    }

    closed spec fn spec_val(&self) -> Option<Seq<char>> {
        Some(self.0.spec_str())
    }

    fn get_key(&self) -> &str {
        "aria-orientation"
    }

    fn get_val(&self) -> Option<&str> {
        Some(self.0.as_str())
    }
}

impl crate::anchor::AnchorAttribute for AriaOrientation {}
impl crate::area::AreaAttribute for AriaOrientation {}
impl crate::audio::AudioAttribute for AriaOrientation {}
impl crate::base::BaseAttribute for AriaOrientation {}
impl crate::blockquote::BlockQuoteAttribute for AriaOrientation {}
impl crate::button::ButtonAttribute for AriaOrientation {}
impl crate::canvas::CanvasAttribute for AriaOrientation {}
impl crate::col::ColAttribute for AriaOrientation {}
impl crate::colgroup::ColGroupAttribute for AriaOrientation {}
impl crate::data::DataAttribute for AriaOrientation {}
impl crate::details::DetailsAttribute for AriaOrientation {}
impl crate::svg::SvgAttribute for AriaOrientation {}

/// <https://developer.mozilla.org/en-US/docs/Web/Accessibility/ARIA/Attributes/aria-owns>
#[derive(Debug)]
pub struct AriaOwns(String);

impl AriaOwns {
    /// Joins the given words with spaces.
    pub fn new(val: Vec<String>) -> (r: Self)
        ensures
            r.spec_val() == Some(spec_join_spaces(val@.map_values(|s: String| s@))),
    {
        AriaOwns(join_spaces(&val))
    }
}

impl Attribute for AriaOwns {
    open spec fn spec_key(&self) -> Seq<char> {
        "aria-owns"@
    }

    closed spec fn spec_val(&self) -> Option<Seq<char>> {
        Some(self.0@)
    }

    fn get_key(&self) -> &str {
        "aria-owns"
    }

    fn get_val(&self) -> Option<&str> {
        Some(self.0.as_str())
    }
}

impl crate::anchor::AnchorAttribute for AriaOwns {}
impl crate::area::AreaAttribute for AriaOwns {}
impl crate::audio::AudioAttribute for AriaOwns {}
impl crate::base::BaseAttribute for AriaOwns {}
impl crate::blockquote::BlockQuoteAttribute for AriaOwns {}
impl crate::button::ButtonAttribute for AriaOwns {}
impl crate::canvas::CanvasAttribute for AriaOwns {}
impl crate::col::ColAttribute for AriaOwns {}
impl crate::colgroup::ColGroupAttribute for AriaOwns {}
impl crate::data::DataAttribute for AriaOwns {}
impl crate::details::DetailsAttribute for AriaOwns {}
impl crate::svg::SvgAttribute for AriaOwns {}

/// <https://developer.mozilla.org/en-US/docs/Web/Accessibility/ARIA/Attributes/aria-placeholder>
#[derive(Debug)]
pub struct AriaPlaceholder(String);

impl AriaPlaceholder {
    /// Wraps the given value.
    pub fn new(val: String) -> (r: Self)
        ensures
            r.spec_val() == Some(val@),
    {
        AriaPlaceholder(val)
    }
}

impl Attribute for AriaPlaceholder {
    open spec fn spec_key(&self) -> Seq<char> {
        "aria-placeholder"@
    }

    closed spec fn spec_val(&self) -> Option<Seq<char>> {
        Some(self.0@)
    }

    fn get_key(&self) -> &str {
        "aria-placeholder"
    }

    fn get_val(&self) -> Option<&str> {
        Some(self.0.as_str())
    }
}

impl crate::anchor::AnchorAttribute for AriaPlaceholder {}
impl crate::area::AreaAttribute for AriaPlaceholder {}
impl crate::audio::AudioAttribute for AriaPlaceholder {}
impl crate::base::BaseAttribute for AriaPlaceholder {}
impl crate::blockquote::BlockQuoteAttribute for AriaPlaceholder {}
impl crate::button::ButtonAttribute for AriaPlaceholder {}
impl crate::canvas::CanvasAttribute for AriaPlaceholder {}
impl crate::col::ColAttribute for AriaPlaceholder {}
impl crate::colgroup::ColGroupAttribute for AriaPlaceholder {}
impl crate::data::DataAttribute for AriaPlaceholder {}
impl crate::details::DetailsAttribute for AriaPlaceholder {}
impl crate::svg::SvgAttribute for AriaPlaceholder {}

/// <https://developer.mozilla.org/en-US/docs/Web/Accessibility/ARIA/Attributes/aria-posinset>
#[derive(Debug)]
pub struct AriaPosInset(String);

impl AriaPosInset {
    /// Stores the number rendered in decimal.
    pub fn new(val: u16) -> (r: Self)
        ensures
            r.spec_val() == Some(spec_udec(val as nat)),
    {
        AriaPosInset(u64_to_string(val as u64))
    }
}

impl Attribute for AriaPosInset {
    open spec fn spec_key(&self) -> Seq<char> {
        "aria-posinset"@
    }

    closed spec fn spec_val(&self) -> Option<Seq<char>> {
        Some(self.0@)
    }

    fn get_key(&self) -> &str {
        "aria-posinset"
    }

    fn get_val(&self) -> Option<&str> {
        Some(self.0.as_str())
    }
}

impl crate::anchor::AnchorAttribute for AriaPosInset {}
impl crate::area::AreaAttribute for AriaPosInset {}
impl crate::audio::AudioAttribute for AriaPosInset {}
impl crate::base::BaseAttribute for AriaPosInset {}
impl crate::blockquote::BlockQuoteAttribute for AriaPosInset {}
impl crate::button::ButtonAttribute for AriaPosInset {}
impl crate::canvas::CanvasAttribute for AriaPosInset {}
impl crate::col::ColAttribute for AriaPosInset {}
impl crate::colgroup::ColGroupAttribute for AriaPosInset {}
impl crate::data::DataAttribute for AriaPosInset {}
impl crate::details::DetailsAttribute for AriaPosInset {}
impl crate::svg::SvgAttribute for AriaPosInset {}

/// <https://developer.mozilla.org/en-US/docs/Web/Accessibility/ARIA/Attributes/aria-pressed>
#[derive(Debug)]
pub struct AriaPressed(AriaOrientationOption);

impl AriaPressed {
    /// Wraps the chosen option.
    pub fn new(val: AriaOrientationOption) -> (r: Self)
        ensures
            r.spec_val() == Some(val.spec_str()),
    {
        AriaPressed(val)
    }
}

impl Attribute for AriaPressed {
    open spec fn spec_key(&self) -> Seq<char> {
        "aria-pressed"@
    }

    closed spec fn spec_val(&self) -> Option<Seq<char>> {
        Some(self.0.spec_str())
    }

    fn get_key(&self) -> &str {
        "aria-pressed"
    }

    fn get_val(&self) -> Option<&str> {
        Some(self.0.as_str())
    }
}

impl crate::button::ButtonAttribute for AriaPressed {}

/// <https://developer.mozilla.org/en-US/docs/Web/Accessibility/ARIA/Attributes/aria-readonly>
#[derive(Debug)]
pub struct AriaReadonly(String);

impl AriaReadonly {
    /// Stores the flag serialized as `true` or `false`.
    pub fn new(val: bool) -> (r: Self)
        ensures
            r.spec_val() == Some(spec_bool(val)),
    {
        AriaReadonly(bool_to_string(val))
    }
}

impl Attribute for AriaReadonly {
    open spec fn spec_key(&self) -> Seq<char> {
        "aria-readonly"@
    }

    closed spec fn spec_val(&self) -> Option<Seq<char>> {
        Some(self.0@)
    }

    fn get_key(&self) -> &str {
        "aria-readonly"
    }

    fn get_val(&self) -> Option<&str> {
        Some(self.0.as_str())
    }
}

impl crate::anchor::AnchorAttribute for AriaReadonly {}
impl crate::area::AreaAttribute for AriaReadonly {}
impl crate::audio::AudioAttribute for AriaReadonly {}
impl crate::base::BaseAttribute for AriaReadonly {}
impl crate::blockquote::BlockQuoteAttribute for AriaReadonly {}
impl crate::button::ButtonAttribute for AriaReadonly {}
impl crate::canvas::CanvasAttribute for AriaReadonly {}
impl crate::col::ColAttribute for AriaReadonly {}
impl crate::colgroup::ColGroupAttribute for AriaReadonly {}
impl crate::data::DataAttribute for AriaReadonly {}
impl crate::details::DetailsAttribute for AriaReadonly {}
impl crate::svg::SvgAttribute for AriaReadonly {}

/// <https://developer.mozilla.org/en-US/docs/Web/Accessibility/ARIA/Attributes/aria-relevant>
#[derive(Debug)]
pub struct AriaRelevant(AriaRelevantOption);

impl AriaRelevant {
    /// Wraps the chosen option.
    pub fn new(val: AriaRelevantOption) -> (r: Self)
        ensures
            r.spec_val() == Some(val.spec_str()),
    {
        AriaRelevant(val)
    }
}

impl Attribute for AriaRelevant {
    open spec fn spec_key(&self) -> Seq<char> {
        "aria-relevant"@
    }

    closed spec fn spec_val(&self) -> Option<Seq<char>> {
        Some(self.0.spec_str())
    }

    fn get_key(&self) -> &str {
        "aria-relevant"
    }

    fn get_val(&self) -> Option<&str> {
        Some(self.0.as_str())
    }
}

impl crate::anchor::AnchorAttribute for AriaRelevant {}
impl crate::area::AreaAttribute for AriaRelevant {}
impl crate::audio::AudioAttribute for AriaRelevant {}
impl crate::base::BaseAttribute for AriaRelevant {}
impl crate::blockquote::BlockQuoteAttribute for AriaRelevant {}
impl crate::button::ButtonAttribute for AriaRelevant {}
impl crate::canvas::CanvasAttribute for AriaRelevant {}
impl crate::col::ColAttribute for AriaRelevant {}
impl crate::colgroup::ColGroupAttribute for AriaRelevant {}
impl crate::data::DataAttribute for AriaRelevant {}
impl crate::details::DetailsAttribute for AriaRelevant {}
impl crate::svg::SvgAttribute for AriaRelevant {}

/// <https://developer.mozilla.org/en-US/docs/Web/Accessibility/ARIA/Attributes/aria-required>
#[derive(Debug)]
pub struct AriaRequired(String);

impl AriaRequired {
    /// Stores the flag serialized as `true` or `false`.
    pub fn new(val: bool) -> (r: Self)
        ensures
            r.spec_val() == Some(spec_bool(val)),
    {
        AriaRequired(bool_to_string(val))
    }
}

impl Attribute for AriaRequired {
    open spec fn spec_key(&self) -> Seq<char> {
        "aria-required"@
    }

    closed spec fn spec_val(&self) -> Option<Seq<char>> {
        Some(self.0@)
    }

    fn get_key(&self) -> &str {
        "aria-required"
    }

    fn get_val(&self) -> Option<&str> {
        Some(self.0.as_str())
    }
}

/// <https://developer.mozilla.org/en-US/docs/Web/Accessibility/ARIA/Attributes/aria-roledescription>
#[derive(Debug)]
pub struct AriaRoleDescription(String);

impl AriaRoleDescription {
    /// Wraps the given value.
    pub fn new(val: String) -> (r: Self)
        ensures
            r.spec_val() == Some(val@),
    {
        AriaRoleDescription(val)
    }
}

impl Attribute for AriaRoleDescription {
    open spec fn spec_key(&self) -> Seq<char> {
        "aria-roledescription"@
    }

    closed spec fn spec_val(&self) -> Option<Seq<char>> {
        Some(self.0@)
    }

    fn get_key(&self) -> &str {
        "aria-roledescription"
    }

    fn get_val(&self) -> Option<&str> {
        Some(self.0.as_str())
    }
}

impl crate::anchor::AnchorAttribute for AriaRoleDescription {}
impl crate::area::AreaAttribute for AriaRoleDescription {}
impl crate::audio::AudioAttribute for AriaRoleDescription {}
impl crate::base::BaseAttribute for AriaRoleDescription {}
impl crate::blockquote::BlockQuoteAttribute for AriaRoleDescription {}
impl crate::button::ButtonAttribute for AriaRoleDescription {}
impl crate::canvas::CanvasAttribute for AriaRoleDescription {}
impl crate::col::ColAttribute for AriaRoleDescription {}
impl crate::colgroup::ColGroupAttribute for AriaRoleDescription {}
impl crate::data::DataAttribute for AriaRoleDescription {}
impl crate::details::DetailsAttribute for AriaRoleDescription {}
impl crate::svg::SvgAttribute for AriaRoleDescription {}

/// <https://developer.mozilla.org/en-US/docs/Web/Accessibility/ARIA/Attributes/aria-rowcount>
#[derive(Debug)]
pub struct AriaRowCount(String);

impl AriaRowCount {
    /// Stores the number rendered in decimal.
    pub fn new(val: u8) -> (r: Self)
        ensures
            r.spec_val() == Some(spec_udec(val as nat)),
    {
        AriaRowCount(u64_to_string(val as u64))
    }
}

impl Attribute for AriaRowCount {
    open spec fn spec_key(&self) -> Seq<char> {
        "aria-rowcount"@
    }

    closed spec fn spec_val(&self) -> Option<Seq<char>> {
        Some(self.0@)
    }

    fn get_key(&self) -> &str {
        "aria-rowcount"
    }

    fn get_val(&self) -> Option<&str> {
        Some(self.0.as_str())
    }
}

/// <https://developer.mozilla.org/en-US/docs/Web/Accessibility/ARIA/Attributes/aria-rowindex>
#[derive(Debug)]
pub struct AriaRowIndex(String);

impl AriaRowIndex {
    /// Stores the number rendered in decimal.
    pub fn new(val: u8) -> (r: Self)
        ensures
            r.spec_val() == Some(spec_udec(val as nat)),
    {
        AriaRowIndex(u64_to_string(val as u64))
    }
}

impl Attribute for AriaRowIndex {
    open spec fn spec_key(&self) -> Seq<char> {
        "aria-rowindex"@
    }

    closed spec fn spec_val(&self) -> Option<Seq<char>> {
        Some(self.0@)
    }

    fn get_key(&self) -> &str {
        "aria-rowindex"
    }

    fn get_val(&self) -> Option<&str> {
        Some(self.0.as_str())
    }
}

/// <https://developer.mozilla.org/en-US/docs/Web/Accessibility/ARIA/Attributes/aria-rowspan>
#[derive(Debug)]
pub struct AriaRowSpan(String);

impl AriaRowSpan {
    /// Stores the number rendered in decimal.
    pub fn new(val: u8) -> (r: Self)
        ensures
            r.spec_val() == Some(spec_udec(val as nat)),
    {
        AriaRowSpan(u64_to_string(val as u64))
    }
}

impl Attribute for AriaRowSpan {
    open spec fn spec_key(&self) -> Seq<char> {
        "aria-rowspan"@
    }

    closed spec fn spec_val(&self) -> Option<Seq<char>> {
        Some(self.0@)
    }

    fn get_key(&self) -> &str {
        "aria-rowspan"
    }

    fn get_val(&self) -> Option<&str> {
        Some(self.0.as_str())
    }
}

/// <https://developer.mozilla.org/en-US/docs/Web/Accessibility/ARIA/Attributes/aria-selected>
#[derive(Debug)]
pub struct AriaSelected(String);

impl AriaSelected {
    /// Stores the flag serialized as `true` or `false`.
    pub fn new(val: bool) -> (r: Self)
        ensures
            r.spec_val() == Some(spec_bool(val)),
    {
        AriaSelected(bool_to_string(val))
    }
}

impl Attribute for AriaSelected {
    open spec fn spec_key(&self) -> Seq<char> {
        "aria-selected"@
    }

    closed spec fn spec_val(&self) -> Option<Seq<char>> {
        Some(self.0@)
    }

    fn get_key(&self) -> &str {
        "aria-selected"
    }

    fn get_val(&self) -> Option<&str> {
        Some(self.0.as_str())
    }
}

impl crate::anchor::AnchorAttribute for AriaSelected {}
impl crate::area::AreaAttribute for AriaSelected {}
impl crate::audio::AudioAttribute for AriaSelected {}
impl crate::base::BaseAttribute for AriaSelected {}
impl crate::blockquote::BlockQuoteAttribute for AriaSelected {}
impl crate::button::ButtonAttribute for AriaSelected {}
impl crate::canvas::CanvasAttribute for AriaSelected {}
impl crate::col::ColAttribute for AriaSelected {}
impl crate::colgroup::ColGroupAttribute for AriaSelected {}
impl crate::data::DataAttribute for AriaSelected {}
impl crate::details::DetailsAttribute for AriaSelected {}
impl crate::svg::SvgAttribute for AriaSelected {}

/// <https://developer.mozilla.org/en-US/docs/Web/Accessibility/ARIA/Attributes/aria-setsize>
#[derive(Debug)]
pub struct AriaSetSize(String);

impl AriaSetSize {
    /// Stores the number rendered in decimal.
    pub fn new(val: i16) -> (r: Self)
        ensures
            r.spec_val() == Some(spec_idec(val as int)),
    {
        AriaSetSize(i64_to_string(val as i64))
    }
}

impl Attribute for AriaSetSize {
    open spec fn spec_key(&self) -> Seq<char> {
        "aria-setsize"@
    }

    closed spec fn spec_val(&self) -> Option<Seq<char>> {
        Some(self.0@)
    }

    fn get_key(&self) -> &str {
        "aria-setsize"
    }

    fn get_val(&self) -> Option<&str> {
        Some(self.0.as_str())
    }
}

impl crate::anchor::AnchorAttribute for AriaSetSize {}
impl crate::area::AreaAttribute for AriaSetSize {}
impl crate::audio::AudioAttribute for AriaSetSize {}
impl crate::base::BaseAttribute for AriaSetSize {}
impl crate::blockquote::BlockQuoteAttribute for AriaSetSize {}
impl crate::button::ButtonAttribute for AriaSetSize {}
impl crate::canvas::CanvasAttribute for AriaSetSize {}
impl crate::col::ColAttribute for AriaSetSize {}
impl crate::colgroup::ColGroupAttribute for AriaSetSize {}
impl crate::data::DataAttribute for AriaSetSize {}
impl crate::details::DetailsAttribute for AriaSetSize {}
impl crate::svg::SvgAttribute for AriaSetSize {}

/// <https://developer.mozilla.org/en-US/docs/Web/Accessibility/ARIA/Attributes/aria-sort>
#[derive(Debug)]
pub struct AriaSort(AriaSortOption);

impl AriaSort {
    /// Wraps the chosen option.
    pub fn new(val: AriaSortOption) -> (r: Self)
        ensures
            r.spec_val() == Some(val.spec_str()),
    {
        AriaSort(val)
    }
}

impl Attribute for AriaSort {
    open spec fn spec_key(&self) -> Seq<char> {
        "aria-sort"@
    }

    closed spec fn spec_val(&self) -> Option<Seq<char>> {
        Some(self.0.spec_str())
    }

    fn get_key(&self) -> &str {
        "aria-sort"
    }

    fn get_val(&self) -> Option<&str> {
        Some(self.0.as_str())
    }
}

/// <https://developer.mozilla.org/en-US/docs/Web/Accessibility/ARIA/Attributes/aria-valuemax>
#[derive(Debug)]
pub struct AriaValueMax(String);

impl AriaValueMax {
    /// Stores the number rendered in decimal.
    pub fn new(val: i16) -> (r: Self)
        ensures
            r.spec_val() == Some(spec_idec(val as int)),
    {
        AriaValueMax(i64_to_string(val as i64))
    }
}

impl Attribute for AriaValueMax {
    open spec fn spec_key(&self) -> Seq<char> {
        "aria-valuemax"@
    }

    closed spec fn spec_val(&self) -> Option<Seq<char>> {
        Some(self.0@)
    }

    fn get_key(&self) -> &str {
        "aria-valuemax"
    }

    fn get_val(&self) -> Option<&str> {
        Some(self.0.as_str())
    }
}

impl crate::anchor::AnchorAttribute for AriaValueMax {}
impl crate::area::AreaAttribute for AriaValueMax {}
impl crate::audio::AudioAttribute for AriaValueMax {}
impl crate::base::BaseAttribute for AriaValueMax {}
impl crate::blockquote::BlockQuoteAttribute for AriaValueMax {}
impl crate::button::ButtonAttribute for AriaValueMax {}
impl crate::canvas::CanvasAttribute for AriaValueMax {}
impl crate::col::ColAttribute for AriaValueMax {}
impl crate::colgroup::ColGroupAttribute for AriaValueMax {}
impl crate::data::DataAttribute for AriaValueMax {}
impl crate::details::DetailsAttribute for AriaValueMax {}
impl crate::svg::SvgAttribute for AriaValueMax {}

/// <https://developer.mozilla.org/en-US/docs/Web/Accessibility/ARIA/Attributes/aria-valuemin>
#[derive(Debug)]
pub struct AriaValueMin(String);

impl AriaValueMin {
    /// Stores the number rendered in decimal.
    pub fn new(val: i16) -> (r: Self)
        ensures
            r.spec_val() == Some(spec_idec(val as int)),
    {
        AriaValueMin(i64_to_string(val as i64))
    }
}

impl Attribute for AriaValueMin {
    open spec fn spec_key(&self) -> Seq<char> {
        "aria-valuemin"@
    }

    closed spec fn spec_val(&self) -> Option<Seq<char>> {
        Some(self.0@)
    }

    fn get_key(&self) -> &str {
        "aria-valuemin"
    }

    fn get_val(&self) -> Option<&str> {
        Some(self.0.as_str())
    }
}

impl crate::anchor::AnchorAttribute for AriaValueMin {}
impl crate::area::AreaAttribute for AriaValueMin {}
impl crate::audio::AudioAttribute for AriaValueMin {}
impl crate::base::BaseAttribute for AriaValueMin {}
impl crate::blockquote::BlockQuoteAttribute for AriaValueMin {}
impl crate::button::ButtonAttribute for AriaValueMin {}
impl crate::canvas::CanvasAttribute for AriaValueMin {}
impl crate::col::ColAttribute for AriaValueMin {}
impl crate::colgroup::ColGroupAttribute for AriaValueMin {}
impl crate::data::DataAttribute for AriaValueMin {}
impl crate::details::DetailsAttribute for AriaValueMin {}
impl crate::svg::SvgAttribute for AriaValueMin {}

/// <https://developer.mozilla.org/en-US/docs/Web/Accessibility/ARIA/Attributes/aria-valuenow>
#[derive(Debug)]
pub struct AriaValueNow(String);

impl AriaValueNow {
    /// Stores the number rendered in decimal.
    pub fn new(val: i16) -> (r: Self)
        ensures
            r.spec_val() == Some(spec_idec(val as int)),
    {
        AriaValueNow(i64_to_string(val as i64))
    }
}

impl Attribute for AriaValueNow {
    open spec fn spec_key(&self) -> Seq<char> {
        "aria-valuenow"@
    }

    closed spec fn spec_val(&self) -> Option<Seq<char>> {
        Some(self.0@)
    }

    fn get_key(&self) -> &str {
        "aria-valuenow"
    }

    fn get_val(&self) -> Option<&str> {
        Some(self.0.as_str())
    }
}

impl crate::anchor::AnchorAttribute for AriaValueNow {}
impl crate::area::AreaAttribute for AriaValueNow {}
impl crate::audio::AudioAttribute for AriaValueNow {}
impl crate::base::BaseAttribute for AriaValueNow {}
impl crate::blockquote::BlockQuoteAttribute for AriaValueNow {}
impl crate::button::ButtonAttribute for AriaValueNow {}
impl crate::canvas::CanvasAttribute for AriaValueNow {}
impl crate::col::ColAttribute for AriaValueNow {}
impl crate::colgroup::ColGroupAttribute for AriaValueNow {}
impl crate::data::DataAttribute for AriaValueNow {}
impl crate::details::DetailsAttribute for AriaValueNow {}
impl crate::svg::SvgAttribute for AriaValueNow {}

/// <https://developer.mozilla.org/en-US/docs/Web/Accessibility/ARIA/Attributes/aria-valuetext>
#[derive(Debug)]
pub struct AriaValueText(String);

impl AriaValueText {
    /// Wraps the given value.
    pub fn new(val: String) -> (r: Self)
        ensures
            r.spec_val() == Some(val@),
    {
        AriaValueText(val)
    }
}

impl Attribute for AriaValueText {
    open spec fn spec_key(&self) -> Seq<char> {
        "aria-valuetext"@
    }

    closed spec fn spec_val(&self) -> Option<Seq<char>> {
        Some(self.0@)
    }

    fn get_key(&self) -> &str {
        "aria-valuetext"
    }

    fn get_val(&self) -> Option<&str> {
        Some(self.0.as_str())
    }
}

impl crate::anchor::AnchorAttribute for AriaValueText {}
impl crate::area::AreaAttribute for AriaValueText {}
impl crate::audio::AudioAttribute for AriaValueText {}
impl crate::base::BaseAttribute for AriaValueText {}
impl crate::blockquote::BlockQuoteAttribute for AriaValueText {}
impl crate::button::ButtonAttribute for AriaValueText {}
impl crate::canvas::CanvasAttribute for AriaValueText {}
impl crate::col::ColAttribute for AriaValueText {}
impl crate::colgroup::ColGroupAttribute for AriaValueText {}
impl crate::data::DataAttribute for AriaValueText {}
impl crate::details::DetailsAttribute for AriaValueText {}
impl crate::svg::SvgAttribute for AriaValueText {}

/// Models the possible values of the `aria-autocomplete` attribute.
///
/// <https://developer.mozilla.org/en-US/docs/Web/Accessibility/ARIA/Attributes/aria-autocomplete>
#[derive(Debug, Default)]
pub enum AriaAutocompleteOption {
    #[default]
    NoneValue,
    Inline,
    List,
    Both,
}

impl AriaAutocompleteOption {
    /// The serialized form of the option.
    pub open spec fn spec_str(&self) -> Seq<char> {
        match self {
            AriaAutocompleteOption::NoneValue => "none"@,
            AriaAutocompleteOption::Inline => "inline"@,
            AriaAutocompleteOption::List => "list"@,
            AriaAutocompleteOption::Both => "both"@,
        }
    }

    /// The serialized form of the option.
    pub fn as_str(&self) -> (r: &str)
        ensures
            r@ == self.spec_str(),
    {
        match self {
            AriaAutocompleteOption::NoneValue => "none",
            AriaAutocompleteOption::Inline => "inline",
            AriaAutocompleteOption::List => "list",
            AriaAutocompleteOption::Both => "both",
        }
    }
}

/// Models the possible values of the `aria-checked` attribute.
///
/// <https://developer.mozilla.org/en-US/docs/Web/Accessibility/ARIA/Attributes/aria-checked>
#[derive(Debug, Default)]
pub enum AriaCheckedOption {
    False,
    Mixed,
    True,
    #[default]
    Undefined,
}

impl AriaCheckedOption {
    /// The serialized form of the option.
    pub open spec fn spec_str(&self) -> Seq<char> {
        match self {
            AriaCheckedOption::False => "false"@,
            AriaCheckedOption::Mixed => "mixed"@,
            AriaCheckedOption::True => "true"@,
            AriaCheckedOption::Undefined => "undefined"@,
        }
    }

    /// The serialized form of the option.
    pub fn as_str(&self) -> (r: &str)
        ensures
            r@ == self.spec_str(),
    {
        match self {
            AriaCheckedOption::False => "false",
            AriaCheckedOption::Mixed => "mixed",
            AriaCheckedOption::True => "true",
            AriaCheckedOption::Undefined => "undefined",
        }
    }
}

/// Models the possible values of the `aria-current` attribute.
///
/// <https://developer.mozilla.org/en-US/docs/Web/Accessibility/ARIA/Attributes/aria-current>
#[derive(Debug, Default)]
pub enum AriaCurrentOption {
    #[default]
    False,
    True,
    Page,
    Step,
    Location,
    Date,
    Time,
}

impl AriaCurrentOption {
    /// The serialized form of the option.
    pub open spec fn spec_str(&self) -> Seq<char> {
        match self {
            AriaCurrentOption::False => "false"@,
            AriaCurrentOption::True => "true"@,
            AriaCurrentOption::Page => "page"@,
            AriaCurrentOption::Step => "step"@,
            AriaCurrentOption::Location => "location"@,
            AriaCurrentOption::Date => "date"@,
            AriaCurrentOption::Time => "time"@,
        }
    }

    /// The serialized form of the option.
    pub fn as_str(&self) -> (r: &str)
        ensures
            r@ == self.spec_str(),
    {
        match self {
            AriaCurrentOption::False => "false",
            AriaCurrentOption::True => "true",
            AriaCurrentOption::Page => "page",
            AriaCurrentOption::Step => "step",
            AriaCurrentOption::Location => "location",
            AriaCurrentOption::Date => "date",
            AriaCurrentOption::Time => "time",
        }
    }
}

/// Models the possible values of the `aria-dropeffect` attribute.
///
/// <https://developer.mozilla.org/en-US/docs/Web/Accessibility/ARIA/Attributes/aria-dropeffect>
#[derive(Debug, Default)]
pub enum AriaDropEffectOption {
    #[default]
    NoneValue,
    Copy,
    Execute,
    Link,
    Move,
    Popup,
}

impl AriaDropEffectOption {
    /// The serialized form of the option.
    pub open spec fn spec_str(&self) -> Seq<char> {
        match self {
            AriaDropEffectOption::NoneValue => "none"@,
            AriaDropEffectOption::Copy => "copy"@,
            AriaDropEffectOption::Execute => "execute"@,
            AriaDropEffectOption::Link => "link"@,
            AriaDropEffectOption::Move => "move"@,
            AriaDropEffectOption::Popup => "popup"@,
        }
    }

    /// The serialized form of the option.
    pub fn as_str(&self) -> (r: &str)
        ensures
            r@ == self.spec_str(),
    {
        match self {
            AriaDropEffectOption::NoneValue => "none",
            AriaDropEffectOption::Copy => "copy",
            AriaDropEffectOption::Execute => "execute",
            AriaDropEffectOption::Link => "link",
            AriaDropEffectOption::Move => "move",
            AriaDropEffectOption::Popup => "popup",
        }
    }
}

/// Models the possible values of the `aria-haspopup` attribute.
///
/// <https://developer.mozilla.org/en-US/docs/Web/Accessibility/ARIA/Attributes/aria-haspopup>
#[derive(Debug, Default)]
pub enum AriaHasPopupOption {
    #[default]
    False,
    True,
    Menu,
    Listbox,
    Tree,
    Grid,
    Dialog,
}

impl AriaHasPopupOption {
    /// The serialized form of the option.
    pub open spec fn spec_str(&self) -> Seq<char> {
        match self {
            AriaHasPopupOption::False => "false"@,
            AriaHasPopupOption::True => "true"@,
            AriaHasPopupOption::Menu => "menu"@,
            AriaHasPopupOption::Listbox => "listbox"@,
            AriaHasPopupOption::Tree => "tree"@,
            AriaHasPopupOption::Grid => "grid"@,
            AriaHasPopupOption::Dialog => "dialog"@,
        }
    }

    /// The serialized form of the option.
    pub fn as_str(&self) -> (r: &str)
        ensures
            r@ == self.spec_str(),
    {
        match self {
            AriaHasPopupOption::False => "false",
            AriaHasPopupOption::True => "true",
            AriaHasPopupOption::Menu => "menu",
            AriaHasPopupOption::Listbox => "listbox",
            AriaHasPopupOption::Tree => "tree",
            AriaHasPopupOption::Grid => "grid",
            AriaHasPopupOption::Dialog => "dialog",
        }
    }
}

/// Models the possible values of the `aria-invalid` attribute.
///
/// <https://developer.mozilla.org/en-US/docs/Web/Accessibility/ARIA/Attributes/aria-invalid>
#[derive(Debug, Default)]
pub enum AriaInvalidOption {
    #[default]
    False,
    True,
    Grammar,
    Spelling,
}

impl AriaInvalidOption {
    /// The serialized form of the option.
    pub open spec fn spec_str(&self) -> Seq<char> {
        match self {
            AriaInvalidOption::False => "false"@,
            AriaInvalidOption::True => "true"@,
            AriaInvalidOption::Grammar => "grammar"@,
            AriaInvalidOption::Spelling => "spelling"@,
        }
    }

    /// The serialized form of the option.
    pub fn as_str(&self) -> (r: &str)
        ensures
            r@ == self.spec_str(),
    {
        match self {
            AriaInvalidOption::False => "false",
            AriaInvalidOption::True => "true",
            AriaInvalidOption::Grammar => "grammar",
            AriaInvalidOption::Spelling => "spelling",
        }
    }
}

/// Models the possible values of the `aria-live` attribute.
///
/// <https://developer.mozilla.org/en-US/docs/Web/Accessibility/ARIA/Attributes/aria-live>
#[derive(Debug, Default)]
pub enum AriaLiveOption {
    #[default]
    Off,
    Assertive,
    Polite,
}

impl AriaLiveOption {
    /// The serialized form of the option.
    pub open spec fn spec_str(&self) -> Seq<char> {
        match self {
            AriaLiveOption::Off => "off"@,
            AriaLiveOption::Assertive => "assertive"@,
            AriaLiveOption::Polite => "polite"@,
        }
    }

    /// The serialized form of the option.
    pub fn as_str(&self) -> (r: &str)
        ensures
            r@ == self.spec_str(),
    {
        match self {
            AriaLiveOption::Off => "off",
            AriaLiveOption::Assertive => "assertive",
            AriaLiveOption::Polite => "polite",
        }
    }
}

/// Models the possible values of the `aria-orientation` attribute.
///
/// <https://developer.mozilla.org/en-US/docs/Web/Accessibility/ARIA/Attributes/aria-orientation>
#[derive(Debug)]
pub enum AriaOrientationOption {
    Horizontal,
    Vertical,
}

impl AriaOrientationOption {
    /// The serialized form of the option.
    pub open spec fn spec_str(&self) -> Seq<char> {
        match self {
            AriaOrientationOption::Horizontal => "horizontal"@,
            AriaOrientationOption::Vertical => "vertical"@,
        }
    }

    /// The serialized form of the option.
    pub fn as_str(&self) -> (r: &str)
        ensures
            r@ == self.spec_str(),
    {
        match self {
            AriaOrientationOption::Horizontal => "horizontal",
            AriaOrientationOption::Vertical => "vertical",
        }
    }
}

/// Models the possible values of the `aria-relevant` attribute.
///
/// <https://developer.mozilla.org/en-US/docs/Web/Accessibility/ARIA/Attributes/aria-relevant>
#[derive(Debug, Default)]
pub enum AriaRelevantOption {
    Additions,
    AdditionsRemovals,
    #[default]
    AdditionsText,
    All,
    Removals,
    RemovalsAdditions,
    RemovalsText,
    Text,
    TextAdditions,
    TextRemovals,
}

impl AriaRelevantOption {
    /// The serialized form of the option.
    pub open spec fn spec_str(&self) -> Seq<char> {
        match self {
            AriaRelevantOption::Additions => "additions"@,
            AriaRelevantOption::AdditionsRemovals => "additions removals"@,
            AriaRelevantOption::AdditionsText => "additions text"@,
            AriaRelevantOption::All => "all"@,
            AriaRelevantOption::Removals => "removals"@,
            AriaRelevantOption::RemovalsAdditions => "removals additions"@,
            AriaRelevantOption::RemovalsText => "removals text"@,
            AriaRelevantOption::Text => "text"@,
            AriaRelevantOption::TextAdditions => "text additions"@,
            AriaRelevantOption::TextRemovals => "text removals"@,
        }
    }

    /// The serialized form of the option.
    pub fn as_str(&self) -> (r: &str)
        ensures
            r@ == self.spec_str(),
    {
        match self {
            AriaRelevantOption::Additions => "additions",
            AriaRelevantOption::AdditionsRemovals => "additions removals",
            AriaRelevantOption::AdditionsText => "additions text",
            AriaRelevantOption::All => "all",
            AriaRelevantOption::Removals => "removals",
            AriaRelevantOption::RemovalsAdditions => "removals additions",
            AriaRelevantOption::RemovalsText => "removals text",
            AriaRelevantOption::Text => "text",
            AriaRelevantOption::TextAdditions => "text additions",
            AriaRelevantOption::TextRemovals => "text removals",
        }
    }
}

/// Models the possible values of the `aria-sort` attribute.
///
/// <https://developer.mozilla.org/en-US/docs/Web/Accessibility/ARIA/Attributes/aria-sort>
#[derive(Debug, Default)]
pub enum AriaSortOption {
    #[default]
    NoneValue,
    Ascending,
    Descending,
    Other,
}

impl AriaSortOption {
    /// The serialized form of the option.
    pub open spec fn spec_str(&self) -> Seq<char> {
        match self {
            AriaSortOption::NoneValue => "none"@,
            AriaSortOption::Ascending => "ascending"@,
            AriaSortOption::Descending => "descending"@,
            AriaSortOption::Other => "other"@,
        }
    }

    /// The serialized form of the option.
    pub fn as_str(&self) -> (r: &str)
        ensures
            r@ == self.spec_str(),
    {
        match self {
            AriaSortOption::NoneValue => "none",
            AriaSortOption::Ascending => "ascending",
            AriaSortOption::Descending => "descending",
            AriaSortOption::Other => "other",
        }
    }
}

/// <https://developer.mozilla.org/en-US/docs/Web/Accessibility/ARIA/Attributes/aria-activedescendant>
#[derive(Debug)]
pub struct AriaActivedescendant(String);

impl AriaActivedescendant {
    /// Wraps the given element id.
    pub fn new(val: String) -> (r: Self)
        ensures
            r.spec_val() == Some(val@),
    {
        AriaActivedescendant(val)
    }
}

impl Attribute for AriaActivedescendant {
    open spec fn spec_key(&self) -> Seq<char> {
        "aria-activedescendant"@
    }

    closed spec fn spec_val(&self) -> Option<Seq<char>> {
        Some(self.0@)
    }

    fn get_key(&self) -> &str {
        "aria-activedescendant"
    }

    fn get_val(&self) -> Option<&str> {
        Some(self.0.as_str())
    }
}

/// <https://developer.mozilla.org/en-US/docs/Web/Accessibility/ARIA/Attributes/aria-errormessage>
#[derive(Debug)]
pub struct AriaErrormessage(String);

impl AriaErrormessage {
    /// Wraps the given element id.
    pub fn new(val: String) -> (r: Self)
        ensures
            r.spec_val() == Some(val@),
    {
        AriaErrormessage(val)
    }
}

impl Attribute for AriaErrormessage {
    open spec fn spec_key(&self) -> Seq<char> {
        "aria-errormessage"@
    }

    closed spec fn spec_val(&self) -> Option<Seq<char>> {
        Some(self.0@)
    }

    fn get_key(&self) -> &str {
        "aria-errormessage"
    }

    fn get_val(&self) -> Option<&str> {
        Some(self.0.as_str())
    }
}

} // verus!
