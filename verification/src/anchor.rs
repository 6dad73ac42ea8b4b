//! Attributes of the `a` (anchor) element.

use vstd::prelude::*;
use vstd::seq_lib::*;
use crate::text::{spec_join_spaces, join_spaces};
use crate::{Attribute, HtmlAttributeReferrerPolicy, TargetOption, Url};

verus! {

/// Marks an attribute as accepted by the `a` element.
pub trait AnchorAttribute: Attribute {}

/// <https://developer.mozilla.org/en-US/docs/Web/HTML/Element/a#attr-download>
#[derive(Debug)]
pub struct Download(String);

impl Download {
    /// Wraps the value for the `download` attribute; `None` leaves the
    /// value empty.
    pub fn new(val: Option<String>) -> (r: Self)
        ensures
            r.spec_val() == Some(
                match val {
                    Some(v) => v@,
                    None => Seq::<char>::empty(),
                },
            ),
    {
        match val {
            Some(v) => Download(v),
            None => Download(String::new()),
        }
    }
}

impl Attribute for Download {
    open spec fn spec_key(&self) -> Seq<char> {
        "download"@
    }

    closed spec fn spec_val(&self) -> Option<Seq<char>> {
        Some(self.0@)
    }

    fn get_key(&self) -> &str {
        "download"
    }

    fn get_val(&self) -> Option<&str> {
        Some(self.0.as_str())
    }
}

impl AnchorAttribute for Download {}

/// <https://developer.mozilla.org/en-US/docs/Web/HTML/Element/a#attr-href>
#[derive(Debug)]
pub struct Href(String);

impl Href {
    /// Stores the URL's serialization as the `href` value.
    pub fn new(val: Url) -> (r: Self)
        ensures
            r.spec_val() == Some(val.spec_str()),
    {
        Href(String::from_str(val.as_str()))
    }
}

impl Attribute for Href {
    open spec fn spec_key(&self) -> Seq<char> {
        "href"@
    }

    closed spec fn spec_val(&self) -> Option<Seq<char>> {
        Some(self.0@)
    }

    fn get_key(&self) -> &str {
        "href"
    }

    fn get_val(&self) -> Option<&str> {
        Some(self.0.as_str())
    }
}

impl AnchorAttribute for Href {}

/// <https://developer.mozilla.org/en-US/docs/Web/HTML/Element/a#attr-hreflang>
#[derive(Debug)]
pub struct HrefLang(String);

impl HrefLang {
    /// Wraps the language tag for the `hrefLang` attribute.
    pub fn new(val: String) -> (r: Self)
        ensures
            r.spec_val() == Some(val@),
    {
        HrefLang(val)
    }
}

impl Attribute for HrefLang {
    open spec fn spec_key(&self) -> Seq<char> {
        "hrefLang"@
    }

    closed spec fn spec_val(&self) -> Option<Seq<char>> {
        Some(self.0@)
    }

    fn get_key(&self) -> &str {
        "hrefLang"
    }

    fn get_val(&self) -> Option<&str> {
        Some(self.0.as_str())
    }
}

impl AnchorAttribute for HrefLang {}

/// <https://developer.mozilla.org/en-US/docs/Web/HTML/Element/a#attr-ping>
#[derive(Debug)]
pub struct Ping(String);

impl Ping {
    /// Joins the URLs' serializations with spaces, as the `ping`
    /// attribute expects.
    pub fn new(urls: Vec<Url>) -> (r: Self)
        ensures
            r.spec_val() == Some(spec_join_spaces(urls@.map_values(|u: Url| u.spec_str()))),
    {
        let mut parts: Vec<String> = Vec::new();
        let mut i: usize = 0;
        while i < urls.len()
            invariant
                i <= urls.len(),
                parts@.map_values(|s: String| s@) == urls@.take(i as int).map_values(
                    |u: Url| u.spec_str(),
                ),
            decreases urls.len() - i,
        {
            let part = String::from_str(urls[i].as_str());
            let ghost prev = parts@;
            parts.push(part);
            proof {
                prev.lemma_push_map_commute(|s: String| s@, part);
                urls@.lemma_map_take_succ(|u: Url| u.spec_str(), i as int);
                assert(parts@.map_values(|s: String| s@) =~= urls@.take(i + 1).map_values(
                    |u: Url| u.spec_str(),
                ));
            }
            i = i + 1;
        }
        proof {
            assert(urls@.take(urls@.len() as int) =~= urls@);
        }
        Ping(join_spaces(&parts))
    }
}

impl Attribute for Ping {
    open spec fn spec_key(&self) -> Seq<char> {
        "ping"@
    }

    closed spec fn spec_val(&self) -> Option<Seq<char>> {
        Some(self.0@)
    }

    fn get_key(&self) -> &str {
        "ping"
    }

    fn get_val(&self) -> Option<&str> {
        Some(self.0.as_str())
    }
}

impl AnchorAttribute for Ping {}

/// <https://developer.mozilla.org/en-US/docs/Web/HTML/Element/a#attr-referrerpolicy>
#[derive(Debug)]
pub struct ReferrerPolicy(HtmlAttributeReferrerPolicy);

impl ReferrerPolicy {
    /// Wraps the chosen policy for the `referrerpolicy` attribute.
    pub fn new(val: HtmlAttributeReferrerPolicy) -> (r: Self)
        ensures
            r.spec_val() == Some(val.spec_str()),
    {
        ReferrerPolicy(val)
    }
}

impl Attribute for ReferrerPolicy {
    open spec fn spec_key(&self) -> Seq<char> {
        "referrerpolicy"@
    }

    closed spec fn spec_val(&self) -> Option<Seq<char>> {
        Some(self.0.spec_str())
    }

    fn get_key(&self) -> &str {
        "referrerpolicy"
    }

    fn get_val(&self) -> Option<&str> {
        Some(self.0.as_str())
    }
}

impl AnchorAttribute for ReferrerPolicy {}

/// <https://developer.mozilla.org/en-US/docs/Web/HTML/Element/a#attr-rel>
#[derive(Debug)]
pub struct Rel(String);

impl Rel {
    /// Joins the link types with spaces, as the `rel` attribute
    /// expects.
    pub fn new(rels: Vec<ATagRel>) -> (r: Self)
        ensures
            r.spec_val() == Some(spec_join_spaces(rels@.map_values(|x: ATagRel| x.spec_str()))),
    {
        let mut parts: Vec<String> = Vec::new();
        let mut i: usize = 0;
        while i < rels.len()
            invariant
                i <= rels.len(),
                parts@.map_values(|s: String| s@) == rels@.take(i as int).map_values(
                    |x: ATagRel| x.spec_str(),
                ),
            decreases rels.len() - i,
        {
            let part = String::from_str(rels[i].as_str());
            let ghost prev = parts@;
            parts.push(part);
            proof {
                prev.lemma_push_map_commute(|s: String| s@, part);
                rels@.lemma_map_take_succ(|x: ATagRel| x.spec_str(), i as int);
                assert(parts@.map_values(|s: String| s@) =~= rels@.take(i + 1).map_values(
                    |x: ATagRel| x.spec_str(),
                ));
            }
            i = i + 1;
        }
        proof {
            assert(rels@.take(rels@.len() as int) =~= rels@);
        }
        Rel(join_spaces(&parts))
    }
}

impl Attribute for Rel {
    open spec fn spec_key(&self) -> Seq<char> {
        "rel"@
    }

    closed spec fn spec_val(&self) -> Option<Seq<char>> {
        Some(self.0@)
    }

    fn get_key(&self) -> &str {
        "rel"
    }

    fn get_val(&self) -> Option<&str> {
        Some(self.0.as_str())
    }
}

impl AnchorAttribute for Rel {}

/// <https://developer.mozilla.org/en-US/docs/Web/HTML/Element/a#attr-target>
#[derive(Debug)]
pub struct Target(TargetOption);

impl Target {
    /// Wraps the chosen target for the `target` attribute.
    pub fn new(val: TargetOption) -> (r: Self)
        ensures
            r.spec_val() == Some(val.spec_str()),
    {
        Target(val)
    }
}

impl Attribute for Target {
    open spec fn spec_key(&self) -> Seq<char> {
        "target"@
    }

    closed spec fn spec_val(&self) -> Option<Seq<char>> {
        Some(self.0.spec_str())
    }

    fn get_key(&self) -> &str {
        "target"
    }

    fn get_val(&self) -> Option<&str> {
        Some(self.0.as_str())
    }
}

impl AnchorAttribute for Target {}

/// <https://developer.mozilla.org/en-US/docs/Web/HTML/Element/a#attr-type>
#[derive(Debug)]
pub struct Type(String);

impl Type {
    /// Wraps the MIME type string.
    pub fn new(val: String) -> (r: Self)
        ensures
            r.spec_val() == Some(val@),
    {
        Type(val)
    }
}

impl Attribute for Type {
    open spec fn spec_key(&self) -> Seq<char> {
        "target"@
    }

    closed spec fn spec_val(&self) -> Option<Seq<char>> {
        Some(self.0@)
    }

    fn get_key(&self) -> &str {
        "target"
    }

    fn get_val(&self) -> Option<&str> {
        Some(self.0.as_str())
    }
}

impl AnchorAttribute for Type {}

/// An enum defining the options for the rel attribute of a link tag.
///
/// <https://developer.mozilla.org/en-US/docs/Web/HTML/Link_types>
#[derive(Debug)]
pub enum ATagRel {
    Alternate,
    Archives,
    Author,
    Bookmark,
    External,
    First,
    Help,
    Index,
    Last,
    License,
    Me,
    Next,
    Nofollow,
    Noopener,
    Noreferrer,
    Opener,
    Prev,
    Search,
    Sidebar,
    Tag,
    Up,
}

impl ATagRel {
    /// The serialized form of the link type.
    pub open spec fn spec_str(&self) -> Seq<char> {
        match self {
            ATagRel::Alternate => "alternate"@,
            ATagRel::Archives => "archives"@,
            ATagRel::Author => "author"@,
            ATagRel::Bookmark => "bookmark"@,
            ATagRel::External => "external"@,
            ATagRel::First => "first"@,
            ATagRel::Help => "help"@,
            ATagRel::Index => "index"@,
            ATagRel::Last => "last"@,
            ATagRel::License => "license"@,
            ATagRel::Me => "me"@,
            ATagRel::Next => "next"@,
            ATagRel::Nofollow => "nofollow"@,
            ATagRel::Noopener => "noopener"@,
            ATagRel::Noreferrer => "noreferrer"@,
            ATagRel::Opener => "opener"@,
            ATagRel::Prev => "prev"@,
            ATagRel::Search => "search"@,
            ATagRel::Sidebar => "sidebar"@,
            ATagRel::Tag => "tag"@,
            ATagRel::Up => "up"@,
        }
    }

    /// The serialized form of the link type.
    pub fn as_str(&self) -> (r: &str)
        ensures
            r@ == self.spec_str(),
    {
        match self {
            ATagRel::Alternate => "alternate",
            ATagRel::Archives => "archives",
            ATagRel::Author => "author",
            ATagRel::Bookmark => "bookmark",
            ATagRel::External => "external",
            ATagRel::First => "first",
            ATagRel::Help => "help",
            ATagRel::Index => "index",
            ATagRel::Last => "last",
            ATagRel::License => "license",
            ATagRel::Me => "me",
            ATagRel::Next => "next",
            ATagRel::Nofollow => "nofollow",
            ATagRel::Noopener => "noopener",
            ATagRel::Noreferrer => "noreferrer",
            ATagRel::Opener => "opener",
            ATagRel::Prev => "prev",
            ATagRel::Search => "search",
            ATagRel::Sidebar => "sidebar",
            ATagRel::Tag => "tag",
            ATagRel::Up => "up",
        }
    }
}

} // verus!
