//! Attributes of the `audio` element.

use vstd::prelude::*;
use crate::{Attribute, Url};

verus! {

/// Marks an attribute as accepted by the `audio` element.
pub trait AudioAttribute: Attribute {}

/// <https://developer.mozilla.org/en-US/docs/Web/HTML/Element/audio#attr-autoplay>
#[derive(Debug)]
pub struct Autoplay;

impl Attribute for Autoplay {
    open spec fn spec_key(&self) -> Seq<char> {
        "autoplay"@
    }

    open spec fn spec_val(&self) -> Option<Seq<char>> {
        None
    }

    fn get_key(&self) -> &str {
        "autoplay"
    }

    fn get_val(&self) -> Option<&str> {
        None
    }
}

impl AudioAttribute for Autoplay {}

/// <https://developer.mozilla.org/en-US/docs/Web/HTML/Element/audio#attr-controls>
#[derive(Debug)]
pub struct Controls;

impl Attribute for Controls {
    open spec fn spec_key(&self) -> Seq<char> {
        "controls"@
    }

    open spec fn spec_val(&self) -> Option<Seq<char>> {
        None
    }

    fn get_key(&self) -> &str {
        "controls"
    }

    fn get_val(&self) -> Option<&str> {
        None
    }
}

impl AudioAttribute for Controls {}

/// <https://developer.mozilla.org/en-US/docs/Web/HTML/Element/audio#attr-crossorigin>
#[derive(Debug)]
pub struct CrossOrigin(AudioCrossOriginOptions);

impl CrossOrigin {
    /// Wraps the chosen option.
    pub fn new(val: AudioCrossOriginOptions) -> (r: Self)
        ensures
            r.spec_val() == Some(val.spec_str()),
    {
        CrossOrigin(val)
    }
}

impl Attribute for CrossOrigin {
    open spec fn spec_key(&self) -> Seq<char> {
        "crossorigin"@
    }

    closed spec fn spec_val(&self) -> Option<Seq<char>> {
        Some(self.0.spec_str())
    }

    fn get_key(&self) -> &str {
        "crossorigin"
    }

    fn get_val(&self) -> Option<&str> {
        Some(self.0.as_str())
    }
}

impl AudioAttribute for CrossOrigin {}

/// <https://developer.mozilla.org/en-US/docs/Web/HTML/Element/audio#attr-disableremoteplayback>
#[derive(Debug)]
pub struct DisableRemotePlayback;

impl Attribute for DisableRemotePlayback {
    open spec fn spec_key(&self) -> Seq<char> {
        "disableremoteplayback"@
    }

    open spec fn spec_val(&self) -> Option<Seq<char>> {
        None
    }

    fn get_key(&self) -> &str {
        "disableremoteplayback"
    }

    fn get_val(&self) -> Option<&str> {
        None
    }
}

impl AudioAttribute for DisableRemotePlayback {}

/// <https://developer.mozilla.org/en-US/docs/Web/HTML/Element/audio#attr-loop>
#[derive(Debug)]
pub struct Loop;

impl Attribute for Loop {
    open spec fn spec_key(&self) -> Seq<char> {
        "loop"@
    }

    open spec fn spec_val(&self) -> Option<Seq<char>> {
        None
    }

    fn get_key(&self) -> &str {
        "loop"
    }

    fn get_val(&self) -> Option<&str> {
        None
    }
}

impl AudioAttribute for Loop {}

/// <https://developer.mozilla.org/en-US/docs/Web/HTML/Element/audio#attr-muted>
#[derive(Debug)]
pub struct Muted;

impl Attribute for Muted {
    open spec fn spec_key(&self) -> Seq<char> {
        "muted"@
    }

    open spec fn spec_val(&self) -> Option<Seq<char>> {
        None
    }

    fn get_key(&self) -> &str {
        "muted"
    }

    fn get_val(&self) -> Option<&str> {
        None
    }
}

impl AudioAttribute for Muted {}

/// <https://developer.mozilla.org/en-US/docs/Web/HTML/Element/audio#attr-preload>
#[derive(Debug)]
pub struct Preload(AudioPreloadOptions);

impl Preload {
    /// Wraps the chosen option.
    pub fn new(val: AudioPreloadOptions) -> (r: Self)
        ensures
            r.spec_val() == Some(val.spec_str()),
    {
        Preload(val)
    }
}

impl Attribute for Preload {
    open spec fn spec_key(&self) -> Seq<char> {
        "preload"@
    }

    closed spec fn spec_val(&self) -> Option<Seq<char>> {
        Some(self.0.spec_str())
    }

    fn get_key(&self) -> &str {
        "preload"
    }

    fn get_val(&self) -> Option<&str> {
        Some(self.0.as_str())
    }
}

impl AudioAttribute for Preload {}

/// <https://developer.mozilla.org/en-US/docs/Web/HTML/Element/a#attr-src>
#[derive(Debug)]
pub struct Src(String);

impl Src {
    /// Stores the URL's serialization.
    pub fn new(val: Url) -> (r: Self)
        ensures
            r.spec_val() == Some(val.spec_str()),
    {
        Src(String::from_str(val.as_str()))
    }
}

impl Attribute for Src {
    open spec fn spec_key(&self) -> Seq<char> {
        "src"@
    }

    closed spec fn spec_val(&self) -> Option<Seq<char>> {
        Some(self.0@)
    }

    fn get_key(&self) -> &str {
        "src"
    }

    fn get_val(&self) -> Option<&str> {
        Some(self.0.as_str())
    }
}

#[derive(Debug)]
pub enum AudioCrossOriginOptions {
    Anonymous,
    UseCredentials,
}

impl AudioCrossOriginOptions {
    /// The serialized form of the option.
    pub open spec fn spec_str(&self) -> Seq<char> {
        match self {
            AudioCrossOriginOptions::Anonymous => "anonymous"@,
            AudioCrossOriginOptions::UseCredentials => "use-credentials"@,
        }
    }

    /// The serialized form of the option.
    pub fn as_str(&self) -> (r: &str)
        ensures
            r@ == self.spec_str(),
    {
        match self {
            AudioCrossOriginOptions::Anonymous => "anonymous",
            AudioCrossOriginOptions::UseCredentials => "use-credentials",
        }
    }
}

#[derive(Debug)]
pub enum AudioPreloadOptions {
    NoneValue,
    Metadata,
    Auto,
}

impl AudioPreloadOptions {
    /// The serialized form of the option.
    pub open spec fn spec_str(&self) -> Seq<char> {
        match self {
            AudioPreloadOptions::NoneValue => "none"@,
            AudioPreloadOptions::Metadata => "metadata"@,
            AudioPreloadOptions::Auto => "auto"@,
        }
    }

    /// The serialized form of the option.
    pub fn as_str(&self) -> (r: &str)
        ensures
            r@ == self.spec_str(),
    {
        match self {
            AudioPreloadOptions::NoneValue => "none",
            AudioPreloadOptions::Metadata => "metadata",
            AudioPreloadOptions::Auto => "auto",
        }
    }
}

} // verus!
