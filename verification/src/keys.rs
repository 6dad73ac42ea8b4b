//! Derivation of attribute and event keys from type names.
//!
//! An attribute type's DOM key is its name rewritten under a case
//! convention — `camelCase`, `kebab-case` or `lowercase` — and an event
//! type's DOM name, like the `lowercase` keys, is the name in plain
//! lower case with nothing between the words. The worded conventions
//! split an identifier at the usual camel-case boundaries: before an
//! upper-case letter that follows a lower-case one, at every change
//! between letters and digits, and before the last upper-case letter
//! of a run that an upper-case word like `ID` contributes when a
//! lower-case letter follows it.

use vstd::prelude::*;

verus! {

/// Whether `c` is an ASCII upper-case letter.
pub open spec fn is_upper(c: char) -> bool {
    'A' <= c && c <= 'Z'
}

/// Whether `c` is an ASCII lower-case letter.
pub open spec fn is_lower(c: char) -> bool {
    'a' <= c && c <= 'z'
}

/// Whether `c` is an ASCII digit.
pub open spec fn is_digit(c: char) -> bool {
    '0' <= c && c <= '9'
}

/// Whether `c` can stand in an identifier handled here.
pub open spec fn is_word_char(c: char) -> bool {
    is_upper(c) || is_lower(c) || is_digit(c)
}

/// Whether every character of `s` is a word character.
pub open spec fn is_identifier(s: Seq<char>) -> bool {
    forall|i: int| 0 <= i < s.len() ==> is_word_char(#[trigger] s[i])
}

/// `c` lowered: an upper-case letter moved to lower case, anything
/// else unchanged.
pub open spec fn spec_lower_char(c: char) -> char {
    if is_upper(c) {
        (((c as u8) + 32) as u8) as char
    } else {
        c
    }
}

/// Whether a new word starts at position `i` of `s`.
pub open spec fn is_boundary(s: Seq<char>, i: int) -> bool {
    &&& 0 < i < s.len()
    &&& {
        ||| (is_lower(s[i - 1]) && is_upper(s[i]))
        ||| (is_lower(s[i - 1]) && is_digit(s[i]))
        ||| (is_upper(s[i - 1]) && is_digit(s[i]))
        ||| (is_digit(s[i - 1]) && is_lower(s[i]))
        ||| (is_digit(s[i - 1]) && is_upper(s[i]))
        ||| (is_upper(s[i - 1]) && is_upper(s[i]) && i + 1 < s.len() && is_lower(s[i + 1]))
    }
}

/// The tail of the delimited rewriting of `s` from position `i` on:
/// each character lowered, with `delim` put before each word start.
pub open spec fn spec_delimited_from(s: Seq<char>, delim: char, i: int) -> Seq<char>
    decreases s.len() - i,
{
    if i < 0 || i >= s.len() {
        Seq::empty()
    } else {
        (if is_boundary(s, i) {
            seq![delim]
        } else {
            Seq::<char>::empty()
        }) + seq![spec_lower_char(s[i])] + spec_delimited_from(s, delim, i + 1)
    }
}

/// `s` in kebab-case: words lowered and joined with `-`.
pub open spec fn spec_kebab(s: Seq<char>) -> Seq<char> {
    spec_delimited_from(s, '-', 0)
}

/// The tail of the camel-case rewriting of `s` from position `i` on:
/// a character that starts a word after the first is kept upper, every
/// other character is lowered.
pub open spec fn spec_camel_from(s: Seq<char>, i: int) -> Seq<char>
    decreases s.len() - i,
{
    if i < 0 || i >= s.len() {
        Seq::empty()
    } else {
        seq![
            if is_boundary(s, i) {
                spec_upper_char(s[i])
            } else {
                spec_lower_char(s[i])
            },
        ] + spec_camel_from(s, i + 1)
    }
}

/// `c` raised: a lower-case letter moved to upper case, anything else
/// unchanged.
pub open spec fn spec_upper_char(c: char) -> char {
    if is_lower(c) {
        (((c as u8) - 32) as u8) as char
    } else {
        c
    }
}

/// `s` in camelCase: the first word lowered, later words capitalized.
pub open spec fn spec_camel(s: Seq<char>) -> Seq<char> {
    spec_camel_from(s, 0)
}

/// `s` lowered character for character with nothing inserted: the
/// canonical form the `lowercase` convention and an event type's DOM
/// name both take.
pub open spec fn spec_flat_lower(s: Seq<char>) -> Seq<char> {
    s.map_values(|c: char| spec_lower_char(c))
}

/// The case conventions an attribute key can be derived under; `AsIs`
/// keeps the identifier unchanged, as an unrecognized convention does.
#[derive(Debug, Clone, Copy, PartialEq, Eq, Structural)]
pub enum KeyCase {
    Camel,
    Kebab,
    Lower,
    AsIs,
}

/// The key that an identifier yields under the given convention.
pub open spec fn spec_attribute_key(s: Seq<char>, case: KeyCase) -> Seq<char> {
    match case {
        KeyCase::Camel => spec_camel(s),
        KeyCase::Kebab => spec_kebab(s),
        KeyCase::Lower => spec_flat_lower(s),
        KeyCase::AsIs => s,
    }
}

/// The convention a `camelCase` / `kebab-case` / `lowercase` label
/// names; anything else keeps the identifier as it stands.
pub open spec fn spec_key_case(label: Seq<char>) -> KeyCase {
    if label == "camelCase"@ {
        KeyCase::Camel
    } else if label == "kebab-case"@ {
        KeyCase::Kebab
    } else if label == "lowercase"@ {
        KeyCase::Lower
    } else {
        KeyCase::AsIs
    }
}

/// Reads a convention label.
pub fn key_case(label: &str) -> (r: KeyCase)
    ensures
        r == spec_key_case(label@),
{
    let owned = String::from_str(label);
    if owned == String::from_str("camelCase") {
        KeyCase::Camel
    } else if owned == String::from_str("kebab-case") {
        KeyCase::Kebab
    } else if owned == String::from_str("lowercase") {
        KeyCase::Lower
    } else {
        KeyCase::AsIs
    }
}

/// Lowers one character.
fn lower_char(c: char) -> (r: char)
    requires
        is_word_char(c),
    ensures
        r == spec_lower_char(c),
{
    if 'A' <= c && c <= 'Z' {
        (((c as u8) + 32) as u8) as char
    } else {
        c
    }
}

/// Raises one character.
fn upper_char(c: char) -> (r: char)
    requires
        is_word_char(c),
    ensures
        r == spec_upper_char(c),
{
    if 'a' <= c && c <= 'z' {
        proof {
            assert(97 <= c as u8 && c as u8 <= 122);
        }
        (((c as u8) - 32) as u8) as char
    } else {
        c
    }
}

/// Whether a new word starts at position `i` of `ident`.
fn boundary_at(ident: &Vec<char>, i: usize) -> (r: bool)
    requires
        i < ident@.len(),
    ensures
        r == is_boundary(ident@, i as int),
{
    if i == 0 {
        return false;
    }
    let p = ident[i - 1];
    let c = ident[i];
    let lower_upper = 'a' <= p && p <= 'z' && 'A' <= c && c <= 'Z';
    let lower_digit = 'a' <= p && p <= 'z' && '0' <= c && c <= '9';
    let upper_digit = 'A' <= p && p <= 'Z' && '0' <= c && c <= '9';
    let digit_lower = '0' <= p && p <= '9' && 'a' <= c && c <= 'z';
    let digit_upper = '0' <= p && p <= '9' && 'A' <= c && c <= 'Z';
    let acronym = 'A' <= p && p <= 'Z' && 'A' <= c && c <= 'Z' && i < ident.len() - 1 && {
        let n = ident[i + 1];
        'a' <= n && n <= 'z'
    };
    lower_upper || lower_digit || upper_digit || digit_lower || digit_upper || acronym
}

/// Rewrites `ident` with each character lowered and `delim` put before
/// each word start.
fn delimited(ident: &Vec<char>, delim: char) -> (r: String)
    requires
        is_identifier(ident@),
    ensures
        r@ == spec_delimited_from(ident@, delim, 0),
{
    let mut r = String::new();
    let mut i: usize = 0;
    while i < ident.len()
        invariant
            i <= ident.len(),
            is_identifier(ident@),
            spec_delimited_from(ident@, delim, 0) == r@ + spec_delimited_from(
                ident@,
                delim,
                i as int,
            ),
        decreases ident.len() - i,
    {
        if boundary_at(ident, i) {
            crate::text::push_char(&mut r, delim);
        }
        crate::text::push_char(&mut r, lower_char(ident[i]));
        proof {
            assert(spec_delimited_from(ident@, delim, 0) == r@ + spec_delimited_from(
                ident@,
                delim,
                i + 1,
            ));
        }
        i = i + 1;
    }
    r
}

/// Rewrites `ident` in camelCase.
fn camel(ident: &Vec<char>) -> (r: String)
    requires
        is_identifier(ident@),
    ensures
        r@ == spec_camel(ident@),
{
    let mut r = String::new();
    let mut i: usize = 0;
    while i < ident.len()
        invariant
            i <= ident.len(),
            is_identifier(ident@),
            spec_camel_from(ident@, 0) == r@ + spec_camel_from(ident@, i as int),
        decreases ident.len() - i,
    {
        if boundary_at(ident, i) {
            crate::text::push_char(&mut r, upper_char(ident[i]));
        } else {
            crate::text::push_char(&mut r, lower_char(ident[i]));
        }
        proof {
            assert(spec_camel_from(ident@, 0) == r@ + spec_camel_from(ident@, i + 1));
        }
        i = i + 1;
    }
    r
}

/// Copies `ident` into a string unchanged.
fn as_is(ident: &Vec<char>) -> (r: String)
    ensures
        r@ == ident@,
{
    let mut r = String::new();
    let mut i: usize = 0;
    while i < ident.len()
        invariant
            i <= ident.len(),
            r@ == ident@.take(i as int),
        decreases ident.len() - i,
    {
        crate::text::push_char(&mut r, ident[i]);
        proof {
            assert(r@ =~= ident@.take(i + 1));
        }
        i = i + 1;
    }
    proof {
        assert(ident@.take(ident@.len() as int) =~= ident@);
    }
    r
}

/// Lowers `ident` character for character.
fn flat_lower(ident: &Vec<char>) -> (r: String)
    requires
        is_identifier(ident@),
    ensures
        r@ == spec_flat_lower(ident@),
{
    let mut r = String::new();
    let mut i: usize = 0;
    while i < ident.len()
        invariant
            i <= ident.len(),
            is_identifier(ident@),
            r@ == ident@.take(i as int).map_values(|c: char| spec_lower_char(c)),
        decreases ident.len() - i,
    {
        crate::text::push_char(&mut r, lower_char(ident[i]));
        proof {
            assert(r@ =~= ident@.take(i + 1).map_values(|c: char| spec_lower_char(c)));
        }
        i = i + 1;
    }
    proof {
        assert(ident@.take(ident@.len() as int) =~= ident@);
    }
    r
}

/// The DOM key that an attribute type's name yields under the given
/// convention: the key its `get_key` method carries as a literal.
pub fn attribute_key(ident: &Vec<char>, case: KeyCase) -> (r: String)
    requires
        is_identifier(ident@),
    ensures
        r@ == spec_attribute_key(ident@, case),
{
    match case {
        KeyCase::Camel => camel(ident),
        KeyCase::Kebab => delimited(ident, '-'),
        KeyCase::Lower => flat_lower(ident),
        KeyCase::AsIs => as_is(ident),
    }
}

/// The DOM event name that an event type's name yields: the name in
/// plain lower case, as `addEventListener` expects it.
pub fn event_key(ident: &Vec<char>) -> (r: String)
    requires
        is_identifier(ident@),
    ensures
        r@ == spec_flat_lower(ident@),
{
    flat_lower(ident)
}

/// The conventions derive the keys the attribute types carry: shown
/// here on one name for each convention.
pub proof fn key_convention_examples()
    ensures
        spec_kebab("AriaAtomic"@) == "aria-atomic"@,
        spec_camel("HrefLang"@) == "hrefLang"@,
        spec_flat_lower("AccessKey"@) == "accesskey"@,
        spec_flat_lower("MouseEnter"@) == "mouseenter"@,
{
    reveal_strlit("AriaAtomic");
    reveal_strlit("aria-atomic");
    reveal_strlit("HrefLang");
    reveal_strlit("hrefLang");
    reveal_strlit("AccessKey");
    reveal_strlit("accesskey");
    reveal_strlit("MouseEnter");
    reveal_strlit("mouseenter");
    reveal_with_fuel(spec_delimited_from, 12);
    reveal_with_fuel(spec_camel_from, 10);
    assert(spec_kebab("AriaAtomic"@) =~= "aria-atomic"@);
    assert(spec_camel("HrefLang"@) =~= "hrefLang"@);
    assert(spec_flat_lower("AccessKey"@) =~= "accesskey"@);
    assert(spec_flat_lower("MouseEnter"@) =~= "mouseenter"@);
}

} // verus!
