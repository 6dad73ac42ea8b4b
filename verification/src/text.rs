//! String building blocks the attribute types serialize through:
//! decimal rendering of integers, `true`/`false` rendering of flags,
//! and space-separated joining of word lists.

use vstd::prelude::*;

verus! {

/// The decimal digit character for `d`.
pub open spec fn spec_digit(d: nat) -> char {
    if d == 0 {
        '0'
    } else if d == 1 {
        '1'
    } else if d == 2 {
        '2'
    } else if d == 3 {
        '3'
    } else if d == 4 {
        '4'
    } else if d == 5 {
        '5'
    } else if d == 6 {
        '6'
    } else if d == 7 {
        '7'
    } else if d == 8 {
        '8'
    } else {
        '9'
    }
}

/// The decimal rendering of a non-negative integer, without sign or
/// leading zeros (`0` renders as `"0"`).
pub open spec fn spec_udec(n: nat) -> Seq<char>
    decreases n,
{
    if n < 10 {
        seq![spec_digit(n)]
    } else {
        spec_udec(n / 10) + seq![spec_digit(n % 10)]
    }
}

/// The decimal rendering of an integer: a `-` sign ahead of the digits
/// when it is negative.
pub open spec fn spec_idec(n: int) -> Seq<char> {
    if n < 0 {
        seq!['-'] + spec_udec((-n) as nat)
    } else {
        spec_udec(n as nat)
    }
}

/// How a flag serializes: the word `true` or the word `false`.
pub open spec fn spec_bool(b: bool) -> Seq<char> {
    if b {
        "true"@
    } else {
        "false"@
    }
}

/// The words of `items` joined by single `sep` characters, in order.
pub open spec fn spec_join_sep(items: Seq<Seq<char>>, sep: char) -> Seq<char>
    decreases items.len(),
{
    if items.len() == 0 {
        Seq::empty()
    } else if items.len() == 1 {
        items[0]
    } else {
        spec_join_sep(items.drop_last(), sep) + seq![sep] + items.last()
    }
}

/// The words of `items` joined by single spaces, in order.
pub open spec fn spec_join_spaces(items: Seq<Seq<char>>) -> Seq<char> {
    spec_join_sep(items, ' ')
}

/// Relies on `String::push`: appends the one character at the end.
#[verifier::external_body]
pub(crate) fn push_char(s: &mut String, c: char)
    ensures
        final(s)@ == old(s)@.push(c),
{
    s.push(c);
}

/// The character for the decimal digit `d`.
fn digit_char(d: u64) -> (c: char)
    requires
        d < 10,
    ensures
        c == spec_digit(d as nat),
{
    if d == 0 {
        '0'
    } else if d == 1 {
        '1'
    } else if d == 2 {
        '2'
    } else if d == 3 {
        '3'
    } else if d == 4 {
        '4'
    } else if d == 5 {
        '5'
    } else if d == 6 {
        '6'
    } else if d == 7 {
        '7'
    } else if d == 8 {
        '8'
    } else {
        '9'
    }
}

/// Renders `n` in decimal.
pub fn u64_to_string(n: u64) -> (r: String)
    ensures
        r@ == spec_udec(n as nat),
    decreases n,
{
    if n < 10 {
        let mut s = String::new();
        push_char(&mut s, digit_char(n));
        proof {
            assert(s@ =~= seq![spec_digit(n as nat)]);
        }
        s
    } else {
        let mut s = u64_to_string(n / 10);
        push_char(&mut s, digit_char(n % 10));
        proof {
            assert(s@ =~= spec_udec((n / 10) as nat) + seq![spec_digit((n % 10) as nat)]);
        }
        s
    }
}

/// Renders `n` in decimal, with a `-` sign when it is negative.
pub fn i64_to_string(n: i64) -> (r: String)
    ensures
        r@ == spec_idec(n as int),
{
    if n >= 0 {
        u64_to_string(n as u64)
    } else {
        // Two's complement: negate via a detour that `i64::MIN` survives.
        let magnitude: u64 = ((-(n + 1)) as u64) + 1;
        assert(magnitude == -(n as int));
        let mut s = String::new();
        push_char(&mut s, '-');
        let digits = u64_to_string(magnitude);
        s.append(digits.as_str());
        proof {
            assert(s@ =~= seq!['-'] + spec_udec((-(n as int)) as nat));
        }
        s
    }
}

/// Renders a flag as `true` or `false`.
pub fn bool_to_string(b: bool) -> (r: String)
    ensures
        r@ == spec_bool(b),
{
    if b {
        String::from_str("true")
    } else {
        String::from_str("false")
    }
}

/// `spec_join_sep` over one more word: the joint grows at the end.
proof fn lemma_join_push(items: Seq<Seq<char>>, word: Seq<char>, sep: char)
    ensures
        items.len() == 0 ==> spec_join_sep(items.push(word), sep) == word,
        items.len() > 0 ==> spec_join_sep(items.push(word), sep) == spec_join_sep(items, sep)
            + seq![sep] + word,
{
    let grown = items.push(word);
    assert(grown.last() == word);
    assert(grown.drop_last() =~= items);
    if items.len() == 0 {
        assert(spec_join_sep(grown, sep) == grown[0]);
        assert(grown[0] == word);
    }
}

/// Joins the given words with single `sep` characters.
pub fn join_with(items: &Vec<String>, sep: char) -> (r: String)
    ensures
        r@ == spec_join_sep(items@.map_values(|s: String| s@), sep),
{
    let ghost words = items@.map_values(|s: String| s@);
    let mut r = String::new();
    let mut i: usize = 0;
    while i < items.len()
        invariant
            i <= items.len(),
            words == items@.map_values(|s: String| s@),
            r@ == spec_join_sep(words.take(i as int), sep),
        decreases items.len() - i,
    {
        if i > 0 {
            push_char(&mut r, sep);
        }
        r.append(items[i].as_str());
        proof {
            assert(words.take(i as int).push(words[i as int]) =~= words.take(i + 1 as int));
            lemma_join_push(words.take(i as int), words[i as int], sep);
        }
        i = i + 1;
    }
    proof {
        assert(words.take(items@.len() as int) =~= words);
    }
    r
}

/// Joins the given words with single spaces.
pub fn join_spaces(items: &Vec<String>) -> (r: String)
    ensures
        r@ == spec_join_spaces(items@.map_values(|s: String| s@)),
{
    join_with(items, ' ')
}

/// Joins the given characters with single spaces, each character a
/// one-letter word.
pub fn join_chars(items: &Vec<char>) -> (r: String)
    ensures
        r@ == spec_join_spaces(items@.map_values(|c: char| seq![c])),
{
    let ghost words = items@.map_values(|c: char| seq![c]);
    let mut r = String::new();
    let mut i: usize = 0;
    while i < items.len()
        invariant
            i <= items.len(),
            words == items@.map_values(|c: char| seq![c]),
            r@ == spec_join_spaces(words.take(i as int)),
        decreases items.len() - i,
    {
        if i > 0 {
            push_char(&mut r, ' ');
        }
        push_char(&mut r, items[i]);
        proof {
            assert(r@ =~= spec_join_sep(words.take(i as int), ' ') + seq![' '] + words[i as int]
                || i == 0);
            if i == 0 {
                assert(r@ =~= words[0]);
            }
            assert(words.take(i as int).push(words[i as int]) =~= words.take(i + 1 as int));
            lemma_join_push(words.take(i as int), words[i as int], ' ');
        }
        i = i + 1;
    }
    proof {
        assert(words.take(items@.len() as int) =~= words);
    }
    r
}

} // verus!
