//! The naming-convention utility: parses a name written in one convention
//! into lowercase tokens and renders the tokens in any convention.
//!
//! A name is accepted when it is non-empty ASCII and does not mix
//! separators: underscores together with hyphens, or hyphens on a name whose
//! first letter is uppercase, leave the convention undetermined.  The ASCII
//! bound is part of the contract on purpose: the tokenizer splits names at
//! character positions and maps case with the ASCII table, which is exact
//! only on ASCII text; a name in a wider alphabet is rejected up front
//! rather than split or cased wrongly.

use crate::utils::text::{
    chars_vec, is_upper, lower_char, spec_join, string_of, strings_view, subrange_vec, to_lower,
    to_upper, upper_char,
};
use vstd::prelude::*;

verus! {

/// Whether every character is ASCII.
pub open spec fn all_ascii(s: Seq<char>) -> bool {
    forall|i: int| 0 <= i < s.len() ==> (#[trigger] s[i] as u32) < 128
}

/// Whether a parsed name is acceptable: non-empty, ASCII, and with a
/// determinable convention.
pub open spec fn parse_ok(s: Seq<char>) -> bool {
    &&& s.len() > 0
    &&& all_ascii(s)
    &&& !(s.contains('_') && s.contains('-'))
    &&& !(s.contains('-') && is_upper(s[0]))
}

/// The camel-style split: a new token starts at every uppercase letter
/// after the first position.
pub open spec fn spec_split_camel_from(s: Seq<char>, i: int, start: int) -> Seq<Seq<char>>
    decreases s.len() - i,
{
    if i < 0 || start > i {
        Seq::empty()
    } else if i >= s.len() {
        seq![s.subrange(start, s.len() as int)]
    } else if is_upper(s[i]) {
        seq![s.subrange(start, i)] + spec_split_camel_from(s, i + 1, i)
    } else {
        spec_split_camel_from(s, i + 1, start)
    }
}

/// The separator split: tokens between occurrences of the separator, empty
/// tokens kept.
pub open spec fn spec_split_sep_from(s: Seq<char>, sep: char, i: int, start: int) -> Seq<
    Seq<char>,
>
    decreases s.len() - i,
{
    if i < 0 || start > i {
        Seq::empty()
    } else if i >= s.len() {
        seq![s.subrange(start, s.len() as int)]
    } else if s[i] == sep {
        seq![s.subrange(start, i)] + spec_split_sep_from(s, sep, i + 1, i + 1)
    } else {
        spec_split_sep_from(s, sep, i + 1, start)
    }
}

/// Every character lowercased.
pub open spec fn lower_seq(s: Seq<char>) -> Seq<char> {
    s.map_values(|c: char| lower_char(c))
}

/// The raw tokens of a name: split on hyphens, on underscores, or at
/// uppercase letters, by the convention the name is written in.
pub open spec fn spec_raw_tokens(s: Seq<char>) -> Seq<Seq<char>> {
    if s.contains('-') {
        spec_split_sep_from(s, '-', 0, 0)
    } else if s.contains('_') {
        spec_split_sep_from(s, '_', 0, 0)
    } else {
        spec_split_camel_from(s, 1, 0)
    }
}

/// The parsed tokens of a name: its raw tokens, lowercased.
pub open spec fn spec_tokens(s: Seq<char>) -> Seq<Seq<char>> {
    spec_raw_tokens(s).map_values(|t: Seq<char>| lower_seq(t))
}

/// The token with its first character uppercased.
pub open spec fn spec_capitalize(t: Seq<char>) -> Seq<char> {
    if t.len() == 0 {
        t
    } else {
        seq![upper_char(t[0])] + t.drop_first()
    }
}

/// Every character uppercased.
pub open spec fn upper_seq(s: Seq<char>) -> Seq<char> {
    s.map_values(|c: char| upper_char(c))
}

/// A name parsed into lowercase tokens.
pub struct NamingConventions {
    pub tokens: Vec<String>,
}

impl NamingConventions {
    /// Parse a name into lowercase tokens, by the convention it is written
    /// in.
    pub fn parse(value: &str) -> (r: NamingConventions)
        requires
            parse_ok(value@),
        ensures
            strings_view(r.tokens@) == spec_tokens(value@),
    {
        let chars = chars_vec(value);
        let raw = if contains_char(&chars, '-') {
            split_sep(&chars, '-')
        } else if contains_char(&chars, '_') {
            split_sep(&chars, '_')
        } else {
            split_camel(&chars)
        };
        let ghost target = raw@.map_values(|t: Vec<char>| t@).map_values(
            |t: Seq<char>| lower_seq(t),
        );
        let mut tokens: Vec<String> = Vec::new();
        let mut i: usize = 0;
        while i < raw.len()
            invariant
                0 <= i <= raw@.len(),
                tokens@.len() == i,
                target == raw@.map_values(|t: Vec<char>| t@).map_values(
                    |t: Seq<char>| lower_seq(t),
                ),
                strings_view(tokens@) =~= target.subrange(0, i as int),
            decreases raw@.len() - i,
        {
            let lowered = lower_vec(&raw[i]);
            let token = string_of(&lowered);
            let ghost tk = token;
            tokens.push(token);
            i = i + 1;
            proof {
                let k0 = i - 1;
                assert(tokens@[k0] == tk);
                assert(strings_view(tokens@)[k0] == tk@);
                assert(raw@.map_values(|t: Vec<char>| t@)[k0] == raw@[k0]@);
                assert(target[k0] == lower_seq(raw@[k0]@));
                assert(strings_view(tokens@) =~= target.subrange(0, i as int));
            }
        }
        proof {
            let full = raw@.map_values(|t: Vec<char>| t@).map_values(|t: Seq<char>| lower_seq(t));
            assert(full.subrange(0, raw@.len() as int) =~= full);
            assert(strings_view(tokens@) =~= spec_tokens(value@));
        }
        NamingConventions { tokens }
    }

    /// Render the tokens with every first letter uppercased and no
    /// separator.
    pub fn to_camel_case(value: &str) -> (r: String)
        requires
            parse_ok(value@),
        ensures
            r@ == spec_join(spec_tokens(value@).map_values(|t: Seq<char>| spec_capitalize(t)), Seq::empty()),
    {
        let parsed = NamingConventions::parse(value);
        let mut capitalized: Vec<String> = Vec::new();
        let mut i: usize = 0;
        while i < parsed.tokens.len()
            invariant
                0 <= i <= parsed.tokens@.len(),
                capitalized@.len() == i,
                strings_view(capitalized@) =~= strings_view(parsed.tokens@).map_values(
                    |t: Seq<char>| spec_capitalize(t),
                ).subrange(0, i as int),
            decreases parsed.tokens@.len() - i,
        {
            let cap = capitalize(&parsed.tokens[i]);
            capitalized.push(cap);
            i = i + 1;
            proof {
                assert(strings_view(capitalized@) =~= strings_view(parsed.tokens@).map_values(
                    |t: Seq<char>| spec_capitalize(t),
                ).subrange(0, i as int));
            }
        }
        proof {
            let full = strings_view(parsed.tokens@).map_values(|t: Seq<char>| spec_capitalize(t));
            assert(full.subrange(0, parsed.tokens@.len() as int) =~= full);
            assert(strings_view(capitalized@) =~= spec_tokens(value@).map_values(
                |t: Seq<char>| spec_capitalize(t),
            ));
        }
        let joined = crate::utils::text::join_strings(&capitalized, "");
        proof {
            reveal_strlit("");
            assert(""@ =~= Seq::<char>::empty());
        }
        joined
    }

    /// Render the tokens with every first letter but the first token's
    /// uppercased and no separator.
    pub fn to_pascal_case(value: &str) -> (r: String)
        requires
            parse_ok(value@),
        ensures
            ({
                let ts = spec_tokens(value@);
                let shaped = ts.map_values(|t: Seq<char>| spec_capitalize(t)).update(0, ts[0]);
                ts.len() > 0 ==> r@ == spec_join(shaped, Seq::empty())
            }),
    {
        let parsed = NamingConventions::parse(value);
        let ghost ts = strings_view(parsed.tokens@);
        let mut shaped: Vec<String> = Vec::new();
        let mut i: usize = 0;
        while i < parsed.tokens.len()
            invariant
                0 <= i <= parsed.tokens@.len(),
                shaped@.len() == i,
                ts == strings_view(parsed.tokens@),
                ts.len() > 0 ==> strings_view(shaped@) =~= ts.map_values(
                    |t: Seq<char>| spec_capitalize(t),
                ).update(0, ts[0]).subrange(0, i as int),
            decreases parsed.tokens@.len() - i,
        {
            if i == 0 {
                shaped.push(parsed.tokens[i].clone());
            } else {
                let cap = capitalize(&parsed.tokens[i]);
                shaped.push(cap);
            }
            i = i + 1;
            proof {
                assert(ts.len() > 0 ==> strings_view(shaped@) =~= ts.map_values(
                    |t: Seq<char>| spec_capitalize(t),
                ).update(0, ts[0]).subrange(0, i as int));
            }
        }
        proof {
            if ts.len() > 0 {
                let full = ts.map_values(|t: Seq<char>| spec_capitalize(t)).update(0, ts[0]);
                assert(full.subrange(0, parsed.tokens@.len() as int) =~= full);
                assert(strings_view(shaped@) =~= spec_tokens(value@).map_values(
                    |t: Seq<char>| spec_capitalize(t),
                ).update(0, spec_tokens(value@)[0]));
            }
        }
        let joined = crate::utils::text::join_strings(&shaped, "");
        proof {
            reveal_strlit("");
            assert(""@ =~= Seq::<char>::empty());
        }
        joined
    }

    /// Render the tokens joined with hyphens.
    pub fn to_kebab_case(value: &str) -> (r: String)
        requires
            parse_ok(value@),
        ensures
            r@ == spec_join(spec_tokens(value@), "-"@),
    {
        let parsed = NamingConventions::parse(value);
        crate::utils::text::join_strings(&parsed.tokens, "-")
    }

    /// Render the tokens joined with underscores.
    pub fn to_snake_case(value: &str) -> (r: String)
        requires
            parse_ok(value@),
        ensures
            r@ == spec_join(spec_tokens(value@), "_"@),
    {
        let parsed = NamingConventions::parse(value);
        crate::utils::text::join_strings(&parsed.tokens, "_")
    }

    /// Render the tokens uppercased and joined with underscores.
    pub fn to_screaming_snake_case(value: &str) -> (r: String)
        requires
            parse_ok(value@),
        ensures
            r@ == spec_join(
                spec_tokens(value@).map_values(|t: Seq<char>| upper_seq(t)),
                "_"@,
            ),
    {
        let parsed = NamingConventions::parse(value);
        let mut shouted: Vec<String> = Vec::new();
        let mut i: usize = 0;
        while i < parsed.tokens.len()
            invariant
                0 <= i <= parsed.tokens@.len(),
                shouted@.len() == i,
                strings_view(shouted@) =~= strings_view(parsed.tokens@).map_values(
                    |t: Seq<char>| upper_seq(t),
                ).subrange(0, i as int),
            decreases parsed.tokens@.len() - i,
        {
            let up = upper_vec_string(&parsed.tokens[i]);
            shouted.push(up);
            i = i + 1;
            proof {
                assert(strings_view(shouted@) =~= strings_view(parsed.tokens@).map_values(
                    |t: Seq<char>| upper_seq(t),
                ).subrange(0, i as int));
            }
        }
        proof {
            let full = strings_view(parsed.tokens@).map_values(|t: Seq<char>| upper_seq(t));
            assert(full.subrange(0, parsed.tokens@.len() as int) =~= full);
        }
        crate::utils::text::join_strings(&shouted, "_")
    }
}

/// Whether the character occurs in the vector.
fn contains_char(v: &Vec<char>, c: char) -> (r: bool)
    ensures
        r == v@.contains(c),
{
    let mut i: usize = 0;
    while i < v.len()
        invariant
            0 <= i <= v@.len(),
            forall|k: int| 0 <= k < i ==> v@[k] != c,
        decreases v@.len() - i,
    {
        if v[i] == c {
            return true;
        }
        i = i + 1;
    }
    false
}

/// Split at uppercase letters, scanning from position 1.
fn split_camel(v: &Vec<char>) -> (r: Vec<Vec<char>>)
    requires
        v@.len() > 0,
    ensures
        r@.map_values(|t: Vec<char>| t@) == spec_split_camel_from(v@, 1, 0),
{
    split_camel_from(v, 1, 0)
}

/// Split at uppercase letters, scanning from `i` with the current token
/// starting at `start`.
fn split_camel_from(v: &Vec<char>, i: usize, start: usize) -> (r: Vec<Vec<char>>)
    requires
        start <= i,
        i <= v@.len(),
    ensures
        r@.map_values(|t: Vec<char>| t@) == spec_split_camel_from(v@, i as int, start as int),
    decreases v@.len() - i,
{
    if i >= v.len() {
        let last = subrange_vec(v, start, v.len());
        let mut r: Vec<Vec<char>> = Vec::new();
        r.push(last);
        proof {
            assert(r@.map_values(|t: Vec<char>| t@) =~= seq![v@.subrange(
                start as int,
                v@.len() as int,
            )]);
        }
        r
    } else {
        let c = v[i];
        let code = c as u32;
        if 65 <= code && code <= 90 {
            let token = subrange_vec(v, start, i);
            let rest = split_camel_from(v, i + 1, i);
            let mut r: Vec<Vec<char>> = Vec::new();
            r.push(token);
            let mut rest = rest;
            r.append(&mut rest);
            proof {
                assert(r@.map_values(|t: Vec<char>| t@) =~= seq![v@.subrange(
                    start as int,
                    i as int,
                )] + spec_split_camel_from(v@, i + 1, i as int));
            }
            r
        } else {
            split_camel_from(v, i + 1, start)
        }
    }
}

/// Split on a separator, empty tokens kept.
fn split_sep(v: &Vec<char>, sep: char) -> (r: Vec<Vec<char>>)
    ensures
        r@.map_values(|t: Vec<char>| t@) == spec_split_sep_from(v@, sep, 0, 0),
{
    split_sep_from(v, sep, 0, 0)
}

/// Split on a separator, scanning from `i` with the current token starting
/// at `start`.
fn split_sep_from(v: &Vec<char>, sep: char, i: usize, start: usize) -> (r: Vec<Vec<char>>)
    requires
        start <= i,
        i <= v@.len(),
    ensures
        r@.map_values(|t: Vec<char>| t@) == spec_split_sep_from(v@, sep, i as int, start as int),
    decreases v@.len() - i,
{
    if i >= v.len() {
        let last = subrange_vec(v, start, v.len());
        let mut r: Vec<Vec<char>> = Vec::new();
        r.push(last);
        proof {
            assert(r@.map_values(|t: Vec<char>| t@) =~= seq![v@.subrange(
                start as int,
                v@.len() as int,
            )]);
        }
        r
    } else {
        if v[i] == sep {
            let token = subrange_vec(v, start, i);
            let rest = split_sep_from(v, sep, i + 1, i + 1);
            let mut r: Vec<Vec<char>> = Vec::new();
            r.push(token);
            let mut rest = rest;
            r.append(&mut rest);
            proof {
                assert(r@.map_values(|t: Vec<char>| t@) =~= seq![v@.subrange(
                    start as int,
                    i as int,
                )] + spec_split_sep_from(v@, sep, i + 1, i + 1));
            }
            r
        } else {
            split_sep_from(v, sep, i + 1, start)
        }
    }
}

/// Every character lowercased.
fn lower_vec(v: &Vec<char>) -> (r: Vec<char>)
    ensures
        r@ == lower_seq(v@),
{
    let mut r: Vec<char> = Vec::new();
    let mut i: usize = 0;
    while i < v.len()
        invariant
            0 <= i <= v@.len(),
            r@ =~= lower_seq(v@).subrange(0, i as int),
        decreases v@.len() - i,
    {
        r.push(to_lower(v[i]));
        i = i + 1;
        proof {
            assert(r@ =~= lower_seq(v@).subrange(0, i as int));
        }
    }
    proof {
        assert(lower_seq(v@).subrange(0, v@.len() as int) =~= lower_seq(v@));
    }
    r
}

/// The token with its first character uppercased.
fn capitalize(s: &String) -> (r: String)
    ensures
        r@ == spec_capitalize(s@),
{
    let v = chars_vec(s.as_str());
    if v.len() == 0 {
        let r = string_of(&v);
        return r;
    }
    let mut out: Vec<char> = Vec::new();
    out.push(to_upper(v[0]));
    let mut rest = subrange_vec(&v, 1, v.len());
    out.append(&mut rest);
    proof {
        assert(out@ =~= spec_capitalize(s@));
    }
    string_of(&out)
}

/// The token with every character uppercased.
fn upper_vec_string(s: &String) -> (r: String)
    ensures
        r@ == upper_seq(s@),
{
    let v = chars_vec(s.as_str());
    let mut out: Vec<char> = Vec::new();
    let mut i: usize = 0;
    while i < v.len()
        invariant
            0 <= i <= v@.len(),
            out@ =~= upper_seq(v@).subrange(0, i as int),
        decreases v@.len() - i,
    {
        out.push(to_upper(v[i]));
        i = i + 1;
        proof {
            assert(out@ =~= upper_seq(v@).subrange(0, i as int));
        }
    }
    proof {
        assert(upper_seq(v@).subrange(0, v@.len() as int) =~= upper_seq(v@));
    }
    string_of(&out)
}

} // verus!
