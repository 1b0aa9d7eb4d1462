//! Character-level text helpers: conversion between strings and character
//! vectors, ASCII case mapping, joining, and substring removal.

use vstd::prelude::*;

verus! {

/// Relies on str::chars: the iterator yields exactly the characters of the
/// string, in order.
#[verifier::external_body]
pub fn chars_vec(s: &str) -> (r: Vec<char>)
    ensures
        r@ == s@,
{
    let mut v = Vec::new();
    for c in s.chars() {
        v.push(c);
    }
    v
}

/// Relies on String::push: each character is appended to the string in turn.
#[verifier::external_body]
pub fn string_of(chars: &Vec<char>) -> (r: String)
    ensures
        r@ == chars@,
{
    let mut s = String::new();
    for c in chars.iter() {
        s.push(*c);
    }
    s
}

/// Whether a character is an ASCII uppercase letter.
pub open spec fn is_upper(c: char) -> bool {
    65 <= (c as u32) && (c as u32) <= 90
}

/// Whether a character is an ASCII lowercase letter.
pub open spec fn is_lower(c: char) -> bool {
    97 <= (c as u32) && (c as u32) <= 122
}

/// The ASCII lowercase form of a character.
pub open spec fn lower_char(c: char) -> char {
    if is_upper(c) {
        (((c as u32) + 32) as u8) as char
    } else {
        c
    }
}

/// The ASCII uppercase form of a character.
pub open spec fn upper_char(c: char) -> char {
    if is_lower(c) {
        (((c as u32) - 32) as u8) as char
    } else {
        c
    }
}

/// Compute the ASCII lowercase form.
pub fn to_lower(c: char) -> (r: char)
    ensures
        r == lower_char(c),
{
    let code = c as u32;
    if 65 <= code && code <= 90 {
        ((code + 32) as u8) as char
    } else {
        c
    }
}

/// Compute the ASCII uppercase form.
pub fn to_upper(c: char) -> (r: char)
    ensures
        r == upper_char(c),
{
    let code = c as u32;
    if 97 <= code && code <= 122 {
        ((code - 32) as u8) as char
    } else {
        c
    }
}

/// The characters of `v` from `a` (inclusive) to `b` (exclusive).
pub fn subrange_vec(v: &Vec<char>, a: usize, b: usize) -> (r: Vec<char>)
    requires
        a <= b <= v@.len(),
    ensures
        r@ == v@.subrange(a as int, b as int),
{
    let mut r: Vec<char> = Vec::new();
    let mut i = a;
    while i < b
        invariant
            a <= i <= b <= v@.len(),
            r@ == v@.subrange(a as int, i as int),
        decreases b - i,
    {
        r.push(v[i]);
        i = i + 1;
        proof {
            assert(r@ =~= v@.subrange(a as int, i as int));
        }
    }
    r
}

/// The concatenation of the given parts with the separator between them.
pub open spec fn spec_join(parts: Seq<Seq<char>>, sep: Seq<char>) -> Seq<char>
    decreases parts.len(),
{
    if parts.len() == 0 {
        Seq::empty()
    } else if parts.len() == 1 {
        parts[0]
    } else {
        parts[0] + sep + spec_join(parts.drop_first(), sep)
    }
}

/// The views of a sequence of strings.
pub open spec fn strings_view(v: Seq<String>) -> Seq<Seq<char>> {
    v.map_values(|s: String| s@)
}

/// Join the parts with the separator between them.
pub fn join_strings(parts: &Vec<String>, sep: &str) -> (r: String)
    ensures
        r@ == spec_join(strings_view(parts@), sep@),
{
    let mut r = String::new();
    if parts.len() == 0 {
        return r;
    }
    let n = parts.len();
    proof {
        assert(strings_view(parts@).skip(0) =~= strings_view(parts@));
        assert(r@ + spec_join(strings_view(parts@), sep@) =~= spec_join(
            strings_view(parts@),
            sep@,
        ));
    }
    let mut i: usize = 0;
    loop
        invariant
            0 < n == parts@.len(),
            0 <= i < parts@.len(),
            r@ + spec_join(strings_view(parts@).skip(i as int), sep@) == spec_join(
                strings_view(parts@),
                sep@,
            ),
        decreases parts@.len() - i,
    {
        let ghost pre = r@;
        r.append(parts[i].as_str());
        if i == n - 1 {
            proof {
                assert(strings_view(parts@).skip(i as int) =~= seq![parts@[i as int]@]);
                assert(spec_join(strings_view(parts@).skip(i as int), sep@) == parts@[i as int]@);
            }
            return r;
        }
        r.append(sep);
        proof {
            let sv = strings_view(parts@);
            assert(sv.skip(i as int).len() >= 2);
            assert(sv.skip(i as int)[0] == parts@[i as int]@);
            assert(sv.skip(i as int).drop_first() =~= sv.skip(i + 1));
            assert(spec_join(sv.skip(i as int), sep@) == parts@[i as int]@ + sep@ + spec_join(
                sv.skip(i + 1),
                sep@,
            ));
            assert(r@ == pre + parts@[i as int]@ + sep@);
            assert(r@ + spec_join(sv.skip(i + 1), sep@) =~= pre + spec_join(
                sv.skip(i as int),
                sep@,
            ));
        }
        i = i + 1;
    }
}

/// The text with every leftmost, non-overlapping occurrence of the pattern
/// removed; an empty pattern removes nothing.
pub open spec fn spec_remove_occurrences(s: Seq<char>, pat: Seq<char>) -> Seq<char>
    decreases s.len(),
{
    if pat.len() == 0 {
        s
    } else if s.len() < pat.len() {
        s
    } else if s.subrange(0, pat.len() as int) == pat {
        spec_remove_occurrences(s.skip(pat.len() as int), pat)
    } else {
        seq![s[0]] + spec_remove_occurrences(s.drop_first(), pat)
    }
}

/// Whether the pattern occurs at position `i` of `v`.
fn match_at(v: &Vec<char>, i: usize, pat: &Vec<char>) -> (r: bool)
    requires
        i + pat@.len() <= v@.len(),
    ensures
        r == (v@.subrange(i as int, i + pat@.len()) =~= pat@),
{
    let n = v.len();
    let m = pat.len();
    let mut j: usize = 0;
    while j < m
        invariant
            n == v@.len() && m == pat@.len(),
            i + pat@.len() <= v@.len(),
            0 <= j <= pat@.len(),
            forall|k: int| 0 <= k < j ==> v@[i + k] == pat@[k],
        decreases pat@.len() - j,
    {
        if v[i + j] != pat[j] {
            proof {
                assert(v@.subrange(i as int, i + pat@.len())[j as int] != pat@[j as int]);
            }
            return false;
        }
        j = j + 1;
    }
    proof {
        assert(v@.subrange(i as int, i + pat@.len()) =~= pat@);
    }
    true
}

/// Remove every leftmost, non-overlapping occurrence of the pattern from the
/// text, scanning from position `i`.
fn remove_from(v: &Vec<char>, i: usize, pat: &Vec<char>) -> (r: Vec<char>)
    requires
        i <= v@.len(),
        pat@.len() > 0,
    ensures
        r@ == spec_remove_occurrences(v@.skip(i as int), pat@),
    decreases v@.len() - i,
{
    if v.len() - i < pat.len() {
        let r = subrange_vec(v, i, v.len());
        proof {
            assert(v@.skip(i as int) =~= v@.subrange(i as int, v@.len() as int));
        }
        r
    } else {
        proof {
            assert(v@.skip(i as int).subrange(0, pat@.len() as int) =~= v@.subrange(
                i as int,
                i + pat@.len(),
            ));
        }
        if match_at(v, i, pat) {
            let r = remove_from(v, i + pat.len(), pat);
            proof {
                assert(v@.skip(i as int).skip(pat@.len() as int) =~= v@.skip(i + pat@.len()));
            }
            r
        } else {
            let rest = remove_from(v, i + 1, pat);
            let mut r: Vec<char> = Vec::new();
            r.push(v[i]);
            let mut rest = rest;
            r.append(&mut rest);
            proof {
                assert(v@.skip(i as int).drop_first() =~= v@.skip(i + 1));
                assert(v@.skip(i as int)[0] == v@[i as int]);
                assert(r@ =~= seq![v@.skip(i as int)[0]] + spec_remove_occurrences(
                    v@.skip(i as int).drop_first(),
                    pat@,
                ));
            }
            r
        }
    }
}

/// The string with every leftmost, non-overlapping occurrence of the pattern
/// removed; an empty pattern removes nothing.
pub fn remove_occurrences(s: &String, pat: &String) -> (r: String)
    ensures
        r@ == spec_remove_occurrences(s@, pat@),
{
    let sv = chars_vec(s.as_str());
    let pv = chars_vec(pat.as_str());
    if pv.len() == 0 {
        let r = string_of(&sv);
        return r;
    }
    let rv = remove_from(&sv, 0, &pv);
    proof {
        assert(sv@.skip(0) =~= sv@);
    }
    string_of(&rv)
}

} // verus!
