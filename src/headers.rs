//! Header lists: ordered (name, value) byte pairs, looked up by ASCII-case-insensitive name.

use vstd::prelude::*;
use vstd::utf8::{valid_utf8, decode_utf8, encode_utf8};
use crate::grammar::{spec_to_lower, eq_ignore_ascii_case, bytes_eq};
use crate::types::{Header, bytes_list, copy_bytes, append_bytes};

verus! {

/// The view of a header list.
pub open spec fn hview(hs: Vec<Header>) -> Seq<(Seq<u8>, Seq<u8>)> {
    hs@.map_values(|h: Header| (h.0@, h.1@))
}

/// The values, in order, of the headers whose name equals `name` but for ASCII case.
pub open spec fn header_values(hs: Seq<(Seq<u8>, Seq<u8>)>, name: Seq<u8>) -> Seq<Seq<u8>>
    decreases hs.len(),
{
    if hs.len() == 0 {
        Seq::empty()
    } else {
        let rest = header_values(hs.drop_last(), name);
        if spec_to_lower(hs.last().0) == spec_to_lower(name) {
            rest.push(hs.last().1)
        } else {
            rest
        }
    }
}

/// Collects the values of the headers named `name`, ignoring ASCII case.
pub fn values_of(hs: &Vec<Header>, name: &[u8]) -> (r: Vec<Vec<u8>>)
    ensures
        bytes_list(r@) == header_values(hview(*hs), name@),
{
    let mut out: Vec<Vec<u8>> = Vec::new();
    let mut i: usize = 0;
    while i < hs.len()
        invariant
            0 <= i <= hs@.len(),
            bytes_list(out@) == header_values(hview(*hs).subrange(0, i as int), name@),
        decreases hs@.len() - i,
    {
        let ghost before = bytes_list(out@);
        proof {
            assert(hview(*hs).subrange(0, i as int + 1).drop_last() =~= hview(*hs).subrange(0, i as int));
        }
        if eq_ignore_ascii_case(hs[i].0.as_slice(), name) {
            let v = copy_bytes(hs[i].1.as_slice());
            out.push(v);
            proof {
                assert(bytes_list(out@) =~= before.push(hview(*hs)[i as int].1));
            }
        }
        i = i + 1;
    }
    assert(hview(*hs).subrange(0, i as int) =~= hview(*hs));
    out
}

/// Returns whether the list holds a header named `name`, ignoring ASCII case.
pub fn contains(hs: &Vec<Header>, name: &[u8]) -> (r: bool)
    ensures
        r == (header_values(hview(*hs), name@).len() > 0),
{
    let v = values_of(hs, name);
    v.len() > 0
}

/// The index of the first header named exactly `name`, or -1.
pub open spec fn first_index(hs: Seq<(Seq<u8>, Seq<u8>)>, name: Seq<u8>) -> int
    decreases hs.len(),
{
    if hs.len() == 0 {
        -1
    } else {
        let k = first_index(hs.drop_last(), name);
        if k >= 0 {
            k
        } else if hs.last().0 == name {
            hs.len() - 1
        } else {
            -1
        }
    }
}

proof fn lemma_first_index_bounds(hs: Seq<(Seq<u8>, Seq<u8>)>, name: Seq<u8>)
    ensures
        -1 <= first_index(hs, name) < hs.len(),
        first_index(hs, name) >= 0 ==> hs[first_index(hs, name)].0 == name,
        first_index(hs, name) == -1 ==> forall|j: int| 0 <= j < hs.len() ==> hs[j].0 != name,
    decreases hs.len(),
{
    if hs.len() > 0 {
        lemma_first_index_bounds(hs.drop_last(), name);
        let k = first_index(hs.drop_last(), name);
        if k >= 0 {
            assert(hs[k] == hs.drop_last()[k]);
        } else if hs.last().0 != name {
            assert forall|j: int| 0 <= j < hs.len() implies hs[j].0 != name by {
                if j < hs.len() - 1 {
                    assert(hs[j] == hs.drop_last()[j]);
                }
            }
        }
    }
}

/// `", "`
pub open spec fn comma_space() -> Seq<u8> {
    seq![44u8, 32]
}

/// The list after `name: value` is combined into it: appended to the value of the first
/// header of that name after `", "`, or added at the end where there is none.
pub open spec fn combined(hs: Seq<(Seq<u8>, Seq<u8>)>, name: Seq<u8>, value: Seq<u8>) -> Seq<
    (Seq<u8>, Seq<u8>),
> {
    let k = first_index(hs, name);
    if k >= 0 {
        hs.update(k, (name, hs[k].1 + comma_space() + value))
    } else {
        hs.push((name, value))
    }
}

/// The list after the value of `name` is set to `value`: in place of the first header of that
/// name, or at the end where there is none.
pub open spec fn replaced(hs: Seq<(Seq<u8>, Seq<u8>)>, name: Seq<u8>, value: Seq<u8>) -> Seq<
    (Seq<u8>, Seq<u8>),
> {
    let k = first_index(hs, name);
    if k >= 0 {
        hs.update(k, (name, value))
    } else {
        hs.push((name, value))
    }
}

/// Finds the first header named exactly `name`.
fn find_exact(hs: &Vec<Header>, name: &[u8]) -> (r: Option<usize>)
    ensures
        match r {
            Some(k) => k as int == first_index(hview(*hs), name@),
            None => first_index(hview(*hs), name@) == -1,
        },
{
    let mut i: usize = 0;
    while i < hs.len()
        invariant
            0 <= i <= hs@.len(),
            first_index(hview(*hs).subrange(0, i as int), name@) == -1,
        decreases hs@.len() - i,
    {
        proof {
            assert(hview(*hs).subrange(0, i as int + 1).drop_last() =~= hview(*hs).subrange(0, i as int));
        }
        if bytes_eq(hs[i].0.as_slice(), name) {
            proof {
                lemma_first_index_prefix(hview(*hs), name@, i as int + 1);
            }
            return Some(i);
        }
        i = i + 1;
    }
    assert(hview(*hs).subrange(0, i as int) =~= hview(*hs));
    None
}

/// A header found in a prefix is found at the same place in the whole list.
proof fn lemma_first_index_prefix(hs: Seq<(Seq<u8>, Seq<u8>)>, name: Seq<u8>, n: int)
    requires
        0 <= n <= hs.len(),
        first_index(hs.subrange(0, n), name) >= 0,
    ensures
        first_index(hs, name) == first_index(hs.subrange(0, n), name),
    decreases hs.len() - n,
{
    if n == hs.len() {
        assert(hs.subrange(0, n) =~= hs);
    } else {
        assert(hs.subrange(0, n + 1).drop_last() =~= hs.subrange(0, n));
        lemma_first_index_prefix(hs, name, n + 1);
    }
}

/// Sets `name` to `value` in place of the first header of that name, or adds it at the end.
pub fn replace_header(hs: &mut Vec<Header>, name: &[u8], value: Vec<u8>)
    ensures
        hview(*final(hs)) == replaced(hview(*old(hs)), name@, value@),
{
    proof {
        lemma_first_index_bounds(hview(*hs), name@);
    }
    match find_exact(hs, name) {
        Some(k) => {
            let ghost before = hview(*hs);
            let n = copy_bytes(name);
            hs.set(k, (n, value));
            assert(hview(*hs) =~= before.update(k as int, (name@, value@)));
        },
        None => {
            let ghost before = hview(*hs);
            let n = copy_bytes(name);
            hs.push((n, value));
            assert(hview(*hs) =~= before.push((name@, value@)));
        },
    }
}

/// Combines `name: value` into the list: the value of an existing header of that name gets
/// `", "` and `value` appended, otherwise the header is added at the end.
pub fn combine_header(hs: &mut Vec<Header>, name: &[u8], value: &[u8])
    ensures
        hview(*final(hs)) == combined(hview(*old(hs)), name@, value@),
{
    proof {
        lemma_first_index_bounds(hview(*hs), name@);
    }
    match find_exact(hs, name) {
        Some(k) => {
            let mut v = copy_bytes(hs[k].1.as_slice());
            let sep: Vec<u8> = vec![44u8, 32];
            append_bytes(&mut v, sep.as_slice());
            append_bytes(&mut v, value);
            replace_header(hs, name, v);
        },
        None => {
            replace_header(hs, name, copy_bytes(value));
        },
    }
}

/// The header names hidden from callers of the response: `set-cookie` and `set-cookie2`.
pub open spec fn is_cookie_setter(name: Seq<u8>) -> bool {
    spec_to_lower(name) == seq![115u8, 101, 116, 45, 99, 111, 111, 107, 105, 101]
        || spec_to_lower(name) == seq![115u8, 101, 116, 45, 99, 111, 111, 107, 105, 101, 50]
}

/// The list without the headers that set cookies, in order.
pub open spec fn without_cookies(hs: Seq<(Seq<u8>, Seq<u8>)>) -> Seq<(Seq<u8>, Seq<u8>)>
    decreases hs.len(),
{
    if hs.len() == 0 {
        Seq::empty()
    } else if is_cookie_setter(hs.last().0) {
        without_cookies(hs.drop_last())
    } else {
        without_cookies(hs.drop_last()).push(hs.last())
    }
}

/// Copies the list without the headers that set cookies.
pub fn filter_cookies(hs: &Vec<Header>) -> (r: Vec<Header>)
    ensures
        hview(r) == without_cookies(hview(*hs)),
{
    let c1: Vec<u8> = vec![115u8, 101, 116, 45, 99, 111, 111, 107, 105, 101];
    let c2: Vec<u8> = vec![115u8, 101, 116, 45, 99, 111, 111, 107, 105, 101, 50];
    let mut out: Vec<Header> = Vec::new();
    let mut i: usize = 0;
    while i < hs.len()
        invariant
            0 <= i <= hs@.len(),
            c1@ == seq![115u8, 101, 116, 45, 99, 111, 111, 107, 105, 101],
            c2@ == seq![115u8, 101, 116, 45, 99, 111, 111, 107, 105, 101, 50],
            hview(out) == without_cookies(hview(*hs).subrange(0, i as int)),
        decreases hs@.len() - i,
    {
        proof {
            assert(hview(*hs).subrange(0, i as int + 1).drop_last() =~= hview(*hs).subrange(0, i as int));
        }
        let name = hs[i].0.as_slice();
        proof {
            assert(spec_to_lower(c1@) =~= c1@);
            assert(spec_to_lower(c2@) =~= c2@);
        }
        let cookie = eq_ignore_ascii_case(name, c1.as_slice()) || eq_ignore_ascii_case(name, c2.as_slice());
        if !cookie {
            let ghost before = hview(out);
            let entry = (copy_bytes(name), copy_bytes(hs[i].1.as_slice()));
            out.push(entry);
            assert(hview(out) =~= before.push(hview(*hs)[i as int]));
        }
        i = i + 1;
    }
    assert(hview(*hs).subrange(0, i as int) =~= hview(*hs));
    out
}

/// A character of Unicode's White_Space property, which `str::trim` removes.
pub open spec fn is_white_space(c: char) -> bool {
    let u = c as u32;
    (9 <= u && u <= 13) || u == 32 || u == 0x85 || u == 0xA0 || u == 0x1680 || (0x2000 <= u && u
        <= 0x200A) || u == 0x2028 || u == 0x2029 || u == 0x202F || u == 0x205F || u == 0x3000
}

/// `s` without its leading white space.
pub open spec fn trim_start_chars(s: Seq<char>) -> Seq<char>
    decreases s.len(),
{
    if s.len() > 0 && is_white_space(s[0]) {
        trim_start_chars(s.drop_first())
    } else {
        s
    }
}

/// `s` without its trailing white space.
pub open spec fn trim_end_chars(s: Seq<char>) -> Seq<char>
    decreases s.len(),
{
    if s.len() > 0 && is_white_space(s.last()) {
        trim_end_chars(s.drop_last())
    } else {
        s
    }
}

/// The text that `str::trim` leaves of `s`: `s` without leading and trailing white space.
pub open spec fn str_trimmed(s: Seq<char>) -> Seq<char> {
    trim_end_chars(trim_start_chars(s))
}

/// Relies on `std::str::from_utf8`, which accepts exactly the valid UTF-8 byte strings and
/// then holds the text they encode.
#[verifier::external_body]
pub(crate) fn utf8_text(v: &[u8]) -> (r: Option<&str>)
    ensures
        r is Some == valid_utf8(v@),
        r is Some ==> r->0@ == decode_utf8(v@),
{
    std::str::from_utf8(v).ok()
}

/// Relies on `str::trim`, documented to remove the leading and trailing characters of
/// Unicode's White_Space property.
#[verifier::external_body]
pub(crate) fn trim_str(s: &str) -> (r: &str)
    ensures
        r@ == str_trimmed(s@),
{
    s.trim()
}

/// The value `v` as `getResponseHeader` shows it: its UTF-8 text trimmed, as bytes.
pub open spec fn utf8_trimmed(v: Seq<u8>) -> Seq<u8> {
    encode_utf8(str_trimmed(decode_utf8(v)))
}

/// Trims the UTF-8 text `v`; `None` where `v` is not UTF-8.
pub fn trim_utf8(v: &[u8]) -> (r: Option<Vec<u8>>)
    ensures
        r is Some == valid_utf8(v@),
        r is Some ==> r->0@ == utf8_trimmed(v@),
{
    match utf8_text(v) {
        Some(text) => {
            let t = trim_str(text);
            Some(copy_bytes(t.as_bytes()))
        },
        None => None,
    }
}

} // verus!
