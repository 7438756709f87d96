//! Byte grammars of HTTP header names and values.

use vstd::prelude::*;

verus! {

/// What the previous byte of a header value was, as far as line folding cares.
#[derive(PartialEq, Eq, Structural, Clone, Copy, Debug)]
pub enum PreviousByte {
    Other,
    Cr,
    Lf,
    SpaceOrTab,
}

/// One step of the field-value machine: the state after `x`, or `None` if `x` is refused.
pub open spec fn field_value_step(prev: PreviousByte, x: u8) -> Option<PreviousByte> {
    if x == 13 {
        if prev == PreviousByte::Other || prev == PreviousByte::SpaceOrTab {
            Some(PreviousByte::Cr)
        } else {
            None
        }
    } else if x == 10 {
        if prev == PreviousByte::Cr {
            Some(PreviousByte::Lf)
        } else {
            None
        }
    } else if x == 32 {
        if prev == PreviousByte::Lf || prev == PreviousByte::SpaceOrTab {
            Some(PreviousByte::SpaceOrTab)
        } else if prev == PreviousByte::Other {
            Some(PreviousByte::Other)
        } else {
            None
        }
    } else if x == 9 {
        if prev == PreviousByte::Lf || prev == PreviousByte::SpaceOrTab {
            Some(PreviousByte::SpaceOrTab)
        } else {
            None
        }
    } else if x <= 31 || x >= 127 {
        None
    } else if prev == PreviousByte::Other || prev == PreviousByte::SpaceOrTab {
        Some(PreviousByte::Other)
    } else {
        None
    }
}

/// The state of the field-value machine after reading all of `s`, or `None` once a byte is refused.
pub open spec fn field_value_run(s: Seq<u8>) -> Option<PreviousByte>
    decreases s.len(),
{
    if s.len() == 0 {
        Some(PreviousByte::Other)
    } else {
        match field_value_run(s.drop_last()) {
            Some(prev) => field_value_step(prev, s.last()),
            None => None,
        }
    }
}

/// `s` is an RFC 2616 `field-value`: ASCII without control bytes, but for a CR LF that at
/// least one SP or HT follows (folding); so it cannot end in a CR or a CR LF.
pub open spec fn spec_is_field_value(s: Seq<u8>) -> bool {
    match field_value_run(s) {
        Some(p) => p != PreviousByte::Cr && p != PreviousByte::Lf,
        None => false,
    }
}

fn step(prev: PreviousByte, x: u8) -> (r: Option<PreviousByte>)
    ensures
        r == field_value_step(prev, x),
{
    match x {
        13 => {
            if prev == PreviousByte::Other || prev == PreviousByte::SpaceOrTab {
                Some(PreviousByte::Cr)
            } else {
                None
            }
        },
        10 => {
            if prev == PreviousByte::Cr {
                Some(PreviousByte::Lf)
            } else {
                None
            }
        },
        32 => {
            if prev == PreviousByte::Lf || prev == PreviousByte::SpaceOrTab {
                Some(PreviousByte::SpaceOrTab)
            } else if prev == PreviousByte::Other {
                // a space that ends no CRLF is ordinary text
                Some(PreviousByte::Other)
            } else {
                None
            }
        },
        9 => {
            if prev == PreviousByte::Lf || prev == PreviousByte::SpaceOrTab {
                Some(PreviousByte::SpaceOrTab)
            } else {
                None
            }
        },
        0..=31 | 127 => None,
        128..=255 => None,
        _ => {
            if prev == PreviousByte::Other || prev == PreviousByte::SpaceOrTab {
                Some(PreviousByte::Other)
            } else {
                // a CR or LF that is not part of a folding CRLF SP/HT
                None
            }
        },
    }
}

/// Returns whether `slice` is a `field-value` of RFC 2616, section 2.2.
pub fn is_field_value(slice: &[u8]) -> (r: bool)
    ensures
        r == spec_is_field_value(slice@),
{
    let mut prev = PreviousByte::Other;
    let mut i: usize = 0;
    while i < slice.len()
        invariant
            0 <= i <= slice@.len(),
            field_value_run(slice@.subrange(0, i as int)) == Some(prev),
        decreases slice@.len() - i,
    {
        let x = slice[i];
        proof {
            let t = slice@.subrange(0, i as int + 1);
            assert(t.drop_last() =~= slice@.subrange(0, i as int));
        }
        match step(prev, x) {
            Some(p) => {
                prev = p;
            },
            None => {
                proof {
                    lemma_refused_prefix(slice@, i as int + 1);
                }
                return false;
            },
        }
        i = i + 1;
    }
    assert(slice@.subrange(0, i as int) =~= slice@);
    // a CR or CR LF at the end is not followed by the SP or HT that folding needs
    prev != PreviousByte::Cr && prev != PreviousByte::Lf
}

/// Once the machine refuses a prefix, it refuses every longer prefix.
proof fn lemma_refused_prefix(s: Seq<u8>, n: int)
    requires
        0 <= n <= s.len(),
        field_value_run(s.subrange(0, n)) is None,
    ensures
        field_value_run(s) is None,
    decreases s.len() - n,
{
    if n < s.len() {
        let t = s.subrange(0, n + 1);
        assert(t.drop_last() =~= s.subrange(0, n));
        lemma_refused_prefix(s, n + 1);
    } else {
        assert(s.subrange(0, n) =~= s);
    }
}


/// An HTTP token byte: visible ASCII that is no separator of RFC 2616.
pub open spec fn is_token_byte(x: u8) -> bool {
    32 < x && x < 127 && x != 40 && x != 41 && x != 60 && x != 62 && x != 64 && x != 44 && x != 59
        && x != 58 && x != 92 && x != 34 && x != 47 && x != 91 && x != 93 && x != 63 && x != 61
        && x != 123 && x != 125
}

/// `s` is an HTTP token: one or more token bytes.
pub open spec fn spec_is_token(s: Seq<u8>) -> bool {
    s.len() > 0 && forall|i: int| 0 <= i < s.len() ==> is_token_byte(#[trigger] s[i])
}

/// Returns whether `s` is an HTTP token (RFC 2616, section 2.2).
pub fn is_token(s: &[u8]) -> (r: bool)
    ensures
        r == spec_is_token(s@),
{
    if s.len() == 0 {
        return false;
    }
    let mut i: usize = 0;
    while i < s.len()
        invariant
            0 <= i <= s@.len(),
            forall|j: int| 0 <= j < i ==> is_token_byte(#[trigger] s@[j]),
        decreases s@.len() - i,
    {
        let x = s[i];
        let separator = x == 40 || x == 41 || x == 60 || x == 62 || x == 64 || x == 44 || x == 59
            || x == 58 || x == 92 || x == 34 || x == 47 || x == 91 || x == 93 || x == 63 || x == 61
            || x == 123 || x == 125;
        if x <= 32 || x >= 127 || separator {
            return false;
        }
        i = i + 1;
    }
    true
}

/// The bytes that HTTP counts as whitespace around a header value: HT, LF, CR and SP.
pub open spec fn is_http_whitespace(x: u8) -> bool {
    x == 9 || x == 10 || x == 13 || x == 32
}

/// `s` without its leading HTTP whitespace.
pub open spec fn trim_start(s: Seq<u8>) -> Seq<u8>
    decreases s.len(),
{
    if s.len() > 0 && is_http_whitespace(s[0]) {
        trim_start(s.drop_first())
    } else {
        s
    }
}

/// `s` without its trailing HTTP whitespace.
pub open spec fn trim_end(s: Seq<u8>) -> Seq<u8>
    decreases s.len(),
{
    if s.len() > 0 && is_http_whitespace(s.last()) {
        trim_end(s.drop_last())
    } else {
        s
    }
}

/// `s` without HTTP whitespace at either end.
pub open spec fn spec_trim(s: Seq<u8>) -> Seq<u8> {
    trim_end(trim_start(s))
}

/// Copies `slice` without the HTTP whitespace at its start and its end.
pub fn trim_http_whitespace(slice: &[u8]) -> (r: Vec<u8>)
    ensures
        r@ == spec_trim(slice@),
{
    let n = slice.len();
    let mut start: usize = 0;
    assert(slice@.subrange(0, n as int) =~= slice@);
    while start < n && (slice[start] == 9 || slice[start] == 10 || slice[start] == 13 || slice[start] == 32)
        invariant
            n == slice@.len(),
            0 <= start <= n,
            trim_start(slice@.subrange(start as int, n as int)) == trim_start(slice@),
        decreases n - start,
    {
        proof {
            let t = slice@.subrange(start as int, n as int);
            assert(t.drop_first() =~= slice@.subrange(start as int + 1, n as int));
        }
        start = start + 1;
    }
    let ghost front = slice@.subrange(start as int, n as int);
    assert(trim_start(front) == front);
    let mut end: usize = n;
    assert(trim_end(slice@.subrange(start as int, end as int)) == trim_end(front));
    while end > start && (slice[end - 1] == 9 || slice[end - 1] == 10 || slice[end - 1] == 13
        || slice[end - 1] == 32)
        invariant
            n == slice@.len(),
            0 <= start <= end <= n,
            front == slice@.subrange(start as int, n as int),
            trim_end(slice@.subrange(start as int, end as int)) == trim_end(front),
        decreases end - start,
    {
        proof {
            let t = slice@.subrange(start as int, end as int);
            assert(t.drop_last() =~= slice@.subrange(start as int, end as int - 1));
        }
        end = end - 1;
    }
    assert(trim_end(slice@.subrange(start as int, end as int)) == slice@.subrange(start as int, end as int));
    let mut out: Vec<u8> = Vec::new();
    let mut i: usize = start;
    while i < end
        invariant
            n == slice@.len(),
            0 <= start <= i <= end <= n,
            out@ == slice@.subrange(start as int, i as int),
        decreases end - i,
    {
        out.push(slice[i]);
        proof {
            assert(out@ =~= slice@.subrange(start as int, i as int + 1));
        }
        i = i + 1;
    }
    out
}

/// The ASCII lower case of one byte.
pub open spec fn lower_byte(x: u8) -> u8 {
    if 65 <= x && x <= 90 {
        (x + 32) as u8
    } else {
        x
    }
}

/// The ASCII lower case of `s`, byte by byte.
pub open spec fn spec_to_lower(s: Seq<u8>) -> Seq<u8> {
    s.map_values(|x: u8| lower_byte(x))
}

/// Copies `s` with its ASCII upper-case letters made lower case.
pub fn to_ascii_lower(s: &[u8]) -> (r: Vec<u8>)
    ensures
        r@ == spec_to_lower(s@),
{
    let mut out: Vec<u8> = Vec::new();
    let mut i: usize = 0;
    while i < s.len()
        invariant
            0 <= i <= s@.len(),
            out@ == spec_to_lower(s@.subrange(0, i as int)),
        decreases s@.len() - i,
    {
        let x = s[i];
        let y: u8 = if 65 <= x && x <= 90 { x + 32 } else { x };
        out.push(y);
        proof {
            assert(spec_to_lower(s@.subrange(0, i as int + 1)) =~= spec_to_lower(
                s@.subrange(0, i as int),
            ).push(lower_byte(x)));
        }
        i = i + 1;
    }
    assert(s@.subrange(0, i as int) =~= s@);
    out
}

/// The ASCII upper case of one byte.
pub open spec fn upper_byte(x: u8) -> u8 {
    if 97 <= x && x <= 122 {
        (x - 32) as u8
    } else {
        x
    }
}

/// The ASCII upper case of `s`, byte by byte.
pub open spec fn spec_to_upper(s: Seq<u8>) -> Seq<u8> {
    s.map_values(|x: u8| upper_byte(x))
}

/// Copies `s` with its ASCII lower-case letters made upper case.
pub fn to_ascii_upper(s: &[u8]) -> (r: Vec<u8>)
    ensures
        r@ == spec_to_upper(s@),
{
    let mut out: Vec<u8> = Vec::new();
    let mut i: usize = 0;
    while i < s.len()
        invariant
            0 <= i <= s@.len(),
            out@ == spec_to_upper(s@.subrange(0, i as int)),
        decreases s@.len() - i,
    {
        let x = s[i];
        let y: u8 = if 97 <= x && x <= 122 { x - 32 } else { x };
        out.push(y);
        proof {
            assert(spec_to_upper(s@.subrange(0, i as int + 1)) =~= spec_to_upper(
                s@.subrange(0, i as int),
            ).push(upper_byte(x)));
        }
        i = i + 1;
    }
    assert(s@.subrange(0, i as int) =~= s@);
    out
}

/// Returns whether `a` and `b` hold the same bytes.
pub fn bytes_eq(a: &[u8], b: &[u8]) -> (r: bool)
    ensures
        r == (a@ == b@),
{
    if a.len() != b.len() {
        return false;
    }
    let mut i: usize = 0;
    while i < a.len()
        invariant
            a@.len() == b@.len(),
            0 <= i <= a@.len(),
            a@.subrange(0, i as int) == b@.subrange(0, i as int),
        decreases a@.len() - i,
    {
        if a[i] != b[i] {
            assert(a@[i as int] != b@[i as int]);
            return false;
        }
        proof {
            assert(a@.subrange(0, i as int + 1) =~= a@.subrange(0, i as int).push(a@[i as int]));
            assert(b@.subrange(0, i as int + 1) =~= b@.subrange(0, i as int).push(b@[i as int]));
        }
        i = i + 1;
    }
    assert(a@.subrange(0, i as int) =~= a@);
    assert(b@.subrange(0, i as int) =~= b@);
    true
}

/// Returns whether `a` and `b` are equal but for ASCII case.
pub fn eq_ignore_ascii_case(a: &[u8], b: &[u8]) -> (r: bool)
    ensures
        r == (spec_to_lower(a@) == spec_to_lower(b@)),
{
    let la = to_ascii_lower(a);
    let lb = to_ascii_lower(b);
    bytes_eq(la.as_slice(), lb.as_slice())
}

/// Returns whether `s` begins with `prefix`.
pub fn starts_with(s: &[u8], prefix: &[u8]) -> (r: bool)
    ensures
        r == (prefix@.len() <= s@.len() && s@.subrange(0, prefix@.len() as int) == prefix@),
{
    if prefix.len() > s.len() {
        return false;
    }
    let mut i: usize = 0;
    while i < prefix.len()
        invariant
            prefix@.len() <= s@.len(),
            0 <= i <= prefix@.len(),
            s@.subrange(0, i as int) == prefix@.subrange(0, i as int),
        decreases prefix@.len() - i,
    {
        if s[i] != prefix[i] {
            assert(s@.subrange(0, prefix@.len() as int)[i as int] != prefix@[i as int]);
            return false;
        }
        proof {
            assert(s@.subrange(0, i as int + 1) =~= s@.subrange(0, i as int).push(s@[i as int]));
            assert(prefix@.subrange(0, i as int + 1) =~= prefix@.subrange(0, i as int).push(
                prefix@[i as int],
            ));
        }
        i = i + 1;
    }
    assert(prefix@.subrange(0, i as int) =~= prefix@);
    true
}

/// The header names that a request may not set, in lower case.
pub open spec fn forbidden_header_names() -> Seq<Seq<u8>> {
    seq![
        seq![97, 99, 99, 101, 112, 116, 45, 99, 104, 97, 114, 115, 101, 116],
        seq![97, 99, 99, 101, 112, 116, 45, 101, 110, 99, 111, 100, 105, 110, 103],
        seq![97, 99, 99, 101, 115, 115, 45, 99, 111, 110, 116, 114, 111, 108, 45, 114, 101, 113, 117, 101, 115, 116, 45, 104, 101, 97, 100, 101, 114, 115],
        seq![97, 99, 99, 101, 115, 115, 45, 99, 111, 110, 116, 114, 111, 108, 45, 114, 101, 113, 117, 101, 115, 116, 45, 109, 101, 116, 104, 111, 100],
        seq![99, 111, 110, 110, 101, 99, 116, 105, 111, 110],
        seq![99, 111, 110, 116, 101, 110, 116, 45, 108, 101, 110, 103, 116, 104],
        seq![99, 111, 111, 107, 105, 101],
        seq![99, 111, 111, 107, 105, 101, 50],
        seq![100, 97, 116, 101],
        seq![100, 110, 116],
        seq![101, 120, 112, 101, 99, 116],
        seq![104, 111, 115, 116],
        seq![107, 101, 101, 112, 45, 97, 108, 105, 118, 101],
        seq![111, 114, 105, 103, 105, 110],
        seq![114, 101, 102, 101, 114, 101, 114],
        seq![116, 101],
        seq![116, 114, 97, 105, 108, 101, 114],
        seq![116, 114, 97, 110, 115, 102, 101, 114, 45, 101, 110, 99, 111, 100, 105, 110, 103],
        seq![117, 112, 103, 114, 97, 100, 101],
        seq![118, 105, 97]
    ]
}

/// `name` is a forbidden request header name: one of a fixed list, or one that starts with
/// `sec-` or `proxy-`.
pub open spec fn spec_is_forbidden_header_name(name: Seq<u8>) -> bool {
    forbidden_header_names().contains(name) || (name.len() >= 4 && name.subrange(0, 4) == seq![
        115u8,
        101,
        99,
        45,
    ]) || (name.len() >= 6 && name.subrange(0, 6) == seq![112u8, 114, 111, 120, 121, 45])
}

/// Returns whether a request may not set the header `name`, which is in lower case.
pub fn is_forbidden_header_name(name: &[u8]) -> (r: bool)
    ensures
        r == spec_is_forbidden_header_name(name@),
{
    let names: Vec<Vec<u8>> = vec![
        vec![97u8, 99, 99, 101, 112, 116, 45, 99, 104, 97, 114, 115, 101, 116],
        vec![97u8, 99, 99, 101, 112, 116, 45, 101, 110, 99, 111, 100, 105, 110, 103],
        vec![97u8, 99, 99, 101, 115, 115, 45, 99, 111, 110, 116, 114, 111, 108, 45, 114, 101, 113, 117, 101, 115, 116, 45, 104, 101, 97, 100, 101, 114, 115],
        vec![97u8, 99, 99, 101, 115, 115, 45, 99, 111, 110, 116, 114, 111, 108, 45, 114, 101, 113, 117, 101, 115, 116, 45, 109, 101, 116, 104, 111, 100],
        vec![99u8, 111, 110, 110, 101, 99, 116, 105, 111, 110],
        vec![99u8, 111, 110, 116, 101, 110, 116, 45, 108, 101, 110, 103, 116, 104],
        vec![99u8, 111, 111, 107, 105, 101],
        vec![99u8, 111, 111, 107, 105, 101, 50],
        vec![100u8, 97, 116, 101],
        vec![100u8, 110, 116],
        vec![101u8, 120, 112, 101, 99, 116],
        vec![104u8, 111, 115, 116],
        vec![107u8, 101, 101, 112, 45, 97, 108, 105, 118, 101],
        vec![111u8, 114, 105, 103, 105, 110],
        vec![114u8, 101, 102, 101, 114, 101, 114],
        vec![116u8, 101],
        vec![116u8, 114, 97, 105, 108, 101, 114],
        vec![116u8, 114, 97, 110, 115, 102, 101, 114, 45, 101, 110, 99, 111, 100, 105, 110, 103],
        vec![117u8, 112, 103, 114, 97, 100, 101],
        vec![118u8, 105, 97]
    ];
    assert(names@.map_values(|v: Vec<u8>| v@) =~= forbidden_header_names());
    let mut i: usize = 0;
    while i < names.len()
        invariant
            0 <= i <= names@.len(),
            names@.map_values(|v: Vec<u8>| v@) == forbidden_header_names(),
            forall|j: int| 0 <= j < i ==> names@[j]@ != name@,
        decreases names@.len() - i,
    {
        if bytes_eq(names[i].as_slice(), name) {
            assert(forbidden_header_names()[i as int] == name@);
            return true;
        }
        i = i + 1;
    }
    assert(!forbidden_header_names().contains(name@)) by {
        if forbidden_header_names().contains(name@) {
            let k = choose|k: int| 0 <= k < forbidden_header_names().len()
                && forbidden_header_names()[k] == name@;
            assert(names@[k]@ == name@);
        }
    }
    let sec: Vec<u8> = vec![115u8, 101, 99, 45];
    let proxy: Vec<u8> = vec![112u8, 114, 111, 120, 121, 45];
    starts_with(name, sec.as_slice()) || starts_with(name, proxy.as_slice())
}

} // verus!
