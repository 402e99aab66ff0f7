//! The small JSON forms the receiver reads: the control-frequency body
//! and the talkgroup filter.
//!
//! Each parser exists twice: as a specification-level function over byte
//! sequences, which is the grammar, and as an executable function proved
//! to return exactly what the grammar says.

use vstd::prelude::*;

use vstd::slice::slice_subrange;

use crate::fmt::bytes_eq;

verus! {

/// JSON whitespace.
pub open spec fn is_ws(b: u8) -> bool {
    b == 32 || b == 9 || b == 10 || b == 13
}

/// An ASCII decimal digit.
pub open spec fn is_digit(b: u8) -> bool {
    48 <= b <= 57
}

/// First position at or after `i` holding something other than
/// whitespace.
pub open spec fn spec_skip_ws(s: Seq<u8>, i: int) -> int
    decreases s.len() - i,
{
    if 0 <= i < s.len() && is_ws(s[i]) {
        spec_skip_ws(s, i + 1)
    } else {
        i
    }
}

/// Skipping whitespace stays within the input.
pub proof fn lemma_skip_ws_bounds(s: Seq<u8>, i: int)
    requires
        0 <= i <= s.len(),
    ensures
        i <= spec_skip_ws(s, i) <= s.len(),
    decreases s.len() - i,
{
    if i < s.len() && is_ws(s[i]) {
        lemma_skip_ws_bounds(s, i + 1);
    }
}

/// Whether the byte at a position is JSON whitespace.
fn ws_at(s: &[u8], k: usize) -> (r: bool)
    requires
        k < s@.len(),
    ensures
        r == is_ws(s@[k as int]),
{
    let b = s[k];
    b == 32 || b == 9 || b == 10 || b == 13
}

/// Whether the byte at a position is an ASCII digit.
fn digit_at(s: &[u8], k: usize) -> (r: bool)
    requires
        k < s@.len(),
    ensures
        r == is_digit(s@[k as int]),
{
    let b = s[k];
    48 <= b && b <= 57
}

/// Advance past whitespace.
pub fn skip_ws(s: &[u8], i: usize) -> (r: usize)
    requires
        i <= s@.len(),
    ensures
        r == spec_skip_ws(s@, i as int),
        i <= r <= s@.len(),
{
    proof {
        lemma_skip_ws_bounds(s@, i as int);
    }
    let n = s.len();
    let mut k = i;
    while k < n && ws_at(s, k)
        invariant
            n == s@.len(),
            i <= k <= n,
            spec_skip_ws(s@, i as int) == spec_skip_ws(s@, k as int),
        decreases n - k,
    {
        k = k + 1;
    }
    k
}

/// First position at or after `i` holding a non-digit.
pub open spec fn spec_digits_end(s: Seq<u8>, i: int) -> int
    decreases s.len() - i,
{
    if 0 <= i < s.len() && is_digit(s[i]) {
        spec_digits_end(s, i + 1)
    } else {
        i
    }
}

/// The digit run stays within the input.
pub proof fn lemma_digits_end_bounds(s: Seq<u8>, i: int)
    requires
        0 <= i <= s.len(),
    ensures
        i <= spec_digits_end(s, i) <= s.len(),
        forall|j: int| i <= j < spec_digits_end(s, i) ==> is_digit(s[j]),
    decreases s.len() - i,
{
    if i < s.len() && is_digit(s[i]) {
        lemma_digits_end_bounds(s, i + 1);
    }
}

/// The number written by the digits in `s[i..j)`, most significant first.
pub open spec fn spec_dec_value(s: Seq<u8>, i: int, j: int) -> int
    decreases j - i,
{
    if j <= i {
        0
    } else {
        spec_dec_value(s, i, j - 1) * 10 + (s[j - 1] - 48)
    }
}

/// A digit run's value is never negative.
pub proof fn lemma_dec_value_nonneg(s: Seq<u8>, i: int, j: int)
    requires
        forall|m: int| i <= m < j ==> 0 <= #[trigger] s[m] - 48 <= 9,
    ensures
        spec_dec_value(s, i, j) >= 0,
    decreases j - i,
{
    if i < j {
        lemma_dec_value_nonneg(s, i, j - 1);
        assert(spec_dec_value(s, i, j - 1) * 10 >= 0) by (nonlinear_arith)
            requires
                spec_dec_value(s, i, j - 1) >= 0,
        ;
    }
}

/// A digit run's value grows with its length.
pub proof fn lemma_dec_value_grows(s: Seq<u8>, i: int, k: int, j: int)
    requires
        i <= k <= j,
        forall|m: int| i <= m < j ==> 0 <= #[trigger] s[m] - 48 <= 9,
    ensures
        spec_dec_value(s, i, k) <= spec_dec_value(s, i, j),
    decreases j - k,
{
    if k < j {
        lemma_dec_value_grows(s, i, k, j - 1);
        lemma_dec_value_nonneg(s, i, j - 1);
        assert(spec_dec_value(s, i, j) == spec_dec_value(s, i, j - 1) * 10 + (s[j - 1] - 48));
        assert(spec_dec_value(s, i, j - 1) * 10 >= spec_dec_value(s, i, j - 1)) by (nonlinear_arith)
            requires
                spec_dec_value(s, i, j - 1) >= 0,
        ;
    }
}

/// Parse an unsigned number of at most 32 bits starting at `i`: its value
/// and the position after its digits, or nothing when no digit starts at
/// `i` or the value overflows.
pub open spec fn spec_parse_u32(s: Seq<u8>, i: int) -> Option<(u32, int)> {
    let j = spec_digits_end(s, i);
    if j <= i {
        None
    } else if spec_dec_value(s, i, j) > u32::MAX {
        None
    } else {
        Some((spec_dec_value(s, i, j) as u32, j))
    }
}

/// Parse an unsigned 32-bit number.
pub fn parse_u32(s: &[u8], i: usize) -> (r: Option<(u32, usize)>)
    requires
        i <= s@.len(),
    ensures
        match r {
            Some((v, j)) => spec_parse_u32(s@, i as int) == Some((v, j as int)) && i < j
                <= s@.len(),
            None => spec_parse_u32(s@, i as int) is None,
        },
{
    proof {
        lemma_digits_end_bounds(s@, i as int);
    }
    let ghost jend = spec_digits_end(s@, i as int);
    let n = s.len();
    let mut k = i;
    let mut acc: u64 = 0;
    while k < n && digit_at(s, k)
        invariant
            n == s@.len(),
            i <= k <= n,
            i <= jend <= n,
            jend == spec_digits_end(s@, k as int) == spec_digits_end(s@, i as int),
            forall|j: int| i <= j < jend ==> is_digit(s@[j]),
            k <= jend,
            acc == spec_dec_value(s@, i as int, k as int),
            acc <= u32::MAX,
        decreases n - k,
    {
        proof {
            assert(is_digit(s@[k as int]));
            lemma_digits_end_bounds(s@, k as int + 1);
            assert(k < jend);
        }
        acc = acc * 10 + (s[k] - 48) as u64;
        k = k + 1;
        if acc > u32::MAX as u64 {
            proof {
                assert(forall|m: int|
                    i <= m < jend ==> 0 <= #[trigger] s@[m] - 48 <= 9);
                lemma_dec_value_grows(s@, i as int, k as int, jend);
            }
            return None;
        }
    }
    proof {
        assert(k == jend);
    }
    if k == i {
        return None;
    }
    Some((acc as u32, k))
}

/// Parse the boolean keywords.
pub open spec fn spec_parse_bool(s: Seq<u8>, i: int) -> Option<(bool, int)> {
    if i + 4 <= s.len() && s.subrange(i, i + 4) == crate::lit::spec_lit_true() {
        Some((true, i + 4))
    } else if i + 5 <= s.len() && s.subrange(i, i + 5) == crate::lit::spec_lit_false() {
        Some((false, i + 5))
    } else {
        None
    }
}

/// Parse `true` or `false`.
pub fn parse_bool(s: &[u8], i: usize) -> (r: Option<(bool, usize)>)
    requires
        i <= s@.len(),
    ensures
        match r {
            Some((v, j)) => spec_parse_bool(s@, i as int) == Some((v, j as int)) && i < j
                <= s@.len(),
            None => spec_parse_bool(s@, i as int) is None,
        },
{
    let mut t: Vec<u8> = Vec::new();
    crate::lit::push_lit_true(&mut t);
    if s.len() - i >= 4 {
        if bytes_eq(slice_subrange(s, i, i + 4), t.as_slice()) {
            return Some((true, i + 4));
        }
    }
    let mut f: Vec<u8> = Vec::new();
    crate::lit::push_lit_false(&mut f);
    if s.len() - i >= 5 {
        if bytes_eq(slice_subrange(s, i, i + 5), f.as_slice()) {
            return Some((false, i + 5));
        }
    }
    None
}

/// Whether a quoted key with the given name starts at `i`, and the
/// position after its closing quote.
pub open spec fn spec_parse_key(s: Seq<u8>, i: int, name: Seq<u8>) -> Option<int> {
    if i + name.len() + 2 <= s.len() && s[i] == 34 && s.subrange(i + 1, i + 1 + name.len())
        == name && s[i + 1 + name.len()] == 34 {
        Some(i + name.len() + 2)
    } else {
        None
    }
}

/// Parse a quoted key with the given name.
pub fn parse_key(s: &[u8], i: usize, name: &[u8]) -> (r: Option<usize>)
    requires
        i <= s@.len(),
        name@.len() <= 64,
    ensures
        match r {
            Some(j) => spec_parse_key(s@, i as int, name@) == Some(j as int) && i < j <= s@.len(),
            None => spec_parse_key(s@, i as int, name@) is None,
        },
{
    let nl = name.len();
    if s.len() - i < nl + 2 {
        return None;
    }
    if s[i] != 34 {
        return None;
    }
    if !bytes_eq(slice_subrange(s, i + 1, i + 1 + nl), name) {
        return None;
    }
    if s[i + 1 + nl] != 34 {
        return None;
    }
    Some(i + nl + 2)
}

/// Parse the whole control-frequency body: an object with the single
/// member `ctlfreq` holding an unsigned 32-bit number, with any JSON
/// whitespace around the tokens. Anything else is refused.
pub open spec fn spec_parse_ctlfreq(s: Seq<u8>) -> Option<u32> {
    let i = spec_skip_ws(s, 0);
    if i < s.len() && s[i] == 123 {
        let i = spec_skip_ws(s, i + 1);
        match spec_parse_key(s, i, crate::lit::spec_name_ctlfreq()) {
            Some(i) => {
                let i = spec_skip_ws(s, i);
                if i < s.len() && s[i] == 58 {
                    let i = spec_skip_ws(s, i + 1);
                    match spec_parse_u32(s, i) {
                        Some((v, i)) => {
                            let i = spec_skip_ws(s, i);
                            if i < s.len() && s[i] == 125 {
                                if spec_skip_ws(s, i + 1) == s.len() {
                                    Some(v)
                                } else {
                                    None
                                }
                            } else {
                                None
                            }
                        },
                        None => None,
                    }
                } else {
                    None
                }
            },
            None => None,
        }
    } else {
        None
    }
}

/// Parse the talkgroups of a filter list after its opening bracket,
/// starting at a number: each further item follows a comma, and the list
/// ends at a closing bracket. Values beyond 16 bits are refused.
pub open spec fn spec_parse_items(s: Seq<u8>, i: int, acc: Seq<u16>) -> Option<(Seq<u16>, int)>
    decreases s.len() - i,
{
    match spec_parse_u32(s, i) {
        None => None,
        Some((v, j)) => if v > u16::MAX {
            None
        } else {
            let acc2 = acc.push(v as u16);
            let k = spec_skip_ws(s, j);
            if k < s.len() && s[k] == 93 {
                Some((acc2, k + 1))
            } else if k < s.len() && s[k] == 44 {
                let m = spec_skip_ws(s, k + 1);
                if i < m <= s.len() {
                    spec_parse_items(s, m, acc2)
                } else {
                    None
                }
            } else {
                None
            }
        },
    }
}

/// Parse a filter list: a bracketed, comma-separated run of talkgroup
/// numbers, possibly empty.
pub open spec fn spec_parse_list(s: Seq<u8>, i: int) -> Option<(Seq<u16>, int)> {
    if i < s.len() && s[i] == 91 {
        let j = spec_skip_ws(s, i + 1);
        if j < s.len() && s[j] == 93 {
            Some((Seq::<u16>::empty(), j + 1))
        } else {
            spec_parse_items(s, j, Seq::<u16>::empty())
        }
    } else {
        None
    }
}

/// Parse the items of a filter list.
fn parse_items(s: &[u8], i: usize, acc: Vec<u16>) -> (r: Option<(Vec<u16>, usize)>)
    requires
        i <= s@.len(),
    ensures
        match r {
            Some((v, j)) => spec_parse_items(s@, i as int, acc@) == Some((v@, j as int)) && j
                <= s@.len(),
            None => spec_parse_items(s@, i as int, acc@) is None,
        },
    decreases s@.len() - i,
{
    let (v, j) = match parse_u32(s, i) {
        Some(p) => p,
        None => {
            return None;
        },
    };
    if v > u16::MAX as u32 {
        return None;
    }
    let mut acc2 = acc;
    acc2.push(v as u16);
    let k = skip_ws(s, j);
    if k < s.len() && s[k] == 93 {
        Some((acc2, k + 1))
    } else if k < s.len() && s[k] == 44 {
        let m = skip_ws(s, k + 1);
        parse_items(s, m, acc2)
    } else {
        None
    }
}

/// Parse a filter list.
pub fn parse_list(s: &[u8], i: usize) -> (r: Option<(Vec<u16>, usize)>)
    requires
        i <= s@.len(),
    ensures
        match r {
            Some((v, j)) => spec_parse_list(s@, i as int) == Some((v@, j as int)) && j <= s@.len(),
            None => spec_parse_list(s@, i as int) is None,
        },
{
    if !(i < s.len() && s[i] == 91) {
        return None;
    }
    let j = skip_ws(s, i + 1);
    if j < s.len() && s[j] == 93 {
        let empty: Vec<u16> = Vec::new();
        proof {
            assert(empty@ =~= Seq::<u16>::empty());
        }
        return Some((empty, j + 1));
    }
    let empty: Vec<u16> = Vec::new();
    proof {
        assert(empty@ =~= Seq::<u16>::empty());
    }
    parse_items(s, j, empty)
}

/// Parse one filter member at `i`: either the exclusion flag or the
/// talkgroup list. The answer says which member it was, its value, and
/// the position after it.
pub open spec fn spec_parse_member(s: Seq<u8>, i: int) -> Option<(bool, bool, Seq<u16>, int)> {
    match spec_parse_key(s, i, crate::lit::spec_name_exclude()) {
        Some(j) => {
            let k = spec_skip_ws(s, j);
            if k < s.len() && s[k] == 58 {
                match spec_parse_bool(s, spec_skip_ws(s, k + 1)) {
                    Some((b, m)) => Some((true, b, Seq::<u16>::empty(), m)),
                    None => None,
                }
            } else {
                None
            }
        },
        None => match spec_parse_key(s, i, crate::lit::spec_name_filt()) {
            Some(j) => {
                let k = spec_skip_ws(s, j);
                if k < s.len() && s[k] == 58 {
                    match spec_parse_list(s, spec_skip_ws(s, k + 1)) {
                        Some((l, m)) => Some((false, false, l, m)),
                        None => None,
                    }
                } else {
                    None
                }
            },
            None => None,
        },
    }
}

/// Parse one filter member.
fn parse_member(s: &[u8], i: usize) -> (r: Option<(bool, bool, Vec<u16>, usize)>)
    requires
        i <= s@.len(),
    ensures
        match r {
            Some((e, b, l, j)) => spec_parse_member(s@, i as int) == Some((e, b, l@, j as int))
                && j <= s@.len(),
            None => spec_parse_member(s@, i as int) is None,
        },
{
    let mut name: Vec<u8> = Vec::new();
    crate::lit::push_name_exclude(&mut name);
    match parse_key(s, i, name.as_slice()) {
        Some(j) => {
            let k = skip_ws(s, j);
            if !(k < s.len() && s[k] == 58) {
                return None;
            }
            match parse_bool(s, skip_ws(s, k + 1)) {
                Some((b, m)) => {
                    let empty: Vec<u16> = Vec::new();
                    proof {
                        assert(empty@ =~= Seq::<u16>::empty());
                    }
                    Some((true, b, empty, m))
                },
                None => None,
            }
        },
        None => {
            let mut name2: Vec<u8> = Vec::new();
            crate::lit::push_name_filt(&mut name2);
            match parse_key(s, i, name2.as_slice()) {
                Some(j) => {
                    let k = skip_ws(s, j);
                    if !(k < s.len() && s[k] == 58) {
                        return None;
                    }
                    match parse_list(s, skip_ws(s, k + 1)) {
                        Some((l, m)) => Some((false, false, l, m)),
                        None => None,
                    }
                },
                None => None,
            }
        },
    }
}

/// Parse a whole filter: an object holding exactly the exclusion flag and
/// the talkgroup list, in either order, with any JSON whitespace around
/// the tokens. The answer is the flag and the list as written.
pub open spec fn spec_parse_filter(s: Seq<u8>) -> Option<(bool, Seq<u16>)> {
    let i = spec_skip_ws(s, 0);
    if i < s.len() && s[i] == 123 {
        match spec_parse_member(s, spec_skip_ws(s, i + 1)) {
            Some((e1, b1, l1, j1)) => {
                let k = spec_skip_ws(s, j1);
                if k < s.len() && s[k] == 44 {
                    match spec_parse_member(s, spec_skip_ws(s, k + 1)) {
                        Some((e2, b2, l2, j2)) => {
                            let m = spec_skip_ws(s, j2);
                            if m < s.len() && s[m] == 125 && spec_skip_ws(s, m + 1) == s.len()
                                && e1 != e2 {
                                if e1 {
                                    Some((b1, l2))
                                } else {
                                    Some((b2, l1))
                                }
                            } else {
                                None
                            }
                        },
                        None => None,
                    }
                } else {
                    None
                }
            },
            None => None,
        }
    } else {
        None
    }
}

/// Parse a whole filter body.
pub fn parse_filter(s: &[u8]) -> (r: Option<(bool, Vec<u16>)>)
    ensures
        match r {
            Some((e, l)) => spec_parse_filter(s@) == Some((e, l@)),
            None => spec_parse_filter(s@) is None,
        },
{
    let i = skip_ws(s, 0);
    if !(i < s.len() && s[i] == 123) {
        return None;
    }
    let (e1, b1, l1, j1) = match parse_member(s, skip_ws(s, i + 1)) {
        Some(p) => p,
        None => {
            return None;
        },
    };
    let k = skip_ws(s, j1);
    if !(k < s.len() && s[k] == 44) {
        return None;
    }
    let (e2, b2, l2, j2) = match parse_member(s, skip_ws(s, k + 1)) {
        Some(p) => p,
        None => {
            return None;
        },
    };
    let m = skip_ws(s, j2);
    if !(m < s.len() && s[m] == 125 && skip_ws(s, m + 1) == s.len() && e1 != e2) {
        return None;
    }
    if e1 {
        Some((b1, l2))
    } else {
        Some((b2, l1))
    }
}

/// The JSON text of a talkgroup list: the numbers, comma-separated.
pub open spec fn spec_u16_list_json(s: Seq<u16>) -> Seq<u8>
    decreases s.len(),
{
    if s.len() == 0 {
        Seq::<u8>::empty()
    } else if s.len() == 1 {
        crate::fmt::dec_digits(s[0] as int)
    } else {
        spec_u16_list_json(s.drop_last()) + crate::lit::spec_comma() + crate::fmt::dec_digits(
            s.last() as int,
        )
    }
}

/// The JSON text of a filter: its exclusion flag and its talkgroup list.
pub open spec fn spec_filter_json(exclude: bool, filt: Seq<u16>) -> Seq<u8> {
    crate::lit::spec_f_exclude() + (if exclude {
        crate::lit::spec_lit_true()
    } else {
        crate::lit::spec_lit_false()
    }) + crate::lit::spec_f_filt() + spec_u16_list_json(filt) + crate::lit::spec_close_bracket_brace()
}

/// The JSON text of a control-frequency answer.
pub open spec fn spec_ctlfreq_json(freq: u32) -> Seq<u8> {
    crate::lit::spec_k_ctlfreq() + crate::fmt::dec_digits(freq as int)
        + crate::lit::spec_close_brace()
}

/// Parse a control-frequency body.
pub fn parse_ctlfreq(s: &[u8]) -> (r: Option<u32>)
    ensures
        r == spec_parse_ctlfreq(s@),
{
    let i = skip_ws(s, 0);
    if !(i < s.len() && s[i] == 123) {
        return None;
    }
    let i = skip_ws(s, i + 1);
    let mut name: Vec<u8> = Vec::new();
    crate::lit::push_name_ctlfreq(&mut name);
    let i = match parse_key(s, i, name.as_slice()) {
        Some(i) => i,
        None => {
            return None;
        },
    };
    let i = skip_ws(s, i);
    if !(i < s.len() && s[i] == 58) {
        return None;
    }
    let i = skip_ws(s, i + 1);
    let (v, i) = match parse_u32(s, i) {
        Some(p) => p,
        None => {
            return None;
        },
    };
    let i = skip_ws(s, i);
    if !(i < s.len() && s[i] == 125) {
        return None;
    }
    if skip_ws(s, i + 1) != s.len() {
        return None;
    }
    Some(v)
}

} // verus!
