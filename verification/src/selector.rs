//! The compile-time selector-constant generator's processing: between two
//! fixed markers, the token text of a selector is extracted, its whitespace
//! dropped, and the result laid out as a nul-terminated byte array together
//! with that array's length.

use vstd::prelude::*;
use vstd::string::StringSliceAdditionalSpecFns;

verus! {

/// The marker that opens the selector body in the token text.
pub open spec fn spec_start_marker() -> Seq<u8> {
    "__SEL_START_MARKER__".spec_bytes()
}

/// The marker that closes the selector body in the token text.
pub open spec fn spec_end_marker() -> Seq<u8> {
    "__SEL_END_MARKER__".spec_bytes()
}

/// Whether the marker `m` occurs in `s` starting at position `i`.
pub open spec fn occurs_at(s: Seq<u8>, m: Seq<u8>, i: int) -> bool {
    &&& 0 <= i
    &&& i + m.len() <= s.len()
    &&& forall|j: int| 0 <= j < m.len() ==> s[i + j] == m[j]
}

/// The position of the first occurrence of `m` in `s` at or after `i`.
pub open spec fn spec_find_from(s: Seq<u8>, m: Seq<u8>, i: int) -> Option<int>
    decreases s.len() - i,
{
    if i < 0 || i + m.len() > s.len() {
        None
    } else if occurs_at(s, m, i) {
        Some(i)
    } else {
        spec_find_from(s, m, i + 1)
    }
}

/// The position of the first occurrence of `m` in `s`.
pub open spec fn spec_find_first(s: Seq<u8>, m: Seq<u8>) -> Option<int> {
    spec_find_from(s, m, 0)
}

/// The position of the last occurrence of `m` in `s` at or before `i`.
pub open spec fn spec_rfind_from(s: Seq<u8>, m: Seq<u8>, i: int) -> Option<int>
    decreases i + 1,
{
    if i < 0 {
        None
    } else if i + m.len() <= s.len() && occurs_at(s, m, i) {
        Some(i)
    } else {
        spec_rfind_from(s, m, i - 1)
    }
}

/// The position of the last occurrence of `m` in `s`.
pub open spec fn spec_rfind(s: Seq<u8>, m: Seq<u8>) -> Option<int> {
    spec_rfind_from(s, m, s.len() - m.len())
}

/// Whether a byte is ASCII whitespace, the only whitespace token text holds.
pub open spec fn spec_is_space(b: u8) -> bool {
    b == 32 || (9 <= b && b <= 13)
}

/// The non-whitespace bytes of `s`, in order.
pub open spec fn spec_kept(s: Seq<u8>) -> Seq<u8>
    decreases s.len(),
{
    if s.len() == 0 {
        Seq::empty()
    } else {
        let rest = spec_kept(s.drop_last());
        if spec_is_space(s.last()) {
            rest
        } else {
            rest.push(s.last())
        }
    }
}

/// The two constants the selector generator emits: the selector's bytes with
/// a terminating nul appended, and the length of that array.
pub struct SelectorData {
    pub len: usize,
    pub data: Vec<u8>,
}

/// Whether the marker `m` occurs in `s` at position `i`.
fn match_at(s: &[u8], m: &[u8], i: usize) -> (b: bool)
    requires
        i + m@.len() <= s@.len(),
    ensures
        b == occurs_at(s@, m@, i as int),
{
    let slen = s.len();
    let mut j: usize = 0;
    while j < m.len()
        invariant
            0 <= j <= m@.len(),
            i + m@.len() <= s@.len(),
            slen == s@.len(),
            forall|k: int| 0 <= k < j ==> s@[i + k] == m@[k],
        decreases m@.len() - j,
    {
        if s[i + j] != m[j] {
            proof {
                assert(s@[i as int + j as int] != m@[j as int]);
            }
            return false;
        }
        j += 1;
    }
    true
}

/// The position of the first occurrence of `m` in `s`, if any.
fn find_first(s: &[u8], m: &[u8]) -> (r: Option<usize>)
    ensures
        match r {
            Some(i) => occurs_at(s@, m@, i as int) && spec_find_first(s@, m@) == Some(i as int),
            None => spec_find_first(s@, m@) is None,
        },
{
    if m.len() > s.len() {
        proof {
            assert(spec_find_from(s@, m@, 0) is None);
        }
        return None;
    }
    let end = s.len() - m.len();
    let mut i: usize = 0;
    loop
        invariant
            0 <= i <= end,
            m@.len() <= s@.len(),
            end == s@.len() - m@.len(),
            spec_find_first(s@, m@) == spec_find_from(s@, m@, i as int),
        decreases end - i,
    {
        if match_at(s, m, i) {
            return Some(i);
        }
        proof {
            assert(spec_find_from(s@, m@, i as int) == spec_find_from(s@, m@, i as int + 1));
        }
        if i == end {
            proof {
                assert(spec_find_from(s@, m@, i as int + 1) is None);
            }
            return None;
        }
        i += 1;
    }
}

/// The position of the last occurrence of `m` in `s`, if any.
fn find_last(s: &[u8], m: &[u8]) -> (r: Option<usize>)
    ensures
        match r {
            Some(i) => occurs_at(s@, m@, i as int) && spec_rfind(s@, m@) == Some(i as int),
            None => spec_rfind(s@, m@) is None,
        },
{
    if m.len() > s.len() {
        proof {
            assert(spec_rfind(s@, m@) is None);
        }
        return None;
    }
    let top = s.len() - m.len();
    let mut i: usize = top;
    loop
        invariant
            0 <= i <= top,
            m@.len() <= s@.len(),
            top == s@.len() - m@.len(),
            spec_rfind(s@, m@) == spec_rfind_from(s@, m@, i as int),
        decreases i,
    {
        if match_at(s, m, i) {
            return Some(i);
        }
        proof {
            assert(spec_rfind_from(s@, m@, i as int) == spec_rfind_from(s@, m@, i as int - 1));
        }
        if i == 0 {
            proof {
                assert(spec_rfind_from(s@, m@, -1) is None);
            }
            return None;
        }
        i -= 1;
    }
}

/// Extracts the selector body between the first start marker and the last end
/// marker of the token text, drops its whitespace, and returns the
/// nul-terminated selector bytes together with their count. Returns `None`
/// when either marker is missing or the last end marker closes before the
/// first start marker has opened the body.
pub fn sel_internal(input: &[u8]) -> (r: Option<SelectorData>)
    ensures
        ({
            let s = input@;
            let sm = spec_start_marker();
            let em = spec_end_marker();
            match r {
                Some(sd) => {
                    &&& spec_find_first(s, sm) matches Some(si)
                    &&& spec_rfind(s, em) matches Some(ei)
                    &&& si + sm.len() <= ei
                    &&& sd.data@ == spec_kept(s.subrange(si + sm.len(), ei)).push(0u8)
                    &&& sd.len == sd.data@.len()
                },
                None => {
                    ||| spec_find_first(s, sm) is None
                    ||| spec_rfind(s, em) is None
                    ||| (spec_find_first(s, sm) matches Some(si) && spec_rfind(s, em) matches Some(
                        ei,
                    ) && ei < si + sm.len())
                },
            }
        }),
{
    let ilen = input.len();
    let sm = "__SEL_START_MARKER__".as_bytes();
    let em = "__SEL_END_MARKER__".as_bytes();
    let si = match find_first(input, sm) {
        Some(i) => i,
        None => {
            return None;
        },
    };
    let ei = match find_last(input, em) {
        Some(i) => i,
        None => {
            return None;
        },
    };
    let start = si + sm.len();
    if ei < start {
        return None;
    }

    let mut data: Vec<u8> = Vec::new();
    let mut i: usize = start;
    proof {
        assert(input@.subrange(start as int, start as int).len() == 0);
    }
    while i < ei
        invariant
            start <= i <= ei,
            ei <= input@.len(),
            data@ == spec_kept(input@.subrange(start as int, i as int)),
        decreases ei - i,
    {
        let b = input[i];
        if !(b == 32 || (9 <= b && b <= 13)) {
            data.push(b);
        }
        proof {
            assert(input@.subrange(start as int, i as int + 1).drop_last() =~= input@.subrange(
                start as int,
                i as int,
            ));
            assert(input@.subrange(start as int, i as int + 1).last() == input@[i as int]);
        }
        i += 1;
    }
    data.push(0);
    let len = data.len();
    Some(SelectorData { len, data })
}

} // verus!
