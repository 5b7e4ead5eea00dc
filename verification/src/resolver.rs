use vstd::prelude::*;

use crate::errors::TargetResolutionError;

verus! {

/// What is captured: a display or a window, carried as a tagged opaque
/// handle so no platform pointer type leaks into the protocol.  Immutable
/// once resolved.
#[derive(Clone, Copy, Debug, PartialEq, Eq, Structural)]
pub enum CaptureTarget {
    Display(u64),
    Window(u64),
}

/// A top-level window as the enumeration reports it: its opaque handle and
/// the UTF-8 bytes of its title.
pub struct WindowInfo {
    pub handle: u64,
    pub title: Vec<u8>,
}

/// Resolve a one-based display index against the enumerated displays, in
/// the stable order the enumeration produced them.  Index zero and indices
/// beyond the number of displays are user errors, reported before any
/// device or capture resource is created.
pub fn resolve_display(id: u32, displays: &Vec<u64>) -> (r: Result<
    CaptureTarget,
    TargetResolutionError,
>)
    ensures
        r is Ok <==> 1 <= id <= displays@.len(),
        r is Ok ==> r.unwrap() == CaptureTarget::Display(displays@[id - 1]),
        r is Err ==> r == Err::<CaptureTarget, TargetResolutionError>(
            TargetResolutionError::InvalidDisplayIndex,
        ),
    {
    if id == 0 {
        return Err(TargetResolutionError::InvalidDisplayIndex);
    }
    let index = (id - 1) as usize;
    if index >= displays.len() {
        return Err(TargetResolutionError::InvalidDisplayIndex);
    }
    Ok(CaptureTarget::Display(displays[index]))
}

/// `needle` occurs in `hay` starting at position `i`.
pub open spec fn match_at(hay: Seq<u8>, needle: Seq<u8>, i: int) -> bool {
    &&& 0 <= i
    &&& i + needle.len() <= hay.len()
    &&& hay.subrange(i, i + needle.len()) == needle
}

/// `needle` occurs somewhere in `hay`.  Title matching is case-sensitive
/// byte containment: a window matches a query exactly when its title
/// contains the query's bytes.
pub open spec fn contains_bytes(hay: Seq<u8>, needle: Seq<u8>) -> bool {
    exists|i: int| match_at(hay, needle, i)
}

/// Window `i` exists and its title contains the query.
pub open spec fn is_match(ws: Seq<WindowInfo>, q: Seq<u8>, i: int) -> bool {
    0 <= i < ws.len() && contains_bytes(ws[i].title@, q)
}

fn match_here(hay: &Vec<u8>, needle: &Vec<u8>, i: usize) -> (b: bool)
    requires
        i + needle@.len() <= hay@.len(),
    ensures
        b == match_at(hay@, needle@, i as int),
{
    let n = needle.len();
    let hay_len = hay.len();
    let mut j: usize = 0;
    while j < n
        invariant
            0 <= j <= n,
            n == needle@.len(),
            hay_len == hay@.len(),
            i + n <= hay@.len(),
            forall|t: int| 0 <= t < j ==> hay@[i + t] == needle@[t],
        decreases n - j,
    {
        if hay[i + j] != needle[j] {
            proof {
                assert(hay@.subrange(i as int, i + n) != needle@) by {
                    assert(hay@.subrange(i as int, i + n)[j as int] == hay@[i + j]);
                }
            }
            return false;
        }
        j = j + 1;
    }
    proof {
        assert(hay@.subrange(i as int, i + n as int) =~= needle@);
    }
    true
}

/// Whether `needle` occurs anywhere in `hay`, by direct search.
pub fn contains_subsequence(hay: &Vec<u8>, needle: &Vec<u8>) -> (b: bool)
    ensures
        b == contains_bytes(hay@, needle@),
{
    let n = needle.len();
    let m = hay.len();
    if n > m {
        return false;
    }
    if n == 0 {
        proof {
            assert(hay@.subrange(0, 0) =~= needle@);
            assert(match_at(hay@, needle@, 0));
        }
        return true;
    }
    let limit = m - n;
    let mut i: usize = 0;
    while i <= limit
        invariant
            1 <= n <= m,
            m == hay@.len(),
            n == needle@.len(),
            limit == m - n,
            0 <= i <= limit + 1,
            forall|t: int| 0 <= t < i ==> !match_at(hay@, needle@, t),
        decreases limit + 1 - i,
    {
        if match_here(hay, needle, i) {
            return true;
        }
        i = i + 1;
    }
    proof {
        assert(forall|t: int| match_at(hay@, needle@, t) ==> 0 <= t <= limit);
    }
    false
}

/// Indices of the windows whose titles contain the query, in enumeration
/// order: exactly the matching windows, each index once, strictly
/// ascending.
pub fn find_matching_windows(query: &Vec<u8>, windows: &Vec<WindowInfo>) -> (matches: Vec<usize>)
    ensures
        forall|k: int| 0 <= k < matches@.len() ==> #[trigger] matches@[k] < windows@.len(),
        forall|a: int, b: int| 0 <= a < b < matches@.len() ==> matches@[a] < matches@[b],
        forall|i: usize|
            i < windows@.len() ==> (#[trigger] matches@.contains(i) <==> contains_bytes(
                windows@[i as int].title@,
                query@,
            )),
{
    let mut out: Vec<usize> = Vec::new();
    let mut i: usize = 0;
    while i < windows.len()
        invariant
            0 <= i <= windows@.len(),
            forall|k: int| 0 <= k < out@.len() ==> #[trigger] out@[k] < i,
            forall|a: int, b: int| 0 <= a < b < out@.len() ==> out@[a] < out@[b],
            forall|j: usize|
                j < i ==> (#[trigger] out@.contains(j) <==> contains_bytes(
                    windows@[j as int].title@,
                    query@,
                )),
        decreases windows@.len() - i,
    {
        let matched = contains_subsequence(&windows[i].title, query);
        let ghost prev = out@;
        if matched {
            out.push(i);
        }
        proof {
            assert forall|j: usize|
                j < i + 1 implies (#[trigger] out@.contains(j) <==> contains_bytes(
                windows@[j as int].title@,
                query@,
            )) by {
                if j == i {
                    if matched {
                        assert(out@[out@.len() - 1] == i);
                        assert(out@.contains(i));
                    } else {
                        if out@.contains(i) {
                            let k = choose|k: int| 0 <= k < out@.len() && out@[k] == i;
                            assert(out@[k] < i);
                        }
                    }
                } else {
                    if prev.contains(j) {
                        let k = choose|k: int| 0 <= k < prev.len() && prev[k] == j;
                        assert(out@[k] == j);
                        assert(out@.contains(j));
                    }
                    if out@.contains(j) {
                        let k = choose|k: int| 0 <= k < out@.len() && out@[k] == j;
                        assert(k < prev.len());
                        assert(prev.contains(j));
                    }
                }
            }
        }
        i = i + 1;
    }
    out
}

/// The outcome of a window-title query: the core resolves exactly one
/// target or fails; several matches are handed back for the surrounding
/// application to let the user disambiguate.
pub enum WindowResolution {
    /// No window title contained the query: a user error, reported before
    /// any capture resource exists.
    NoMatch,
    /// Exactly one window matched.
    Resolved(CaptureTarget),
    /// Two or more windows matched: their indices, in enumeration order,
    /// awaiting the user's choice.
    Ambiguous(Vec<usize>),
}

/// Resolve a window-title query against the enumerated windows.
pub fn resolve_window(query: &Vec<u8>, windows: &Vec<WindowInfo>) -> (r: WindowResolution)
    ensures
        r is NoMatch <==> (forall|i: int| !is_match(windows@, query@, i)),
        r is Resolved <==> (exists|i: int|
            is_match(windows@, query@, i) && (forall|j: int|
                is_match(windows@, query@, j) ==> j == i)),
        r matches WindowResolution::Resolved(t) ==> (exists|i: int|
            #[trigger] is_match(windows@, query@, i) && t == CaptureTarget::Window(
                windows@[i].handle,
            ) && (forall|j: int| is_match(windows@, query@, j) ==> j == i)),
        r is Ambiguous <==> (exists|i: int, j: int|
            i != j && #[trigger] is_match(windows@, query@, i) && #[trigger] is_match(
                windows@,
                query@,
                j,
            )),
        r matches WindowResolution::Ambiguous(c) ==> {
            &&& c@.len() >= 2
            &&& forall|k: int| 0 <= k < c@.len() ==> #[trigger] c@[k] < windows@.len()
            &&& forall|a: int, b: int| 0 <= a < b < c@.len() ==> c@[a] < c@[b]
            &&& forall|i: usize|
                i < windows@.len() ==> (#[trigger] c@.contains(i) <==> contains_bytes(
                    windows@[i as int].title@,
                    query@,
                ))
        },
{
    let wlen = windows.len();
    let m = find_matching_windows(query, windows);
    if m.len() == 0 {
        proof {
            assert forall|i: int| !is_match(windows@, query@, i) by {
                if is_match(windows@, query@, i) {
                    assert(m@.contains(i as usize));
                }
            }
        }
        WindowResolution::NoMatch
    } else if m.len() == 1 {
        let idx = m[0];
        proof {
            assert(m@.contains(m@[0])) by {
                assert(m@[0] == m@[0]);
            }
            assert(is_match(windows@, query@, idx as int));
            assert forall|j: int| is_match(windows@, query@, j) implies j == idx as int by {
                assert(m@.contains(j as usize));
                let k = choose|k: int| 0 <= k < m@.len() && m@[k] == j as usize;
                assert(k == 0);
                assert(m@[0] == j as usize);
            }
        }
        WindowResolution::Resolved(CaptureTarget::Window(windows[idx].handle))
    } else {
        proof {
            assert(m@[0] != m@[1]);
            assert(m@.contains(m@[0])) by {
                assert(m@[0] == m@[0]);
            }
            assert(m@.contains(m@[1])) by {
                assert(m@[1] == m@[1]);
            }
            assert(is_match(windows@, query@, m@[0] as int));
            assert(is_match(windows@, query@, m@[1] as int));
        }
        WindowResolution::Ambiguous(m)
    }
}

/// The user's reply to the disambiguation prompt, decided from one line of
/// input.
#[derive(Clone, Copy, Debug, PartialEq, Eq, Structural)]
pub enum SelectionInput {
    /// The line asked to leave without capturing.
    Quit,
    /// A valid zero-based index into the candidate list.
    Pick(usize),
    /// Anything else; the prompt is repeated.
    Invalid,
}

pub open spec fn is_ascii_space(b: u8) -> bool {
    b == 32 || b == 9 || b == 10 || b == 13
}

pub open spec fn is_ascii_digit(b: u8) -> bool {
    48 <= b <= 57
}

pub open spec fn all_digits(s: Seq<u8>) -> bool {
    forall|i: int| 0 <= i < s.len() ==> is_ascii_digit(#[trigger] s[i])
}

/// The line asks to quit: it holds the letter q, in either case.
pub open spec fn has_quit(s: Seq<u8>) -> bool {
    exists|i: int| 0 <= i < s.len() && ((#[trigger] s[i]) == 113 || s[i] == 81)
}

pub open spec fn trim_start(s: Seq<u8>) -> Seq<u8>
    decreases s.len(),
{
    if s.len() > 0 && is_ascii_space(s[0]) {
        trim_start(s.subrange(1, s.len() as int))
    } else {
        s
    }
}

pub open spec fn trim_end(s: Seq<u8>) -> Seq<u8>
    decreases s.len(),
{
    if s.len() > 0 && is_ascii_space(s.last()) {
        trim_end(s.drop_last())
    } else {
        s
    }
}

/// The line with leading and trailing ASCII whitespace removed.
pub open spec fn trimmed(s: Seq<u8>) -> Seq<u8> {
    trim_end(trim_start(s))
}

/// The number a string of decimal digits denotes.
pub open spec fn dec_value(s: Seq<u8>) -> int
    decreases s.len(),
{
    if s.len() == 0 {
        0
    } else {
        dec_value(s.drop_last()) * 10 + (s.last() - 48)
    }
}

proof fn lemma_dec_value_nonneg(s: Seq<u8>)
    requires
        all_digits(s),
    ensures
        dec_value(s) >= 0,
    decreases s.len(),
{
    if s.len() > 0 {
        assert forall|i: int| 0 <= i < s.drop_last().len() implies is_ascii_digit(
            #[trigger] s.drop_last()[i],
        ) by {
            assert(s.drop_last()[i] == s[i]);
        }
        lemma_dec_value_nonneg(s.drop_last());
    }
}

/// The value of a digit string is at least the value of any of its
/// prefixes.
proof fn lemma_dec_value_prefix_le(s: Seq<u8>, k: int)
    requires
        all_digits(s),
        0 <= k <= s.len(),
    ensures
        dec_value(s.subrange(0, k)) <= dec_value(s),
    decreases s.len() - k,
{
    if k == s.len() {
        assert(s.subrange(0, k) =~= s);
    } else {
        let a = s.subrange(0, k);
        let b = s.subrange(0, k + 1);
        assert(b.drop_last() =~= a);
        assert forall|i: int| 0 <= i < a.len() implies is_ascii_digit(#[trigger] a[i]) by {
            assert(a[i] == s[i]);
        }
        lemma_dec_value_nonneg(a);
        assert(b.last() == s[k]);
        assert(dec_value(b) == dec_value(a) * 10 + (s[k] - 48));
        assert(dec_value(a) <= dec_value(b));
        lemma_dec_value_prefix_le(s, k + 1);
    }
}

/// Decide the reply to the disambiguation prompt from one line of input.
///
/// A line containing the letter q, in either case, quits.  Otherwise the
/// line, trimmed of ASCII whitespace, picks a candidate exactly when it is
/// a nonempty string of decimal digits whose value is below `count`;
/// anything else — empty, stray characters, an index at or past `count`, a
/// number too large for the machine — is invalid and makes the prompt
/// repeat.
pub fn parse_selection(input: &Vec<u8>, count: usize) -> (r: SelectionInput)
    ensures
        r is Quit <==> has_quit(input@),
        !has_quit(input@) ==> {
            let t = trimmed(input@);
            &&& (r is Pick <==> t.len() > 0 && all_digits(t) && dec_value(t) < count)
            &&& (r matches SelectionInput::Pick(v) ==> v == dec_value(t))
        },
{
    let n = input.len();
    let mut i: usize = 0;
    while i < n
        invariant
            0 <= i <= n,
            n == input@.len(),
            forall|t: int| 0 <= t < i ==> !((#[trigger] input@[t]) == 113 || input@[t] == 81),
        decreases n - i,
    {
        let b = input[i];
        if b == 113 || b == 81 {
            return SelectionInput::Quit;
        }
        i = i + 1;
    }
    proof {
        assert(input@.subrange(0, n as int) =~= input@);
    }
    let mut lo: usize = 0;
    while lo < n && (input[lo] == 32 || input[lo] == 9 || input[lo] == 10 || input[lo] == 13)
        invariant
            0 <= lo <= n,
            n == input@.len(),
            trim_start(input@) == trim_start(input@.subrange(lo as int, n as int)),
        decreases n - lo,
    {
        proof {
            let s = input@.subrange(lo as int, n as int);
            assert(s[0] == input@[lo as int]);
            assert(s.subrange(1, s.len() as int) =~= input@.subrange((lo + 1) as int, n as int));
        }
        lo = lo + 1;
    }
    proof {
        assert(trim_start(input@) == input@.subrange(lo as int, n as int));
    }
    let mut hi: usize = n;
    while hi > lo && (input[hi - 1] == 32 || input[hi - 1] == 9 || input[hi - 1] == 10 || input[hi
        - 1] == 13)
        invariant
            lo <= hi <= n,
            n == input@.len(),
            trim_end(input@.subrange(lo as int, hi as int)) == trimmed(input@),
        decreases hi - lo,
    {
        proof {
            let s = input@.subrange(lo as int, hi as int);
            assert(s.last() == input@[(hi - 1) as int]);
            assert(s.drop_last() =~= input@.subrange(lo as int, (hi - 1) as int));
        }
        hi = hi - 1;
    }
    let ghost t = input@.subrange(lo as int, hi as int);
    proof {
        assert(trimmed(input@) == t);
    }
    if hi == lo {
        return SelectionInput::Invalid;
    }
    let mut acc: u128 = 0;
    let mut j: usize = lo;
    while j < hi
        invariant
            lo <= j <= hi <= n,
            n == input@.len(),
            lo < hi,
            t == input@.subrange(lo as int, hi as int),
            trimmed(input@) == t,
            !has_quit(input@),
            all_digits(input@.subrange(lo as int, j as int)),
            acc as int == dec_value(input@.subrange(lo as int, j as int)),
            acc <= usize::MAX as u128,
        decreases hi - j,
    {
        let b = input[j];
        if b < 48 || b > 57 {
            proof {
                assert(t[(j - lo) as int] == input@[j as int]);
                assert(!all_digits(t));
            }
            return SelectionInput::Invalid;
        }
        let d = (b - 48) as u128;
        let next: u128 = acc * 10 + d;
        proof {
            let pre = input@.subrange(lo as int, j as int);
            let cur = input@.subrange(lo as int, (j + 1) as int);
            assert(cur.drop_last() =~= pre);
            assert(cur.last() == input@[j as int]);
            assert(next as int == dec_value(cur));
            assert forall|x: int| 0 <= x < cur.len() implies is_ascii_digit(#[trigger] cur[x]) by {
                if x < cur.len() - 1 {
                    assert(cur[x] == pre[x]);
                } else {
                    assert(cur[x] == input@[j as int]);
                }
            }
        }
        if next > (usize::MAX as u128) {
            proof {
                if all_digits(t) {
                    let cur = input@.subrange(lo as int, (j + 1) as int);
                    assert(cur =~= t.subrange(0, (j + 1 - lo) as int));
                    lemma_dec_value_prefix_le(t, (j + 1 - lo) as int);
                    assert(dec_value(t) >= dec_value(cur));
                }
            }
            return SelectionInput::Invalid;
        }
        acc = next;
        j = j + 1;
    }
    proof {
        assert(input@.subrange(lo as int, j as int) =~= t);
    }
    let v = acc as usize;
    if v < count {
        SelectionInput::Pick(v)
    } else {
        SelectionInput::Invalid
    }
}

} // verus!
