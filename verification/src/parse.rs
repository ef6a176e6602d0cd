//! Boundary parsing of the note-id list.
//!
//! A consume-notes call hands the bridge a JSON-style array of note-id
//! strings, e.g. `["0x….", "0x…"]`.  The bridge parses it with a small,
//! fully specified grammar: surrounding whitespace is trimmed, the text must
//! be bracketed, and each comma-separated element is trimmed of whitespace
//! and of surrounding double or single quotes before it is checked against
//! the note-id grammar.  An element that fails the grammar rejects the whole
//! list; an empty array parses to an empty list (which the call surface then
//! rejects with the note-operation code).

use vstd::prelude::*;

use crate::ids::{is_valid_note_id, valid_note_id};
use crate::views::{lemma_deep_view_push, lemma_vec_u8_deep_view};

verus! {

/// ASCII whitespace, as trimmed at the boundary.
pub open spec fn is_ws(b: u8) -> bool {
    b == 32 || b == 9 || b == 10 || b == 11 || b == 12 || b == 13
}

/// Whether one byte is boundary whitespace.
pub fn byte_is_ws(b: u8) -> (r: bool)
    ensures
        r == is_ws(b),
{
    b == 32 || b == 9 || b == 10 || b == 11 || b == 12 || b == 13
}

/// `s` without leading whitespace.
pub open spec fn trim_start(s: Seq<u8>) -> Seq<u8>
    decreases s.len(),
{
    if s.len() > 0 && is_ws(s[0]) {
        trim_start(s.drop_first())
    } else {
        s
    }
}

/// `s` without trailing whitespace.
pub open spec fn trim_end(s: Seq<u8>) -> Seq<u8>
    decreases s.len(),
{
    if s.len() > 0 && is_ws(s.last()) {
        trim_end(s.drop_last())
    } else {
        s
    }
}

/// `s` without leading or trailing whitespace.
pub open spec fn trim(s: Seq<u8>) -> Seq<u8> {
    trim_end(trim_start(s))
}

/// `s` without leading occurrences of `c`.
pub open spec fn strip_start(s: Seq<u8>, c: u8) -> Seq<u8>
    decreases s.len(),
{
    if s.len() > 0 && s[0] == c {
        strip_start(s.drop_first(), c)
    } else {
        s
    }
}

/// `s` without trailing occurrences of `c`.
pub open spec fn strip_end(s: Seq<u8>, c: u8) -> Seq<u8>
    decreases s.len(),
{
    if s.len() > 0 && s.last() == c {
        strip_end(s.drop_last(), c)
    } else {
        s
    }
}

/// `s` without leading or trailing occurrences of `c`.
pub open spec fn strip(s: Seq<u8>, c: u8) -> Seq<u8> {
    strip_end(strip_start(s, c), c)
}

/// One element of the array, cleaned: whitespace trimmed, then surrounding
/// double quotes, then surrounding single quotes.
pub open spec fn clean_part(p: Seq<u8>) -> Seq<u8> {
    strip(strip(trim(p), 34), 39)
}

/// `s` split at every comma; always at least one (possibly empty) part.
pub open spec fn split_commas(s: Seq<u8>) -> Seq<Seq<u8>>
    decreases s.len(),
{
    if s.len() == 0 {
        seq![Seq::<u8>::empty()]
    } else if s[0] == 44 {
        seq![Seq::<u8>::empty()] + split_commas(s.drop_first())
    } else {
        let r = split_commas(s.drop_first());
        seq![seq![s[0]] + r[0]] + r.drop_first()
    }
}

/// A split has at least one part.
pub proof fn lemma_split_commas_len(s: Seq<u8>)
    ensures
        split_commas(s).len() >= 1,
    decreases s.len(),
{
    if s.len() > 0 {
        lemma_split_commas_len(s.drop_first());
    }
}

/// The first part of a split, with `p` prepended to it.
pub open spec fn prepend_first(p: Seq<u8>, ss: Seq<Seq<u8>>) -> Seq<Seq<u8>>
    recommends
        ss.len() >= 1,
{
    seq![p + ss[0]] + ss.drop_first()
}

/// The comma-separated elements of the array contents, each cleaned.
pub open spec fn cleaned_parts(inner: Seq<u8>) -> Seq<Seq<u8>> {
    split_commas(inner).map_values(|p: Seq<u8>| clean_part(p))
}

/// The whole parse: `None` if the trimmed text is not bracketed or any
/// element fails the note-id grammar; the cleaned elements otherwise, and an
/// empty list for an array with empty contents.
pub open spec fn spec_parse_note_ids(s: Seq<u8>) -> Option<Seq<Seq<u8>>> {
    let t = trim(s);
    if t.len() == 0 || t[0] != 91 || t[t.len() - 1] != 93 {
        None
    } else {
        let inner = t.subrange(1, t.len() - 1);
        if trim(inner).len() == 0 {
            Some(Seq::<Seq<u8>>::empty())
        } else {
            let parts = cleaned_parts(inner);
            if forall|i: int| 0 <= i < parts.len() ==> valid_note_id(#[trigger] parts[i]) {
                Some(parts)
            } else {
                None
            }
        }
    }
}

/// Copy of `s` with boundary whitespace removed from both ends.
pub fn trim_bytes(s: &[u8]) -> (out: Vec<u8>)
    ensures
        out@ == trim(s@),
{
    let mut start: usize = 0;
    proof {
        assert(s@.skip(0) =~= s@);
    }
    while start < s.len() && byte_is_ws(s[start])
        invariant
            0 <= start <= s@.len(),
            trim_start(s@) == trim_start(s@.skip(start as int)),
        decreases s@.len() - start,
    {
        proof {
            assert(s@.skip(start as int).drop_first() =~= s@.skip(start as int + 1));
        }
        start = start + 1;
    }
    proof {
        if start < s@.len() {
            assert(s@.skip(start as int)[0] == s@[start as int]);
        } else {
            assert(s@.skip(start as int) =~= Seq::<u8>::empty());
        }
        assert(trim_start(s@) == s@.skip(start as int));
        assert(s@.skip(start as int) =~= s@.subrange(start as int, s@.len() as int));
    }
    let mut end: usize = s.len();
    while end > start && byte_is_ws(s[end - 1])
        invariant
            start <= end <= s@.len(),
            trim_end(s@.skip(start as int)) == trim_end(s@.subrange(start as int, end as int)),
        decreases end,
    {
        proof {
            let cur = s@.subrange(start as int, end as int);
            assert(cur.last() == s@[end - 1]);
            assert(cur.drop_last() =~= s@.subrange(start as int, end as int - 1));
        }
        end = end - 1;
    }
    proof {
        let cur = s@.subrange(start as int, end as int);
        if end > start {
            assert(cur.last() == s@[end - 1]);
        }
        assert(trim_end(cur) == cur);
        assert(trim(s@) == s@.subrange(start as int, end as int));
    }
    let mut out: Vec<u8> = Vec::new();
    let mut i: usize = start;
    while i < end
        invariant
            start <= i <= end <= s@.len(),
            out@ == s@.subrange(start as int, i as int),
        decreases end - i,
    {
        proof {
            assert(s@.subrange(start as int, i as int + 1) =~= s@.subrange(
                start as int,
                i as int,
            ).push(s@[i as int]));
        }
        out.push(s[i]);
        i = i + 1;
    }
    out
}

/// Copy of `s` with every leading and trailing occurrence of `c` removed.
pub fn strip_bytes(s: &[u8], c: u8) -> (out: Vec<u8>)
    ensures
        out@ == strip(s@, c),
{
    let mut start: usize = 0;
    proof {
        assert(s@.skip(0) =~= s@);
    }
    while start < s.len() && s[start] == c
        invariant
            0 <= start <= s@.len(),
            strip_start(s@, c) == strip_start(s@.skip(start as int), c),
        decreases s@.len() - start,
    {
        proof {
            assert(s@.skip(start as int).drop_first() =~= s@.skip(start as int + 1));
        }
        start = start + 1;
    }
    proof {
        if start < s@.len() {
            assert(s@.skip(start as int)[0] == s@[start as int]);
        } else {
            assert(s@.skip(start as int) =~= Seq::<u8>::empty());
        }
        assert(strip_start(s@, c) == s@.skip(start as int));
        assert(s@.skip(start as int) =~= s@.subrange(start as int, s@.len() as int));
    }
    let mut end: usize = s.len();
    while end > start && s[end - 1] == c
        invariant
            start <= end <= s@.len(),
            strip_end(s@.skip(start as int), c) == strip_end(
                s@.subrange(start as int, end as int),
                c,
            ),
        decreases end,
    {
        proof {
            let cur = s@.subrange(start as int, end as int);
            assert(cur.last() == s@[end - 1]);
            assert(cur.drop_last() =~= s@.subrange(start as int, end as int - 1));
        }
        end = end - 1;
    }
    proof {
        let cur = s@.subrange(start as int, end as int);
        if end > start {
            assert(cur.last() == s@[end - 1]);
        }
        assert(strip_end(cur, c) == cur);
        assert(strip(s@, c) == s@.subrange(start as int, end as int));
    }
    let mut out: Vec<u8> = Vec::new();
    let mut i: usize = start;
    while i < end
        invariant
            start <= i <= end <= s@.len(),
            out@ == s@.subrange(start as int, i as int),
        decreases end - i,
    {
        proof {
            assert(s@.subrange(start as int, i as int + 1) =~= s@.subrange(
                start as int,
                i as int,
            ).push(s@[i as int]));
        }
        out.push(s[i]);
        i = i + 1;
    }
    out
}

/// Clean one array element: trim whitespace, then surrounding double
/// quotes, then surrounding single quotes.
pub fn clean_part_bytes(p: &[u8]) -> (out: Vec<u8>)
    ensures
        out@ == clean_part(p@),
{
    let trimmed = trim_bytes(p);
    let no_dq = strip_bytes(trimmed.as_slice(), 34);
    strip_bytes(no_dq.as_slice(), 39)
}

/// Parse a JSON-style array of note-id strings into the cleaned ids.
/// Returns `None` exactly when the text is not a bracketed list or some
/// element fails the note-id grammar; an empty array yields an empty list.
#[verifier::loop_isolation(false)]
pub fn parse_note_ids_json(s: &[u8]) -> (r: Option<Vec<Vec<u8>>>)
    ensures
        r is Some <==> spec_parse_note_ids(s@) is Some,
        r matches Some(v) ==> Some(v.deep_view()) == spec_parse_note_ids(s@),
{
    let t = trim_bytes(s);
    if t.len() == 0 {
        return None;
    }
    if t[0] != 91 {
        return None;
    }
    if t[t.len() - 1] != 93 {
        return None;
    }
    proof {
        assert(t@.len() >= 2);
    }
    let ghost inner_spec = t@.subrange(1, t@.len() - 1);
    let mut inner: Vec<u8> = Vec::new();
    let mut i: usize = 1;
    while i < t.len() - 1
        invariant
            1 <= i <= t@.len() - 1,
            inner@ == t@.subrange(1, i as int),
        decreases t@.len() - i,
    {
        proof {
            assert(t@.subrange(1, i as int + 1) =~= t@.subrange(1, i as int).push(t@[i as int]));
        }
        inner.push(t[i]);
        i = i + 1;
    }
    proof {
        assert(inner@ == inner_spec);
    }
    let inner_trimmed = trim_bytes(inner.as_slice());
    if inner_trimmed.len() == 0 {
        let empty_ids: Vec<Vec<u8>> = Vec::new();
        proof {
            assert(empty_ids.deep_view() =~= Seq::<Seq<u8>>::empty());
        }
        return Some(empty_ids);
    }
    // Split the contents at every comma.
    let ghost sp = split_commas(inner_spec);
    let mut parts: Vec<Vec<u8>> = Vec::new();
    let mut cur: Vec<u8> = Vec::new();
    let mut j: usize = 0;
    proof {
        lemma_split_commas_len(inner_spec);
        assert(inner_spec.skip(0) =~= inner_spec);
        assert(Seq::<u8>::empty() + sp[0] =~= sp[0]);
        assert(prepend_first(cur@, split_commas(inner_spec.skip(0))) =~= seq![sp[0]]
            + sp.drop_first());
        assert(seq![sp[0]] + sp.drop_first() =~= sp);
        assert(parts.deep_view() =~= Seq::<Seq<u8>>::empty());
        assert(parts.deep_view() + prepend_first(cur@, split_commas(inner_spec.skip(0))) =~= sp);
    }
    while j < inner.len()
        invariant
            0 <= j <= inner@.len(),
            inner@ == inner_spec,
            sp == split_commas(inner_spec),
            sp == parts.deep_view() + prepend_first(cur@, split_commas(inner_spec.skip(j as int))),
        decreases inner@.len() - j,
    {
        let ghost rest = inner_spec.skip(j as int);
        let ghost rest1 = inner_spec.skip(j as int + 1);
        proof {
            assert(rest.len() > 0);
            assert(rest[0] == inner_spec[j as int]);
            assert(rest.drop_first() =~= rest1);
            lemma_split_commas_len(rest1);
        }
        let ghost pre_parts = parts.deep_view();
        let ghost pre_cur = cur@;
        if inner[j] == 44 {
            proof {
                assert(split_commas(rest) =~= seq![Seq::<u8>::empty()] + split_commas(rest1));
                assert(pre_cur + Seq::<u8>::empty() =~= pre_cur);
                assert(prepend_first(pre_cur, split_commas(rest)) =~= seq![pre_cur] + split_commas(
                    rest1,
                ));
            }
            let ghost pre_vec = parts;
            let ghost cur_vec = cur;
            parts.push(cur);
            cur = Vec::new();
            proof {
                lemma_deep_view_push(pre_vec, parts, cur_vec);
                lemma_vec_u8_deep_view(cur_vec);
                assert(parts.deep_view() =~= pre_parts.push(pre_cur));
                assert(Seq::<u8>::empty() + split_commas(rest1)[0] =~= split_commas(rest1)[0]);
                assert(prepend_first(cur@, split_commas(rest1)) =~= seq![split_commas(rest1)[0]]
                    + split_commas(rest1).drop_first());
                assert(seq![split_commas(rest1)[0]] + split_commas(rest1).drop_first()
                    =~= split_commas(rest1));
                assert(pre_parts + seq![pre_cur] + split_commas(rest1) =~= parts.deep_view()
                    + prepend_first(cur@, split_commas(rest1)));
                assert(sp =~= parts.deep_view() + prepend_first(cur@, split_commas(rest1)));
            }
        } else {
            proof {
                assert(split_commas(rest) =~= seq![seq![rest[0]] + split_commas(rest1)[0]]
                    + split_commas(rest1).drop_first());
                assert(pre_cur + (seq![rest[0]] + split_commas(rest1)[0]) =~= (pre_cur + seq![
                    rest[0],
                ]) + split_commas(rest1)[0]);
                assert(prepend_first(pre_cur, split_commas(rest)) =~= seq![
                    (pre_cur + seq![rest[0]]) + split_commas(rest1)[0],
                ] + split_commas(rest1).drop_first());
            }
            cur.push(inner[j]);
            proof {
                assert(cur@ =~= pre_cur + seq![rest[0]]);
                assert(prepend_first(cur@, split_commas(rest1)) =~= seq![
                    cur@ + split_commas(rest1)[0],
                ] + split_commas(rest1).drop_first());
                assert(sp =~= parts.deep_view() + prepend_first(cur@, split_commas(rest1)));
            }
        }
        j = j + 1;
    }
    proof {
        assert(inner_spec.skip(inner_spec.len() as int) =~= Seq::<u8>::empty());
        assert(split_commas(Seq::<u8>::empty()) =~= seq![Seq::<u8>::empty()]);
        assert(prepend_first(cur@, seq![Seq::<u8>::empty()]) =~= seq![cur@]);
        assert(sp =~= parts.deep_view() + seq![cur@]);
    }
    let ghost pre_vec = parts;
    let ghost cur_vec = cur;
    parts.push(cur);
    proof {
        lemma_deep_view_push(pre_vec, parts, cur_vec);
        assert(parts.deep_view() =~= sp);
    }
    // Clean every part and check it against the note-id grammar.
    let ghost cleaned_spec = cleaned_parts(inner_spec);
    let mut ids: Vec<Vec<u8>> = Vec::new();
    let mut k: usize = 0;
    while k < parts.len()
        invariant
            0 <= k <= parts@.len(),
            parts.deep_view() == sp,
            cleaned_spec == cleaned_parts(inner_spec),
            sp == split_commas(inner_spec),
            ids.deep_view() == cleaned_spec.take(k as int),
            forall|m: int| 0 <= m < k ==> valid_note_id(#[trigger] cleaned_spec[m]),
        decreases parts@.len() - k,
    {
        proof {
            assert(parts.deep_view()[k as int] == parts@[k as int].deep_view());
            lemma_vec_u8_deep_view(parts@[k as int]);
            assert(sp[k as int] == parts@[k as int]@);
        }
        let cleaned = clean_part_bytes(parts[k].as_slice());
        proof {
            assert(cleaned_spec[k as int] == clean_part(sp[k as int]));
            assert(cleaned@ == cleaned_spec[k as int]);
        }
        if !is_valid_note_id(cleaned.as_slice()) {
            proof {
                assert(!valid_note_id(cleaned_spec[k as int]));
                assert(!(forall|i: int|
                    0 <= i < cleaned_spec.len() ==> valid_note_id(#[trigger] cleaned_spec[i])));
            }
            return None;
        }
        let ghost pre_ids = ids;
        let ghost cleaned_vec = cleaned;
        ids.push(cleaned);
        proof {
            lemma_deep_view_push(pre_ids, ids, cleaned_vec);
            assert(ids.deep_view() =~= cleaned_spec.take(k as int + 1));
        }
        k = k + 1;
    }
    proof {
        assert(cleaned_spec.take(parts@.len() as int) =~= cleaned_spec);
        assert(ids.deep_view() == cleaned_spec);
    }
    Some(ids)
}

} // verus!
