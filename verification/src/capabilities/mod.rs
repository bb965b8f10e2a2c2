use vstd::prelude::*;
use crate::pipeline::VideoFormat;

pub mod nvidia;
pub mod opencl;
pub mod qsv;
pub mod rkmpp;
pub mod vaapi;
pub mod videotoolbox;
pub mod vulkan;

verus! {

/// Whether the (format, bit depth) pair is listed.
pub fn lists_pair(pairs: &Vec<(VideoFormat, u8)>, format: VideoFormat, bit_depth: u8) -> (r: bool)
    ensures
        r == pairs@.contains((format, bit_depth)),
{
    let mut i: usize = 0;
    while i < pairs.len()
        invariant
            i <= pairs.len(),
            forall|j: int| 0 <= j < i ==> pairs@[j] != (format, bit_depth),
        decreases pairs.len() - i,
    {
        let (f, d) = pairs[i];
        if f == format && d == bit_depth {
            assert(pairs@[i as int] == (format, bit_depth));
            return true;
        }
        i = i + 1;
    }
    false
}

/// The bit depths listed for `format`: those of its first entry.
pub open spec fn depths_for(entries: Seq<(VideoFormat, Vec<u8>)>, format: VideoFormat) -> Option<Seq<u8>>
    decreases entries.len(),
{
    if entries.len() == 0 {
        None
    } else if entries[0].0 == format {
        Some(entries[0].1@)
    } else {
        depths_for(entries.drop_first(), format)
    }
}

/// Whether `bit_depth` is among the depths listed for `format`.
pub open spec fn lists_depth(entries: Seq<(VideoFormat, Vec<u8>)>, format: VideoFormat, bit_depth: u8) -> bool {
    match depths_for(entries, format) {
        Some(d) => d.contains(bit_depth),
        None => false,
    }
}

/// Whether a list of bit depths holds `bit_depth`.
pub fn has_depth(depths: &Vec<u8>, bit_depth: u8) -> (r: bool)
    ensures
        r == depths@.contains(bit_depth),
{
    let mut i: usize = 0;
    while i < depths.len()
        invariant
            i <= depths.len(),
            forall|j: int| 0 <= j < i ==> depths@[j] != bit_depth,
        decreases depths.len() - i,
    {
        if depths[i] == bit_depth {
            assert(depths@[i as int] == bit_depth);
            return true;
        }
        i = i + 1;
    }
    false
}

/// The position of the first entry for `format`, if any.
pub fn entry_position(entries: &Vec<(VideoFormat, Vec<u8>)>, format: VideoFormat) -> (r: Option<usize>)
    ensures
        match r {
            Some(i) => i < entries@.len() && entries@[i as int].0 == format
                && depths_for(entries@, format) == Some(entries@[i as int].1@),
            None => depths_for(entries@, format).is_none(),
        },
{
    let mut i: usize = 0;
    assert(entries@.skip(0) =~= entries@);
    while i < entries.len()
        invariant
            i <= entries.len(),
            depths_for(entries@, format) == depths_for(entries@.skip(i as int), format),
        decreases entries.len() - i,
    {
        assert(entries@.skip(i as int)[0] == entries@[i as int]);
        if entries[i].0 == format {
            return Some(i);
        }
        assert(entries@.skip(i as int).drop_first() =~= entries@.skip(i as int + 1));
        i = i + 1;
    }
    assert(entries@.skip(i as int).len() == 0);
    None
}

/// Whether `bit_depth` is listed for `format` (see `lists_depth`).
pub fn lists_format_depth(entries: &Vec<(VideoFormat, Vec<u8>)>, format: VideoFormat, bit_depth: u8) -> (r: bool)
    ensures
        r == lists_depth(entries@, format, bit_depth),
{
    match entry_position(entries, format) {
        Some(i) => has_depth(&entries[i].1, bit_depth),
        None => false,
    }
}

/// What a concatenation holds is what either part holds.
pub proof fn lemma_concat_contains<T>(a: Seq<T>, b: Seq<T>, x: T)
    ensures
        (a + b).contains(x) <==> a.contains(x) || b.contains(x),
{
    if (a + b).contains(x) {
        let j = choose|j: int| 0 <= j < (a + b).len() && (a + b)[j] == x;
        if j < a.len() {
            assert(a[j] == x);
        } else {
            assert(b[j - a.len()] == x);
        }
    }
    if a.contains(x) {
        let j = choose|j: int| 0 <= j < a.len() && a[j] == x;
        assert((a + b)[j] == x);
    }
    if b.contains(x) {
        let j = choose|j: int| 0 <= j < b.len() && b[j] == x;
        assert((a + b)[j + a.len()] == x);
    }
}


/// Appending an entry for a format not yet listed lists it with its depths and
/// leaves the other formats as they were.
pub proof fn lemma_depths_for_push(entries: Seq<(VideoFormat, Vec<u8>)>, e: (VideoFormat, Vec<u8>), g: VideoFormat)
    ensures
        depths_for(entries.push(e), g) == match depths_for(entries, g) {
            Some(d) => Some(d),
            None => if e.0 == g { Some(e.1@) } else { None },
        },
    decreases entries.len(),
{
    if entries.len() > 0 {
        assert(entries.push(e)[0] == entries[0]);
        assert(entries.push(e).drop_first() =~= entries.drop_first().push(e));
        lemma_depths_for_push(entries.drop_first(), e, g);
    } else {
        let pe = entries.push(e);
        assert(pe[0] == e);
        assert(pe.drop_first().len() == 0);
        assert(depths_for(pe.drop_first(), g).is_none());
        assert(depths_for(entries, g).is_none());
    }
}

/// Whether no two entries share a key.
pub open spec fn keys_unique<K, V>(entries: Seq<(K, V)>) -> bool {
    forall|i: int, j: int| 0 <= i < j < entries.len() ==> entries[i].0 != entries[j].0
}

/// Two lists without repeats and without a common member join into a list
/// without repeats.
pub proof fn lemma_concat_no_duplicates<T>(a: Seq<T>, b: Seq<T>)
    requires
        a.no_duplicates(),
        b.no_duplicates(),
        forall|x: T| a.contains(x) ==> !b.contains(x),
    ensures
        (a + b).no_duplicates(),
{
    let c = a + b;
    assert forall|i: int, j: int| 0 <= i < c.len() && 0 <= j < c.len() && i != j implies c[i] != c[j] by {
        if i < a.len() && j < a.len() {
            assert(c[i] == a[i] && c[j] == a[j]);
        } else if i >= a.len() && j >= a.len() {
            assert(c[i] == b[i - a.len()] && c[j] == b[j - a.len()]);
        } else if i < a.len() {
            assert(c[i] == a[i] && a.contains(a[i]));
            assert(c[j] == b[j - a.len()] && b.contains(b[j - a.len()]));
        } else {
            assert(c[j] == a[j] && a.contains(a[j]));
            assert(c[i] == b[i - a.len()] && b.contains(b[i - a.len()]));
        }
    }
}

/// A list with `x` as a member: the list itself when it has `x`, else `x` appended.
pub open spec fn with_member<T>(s: Seq<T>, x: T) -> Seq<T> {
    if s.contains(x) { s } else { s.push(x) }
}

/// Adding a member keeps each member listed once.
pub proof fn lemma_with_member_unique<T>(s: Seq<T>, x: T)
    requires
        s.no_duplicates(),
    ensures
        with_member(s, x).no_duplicates(),
        forall|y: T| with_member(s, x).contains(y) <==> (s.contains(y) || y == x),
{
    let t = with_member(s, x);
    if !s.contains(x) {
        assert forall|i: int, j: int| 0 <= i < t.len() && 0 <= j < t.len() && i != j implies t[i] != t[j] by {
            if i == s.len() {
                assert(s.contains(s[j]));
            } else if j == s.len() {
                assert(s.contains(s[i]));
            } else {
                assert(t[i] == s[i] && t[j] == s[j]);
            }
        }
        assert forall|y: T| t.contains(y) <==> (s.contains(y) || y == x) by {
            if t.contains(y) {
                let k = choose|k: int| 0 <= k < t.len() && t[k] == y;
                if k < s.len() {
                    assert(s[k] == y);
                }
            }
            if s.contains(y) {
                let k = choose|k: int| 0 <= k < s.len() && s[k] == y;
                assert(t[k] == y);
            }
            if y == x {
                assert(t[s.len() as int] == y);
            }
        }
    }
}

} // verus!
