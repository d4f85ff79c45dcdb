//! Splitting a string into its non-empty separator-delimited segments.
//!
//! Plugin sources and shell paths are both read as sequences of `/`-separated
//! segments; empty segments (from doubled or leading separators) carry no
//! information and are discarded.

use vstd::prelude::*;
use vstd::string::*;

verus! {

/// The non-empty segments of `s` delimited by `sep`, in order: the maximal
/// runs of characters other than `sep`.
pub open spec fn nonempty_segments(s: Seq<char>, sep: char) -> Seq<Seq<char>>
    decreases s.len(),
{
    if s.len() == 0 {
        Seq::<Seq<char>>::empty()
    } else {
        let rest = s.drop_last();
        let prev = nonempty_segments(rest, sep);
        let c = s.last();
        if c == sep {
            prev
        } else if rest.len() > 0 && rest.last() != sep {
            prev.update(prev.len() - 1, prev.last().push(c))
        } else {
            prev.push(seq![c])
        }
    }
}

/// Every segment produced by `nonempty_segments` is non-empty.
pub proof fn lemma_segments_nonempty(s: Seq<char>, sep: char)
    ensures
        forall|k: int|
            0 <= k < nonempty_segments(s, sep).len() ==> #[trigger] nonempty_segments(
                s,
                sep,
            )[k].len() > 0,
    decreases s.len(),
{
    if s.len() > 0 {
        let rest = s.drop_last();
        let prev = nonempty_segments(rest, sep);
        let c = s.last();
        lemma_segments_nonempty(rest, sep);
        if c != sep && rest.len() > 0 && rest.last() != sep {
            lemma_segments_last(rest, sep);
            assert forall|k: int| 0 <= k < nonempty_segments(s, sep).len() implies #[trigger] nonempty_segments(
                s,
                sep,
            )[k].len() > 0 by {
                if k == prev.len() - 1 {
                    assert(nonempty_segments(s, sep)[k] == prev.last().push(c));
                } else {
                    assert(nonempty_segments(s, sep)[k] == prev[k]);
                }
            }
        }
    }
}

/// A string ending in a character other than the separator has at least one
/// segment, and its last segment ends in that character.
pub proof fn lemma_segments_last(s: Seq<char>, sep: char)
    requires
        s.len() > 0,
        s.last() != sep,
    ensures
        nonempty_segments(s, sep).len() > 0,
    decreases s.len(),
{
    let rest = s.drop_last();
    if rest.len() > 0 && rest.last() != sep {
        lemma_segments_last(rest, sep);
    }
}

/// The views of a vector of strings.
pub open spec fn seq_views(ss: Seq<String>) -> Seq<Seq<char>> {
    ss.map_values(|t: String| t@)
}

/// Splits `s` into its non-empty `sep`-delimited segments, in order.
pub fn split_nonempty(s: &str, sep: char) -> (segs: Vec<String>)
    ensures
        seq_views(segs@) == nonempty_segments(s@, sep),
        forall|k: int| 0 <= k < segs@.len() ==> #[trigger] segs@[k]@.len() > 0,
{
    let n = s.unicode_len();
    let mut segs: Vec<String> = Vec::new();
    let mut cur_start: Option<usize> = None;
    let mut i: usize = 0;
    while i < n
        invariant
            n == s@.len(),
            i <= n,
            forall|k: int| 0 <= k < segs@.len() ==> #[trigger] segs@[k]@.len() > 0,
            match cur_start {
                None => seq_views(segs@) == nonempty_segments(s@.take(i as int), sep) && (i == 0
                    || s@[i - 1] == sep),
                Some(st) => st < i && (forall|k: int| st <= k < i ==> s@[k] != sep) && seq_views(
                    segs@,
                ).push(s@.subrange(st as int, i as int)) == nonempty_segments(
                    s@.take(i as int),
                    sep,
                ),
            },
        decreases n - i,
    {
        let c = s.get_char(i);
        proof {
            assert(s@.take(i + 1).drop_last() =~= s@.take(i as int));
            assert(s@.take(i + 1).last() == s@[i as int]);
        }
        if c == sep {
            if let Some(st) = cur_start {
                let seg = s.substring_char(st, i).to_owned();
                segs.push(seg);
                proof {
                    assert(seq_views(segs@) =~= seq_views(segs@.drop_last()).push(seg@));
                }
                cur_start = None;
            }
        } else {
            match cur_start {
                None => {
                    cur_start = Some(i);
                    proof {
                        let p2 = s@.take(i + 1);
                        assert(s@.subrange(i as int, i + 1) =~= seq![s@[i as int]]);
                        assert(seq_views(segs@).push(s@.subrange(i as int, i + 1))
                            =~= nonempty_segments(p2, sep));
                    }
                },
                Some(st) => {
                    proof {
                        let p2 = s@.take(i + 1);
                        let prev = nonempty_segments(s@.take(i as int), sep);
                        assert(prev.last() == s@.subrange(st as int, i as int));
                        assert(s@.subrange(st as int, i as int).push(s@[i as int]) =~= s@.subrange(
                            st as int,
                            i + 1,
                        ));
                        assert(seq_views(segs@).push(s@.subrange(st as int, i + 1))
                            =~= nonempty_segments(p2, sep));
                    }
                },
            }
        }
        i = i + 1;
    }
    proof {
        assert(s@.take(n as int) =~= s@);
    }
    if let Some(st) = cur_start {
        let seg = s.substring_char(st, n).to_owned();
        segs.push(seg);
        proof {
            assert(seq_views(segs@) =~= seq_views(segs@.drop_last()).push(seg@));
        }
    }
    segs
}

} // verus!
