//! Resolving a configured plugin source to its (owner, name) identity.
//!
//! A source is either a full URL (`https://host/owner/name`) or a shorthand
//! path (`owner/name`). The identity is taken from the last two non-empty
//! path segments; for a URL, the scheme marker `://` and the authority that
//! follows it are not part of the path. Resolution is pure: it never touches
//! the network or the file system.

use vstd::prelude::*;
use vstd::string::*;
use crate::segments::{lemma_segments_nonempty, nonempty_segments, seq_views, split_nonempty};

verus! {

/// The stable identity of a plugin: the repository owner and name under
/// which it is stored on disk. Both parts are always non-empty.
#[derive(Debug)]
pub struct PluginIdentity {
    pub owner: String,
    pub name: String,
}

impl PluginIdentity {
    pub open spec fn wf(&self) -> bool {
        self.owner@.len() > 0 && self.name@.len() > 0
    }
}

/// A source from which no identity can be derived. Skipped by the
/// reconciler, never fatal.
#[derive(Debug)]
pub struct InvalidSource {
    pub source: String,
}

/// What remains of `s` after the first occurrence of the scheme marker
/// `://`, if there is one.
pub open spec fn after_marker(s: Seq<char>) -> Option<Seq<char>>
    decreases s.len(),
{
    if s.len() < 3 {
        None
    } else if s[0] == ':' && s[1] == '/' && s[2] == '/' {
        Some(s.skip(3))
    } else {
        after_marker(s.skip(1))
    }
}

/// What remains of `s` after the first occurrence of `c`, if any.
pub open spec fn after_first(s: Seq<char>, c: char) -> Option<Seq<char>>
    decreases s.len(),
{
    if s.len() == 0 {
        None
    } else if s[0] == c {
        Some(s.skip(1))
    } else {
        after_first(s.skip(1), c)
    }
}

/// The path portion of a source string. A string without a scheme marker is
/// all path; in one with a marker, the path starts after the first `/` that
/// follows the marker (the part in between names the host, not a path
/// segment).
pub open spec fn path_part(s: Seq<char>) -> Seq<char> {
    match after_marker(s) {
        None => s,
        Some(rest) => match after_first(rest, '/') {
            None => Seq::<char>::empty(),
            Some(p) => p,
        },
    }
}

/// The identity a source resolves to: the last two non-empty segments of its
/// path, owner before name — or nothing, when fewer than two segments exist.
pub open spec fn resolved_identity(s: Seq<char>) -> Option<(Seq<char>, Seq<char>)> {
    let segs = nonempty_segments(path_part(s), '/');
    if segs.len() >= 2 {
        Some((segs[segs.len() - 2], segs[segs.len() - 1]))
    } else {
        None
    }
}

/// The position of the first scheme marker `://` in `s`, if any.
fn find_marker(s: &str) -> (r: Option<usize>)
    ensures
        match r {
            Some(i) => i + 3 <= s@.len() && after_marker(s@) == Some(s@.skip(i + 3)),
            None => after_marker(s@) is None,
        },
{
    let n = s.unicode_len();
    if n < 3 {
        return None;
    }
    let mut i: usize = 0;
    proof {
        assert(s@.skip(0) =~= s@);
    }
    while i < n - 2
        invariant
            n == s@.len(),
            3 <= n,
            i <= n - 2,
            after_marker(s@) == after_marker(s@.skip(i as int)),
        decreases n - i,
    {
        if s.get_char(i) == ':' && s.get_char(i + 1) == '/' && s.get_char(i + 2) == '/' {
            proof {
                assert(s@.skip(i as int).skip(3) =~= s@.skip(i + 3));
            }
            return Some(i);
        }
        proof {
            assert(s@.skip(i as int).skip(1) =~= s@.skip(i + 1));
        }
        i = i + 1;
    }
    proof {
        assert(s@.skip(i as int).len() < 3);
    }
    None
}

/// The path portion of a source string, as `path_part` describes it.
pub fn path_slice<'a>(s: &'a str) -> (p: &'a str)
    ensures
        p@ == path_part(s@),
{
    let n = s.unicode_len();
    match find_marker(s) {
        None => s,
        Some(m) => {
            let mut j: usize = m + 3;
            while j < n
                invariant
                    n == s@.len(),
                    m + 3 <= j <= n,
                    after_marker(s@) == Some(s@.skip(m + 3)),
                    after_first(s@.skip(m + 3), '/') == after_first(s@.skip(j as int), '/'),
                decreases n - j,
            {
                if s.get_char(j) == '/' {
                    let p = s.substring_char(j + 1, n);
                    proof {
                        assert(s@.skip(j as int).skip(1) =~= s@.subrange(j + 1, n as int));
                    }
                    return p;
                }
                proof {
                    assert(s@.skip(j as int).skip(1) =~= s@.skip(j + 1));
                }
                j = j + 1;
            }
            proof {
                assert(s@.skip(n as int).len() == 0);
            }
            let p = s.substring_char(n, n);
            proof {
                assert(p@ =~= Seq::<char>::empty());
            }
            p
        },
    }
}

/// Derives the (owner, name) identity of a configured plugin source, or
/// reports the source as invalid when its path holds fewer than two
/// non-empty segments. Pure: same source, same identity, always.
pub fn resolve(source: &str) -> (r: Result<PluginIdentity, InvalidSource>)
    ensures
        match r {
            Ok(id) => resolved_identity(source@) == Some((id.owner@, id.name@)) && id.wf(),
            Err(e) => resolved_identity(source@) is None && e.source@ == source@,
        },
{
    let path = path_slice(source);
    let segs = split_nonempty(path, '/');
    let n = segs.len();
    if n >= 2 {
        proof {
            lemma_segments_nonempty(path@, '/');
            assert(seq_views(segs@)[n - 2] == segs@[n - 2]@);
            assert(seq_views(segs@)[n - 1] == segs@[n - 1]@);
        }
        let owner = segs[n - 2].clone();
        let name = segs[n - 1].clone();
        Ok(PluginIdentity { owner, name })
    } else {
        Err(InvalidSource { source: source.to_owned() })
    }
}

} // verus!
