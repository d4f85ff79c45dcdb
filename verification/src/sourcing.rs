//! The read-only `source` path: which plugins get a load command, and in
//! what order.
//!
//! Load commands are emitted for the configured plugins that are resolved
//! and installed, in exactly the configured list order — the order never
//! depends on how the plugin store happens to be walked on disk.

use vstd::prelude::*;
use crate::identity::{resolve, resolved_identity, PluginIdentity};

verus! {

/// One configured entry together with its resolution.
pub struct ResolvedEntry {
    pub source: String,
    pub identity: Option<PluginIdentity>,
}

/// An entry carries its own source and the identity that source resolves
/// to — or none, exactly when the source is invalid.
pub open spec fn entry_matches(e: ResolvedEntry, src: Seq<char>) -> bool {
    &&& e.source@ == src
    &&& match e.identity {
        Some(id) => resolved_identity(src) == Some((id.owner@, id.name@)) && id.wf(),
        None => resolved_identity(src) is None,
    }
}

/// Resolves every configured source, in order. Invalid entries are kept,
/// marked unresolved, so later decisions still see the full list.
pub fn resolve_entries(plugins: &Vec<String>) -> (r: Vec<ResolvedEntry>)
    ensures
        r@.len() == plugins@.len(),
        forall|k: int| 0 <= k < r@.len() ==> entry_matches(#[trigger] r@[k], plugins@[k]@),
        forall|k: int| 0 <= k < r@.len() ==> entry_wf(#[trigger] r@[k]),
{
    let mut r: Vec<ResolvedEntry> = Vec::new();
    let n = plugins.len();
    let mut i: usize = 0;
    while i < n
        invariant
            n == plugins@.len(),
            i <= n,
            r@.len() == i,
            forall|k: int| 0 <= k < i ==> entry_matches(#[trigger] r@[k], plugins@[k]@),
            forall|k: int| 0 <= k < i ==> entry_wf(#[trigger] r@[k]),
        decreases n - i,
    {
        let source = plugins[i].clone();
        let identity = match resolve(source.as_str()) {
            Ok(id) => Some(id),
            Err(_) => None,
        };
        r.push(ResolvedEntry { source, identity });
        i = i + 1;
    }
    r
}

/// An entry's identity, when it has one, is well-formed.
pub open spec fn entry_wf(e: ResolvedEntry) -> bool {
    match e.identity {
        Some(id) => id.wf(),
        None => true,
    }
}

/// The (owner, name) views of a sequence of identities.
pub open spec fn identity_views(ids: Seq<PluginIdentity>) -> Seq<(Seq<char>, Seq<char>)> {
    ids.map_values(|id: PluginIdentity| (id.owner@, id.name@))
}

/// The identities owed a load command: the resolved, installed entries, in
/// list order.
pub open spec fn emit_plan(entries: Seq<ResolvedEntry>, installed: Seq<bool>) -> Seq<
    (Seq<char>, Seq<char>),
>
    decreases entries.len(),
{
    if entries.len() == 0 {
        Seq::<(Seq<char>, Seq<char>)>::empty()
    } else {
        let prefix = emit_plan(entries.drop_last(), installed.drop_last());
        match entries.last().identity {
            Some(id) => if installed.len() > 0 && installed.last() {
                prefix.push((id.owner@, id.name@))
            } else {
                prefix
            },
            None => prefix,
        }
    }
}

/// Selects the plugins to emit load commands for: the resolved entries
/// whose presence flag is set, in exactly the configured order. The flags
/// come from per-entry marker probes; their order is the entries' own, so
/// the result never depends on any other traversal order.
pub fn emit_order(entries: &Vec<ResolvedEntry>, installed: &Vec<bool>) -> (r: Vec<PluginIdentity>)
    requires
        entries@.len() == installed@.len(),
        forall|k: int| 0 <= k < entries@.len() ==> entry_wf(#[trigger] entries@[k]),
    ensures
        identity_views(r@) == emit_plan(entries@, installed@),
        forall|k: int| 0 <= k < r@.len() ==> (#[trigger] r@[k]).wf(),
{
    let mut r: Vec<PluginIdentity> = Vec::new();
    let n = entries.len();
    let mut i: usize = 0;
    while i < n
        invariant
            n == entries@.len(),
            entries@.len() == installed@.len(),
            forall|k: int| 0 <= k < entries@.len() ==> entry_wf(#[trigger] entries@[k]),
            i <= n,
            identity_views(r@) == emit_plan(entries@.take(i as int), installed@.take(i as int)),
            forall|k: int| 0 <= k < r@.len() ==> (#[trigger] r@[k]).wf(),
        decreases n - i,
    {
        proof {
            assert(entries@.take(i + 1).drop_last() =~= entries@.take(i as int));
            assert(installed@.take(i + 1).drop_last() =~= installed@.take(i as int));
            assert(entries@.take(i + 1).last() == entries@[i as int]);
        }
        match &entries[i].identity {
            Some(id) => {
                if installed[i] {
                    let picked = PluginIdentity { owner: id.owner.clone(), name: id.name.clone() };
                    r.push(picked);
                    proof {
                        assert(identity_views(r@) =~= identity_views(r@.drop_last()).push(
                            (r@.last().owner@, r@.last().name@),
                        ));
                    }
                }
            },
            None => {},
        }
        i = i + 1;
    }
    proof {
        assert(entries@.take(n as int) =~= entries@);
        assert(installed@.take(n as int) =~= installed@);
    }
    r
}

} // verus!
