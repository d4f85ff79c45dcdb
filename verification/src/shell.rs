//! Which shell the tool is hooked into.
//!
//! The `$SHELL` value is a path like `/bin/zsh`; the shell it names is its
//! last non-empty path segment. The supported shells form a closed set —
//! anything else is a typed error, reported rather than guessed at.

use vstd::prelude::*;
use vstd::string::*;
use crate::segments::{nonempty_segments, seq_views, split_nonempty};

verus! {

/// The shells the tool can hook into and notify.
#[derive(Clone, Copy, PartialEq, Eq, Structural, Debug)]
pub enum ShellKind {
    Zsh,
    Bash,
}

/// The process name sessions of this shell run under.
pub open spec fn spec_shell_name(k: ShellKind) -> Seq<char> {
    match k {
        ShellKind::Zsh => "zsh"@,
        ShellKind::Bash => "bash"@,
    }
}

/// A `$SHELL` value naming no supported shell.
#[derive(Debug)]
pub struct UnsupportedShell {
    pub shell_path: String,
}

/// The shell a path names: its last non-empty segment, when that is a
/// supported shell's name.
pub open spec fn shell_kind_of(path: Seq<char>) -> Option<ShellKind> {
    let segs = nonempty_segments(path, '/');
    if segs.len() == 0 {
        None
    } else if segs.last() == "zsh"@ {
        Some(ShellKind::Zsh)
    } else if segs.last() == "bash"@ {
        Some(ShellKind::Bash)
    } else {
        None
    }
}

impl ShellKind {
    /// The process name to match running sessions of this shell by.
    pub fn process_name(&self) -> (r: &'static str)
        ensures
            r@ == spec_shell_name(*self),
    {
        match self {
            ShellKind::Zsh => "zsh",
            ShellKind::Bash => "bash",
        }
    }
}

/// Reads the shell out of a `$SHELL`-style path, or reports it unsupported
/// (also when the path has no segments at all).
pub fn shell_kind_from_path(shell_path: &str) -> (r: Result<ShellKind, UnsupportedShell>)
    ensures
        match r {
            Ok(k) => shell_kind_of(shell_path@) == Some(k),
            Err(e) => shell_kind_of(shell_path@) is None && e.shell_path@ == shell_path@,
        },
{
    let segs = split_nonempty(shell_path, '/');
    let n = segs.len();
    if n == 0 {
        return Err(UnsupportedShell { shell_path: shell_path.to_owned() });
    }
    let last = &segs[n - 1];
    proof {
        assert(seq_views(segs@)[n - 1] == segs@[n - 1]@);
    }
    let zsh = String::from_str("zsh");
    let bash = String::from_str("bash");
    if *last == zsh {
        Ok(ShellKind::Zsh)
    } else if *last == bash {
        Ok(ShellKind::Bash)
    } else {
        Err(UnsupportedShell { shell_path: shell_path.to_owned() })
    }
}

} // verus!
