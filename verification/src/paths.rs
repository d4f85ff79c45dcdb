//! Where the tool keeps its state: the XDG-style directory rules and the
//! layout of the plugin store.
//!
//! The environment itself is read by the surrounding program; the rules
//! here only turn the values it found into paths. Each category prefers
//! its explicit XDG variable and falls back to the conventional directory
//! under the user's home; the tool's own subdirectory is appended to
//! either.

use vstd::prelude::*;
use vstd::string::*;
use crate::identity::PluginIdentity;

verus! {

/// The environment values the path rules depend on. A field is `None` when
/// the variable is unset.
pub struct XdgEnv {
    pub xdg_cache_home: Option<String>,
    pub xdg_config_home: Option<String>,
    pub xdg_data_home: Option<String>,
    pub home: Option<String>,
}

pub open spec fn opt_str_view(o: Option<String>) -> Option<Seq<char>> {
    match o {
        None => None,
        Some(s) => Some(s@),
    }
}

/// The base directory of one category: the explicit XDG value when set,
/// else the conventional directory under the user's home — or nothing when
/// neither is available.
pub open spec fn xdg_base(
    explicit: Option<Seq<char>>,
    home: Option<Seq<char>>,
    alt: Seq<char>,
) -> Option<Seq<char>> {
    match explicit {
        Some(dir) => Some(dir),
        None => match home {
            Some(h) => Some(h + seq!['/'] + alt),
            None => None,
        },
    }
}

/// The tool's own directory under a base directory.
pub open spec fn tool_dir(base: Seq<char>) -> Seq<char> {
    base + seq!['/'] + "shco"@
}

/// Neither the category's XDG variable nor the user's home is known: the
/// invocation cannot continue. The one environment failure that is fatal.
#[derive(Debug)]
pub struct MissingHome {}

fn join_segment(base: &str, seg: &str) -> (r: String)
    ensures
        r@ == base@ + seq!['/'] + seg@,
{
    proof {
        reveal_strlit("/");
    }
    let mut r = base.to_owned();
    r.append("/");
    r.append(seg);
    proof {
        assert(r@ =~= base@ + seq!['/'] + seg@);
    }
    r
}

fn xdg_dir(explicit: &Option<String>, home: &Option<String>, alt: &str) -> (r: Result<
    String,
    MissingHome,
>)
    ensures
        match r {
            Ok(p) => (xdg_base(opt_str_view(*explicit), opt_str_view(*home), alt@) matches Some(b)
                && p@ == tool_dir(b)),
            Err(_) => explicit is None && home is None,
        },
{
    match explicit {
        Some(dir) => Ok(join_segment(dir.as_str(), "shco")),
        None => match home {
            Some(h) => {
                let base = join_segment(h.as_str(), alt);
                let r = join_segment(base.as_str(), "shco");
                proof {
                    assert(r@ =~= tool_dir(h@ + seq!['/'] + alt@));
                }
                Ok(r)
            },
            None => Err(MissingHome {}),
        },
    }
}

/// The tool's cache directory (the lock file lives here):
/// `$XDG_CACHE_HOME/shco`, or `$HOME/.cache/shco`.
pub fn get_xdg_cache_home(env: &XdgEnv) -> (r: Result<String, MissingHome>)
    ensures
        match r {
            Ok(p) => (xdg_base(opt_str_view(env.xdg_cache_home), opt_str_view(env.home), ".cache"@)
                matches Some(b) && p@ == tool_dir(b)),
            Err(_) => env.xdg_cache_home is None && env.home is None,
        },
{
    xdg_dir(&env.xdg_cache_home, &env.home, ".cache")
}

/// The tool's configuration directory (the configuration document lives
/// here): `$XDG_CONFIG_HOME/shco`, or `$HOME/.config/shco`.
pub fn get_xdg_config_home(env: &XdgEnv) -> (r: Result<String, MissingHome>)
    ensures
        match r {
            Ok(p) => (xdg_base(
                opt_str_view(env.xdg_config_home),
                opt_str_view(env.home),
                ".config"@,
            ) matches Some(b) && p@ == tool_dir(b)),
            Err(_) => env.xdg_config_home is None && env.home is None,
        },
{
    xdg_dir(&env.xdg_config_home, &env.home, ".config")
}

/// The tool's data directory (the plugin store lives here):
/// `$XDG_DATA_HOME/shco`, or `$HOME/.local/share/shco`.
pub fn get_xdg_data_home(env: &XdgEnv) -> (r: Result<String, MissingHome>)
    ensures
        match r {
            Ok(p) => (xdg_base(
                opt_str_view(env.xdg_data_home),
                opt_str_view(env.home),
                ".local/share"@,
            ) matches Some(b) && p@ == tool_dir(b)),
            Err(_) => env.xdg_data_home is None && env.home is None,
        },
{
    xdg_dir(&env.xdg_data_home, &env.home, ".local/share")
}

/// The root of the plugin store, under the tool's data directory.
pub fn store_root(data_home: &str) -> (r: String)
    ensures
        r@ == data_home@ + seq!['/'] + "plugins"@,
{
    join_segment(data_home, "plugins")
}

/// The directory one plugin is stored in: `root/owner/name`.
pub fn plugin_dir(root: &str, identity: &PluginIdentity) -> (r: String)
    ensures
        r@ == root@ + seq!['/'] + identity.owner@ + seq!['/'] + identity.name@,
{
    let o = join_segment(root, identity.owner.as_str());
    let r = join_segment(o.as_str(), identity.name.as_str());
    proof {
        assert(r@ =~= root@ + seq!['/'] + identity.owner@ + seq!['/'] + identity.name@);
    }
    r
}

/// The marker whose presence records a completed install: the version
/// control metadata directory inside a plugin's directory.
pub fn marker_dir(dir: &str) -> (r: String)
    ensures
        r@ == dir@ + seq!['/'] + ".git"@,
{
    join_segment(dir, ".git")
}

} // verus!
