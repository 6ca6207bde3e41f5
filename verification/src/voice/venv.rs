//! Where the assistant's own Python environment lives, under the home
//! directory.
use vstd::prelude::*;

use crate::text::{append_chars, chars_of, string_of};

verus! {

/// `base` joined with the relative path `rel`, as `Path::join` does on Unix:
/// a separator goes between them unless `base` is empty or already ends in one.
pub open spec fn join_spec(base: Seq<char>, rel: Seq<char>) -> Seq<char> {
    if base.len() == 0 {
        rel
    } else if base.last() == '/' {
        base + rel
    } else {
        base + "/"@ + rel
    }
}

pub fn join_path(base: &str, rel: &str) -> (r: String)
    ensures
        r@ == join_spec(base@, rel@),
{
    let mut v = chars_of(base);
    if v.len() > 0 && v[v.len() - 1] != '/' {
        append_chars(&mut v, &chars_of("/"));
    }
    append_chars(&mut v, &chars_of(rel));
    proof {
        if base@.len() == 0 {
            assert(Seq::<char>::empty() + rel@ =~= rel@);
        }
    }
    string_of(&v)
}

pub open spec fn venv_root_spec(home: Seq<char>) -> Seq<char> {
    join_spec(home, ".pocket-agent/venv"@)
}

/// The environment's directory: `<home>/.pocket-agent/venv`.
pub fn venv_root(home: &str) -> (r: String)
    ensures
        r@ == venv_root_spec(home@),
{
    join_path(home, ".pocket-agent/venv")
}

/// Its interpreter: `<root>/bin/python3`.
pub fn venv_python_path(home: &str) -> (r: String)
    ensures
        r@ == join_spec(join_spec(venv_root_spec(home@), "bin"@), "python3"@),
{
    let root = venv_root(home);
    let bin = join_path(root.as_str(), "bin");
    join_path(bin.as_str(), "python3")
}

/// Its package installer: `<root>/bin/pip`.
pub fn venv_pip_path(home: &str) -> (r: String)
    ensures
        r@ == join_spec(join_spec(venv_root_spec(home@), "bin"@), "pip"@),
{
    let root = venv_root(home);
    let bin = join_path(root.as_str(), "bin");
    join_path(bin.as_str(), "pip")
}

/// The file that marks a completed installation: `<home>/.pocket-agent/.venv-ready`.
pub fn marker_path(home: &str) -> (r: String)
    ensures
        r@ == join_spec(home@, ".pocket-agent/.venv-ready"@),
{
    join_path(home, ".pocket-agent/.venv-ready")
}

/// The environment is ready when both its interpreter and the marker exist;
/// a half-finished installation has no marker.
pub fn venv_ready(python_exists: bool, marker_exists: bool) -> (r: bool)
    ensures
        r == (python_exists && marker_exists),
{
    python_exists && marker_exists
}

} // verus!
