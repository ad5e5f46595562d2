//! Locating the Noir project and naming its package.

use vstd::prelude::*;
use crate::errors::BargoError;
use crate::paths::{file_name_of, join_path, parent_of, path_file_name, path_join, path_parent};
use crate::plan::opt_view;
use crate::text::views;

verus! {

/// What a Nargo.toml declares, as far as naming the package goes.
pub enum TomlConfig {
    /// A `[package]` section, with its `name` field when present.
    Package { name: Option<String> },
    /// A `[workspace]` section.
    Workspace,
}

/// The text of the error raised when no ancestor holds a Nargo.toml.
pub open spec fn not_found_text() -> Seq<char> {
    "Could not find Nargo.toml in current directory or any parent directory.\nMake sure you're running bargo from within a Noir project."@
}

/// The index of the first true flag, if any.
pub open spec fn first_true(flags: Seq<bool>) -> Option<int>
    decreases flags.len(),
{
    if flags.len() == 0 {
        None
    } else {
        match first_true(flags.drop_last()) {
            Some(i) => Some(i),
            None => if flags.last() {
                Some(flags.len() - 1)
            } else {
                None
            },
        }
    }
}

proof fn lemma_first_true(flags: Seq<bool>)
    ensures
        match first_true(flags) {
            Some(i) => 0 <= i < flags.len() && flags[i] && forall|j: int| 0 <= j < i ==> !flags[j],
            None => forall|j: int| 0 <= j < flags.len() ==> !flags[j],
        },
    decreases flags.len(),
{
    if flags.len() > 0 {
        let init = flags.drop_last();
        lemma_first_true(init);
        assert forall|j: int| 0 <= j < init.len() implies init[j] == flags[j] by {}
        match first_true(init) {
            Some(i) => {
                assert(first_true(flags) == Some(i));
            },
            None => {
                if flags.last() {
                    assert(first_true(flags) == Some(flags.len() - 1));
                } else {
                    assert(first_true(flags) is None);
                    assert forall|j: int| 0 <= j < flags.len() implies !flags[j] by {
                        if j < init.len() {
                            assert(!init[j]);
                        }
                    }
                }
            },
        }
    }
}

/// `s` starts at `start` and each path after the first is the parent of
/// the one before it.
pub open spec fn parent_chain(start: Seq<char>, s: Seq<Seq<char>>) -> bool {
    &&& s.len() >= 1
    &&& s[0] == start
    &&& forall|i: int| 0 <= i < s.len() - 1 ==> path_parent(#[trigger] s[i]) == Some(s[i + 1])
}

/// The ancestors of `start`, nearest first, as `Path::ancestors` walks
/// them: `start` itself, then each parent in turn, until a path has no
/// parent; the walk stops after `start.len() + 1` paths at the latest.
pub fn path_ancestors(start: &str) -> (res: Vec<String>)
    ensures
        parent_chain(start@, views(res@)),
        path_parent(views(res@).last()) is None || res.len() == start@.len() + 1,
{
    let bound = start.unicode_len();
    let mut res: Vec<String> = Vec::new();
    let mut cur = String::from_str(start);
    res.push(cur.clone());
    assert(views(res@) =~= seq![start@]);
    while res.len() <= bound
        invariant
            1 <= res.len() <= bound + 1,
            bound == start@.len(),
            parent_chain(start@, views(res@)),
            cur@ == views(res@).last(),
        decreases bound + 1 - res.len(),
    {
        match parent_of(cur.as_str()) {
            Some(p) => {
                let ghost before = views(res@);
                res.push(p.clone());
                assert(views(res@) =~= before.push(p@));
                assert(path_parent(before[before.len() - 1]) == Some(p@));
                cur = p;
            },
            None => {
                return res;
            },
        }
    }
    res
}

/// Where each of `dirs` would hold its Nargo.toml.
pub fn manifest_paths(dirs: &Vec<String>) -> (res: Vec<String>)
    ensures
        res.len() == dirs.len(),
        forall|i: int| 0 <= i < dirs.len() ==> #[trigger] res@[i]@ == path_join(dirs@[i]@, "Nargo.toml"@),
{
    let mut res: Vec<String> = Vec::new();
    let mut i: usize = 0;
    while i < dirs.len()
        invariant
            i <= dirs.len(),
            res.len() == i,
            forall|j: int| 0 <= j < i ==> #[trigger] res@[j]@ == path_join(dirs@[j]@, "Nargo.toml"@),
        decreases dirs.len() - i,
    {
        res.push(join_path(dirs[i].as_str(), "Nargo.toml"));
        i = i + 1;
    }
    res
}

/// Find the project root among the ancestors of the starting directory,
/// nearest first: the first one whose flag says it holds a Nargo.toml.
pub fn select_project_root(ancestors: &Vec<String>, has_manifest: &Vec<bool>) -> (res: Result<String, BargoError>)
    requires
        ancestors.len() == has_manifest.len(),
    ensures
        match first_true(has_manifest@) {
            Some(i) => res matches Ok(root) && root@ == ancestors@[i]@,
            None => res matches Err(e) && e@ == not_found_text(),
        },
{
    proof { lemma_first_true(has_manifest@); }
    let mut i: usize = 0;
    while i < ancestors.len()
        invariant
            i <= ancestors.len(),
            ancestors.len() == has_manifest.len(),
            forall|j: int| 0 <= j < i ==> !has_manifest@[j],
        decreases ancestors.len() - i,
    {
        if has_manifest[i] {
            proof {
                lemma_first_true(has_manifest@);
                match first_true(has_manifest@) {
                    Some(k) => {
                        assert(!(k < i) && !(i < k));
                    },
                    None => {},
                }
            }
            return Ok(ancestors[i].clone());
        }
        i = i + 1;
    }
    Err(BargoError::new(String::from_str("Could not find Nargo.toml in current directory or any parent directory.\nMake sure you're running bargo from within a Noir project.")))
}

/// The error raised when Nargo.toml could not be read; `detail` is the
/// reason the system gave.
pub fn manifest_read_error(nargo_toml_path: &str, detail: &str) -> (res: BargoError)
    ensures
        res@ == "Failed to read Nargo.toml at "@ + nargo_toml_path@ + ": "@ + detail@,
{
    let mut m = String::from_str("Failed to read Nargo.toml at ");
    m.append(nargo_toml_path);
    m.append(": ");
    m.append(detail);
    BargoError::new(m)
}

/// The error raised when Nargo.toml is not valid TOML of the expected
/// shape; `detail` is the parser's explanation.
pub fn manifest_parse_error(nargo_toml_path: &str, detail: &str) -> (res: BargoError)
    ensures
        res@ == "Failed to parse Nargo.toml at "@ + nargo_toml_path@ + ": "@ + detail@,
{
    let mut m = String::from_str("Failed to parse Nargo.toml at ");
    m.append(nargo_toml_path);
    m.append(": ");
    m.append(detail);
    BargoError::new(m)
}

/// The name of the directory that holds the file at `p`, as
/// `p.parent().file_name()` gives it: none when `p` has no parent or the
/// parent has no final name.
pub open spec fn parent_dir_name(p: Seq<char>) -> Option<Seq<char>> {
    match path_parent(p) {
        Some(d) => path_file_name(d),
        None => None,
    }
}

/// The name of the directory holding the file at `path`, when it has one.
pub fn workspace_dir_name(path: &str) -> (res: Option<String>)
    ensures
        opt_view(res) == parent_dir_name(path@),
{
    match parent_of(path) {
        Some(d) => file_name_of(d.as_str()),
        None => None,
    }
}

/// The text of the error for a package section without a name.
pub open spec fn missing_name_text(path: Seq<char>) -> Seq<char> {
    "Missing 'name' field in [package] section of Nargo.toml at "@ + path
}

/// The text of the error for a workspace whose directory has no name.
pub open spec fn workspace_unnamed_text() -> Seq<char> {
    "Could not determine package name from workspace directory"@
}

/// Parse the package name from the parsed Nargo.toml found at
/// `nargo_toml_path`: the `name` of its package section, or for a
/// workspace the name of the directory that holds it.
pub fn parse_package_name(nargo_toml_path: &str, config: TomlConfig) -> (res: Result<String, BargoError>)
    ensures
        match config {
            TomlConfig::Package { name: Some(n) } => res matches Ok(r) && r@ == n@,
            TomlConfig::Package { name: None } => res matches Err(e) && e@ == missing_name_text(nargo_toml_path@),
            TomlConfig::Workspace => match parent_dir_name(nargo_toml_path@) {
                Some(d) => res matches Ok(r) && r@ == d,
                None => res matches Err(e) && e@ == workspace_unnamed_text(),
            },
        },
{
    match config {
        TomlConfig::Package { name } => match name {
            Some(n) => Ok(n),
            None => {
                let mut m = String::from_str("Missing 'name' field in [package] section of Nargo.toml at ");
                m.append(nargo_toml_path);
                Err(BargoError::new(m))
            },
        },
        TomlConfig::Workspace => match workspace_dir_name(nargo_toml_path) {
            Some(d) => Ok(d),
            None => Err(BargoError::new(String::from_str("Could not determine package name from workspace directory"))),
        },
    }
}


/// Get the package name: the override given on the command line when
/// there is one, otherwise what the project's Nargo.toml names
/// (`discovered`, the outcome of locating and parsing it).
pub fn get_package_name(pkg_override: Option<&String>, discovered: Result<String, BargoError>) -> (res: Result<String, BargoError>)
    ensures
        match pkg_override {
            Some(p) => res matches Ok(r) && r@ == p@,
            None => res == discovered,
        },
{
    match pkg_override {
        Some(p) => Ok(p.clone()),
        None => discovered,
    }
}

} // verus!
