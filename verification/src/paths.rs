//! Artifact layout: where each backend flavour keeps its files.

use vstd::prelude::*;
use crate::plan::opt_view;
use crate::text::{chars_of, starts_with};

verus! {

/// The parent of a path, as `std::path::Path::parent` gives it.
pub uninterp spec fn path_parent(path: Seq<char>) -> Option<Seq<char>>;

/// Calls `std::path::Path::parent` on `path`: the path without its final
/// component, or `None` for a root or the empty path. Its result is named
/// `path_parent`; nothing more is stated of it.
#[verifier::external_body]
pub(crate) fn parent_of(path: &str) -> (res: Option<String>)
    ensures
        opt_view(res) == path_parent(path@),
{
    std::path::Path::new(path).parent().map(|p| p.to_string_lossy().into_owned())
}

/// The final name of a path, as `std::path::Path::file_name` gives it.
pub uninterp spec fn path_file_name(path: Seq<char>) -> Option<Seq<char>>;

/// Calls `std::path::Path::file_name` on `path`: its final component when
/// that is a name, `None` when the path ends in `..` or is a root or empty.
/// Its result is named `path_file_name`; nothing more is stated of it.
#[verifier::external_body]
pub(crate) fn file_name_of(path: &str) -> (res: Option<String>)
    ensures
        opt_view(res) == path_file_name(path@),
{
    match std::path::Path::new(path).file_name() {
        Some(n) => Some(n.to_string_lossy().into_owned()),
        None => None,
    }
}

/// Backend flavour for artifact generation.
#[derive(Clone, Copy, Debug, PartialEq, Eq, Structural)]
pub enum Flavour {
    /// Barretenberg backend: the core nargo build artifacts.
    Bb,
    /// EVM backend (Solidity verifiers, keccak oracle).
    Evm,
    /// Starknet backend (Cairo verifiers, starknet oracle).
    Starknet,
}

/// Unix path joining as `Path::join` does it: an absolute right-hand side
/// replaces the base, otherwise a `/` separates the two unless the base is
/// empty or already ends with one.
pub open spec fn path_join(base: Seq<char>, rel: Seq<char>) -> Seq<char> {
    if rel.len() > 0 && rel[0] == '/' {
        rel
    } else if base.len() > 0 && base.last() != '/' {
        base + seq!['/'] + rel
    } else {
        base + rel
    }
}

/// Joins `rel` onto `base`.
pub fn join_path(base: &str, rel: &str) -> (res: String)
    ensures
        res@ == path_join(base@, rel@),
{
    let bv = chars_of(base);
    let rv = chars_of(rel);
    if rv.len() > 0 && rv[0] == '/' {
        return String::from_str(rel);
    }
    let mut res = String::from_str(base);
    if bv.len() > 0 && bv[bv.len() - 1] != '/' {
        proof { reveal_strlit("/"); }
        res.append("/");
    }
    res.append(rel);
    res
}

/// The target directory of a flavour.
pub open spec fn target_path(flavour: Flavour) -> Seq<char> {
    match flavour {
        Flavour::Bb => "target/bb"@,
        Flavour::Evm => "target/evm"@,
        Flavour::Starknet => "target/starknet"@,
    }
}

/// Get the target directory path for a specific backend flavour.
pub fn target_dir(flavour: Flavour) -> (res: String)
    ensures
        res@ == target_path(flavour),
{
    match flavour {
        Flavour::Bb => String::from_str("target/bb"),
        Flavour::Evm => String::from_str("target/evm"),
        Flavour::Starknet => String::from_str("target/starknet"),
    }
}

/// Get the target directory path (the bb backend's, for compatibility).
pub fn workspace_target() -> (res: String)
    ensures
        res@ == target_path(Flavour::Bb),
{
    target_dir(Flavour::Bb)
}

/// The file `name` inside the target directory of `flavour`.
pub open spec fn artifact_path(flavour: Flavour, name: Seq<char>) -> Seq<char> {
    path_join(target_path(flavour), name)
}

/// Path of the bytecode file of package `pkg`.
pub open spec fn bytecode_path(pkg: Seq<char>, flavour: Flavour) -> Seq<char> {
    artifact_path(flavour, pkg + ".json"@)
}

/// Path of the witness file of package `pkg`.
pub open spec fn witness_path(pkg: Seq<char>, flavour: Flavour) -> Seq<char> {
    artifact_path(flavour, pkg + ".gz"@)
}

/// Path of the proof file.
pub open spec fn proof_path(flavour: Flavour) -> Seq<char> {
    artifact_path(flavour, "proof"@)
}

/// Path of the verification key file.
pub open spec fn vk_path(flavour: Flavour) -> Seq<char> {
    artifact_path(flavour, "vk"@)
}

/// Path of the public inputs file.
pub open spec fn public_inputs_path(flavour: Flavour) -> Seq<char> {
    artifact_path(flavour, "public_inputs"@)
}

fn artifact(flavour: Flavour, name: &str) -> (res: String)
    ensures
        res@ == artifact_path(flavour, name@),
{
    let dir = target_dir(flavour);
    join_path(dir.as_str(), name)
}

fn with_suffix(pkg: &str, suffix: &str) -> (res: String)
    ensures
        res@ == pkg@ + suffix@,
{
    let mut s = String::from_str(pkg);
    s.append(suffix);
    s
}

/// Get the bytecode file path for a package with specific backend flavour.
pub fn get_bytecode_path(pkg_name: &str, flavour: Flavour) -> (res: String)
    ensures
        res@ == bytecode_path(pkg_name@, flavour),
{
    let name = with_suffix(pkg_name, ".json");
    artifact(flavour, name.as_str())
}

/// Get the witness file path for a package with specific backend flavour.
pub fn get_witness_path(pkg_name: &str, flavour: Flavour) -> (res: String)
    ensures
        res@ == witness_path(pkg_name@, flavour),
{
    let name = with_suffix(pkg_name, ".gz");
    artifact(flavour, name.as_str())
}

/// Get the proof file path for specific backend flavour.
pub fn get_proof_path(flavour: Flavour) -> (res: String)
    ensures
        res@ == proof_path(flavour),
{
    artifact(flavour, "proof")
}

/// Get the verification key file path for specific backend flavour.
pub fn get_vk_path(flavour: Flavour) -> (res: String)
    ensures
        res@ == vk_path(flavour),
{
    artifact(flavour, "vk")
}

/// Get the public inputs file path for specific backend flavour.
pub fn get_public_inputs_path(flavour: Flavour) -> (res: String)
    ensures
        res@ == public_inputs_path(flavour),
{
    artifact(flavour, "public_inputs")
}


/// `path` names an entry inside directory `dir`.
pub open spec fn inside_dir(path: Seq<char>, dir: Seq<char>) -> bool {
    starts_with(path, dir + seq!['/'])
}

/// A package name that `Path::join` treats as relative.
pub open spec fn relative_name(pkg: Seq<char>) -> bool {
    pkg.len() == 0 || pkg[0] != '/'
}

proof fn lemma_target_literals(flavour: Flavour)
    ensures
        target_path(flavour).len() > 7,
        target_path(flavour).last() != '/',
        target_path(flavour)[7] == match flavour {
            Flavour::Bb => 'b',
            Flavour::Evm => 'e',
            Flavour::Starknet => 's',
        },
{
    reveal_strlit("target/bb");
    reveal_strlit("target/evm");
    reveal_strlit("target/starknet");
}

/// Every artifact of a flavour lies inside that flavour's target directory:
/// the proof, the verification key, the public inputs, and the bytecode and
/// witness of any package whose name is relative. A package name that starts
/// with `/` is absolute, and its bytecode path is the name itself.
pub proof fn lemma_artifacts_inside_target(flavour: Flavour, pkg: Seq<char>)
    ensures
        inside_dir(proof_path(flavour), target_path(flavour)),
        inside_dir(vk_path(flavour), target_path(flavour)),
        inside_dir(public_inputs_path(flavour), target_path(flavour)),
        relative_name(pkg) ==> inside_dir(bytecode_path(pkg, flavour), target_path(flavour)),
        relative_name(pkg) ==> inside_dir(witness_path(pkg, flavour), target_path(flavour)),
        !relative_name(pkg) ==> bytecode_path(pkg, flavour) == pkg + ".json"@,
        !relative_name(pkg) ==> witness_path(pkg, flavour) == pkg + ".gz"@,
{
    lemma_target_literals(flavour);
    reveal_strlit("proof");
    reveal_strlit("vk");
    reveal_strlit("public_inputs");
    reveal_strlit(".json");
    reveal_strlit(".gz");
    let t = target_path(flavour);
    let d = t + seq!['/'];
    assert forall|name: Seq<char>| name.len() > 0 && name[0] != '/' implies inside_dir(
        artifact_path(flavour, name),
        t,
    ) by {
        assert(artifact_path(flavour, name) == d + name);
        assert((d + name).subrange(0, d.len() as int) =~= d);
    }
    if relative_name(pkg) {
        if pkg.len() > 0 {
            assert((pkg + ".json"@)[0] == pkg[0]);
            assert((pkg + ".gz"@)[0] == pkg[0]);
        } else {
            assert((pkg + ".json"@)[0] == '.');
            assert((pkg + ".gz"@)[0] == '.');
        }
    } else {
        assert((pkg + ".json"@)[0] == '/');
        assert((pkg + ".gz"@)[0] == '/');
    }
}

/// The flavours keep their artifacts apart: nothing inside the target
/// directory of one flavour lies inside the target directory of another.
pub proof fn lemma_flavours_isolated(f1: Flavour, f2: Flavour, path: Seq<char>)
    requires
        f1 != f2,
        inside_dir(path, target_path(f1)),
    ensures
        !inside_dir(path, target_path(f2)),
        target_path(f1) != target_path(f2),
{
    lemma_target_literals(f1);
    lemma_target_literals(f2);
    let d1 = target_path(f1) + seq!['/'];
    let d2 = target_path(f2) + seq!['/'];
    assert(path[7] == path.subrange(0, d1.len() as int)[7]);
    assert(d1[7] == target_path(f1)[7]);
    if inside_dir(path, target_path(f2)) {
        assert(path[7] == path.subrange(0, d2.len() as int)[7]);
        assert(d2[7] == target_path(f2)[7]);
    }
    assert(target_path(f1)[7] != target_path(f2)[7]);
}

} // verus!
