//! Deciding whether the circuit must be rebuilt.

use vstd::prelude::*;
use crate::paths::{bytecode_path, join_path, path_join, witness_path, get_bytecode_path, get_witness_path, Flavour};

verus! {

/// Modification times of what decides a rebuild, in nanoseconds from a
/// fixed origin. An artifact that does not exist has no time; an input
/// that does not exist is left out.
pub struct BuildTimes {
    pub bytecode: Option<i128>,
    pub witness: Option<i128>,
    pub nargo_toml: Option<i128>,
    pub prover_toml: Option<i128>,
    /// Every file below the project's `src/` directory.
    pub sources: Vec<i128>,
}

/// An optional input time that is later than `t`.
pub open spec fn later(input: Option<i128>, t: i128) -> bool {
    match input {
        Some(x) => x > t,
        None => false,
    }
}

/// A rebuild is needed when an artifact is missing, or when Nargo.toml,
/// Prover.toml or a source file is newer than the older of the two.
pub open spec fn rebuild_needed(
    bytecode: Option<i128>,
    witness: Option<i128>,
    nargo_toml: Option<i128>,
    prover_toml: Option<i128>,
    sources: Seq<i128>,
) -> bool {
    match (bytecode, witness) {
        (Some(b), Some(w)) => {
            let t = if b <= w { b } else { w };
            later(nargo_toml, t) || later(prover_toml, t) || exists|i: int|
                0 <= i < sources.len() && sources[i] > t
        },
        _ => true,
    }
}

/// The smart rebuild decision with both artifacts present, the bytecode
/// modified at `b` and the witness at `w`: a rebuild is needed exactly when
/// Nargo.toml, Prover.toml or some source file was modified after one of
/// them.
pub proof fn law_rebuild_when_inputs_newer(
    b: i128,
    w: i128,
    nargo_toml: Option<i128>,
    prover_toml: Option<i128>,
    sources: Seq<i128>,
)
    ensures
        rebuild_needed(Some(b), Some(w), nargo_toml, prover_toml, sources) <==> (
            (nargo_toml is Some && (nargo_toml->0 > b || nargo_toml->0 > w))
            || (prover_toml is Some && (prover_toml->0 > b || prover_toml->0 > w))
            || exists|i: int| #![trigger sources[i]] 0 <= i < sources.len() && (sources[i] > b || sources[i] > w)
        ),
{
    let t = if b <= w { b } else { w };
    if exists|i: int| #![trigger sources[i]] 0 <= i < sources.len() && sources[i] > t {
        let i = choose|i: int| #![trigger sources[i]] 0 <= i < sources.len() && sources[i] > t;
        assert(sources[i] > b || sources[i] > w);
    }
    if exists|i: int| #![trigger sources[i]] 0 <= i < sources.len() && (sources[i] > b || sources[i] > w) {
        let i = choose|i: int| #![trigger sources[i]] 0 <= i < sources.len() && (sources[i] > b || sources[i] > w);
        assert(sources[i] > t);
    }
}

/// Without either artifact a rebuild is always needed.
pub proof fn law_rebuild_when_artifact_missing(
    bytecode: Option<i128>,
    witness: Option<i128>,
    nargo_toml: Option<i128>,
    prover_toml: Option<i128>,
    sources: Seq<i128>,
)
    requires
        bytecode is None || witness is None,
    ensures
        rebuild_needed(bytecode, witness, nargo_toml, prover_toml, sources),
{
}

/// Check if source files are newer than target files.
pub fn needs_rebuild_from_times(times: &BuildTimes) -> (res: bool)
    ensures
        res == rebuild_needed(times.bytecode, times.witness, times.nargo_toml, times.prover_toml, times.sources@),
{
    let (b, w) = match (times.bytecode, times.witness) {
        (Some(b), Some(w)) => (b, w),
        _ => return true,
    };
    let t = if b <= w { b } else { w };
    if let Some(n) = times.nargo_toml {
        if n > t {
            return true;
        }
    }
    if let Some(p) = times.prover_toml {
        if p > t {
            return true;
        }
    }
    let mut i: usize = 0;
    while i < times.sources.len()
        invariant
            i <= times.sources.len(),
            times.bytecode == Some(b),
            times.witness == Some(w),
            t == (if b <= w { b } else { w }),
            !later(times.nargo_toml, t),
            !later(times.prover_toml, t),
            forall|j: int| 0 <= j < i ==> times.sources@[j] <= t,
        decreases times.sources.len() - i,
    {
        if times.sources[i] > t {
            assert(times.sources@[i as int] > t);
            return true;
        }
        i = i + 1;
    }
    false
}

/// Where the rebuild check looks, relative to the project root.
pub struct RebuildPaths {
    pub bytecode: String,
    pub witness: String,
    pub nargo_toml: String,
    pub prover_toml: String,
    pub src_dir: String,
}

/// The files whose times decide a rebuild of package `pkg_name` in the
/// project at `project_root`: its bb bytecode and witness, Nargo.toml,
/// Prover.toml and the `src` directory.
pub fn rebuild_paths(project_root: &str, pkg_name: &str) -> (res: RebuildPaths)
    ensures
        res.bytecode@ == path_join(project_root@, bytecode_path(pkg_name@, Flavour::Bb)),
        res.witness@ == path_join(project_root@, witness_path(pkg_name@, Flavour::Bb)),
        res.nargo_toml@ == path_join(project_root@, "Nargo.toml"@),
        res.prover_toml@ == path_join(project_root@, "Prover.toml"@),
        res.src_dir@ == path_join(project_root@, "src"@),
{
    let b = get_bytecode_path(pkg_name, Flavour::Bb);
    let w = get_witness_path(pkg_name, Flavour::Bb);
    RebuildPaths {
        bytecode: join_path(project_root, b.as_str()),
        witness: join_path(project_root, w.as_str()),
        nargo_toml: join_path(project_root, "Nargo.toml"),
        prover_toml: join_path(project_root, "Prover.toml"),
        src_dir: join_path(project_root, "src"),
    }
}

/// Making inputs newer never turns a needed rebuild into an unneeded one:
/// with the same artifacts, if every input of the second state is at least
/// as new as the matching input of the first (and inputs present in the
/// first are present in the second), a rebuild needed in the first is
/// needed in the second.
pub proof fn lemma_rebuild_monotone(
    bytecode: Option<i128>,
    witness: Option<i128>,
    nargo1: Option<i128>,
    nargo2: Option<i128>,
    prover1: Option<i128>,
    prover2: Option<i128>,
    sources1: Seq<i128>,
    sources2: Seq<i128>,
)
    requires
        nargo1 matches Some(a) ==> (nargo2 matches Some(b) && a <= b),
        prover1 matches Some(a) ==> (prover2 matches Some(b) && a <= b),
        sources1.len() <= sources2.len(),
        forall|i: int| 0 <= i < sources1.len() ==> sources1[i] <= sources2[i],
        rebuild_needed(bytecode, witness, nargo1, prover1, sources1),
    ensures
        rebuild_needed(bytecode, witness, nargo2, prover2, sources2),
{
    match (bytecode, witness) {
        (Some(b), Some(w)) => {
            let t = if b <= w { b } else { w };
            if exists|i: int| 0 <= i < sources1.len() && sources1[i] > t {
                let i = choose|i: int| 0 <= i < sources1.len() && sources1[i] > t;
                assert(sources2[i] > t);
            }
        },
        _ => {},
    }
}

/// Artifacts at least as new as every input are up to date, and a missing
/// artifact always calls for a rebuild.
pub proof fn lemma_rebuild_fresh(
    bytecode: Option<i128>,
    witness: Option<i128>,
    nargo_toml: Option<i128>,
    prover_toml: Option<i128>,
    sources: Seq<i128>,
)
    ensures
        bytecode is None || witness is None ==> rebuild_needed(bytecode, witness, nargo_toml, prover_toml, sources),
        (bytecode matches Some(b) && witness matches Some(w) && {
            let t = if b <= w { b } else { w };
            !later(nargo_toml, t) && !later(prover_toml, t) && forall|i: int|
                0 <= i < sources.len() ==> sources[i] <= t
        }) ==> !rebuild_needed(bytecode, witness, nargo_toml, prover_toml, sources),
{
}

} // verus!
