//! The global options that every command reads.

use vstd::prelude::*;
use crate::plan::opt_view;
use crate::text::{str_views, views};

verus! {

/// Global options of the command line.
#[derive(Debug)]
pub struct Cli {
    /// Show the underlying commands.
    pub verbose: bool,
    /// Print commands without executing them.
    pub dry_run: bool,
    /// Package name given on the command line, overriding Nargo.toml.
    pub pkg: Option<String>,
    /// Minimize output.
    pub quiet: bool,
}

/// The backend whose artifacts `clean` and `rebuild` remove.
#[derive(Clone, Copy, Debug, PartialEq, Eq, Structural)]
pub enum Backend {
    /// Barretenberg backend (EVM/Solidity).
    Bb,
    /// Starknet backend (Cairo).
    Starknet,
    /// All backends.
    All,
}

/// The nargo arguments: the base arguments, then `--package` and the
/// package name when one was given.
pub open spec fn nargo_args(pkg: Option<Seq<char>>, base: Seq<Seq<char>>) -> Seq<Seq<char>> {
    match pkg {
        Some(p) => base + seq!["--package"@, p],
        None => base,
    }
}

/// Build the arguments for a nargo invocation.
pub fn build_nargo_args(cli: &Cli, base_args: &[&str]) -> (res: Vec<String>)
    ensures
        views(res@) == nargo_args(opt_view(cli.pkg), str_views(base_args@)),
{
    let mut args: Vec<String> = Vec::new();
    let mut i: usize = 0;
    while i < base_args.len()
        invariant
            i <= base_args.len(),
            views(args@) == str_views(base_args@).take(i as int),
        decreases base_args.len() - i,
    {
        let item = String::from_str(base_args[i]);
        let ghost before = views(args@);
        assert(item@ == str_views(base_args@)[i as int]);
        args.push(item);
        assert(views(args@) =~= before.push(str_views(base_args@)[i as int]));
        assert(str_views(base_args@).take(i + 1) =~= str_views(base_args@).take(i as int).push(str_views(base_args@)[i as int]));
        i = i + 1;
    }
    assert(str_views(base_args@).take(base_args.len() as int) =~= str_views(base_args@));
    match &cli.pkg {
        Some(p) => {
            let ghost before = views(args@);
            args.push(String::from_str("--package"));
            args.push(p.clone());
            assert(views(args@) =~= before + seq!["--package"@, p@]);
        },
        None => {},
    }
    args
}

} // verus!
