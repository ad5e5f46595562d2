//! The external tools bargo drives: finding them on the PATH, the report
//! of `bargo doctor`, and garaga's availability check and error texts.

use vstd::prelude::*;
use crate::errors::BargoError;
use crate::text::{concat, views};

verus! {

/// What looking a program up on the PATH gave: the program looked for and
/// the path found, if any.
pub struct ToolLookup {
    pub program: String,
    pub path: Option<String>,
}

/// Calls `which::which(name)`, which searches the directories of the PATH
/// for an executable of that name, and gives the name looked for beside
/// the path found, as `Display` shows it. Which path is found depends on
/// the PATH and on what is on disk, so nothing is stated of it.
#[verifier::external_body]
fn find_tool(name: &str) -> (res: ToolLookup)
    ensures
        res.program@ == name@,
{
    let path = match which::which(name) {
        Ok(path) => Some(path.display().to_string()),
        Err(_) => None,
    };
    ToolLookup { program: name.to_string(), path }
}

/// The report line of a tool that was found at `path`.
pub open spec fn found_line(name: Seq<char>, path: Seq<char>) -> Seq<char> {
    "✅ "@ + name + ": "@ + path
}

/// The report lines of a required tool: where it was found, or that it is
/// missing and where to install it from.
pub open spec fn required_lines(name: Seq<char>, found: Option<Seq<char>>, install: Seq<char>) -> Seq<Seq<char>> {
    match found {
        Some(p) => seq![found_line(name, p)],
        None => seq!["❌ "@ + name + ": not found"@, "   Install from: "@ + install],
    }
}

/// The report lines of an optional tool: where it was found, or that it is
/// missing, what needs it and how to install it.
pub open spec fn optional_lines(name: Seq<char>, found: Option<Seq<char>>, needed_for: Seq<char>, how: Seq<Seq<char>>) -> Seq<Seq<char>> {
    match found {
        Some(p) => seq![found_line(name, p)],
        None => seq!["⚠️  "@ + name + ": not found (optional - needed for "@ + needed_for + ")"@] + how,
    }
}

/// How Foundry is installed.
pub open spec fn foundry_how() -> Seq<Seq<char>> {
    seq!["   Install with: curl -L https://foundry.paradigm.xyz | bash"@, "   Then run: foundryup"@]
}

/// What was found on the PATH for each tool that `bargo doctor` checks.
pub struct ToolPaths {
    pub nargo: ToolLookup,
    pub bb: ToolLookup,
    pub garaga: ToolLookup,
    pub forge: ToolLookup,
    pub cast: ToolLookup,
}

/// The model of `ToolPaths`: the path found for each tool.
pub ghost struct ToolPathsModel {
    pub nargo: Option<Seq<char>>,
    pub bb: Option<Seq<char>>,
    pub garaga: Option<Seq<char>>,
    pub forge: Option<Seq<char>>,
    pub cast: Option<Seq<char>>,
}

impl View for ToolPaths {
    type V = ToolPathsModel;

    open spec fn view(&self) -> ToolPathsModel {
        ToolPathsModel {
            nargo: crate::plan::opt_view(self.nargo.path),
            bb: crate::plan::opt_view(self.bb.path),
            garaga: crate::plan::opt_view(self.garaga.path),
            forge: crate::plan::opt_view(self.forge.path),
            cast: crate::plan::opt_view(self.cast.path),
        }
    }
}

/// Each field holds the lookup of the program it is named after.
pub open spec fn doctor_programs(t: ToolPaths) -> bool {
    &&& t.nargo.program@ == "nargo"@
    &&& t.bb.program@ == "bb"@
    &&& t.garaga.program@ == "garaga"@
    &&& t.forge.program@ == "forge"@
    &&& t.cast.program@ == "cast"@
}

/// Every required tool was found: nargo and bb.
pub open spec fn all_required(t: ToolPathsModel) -> bool {
    t.nargo is Some && t.bb is Some
}

/// The lines that `bargo doctor` prints for what was found (none in quiet mode).
pub open spec fn doctor_lines(t: ToolPathsModel, quiet: bool) -> Seq<Seq<char>> {
    if quiet {
        seq![]
    } else {
        seq!["🔍 Checking system dependencies...\n"@]
            + required_lines("nargo"@, t.nargo, "https://noir-lang.org/docs/getting_started/installation/"@)
            + required_lines("bb"@, t.bb, "https://github.com/AztecProtocol/aztec-packages"@)
            + optional_lines(
            "garaga"@,
            t.garaga,
            "Cairo features"@,
            seq!["   Install with: pipx install garaga"@, "   Requires Python 3.10+"@],
        ) + optional_lines("forge"@, t.forge, "EVM features"@, foundry_how()) + optional_lines(
            "cast"@,
            t.cast,
            "EVM features"@,
            foundry_how(),
        ) + seq![""@] + if all_required(t) {
            seq!["🎉 All required dependencies are available!"@, "   You can use all bargo features."@]
        } else {
            seq![
                "🚨 Some required dependencies are missing."@,
                "   Core features require: nargo + bb"@,
                "   EVM deployment features also require: forge + cast"@,
                "   Cairo features also require: garaga"@,
            ]
        }
    }
}

fn push_line(out: &mut Vec<String>, line: String)
    ensures
        views(final(out)@) == views(old(out)@).push(line@),
{
    out.push(line);
    assert(views(out@) =~= views(old(out)@).push(line@));
}

fn found_text(name: &str, path: &String) -> (res: String)
    ensures
        res@ == found_line(name@, path@),
{
    let mut s = concat("✅ ", name);
    s.append(": ");
    s.append(path.as_str());
    s
}

fn push_required(out: &mut Vec<String>, name: &str, found: &Option<String>, install: &str)
    ensures
        views(final(out)@) == views(old(out)@) + required_lines(name@, crate::plan::opt_view(*found), install@),
{
    let ghost before = views(out@);
    match found {
        Some(p) => push_line(out, found_text(name, p)),
        None => {
            let mut l = concat("❌ ", name);
            l.append(": not found");
            push_line(out, l);
            push_line(out, concat("   Install from: ", install));
        },
    }
    assert(views(out@) =~= before + required_lines(name@, crate::plan::opt_view(*found), install@));
}

fn push_optional(out: &mut Vec<String>, name: &str, found: &Option<String>, needed_for: &str, how: &[&str])
    ensures
        views(final(out)@) == views(old(out)@) + optional_lines(
            name@,
            crate::plan::opt_view(*found),
            needed_for@,
            crate::text::str_views(how@),
        ),
{
    let ghost before = views(out@);
    match found {
        Some(p) => push_line(out, found_text(name, p)),
        None => {
            let mut l = concat("⚠️  ", name);
            l.append(": not found (optional - needed for ");
            l.append(needed_for);
            l.append(")");
            push_line(out, l);
            let mut more = crate::text::owned_all(how);
            let ghost mid = views(out@);
            let ghost m = views(more@);
            out.append(&mut more);
            assert(views(out@) =~= mid + m);
        },
    }
    assert(views(out@) =~= before + optional_lines(
        name@,
        crate::plan::opt_view(*found),
        needed_for@,
        crate::text::str_views(how@),
    ));
}

/// The report of `bargo doctor` for what was found: the lines to print and
/// whether every required tool is there (when not, the command fails).
pub fn doctor_report(tools: &ToolPaths, quiet: bool) -> (res: (Vec<String>, bool))
    ensures
        views(res.0@) == doctor_lines(tools@, quiet),
        res.1 == all_required(tools@),
{
    let all_good = tools.nargo.path.is_some() && tools.bb.path.is_some();
    let mut out: Vec<String> = Vec::new();
    if quiet {
        assert(views(out@) =~= seq![]);
        return (out, all_good);
    }
    push_line(&mut out, String::from_str("🔍 Checking system dependencies...\n"));
    push_required(&mut out, "nargo", &tools.nargo.path, "https://noir-lang.org/docs/getting_started/installation/");
    push_required(&mut out, "bb", &tools.bb.path, "https://github.com/AztecProtocol/aztec-packages");
    let garaga_how = ["   Install with: pipx install garaga", "   Requires Python 3.10+"];
    push_optional(&mut out, "garaga", &tools.garaga.path, "Cairo features", &garaga_how);
    assert(crate::text::str_views(garaga_how@) =~= seq!["   Install with: pipx install garaga"@, "   Requires Python 3.10+"@]);
    let foundry = ["   Install with: curl -L https://foundry.paradigm.xyz | bash", "   Then run: foundryup"];
    assert(crate::text::str_views(foundry@) =~= foundry_how());
    push_optional(&mut out, "forge", &tools.forge.path, "EVM features", &foundry);
    push_optional(&mut out, "cast", &tools.cast.path, "EVM features", &foundry);
    push_line(&mut out, String::new());
    proof {
        reveal_strlit("");
        assert(""@ =~= Seq::<char>::empty());
    }
    if all_good {
        push_line(&mut out, String::from_str("🎉 All required dependencies are available!"));
        push_line(&mut out, String::from_str("   You can use all bargo features."));
    } else {
        push_line(&mut out, String::from_str("🚨 Some required dependencies are missing."));
        push_line(&mut out, String::from_str("   Core features require: nargo + bb"));
        push_line(&mut out, String::from_str("   EVM deployment features also require: forge + cast"));
        push_line(&mut out, String::from_str("   Cairo features also require: garaga"));
    }
    assert(views(out@) =~= doctor_lines(tools@, quiet));
    (out, all_good)
}

/// Looks each tool that `bargo doctor` checks up on the PATH.
pub fn locate_tools() -> (res: ToolPaths)
    ensures
        doctor_programs(res),
{
    ToolPaths {
        nargo: find_tool("nargo"),
        bb: find_tool("bb"),
        garaga: find_tool("garaga"),
        forge: find_tool("forge"),
        cast: find_tool("cast"),
    }
}

/// Check system dependencies: looks nargo, bb, garaga, forge and cast up,
/// then reports on what was found; whatever the PATH holds, the report is
/// that of some outcome of looking up those five programs.
pub fn check_dependencies(quiet: bool) -> (res: (Vec<String>, bool))
    ensures
        exists|t: ToolPaths|
            #![trigger doctor_programs(t)]
            doctor_programs(t) && views(res.0@) == doctor_lines(t@, quiet) && res.1 == all_required(t@),
{
    let tools = locate_tools();
    let res = doctor_report(&tools, quiet);
    assert(doctor_programs(tools) && views(res.0@) == doctor_lines(tools@, quiet) && res.1 == all_required(tools@));
    res
}

/// The error when garaga is not on the PATH.
pub open spec fn garaga_missing_text() -> Seq<char> {
    "garaga command not found. Please install garaga:\n\n  pipx install garaga\n\nGaraga requires Python 3.10 or higher."@
}

/// The troubleshooting hints added to a failed garaga run.
pub open spec fn garaga_troubleshooting(message: Seq<char>) -> Seq<char> {
    message
        + "\n\nTroubleshooting:\n• Ensure garaga is properly installed: pipx install garaga\n• Check that Python 3.10+ is available\n• Verify garaga is in your PATH"@
}

/// Ensure garaga is available on the system: garaga is looked up on the
/// PATH, and it is an error when it is not found.
pub fn ensure_available() -> (res: Result<(), BargoError>)
    ensures
        exists|l: ToolLookup|
            #![trigger l.program]
            l.program@ == "garaga"@ && (res is Ok <==> l.path is Some) && match res {
                Ok(()) => true,
                Err(e) => e@ == garaga_missing_text(),
            },
{
    let lookup = find_tool("garaga");
    let res = require_tool(
        &lookup,
        "garaga command not found. Please install garaga:\n\n  pipx install garaga\n\nGaraga requires Python 3.10 or higher.",
    );
    assert(lookup.program@ == "garaga"@ && (res is Ok <==> lookup.path is Some));
    res
}

/// A failed garaga run, with the troubleshooting hints added.
pub fn garaga_failure(error: BargoError) -> (res: BargoError)
    ensures
        res@ == garaga_troubleshooting(error@),
{
    let mut m = error.message;
    m.append(
        "\n\nTroubleshooting:\n• Ensure garaga is properly installed: pipx install garaga\n• Check that Python 3.10+ is available\n• Verify garaga is in your PATH",
    );
    BargoError::new(m)
}

/// The error when Foundry's `forge` is not on the PATH.
pub open spec fn foundry_missing_text() -> Seq<char> {
    "forge command not found. Please install Foundry:\n\n  curl -L https://foundry.paradigm.xyz | bash\n  foundryup"@
}

/// Looks `program` up on the PATH.
pub fn locate_tool(program: &str) -> (res: ToolLookup)
    ensures
        res.program@ == program@,
{
    find_tool(program)
}

/// The check that a looked-up program was found: an error with the
/// message `missing` when it was not.
pub fn require_tool(lookup: &ToolLookup, missing: &str) -> (res: Result<(), BargoError>)
    ensures
        res is Ok <==> lookup.path is Some,
        match res {
            Ok(()) => true,
            Err(e) => e@ == missing@,
        },
{
    match &lookup.path {
        Some(_) => Ok(()),
        None => Err(BargoError::new(String::from_str(missing))),
    }
}

} // verus!
