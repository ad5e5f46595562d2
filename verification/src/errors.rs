//! Errors that carry a message, and the suggestions bargo attaches to them.

use vstd::prelude::*;
use crate::text::{contains, join, seq_join, signed_decimal, signed_decimal_string, str_contains, str_views, views};

verus! {

/// An error reported to the user: its message is all it carries.
#[derive(Debug, PartialEq)]
pub struct BargoError {
    pub message: String,
}

impl View for BargoError {
    type V = Seq<char>;

    open spec fn view(&self) -> Seq<char> {
        self.message@
    }
}

impl BargoError {
    /// An error with the given message.
    pub fn new(message: String) -> (res: Self)
        ensures
            res@ == message@,
    {
        BargoError { message }
    }

    /// The message of the error.
    pub fn message(&self) -> (res: &str)
        ensures
            res@ == self@,
    {
        self.message.as_str()
    }
}

/// The suggestion lines, each on a line of its own after a bullet.
pub open spec fn bullets(suggestions: Seq<Seq<char>>) -> Seq<char>
    decreases suggestions.len(),
{
    if suggestions.len() == 0 {
        seq![]
    } else {
        bullets(suggestions.drop_last()) + "\n   • "@ + suggestions.last()
    }
}

/// The text of a smart error: the message after a cross mark, then the
/// suggestions, if any, under a heading.
pub open spec fn smart_error_text(message: Seq<char>, suggestions: Seq<Seq<char>>) -> Seq<char> {
    if suggestions.len() == 0 {
        "❌ "@ + message
    } else {
        "❌ "@ + message + "\n\n💡 Suggestions:"@ + bullets(suggestions)
    }
}

/// Create a smart error with context and suggestions.
pub fn create_smart_error(message: &str, suggestions: &[&str]) -> (res: BargoError)
    ensures
        res@ == smart_error_text(message@, str_views(suggestions@)),
{
    let mut text = String::from_str("❌ ");
    text.append(message);
    if suggestions.len() > 0 {
        text.append("\n\n💡 Suggestions:");
        let ghost head = text@;
        let ghost sv = str_views(suggestions@);
        let mut i: usize = 0;
        while i < suggestions.len()
            invariant
                i <= suggestions.len(),
                sv == str_views(suggestions@),
                text@ == head + bullets(sv.take(i as int)),
            decreases suggestions.len() - i,
        {
            text.append("\n   • ");
            text.append(suggestions[i]);
            assert(sv.take(i + 1).drop_last() =~= sv.take(i as int));
            i = i + 1;
        }
        assert(sv.take(suggestions.len() as int) =~= sv);
    }
    BargoError { message: text }
}

/// Suggestions appended when bytecode or witness files are missing.
pub open spec fn build_hint() -> Seq<char> {
    "\n\n💡 Suggestions:\n   • Run `bargo build` to generate bytecode and witness files\n   • Check if you're in the correct Noir project directory\n   • Verify that Nargo.toml exists in the current directory"@
}

/// Suggestions appended when proof or verification key files are missing.
pub open spec fn prove_hint() -> Seq<char> {
    "\n\n💡 Suggestions:\n   • Run `bargo prove` to generate proof and verification key\n   • Check if the proving step completed successfully\n   • Try running `bargo clean` and rebuilding from scratch"@
}

/// Suggestions appended when no Nargo.toml was found.
pub open spec fn project_hint() -> Seq<char> {
    "\n\n💡 Suggestions:\n   • Make sure you're in a Noir project directory\n   • Initialize a new project with `nargo new <project_name>`\n   • Check if you're in a subdirectory - try running from the project root"@
}

/// Suggestions appended when Nargo.toml could not be parsed.
pub open spec fn manifest_hint() -> Seq<char> {
    "\n\n💡 Suggestions:\n   • Check Nargo.toml syntax - it should be valid TOML format\n   • Ensure the [package] section has a 'name' field\n   • Compare with a working Nargo.toml from another project"@
}

/// Suggestions appended when nargo is not installed.
pub open spec fn nargo_hint() -> Seq<char> {
    "\n\n💡 Suggestions:\n   • Install nargo: `curl -L https://raw.githubusercontent.com/noir-lang/noirup/main/install | bash`\n   • Add nargo to your PATH\n   • Verify installation with `nargo --version`"@
}

/// Suggestions appended when bb is not installed.
pub open spec fn bb_hint() -> Seq<char> {
    "\n\n💡 Suggestions:\n   • Install bb (Barretenberg): check Aztec installation docs\n   • Add bb to your PATH\n   • Verify installation with `bb --version`"@
}

/// The message mentions a tool that could not be found.
pub open spec fn mentions_not_found(m: Seq<char>) -> bool {
    contains(m, "not found"@) || contains(m, "command not found"@)
}

/// The message of an error after suggestions for the first matching common
/// issue were appended; a message that matches none is kept as it is.
pub open spec fn enhanced_text(m: Seq<char>) -> Seq<char> {
    let missing = contains(m, "Required files are missing"@);
    if missing && (contains(m, ".json"@) || contains(m, ".gz"@)) {
        m + build_hint()
    } else if missing && (contains(m, "proof"@) || contains(m, "vk"@)) {
        m + prove_hint()
    } else if contains(m, "Could not find Nargo.toml"@) {
        m + project_hint()
    } else if contains(m, "Failed to parse Nargo.toml"@) {
        m + manifest_hint()
    } else if contains(m, "nargo"@) && mentions_not_found(m) {
        m + nargo_hint()
    } else if contains(m, "bb"@) && mentions_not_found(m) {
        m + bb_hint()
    } else {
        m
    }
}

fn with_hint(error: BargoError, hint: &str) -> (res: BargoError)
    ensures
        res@ == error@ + hint@,
{
    let mut message = error.message;
    message.append(hint);
    BargoError { message }
}

/// Enhanced error with suggestions for common issues.
pub fn enhance_error_with_suggestions(error: BargoError) -> (res: BargoError)
    ensures
        res@ == enhanced_text(error@),
{
    let m = error.message();
    let missing = str_contains(m, "Required files are missing");
    if missing && (str_contains(m, ".json") || str_contains(m, ".gz")) {
        return with_hint(error, "\n\n💡 Suggestions:\n   • Run `bargo build` to generate bytecode and witness files\n   • Check if you're in the correct Noir project directory\n   • Verify that Nargo.toml exists in the current directory");
    }
    if missing && (str_contains(m, "proof") || str_contains(m, "vk")) {
        return with_hint(error, "\n\n💡 Suggestions:\n   • Run `bargo prove` to generate proof and verification key\n   • Check if the proving step completed successfully\n   • Try running `bargo clean` and rebuilding from scratch");
    }
    if str_contains(m, "Could not find Nargo.toml") {
        return with_hint(error, "\n\n💡 Suggestions:\n   • Make sure you're in a Noir project directory\n   • Initialize a new project with `nargo new <project_name>`\n   • Check if you're in a subdirectory - try running from the project root");
    }
    if str_contains(m, "Failed to parse Nargo.toml") {
        return with_hint(error, "\n\n💡 Suggestions:\n   • Check Nargo.toml syntax - it should be valid TOML format\n   • Ensure the [package] section has a 'name' field\n   • Compare with a working Nargo.toml from another project");
    }
    let not_found = str_contains(m, "not found") || str_contains(m, "command not found");
    if str_contains(m, "nargo") && not_found {
        return with_hint(error, "\n\n💡 Suggestions:\n   • Install nargo: `curl -L https://raw.githubusercontent.com/noir-lang/noirup/main/install | bash`\n   • Add nargo to your PATH\n   • Verify installation with `nargo --version`");
    }
    if str_contains(m, "bb") && not_found {
        return with_hint(error, "\n\n💡 Suggestions:\n   • Install bb (Barretenberg): check Aztec installation docs\n   • Add bb to your PATH\n   • Verify installation with `bb --version`");
    }
    error
}

/// Enhancing an error only ever adds to its message: the original message
/// is always a prefix of the enhanced one, and a message that matches no
/// known issue comes back unchanged.
pub proof fn lemma_enhance_extends(m: Seq<char>)
    ensures
        enhanced_text(m).subrange(0, m.len() as int) == m,
        enhanced_text(m) == m || enhanced_text(m).len() > m.len(),
{
    let e = enhanced_text(m);
    assert(e.subrange(0, m.len() as int) =~= m);
    reveal_strlit("\n\n💡 Suggestions:\n   • Run `bargo build` to generate bytecode and witness files\n   • Check if you're in the correct Noir project directory\n   • Verify that Nargo.toml exists in the current directory");
    reveal_strlit("\n\n💡 Suggestions:\n   • Run `bargo prove` to generate proof and verification key\n   • Check if the proving step completed successfully\n   • Try running `bargo clean` and rebuilding from scratch");
    reveal_strlit("\n\n💡 Suggestions:\n   • Make sure you're in a Noir project directory\n   • Initialize a new project with `nargo new <project_name>`\n   • Check if you're in a subdirectory - try running from the project root");
    reveal_strlit("\n\n💡 Suggestions:\n   • Check Nargo.toml syntax - it should be valid TOML format\n   • Ensure the [package] section has a 'name' field\n   • Compare with a working Nargo.toml from another project");
    reveal_strlit("\n\n💡 Suggestions:\n   • Install nargo: `curl -L https://raw.githubusercontent.com/noir-lang/noirup/main/install | bash`\n   • Add nargo to your PATH\n   • Verify installation with `nargo --version`");
    reveal_strlit("\n\n💡 Suggestions:\n   • Install bb (Barretenberg): check Aztec installation docs\n   • Add bb to your PATH\n   • Verify installation with `bb --version`");
}


/// The files among the first `n` whose existence flag is false, in order.
pub open spec fn missing_upto(files: Seq<Seq<char>>, exists: Seq<bool>, n: nat) -> Seq<Seq<char>>
    decreases n,
{
    if n == 0 {
        seq![]
    } else {
        let rest = missing_upto(files, exists, (n - 1) as nat);
        if exists[n - 1] {
            rest
        } else {
            rest.push(files[n - 1])
        }
    }
}

/// The files whose existence flag is false, in order.
pub open spec fn missing_files(files: Seq<Seq<char>>, exists: Seq<bool>) -> Seq<Seq<char>> {
    missing_upto(files, exists, files.len())
}

/// Nothing is missing exactly when every flag among the first `n` holds.
pub proof fn lemma_missing_empty(files: Seq<Seq<char>>, exists: Seq<bool>, n: nat)
    requires
        n <= files.len(),
        n <= exists.len(),
    ensures
        missing_upto(files, exists, n).len() == 0 <==> forall|i: int| 0 <= i < n ==> exists[i],
    decreases n,
{
    if n > 0 {
        lemma_missing_empty(files, exists, (n - 1) as nat);
    }
}

/// The text of the error for missing files that `validate_files_exist` raises.
pub open spec fn files_missing_text(missing: Seq<Seq<char>>) -> Seq<char> {
    "Required files are missing:\n"@ + seq_join(missing.map_values(|p: Seq<char>| "  - "@ + p), "\n"@)
        + "\n\nTry running `bargo build` first."@
}

/// The text of the error for missing files that `validate_required_files` raises.
pub open spec fn required_missing_text(missing: Seq<Seq<char>>) -> Seq<char> {
    smart_error_text(
        "Required files are missing: "@ + seq_join(missing, ", "@),
        seq![
            "Run 'bargo build' to generate bytecode and witness files"@,
            "Ensure the previous workflow steps completed successfully"@,
            "Check that you're running from the correct directory"@,
            "Verify the package name is correct"@,
        ],
    )
}

fn collect_missing(files: &Vec<String>, exists: &Vec<bool>, prefix: &str) -> (res: Vec<String>)
    requires
        files.len() == exists.len(),
    ensures
        views(res@) == missing_files(views(files@), exists@).map_values(|p: Seq<char>| prefix@ + p),
{
    let ghost fv = views(files@);
    let mut res: Vec<String> = Vec::new();
    let mut i: usize = 0;
    while i < files.len()
        invariant
            i <= files.len(),
            files.len() == exists.len(),
            fv == views(files@),
            views(res@) == missing_upto(fv, exists@, i as nat).map_values(|p: Seq<char>| prefix@ + p),
        decreases files.len() - i,
    {
        let ghost m = missing_upto(fv, exists@, i as nat);
        let ghost old_res = views(res@);
        assert(fv[i as int] == files@[i as int]@);
        if !exists[i] {
            let mut item = String::from_str(prefix);
            item.append(files[i].as_str());
            res.push(item);
            assert(missing_upto(fv, exists@, (i + 1) as nat) == m.push(fv[i as int]));
            assert(views(res@) =~= old_res.push(prefix@ + fv[i as int]));
            assert(views(res@) =~= missing_upto(fv, exists@, (i + 1) as nat).map_values(
                |p: Seq<char>| prefix@ + p,
            ));
        } else {
            assert(missing_upto(fv, exists@, (i + 1) as nat) == m);
        }
        i = i + 1;
    }
    res
}

/// Validate that required files exist for a given operation. The flag at
/// each index says whether the file at that index exists.
pub fn validate_files_exist(files: &Vec<String>, exists: &Vec<bool>) -> (res: Result<(), BargoError>)
    requires
        files.len() == exists.len(),
    ensures
        res is Ok <==> forall|i: int| 0 <= i < exists.len() ==> exists@[i],
        res matches Err(e) ==> e@ == files_missing_text(missing_files(views(files@), exists@)),
{
    proof {
        lemma_missing_empty(views(files@), exists@, files.len() as nat);
        assert(views(files@).len() == files.len());
    }
    let items = collect_missing(files, exists, "  - ");
    assert(views(items@).len() == items.len());
    if items.len() == 0 {
        return Ok(());
    }
    let mut message = String::from_str("Required files are missing:\n");
    let list = join(&items, "\n");
    message.append(list.as_str());
    message.append("\n\nTry running `bargo build` first.");
    proof {
        let m = missing_files(views(files@), exists@);
        assert(m.map_values(|p: Seq<char>| "  - "@ + p).len() == m.len());
    }
    Err(BargoError { message })
}

/// Validate that required files exist before proceeding. The flag at each
/// index says whether the file at that index exists.
pub fn validate_required_files(files: &Vec<String>, exists: &Vec<bool>) -> (res: Result<(), BargoError>)
    requires
        files.len() == exists.len(),
    ensures
        res is Ok <==> forall|i: int| 0 <= i < exists.len() ==> exists@[i],
        res matches Err(e) ==> e@ == required_missing_text(missing_files(views(files@), exists@)),
{
    proof {
        lemma_missing_empty(views(files@), exists@, files.len() as nat);
        assert(views(files@).len() == files.len());
    }
    let items = collect_missing(files, exists, "");
    proof {
        let m = missing_files(views(files@), exists@);
        assert(m.map_values(|p: Seq<char>| ""@ + p) =~= m) by {
            reveal_strlit("");
            assert forall|i: int| 0 <= i < m.len() implies (""@ + m[i]) == m[i] by {
                assert((""@ + m[i]) =~= m[i]);
            }
        }
    }
    assert(views(items@).len() == items.len());
    if items.len() == 0 {
        return Ok(());
    }
    let mut message = String::from_str("Required files are missing: ");
    let list = join(&items, ", ");
    message.append(list.as_str());
    let suggestions: [&str; 4] = [
        "Run 'bargo build' to generate bytecode and witness files",
        "Ensure the previous workflow steps completed successfully",
        "Check that you're running from the correct directory",
        "Verify the package name is correct",
    ];
    let e = create_smart_error(message.as_str(), suggestions.as_slice());
    assert(str_views(suggestions@) =~= seq![
        "Run 'bargo build' to generate bytecode and witness files"@,
        "Ensure the previous workflow steps completed successfully"@,
        "Check that you're running from the correct directory"@,
        "Verify the package name is correct"@,
    ]);
    Err(e)
}

/// The text of the error for a tool that exited unsuccessfully.
pub open spec fn command_failed_text(program: Seq<char>, args: Seq<Seq<char>>, exit_code: Option<i32>) -> Seq<char> {
    let code: int = match exit_code {
        Some(c) => c as int,
        None => -1,
    };
    program + " "@ + seq_join(args, " "@) + " failed with exit code "@ + signed_decimal(code)
}

/// The error for a tool that exited unsuccessfully; a missing exit code
/// (the process was killed by a signal) is reported as -1.
pub fn command_failed(program: &str, args: &Vec<String>, exit_code: Option<i32>) -> (res: BargoError)
    ensures
        res@ == command_failed_text(program@, views(args@), exit_code),
{
    let code: i32 = match exit_code {
        Some(c) => c,
        None => -1,
    };
    let mut message = String::from_str(program);
    message.append(" ");
    let joined = join(args, " ");
    message.append(joined.as_str());
    message.append(" failed with exit code ");
    let num = signed_decimal_string(code as i64);
    message.append(num.as_str());
    BargoError { message }
}


/// Create a smart error whose suggestions are owned strings.
pub fn smart_error(message: &str, suggestions: &Vec<String>) -> (res: BargoError)
    ensures
        res@ == smart_error_text(message@, views(suggestions@)),
{
    let mut text = String::from_str("❌ ");
    text.append(message);
    if suggestions.len() > 0 {
        text.append("\n\n💡 Suggestions:");
        let ghost head = text@;
        let ghost sv = views(suggestions@);
        let mut i: usize = 0;
        while i < suggestions.len()
            invariant
                i <= suggestions.len(),
                sv == views(suggestions@),
                text@ == head + bullets(sv.take(i as int)),
            decreases suggestions.len() - i,
        {
            text.append("\n   • ");
            text.append(suggestions[i].as_str());
            assert(sv.take(i + 1).drop_last() =~= sv.take(i as int));
            i = i + 1;
        }
        assert(sv.take(suggestions.len() as int) =~= sv);
    }
    BargoError { message: text }
}

} // verus!
