//! Which login shells the search path check knows, and how each of them is
//! asked whether a program is on its search path.

use crate::process::{Invocation, InvocationView};
use crate::text::same_text;
use vstd::prelude::*;
use vstd::string::*;

verus! {

/// How a shell is asked to look a program up.
#[derive(Clone, Copy, Debug, PartialEq, Eq)]
pub enum ShellRecipe {
    /// Takes `-l` to start as a login shell and has the POSIX `command`
    /// builtin.
    Posix,
    /// Has `command`, but no flag that makes it a login shell.
    Restricted,
    /// Has no `command` builtin but a `which` of its own, with or without a
    /// login flag.
    Which { login: bool },
    /// Not a shell this check knows how to start.
    Unknown,
}

/// The shells the check knows, each with its recipe. Supporting another shell
/// takes one more line here and the same line in `known_shells`.
pub open spec fn shell_table() -> Seq<(Seq<char>, ShellRecipe)> {
    seq![
        ("ash"@, ShellRecipe::Posix),
        ("bash"@, ShellRecipe::Posix),
        ("csh"@, ShellRecipe::Posix),
        ("ksh"@, ShellRecipe::Posix),
        ("dash"@, ShellRecipe::Posix),
        ("fish"@, ShellRecipe::Posix),
        ("ion"@, ShellRecipe::Posix),
        ("sh"@, ShellRecipe::Posix),
        ("tcsh"@, ShellRecipe::Posix),
        ("zsh"@, ShellRecipe::Posix),
        ("elvish"@, ShellRecipe::Restricted),
        ("oil"@, ShellRecipe::Restricted),
        ("pwsh"@, ShellRecipe::Which { login: true }),
        ("nu"@, ShellRecipe::Which { login: false }),
    ]
}

/// The recipe that `table` holds for `shell`: that of the first entry with
/// this name, and `Unknown` when there is none.
pub open spec fn lookup(table: Seq<(Seq<char>, ShellRecipe)>, shell: Seq<char>) -> ShellRecipe
    decreases table.len(),
{
    if table.len() == 0 {
        ShellRecipe::Unknown
    } else if table[0].0 == shell {
        table[0].1
    } else {
        lookup(table.skip(1), shell)
    }
}

/// The recipe for the shell with the given name.
pub open spec fn recipe_for(shell: Seq<char>) -> ShellRecipe {
    lookup(shell_table(), shell)
}

/// The names and recipes of `table`, for use in contracts.
pub open spec fn table_view(table: Seq<(&'static str, ShellRecipe)>) -> Seq<
    (Seq<char>, ShellRecipe),
> {
    Seq::new(table.len(), |i: int| (table[i].0@, table[i].1))
}

/// The table of known shells.
pub fn known_shells() -> (table: Vec<(&'static str, ShellRecipe)>)
    ensures
        table_view(table@) == shell_table(),
{
    let table = vec![
        ("ash", ShellRecipe::Posix),
        ("bash", ShellRecipe::Posix),
        ("csh", ShellRecipe::Posix),
        ("ksh", ShellRecipe::Posix),
        ("dash", ShellRecipe::Posix),
        ("fish", ShellRecipe::Posix),
        ("ion", ShellRecipe::Posix),
        ("sh", ShellRecipe::Posix),
        ("tcsh", ShellRecipe::Posix),
        ("zsh", ShellRecipe::Posix),
        ("elvish", ShellRecipe::Restricted),
        ("oil", ShellRecipe::Restricted),
        ("pwsh", ShellRecipe::Which { login: true }),
        ("nu", ShellRecipe::Which { login: false }),
    ];
    table
}

/// Classifies a login shell by its name, the last component of `$SHELL`.
pub fn classify_shell(shell: &str) -> (recipe: ShellRecipe)
    ensures
        recipe == recipe_for(shell@),
{
    let table = known_shells();
    let mut i: usize = 0;
    assert(shell_table().skip(0) == shell_table());
    while i < table.len()
        invariant
            i <= table.len(),
            table_view(table@) == shell_table(),
            recipe_for(shell@) == lookup(shell_table().skip(i as int), shell@),
        decreases table.len() - i,
    {
        let entry = &table[i];
        proof {
            let rest = shell_table().skip(i as int);
            assert(rest.skip(1) == shell_table().skip(i + 1));
        }
        if same_text(entry.0, shell) {
            return entry.1;
        }
        i += 1;
    }
    ShellRecipe::Unknown
}

/// A lookup ends in `Unknown` exactly when the table has no entry for the
/// name, as long as the table itself files no shell under `Unknown`.
pub proof fn lemma_lookup_unknown(table: Seq<(Seq<char>, ShellRecipe)>, shell: Seq<char>)
    requires
        forall|i: int| 0 <= i < table.len() ==> !((#[trigger] table[i]).1 is Unknown),
    ensures
        lookup(table, shell) is Unknown <==> forall|i: int|
            0 <= i < table.len() ==> (#[trigger] table[i]).0 != shell,
    decreases table.len(),
{
    if table.len() > 0 {
        let rest = table.skip(1);
        lemma_lookup_unknown(rest, shell);
        if table[0].0 != shell {
            if lookup(table, shell) is Unknown {
                assert forall|i: int| 0 <= i < table.len() implies (#[trigger] table[i]).0
                    != shell by {
                    if i > 0 {
                        assert(table[i] == rest[i - 1]);
                    }
                }
            } else {
                let i = choose|i: int| 0 <= i < rest.len() && (#[trigger] rest[i]).0 == shell;
                assert(table[i + 1] == rest[i]);
            }
        }
    }
}

/// Every name is classified: the shells that the table lists get a recipe,
/// and every other name is `Unknown`, which is no error.
pub proof fn lemma_unknown_means_unlisted(shell: Seq<char>)
    ensures
        recipe_for(shell) is Unknown <==> forall|i: int|
            0 <= i < shell_table().len() ==> (#[trigger] shell_table()[i]).0 != shell,
{
    lemma_lookup_unknown(shell_table(), shell);
}

/// No entry of the table hides another: each listed shell gets the recipe
/// that stands beside its name.
pub proof fn lemma_listed_shell_gets_its_recipe(i: int)
    requires
        0 <= i < shell_table().len(),
    ensures
        recipe_for(shell_table()[i].0) == shell_table()[i].1,
{
    reveal_strlit("ash");
    reveal_strlit("bash");
    reveal_strlit("csh");
    reveal_strlit("ksh");
    reveal_strlit("dash");
    reveal_strlit("fish");
    reveal_strlit("ion");
    reveal_strlit("sh");
    reveal_strlit("tcsh");
    reveal_strlit("zsh");
    reveal_strlit("elvish");
    reveal_strlit("oil");
    reveal_strlit("pwsh");
    reveal_strlit("nu");
    reveal_with_fuel(lookup, 15);
    // No two names begin with the same letter
    let table = shell_table();
    assert(table[0].0[0] == 'a');
    assert(table[1].0[0] == 'b');
    assert(table[2].0[0] == 'c');
    assert(table[3].0[0] == 'k');
    assert(table[4].0[0] == 'd');
    assert(table[5].0[0] == 'f');
    assert(table[6].0[0] == 'i');
    assert(table[7].0[0] == 's');
    assert(table[8].0[0] == 't');
    assert(table[9].0[0] == 'z');
    assert(table[10].0[0] == 'e');
    assert(table[11].0[0] == 'o');
    assert(table[12].0[0] == 'p');
    assert(table[13].0[0] == 'n');
}

/// The final component of `path`, as `std::path::Path::file_name` finds it,
/// where there is one.
pub uninterp spec fn file_name_of(path: Seq<char>) -> Option<Seq<char>>;

/// Calls `std::path::Path::file_name` on `path`. The result is the final
/// component of the path, and `None` if the path has none, as when it ends
/// in `..`. The contract only gives that result its name.
#[verifier::external_body]
fn path_file_name(path: &str) -> (name: Option<String>)
    ensures
        name.deep_view() == file_name_of(path@),
{
    let name = std::path::Path::new(path).file_name()?;
    Some(name.to_str()?.to_owned())
}

/// The name of the shell at `shell_path`: the final component of the path,
/// or all of it where it has no such component.
pub open spec fn shell_name_of(shell_path: Seq<char>) -> Seq<char> {
    match file_name_of(shell_path) {
        Some(name) => name,
        None => shell_path,
    }
}

/// The name by which the shell at `shell_path` is classified. `$SHELL` will
/// often hold a full path, but it does not have to.
pub fn shell_name(shell_path: &str) -> (name: String)
    ensures
        name@ == shell_name_of(shell_path@),
{
    match path_file_name(shell_path) {
        Some(name) => name,
        None => shell_path.to_owned(),
    }
}

/// The arguments with which a shell of the given kind looks `program` up:
/// `-l` where the shell takes it, then `-c` and the command.
pub open spec fn probe_arguments(recipe: ShellRecipe, program: Seq<char>) -> Seq<Seq<char>> {
    match recipe {
        ShellRecipe::Posix => seq!["-l"@, "-c"@, "command -v "@ + program],
        ShellRecipe::Restricted => seq!["-c"@, "command -v "@ + program],
        ShellRecipe::Which { login: true } => seq!["-l"@, "-c"@, "which "@ + program],
        ShellRecipe::Which { login: false } => seq!["-c"@, "which "@ + program],
        ShellRecipe::Unknown => Seq::empty(),
    }
}

/// The process that asks the login shell at `shell_path` whether `program`
/// is on its search path. There is none for an unknown shell.
///
/// Some shells have no login flag but take an `argv[0]` that starts with a
/// hyphen as the sign that they are a login shell, so the process gets both.
/// It starts with `HOME` as its only variable: the shell needs that to find
/// its profile, and nothing of the caller's own search path may leak into
/// the answer. Only its exit status counts.
pub open spec fn login_probe_of(
    recipe: ShellRecipe,
    shell_path: Seq<char>,
    home: Seq<char>,
    program: Seq<char>,
) -> Option<InvocationView> {
    if recipe is Unknown {
        None
    } else {
        Some(
            InvocationView {
                program: shell_path,
                arg0: Some("-"@ + shell_path),
                args: probe_arguments(recipe, program),
                environment: Some(seq![("HOME"@, home)]),
                capture_output: false,
            },
        )
    }
}

/// Builds the process that asks a login shell for `program`.
pub fn login_probe(recipe: ShellRecipe, shell_path: &str, home: &str, program: &str) -> (probe:
    Option<Invocation>)
    ensures
        match probe {
            Some(probe) => login_probe_of(recipe, shell_path@, home@, program@) == Some(probe@),
            None => login_probe_of(recipe, shell_path@, home@, program@) is None,
        },
{
    let (login, lookup) = match recipe {
        ShellRecipe::Posix => (true, "command -v "),
        ShellRecipe::Restricted => (false, "command -v "),
        ShellRecipe::Which { login } => (login, "which "),
        ShellRecipe::Unknown => {
            return None;
        },
    };
    let mut args: Vec<String> = Vec::new();
    if login {
        args.push("-l".to_owned());
    }
    args.push("-c".to_owned());
    args.push(lookup.to_owned().concat(program));
    let mut environment: Vec<(String, String)> = Vec::new();
    environment.push(("HOME".to_owned(), home.to_owned()));
    let probe = Invocation {
        program: shell_path.to_owned(),
        arg0: Some("-".to_owned().concat(shell_path)),
        args,
        environment: Some(environment),
        capture_output: false,
    };
    proof {
        let expected = login_probe_of(recipe, shell_path@, home@, program@)->0;
        assert(probe@.args =~= expected.args);
        assert(probe@.environment->0 =~= expected.environment->0);
    }
    Some(probe)
}

} // verus!
