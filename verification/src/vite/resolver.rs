//! Choice of the command that starts the backend.
//!
//! The host looks at the machine (an environment variable, the working
//! directory, the search path) and records what it saw in a
//! [`ResolverProbe`]; the choice among the findings is made here.

use crate::text::{
    after_last, after_last_index, string_of_range, texts, to_chars, trim, trim_bounds,
};
use crate::vite::options::ViteProxyOptions;
use vstd::prelude::*;

verus! {

/// What asking the operating system for a `vite` on the search path gave.
#[derive(Debug)]
pub enum GlobalLookup {
    /// The lookup could not be run.
    Unavailable,
    /// The lookup ran and printed something that is not text.
    Undecodable,
    /// The lookup ran and printed this.
    Output(String),
}

/// What the host saw when it looked for ways to start the backend.
#[derive(Debug)]
pub struct ResolverProbe {
    /// Value of the `VITE_PATH` environment variable, if it is set.
    pub override_path: Option<String>,
    /// Whether `override_path` names something that exists on disk.
    pub override_exists: bool,
    /// Path of the executable vendored under the working directory's
    /// `node_modules/.bin`.
    pub local_path: String,
    /// Whether `local_path` exists.
    pub local_exists: bool,
    /// For each entry of [`package_managers`], whether its launcher is on the
    /// search path.
    pub managers: Vec<bool>,
    /// The search-path lookup of a globally installed `vite`.
    pub global: GlobalLookup,
}

/// Why no command was chosen.
#[derive(Debug)]
pub enum ResolveError {
    /// Every strategy came up empty; the text lists them and says what to do.
    NotFound(String),
    /// The search-path lookup printed bytes that are not text.
    UndecodableLookup,
}

/// What the contracts say of a `ResolveError`.
pub enum ResolveFailure {
    NotFound(Seq<char>),
    UndecodableLookup,
}

impl View for ResolveError {
    type V = ResolveFailure;

    open spec fn view(&self) -> ResolveFailure {
        match *self {
            ResolveError::NotFound(text) => ResolveFailure::NotFound(text@),
            ResolveError::UndecodableLookup => ResolveFailure::UndecodableLookup,
        }
    }
}

/// The command that starts the backend: an executable path or a command
/// name, and the arguments it is given.
#[derive(Debug)]
pub struct ResolvedCommand {
    /// The executable or command name, whole: a path that holds spaces is
    /// one program.
    pub program: String,
    /// The arguments, in order.
    pub args: Vec<String>,
}

/// What the contracts say of a `ResolvedCommand`.
pub struct CommandView {
    pub program: Seq<char>,
    pub args: Seq<Seq<char>>,
}

impl View for ResolvedCommand {
    type V = CommandView;

    open spec fn view(&self) -> CommandView {
        CommandView { program: self.program@, args: texts(self.args@) }
    }
}

/// What the contracts say of a resolution.
pub open spec fn outcome_view(out: Result<ResolvedCommand, ResolveError>) -> Result<
    CommandView,
    ResolveFailure,
> {
    match out {
        Ok(command) => Ok(command@),
        Err(e) => Err(e@),
    }
}

/// The launchers of the package managers that are tried, in order of
/// preference. A manager is chosen when its launcher is on the search path.
pub open spec fn manager_launchers() -> Seq<Seq<char>> {
    seq!["pnpm"@, "yarn"@, "bun"@, "npm"@, "npx"@]
}

/// The arguments with which the launcher at the same index of
/// [`manager_launchers`] runs the backend.
pub open spec fn manager_arguments() -> Seq<Seq<Seq<char>>> {
    seq![
        seq!["exec"@, "vite"@],
        seq!["vite"@],
        seq!["vite"@],
        seq!["exec"@, "vite"@],
        seq!["vite"@],
    ]
}

/// An executable that is run as it is, without arguments.
pub open spec fn bare(program: Seq<char>) -> CommandView {
    CommandView { program, args: Seq::empty() }
}

/// The first index at or after `from`, among the five package managers, at
/// which `found` is set.
pub open spec fn first_manager_from(found: Seq<bool>, from: int) -> Option<int>
    decreases 5 - from,
{
    if from < 0 || from >= 5 || from >= found.len() {
        None
    } else if found[from] {
        Some(from)
    } else {
        first_manager_from(found, from + 1)
    }
}

/// The first package manager, by preference, whose launcher was found.
pub open spec fn first_manager(found: Seq<bool>) -> Option<int> {
    first_manager_from(found, 0)
}

/// The path that a search-path lookup printed: its last line, trimmed. Empty
/// where it printed nothing but white space.
pub open spec fn last_listed(output: Seq<char>) -> Seq<char> {
    trim(after_last(trim(output), '\n'))
}

/// The text of the error that is returned when nothing was found.
pub open spec fn not_found_text(working_directory: Seq<char>) -> Seq<char> {
    "Vite not found. Tried:\n- VITE_PATH environment variable\n- node_modules/.bin/vite in "@
        + working_directory
        + "\n- Package managers: pnpm, yarn, bun, npm, npx\n- Global vite executable\n\nInstall Vite with: npm install -D vite"@
}

/// The command that starts the backend. In order: the override, if it
/// exists; the vendored executable, if it exists; the most preferred package
/// manager that was found; the globally installed executable. A path is the
/// program, whole and without arguments; a package manager is its launcher
/// with its arguments.
pub open spec fn resolution(working_directory: Seq<char>, probe: ResolverProbe) -> Result<
    CommandView,
    ResolveFailure,
> {
    if probe.override_path is Some && probe.override_exists {
        Ok(bare(probe.override_path->0@))
    } else if probe.local_exists {
        Ok(bare(probe.local_path@))
    } else if first_manager(probe.managers@) is Some {
        let i = first_manager(probe.managers@)->0;
        Ok(CommandView { program: manager_launchers()[i], args: manager_arguments()[i] })
    } else {
        match probe.global {
            GlobalLookup::Undecodable => Err(ResolveFailure::UndecodableLookup),
            GlobalLookup::Output(text) if trim(text@).len() > 0 => Ok(bare(last_listed(text@))),
            _ => Err(ResolveFailure::NotFound(not_found_text(working_directory))),
        }
    }
}

/// A package manager that can run the backend.
#[derive(Debug)]
pub struct PackageManager {
    /// The launcher that must be on the search path.
    pub launcher: String,
    /// The arguments that run the backend through it.
    pub args: Vec<String>,
}

fn manager(launcher: &str, first: &str, second: Option<&str>) -> (out: PackageManager)
    ensures
        out.launcher@ == launcher@,
        texts(out.args@) == match second {
            Some(word) => seq![first@, word@],
            None => seq![first@],
        },
{
    let mut args: Vec<String> = Vec::new();
    args.push(String::from_str(first));
    match second {
        Some(word) => {
            args.push(String::from_str(word));
            assert(texts(args@) == seq![first@, word@]);
        },
        None => {
            assert(texts(args@) == seq![first@]);
        },
    }
    PackageManager { launcher: String::from_str(launcher), args }
}

/// The package managers that are tried, in order of preference.
pub fn package_managers() -> (managers: Vec<PackageManager>)
    ensures
        managers@.len() == 5,
        forall|i: int|
            0 <= i < 5 ==> (#[trigger] managers@[i]).launcher@ == manager_launchers()[i] && texts(
                managers@[i].args@,
            ) == manager_arguments()[i],
{
    let mut managers: Vec<PackageManager> = Vec::new();
    managers.push(manager("pnpm", "exec", Some("vite")));
    managers.push(manager("yarn", "vite", None));
    managers.push(manager("bun", "vite", None));
    managers.push(manager("npm", "exec", Some("vite")));
    managers.push(manager("npx", "vite", None));
    managers
}

fn first_found(found: &Vec<bool>) -> (first: Option<usize>)
    ensures
        match first {
            Some(i) => i < 5 && first_manager(found@) == Some(i as int),
            None => first_manager(found@) is None,
        },
{
    let mut i: usize = 0;
    while i < 5 && i < found.len()
        invariant
            i <= 5,
            first_manager(found@) == first_manager_from(found@, i as int),
        decreases 5 - i,
    {
        if found[i] {
            return Some(i);
        }
        i += 1;
    }
    None
}

/// The last line of what a search-path lookup printed, trimmed.
pub fn last_listed_path(output: &str) -> (path: String)
    ensures
        path@ == last_listed(output@),
{
    let all = to_chars(output);
    let (a, b) = trim_bounds(&all);
    let mut body: Vec<char> = Vec::new();
    crate::text::push_range(&mut body, &all, a, b);
    assert(body@ == trim(output@));
    let k = after_last_index(&body, '\n');
    let mut line: Vec<char> = Vec::new();
    crate::text::push_range(&mut line, &body, k, body.len());
    assert(body@.subrange(k as int, body@.len() as int) == body@.skip(k as int));
    assert(line@ == after_last(trim(output@), '\n'));
    let (c, d) = trim_bounds(&line);
    string_of_range(&line, c, d)
}

/// The text of the error for a search that found nothing.
pub fn not_found_message(working_directory: &str) -> (text: String)
    ensures
        text@ == not_found_text(working_directory@),
{
    let mut text = String::from_str(
        "Vite not found. Tried:\n- VITE_PATH environment variable\n- node_modules/.bin/vite in ",
    );
    text.append(working_directory);
    text.append(
        "\n- Package managers: pnpm, yarn, bun, npm, npx\n- Global vite executable\n\nInstall Vite with: npm install -D vite",
    );
    text
}

fn bare_command(program: String) -> (out: ResolvedCommand)
    ensures
        out@ == bare(program@),
{
    let args: Vec<String> = Vec::new();
    assert(texts(args@) == Seq::<Seq<char>>::empty());
    ResolvedCommand { program, args }
}

/// Chooses the command that starts the backend from what `probe` recorded.
pub fn find_vite_executable(options: &ViteProxyOptions, probe: &ResolverProbe) -> (out: Result<
    ResolvedCommand,
    ResolveError,
>)
    ensures
        outcome_view(out) == resolution(options.working_directory@, *probe),
{
    if let Some(path) = &probe.override_path {
        if probe.override_exists {
            return Ok(bare_command(path.clone()));
        }
    }
    if probe.local_exists {
        return Ok(bare_command(probe.local_path.clone()));
    }
    if let Some(i) = first_found(&probe.managers) {
        let mut managers = package_managers();
        let chosen = managers.swap_remove(i);
        return Ok(ResolvedCommand { program: chosen.launcher, args: chosen.args });
    }
    match &probe.global {
        GlobalLookup::Undecodable => Err(ResolveError::UndecodableLookup),
        GlobalLookup::Output(text) => {
            let chars = to_chars(text.as_str());
            let (a, b) = trim_bounds(&chars);
            if a < b {
                Ok(bare_command(last_listed_path(text.as_str())))
            } else {
                Err(ResolveError::NotFound(not_found_message(options.working_directory.as_str())))
            }
        },
        GlobalLookup::Unavailable => Err(
            ResolveError::NotFound(not_found_message(options.working_directory.as_str())),
        ),
    }
}

/// An override that exists on disk is chosen whatever else was found, and
/// it is the program as it stands, spaces and all, with no arguments.
pub proof fn lemma_override_wins(working_directory: Seq<char>, probe: ResolverProbe)
    requires
        probe.override_path is Some,
        probe.override_exists,
    ensures
        resolution(working_directory, probe) == Ok::<CommandView, ResolveFailure>(
            bare(probe.override_path->0@),
        ),
{
}

/// Without a usable override, a vendored executable is chosen before any
/// package manager and before a global installation.
pub proof fn lemma_local_before_global(working_directory: Seq<char>, probe: ResolverProbe)
    requires
        !(probe.override_path is Some && probe.override_exists),
        probe.local_exists,
    ensures
        resolution(working_directory, probe) == Ok::<CommandView, ResolveFailure>(
            bare(probe.local_path@),
        ),
{
}

/// The search fails with the list of what was tried exactly when nothing
/// was found: no usable override, no vendored executable, no package
/// manager, and a lookup that could not run or printed nothing.
pub proof fn lemma_not_found_iff_nothing(working_directory: Seq<char>, probe: ResolverProbe)
    ensures
        resolution(working_directory, probe) is Err && resolution(
            working_directory,
            probe,
        )->Err_0 is NotFound <==> {
            &&& !(probe.override_path is Some && probe.override_exists)
            &&& !probe.local_exists
            &&& first_manager(probe.managers@) is None
            &&& match probe.global {
                GlobalLookup::Unavailable => true,
                GlobalLookup::Undecodable => false,
                GlobalLookup::Output(text) => trim(text@).len() == 0,
            }
        },
{
}


/// A path that was found, be it the override, the vendored executable or
/// the global installation, is never cut into pieces: it is the program and
/// there are no arguments. Only a package manager brings arguments.
pub proof fn lemma_paths_stay_whole(working_directory: Seq<char>, probe: ResolverProbe)
    requires
        resolution(working_directory, probe) is Ok,
    ensures
        resolution(working_directory, probe)->Ok_0.args.len() > 0 <==> {
            &&& !(probe.override_path is Some && probe.override_exists)
            &&& !probe.local_exists
            &&& first_manager(probe.managers@) is Some
        },
{
    if !(probe.override_path is Some && probe.override_exists) && !probe.local_exists
        && first_manager(probe.managers@) is Some {
        lemma_first_manager_in_range(probe.managers@, 0);
    }
}

proof fn lemma_first_manager_in_range(found: Seq<bool>, from: int)
    requires
        first_manager_from(found, from) is Some,
    ensures
        0 <= first_manager_from(found, from)->0 < 5,
        from <= first_manager_from(found, from)->0,
    decreases 5 - from,
{
    if !(from < 0 || from >= 5 || from >= found.len()) && !found[from] {
        lemma_first_manager_in_range(found, from + 1);
    }
}

} // verus!
