//! The proxy's options and the cell that shares them between the supervisor
//! and the request handler.

use crate::text::opt_text;
use vstd::prelude::*;

verus! {

/// Severity at which relayed backend lines are logged.
#[derive(Clone, Copy, Debug, PartialEq, Eq, Hash, Structural)]
pub enum Level {
    Error,
    Warn,
    Info,
    Debug,
    Trace,
}

/// Options of the proxy: where the backend listens, where it runs, and
/// whether its output is relayed to the log.
#[derive(Debug)]
pub struct ViteProxyOptions {
    /// Backend port; `None` until it is pinned or discovered.
    pub port: Option<u16>,
    /// Directory the backend command is resolved against and started in.
    pub working_directory: String,
    /// Severity of relayed lines; `None` turns the relay off.
    pub log_level: Option<Level>,
}

/// What the contracts say of a `ViteProxyOptions`.
pub struct OptionsView {
    pub port: Option<u16>,
    pub working_directory: Seq<char>,
    pub log_level: Option<Level>,
}

impl View for ViteProxyOptions {
    type V = OptionsView;

    open spec fn view(&self) -> OptionsView {
        OptionsView {
            port: self.port,
            working_directory: self.working_directory@,
            log_level: self.log_level,
        }
    }
}

/// The directory that was found, or the current one where none was.
pub open spec fn detected_or_current(found: Option<String>) -> Seq<char> {
    match found {
        Some(dir) => dir@,
        None => "."@,
    }
}

/// The options a process starts with when the working directory is `dir`.
pub open spec fn default_options(dir: Seq<char>) -> OptionsView {
    OptionsView { port: None, working_directory: dir, log_level: Some(Level::Debug) }
}

impl Clone for ViteProxyOptions {
    fn clone(&self) -> (out: Self)
        ensures
            out@ == self@,
    {
        ViteProxyOptions {
            port: self.port,
            working_directory: self.working_directory.clone(),
            log_level: self.log_level,
        }
    }
}

impl Default for ViteProxyOptions {
    fn default() -> (out: Self)
        ensures
            out@ == default_options("."@),
    {
        ViteProxyOptions {
            port: None,
            working_directory: String::from_str("."),
            log_level: Some(Level::Debug),
        }
    }
}

impl ViteProxyOptions {
    /// The defaults: no port yet, the current directory, relay at `Debug`.
    pub fn new() -> (out: Self)
        ensures
            out@ == default_options("."@),
    {
        ViteProxyOptions {
            port: None,
            working_directory: String::from_str("."),
            log_level: Some(Level::Debug),
        }
    }

    /// The defaults for a process whose project directory was looked for:
    /// the directory found, or the current one.
    pub fn with_detected_directory(found: Option<String>) -> (out: Self)
        ensures
            out@ == default_options(detected_or_current(found)),
    {
        let dir = match found {
            Some(dir) => dir,
            None => String::from_str("."),
        };
        ViteProxyOptions { port: None, working_directory: dir, log_level: Some(Level::Debug) }
    }

    /// Pins the backend port.
    pub fn port(self, port: u16) -> (out: Self)
        ensures
            out@ == (OptionsView { port: Some(port), ..self@ }),
    {
        let mut out = self;
        out.port = Some(port);
        out
    }

    /// Sets the directory the backend runs in.
    pub fn working_directory(self, working_directory: &str) -> (out: Self)
        ensures
            out@ == (OptionsView { working_directory: working_directory@, ..self@ }),
    {
        let mut out = self;
        out.working_directory = String::from_str(working_directory);
        out
    }

    /// Relays backend lines at `log_level`.
    pub fn log_level(self, log_level: Level) -> (out: Self)
        ensures
            out@ == (OptionsView { log_level: Some(log_level), ..self@ }),
    {
        let mut out = self;
        out.log_level = Some(log_level);
        out
    }

    /// Turns the relay of backend lines off.
    pub fn disable_logging(self) -> (out: Self)
        ensures
            out@ == (OptionsView { log_level: None, ..self@ }),
    {
        let mut out = self;
        out.log_level = None;
        out
    }
}

/// Why the shared options could not be written: the cell had been poisoned
/// when the lock was asked for.
#[derive(Clone, Copy, Debug, PartialEq, Eq, Structural)]
pub enum LockError {
    /// The lock failed while a port was being recorded.
    PortUpdate,
    /// The lock failed while a whole record was being installed.
    Build,
}

impl LockError {
    /// The message that goes with the failure.
    pub fn message(&self) -> (out: String)
        ensures
            out@ == match *self {
                LockError::PortUpdate => "Failed to lock proxy options for port update"@,
                LockError::Build => "Failed to lock proxy options during build"@,
            },
    {
        match self {
            LockError::PortUpdate => String::from_str(
                "Failed to lock proxy options for port update",
            ),
            LockError::Build => String::from_str("Failed to lock proxy options during build"),
        }
    }
}

/// A read of the cell, tagged with whether it is the real record or the
/// fallback handed out because the cell is poisoned.
#[derive(Debug)]
pub struct Snapshot {
    pub options: ViteProxyOptions,
    pub degraded: bool,
}

/// What the contracts say of a [`ConfigCell`].
pub struct CellView {
    /// The record the cell holds.
    pub value: OptionsView,
    /// The working directory of the default record that reads fall back to
    /// once the cell is poisoned.
    pub fallback_directory: Seq<char>,
    /// Whether the cell is poisoned.
    pub poisoned: bool,
}

/// What a read of the cell returns: the record, or once the cell is
/// poisoned a fresh default record, which has no port and relays at `Debug`.
pub open spec fn visible(cell: CellView) -> OptionsView {
    if cell.poisoned {
        default_options(cell.fallback_directory)
    } else {
        cell.value
    }
}

/// The cell after `new` was written to it: a poisoned cell stays as it is.
pub open spec fn after_set(cell: CellView, new: OptionsView) -> CellView {
    if cell.poisoned {
        cell
    } else {
        CellView { value: new, ..cell }
    }
}

/// The cell after `port` was recorded in it: a poisoned cell stays as it
/// is, and of any other only the port changes.
pub open spec fn after_update_port(cell: CellView, port: u16) -> CellView {
    if cell.poisoned {
        cell
    } else {
        CellView { value: OptionsView { port: Some(port), ..cell.value }, ..cell }
    }
}

/// The shared configuration cell.
///
/// Exactly one record lives in it. Writers need `&mut`, so at most one of them
/// runs at a time and a reader sees either the record before a write or the
/// one after it. A host that shares the cell between threads puts it behind a
/// lock; when that lock reports that a holder panicked, the host calls
/// [`ConfigCell::poison`], after which reads fall back to the defaults and
/// writes are refused.
#[derive(Debug)]
pub struct ConfigCell {
    fallback_directory: String,
    current: ViteProxyOptions,
    poisoned: bool,
}

impl View for ConfigCell {
    type V = CellView;

    closed spec fn view(&self) -> CellView {
        CellView {
            value: self.current@,
            fallback_directory: self.fallback_directory@,
            poisoned: self.poisoned,
        }
    }
}

impl ConfigCell {
    /// A cell that holds the default record for a process whose project
    /// directory was looked for: no port, the directory found or the current
    /// one, relay at `Debug`.
    pub fn new(detected: Option<String>) -> (cell: Self)
        ensures
            cell@ == (CellView {
                value: default_options(detected_or_current(detected)),
                fallback_directory: detected_or_current(detected),
                poisoned: false,
            }),
    {
        let current = ViteProxyOptions::with_detected_directory(detected);
        ConfigCell { fallback_directory: current.working_directory.clone(), current, poisoned: false }
    }

    /// A copy of the record, or a fresh default record when the cell is
    /// poisoned.
    pub fn get(&self) -> (out: ViteProxyOptions)
        ensures
            out@ == visible(self@),
    {
        if self.poisoned {
            ViteProxyOptions::with_detected_directory(Some(self.fallback_directory.clone()))
        } else {
            self.current.clone()
        }
    }

    /// Like [`ConfigCell::get`], and says whether the copy is the fallback.
    pub fn snapshot(&self) -> (out: Snapshot)
        ensures
            out.options@ == visible(self@),
            out.degraded == self@.poisoned,
    {
        Snapshot { options: self.get(), degraded: self.poisoned }
    }

    /// Replaces the whole record; a poisoned cell refuses.
    pub fn set(&mut self, new: ViteProxyOptions) -> (done: Result<(), LockError>)
        ensures
            final(self)@ == after_set(old(self)@, new@),
            done == if old(self)@.poisoned {
                Err::<(), LockError>(LockError::Build)
            } else {
                Ok::<(), LockError>(())
            },
    {
        if self.poisoned {
            return Err(LockError::Build);
        }
        self.current = new;
        Ok(())
    }

    /// Records the backend port and leaves every other field as it was; a
    /// poisoned cell refuses.
    pub fn update_port(&mut self, port: u16) -> (done: Result<(), LockError>)
        ensures
            final(self)@ == after_update_port(old(self)@, port),
            done == if old(self)@.poisoned {
                Err::<(), LockError>(LockError::PortUpdate)
            } else {
                Ok::<(), LockError>(())
            },
    {
        if self.poisoned {
            return Err(LockError::PortUpdate);
        }
        self.current.port = Some(port);
        Ok(())
    }

    /// Marks the cell as poisoned: the lock around it reported a failure.
    pub fn poison(&mut self)
        ensures
            final(self)@ == (CellView { poisoned: true, ..old(self)@ }),
    {
        self.poisoned = true;
    }
}

impl ViteProxyOptions {
    /// Records `port` in `cell` without touching its other fields.
    pub fn update_port(cell: &mut ConfigCell, port: u16) -> (done: Result<(), LockError>)
        ensures
            final(cell)@ == after_update_port(old(cell)@, port),
            done == if old(cell)@.poisoned {
                Err::<(), LockError>(LockError::PortUpdate)
            } else {
                Ok::<(), LockError>(())
            },
    {
        cell.update_port(port)
    }

    /// Installs these options in `cell`, replacing what it held.
    pub fn build(self, cell: &mut ConfigCell) -> (done: Result<(), LockError>)
        ensures
            final(cell)@ == after_set(old(cell)@, self@),
            done == if old(cell)@.poisoned {
                Err::<(), LockError>(LockError::Build)
            } else {
                Ok::<(), LockError>(())
            },
    {
        cell.set(self)
    }

    /// A copy of the options `cell` holds, or a fresh default record when
    /// it is poisoned.
    pub fn global(cell: &ConfigCell) -> (out: Self)
        ensures
            out@ == visible(cell@),
    {
        cell.get()
    }
}

/// A read that follows a write to a sound cell returns what was written.
pub proof fn lemma_read_after_set(cell: CellView, new: OptionsView)
    requires
        !cell.poisoned,
    ensures
        visible(after_set(cell, new)) == new,
{
}

/// A port update changes the port and nothing else: the working directory,
/// the severity, the fallback and the soundness of the cell stay.
pub proof fn lemma_update_port_changes_port_only(cell: CellView, port: u16)
    ensures
        after_update_port(cell, port).value.working_directory == cell.value.working_directory,
        after_update_port(cell, port).value.log_level == cell.value.log_level,
        after_update_port(cell, port).fallback_directory == cell.fallback_directory,
        after_update_port(cell, port).poisoned == cell.poisoned,
        !cell.poisoned ==> after_update_port(cell, port).value.port == Some(port),
{
}

/// A port update that has completed is seen by every read that starts
/// after it, until the next write: of two updates the later one is seen.
pub proof fn lemma_port_update_is_visible(cell: CellView, first: u16, second: u16)
    requires
        !cell.poisoned,
    ensures
        visible(after_update_port(cell, first)).port == Some(first),
        visible(after_update_port(after_update_port(cell, first), second)).port == Some(second),
{
}

/// A poisoned cell takes no write and reads as the default record: no port,
/// relay at `Debug`, whatever was written to it before.
pub proof fn lemma_poisoned_cell(cell: CellView, new: OptionsView, port: u16)
    requires
        cell.poisoned,
    ensures
        after_set(cell, new) == cell,
        after_update_port(cell, port) == cell,
        visible(cell) == default_options(cell.fallback_directory),
        visible(cell).port is None,
        visible(cell).log_level == Some(Level::Debug),
{
}

/// What was seen in one directory on the walk from the current directory up
/// to the root.
#[derive(Debug)]
pub struct DirProbe {
    /// The directory's path as text; `None` where it is not valid Unicode.
    pub path: Option<String>,
    /// Whether the directory is the filesystem root.
    pub is_root: bool,
    /// For each name of [`vite_config_names`], whether that file exists here.
    pub markers: Vec<bool>,
}

/// Some flag of `flags` is set.
pub open spec fn any_set(flags: Seq<bool>) -> bool {
    exists|i: int| 0 <= i < flags.len() && flags[i]
}

/// The project directory among `probes`, which run from the current
/// directory upwards: the first one that holds a marker file. The walk ends
/// without a result at the root, which is not looked into, and at a marked
/// directory whose path is not text.
pub open spec fn detected_directory(probes: Seq<DirProbe>) -> Option<Seq<char>>
    decreases probes.len(),
{
    if probes.len() == 0 {
        None
    } else if probes[0].is_root {
        None
    } else if any_set(probes[0].markers@) {
        opt_text(probes[0].path)
    } else {
        detected_directory(probes.drop_first())
    }
}

/// The file names that mark a directory as the project's.
pub fn vite_config_names() -> (names: Vec<String>)
    ensures
        names@.len() == 4,
        names@[0]@ == "vite.config.ts"@,
        names@[1]@ == "vite.config.js"@,
        names@[2]@ == "vite.config.mts"@,
        names@[3]@ == "vite.config.mjs"@,
{
    let mut names: Vec<String> = Vec::new();
    names.push(String::from_str("vite.config.ts"));
    names.push(String::from_str("vite.config.js"));
    names.push(String::from_str("vite.config.mts"));
    names.push(String::from_str("vite.config.mjs"));
    names
}

fn any_flag(flags: &Vec<bool>) -> (hit: bool)
    ensures
        hit == any_set(flags@),
{
    let mut i: usize = 0;
    while i < flags.len()
        invariant
            i <= flags.len(),
            forall|j: int| 0 <= j < i ==> !flags@[j],
        decreases flags.len() - i,
    {
        if flags[i] {
            return true;
        }
        i += 1;
    }
    false
}

/// Picks the project directory from what the walk up the directory tree saw.
pub fn try_find_vite_dir(probes: &Vec<DirProbe>) -> (found: Option<String>)
    ensures
        opt_text(found) == detected_directory(probes@),
{
    let mut i: usize = 0;
    assert(probes@.skip(0) == probes@);
    while i < probes.len()
        invariant
            i <= probes.len(),
            detected_directory(probes@) == detected_directory(probes@.skip(i as int)),
        decreases probes.len() - i,
    {
        let probe = &probes[i];
        assert(probes@.skip(i as int)[0] == probes@[i as int]);
        if probe.is_root {
            return None;
        }
        if any_flag(&probe.markers) {
            return match &probe.path {
                Some(p) => Some(p.clone()),
                None => None,
            };
        }
        assert(probes@.skip(i as int).drop_first() == probes@.skip(i + 1));
        i += 1;
    }
    None
}

/// A directory that was detected is the first probe that holds a marker
/// file: no probe before it holds one or is the root, it is not the root
/// itself, and its path is the result.
pub proof fn lemma_detected_is_first_marked(probes: Seq<DirProbe>)
    requires
        detected_directory(probes) is Some,
    ensures
        exists|i: int|
            0 <= i < probes.len() && any_set(#[trigger] probes[i].markers@) && !probes[i].is_root
                && opt_text(probes[i].path) == detected_directory(probes) && forall|j: int|
                0 <= j < i ==> !(#[trigger] probes[j]).is_root && !any_set(probes[j].markers@),
    decreases probes.len(),
{
    if any_set(probes[0].markers@) {
        assert(0 <= 0 < probes.len() && any_set(probes[0].markers@) && !probes[0].is_root);
    } else {
        let rest = probes.drop_first();
        lemma_detected_is_first_marked(rest);
        let k = choose|i: int|
            0 <= i < rest.len() && any_set(#[trigger] rest[i].markers@) && !rest[i].is_root
                && opt_text(rest[i].path) == detected_directory(rest) && forall|j: int|
                0 <= j < i ==> !(#[trigger] rest[j]).is_root && !any_set(rest[j].markers@);
        assert(rest[k] == probes[k + 1]);
        assert forall|j: int| 0 <= j < k + 1 implies !(#[trigger] probes[j]).is_root && !any_set(
            probes[j].markers@,
        ) by {
            if j > 0 {
                assert(rest[j - 1] == probes[j]);
            }
        }
        assert(any_set(probes[k + 1].markers@));
    }
}

/// Nothing is detected where no probe holds a marker file.
pub proof fn lemma_nothing_detected_without_marker(probes: Seq<DirProbe>)
    requires
        forall|i: int| 0 <= i < probes.len() ==> !any_set(#[trigger] probes[i].markers@),
    ensures
        detected_directory(probes) is None,
    decreases probes.len(),
{
    if probes.len() > 0 && !probes[0].is_root {
        let rest = probes.drop_first();
        assert forall|i: int| 0 <= i < rest.len() implies !any_set(#[trigger] rest[i].markers@) by {
            assert(rest[i] == probes[i + 1]);
        }
        lemma_nothing_detected_without_marker(rest);
    }
}

} // verus!
