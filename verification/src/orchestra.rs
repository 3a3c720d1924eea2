//! Orchestration of the sandboxes of a project: which to start and which to stop
//! so that the running sandboxes match the configuration and the request, and
//! the columns of the status table.

use vstd::prelude::*;
use vstd::string::StringExecFns;

use crate::config::{has_sandbox, validate_sandbox_names, missing_names, joined, Microsandbox, Sandbox};
use crate::error::MicrosandboxError;
use crate::text::{
    after_last, clone_strings, decimal_string, decimal_text, has_prefix, str_equal, strip_prefix,
    suffix_after_last,
};

verus! {

/// A running sandbox: its name and the process id of its supervisor.
pub struct RunningSandbox {
    /// The sandbox's name
    pub name: String,
    /// The supervisor's process id
    pub supervisor_pid: u32,
}

/// The name occurs in the list.
pub open spec fn lists_name(names: Seq<String>, name: Seq<char>) -> bool {
    exists|i: int| 0 <= i < names.len() && (#[trigger] names[i])@ == name
}

/// A sandbox of this name runs.
pub open spec fn runs(running: Seq<RunningSandbox>, name: Seq<char>) -> bool {
    exists|i: int| 0 <= i < running.len() && (#[trigger] running[i]).name@ == name
}

fn name_listed(names: &Vec<String>, name: &str) -> (r: bool)
    ensures
        r == lists_name(names@, name@),
{
    let mut i: usize = 0;
    while i < names.len()
        invariant
            i <= names@.len(),
            forall|j: int| 0 <= j < i ==> (#[trigger] names@[j])@ != name@,
        decreases names@.len() - i,
    {
        if str_equal(names[i].as_str(), name) {
            return true;
        }
        i = i + 1;
    }
    false
}

fn name_runs(running: &Vec<RunningSandbox>, name: &str) -> (r: bool)
    ensures
        r == runs(running@, name@),
{
    let mut i: usize = 0;
    while i < running.len()
        invariant
            i <= running@.len(),
            forall|j: int| 0 <= j < i ==> (#[trigger] running@[j]).name@ != name@,
        decreases running@.len() - i,
    {
        if str_equal(running[i].name.as_str(), name) {
            return true;
        }
        i = i + 1;
    }
    false
}

/// The sandboxes a request names: all configured sandboxes where it names
/// none; else the names it gives, which must all be configured.
pub fn selected_sandboxes(
    sandbox_names: &Vec<String>,
    config: &Microsandbox,
    config_path: &str,
) -> (r: Result<Vec<String>, MicrosandboxError>)
    ensures
        sandbox_names@.len() == 0 ==> (r matches Ok(v) && v@.len() == config.sandboxes@.len()
            && forall|i: int| 0 <= i < v@.len() ==> (#[trigger] v@[i])@ == config.sandboxes@[i].0@),
        sandbox_names@.len() > 0 && missing_names(sandbox_names@, config.sandboxes@).len() == 0 ==> (r
            matches Ok(v) && v@ == sandbox_names@),
        sandbox_names@.len() > 0 && missing_names(sandbox_names@, config.sandboxes@).len() > 0 ==> (r matches Err(
            MicrosandboxError::SandboxNotFoundInConfig(names, path),
        ) && names@ == joined(missing_names(sandbox_names@, config.sandboxes@)) && path@ == config_path@),
{
    if sandbox_names.len() == 0 {
        let mut all: Vec<String> = Vec::new();
        let mut i: usize = 0;
        while i < config.sandboxes.len()
            invariant
                i <= config.sandboxes@.len(),
                all@.len() == i,
                forall|j: int| 0 <= j < i ==> (#[trigger] all@[j])@ == config.sandboxes@[j].0@,
            decreases config.sandboxes@.len() - i,
        {
            all.push(config.sandboxes[i].0.clone());
            i = i + 1;
        }
        Ok(all)
    } else {
        validate_sandbox_names(sandbox_names, config, config_path)?;
        Ok(clone_strings(sandbox_names))
    }
}

/// A configured sandbox is started: it is selected and does not run yet.
pub open spec fn starts(selected: Seq<String>, running: Seq<RunningSandbox>, entry: (String, Sandbox)) -> bool {
    lists_name(selected, entry.0@) && !runs(running, entry.0@)
}

/// The configured sandboxes to start, in the configuration's order: those
/// selected that do not run yet, each as often as it is configured.
pub fn sandboxes_to_start(
    config: &Microsandbox,
    selected: &Vec<String>,
    running: &Vec<RunningSandbox>,
) -> (r: Vec<String>)
    ensures
        r@.map_values(|s: String| s@) == config.sandboxes@.filter(
            |e: (String, Sandbox)| starts(selected@, running@, e),
        ).map_values(|e: (String, Sandbox)| e.0@),
        forall|i: int|
            0 <= i < r@.len() ==> has_sandbox(config.sandboxes@, (#[trigger] r@[i])@) && lists_name(
                selected@,
                r@[i]@,
            ) && !runs(running@, r@[i]@),
        forall|j: int|
            0 <= j < config.sandboxes@.len() && lists_name(selected@, (#[trigger] config.sandboxes@[j]).0@)
                && !runs(running@, config.sandboxes@[j].0@) ==> lists_name(r@, config.sandboxes@[j].0@),
{
    let ghost keep = |e: (String, Sandbox)| starts(selected@, running@, e);
    let mut out: Vec<String> = Vec::new();
    let mut i: usize = 0;
    while i < config.sandboxes.len()
        invariant
            i <= config.sandboxes@.len(),
            keep == (|e: (String, Sandbox)| starts(selected@, running@, e)),
            out@.map_values(|s: String| s@) == config.sandboxes@.take(i as int).filter(keep).map_values(
                |e: (String, Sandbox)| e.0@,
            ),
            forall|k: int|
                0 <= k < out@.len() ==> has_sandbox(config.sandboxes@, (#[trigger] out@[k])@) && lists_name(
                    selected@,
                    out@[k]@,
                ) && !runs(running@, out@[k]@),
            forall|j: int|
                0 <= j < i && lists_name(selected@, (#[trigger] config.sandboxes@[j]).0@) && !runs(
                    running@,
                    config.sandboxes@[j].0@,
                ) ==> lists_name(out@, config.sandboxes@[j].0@),
        decreases config.sandboxes@.len() - i,
    {
        proof {
            reveal(Seq::filter);
            assert(config.sandboxes@.take(i + 1).drop_last() =~= config.sandboxes@.take(i as int));
            assert(config.sandboxes@.take(i + 1).last() == config.sandboxes@[i as int]);
        }
        let name = config.sandboxes[i].0.as_str();
        if name_listed(selected, name) && !name_runs(running, name) {
            let ghost before = out@;
            out.push(config.sandboxes[i].0.clone());
            proof {
                assert(out@[before.len() as int] == config.sandboxes@[i as int].0);
                assert(out@.map_values(|s: String| s@) =~= before.map_values(|s: String| s@).push(
                    config.sandboxes@[i as int].0@,
                ));
                assert forall|j: int|
                    0 <= j < i + 1 && lists_name(selected@, (#[trigger] config.sandboxes@[j]).0@)
                        && !runs(running@, config.sandboxes@[j].0@) implies lists_name(
                    out@,
                    config.sandboxes@[j].0@,
                ) by {
                    if j < i {
                        let k = choose|k: int| 0 <= k < before.len() && (#[trigger] before[k])@
                            == config.sandboxes@[j].0@;
                        assert(out@[k] == before[k]);
                    } else {
                        assert(out@[before.len() as int]@ == config.sandboxes@[j].0@);
                    }
                }
            }
        }
        i = i + 1;
    }
    proof {
        assert(config.sandboxes@.take(config.sandboxes@.len() as int) =~= config.sandboxes@);
    }
    out
}

/// The running sandboxes that `down` stops: those selected that are configured.
/// Returns the process ids of their supervisors, in the order they run.
pub fn sandboxes_to_stop(
    config: &Microsandbox,
    selected: &Vec<String>,
    running: &Vec<RunningSandbox>,
) -> (r: Vec<u32>)
    ensures
        r@ == running@.filter(
            |s: RunningSandbox| lists_name(selected@, s.name@) && has_sandbox(config.sandboxes@, s.name@),
        ).map_values(|s: RunningSandbox| s.supervisor_pid),
{
    let ghost keep = |s: RunningSandbox| lists_name(selected@, s.name@) && has_sandbox(config.sandboxes@, s.name@);
    let mut out: Vec<u32> = Vec::new();
    let mut i: usize = 0;
    while i < running.len()
        invariant
            i <= running@.len(),
            keep == (|s: RunningSandbox| lists_name(selected@, s.name@) && has_sandbox(config.sandboxes@, s.name@)),
            out@ == running@.take(i as int).filter(keep).map_values(|s: RunningSandbox| s.supervisor_pid),
        decreases running@.len() - i,
    {
        let name = running[i].name.as_str();
        let stop = name_listed(selected, name) && config.get_sandbox(name).is_some();
        assert(running@.take(i + 1).drop_last() =~= running@.take(i as int));
        proof {
            reveal(Seq::filter);
            assert(running@.take(i + 1).drop_last() =~= running@.take(i as int));
        }
        if stop {
            out.push(running[i].supervisor_pid);
        }
        proof {
            assert(out@ =~= running@.take(i + 1).filter(keep).map_values(|s: RunningSandbox| s.supervisor_pid));
        }
        i = i + 1;
    }
    assert(running@.take(running@.len() as int) =~= running@);
    out
}

/// The running sandboxes that `apply` stops: those no longer configured.
/// Returns the process ids of their supervisors, in the order they run.
pub fn unconfigured_running(config: &Microsandbox, running: &Vec<RunningSandbox>) -> (r: Vec<u32>)
    ensures
        r@ == running@.filter(|s: RunningSandbox| !has_sandbox(config.sandboxes@, s.name@)).map_values(
            |s: RunningSandbox| s.supervisor_pid,
        ),
{
    let ghost keep = |s: RunningSandbox| !has_sandbox(config.sandboxes@, s.name@);
    let mut out: Vec<u32> = Vec::new();
    let mut i: usize = 0;
    while i < running.len()
        invariant
            i <= running@.len(),
            keep == (|s: RunningSandbox| !has_sandbox(config.sandboxes@, s.name@)),
            out@ == running@.take(i as int).filter(keep).map_values(|s: RunningSandbox| s.supervisor_pid),
        decreases running@.len() - i,
    {
        let stop = config.get_sandbox(running[i].name.as_str()).is_none();
        proof {
            reveal(Seq::filter);
            assert(running@.take(i + 1).drop_last() =~= running@.take(i as int));
        }
        if stop {
            out.push(running[i].supervisor_pid);
        }
        proof {
            assert(out@ =~= running@.take(i + 1).filter(keep).map_values(|s: RunningSandbox| s.supervisor_pid));
        }
        i = i + 1;
    }
    assert(running@.take(running@.len() as int) =~= running@);
    out
}

//--------------------------------------------------------------------------------------------------
// Running sandboxes in the foreground
//--------------------------------------------------------------------------------------------------

/// The colours that the output of sandboxes run together is told apart by.
#[derive(Clone, Copy, Debug, PartialEq, Eq, Structural)]
pub enum OutputColor {
    /// Green
    Green,
    /// Blue
    Blue,
    /// Red
    Red,
    /// Yellow
    Yellow,
    /// Magenta
    Magenta,
    /// Cyan
    Cyan,
    /// White
    White,
}

/// The colour of the sandbox at position `i`: the seven colours in turn.
pub open spec fn color_at(i: nat) -> OutputColor {
    let k = i % 7;
    if k == 0 {
        OutputColor::Green
    } else if k == 1 {
        OutputColor::Blue
    } else if k == 2 {
        OutputColor::Red
    } else if k == 3 {
        OutputColor::Yellow
    } else if k == 4 {
        OutputColor::Magenta
    } else if k == 5 {
        OutputColor::Cyan
    } else {
        OutputColor::White
    }
}

/// The colour of the sandbox at position `i`.
pub fn prefix_color(i: usize) -> (r: OutputColor)
    ensures
        r == color_at(i as nat),
{
    let k = i % 7;
    if k == 0 {
        OutputColor::Green
    } else if k == 1 {
        OutputColor::Blue
    } else if k == 2 {
        OutputColor::Red
    } else if k == 3 {
        OutputColor::Yellow
    } else if k == 4 {
        OutputColor::Magenta
    } else if k == 5 {
        OutputColor::Cyan
    } else {
        OutputColor::White
    }
}

/// A line of a sandbox's output, prefixed with the sandbox's name and a bar.
pub fn prefixed_line(name: &str, line: &str) -> (r: String)
    ensures
        r@ == name@ + " | "@ + line@,
{
    String::from_str(name).concat(" | ").concat(line)
}

/// How a sandbox run in the foreground ended.
pub struct ExitReport {
    /// The sandbox's name
    pub name: String,
    /// Its exit code (-1 where it has none)
    pub exit_code: i32,
    /// Whether it succeeded
    pub success: bool,
}

/// The report of a sandbox whose process ended with this exit code (if any)
/// and success, or whose end could not be waited for (`None`).
pub fn exit_report(name: String, status: Option<(Option<i32>, bool)>) -> (r: ExitReport)
    ensures
        r.name == name,
        match status {
            Some((code, success)) => r.exit_code == match code {
                Some(c) => c,
                None => -1i32,
            } && r.success == success,
            None => r.exit_code == -1 && !r.success,
        },
{
    match status {
        Some((code, success)) => ExitReport {
            name,
            exit_code: match code {
                Some(c) => c,
                None => -1,
            },
            success,
        },
        None => ExitReport { name, exit_code: -1, success: false },
    }
}

/// The failures among the reports, in order, each as `name | exit code: N`,
/// joined by `, `.
pub open spec fn failures_text(reports: Seq<ExitReport>) -> Seq<char>
    decreases reports.len(),
{
    if reports.len() == 0 {
        Seq::empty()
    } else {
        let rest = failures_text(reports.drop_last());
        let last = reports.last();
        if last.success {
            rest
        } else if rest.len() == 0 {
            failure_entry(last)
        } else {
            rest + ", "@ + failure_entry(last)
        }
    }
}

/// One failure of the list.
pub open spec fn failure_entry(r: ExitReport) -> Seq<char> {
    r.name@ + " | exit code: "@ + crate::server::management::signed_text(r.exit_code as int)
}

/// Some report is a failure.
pub open spec fn any_failed(reports: Seq<ExitReport>) -> bool {
    exists|i: int| 0 <= i < reports.len() && !(#[trigger] reports[i]).success
}

proof fn lemma_failures_text_empty(reports: Seq<ExitReport>)
    ensures
        failures_text(reports).len() == 0 <==> !any_failed(reports),
    decreases reports.len(),
{
    if reports.len() > 0 {
        lemma_failures_text_empty(reports.drop_last());
        if any_failed(reports) && reports.last().success {
            let i = choose|i: int| 0 <= i < reports.len() && !(#[trigger] reports[i]).success;
            assert(reports.drop_last()[i] == reports[i]);
        }
        if any_failed(reports.drop_last()) {
            let i = choose|i: int| 0 <= i < reports.drop_last().len() && !(#[trigger] reports.drop_last()[i]).success;
            assert(reports[i] == reports.drop_last()[i]);
        }
        if !reports.last().success {
            assert(!reports[reports.len() - 1].success);
        }
    }
}

/// The outcome of running sandboxes in the foreground: an error naming every
/// sandbox that failed, with its exit code.
pub fn foreground_outcome(reports: &Vec<ExitReport>) -> (r: Result<(), MicrosandboxError>)
    ensures
        r is Ok <==> !any_failed(reports@),
        r matches Err(e) ==> (e matches MicrosandboxError::SupervisorError(m) && m@
            == "The following sandboxes failed: "@ + failures_text(reports@)),
{
    let mut text = String::new();
    let mut i: usize = 0;
    while i < reports.len()
        invariant
            i <= reports@.len(),
            text@ == failures_text(reports@.take(i as int)),
        decreases reports@.len() - i,
    {
        assert(reports@.take(i + 1).drop_last() =~= reports@.take(i as int));
        let report = &reports[i];
        if !report.success {
            let entry = String::from_str(report.name.as_str()).concat(" | exit code: ").concat(
                crate::server::management::signed_string(report.exit_code).as_str(),
            );
            if text.unicode_len() == 0 {
                text = entry;
            } else {
                text = text.concat(", ").concat(entry.as_str());
            }
        }
        i = i + 1;
    }
    assert(reports@.take(reports@.len() as int) =~= reports@);
    proof {
        lemma_failures_text_empty(reports@);
    }
    if text.unicode_len() == 0 {
        Ok(())
    } else {
        Err(MicrosandboxError::SupervisorError(String::from_str("The following sandboxes failed: ").concat(text.as_str())))
    }
}

//--------------------------------------------------------------------------------------------------
// The status table
//--------------------------------------------------------------------------------------------------

/// The status column of a sandbox.
pub fn status_column(running: bool) -> (r: &'static str)
    ensures
        r@ == if running {
            "RUNNING"@
        } else {
            "STOPPED"@
        },
{
    if running {
        "RUNNING"
    } else {
        "STOPPED"
    }
}

/// The process-id column of a sandbox: supervisor and microVM (0 where
/// unknown) while it runs, `-` otherwise.
pub fn pids_column(running: bool, supervisor_pid: Option<u32>, microvm_pid: Option<u32>) -> (r: String)
    ensures
        running ==> r@ == decimal_text(
            match supervisor_pid {
                Some(p) => p as nat,
                None => 0,
            },
        ) + "/"@ + decimal_text(
            match microvm_pid {
                Some(p) => p as nat,
                None => 0,
            },
        ),
        !running ==> r@ == "-"@,
{
    if running {
        let s = match supervisor_pid {
            Some(p) => p,
            None => 0,
        };
        let m = match microvm_pid {
            Some(p) => p,
            None => 0,
        };
        decimal_string(s as u64).concat("/").concat(decimal_string(m as u64).as_str())
    } else {
        String::from_str("-")
    }
}

/// The memory column of a sandbox: its memory in MiB, or `-`.
pub fn memory_column(memory_usage: Option<u64>) -> (r: String)
    ensures
        r@ == match memory_usage {
            Some(m) => decimal_text(m as nat) + " MiB"@,
            None => "-"@,
        },
{
    match memory_usage {
        Some(m) => decimal_string(m).concat(" MiB"),
        None => String::from_str("-"),
    }
}

/// The header printed above a project's sandboxes.
pub fn project_header(project: &str) -> (r: String)
    ensures
        r@ == "PROJECT: "@ + project@,
{
    String::from_str("PROJECT: ").concat(project)
}


//--------------------------------------------------------------------------------------------------
// Measuring a running sandbox
//--------------------------------------------------------------------------------------------------

/// The path whose size is a running sandbox's disk usage, from its recorded
/// root filesystem: the last (writable) layer of an overlay, or the native root.
pub open spec fn measured_path(rootfs_paths: Seq<char>) -> Option<Seq<char>> {
    if has_prefix(rootfs_paths, "overlayfs:"@) {
        Some(after_last(rootfs_paths, ':'))
    } else if has_prefix(rootfs_paths, "native:"@) {
        Some(rootfs_paths.subrange(7, rootfs_paths.len() as int))
    } else {
        None
    }
}

/// The path whose size is a running sandbox's disk usage.
pub fn disk_usage_path(rootfs_paths: &str) -> (r: Option<String>)
    ensures
        match measured_path(rootfs_paths@) {
            Some(p) => r matches Some(s) && s@ == p,
            None => r is None,
        },
{
    proof {
        reveal_strlit("native:");
    }
    if crate::text::starts_with(rootfs_paths, "overlayfs:") {
        Some(String::from_str(suffix_after_last(rootfs_paths, ':')))
    } else {
        match strip_prefix(rootfs_paths, "native:") {
            Some(path) => Some(String::from_str(path)),
            None => None,
        }
    }
}

/// A process's resident memory in MiB.
pub fn memory_mib(rss_bytes: u64) -> (r: u64)
    ensures
        r == rss_bytes / 1048576u64,
{
    rss_bytes / 1048576u64
}


//--------------------------------------------------------------------------------------------------
// Sandbox status
//--------------------------------------------------------------------------------------------------

/// A running sandbox as the sandbox database records it.
pub struct SandboxRecord {
    /// The sandbox's name
    pub name: String,
    /// The supervisor's process id
    pub supervisor_pid: u32,
    /// The microVM's process id
    pub microvm_pid: u32,
    /// The root filesystem paths (`native:<path>` or `overlayfs:<layers>`)
    pub rootfs_paths: String,
}

/// What the status of a sandbox reports besides its measurements: whether it
/// runs, and for a running sandbox its processes and root filesystem.
pub struct SandboxState {
    /// The sandbox's name
    pub name: String,
    /// Whether the sandbox runs
    pub running: bool,
    /// The supervisor's process id, where it runs
    pub supervisor_pid: Option<u32>,
    /// The microVM's process id, where it runs
    pub microvm_pid: Option<u32>,
    /// The root filesystem paths, where it runs
    pub rootfs_paths: Option<String>,
}

/// The record of the sandbox `name`: the last one of that name, as the map
/// built from the records keeps it.
pub open spec fn record_of(records: Seq<SandboxRecord>, name: Seq<char>) -> Option<SandboxRecord>
    decreases records.len(),
{
    if records.len() == 0 {
        None
    } else if records.last().name@ == name {
        Some(records.last())
    } else {
        record_of(records.drop_last(), name)
    }
}

/// The state reported of a sandbox, as its name, running flag, process ids and
/// root filesystem paths.
pub open spec fn state_view(s: SandboxState) -> (Seq<char>, bool, Option<u32>, Option<u32>, Option<Seq<char>>) {
    (s.name@, s.running, s.supervisor_pid, s.microvm_pid, match s.rootfs_paths {
        Some(p) => Some(p@),
        None => None,
    })
}

/// The state of the sandbox `name` given the records of running sandboxes:
/// running with the record's processes and paths where there is a record, else
/// not running, with nothing more.
pub open spec fn state_of(records: Seq<SandboxRecord>, name: Seq<char>) -> (Seq<char>, bool, Option<u32>, Option<u32>, Option<Seq<char>>) {
    match record_of(records, name) {
        Some(rec) => (name, true, Some(rec.supervisor_pid), Some(rec.microvm_pid), Some(rec.rootfs_paths@)),
        None => (name, false, None, None, None),
    }
}

fn find_record(records: &Vec<SandboxRecord>, name: &str) -> (r: Option<usize>)
    ensures
        match record_of(records@, name@) {
            Some(rec) => r matches Some(i) && i < records@.len() && records@[i as int] == rec,
            None => r is None,
        },
{
    let mut k: usize = records.len();
    proof {
        assert(records@.take(k as int) =~= records@);
    }
    while k > 0
        invariant
            k <= records@.len(),
            record_of(records@, name@) == record_of(records@.take(k as int), name@),
        decreases k,
    {
        proof {
            assert(records@.take(k as int).drop_last() =~= records@.take(k - 1));
            assert(records@.take(k as int).last() == records@[k - 1]);
        }
        if str_equal(records[k - 1].name.as_str(), name) {
            return Some(k - 1);
        }
        k = k - 1;
    }
    proof {
        assert(records@.take(0) =~= Seq::<SandboxRecord>::empty());
    }
    None
}

/// The state of each sandbox to check that is configured, in the order the
/// names are given: whether it runs, and for a running one the processes and
/// root filesystem its record gives.
pub fn sandbox_states(config: &Microsandbox, names: &Vec<String>, records: &Vec<SandboxRecord>) -> (r: Vec<
    SandboxState,
>)
    ensures
        r@.map_values(|s: SandboxState| state_view(s)) == names@.filter(
            |n: String| has_sandbox(config.sandboxes@, n@),
        ).map_values(|n: String| state_of(records@, n@)),
{
    let ghost keep = |n: String| has_sandbox(config.sandboxes@, n@);
    let mut out: Vec<SandboxState> = Vec::new();
    let mut i: usize = 0;
    while i < names.len()
        invariant
            i <= names@.len(),
            keep == (|n: String| has_sandbox(config.sandboxes@, n@)),
            out@.map_values(|s: SandboxState| state_view(s)) == names@.take(i as int).filter(keep).map_values(
                |n: String| state_of(records@, n@),
            ),
        decreases names@.len() - i,
    {
        proof {
            reveal(Seq::filter);
            assert(names@.take(i + 1).drop_last() =~= names@.take(i as int));
            assert(names@.take(i + 1).last() == names@[i as int]);
        }
        let name = names[i].as_str();
        if config.get_sandbox(name).is_some() {
            let ghost before = out@;
            let state = match find_record(records, name) {
                Some(k) => SandboxState {
                    name: names[i].clone(),
                    running: true,
                    supervisor_pid: Some(records[k].supervisor_pid),
                    microvm_pid: Some(records[k].microvm_pid),
                    rootfs_paths: Some(records[k].rootfs_paths.clone()),
                },
                None => SandboxState {
                    name: names[i].clone(),
                    running: false,
                    supervisor_pid: None,
                    microvm_pid: None,
                    rootfs_paths: None,
                },
            };
            out.push(state);
            proof {
                assert(out@.map_values(|s: SandboxState| state_view(s)) =~= before.map_values(
                    |s: SandboxState| state_view(s),
                ).push(state_of(records@, names@[i as int]@)));
            }
        }
        i = i + 1;
    }
    proof {
        assert(names@.take(names@.len() as int) =~= names@);
    }
    out
}

} // verus!
