//! The record of one process: how it is put together from what the host
//! reported, how a refresh changes it, and when it counts as terminated.

use vstd::prelude::*;
use crate::types::Pid;
use crate::types::Gid;
use crate::types::Uid;
use crate::types::Signal;
use crate::types::DiskUsage;
use crate::types::ProcessStatus;
use crate::types::ProcessRefreshKind;
use crate::handle::Access;
use crate::handle::HandleWrapper;
use crate::params::LocateError;
use crate::params::ReadError;
use crate::params::get_cwd;
use crate::params::get_proc_env;
use crate::params::get_cmdline_from_buffer;
use crate::text::utf16_lossy;
use crate::text::until_terminator;
use crate::text::environment_entries;
use crate::text::decoded;
use crate::text::text_views;
use crate::text::unit_views;
use crate::text::null_terminated_wchar_to_string;
use crate::metrics::FileTime;
use crate::metrics::CpuTimes;
use crate::metrics::CpuSample;
use crate::metrics::CpuUsage;
use crate::metrics::IoCounters;
use crate::metrics::MemoryCounters;
use crate::metrics::CPUsageCalculationValues;
use crate::metrics::filetime_ticks;
use crate::metrics::filetime_to_u64;
use crate::metrics::start_of;
use crate::metrics::run_time_at;
use crate::metrics::clamped_sub;
use crate::metrics::busy_ticks;
use crate::metrics::elapsed_ticks;
use crate::metrics::kept_values;
use crate::metrics::cpu_interval;
use crate::metrics::get_start_time;
use crate::metrics::get_start_and_run_time;
use crate::metrics::lemma_run_time_is_monotonic;
use crate::metrics::lemma_cpu_usage_is_not_negative;
use crate::metrics::lemma_cpu_usage_is_bounded;

verus! {

/// How long a caller that waits for a process sleeps between two looks at
/// it, in milliseconds.
pub const WAIT_INTERVAL_MILLIS: u64 = 10;

/// The path that `PathBuf::pop` of std leaves of a path: the path without
/// its last component, or the path itself where it has none. What a
/// component is, is for the host's notion of a path to say.
pub uninterp spec fn path_parent(path: Seq<char>) -> Seq<char>;

/// The last component that `Path::file_name` of std finds in a path, if it
/// finds one. What a component is, is for the host's notion of a path to
/// say.
pub uninterp spec fn path_file_name(path: Seq<char>) -> Option<Seq<char>>;

/// Calls `PathBuf::pop` of std on a copy of the path and gives what is
/// left. The result depends on the path alone and is known to contracts as
/// `path_parent`.
#[verifier::external_body]
fn parent_directory(path: &str) -> (parent: String)
    ensures
        parent@ == path_parent(path@),
{
    let mut buffer = std::path::PathBuf::from(path);
    buffer.pop();
    buffer.to_string_lossy().into_owned()
}

/// Calls `Path::file_name` of std. The result depends on the path alone
/// and is known to contracts as `path_file_name`.
#[verifier::external_body]
fn file_name_of(path: &str) -> (name: Option<String>)
    ensures
        match name {
            Some(text) => path_file_name(path@) == Some(text@),
            None => path_file_name(path@) is None,
        },
{
    match std::path::Path::new(path).file_name() {
        Some(name) => Some(name.to_string_lossy().into_owned()),
        None => None,
    }
}

/// The name of a process whose image path a query gave as `image_path`:
/// the file name of the text that stands before the terminator. Without a
/// path there is no name.
pub open spec fn process_name_of(image_path: Option<Vec<u16>>) -> Option<Seq<char>> {
    match image_path {
        Some(units) => path_file_name(utf16_lossy(until_terminator(units@))),
        None => None,
    }
}

/// The name of a process: the file name of the image path that a query for
/// it gave. There is none without a path, and none where the path has no
/// file name.
pub fn get_process_name(image_path: Option<Vec<u16>>) -> (name: Option<String>)
    ensures
        match name {
            Some(text) => process_name_of(image_path) == Some(text@),
            None => process_name_of(image_path) is None,
        },
{
    match image_path {
        Some(units) => {
            let path: String = null_terminated_wchar_to_string(units.as_slice());
            file_name_of(path.as_str())
        },
        None => None,
    }
}

/// The path of the executable, from the buffer that the host filled with
/// it: the text before the terminator.
pub fn get_exe(buffer: &[u16]) -> (exe: String)
    ensures
        exe@ == utf16_lossy(until_terminator(buffer@)),
{
    null_terminated_wchar_to_string(buffer)
}

/// The path of the executable of a process that could not be opened: there
/// is none to be had.
pub fn get_executable_path(_pid: Pid) -> (exe: String)
    ensures
        exe@ == Seq::<char>::empty(),
{
    String::new()
}

/// Whether the owner of a process is read: it is where the caller asked
/// for it and the handle has full rights.
pub open spec fn reads_owner(access: Access, kind: ProcessRefreshKind) -> bool {
    access == Access::Full && kind.user
}

/// Whether command line, environment and working directory are read: they
/// are where the caller asked for them and the handle has full rights, since
/// they lie in the target's memory.
pub open spec fn reads_attributes(access: Access, kind: ProcessRefreshKind) -> bool {
    access == Access::Full && kind.attributes
}

/// The owner of a process, from the bytes of the security identifier that
/// its token gave. There is none where none was to be read, or none was
/// had.
pub fn get_process_user_id(access: Access, refresh_kind: ProcessRefreshKind, sid: Option<Vec<u8>>)
    -> (owner: Option<Uid>)
    ensures
        match owner {
            Some(uid) => reads_owner(access, refresh_kind) && sid == Some(uid.sid),
            None => !reads_owner(access, refresh_kind) || sid is None,
        },
{
    let wanted: bool = match access {
        Access::Full => refresh_kind.user(),
        Access::Limited => false,
    };
    if !wanted {
        return None;
    }
    match sid {
        Some(bytes) => Some(Uid { sid: bytes }),
        None => None,
    }
}

/// What is to be read of a process that has been opened.
#[derive(Clone, Copy, Debug, PartialEq, Eq, Structural)]
pub struct OpenPlan {
    /// Ask for the path of the image and for that of the executable.
    pub identity: bool,
    /// Locate the parameter block and read what it points to.
    pub attributes: bool,
    /// Ask the token of the process for its owner.
    pub owner: bool,
}

/// Says what to read of a process that was opened with the rights
/// `access`, so that no other call is made. What the plan leaves out, a
/// record takes from no observation.
pub fn open_plan(access: Access, refresh_kind: ProcessRefreshKind) -> (plan: OpenPlan)
    ensures
        plan == (OpenPlan {
            identity: refresh_kind.identity,
            attributes: reads_attributes(access, refresh_kind),
            owner: reads_owner(access, refresh_kind),
        }),
{
    let full: bool = match access {
        Access::Full => true,
        Access::Limited => false,
    };
    OpenPlan {
        identity: refresh_kind.identity(),
        attributes: full && refresh_kind.attributes(),
        owner: full && refresh_kind.user(),
    }
}

/// What the reads of a target's parameter block gave.
#[derive(Debug)]
pub struct Attributes {
    /// The command line as the host split it, or `None` where it could not
    /// be had or split.
    pub command_line: Option<Vec<Vec<u16>>>,
    /// The environment block.
    pub environment: Result<Vec<u16>, ReadError>,
    /// The path of the working directory.
    pub current_directory: Result<Vec<u16>, ReadError>,
}

/// What the host reported of a process that was opened.
#[derive(Debug)]
pub struct Observation {
    /// The buffer that holds the path of the executable. It is empty where
    /// the path was not asked for or not had.
    pub exe: Vec<u16>,
    /// What the parameter block gave, or why it was not found.
    pub attributes: Result<Attributes, LocateError>,
    /// When the process was created; zero where that is not known.
    pub creation: FileTime,
    /// The bytes of the owner's security identifier.
    pub owner: Option<Vec<u8>>,
}

/// The stages of a record's life.
#[derive(Clone, Copy, Debug, PartialEq, Eq, Structural)]
pub enum Lifecycle {
    /// The record was made and has not been refreshed.
    Open,
    /// The record has been refreshed at least once.
    Refreshed,
    /// The process is gone, or its identifier belongs to another process
    /// now. The record stays as it is, for good.
    Terminated,
}

/// What a look at a process through its handle showed.
#[derive(Clone, Copy, Debug, PartialEq, Eq, Structural)]
pub enum Liveness {
    /// Nobody looked: there is no handle to look through.
    Unobserved,
    /// The handle is that of a process that has exited.
    Exited,
    /// The process runs; it was created at the given time.
    Running(FileTime),
}

/// The exit code that the host reports of a process that still runs.
pub const STILL_ACTIVE: u32 = 259;

/// What a look at a process showed, from the exit code that the host
/// reported, if it reported one, and the time of creation: the process runs
/// if its exit code is `STILL_ACTIVE`, and has exited otherwise.
pub fn observe_liveness(exit_code: Option<u32>, creation: FileTime) -> (liveness: Liveness)
    ensures
        liveness == (if exit_code == Some(STILL_ACTIVE) {
            Liveness::Running(creation)
        } else {
            Liveness::Exited
        }),
{
    match exit_code {
        Some(code) => if code == STILL_ACTIVE {
            Liveness::Running(creation)
        } else {
            Liveness::Exited
        },
        None => Liveness::Exited,
    }
}

/// What the host reported for one refresh. Whatever `refresh_plan` did not
/// ask for is ignored.
#[derive(Clone, Copy, Debug, PartialEq, Eq, Structural)]
pub struct RefreshSample {
    pub liveness: Liveness,
    pub cpu: CpuTimes,
    pub io: Option<IoCounters>,
    pub memory: Option<MemoryCounters>,
}

/// The host calls that a refresh needs.
#[derive(Clone, Copy, Debug, PartialEq, Eq, Structural)]
pub struct RefreshPlan {
    /// Look whether the process runs, and when it was created.
    pub liveness: bool,
    /// Read the processor times of the process.
    pub process_times: bool,
    /// Read the processor times of the host.
    pub system_times: bool,
    /// Read the transfer counters of the process.
    pub io: bool,
    /// Read the memory counters of the process.
    pub memory: bool,
}

/// What a caller that waits for a process does next.
#[derive(Clone, Copy, Debug, PartialEq, Eq, Structural)]
pub enum WaitStep {
    /// Sleep for so many milliseconds, then look at the process again.
    Sleep(u64),
    /// Stop waiting.
    Finished,
}

/// The record of one process.
#[derive(Debug)]
pub struct ProcessInner {
    name: String,
    cmd: Vec<String>,
    exe: String,
    pid: Pid,
    user_id: Option<Uid>,
    environ: Vec<String>,
    cwd: String,
    root: String,
    memory: u64,
    virtual_memory: u64,
    parent: Option<Pid>,
    status: ProcessStatus,
    handle: Option<HandleWrapper>,
    cpu_calc_values: CPUsageCalculationValues,
    start_time: u64,
    run_time: u64,
    cpu_usage: CpuUsage,
    lifecycle: Lifecycle,
    old_read_bytes: u64,
    old_written_bytes: u64,
    read_bytes: u64,
    written_bytes: u64,
}

/// A record as plain values.
pub struct ProcessView {
    pub name: Seq<char>,
    pub cmd: Seq<Seq<char>>,
    pub exe: Seq<char>,
    pub pid: Pid,
    pub user_id: Option<Seq<u8>>,
    pub environ: Seq<Seq<char>>,
    pub cwd: Seq<char>,
    pub root: Seq<char>,
    pub memory: u64,
    pub virtual_memory: u64,
    pub parent: Option<Pid>,
    pub status: ProcessStatus,
    /// The value of the handle and its rights.
    pub handle: Option<(isize, Access)>,
    pub cpu_calc_values: CPUsageCalculationValues,
    pub start_time: u64,
    pub run_time: u64,
    pub cpu_usage: CpuUsage,
    pub lifecycle: Lifecycle,
    pub old_read_bytes: u64,
    pub old_written_bytes: u64,
    pub read_bytes: u64,
    pub written_bytes: u64,
}

impl View for ProcessInner {
    type V = ProcessView;

    closed spec fn view(&self) -> ProcessView {
        ProcessView {
            name: self.name@,
            cmd: text_views(self.cmd@),
            exe: self.exe@,
            pid: self.pid,
            user_id: match self.user_id {
                Some(uid) => Some(uid.sid@),
                None => None,
            },
            environ: text_views(self.environ@),
            cwd: self.cwd@,
            root: self.root@,
            memory: self.memory,
            virtual_memory: self.virtual_memory,
            parent: self.parent,
            status: self.status,
            handle: match self.handle {
                Some(handle) => Some((handle.value(), handle.rights())),
                None => None,
            },
            cpu_calc_values: self.cpu_calc_values,
            start_time: self.start_time,
            run_time: self.run_time,
            cpu_usage: self.cpu_usage,
            lifecycle: self.lifecycle,
            old_read_bytes: self.old_read_bytes,
            old_written_bytes: self.old_written_bytes,
            read_bytes: self.read_bytes,
            written_bytes: self.written_bytes,
        }
    }
}

impl ProcessView {
    /// What holds of every record, from its making on and through every
    /// refresh: it is that of a running process; without full rights it has
    /// no command line, environment, working directory or owner; and without
    /// a handle it has no executable, root directory or start time either.
    pub open spec fn wf(self) -> bool {
        &&& self.status == ProcessStatus::Run
        &&& !(self.handle matches Some(handle) && handle.1 == Access::Full) ==> {
            &&& self.cmd == Seq::<Seq<char>>::empty()
            &&& self.environ == Seq::<Seq<char>>::empty()
            &&& self.cwd == Seq::<char>::empty()
            &&& self.user_id is None
        }
        &&& self.handle is None ==> {
            &&& self.exe == Seq::<char>::empty()
            &&& self.root == Seq::<char>::empty()
            &&& self.start_time == 0
        }
    }
}

/// The command line of a record that is made from `seen`.
pub open spec fn observed_cmd(access: Access, kind: ProcessRefreshKind, seen: Observation) -> Seq<
    Seq<char>,
> {
    match seen.attributes {
        Ok(attributes) if reads_attributes(access, kind) => match attributes.command_line {
            Some(raw) => decoded(unit_views(raw@)),
            None => Seq::empty(),
        },
        _ => Seq::empty(),
    }
}

/// The environment of a record that is made from `seen`.
pub open spec fn observed_environ(access: Access, kind: ProcessRefreshKind, seen: Observation)
    -> Seq<Seq<char>> {
    match seen.attributes {
        Ok(attributes) if reads_attributes(access, kind) => match attributes.environment {
            Ok(raw) => decoded(environment_entries(raw@)),
            Err(_) => Seq::empty(),
        },
        _ => Seq::empty(),
    }
}

/// The working directory of a record that is made from `seen`.
pub open spec fn observed_cwd(access: Access, kind: ProcessRefreshKind, seen: Observation) -> Seq<
    char,
> {
    match seen.attributes {
        Ok(attributes) if reads_attributes(access, kind) => match attributes.current_directory {
            Ok(raw) => utf16_lossy(until_terminator(raw@)),
            Err(_) => Seq::empty(),
        },
        _ => Seq::empty(),
    }
}

/// The executable of a record that is made from `seen`.
pub open spec fn observed_exe(kind: ProcessRefreshKind, seen: Observation) -> Seq<char> {
    if kind.identity {
        utf16_lossy(until_terminator(seen.exe@))
    } else {
        Seq::empty()
    }
}

/// The root directory of a record that is made from `seen`: what is left
/// of the path of the executable without its last component.
pub open spec fn observed_root(kind: ProcessRefreshKind, seen: Observation) -> Seq<char> {
    if kind.identity {
        path_parent(observed_exe(kind, seen))
    } else {
        Seq::empty()
    }
}

/// The name of a record that is made for an identifier, from what the
/// query for the image path gave: the file name of that path, or nothing
/// where the name was not asked for, no path was had or the path has no file
/// name.
pub open spec fn observed_name(kind: ProcessRefreshKind, image_path: Option<Vec<u16>>) -> Seq<
    char,
> {
    match process_name_of(image_path) {
        Some(name) if kind.identity => name,
        _ => Seq::empty(),
    }
}

/// The owner of a record that is made from `seen`.
pub open spec fn observed_owner(access: Access, kind: ProcessRefreshKind, seen: Observation)
    -> Option<Seq<u8>> {
    match seen.owner {
        Some(sid) if reads_owner(access, kind) => Some(sid@),
        _ => None,
    }
}

/// The record of a process that was opened with `handle`, as made at `now`
/// from what the host reported.
pub open spec fn opened_view(
    pid: Pid,
    parent: Option<Pid>,
    memory: u64,
    virtual_memory: u64,
    name: Seq<char>,
    now: u64,
    kind: ProcessRefreshKind,
    handle: HandleWrapper,
    seen: Observation,
) -> ProcessView {
    let start = start_of(filetime_ticks(seen.creation) as u64);
    ProcessView {
        name,
        cmd: observed_cmd(handle.rights(), kind, seen),
        exe: observed_exe(kind, seen),
        pid,
        user_id: observed_owner(handle.rights(), kind, seen),
        environ: observed_environ(handle.rights(), kind, seen),
        cwd: observed_cwd(handle.rights(), kind, seen),
        root: observed_root(kind, seen),
        memory,
        virtual_memory,
        parent,
        status: ProcessStatus::Run,
        handle: Some((handle.value(), handle.rights())),
        cpu_calc_values: CPUsageCalculationValues {
            old_process_sys_cpu: 0,
            old_process_user_cpu: 0,
            old_system_sys_cpu: 0,
            old_system_user_cpu: 0,
        },
        start_time: start as u64,
        run_time: run_time_at(start, now as int) as u64,
        cpu_usage: CpuUsage { busy: 0, elapsed: 0, cores: 0 },
        lifecycle: Lifecycle::Open,
        old_read_bytes: 0,
        old_written_bytes: 0,
        read_bytes: 0,
        written_bytes: 0,
    }
}

/// The record of a process that could not be opened: it holds what the
/// caller knew of it and nothing else.
pub open spec fn unopened_view(
    pid: Pid,
    parent: Option<Pid>,
    memory: u64,
    virtual_memory: u64,
    name: Seq<char>,
) -> ProcessView {
    ProcessView {
        name,
        cmd: Seq::empty(),
        exe: Seq::empty(),
        pid,
        user_id: None,
        environ: Seq::empty(),
        cwd: Seq::empty(),
        root: Seq::empty(),
        memory,
        virtual_memory,
        parent,
        status: ProcessStatus::Run,
        handle: None,
        cpu_calc_values: CPUsageCalculationValues {
            old_process_sys_cpu: 0,
            old_process_user_cpu: 0,
            old_system_sys_cpu: 0,
            old_system_user_cpu: 0,
        },
        start_time: 0,
        run_time: 0,
        cpu_usage: CpuUsage { busy: 0, elapsed: 0, cores: 0 },
        lifecycle: Lifecycle::Open,
        old_read_bytes: 0,
        old_written_bytes: 0,
        read_bytes: 0,
        written_bytes: 0,
    }
}

/// Whether a look at the process shows that the record's process is no
/// more: it has exited, or the process behind the handle was created at
/// another time than the one on record, so that the identifier has gone to
/// another process. A record without a handle cannot tell.
pub open spec fn identity_lost(record: ProcessView, liveness: Liveness) -> bool {
    record.handle is Some && match liveness {
        Liveness::Unobserved => false,
        Liveness::Exited => true,
        Liveness::Running(creation) => start_of(filetime_ticks(creation) as u64)
            != record.start_time,
    }
}

/// The counters that a reading of the processor times stands for. A record
/// without a handle has no times of its own: they count as zero.
pub open spec fn cpu_sample_of(record: ProcessView, times: CpuTimes) -> CpuSample {
    CpuSample {
        process_sys: if record.handle is Some {
            filetime_ticks(times.process_sys) as u64
        } else {
            0
        },
        process_user: if record.handle is Some {
            filetime_ticks(times.process_user) as u64
        } else {
            0
        },
        system_sys: filetime_ticks(times.system_sys) as u64,
        system_user: filetime_ticks(times.system_user) as u64,
    }
}

/// The record after a reading of the processor times: its use is that of
/// the interval since the last reading, and the new counters are kept.
pub open spec fn with_cpu(record: ProcessView, nb_cpus: u64, times: CpuTimes) -> ProcessView {
    let sample = cpu_sample_of(record, times);
    ProcessView {
        cpu_calc_values: kept_values(sample),
        cpu_usage: CpuUsage {
            busy: busy_ticks(record.cpu_calc_values, sample) as u64,
            elapsed: elapsed_ticks(record.cpu_calc_values, sample) as u64,
            cores: nb_cpus,
        },
        ..record
    }
}

/// The record after a reading of the transfer counters: the totals so far
/// become the old ones and the counters the new totals. Without a handle or
/// without counters nothing changes.
pub open spec fn with_disk(record: ProcessView, counters: Option<IoCounters>) -> ProcessView {
    match counters {
        Some(found) if record.handle is Some => ProcessView {
            old_read_bytes: record.read_bytes,
            old_written_bytes: record.written_bytes,
            read_bytes: found.read_transfer_count,
            written_bytes: found.write_transfer_count,
            ..record
        },
        _ => record,
    }
}

/// The record after a reading of the memory counters. Without a handle or
/// without counters nothing changes.
pub open spec fn with_memory(record: ProcessView, counters: Option<MemoryCounters>) -> ProcessView {
    match counters {
        Some(found) if record.handle is Some => ProcessView {
            memory: found.working_set_size,
            virtual_memory: found.private_usage,
            ..record
        },
        _ => record,
    }
}

/// What a record reports of disk use: for each direction the total so far,
/// and what was added to it since the reading before the last.
pub open spec fn disk_usage_of(record: ProcessView) -> DiskUsage {
    DiskUsage {
        total_written_bytes: record.written_bytes,
        written_bytes: clamped_sub(record.written_bytes as int, record.old_written_bytes as int)
            as u64,
        total_read_bytes: record.read_bytes,
        read_bytes: clamped_sub(record.read_bytes as int, record.old_read_bytes as int) as u64,
    }
}

/// The record after a refresh at `now`.
///
/// A terminated record stays as it is. A record whose process is seen to
/// be gone becomes terminated and is changed in nothing else. Any other
/// takes the readings that `kind` asks for, and its run time is counted from
/// the start time on record.
pub open spec fn refreshed_view(
    record: ProcessView,
    kind: ProcessRefreshKind,
    nb_cpus: u64,
    now: u64,
    sample: RefreshSample,
) -> ProcessView {
    if record.lifecycle == Lifecycle::Terminated {
        record
    } else if identity_lost(record, sample.liveness) {
        ProcessView { lifecycle: Lifecycle::Terminated, ..record }
    } else {
        let after_cpu = if kind.cpu {
            with_cpu(record, nb_cpus, sample.cpu)
        } else {
            record
        };
        let after_disk = if kind.disk_usage {
            with_disk(after_cpu, sample.io)
        } else {
            after_cpu
        };
        let after_memory = if kind.memory {
            with_memory(after_disk, sample.memory)
        } else {
            after_disk
        };
        ProcessView {
            run_time: run_time_at(record.start_time as int, now as int) as u64,
            lifecycle: Lifecycle::Refreshed,
            ..after_memory
        }
    }
}

/// The host calls that a refresh of the record needs.
pub open spec fn plan_of(record: ProcessView, kind: ProcessRefreshKind) -> RefreshPlan {
    let live = record.lifecycle != Lifecycle::Terminated;
    let open = live && record.handle is Some;
    RefreshPlan {
        liveness: open,
        process_times: open && kind.cpu,
        system_times: live && kind.cpu,
        io: open && kind.disk_usage,
        memory: open && kind.memory,
    }
}

/// What a caller that waits for the record's process does after a look at
/// it: it sleeps for `WAIT_INTERVAL_MILLIS` while the process of the record
/// is seen to run, and stops otherwise.
pub open spec fn wait_step_of(record: ProcessView, liveness: Liveness) -> WaitStep {
    if record.handle is None || liveness == Liveness::Unobserved || identity_lost(
        record,
        liveness,
    ) {
        WaitStep::Finished
    } else {
        WaitStep::Sleep(WAIT_INTERVAL_MILLIS)
    }
}

/// Whether the host can deliver a signal. It can end a process and do
/// nothing else.
pub open spec fn is_supported_signal(signal: Signal) -> bool {
    signal == Signal::Kill
}

/// Tells whether the host can deliver `signal`.
pub fn supports_signal(signal: Signal) -> (supported: bool)
    ensures
        supported == is_supported_signal(signal),
{
    match signal {
        Signal::Kill => true,
        _ => false,
    }
}

impl ProcessInner {
    /// Makes the record of a process that was asked for by its identifier.
    ///
    /// There is none where the process could not be opened, or where the
    /// host would not say which process it was started by. `inherited_from`
    /// is the identifier of that process, zero for none; `image_path` is
    /// what the query for the path of its image gave.
    pub fn new_from_pid(
        pid: Pid,
        now: u64,
        refresh_kind: ProcessRefreshKind,
        handle: Option<HandleWrapper>,
        inherited_from: Option<usize>,
        image_path: Option<Vec<u16>>,
        seen: Observation,
    ) -> (record: Option<ProcessInner>)
        ensures
            match record {
                Some(made) => handle is Some && inherited_from is Some && made@ == opened_view(
                    pid,
                    if inherited_from->0 != 0 {
                        Some(Pid(inherited_from->0))
                    } else {
                        None
                    },
                    0,
                    0,
                    observed_name(refresh_kind, image_path),
                    now,
                    refresh_kind,
                    handle->0,
                    seen,
                ),
                None => handle is None || inherited_from is None,
            },
            record matches Some(made) ==> made@.wf(),
    {
        let handle: HandleWrapper = match handle {
            Some(handle) => handle,
            None => {
                return None;
            },
        };
        let parent: Option<Pid> = match inherited_from {
            Some(id) => if id != 0 {
                Some(Pid(id))
            } else {
                None
            },
            None => {
                return None;
            },
        };
        let name: String = if refresh_kind.identity() {
            match get_process_name(image_path) {
                Some(name) => name,
                None => String::new(),
            }
        } else {
            String::new()
        };
        Some(Self::assemble(pid, parent, 0, 0, name, now, refresh_kind, handle, seen))
    }

    /// Makes the record of a process of which the caller knows the parent,
    /// the memory and the name already. Where the process could not be
    /// opened, the record holds these and nothing else.
    pub fn new_full(
        pid: Pid,
        parent: Option<Pid>,
        memory: u64,
        virtual_memory: u64,
        name: String,
        now: u64,
        refresh_kind: ProcessRefreshKind,
        handle: Option<HandleWrapper>,
        seen: Observation,
    ) -> (record: ProcessInner)
        ensures
            record@ == match handle {
                Some(opened) => opened_view(
                    pid,
                    parent,
                    memory,
                    virtual_memory,
                    name@,
                    now,
                    refresh_kind,
                    opened,
                    seen,
                ),
                None => unopened_view(pid, parent, memory, virtual_memory, name@),
            },
            record@.wf(),
    {
        match handle {
            Some(opened) => Self::assemble(
                pid,
                parent,
                memory,
                virtual_memory,
                name,
                now,
                refresh_kind,
                opened,
                seen,
            ),
            None => {
                let cmd: Vec<String> = Vec::new();
                let environ: Vec<String> = Vec::new();
                proof {
                    assert(text_views(cmd@) =~= Seq::<Seq<char>>::empty());
                }
                ProcessInner {
                    handle: None,
                    name,
                    pid,
                    user_id: None,
                    parent,
                    cmd,
                    environ,
                    exe: get_executable_path(pid),
                    cwd: String::new(),
                    root: String::new(),
                    status: ProcessStatus::Run,
                    memory,
                    virtual_memory,
                    cpu_usage: CpuUsage::idle(),
                    cpu_calc_values: CPUsageCalculationValues::new(),
                    start_time: 0,
                    run_time: 0,
                    lifecycle: Lifecycle::Open,
                    old_read_bytes: 0,
                    old_written_bytes: 0,
                    read_bytes: 0,
                    written_bytes: 0,
                }
            },
        }
    }

    /// Puts the record of an opened process together.
    fn assemble(
        pid: Pid,
        parent: Option<Pid>,
        memory: u64,
        virtual_memory: u64,
        name: String,
        now: u64,
        refresh_kind: ProcessRefreshKind,
        handle: HandleWrapper,
        seen: Observation,
    ) -> (record: ProcessInner)
        ensures
            record@ == opened_view(
                pid,
                parent,
                memory,
                virtual_memory,
                name@,
                now,
                refresh_kind,
                handle,
                seen,
            ),
            record@.wf(),
    {
        let access: Access = handle.access();
        let (exe, root): (String, String) = if refresh_kind.identity() {
            let exe: String = get_exe(seen.exe.as_slice());
            let root: String = parent_directory(exe.as_str());
            (exe, root)
        } else {
            (String::new(), String::new())
        };
        let wanted: bool = match access {
            Access::Full => refresh_kind.attributes(),
            Access::Limited => false,
        };
        let found: Option<Attributes> = match seen.attributes {
            Ok(attributes) => if wanted {
                Some(attributes)
            } else {
                None
            },
            Err(_) => None,
        };
        let (cmd, environ, cwd): (Vec<String>, Vec<String>, String) = match found {
            Some(attributes) => (
                get_cmdline_from_buffer(attributes.command_line),
                get_proc_env(attributes.environment),
                get_cwd(attributes.current_directory),
            ),
            None => {
                let cmd: Vec<String> = Vec::new();
                let environ: Vec<String> = Vec::new();
                proof {
                    assert(text_views(cmd@) =~= Seq::<Seq<char>>::empty());
                }
                (cmd, environ, String::new())
            },
        };
        let (start_time, run_time): (u64, u64) = get_start_and_run_time(
            filetime_to_u64(seen.creation),
            now,
        );
        let user_id: Option<Uid> = get_process_user_id(access, refresh_kind, seen.owner);
        ProcessInner {
            handle: Some(handle),
            name,
            pid,
            parent,
            user_id,
            cmd,
            environ,
            exe,
            cwd,
            root,
            status: ProcessStatus::Run,
            memory,
            virtual_memory,
            cpu_usage: CpuUsage::idle(),
            cpu_calc_values: CPUsageCalculationValues::new(),
            start_time,
            run_time,
            lifecycle: Lifecycle::Open,
            old_read_bytes: 0,
            old_written_bytes: 0,
            read_bytes: 0,
            written_bytes: 0,
        }
    }
}

/// Takes a reading of the processor times into the record.
pub fn compute_cpu_usage(p: &mut ProcessInner, nb_cpus: u64, times: CpuTimes)
    ensures
        final(p)@ == with_cpu(old(p)@, nb_cpus, times),
{
    let opened: bool = p.handle.is_some();
    let sample = CpuSample {
        process_sys: if opened {
            filetime_to_u64(times.process_sys)
        } else {
            0
        },
        process_user: if opened {
            filetime_to_u64(times.process_user)
        } else {
            0
        },
        system_sys: filetime_to_u64(times.system_sys),
        system_user: filetime_to_u64(times.system_user),
    };
    let (kept, usage): (CPUsageCalculationValues, CpuUsage) = cpu_interval(
        p.cpu_calc_values,
        sample,
        nb_cpus,
    );
    p.cpu_calc_values = kept;
    p.cpu_usage = usage;
}

/// Takes a reading of the transfer counters into the record.
pub fn update_disk_usage(p: &mut ProcessInner, counters: Option<IoCounters>)
    ensures
        final(p)@ == with_disk(old(p)@, counters),
{
    if p.handle.is_some() {
        if let Some(found) = counters {
            p.old_read_bytes = p.read_bytes;
            p.old_written_bytes = p.written_bytes;
            p.read_bytes = found.read_transfer_count;
            p.written_bytes = found.write_transfer_count;
        }
    }
}

/// Takes a reading of the memory counters into the record.
pub fn update_memory(p: &mut ProcessInner, counters: Option<MemoryCounters>)
    ensures
        final(p)@ == with_memory(old(p)@, counters),
{
    if p.handle.is_some() {
        if let Some(found) = counters {
            p.memory = found.working_set_size;
            p.virtual_memory = found.private_usage;
        }
    }
}

impl ProcessInner {
    /// Says which host calls a refresh needs, so that no other is made.
    pub fn refresh_plan(&self, refresh_kind: ProcessRefreshKind) -> (plan: RefreshPlan)
        ensures
            plan == plan_of(self@, refresh_kind),
    {
        let live: bool = !self.is_terminated();
        let open: bool = live && self.handle.is_some();
        RefreshPlan {
            liveness: open,
            process_times: open && refresh_kind.cpu(),
            system_times: live && refresh_kind.cpu(),
            io: open && refresh_kind.disk_usage(),
            memory: open && refresh_kind.memory(),
        }
    }

    /// Whether a look at the process shows that it is no more the one of
    /// the record.
    pub fn has_lost_identity(&self, liveness: Liveness) -> (lost: bool)
        ensures
            lost == identity_lost(self@, liveness),
    {
        if self.handle.is_none() {
            return false;
        }
        match liveness {
            Liveness::Unobserved => false,
            Liveness::Exited => true,
            Liveness::Running(creation) => get_start_time(filetime_to_u64(creation))
                != self.start_time,
        }
    }

    /// Refreshes the record at `now` from what the host reported, on a
    /// host of `nb_cpus` cores.
    pub fn update(
        &mut self,
        refresh_kind: ProcessRefreshKind,
        nb_cpus: u64,
        now: u64,
        sample: RefreshSample,
    )
        ensures
            final(self)@ == refreshed_view(old(self)@, refresh_kind, nb_cpus, now, sample),
            old(self)@.wf() ==> final(self)@.wf(),
    {
        if self.is_terminated() {
            return ;
        }
        if self.has_lost_identity(sample.liveness) {
            self.lifecycle = Lifecycle::Terminated;
            return ;
        }
        if refresh_kind.cpu() {
            compute_cpu_usage(self, nb_cpus, sample.cpu);
        }
        if refresh_kind.disk_usage() {
            update_disk_usage(self, sample.io);
        }
        if refresh_kind.memory() {
            update_memory(self, sample.memory);
        }
        self.run_time = now.saturating_sub(self.start_time);
        self.lifecycle = Lifecycle::Refreshed;
    }

    /// Says what a caller that waits for the process to end does after a
    /// look at it.
    pub fn wait(&self, liveness: Liveness) -> (step: WaitStep)
        ensures
            step == wait_step_of(self@, liveness),
    {
        if self.handle.is_none() {
            return WaitStep::Finished;
        }
        match liveness {
            Liveness::Unobserved => WaitStep::Finished,
            _ => if self.has_lost_identity(liveness) {
                WaitStep::Finished
            } else {
                WaitStep::Sleep(WAIT_INTERVAL_MILLIS)
            },
        }
    }

    /// The answer to a request to deliver `signal`: `None` where the host
    /// cannot deliver it, else whether the process was ended. `outcome` is
    /// what ending it came to: `None` where the attempt could not be made,
    /// else whether it succeeded.
    pub fn kill_with(&self, signal: Signal, outcome: Option<bool>) -> (answer: Option<bool>)
        ensures
            answer == (if is_supported_signal(signal) {
                Some(outcome == Some(true))
            } else {
                None
            }),
    {
        if !supports_signal(signal) {
            return None;
        }
        match outcome {
            Some(ended) => Some(ended),
            None => Some(false),
        }
    }

    pub fn get_handle(&self) -> (raw: Option<isize>)
        ensures
            raw == match self@.handle {
                Some(handle) => Some(handle.0),
                None => None,
            },
    {
        match &self.handle {
            Some(handle) => Some(handle.raw()),
            None => None,
        }
    }

    /// The rights of the record's handle.
    pub fn access(&self) -> (access: Option<Access>)
        ensures
            access == match self@.handle {
                Some(handle) => Some(handle.1),
                None => None,
            },
    {
        match &self.handle {
            Some(handle) => Some(handle.access()),
            None => None,
        }
    }

    /// The start time that a time of creation read through the handle
    /// stands for; there is none without a handle.
    pub fn get_start_time(&self, creation: FileTime) -> (start: Option<u64>)
        ensures
            start == (if self@.handle is Some {
                Some(start_of(filetime_ticks(creation) as u64) as u64)
            } else {
                None
            }),
    {
        if self.handle.is_some() {
            Some(get_start_time(filetime_to_u64(creation)))
        } else {
            None
        }
    }

    pub fn name(&self) -> (name: &str)
        ensures
            name@ == self@.name,
    {
        self.name.as_str()
    }

    pub fn cmd(&self) -> (cmd: &[String])
        ensures
            text_views(cmd@) == self@.cmd,
    {
        self.cmd.as_slice()
    }

    pub fn exe(&self) -> (exe: &str)
        ensures
            exe@ == self@.exe,
    {
        self.exe.as_str()
    }

    pub fn pid(&self) -> (pid: Pid)
        ensures
            pid == self@.pid,
    {
        self.pid
    }

    pub fn environ(&self) -> (environ: &[String])
        ensures
            text_views(environ@) == self@.environ,
    {
        self.environ.as_slice()
    }

    pub fn cwd(&self) -> (cwd: &str)
        ensures
            cwd@ == self@.cwd,
    {
        self.cwd.as_str()
    }

    pub fn root(&self) -> (root: &str)
        ensures
            root@ == self@.root,
    {
        self.root.as_str()
    }

    pub fn memory(&self) -> (memory: u64)
        ensures
            memory == self@.memory,
    {
        self.memory
    }

    pub fn virtual_memory(&self) -> (memory: u64)
        ensures
            memory == self@.virtual_memory,
    {
        self.virtual_memory
    }

    pub fn parent(&self) -> (parent: Option<Pid>)
        ensures
            parent == self@.parent,
    {
        self.parent
    }

    pub fn status(&self) -> (status: ProcessStatus)
        ensures
            status == self@.status,
    {
        self.status
    }

    pub fn start_time(&self) -> (start: u64)
        ensures
            start == self@.start_time,
    {
        self.start_time
    }

    pub fn run_time(&self) -> (run: u64)
        ensures
            run == self@.run_time,
    {
        self.run_time
    }

    pub fn cpu_usage(&self) -> (usage: CpuUsage)
        ensures
            usage == self@.cpu_usage,
    {
        self.cpu_usage
    }

    pub fn disk_usage(&self) -> (usage: DiskUsage)
        ensures
            usage == disk_usage_of(self@),
    {
        DiskUsage {
            written_bytes: self.written_bytes.saturating_sub(self.old_written_bytes),
            total_written_bytes: self.written_bytes,
            read_bytes: self.read_bytes.saturating_sub(self.old_read_bytes),
            total_read_bytes: self.read_bytes,
        }
    }

    pub fn user_id(&self) -> (owner: Option<&Uid>)
        ensures
            self@.user_id == match owner {
                Some(uid) => Some(uid.sid@),
                None => None,
            },
    {
        self.user_id.as_ref()
    }

    pub fn effective_user_id(&self) -> (owner: Option<&Uid>)
        ensures
            owner is None,
    {
        None
    }

    pub fn group_id(&self) -> (group: Option<Gid>)
        ensures
            group is None,
    {
        None
    }

    pub fn effective_group_id(&self) -> (group: Option<Gid>)
        ensures
            group is None,
    {
        None
    }

    pub fn lifecycle(&self) -> (stage: Lifecycle)
        ensures
            stage == self@.lifecycle,
    {
        self.lifecycle
    }

    /// Whether the record is that of a process that is no more.
    pub fn is_terminated(&self) -> (terminated: bool)
        ensures
            terminated == (self@.lifecycle == Lifecycle::Terminated),
    {
        match self.lifecycle {
            Lifecycle::Terminated => true,
            _ => false,
        }
    }
}

/// A refresh never touches what makes a record the record of its process:
/// identifier, start time, handle, parent, and the attributes that were read
/// when it was made.
pub proof fn lemma_refresh_keeps_identity(
    record: ProcessView,
    kind: ProcessRefreshKind,
    nb_cpus: u64,
    now: u64,
    sample: RefreshSample,
)
    ensures
        ({
            let after = refreshed_view(record, kind, nb_cpus, now, sample);
            &&& after.pid == record.pid
            &&& after.start_time == record.start_time
            &&& after.handle == record.handle
            &&& after.parent == record.parent
            &&& after.name == record.name
            &&& after.exe == record.exe
            &&& after.root == record.root
            &&& after.cmd == record.cmd
            &&& after.environ == record.environ
            &&& after.cwd == record.cwd
            &&& after.user_id == record.user_id
            &&& after.status == record.status
        }),
{
}

/// A refresh keeps a record well-formed: what a record could not read
/// when it was made, it never gets.
pub proof fn lemma_refresh_keeps_wf(
    record: ProcessView,
    kind: ProcessRefreshKind,
    nb_cpus: u64,
    now: u64,
    sample: RefreshSample,
)
    requires
        record.wf(),
    ensures
        refreshed_view(record, kind, nb_cpus, now, sample).wf(),
{
}

/// Run time follows the clock. Of two refreshes of a record whose process
/// is still the same, the later one gives no shorter a run time, and from
/// the start of the process on the run time is the time since the start
/// that the record was made with.
pub proof fn lemma_run_time_follows_clock(
    record: ProcessView,
    first_kind: ProcessRefreshKind,
    second_kind: ProcessRefreshKind,
    nb_cpus: u64,
    earlier: u64,
    later: u64,
    first: RefreshSample,
    second: RefreshSample,
)
    requires
        record.lifecycle != Lifecycle::Terminated,
        !identity_lost(record, first.liveness),
        !identity_lost(record, second.liveness),
        earlier <= later,
    ensures
        ({
            let once = refreshed_view(record, first_kind, nb_cpus, earlier, first);
            let twice = refreshed_view(once, second_kind, nb_cpus, later, second);
            &&& twice.start_time == record.start_time
            &&& once.run_time <= twice.run_time
            &&& later >= record.start_time ==> twice.run_time == later - record.start_time
        }),
{
    let once = refreshed_view(record, first_kind, nb_cpus, earlier, first);
    lemma_refresh_keeps_identity(record, first_kind, nb_cpus, earlier, first);
    assert(!identity_lost(once, second.liveness));
    lemma_run_time_is_monotonic(record.start_time as int, earlier as int, later as int);
}

/// A record whose identifier has gone to another process, or whose process
/// has exited, becomes terminated by the refresh that sees it, and takes
/// nothing from that refresh: every other field stays as it was.
pub proof fn lemma_lost_identity_terminates(
    record: ProcessView,
    kind: ProcessRefreshKind,
    nb_cpus: u64,
    now: u64,
    sample: RefreshSample,
)
    requires
        identity_lost(record, sample.liveness),
    ensures
        refreshed_view(record, kind, nb_cpus, now, sample) == (ProcessView {
            lifecycle: Lifecycle::Terminated,
            ..record
        }),
{
}

/// Nothing leads out of the terminated stage: a refresh leaves a
/// terminated record as it is, whatever the host reports.
pub proof fn lemma_terminated_is_final(
    record: ProcessView,
    kind: ProcessRefreshKind,
    nb_cpus: u64,
    now: u64,
    sample: RefreshSample,
)
    requires
        record.lifecycle == Lifecycle::Terminated,
    ensures
        refreshed_view(record, kind, nb_cpus, now, sample) == record,
        plan_of(record, kind) == (RefreshPlan {
            liveness: false,
            process_times: false,
            system_times: false,
            io: false,
            memory: false,
        }),
{
}

/// The processor use that a record takes from a reading is never
/// negative, and it is zero where no time has elapsed on the host. Where the
/// process was busy for no more than the time that elapsed, as it is on a
/// host whose counters are sound, the use is at most a hundred percent of
/// each core.
pub proof fn lemma_record_cpu_usage_is_bounded(record: ProcessView, nb_cpus: u64, times: CpuTimes)
    ensures
        ({
            let usage = with_cpu(record, nb_cpus, times).cpu_usage;
            &&& 0 <= usage.percent_value()
            &&& usage.elapsed == 0 ==> usage.percent_value() == 0
            &&& usage.busy <= usage.elapsed ==> usage.percent_value() <= 100 * nb_cpus
        }),
{
    let sample = cpu_sample_of(record, times);
    lemma_cpu_usage_is_not_negative(record.cpu_calc_values, sample, nb_cpus);
    if busy_ticks(record.cpu_calc_values, sample) <= elapsed_ticks(
        record.cpu_calc_values,
        sample,
    ) {
        lemma_cpu_usage_is_bounded(record.cpu_calc_values, sample, nb_cpus);
    }
}

/// After two readings of the transfer counters the record reports the
/// second as the totals, and as the use of the interval what the second adds
/// to the first: the difference where a counter grew, nothing where it went
/// back.
pub proof fn lemma_disk_usage_between_readings(
    record: ProcessView,
    first: IoCounters,
    second: IoCounters,
)
    requires
        record.handle is Some,
    ensures
        ({
            let usage = disk_usage_of(with_disk(with_disk(record, Some(first)), Some(second)));
            &&& usage.total_read_bytes == second.read_transfer_count
            &&& usage.total_written_bytes == second.write_transfer_count
            &&& usage.read_bytes == clamped_sub(
                second.read_transfer_count as int,
                first.read_transfer_count as int,
            )
            &&& usage.written_bytes == clamped_sub(
                second.write_transfer_count as int,
                first.write_transfer_count as int,
            )
            &&& second.read_transfer_count >= first.read_transfer_count ==> usage.read_bytes
                == second.read_transfer_count - first.read_transfer_count
            &&& second.write_transfer_count >= first.write_transfer_count ==> usage.written_bytes
                == second.write_transfer_count - first.write_transfer_count
            &&& second.read_transfer_count < first.read_transfer_count ==> usage.read_bytes == 0
            &&& second.write_transfer_count < first.write_transfer_count ==> usage.written_bytes
                == 0
        }),
{
}

/// A record made with a degraded handle has no command line, environment,
/// working directory or owner, whatever was reported for them; a refresh
/// still gives it memory and processor use.
pub proof fn lemma_degraded_record(
    pid: Pid,
    parent: Option<Pid>,
    name: Seq<char>,
    now: u64,
    kind: ProcessRefreshKind,
    handle: HandleWrapper,
    seen: Observation,
    nb_cpus: u64,
    later: u64,
    sample: RefreshSample,
    memory: MemoryCounters,
)
    requires
        handle.rights() == Access::Limited,
        sample.liveness == Liveness::Running(seen.creation),
        sample.memory == Some(memory),
    ensures
        ({
            let made = opened_view(pid, parent, 0, 0, name, now, kind, handle, seen);
            let after = refreshed_view(
                made,
                ProcessRefreshKind {
                    identity: true,
                    attributes: true,
                    user: true,
                    cpu: true,
                    memory: true,
                    disk_usage: true,
                },
                nb_cpus,
                later,
                sample,
            );
            &&& made.cmd == Seq::<Seq<char>>::empty()
            &&& made.environ == Seq::<Seq<char>>::empty()
            &&& made.cwd == Seq::<char>::empty()
            &&& made.user_id is None
            &&& after.lifecycle == Lifecycle::Refreshed
            &&& after.memory == memory.working_set_size
            &&& after.virtual_memory == memory.private_usage
            &&& after.cpu_usage == with_cpu(made, nb_cpus, sample.cpu).cpu_usage
            &&& after.cmd == made.cmd
            &&& after.user_id == made.user_id
        }),
{
}

/// A record takes nothing from what its plan left out: two observations
/// that agree in the time of creation and in what the plan asks for give the
/// same record.
pub proof fn lemma_unplanned_observations_are_ignored(
    pid: Pid,
    parent: Option<Pid>,
    memory: u64,
    virtual_memory: u64,
    name: Seq<char>,
    now: u64,
    kind: ProcessRefreshKind,
    handle: HandleWrapper,
    first: Observation,
    second: Observation,
)
    requires
        first.creation == second.creation,
        kind.identity ==> first.exe@ == second.exe@,
        reads_attributes(handle.rights(), kind) ==> first.attributes == second.attributes,
        reads_owner(handle.rights(), kind) ==> first.owner == second.owner,
    ensures
        opened_view(pid, parent, memory, virtual_memory, name, now, kind, handle, first)
            == opened_view(
            pid,
            parent,
            memory,
            virtual_memory,
            name,
            now,
            kind,
            handle,
            second,
        ),
{
}

} // verus!
