//! Plain value types shared by every component.

use vstd::prelude::*;

verus! {

/// An operating-system process identifier. The host may hand the same
/// identifier to another process once its owner has exited.
#[derive(Clone, Copy, Debug, PartialEq, Eq, Structural, Hash)]
pub struct Pid(pub usize);

impl Pid {
    /// The identifier as the host's 32-bit calls take it: its low 32 bits.
    pub fn as_u32(self) -> (id: u32)
        ensures
            id == self.0 as u32,
    {
        #[verifier::truncate]
        (self.0 as u32)
    }

    pub fn from_u32(id: u32) -> (pid: Pid)
        ensures
            pid.0 == id,
    {
        Pid(id as usize)
    }
}

/// A group identifier. No process on this host has one.
#[derive(Clone, Copy, Debug, PartialEq, Eq, Structural, Hash)]
pub struct Gid(pub u32);

/// The owner of a process: the bytes of its security identifier.
#[derive(Clone, Debug, PartialEq, Eq, Hash)]
pub struct Uid {
    pub sid: Vec<u8>,
}

/// The one state a record can observe. That a process has ended is seen
/// from its record's lifecycle, not from a status value.
#[derive(Clone, Copy, Debug, PartialEq, Eq, Structural)]
pub enum ProcessStatus {
    Run,
    Unknown(u32),
}

impl ProcessStatus {
    /// The status as text: "Runnable" for `Run`, "Unknown" otherwise.
    pub fn as_str(&self) -> (label: &'static str)
        ensures
            label@ == (if *self == ProcessStatus::Run {
                "Runnable"@
            } else {
                "Unknown"@
            }),
    {
        match self {
            ProcessStatus::Run => "Runnable",
            ProcessStatus::Unknown(_) => "Unknown",
        }
    }
}

/// Signals a caller may ask to be delivered to a process.
#[derive(Clone, Copy, Debug, PartialEq, Eq, Structural)]
pub enum Signal {
    Hangup,
    Interrupt,
    Quit,
    Illegal,
    Trap,
    Abort,
    IOT,
    Bus,
    FloatingPointException,
    Kill,
    User1,
    Segv,
    User2,
    Pipe,
    Alarm,
    Term,
    Child,
    Continue,
    Stop,
    TSTP,
    TTIN,
    TTOU,
    Urgent,
    XCPU,
    XFSZ,
    VirtualAlarm,
    Profiling,
    Winch,
    IO,
    Poll,
    Power,
    Sys,
}

/// Bytes a process moved to and from disk: since the previous refresh, and in
/// total.
#[derive(Clone, Copy, Debug, PartialEq, Eq, Structural)]
pub struct DiskUsage {
    pub total_written_bytes: u64,
    pub written_bytes: u64,
    pub total_read_bytes: u64,
    pub read_bytes: u64,
}

/// What to read of a process. Whatever is left out costs no call to the
/// host.
#[derive(Clone, Copy, Debug, PartialEq, Eq, Structural)]
pub struct ProcessRefreshKind {
    /// Whether to read the name of the process, the path of its executable
    /// and its root directory.
    pub identity: bool,
    /// Whether to read the command line, the environment and the working
    /// directory.
    pub attributes: bool,
    /// Whether to read the owner of the process.
    pub user: bool,
    /// Whether to read processor use.
    pub cpu: bool,
    /// Whether to read resident and virtual memory.
    pub memory: bool,
    /// Whether to read bytes read from and written to disk.
    pub disk_usage: bool,
}

impl ProcessRefreshKind {
    /// Nothing is read.
    pub fn new() -> (kind: ProcessRefreshKind)
        ensures
            kind == (ProcessRefreshKind {
                identity: false,
                attributes: false,
                user: false,
                cpu: false,
                memory: false,
                disk_usage: false,
            }),
    {
        ProcessRefreshKind {
            identity: false,
            attributes: false,
            user: false,
            cpu: false,
            memory: false,
            disk_usage: false,
        }
    }

    /// Everything is read.
    pub fn everything() -> (kind: ProcessRefreshKind)
        ensures
            kind == (ProcessRefreshKind {
                identity: true,
                attributes: true,
                user: true,
                cpu: true,
                memory: true,
                disk_usage: true,
            }),
    {
        ProcessRefreshKind {
            identity: true,
            attributes: true,
            user: true,
            cpu: true,
            memory: true,
            disk_usage: true,
        }
    }

    pub fn identity(&self) -> (wanted: bool)
        ensures
            wanted == self.identity,
    {
        self.identity
    }

    pub fn with_identity(self) -> (kind: ProcessRefreshKind)
        ensures
            kind == (ProcessRefreshKind { identity: true, ..self }),
    {
        ProcessRefreshKind { identity: true, ..self }
    }

    pub fn without_identity(self) -> (kind: ProcessRefreshKind)
        ensures
            kind == (ProcessRefreshKind { identity: false, ..self }),
    {
        ProcessRefreshKind { identity: false, ..self }
    }

    pub fn attributes(&self) -> (wanted: bool)
        ensures
            wanted == self.attributes,
    {
        self.attributes
    }

    pub fn with_attributes(self) -> (kind: ProcessRefreshKind)
        ensures
            kind == (ProcessRefreshKind { attributes: true, ..self }),
    {
        ProcessRefreshKind { attributes: true, ..self }
    }

    pub fn without_attributes(self) -> (kind: ProcessRefreshKind)
        ensures
            kind == (ProcessRefreshKind { attributes: false, ..self }),
    {
        ProcessRefreshKind { attributes: false, ..self }
    }

    pub fn user(&self) -> (wanted: bool)
        ensures
            wanted == self.user,
    {
        self.user
    }

    pub fn with_user(self) -> (kind: ProcessRefreshKind)
        ensures
            kind == (ProcessRefreshKind { user: true, ..self }),
    {
        ProcessRefreshKind { user: true, ..self }
    }

    pub fn without_user(self) -> (kind: ProcessRefreshKind)
        ensures
            kind == (ProcessRefreshKind { user: false, ..self }),
    {
        ProcessRefreshKind { user: false, ..self }
    }

    pub fn cpu(&self) -> (wanted: bool)
        ensures
            wanted == self.cpu,
    {
        self.cpu
    }

    pub fn with_cpu(self) -> (kind: ProcessRefreshKind)
        ensures
            kind == (ProcessRefreshKind { cpu: true, ..self }),
    {
        ProcessRefreshKind { cpu: true, ..self }
    }

    pub fn without_cpu(self) -> (kind: ProcessRefreshKind)
        ensures
            kind == (ProcessRefreshKind { cpu: false, ..self }),
    {
        ProcessRefreshKind { cpu: false, ..self }
    }

    pub fn memory(&self) -> (wanted: bool)
        ensures
            wanted == self.memory,
    {
        self.memory
    }

    pub fn with_memory(self) -> (kind: ProcessRefreshKind)
        ensures
            kind == (ProcessRefreshKind { memory: true, ..self }),
    {
        ProcessRefreshKind { memory: true, ..self }
    }

    pub fn without_memory(self) -> (kind: ProcessRefreshKind)
        ensures
            kind == (ProcessRefreshKind { memory: false, ..self }),
    {
        ProcessRefreshKind { memory: false, ..self }
    }

    pub fn disk_usage(&self) -> (wanted: bool)
        ensures
            wanted == self.disk_usage,
    {
        self.disk_usage
    }

    pub fn with_disk_usage(self) -> (kind: ProcessRefreshKind)
        ensures
            kind == (ProcessRefreshKind { disk_usage: true, ..self }),
    {
        ProcessRefreshKind { disk_usage: true, ..self }
    }

    pub fn without_disk_usage(self) -> (kind: ProcessRefreshKind)
        ensures
            kind == (ProcessRefreshKind { disk_usage: false, ..self }),
    {
        ProcessRefreshKind { disk_usage: false, ..self }
    }
}

} // verus!
