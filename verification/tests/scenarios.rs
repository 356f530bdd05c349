use process_probe::handle::{
    get_process_handler, get_process_handler_next, Access, HandleWrapper, OpenStep,
};
use process_probe::metrics::{CpuTimes, FileTime, IoCounters, MemoryCounters};
use process_probe::process::{
    Attributes, Liveness, Observation, ProcessInner, RefreshSample,
};
use process_probe::types::{Pid, ProcessRefreshKind};

const EPOCH_TICKS: u64 = 116_444_736_000_000_000;

fn wide(text: &str) -> Vec<u16> {
    text.encode_utf16().collect()
}

fn ticks(count: u64) -> FileTime {
    FileTime { low: count as u32, high: (count >> 32) as u32 }
}

/// A host that hands out handles and counts what is open.
struct Host {
    grants_full: bool,
    grants_limited: bool,
    next_handle: isize,
    opened: usize,
    closed: usize,
    open_now: Vec<isize>,
}

impl Host {
    fn new(grants_full: bool, grants_limited: bool) -> Host {
        Host { grants_full, grants_limited, next_handle: 4, opened: 0, closed: 0, open_now: Vec::new() }
    }

    fn open_process(&mut self, access: Access) -> isize {
        let granted = match access {
            Access::Full => self.grants_full,
            Access::Limited => self.grants_limited,
        };
        if !granted {
            return 0;
        }
        self.next_handle += 4;
        self.opened += 1;
        self.open_now.push(self.next_handle);
        self.next_handle
    }

    fn close_handle(&mut self, raw: isize) {
        let at = self.open_now.iter().position(|open| *open == raw).expect("handle is not open");
        self.open_now.swap_remove(at);
        self.closed += 1;
    }

    fn acquire(&mut self, pid: Pid) -> Option<HandleWrapper> {
        let mut step = get_process_handler(pid);
        loop {
            match step {
                OpenStep::Try(access) => {
                    let raw = self.open_process(access);
                    step = get_process_handler_next(access, raw);
                }
                OpenStep::Opened(handle) => return Some(handle),
                OpenStep::Unreachable => return None,
            }
        }
    }

    /// Reports everything it could of the process, whatever the rights.
    fn observe(&self) -> Observation {
        Observation {
            exe: wide("C:/tools/worker.exe\0"),
            attributes: Ok(Attributes {
                command_line: Some(vec![wide("worker.exe"), wide("--serve")]),
                environment: Ok(wide("A=1\0B=2\0\0")),
                current_directory: Ok(wide("C:/tools\0")),
            }),
            creation: ticks(EPOCH_TICKS + 5_000 * 10_000_000),
            owner: Some(vec![1, 1, 0, 0, 0, 0, 0, 5, 18, 0, 0, 0]),
        }
    }

    fn open_record(&mut self, pid: Pid, now: u64) -> Option<ProcessInner> {
        let handle = self.acquire(pid);
        ProcessInner::new_from_pid(
            pid,
            now,
            ProcessRefreshKind::everything(),
            handle,
            Some(4),
            Some(wide("/Device/Volume1/tools/worker.exe")),
            self.observe(),
        )
    }

    fn release(&mut self, record: ProcessInner) {
        if let Some(raw) = record.get_handle() {
            self.close_handle(raw);
        }
    }
}

#[test]
fn degraded_open_gives_metrics_without_attributes() {
    let mut host = Host::new(false, true);
    let mut record = host.open_record(Pid(321), 5_100).unwrap();
    assert_eq!(record.access(), Some(Access::Limited));
    assert!(record.cmd().is_empty());
    assert!(record.environ().is_empty());
    assert_eq!(record.cwd(), "");
    assert_eq!(record.user_id(), None);
    assert_eq!(record.name(), "worker.exe");
    assert_eq!(record.start_time(), 5_000);
    assert_eq!(record.run_time(), 100);

    let first = RefreshSample {
        liveness: Liveness::Running(ticks(EPOCH_TICKS + 5_000 * 10_000_000)),
        cpu: CpuTimes {
            process_sys: ticks(1_000),
            process_user: ticks(2_000),
            system_sys: ticks(10_000),
            system_user: ticks(20_000),
        },
        io: Some(IoCounters { read_transfer_count: 64, write_transfer_count: 32 }),
        memory: Some(MemoryCounters { working_set_size: 1 << 20, private_usage: 1 << 22 }),
    };
    record.update(ProcessRefreshKind::everything(), 8, 5_200, first);
    let second = RefreshSample {
        cpu: CpuTimes {
            process_sys: ticks(1_500),
            process_user: ticks(2_500),
            system_sys: ticks(12_000),
            system_user: ticks(22_000),
        },
        ..first
    };
    record.update(ProcessRefreshKind::everything(), 8, 5_300, second);
    assert_eq!(record.memory(), 1 << 20);
    assert_eq!(record.virtual_memory(), 1 << 22);
    assert_eq!(record.cpu_usage().busy, 1_000);
    assert_eq!(record.cpu_usage().elapsed, 4_000);
    assert_eq!(record.cpu_usage().percent(), 200);
    assert_eq!(record.run_time(), 300);
    assert!(record.cmd().is_empty());
    assert_eq!(record.user_id(), None);
    host.release(record);
}

#[test]
fn full_open_gives_attributes_too() {
    let mut host = Host::new(true, true);
    let record = host.open_record(Pid(321), 5_100).unwrap();
    assert_eq!(record.access(), Some(Access::Full));
    assert_eq!(record.cmd(), ["worker.exe".to_string(), "--serve".to_string()]);
    assert_eq!(record.environ(), ["A=1".to_string(), "B=2".to_string()]);
    assert_eq!(record.cwd(), "C:/tools");
    assert!(record.user_id().is_some());
    host.release(record);
    assert_eq!(host.opened, 1);
    assert_eq!(host.closed, 1);
}

#[test]
fn unreachable_process_has_no_record() {
    let mut host = Host::new(false, false);
    assert!(host.open_record(Pid(321), 5_100).is_none());
    assert!(host.open_record(Pid(0), 5_100).is_none());
    assert_eq!(host.opened, 0);
}

#[test]
fn opening_and_dropping_many_records_leaves_nothing_open() {
    let mut host = Host::new(true, true);
    for round in 0..10_000usize {
        let record = host.open_record(Pid(round + 1), 6_000).unwrap();
        assert_eq!(host.open_now.len(), 1);
        host.release(record);
        assert!(host.open_now.is_empty());
    }
    assert_eq!(host.opened, 10_000);
    assert_eq!(host.closed, 10_000);

    let mut degraded = Host::new(false, true);
    for round in 0..10_000usize {
        let record = degraded.open_record(Pid(round + 1), 6_000).unwrap();
        degraded.release(record);
    }
    assert_eq!(degraded.opened, 10_000);
    assert_eq!(degraded.closed, 10_000);
    assert!(degraded.open_now.is_empty());
}
