//! Turning the host's counters, which only ever grow, into what a process
//! used between two readings.

use vstd::prelude::*;
use vstd::arithmetic::div_mod::lemma_fundamental_div_mod;
use vstd::arithmetic::div_mod::lemma_hoist_over_denominator;
use vstd::arithmetic::div_mod::lemma_mod_bound;
use vstd::arithmetic::div_mod::lemma_div_is_ordered;
use vstd::arithmetic::div_mod::lemma_div_multiples_vanish;

verus! {

/// The host counts time in steps of 100 nanoseconds.
pub const TICKS_PER_SECOND: u64 = 10_000_000;

/// Seconds from the host's epoch, the start of the year 1601, to the start
/// of the year 1970.
pub const EPOCH_OFFSET: u64 = 11_644_473_600;

/// A time as the host hands it out: the two halves of a 64-bit count of
/// ticks.
#[derive(Clone, Copy, Debug, PartialEq, Eq, Structural)]
pub struct FileTime {
    pub low: u32,
    pub high: u32,
}

/// The count of ticks that a `FileTime` holds.
pub open spec fn filetime_ticks(time: FileTime) -> int {
    time.high * 0x1_0000_0000 + time.low
}

pub fn filetime_to_u64(time: FileTime) -> (ticks: u64)
    ensures
        ticks == filetime_ticks(time),
{
    let high: u64 = time.high as u64;
    let low: u64 = time.low as u64;
    assert(high << 32 == high * 0x1_0000_0000) by (bit_vector)
        requires
            high <= 0xffff_ffff,
    ;
    (high << 32) + low
}

/// The difference `a - b`, or zero where `b` is the greater.
pub open spec fn clamped_sub(a: int, b: int) -> int {
    if a < b {
        0
    } else {
        a - b
    }
}

/// What a counter grew by between an earlier reading `b` and a later one
/// `a`. A counter that went back, as after a reset, grew by nothing.
pub fn check_sub(a: u64, b: u64) -> (delta: u64)
    ensures
        delta == clamped_sub(a as int, b as int),
{
    if a < b {
        0
    } else {
        a - b
    }
}

/// The sum of two counts, held at the largest count there is.
pub open spec fn saturating_sum(a: int, b: int) -> int {
    if a + b > u64::MAX {
        u64::MAX as int
    } else {
        a + b
    }
}

/// Whether a time of creation lies at or after the start of 1970.
pub open spec fn is_after_epoch(process_times: u64) -> bool {
    process_times / TICKS_PER_SECOND >= EPOCH_OFFSET
}

/// The start time that stands for a time of creation: its second since
/// 1970, or zero for a time before that, which is what a time that could
/// not be read looks like.
pub open spec fn start_of(process_times: u64) -> int {
    if is_after_epoch(process_times) {
        process_times / TICKS_PER_SECOND - EPOCH_OFFSET
    } else {
        0
    }
}

/// The second, counted from the start of 1970, in which a process was
/// created at `process_times` ticks of the host's clock. A time before 1970
/// gives zero.
pub fn compute_start(process_times: u64) -> (start: u64)
    ensures
        start == start_of(process_times),
{
    let seconds: u64 = process_times / TICKS_PER_SECOND;
    if seconds >= EPOCH_OFFSET {
        seconds - EPOCH_OFFSET
    } else {
        0
    }
}

/// The start time of a process that was created at `process_times`.
pub fn get_start_time(process_times: u64) -> (start: u64)
    ensures
        start == start_of(process_times),
{
    compute_start(process_times)
}

/// For how long a process that started at `start` has run at `now`, both
/// in seconds since 1970: the difference, and nothing before its start.
pub open spec fn run_time_at(start: int, now: int) -> int {
    clamped_sub(now, start)
}

/// The start time of a process and how long it has run at `now`.
pub fn get_start_and_run_time(process_times: u64, now: u64) -> (times: (u64, u64))
    ensures
        times.0 == start_of(process_times),
        times.1 == run_time_at(start_of(process_times), now as int),
{
    let start: u64 = get_start_time(process_times);
    let run_time: u64 = check_sub(now, start);
    (start, run_time)
}

/// Run time does not go back as time goes on, and from the start of a
/// process on it is the time since that start.
pub proof fn lemma_run_time_is_monotonic(start: int, earlier: int, later: int)
    requires
        earlier <= later,
    ensures
        run_time_at(start, earlier) <= run_time_at(start, later),
        later >= start ==> run_time_at(start, later) == later - start,
{
}

/// The counters of the last reading, kept to tell what the next one adds.
#[derive(Clone, Copy, Debug, PartialEq, Eq, Structural)]
pub struct CPUsageCalculationValues {
    pub old_process_sys_cpu: u64,
    pub old_process_user_cpu: u64,
    pub old_system_sys_cpu: u64,
    pub old_system_user_cpu: u64,
}

impl CPUsageCalculationValues {
    pub fn new() -> (values: Self)
        ensures
            values == (CPUsageCalculationValues {
                old_process_sys_cpu: 0,
                old_process_user_cpu: 0,
                old_system_sys_cpu: 0,
                old_system_user_cpu: 0,
            }),
    {
        CPUsageCalculationValues {
            old_process_sys_cpu: 0,
            old_process_user_cpu: 0,
            old_system_sys_cpu: 0,
            old_system_user_cpu: 0,
        }
    }
}

/// One reading of the four counters of processor time, in ticks: those of
/// the process and those of the whole host, in kernel and in user mode.
#[derive(Clone, Copy, Debug, PartialEq, Eq, Structural)]
pub struct CpuSample {
    pub process_sys: u64,
    pub process_user: u64,
    pub system_sys: u64,
    pub system_user: u64,
}

/// Processor use over one interval: the process was busy for `busy` of the
/// `elapsed` ticks that all of the host's `cores` spent together.
#[derive(Clone, Copy, Debug, PartialEq, Eq, Structural)]
pub struct CpuUsage {
    pub busy: u64,
    pub elapsed: u64,
    pub cores: u64,
}

/// Use in percent of one core, rounded down: a hundred times the busy share
/// of the elapsed time, times the number of cores. Where no time elapsed, the
/// use is zero.
pub open spec fn usage_percent(busy: int, elapsed: int, cores: int) -> int {
    if elapsed == 0 {
        0
    } else {
        (100 * busy * cores) / elapsed
    }
}

/// The ticks that the process was busy between the reading kept in
/// `values` and `sample`.
pub open spec fn busy_ticks(values: CPUsageCalculationValues, sample: CpuSample) -> int {
    saturating_sum(
        clamped_sub(sample.process_user as int, values.old_process_user_cpu as int),
        clamped_sub(sample.process_sys as int, values.old_process_sys_cpu as int),
    )
}

/// The ticks that the host spent between the reading kept in `values` and
/// `sample`.
pub open spec fn elapsed_ticks(values: CPUsageCalculationValues, sample: CpuSample) -> int {
    saturating_sum(
        clamped_sub(sample.system_user as int, values.old_system_user_cpu as int),
        clamped_sub(sample.system_sys as int, values.old_system_sys_cpu as int),
    )
}

/// The counters of `sample`, as the basis of the next interval.
pub open spec fn kept_values(sample: CpuSample) -> CPUsageCalculationValues {
    CPUsageCalculationValues {
        old_process_sys_cpu: sample.process_sys,
        old_process_user_cpu: sample.process_user,
        old_system_sys_cpu: sample.system_sys,
        old_system_user_cpu: sample.system_user,
    }
}

impl CpuUsage {
    /// No use at all.
    pub fn idle() -> (usage: CpuUsage)
        ensures
            usage == (CpuUsage { busy: 0, elapsed: 0, cores: 0 }),
    {
        CpuUsage { busy: 0, elapsed: 0, cores: 0 }
    }

    /// The use in percent of one core, as a number without bound.
    pub open spec fn percent_value(self) -> int {
        usage_percent(self.busy as int, self.elapsed as int, self.cores as int)
    }

    /// The use in percent of one core, rounded down. A value too large for
    /// the type is given as the largest there is.
    pub fn percent(&self) -> (percent: u64)
        ensures
            percent == (if self.percent_value() > u64::MAX {
                u64::MAX as int
            } else {
                self.percent_value()
            }),
    {
        if self.elapsed == 0 {
            return 0;
        }
        let elapsed: u128 = self.elapsed as u128;
        assert(self.busy * self.cores <= u64::MAX * u64::MAX) by (nonlinear_arith)
            requires
                self.busy <= u64::MAX,
                self.cores <= u64::MAX,
        ;
        let product: u128 = self.busy as u128 * self.cores as u128;
        let whole: u128 = product / elapsed;
        let rest: u128 = product % elapsed;
        let limit: u128 = u64::MAX as u128;
        proof {
            let e = elapsed as int;
            let p = product as int;
            lemma_fundamental_div_mod(p, e);
            lemma_mod_bound(p, e);
            assert(100 * self.busy * self.cores == 100 * rest + (100 * whole) * e)
                by (nonlinear_arith)
                requires
                    p == self.busy * self.cores,
                    p == e * whole + rest,
            ;
            lemma_hoist_over_denominator(100 * rest as int, 100 * whole as int, e as nat);
            assert(self.percent_value() == (100 * rest) / e + 100 * whole);
            lemma_div_is_ordered(100 * rest as int, 100 * e, e);
            lemma_div_multiples_vanish(100, e);
            assert((100 * e) / e == 100) by {
                assert(100 * e == e * 100) by (nonlinear_arith);
            }
            assert(0 <= (100 * rest) / e <= 100) by {
                lemma_div_is_ordered(0, 100 * rest as int, e);
            }
        }
        if whole > limit / 100 {
            return u64::MAX;
        }
        let total: u128 = 100 * whole + (100 * rest) / elapsed;
        if total > limit {
            u64::MAX
        } else {
            total as u64
        }
    }
}

/// Takes a new reading of the processor counters: says what the process
/// used since the reading kept in `values`, on a host of `nb_cpus` cores, and
/// gives the counters to keep for the next interval, which are those of
/// `sample` whatever the use was.
pub fn cpu_interval(values: CPUsageCalculationValues, sample: CpuSample, nb_cpus: u64) -> (next: (
    CPUsageCalculationValues,
    CpuUsage,
))
    ensures
        next.0 == kept_values(sample),
        next.1.busy == busy_ticks(values, sample),
        next.1.elapsed == elapsed_ticks(values, sample),
        next.1.cores == nb_cpus,
{
    let delta_global_kernel_time: u64 = check_sub(sample.system_sys, values.old_system_sys_cpu);
    let delta_global_user_time: u64 = check_sub(sample.system_user, values.old_system_user_cpu);
    let delta_user_time: u64 = check_sub(sample.process_user, values.old_process_user_cpu);
    let delta_sys_time: u64 = check_sub(sample.process_sys, values.old_process_sys_cpu);
    let kept = CPUsageCalculationValues {
        old_process_sys_cpu: sample.process_sys,
        old_process_user_cpu: sample.process_user,
        old_system_sys_cpu: sample.system_sys,
        old_system_user_cpu: sample.system_user,
    };
    let usage = CpuUsage {
        busy: delta_user_time.saturating_add(delta_sys_time),
        elapsed: delta_global_user_time.saturating_add(delta_global_kernel_time),
        cores: nb_cpus,
    };
    (kept, usage)
}

/// Use is never negative, whatever the counters say.
pub proof fn lemma_cpu_usage_is_not_negative(
    values: CPUsageCalculationValues,
    sample: CpuSample,
    cores: u64,
)
    ensures
        0 <= busy_ticks(values, sample),
        0 <= elapsed_ticks(values, sample),
        0 <= usage_percent(
            busy_ticks(values, sample),
            elapsed_ticks(values, sample),
            cores as int,
        ),
{
    let busy = busy_ticks(values, sample);
    let elapsed = elapsed_ticks(values, sample);
    if elapsed != 0 {
        assert(0 <= 100 * busy * cores) by (nonlinear_arith)
            requires
                0 <= busy,
                0 <= cores,
        ;
        lemma_div_is_ordered(0, 100 * busy * cores, elapsed);
    }
}

/// A process that was busy for no more than the time that elapsed used at
/// most a hundred percent of each core.
pub proof fn lemma_cpu_usage_is_bounded(
    values: CPUsageCalculationValues,
    sample: CpuSample,
    cores: u64,
)
    requires
        busy_ticks(values, sample) <= elapsed_ticks(values, sample),
    ensures
        0 <= usage_percent(
            busy_ticks(values, sample),
            elapsed_ticks(values, sample),
            cores as int,
        ) <= 100 * cores,
{
    let busy = busy_ticks(values, sample);
    let elapsed = elapsed_ticks(values, sample);
    lemma_cpu_usage_is_not_negative(values, sample, cores);
    if elapsed != 0 {
        assert(100 * busy * cores <= (100 * cores) * elapsed) by (nonlinear_arith)
            requires
                0 <= busy <= elapsed,
                0 <= cores,
        ;
        lemma_div_is_ordered(100 * busy * cores, (100 * cores) * elapsed, elapsed);
        lemma_div_multiples_vanish(100 * cores, elapsed);
        assert((100 * cores) * elapsed == elapsed * (100 * cores)) by (nonlinear_arith);
    }
}

/// Counters that went back give no use: where both counters of the process
/// are below the ones kept, or both counters of the host are, the use is
/// zero.
pub proof fn lemma_cpu_usage_after_regress(
    values: CPUsageCalculationValues,
    sample: CpuSample,
    cores: u64,
)
    requires
        (sample.process_sys < values.old_process_sys_cpu && sample.process_user
            < values.old_process_user_cpu) || (sample.system_sys < values.old_system_sys_cpu
            && sample.system_user < values.old_system_user_cpu),
    ensures
        usage_percent(busy_ticks(values, sample), elapsed_ticks(values, sample), cores as int)
            == 0,
{
    let busy = busy_ticks(values, sample);
    let elapsed = elapsed_ticks(values, sample);
    if elapsed != 0 {
        assert(busy == 0);
        assert(100 * busy * cores == 0) by (nonlinear_arith)
            requires
                busy == 0,
        ;
    }
}

/// The four processor times of one reading, as the host hands them out.
/// A time that could not be read is zero.
#[derive(Clone, Copy, Debug, PartialEq, Eq, Structural)]
pub struct CpuTimes {
    pub process_sys: FileTime,
    pub process_user: FileTime,
    pub system_sys: FileTime,
    pub system_user: FileTime,
}

/// The bytes that a process has read and written since it started.
#[derive(Clone, Copy, Debug, PartialEq, Eq, Structural)]
pub struct IoCounters {
    pub read_transfer_count: u64,
    pub write_transfer_count: u64,
}

/// The memory that a process holds at the moment, in bytes.
#[derive(Clone, Copy, Debug, PartialEq, Eq, Structural)]
pub struct MemoryCounters {
    pub working_set_size: u64,
    pub private_usage: u64,
}

} // verus!
