//! Finding the parameter block of another process and reading the command
//! line, the working directory and the environment that it points to.
//!
//! The block lies in the target's own address space. A target that runs
//! under the 32-bit compatibility layer keeps a block with 32-bit pointers;
//! any other keeps the host's own layout.

use vstd::prelude::*;
use crate::text::TERMINATOR;
use crate::text::utf16_lossy;
use crate::text::until_terminator;
use crate::text::environment_entries;
use crate::text::decoded;
use crate::text::text_views;
use crate::text::unit_views;
use crate::text::null_terminated_wchar_to_string;
use crate::text::split_environment;
use crate::text::decode_all;

verus! {

/// Which of the two layouts a target's control structures have.
#[derive(Clone, Copy, Debug, PartialEq, Eq, Structural)]
pub enum Layout {
    /// The host's own pointer width.
    Native,
    /// 32-bit structures of a target under the compatibility layer.
    Wow64,
}

/// What the logic reads of a parameter block in the host's own layout.
#[derive(Clone, Copy, Debug, PartialEq, Eq, Structural)]
pub struct NativeParameters {
    pub command_line: u64,
    pub command_line_length: u16,
    pub current_directory: u64,
    pub current_directory_length: u16,
    pub environment: u64,
}

/// What the logic reads of a 32-bit parameter block.
#[derive(Clone, Copy, Debug, PartialEq, Eq, Structural)]
pub struct Wow64Parameters {
    pub command_line: u32,
    pub command_line_length: u16,
    pub current_directory: u32,
    pub current_directory_length: u16,
    pub environment: u32,
}

/// A parameter block in either layout.
#[derive(Clone, Copy, Debug, PartialEq, Eq, Structural)]
pub enum ProcessParameters {
    Native(NativeParameters),
    Wow64(Wow64Parameters),
}

/// A request to copy `size` bytes from `address` in the target.
#[derive(Clone, Copy, Debug, PartialEq, Eq, Structural)]
pub struct ReadRequest {
    pub address: u64,
    pub size: usize,
}

impl ProcessParameters {
    pub open spec fn layout(self) -> Layout {
        match self {
            ProcessParameters::Native(_) => Layout::Native,
            ProcessParameters::Wow64(_) => Layout::Wow64,
        }
    }

    /// Where the command line lies, and its length in bytes.
    pub open spec fn cmdline_request(self) -> ReadRequest {
        match self {
            ProcessParameters::Native(p) => ReadRequest {
                address: p.command_line,
                size: p.command_line_length as usize,
            },
            ProcessParameters::Wow64(p) => ReadRequest {
                address: p.command_line as u64,
                size: p.command_line_length as usize,
            },
        }
    }

    /// Where the path of the working directory lies, and its length in
    /// bytes.
    pub open spec fn cwd_request(self) -> ReadRequest {
        match self {
            ProcessParameters::Native(p) => ReadRequest {
                address: p.current_directory,
                size: p.current_directory_length as usize,
            },
            ProcessParameters::Wow64(p) => ReadRequest {
                address: p.current_directory as u64,
                size: p.current_directory_length as usize,
            },
        }
    }

    /// Where the environment block starts. The block records no length.
    pub open spec fn environ_address(self) -> u64 {
        match self {
            ProcessParameters::Native(p) => p.environment,
            ProcessParameters::Wow64(p) => p.environment as u64,
        }
    }

    pub fn get_layout(&self) -> (layout: Layout)
        ensures
            layout == self.layout(),
    {
        match self {
            ProcessParameters::Native(_) => Layout::Native,
            ProcessParameters::Wow64(_) => Layout::Wow64,
        }
    }

    pub fn get_cmdline(&self) -> (request: ReadRequest)
        ensures
            request == self.cmdline_request(),
    {
        match self {
            ProcessParameters::Native(p) => ReadRequest {
                address: p.command_line,
                size: p.command_line_length as usize,
            },
            ProcessParameters::Wow64(p) => ReadRequest {
                address: p.command_line as u64,
                size: p.command_line_length as usize,
            },
        }
    }

    pub fn get_cwd(&self) -> (request: ReadRequest)
        ensures
            request == self.cwd_request(),
    {
        match self {
            ProcessParameters::Native(p) => ReadRequest {
                address: p.current_directory,
                size: p.current_directory_length as usize,
            },
            ProcessParameters::Wow64(p) => ReadRequest {
                address: p.current_directory as u64,
                size: p.current_directory_length as usize,
            },
        }
    }

    pub fn get_environ(&self) -> (address: u64)
        ensures
            address == self.environ_address(),
    {
        match self {
            ProcessParameters::Native(p) => p.environment,
            ProcessParameters::Wow64(p) => p.environment as u64,
        }
    }
}

/// Why the parameter block of a process could not be found.
#[derive(Clone, Copy, Debug, PartialEq, Eq, Structural)]
pub enum LocateError {
    UnsupportedHost,
    Wow64Probe,
    BasicInformation,
    Peb,
    Parameters,
    Peb32,
    Parameters32,
}

impl LocateError {
    pub open spec fn text(self) -> Seq<char> {
        match self {
            LocateError::UnsupportedHost => "Non 64 bit targets are not supported"@,
            LocateError::Wow64Probe => "Unable to check WOW64 information about the process"@,
            LocateError::BasicInformation => "Unable to get basic process information"@,
            LocateError::Peb => "Unable to read process PEB"@,
            LocateError::Parameters => "Unable to read process parameters"@,
            LocateError::Peb32 => "Unable to read PEB32"@,
            LocateError::Parameters32 => "Unable to read 32 bit process parameters"@,
        }
    }

    /// The error in words, for a diagnostic log.
    pub fn message(&self) -> (words: &'static str)
        ensures
            words@ == self.text(),
    {
        match self {
            LocateError::UnsupportedHost => "Non 64 bit targets are not supported",
            LocateError::Wow64Probe => "Unable to check WOW64 information about the process",
            LocateError::BasicInformation => "Unable to get basic process information",
            LocateError::Peb => "Unable to read process PEB",
            LocateError::Parameters => "Unable to read process parameters",
            LocateError::Peb32 => "Unable to read PEB32",
            LocateError::Parameters32 => "Unable to read 32 bit process parameters",
        }
    }
}

/// The request that is outstanding while a parameter block is being located.
#[derive(Clone, Copy, Debug, PartialEq, Eq, Structural)]
pub enum LocateRequest {
    /// Ask for the address of the target's 32-bit environment block; zero
    /// says that the target is native.
    Wow64Probe,
    /// Ask for the address of the native environment block.
    BasicInformation,
    /// Read the environment block at `address`; it holds the address of the
    /// parameter block.
    Peb { layout: Layout, address: u64 },
    /// Read the parameter block at `address`.
    Parameters { layout: Layout, address: u64 },
}

/// What the host answered to a `LocateRequest`.
#[derive(Clone, Copy, Debug, PartialEq, Eq, Structural)]
pub enum LocateEvent {
    /// The query or the read failed.
    Failed,
    /// The address that the first three requests ask for.
    Address(u64),
    /// The parameter block that the last request asks for.
    Block(ProcessParameters),
}

/// Where locating stands after an answer.
#[derive(Clone, Copy, Debug, PartialEq, Eq, Structural)]
pub enum LocateStep {
    Ask(LocateRequest),
    Found(ProcessParameters),
    Failed(LocateError),
}

impl LocateRequest {
    /// The error that a failure of this request stands for.
    pub open spec fn failure(self) -> LocateError {
        match self {
            LocateRequest::Wow64Probe => LocateError::Wow64Probe,
            LocateRequest::BasicInformation => LocateError::BasicInformation,
            LocateRequest::Peb { layout: Layout::Native, .. } => LocateError::Peb,
            LocateRequest::Peb { layout: Layout::Wow64, .. } => LocateError::Peb32,
            LocateRequest::Parameters { layout: Layout::Native, .. } => LocateError::Parameters,
            LocateRequest::Parameters { layout: Layout::Wow64, .. } => LocateError::Parameters32,
        }
    }

    /// How many requests can still follow this one, itself included.
    pub open spec fn remaining(self) -> nat {
        match self {
            LocateRequest::Wow64Probe => 4,
            LocateRequest::BasicInformation => 3,
            LocateRequest::Peb { .. } => 2,
            LocateRequest::Parameters { .. } => 1,
        }
    }

    fn get_failure(&self) -> (error: LocateError)
        ensures
            error == self.failure(),
    {
        match self {
            LocateRequest::Wow64Probe => LocateError::Wow64Probe,
            LocateRequest::BasicInformation => LocateError::BasicInformation,
            LocateRequest::Peb { layout: Layout::Native, .. } => LocateError::Peb,
            LocateRequest::Peb { layout: Layout::Wow64, .. } => LocateError::Peb32,
            LocateRequest::Parameters { layout: Layout::Native, .. } => LocateError::Parameters,
            LocateRequest::Parameters { layout: Layout::Wow64, .. } => LocateError::Parameters32,
        }
    }
}

/// The first step: a host that is not 64 bits wide cannot read the
/// structures of its targets; any other starts by probing the target's
/// bitness.
pub open spec fn locate_first(host_bits: u32) -> LocateStep {
    if host_bits == 64 {
        LocateStep::Ask(LocateRequest::Wow64Probe)
    } else {
        LocateStep::Failed(LocateError::UnsupportedHost)
    }
}

/// The step that follows when `event` answers `pending`.
///
/// A zero answer to the bitness probe leads over the native environment
/// block, any other address is that of the 32-bit one. The environment block
/// gives the address of the parameter block, which is accepted if its layout
/// is the one that was asked for. Every other answer is the failure of the
/// pending request.
pub open spec fn locate_next(pending: LocateRequest, event: LocateEvent) -> LocateStep {
    match (pending, event) {
        (LocateRequest::Wow64Probe, LocateEvent::Address(address)) => if address == 0 {
            LocateStep::Ask(LocateRequest::BasicInformation)
        } else {
            LocateStep::Ask(LocateRequest::Peb { layout: Layout::Wow64, address })
        },
        (LocateRequest::BasicInformation, LocateEvent::Address(address)) => LocateStep::Ask(
            LocateRequest::Peb { layout: Layout::Native, address },
        ),
        (LocateRequest::Peb { layout, .. }, LocateEvent::Address(address)) => LocateStep::Ask(
            LocateRequest::Parameters { layout, address },
        ),
        (LocateRequest::Parameters { layout, .. }, LocateEvent::Block(block)) => if block.layout()
            == layout {
            LocateStep::Found(block)
        } else {
            LocateStep::Failed(pending.failure())
        },
        _ => LocateStep::Failed(pending.failure()),
    }
}

/// Starts locating the parameter block of a target, on a host whose pointers
/// are `host_bits` wide.
pub fn get_process_params(host_bits: u32) -> (step: LocateStep)
    ensures
        step == locate_first(host_bits),
{
    if host_bits == 64 {
        LocateStep::Ask(LocateRequest::Wow64Probe)
    } else {
        LocateStep::Failed(LocateError::UnsupportedHost)
    }
}

/// Takes the host's answer to the pending request and says how locating
/// goes on. Each request that it asks for is nearer to the end than the one
/// before.
pub fn get_process_params_next(pending: LocateRequest, event: LocateEvent) -> (step: LocateStep)
    ensures
        step == locate_next(pending, event),
        step matches LocateStep::Ask(request) ==> request.remaining() < pending.remaining(),
{
    match (pending, event) {
        (LocateRequest::Wow64Probe, LocateEvent::Address(address)) => {
            if address == 0 {
                LocateStep::Ask(LocateRequest::BasicInformation)
            } else {
                LocateStep::Ask(LocateRequest::Peb { layout: Layout::Wow64, address })
            }
        },
        (LocateRequest::BasicInformation, LocateEvent::Address(address)) => {
            LocateStep::Ask(LocateRequest::Peb { layout: Layout::Native, address })
        },
        (LocateRequest::Peb { layout, .. }, LocateEvent::Address(address)) => {
            LocateStep::Ask(LocateRequest::Parameters { layout, address })
        },
        (LocateRequest::Parameters { layout, .. }, LocateEvent::Block(block)) => {
            if block.get_layout() == layout {
                LocateStep::Found(block)
            } else {
                LocateStep::Failed(pending.get_failure())
            }
        },
        _ => LocateStep::Failed(pending.get_failure()),
    }
}

/// Where locating stands once the host's answers have been taken in order,
/// starting from `step`. Answers that come after the end change nothing.
pub open spec fn locate_run(step: LocateStep, events: Seq<LocateEvent>) -> LocateStep
    decreases events.len(),
{
    if events.len() == 0 {
        step
    } else {
        match step {
            LocateStep::Ask(request) => locate_run(
                locate_next(request, events[0]),
                events.drop_first(),
            ),
            _ => step,
        }
    }
}

/// The number of requests that can still be made from a step on.
pub open spec fn locate_remaining(step: LocateStep) -> nat {
    match step {
        LocateStep::Ask(request) => request.remaining(),
        _ => 0,
    }
}

proof fn lemma_locate_run_ends(step: LocateStep, events: Seq<LocateEvent>)
    requires
        events.len() >= locate_remaining(step),
    ensures
        !(locate_run(step, events) is Ask),
    decreases events.len(),
{
    if let LocateStep::Ask(request) = step {
        lemma_locate_run_ends(locate_next(request, events[0]), events.drop_first());
    }
}

/// Locating never takes more than four answers: after four, the block is
/// found or the attempt has failed.
pub proof fn lemma_locate_is_bounded(host_bits: u32, events: Seq<LocateEvent>)
    requires
        events.len() >= 4,
    ensures
        !(locate_run(locate_first(host_bits), events) is Ask),
{
    lemma_locate_run_ends(locate_first(host_bits), events);
}

/// A native target is located over its own environment block: the probe
/// answers zero, and the three addresses that follow lead to the block.
pub proof fn lemma_locate_native(peb: u64, parameters: u64, block: NativeParameters)
    ensures
        locate_run(
            locate_first(64),
            seq![
                LocateEvent::Address(0),
                LocateEvent::Address(peb),
                LocateEvent::Address(parameters),
                LocateEvent::Block(ProcessParameters::Native(block)),
            ],
        ) == LocateStep::Found(ProcessParameters::Native(block)),
{
    reveal_with_fuel(locate_run, 5);
    let events = seq![
        LocateEvent::Address(0),
        LocateEvent::Address(peb),
        LocateEvent::Address(parameters),
        LocateEvent::Block(ProcessParameters::Native(block)),
    ];
    assert(events.drop_first().drop_first().drop_first().drop_first().len() == 0);
}

/// A target under the compatibility layer is located over the 32-bit
/// environment block whose address the probe answered.
pub proof fn lemma_locate_wow64(peb32: u64, parameters: u64, block: Wow64Parameters)
    requires
        peb32 != 0,
    ensures
        locate_run(
            locate_first(64),
            seq![
                LocateEvent::Address(peb32),
                LocateEvent::Address(parameters),
                LocateEvent::Block(ProcessParameters::Wow64(block)),
            ],
        ) == LocateStep::Found(ProcessParameters::Wow64(block)),
{
    reveal_with_fuel(locate_run, 4);
    let events = seq![
        LocateEvent::Address(peb32),
        LocateEvent::Address(parameters),
        LocateEvent::Block(ProcessParameters::Wow64(block)),
    ];
    assert(events.drop_first().drop_first().drop_first().len() == 0);
}

/// A block is only ever found on a 64-bit host, and in the layout that the
/// bitness probe called for: the native one exactly if the probe answered
/// zero.
pub proof fn lemma_found_layout_follows_probe(
    host_bits: u32,
    events: Seq<LocateEvent>,
    block: ProcessParameters,
)
    requires
        locate_run(locate_first(host_bits), events) == LocateStep::Found(block),
    ensures
        host_bits == 64,
        events.len() >= 3,
        events[0] matches LocateEvent::Address(probe) && (probe == 0 <==> block.layout()
            == Layout::Native),
{
    reveal_with_fuel(locate_run, 5);
    if host_bits == 64 && events.len() > 0 {
        let first = locate_next(LocateRequest::Wow64Probe, events[0]);
        let rest = events.drop_first();
        if let LocateStep::Ask(second_request) = first {
            if rest.len() > 0 {
                let second = locate_next(second_request, rest[0]);
                let rest2 = rest.drop_first();
                if let LocateStep::Ask(third_request) = second {
                    if rest2.len() > 0 {
                        let third = locate_next(third_request, rest2[0]);
                        let rest3 = rest2.drop_first();
                        if let LocateStep::Ask(fourth_request) = third {
                            if rest3.len() > 0 {
                                let fourth = locate_next(fourth_request, rest3[0]);
                                lemma_locate_run_ends(fourth, rest3.drop_first());
                            }
                        }
                    }
                }
            }
        }
    }
}

/// Why a piece of the target's memory could not be had.
#[derive(Clone, Copy, Debug, PartialEq, Eq, Structural)]
pub enum ReadError {
    /// The extent of the memory region is not known.
    RegionQuery,
    /// The host refused the read.
    Read,
    /// The host copied another number of bytes than was asked for.
    ShortRead,
}

impl ReadError {
    pub open spec fn text(self) -> Seq<char> {
        match self {
            ReadError::RegionQuery => "Unable to read process memory information"@,
            ReadError::Read => "Unable to read process data"@,
            ReadError::ShortRead => "ReadProcessMemory returned unexpected number of bytes read"@,
        }
    }

    /// The error in words, for a diagnostic log.
    pub fn message(&self) -> (words: &'static str)
        ensures
            words@ == self.text(),
    {
        match self {
            ReadError::RegionQuery => "Unable to read process memory information",
            ReadError::Read => "Unable to read process data",
            ReadError::ShortRead => "ReadProcessMemory returned unexpected number of bytes read",
        }
    }
}

/// The memory region that an address of the target lies in.
#[derive(Clone, Copy, Debug, PartialEq, Eq, Structural)]
pub struct Region {
    pub base: u64,
    pub size: usize,
}

/// The bytes from `address` to the end of `region`, if the address lies in
/// the region.
pub open spec fn region_extent(address: u64, region: Region) -> Option<usize> {
    if region.base <= address && address - region.base <= region.size {
        Some((region.size - (address - region.base)) as usize)
    } else {
        None
    }
}

/// The number of bytes that can be read from `address` on: the size of its
/// region less the offset of the address from the region's base. Without a
/// region, or with one that does not hold the address, the extent is not
/// known.
pub fn get_region_size(address: u64, region: Option<Region>) -> (extent: Result<usize, ReadError>)
    ensures
        extent == match region {
            Some(found) => match region_extent(address, found) {
                Some(size) => Ok::<usize, ReadError>(size),
                None => Err(ReadError::RegionQuery),
            },
            None => Err(ReadError::RegionQuery),
        },
{
    match region {
        Some(found) => {
            if found.base <= address && address - found.base <= found.size as u64 {
                let offset: usize = (address - found.base) as usize;
                Ok(found.size - offset)
            } else {
                Err(ReadError::RegionQuery)
            }
        },
        None => Err(ReadError::RegionQuery),
    }
}

/// What the host answered to a `ReadRequest`.
#[derive(Debug)]
pub struct ReadReply {
    /// Whether the host reported success.
    pub completed: bool,
    /// The number of bytes that it copied.
    pub transferred: usize,
    /// What it copied, as 16-bit units.
    pub units: Vec<u16>,
}

/// Whether an answer holds all that was asked for: the host reported
/// success and copied exactly `size` bytes. A part of such data is of no
/// use.
pub open spec fn read_is_whole(size: usize, reply: ReadReply) -> bool {
    reply.completed && reply.transferred == size && reply.units@.len() >= size / 2
}

/// Checks the host's answer to a read of `size` bytes and gives the units
/// that were read, with a terminator behind them.
pub fn get_process_data(size: usize, reply: ReadReply) -> (data: Result<Vec<u16>, ReadError>)
    ensures
        match data {
            Ok(buffer) => read_is_whole(size, reply) && buffer@ == reply.units@.take(
                size as int / 2,
            ).push(TERMINATOR),
            Err(error) => !read_is_whole(size, reply) && error == (if reply.completed {
                ReadError::ShortRead
            } else {
                ReadError::Read
            }),
        },
{
    if !reply.completed {
        return Err(ReadError::Read);
    }
    if reply.transferred != size || reply.units.len() < size / 2 {
        return Err(ReadError::ShortRead);
    }
    let mut buffer: Vec<u16> = reply.units;
    buffer.truncate(size / 2);
    buffer.push(TERMINATOR);
    Ok(buffer)
}

/// The working directory that a read of its path gave: the text before the
/// terminator, or nothing where the read failed.
pub fn get_cwd(read: Result<Vec<u16>, ReadError>) -> (path: String)
    ensures
        path@ == match read {
            Ok(buffer) => utf16_lossy(until_terminator(buffer@)),
            Err(_) => Seq::<char>::empty(),
        },
{
    match read {
        Ok(buffer) => null_terminated_wchar_to_string(buffer.as_slice()),
        Err(_) => String::new(),
    }
}

/// The environment that a read of its block gave: the entries of the block,
/// or none where the read failed.
pub fn get_proc_env(read: Result<Vec<u16>, ReadError>) -> (variables: Vec<String>)
    ensures
        text_views(variables@) == match read {
            Ok(buffer) => decoded(environment_entries(buffer@)),
            Err(_) => Seq::<Seq<char>>::empty(),
        },
{
    match read {
        Ok(buffer) => {
            let entries: Vec<Vec<u16>> = split_environment(buffer.as_slice());
            decode_all(&entries)
        },
        Err(_) => {
            let variables: Vec<String> = Vec::new();
            assert(text_views(variables@) =~= Seq::<Seq<char>>::empty());
            variables
        },
    }
}

/// How the command line of a target is to be had.
#[derive(Clone, Copy, Debug, PartialEq, Eq, Structural)]
pub enum CommandLineSource {
    /// Ask the host for it, by a query of variable length.
    Query,
    /// Read it from the target's memory.
    Memory(ReadRequest),
}

/// Picks the way to the command line: hosts that support the newer query
/// are asked, on older ones the text is read where the parameter block
/// points.
pub fn get_cmd_line(parameters: &ProcessParameters, newer_host: bool) -> (source: CommandLineSource)
    ensures
        source == (if newer_host {
            CommandLineSource::Query
        } else {
            CommandLineSource::Memory(parameters.cmdline_request())
        }),
{
    if newer_host {
        CommandLineSource::Query
    } else {
        CommandLineSource::Memory(parameters.get_cmdline())
    }
}

/// The number of units that the header of counted text takes up on a
/// 64-bit host: two lengths of one unit each, two units of padding, and the
/// address of the text in four units.
pub const TEXT_HEADER_UNITS: usize = 8;

/// The address that four units hold, lowest unit first.
pub open spec fn address_of(low: u16, second: u16, third: u16, high: u16) -> int {
    low + second * 0x1_0000 + third * 0x1_0000_0000 + high * 0x1_0000_0000_0000
}

/// The index at which the text of an answer starts. The answer begins with
/// a header that holds the address of the text; the answer itself lay at
/// `base` when the host wrote it. There is no such index where the answer is
/// too short for a header, or the address does not point at a unit of the
/// answer.
pub open spec fn counted_text_start(units: Seq<u16>, base: u64) -> Option<int> {
    if units.len() < TEXT_HEADER_UNITS {
        None
    } else {
        let address = address_of(units[4], units[5], units[6], units[7]);
        let offset = address - base;
        if offset >= 0 && offset % 2 == 0 && offset / 2 <= units.len() {
            Some(offset / 2)
        } else {
            None
        }
    }
}

/// The command line that a query for it gave, ready to be split: the
/// units of the answer from where its header points, up to the end of the
/// answer. There is none where the query failed or the header points
/// elsewhere.
pub fn get_cmd_line_new(answer: Option<Vec<u16>>, base: u64) -> (text: Option<Vec<u16>>)
    ensures
        match text {
            Some(found) => answer is Some && counted_text_start(answer->0@, base) is Some
                && found@ == answer->0@.skip(counted_text_start(answer->0@, base)->0),
            None => answer is None || counted_text_start(answer->0@, base) is None,
        },
{
    let mut units: Vec<u16> = match answer {
        Some(units) => units,
        None => {
            return None;
        },
    };
    if units.len() < TEXT_HEADER_UNITS {
        return None;
    }
    let address: u64 = units[4] as u64 + units[5] as u64 * 0x1_0000 + units[6] as u64
        * 0x1_0000_0000 + units[7] as u64 * 0x1_0000_0000_0000;
    if address < base {
        return None;
    }
    let offset: u64 = address - base;
    if offset % 2 != 0 || offset / 2 > units.len() as u64 {
        return None;
    }
    let start: usize = (offset / 2) as usize;
    let text: Vec<u16> = units.split_off(start);
    Some(text)
}

/// The command line that a read of the target's memory gave, ready to be
/// split; none where the read failed.
pub fn get_cmd_line_old(read: Result<Vec<u16>, ReadError>) -> (text: Option<Vec<u16>>)
    ensures
        text == match read {
            Ok(buffer) => Some(buffer),
            Err(_) => None,
        },
{
    match read {
        Ok(buffer) => Some(buffer),
        Err(_) => None,
    }
}

/// The arguments of a command line that the host has split: each one
/// decoded, in order. Where the host could not split the line there are
/// none.
pub fn get_cmdline_from_buffer(split: Option<Vec<Vec<u16>>>) -> (arguments: Vec<String>)
    ensures
        text_views(arguments@) == match split {
            Some(raw) => decoded(unit_views(raw@)),
            None => Seq::<Seq<char>>::empty(),
        },
{
    match split {
        Some(raw) => decode_all(&raw),
        None => {
            let arguments: Vec<String> = Vec::new();
            assert(text_views(arguments@) =~= Seq::<Seq<char>>::empty());
            arguments
        },
    }
}

} // verus!
