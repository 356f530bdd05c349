use process_probe::params::{
    get_cmd_line, get_cmd_line_new, get_cmd_line_old, get_process_data, get_process_params, get_process_params_next, get_region_size,
    CommandLineSource, Layout, LocateError, LocateEvent, LocateRequest, LocateStep,
    NativeParameters, ProcessParameters, ReadError, ReadReply, ReadRequest, Region,
    Wow64Parameters,
};

fn native_block() -> NativeParameters {
    NativeParameters {
        command_line: 0x7ff6_0000_1000,
        command_line_length: 54,
        current_directory: 0x7ff6_0000_2000,
        current_directory_length: 22,
        environment: 0x7ff6_0000_3000,
    }
}

fn wow64_block() -> Wow64Parameters {
    Wow64Parameters {
        command_line: 0x0040_1000,
        command_line_length: 18,
        current_directory: 0x0040_2000,
        current_directory_length: 6,
        environment: 0xfff0_3000,
    }
}

/// Locates a block against a list of answers and lists the requests made.
fn locate(host_bits: u32, answers: &[LocateEvent]) -> (LocateStep, Vec<LocateRequest>) {
    let mut requests = Vec::new();
    let mut step = get_process_params(host_bits);
    let mut next_answer = answers.iter();
    while let LocateStep::Ask(request) = step {
        requests.push(request);
        let event = match next_answer.next() {
            Some(event) => *event,
            None => return (step, requests),
        };
        step = get_process_params_next(request, event);
    }
    (step, requests)
}

#[test]
fn hosts_of_another_width_are_not_supported() {
    assert_eq!(get_process_params(32), LocateStep::Failed(LocateError::UnsupportedHost));
    assert_eq!(get_process_params(16), LocateStep::Failed(LocateError::UnsupportedHost));
    assert_eq!(get_process_params(64), LocateStep::Ask(LocateRequest::Wow64Probe));
    assert_eq!(LocateError::UnsupportedHost.message(), "Non 64 bit targets are not supported");
}

#[test]
fn native_target_is_located_over_its_own_block() {
    let block = ProcessParameters::Native(native_block());
    let (step, requests) = locate(
        64,
        &[
            LocateEvent::Address(0),
            LocateEvent::Address(0x1000),
            LocateEvent::Address(0x2000),
            LocateEvent::Block(block),
        ],
    );
    assert_eq!(step, LocateStep::Found(block));
    assert_eq!(
        requests,
        vec![
            LocateRequest::Wow64Probe,
            LocateRequest::BasicInformation,
            LocateRequest::Peb { layout: Layout::Native, address: 0x1000 },
            LocateRequest::Parameters { layout: Layout::Native, address: 0x2000 },
        ]
    );
}

#[test]
fn wow64_target_is_located_over_the_32_bit_block() {
    let block = ProcessParameters::Wow64(wow64_block());
    let (step, requests) = locate(
        64,
        &[LocateEvent::Address(0x7efd_e000), LocateEvent::Address(0x0025_0000), LocateEvent::Block(block)],
    );
    assert_eq!(step, LocateStep::Found(block));
    assert_eq!(
        requests,
        vec![
            LocateRequest::Wow64Probe,
            LocateRequest::Peb { layout: Layout::Wow64, address: 0x7efd_e000 },
            LocateRequest::Parameters { layout: Layout::Wow64, address: 0x0025_0000 },
        ]
    );
}

#[test]
fn each_failed_step_has_its_own_error() {
    let failed = LocateEvent::Failed;
    let zero = LocateEvent::Address(0);
    let some = LocateEvent::Address(0x5000);
    let cases: Vec<(Vec<LocateEvent>, LocateError, &str)> = vec![
        (vec![failed], LocateError::Wow64Probe, "Unable to check WOW64 information about the process"),
        (vec![zero, failed], LocateError::BasicInformation, "Unable to get basic process information"),
        (vec![zero, some, failed], LocateError::Peb, "Unable to read process PEB"),
        (vec![zero, some, some, failed], LocateError::Parameters, "Unable to read process parameters"),
        (vec![some, failed], LocateError::Peb32, "Unable to read PEB32"),
        (vec![some, some, failed], LocateError::Parameters32, "Unable to read 32 bit process parameters"),
    ];
    for (answers, error, message) in cases {
        let (step, requests) = locate(64, &answers);
        assert_eq!(step, LocateStep::Failed(error));
        assert_eq!(requests.len(), answers.len());
        assert_eq!(error.message(), message);
    }
}

#[test]
fn block_of_the_wrong_layout_is_refused() {
    let pending = LocateRequest::Parameters { layout: Layout::Native, address: 0x2000 };
    let event = LocateEvent::Block(ProcessParameters::Wow64(wow64_block()));
    assert_eq!(get_process_params_next(pending, event), LocateStep::Failed(LocateError::Parameters));
    let pending = LocateRequest::Parameters { layout: Layout::Wow64, address: 0x2000 };
    let event = LocateEvent::Block(ProcessParameters::Native(native_block()));
    assert_eq!(
        get_process_params_next(pending, event),
        LocateStep::Failed(LocateError::Parameters32)
    );
}

#[test]
fn answer_of_the_wrong_kind_fails_the_step() {
    let block = LocateEvent::Block(ProcessParameters::Native(native_block()));
    assert_eq!(
        get_process_params_next(LocateRequest::Wow64Probe, block),
        LocateStep::Failed(LocateError::Wow64Probe)
    );
    assert_eq!(
        get_process_params_next(
            LocateRequest::Parameters { layout: Layout::Native, address: 1 },
            LocateEvent::Address(7)
        ),
        LocateStep::Failed(LocateError::Parameters)
    );
}

#[test]
fn fields_are_read_where_the_block_points() {
    let native = ProcessParameters::Native(native_block());
    assert_eq!(native.get_layout(), Layout::Native);
    assert_eq!(native.get_cmdline(), ReadRequest { address: 0x7ff6_0000_1000, size: 54 });
    assert_eq!(native.get_cwd(), ReadRequest { address: 0x7ff6_0000_2000, size: 22 });
    assert_eq!(native.get_environ(), 0x7ff6_0000_3000);
    let wow64 = ProcessParameters::Wow64(wow64_block());
    assert_eq!(wow64.get_layout(), Layout::Wow64);
    assert_eq!(wow64.get_cmdline(), ReadRequest { address: 0x0040_1000, size: 18 });
    assert_eq!(wow64.get_cwd(), ReadRequest { address: 0x0040_2000, size: 6 });
    assert_eq!(wow64.get_environ(), 0xfff0_3000);
}

#[test]
fn region_size_is_counted_from_the_address() {
    let region = Region { base: 0x1000, size: 0x3000 };
    assert_eq!(get_region_size(0x1000, Some(region)), Ok(0x3000));
    assert_eq!(get_region_size(0x1800, Some(region)), Ok(0x2800));
    assert_eq!(get_region_size(0x4000, Some(region)), Ok(0));
    assert_eq!(get_region_size(0x4001, Some(region)), Err(ReadError::RegionQuery));
    assert_eq!(get_region_size(0x0fff, Some(region)), Err(ReadError::RegionQuery));
    assert_eq!(get_region_size(0x1800, None), Err(ReadError::RegionQuery));
    assert_eq!(ReadError::RegionQuery.message(), "Unable to read process memory information");
}

#[test]
fn whole_reads_are_terminated() {
    let reply = ReadReply { completed: true, transferred: 6, units: vec![0x41, 0x3d, 0x31] };
    assert_eq!(get_process_data(6, reply), Ok(vec![0x41, 0x3d, 0x31, 0]));
    let reply = ReadReply { completed: true, transferred: 4, units: vec![1, 2, 3, 4] };
    assert_eq!(get_process_data(4, reply), Ok(vec![1, 2, 0]));
    let reply = ReadReply { completed: true, transferred: 5, units: vec![1, 2, 3] };
    assert_eq!(get_process_data(5, reply), Ok(vec![1, 2, 0]));
    let reply = ReadReply { completed: true, transferred: 0, units: Vec::new() };
    assert_eq!(get_process_data(0, reply), Ok(vec![0]));
}

#[test]
fn partial_and_refused_reads_are_errors() {
    let reply = ReadReply { completed: false, transferred: 6, units: vec![1, 2, 3] };
    assert_eq!(get_process_data(6, reply), Err(ReadError::Read));
    let reply = ReadReply { completed: true, transferred: 4, units: vec![1, 2, 3] };
    assert_eq!(get_process_data(6, reply), Err(ReadError::ShortRead));
    let reply = ReadReply { completed: true, transferred: 8, units: vec![1, 2, 3, 4] };
    assert_eq!(get_process_data(6, reply), Err(ReadError::ShortRead));
    let reply = ReadReply { completed: true, transferred: 6, units: vec![1, 2] };
    assert_eq!(get_process_data(6, reply), Err(ReadError::ShortRead));
    assert_eq!(ReadError::Read.message(), "Unable to read process data");
    assert_eq!(
        ReadError::ShortRead.message(),
        "ReadProcessMemory returned unexpected number of bytes read"
    );
}

#[test]
fn command_line_source_follows_the_host() {
    let native = ProcessParameters::Native(native_block());
    assert_eq!(get_cmd_line(&native, true), CommandLineSource::Query);
    assert_eq!(
        get_cmd_line(&native, false),
        CommandLineSource::Memory(ReadRequest { address: 0x7ff6_0000_1000, size: 54 })
    );
    let wow64 = ProcessParameters::Wow64(wow64_block());
    assert_eq!(get_cmd_line(&wow64, true), CommandLineSource::Query);
    assert_eq!(
        get_cmd_line(&wow64, false),
        CommandLineSource::Memory(ReadRequest { address: 0x0040_1000, size: 18 })
    );
}

/// An answer to a query for counted text, as the host writes it at `base`:
/// the header, some units in between, and the text.
fn counted(base: u64, gap: usize, text: &str) -> Vec<u16> {
    let units: Vec<u16> = text.encode_utf16().collect();
    let address = base + 16 + 2 * gap as u64;
    let mut answer = vec![
        (units.len() * 2) as u16,
        (units.len() * 2 + 2) as u16,
        0,
        0,
        address as u16,
        (address >> 16) as u16,
        (address >> 32) as u16,
        (address >> 48) as u16,
    ];
    answer.extend(std::iter::repeat(0xffff).take(gap));
    answer.extend(units);
    answer.push(0);
    answer
}

#[test]
fn queried_command_line_starts_where_the_header_points() {
    let base: u64 = 0x0000_01f4_56ab_c000;
    let mut expected: Vec<u16> = "app.exe -v".encode_utf16().collect();
    expected.push(0);
    assert_eq!(get_cmd_line_new(Some(counted(base, 0, "app.exe -v")), base), Some(expected.clone()));
    assert_eq!(get_cmd_line_new(Some(counted(base, 3, "app.exe -v")), base), Some(expected));
    assert_eq!(get_cmd_line_new(Some(counted(base, 0, "")), base), Some(vec![0]));
    assert_eq!(get_cmd_line_new(None, base), None);
}

#[test]
fn queried_command_line_with_a_stray_header_is_refused() {
    let base: u64 = 0x0000_01f4_56ab_c000;
    let answer = counted(base, 0, "app.exe");
    // The answer lay somewhere else: the address points before it, or far behind it.
    assert_eq!(get_cmd_line_new(Some(answer.clone()), base + 0x100), None);
    assert_eq!(get_cmd_line_new(Some(answer.clone()), base - 0x100), None);
    // An address between two units is none.
    assert_eq!(get_cmd_line_new(Some(answer.clone()), base - 1), None);
    // The address of the end of the answer is that of an empty text.
    let end = base + 16 - 2 * answer.len() as u64;
    assert_eq!(get_cmd_line_new(Some(answer.clone()), end), Some(Vec::new()));
    assert_eq!(get_cmd_line_new(Some(answer), end - 2), None);
    // Too short for a header.
    assert_eq!(get_cmd_line_new(Some(vec![0; 7]), 0), None);
    assert_eq!(get_cmd_line_new(Some(Vec::new()), 0), None);
    // An address in the header itself is taken as it is.
    assert_eq!(get_cmd_line_new(Some(vec![0; 8]), 0), Some(vec![0; 8]));
}

#[test]
fn read_command_line_is_passed_on() {
    assert_eq!(get_cmd_line_old(Ok(vec![0x61, 0x20, 0x62, 0])), Some(vec![0x61, 0x20, 0x62, 0]));
    assert_eq!(get_cmd_line_old(Err(ReadError::Read)), None);
    assert_eq!(get_cmd_line_old(Err(ReadError::ShortRead)), None);
}
