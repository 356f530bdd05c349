use process_probe::negotiate::{
    is_wrong_size, ph_query_process_variable_size, ph_query_process_variable_size_next,
    Negotiation, QueryError, QueryReply, QueryStep, Selector, ERROR_INSUFFICIENT_BUFFER,
    IMAGE_NAME_CAPACITY, MAX_SIZE_MISMATCHES, STATUS_BUFFER_OVERFLOW, STATUS_BUFFER_TOO_SMALL,
    STATUS_INFO_LENGTH_MISMATCH,
};

const OVERFLOW: i32 = -1879048187;
const TOO_SMALL: i32 = -805306333;
const LENGTH_MISMATCH: i32 = -805306364;
const INSUFFICIENT_BUFFER: i32 = -2147024774;
const ACCESS_DENIED: i32 = -805306334;

fn wide(text: &str) -> Vec<u16> {
    text.encode_utf16().collect()
}

/// Runs a query against a simulated host and counts how often it was asked.
fn run_query(
    selector: Selector,
    host: &mut dyn FnMut(Negotiation) -> QueryReply,
) -> (Result<Vec<u16>, QueryError>, usize) {
    let mut asked = 0;
    let mut step = ph_query_process_variable_size(selector);
    loop {
        match step {
            QueryStep::Ask(pending) => {
                asked += 1;
                assert!(asked <= 100, "the query does not end");
                let reply = host(pending);
                step = ph_query_process_variable_size_next(pending, reply);
            }
            QueryStep::Done(data) => return (Ok(data), asked),
            QueryStep::Failed(error) => return (Err(error), asked),
        }
    }
}

#[test]
fn wrong_size_codes_are_told_apart_by_selector() {
    assert!(is_wrong_size(Selector::CommandLine, OVERFLOW));
    assert!(is_wrong_size(Selector::CommandLine, TOO_SMALL));
    assert!(is_wrong_size(Selector::CommandLine, LENGTH_MISMATCH));
    assert!(!is_wrong_size(Selector::CommandLine, INSUFFICIENT_BUFFER));
    assert!(!is_wrong_size(Selector::CommandLine, ACCESS_DENIED));
    assert!(is_wrong_size(Selector::ImageName, LENGTH_MISMATCH));
    assert!(!is_wrong_size(Selector::ImageName, OVERFLOW));
    assert!(!is_wrong_size(Selector::ImageName, TOO_SMALL));
    assert!(is_wrong_size(Selector::TokenUser, INSUFFICIENT_BUFFER));
    assert!(!is_wrong_size(Selector::TokenUser, LENGTH_MISMATCH));
}

#[test]
fn wrong_size_codes_are_result_codes_not_raw_statuses() {
    assert!(!is_wrong_size(Selector::CommandLine, STATUS_BUFFER_OVERFLOW));
    assert!(!is_wrong_size(Selector::CommandLine, STATUS_BUFFER_TOO_SMALL));
    assert!(!is_wrong_size(Selector::CommandLine, STATUS_INFO_LENGTH_MISMATCH));
    assert!(!is_wrong_size(Selector::ImageName, STATUS_INFO_LENGTH_MISMATCH));
    assert!(!is_wrong_size(Selector::TokenUser, ERROR_INSUFFICIENT_BUFFER as i32));
    assert!(!is_wrong_size(Selector::TokenUser, 0));
}

#[test]
fn first_query_probes_for_the_length() {
    match ph_query_process_variable_size(Selector::CommandLine) {
        QueryStep::Ask(pending) => {
            assert_eq!(pending.selector, Selector::CommandLine);
            assert_eq!(pending.capacity, 0);
            assert_eq!(pending.mismatches, 0);
        }
        other => panic!("unexpected step {:?}", other),
    }
    match ph_query_process_variable_size(Selector::TokenUser) {
        QueryStep::Ask(pending) => assert_eq!(pending.capacity, 0),
        other => panic!("unexpected step {:?}", other),
    }
    match ph_query_process_variable_size(Selector::ImageName) {
        QueryStep::Ask(pending) => {
            assert_eq!(pending.capacity, IMAGE_NAME_CAPACITY);
            assert_eq!(pending.capacity, 128);
        }
        other => panic!("unexpected step {:?}", other),
    }
}

#[test]
fn query_converges_after_two_size_mismatches() {
    let text = wide("notepad.exe --open file.txt");
    let length = (text.len() * 2) as u32;
    let mut capacities = Vec::new();
    let mut host = |pending: Negotiation| {
        capacities.push(pending.capacity);
        match capacities.len() {
            1 => QueryReply { error: Some(LENGTH_MISMATCH), length: 10, units: Vec::new() },
            2 => QueryReply { error: Some(TOO_SMALL), length, units: vec![0; 5] },
            _ => QueryReply { error: None, length, units: text.clone() },
        }
    };
    let (data, asked) = run_query(Selector::CommandLine, &mut host);
    let mut expected = text.clone();
    expected.push(0);
    assert_eq!(data, Ok(expected));
    assert_eq!(asked, 3);
    assert_eq!(capacities, vec![0, 10, length]);
}

#[test]
fn query_with_endless_size_mismatches_fails_after_the_bound() {
    let mut wanted = 16;
    let mut host = |_pending: Negotiation| {
        wanted += 2;
        QueryReply { error: Some(OVERFLOW), length: wanted, units: Vec::new() }
    };
    let (data, asked) = run_query(Selector::CommandLine, &mut host);
    assert_eq!(data, Err(QueryError::Unsettled));
    assert_eq!(asked, MAX_SIZE_MISMATCHES as usize + 1);
    assert_eq!(asked, 4);
}

#[test]
fn query_tolerates_exactly_the_bound_of_mismatches() {
    let mut seen = 0;
    let mut host = |pending: Negotiation| {
        seen += 1;
        if seen <= 3 {
            QueryReply { error: Some(LENGTH_MISMATCH), length: 4, units: Vec::new() }
        } else {
            assert_eq!(pending.mismatches, 3);
            QueryReply { error: None, length: 4, units: vec![0x61, 0x62] }
        }
    };
    let (data, asked) = run_query(Selector::ImageName, &mut host);
    assert_eq!(data, Ok(vec![0x61, 0x62, 0]));
    assert_eq!(asked, 4);
}

#[test]
fn query_fails_on_any_other_error() {
    let mut host =
        |_pending: Negotiation| QueryReply { error: Some(ACCESS_DENIED), length: 64, units: Vec::new() };
    let (data, asked) = run_query(Selector::CommandLine, &mut host);
    assert_eq!(data, Err(QueryError::Rejected(ACCESS_DENIED)));
    assert_eq!(asked, 1);
    // The code for a small buffer of another interface is an error like any other.
    let mut host = |_pending: Negotiation| QueryReply {
        error: Some(INSUFFICIENT_BUFFER),
        length: 64,
        units: Vec::new(),
    };
    assert_eq!(
        run_query(Selector::ImageName, &mut host),
        (Err(QueryError::Rejected(INSUFFICIENT_BUFFER)), 1)
    );
}

#[test]
fn successful_probe_with_more_data_than_capacity_asks_again() {
    let pending = Negotiation { selector: Selector::CommandLine, capacity: 0, mismatches: 0 };
    let reply = QueryReply { error: None, length: 6, units: Vec::new() };
    match ph_query_process_variable_size_next(pending, reply) {
        QueryStep::Ask(next) => {
            assert_eq!(next.capacity, 6);
            assert_eq!(next.mismatches, 1);
            assert_eq!(next.selector, Selector::CommandLine);
        }
        other => panic!("unexpected step {:?}", other),
    }
}

#[test]
fn data_is_cut_at_the_reported_length_and_terminated() {
    let pending = Negotiation { selector: Selector::CommandLine, capacity: 8, mismatches: 1 };
    let reply = QueryReply { error: None, length: 5, units: vec![1, 2, 3, 4] };
    match ph_query_process_variable_size_next(pending, reply) {
        QueryStep::Done(data) => assert_eq!(data, vec![1, 2, 0]),
        other => panic!("unexpected step {:?}", other),
    }
    let empty = QueryReply { error: None, length: 0, units: Vec::new() };
    match ph_query_process_variable_size_next(pending, empty) {
        QueryStep::Done(data) => assert_eq!(data, vec![0]),
        other => panic!("unexpected step {:?}", other),
    }
}

#[test]
fn success_with_fewer_units_than_reported_is_a_failure() {
    let pending = Negotiation { selector: Selector::TokenUser, capacity: 8, mismatches: 0 };
    let reply = QueryReply { error: None, length: 8, units: vec![1, 2, 3] };
    assert!(matches!(
        ph_query_process_variable_size_next(pending, reply),
        QueryStep::Failed(QueryError::Truncated)
    ));
}
