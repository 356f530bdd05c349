//! Queries whose answer has a length that is not known beforehand.
//!
//! The host is asked with a buffer of some capacity. It fills the buffer, or
//! says that the buffer is too small and how many bytes it needs; then it is
//! asked again with that capacity. Sizes that keep changing are given up on
//! after a few rounds.

use vstd::prelude::*;
use crate::text::TERMINATOR;

verus! {

/// How often the host may answer that the buffer has the wrong size before
/// the query is given up.
pub const MAX_SIZE_MISMATCHES: u32 = 3;

/// The host's status for a buffer that overflowed.
pub const STATUS_BUFFER_OVERFLOW: i32 = -2147483643;

/// The host's status for a buffer that is too small.
pub const STATUS_BUFFER_TOO_SMALL: i32 = -1073741789;

/// The host's status for a length that does not fit the information asked
/// for.
pub const STATUS_INFO_LENGTH_MISMATCH: i32 = -1073741820;

/// The host's error for a buffer that is too small.
pub const ERROR_INSUFFICIENT_BUFFER: u32 = 122;

/// The capacity that the image name is first asked with.
pub const IMAGE_NAME_CAPACITY: u32 = 128;

/// The result code that stands for a status of the kernel interface.
pub open spec fn hresult_of_status(status: i32) -> i32 {
    status | 0x1000_0000i32
}

/// The result code that stands for an error of the programming interface.
pub open spec fn hresult_of_error(error: u32) -> i32 {
    if error as i32 <= 0 {
        error as i32
    } else {
        ((error & 0x0000_ffffu32) | (7u32 << 16u32) | 0x8000_0000u32) as i32
    }
}

/// Calls `NTSTATUS::to_hresult` of the `windows` crate on a status of the
/// given value: the result is the status with the bit `0x1000_0000` set.
#[verifier::external_body]
fn status_to_hresult(status: i32) -> (code: i32)
    ensures
        code == hresult_of_status(status),
{
    windows::Win32::Foundation::NTSTATUS(status).to_hresult().0
}

/// Calls `WIN32_ERROR::to_hresult` of the `windows` crate on an error of
/// the given value. A value that is zero or negative as an `i32` is kept;
/// of any other the low 16 bits are kept, and the facility 7 and the
/// failure bit are set.
#[verifier::external_body]
fn error_to_hresult(error: u32) -> (code: i32)
    ensures
        code == hresult_of_error(error),
{
    windows::Win32::Foundation::WIN32_ERROR(error).to_hresult().0
}

/// The attribute that a query asks for. Each has its own host call, and
/// its own codes for a buffer of the wrong size.
#[derive(Clone, Copy, Debug, PartialEq, Eq, Structural)]
pub enum Selector {
    /// The command line of a process.
    CommandLine,
    /// The path of the image that a process runs.
    ImageName,
    /// The user that owns the token of a process.
    TokenUser,
}

/// Whether `code` is how the host says, to a query for `selector`, that the
/// buffer had the wrong size.
pub open spec fn reports_wrong_size(selector: Selector, code: i32) -> bool {
    match selector {
        Selector::CommandLine => code == hresult_of_status(STATUS_BUFFER_OVERFLOW) || code
            == hresult_of_status(STATUS_BUFFER_TOO_SMALL) || code == hresult_of_status(
            STATUS_INFO_LENGTH_MISMATCH,
        ),
        Selector::ImageName => code == hresult_of_status(STATUS_INFO_LENGTH_MISMATCH),
        Selector::TokenUser => code == hresult_of_error(ERROR_INSUFFICIENT_BUFFER),
    }
}

/// The codes that say that a buffer had the wrong size, as numbers.
pub proof fn lemma_wrong_size_codes()
    ensures
        hresult_of_status(STATUS_BUFFER_OVERFLOW) == -1879048187,
        hresult_of_status(STATUS_BUFFER_TOO_SMALL) == -805306333,
        hresult_of_status(STATUS_INFO_LENGTH_MISMATCH) == -805306364,
        hresult_of_error(ERROR_INSUFFICIENT_BUFFER) == -2147024774,
{
    assert((-2147483643i32 | 0x1000_0000i32) == -1879048187i32) by (bit_vector);
    assert((-1073741789i32 | 0x1000_0000i32) == -805306333i32) by (bit_vector);
    assert((-1073741820i32 | 0x1000_0000i32) == -805306364i32) by (bit_vector);
    assert(122u32 as i32 == 122i32) by (bit_vector);
    assert(((122u32 & 0x0000_ffffu32) | (7u32 << 16u32) | 0x8000_0000u32) as i32
        == -2147024774i32) by (bit_vector);
}

/// Tells whether the host's error code says that the buffer had the wrong
/// size.
pub fn is_wrong_size(selector: Selector, code: i32) -> (wrong: bool)
    ensures
        wrong == reports_wrong_size(selector, code),
{
    match selector {
        Selector::CommandLine => code == status_to_hresult(STATUS_BUFFER_OVERFLOW) || code
            == status_to_hresult(STATUS_BUFFER_TOO_SMALL) || code == status_to_hresult(
            STATUS_INFO_LENGTH_MISMATCH,
        ),
        Selector::ImageName => code == status_to_hresult(STATUS_INFO_LENGTH_MISMATCH),
        Selector::TokenUser => code == error_to_hresult(ERROR_INSUFFICIENT_BUFFER),
    }
}

/// A query that is outstanding: the host is to be asked for `selector` with
/// a buffer of `capacity` bytes. `mismatches` counts the answers so far that
/// called for another size.
#[derive(Clone, Copy, Debug, PartialEq, Eq, Structural)]
pub struct Negotiation {
    pub selector: Selector,
    pub capacity: u32,
    pub mismatches: u32,
}

/// What the host answered to a query.
#[derive(Debug)]
pub struct QueryReply {
    /// The error code, or `None` where the host reported success.
    pub error: Option<i32>,
    /// The length in bytes that the host reported: that of the data on
    /// success, the one it needs otherwise.
    pub length: u32,
    /// The buffer after the call, as 16-bit units.
    pub units: Vec<u16>,
}

/// A `QueryReply` as plain values.
pub struct QueryReplyView {
    pub error: Option<i32>,
    pub length: u32,
    pub units: Seq<u16>,
}

impl View for QueryReply {
    type V = QueryReplyView;

    open spec fn view(&self) -> QueryReplyView {
        QueryReplyView { error: self.error, length: self.length, units: self.units@ }
    }
}

/// Why a query failed.
#[derive(Clone, Copy, Debug, PartialEq, Eq, Structural)]
pub enum QueryError {
    /// The host reported the given error, which is none about the size of
    /// the buffer.
    Rejected(i32),
    /// The host called for another size more often than
    /// `MAX_SIZE_MISMATCHES` times.
    Unsettled,
    /// The host reported success, but the buffer holds less than the
    /// length it reported.
    Truncated,
}

/// Where a query stands.
#[derive(Debug)]
pub enum QueryStep {
    /// Ask the host as the negotiation says.
    Ask(Negotiation),
    /// The data, with a terminator behind it.
    Done(Vec<u16>),
    /// The query has failed.
    Failed(QueryError),
}

/// A `QueryStep` as plain values.
pub enum QueryStepView {
    Ask(Negotiation),
    Done(Seq<u16>),
    Failed(QueryError),
}

impl View for QueryStep {
    type V = QueryStepView;

    open spec fn view(&self) -> QueryStepView {
        match *self {
            QueryStep::Ask(pending) => QueryStepView::Ask(pending),
            QueryStep::Done(data) => QueryStepView::Done(data@),
            QueryStep::Failed(error) => QueryStepView::Failed(error),
        }
    }
}

/// The first step of a query: the image name is asked with a buffer of
/// `IMAGE_NAME_CAPACITY` bytes, anything else with none, to learn the
/// length.
pub open spec fn negotiate_first(selector: Selector) -> QueryStepView {
    QueryStepView::Ask(
        Negotiation {
            selector,
            capacity: if selector == Selector::ImageName {
                IMAGE_NAME_CAPACITY
            } else {
                0
            },
            mismatches: 0,
        },
    )
}

/// Whether an answer is the data asked for: the host reported success, with
/// a length that the buffer could hold and that it does hold.
pub open spec fn is_complete(pending: Negotiation, reply: QueryReplyView) -> bool {
    reply.error is None && reply.length <= pending.capacity && reply.length / 2
        <= reply.units.len()
}

/// Whether an answer calls for another round: the host said that the size
/// was wrong, or reported success with more bytes than the buffer held.
pub open spec fn calls_for_retry(pending: Negotiation, reply: QueryReplyView) -> bool {
    match reply.error {
        Some(code) => reports_wrong_size(pending.selector, code),
        None => reply.length > pending.capacity,
    }
}

/// The step that follows when `reply` answers `pending`. Complete data ends
/// the query: the units that the reported length covers, and a terminator.
/// An answer that calls for another size is followed by a query with the
/// length that the host reported, unless `MAX_SIZE_MISMATCHES` such answers
/// came before it: then the query is unsettled. Any other error of the host
/// is the error of the query, and a success that is not complete is
/// truncated.
pub open spec fn negotiate_next(pending: Negotiation, reply: QueryReplyView) -> QueryStepView {
    if is_complete(pending, reply) {
        QueryStepView::Done(reply.units.take(reply.length as int / 2).push(TERMINATOR))
    } else if calls_for_retry(pending, reply) {
        if pending.mismatches < MAX_SIZE_MISMATCHES {
            QueryStepView::Ask(
                Negotiation {
                    selector: pending.selector,
                    capacity: reply.length,
                    mismatches: (pending.mismatches + 1) as u32,
                },
            )
        } else {
            QueryStepView::Failed(QueryError::Unsettled)
        }
    } else {
        match reply.error {
            Some(code) => QueryStepView::Failed(QueryError::Rejected(code)),
            None => QueryStepView::Failed(QueryError::Truncated),
        }
    }
}

/// Starts a query for `selector`.
pub fn ph_query_process_variable_size(selector: Selector) -> (step: QueryStep)
    ensures
        step@ == negotiate_first(selector),
{
    let capacity: u32 = match selector {
        Selector::ImageName => IMAGE_NAME_CAPACITY,
        _ => 0,
    };
    QueryStep::Ask(Negotiation { selector, capacity, mismatches: 0 })
}

/// Takes the host's answer to the pending query and says how the query goes
/// on.
pub fn ph_query_process_variable_size_next(pending: Negotiation, reply: QueryReply) -> (step:
    QueryStep)
    ensures
        step@ == negotiate_next(pending, reply@),
{
    match reply.error {
        Some(code) => {
            if !is_wrong_size(pending.selector, code) {
                return QueryStep::Failed(QueryError::Rejected(code));
            }
        },
        None => {
            if reply.length <= pending.capacity {
                if (reply.length / 2) as usize <= reply.units.len() {
                    let mut data: Vec<u16> = reply.units;
                    data.truncate((reply.length / 2) as usize);
                    data.push(TERMINATOR);
                    return QueryStep::Done(data);
                }
                return QueryStep::Failed(QueryError::Truncated);
            }
        },
    }
    if pending.mismatches < MAX_SIZE_MISMATCHES {
        QueryStep::Ask(
            Negotiation {
                selector: pending.selector,
                capacity: reply.length,
                mismatches: pending.mismatches + 1,
            },
        )
    } else {
        QueryStep::Failed(QueryError::Unsettled)
    }
}

/// Where a query stands once the host's answers have been taken in order,
/// starting from `step`. Answers that come after the end change nothing.
pub open spec fn negotiate_run(step: QueryStepView, replies: Seq<QueryReplyView>) -> QueryStepView
    decreases replies.len(),
{
    if replies.len() == 0 {
        step
    } else {
        match step {
            QueryStepView::Ask(pending) => negotiate_run(
                negotiate_next(pending, replies[0]),
                replies.drop_first(),
            ),
            _ => step,
        }
    }
}

/// Whether an answer is an error that says that the buffer had the wrong
/// size.
pub open spec fn is_wrong_size_reply(selector: Selector, reply: QueryReplyView) -> bool {
    reply.error matches Some(code) && reports_wrong_size(selector, code)
}

/// The number of answers that a query can still take from a step on.
pub open spec fn negotiate_remaining(step: QueryStepView) -> nat {
    match step {
        QueryStepView::Ask(pending) => if pending.mismatches <= MAX_SIZE_MISMATCHES {
            (MAX_SIZE_MISMATCHES - pending.mismatches + 1) as nat
        } else {
            1
        },
        _ => 0,
    }
}

proof fn lemma_negotiate_run_ends(step: QueryStepView, replies: Seq<QueryReplyView>)
    requires
        replies.len() >= negotiate_remaining(step),
    ensures
        !(negotiate_run(step, replies) is Ask),
    decreases replies.len(),
{
    if let QueryStepView::Ask(pending) = step {
        lemma_negotiate_run_ends(negotiate_next(pending, replies[0]), replies.drop_first());
    }
}

/// A query never takes more than `MAX_SIZE_MISMATCHES + 1` answers,
/// whatever the host says: by then it has given data or has failed.
pub proof fn lemma_negotiation_is_bounded(selector: Selector, replies: Seq<QueryReplyView>)
    requires
        replies.len() >= MAX_SIZE_MISMATCHES + 1,
    ensures
        !(negotiate_run(negotiate_first(selector), replies) is Ask),
{
    lemma_negotiate_run_ends(negotiate_first(selector), replies);
}

proof fn lemma_negotiate_run_gives_up(pending: Negotiation, replies: Seq<QueryReplyView>)
    requires
        pending.mismatches <= MAX_SIZE_MISMATCHES,
        replies.len() >= MAX_SIZE_MISMATCHES - pending.mismatches + 1,
        forall|i: int|
            0 <= i < replies.len() ==> is_wrong_size_reply(pending.selector, #[trigger] replies[i]),
    ensures
        negotiate_run(QueryStepView::Ask(pending), replies) == QueryStepView::Failed(
            QueryError::Unsettled,
        ),
    decreases replies.len(),
{
    let rest = replies.drop_first();
    assert(is_wrong_size_reply(pending.selector, replies[0]));
    if pending.mismatches < MAX_SIZE_MISMATCHES {
        let next = Negotiation {
            selector: pending.selector,
            capacity: replies[0].length,
            mismatches: (pending.mismatches + 1) as u32,
        };
        assert(negotiate_next(pending, replies[0]) == QueryStepView::Ask(next));
        assert forall|i: int| 0 <= i < rest.len() implies is_wrong_size_reply(
            next.selector,
            #[trigger] rest[i],
        ) by {
            assert(rest[i] == replies[i + 1]);
        }
        lemma_negotiate_run_gives_up(next, rest);
    } else {
        assert(negotiate_next(pending, replies[0]) == QueryStepView::Failed(
            QueryError::Unsettled,
        ));
        reveal_with_fuel(negotiate_run, 2);
    }
}

/// A host that answers again and again that the size is wrong is given up
/// on: with `MAX_SIZE_MISMATCHES + 1` such answers the query has failed as
/// unsettled.
pub proof fn lemma_negotiation_gives_up(selector: Selector, replies: Seq<QueryReplyView>)
    requires
        replies.len() >= MAX_SIZE_MISMATCHES + 1,
        forall|i: int|
            0 <= i < replies.len() ==> is_wrong_size_reply(selector, #[trigger] replies[i]),
    ensures
        negotiate_run(negotiate_first(selector), replies) == QueryStepView::Failed(
            QueryError::Unsettled,
        ),
{
    let first = negotiate_first(selector)->Ask_0;
    lemma_negotiate_run_gives_up(first, replies);
}

/// The capacity that the answer at `index` was asked with: the length that
/// the answer before it reported, or `first` for the first answer.
pub open spec fn asked_capacity(first: u32, replies: Seq<QueryReplyView>, index: int) -> u32 {
    if index <= 0 {
        first
    } else {
        replies[index - 1].length
    }
}

proof fn lemma_negotiate_run_converges(pending: Negotiation, replies: Seq<QueryReplyView>)
    requires
        replies.len() >= 1,
        pending.mismatches + replies.len() - 1 <= MAX_SIZE_MISMATCHES,
        forall|i: int|
            0 <= i < replies.len() - 1 ==> is_wrong_size_reply(
                pending.selector,
                #[trigger] replies[i],
            ),
        replies.last().error is None,
        replies.last().length <= asked_capacity(pending.capacity, replies, replies.len() - 1),
        replies.last().length / 2 <= replies.last().units.len(),
    ensures
        negotiate_run(QueryStepView::Ask(pending), replies) == QueryStepView::Done(
            replies.last().units.take(replies.last().length as int / 2).push(TERMINATOR),
        ),
    decreases replies.len(),
{
    let rest = replies.drop_first();
    if replies.len() == 1 {
        assert(is_complete(pending, replies[0]));
        reveal_with_fuel(negotiate_run, 2);
    } else {
        assert(is_wrong_size_reply(pending.selector, replies[0]));
        let next = Negotiation {
            selector: pending.selector,
            capacity: replies[0].length,
            mismatches: (pending.mismatches + 1) as u32,
        };
        assert(negotiate_next(pending, replies[0]) == QueryStepView::Ask(next));
        assert forall|i: int| 0 <= i < rest.len() - 1 implies is_wrong_size_reply(
            next.selector,
            #[trigger] rest[i],
        ) by {
            assert(rest[i] == replies[i + 1]);
        }
        assert(rest.last() == replies.last());
        assert(asked_capacity(next.capacity, rest, rest.len() - 1) == asked_capacity(
            pending.capacity,
            replies,
            replies.len() - 1,
        )) by {
            if rest.len() > 1 {
                assert(rest[rest.len() - 2] == replies[replies.len() - 2]);
            }
        }
        lemma_negotiate_run_converges(next, rest);
    }
}

/// A query converges: where the host says up to `MAX_SIZE_MISMATCHES`
/// times that the size is wrong and then fills the buffer it was given, the
/// query ends with the data of that last answer, a terminator behind it.
pub proof fn lemma_negotiation_converges(selector: Selector, replies: Seq<QueryReplyView>)
    requires
        1 <= replies.len() <= MAX_SIZE_MISMATCHES + 1,
        forall|i: int|
            0 <= i < replies.len() - 1 ==> is_wrong_size_reply(selector, #[trigger] replies[i]),
        replies.last().error is None,
        replies.last().length <= asked_capacity(
            negotiate_first(selector)->Ask_0.capacity,
            replies,
            replies.len() - 1,
        ),
        replies.last().length / 2 <= replies.last().units.len(),
    ensures
        negotiate_run(negotiate_first(selector), replies) == QueryStepView::Done(
            replies.last().units.take(replies.last().length as int / 2).push(TERMINATOR),
        ),
{
    let first = negotiate_first(selector)->Ask_0;
    lemma_negotiate_run_converges(first, replies);
}

} // verus!
