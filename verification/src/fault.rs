//! Reporting a panic: one transaction, opened for the fault alone, that
//! carries the error and is completed at once.

use crate::agent::{first_nul_error, AgentCall, Call};
use crate::error_name::{error_name, is_whitespace, lemma_first_word};
use crate::error_record::{ErrorRecord, ErrorRecordView};
use crate::native_text::{has_nul, EncodeError, NativeText};
use crate::stack::{capture_frames, lossy_backtrace_text, Frame, FrameView};
use crate::transaction::Transaction;
use vstd::prelude::*;
use vstd::string::StringExecFns;

verus! {

/// What every panic's message starts with, and its name with it.
pub const PANIC_NAME: &'static str = "Panic";

/// The message of a panic whose payload is no text.
pub const PANIC_WITHOUT_TEXT: &'static str = "Panic with no further information available";

/// A panic's payload as characters, if it is text.
pub open spec fn payload_text(payload: Option<&str>) -> Option<Seq<char>> {
    match payload {
        Some(text) => Some(text@),
        None => None,
    }
}

/// The message that reports a panic: "Panic" and, after one space, the
/// payload's text. Where the payload has no text, or a text that cannot
/// cross into the agent, the message is a fixed one.
pub open spec fn panic_message(payload: Option<Seq<char>>) -> Seq<char> {
    match payload {
        Some(text) => if has_nul(text) {
            PANIC_WITHOUT_TEXT@
        } else {
            PANIC_NAME@ + seq![' '] + text
        },
        None => PANIC_WITHOUT_TEXT@,
    }
}

/// Whatever the payload, the error is reported under the name "Panic".
pub proof fn lemma_panic_name(payload: Option<Seq<char>>)
    ensures
        error_name(panic_message(payload)) == PANIC_NAME@,
{
    reveal_strlit("Panic");
    reveal_strlit("Panic with no further information available");
    let message = panic_message(payload);
    assert(message.len() > 5);
    assert(message.subrange(0, 5) =~= PANIC_NAME@);
    assert(is_whitespace(message[5]));
    lemma_first_word(message, 0, 5);
}

/// Whatever the payload, the message and its name can cross into the agent.
pub proof fn lemma_panic_message_crosses(payload: Option<Seq<char>>)
    ensures
        !has_nul(panic_message(payload)),
        !has_nul(error_name(panic_message(payload))),
        first_nul_error(seq![error_name(panic_message(payload)), panic_message(payload)]) is None,
{
    reveal_strlit("Panic");
    reveal_strlit("Panic with no further information available");
    reveal_with_fuel(first_nul_error, 3);
    lemma_panic_name(payload);
    let message = panic_message(payload);
    if payload is Some && !has_nul(payload.unwrap()) {
        let text = payload.unwrap();
        assert forall|i: int| 0 <= i < message.len() implies message[i] != '\0' by {
            if i >= 6 {
                assert(message[i] == text[i - 6]);
            }
        }
    }
    assert(!has_nul(PANIC_NAME@));
}

/// The message that reports a panic with this payload.
pub fn panic_message_of(payload: Option<&str>) -> (message: String)
    ensures
        message@ == panic_message(payload_text(payload)),
{
    match payload {
        Some(text) => {
            if NativeText::holds_nul(text) {
                return String::from_str(PANIC_WITHOUT_TEXT);
            }
            proof {
                reveal_strlit(" ");
            }
            let mut message = String::from_str(PANIC_NAME);
            message.append(" ");
            message.append(text);
            message
        },
        None => String::from_str(PANIC_WITHOUT_TEXT),
    }
}

/// All that reporting one panic sends to the agent, but for the handle,
/// which the agent gives in answer to `start`.
#[derive(Debug, PartialEq, Eq)]
pub struct PanicReport {
    /// The call that opens the transaction.
    pub start: AgentCall,
    /// The error to attach to it.
    pub error: ErrorRecord,
}

/// A [`PanicReport`], with its call and record taken by their views.
pub ghost struct PanicReportView {
    pub start: Call,
    pub error: ErrorRecordView,
}

impl View for PanicReport {
    type V = PanicReportView;

    open spec fn view(&self) -> PanicReportView {
        PanicReportView { start: self.start@, error: self.error@ }
    }
}

impl PanicReportView {
    /// The calls that follow the start, in their order, once the agent has
    /// answered it with `handle`: the error, finish, complete.
    pub open spec fn rest(self, handle: i32) -> Seq<Call> {
        seq![
            Transaction::record_call(handle, self.error),
            Transaction::finish_call(handle),
            Transaction::complete_call(handle),
        ]
    }

    /// Every call of the report, in the order in which they are made.
    pub open spec fn calls(self, handle: i32) -> Seq<Call> {
        seq![self.start] + self.rest(handle)
    }
}

/// A report's making, with the report taken by its view.
pub open spec fn report_outcome(r: Result<PanicReport, EncodeError>) -> Result<
    PanicReportView,
    EncodeError,
> {
    match r {
        Ok(report) => Ok(report@),
        Err(e) => Err(e),
    }
}

/// The error that a panic's report carries: the panic's message under its
/// name, and the stack as JSON, with "no symbol" for a frame whose name is
/// not known.
pub open spec fn panic_record(payload: Option<Seq<char>>, frames: Seq<FrameView>) -> ErrorRecordView {
    ErrorRecordView {
        name: error_name(panic_message(payload)),
        message: panic_message(payload),
        backtrace: lossy_backtrace_text(frames),
    }
}

/// The report of a panic with this payload, raised where the stack was
/// `frames`. Only a transaction id or a namespace that cannot cross makes
/// it fail, and then no call is made at all: neither the payload nor the
/// stack can.
pub open spec fn panic_report(
    transaction_id: Seq<char>,
    namespace: Seq<char>,
    payload: Option<Seq<char>>,
    frames: Seq<FrameView>,
) -> Result<PanicReportView, EncodeError> {
    match Transaction::start_call(transaction_id, namespace) {
        Err(e) => Err(e),
        Ok(start) => Ok(PanicReportView { start, error: panic_record(payload, frames) }),
    }
}

/// A panic's report is four calls: the transaction is opened under the id
/// and namespace given, the error is attached to it under the name "Panic"
/// and with the panic's message, and it is finished, then completed; the
/// last three with the handle that answered the first.
pub proof fn lemma_panic_report_calls(
    transaction_id: Seq<char>,
    namespace: Seq<char>,
    payload: Option<Seq<char>>,
    frames: Seq<FrameView>,
    handle: i32,
)
    requires
        panic_report(transaction_id, namespace, payload, frames) is Ok,
    ensures
        ({
            let report = panic_report(transaction_id, namespace, payload, frames).unwrap();
            let calls = report.calls(handle);
            &&& calls.len() == 4
            &&& calls[0] == (Call::StartTransaction { transaction_id, namespace })
            &&& calls[1] == (Call::SetError {
                handle,
                name: PANIC_NAME@,
                message: panic_message(payload),
                backtrace: lossy_backtrace_text(frames),
            })
            &&& calls[2] == (Call::FinishTransaction { handle })
            &&& calls[3] == (Call::CompleteTransaction { handle })
        }),
{
    lemma_panic_name(payload);
}

/// The report never fails on account of the panic: with an id and a
/// namespace that can cross there is a report, whatever the payload and
/// whatever the stack. A payload that is no text, or whose text cannot
/// cross, is reported by the fixed message.
pub proof fn lemma_report_never_fails(
    transaction_id: Seq<char>,
    namespace: Seq<char>,
    payload: Option<Seq<char>>,
    frames: Seq<FrameView>,
)
    requires
        !has_nul(transaction_id),
        !has_nul(namespace),
    ensures
        panic_report(transaction_id, namespace, payload, frames) is Ok,
        payload is None || has_nul(payload.unwrap()) ==> panic_report(
            transaction_id,
            namespace,
            payload,
            frames,
        ).unwrap().error.message == PANIC_WITHOUT_TEXT@,
{
    reveal_with_fuel(first_nul_error, 3);
}

/// Builds the error that a panic's report carries.
fn record_panic(payload: Option<&str>, frames: &Vec<Frame>) -> (record: ErrorRecord)
    ensures
        record@ == panic_record(payload_text(payload), frames.deep_view()),
{
    let message = panic_message_of(payload);
    proof {
        lemma_panic_message_crosses(payload_text(payload));
    }
    match ErrorRecord::from_frames_lossy(message.as_str(), frames) {
        Ok(record) => record,
        Err(_) => vstd::pervasive::unreached(),
    }
}

/// Reports a panic raised on the stack `frames`. Fails only on a
/// transaction id or a namespace that holds a NUL.
pub fn track_panic_with(
    transaction_id: &str,
    namespace: &str,
    payload: Option<&str>,
    frames: &Vec<Frame>,
) -> (r: Result<PanicReport, EncodeError>)
    ensures
        report_outcome(r) == panic_report(
            transaction_id@,
            namespace@,
            payload_text(payload),
            frames.deep_view(),
        ),
        !has_nul(transaction_id@) && !has_nul(namespace@) ==> r is Ok,
{
    proof {
        reveal_with_fuel(first_nul_error, 3);
    }
    let start = match Transaction::start(transaction_id, namespace) {
        Ok(call) => call,
        Err(e) => { return Err(e); },
    };
    Ok(PanicReport { start, error: record_panic(payload, frames) })
}

/// Reports a panic raised here, for use from a panic hook. `payload` is the
/// panic's message where its payload is text, and `None` where it is
/// anything else.
///
/// Id and namespace are checked first; only where they can cross is the
/// stack captured, the one that this call is made on. So the report is that
/// of [`track_panic_with`] for some stack. It fails only on an id or a
/// namespace that holds a NUL, and a report that is made opens the
/// transaction asked for and names the error "Panic".
pub fn track_panic(transaction_id: &str, namespace: &str, payload: Option<&str>) -> (r: Result<
    PanicReport,
    EncodeError,
>)
    ensures
        exists|frames: Seq<FrameView>|
            report_outcome(r) == panic_report(
                transaction_id@,
                namespace@,
                payload_text(payload),
                frames,
            ),
        !has_nul(transaction_id@) && !has_nul(namespace@) ==> r is Ok,
        Transaction::start_call(transaction_id@, namespace@) matches Err(e) ==> report_outcome(r)
            == Err::<PanicReportView, EncodeError>(e),
        r matches Ok(report) ==> report@.start == (Call::StartTransaction {
            transaction_id: transaction_id@,
            namespace: namespace@,
        }) && report@.error.name == PANIC_NAME@ && report@.error.message == panic_message(
            payload_text(payload),
        ),
{
    proof {
        reveal_with_fuel(first_nul_error, 3);
        lemma_panic_name(payload_text(payload));
    }
    let start = match Transaction::start(transaction_id, namespace) {
        Ok(call) => call,
        Err(e) => {
            assert(report_outcome(Err(e)) == panic_report(
                transaction_id@,
                namespace@,
                payload_text(payload),
                Seq::<FrameView>::empty(),
            ));
            return Err(e);
        },
    };
    let frames = capture_frames();
    let r = Ok(PanicReport { start, error: record_panic(payload, &frames) });
    assert(report_outcome(r) == panic_report(
        transaction_id@,
        namespace@,
        payload_text(payload),
        frames.deep_view(),
    ));
    r
}

impl PanicReport {
    /// The calls to make once the agent has answered `start` with `handle`:
    /// attach the error, finish, complete.
    pub fn rest(self, handle: i32) -> (calls: Vec<AgentCall>)
        ensures
            calls@.map_values(|call: AgentCall| call@) == self@.rest(handle),
    {
        let mut transaction = Transaction::opened(handle);
        let error = transaction.set_error_record(self.error);
        let finish = transaction.finish();
        let complete = transaction.complete();
        let mut calls: Vec<AgentCall> = Vec::new();
        calls.push(error);
        calls.push(finish);
        calls.push(complete);
        assert(calls@.map_values(|call: AgentCall| call@) =~= self@.rest(handle));
        calls
    }
}

} // verus!
