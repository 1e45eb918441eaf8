//! A transaction: one unit of work that the agent times and samples.

use crate::agent::{checked, first_nul_error, open_events, outcome, AgentCall, Call};
use crate::error_name::error_name;
use crate::error_record::{record_outcome, ErrorRecord, ErrorRecordView};
use crate::json::json_text;
use crate::native_text::{has_nul, EncodeError, NativeText};
use crate::stack::FrameView;
use rustc_serialize::json::EncoderError;
use vstd::prelude::*;

verus! {

/// An open transaction, known to the agent by its handle.
///
/// The handle is set once, by [`Transaction::opened`], and no operation
/// changes it. [`Transaction::complete`] takes the transaction by value, so
/// none can follow it.
#[derive(Debug)]
pub struct Transaction {
    index: i32,
}

impl Transaction {
    /// The handle under which the agent knows this transaction.
    pub closed spec fn handle(&self) -> i32 {
        self.index
    }

    /// The call that `start` gives for these arguments.
    pub open spec fn start_call(transaction_id: Seq<char>, namespace: Seq<char>) -> Result<
        Call,
        EncodeError,
    > {
        checked(
            seq![transaction_id, namespace],
            Call::StartTransaction { transaction_id, namespace },
        )
    }

    /// The call that `start_event` gives on a transaction with this handle.
    pub open spec fn start_event_call(handle: i32) -> Call {
        Call::StartEvent { handle }
    }

    /// The call that `finish` gives on a transaction with this handle.
    pub open spec fn finish_call(handle: i32) -> Call {
        Call::FinishTransaction { handle }
    }

    /// The call that `complete` gives on a transaction with this handle.
    pub open spec fn complete_call(handle: i32) -> Call {
        Call::CompleteTransaction { handle }
    }

    /// The call that `set_queue_start` gives on a transaction with this
    /// handle.
    pub open spec fn queue_start_call(handle: i32, queue_start: i64) -> Call {
        Call::SetQueueStart { handle, queue_start }
    }

    /// The call that `finish_event` gives on a transaction with this handle.
    pub open spec fn finish_event_call(
        handle: i32,
        name: Seq<char>,
        title: Seq<char>,
        body: Seq<char>,
        body_format: i32,
    ) -> Result<Call, EncodeError> {
        checked(seq![name, title, body], Call::FinishEvent { handle, name, title, body, body_format })
    }

    /// The call that `set_action` gives on a transaction with this handle.
    pub open spec fn action_call(handle: i32, action: Seq<char>) -> Result<Call, EncodeError> {
        checked(seq![action], Call::SetAction { handle, action })
    }

    /// The call that `set_meta_data` gives on a transaction with this handle.
    pub open spec fn meta_data_call(handle: i32, key: Seq<char>, value: Seq<char>) -> Result<
        Call,
        EncodeError,
    > {
        checked(seq![key, value], Call::SetMetaData { handle, key, value })
    }

    /// The call that attaches `record` to a transaction with this handle.
    pub open spec fn record_call(handle: i32, record: ErrorRecordView) -> Call {
        Call::SetError {
            handle,
            name: record.name,
            message: record.message,
            backtrace: record.backtrace,
        }
    }

    /// The call that `set_error` gives on a transaction with this handle,
    /// once the record has been built, or has failed to be.
    pub open spec fn error_call(handle: i32, record: Result<ErrorRecordView, EncodeError>) -> Result<
        Call,
        EncodeError,
    > {
        match record {
            Ok(record) => Ok(Self::record_call(handle, record)),
            Err(e) => Err(e),
        }
    }

    /// The call that `set_sample_data` gives on a transaction with this
    /// handle, for a payload whose JSON text is `payload`, or that has none.
    /// A key that cannot cross is reported first, then a payload without
    /// JSON form, then a JSON text that cannot cross.
    pub open spec fn sample_data_call(
        handle: i32,
        key: Seq<char>,
        payload: Option<Seq<char>>,
    ) -> Result<Call, EncodeError> {
        match first_nul_error(seq![key]) {
            Some(e) => Err(e),
            None => match payload {
                None => Err(EncodeError::Unserializable),
                Some(payload) => checked(
                    seq![payload],
                    Call::SetSampleData { handle, key, payload },
                ),
            },
        }
    }

    /// Asks the agent to open a transaction, such as an HTTP request or a
    /// background job. The agent's answer is the handle for
    /// [`Transaction::opened`].
    pub fn start(transaction_id: &str, namespace: &str) -> (r: Result<AgentCall, EncodeError>)
        ensures
            outcome(r) == Self::start_call(transaction_id@, namespace@),
    {
        proof {
            reveal_with_fuel(first_nul_error, 3);
        }
        let transaction_id = match NativeText::encode(transaction_id) {
            Ok(text) => text,
            Err(e) => { return Err(e); },
        };
        let namespace = match NativeText::encode(namespace) {
            Ok(text) => text,
            Err(e) => { return Err(e); },
        };
        Ok(AgentCall::StartTransaction { transaction_id, namespace })
    }

    /// The transaction that the agent opened under `handle`.
    pub fn opened(handle: i32) -> (transaction: Transaction)
        ensures
            transaction.handle() == handle,
    {
        Transaction { index: handle }
    }

    /// The handle under which the agent knows this transaction.
    pub fn index(&self) -> (handle: i32)
        ensures
            handle == self.handle(),
    {
        self.index
    }

    /// Opens a timing region, for an SQL query, say, or an outgoing request.
    pub fn start_event(&mut self) -> (call: AgentCall)
        ensures
            final(self).handle() == old(self).handle(),
            call@ == Self::start_event_call(old(self).handle()),
    {
        AgentCall::StartEvent { handle: self.index }
    }

    /// Closes the region that was opened last. `body_format` is passed on as
    /// it is: what its values mean is the agent's business.
    pub fn finish_event(&mut self, name: &str, title: &str, body: &str, body_format: i32) -> (r:
        Result<AgentCall, EncodeError>)
        ensures
            final(self).handle() == old(self).handle(),
            outcome(r) == Self::finish_event_call(
                old(self).handle(),
                name@,
                title@,
                body@,
                body_format,
            ),
    {
        proof {
            reveal_with_fuel(first_nul_error, 4);
        }
        let name = match NativeText::encode(name) {
            Ok(text) => text,
            Err(e) => { return Err(e); },
        };
        let title = match NativeText::encode(title) {
            Ok(text) => text,
            Err(e) => { return Err(e); },
        };
        let body = match NativeText::encode(body) {
            Ok(text) => text,
            Err(e) => { return Err(e); },
        };
        Ok(AgentCall::FinishEvent { handle: self.index, name, title, body, body_format })
    }

    /// Attaches an error that was raised here. `message` is the error's
    /// display text; its first word becomes the error's name. The stack is
    /// the one that this call is made on, so the record is that of
    /// [`ErrorRecord::from_frames`] for some stack. Whatever the stack, a
    /// message that cannot cross gives its error, and a call that is made
    /// carries the message and its name.
    pub fn set_error(&mut self, message: &str) -> (r: Result<AgentCall, EncodeError>)
        ensures
            final(self).handle() == old(self).handle(),
            exists|frames: Seq<FrameView>|
                outcome(r) == Self::error_call(
                    old(self).handle(),
                    ErrorRecord::with_frames(message@, frames),
                ),
            first_nul_error(seq![error_name(message@), message@]) matches Some(e) ==> outcome(r)
                == Err::<Call, EncodeError>(e),
            r matches Ok(call) ==> call@ matches Call::SetError { handle, name, message: text, .. }
                && handle == old(self).handle() && name == error_name(message@) && text
                == message@,
    {
        proof {
            reveal_with_fuel(first_nul_error, 4);
        }
        let ghost before = self.handle();
        let made = ErrorRecord::capture(message);
        let ghost frames = choose|frames: Seq<FrameView>|
            record_outcome(made) == ErrorRecord::with_frames(message@, frames);
        match made {
            Ok(record) => {
                let call = self.set_error_record(record);
                assert(outcome(Ok(call)) == Self::error_call(
                    before,
                    ErrorRecord::with_frames(message@, frames),
                ));
                Ok(call)
            },
            Err(e) => {
                assert(outcome(Err(e)) == Self::error_call(
                    before,
                    ErrorRecord::with_frames(message@, frames),
                ));
                Err(e)
            },
        }
    }

    /// Attaches an error whose record is at hand.
    pub fn set_error_record(&mut self, record: ErrorRecord) -> (call: AgentCall)
        ensures
            final(self).handle() == old(self).handle(),
            call@ == Self::record_call(old(self).handle(), record@),
    {
        AgentCall::SetError {
            handle: self.index,
            name: record.name,
            message: record.message,
            backtrace: record.backtrace,
        }
    }

    /// Attaches sample data under `key`. `payload` is what the JSON encoder
    /// made of the data; where it failed, so does this.
    pub fn set_sample_data(&mut self, key: &str, payload: Result<String, EncoderError>) -> (r:
        Result<AgentCall, EncodeError>)
        ensures
            final(self).handle() == old(self).handle(),
            outcome(r) == Self::sample_data_call(old(self).handle(), key@, json_text(payload)),
    {
        proof {
            reveal_with_fuel(first_nul_error, 2);
        }
        let key = match NativeText::encode(key) {
            Ok(text) => text,
            Err(e) => { return Err(e); },
        };
        let payload = match payload {
            Ok(text) => text,
            Err(_) => { return Err(EncodeError::Unserializable); },
        };
        let payload = match NativeText::encode(payload.as_str()) {
            Ok(text) => text,
            Err(e) => { return Err(e); },
        };
        Ok(AgentCall::SetSampleData { handle: self.index, key, payload })
    }

    /// Names the action that identifies the transaction.
    pub fn set_action(&mut self, action: &str) -> (r: Result<AgentCall, EncodeError>)
        ensures
            final(self).handle() == old(self).handle(),
            outcome(r) == Self::action_call(old(self).handle(), action@),
    {
        proof {
            reveal_with_fuel(first_nul_error, 2);
        }
        let action = match NativeText::encode(action) {
            Ok(text) => text,
            Err(e) => { return Err(e); },
        };
        Ok(AgentCall::SetAction { handle: self.index, action })
    }

    /// Records when the transaction was queued, in milliseconds.
    pub fn set_queue_start(&mut self, queue_start: i64) -> (call: AgentCall)
        ensures
            final(self).handle() == old(self).handle(),
            call@ == Self::queue_start_call(old(self).handle(), queue_start),
    {
        AgentCall::SetQueueStart { handle: self.index, queue_start }
    }

    /// Attaches one pair of metadata.
    pub fn set_meta_data(&mut self, key: &str, value: &str) -> (r: Result<AgentCall, EncodeError>)
        ensures
            final(self).handle() == old(self).handle(),
            outcome(r) == Self::meta_data_call(old(self).handle(), key@, value@),
    {
        proof {
            reveal_with_fuel(first_nul_error, 3);
        }
        let key = match NativeText::encode(key) {
            Ok(text) => text,
            Err(e) => { return Err(e); },
        };
        let value = match NativeText::encode(value) {
            Ok(text) => text,
            Err(e) => { return Err(e); },
        };
        Ok(AgentCall::SetMetaData { handle: self.index, key, value })
    }

    /// Finishes the transaction. The agent's answer goes to
    /// [`Transaction::keeps_sample_data`].
    pub fn finish(&mut self) -> (call: AgentCall)
        ensures
            final(self).handle() == old(self).handle(),
            call@ == Self::finish_call(old(self).handle()),
    {
        AgentCall::FinishTransaction { handle: self.index }
    }

    /// Reads the agent's answer to finishing: whether it keeps sample data
    /// for this transaction, so that attaching some is worth while.
    pub fn keeps_sample_data(answer: i32) -> (keep: bool)
        ensures
            keep == (answer != 0),
    {
        answer != 0
    }

    /// Hands the transaction to the agent for good.
    pub fn complete(self) -> (call: AgentCall)
        ensures
            call@ == Self::complete_call(self.handle()),
    {
        AgentCall::CompleteTransaction { handle: self.index }
    }
}

/// Opening a transaction and completing it at once makes two calls: one
/// that opens it under the id and namespace given, one that completes it
/// under its handle. Neither is an event, neither an error.
pub proof fn lemma_start_then_complete(
    transaction_id: Seq<char>,
    namespace: Seq<char>,
    handle: i32,
)
    requires
        !has_nul(transaction_id),
        !has_nul(namespace),
    ensures
        Transaction::start_call(transaction_id, namespace) is Ok,
        ({
            let calls = seq![
                Transaction::start_call(transaction_id, namespace).unwrap(),
                Transaction::complete_call(handle),
            ];
            &&& calls[0] == (Call::StartTransaction { transaction_id, namespace })
            &&& calls[1] == (Call::CompleteTransaction { handle })
            &&& forall|i: int|
                0 <= i < calls.len() ==> !(#[trigger] calls[i]).is_event() && !(calls[i] is SetError)
        }),
{
    reveal_with_fuel(first_nul_error, 3);
}

/// Opening an event and closing it makes one call of each kind, in this
/// order and about the same transaction; the closing call carries the
/// three texts and the format as they were given. After whatever calls came
/// before, the first leaves one region more open on the transaction, and
/// the second leaves as many open as there were.
pub proof fn lemma_event_pair(
    before: Seq<Call>,
    handle: i32,
    name: Seq<char>,
    title: Seq<char>,
    body: Seq<char>,
    body_format: i32,
)
    requires
        !has_nul(name),
        !has_nul(title),
        !has_nul(body),
    ensures
        Transaction::finish_event_call(handle, name, title, body, body_format) is Ok,
        ({
            let opened = Transaction::start_event_call(handle);
            let closed = Transaction::finish_event_call(
                handle,
                name,
                title,
                body,
                body_format,
            ).unwrap();
            &&& opened == (Call::StartEvent { handle })
            &&& closed == (Call::FinishEvent { handle, name, title, body, body_format })
            &&& opened.handle() == Some(handle)
            &&& closed.handle() == Some(handle)
            &&& open_events(before.push(opened), handle) == open_events(before, handle) + 1
            &&& open_events(before.push(opened).push(closed), handle) == open_events(
                before,
                handle,
            )
        }),
{
    reveal_with_fuel(first_nul_error, 4);
    let opened = Transaction::start_event_call(handle);
    let closed = Transaction::finish_event_call(handle, name, title, body, body_format).unwrap();
    let first = before.push(opened);
    let second = first.push(closed);
    assert(first.drop_last() =~= before);
    assert(first.last() == opened);
    assert(open_events(first, handle) == open_events(before, handle) + 1);
    assert(second.drop_last() =~= first);
    assert(second.last() == closed);
    assert(open_events(second, handle) == open_events(first, handle) - 1);
}

/// Only events change how many regions are open, and only on their own
/// transaction.
pub proof fn lemma_open_events_step(before: Seq<Call>, call: Call, handle: i32)
    requires
        !call.is_event() || call.handle() != Some(handle),
    ensures
        open_events(before.push(call), handle) == open_events(before, handle),
{
    assert(before.push(call).drop_last() =~= before);
}

/// The handle is passed on with every call that an operation on a
/// transaction gives: whatever the arguments, a call that is made is about
/// the transaction it was asked of.
pub proof fn lemma_handle_is_passed_on(
    handle: i32,
    a: Seq<char>,
    b: Seq<char>,
    c: Seq<char>,
    n: i32,
    t: i64,
    record: ErrorRecordView,
    payload: Option<Seq<char>>,
)
    ensures
        Transaction::start_event_call(handle).handle() == Some(handle),
        Transaction::finish_event_call(handle, a, b, c, n) matches Ok(call) ==> call.handle()
            == Some(handle),
        Transaction::record_call(handle, record).handle() == Some(handle),
        Transaction::sample_data_call(handle, a, payload) matches Ok(call) ==> call.handle()
            == Some(handle),
        Transaction::action_call(handle, a) matches Ok(call) ==> call.handle() == Some(handle),
        Transaction::queue_start_call(handle, t).handle() == Some(handle),
        Transaction::meta_data_call(handle, a, b) matches Ok(call) ==> call.handle() == Some(
            handle,
        ),
        Transaction::finish_call(handle).handle() == Some(handle),
        Transaction::complete_call(handle).handle() == Some(handle),
{
}

} // verus!
