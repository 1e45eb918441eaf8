//! The agent's native interface, as data: one value per invocation.

use crate::native_text::{has_nul, nul_error, EncodeError, NativeText};
use vstd::prelude::*;

verus! {

/// One invocation of the agent, with its arguments encoded and ready to
/// cross. The driver makes the call; nothing else in this crate does.
#[derive(Debug, PartialEq, Eq)]
pub enum AgentCall {
    /// Start the agent.
    Start,
    /// Stop the agent.
    Stop,
    /// Open a transaction; the agent answers with its handle.
    StartTransaction { transaction_id: NativeText, namespace: NativeText },
    /// Open a timing region on the transaction.
    StartEvent { handle: i32 },
    /// Close the region that was opened last on the transaction.
    FinishEvent {
        handle: i32,
        name: NativeText,
        title: NativeText,
        body: NativeText,
        body_format: i32,
    },
    /// Attach an error to the transaction.
    SetError { handle: i32, name: NativeText, message: NativeText, backtrace: NativeText },
    /// Attach a JSON payload under `key`.
    SetSampleData { handle: i32, key: NativeText, payload: NativeText },
    /// Name the action that the transaction performs.
    SetAction { handle: i32, action: NativeText },
    /// Record when the transaction was queued, in milliseconds.
    SetQueueStart { handle: i32, queue_start: i64 },
    /// Attach one pair of metadata.
    SetMetaData { handle: i32, key: NativeText, value: NativeText },
    /// Finish the transaction; the agent answers whether it keeps sample data.
    FinishTransaction { handle: i32 },
    /// Hand the transaction to the agent for good.
    CompleteTransaction { handle: i32 },
    /// Set a gauge; `value_bits` is the bit pattern of the 32-bit float.
    SetGauge { key: NativeText, value_bits: u32 },
    /// Add `count` to a counter.
    IncrementCounter { key: NativeText, count: i32 },
    /// Add a sample to a distribution; `value_bits` is the bit pattern of
    /// the 32-bit float.
    AddDistributionValue { key: NativeText, value_bits: u32 },
}

/// What an [`AgentCall`] says, with each text as the characters it carries.
pub ghost enum Call {
    Start,
    Stop,
    StartTransaction { transaction_id: Seq<char>, namespace: Seq<char> },
    StartEvent { handle: i32 },
    FinishEvent {
        handle: i32,
        name: Seq<char>,
        title: Seq<char>,
        body: Seq<char>,
        body_format: i32,
    },
    SetError { handle: i32, name: Seq<char>, message: Seq<char>, backtrace: Seq<char> },
    SetSampleData { handle: i32, key: Seq<char>, payload: Seq<char> },
    SetAction { handle: i32, action: Seq<char> },
    SetQueueStart { handle: i32, queue_start: i64 },
    SetMetaData { handle: i32, key: Seq<char>, value: Seq<char> },
    FinishTransaction { handle: i32 },
    CompleteTransaction { handle: i32 },
    SetGauge { key: Seq<char>, value_bits: u32 },
    IncrementCounter { key: Seq<char>, count: i32 },
    AddDistributionValue { key: Seq<char>, value_bits: u32 },
}

impl Call {
    /// The transaction that the call is about, if it is about one.
    pub open spec fn handle(self) -> Option<i32> {
        match self {
            Call::StartEvent { handle } => Some(handle),
            Call::FinishEvent { handle, .. } => Some(handle),
            Call::SetError { handle, .. } => Some(handle),
            Call::SetSampleData { handle, .. } => Some(handle),
            Call::SetAction { handle, .. } => Some(handle),
            Call::SetQueueStart { handle, .. } => Some(handle),
            Call::SetMetaData { handle, .. } => Some(handle),
            Call::FinishTransaction { handle } => Some(handle),
            Call::CompleteTransaction { handle } => Some(handle),
            _ => None,
        }
    }

    /// Whether the call opens or closes a timing region.
    pub open spec fn is_event(self) -> bool {
        self is StartEvent || self is FinishEvent
    }
}

impl View for AgentCall {
    type V = Call;

    open spec fn view(&self) -> Call {
        match *self {
            AgentCall::Start => Call::Start,
            AgentCall::Stop => Call::Stop,
            AgentCall::StartTransaction { transaction_id, namespace } => Call::StartTransaction {
                transaction_id: transaction_id@,
                namespace: namespace@,
            },
            AgentCall::StartEvent { handle } => Call::StartEvent { handle },
            AgentCall::FinishEvent { handle, name, title, body, body_format } => Call::FinishEvent {
                handle,
                name: name@,
                title: title@,
                body: body@,
                body_format,
            },
            AgentCall::SetError { handle, name, message, backtrace } => Call::SetError {
                handle,
                name: name@,
                message: message@,
                backtrace: backtrace@,
            },
            AgentCall::SetSampleData { handle, key, payload } => Call::SetSampleData {
                handle,
                key: key@,
                payload: payload@,
            },
            AgentCall::SetAction { handle, action } => Call::SetAction { handle, action: action@ },
            AgentCall::SetQueueStart { handle, queue_start } => Call::SetQueueStart {
                handle,
                queue_start,
            },
            AgentCall::SetMetaData { handle, key, value } => Call::SetMetaData {
                handle,
                key: key@,
                value: value@,
            },
            AgentCall::FinishTransaction { handle } => Call::FinishTransaction { handle },
            AgentCall::CompleteTransaction { handle } => Call::CompleteTransaction { handle },
            AgentCall::SetGauge { key, value_bits } => Call::SetGauge { key: key@, value_bits },
            AgentCall::IncrementCounter { key, count } => Call::IncrementCounter {
                key: key@,
                count,
            },
            AgentCall::AddDistributionValue { key, value_bits } => Call::AddDistributionValue {
                key: key@,
                value_bits,
            },
        }
    }
}

/// How many timing regions a run of calls leaves open on the transaction
/// `handle`, over those that were open before it: a `StartEvent` about the
/// transaction opens one, a `FinishEvent` about it closes one.
pub open spec fn open_events(calls: Seq<Call>, handle: i32) -> int
    decreases calls.len(),
{
    if calls.len() == 0 {
        0
    } else {
        let step: int = match calls.last() {
            Call::StartEvent { handle: h } => if h == handle { 1 } else { 0 },
            Call::FinishEvent { handle: h, .. } => if h == handle { -1 } else { 0 },
            _ => 0,
        };
        open_events(calls.drop_last(), handle) + step
    }
}

/// The error of the first text, in order, that holds a NUL; `None` when
/// every text can cross.
pub open spec fn first_nul_error(texts: Seq<Seq<char>>) -> Option<EncodeError>
    decreases texts.len(),
{
    if texts.len() == 0 {
        None
    } else if has_nul(texts[0]) {
        Some(nul_error(texts[0]))
    } else {
        first_nul_error(texts.drop_first())
    }
}

/// `call`, provided that all of `texts`, its text arguments in order, can
/// cross; else the error of the first that cannot.
pub open spec fn checked(texts: Seq<Seq<char>>, call: Call) -> Result<Call, EncodeError> {
    match first_nul_error(texts) {
        Some(e) => Err(e),
        None => Ok(call),
    }
}

/// An operation's result, with the call it produced taken by its view.
pub open spec fn outcome(r: Result<AgentCall, EncodeError>) -> Result<Call, EncodeError> {
    match r {
        Ok(call) => Ok(call@),
        Err(e) => Err(e),
    }
}

/// A call is made exactly if none of its texts holds a NUL, and then it is
/// the call asked for; one text with a NUL, wherever it stands, and there is
/// an error and no call.
pub proof fn lemma_checked(texts: Seq<Seq<char>>, call: Call)
    ensures
        checked(texts, call) is Ok <==> forall|i: int|
            0 <= i < texts.len() ==> !has_nul(#[trigger] texts[i]),
        checked(texts, call) is Ok ==> checked(texts, call) == Ok::<Call, EncodeError>(call),
{
    lemma_first_nul_error(texts);
}

/// No text in `texts` holds a NUL exactly if none gives an error.
proof fn lemma_first_nul_error(texts: Seq<Seq<char>>)
    ensures
        first_nul_error(texts) is None <==> forall|i: int|
            0 <= i < texts.len() ==> !has_nul(#[trigger] texts[i]),
    decreases texts.len(),
{
    if texts.len() > 0 {
        let rest = texts.drop_first();
        lemma_first_nul_error(rest);
        if first_nul_error(texts) is None {
            assert forall|i: int| 0 <= i < texts.len() implies !has_nul(#[trigger] texts[i]) by {
                if i > 0 {
                    assert(texts[i] == rest[i - 1]);
                }
            }
        } else if !has_nul(texts[0]) {
            let i = choose|i: int| 0 <= i < rest.len() && has_nul(#[trigger] rest[i]);
            assert(rest[i] == texts[i + 1]);
        }
    }
}

} // verus!
