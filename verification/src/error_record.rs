//! What is reported of an error: a name, the message, and the stack.

use crate::agent::first_nul_error;
use crate::error_name::{error_name, error_name_of};
use crate::native_text::{has_nul, EncodeError, NativeText};
use crate::stack::{
    backtrace_text, capture_frames, encode_backtrace, encode_backtrace_lossy,
    lossy_backtrace_text, Frame, FrameView,
};
use vstd::prelude::*;

verus! {

/// An error, ready to be attached to a transaction.
#[derive(Debug, PartialEq, Eq)]
pub struct ErrorRecord {
    /// The first word of the message, or "unknown".
    pub name: NativeText,
    /// The error's display text, whole.
    pub message: NativeText,
    /// A JSON array of strings, one per stack frame.
    pub backtrace: NativeText,
}

/// An [`ErrorRecord`], with its texts as the characters they hold.
pub ghost struct ErrorRecordView {
    pub name: Seq<char>,
    pub message: Seq<char>,
    pub backtrace: Seq<char>,
}

impl View for ErrorRecord {
    type V = ErrorRecordView;

    open spec fn view(&self) -> ErrorRecordView {
        ErrorRecordView { name: self.name@, message: self.message@, backtrace: self.backtrace@ }
    }
}

/// A record's making, with the record taken by its view.
pub open spec fn record_outcome(r: Result<ErrorRecord, EncodeError>) -> Result<
    ErrorRecordView,
    EncodeError,
> {
    match r {
        Ok(record) => Ok(record@),
        Err(e) => Err(e),
    }
}

impl ErrorRecord {
    /// The record for an error with this message, once the stack has
    /// been put into JSON: name, message and stack are checked in this
    /// order, and the first that holds a NUL gives the error.
    pub open spec fn with_backtrace(message: Seq<char>, backtrace: Seq<char>) -> Result<
        ErrorRecordView,
        EncodeError,
    > {
        match first_nul_error(seq![error_name(message), message, backtrace]) {
            Some(e) => Err(e),
            None => Ok(ErrorRecordView { name: error_name(message), message, backtrace }),
        }
    }

    /// The record for an error with this message, raised where the stack
    /// was `frames`. A message that cannot cross is reported before a stack
    /// with a frame that has no name; nothing else makes it fail.
    pub open spec fn with_frames(message: Seq<char>, frames: Seq<FrameView>) -> Result<
        ErrorRecordView,
        EncodeError,
    > {
        match first_nul_error(seq![error_name(message), message]) {
            Some(e) => Err(e),
            None => match backtrace_text(frames) {
                Err(e) => Err(e),
                Ok(backtrace) => Ok(
                    ErrorRecordView { name: error_name(message), message, backtrace },
                ),
            },
        }
    }

    /// The record for an error with this message, raised where the stack
    /// was `frames`, with "no symbol" for a frame whose name is not known.
    /// Only a message that cannot cross makes it fail.
    pub open spec fn with_frames_lossy(message: Seq<char>, frames: Seq<FrameView>) -> Result<
        ErrorRecordView,
        EncodeError,
    > {
        match first_nul_error(seq![error_name(message), message]) {
            Some(e) => Err(e),
            None => Ok(
                ErrorRecordView {
                    name: error_name(message),
                    message,
                    backtrace: lossy_backtrace_text(frames),
                },
            ),
        }
    }

    /// Encodes a text that is known to hold no NUL.
    fn crossing(text: &str) -> (native: NativeText)
        requires
            !has_nul(text@),
        ensures
            native@ == text@,
    {
        match NativeText::encode(text) {
            Ok(native) => native,
            Err(_) => vstd::pervasive::unreached(),
        }
    }

    /// Encodes name and message.
    fn heading(message: &str) -> (r: Result<(NativeText, NativeText), EncodeError>)
        ensures
            match r {
                Ok(pair) => first_nul_error(seq![error_name(message@), message@]) is None
                    && pair.0@ == error_name(message@) && pair.1@ == message@,
                Err(e) => first_nul_error(seq![error_name(message@), message@]) == Some(e),
            },
    {
        proof {
            reveal_with_fuel(first_nul_error, 3);
        }
        let name = error_name_of(message);
        let name = match NativeText::encode(name.as_str()) {
            Ok(text) => text,
            Err(e) => { return Err(e); },
        };
        let message = match NativeText::encode(message) {
            Ok(text) => text,
            Err(e) => { return Err(e); },
        };
        Ok((name, message))
    }

    /// Builds the record from the error's message and the JSON text of its
    /// stack.
    pub fn new(message: &str, backtrace: &str) -> (r: Result<ErrorRecord, EncodeError>)
        ensures
            record_outcome(r) == Self::with_backtrace(message@, backtrace@),
    {
        proof {
            reveal_with_fuel(first_nul_error, 4);
        }
        let (name, message) = match Self::heading(message) {
            Ok(pair) => pair,
            Err(e) => { return Err(e); },
        };
        let backtrace = match NativeText::encode(backtrace) {
            Ok(text) => text,
            Err(e) => { return Err(e); },
        };
        Ok(ErrorRecord { name, message, backtrace })
    }

    /// Builds the record from the error's message and the stack it was
    /// raised on. Fails on a message that cannot cross, and on a frame
    /// without a name.
    pub fn from_frames(message: &str, frames: &Vec<Frame>) -> (r: Result<ErrorRecord, EncodeError>)
        ensures
            record_outcome(r) == Self::with_frames(message@, frames.deep_view()),
    {
        let (name, message) = match Self::heading(message) {
            Ok(pair) => pair,
            Err(e) => { return Err(e); },
        };
        let backtrace = match encode_backtrace(frames) {
            Ok(text) => text,
            Err(e) => { return Err(e); },
        };
        Ok(ErrorRecord { name, message, backtrace: Self::crossing(backtrace.as_str()) })
    }

    /// Builds the record from the error's message and the stack it was
    /// raised on, with "no symbol" for a frame whose name is not known.
    /// Fails on a message that cannot cross, and on nothing else.
    pub fn from_frames_lossy(message: &str, frames: &Vec<Frame>) -> (r: Result<
        ErrorRecord,
        EncodeError,
    >)
        ensures
            record_outcome(r) == Self::with_frames_lossy(message@, frames.deep_view()),
    {
        let (name, message) = match Self::heading(message) {
            Ok(pair) => pair,
            Err(e) => { return Err(e); },
        };
        let backtrace = encode_backtrace_lossy(frames);
        Ok(ErrorRecord { name, message, backtrace: Self::crossing(backtrace.as_str()) })
    }

    /// Builds the record for an error raised here. The message is checked
    /// first; only where it can cross is the stack captured, the one that
    /// this call is made on. So the record is that of
    /// [`ErrorRecord::from_frames`] for some stack. Whatever the stack, a
    /// message that cannot cross gives its error, and a record that is made
    /// holds the message and its name.
    pub fn capture(message: &str) -> (r: Result<ErrorRecord, EncodeError>)
        ensures
            exists|frames: Seq<FrameView>| record_outcome(r) == Self::with_frames(message@, frames),
            first_nul_error(seq![error_name(message@), message@]) matches Some(e)
                ==> record_outcome(r) == Err::<ErrorRecordView, EncodeError>(e),
            r matches Ok(record) ==> record@.name == error_name(message@) && record@.message
                == message@,
    {
        let (name, text) = match Self::heading(message) {
            Ok(pair) => pair,
            Err(e) => {
                assert(record_outcome(Err(e)) == Self::with_frames(
                    message@,
                    Seq::<FrameView>::empty(),
                ));
                return Err(e);
            },
        };
        let frames = capture_frames();
        let r = match encode_backtrace(&frames) {
            Ok(backtrace) => Ok(
                ErrorRecord { name, message: text, backtrace: Self::crossing(backtrace.as_str()) },
            ),
            Err(e) => Err(e),
        };
        assert(record_outcome(r) == Self::with_frames(message@, frames.deep_view()));
        r
    }
}

} // verus!
