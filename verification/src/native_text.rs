//! Text in the form the agent's native interface takes: UTF-8 bytes, closed
//! by one zero byte and free of any other.

use vstd::prelude::*;
use vstd::slice::{slice_subrange, slice_to_vec};
use vstd::utf8::*;

verus! {

/// Why a value could not be put into the form that the agent accepts.
#[derive(Clone, Copy, Debug, PartialEq, Eq, Structural)]
pub enum EncodeError {
    /// The text holds a NUL character; `position` is the offset of the first
    /// zero byte in its UTF-8 form.
    InteriorNul { position: usize },
    /// A stack frame has no symbol name to report.
    MissingSymbolName,
    /// The payload has no JSON form.
    Unserializable,
}

/// Whether `text` holds a NUL character, which no native text can carry.
pub open spec fn has_nul(text: Seq<char>) -> bool {
    text.contains('\0')
}

/// The bytes that stand for `text` on the wire: its UTF-8 form and the
/// terminator.
pub open spec fn wire_bytes(text: Seq<char>) -> Seq<u8> {
    encode_utf8(text) + seq![0u8]
}

/// The text that terminated wire bytes stand for.
pub open spec fn wire_text(bytes: Seq<u8>) -> Seq<char> {
    decode_utf8(bytes.drop_last())
}

/// The error that encoding `text` gives when `text` holds a NUL.
pub open spec fn nul_error(text: Seq<char>) -> EncodeError {
    EncodeError::InteriorNul {
        position: encode_utf8(text).index_of_first(0u8).unwrap() as usize,
    }
}

/// What encoding `text` gives: the text itself, or the error for its first
/// NUL.
pub open spec fn encoded(text: Seq<char>) -> Result<Seq<char>, EncodeError> {
    if has_nul(text) {
        Err(nul_error(text))
    } else {
        Ok(text)
    }
}

/// A scalar's UTF-8 form holds a zero byte only if the scalar is zero.
proof fn lemma_scalar_zero_byte(scalar: u32)
    requires
        is_scalar(scalar),
    ensures
        encode_scalar(scalar).contains(0u8) <==> scalar == 0,
{
    let bytes = encode_scalar(scalar);
    assert(has_width_1_encoding(scalar) ==> (leading_byte_width_1(scalar) == 0 <==> scalar == 0))
        by (bit_vector);
    assert(leading_byte_width_2(scalar) != 0) by (bit_vector);
    assert(leading_byte_width_3(scalar) != 0) by (bit_vector);
    assert(leading_byte_width_4(scalar) != 0) by (bit_vector);
    assert(last_continuation_byte(scalar) != 0) by (bit_vector);
    assert(second_last_continuation_byte(scalar) != 0) by (bit_vector);
    assert(third_last_continuation_byte(scalar) != 0) by (bit_vector);
    if scalar == 0 {
        assert(bytes[0] == 0u8);
    }
}

/// A text holds a NUL character exactly if its UTF-8 form holds a zero byte.
pub proof fn lemma_nul_iff_zero_byte(text: Seq<char>)
    ensures
        has_nul(text) <==> encode_utf8(text).contains(0u8),
    decreases text.len(),
{
    if text.len() > 0 {
        let head = encode_scalar(text[0] as u32);
        let rest = text.drop_first();
        let tail = encode_utf8(rest);
        char_is_scalar(text[0]);
        lemma_scalar_zero_byte(text[0] as u32);
        lemma_nul_iff_zero_byte(rest);
        if has_nul(text) {
            let i = choose|i: int| 0 <= i < text.len() && text[i] == '\0';
            if i == 0 {
                let k = choose|k: int| 0 <= k < head.len() && head[k] == 0u8;
                assert((head + tail)[k] == 0u8);
            } else {
                assert(rest[i - 1] == '\0');
                let k = choose|k: int| 0 <= k < tail.len() && tail[k] == 0u8;
                assert((head + tail)[head.len() + k] == 0u8);
            }
        }
        if (head + tail).contains(0u8) {
            let k = choose|k: int| 0 <= k < (head + tail).len() && (head + tail)[k] == 0u8;
            if k < head.len() {
                assert(head[k] == 0u8);
                char_u32_cast(text[0], 0u32);
                assert(text[0] == '\0');
            } else {
                assert(tail[k - head.len()] == 0u8);
                let i = choose|i: int| 0 <= i < rest.len() && rest[i] == '\0';
                assert(text[i + 1] == '\0');
            }
        }
    }
}

/// Decoding the wire bytes of a text gives the text back.
pub proof fn lemma_wire_round_trip(text: Seq<char>)
    ensures
        wire_text(wire_bytes(text)) == text,
{
    assert(wire_bytes(text).drop_last() =~= encode_utf8(text));
    encode_utf8_decode_utf8(text);
}

/// A text ready to cross into the agent.
#[derive(Debug, PartialEq, Eq)]
pub struct NativeText {
    bytes: Vec<u8>,
}

impl View for NativeText {
    type V = Seq<char>;

    /// The text that the bytes stand for.
    closed spec fn view(&self) -> Seq<char> {
        wire_text(self.bytes@)
    }
}

/// `String::from_utf8`: succeeds exactly on valid UTF-8, and the string it
/// gives is the one that the bytes encode.
#[verifier::external_body]
fn text_of_utf8(bytes: Vec<u8>) -> (r: Option<String>)
    ensures
        r is Some <==> valid_utf8(bytes@),
        r matches Some(text) ==> encode_utf8(text@) == bytes@,
{
    String::from_utf8(bytes).ok()
}

impl Clone for NativeText {
    fn clone(&self) -> (copy: Self)
        ensures
            copy@ == self@,
    {
        proof {
            use_type_invariant(self);
        }
        let bytes = self.bytes.clone();
        assert(bytes@ =~= self.bytes@);
        NativeText { bytes }
    }
}

impl NativeText {
    #[verifier::type_invariant]
    spec fn well_formed(&self) -> bool {
        &&& !has_nul(self@)
        &&& self.bytes@ == wire_bytes(self@)
    }

    /// Encodes `text` for the agent. Fails, rather than cutting the text
    /// short, exactly when it holds a NUL character.
    pub fn encode(text: &str) -> (r: Result<NativeText, EncodeError>)
        ensures
            match r {
                Ok(native) => encoded(text@) == Ok::<Seq<char>, EncodeError>(native@),
                Err(e) => encoded(text@) == Err::<Seq<char>, EncodeError>(e),
            },
    {
        let source = text.as_bytes();
        let n = source.len();
        let mut bytes: Vec<u8> = Vec::new();
        let mut i: usize = 0;
        while i < n
            invariant
                i <= n,
                n == source@.len(),
                source@ == encode_utf8(text@),
                bytes@ == source@.subrange(0, i as int),
                forall|j: int| 0 <= j < i ==> source@[j] != 0u8,
            decreases n - i,
        {
            let byte = source[i];
            if byte == 0 {
                proof {
                    assert(source@[i as int] == 0u8);
                    lemma_nul_iff_zero_byte(text@);
                    source@.index_of_first_ensures(0u8);
                }
                return Err(EncodeError::InteriorNul { position: i });
            }
            bytes.push(byte);
            i += 1;
        }
        bytes.push(0);
        proof {
            lemma_nul_iff_zero_byte(text@);
            assert(bytes@ =~= wire_bytes(text@));
            lemma_wire_round_trip(text@);
        }
        Ok(NativeText { bytes })
    }

    /// Whether `text` holds a NUL character, and so cannot be encoded.
    pub fn holds_nul(text: &str) -> (found: bool)
        ensures
            found == has_nul(text@),
    {
        let source = text.as_bytes();
        let n = source.len();
        let mut i: usize = 0;
        proof {
            lemma_nul_iff_zero_byte(text@);
        }
        while i < n
            invariant
                i <= n,
                n == source@.len(),
                source@ == encode_utf8(text@),
                has_nul(text@) <==> source@.contains(0u8),
                forall|j: int| 0 <= j < i ==> source@[j] != 0u8,
            decreases n - i,
        {
            if source[i] == 0 {
                assert(source@[i as int] == 0u8);
                return true;
            }
            i += 1;
        }
        false
    }

    /// The bytes to hand to the agent: the text in UTF-8, then the
    /// terminator, which is the only zero byte among them.
    pub fn as_bytes_with_nul(&self) -> (bytes: &[u8])
        ensures
            bytes@ == wire_bytes(self@),
            !has_nul(self@),
            forall|i: int| 0 <= i < bytes@.len() - 1 ==> bytes@[i] != 0u8,
    {
        proof {
            use_type_invariant(self);
            lemma_nul_iff_zero_byte(self@);
        }
        self.bytes.as_slice()
    }

    /// Reads the text back out of the bytes.
    pub fn decode(&self) -> (text: String)
        ensures
            text@ == self@,
    {
        proof {
            use_type_invariant(self);
        }
        let n = self.bytes.len();
        let body = slice_to_vec(slice_subrange(self.bytes.as_slice(), 0, n - 1));
        proof {
            assert(body@ =~= encode_utf8(self@));
            encode_utf8_valid_utf8(self@);
        }
        match text_of_utf8(body) {
            Some(text) => {
                proof {
                    encode_utf8_decode_utf8(text@);
                    encode_utf8_decode_utf8(self@);
                }
                text
            },
            None => vstd::pervasive::unreached(),
        }
    }
}

} // verus!
