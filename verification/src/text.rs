//! Text in the forms that the platform and the engine take.
//!
//! The engine reads narrow text: the bytes of the string, then one zero byte.
//! The platform's loader reads wide text: UTF-16 units, then one zero unit.
use vstd::prelude::*;
use vstd::utf8::*;
use crate::error::BridgeError;

verus! {

/// The byte that ends a native text buffer.
pub const TERMINATOR: u8 = 0;

/// Whether `bytes` holds a zero byte anywhere.
pub open spec fn has_nul(bytes: Seq<u8>) -> bool {
    exists|i: int| 0 <= i < bytes.len() && #[trigger] bytes[i] == 0u8
}

/// The native form of `bytes`: the bytes themselves, then the terminator.
pub open spec fn native_text(bytes: Seq<u8>) -> Seq<u8> {
    bytes.push(0u8)
}

/// Whether `buffer` is a native text buffer: it ends in the terminator and
/// holds no other zero byte.
pub open spec fn is_native_text(buffer: Seq<u8>) -> bool {
    &&& buffer.len() > 0
    &&& buffer.last() == 0u8
    &&& !has_nul(buffer.drop_last())
}

/// Puts `bytes` into native form. Bytes that hold a zero have none.
pub fn marshal_bytes(bytes: &[u8]) -> (result: Result<Vec<u8>, BridgeError>)
    ensures
        has_nul(bytes@) <==> result is Err,
        result is Err ==> result == Err::<Vec<u8>, BridgeError>(BridgeError::Encoding),
        result is Ok ==> result->Ok_0@ == native_text(bytes@),
{
    let mut buffer: Vec<u8> = Vec::new();
    let mut i: usize = 0;
    while i < bytes.len()
        invariant
            0 <= i <= bytes.len(),
            buffer@ == bytes@.take(i as int),
            !has_nul(bytes@.take(i as int)),
        decreases bytes.len() - i,
    {
        let b: u8 = bytes[i];
        if b == TERMINATOR {
            return Err(BridgeError::Encoding);
        }
        buffer.push(b);
        proof {
            assert(bytes@.take(i + 1) =~= bytes@.take(i as int).push(b));
            assert forall|k: int| 0 <= k < i + 1 implies #[trigger] bytes@.take(i + 1)[k]
                != 0u8 by {
                if k < i {
                    assert(bytes@.take(i as int)[k] == bytes@[k]);
                }
            }
        }
        i = i + 1;
    }
    proof {
        assert(bytes@.take(i as int) =~= bytes@);
    }
    buffer.push(TERMINATOR);
    Ok(buffer)
}

/// Puts a string into native form, by its UTF-8 bytes.
pub fn marshal_text(text: &str) -> (result: Result<Vec<u8>, BridgeError>)
    ensures
        has_nul(encode_utf8(text@)) <==> result is Err,
        result is Err ==> result == Err::<Vec<u8>, BridgeError>(BridgeError::Encoding),
        result is Ok ==> result->Ok_0@ == native_text(encode_utf8(text@)),
{
    marshal_bytes(text.as_bytes())
}

/// Takes the text out of a native buffer: everything before the terminator.
/// A buffer that is not native text gives `None`.
pub fn unmarshal_bytes(buffer: &[u8]) -> (result: Option<Vec<u8>>)
    ensures
        is_native_text(buffer@) <==> result is Some,
        result is Some ==> result->Some_0@ == buffer@.drop_last(),
{
    let n: usize = buffer.len();
    if n == 0 || buffer[n - 1] != TERMINATOR {
        return None;
    }
    let mut bytes: Vec<u8> = Vec::new();
    let mut i: usize = 0;
    while i < n - 1
        invariant
            n == buffer.len(),
            n > 0,
            0 <= i <= n - 1,
            bytes@ == buffer@.take(i as int),
            !has_nul(buffer@.take(i as int)),
        decreases n - i,
    {
        let b: u8 = buffer[i];
        if b == TERMINATOR {
            proof {
                assert(buffer@.drop_last()[i as int] == 0u8);
            }
            return None;
        }
        bytes.push(b);
        proof {
            assert(buffer@.take(i + 1) =~= buffer@.take(i as int).push(b));
            assert forall|k: int| 0 <= k < i + 1 implies #[trigger] buffer@.take(i + 1)[k]
                != 0u8 by {
                if k < i {
                    assert(buffer@.take(i as int)[k] == buffer@[k]);
                }
            }
        }
        i = i + 1;
    }
    proof {
        assert(buffer@.take(i as int) =~= buffer@.drop_last());
    }
    Some(bytes)
}

/// Marshalling and back gives the text again: the native form of bytes
/// without a zero is a native buffer, one byte longer, whose only zero is its
/// last byte, and what lies before that byte is what went in.
pub proof fn lemma_round_trip(bytes: Seq<u8>)
    requires
        !has_nul(bytes),
    ensures
        is_native_text(native_text(bytes)),
        native_text(bytes).len() == bytes.len() + 1,
        native_text(bytes).drop_last() == bytes,
        forall|i: int|
            0 <= i < native_text(bytes).len() ==> (#[trigger] native_text(bytes)[i] == 0u8 <==> i
                == bytes.len()),
{
    assert(native_text(bytes).drop_last() =~= bytes);
    assert forall|i: int| 0 <= i < native_text(bytes).len() implies (#[trigger] native_text(
        bytes,
    )[i] == 0u8 <==> i == bytes.len()) by {
        if i < bytes.len() {
            assert(native_text(bytes)[i] == bytes[i]);
        }
    }
}

/// The same for a string: decoding what lies before the terminator of its
/// native form gives its characters again.
pub proof fn lemma_round_trip_chars(chars: Seq<char>)
    requires
        !has_nul(encode_utf8(chars)),
    ensures
        is_native_text(native_text(encode_utf8(chars))),
        decode_utf8(native_text(encode_utf8(chars)).drop_last()) == chars,
{
    lemma_round_trip(encode_utf8(chars));
    encode_utf8_decode_utf8(chars);
}

/// The UTF-16 units, terminator included, that `widestring` makes of a
/// string that it accepts.
pub uninterp spec fn wide_units(chars: Seq<char>) -> Seq<u16>;

/// Whether a string has a wide native form: no character before its last is
/// the zero character.
pub open spec fn wide_encodable(chars: Seq<char>) -> bool {
    forall|i: int| 0 <= i < chars.len() - 1 ==> #[trigger] chars[i] != '\0'
}

#[verifier::external_type_specification]
#[verifier::external_body]
#[verifier::reject_recursive_types(C)]
pub struct ExContainsNul<C>(widestring::error::ContainsNul<C>);

/// Calls `widestring::U16CString::from_str` and takes the units out with
/// `into_vec_with_nul`. Trusted: the call fails exactly where a zero unit
/// stands before the last unit, and a zero unit comes from the zero character
/// alone; on success the units end in one zero unit and hold no other, and
/// are the same for the same string.
#[verifier::external_body]
fn encode_wide(text: &str) -> (result: Result<Vec<u16>, widestring::error::ContainsNul<u16>>)
    ensures
        result is Ok <==> wide_encodable(text@),
        result is Ok ==> result->Ok_0@ == wide_units(text@),
        result is Ok ==> result->Ok_0@.len() > 0 && result->Ok_0@.last() == 0u16,
        result is Ok ==> forall|i: int|
            0 <= i < result->Ok_0@.len() - 1 ==> #[trigger] result->Ok_0@[i] != 0u16,
{
    match widestring::U16CString::from_str(text) {
        Ok(wide) => Ok(wide.into_vec_with_nul()),
        Err(error) => Err(error),
    }
}

/// Puts a path into the wide native form that the platform's loader takes.
/// `None` where the path has no such form.
pub fn marshal_wide(text: &str) -> (result: Option<Vec<u16>>)
    ensures
        result is Some <==> wide_encodable(text@),
        result is Some ==> result->Some_0@ == wide_units(text@),
        result is Some ==> is_wide_text(result->Some_0@),
{
    match encode_wide(text) {
        Ok(units) => Some(units),
        Err(_) => None,
    }
}

/// Whether `units` is a wide native buffer: it ends in a zero unit and holds
/// no other.
pub open spec fn is_wide_text(units: Seq<u16>) -> bool {
    &&& units.len() > 0
    &&& units.last() == 0u16
    &&& forall|i: int| 0 <= i < units.len() - 1 ==> #[trigger] units[i] != 0u16
}

} // verus!
