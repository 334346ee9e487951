//! The pluggable codec capability: a paired encoder and decoder between a
//! structured value and its byte representation. The store is agnostic to
//! the format; any implementation of [`Codec`] is valid.

use vstd::prelude::*;

use crate::errors::StoreError;

verus! {

/// A codec for values of type `T`, specified over the abstract view of the
/// value: `enc` gives the bytes written for a view, `dec` gives the view
/// read out of bytes (or nothing, where the bytes are not a valid
/// encoding).
///
/// The contract of `encode` carries the round-trip law: decoding the bytes
/// produced for a value yields that value back.
pub trait Codec<T: View>: Sized {
    /// The byte encoding of a value, as a function of its view alone.
    spec fn enc(v: T::V) -> Seq<u8>;

    /// The view a valid encoding decodes to, or `None` where the bytes are
    /// not a valid encoding.
    spec fn dec(b: Seq<u8>) -> Option<T::V>;

    /// The values the codec accepts: encoding succeeds exactly on these,
    /// as a function of the value alone.
    spec fn enc_ok(v: T::V) -> bool;

    /// Encoding succeeds exactly on the values the codec accepts. It is
    /// deterministic in the value, never yields empty bytes (so an empty
    /// file is unambiguously "never written"), and what it yields decodes
    /// back to the encoded value. A failure is always the codec rejecting
    /// the value.
    fn encode(&self, v: &T) -> (r: Result<Vec<u8>, StoreError>)
        ensures
            r is Ok <==> Self::enc_ok(v@),
            r matches Ok(b) ==> b@ == Self::enc(v@) && b@.len() > 0 && Self::dec(b@) == Some(v@),
            r matches Err(e) ==> e == StoreError::Encode,
    ;

    /// Decoding returns exactly what `dec` says of the bytes: a value
    /// whose view is the decoded view, or a decode error precisely where
    /// the bytes are not a valid encoding.
    fn decode(&self, b: &[u8]) -> (r: Result<T, StoreError>)
        ensures
            r matches Ok(v) ==> Self::dec(b@) == Some(v@),
            r matches Err(e) ==> Self::dec(b@) is None && e == StoreError::Decode,
    ;
}

/// The round-trip law, run end to end: encoding a value and decoding the
/// resulting bytes gives a value with the same view, and succeeds exactly
/// on the values the codec accepts. The only failure a compliant codec may
/// produce on this path is rejecting the value at encode time; the decode
/// of freshly encoded bytes cannot fail.
pub fn round_trip<T: View, C: Codec<T>>(codec: &C, v: &T) -> (r: Result<T, StoreError>)
    ensures
        r is Ok <==> C::enc_ok(v@),
        r matches Ok(w) ==> w@ == v@,
        r matches Err(e) ==> e == StoreError::Encode,
{
    match codec.encode(v) {
        Ok(bytes) => {
            match codec.decode(bytes.as_slice()) {
                Ok(w) => Ok(w),
                Err(_) => {
                    proof {
                        assert(false);
                    }
                    Err(StoreError::Encode)
                },
            }
        },
        Err(e) => Err(e),
    }
}

} // verus!
