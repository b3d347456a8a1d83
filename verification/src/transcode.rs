//! The generic transcoding entry points: encode a registered value into a
//! caller buffer, decode a caller buffer into a freshly owned handle.

use vstd::prelude::*;

use crate::handle::ASNBox;
use crate::handle::Provenance;
use crate::registry::ASN1GenType;

verus! {

/// Pack `msg` into a prefix of `buffer` through its type's descriptor.
///
/// Returns the number of bytes written exactly when the value is encodable
/// and the buffer can hold its packed image; the buffer keeps its length
/// either way, and on failure its contents are unspecified and must not be
/// read. The value itself is never mutated.
pub fn uper_encode_full<T: ASN1GenType>(msg: &T, buffer: &mut Vec<u8>) -> (r: Option<usize>)
    ensures
        final(buffer)@.len() == old(buffer)@.len(),
        r is Some <==> msg.uper_encodable() && msg.uper_encoding().len() <= old(buffer)@.len(),
        r matches Some(n) ==> n == msg.uper_encoding().len() && final(buffer)@.subrange(
            0,
            n as int,
        ) == msg.uper_encoding(),
{
    msg.uper_encode(buffer)
}

/// Decode `buffer` into a new instance of `T` through its type's descriptor.
///
/// Succeeds exactly when the bytes are the full packed image of some
/// encodable value of `T`. On success the codec has allocated the instance,
/// so the handle handed back is tagged codec-allocated and owns a value whose
/// image is precisely the input. On failure nothing is handed out: no
/// ownership over any partial allocation reaches the caller.
pub fn uper_decode_full<T: ASN1GenType>(buffer: &[u8]) -> (r: Option<ASNBox<T>>)
    ensures
        r is Some <==> exists|v: T| v.uper_encodable() && v.uper_encoding() == buffer@,
        r matches Some(h) ==> h.spec_value().uper_encodable() && h.spec_value().uper_encoding()
            == buffer@ && h.spec_provenance() == Provenance::Asn1CodecAllocated,
{
    match T::uper_decode(buffer) {
        Some(v) => Some(ASNBox::<T>::new_from_asn1codec_allocated_struct(Some(Box::new(v)))),
        None => None,
    }
}

/// Round trip, first half: every encodable value's packed image is itself
/// decodable, so by the contract of [`uper_decode_full`] a decode of a
/// successful encode's output never fails.
pub proof fn lemma_encoding_is_decodable<T: ASN1GenType>(v: T)
    requires
        v.uper_encodable(),
    ensures
        exists|w: T| w.uper_encodable() && w.uper_encoding() == v.uper_encoding(),
{
    assert(v.uper_encodable() && v.uper_encoding() == v.uper_encoding());
}

/// Round trip, second half: whatever encodable value a decode of `v`'s packed
/// image hands back carries `v`'s whole content. Together with
/// [`lemma_encoding_is_decodable`] and the contracts of [`uper_encode_full`]
/// and [`uper_decode_full`]: when encoding `v` succeeds, decoding the written
/// bytes succeeds and gives a value equal to `v` field for field.
pub proof fn lemma_uper_round_trip<T: ASN1GenType>(v: T, w: T)
    requires
        v.uper_encodable(),
        w.uper_encodable(),
        w.uper_encoding() == v.uper_encoding(),
    ensures
        w.model() == v.model(),
{
    T::lemma_encoding_determines_model(&v, &w);
}

} // verus!
