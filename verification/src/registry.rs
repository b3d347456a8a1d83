//! The descriptor registry: the compile-time binding between a schema type
//! and its runtime descriptor, and the build-pass logic that computes which
//! bindings to emit from the schema compiler's output.

use vstd::prelude::*;

verus! {

/// A schema type together with its runtime descriptor.
///
/// The schema compiler emits, for every structure type it generates, a
/// descriptor: the metadata needed to encode, decode and release instances of
/// that type. Implementing this trait is the registry entry for the type; the
/// binding is static, so looking a descriptor up is infallible and a missing
/// entry is a compile-time error, never a runtime one.
///
/// The spec functions describe the descriptor abstractly: `uper_encodable`
/// says which values meet the type's encoding constraints, `uper_encoding`
/// gives the packed byte image of an encodable value, and `model` gives the
/// content that image carries, which the image determines completely. The
/// two exec functions are the descriptor's transcoding entry points and are
/// pinned to that abstract description by their contracts.
pub trait ASN1GenType: Sized {
    /// The abstract content of a value of this type: everything the packed
    /// image carries, field for field.
    type Model;

    /// The abstract content of this value.
    spec fn model(&self) -> Self::Model;

    /// Whether the codec can encode this value: the value satisfies every
    /// constraint the schema places on its type.
    spec fn uper_encodable(&self) -> bool;

    /// The packed byte image the codec produces for this value, meaningful
    /// when `uper_encodable` holds.
    spec fn uper_encoding(&self) -> Seq<u8>;

    /// The packed image of an encodable value determines its whole content:
    /// two encodable values with the same image carry the same fields. This
    /// is what makes a decode of an encoding give the encoded value back.
    proof fn lemma_encoding_determines_model(v: &Self, w: &Self)
        requires
            v.uper_encodable(),
            w.uper_encodable(),
            v.uper_encoding() == w.uper_encoding(),
        ensures
            v.model() == w.model(),
    ;

    /// The descriptor's encode entry point: pack `self` into a prefix of the
    /// caller's buffer. Succeeds, returning the number of bytes written,
    /// exactly when the value is encodable and the buffer is large enough;
    /// the buffer keeps its length, and on failure its contents are
    /// unspecified.
    fn uper_encode(&self, buffer: &mut Vec<u8>) -> (r: Option<usize>)
        ensures
            final(buffer)@.len() == old(buffer)@.len(),
            r is Some <==> self.uper_encodable() && self.uper_encoding().len() <= old(
                buffer,
            )@.len(),
            r matches Some(n) ==> n == self.uper_encoding().len() && final(buffer)@.subrange(
                0,
                n as int,
            ) == self.uper_encoding(),
    ;

    /// The descriptor's decode entry point: rebuild a value from its packed
    /// byte image. Succeeds exactly when the bytes are the full image of some
    /// encodable value, and then returns a value with that image; on failure
    /// no value is handed out.
    fn uper_decode(bytes: &[u8]) -> (r: Option<Self>)
        ensures
            r matches Some(v) ==> v.uper_encodable() && v.uper_encoding() == bytes@,
            (exists|v: Self| v.uper_encodable() && v.uper_encoding() == bytes@) ==> r is Some,
    ;
}

/// The identifier prefix the schema compiler puts on every descriptor value
/// it declares; the rest of such an identifier names the described type.
/// The eight octets spell out `asn_DEF_`.
pub open spec fn descriptor_prefix() -> Seq<u8> {
    seq![97u8, 115u8, 110u8, 95u8, 68u8, 69u8, 70u8, 95u8]
}

/// The type name a declared identifier stands for: the identifier with the
/// descriptor prefix removed, when the prefix is there; nothing otherwise.
pub open spec fn spec_descriptor_target(symbol: Seq<u8>) -> Option<Seq<u8>> {
    if symbol.len() >= 8 && symbol.subrange(0, 8) == descriptor_prefix() {
        Some(symbol.skip(8))
    } else {
        None
    }
}

/// The views of a sequence of byte-string names.
pub open spec fn views_of(names: Seq<Vec<u8>>) -> Seq<Seq<u8>> {
    names.map_values(|v: Vec<u8>| v@)
}

/// The registry bindings computed from the first `n` descriptor identifiers:
/// each identifier that carries the descriptor prefix and whose stripped name
/// is among the generated structure types contributes that name, in order.
pub open spec fn spec_registry_targets_prefix(
    symbols: Seq<Seq<u8>>,
    structs: Seq<Seq<u8>>,
    n: int,
) -> Seq<Seq<u8>>
    decreases n,
{
    if n <= 0 {
        Seq::empty()
    } else {
        let prev = spec_registry_targets_prefix(symbols, structs, n - 1);
        match spec_descriptor_target(symbols[n - 1]) {
            Some(t) => if structs.contains(t) {
                prev.push(t)
            } else {
                prev
            },
            None => prev,
        }
    }
}

/// The registry bindings of a whole generated module: the structure types
/// that get a descriptor binding, in declaration order. A descriptor
/// identifier with no matching structure type is skipped deliberately, never
/// an error: not every descriptor describes an addressable structure.
pub open spec fn spec_registry_targets(symbols: Seq<Seq<u8>>, structs: Seq<Seq<u8>>) -> Seq<
    Seq<u8>,
> {
    spec_registry_targets_prefix(symbols, structs, symbols.len() as int)
}

/// Whether two byte-string names hold the same octets.
fn bytes_eq(a: &Vec<u8>, b: &Vec<u8>) -> (r: bool)
    ensures
        r <==> a@ == b@,
{
    if a.len() != b.len() {
        return false;
    }
    let mut i: usize = 0;
    while i < a.len()
        invariant
            i <= a@.len(),
            a@.len() == b@.len(),
            forall|k: int| 0 <= k < i ==> a@[k] == b@[k],
        decreases a@.len() - i,
    {
        if a[i] != b[i] {
            return false;
        }
        i = i + 1;
    }
    proof {
        assert(a@ =~= b@);
    }
    true
}

/// Whether `target` occurs among `names`.
fn contains_name(names: &Vec<Vec<u8>>, target: &Vec<u8>) -> (r: bool)
    ensures
        r <==> views_of(names@).contains(target@),
{
    let mut i: usize = 0;
    while i < names.len()
        invariant
            i <= names@.len(),
            forall|j: int| 0 <= j < i ==> names@[j]@ != target@,
        decreases names@.len() - i,
    {
        if bytes_eq(&names[i], target) {
            proof {
                assert(views_of(names@)[i as int] == target@);
            }
            return true;
        }
        i = i + 1;
    }
    proof {
        if views_of(names@).contains(target@) {
            let j = choose|j: int|
                0 <= j < views_of(names@).len() && views_of(names@)[j] == target@;
            assert(names@[j]@ == target@);
            assert(false);
        }
    }
    false
}

/// The type name a descriptor identifier stands for, as an executable read:
/// the identifier with the descriptor prefix stripped, or nothing when the
/// identifier does not carry the prefix.
pub fn descriptor_target(symbol: &Vec<u8>) -> (r: Option<Vec<u8>>)
    ensures
        r is Some <==> spec_descriptor_target(symbol@) is Some,
        r matches Some(t) ==> spec_descriptor_target(symbol@) == Some(t@),
{
    if symbol.len() < 8 {
        return None;
    }
    let prefixed = symbol[0] == 97 && symbol[1] == 115 && symbol[2] == 110 && symbol[3] == 95
        && symbol[4] == 68 && symbol[5] == 69 && symbol[6] == 70 && symbol[7] == 95;
    if !prefixed {
        proof {
            if symbol@.subrange(0, 8) == descriptor_prefix() {
                assert(symbol@[0] == symbol@.subrange(0, 8)[0]);
                assert(symbol@[1] == symbol@.subrange(0, 8)[1]);
                assert(symbol@[2] == symbol@.subrange(0, 8)[2]);
                assert(symbol@[3] == symbol@.subrange(0, 8)[3]);
                assert(symbol@[4] == symbol@.subrange(0, 8)[4]);
                assert(symbol@[5] == symbol@.subrange(0, 8)[5]);
                assert(symbol@[6] == symbol@.subrange(0, 8)[6]);
                assert(symbol@[7] == symbol@.subrange(0, 8)[7]);
                assert(false);
            }
        }
        return None;
    }
    proof {
        assert(symbol@.subrange(0, 8) =~= descriptor_prefix());
    }
    let mut t: Vec<u8> = Vec::new();
    let mut i: usize = 8;
    while i < symbol.len()
        invariant
            8 <= i <= symbol@.len(),
            t@.len() == i - 8,
            forall|k: int| 0 <= k < t@.len() ==> t@[k] == symbol@[8 + k],
        decreases symbol@.len() - i,
    {
        t.push(symbol[i]);
        i = i + 1;
    }
    proof {
        assert(t@ =~= symbol@.skip(8));
    }
    Some(t)
}

/// The registry construction pass over a generated module's declarations:
/// given the identifiers declared with descriptor shape and the names of the
/// generated structure types, compute which structure types get a descriptor
/// binding, in declaration order. Identifiers without the descriptor prefix
/// or without a matching structure type are skipped, never reported.
pub fn registry_targets(descriptor_symbols: &Vec<Vec<u8>>, struct_names: &Vec<Vec<u8>>) -> (r: Vec<
    Vec<u8>,
>)
    ensures
        views_of(r@) == spec_registry_targets(views_of(descriptor_symbols@), views_of(struct_names@)),
{
    let ghost symbols: Seq<Seq<u8>> = views_of(descriptor_symbols@);
    let ghost structs: Seq<Seq<u8>> = views_of(struct_names@);
    let mut r: Vec<Vec<u8>> = Vec::new();
    let mut i: usize = 0;
    while i < descriptor_symbols.len()
        invariant
            i <= descriptor_symbols@.len(),
            symbols == views_of(descriptor_symbols@),
            structs == views_of(struct_names@),
            views_of(r@) == spec_registry_targets_prefix(symbols, structs, i as int),
        decreases descriptor_symbols@.len() - i,
    {
        let ghost r_prev = views_of(r@);
        proof {
            assert(symbols[i as int] == descriptor_symbols@[i as int]@);
        }
        match descriptor_target(&descriptor_symbols[i]) {
            Some(t) => {
                if contains_name(struct_names, &t) {
                    proof {
                        assert(spec_descriptor_target(symbols[i as int]) == Some(t@));
                        assert(structs.contains(t@));
                    }
                    r.push(t);
                    proof {
                        assert(views_of(r@) =~= r_prev.push(t@));
                    }
                } else {
                    proof {
                        assert(!structs.contains(t@));
                    }
                }
            },
            None => {},
        }
        i = i + 1;
        proof {
            assert(views_of(r@) =~= spec_registry_targets_prefix(symbols, structs, i as int));
        }
    }
    proof {
        assert(i as int == symbols.len());
    }
    r
}

} // verus!
