use crate::delete::spec_encodable;
use crate::delete::spec_read_request;
use crate::delete::spec_request_bytes;
use crate::delete::spec_type_label;
use crate::delete::spec_write_size;
use crate::delete::DeleteRequestView;
use crate::delete::DeleteSpec;
use crate::error::CodecErrorView;
use crate::resources::lemma_key_round_trip;
use crate::resources::lemma_labels_wire;
use crate::resources::spec_key_bytes;
use crate::resources::CustomSpuSpec;
use crate::resources::SpuGroupSpec;
use crate::resources::TopicSpec;
use crate::wire::lemma_string_round_trip;
use crate::wire::spec_string_bytes;
use crate::wire::str_encodable;
use vstd::prelude::*;

verus! {

/// The three known wire labels are pairwise distinct, so no two resource
/// types can ever claim the same tag and decode dispatch is unambiguous.
pub proof fn lemma_labels_distinct()
    ensures
        TopicSpec::spec_label() != CustomSpuSpec::spec_label(),
        TopicSpec::spec_label() != SpuGroupSpec::spec_label(),
        CustomSpuSpec::spec_label() != SpuGroupSpec::spec_label(),
{
    reveal_strlit("topic");
    reveal_strlit("custom-spu");
    reveal_strlit("spu-group");
    assert(TopicSpec::spec_label().len() == 5);
    assert(CustomSpuSpec::spec_label().len() == 10);
    assert(SpuGroupSpec::spec_label().len() == 9);
}

/// Round trip: decoding the wire bytes of any encodable request, whatever
/// bytes follow them in the buffer, consumes exactly those bytes and yields
/// the request back, at every version (the wire format of no current version
/// depends on the version number).
pub proof fn lemma_request_round_trip(v: DeleteRequestView, rest: Seq<u8>)
    requires
        spec_encodable(v),
    ensures
        spec_read_request(spec_request_bytes(v) + rest) == Ok::<
            (DeleteRequestView, int),
            CodecErrorView,
        >((v, spec_request_bytes(v).len() as int)),
{
    lemma_labels_wire();
    lemma_labels_distinct();
    let label = spec_type_label(v);
    let payload = match v {
        DeleteRequestView::Topic(s) => spec_string_bytes(s),
        DeleteRequestView::CustomSpu(k) => spec_key_bytes(k),
        DeleteRequestView::SpuGroup(s) => spec_string_bytes(s),
    };
    let all = spec_request_bytes(v) + rest;
    assert(all =~= spec_string_bytes(label) + (payload + rest));
    lemma_string_round_trip(label, payload + rest);
    let consumed = spec_string_bytes(label).len() as int;
    assert(all.skip(consumed) =~= payload + rest);
    match v {
        DeleteRequestView::Topic(s) => lemma_string_round_trip(s, rest),
        DeleteRequestView::CustomSpu(k) => lemma_key_round_trip(k, rest),
        DeleteRequestView::SpuGroup(s) => lemma_string_round_trip(s, rest),
    }
}

/// Size fidelity: for every encodable request, at every version, the byte
/// length the codec reports equals the length of the bytes encoding produces.
pub proof fn lemma_size_fidelity(v: DeleteRequestView)
    requires
        spec_encodable(v),
    ensures
        spec_write_size(v) == spec_request_bytes(v).len(),
{
}

/// Tag rejection: a buffer whose tag string is any value outside the known
/// label set always fails to decode with the unknown-type error carrying
/// that tag, whatever payload bytes follow it.
pub proof fn lemma_tag_rejection(tag: Seq<char>, rest: Seq<u8>)
    requires
        str_encodable(tag),
        tag != TopicSpec::spec_label(),
        tag != CustomSpuSpec::spec_label(),
        tag != SpuGroupSpec::spec_label(),
    ensures
        spec_read_request(spec_string_bytes(tag) + rest) == Err::<
            (DeleteRequestView, int),
            CodecErrorView,
        >(CodecErrorView::UnknownType(tag)),
{
    lemma_string_round_trip(tag, rest);
}

/// Conversion totality: for every resource specification and every key value
/// whose request fits the wire format, the request built by the conversion
/// contract survives an encode/decode round trip unchanged, so the key value
/// it was built from is reproduced.
pub proof fn lemma_conversion_round_trip<S: DeleteSpec>(key: &S::DeleteKey, rest: Seq<u8>)
    requires
        spec_encodable(S::spec_request(key)),
    ensures
        spec_read_request(spec_request_bytes(S::spec_request(key)) + rest) == Ok::<
            (DeleteRequestView, int),
            CodecErrorView,
        >((S::spec_request(key), spec_request_bytes(S::spec_request(key)).len() as int)),
{
    lemma_request_round_trip(S::spec_request(key), rest);
}

} // verus!
