use crate::error::CodecError;
use crate::error::CodecErrorView;
use crate::resources::key_encodable;
use crate::resources::lemma_labels_wire;
use crate::resources::spec_key_bytes;
use crate::resources::spec_read_key;
use crate::resources::CustomSpuKey;
use crate::resources::CustomSpuKeyView;
use crate::resources::CustomSpuSpec;
use crate::resources::SpuGroupSpec;
use crate::resources::TopicSpec;
use crate::wire::decode_string;
use crate::wire::encode_string;
use crate::wire::spec_read_str;
use crate::wire::spec_string_bytes;
use crate::wire::str_encodable;
use crate::wire::string_fits;
use crate::wire::string_write_size;
use crate::wire::Version;
use vstd::prelude::*;
use vstd::string::StringExecFns;

verus! {

/// A request to delete exactly one resource, tagged on the wire with the
/// label of its resource type. Exactly one variant is populated; decode
/// rejects every label outside the known set, so no value of this type ever
/// holds a payload inconsistent with its tag.
#[derive(Debug, Clone)]
pub enum DeleteRequest {
    /// Delete a topic, identified by name.
    Topic(String),
    /// Delete a custom SPU, identified by a [`CustomSpuKey`].
    CustomSpu(CustomSpuKey),
    /// Delete an SPU group, identified by name.
    SpuGroup(String),
}

/// The mathematical shape of a [`DeleteRequest`].
pub enum DeleteRequestView {
    Topic(Seq<char>),
    CustomSpu(CustomSpuKeyView),
    SpuGroup(Seq<char>),
}

impl View for DeleteRequest {
    type V = DeleteRequestView;

    open spec fn view(&self) -> DeleteRequestView {
        match self {
            DeleteRequest::Topic(s) => DeleteRequestView::Topic(s@),
            DeleteRequest::CustomSpu(k) => DeleteRequestView::CustomSpu(k@),
            DeleteRequest::SpuGroup(s) => DeleteRequestView::SpuGroup(s@),
        }
    }
}

impl PartialEq for DeleteRequest {
    fn eq(&self, other: &Self) -> (r: bool) {
        match (self, other) {
            (DeleteRequest::Topic(a), DeleteRequest::Topic(b)) => *a == *b,
            (DeleteRequest::CustomSpu(a), DeleteRequest::CustomSpu(b)) => *a == *b,
            (DeleteRequest::SpuGroup(a), DeleteRequest::SpuGroup(b)) => *a == *b,
            _ => false,
        }
    }
}

impl vstd::std_specs::cmp::PartialEqSpecImpl for DeleteRequest {
    open spec fn obeys_eq_spec() -> bool {
        true
    }

    open spec fn eq_spec(&self, other: &Self) -> bool {
        self@ == other@
    }
}

impl Default for DeleteRequest {
    /// A deterministic placeholder, meant only to hold the slot before a
    /// decode resolves the wire tag; it is never a decode result unless the
    /// wire actually carried it.
    fn default() -> (r: Self)
        ensures
            r@ == DeleteRequestView::CustomSpu(CustomSpuKeyView::Id(0)),
    {
        DeleteRequest::CustomSpu(CustomSpuKey::Id(0))
    }
}

/// The wire label of the variant that a request holds.
pub open spec fn spec_type_label(v: DeleteRequestView) -> Seq<char> {
    match v {
        DeleteRequestView::Topic(_) => TopicSpec::spec_label(),
        DeleteRequestView::CustomSpu(_) => CustomSpuSpec::spec_label(),
        DeleteRequestView::SpuGroup(_) => SpuGroupSpec::spec_label(),
    }
}

/// Whether a request fits the wire format: its payload string, if any, must
/// fit the string codec's length prefix.
pub open spec fn spec_encodable(v: DeleteRequestView) -> bool {
    match v {
        DeleteRequestView::Topic(s) => str_encodable(s),
        DeleteRequestView::CustomSpu(k) => key_encodable(k),
        DeleteRequestView::SpuGroup(s) => str_encodable(s),
    }
}

/// The wire bytes of a request: the encoded label string, then the encoded
/// payload of the active variant.
pub open spec fn spec_request_bytes(v: DeleteRequestView) -> Seq<u8>
    recommends
        spec_encodable(v),
{
    spec_string_bytes(spec_type_label(v)) + match v {
        DeleteRequestView::Topic(s) => spec_string_bytes(s),
        DeleteRequestView::CustomSpu(k) => spec_key_bytes(k),
        DeleteRequestView::SpuGroup(s) => spec_string_bytes(s),
    }
}

/// The byte length the codec reports for a request before encoding it: the
/// label string's wire size plus the active variant's payload wire size.
pub open spec fn spec_write_size(v: DeleteRequestView) -> nat
    recommends
        spec_encodable(v),
{
    spec_string_bytes(spec_type_label(v)).len() + match v {
        DeleteRequestView::Topic(s) => spec_string_bytes(s).len(),
        DeleteRequestView::CustomSpu(k) => spec_key_bytes(k).len(),
        DeleteRequestView::SpuGroup(s) => spec_string_bytes(s).len(),
    }
}

/// The result of decoding a request from the front of `bytes`: the decoded
/// request and the number of bytes consumed, or the exact error. The tag is
/// authoritative: the variant is chosen by the decoded label alone, and a
/// label outside the known set is rejected, carrying the offending label.
pub open spec fn spec_read_request(bytes: Seq<u8>) -> Result<
    (DeleteRequestView, int),
    CodecErrorView,
> {
    match spec_read_str(bytes) {
        Err(e) => Err(e),
        Ok((tag, n)) => if tag == TopicSpec::spec_label() {
            match spec_read_str(bytes.skip(n)) {
                Ok((s, m)) => Ok((DeleteRequestView::Topic(s), n + m)),
                Err(e) => Err(e),
            }
        } else if tag == CustomSpuSpec::spec_label() {
            match spec_read_key(bytes.skip(n)) {
                Ok((k, m)) => Ok((DeleteRequestView::CustomSpu(k), n + m)),
                Err(e) => Err(e),
            }
        } else if tag == SpuGroupSpec::spec_label() {
            match spec_read_str(bytes.skip(n)) {
                Ok((s, m)) => Ok((DeleteRequestView::SpuGroup(s), n + m)),
                Err(e) => Err(e),
            }
        } else {
            Err(CodecErrorView::UnknownType(tag))
        },
    }
}

impl DeleteRequest {
    /// The wire label of the resource type this request targets.
    pub fn type_string(&self) -> (r: &'static str)
        ensures
            r@ == spec_type_label(self@),
    {
        match self {
            DeleteRequest::Topic(_) => TopicSpec::label(),
            DeleteRequest::CustomSpu(_) => CustomSpuSpec::label(),
            DeleteRequest::SpuGroup(_) => SpuGroupSpec::label(),
        }
    }

    /// The exact byte length that [`DeleteRequest::encode`] will produce, so
    /// callers can pre-size buffers without a trial encode.
    pub fn write_size(&self, version: Version) -> (r: usize)
        requires
            spec_encodable(self@),
        ensures
            r == spec_write_size(self@),
    {
        proof {
            lemma_labels_wire();
        }
        let type_size = string_write_size(self.type_string(), version);
        type_size + match self {
            DeleteRequest::Topic(s) => string_write_size(s.as_str(), version),
            DeleteRequest::CustomSpu(k) => k.write_size(version),
            DeleteRequest::SpuGroup(s) => string_write_size(s.as_str(), version),
        }
    }

    /// Appends the wire encoding of this request to `dest`: the label string
    /// first, then the active variant's payload. A payload string too long
    /// for the wire format is rejected before anything is written.
    pub fn encode(&self, dest: &mut Vec<u8>, version: Version) -> (r: Result<(), CodecError>)
        ensures
            spec_encodable(self@) ==> (r is Ok && final(dest)@ == old(dest)@ + spec_request_bytes(
                self@,
            )),
            !spec_encodable(self@) ==> (r matches Err(e) && e@ == CodecErrorView::StringTooLong)
                && *final(dest) == *old(dest),
    {
        let fits = match self {
            DeleteRequest::Topic(s) => string_fits(s.as_str()),
            DeleteRequest::CustomSpu(k) => match k {
                CustomSpuKey::Name(s) => string_fits(s.as_str()),
                CustomSpuKey::Id(_) => true,
            },
            DeleteRequest::SpuGroup(s) => string_fits(s.as_str()),
        };
        if !fits {
            return Err(CodecError::StringTooLong);
        }
        proof {
            lemma_labels_wire();
        }
        let ghost dest0 = dest@;
        encode_string(self.type_string(), dest, version);
        match self {
            DeleteRequest::Topic(s) => encode_string(s.as_str(), dest, version),
            DeleteRequest::CustomSpu(k) => k.encode(dest, version),
            DeleteRequest::SpuGroup(s) => encode_string(s.as_str(), dest, version),
        }
        assert(dest@ =~= dest0 + spec_request_bytes(self@));
        Ok(())
    }

    /// Decodes a request from `src` at `*pos`: first the label string, then,
    /// dispatching on that label alone, the matching variant's payload. A
    /// label outside the known set fails with [`CodecError::UnknownType`]
    /// carrying the label; on any failure `self` keeps its previous value.
    pub fn decode(&mut self, src: &Vec<u8>, pos: &mut usize, version: Version) -> (r: Result<
        (),
        CodecError,
    >)
        requires
            *old(pos) <= src@.len(),
        ensures
            *old(pos) <= *final(pos) <= src@.len(),
            match spec_read_request(src@.subrange(*old(pos) as int, src@.len() as int)) {
                Ok((v, n)) => (r is Ok && final(self)@ == v) && *final(pos) as int == *old(pos)
                    + n,
                Err(e) => (r matches Err(ce) && ce@ == e) && *final(self) == *old(self),
            },
    {
        let ghost pos0 = *pos;
        let ghost rem = src@.subrange(*pos as int, src@.len() as int);
        let tag = match decode_string(src, pos, version) {
            Ok(t) => t,
            Err(e) => {
                return Err(e);
            },
        };
        let ghost n = *pos - pos0;
        assert(src@.subrange(*pos as int, src@.len() as int) =~= rem.skip(n as int));
        if tag == String::from_str(TopicSpec::label()) {
            match decode_string(src, pos, version) {
                Ok(name) => {
                    *self = DeleteRequest::Topic(name);
                    Ok(())
                },
                Err(e) => Err(e),
            }
        } else if tag == String::from_str(CustomSpuSpec::label()) {
            match CustomSpuKey::decode(src, pos, version) {
                Ok(key) => {
                    *self = DeleteRequest::CustomSpu(key);
                    Ok(())
                },
                Err(e) => Err(e),
            }
        } else if tag == String::from_str(SpuGroupSpec::label()) {
            match decode_string(src, pos, version) {
                Ok(name) => {
                    *self = DeleteRequest::SpuGroup(name);
                    Ok(())
                },
                Err(e) => Err(e),
            }
        } else {
            Err(CodecError::UnknownType(tag))
        }
    }
}

/// The conversion contract each resource specification fulfils to take part
/// in the uniform delete API: every value of its key type maps, infallibly,
/// to exactly one request variant.
pub trait DeleteSpec {
    /// The resource's own representation of "which instance to delete".
    type DeleteKey;

    /// The request that a key of this resource becomes.
    spec fn spec_request(key: &Self::DeleteKey) -> DeleteRequestView;

    /// Builds the delete request for `key`. Total: a type conversion, not a
    /// validation.
    fn into_request(key: Self::DeleteKey) -> (r: DeleteRequest)
        ensures
            r@ == Self::spec_request(&key),
    ;
}

impl DeleteSpec for TopicSpec {
    type DeleteKey = String;

    open spec fn spec_request(key: &String) -> DeleteRequestView {
        DeleteRequestView::Topic(key@)
    }

    fn into_request(key: String) -> (r: DeleteRequest) {
        DeleteRequest::Topic(key)
    }
}

impl DeleteSpec for CustomSpuSpec {
    type DeleteKey = CustomSpuKey;

    open spec fn spec_request(key: &CustomSpuKey) -> DeleteRequestView {
        DeleteRequestView::CustomSpu(key@)
    }

    fn into_request(key: CustomSpuKey) -> (r: DeleteRequest) {
        DeleteRequest::CustomSpu(key)
    }
}

impl DeleteSpec for SpuGroupSpec {
    type DeleteKey = String;

    open spec fn spec_request(key: &String) -> DeleteRequestView {
        DeleteRequestView::SpuGroup(key@)
    }

    fn into_request(key: String) -> (r: DeleteRequest) {
        DeleteRequest::SpuGroup(key)
    }
}

} // verus!
