use crate::error::CodecError;
use crate::error::CodecErrorView;
use crate::wire::decode_string;
use crate::wire::encode_string;
use crate::wire::lemma_i32_u32_round;
use crate::wire::lemma_string_round_trip;
use crate::wire::lemma_u32_be_round;
use crate::wire::spec_string_bytes;
use crate::wire::spec_read_str;
use crate::wire::str_encodable;
use crate::wire::string_write_size;
use crate::wire::u32_be_bytes;
use crate::wire::u32_from_be;
use crate::wire::Version;
use vstd::prelude::*;
use vstd::utf8::encode_utf8;
use vstd::utf8::is_ascii_chars;
use vstd::utf8::is_ascii_chars_encode_utf8;

verus! {

/// The resource specification for topics: a topic is deleted by name.
pub struct TopicSpec;

impl TopicSpec {
    /// The wire label that tags a topic delete request.
    pub open spec fn spec_label() -> Seq<char> {
        "topic"@
    }

    /// The unique wire label of the topic resource type.
    pub fn label() -> (r: &'static str)
        ensures
            r@ == Self::spec_label(),
    {
        "topic"
    }
}

/// The resource specification for custom SPUs: a custom SPU is deleted by a
/// [`CustomSpuKey`], which names it either by name or by numeric id.
pub struct CustomSpuSpec;

impl CustomSpuSpec {
    /// The wire label that tags a custom-SPU delete request.
    pub open spec fn spec_label() -> Seq<char> {
        "custom-spu"@
    }

    /// The unique wire label of the custom-SPU resource type.
    pub fn label() -> (r: &'static str)
        ensures
            r@ == Self::spec_label(),
    {
        "custom-spu"
    }
}

/// The resource specification for SPU groups: a group is deleted by name.
pub struct SpuGroupSpec;

impl SpuGroupSpec {
    /// The wire label that tags an SPU-group delete request.
    pub open spec fn spec_label() -> Seq<char> {
        "spu-group"@
    }

    /// The unique wire label of the SPU-group resource type.
    pub fn label() -> (r: &'static str)
        ensures
            r@ == Self::spec_label(),
    {
        "spu-group"
    }
}

/// All three labels are ASCII, so each occupies as many UTF-8 bytes as it has
/// characters, and each fits the string codec's length prefix.
pub proof fn lemma_labels_wire()
    ensures
        encode_utf8(TopicSpec::spec_label()).len() == 5,
        encode_utf8(CustomSpuSpec::spec_label()).len() == 10,
        encode_utf8(SpuGroupSpec::spec_label()).len() == 9,
        str_encodable(TopicSpec::spec_label()),
        str_encodable(CustomSpuSpec::spec_label()),
        str_encodable(SpuGroupSpec::spec_label()),
{
    reveal_strlit("topic");
    reveal_strlit("custom-spu");
    reveal_strlit("spu-group");
    assert(is_ascii_chars(TopicSpec::spec_label()));
    assert(is_ascii_chars(CustomSpuSpec::spec_label()));
    assert(is_ascii_chars(SpuGroupSpec::spec_label()));
    is_ascii_chars_encode_utf8(TopicSpec::spec_label());
    is_ascii_chars_encode_utf8(CustomSpuSpec::spec_label());
    is_ascii_chars_encode_utf8(SpuGroupSpec::spec_label());
}

/// The key that selects which custom SPU to delete: either its name or its
/// numeric id.
#[derive(Debug, Clone)]
pub enum CustomSpuKey {
    Name(String),
    Id(i32),
}

/// The mathematical shape of a [`CustomSpuKey`].
pub enum CustomSpuKeyView {
    Name(Seq<char>),
    Id(i32),
}

impl View for CustomSpuKey {
    type V = CustomSpuKeyView;

    open spec fn view(&self) -> CustomSpuKeyView {
        match self {
            CustomSpuKey::Name(s) => CustomSpuKeyView::Name(s@),
            CustomSpuKey::Id(i) => CustomSpuKeyView::Id(*i),
        }
    }
}

impl PartialEq for CustomSpuKey {
    fn eq(&self, other: &Self) -> (r: bool) {
        match (self, other) {
            (CustomSpuKey::Name(a), CustomSpuKey::Name(b)) => *a == *b,
            (CustomSpuKey::Id(a), CustomSpuKey::Id(b)) => *a == *b,
            _ => false,
        }
    }
}

impl vstd::std_specs::cmp::PartialEqSpecImpl for CustomSpuKey {
    open spec fn obeys_eq_spec() -> bool {
        true
    }

    open spec fn eq_spec(&self, other: &Self) -> bool {
        self@ == other@
    }
}

/// Whether a key fits the wire format: a name must fit the string codec's
/// length prefix; an id always fits.
pub open spec fn key_encodable(k: CustomSpuKeyView) -> bool {
    match k {
        CustomSpuKeyView::Name(s) => str_encodable(s),
        CustomSpuKeyView::Id(_) => true,
    }
}

/// The wire bytes of a key: a one-byte variant marker, then either the
/// encoded name string or the id's four big-endian bytes.
pub open spec fn spec_key_bytes(k: CustomSpuKeyView) -> Seq<u8>
    recommends
        key_encodable(k),
{
    match k {
        CustomSpuKeyView::Name(s) => seq![0u8] + spec_string_bytes(s),
        CustomSpuKeyView::Id(i) => seq![1u8] + u32_be_bytes(i as u32),
    }
}

/// The result of decoding a key from the front of `bytes`: the decoded key
/// and the number of bytes consumed, or the exact error.
pub open spec fn spec_read_key(bytes: Seq<u8>) -> Result<(CustomSpuKeyView, int), CodecErrorView> {
    if bytes.len() < 1 {
        Err(CodecErrorView::UnexpectedEnd)
    } else if bytes[0] == 0u8 {
        match spec_read_str(bytes.skip(1)) {
            Ok((s, n)) => Ok((CustomSpuKeyView::Name(s), 1 + n)),
            Err(e) => Err(e),
        }
    } else if bytes[0] == 1u8 {
        if bytes.len() < 5 {
            Err(CodecErrorView::UnexpectedEnd)
        } else {
            Ok((CustomSpuKeyView::Id(u32_from_be(bytes[1], bytes[2], bytes[3], bytes[4]) as i32), 5))
        }
    } else {
        Err(CodecErrorView::UnknownKeyVariant(bytes[0]))
    }
}

/// Decoding the wire bytes of an encodable key, whatever follows them,
/// consumes exactly those bytes and yields the key back.
pub proof fn lemma_key_round_trip(k: CustomSpuKeyView, rest: Seq<u8>)
    requires
        key_encodable(k),
    ensures
        spec_read_key(spec_key_bytes(k) + rest) == Ok::<(CustomSpuKeyView, int), CodecErrorView>(
            (k, spec_key_bytes(k).len() as int),
        ),
{
    let all = spec_key_bytes(k) + rest;
    match k {
        CustomSpuKeyView::Name(s) => {
            assert(all.skip(1) =~= spec_string_bytes(s) + rest);
            lemma_string_round_trip(s, rest);
        },
        CustomSpuKeyView::Id(i) => {
            let u = i as u32;
            lemma_u32_be_round(u);
            lemma_i32_u32_round(i);
            assert(all[1] == u32_be_bytes(u)[0]);
            assert(all[2] == u32_be_bytes(u)[1]);
            assert(all[3] == u32_be_bytes(u)[2]);
            assert(all[4] == u32_be_bytes(u)[3]);
        },
    }
}

impl CustomSpuKey {
    /// The byte length that [`CustomSpuKey::encode`] will produce.
    pub fn write_size(&self, version: Version) -> (r: usize)
        requires
            key_encodable(self@),
        ensures
            r == spec_key_bytes(self@).len(),
    {
        match self {
            CustomSpuKey::Name(s) => 1 + string_write_size(s.as_str(), version),
            CustomSpuKey::Id(_) => 5,
        }
    }

    /// Appends the wire encoding of this key to `dest`.
    pub fn encode(&self, dest: &mut Vec<u8>, version: Version)
        requires
            key_encodable(self@),
        ensures
            final(dest)@ == old(dest)@ + spec_key_bytes(self@),
    {
        match self {
            CustomSpuKey::Name(s) => {
                dest.push(0u8);
                encode_string(s.as_str(), dest, version);
                assert(final(dest)@ =~= old(dest)@ + spec_key_bytes(self@));
            },
            CustomSpuKey::Id(i) => {
                let u: u32 = *i as u32;
                let hi: u16 = (u / 65536) as u16;
                let lo: u16 = (u % 65536) as u16;
                dest.push(1u8);
                dest.push((hi / 256) as u8);
                dest.push((hi % 256) as u8);
                dest.push((lo / 256) as u8);
                dest.push((lo % 256) as u8);
                assert(final(dest)@ =~= old(dest)@ + spec_key_bytes(self@));
            },
        }
    }

    /// Decodes a key from `src` at `*pos`, advancing `*pos` past it on
    /// success.
    pub fn decode(src: &Vec<u8>, pos: &mut usize, version: Version) -> (r: Result<
        CustomSpuKey,
        CodecError,
    >)
        requires
            *old(pos) <= src@.len(),
        ensures
            *old(pos) <= *final(pos) <= src@.len(),
            match spec_read_key(src@.subrange(*old(pos) as int, src@.len() as int)) {
                Ok((k, n)) => (r matches Ok(key) && key@ == k) && *final(pos) as int == *old(pos)
                    + n,
                Err(e) => r matches Err(ce) && ce@ == e,
            },
    {
        let ghost rem = src@.subrange(*pos as int, src@.len() as int);
        let len = src.len();
        if len - *pos < 1 {
            return Err(CodecError::UnexpectedEnd);
        }
        let marker = src[*pos];
        if marker == 0 {
            *pos = *pos + 1;
            assert(src@.subrange(*pos as int, src@.len() as int) =~= rem.skip(1));
            match decode_string(src, pos, version) {
                Ok(s) => Ok(CustomSpuKey::Name(s)),
                Err(e) => Err(e),
            }
        } else if marker == 1 {
            if len - (*pos + 1) < 4 {
                return Err(CodecError::UnexpectedEnd);
            }
            let b0 = src[*pos + 1];
            let b1 = src[*pos + 2];
            let b2 = src[*pos + 3];
            let b3 = src[*pos + 4];
            let hi: u16 = (b0 as u16) * 256 + (b1 as u16);
            let lo: u16 = (b2 as u16) * 256 + (b3 as u16);
            let u: u32 = (hi as u32) * 65536 + (lo as u32);
            assert(u == u32_from_be(rem[1], rem[2], rem[3], rem[4]));
            *pos = *pos + 5;
            Ok(CustomSpuKey::Id(u as i32))
        } else {
            Err(CodecError::UnknownKeyVariant(marker))
        }
    }
}

} // verus!
