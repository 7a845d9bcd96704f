//! Writing tagged (TDF) values.
//!
//! Every tagged field is written by `tdf::TdfSerializer` on a `Vec<u8>`,
//! which only appends (`write_byte` pushes, `write_slice` extends). Each
//! wrapper below states that the call appends a field's bytes and nothing
//! else. A field starts with a four-byte header: the packed tag
//! (`tdf_packed_tag`) and the type code. Fields whose value is fixed (a
//! zero, an empty string, blob or list, a group start, a union key) are
//! stated byte for byte after the header; the encodings of other values are
//! named by functions of the field's tag and value. The group terminator is
//! the single byte 0.
use tdf::TdfSerializer;
use vstd::prelude::*;

verus! {

/// A value that writes itself as a sequence of tagged TDF fields.
pub trait TdfEncode {
    /// The bytes that `serialize` appends.
    spec fn encoded(&self) -> Seq<u8>;

    /// Appends the tagged fields of this value to `w`.
    fn serialize(&self, w: &mut Vec<u8>)
        ensures
            final(w)@ == old(w)@ + self.encoded(),
    ;
}

/// The tags that the `tdf` writer accepts: one to four ASCII characters.
pub open spec fn valid_tag(tag: &str) -> bool {
    tag.is_ascii() && 1 <= tag@.len() <= 4
}

/// Element types of the lists that the library writes.
#[derive(Debug, Clone, Copy, PartialEq, Eq, Structural)]
pub enum ElementType {
    Group,
}

/// The first three bytes that `Tagged::serialize_raw` writes for `tag`: the
/// tag's characters packed into 24 bits. The fourth byte it writes is the
/// code of the field's type.
pub uninterp spec fn tdf_packed_tag(tag: Seq<char>) -> Seq<u8>;

/// Bytes of `tag_zero(tag)`: the header of an integer field (type 0) and
/// the integer zero.
pub open spec fn tdf_zero(tag: Seq<char>) -> Seq<u8> {
    tdf_packed_tag(tag) + seq![0u8, 0u8]
}

/// Bytes of `tag_u8(tag, value)`.
pub uninterp spec fn tdf_u8(tag: Seq<char>, value: u8) -> Seq<u8>;

/// Bytes of `tag_u16(tag, value)`.
pub uninterp spec fn tdf_u16(tag: Seq<char>, value: u16) -> Seq<u8>;

/// Bytes of `tag_u32(tag, value)`.
pub uninterp spec fn tdf_u32(tag: Seq<char>, value: u32) -> Seq<u8>;

/// Bytes of `tag_u64(tag, value)`.
pub uninterp spec fn tdf_u64(tag: Seq<char>, value: u64) -> Seq<u8>;

/// Bytes of `tag_str(tag, value)`.
pub uninterp spec fn tdf_str(tag: Seq<char>, value: Seq<char>) -> Seq<u8>;

/// Bytes of `tag_str_empty(tag)`: the header of a string field (type 1),
/// length 1 and the terminating zero.
pub open spec fn tdf_str_empty(tag: Seq<char>) -> Seq<u8> {
    tdf_packed_tag(tag) + seq![1u8, 1u8, 0u8]
}

/// Bytes of `tag_blob_empty(tag)`: the header of a blob field (type 2) and
/// length 0.
pub open spec fn tdf_blob_empty(tag: Seq<char>) -> Seq<u8> {
    tdf_packed_tag(tag) + seq![2u8, 0u8]
}

/// Bytes of `tag_group(tag)`: the header of a group field (type 3).
pub open spec fn tdf_group(tag: Seq<char>) -> Seq<u8> {
    tdf_packed_tag(tag) + seq![3u8]
}

/// Bytes of `tag_list_start(tag, ty, length)`: a list header.
pub uninterp spec fn tdf_list_start(tag: Seq<char>, ty: ElementType, length: usize) -> Seq<u8>;

/// Bytes of `tag_var_int_list_empty(tag)`: the header of an integer list
/// field (type 7) and length 0.
pub open spec fn tdf_var_int_list_empty(tag: Seq<char>) -> Seq<u8> {
    tdf_packed_tag(tag) + seq![7u8, 0u8]
}

/// Bytes of `tag_var_int_list(tag, values)`.
pub uninterp spec fn tdf_var_int_list(tag: Seq<char>, values: Seq<u64>) -> Seq<u8>;

/// Bytes of `tag_map_tuples(tag, pairs)` for integer keys and values.
pub uninterp spec fn tdf_int_map(tag: Seq<char>, pairs: Seq<(i32, i32)>) -> Seq<u8>;

/// Bytes of `tag_union_start(tag, key)`: the header of a tagged union field
/// (type 6) and the union's key.
pub open spec fn tdf_union_start(tag: Seq<char>, key: u8) -> Seq<u8> {
    tdf_packed_tag(tag) + seq![6u8, key]
}

/// Bytes of `tag_alt(tag, ObjectId::new(ObjectType::new(component, ty), id))`.
pub uninterp spec fn tdf_object_id(tag: Seq<char>, component: u16, ty: u16, id: u64) -> Seq<u8>;

/// Bytes of `tag_ref(tag, &values)` for a `Vec<u8>`: a list of integers.
pub uninterp spec fn tdf_byte_list(tag: Seq<char>, values: Seq<u8>) -> Seq<u8>;

/// `TdfSerializer::tag_zero` on a `Vec<u8>`: `serialize_raw(tag, VarInt)`
/// then `write_byte(0)`, which appends the packed tag, type 0 and a zero.
/// The writer debug-asserts a tag of one to four bytes.
#[verifier::external_body]
pub(crate) fn tag_zero(w: &mut Vec<u8>, tag: &str)
    requires
        valid_tag(tag),
    ensures
        final(w)@ == old(w)@ + tdf_packed_tag(tag@) + seq![0u8, 0u8],
{
    w.tag_zero(tag.as_bytes())
}

/// `TdfSerializer::tag_u8` on a `Vec<u8>`: appends `tdf_u8(tag, value)`.
#[verifier::external_body]
pub(crate) fn tag_u8(w: &mut Vec<u8>, tag: &str, value: u8)
    requires
        valid_tag(tag),
    ensures
        final(w)@ == old(w)@ + tdf_u8(tag@, value),
{
    w.tag_u8(tag.as_bytes(), value)
}

/// `TdfSerializer::tag_u16` on a `Vec<u8>`: appends `tdf_u16(tag, value)`.
#[verifier::external_body]
pub(crate) fn tag_u16(w: &mut Vec<u8>, tag: &str, value: u16)
    requires
        valid_tag(tag),
    ensures
        final(w)@ == old(w)@ + tdf_u16(tag@, value),
{
    w.tag_u16(tag.as_bytes(), value)
}

/// `TdfSerializer::tag_u32` on a `Vec<u8>`: appends `tdf_u32(tag, value)`.
#[verifier::external_body]
pub(crate) fn tag_u32(w: &mut Vec<u8>, tag: &str, value: u32)
    requires
        valid_tag(tag),
    ensures
        final(w)@ == old(w)@ + tdf_u32(tag@, value),
{
    w.tag_u32(tag.as_bytes(), value)
}

/// `TdfSerializer::tag_u64` on a `Vec<u8>`: appends `tdf_u64(tag, value)`.
#[verifier::external_body]
pub(crate) fn tag_u64(w: &mut Vec<u8>, tag: &str, value: u64)
    requires
        valid_tag(tag),
    ensures
        final(w)@ == old(w)@ + tdf_u64(tag@, value),
{
    w.tag_u64(tag.as_bytes(), value)
}

/// `TdfSerializer::tag_str` on a `Vec<u8>`: appends `tdf_str(tag, value)`.
#[verifier::external_body]
pub(crate) fn tag_str(w: &mut Vec<u8>, tag: &str, value: &str)
    requires
        valid_tag(tag),
    ensures
        final(w)@ == old(w)@ + tdf_str(tag@, value@),
{
    w.tag_str(tag.as_bytes(), value)
}

/// `TdfSerializer::tag_str_empty` on a `Vec<u8>`: `serialize_raw(tag, String)`
/// then `write_empty_str` (`[1, 0]`): the packed tag, type 1, length 1, 0.
#[verifier::external_body]
pub(crate) fn tag_str_empty(w: &mut Vec<u8>, tag: &str)
    requires
        valid_tag(tag),
    ensures
        final(w)@ == old(w)@ + tdf_packed_tag(tag@) + seq![1u8, 1u8, 0u8],
{
    w.tag_str_empty(tag.as_bytes())
}

/// `TdfSerializer::tag_blob_empty` on a `Vec<u8>`: `serialize_raw(tag, Blob)`
/// then `write_byte(0)`: the packed tag, type 2, length 0.
#[verifier::external_body]
pub(crate) fn tag_blob_empty(w: &mut Vec<u8>, tag: &str)
    requires
        valid_tag(tag),
    ensures
        final(w)@ == old(w)@ + tdf_packed_tag(tag@) + seq![2u8, 0u8],
{
    w.tag_blob_empty(tag.as_bytes())
}

/// `TdfSerializer::tag_group` on a `Vec<u8>`: `serialize_raw(tag, Group)`,
/// which appends the packed tag and type 3.
#[verifier::external_body]
pub(crate) fn tag_group(w: &mut Vec<u8>, tag: &str)
    requires
        valid_tag(tag),
    ensures
        final(w)@ == old(w)@ + tdf_packed_tag(tag@) + seq![3u8],
{
    w.tag_group(tag.as_bytes())
}

/// `TdfSerializer::tag_group_end` on a `Vec<u8>`: `write_byte(0)`, which
/// pushes a single zero byte.
#[verifier::external_body]
pub(crate) fn tag_group_end(w: &mut Vec<u8>)
    ensures
        final(w)@ == old(w)@.push(0u8),
{
    w.tag_group_end()
}

/// `TdfSerializer::tag_list_start` on a `Vec<u8>`: appends
/// `tdf_list_start(tag, ty, length)`.
#[verifier::external_body]
pub(crate) fn tag_list_start(w: &mut Vec<u8>, tag: &str, ty: ElementType, length: usize)
    requires
        valid_tag(tag),
    ensures
        final(w)@ == old(w)@ + tdf_list_start(tag@, ty, length),
{
    let ty = match ty {
        ElementType::Group => tdf::TdfType::Group,
    };
    w.tag_list_start(tag.as_bytes(), ty, length)
}

/// `TdfSerializer::tag_var_int_list_empty` on a `Vec<u8>`:
/// `serialize_raw(tag, VarIntList)` then `write_byte(0)`: the packed tag,
/// type 7, length 0.
#[verifier::external_body]
pub(crate) fn tag_var_int_list_empty(w: &mut Vec<u8>, tag: &str)
    requires
        valid_tag(tag),
    ensures
        final(w)@ == old(w)@ + tdf_packed_tag(tag@) + seq![7u8, 0u8],
{
    w.tag_var_int_list_empty(tag.as_bytes())
}

/// `TdfSerializer::tag_var_int_list` on a `Vec<u8>`: appends
/// `tdf_var_int_list(tag, values)`.
#[verifier::external_body]
pub(crate) fn tag_var_int_list(w: &mut Vec<u8>, tag: &str, values: &[u64])
    requires
        valid_tag(tag),
    ensures
        final(w)@ == old(w)@ + tdf_var_int_list(tag@, values@),
{
    w.tag_var_int_list(tag.as_bytes(), values)
}

/// `TdfSerializer::tag_map_tuples` on a `Vec<u8>` with `i32` keys and
/// values: appends `tdf_int_map(tag, pairs)`.
#[verifier::external_body]
pub(crate) fn tag_int_map(w: &mut Vec<u8>, tag: &str, pairs: &[(i32, i32)])
    requires
        valid_tag(tag),
    ensures
        final(w)@ == old(w)@ + tdf_int_map(tag@, pairs@),
{
    w.tag_map_tuples(tag.as_bytes(), pairs)
}

/// `TdfSerializer::tag_union_start` on a `Vec<u8>`:
/// `serialize_raw(tag, TaggedUnion)` then `write_byte(key)`: the packed tag,
/// type 6, the key.
#[verifier::external_body]
pub(crate) fn tag_union_start(w: &mut Vec<u8>, tag: &str, key: u8)
    requires
        valid_tag(tag),
    ensures
        final(w)@ == old(w)@ + tdf_packed_tag(tag@) + seq![6u8, key],
{
    w.tag_union_start(tag.as_bytes(), key)
}

/// `TdfSerializer::tag_alt` on a `Vec<u8>` with an `ObjectId` built from
/// `component`, `ty` and `id`: appends `tdf_object_id(tag, component, ty, id)`.
#[verifier::external_body]
pub(crate) fn tag_object_id(w: &mut Vec<u8>, tag: &str, component: u16, ty: u16, id: u64)
    requires
        valid_tag(tag),
    ensures
        final(w)@ == old(w)@ + tdf_object_id(tag@, component, ty, id),
{
    w.tag_alt(tag.as_bytes(), tdf::ObjectId::new(tdf::ObjectType::new(component, ty), id))
}

/// `TdfSerializer::tag_ref` on a `Vec<u8>` with a `Vec<u8>` value (a list of
/// integers): appends `tdf_byte_list(tag, values)`.
#[verifier::external_body]
pub(crate) fn tag_byte_list(w: &mut Vec<u8>, tag: &str, values: &Vec<u8>)
    requires
        valid_tag(tag),
    ensures
        final(w)@ == old(w)@ + tdf_byte_list(tag@, values@),
{
    w.tag_ref(tag.as_bytes(), values)
}

} // verus!
