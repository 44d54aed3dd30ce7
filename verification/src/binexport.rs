//! A container that holds the disassembly of one executable. Of all that it
//! holds, the meta information at its top is decoded; every other field is
//! checked for its layout and passed over.

use crate::error::Error;
use crate::value::utf8_text;
use crate::wire::{
    delimited_at, key_at, lemma_varint_limit, lemma_varint_read_back, read_delimited, read_key,
    skip_value, skipped, varint_at, varint_bytes, WireType, RECURSION_LIMIT,
};
use vstd::prelude::*;
use vstd::slice::slice_subrange;
use vstd::utf8::{
    decode_utf8, encode_utf8, encode_utf8_decode_utf8, encode_utf8_valid_utf8, valid_utf8,
};

verus! {

/// The number of the field of a container that holds the meta information.
pub const META_INFORMATION_FIELD: u32 = 1;

/// The number of the field of the meta information that holds the name of
/// the executable.
pub const EXECUTABLE_NAME_FIELD: u32 = 1;

/// The name that stands in for an executable whose name the container does
/// not give.
pub open spec fn unknown_executable() -> Seq<char> {
    "unknown executable"@
}

/// What the meta information holds.
pub struct MetaView {
    pub executable_name: Option<Seq<char>>,
}

/// What a container holds.
pub struct BinExport2View {
    pub meta_information: Option<MetaView>,
}

/// The meta information of a container.
#[derive(Debug, Clone, PartialEq, Eq)]
pub struct Meta {
    /// The name of the executable, where the container gives one.
    pub executable_name: Option<String>,
}

/// The fields of a container.
#[derive(Debug, Clone, PartialEq, Eq)]
pub struct BinExport2 {
    /// The meta information, where the container has any.
    pub meta_information: Option<Meta>,
}

/// A decoded container.
#[derive(Debug, Clone, PartialEq, Eq)]
pub struct BinExport {
    pub binexport: BinExport2,
}

impl View for Meta {
    type V = MetaView;

    open spec fn view(&self) -> MetaView {
        MetaView {
            executable_name: match self.executable_name {
                Some(name) => Some(name@),
                None => None,
            },
        }
    }
}

impl View for BinExport2 {
    type V = BinExport2View;

    open spec fn view(&self) -> BinExport2View {
        BinExport2View {
            meta_information: match self.meta_information {
                Some(meta) => Some(meta@),
                None => None,
            },
        }
    }
}

impl View for BinExport {
    type V = BinExport2View;

    open spec fn view(&self) -> BinExport2View {
        self.binexport@
    }
}

/// The text of a string field whose value starts at `pos`, and where the
/// value ends. The value must be length-delimited and its bytes well-formed
/// UTF-8.
pub open spec fn string_at(bytes: Seq<u8>, pos: int, end: int, wire_type: WireType) -> Option<
    (Seq<char>, int),
> {
    if wire_type != WireType::LengthDelimited {
        None
    } else {
        match delimited_at(bytes, pos, end) {
            Some((start, stop)) => {
                if valid_utf8(bytes.subrange(start, stop)) {
                    Some((decode_utf8(bytes.subrange(start, stop)), stop))
                } else {
                    None
                }
            },
            None => None,
        }
    }
}

/// The name of the executable that the fields of a meta information give,
/// read from `pos` up to `end`, where `name` is what the fields before gave.
/// The last name given counts. Fields with another number are passed over.
/// Nothing comes of fields that are malformed or run over the end.
pub open spec fn meta_fields(bytes: Seq<u8>, pos: int, end: int, name: Option<Seq<char>>) -> Option<
    Option<Seq<char>>,
>
    decreases end - pos,
{
    if pos >= end {
        Some(name)
    } else {
        match key_at(bytes, pos, end) {
            None => None,
            Some(key) => {
                if key.tag == EXECUTABLE_NAME_FIELD {
                    match string_at(bytes, key.next, end, key.wire_type) {
                        Some((text, after)) => {
                            if pos < after <= end {
                                meta_fields(bytes, after, end, Some(text))
                            } else {
                                None
                            }
                        },
                        None => None,
                    }
                } else {
                    match skipped(
                        bytes,
                        key.next,
                        end,
                        key.wire_type,
                        key.tag,
                        (RECURSION_LIMIT - 1) as nat,
                    ) {
                        Some(after) => {
                            if pos < after <= end {
                                meta_fields(bytes, after, end, name)
                            } else {
                                None
                            }
                        },
                        None => None,
                    }
                }
            },
        }
    }
}

/// The name that a meta information had before more of its fields are
/// read.
pub open spec fn name_so_far(meta: Option<MetaView>) -> Option<Seq<char>> {
    match meta {
        Some(m) => m.executable_name,
        None => None,
    }
}

/// The meta information that the fields of a container give, read from
/// `pos` up to `end`, where `meta` is what the fields before gave. Where the
/// meta information comes in several pieces, a later piece adds to the
/// earlier ones. Fields with another number are passed over. Nothing comes
/// of fields that are malformed or run over the end.
pub open spec fn container_fields(bytes: Seq<u8>, pos: int, end: int, meta: Option<MetaView>) -> Option<
    Option<MetaView>,
>
    decreases end - pos,
{
    if pos >= end {
        Some(meta)
    } else {
        match key_at(bytes, pos, end) {
            None => None,
            Some(key) => {
                if key.tag == META_INFORMATION_FIELD {
                    if key.wire_type != WireType::LengthDelimited {
                        None
                    } else {
                        match delimited_at(bytes, key.next, end) {
                            Some((start, stop)) => {
                                match meta_fields(bytes, start, stop, name_so_far(meta)) {
                                    Some(name) => {
                                        if pos < stop <= end {
                                            container_fields(
                                                bytes,
                                                stop,
                                                end,
                                                Some(MetaView { executable_name: name }),
                                            )
                                        } else {
                                            None
                                        }
                                    },
                                    None => None,
                                }
                            },
                            None => None,
                        }
                    }
                } else {
                    match skipped(
                        bytes,
                        key.next,
                        end,
                        key.wire_type,
                        key.tag,
                        RECURSION_LIMIT as nat,
                    ) {
                        Some(after) => {
                            if pos < after <= end {
                                container_fields(bytes, after, end, meta)
                            } else {
                                None
                            }
                        },
                        None => None,
                    }
                }
            },
        }
    }
}

/// What the bytes of a container decode to; bytes that are no well-formed
/// container are a decode error.
pub open spec fn container_of(bytes: Seq<u8>) -> Result<BinExport2View, Error> {
    match container_fields(bytes, 0, bytes.len() as int, None) {
        Some(meta) => Ok(BinExport2View { meta_information: meta }),
        None => Err(Error::DecodeError),
    }
}

/// The name of the executable of a container: the name that its meta
/// information gives, or the stand-in where it gives none. A container
/// without meta information has no name at all, which is an error.
pub open spec fn executable_name_of(container: BinExport2View) -> Result<Seq<char>, Error> {
    match container.meta_information {
        Some(meta) => match meta.executable_name {
            Some(name) => Ok(name),
            None => Ok(unknown_executable()),
        },
        None => Err(Error::DecodeError),
    }
}

/// The bytes that write a length-delimited field with the number 1: its
/// key, the length of its value, and the value.
pub open spec fn first_field_bytes(value: Seq<u8>) -> Seq<u8> {
    seq![0x0au8] + varint_bytes(value.len()) + value
}

/// The bytes that write a meta information: the name of the executable as
/// the field with the number 1, where there is a name.
pub open spec fn meta_bytes(meta: MetaView) -> Seq<u8> {
    match meta.executable_name {
        Some(name) => first_field_bytes(encode_utf8(name)),
        None => Seq::empty(),
    }
}

/// The bytes that write a container: the meta information as the field
/// with the number 1, where there is any.
pub open spec fn container_bytes(container: BinExport2View) -> Seq<u8> {
    match container.meta_information {
        Some(meta) => first_field_bytes(meta_bytes(meta)),
        None => Seq::empty(),
    }
}

/// Where the bytes from `pos` up to `end` are a written field with the
/// number 1, its key reads as that of a length-delimited field with the
/// number 1, and its value lies from after the length up to `end`.
proof fn lemma_first_field(bytes: Seq<u8>, pos: int, end: int, value: Seq<u8>)
    requires
        0 <= pos,
        end == pos + first_field_bytes(value).len(),
        end <= bytes.len(),
        bytes.subrange(pos, end) == first_field_bytes(value),
        value.len() <= u64::MAX,
    ensures
        key_at(bytes, pos, end) matches Some(key) && key.tag == 1 && key.wire_type
            == WireType::LengthDelimited && key.next == pos + 1,
        delimited_at(bytes, pos + 1, end) == Some((end - value.len(), end)),
        bytes.subrange(end - value.len(), end) == value,
        pos < end - value.len(),
{
    let written = first_field_bytes(value);
    let length = varint_bytes(value.len());
    assert(bytes[pos] == bytes.subrange(pos, end)[0]);
    assert(written[0] == 0x0au8);
    assert(varint_at(bytes, pos, end) == Some((10int, pos + 1)));
    assert(bytes.subrange(pos + 1, pos + 1 + length.len()) =~= length) by {
        assert forall|i: int| 0 <= i < length.len() implies bytes[pos + 1 + i] == length[i] by {
            assert(bytes[pos + 1 + i] == bytes.subrange(pos, end)[1 + i]);
        }
    }
    lemma_varint_limit(0);
    lemma_varint_read_back(bytes, pos + 1, end, 0, value.len());
    assert(bytes.subrange(end - value.len(), end) =~= value) by {
        assert forall|i: int| 0 <= i < value.len() implies bytes[end - value.len() + i]
            == value[i] by {
            assert(bytes[end - value.len() + i] == bytes.subrange(pos, end)[1 + length.len()
                + i]);
        }
    }
}

/// A written meta information is read back as it was.
proof fn lemma_meta_read_back(bytes: Seq<u8>, pos: int, end: int, meta: MetaView)
    requires
        0 <= pos,
        end == pos + meta_bytes(meta).len(),
        end <= bytes.len(),
        bytes.subrange(pos, end) == meta_bytes(meta),
        meta_bytes(meta).len() <= u64::MAX,
    ensures
        meta_fields(bytes, pos, end, None) == Some(meta.executable_name),
{
    match meta.executable_name {
        None => {},
        Some(name) => {
            let text = encode_utf8(name);
            lemma_first_field(bytes, pos, end, text);
            encode_utf8_valid_utf8(name);
            encode_utf8_decode_utf8(name);
            assert(string_at(bytes, pos + 1, end, WireType::LengthDelimited) == Some(
                (name, end),
            ));
            assert(meta_fields(bytes, end, end, Some(name)) == Some(Some(name)));
        },
    }
}

/// Reading is the inverse of writing: the bytes that write a container
/// decode to that container. The one bound is that of the format, whose
/// lengths are 64-bit integers.
pub proof fn lemma_written_container_reads_back(container: BinExport2View)
    requires
        container_bytes(container).len() <= u64::MAX,
    ensures
        container_of(container_bytes(container)) == Ok::<BinExport2View, Error>(container),
{
    let bytes = container_bytes(container);
    let end = bytes.len() as int;
    match container.meta_information {
        None => {},
        Some(meta) => {
            let inner = meta_bytes(meta);
            assert(bytes.subrange(0, end) =~= bytes);
            lemma_first_field(bytes, 0, end, inner);
            lemma_meta_read_back(bytes, end - inner.len(), end, meta);
            assert(container_fields(bytes, end, end, Some(meta)) == Some(Some(meta)));
            assert(meta == MetaView { executable_name: meta.executable_name });
        },
    }
}

/// The view of a name that may be missing.
pub open spec fn name_view(name: Option<String>) -> Option<Seq<char>> {
    match name {
        Some(text) => Some(text@),
        None => None,
    }
}

/// Reads the string field whose value starts at `pos`.
pub fn read_string(bytes: &[u8], pos: usize, end: usize, wire_type: WireType) -> (r: Option<
    (String, usize),
>)
    ensures
        match r {
            Some(v) => string_at(bytes@, pos as int, end as int, wire_type) == Some(
                (v.0@, v.1 as int),
            ) && pos < v.1 <= end,
            None => string_at(bytes@, pos as int, end as int, wire_type) is None,
        },
{
    match wire_type {
        WireType::LengthDelimited => {},
        _ => {
            return None;
        },
    }
    let (start, stop) = match read_delimited(bytes, pos, end) {
        Some(v) => v,
        None => {
            return None;
        },
    };
    match utf8_text(slice_subrange(bytes, start, stop)) {
        Some(text) => Some((text.to_owned(), stop)),
        None => None,
    }
}

/// Reads the fields of a meta information from `pos` up to `end`, starting
/// from the name that earlier fields gave.
pub fn read_meta_fields(bytes: &[u8], pos: usize, end: usize, name: Option<String>) -> (r: Option<
    Option<String>,
>)
    ensures
        match r {
            Some(found) => meta_fields(bytes@, pos as int, end as int, name_view(name)) == Some(
                name_view(found),
            ),
            None => meta_fields(bytes@, pos as int, end as int, name_view(name)) is None,
        },
{
    let mut at: usize = pos;
    let mut found: Option<String> = name;
    while at < end
        invariant
            pos <= at,
            meta_fields(bytes@, pos as int, end as int, name_view(name)) == meta_fields(
                bytes@,
                at as int,
                end as int,
                name_view(found),
            ),
        decreases end - at,
    {
        let key = match read_key(bytes, at, end) {
            Some(key) => key,
            None => {
                return None;
            },
        };
        if key.tag == EXECUTABLE_NAME_FIELD {
            match read_string(bytes, key.next, end, key.wire_type) {
                Some((text, after)) => {
                    found = Some(text);
                    at = after;
                },
                None => {
                    return None;
                },
            }
        } else {
            match skip_value(bytes, key.next, end, key.wire_type, key.tag, RECURSION_LIMIT - 1) {
                Some(after) => {
                    at = after;
                },
                None => {
                    return None;
                },
            }
        }
    }
    Some(found)
}

impl BinExport {
    /// Decodes a container from its bytes.
    pub fn decode(bytes: &[u8]) -> (r: Result<BinExport, Error>)
        ensures
            match r {
                Ok(container) => container_of(bytes@) == Ok::<BinExport2View, Error>(container@),
                Err(e) => container_of(bytes@) == Err::<BinExport2View, Error>(e),
            },
    {
        let end = bytes.len();
        let mut at: usize = 0;
        let mut meta: Option<Meta> = None;
        while at < end
            invariant
                at <= end == bytes.len(),
                container_fields(bytes@, 0, end as int, None) == container_fields(
                    bytes@,
                    at as int,
                    end as int,
                    meta_view(meta),
                ),
            decreases end - at,
        {
            let key = match read_key(bytes, at, end) {
                Some(key) => key,
                None => {
                    return Err(Error::DecodeError);
                },
            };
            if key.tag == META_INFORMATION_FIELD {
                match key.wire_type {
                    WireType::LengthDelimited => {},
                    _ => {
                        return Err(Error::DecodeError);
                    },
                }
                let (start, stop) = match read_delimited(bytes, key.next, end) {
                    Some(v) => v,
                    None => {
                        return Err(Error::DecodeError);
                    },
                };
                let before = match meta {
                    Some(m) => m.executable_name,
                    None => None,
                };
                match read_meta_fields(bytes, start, stop, before) {
                    Some(name) => {
                        meta = Some(Meta { executable_name: name });
                        at = stop;
                    },
                    None => {
                        return Err(Error::DecodeError);
                    },
                }
            } else {
                match skip_value(bytes, key.next, end, key.wire_type, key.tag, RECURSION_LIMIT) {
                    Some(after) => {
                        at = after;
                    },
                    None => {
                        return Err(Error::DecodeError);
                    },
                }
            }
        }
        Ok(BinExport { binexport: BinExport2 { meta_information: meta } })
    }

    /// The name of the executable that the container describes.
    pub fn executable_name(&self) -> (r: Result<String, Error>)
        ensures
            match r {
                Ok(name) => executable_name_of(self@) == Ok::<Seq<char>, Error>(name@),
                Err(e) => executable_name_of(self@) == Err::<Seq<char>, Error>(e),
            },
    {
        match &self.binexport.meta_information {
            Some(meta) => match &meta.executable_name {
                Some(name) => Ok(name.clone()),
                None => Ok("unknown executable".to_owned()),
            },
            None => Err(Error::DecodeError),
        }
    }
}

/// The view of a meta information that may be missing.
pub open spec fn meta_view(meta: Option<Meta>) -> Option<MetaView> {
    match meta {
        Some(m) => Some(m@),
        None => None,
    }
}

} // verus!
