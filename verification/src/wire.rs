//! The wire format of a container: fields, each a key and a value, where
//! the key gives the field's number and how its value is laid out.
//!
//! Every function here reads the bytes from a position up to an end, and
//! never beyond the end.

use vstd::prelude::*;

verus! {

/// How deep groups may nest at the top of a container.
pub const RECURSION_LIMIT: u32 = 100;

/// How the value of a field is laid out.
#[derive(Debug, Clone, Copy, PartialEq, Eq, Structural)]
pub enum WireType {
    /// A variable-length integer.
    Varint,
    /// Eight bytes.
    SixtyFourBit,
    /// A variable-length integer, then as many bytes as it says.
    LengthDelimited,
    /// The fields of a group, up to the key that ends it.
    StartGroup,
    /// The end of a group.
    EndGroup,
    /// Four bytes.
    ThirtyTwoBit,
}

/// The layout that the low three bits of a key stand for.
pub open spec fn wire_type_of(code: int) -> Option<WireType> {
    if code == 0 {
        Some(WireType::Varint)
    } else if code == 1 {
        Some(WireType::SixtyFourBit)
    } else if code == 2 {
        Some(WireType::LengthDelimited)
    } else if code == 3 {
        Some(WireType::StartGroup)
    } else if code == 4 {
        Some(WireType::EndGroup)
    } else if code == 5 {
        Some(WireType::ThirtyTwoBit)
    } else {
        None
    }
}

/// A variable-length integer and the position after it, read from byte
/// number `index` of its encoding on. Each byte gives seven bits, the lowest
/// first; a byte below 0x80 is the last. There are at most ten bytes, and
/// the tenth can only be 0 or 1, so the integer fits in 64 bits.
pub open spec fn varint_from(bytes: Seq<u8>, pos: int, end: int, index: int) -> Option<(int, int)>
    decreases 10 - index,
{
    if index < 0 || index >= 10 || pos < 0 || pos >= end || end > bytes.len() {
        None
    } else if bytes[pos] < 0x80 {
        if index == 9 && bytes[pos] >= 2 {
            None
        } else {
            Some((bytes[pos] as int, pos + 1))
        }
    } else {
        match varint_from(bytes, pos + 1, end, index + 1) {
            Some((rest, next)) => Some((bytes[pos] - 0x80 + 128 * rest, next)),
            None => None,
        }
    }
}

/// The variable-length integer at a position, and the position after it.
pub open spec fn varint_at(bytes: Seq<u8>, pos: int, end: int) -> Option<(int, int)> {
    varint_from(bytes, pos, end, 0)
}

/// A bound on what the bytes of a variable-length integer from byte number
/// `index` on can add up to.
pub open spec fn varint_limit(index: int) -> int
    decreases 10 - index,
{
    if index >= 9 {
        2
    } else {
        128 * varint_limit(index + 1)
    }
}

/// A variable-length integer stays below its bound, and ends after where it
/// starts and within the end.
pub proof fn lemma_varint_from(bytes: Seq<u8>, pos: int, end: int, index: int)
    ensures
        varint_from(bytes, pos, end, index) matches Some(v) ==> {
            &&& 0 <= v.0 < varint_limit(index)
            &&& pos < v.1 <= end
            &&& 0 <= index < 10
        },
    decreases 10 - index,
{
    if 0 <= index < 10 {
        lemma_varint_limit_grows(index + 1);
        if 0 <= pos < end && end <= bytes.len() && bytes[pos] >= 0x80 {
            lemma_varint_from(bytes, pos + 1, end, index + 1);
        }
    }
}

/// The bound is at least 2.
proof fn lemma_varint_limit_grows(index: int)
    ensures
        varint_limit(index) >= 2,
    decreases 10 - index,
{
    if index < 9 {
        lemma_varint_limit_grows(index + 1);
    }
}

/// The bound of a whole variable-length integer is 2 to the power 64.
pub proof fn lemma_varint_limit(index: int)
    requires
        0 <= index <= 9,
    ensures
        varint_limit(index) <= 0x1_0000_0000_0000_0000,
        varint_limit(0) == 0x1_0000_0000_0000_0000,
{
    assert(varint_limit(9) == 2);
    assert(varint_limit(8) == 0x100);
    assert(varint_limit(7) == 0x8000);
    assert(varint_limit(6) == 0x40_0000);
    assert(varint_limit(5) == 0x2000_0000);
    assert(varint_limit(4) == 0x10_0000_0000);
    assert(varint_limit(3) == 0x800_0000_0000);
    assert(varint_limit(2) == 0x4_0000_0000_0000);
    assert(varint_limit(1) == 0x200_0000_0000_0000);
    assert(varint_limit(0) == 0x1_0000_0000_0000_0000);
}

/// A variable-length integer fits in 64 bits and takes up at least one
/// byte.
pub proof fn lemma_varint_at(bytes: Seq<u8>, pos: int, end: int)
    ensures
        varint_at(bytes, pos, end) matches Some(v) ==> 0 <= v.0 <= u64::MAX && pos < v.1 <= end,
{
    lemma_varint_from(bytes, pos, end, 0);
    lemma_varint_limit(0);
}

/// The bytes that write a variable-length integer: seven bits in each byte,
/// the lowest first, and every byte but the last with its top bit set.
pub open spec fn varint_bytes(value: nat) -> Seq<u8>
    decreases value,
{
    if value < 128 {
        seq![value as u8]
    } else {
        seq![(value % 128 + 128) as u8] + varint_bytes(value / 128)
    }
}

/// A variable-length integer that was written is read back as it was: where
/// the bytes from `pos` on are those of `value`, reading at `pos` gives
/// `value` and the position after them.
pub proof fn lemma_varint_read_back(bytes: Seq<u8>, pos: int, end: int, index: int, value: nat)
    requires
        0 <= index < 10,
        value < varint_limit(index),
        0 <= pos,
        pos + varint_bytes(value).len() <= end <= bytes.len(),
        bytes.subrange(pos, pos + varint_bytes(value).len()) == varint_bytes(value),
    ensures
        varint_from(bytes, pos, end, index) == Some(
            (value as int, pos + varint_bytes(value).len()),
        ),
    decreases value,
{
    let written = varint_bytes(value);
    assert(bytes[pos] == bytes.subrange(pos, pos + written.len())[0]);
    if value >= 128 {
        let rest = varint_bytes(value / 128);
        assert(written =~= seq![(value % 128 + 128) as u8] + rest);
        assert(bytes.subrange(pos + 1, pos + 1 + rest.len()) =~= rest) by {
            assert forall|i: int| 0 <= i < rest.len() implies bytes[pos + 1 + i] == rest[i] by {
                assert(bytes[pos + 1 + i] == bytes.subrange(pos, pos + written.len())[1 + i]);
            }
        }
        lemma_varint_read_back(bytes, pos + 1, end, index + 1, value / 128);
    }
}

fn read_varint_from(bytes: &[u8], pos: usize, end: usize, index: u8) -> (r: Option<(u64, usize)>)
    requires
        index <= 10,
    ensures
        match r {
            Some(v) => varint_from(bytes@, pos as int, end as int, index as int) == Some(
                (v.0 as int, v.1 as int),
            ),
            None => varint_from(bytes@, pos as int, end as int, index as int) is None,
        },
    decreases 10 - index,
{
    if index >= 10 || pos >= end || end > bytes.len() {
        return None;
    }
    let byte = bytes[pos];
    if byte < 0x80 {
        if index == 9 && byte >= 2 {
            None
        } else {
            Some((byte as u64, pos + 1))
        }
    } else {
        match read_varint_from(bytes, pos + 1, end, index + 1) {
            Some((rest, next)) => {
                proof {
                    lemma_varint_from(bytes@, pos + 1, end as int, index + 1);
                    lemma_varint_limit(index as int);
                    assert(varint_limit(index as int) == 128 * varint_limit(index + 1));
                }
                Some(((byte - 0x80) as u64 + 128 * rest, next))
            },
            None => None,
        }
    }
}

/// Reads the variable-length integer at `pos`.
pub fn read_varint(bytes: &[u8], pos: usize, end: usize) -> (r: Option<(u64, usize)>)
    ensures
        match r {
            Some(v) => varint_at(bytes@, pos as int, end as int) == Some((v.0 as int, v.1 as int))
                && pos < v.1 <= end,
            None => varint_at(bytes@, pos as int, end as int) is None,
        },
{
    proof {
        lemma_varint_at(bytes@, pos as int, end as int);
    }
    read_varint_from(bytes, pos, end, 0)
}

/// The key of a field: its number, the layout of its value, and where the
/// value starts.
pub struct KeyView {
    pub tag: int,
    pub wire_type: WireType,
    pub next: int,
}

/// The key at a position: a variable-length integer of at most 32 bits,
/// whose low three bits name the layout and whose other bits are the
/// field's number, which is not zero.
pub open spec fn key_at(bytes: Seq<u8>, pos: int, end: int) -> Option<KeyView> {
    match varint_at(bytes, pos, end) {
        Some((key, next)) => {
            if key > u32::MAX || key / 8 < 1 {
                None
            } else {
                match wire_type_of(key % 8) {
                    Some(wire_type) => Some(KeyView { tag: key / 8, wire_type, next }),
                    None => None,
                }
            }
        },
        None => None,
    }
}

/// A key, as it was read.
#[derive(Debug, Clone, Copy, PartialEq, Eq, Structural)]
pub struct Key {
    pub tag: u32,
    pub wire_type: WireType,
    pub next: usize,
}

impl View for Key {
    type V = KeyView;

    open spec fn view(&self) -> KeyView {
        KeyView { tag: self.tag as int, wire_type: self.wire_type, next: self.next as int }
    }
}

/// Reads the key at `pos`.
pub fn read_key(bytes: &[u8], pos: usize, end: usize) -> (r: Option<Key>)
    ensures
        match r {
            Some(key) => key_at(bytes@, pos as int, end as int) == Some(key@) && pos < key.next
                <= end && key.tag >= 1,
            None => key_at(bytes@, pos as int, end as int) is None,
        },
{
    let (key, next) = match read_varint(bytes, pos, end) {
        Some(v) => v,
        None => {
            return None;
        },
    };
    if key > 0xFFFF_FFFF || key / 8 < 1 {
        return None;
    }
    let code = key % 8;
    let wire_type = if code == 0 {
        WireType::Varint
    } else if code == 1 {
        WireType::SixtyFourBit
    } else if code == 2 {
        WireType::LengthDelimited
    } else if code == 3 {
        WireType::StartGroup
    } else if code == 4 {
        WireType::EndGroup
    } else if code == 5 {
        WireType::ThirtyTwoBit
    } else {
        return None;
    };
    Some(Key { tag: (key / 8) as u32, wire_type, next })
}

/// The bytes of a length-delimited value: a variable-length integer, then
/// as many bytes as it says, which must all lie before the end. The result
/// is where those bytes start and where they stop.
pub open spec fn delimited_at(bytes: Seq<u8>, pos: int, end: int) -> Option<(int, int)> {
    match varint_at(bytes, pos, end) {
        Some((len, start)) => {
            if len > end - start {
                None
            } else {
                Some((start, start + len))
            }
        },
        None => None,
    }
}

/// Reads the bounds of the length-delimited value at `pos`.
pub fn read_delimited(bytes: &[u8], pos: usize, end: usize) -> (r: Option<(usize, usize)>)
    ensures
        match r {
            Some(v) => delimited_at(bytes@, pos as int, end as int) == Some(
                (v.0 as int, v.1 as int),
            ) && pos < v.0 <= v.1 <= end,
            None => delimited_at(bytes@, pos as int, end as int) is None,
        },
{
    let (len, start) = match read_varint(bytes, pos, end) {
        Some(v) => v,
        None => {
            return None;
        },
    };
    if len > (end - start) as u64 {
        None
    } else {
        Some((start, start + len as usize))
    }
}

/// Where the value of a field ends that is passed over unread, given its
/// layout. `depth` is how many more levels of groups may open; with none
/// left nothing is passed over. A group ends with the end-group key of its
/// own number; an end-group key alone is no value.
pub open spec fn skipped(
    bytes: Seq<u8>,
    pos: int,
    end: int,
    wire_type: WireType,
    tag: int,
    depth: nat,
) -> Option<int>
    decreases depth, end - pos, 1int,
{
    if depth == 0 || pos < 0 || pos > end || end > bytes.len() {
        None
    } else {
        match wire_type {
            WireType::Varint => match varint_at(bytes, pos, end) {
                Some((_, next)) => Some(next),
                None => None,
            },
            WireType::SixtyFourBit => if end - pos >= 8 {
                Some(pos + 8)
            } else {
                None
            },
            WireType::ThirtyTwoBit => if end - pos >= 4 {
                Some(pos + 4)
            } else {
                None
            },
            WireType::LengthDelimited => match delimited_at(bytes, pos, end) {
                Some((_, stop)) => Some(stop),
                None => None,
            },
            WireType::StartGroup => group_skipped(bytes, pos, end, tag, depth),
            WireType::EndGroup => None,
        }
    }
}

/// Where a group ends whose fields start at `pos`: after the first
/// end-group key at this level, which must carry the group's number. The
/// fields before it are passed over one level deeper.
pub open spec fn group_skipped(bytes: Seq<u8>, pos: int, end: int, tag: int, depth: nat) -> Option<
    int,
>
    decreases depth, end - pos, 0int,
{
    if depth == 0 {
        None
    } else {
        match key_at(bytes, pos, end) {
            None => None,
            Some(key) => {
                if key.wire_type == WireType::EndGroup {
                    if key.tag == tag {
                        Some(key.next)
                    } else {
                        None
                    }
                } else {
                    match skipped(bytes, key.next, end, key.wire_type, key.tag, (depth - 1) as nat) {
                        Some(after) => {
                            // A field takes up at least the byte of its key.
                            if pos < after <= end {
                                group_skipped(bytes, after, end, tag, depth)
                            } else {
                                None
                            }
                        },
                        None => None,
                    }
                }
            },
        }
    }
}

/// Passes over the value of a field.
pub fn skip_value(
    bytes: &[u8],
    pos: usize,
    end: usize,
    wire_type: WireType,
    tag: u32,
    depth: u32,
) -> (r: Option<usize>)
    ensures
        match r {
            Some(after) => skipped(
                bytes@,
                pos as int,
                end as int,
                wire_type,
                tag as int,
                depth as nat,
            ) == Some(after as int) && pos <= after <= end,
            None => skipped(bytes@, pos as int, end as int, wire_type, tag as int, depth as nat)
                is None,
        },
    decreases depth, end - pos, 1int,
{
    if depth == 0 || pos > end || end > bytes.len() {
        return None;
    }
    match wire_type {
        WireType::Varint => match read_varint(bytes, pos, end) {
            Some((_, next)) => Some(next),
            None => None,
        },
        WireType::SixtyFourBit => if end - pos >= 8 {
            Some(pos + 8)
        } else {
            None
        },
        WireType::ThirtyTwoBit => if end - pos >= 4 {
            Some(pos + 4)
        } else {
            None
        },
        WireType::LengthDelimited => match read_delimited(bytes, pos, end) {
            Some((_, stop)) => Some(stop),
            None => None,
        },
        WireType::StartGroup => skip_group(bytes, pos, end, tag, depth),
        WireType::EndGroup => None,
    }
}

/// Passes over the fields of a group, up to and with the key that ends it.
pub fn skip_group(bytes: &[u8], pos: usize, end: usize, tag: u32, depth: u32) -> (r: Option<usize>)
    ensures
        match r {
            Some(after) => group_skipped(bytes@, pos as int, end as int, tag as int, depth as nat)
                == Some(after as int) && pos < after <= end,
            None => group_skipped(bytes@, pos as int, end as int, tag as int, depth as nat)
                is None,
        },
    decreases depth, end - pos, 0int,
{
    if depth == 0 || pos > end || end > bytes.len() {
        proof {
            lemma_varint_at(bytes@, pos as int, end as int);
        }
        return None;
    }
    let mut at: usize = pos;
    loop
        invariant
            depth > 0,
            pos <= at <= end <= bytes.len(),
            group_skipped(bytes@, pos as int, end as int, tag as int, depth as nat)
                == group_skipped(bytes@, at as int, end as int, tag as int, depth as nat),
        decreases end - at,
    {
        let key = match read_key(bytes, at, end) {
            Some(key) => key,
            None => {
                return None;
            },
        };
        match key.wire_type {
            WireType::EndGroup => {
                if key.tag == tag {
                    return Some(key.next);
                } else {
                    return None;
                }
            },
            _ => {
                match skip_value(bytes, key.next, end, key.wire_type, key.tag, depth - 1) {
                    Some(after) => {
                        at = after;
                    },
                    None => {
                        return None;
                    },
                }
            },
        }
    }
}

} // verus!
