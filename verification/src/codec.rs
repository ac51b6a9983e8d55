//! A lossless byte encoding of [`WindowSettings`] for storage between runs.
//!
//! Layout: one tag byte per field (`0` absent, `1` present), each present
//! field followed by its two components as little-endian 32-bit values.
//! Position coordinates are stored as the two's-complement bit patterns of
//! their signed values. Nothing may follow the encoded value.

use crate::geometry::{LogicalSize, PhysicalPosition};
use crate::settings::WindowSettings;
use vstd::bytes::{lemma_auto_spec_u32_to_from_le_bytes, spec_u32_from_le_bytes,
    spec_u32_to_le_bytes, u32_from_le_bytes, u32_to_le_bytes};
use vstd::prelude::*;
use vstd::slice::slice_subrange;

verus! {

/// Tag byte marking an absent field.
pub const TAG_ABSENT: u8 = 0;

/// Tag byte marking a present field.
pub const TAG_PRESENT: u8 = 1;

/// The two's-complement bit pattern of a signed coordinate.
pub open spec fn spec_coord_bits(x: i32) -> u32 {
    #[verifier::truncate] (x as u32)
}

/// The signed coordinate whose two's-complement bit pattern is `u`.
pub open spec fn spec_coord_of_bits(u: u32) -> i32 {
    #[verifier::truncate] (u as i32)
}

/// Bytes of one encoded position: x then y, each little-endian.
pub open spec fn spec_encode_position(p: PhysicalPosition) -> Seq<u8> {
    spec_u32_to_le_bytes(spec_coord_bits(p.x)) + spec_u32_to_le_bytes(spec_coord_bits(p.y))
}

/// Bytes of one encoded size: width then height, each little-endian.
pub open spec fn spec_encode_size(z: LogicalSize) -> Seq<u8> {
    spec_u32_to_le_bytes(z.width_bits) + spec_u32_to_le_bytes(z.height_bits)
}

/// The encoding of a settings value: tagged position field, then tagged
/// size field.
pub open spec fn spec_encode(s: WindowSettings) -> Seq<u8> {
    (match s.inner_pos {
        Some(p) => seq![TAG_PRESENT] + spec_encode_position(p),
        None => seq![TAG_ABSENT],
    }) + (match s.inner_size_points {
        Some(z) => seq![TAG_PRESENT] + spec_encode_size(z),
        None => seq![TAG_ABSENT],
    })
}

/// The position whose encoding starts at offset `off` of `b`.
pub open spec fn spec_position_at(b: Seq<u8>, off: int) -> PhysicalPosition {
    PhysicalPosition {
        x: spec_coord_of_bits(spec_u32_from_le_bytes(b.subrange(off, off + 4))),
        y: spec_coord_of_bits(spec_u32_from_le_bytes(b.subrange(off + 4, off + 8))),
    }
}

/// The size whose encoding starts at offset `off` of `b`.
pub open spec fn spec_size_at(b: Seq<u8>, off: int) -> LogicalSize {
    LogicalSize {
        width_bits: spec_u32_from_le_bytes(b.subrange(off, off + 4)),
        height_bits: spec_u32_from_le_bytes(b.subrange(off + 4, off + 8)),
    }
}

/// What decoding yields on any byte sequence: `Some` exactly on the four
/// well-formed shapes (no field, position only, size only, both), `None`
/// on any other length, tag or trailing data.
pub open spec fn spec_decode(b: Seq<u8>) -> Option<WindowSettings> {
    if b.len() == 2 && b[0] == TAG_ABSENT && b[1] == TAG_ABSENT {
        Some(WindowSettings { inner_pos: None, inner_size_points: None })
    } else if b.len() == 10 && b[0] == TAG_PRESENT && b[9] == TAG_ABSENT {
        Some(WindowSettings { inner_pos: Some(spec_position_at(b, 1)), inner_size_points: None })
    } else if b.len() == 10 && b[0] == TAG_ABSENT && b[1] == TAG_PRESENT {
        Some(WindowSettings { inner_pos: None, inner_size_points: Some(spec_size_at(b, 2)) })
    } else if b.len() == 18 && b[0] == TAG_PRESENT && b[9] == TAG_PRESENT {
        Some(
            WindowSettings {
                inner_pos: Some(spec_position_at(b, 1)),
                inner_size_points: Some(spec_size_at(b, 10)),
            },
        )
    } else {
        None
    }
}

/// Read the little-endian 32-bit value at offset `off`.
fn read_u32_at(bytes: &[u8], off: usize) -> (r: u32)
    requires
        off + 4 <= bytes@.len(),
        bytes@.len() <= usize::MAX,
    ensures
        r == spec_u32_from_le_bytes(bytes@.subrange(off as int, off as int + 4)),
{
    u32_from_le_bytes(slice_subrange(bytes, off, off + 4))
}

/// Read the position encoded at offset `off`.
fn read_position_at(bytes: &[u8], off: usize) -> (r: PhysicalPosition)
    requires
        off + 8 <= bytes@.len(),
        bytes@.len() <= usize::MAX,
    ensures
        r == spec_position_at(bytes@, off as int),
{
    let x_bits = read_u32_at(bytes, off);
    let y_bits = read_u32_at(bytes, off + 4);
    PhysicalPosition {
        x: #[verifier::truncate] (x_bits as i32),
        y: #[verifier::truncate] (y_bits as i32),
    }
}

/// Read the size encoded at offset `off`.
fn read_size_at(bytes: &[u8], off: usize) -> (r: LogicalSize)
    requires
        off + 8 <= bytes@.len(),
        bytes@.len() <= usize::MAX,
    ensures
        r == spec_size_at(bytes@, off as int),
{
    let width_bits = read_u32_at(bytes, off);
    let height_bits = read_u32_at(bytes, off + 4);
    LogicalSize { width_bits, height_bits }
}

impl WindowSettings {
    /// Encode this value in the storage format.
    pub fn to_bytes(&self) -> (r: Vec<u8>)
        ensures
            r@ == spec_encode(*self),
    {
        let mut out: Vec<u8> = Vec::new();
        match self.inner_pos {
            Some(p) => {
                out.push(TAG_PRESENT);
                let mut xs = u32_to_le_bytes(#[verifier::truncate] (p.x as u32));
                out.append(&mut xs);
                let mut ys = u32_to_le_bytes(#[verifier::truncate] (p.y as u32));
                out.append(&mut ys);
            },
            None => {
                out.push(TAG_ABSENT);
            },
        }
        match self.inner_size_points {
            Some(z) => {
                out.push(TAG_PRESENT);
                let mut ws = u32_to_le_bytes(z.width_bits);
                out.append(&mut ws);
                let mut hs = u32_to_le_bytes(z.height_bits);
                out.append(&mut hs);
            },
            None => {
                out.push(TAG_ABSENT);
            },
        }
        assert(out@ =~= spec_encode(*self));
        out
    }

    /// Decode a stored value. Returns `None` on any input that is not
    /// exactly one well-formed encoding.
    pub fn from_bytes(bytes: &[u8]) -> (r: Option<WindowSettings>)
        ensures
            r == spec_decode(bytes@),
    {
        let n = bytes.len();
        if n == 2 && bytes[0] == TAG_ABSENT && bytes[1] == TAG_ABSENT {
            Some(WindowSettings { inner_pos: None, inner_size_points: None })
        } else if n == 10 && bytes[0] == TAG_PRESENT && bytes[9] == TAG_ABSENT {
            Some(
                WindowSettings {
                    inner_pos: Some(read_position_at(bytes, 1)),
                    inner_size_points: None,
                },
            )
        } else if n == 10 && bytes[0] == TAG_ABSENT && bytes[1] == TAG_PRESENT {
            Some(
                WindowSettings {
                    inner_pos: None,
                    inner_size_points: Some(read_size_at(bytes, 2)),
                },
            )
        } else if n == 18 && bytes[0] == TAG_PRESENT && bytes[9] == TAG_PRESENT {
            Some(
                WindowSettings {
                    inner_pos: Some(read_position_at(bytes, 1)),
                    inner_size_points: Some(read_size_at(bytes, 10)),
                },
            )
        } else {
            None
        }
    }
}

/// Storing a coordinate's bit pattern and reading it back yields the
/// coordinate.
proof fn lemma_coord_bits_round_trip(x: i32)
    ensures
        spec_coord_of_bits(spec_coord_bits(x)) == x,
{
    assert(#[verifier::truncate] ((#[verifier::truncate] (x as u32)) as i32) == x)
        by (bit_vector);
}

/// Round trip: decoding an encoded settings value yields the value back,
/// whichever of the two fields are present.
pub proof fn lemma_encode_decode_round_trip(s: WindowSettings)
    ensures
        spec_decode(spec_encode(s)) == Some(s),
{
    lemma_auto_spec_u32_to_from_le_bytes();
    let b = spec_encode(s);
    match s.inner_pos {
        Some(p) => {
            lemma_coord_bits_round_trip(p.x);
            lemma_coord_bits_round_trip(p.y);
            match s.inner_size_points {
                Some(z) => {
                    assert(b.len() == 18);
                    assert(b.subrange(1, 5) =~= spec_u32_to_le_bytes(spec_coord_bits(p.x)));
                    assert(b.subrange(5, 9) =~= spec_u32_to_le_bytes(spec_coord_bits(p.y)));
                    assert(b.subrange(10, 14) =~= spec_u32_to_le_bytes(z.width_bits));
                    assert(b.subrange(14, 18) =~= spec_u32_to_le_bytes(z.height_bits));
                    assert(spec_position_at(b, 1) == p);
                    assert(spec_size_at(b, 10) == z);
                },
                None => {
                    assert(b.len() == 10);
                    assert(b.subrange(1, 5) =~= spec_u32_to_le_bytes(spec_coord_bits(p.x)));
                    assert(b.subrange(5, 9) =~= spec_u32_to_le_bytes(spec_coord_bits(p.y)));
                    assert(spec_position_at(b, 1) == p);
                },
            }
        },
        None => {
            match s.inner_size_points {
                Some(z) => {
                    assert(b.len() == 10);
                    assert(b.subrange(2, 6) =~= spec_u32_to_le_bytes(z.width_bits));
                    assert(b.subrange(6, 10) =~= spec_u32_to_le_bytes(z.height_bits));
                    assert(spec_size_at(b, 2) == z);
                },
                None => {
                    assert(b.len() == 2);
                },
            }
        },
    }
}

} // verus!
