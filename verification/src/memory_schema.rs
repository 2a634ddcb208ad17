//! The live memory schema of a Roblox client: where each value lives (a module, a base offset
//! and a pointer chain), the check that a schema was filled in by hand, the steps of the
//! pointer chase, and the decoding of the little-endian values read.
use vstd::prelude::*;

use crate::types::{WinrError, WinrResult};

verus! {

/// How a field's bytes are laid out.
#[derive(Debug, Clone, Copy, PartialEq, Eq, Structural)]
pub enum RobloxMemoryValueKind {
    Vec3F32,
    Vec3I32,
    I32,
    U32,
    U8Bool,
}

/// Where a value lives: the module's base plus an offset, then one dereference per offset
/// (read a pointer at the cursor, add the offset).
#[derive(Debug, PartialEq, Eq)]
pub struct RobloxMemoryField {
    pub module: String,
    pub base_offset: usize,
    pub dereference_offsets: Vec<usize>,
    pub value_kind: RobloxMemoryValueKind,
}

/// An object whose position the schema locates.
#[derive(Debug, PartialEq, Eq)]
pub struct RobloxObjectField {
    pub id: String,
    pub label: String,
    pub kind: String,
    pub interactable: bool,
    pub position: RobloxMemoryField,
}

/// The fields of a client build that a live workflow reads.
#[derive(Debug, PartialEq, Eq)]
pub struct RobloxMemorySchema {
    pub game_build: String,
    pub schema_version: String,
    pub player_position: Option<RobloxMemoryField>,
    pub player_velocity: Option<RobloxMemoryField>,
    pub camera_yaw_milli_degrees: Option<RobloxMemoryField>,
    pub camera_pitch_milli_degrees: Option<RobloxMemoryField>,
    pub prompt_visible: Option<RobloxMemoryField>,
    pub prompt_distance_millimeters: Option<RobloxMemoryField>,
    pub objects: Vec<RobloxObjectField>,
}

/// A field still at the placeholder location: no offset and no pointer chain.
pub open spec fn placeholder_field(f: RobloxMemoryField) -> bool {
    f.base_offset == 0 && f.dereference_offsets@.len() == 0
}

/// The check of a live schema: the player position must be given, and the schema must not
/// be the placeholder example (player position and every object at the placeholder location).
pub open spec fn live_schema_problem(schema: RobloxMemorySchema) -> Option<Seq<char>> {
    match schema.player_position {
        None => Some("manual schema required: player_position is missing"@),
        Some(p) => if placeholder_field(p) && forall|i: int|
            0 <= i < schema.objects@.len() ==> #[trigger] placeholder_field(schema.objects@[i].position) {
            Some("manual schema required: the Roblox live schema still appears to be the placeholder example"@)
        } else {
            None
        },
    }
}

fn is_placeholder(f: &RobloxMemoryField) -> (r: bool)
    ensures
        r == placeholder_field(*f),
{
    f.base_offset == 0 && f.dereference_offsets.len() == 0
}

/// Checks that a live schema was filled in by hand.
pub fn validate_live_schema(schema: &RobloxMemorySchema) -> (r: WinrResult<()>)
    ensures
        match live_schema_problem(*schema) {
            Some(message) => r matches Err(e) && e is Unsupported && e->Unsupported_message@ == message,
            None => r is Ok,
        },
{
    let player = match &schema.player_position {
        Some(p) => p,
        None => {
            proof {
                reveal_strlit("manual schema required: player_position is missing");
            }
            return Err(crate::types::unsupported("manual schema required: player_position is missing"));
        },
    };
    let mut all_placeholder = is_placeholder(player);
    let mut i: usize = 0;
    while i < schema.objects.len()
        invariant
            i <= schema.objects.len(),
            schema.player_position == Some(*player),
            all_placeholder == (placeholder_field(*player) && forall|k: int|
                0 <= k < i ==> #[trigger] placeholder_field(schema.objects@[k].position)),
        decreases schema.objects.len() - i,
    {
        if !is_placeholder(&schema.objects[i].position) {
            all_placeholder = false;
        }
        i = i + 1;
    }
    if all_placeholder {
        proof {
            reveal_strlit(
                "manual schema required: the Roblox live schema still appears to be the placeholder example",
            );
        }
        return Err(
            crate::types::unsupported(
                "manual schema required: the Roblox live schema still appears to be the placeholder example",
            ),
        );
    }
    Ok(())
}

// ----------------------------------------------------------------------------------------------
// Pointer chase.
/// Where a field's pointer chase starts: the module base plus the base offset, when that
/// address exists.
pub fn field_start_address(field: &RobloxMemoryField, module_base: usize) -> (r: Option<usize>)
    ensures
        module_base + field.base_offset <= usize::MAX ==> r == Some((module_base + field.base_offset) as usize),
        module_base + field.base_offset > usize::MAX ==> r is None,
{
    module_base.checked_add(field.base_offset)
}

/// One dereference of the chase: the pointer read at the cursor plus the offset, when that
/// address exists.
pub fn follow_pointer(pointer: usize, offset: usize) -> (r: Option<usize>)
    ensures
        pointer + offset <= usize::MAX ==> r == Some((pointer + offset) as usize),
        pointer + offset > usize::MAX ==> r is None,
{
    pointer.checked_add(offset)
}

// ----------------------------------------------------------------------------------------------
// Little-endian values.
/// The unsigned value of little-endian bytes.
pub open spec fn le_value(bytes: Seq<u8>) -> nat
    decreases bytes.len(),
{
    if bytes.len() == 0 {
        0
    } else {
        bytes[0] as nat + 256 * le_value(bytes.drop_first())
    }
}

/// The two's-complement reading of a 32-bit unsigned value.
pub open spec fn signed_of_u32(v: nat) -> int {
    if v < 0x8000_0000 {
        v as int
    } else {
        v - 0x1_0000_0000
    }
}

pub(crate) proof fn lemma_le_value4(b: Seq<u8>)
    requires
        b.len() == 4,
    ensures
        le_value(b) == b[0] + 256 * (b[1] + 256 * (b[2] + 256 * b[3] as int)),
{
    assert(b.drop_first().drop_first().drop_first().drop_first() =~= Seq::<u8>::empty());
    reveal_with_fuel(le_value, 5);
}

proof fn lemma_le_value8(b: Seq<u8>)
    requires
        b.len() == 8,
    ensures
        le_value(b) == le_value(b.subrange(0, 4)) + 0x1_0000_0000 * le_value(b.subrange(4, 8)),
{
    let lo = b.subrange(0, 4);
    let hi = b.subrange(4, 8);
    assert(b.drop_first().drop_first().drop_first().drop_first() =~= hi);
    assert(lo.drop_first().drop_first().drop_first().drop_first() =~= Seq::<u8>::empty());
    reveal_with_fuel(le_value, 5);
    assert(lo.drop_first() =~= b.drop_first().subrange(0, 3));
    assert(lo.drop_first().drop_first() =~= b.drop_first().drop_first().subrange(0, 2));
    assert(lo.drop_first().drop_first().drop_first() =~= b.drop_first().drop_first().drop_first().subrange(0, 1));
}

/// Decodes four little-endian bytes as a `u32`.
pub fn decode_u32_le(bytes: &Vec<u8>) -> (r: u32)
    requires
        bytes.len() == 4,
    ensures
        r as nat == le_value(bytes@),
{
    proof {
        lemma_le_value4(bytes@);
    }
    let b0 = bytes[0] as u32;
    let b1 = bytes[1] as u32;
    let b2 = bytes[2] as u32;
    let b3 = bytes[3] as u32;
    b0 + 256 * (b1 + 256 * (b2 + 256 * b3))
}

/// Decodes four little-endian bytes as an `i32` (two's complement).
pub fn decode_i32_le(bytes: &Vec<u8>) -> (r: i32)
    requires
        bytes.len() == 4,
    ensures
        r as int == signed_of_u32(le_value(bytes@)),
{
    let v = decode_u32_le(bytes);
    if v < 0x8000_0000 {
        v as i32
    } else {
        (v as i64 - 0x1_0000_0000) as i32
    }
}

/// Decodes eight little-endian bytes as a pointer.
pub fn decode_u64_le(bytes: &Vec<u8>) -> (r: u64)
    requires
        bytes.len() == 8,
    ensures
        r as nat == le_value(bytes@),
{
    let mut lo: Vec<u8> = Vec::new();
    let mut hi: Vec<u8> = Vec::new();
    let mut i: usize = 0;
    while i < 4
        invariant
            i <= 4,
            bytes.len() == 8,
            lo@ == bytes@.subrange(0, i as int),
            hi@ == bytes@.subrange(4, 4 + i),
        decreases 4 - i,
    {
        lo.push(bytes[i]);
        hi.push(bytes[4 + i]);
        proof {
            assert(lo@ =~= bytes@.subrange(0, i + 1));
            assert(hi@ =~= bytes@.subrange(4, 4 + i + 1));
        }
        i = i + 1;
    }
    proof {
        lemma_le_value8(bytes@);
    }
    let low = decode_u32_le(&lo) as u64;
    let high = decode_u32_le(&hi) as u64;
    low + 0x1_0000_0000 * high
}

/// Decodes a byte as a flag: any value but zero is set.
pub fn decode_bool(bytes: &Vec<u8>) -> (r: bool)
    requires
        bytes.len() == 1,
    ensures
        r == (bytes@[0] != 0),
{
    bytes[0] != 0
}

/// Decodes the four little-endian bytes at `start` as an `i32`.
fn decode_i32_at(bytes: &Vec<u8>, start: usize) -> (r: i32)
    requires
        start + 4 <= bytes.len(),
    ensures
        r as int == signed_of_u32(le_value(bytes@.subrange(start as int, start + 4))),
{
    let mut chunk: Vec<u8> = Vec::new();
    let mut i: usize = 0;
    while i < 4
        invariant
            i <= 4,
            start + 4 <= bytes.len(),
            chunk@ == bytes@.subrange(start as int, start + i),
        decreases 4 - i,
    {
        chunk.push(bytes[start + i]);
        proof {
            assert(chunk@ =~= bytes@.subrange(start as int, start + i + 1));
        }
        i = i + 1;
    }
    decode_i32_le(&chunk)
}

/// Decodes twelve little-endian bytes as three `i32` coordinates.
pub fn decode_vec3_i32(bytes: &Vec<u8>) -> (r: [i32; 3])
    requires
        bytes.len() == 12,
    ensures
        r[0] as int == signed_of_u32(le_value(bytes@.subrange(0, 4))),
        r[1] as int == signed_of_u32(le_value(bytes@.subrange(4, 8))),
        r[2] as int == signed_of_u32(le_value(bytes@.subrange(8, 12))),
{
    let x = decode_i32_at(bytes, 0);
    let y = decode_i32_at(bytes, 4);
    let z = decode_i32_at(bytes, 8);
    [x, y, z]
}

} // verus!
