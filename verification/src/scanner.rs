//! Byte-signature scanning and relative-displacement relocation.
//!
//! When no typed lookup exists for a structure, its address is found by
//! scanning a bounded window of the target's memory for a fixed byte
//! pattern that may contain wildcard positions, and then following one
//! instruction-pointer-relative displacement to the real data. The pattern
//! and its post-match offsets are fixed external data sourced from the
//! target binary.

use vstd::prelude::*;
use vstd::wrapping::u64_specs;

verus! {

/// One position of a byte signature: either a byte that must match exactly,
/// or a wildcard that matches any byte.
#[derive(Clone, Copy, PartialEq, Eq, Structural, Debug)]
pub enum PatternByte {
    Exact(u8),
    Any,
}

/// `b` is acceptable at a position whose pattern entry is `p`.
pub open spec fn spec_byte_fits(p: PatternByte, b: u8) -> bool {
    match p {
        PatternByte::Exact(x) => b == x,
        PatternByte::Any => true,
    }
}

/// The pattern matches the window at position `i`.
pub open spec fn spec_matches_at(window: Seq<u8>, pattern: Seq<PatternByte>, i: int) -> bool {
    &&& 0 <= i
    &&& i + pattern.len() <= window.len()
    &&& forall|j: int| 0 <= j < pattern.len() ==> spec_byte_fits(pattern[j], window[i + j])
}

/// The pattern matches the window at position `i` exactly.
fn matches_prefix_at(window: &[u8], pattern: &[PatternByte], i: usize) -> (r: bool)
    requires
        i + pattern@.len() <= window@.len(),
    ensures
        r == spec_matches_at(window@, pattern@, i as int),
{
    let wlen = window.len();
    let plen = pattern.len();
    let mut j: usize = 0;
    while j < plen
        invariant
            wlen == window@.len(),
            plen == pattern@.len(),
            i + plen <= wlen,
            j <= plen,
            forall|k: int| 0 <= k < j ==> spec_byte_fits(pattern@[k], window@[i + k]),
        decreases plen - j,
    {
        let fits = match pattern[j] {
            PatternByte::Exact(x) => window[i + j] == x,
            PatternByte::Any => true,
        };
        if !fits {
            proof {
                assert(!spec_byte_fits(pattern@[j as int], window@[i + j]));
            }
            return false;
        }
        j += 1;
    }
    true
}

/// Find the first position in the window at which the pattern matches.
/// Absence of a match is not a fault: the structure may not be in place
/// yet, and the caller retries on a later tick.
pub fn scan(window: &[u8], pattern: &[PatternByte]) -> (r: Option<usize>)
    ensures
        match r {
            Option::Some(i) => spec_matches_at(window@, pattern@, i as int) && (forall|k: int|
                0 <= k < i ==> !spec_matches_at(window@, pattern@, k)),
            Option::None => forall|k: int| !spec_matches_at(window@, pattern@, k),
        },
{
    if pattern.len() > window.len() {
        return Option::None;
    }
    let last = window.len() - pattern.len();
    let mut i: usize = 0;
    while i <= last
        invariant
            pattern@.len() <= window@.len(),
            last == window@.len() - pattern@.len(),
            i <= last,
            forall|k: int| 0 <= k < i ==> !spec_matches_at(window@, pattern@, k),
        decreases last - i,
    {
        if matches_prefix_at(window, pattern, i) {
            return Option::Some(i);
        }
        if i == last {
            return Option::None;
        }
        i += 1;
    }
    proof {
        assert(false);
    }
    Option::None
}

/// A 32-bit value assembled from four bytes in little-endian order.
pub open spec fn spec_u32_le(b0: u8, b1: u8, b2: u8, b3: u8) -> u32 {
    (b0 + b1 * 0x100 + b2 * 0x1_0000 + b3 * 0x100_0000) as u32
}

/// Assemble a 32-bit value from four bytes in little-endian order.
pub fn u32_le(b0: u8, b1: u8, b2: u8, b3: u8) -> (r: u32)
    ensures
        r == spec_u32_le(b0, b1, b2, b3),
{
    (b0 as u32) + (b1 as u32) * 0x100 + (b2 as u32) * 0x1_0000 + (b3 as u32) * 0x100_0000
}

/// Read a 32-bit signed displacement from four bytes in little-endian
/// order.
pub fn i32_le(b0: u8, b1: u8, b2: u8, b3: u8) -> (r: i32)
    ensures
        r == spec_u32_le(b0, b1, b2, b3) as i32,
{
    u32_le(b0, b1, b2, b3) as i32
}

/// The address a match points at after skipping `skip` bytes of instruction
/// encoding, wrapping.
pub fn adjusted_match(match_address: u64, skip: u64) -> (r: u64)
    ensures
        r == u64_specs::wrapping_add(match_address, skip),
{
    match_address.wrapping_add(skip)
}

/// The target of an instruction-pointer-relative displacement: the four-byte
/// displacement field at `field_address` is followed by the next
/// instruction, and the (sign-extended) displacement is added to that
/// instruction's address, wrapping.
pub fn relative_target(field_address: u64, displacement: i32) -> (r: u64)
    ensures
        r == u64_specs::wrapping_add_signed(
            u64_specs::wrapping_add(field_address, 4),
            displacement as i64,
        ),
{
    field_address.wrapping_add(4).wrapping_add_signed(displacement as i64)
}

/// The address of the structure a signature match leads to: skip the fixed
/// instruction bytes in front of the displacement field, read the four
/// displacement bytes there (little-endian, handed in by the caller), and
/// follow the instruction-pointer-relative displacement.
pub fn relocated_structure_address(
    match_address: u64,
    displacement_offset: u64,
    b0: u8,
    b1: u8,
    b2: u8,
    b3: u8,
) -> (r: u64)
    ensures
        r == u64_specs::wrapping_add_signed(
            u64_specs::wrapping_add(u64_specs::wrapping_add(match_address, displacement_offset), 4),
            spec_u32_le(b0, b1, b2, b3) as i32 as i64,
        ),
{
    let field_address = adjusted_match(match_address, displacement_offset);
    let displacement = i32_le(b0, b1, b2, b3);
    relative_target(field_address, displacement)
}

} // verus!
