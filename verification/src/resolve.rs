//! Resolution and caching of runtime type metadata.
//!
//! The target process exposes its types and fields only through
//! reflection-style lookups that can fail transiently: a type may not be
//! loaded yet, and its static storage may not be initialized. The host
//! harness performs those lookups and hands their results in as plain
//! values; this module decides what to cache, when to discard a cache, and
//! which concrete addresses follow from resolved metadata. All address
//! arithmetic wraps, matching the target's pointer arithmetic.

use vstd::prelude::*;
use vstd::wrapping::u64_specs;
use crate::scene::bytes_eq;

verus! {

/// One resolved field: its name and its byte offset.
pub struct FieldSlot {
    pub name: Vec<u8>,
    pub offset: u64,
}

/// The offset of the first slot named `name`, if any.
pub open spec fn spec_field_offset(fields: Seq<FieldSlot>, name: Seq<u8>) -> Option<u64>
    decreases fields.len(),
{
    if fields.len() == 0 {
        Option::None
    } else if fields[0].name@ == name {
        Option::Some(fields[0].offset)
    } else {
        spec_field_offset(fields.subrange(1, fields.len() as int), name)
    }
}

/// The offset under the first of the two names that resolves: schemas evolve
/// across target versions, so a value may be exposed under a newer name in
/// newer builds and an older name in older ones.
pub open spec fn spec_field_offset_either(
    fields: Seq<FieldSlot>,
    primary: Seq<u8>,
    fallback: Seq<u8>,
) -> Option<u64> {
    match spec_field_offset(fields, primary) {
        Option::Some(o) => Option::Some(o),
        Option::None => spec_field_offset(fields, fallback),
    }
}

/// Successfully resolved metadata of one type: the address of its static
/// storage and the byte offsets of the fields that were looked up.
pub struct ResolvedClass {
    pub static_table: u64,
    pub fields: Vec<FieldSlot>,
}

impl ResolvedClass {
    /// The offset of the first field named `name`, if any.
    pub fn field_offset(&self, name: &[u8]) -> (r: Option<u64>)
        ensures
            r == spec_field_offset(self.fields@, name@),
    {
        let n = self.fields.len();
        proof {
            assert(self.fields@.subrange(0, n as int) =~= self.fields@);
        }
        let mut i: usize = 0;
        while i < n
            invariant
                n == self.fields@.len(),
                i <= n,
                spec_field_offset(self.fields@, name@) == spec_field_offset(
                    self.fields@.subrange(i as int, n as int),
                    name@,
                ),
            decreases n - i,
        {
            let slot = &self.fields[i];
            if bytes_eq(slot.name.as_slice(), name) {
                proof {
                    assert(self.fields@.subrange(i as int, n as int)[0] == self.fields@[i as int]);
                }
                return Option::Some(slot.offset);
            }
            proof {
                assert(self.fields@.subrange(i as int, n as int)[0] == self.fields@[i as int]);
                assert(self.fields@.subrange(i as int, n as int).subrange(
                    1,
                    (n - i) as int,
                ) =~= self.fields@.subrange(i + 1 as int, n as int));
            }
            i += 1;
        }
        proof {
            assert(self.fields@.subrange(n as int, n as int).len() == 0);
        }
        Option::None
    }

    /// The offset under the first of the two names that resolves.
    pub fn field_offset_either(&self, primary: &[u8], fallback: &[u8]) -> (r: Option<u64>)
        ensures
            r == spec_field_offset_either(self.fields@, primary@, fallback@),
    {
        match self.field_offset(primary) {
            Option::Some(o) => Option::Some(o),
            Option::None => self.field_offset(fallback),
        }
    }

    /// The address of the static field named `name`: the static storage
    /// address plus the field's offset.
    pub fn static_field_address(&self, name: &[u8]) -> (r: Option<u64>)
        ensures
            r == spec_static_field_address(*self, name@),
    {
        match self.field_offset(name) {
            Option::Some(o) => Option::Some(self.static_table.wrapping_add(o)),
            Option::None => Option::None,
        }
    }
}

/// The address of the static field named `name` in `c`, if the field
/// resolved.
pub open spec fn spec_static_field_address(c: ResolvedClass, name: Seq<u8>) -> Option<u64> {
    match spec_field_offset(c.fields@, name) {
        Option::Some(o) => Option::Some(u64_specs::wrapping_add(c.static_table, o)),
        Option::None => Option::None,
    }
}

/// A lazily resolved reference to a named type of the target. Created
/// unresolved; resolution is retried every tick until it succeeds, and the
/// cache is discarded again whenever a dependent lookup fails.
pub struct ClassHandle {
    pub name: Vec<u8>,
    pub resolved: Option<ResolvedClass>,
}

/// The handle after one resolution attempt: an already resolved handle keeps
/// its cache untouched, an unresolved one absorbs the attempt's outcome.
pub open spec fn spec_absorbed(h: ClassHandle, probe: Option<ResolvedClass>) -> ClassHandle {
    match h.resolved {
        Option::Some(_) => h,
        Option::None => ClassHandle { name: h.name, resolved: probe },
    }
}

impl ClassHandle {
    /// A handle for the type called `name`, not yet resolved.
    pub fn new(name: Vec<u8>) -> (r: ClassHandle)
        ensures
            r.name == name,
            r.resolved is None,
    {
        ClassHandle { name, resolved: Option::None }
    }

    pub fn is_resolved(&self) -> (r: bool)
        ensures
            r == (self.resolved is Some),
    {
        self.resolved.is_some()
    }

    /// Discard the cached metadata so that the next tick retries resolution
    /// from scratch.
    pub fn invalidate(&mut self)
        ensures
            final(self).name == old(self).name,
            final(self).resolved is None,
    {
        self.resolved = Option::None;
    }

    /// Absorb one resolution attempt. Re-resolving an already resolved
    /// handle changes nothing; an unresolved handle takes the attempt's
    /// outcome, which may again be nothing.
    pub fn absorb(&mut self, probe: Option<ResolvedClass>)
        ensures
            old(self).resolved is Some ==> *final(self) == *old(self),
            old(self).resolved is None ==> final(self).name == old(self).name
                && final(self).resolved == probe,
            *final(self) == spec_absorbed(*old(self), probe),
    {
        if self.resolved.is_none() {
            self.resolved = probe;
        }
    }
}

/// Re-resolving an already resolved handle never changes the cached static
/// storage address or any cached field offset.
pub proof fn law_resolution_idempotent(h: ClassHandle, probe: Option<ResolvedClass>)
    requires
        h.resolved is Some,
    ensures
        spec_absorbed(h, probe) == h,
{
}

/// The first of two optional lookup results, in priority order. Models both
/// the image fallback (a newer module name tried before the legacy one) and
/// any other ordered candidate list.
pub fn first_available<T>(primary: Option<T>, fallback: Option<T>) -> (r: Option<T>)
    ensures
        primary is Some ==> r == primary,
        primary is None ==> r == fallback,
{
    match primary {
        Option::Some(v) => Option::Some(v),
        Option::None => fallback,
    }
}

/// The address of a static pointer slot plus the offset of one field inside
/// the instance that the slot points at: the recurring "static singleton
/// pointer, then instance field" pattern.
#[derive(Clone, Copy)]
pub struct StaticField {
    pub base_address: u64,
    pub field_offset: u64,
}

impl StaticField {
    /// The pointer path that reads the field: dereference the pointer stored
    /// at `base_address`, then read the value `field_offset` bytes into the
    /// instance it points at.
    pub fn read_path(&self) -> (r: FieldPath)
        ensures
            r.base == self.base_address,
            r.offsets@ =~= seq![0u64, self.field_offset],
    {
        let mut offsets: Vec<u64> = Vec::new();
        offsets.push(0);
        offsets.push(self.field_offset);
        proof {
            assert(offsets@ =~= seq![0u64, self.field_offset]);
        }
        FieldPath { base: self.base_address, offsets }
    }
}

/// A base address plus an ordered chain of byte offsets. Every offset but
/// the last is followed as "read the pointer at base plus offset"; the last
/// is a raw typed read at the final address.
pub struct FieldPath {
    pub base: u64,
    pub offsets: Vec<u64>,
}

/// A walk along a pointer path, driven from outside: the walk names the
/// address to read, the caller reads it and either takes the value (at the
/// final hop) or feeds the pointer back in to advance.
pub struct PathWalk {
    pub base: u64,
    pub offsets: Vec<u64>,
    pub hop: usize,
}

impl PathWalk {
    /// Begin walking `path` from its base.
    pub fn start(path: FieldPath) -> (r: PathWalk)
        requires
            path.offsets@.len() >= 1,
        ensures
            r.base == path.base,
            r.offsets@ == path.offsets@,
            r.hop == 0,
    {
        PathWalk { base: path.base, offsets: path.offsets, hop: 0 }
    }

    /// The address the current hop reads: the current base plus the current
    /// offset, wrapping.
    pub fn read_address(&self) -> (r: u64)
        requires
            self.hop < self.offsets@.len(),
        ensures
            r == u64_specs::wrapping_add(self.base, self.offsets@[self.hop as int]),
    {
        self.base.wrapping_add(self.offsets[self.hop])
    }

    /// Whether the current hop is the last one, where the caller performs
    /// the raw typed read instead of following a pointer.
    pub fn is_final_hop(&self) -> (r: bool)
        requires
            self.hop < self.offsets@.len(),
        ensures
            r == (self.hop + 1 == self.offsets@.len()),
    {
        let n = self.offsets.len();
        self.hop + 1 == n
    }

    /// Follow the pointer that the current hop read: it becomes the base of
    /// the next hop.
    pub fn advance(&mut self, pointer: u64)
        requires
            old(self).hop + 1 < old(self).offsets@.len(),
        ensures
            final(self).base == pointer,
            final(self).offsets@ == old(self).offsets@,
            final(self).hop == old(self).hop + 1,
    {
        let n = self.offsets.len();
        proof {
            assert(self.hop + 1 < n);
        }
        self.base = pointer;
        self.hop = self.hop + 1;
    }
}

} // verus!
