//! The byte-addressable data store: a sparse mapping from 16-bit address to
//! byte. Unwritten addresses read as zero; that is sparse-storage semantics,
//! not an error. Snapshots cover the low 32768 addresses.

use vstd::prelude::*;
use std::collections::HashMap;

verus! {

broadcast use vstd::std_specs::hash::group_hash_axioms;

/// Address arithmetic wraps at the end of the 16-bit address space.
pub open spec fn spec_wrap_add(a: u16, n: u16) -> u16 {
    ((a + n) % 0x10000) as u16
}

/// The byte a sparse address-to-byte mapping yields: the mapped value, or zero
/// where nothing was written.
pub open spec fn spec_read(m: Map<u16, u8>, address: u16) -> u8 {
    if m.contains_key(address) {
        m[address]
    } else {
        0
    }
}

/// A run of bytes written one at a time in ascending address order, wrapping
/// at the end of the address space; later writes win.
pub open spec fn spec_put_bytes(m: Map<u16, u8>, address: u16, value: Seq<u8>) -> Map<u16, u8>
    decreases value.len(),
{
    if value.len() == 0 {
        m
    } else {
        spec_put_bytes(m.insert(address, value[0]), spec_wrap_add(address, 1), value.skip(1))
    }
}

/// A two-byte run is exactly two single writes: the first byte at the address,
/// the second at its wrapping successor.
pub proof fn lemma_put_bytes_pair(m: Map<u16, u8>, address: u16, value: Seq<u8>)
    requires
        value.len() == 2,
    ensures
        spec_put_bytes(m, address, value) == m.insert(address, value[0]).insert(
            spec_wrap_add(address, 1),
            value[1],
        ),
{
    let m1 = m.insert(address, value[0]);
    let a1 = spec_wrap_add(address, 1);
    assert(value.skip(1)[0] == value[1]);
    assert(value.skip(1).skip(1) =~= Seq::<u8>::empty());
    assert(spec_put_bytes(m, address, value) == spec_put_bytes(m1, a1, value.skip(1)));
    assert(spec_put_bytes(m1, a1, value.skip(1)) == spec_put_bytes(
        m1.insert(a1, value[1]),
        spec_wrap_add(a1, 1),
        value.skip(1).skip(1),
    ));
}

/// The mapping a snapshot restores: index as address, for every index below
/// both the snapshot's length and 65535; all other addresses stay unwritten.
pub open spec fn spec_restore(bytes: Seq<u8>) -> Map<u16, u8> {
    Map::new(|a: u16| (a as int) < bytes.len() && a < 0xFFFF, |a: u16| bytes[a as int])
}

/// The sparse, byte-addressable data store.
pub struct DataMemory {
    data: HashMap<u16, u8>,
}

impl View for DataMemory {
    type V = Map<u16, u8>;

    closed spec fn view(&self) -> Map<u16, u8> {
        self.data@
    }
}

impl Default for DataMemory {
    /// An empty store: every address reads as zero.
    fn default() -> (r: Self)
        ensures
            r@ == Map::<u16, u8>::empty(),
    {
        DataMemory { data: HashMap::new() }
    }
}

impl DataMemory {
    /// The byte held at an address: what was last written there, or zero.
    pub open spec fn spec_get(self, address: u16) -> u8 {
        spec_read(self@, address)
    }

    /// Read one byte. An unwritten address reads as zero.
    pub fn get(&self, address: u16) -> (r: u8)
        ensures
            r == self.spec_get(address),
    {
        match self.data.get(&address) {
            Some(v) => *v,
            None => 0,
        }
    }

    /// Write one byte.
    pub fn put(&mut self, address: u16, value: u8)
        ensures
            final(self)@ == old(self)@.insert(address, value),
    {
        self.data.insert(address, value);
    }

    /// Write a contiguous run of bytes starting at `address`, one byte at a
    /// time in ascending order, wrapping at the end of the address space.
    pub fn put_bytes(&mut self, address: u16, value: &[u8])
        requires
            value@.len() <= 0x10000,
        ensures
            final(self)@ == spec_put_bytes(old(self)@, address, value@),
    {
        let mut index: usize = 0;
        let mut current: u16 = address;

        proof {
            assert(value@.skip(0) =~= value@);
        }
        while index < value.len()
            invariant
                index <= value@.len(),
                spec_put_bytes(old(self)@, address, value@) == spec_put_bytes(
                    self@,
                    current,
                    value@.skip(index as int),
                ),
            decreases value@.len() - index,
        {
            let byte = value[index];
            proof {
                assert(value@.skip(index as int)[0] == value@[index as int]);
                assert(value@.skip(index as int).skip(1) =~= value@.skip(index as int + 1));
            }
            self.data.insert(current, byte);
            current = if current == 0xFFFF {
                0
            } else {
                current + 1
            };
            index = index + 1;
        }
        proof {
            assert(value@.skip(value@.len() as int) =~= Seq::<u8>::empty());
        }
    }

    /// A snapshot of the low half of the address space: exactly 32768 bytes,
    /// byte `i` holding the value read at address `i`.
    pub fn dump(&self) -> (r: Vec<u8>)
        ensures
            r@.len() == 0x8000,
            forall|i: int| 0 <= i < 0x8000 ==> r@[i] == self.spec_get(i as u16),
    {
        let mut res: Vec<u8> = Vec::new();
        let mut i: usize = 0;
        while i < 0x8000
            invariant
                i <= 0x8000,
                res@.len() == i,
                forall|j: int| 0 <= j < i ==> res@[j] == self.spec_get(j as u16),
            decreases 0x8000 - i,
        {
            res.push(self.get(i as u16));
            i = i + 1;
        }
        res
    }

    /// Rebuild a store from a snapshot: index as address, positions beyond the
    /// snapshot (and the last address, 65535, which no snapshot covers) stay
    /// unwritten and read as zero.
    pub fn restore(dump: &[u8]) -> (r: Self)
        ensures
            r@ == spec_restore(dump@),
    {
        let mut data: HashMap<u16, u8> = HashMap::new();
        let end: usize = if dump.len() < 0xFFFF {
            dump.len()
        } else {
            0xFFFF
        };
        let mut i: usize = 0;

        proof {
            assert(data@ =~= Map::new(
                |a: u16| (a as int) < 0 && a < 0xFFFF,
                |a: u16| dump@[a as int],
            ));
        }
        while i < end
            invariant
                i <= end,
                end <= dump@.len(),
                end <= 0xFFFF,
                end == if dump@.len() < 0xFFFF {
                    dump@.len() as int
                } else {
                    0xFFFF
                },
                data@ == Map::new(
                    |a: u16| (a as int) < i && a < 0xFFFF,
                    |a: u16| dump@[a as int],
                ),
            decreases end - i,
        {
            data.insert(i as u16, dump[i]);
            i = i + 1;
            proof {
                assert(data@ =~= Map::new(
                    |a: u16| (a as int) < i && a < 0xFFFF,
                    |a: u16| dump@[a as int],
                ));
            }
        }
        proof {
            assert(Map::new(|a: u16| (a as int) < end && a < 0xFFFF, |a: u16| dump@[a as int])
                =~= spec_restore(dump@));
        }
        DataMemory { data }
    }
}

/// Restoring a snapshot of a store reproduces the store: every address the
/// snapshot covers (all of 0 through 32767) reads back unchanged.
pub proof fn lemma_snapshot_round_trip(m: DataMemory, dump: Seq<u8>)
    requires
        dump.len() == 0x8000,
        forall|i: int| 0 <= i < 0x8000 ==> dump[i] == m.spec_get(i as u16),
    ensures
        forall|a: u16| a < 0x8000 ==> spec_read(spec_restore(dump), a) == m.spec_get(a),
{
}

} // verus!
