use vstd::prelude::*;
use vstd::arithmetic::div_mod::{lemma_fundamental_div_mod, lemma_mod_bound};

verus! {

/// Why a block access was refused.
#[derive(Debug, Clone, Copy, PartialEq, Eq)]
pub enum RamDiskError {
    /// The block index lies beyond the last whole block.
    OutOfRange,
    /// The caller's buffer is shorter than one block.
    Misaligned,
}

/// A RAM-backed block store: a flat byte array served in fixed-size blocks.
/// Only whole blocks are read or written; trailing bytes that do not fill a
/// block are never addressable.
pub struct RamDisk {
    storage: Vec<u8>,
    block_size: usize,
    blocks: usize,
}

impl RamDisk {
    /// The backing bytes.
    pub closed spec fn contents(self) -> Seq<u8> {
        self.storage@
    }

    /// The fixed size of one block, in bytes.
    pub closed spec fn block_size_spec(self) -> int {
        self.block_size as int
    }

    /// How many whole blocks the backing array holds.
    pub closed spec fn blocks_spec(self) -> int {
        self.blocks as int
    }

    /// Well-formedness: a positive block size, and the block count derived
    /// from the backing array's length.
    pub open spec fn wf(self) -> bool {
        &&& self.block_size_spec() >= 1
        &&& self.blocks_spec() == self.contents().len() as int / self.block_size_spec()
    }

    /// Build a RAM disk over `storage`, serving blocks of `block_size` bytes.
    pub fn new(storage: Vec<u8>, block_size: usize) -> (disk: Self)
        requires
            block_size >= 1,
        ensures
            disk.wf(),
            disk.contents() == storage@,
            disk.block_size_spec() == block_size as int,
    {
        let blocks = storage.len() / block_size;
        RamDisk { storage, block_size, blocks }
    }

    /// Copy block `block_id` into the front of `buf`, leaving the rest of
    /// `buf` as it was. Fails without touching `buf` when the index is out of
    /// range or `buf` is shorter than one block.
    pub fn read_block(&self, block_id: usize, buf: &mut Vec<u8>) -> (r: Result<(), RamDiskError>)
        requires
            self.wf(),
        ensures
            block_id as int >= self.blocks_spec() ==> r == Err::<(), RamDiskError>(
                RamDiskError::OutOfRange,
            ) && final(buf)@ == old(buf)@,
            (block_id as int) < self.blocks_spec() && old(buf)@.len() < self.block_size_spec()
                ==> r == Err::<(), RamDiskError>(RamDiskError::Misaligned) && final(buf)@ == old(
                buf,
            )@,
            (block_id as int) < self.blocks_spec() && old(buf)@.len() >= self.block_size_spec() ==> {
                &&& r == Ok::<(), RamDiskError>(())
                &&& final(buf)@.len() == old(buf)@.len()
                &&& forall|j: int|
                    0 <= j < self.block_size_spec() ==> final(buf)@[j] == self.contents()[block_id
                        * self.block_size_spec() + j]
                &&& forall|j: int|
                    self.block_size_spec() <= j < old(buf)@.len() ==> final(buf)@[j] == old(
                        buf,
                    )@[j]
            },
    {
        if block_id >= self.blocks {
            return Err(RamDiskError::OutOfRange);
        }
        if buf.len() < self.block_size {
            return Err(RamDiskError::Misaligned);
        }
        let total = self.storage.len();
        proof {
            lemma_block_in_range(
                total as int,
                self.block_size_spec(),
                self.blocks_spec(),
                block_id as int,
            );
        }
        let start = block_id * self.block_size;
        let mut i: usize = 0;
        while i < self.block_size
            invariant
                i <= self.block_size,
                start == block_id as int * self.block_size_spec(),
                start + self.block_size_spec() <= self.contents().len(),
                start + self.block_size_spec() <= usize::MAX as int,
                self.block_size_spec() <= buf@.len(),
                buf@.len() == old(buf)@.len(),
                forall|j: int| 0 <= j < i ==> buf@[j] == self.contents()[start + j],
                forall|j: int| i <= j < buf@.len() ==> buf@[j] == old(buf)@[j],
            decreases self.block_size - i,
        {
            buf[i] = self.storage[start + i];
            i = i + 1;
        }
        Ok(())
    }

    /// Overwrite block `block_id` with the front of `data`, leaving every
    /// other byte of the store as it was. Fails without touching the store
    /// when the index is out of range or `data` is shorter than one block.
    pub fn write_block(&mut self, block_id: usize, data: &Vec<u8>) -> (r: Result<
        (),
        RamDiskError,
    >)
        requires
            old(self).wf(),
        ensures
            final(self).wf(),
            final(self).block_size_spec() == old(self).block_size_spec(),
            final(self).blocks_spec() == old(self).blocks_spec(),
            final(self).contents().len() == old(self).contents().len(),
            block_id as int >= old(self).blocks_spec() ==> r == Err::<(), RamDiskError>(
                RamDiskError::OutOfRange,
            ) && final(self).contents() == old(self).contents(),
            (block_id as int) < old(self).blocks_spec() && data@.len() < old(self).block_size_spec()
                ==> r == Err::<(), RamDiskError>(RamDiskError::Misaligned) && final(self).contents()
                == old(self).contents(),
            (block_id as int) < old(self).blocks_spec() && data@.len() >= old(
                self,
            ).block_size_spec() ==> {
                &&& r == Ok::<(), RamDiskError>(())
                &&& forall|j: int|
                    0 <= j < old(self).block_size_spec() ==> final(self).contents()[block_id * old(
                        self,
                    ).block_size_spec() + j] == data@[j]
                &&& forall|j: int|
                    0 <= j < old(self).contents().len() && !(block_id * old(
                        self,
                    ).block_size_spec() <= j < block_id * old(self).block_size_spec() + old(
                        self,
                    ).block_size_spec()) ==> final(self).contents()[j] == old(self).contents()[j]
            },
    {
        if block_id >= self.blocks {
            return Err(RamDiskError::OutOfRange);
        }
        if data.len() < self.block_size {
            return Err(RamDiskError::Misaligned);
        }
        let total = self.storage.len();
        proof {
            lemma_block_in_range(
                total as int,
                self.block_size_spec(),
                self.blocks_spec(),
                block_id as int,
            );
        }
        let start = block_id * self.block_size;
        let mut i: usize = 0;
        while i < self.block_size
            invariant
                i <= self.block_size,
                start == block_id as int * self.block_size_spec(),
                start + self.block_size_spec() <= self.contents().len(),
                start + self.block_size_spec() <= usize::MAX as int,
                self.block_size_spec() <= data@.len(),
                self.block_size == old(self).block_size,
                self.blocks == old(self).blocks,
                self.contents().len() == old(self).contents().len(),
                forall|j: int| 0 <= j < i ==> self.contents()[start + j] == data@[j],
                forall|j: int|
                    0 <= j < self.contents().len() && !(start <= j < start + i)
                        ==> self.contents()[j] == old(self).contents()[j],
            decreases self.block_size - i,
        {
            self.storage[start + i] = data[i];
            i = i + 1;
        }
        Ok(())
    }

    /// Copy as much of `data` as fits over the front of the backing array,
    /// leaving the tail (if any) as it was.
    pub fn fill_from_bytes(&mut self, data: &Vec<u8>)
        requires
            old(self).wf(),
        ensures
            final(self).wf(),
            final(self).block_size_spec() == old(self).block_size_spec(),
            final(self).blocks_spec() == old(self).blocks_spec(),
            final(self).contents().len() == old(self).contents().len(),
            forall|j: int|
                0 <= j < old(self).contents().len() && j < data@.len() ==> final(self).contents()[j] == data@[j],
            forall|j: int|
                data@.len() <= j < old(self).contents().len() ==> final(self).contents()[j] == old(
                    self,
                ).contents()[j],
    {
        let n = if self.storage.len() < data.len() {
            self.storage.len()
        } else {
            data.len()
        };
        let mut i: usize = 0;
        while i < n
            invariant
                i <= n,
                n <= self.contents().len(),
                n <= data@.len(),
                n == if old(self).contents().len() < data@.len() {
                    old(self).contents().len()
                } else {
                    data@.len()
                },
                self.block_size == old(self).block_size,
                self.blocks == old(self).blocks,
                self.contents().len() == old(self).contents().len(),
                forall|j: int| 0 <= j < i ==> self.contents()[j] == data@[j],
                forall|j: int|
                    i <= j < self.contents().len() ==> self.contents()[j] == old(
                        self,
                    ).contents()[j],
            decreases n - i,
        {
            self.storage[i] = data[i];
            i = i + 1;
        }
    }

    /// The fixed block size in bytes.
    pub fn block_size(&self) -> (n: usize)
        ensures
            n as int == self.block_size_spec(),
    {
        self.block_size
    }

    /// How many whole blocks this disk serves.
    pub fn block_count(&self) -> (n: usize)
        ensures
            n as int == self.blocks_spec(),
    {
        self.blocks
    }
}

/// For a valid block index, the block's byte range lies inside the backing
/// array.
proof fn lemma_block_in_range(len: int, bs: int, blocks: int, block_id: int)
    requires
        bs >= 1,
        len >= 0,
        blocks == len / bs,
        0 <= block_id < blocks,
    ensures
        0 <= block_id * bs,
        block_id * bs + bs <= len,
{
    lemma_fundamental_div_mod(len, bs);
    lemma_mod_bound(len, bs);
    assert(blocks * bs <= len) by (nonlinear_arith)
        requires
            len == bs * blocks + len % bs,
            len % bs >= 0,
    ;
    assert(block_id * bs + bs <= blocks * bs) by (nonlinear_arith)
        requires
            block_id < blocks,
            bs >= 1,
    ;
    assert(0 <= block_id * bs) by (nonlinear_arith)
        requires
            block_id >= 0,
            bs >= 1,
    ;
}

/// The backing store behind the generic sector interface: sector index and
/// size map one-for-one onto RAM-disk blocks, and every failure is collapsed
/// into the interface's unit error.
pub struct RamDiskDevice {
    ramdisk: RamDisk,
}

impl RamDiskDevice {
    /// The wrapped disk.
    pub closed spec fn disk(self) -> RamDisk {
        self.ramdisk
    }

    pub fn new(ramdisk: RamDisk) -> (dev: Self)
        ensures
            dev.disk() == ramdisk,
    {
        RamDiskDevice { ramdisk }
    }

    /// Read one sector; any refusal of the underlying disk (index out of
    /// range, short buffer) becomes the unit error.
    pub fn read_sector(&self, lba: u64, buf: &mut Vec<u8>) -> (r: Result<(), ()>)
        requires
            self.disk().wf(),
        ensures
            r is Ok <==> (lba as int) < self.disk().blocks_spec() && old(buf)@.len()
                >= self.disk().block_size_spec(),
            r is Err ==> final(buf)@ == old(buf)@,
            r is Ok ==> {
                &&& final(buf)@.len() == old(buf)@.len()
                &&& forall|j: int|
                    0 <= j < self.disk().block_size_spec() ==> final(buf)@[j]
                        == self.disk().contents()[lba as int * self.disk().block_size_spec() + j]
                &&& forall|j: int|
                    self.disk().block_size_spec() <= j < old(buf)@.len() ==> final(buf)@[j] == old(
                        buf,
                    )@[j]
            },
    {
        if lba > usize::MAX as u64 {
            return Err(());
        }
        match self.ramdisk.read_block(lba as usize, buf) {
            Ok(()) => Ok(()),
            Err(_) => Err(()),
        }
    }

    /// Write one sector; any refusal of the underlying disk becomes the unit
    /// error.
    pub fn write_sector(&mut self, lba: u64, data: &Vec<u8>) -> (r: Result<(), ()>)
        requires
            old(self).disk().wf(),
        ensures
            final(self).disk().wf(),
            final(self).disk().block_size_spec() == old(self).disk().block_size_spec(),
            final(self).disk().blocks_spec() == old(self).disk().blocks_spec(),
            final(self).disk().contents().len() == old(self).disk().contents().len(),
            r is Ok <==> (lba as int) < old(self).disk().blocks_spec() && data@.len() >= old(
                self,
            ).disk().block_size_spec(),
            r is Err ==> final(self).disk().contents() == old(self).disk().contents(),
            r is Ok ==> {
                &&& forall|j: int|
                    0 <= j < old(self).disk().block_size_spec() ==> final(self).disk().contents()[lba as int * old(self).disk().block_size_spec() + j]
                        == data@[j]
                &&& forall|j: int|
                    0 <= j < old(self).disk().contents().len() && !(lba as int * old(
                        self,
                    ).disk().block_size_spec() <= j < lba as int * old(self).disk().block_size_spec()
                        + old(self).disk().block_size_spec()) ==> final(self).disk().contents()[j]
                        == old(self).disk().contents()[j]
            },
    {
        if lba > usize::MAX as u64 {
            return Err(());
        }
        match self.ramdisk.write_block(lba as usize, data) {
            Ok(()) => Ok(()),
            Err(_) => Err(()),
        }
    }

    /// The fixed sector size in bytes.
    pub fn sector_size(&self) -> (n: usize)
        ensures
            n as int == self.disk().block_size_spec(),
    {
        self.ramdisk.block_size()
    }
}

/// A zero-filled RAM disk of `size` bytes with the conventional 512-byte
/// sector.
pub fn create_ramdisk(size: usize) -> (disk: RamDisk)
    ensures
        disk.wf(),
        disk.block_size_spec() == 512,
        disk.contents().len() == size as int,
        forall|j: int| 0 <= j < size as int ==> disk.contents()[j] == 0u8,
{
    let mut storage: Vec<u8> = Vec::new();
    let mut i: usize = 0;
    while i < size
        invariant
            i <= size,
            storage@.len() == i as int,
            forall|j: int| 0 <= j < i ==> storage@[j] == 0u8,
        decreases size - i,
    {
        storage.push(0u8);
        i = i + 1;
    }
    RamDisk::new(storage, 512)
}

} // verus!
