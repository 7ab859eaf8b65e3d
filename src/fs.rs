use crate::geometry::{
    block_size_from_log, ceil_div, group_count, locate_superblock, spec_block_size, spec_location,
    DEFAULT_BLOCK_SIZE,
};
use crate::superblock::{
    decode_superblock, has_magic, le_u32, superblock_fields, Error, Ext2GroupDescriptor,
    lemma_superblock_fields_unique, Ext2SuperBlock, SUPERBLOCK_SIZE,
};
use vstd::prelude::*;

verus! {

/// A device that reads and writes in blocks of a fixed size.
pub trait BlockDevice {
    /// Reads `num_blocks` consecutive blocks, starting at block `index`.
    fn read_blocks(&self, index: usize, num_blocks: usize) -> Vec<u8>;

    /// Writes `data` to the device, starting at block `index`.
    fn write_blocks(&mut self, index: usize, data: &[u8]);

    /// Returns the block size of the device.
    fn get_block_size(&self) -> usize;
}

/// The state of a filesystem context that its accessors report.
pub struct Ext2FsView {
    /// The decoded superblock, once initialization succeeded.
    pub superblock: Option<Ext2SuperBlock>,
    /// The effective filesystem block size.
    pub block_size: usize,
    /// The number of block groups.
    pub num_block_groups: usize,
}

/// The superblock record inside the bytes `data` read from the located blocks of a device with
/// block size `bs`.
pub open spec fn located_record(bs: usize, data: Seq<u8>) -> Seq<u8> {
    let off = spec_location(bs).offset as int;
    data.subrange(off, off + SUPERBLOCK_SIZE)
}

/// The stored block size shift of the record `rec`.
pub open spec fn record_log_block_size(rec: Seq<u8>) -> i32 {
    le_u32(rec, 24) as i32
}

/// The stored block count of the record `rec`.
pub open spec fn record_blocks_count(rec: Seq<u8>) -> u32 {
    le_u32(rec, 4)
}

/// The stored number of blocks per group of the record `rec`.
pub open spec fn record_blocks_per_group(rec: Seq<u8>) -> u32 {
    le_u32(rec, 32)
}

/// Initialization succeeds over a device with block size `bs` whose located blocks read `data`:
/// the blocks hold a whole superblock, with the magic signature, a usable block size shift and
/// a non-zero group size.
pub open spec fn initialization_succeeds(bs: usize, data: Seq<u8>) -> bool {
    &&& bs > 0
    &&& spec_location(bs).offset + SUPERBLOCK_SIZE <= data.len()
    &&& has_magic(located_record(bs, data))
    &&& -64 < record_log_block_size(located_record(bs, data))
    &&& spec_block_size(record_log_block_size(located_record(bs, data))) <= usize::MAX
    &&& record_blocks_per_group(located_record(bs, data)) > 0
}

/// What initializing over a device with block size `bs`, whose located blocks read `data`, does:
/// it leaves the device as it was, and either stores the decoded superblock and the geometry
/// derived from it, or fails with `NoFilesystemFound` and changes nothing.
pub open spec fn initialize_post<T: BlockDevice>(
    before: Ext2Fs<T>,
    after: Ext2Fs<T>,
    r: Result<(), Error>,
    bs: usize,
    data: Seq<u8>,
) -> bool {
    let rec = located_record(bs, data);
    &&& after.device() == before.device()
    &&& r is Ok <==> initialization_succeeds(bs, data)
    &&& r is Ok ==> {
        &&& after@.superblock is Some
        &&& superblock_fields(after@.superblock->Some_0, rec)
        &&& after@.block_size == spec_block_size(record_log_block_size(rec))
        &&& after@.num_block_groups == ceil_div(
            record_blocks_count(rec) as int,
            record_blocks_per_group(rec) as int,
        )
    }
    &&& r is Err ==> r == Err::<(), Error>(Error::NoFilesystemFound) && after@ == before@
}

/// Initializing twice over a device that was not modified in between, so that it reports the
/// same block size and reads the same bytes, gives the same outcome and the same decoded values
/// both times.
pub proof fn lemma_initialize_idempotent<T: BlockDevice>(
    s0: Ext2Fs<T>,
    s1: Ext2Fs<T>,
    r1: Result<(), Error>,
    s2: Ext2Fs<T>,
    r2: Result<(), Error>,
    bs: usize,
    data: Seq<u8>,
)
    requires
        initialize_post(s0, s1, r1, bs, data),
        initialize_post(s1, s2, r2, bs, data),
    ensures
        r1 == r2,
        s2@ == s1@,
{
    let rec = located_record(bs, data);
    if r1 is Ok {
        lemma_superblock_fields_unique(s1@.superblock->Some_0, s2@.superblock->Some_0, rec);
        assert(r1->Ok_0 == r2->Ok_0);
    }
}

/// An ext2 filesystem over a block device.
pub struct Ext2Fs<T: BlockDevice> {
    device: T,
    superblock: Option<Ext2SuperBlock>,
    cached_group_descriptor: Ext2GroupDescriptor,
    block_size: usize,
    num_block_groups: usize,
}

impl<T: BlockDevice> View for Ext2Fs<T> {
    type V = Ext2FsView;

    closed spec fn view(&self) -> Ext2FsView {
        Ext2FsView {
            superblock: self.superblock,
            block_size: self.block_size,
            num_block_groups: self.num_block_groups,
        }
    }
}

impl<T: BlockDevice> Ext2Fs<T> {
    /// The underlying device.
    pub closed spec fn device(&self) -> T {
        self.device
    }

    /// Creates an uninitialized filesystem that owns `device`.
    pub fn new(device: T) -> (r: Self)
        ensures
            r.device() == device,
            r@.superblock is None,
            r@.block_size == DEFAULT_BLOCK_SIZE,
            r@.num_block_groups == 0,
    {
        Ext2Fs {
            device,
            superblock: None,
            cached_group_descriptor: Ext2GroupDescriptor::default(),
            block_size: DEFAULT_BLOCK_SIZE,
            num_block_groups: 0,
        }
    }

    /// Reads the superblock from the device, checks it and derives the filesystem geometry.
    /// The outcome is that of `initialize_from_blocks` on the block size that the device reports
    /// and the bytes that it reads from the blocks that hold the superblock.
    pub fn initialize(&mut self) -> (r: Result<(), Error>)
        ensures
            exists|bs: usize, data: Seq<u8>| initialize_post(*old(self), *final(self), r, bs, data),
    {
        let bs = self.device.get_block_size();
        if bs == 0 {
            let r = Err(Error::NoFilesystemFound);
            assert(initialize_post(*old(self), *self, r, bs, Seq::empty()));
            return r;
        }
        let loc = locate_superblock(bs);
        let data = self.device.read_blocks(loc.index, loc.block_count);
        let r = self.initialize_from_blocks(bs, data.as_slice());
        assert(initialize_post(*old(self), *self, r, bs, data@));
        r
    }

    /// Decodes the superblock from `data`, the bytes of the blocks that `locate_superblock`
    /// gives for a device with blocks of `bs` bytes, checks it and derives the filesystem
    /// geometry. On failure nothing changes.
    pub fn initialize_from_blocks(&mut self, bs: usize, data: &[u8]) -> (r: Result<(), Error>)
        ensures
            initialize_post(*old(self), *final(self), r, bs, data@),
    {
        if bs == 0 {
            return Err(Error::NoFilesystemFound);
        }
        let loc = locate_superblock(bs);
        if data.len() < loc.offset + SUPERBLOCK_SIZE {
            return Err(Error::NoFilesystemFound);
        }
        let sb = match decode_superblock(data, loc.offset) {
            Ok(sb) => sb,
            Err(e) => return Err(e),
        };
        let block_size = match block_size_from_log(sb.s_log_block_size) {
            Ok(v) => v,
            Err(e) => return Err(e),
        };
        let num_block_groups = match group_count(sb.s_blocks_count, sb.s_blocks_per_group) {
            Ok(v) => v,
            Err(e) => return Err(e),
        };
        self.superblock = Some(sb);
        self.block_size = block_size;
        self.num_block_groups = num_block_groups;
        Ok(())
    }

    /// The effective filesystem block size; the default of 1024 before initialization.
    pub fn block_size(&self) -> (r: usize)
        ensures
            r == self@.block_size,
    {
        self.block_size
    }

    /// The number of block groups; zero before initialization.
    pub fn num_block_groups(&self) -> (r: usize)
        ensures
            r == self@.num_block_groups,
    {
        self.num_block_groups
    }

    /// The total number of filesystem blocks; zero before initialization.
    pub fn num_blocks(&self) -> (r: usize)
        ensures
            r == (match self@.superblock {
                Some(sb) => sb.s_blocks_count as int,
                None => 0,
            }),
    {
        match &self.superblock {
            Some(sb) => sb.s_blocks_count as usize,
            None => 0,
        }
    }

    /// The decoded superblock, once initialization succeeded.
    pub fn superblock(&self) -> (r: Option<Ext2SuperBlock>)
        ensures
            r == self@.superblock,
    {
        self.superblock
    }
}

} // verus!
