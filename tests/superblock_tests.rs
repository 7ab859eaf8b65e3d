use ext2fs::{
    block_size_from_log, decode_superblock, group_count, locate_superblock, BlockDevice, Error,
    Ext2Fs, Ext2GroupDescriptor, SuperblockLocation, EXT2_MAGIC,
};

struct MemDevice {
    data: Vec<u8>,
    block_size: usize,
}

impl BlockDevice for MemDevice {
    fn read_blocks(&self, index: usize, num_blocks: usize) -> Vec<u8> {
        self.data
            .iter()
            .cloned()
            .skip(index * self.block_size)
            .take(self.block_size * num_blocks)
            .collect()
    }

    fn write_blocks(&mut self, _index: usize, _data: &[u8]) {}

    fn get_block_size(&self) -> usize {
        self.block_size
    }
}

fn put_u16(b: &mut [u8], at: usize, v: u16) {
    b[at..at + 2].copy_from_slice(&v.to_le_bytes());
}

fn put_u32(b: &mut [u8], at: usize, v: u32) {
    b[at..at + 4].copy_from_slice(&v.to_le_bytes());
}

/// A superblock record with 4096-byte blocks, 256 blocks and 32768 blocks per group.
fn record() -> Vec<u8> {
    let mut r = vec![0u8; 1024];
    put_u32(&mut r, 0, 64);
    put_u32(&mut r, 4, 256);
    put_u32(&mut r, 24, 2);
    put_u32(&mut r, 28, 2);
    put_u32(&mut r, 32, 32768);
    put_u32(&mut r, 36, 32768);
    put_u32(&mut r, 40, 64);
    put_u16(&mut r, 56, 0xEF53);
    put_u16(&mut r, 58, 1);
    put_u16(&mut r, 60, 1);
    put_u32(&mut r, 72, 0);
    put_u32(&mut r, 76, 1);
    put_u16(&mut r, 88, 256);
    put_u16(&mut r, 90, 0);
    for i in 0..16 {
        r[104 + i] = 0xA0 + i as u8;
        r[120 + i] = b'v';
    }
    r[136] = b'/';
    r[204] = 7;
    put_u32(&mut r, 236, 0x1234_5678);
    put_u32(&mut r, 1020, 0xDEAD_BEEF);
    r
}

/// A volume of 256 blocks of 4096 bytes whose superblock is `rec`.
fn image_with(rec: &[u8]) -> Vec<u8> {
    let mut img = vec![0u8; 256 * 4096];
    img[1024..2048].copy_from_slice(rec);
    img
}

fn device(block_size: usize) -> MemDevice {
    MemDevice { data: image_with(&record()), block_size }
}

#[test]
fn read_superblock() {
    let dev = device(1024);
    let mut ext2fs = Ext2Fs::new(dev);

    ext2fs.initialize().unwrap();
    let superblock = ext2fs.superblock().unwrap();
    assert_eq!(superblock.s_magic, 0xEF53);
    assert_eq!(superblock.s_creator_os, 0);
    assert_eq!(superblock.s_state, 1);
    assert_eq!(superblock.s_blocks_per_group, 32768);
    assert_eq!(superblock.s_log_block_size, 2);
    assert_eq!(superblock.s_block_group_nr, 0);

    assert_eq!(ext2fs.block_size(), 4096);
    assert_eq!(ext2fs.num_block_groups(), 1);
    assert_eq!(ext2fs.num_blocks(), 256);
}

#[test]
fn initialize_with_other_device_block_sizes() {
    for bs in [512usize, 1536, 2048, 4096, 8192] {
        let mut fs = Ext2Fs::new(device(bs));
        assert_eq!(fs.initialize(), Ok(()));
        assert_eq!(fs.block_size(), 4096);
        assert_eq!(fs.num_block_groups(), 1);
        assert_eq!(fs.num_blocks(), 256);
        assert_eq!(fs.superblock().unwrap().s_magic, EXT2_MAGIC);
    }
}

#[test]
fn accessors_before_initialize() {
    let fs = Ext2Fs::new(device(1024));
    assert_eq!(fs.block_size(), 1024);
    assert_eq!(fs.num_block_groups(), 0);
    assert_eq!(fs.num_blocks(), 0);
    assert!(fs.superblock().is_none());
}

#[test]
fn wrong_magic_is_no_filesystem() {
    let mut rec = record();
    put_u16(&mut rec, 56, 0xEF54);
    let mut fs = Ext2Fs::new(MemDevice { data: image_with(&rec), block_size: 1024 });
    assert_eq!(fs.initialize(), Err(Error::NoFilesystemFound));
    assert_eq!(fs.block_size(), 1024);
    assert_eq!(fs.num_block_groups(), 0);
    assert_eq!(fs.num_blocks(), 0);
    assert!(fs.superblock().is_none());
}

#[test]
fn zero_blocks_per_group_is_no_filesystem() {
    let mut rec = record();
    put_u32(&mut rec, 32, 0);
    let mut fs = Ext2Fs::new(MemDevice { data: image_with(&rec), block_size: 1024 });
    assert_eq!(fs.initialize(), Err(Error::NoFilesystemFound));
    assert!(fs.superblock().is_none());
    assert_eq!(fs.num_block_groups(), 0);
}

#[test]
fn huge_block_size_shift_is_no_filesystem() {
    let mut rec = record();
    put_u32(&mut rec, 24, 60);
    let mut fs = Ext2Fs::new(MemDevice { data: image_with(&rec), block_size: 1024 });
    assert_eq!(fs.initialize(), Err(Error::NoFilesystemFound));
    assert_eq!(fs.block_size(), 1024);
}

#[test]
fn short_device_is_no_filesystem() {
    let mut fs = Ext2Fs::new(MemDevice { data: vec![0u8; 1500], block_size: 1024 });
    assert_eq!(fs.initialize(), Err(Error::NoFilesystemFound));
}

#[test]
fn zero_device_block_size_is_no_filesystem() {
    let mut fs = Ext2Fs::new(device(0));
    assert_eq!(fs.initialize(), Err(Error::NoFilesystemFound));
}

#[test]
fn initialize_twice_gives_same_values() {
    let mut fs = Ext2Fs::new(device(2048));
    assert_eq!(fs.initialize(), Ok(()));
    let first = fs.superblock().unwrap();
    let geometry = (fs.block_size(), fs.num_block_groups(), fs.num_blocks());
    assert_eq!(fs.initialize(), Ok(()));
    let second = fs.superblock().unwrap();
    assert_eq!(geometry, (fs.block_size(), fs.num_block_groups(), fs.num_blocks()));
    assert_eq!(first.s_blocks_count, second.s_blocks_count);
    assert_eq!(first.s_uuid, second.s_uuid);
    assert_eq!(first.s_reserved, second.s_reserved);
    assert_eq!(first.s_hash_seed, second.s_hash_seed);
}

#[test]
fn decode_reads_every_kind_of_field() {
    let mut buf = vec![0xFFu8; 3];
    buf.extend_from_slice(&record());
    let sb = decode_superblock(&buf, 3).ok().unwrap();
    assert_eq!(sb.s_inodes_count, 64);
    assert_eq!(sb.s_blocks_count, 256);
    assert_eq!(sb.s_log_block_size, 2);
    assert_eq!(sb.s_magic, 0xEF53);
    assert_eq!(sb.s_errors, 1);
    assert_eq!(sb.s_rev_level, 1);
    assert_eq!(sb.s_inode_size, 256);
    assert_eq!(sb.s_uuid[0], 0xA0);
    assert_eq!(sb.s_uuid[15], 0xAF);
    assert_eq!(sb.s_volume_name, [b'v'; 16]);
    assert_eq!(sb.s_last_mounted[0], b'/');
    assert_eq!(sb.s_last_mounted[1], 0);
    assert_eq!(sb.s_prealloc_blocks, 7);
    assert_eq!(sb.s_hash_seed, [0x1234_5678, 0, 0, 0]);
    assert_eq!(sb.s_reserved[189], 0xDEAD_BEEF);
    assert_eq!(sb.s_reserved[0], 0);
}

#[test]
fn decode_negative_shift() {
    let mut rec = record();
    put_u32(&mut rec, 24, (-1i32) as u32);
    let sb = decode_superblock(&rec, 0).ok().unwrap();
    assert_eq!(sb.s_log_block_size, -1);
}

#[test]
fn decode_rejects_other_magic() {
    let mut rec = record();
    put_u16(&mut rec, 56, 0x53EF);
    assert!(matches!(decode_superblock(&rec, 0), Err(Error::NoFilesystemFound)));
    put_u16(&mut rec, 56, 0);
    assert!(matches!(decode_superblock(&rec, 0), Err(Error::NoFilesystemFound)));
}

#[test]
fn locate_for_common_block_sizes() {
    let cases = [
        (512, 2, 0, 2),
        (1024, 1, 0, 1),
        (1536, 0, 1024, 2),
        (2048, 0, 1024, 1),
        (4096, 0, 1024, 1),
        (256, 4, 0, 4),
        (1000, 1, 24, 2),
        (1, 1024, 0, 1024),
    ];
    for (bs, index, offset, block_count) in cases {
        assert_eq!(locate_superblock(bs), SuperblockLocation { index, offset, block_count });
    }
}

#[test]
fn located_blocks_cover_superblock() {
    for bs in [1usize, 2, 128, 256, 512, 1024, 2048, 4096, 65536] {
        let loc = locate_superblock(bs);
        assert_eq!(loc.index * bs + loc.offset, 1024);
        assert!(loc.index * bs + loc.offset + 1024 <= (loc.index + loc.block_count) * bs);
    }
}

#[test]
fn block_size_from_shift() {
    assert_eq!(block_size_from_log(2), Ok(4096));
    assert_eq!(block_size_from_log(0), Ok(1024));
    assert_eq!(block_size_from_log(-1), Ok(512));
    assert_eq!(block_size_from_log(6), Ok(65536));
    assert_eq!(block_size_from_log(-10), Ok(1));
    assert_eq!(block_size_from_log(-11), Ok(0));
    assert_eq!(block_size_from_log(-63), Ok(0));
    assert_eq!(block_size_from_log(-64), Err(Error::NoFilesystemFound));
    assert_eq!(block_size_from_log(i32::MIN), Err(Error::NoFilesystemFound));
    assert_eq!(block_size_from_log(54), Err(Error::NoFilesystemFound));
    assert_eq!(block_size_from_log(i32::MAX), Err(Error::NoFilesystemFound));
}

#[test]
fn block_group_count_is_ceiling() {
    assert_eq!(group_count(256, 32768), Ok(1));
    assert_eq!(group_count(65537, 32768), Ok(3));
    assert_eq!(group_count(65536, 32768), Ok(2));
    assert_eq!(group_count(0, 32768), Ok(0));
    assert_eq!(group_count(u32::MAX, 1), Ok(u32::MAX as usize));
    assert_eq!(group_count(u32::MAX, 2), Ok(1 << 31));
    assert_eq!(group_count(10, 0), Err(Error::NoFilesystemFound));
}

#[test]
fn many_block_groups_from_image() {
    let mut rec = record();
    put_u32(&mut rec, 4, 65537);
    let mut fs = Ext2Fs::new(MemDevice { data: image_with(&rec), block_size: 4096 });
    assert_eq!(fs.initialize(), Ok(()));
    assert_eq!(fs.num_block_groups(), 3);
    assert_eq!(fs.num_blocks(), 65537);
}

#[test]
fn group_descriptor_default_is_zero() {
    let d = Ext2GroupDescriptor::default();
    assert_eq!(d.bg_block_bitmap, 0);
    assert_eq!(d.bg_inode_table, 0);
    assert_eq!(d.bg_free_blocks_count, 0);
    assert_eq!(d.bg_checksum, 0);
}

#[test]
fn initialize_from_located_blocks() {
    let mut fs = Ext2Fs::new(device(1024));
    let rec = record();
    assert_eq!(fs.initialize_from_blocks(1024, &rec), Ok(()));
    assert_eq!(fs.block_size(), 4096);
    assert_eq!(fs.num_block_groups(), 1);
    assert_eq!(fs.num_blocks(), 256);

    let mut block = vec![0u8; 1024];
    block.extend_from_slice(&rec);
    let mut fs = Ext2Fs::new(device(1024));
    assert_eq!(fs.initialize_from_blocks(4096, &block), Ok(()));
    assert_eq!(fs.superblock().unwrap().s_blocks_per_group, 32768);
}

#[test]
fn initialize_from_blocks_twice_gives_same_values() {
    let mut rec = record();
    put_u32(&mut rec, 24, (-1i32) as u32);
    let mut fs = Ext2Fs::new(device(1024));
    assert_eq!(fs.initialize_from_blocks(1024, &rec), Ok(()));
    assert_eq!(fs.block_size(), 512);
    let first = fs.superblock().unwrap();
    assert_eq!(fs.initialize_from_blocks(1024, &rec), Ok(()));
    let second = fs.superblock().unwrap();
    assert_eq!(fs.block_size(), 512);
    assert_eq!(first.s_last_mounted, second.s_last_mounted);
    assert_eq!(first.s_reserved, second.s_reserved);
}

#[test]
fn initialize_from_too_few_bytes_changes_nothing() {
    let mut fs = Ext2Fs::new(device(1024));
    assert_eq!(fs.initialize_from_blocks(1024, &record()[..1023]), Err(Error::NoFilesystemFound));
    assert_eq!(fs.initialize_from_blocks(0, &record()), Err(Error::NoFilesystemFound));
    assert!(fs.superblock().is_none());
    assert_eq!(fs.block_size(), 1024);
}
