use vstd::array::axiom_array_ext_equal;
use vstd::prelude::*;
use vstd::slice::slice_subrange;

verus! {

/// The little-endian 16-bit value stored at byte `i` of `b`.
pub open spec fn le_u16(b: Seq<u8>, i: int) -> u16 {
    (b[i] as int + b[i + 1] as int * 0x100) as u16
}

/// The little-endian 32-bit value stored at byte `i` of `b`.
pub open spec fn le_u32(b: Seq<u8>, i: int) -> u32 {
    (b[i] as int + b[i + 1] as int * 0x100 + b[i + 2] as int * 0x1_0000 + b[i + 3] as int
        * 0x100_0000) as u32
}

fn read_u16(b: &[u8], i: usize) -> (r: u16)
    requires
        i + 2 <= b@.len(),
    ensures
        r == le_u16(b@, i as int),
{
    b[i] as u16 + b[i + 1] as u16 * 0x100
}

fn read_u32(b: &[u8], i: usize) -> (r: u32)
    requires
        i + 4 <= b@.len(),
    ensures
        r == le_u32(b@, i as int),
{
    b[i] as u32 + b[i + 1] as u32 * 0x100 + b[i + 2] as u32 * 0x1_0000 + b[i + 3] as u32
        * 0x100_0000
}

fn read_u8_array<const N: usize>(b: &[u8], i: usize) -> (r: [u8; N])
    requires
        i + N <= b@.len(),
    ensures
        r@ == b@.subrange(i as int, i + N),
{
    let mut r = [0u8; N];
    let n = b.len();
    let mut k: usize = 0;
    while k < N
        invariant
            n == b@.len(),
            i + N <= b@.len(),
            k <= N,
            r@.len() == N,
            forall|j: int| 0 <= j < k ==> r@[j] == b@[i + j],
        decreases N - k,
    {
        r[k] = b[i + k];
        k += 1;
    }
    assert(r@ =~= b@.subrange(i as int, i + N));
    r
}

fn read_u32_array<const N: usize>(b: &[u8], i: usize) -> (r: [u32; N])
    requires
        i + 4 * N <= b@.len(),
    ensures
        forall|j: int| 0 <= j < N ==> #[trigger] r@[j] == le_u32(b@, i + 4 * j),
{
    let mut r = [0u32; N];
    let n = b.len();
    let mut k: usize = 0;
    while k < N
        invariant
            n == b@.len(),
            i + 4 * N <= b@.len(),
            k <= N,
            r@.len() == N,
            forall|j: int| 0 <= j < k ==> #[trigger] r@[j] == le_u32(b@, i + 4 * j),
        decreases N - k,
    {
        assert(i + 4 * k + 4 <= i + 4 * N) by (nonlinear_arith)
            requires
                k < N,
        ;
        r[k] = read_u32(b, i + 4 * k);
        k += 1;
    }
    r
}


/// Size in bytes of the on-disk superblock record.
pub const SUPERBLOCK_SIZE: usize = 1024;

/// Byte offset of the magic signature inside the superblock record.
pub const MAGIC_OFFSET: usize = 56;

/// The magic signature of an ext2-family filesystem.
pub const EXT2_MAGIC: u16 = 0xEF53;

/// The ext2 superblock, decoded field by field from its little-endian layout.
#[derive(Clone, Copy)]
pub struct Ext2SuperBlock {
    /// Inodes count.
    pub s_inodes_count: u32,
    /// Blocks count.
    pub s_blocks_count: u32,
    /// Reserved blocks count.
    pub s_r_blocks_count: u32,
    /// Free blocks count.
    pub s_free_blocks_count: u32,
    /// Free inodes count.
    pub s_free_inodes_count: u32,
    /// First data block.
    pub s_first_data_block: u32,
    /// Block size, as a shift of 1024.
    pub s_log_block_size: i32,
    /// Fragment size.
    pub s_log_frag_size: u32,
    /// Blocks per group.
    pub s_blocks_per_group: u32,
    /// Fragments per group.
    pub s_frags_per_group: u32,
    /// Inodes per group.
    pub s_inodes_per_group: u32,
    /// Mount time.
    pub s_mtime: u32,
    /// Write time.
    pub s_wtime: u32,
    /// Mount count.
    pub s_mnt_count: u16,
    /// Maximal mount count.
    pub s_max_mnt_count: u16,
    /// Magic signature.
    pub s_magic: u16,
    /// File system state.
    pub s_state: u16,
    /// Behaviour when detecting errors.
    pub s_errors: u16,
    /// Minor revision level.
    pub s_minor_rev_level: u16,
    /// Time of last check.
    pub s_lastcheck: u32,
    /// Maximal time between checks.
    pub s_checkinterval: u32,
    /// Creator OS.
    pub s_creator_os: u32,
    /// Revision level.
    pub s_rev_level: u32,
    /// Default uid for reserved blocks.
    pub s_def_resuid: u16,
    /// Default gid for reserved blocks.
    pub s_def_resgid: u16,
    /// First non-reserved inode.
    pub s_first_ino: u32,
    /// Size of the inode structure.
    pub s_inode_size: u16,
    /// Block group holding this superblock.
    pub s_block_group_nr: u16,
    /// Compatible feature set.
    pub s_feature_compat: u32,
    /// Incompatible feature set.
    pub s_feature_incompat: u32,
    /// Read-only compatible feature set.
    pub s_feature_ro_compat: u32,
    /// 128-bit volume UUID.
    pub s_uuid: [u8; 16],
    /// Volume name, raw bytes.
    pub s_volume_name: [u8; 16],
    /// Directory where last mounted, raw bytes.
    pub s_last_mounted: [u8; 64],
    /// For compression.
    pub s_algorithm_usage_bitmap: u32,
    /// Blocks to try to preallocate.
    pub s_prealloc_blocks: u8,
    /// Blocks to preallocate for directories.
    pub s_prealloc_dir_blocks: u8,
    /// Padding.
    pub s_padding1: u16,
    /// UUID of the journal superblock.
    pub s_journal_uuid: [u8; 16],
    /// Inode number of the journal file.
    pub s_journal_inum: u32,
    /// Device number of the journal file.
    pub s_journal_dev: u32,
    /// Start of the list of inodes to delete.
    pub s_last_orphan: u32,
    /// HTREE hash seed.
    pub s_hash_seed: [u32; 4],
    /// Default hash version.
    pub s_def_hash_version: u8,
    /// Padding.
    pub s_reserved_char_pad: u8,
    /// Padding.
    pub s_reserved_word_pad: u16,
    /// Default mount options.
    pub s_default_mount_opts: u32,
    /// First metablock block group.
    pub s_first_meta_bg: u32,
    /// Padding to the end of the record.
    pub s_reserved: [u32; 190],
}

/// `sb` holds the fields stored in the superblock record `b` (offsets relative to its start).
pub open spec fn superblock_fields(sb: Ext2SuperBlock, b: Seq<u8>) -> bool {
    &&& sb.s_inodes_count == le_u32(b, 0)
    &&& sb.s_blocks_count == le_u32(b, 4)
    &&& sb.s_r_blocks_count == le_u32(b, 8)
    &&& sb.s_free_blocks_count == le_u32(b, 12)
    &&& sb.s_free_inodes_count == le_u32(b, 16)
    &&& sb.s_first_data_block == le_u32(b, 20)
    &&& sb.s_log_block_size == le_u32(b, 24) as i32
    &&& sb.s_log_frag_size == le_u32(b, 28)
    &&& sb.s_blocks_per_group == le_u32(b, 32)
    &&& sb.s_frags_per_group == le_u32(b, 36)
    &&& sb.s_inodes_per_group == le_u32(b, 40)
    &&& sb.s_mtime == le_u32(b, 44)
    &&& sb.s_wtime == le_u32(b, 48)
    &&& sb.s_mnt_count == le_u16(b, 52)
    &&& sb.s_max_mnt_count == le_u16(b, 54)
    &&& sb.s_magic == le_u16(b, 56)
    &&& sb.s_state == le_u16(b, 58)
    &&& sb.s_errors == le_u16(b, 60)
    &&& sb.s_minor_rev_level == le_u16(b, 62)
    &&& sb.s_lastcheck == le_u32(b, 64)
    &&& sb.s_checkinterval == le_u32(b, 68)
    &&& sb.s_creator_os == le_u32(b, 72)
    &&& sb.s_rev_level == le_u32(b, 76)
    &&& sb.s_def_resuid == le_u16(b, 80)
    &&& sb.s_def_resgid == le_u16(b, 82)
    &&& sb.s_first_ino == le_u32(b, 84)
    &&& sb.s_inode_size == le_u16(b, 88)
    &&& sb.s_block_group_nr == le_u16(b, 90)
    &&& sb.s_feature_compat == le_u32(b, 92)
    &&& sb.s_feature_incompat == le_u32(b, 96)
    &&& sb.s_feature_ro_compat == le_u32(b, 100)
    &&& sb.s_uuid@ == b.subrange(104, 120)
    &&& sb.s_volume_name@ == b.subrange(120, 136)
    &&& sb.s_last_mounted@ == b.subrange(136, 200)
    &&& sb.s_algorithm_usage_bitmap == le_u32(b, 200)
    &&& sb.s_prealloc_blocks == b[204]
    &&& sb.s_prealloc_dir_blocks == b[205]
    &&& sb.s_padding1 == le_u16(b, 206)
    &&& sb.s_journal_uuid@ == b.subrange(208, 224)
    &&& sb.s_journal_inum == le_u32(b, 224)
    &&& sb.s_journal_dev == le_u32(b, 228)
    &&& sb.s_last_orphan == le_u32(b, 232)
    &&& forall|j: int| 0 <= j < 4 ==> #[trigger] sb.s_hash_seed@[j] == le_u32(b, 236 + 4 * j)
    &&& sb.s_def_hash_version == b[252]
    &&& sb.s_reserved_char_pad == b[253]
    &&& sb.s_reserved_word_pad == le_u16(b, 254)
    &&& sb.s_default_mount_opts == le_u32(b, 256)
    &&& sb.s_first_meta_bg == le_u32(b, 260)
    &&& forall|j: int| 0 <= j < 190 ==> #[trigger] sb.s_reserved@[j] == le_u32(b, 264 + 4 * j)
}

/// A superblock record decodes to one value: two superblocks that hold the fields of the same
/// record are equal.
pub proof fn lemma_superblock_fields_unique(s1: Ext2SuperBlock, s2: Ext2SuperBlock, b: Seq<u8>)
    requires
        superblock_fields(s1, b),
        superblock_fields(s2, b),
    ensures
        s1 == s2,
{
    broadcast use axiom_array_ext_equal;

    assert(s1.s_uuid =~= s2.s_uuid);
    assert(s1.s_volume_name =~= s2.s_volume_name);
    assert(s1.s_last_mounted =~= s2.s_last_mounted);
    assert(s1.s_journal_uuid =~= s2.s_journal_uuid);
    assert(s1.s_hash_seed =~= s2.s_hash_seed);
    assert(s1.s_reserved =~= s2.s_reserved);
}

/// The record `b` carries the ext2 magic signature.
pub open spec fn has_magic(b: Seq<u8>) -> bool {
    le_u16(b, MAGIC_OFFSET as int) == EXT2_MAGIC
}

/// Errors of the filesystem layer.
#[derive(Debug, Clone, Copy, PartialEq, Eq, Structural)]
pub enum Error {
    /// The volume does not hold a valid ext2 filesystem.
    NoFilesystemFound,
}

fn decode_fields(b: &[u8]) -> (sb: Ext2SuperBlock)
    requires
        b@.len() == SUPERBLOCK_SIZE,
    ensures
        superblock_fields(sb, b@),
{
    Ext2SuperBlock {
        s_inodes_count: read_u32(b, 0),
        s_blocks_count: read_u32(b, 4),
        s_r_blocks_count: read_u32(b, 8),
        s_free_blocks_count: read_u32(b, 12),
        s_free_inodes_count: read_u32(b, 16),
        s_first_data_block: read_u32(b, 20),
        s_log_block_size: read_u32(b, 24) as i32,
        s_log_frag_size: read_u32(b, 28),
        s_blocks_per_group: read_u32(b, 32),
        s_frags_per_group: read_u32(b, 36),
        s_inodes_per_group: read_u32(b, 40),
        s_mtime: read_u32(b, 44),
        s_wtime: read_u32(b, 48),
        s_mnt_count: read_u16(b, 52),
        s_max_mnt_count: read_u16(b, 54),
        s_magic: read_u16(b, 56),
        s_state: read_u16(b, 58),
        s_errors: read_u16(b, 60),
        s_minor_rev_level: read_u16(b, 62),
        s_lastcheck: read_u32(b, 64),
        s_checkinterval: read_u32(b, 68),
        s_creator_os: read_u32(b, 72),
        s_rev_level: read_u32(b, 76),
        s_def_resuid: read_u16(b, 80),
        s_def_resgid: read_u16(b, 82),
        s_first_ino: read_u32(b, 84),
        s_inode_size: read_u16(b, 88),
        s_block_group_nr: read_u16(b, 90),
        s_feature_compat: read_u32(b, 92),
        s_feature_incompat: read_u32(b, 96),
        s_feature_ro_compat: read_u32(b, 100),
        s_uuid: read_u8_array(b, 104),
        s_volume_name: read_u8_array(b, 120),
        s_last_mounted: read_u8_array(b, 136),
        s_algorithm_usage_bitmap: read_u32(b, 200),
        s_prealloc_blocks: b[204],
        s_prealloc_dir_blocks: b[205],
        s_padding1: read_u16(b, 206),
        s_journal_uuid: read_u8_array(b, 208),
        s_journal_inum: read_u32(b, 224),
        s_journal_dev: read_u32(b, 228),
        s_last_orphan: read_u32(b, 232),
        s_hash_seed: read_u32_array(b, 236),
        s_def_hash_version: b[252],
        s_reserved_char_pad: b[253],
        s_reserved_word_pad: read_u16(b, 254),
        s_default_mount_opts: read_u32(b, 256),
        s_first_meta_bg: read_u32(b, 260),
        s_reserved: read_u32_array(b, 264),
    }
}

/// Decodes the superblock record that starts at byte `offset` of `data`, and checks its magic
/// signature.
pub fn decode_superblock(data: &[u8], offset: usize) -> (r: Result<Ext2SuperBlock, Error>)
    requires
        offset + SUPERBLOCK_SIZE <= data@.len(),
    ensures
        ({
            let rec = data@.subrange(offset as int, offset + SUPERBLOCK_SIZE);
            &&& r is Ok <==> has_magic(rec)
            &&& r is Ok ==> superblock_fields(r->Ok_0, rec)
            &&& r is Ok ==> r->Ok_0.s_magic == EXT2_MAGIC
            &&& r is Err ==> r == Err::<Ext2SuperBlock, Error>(Error::NoFilesystemFound)
        }),
{
    let n = data.len();
    assert(n == data@.len());
    let rec = slice_subrange(data, offset, offset + SUPERBLOCK_SIZE);
    let sb = decode_fields(rec);
    if sb.s_magic != EXT2_MAGIC {
        return Err(Error::NoFilesystemFound);
    }
    Ok(sb)
}

/// One block group descriptor record.
pub struct Ext2GroupDescriptor {
    pub bg_block_bitmap: u32,
    pub bg_inode_bitmap: u32,
    pub bg_inode_table: u32,
    pub bg_free_blocks_count: u16,
    pub bg_free_inodes_count: u16,
    pub bg_used_dirs_count: u16,
    pub bg_flags: u16,
    pub bg_reserved: u32,
    pub bg_itable_unused: u16,
    pub bg_checksum: u16,
}

impl Default for Ext2GroupDescriptor {
    /// An all-zero descriptor.
    fn default() -> (r: Self)
        ensures
            r.bg_block_bitmap == 0 && r.bg_inode_bitmap == 0 && r.bg_inode_table == 0,
            r.bg_free_blocks_count == 0 && r.bg_free_inodes_count == 0,
            r.bg_used_dirs_count == 0 && r.bg_flags == 0 && r.bg_reserved == 0,
            r.bg_itable_unused == 0 && r.bg_checksum == 0,
    {
        Ext2GroupDescriptor {
            bg_block_bitmap: 0,
            bg_inode_bitmap: 0,
            bg_inode_table: 0,
            bg_free_blocks_count: 0,
            bg_free_inodes_count: 0,
            bg_used_dirs_count: 0,
            bg_flags: 0,
            bg_reserved: 0,
            bg_itable_unused: 0,
            bg_checksum: 0,
        }
    }
}

} // verus!
