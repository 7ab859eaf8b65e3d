mod fs;
mod geometry;
mod superblock;

pub use fs::{
    initialization_succeeds, initialize_post, lemma_initialize_idempotent, located_record,
    record_blocks_count, record_blocks_per_group, record_log_block_size, BlockDevice, Ext2Fs,
    Ext2FsView,
};
pub use geometry::{
    block_size_from_log, ceil_div, group_count, lemma_ceil_div_is_ceiling,
    lemma_locate_covers_superblock, locate_superblock, spec_block_size, spec_location,
    SuperblockLocation, DEFAULT_BLOCK_SIZE, SUPERBLOCK_OFFSET,
};
pub use superblock::{
    decode_superblock, has_magic, le_u16, le_u32, lemma_superblock_fields_unique,
    superblock_fields, Error, Ext2GroupDescriptor, Ext2SuperBlock, EXT2_MAGIC, MAGIC_OFFSET,
    SUPERBLOCK_SIZE,
};
