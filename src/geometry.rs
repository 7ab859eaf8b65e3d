use crate::superblock::{Error, SUPERBLOCK_SIZE};
use num::Integer;
use vstd::arithmetic::power2::{
    lemma2_to64, lemma2_to64_rest, lemma_pow2_adds, lemma_pow2_strictly_increases, pow2,
};
use vstd::bits::{lemma_u64_shl_is_mul, lemma_u64_shr_is_div};
use vstd::prelude::*;

verus! {

/// Byte offset of the superblock from the start of the volume.
pub const SUPERBLOCK_OFFSET: usize = 1024;

/// The reference block size that `s_log_block_size` shifts.
pub const DEFAULT_BLOCK_SIZE: usize = 1024;

/// The smallest `q` with `q * b >= a`.
pub open spec fn ceil_div(a: int, b: int) -> int {
    (a + b - 1) / b
}

/// Relies on num::Integer::div_ceil for usize: the quotient rounded up (it panics on a zero
/// divisor, which `requires` rules out).
#[verifier::external_body]
fn usize_div_ceil(a: usize, b: usize) -> (r: usize)
    requires
        b > 0,
    ensures
        r == ceil_div(a as int, b as int),
{
    Integer::div_ceil(&a, &b)
}

/// Where the superblock lies on a device with blocks of a given size.
#[derive(Debug, Clone, Copy, PartialEq, Eq, Structural)]
pub struct SuperblockLocation {
    /// The device block that holds the first byte of the superblock.
    pub index: usize,
    /// The byte offset of the superblock inside that block.
    pub offset: usize,
    /// How many consecutive device blocks cover the whole superblock.
    pub block_count: usize,
}

/// The location of the superblock on a device whose blocks hold `block_size` bytes.
pub open spec fn spec_location(block_size: usize) -> SuperblockLocation {
    let offset = SUPERBLOCK_OFFSET as int % block_size as int;
    SuperblockLocation {
        index: (SUPERBLOCK_OFFSET as int / block_size as int) as usize,
        offset: offset as usize,
        block_count: (if SUPERBLOCK_SIZE <= block_size - offset {
            1
        } else {
            1 + ceil_div(SUPERBLOCK_SIZE - (block_size - offset), block_size as int)
        }) as usize,
    }
}

/// Finds the device blocks that cover the superblock, for a device block size `block_size`.
pub fn locate_superblock(block_size: usize) -> (r: SuperblockLocation)
    requires
        block_size > 0,
    ensures
        r.index == SUPERBLOCK_OFFSET as int / block_size as int,
        r.offset == SUPERBLOCK_OFFSET as int % block_size as int,
        r.block_count == if SUPERBLOCK_SIZE <= block_size - r.offset {
            1
        } else {
            1 + ceil_div(SUPERBLOCK_SIZE - (block_size - r.offset), block_size as int)
        },
        r == spec_location(block_size),
        r.offset < block_size,
        r.offset <= SUPERBLOCK_OFFSET,
{
    let index = SUPERBLOCK_OFFSET / block_size;
    let offset = SUPERBLOCK_OFFSET % block_size;
    assert(offset <= SUPERBLOCK_OFFSET) by (nonlinear_arith)
        requires
            offset == 1024int % block_size as int,
            block_size > 0,
    ;
    let room = block_size - offset;
    let block_count = if SUPERBLOCK_SIZE > room {
        let remaining = SUPERBLOCK_SIZE - room;
        let extra = usize_div_ceil(remaining, block_size);
        assert(extra <= remaining) by (nonlinear_arith)
            requires
                extra == (remaining + block_size - 1) / block_size as int,
                block_size > 0,
                remaining > 0,
        ;
        1 + extra
    } else {
        1
    };
    SuperblockLocation { index, offset, block_count }
}

/// For every device block size `b`, the located blocks hold the whole superblock: its first byte
/// lies at `index * b + offset`, which is the superblock offset, and its last byte lies before
/// the end of the `block_count` blocks that start at `index`.
pub proof fn lemma_locate_covers_superblock(b: usize)
    requires
        b > 0,
    ensures
        ({
            let loc = spec_location(b);
            &&& loc.index * b + loc.offset == SUPERBLOCK_OFFSET
            &&& loc.offset < b
            &&& loc.index * b + loc.offset + SUPERBLOCK_SIZE <= (loc.index + loc.block_count) * b
        }),
{
    let bi = b as int;
    let o = 1024int % bi;
    let i = 1024int / bi;
    assert(i * bi + o == 1024int && 0 <= o < bi && 0 <= i <= 1024) by (nonlinear_arith)
        requires
            i == 1024int / bi,
            o == 1024int % bi,
            bi > 0,
    ;
    if SUPERBLOCK_SIZE <= b - o {
        assert((i + 1) * bi == i * bi + bi) by (nonlinear_arith);
    } else {
        let rem = 1024int - (bi - o);
        let e = ceil_div(rem, bi);
        assert(e * bi >= rem && 0 <= e <= rem) by (nonlinear_arith)
            requires
                e == (rem + bi - 1) / bi,
                bi > 0,
                rem > 0,
        ;
        assert((i + 1 + e) * bi == i * bi + bi + e * bi) by (nonlinear_arith);
    }
}

/// `ceil_div(a, b)` is the exact ceiling of `a / b`: the least `q` with `q * b >= a`.
pub proof fn lemma_ceil_div_is_ceiling(a: nat, b: nat)
    requires
        b > 0,
    ensures
        ceil_div(a as int, b as int) * b >= a,
        (ceil_div(a as int, b as int) - 1) * b < a,
{
    let q = ceil_div(a as int, b as int);
    assert(q * b >= a && q * b - b < a) by (nonlinear_arith)
        requires
            q == (a + b - 1) / b as int,
            b > 0,
    ;
    assert((q - 1) * b == q * b - b) by (nonlinear_arith);
}

/// The effective filesystem block size for the stored shift `log`: 1024 shifted left by `log`
/// when it is non-negative, right by `-log` when it is negative.
pub open spec fn spec_block_size(log: i32) -> int {
    if log < 0 {
        DEFAULT_BLOCK_SIZE as int / pow2((-log) as nat) as int
    } else {
        DEFAULT_BLOCK_SIZE as int * pow2(log as nat) as int
    }
}

/// Computes the effective block size for the stored shift `log`. Fails with
/// `NoFilesystemFound` when the shift is out of the range of a 64-bit shift, or when the size
/// does not fit in `usize`.
pub fn block_size_from_log(log: i32) -> (r: Result<usize, Error>)
    ensures
        r is Ok <==> -64 < log && spec_block_size(log) <= usize::MAX,
        r is Ok ==> r->Ok_0 == spec_block_size(log),
        r is Err ==> r == Err::<usize, Error>(Error::NoFilesystemFound),
{
    if log < 0 {
        if log <= -64 {
            return Err(Error::NoFilesystemFound);
        }
        let k = (-log) as u64;
        let v = (DEFAULT_BLOCK_SIZE as u64) >> k;
        proof {
            lemma_u64_shr_is_div(DEFAULT_BLOCK_SIZE as u64, k);
        }
        Ok(v as usize)
    } else {
        proof {
            lemma2_to64();
            lemma2_to64_rest();
        }
        if log > 53 {
            proof {
                if log > 54 {
                    lemma_pow2_strictly_increases(54, log as nat);
                }
            }
            return Err(Error::NoFilesystemFound);
        }
        let k = log as u64;
        proof {
            lemma_pow2_adds(10, k as nat);
            if k < 53 {
                lemma_pow2_strictly_increases(k as nat, 53);
            }
            lemma_u64_shl_is_mul(DEFAULT_BLOCK_SIZE as u64, k);
        }
        let v = (DEFAULT_BLOCK_SIZE as u64) << k;
        if v > usize::MAX as u64 {
            return Err(Error::NoFilesystemFound);
        }
        Ok(v as usize)
    }
}

/// Computes the number of block groups, `ceil(blocks / per_group)`. A group size of zero marks
/// a corrupt superblock.
pub fn group_count(blocks: u32, per_group: u32) -> (r: Result<usize, Error>)
    ensures
        r is Ok <==> per_group > 0,
        r is Ok ==> r->Ok_0 == ceil_div(blocks as int, per_group as int),
        r is Err ==> r == Err::<usize, Error>(Error::NoFilesystemFound),
{
    if per_group == 0 {
        return Err(Error::NoFilesystemFound);
    }
    Ok(usize_div_ceil(blocks as usize, per_group as usize))
}

} // verus!
