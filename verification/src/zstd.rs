//! How much a Zstandard stream can unpack to.
//!
//! A decoder gets by with counters and buffers of a certain size. Whether a
//! stream stays within them can be told from its frame header, its block
//! headers and the number of sequences that each block states, without
//! unpacking anything. A stream that breaks off or has an invalid header ends
//! there, as a decoder gives up at that point.

use vstd::prelude::*;

verus! {

/// The first four bytes of a frame, read as a little endian number.
pub const MAGIC_NUMBER: u32 = 0xfd2f_b528;

/// The largest size of a block.
pub const MAX_BLOCK_SIZE: u32 = 131_072;

/// The largest number of bytes that one sequence copies.
pub const MAX_MATCH_LENGTH: u64 = 131_074;

/// The largest number of literals of a block.
pub const MAX_LITERALS: u64 = 1_048_575;

/// A block that is shorter than this does not unpack to more than a 32 bit
/// counter holds: each bit of it gives at most 8192 1/8 bytes, besides the
/// sequences that take no bits and give at most 34 bytes each.
pub const SHORT_BLOCK: u32 = 65_400;

/// A block of no more sequences than this does not unpack to more than a
/// 32 bit counter holds.
pub const FEW_SEQUENCES: u32 = 32_700;

/// The number of bytes of a field with the given two bit size code.
pub open spec fn dictionary_id_len(code: int) -> int {
    if code == 3 {
        4
    } else {
        code
    }
}

/// The number of bytes that state the size of a frame's contents.
pub open spec fn content_size_len(code: int, is_single_segment: bool) -> int {
    if code == 0 {
        if is_single_segment {
            1
        } else {
            0
        }
    } else if code == 1 {
        2
    } else if code == 2 {
        4
    } else {
        8
    }
}

/// The length of a frame's header, if the stream starts with a complete one.
pub open spec fn frame_header_len(packed: Seq<u8>) -> Option<int> {
    if packed.len() < 5 || packed[0] + 0x100 * packed[1] + 0x1_0000 * packed[2] + 0x100_0000
        * packed[3] != MAGIC_NUMBER {
        None
    } else {
        let flags = packed[4] as int;
        let is_single_segment = (flags / 32) % 2 == 1;
        let window_len: int = if is_single_segment {
            0
        } else {
            1
        };
        let len = 5 + window_len + dictionary_id_len(flags % 4) + content_size_len(
            flags / 64,
            is_single_segment,
        );
        if len <= packed.len() {
            Some(len)
        } else {
            None
        }
    }
}

/// The header of a block.
#[derive(Clone, Copy, Debug, PartialEq, Eq, Structural)]
pub struct BlockHeader {
    /// Whether it is the last block.
    pub is_last: bool,
    /// Whether the block is compressed, and not a plain or repeated sequence
    /// of bytes.
    pub is_compressed: bool,
    /// The number that the block states as its size.
    pub size: u32,
    /// The length of the block behind its header.
    pub len: u32,
}

/// The header of the block at an index, if there is a valid one and all of the
/// block is there.
pub open spec fn block_at(packed: Seq<u8>, at: int) -> Option<BlockHeader> {
    if at + 3 > packed.len() {
        None
    } else {
        let header = packed[at] + 0x100 * packed[at + 1] + 0x1_0000 * packed[at + 2];
        let kind = (header / 2) % 4;
        let size = header / 8;
        let len = if kind == 1 {
            1
        } else {
            size
        };
        if kind == 3 || size > MAX_BLOCK_SIZE || at + 3 + len > packed.len() {
            None
        } else {
            Some(
                BlockHeader {
                    is_last: header % 2 == 1,
                    is_compressed: kind == 2,
                    size: size as u32,
                    len: len as u32,
                },
            )
        }
    }
}

/// The length of the header of a compressed block's literals, by the header's
/// first byte.
pub open spec fn literals_header_len(first: int) -> int {
    let format = (first / 4) % 4;
    if first % 4 < 2 {
        if format == 1 {
            2
        } else if format == 3 {
            3
        } else {
            1
        }
    } else {
        if format < 2 {
            3
        } else {
            format + 2
        }
    }
}

/// The length of a compressed block's literals behind their header.
pub open spec fn literals_len(block: Seq<u8>) -> int {
    let first = block[0] as int;
    let format = (first / 4) % 4;
    if first % 4 == 1 {
        1
    } else if first % 4 == 0 {
        if format == 1 {
            first / 16 + 16 * block[1]
        } else if format == 3 {
            first / 16 + 16 * block[1] + 4096 * block[2]
        } else {
            first / 8
        }
    } else {
        if format < 2 {
            block[1] as int / 64 + 4 * block[2]
        } else if format == 2 {
            block[2] as int / 4 + 64 * block[3]
        } else {
            block[2] as int / 64 + 4 * block[3] + 1024 * block[4]
        }
    }
}

/// The number of sequences that is stated at an index of a compressed block,
/// none if it is not all there.
pub open spec fn sequences_at(block: Seq<u8>, at: int) -> int {
    if at >= block.len() {
        0
    } else {
        let first = block[at] as int;
        if first < 128 {
            if at + 2 > block.len() {
                0
            } else {
                first
            }
        } else if first < 255 {
            if at + 3 > block.len() {
                0
            } else {
                (first - 128) * 256 + block[at + 1]
            }
        } else {
            if at + 4 > block.len() {
                0
            } else {
                block[at + 1] + 256 * block[at + 2] + 0x7f00
            }
        }
    }
}

/// The number of sequences that a compressed block states, none if its headers
/// are not all there.
pub open spec fn stated_sequences(block: Seq<u8>) -> int {
    if block.len() == 0 || block.len() < literals_header_len(block[0] as int) {
        0
    } else {
        let at = literals_header_len(block[0] as int) + literals_len(block);
        if at > block.len() {
            0
        } else {
            sequences_at(block, at)
        }
    }
}

/// The block with the given header at an index.
pub open spec fn block_contents(packed: Seq<u8>, at: int, block: BlockHeader) -> Seq<u8> {
    packed.subrange(at + 3, at + 3 + block.len)
}

/// Whether a block does not unpack to more than a 32 bit counter holds.
pub open spec fn block_fits(packed: Seq<u8>, at: int, block: BlockHeader) -> bool {
    block.is_compressed ==> block.len < SHORT_BLOCK || stated_sequences(
        block_contents(packed, at, block),
    ) <= FEW_SEQUENCES
}

/// A bound on what a block unpacks to.
pub open spec fn block_bound(packed: Seq<u8>, at: int, block: BlockHeader) -> int {
    if block.is_compressed {
        stated_sequences(block_contents(packed, at, block)) * MAX_MATCH_LENGTH + MAX_LITERALS
    } else {
        block.size as int
    }
}

/// Whether the blocks from an index on unpack to what counters and buffers
/// hold, where the given number of bytes is left for them.
pub open spec fn blocks_fit(packed: Seq<u8>, at: int, left: int) -> bool
    decreases packed.len() - at,
{
    match block_at(packed, at) {
        None => true,
        Some(block) => {
            &&& block_fits(packed, at, block)
            &&& block_bound(packed, at, block) <= left
            &&& block.is_last || blocks_fit(
                packed,
                at + 3 + block.len,
                left - block_bound(packed, at, block),
            )
        },
    }
}

/// Whether a stream unpacks to what counters and buffers hold: each block to
/// less than 2^32 bytes, and all of them to no more than a quarter of the
/// largest buffer.
pub open spec fn zstd_blocks_fit(packed: Seq<u8>) -> bool {
    match frame_header_len(packed) {
        None => true,
        Some(len) => blocks_fit(packed, len, isize::MAX / 4),
    }
}

/// Reads the length of a frame's header.
fn read_frame_header_len(packed: &[u8]) -> (r: Option<usize>)
    ensures
        r is Some == frame_header_len(packed@) is Some,
        r is Some ==> r->0 == frame_header_len(packed@)->0,
{
    if packed.len() < 5 {
        return None;
    }
    let magic: u32 = packed[0] as u32 + 0x100 * packed[1] as u32 + 0x1_0000 * packed[2] as u32
        + 0x100_0000 * packed[3] as u32;
    if magic != MAGIC_NUMBER {
        return None;
    }
    let flags: u8 = packed[4];
    let is_single_segment = (flags / 32) % 2 == 1;
    let window_len: usize = if is_single_segment {
        0
    } else {
        1
    };
    let id_len: usize = if flags % 4 == 3 {
        4
    } else {
        (flags % 4) as usize
    };
    let size_len: usize = match flags / 64 {
        0 => if is_single_segment {
            1
        } else {
            0
        },
        1 => 2,
        2 => 4,
        _ => 8,
    };
    let len: usize = 5 + window_len + id_len + size_len;
    if len <= packed.len() {
        Some(len)
    } else {
        None
    }
}

/// Reads the header of the block at an index.
fn read_block_at(packed: &[u8], at: usize) -> (r: Option<BlockHeader>)
    requires
        at <= packed.len(),
    ensures
        r == block_at(packed@, at as int),
{
    if packed.len() - at < 3 {
        return None;
    }
    let header: u32 = packed[at] as u32 + 0x100 * packed[at + 1] as u32 + 0x1_0000 * packed[at
        + 2] as u32;
    let kind: u32 = (header / 2) % 4;
    let size: u32 = header / 8;
    let len: u32 = if kind == 1 {
        1
    } else {
        size
    };
    if kind == 3 || size > MAX_BLOCK_SIZE || len as usize > packed.len() - at - 3 {
        None
    } else {
        Some(BlockHeader { is_last: header % 2 == 1, is_compressed: kind == 2, size, len })
    }
}

/// Reads the number of sequences that a compressed block states.
pub fn read_stated_sequences(block: &[u8]) -> (r: u32)
    ensures
        r == stated_sequences(block@),
        r <= 98_047,
{
    if block.len() == 0 {
        return 0;
    }
    let first: usize = block[0] as usize;
    let kind: usize = first % 4;
    let format: usize = (first / 4) % 4;
    let header_len: usize = if kind < 2 {
        match format {
            1 => 2,
            3 => 3,
            _ => 1,
        }
    } else if format < 2 {
        3
    } else {
        format + 2
    };
    if block.len() < header_len {
        return 0;
    }
    let len: usize = if kind == 1 {
        1
    } else if kind == 0 {
        match format {
            1 => first / 16 + 16 * block[1] as usize,
            3 => first / 16 + 16 * block[1] as usize + 4096 * block[2] as usize,
            _ => first / 8,
        }
    } else {
        match format {
            0 | 1 => block[1] as usize / 64 + 4 * block[2] as usize,
            2 => block[2] as usize / 4 + 64 * block[3] as usize,
            _ => block[2] as usize / 64 + 4 * block[3] as usize + 1024 * block[4] as usize,
        }
    };
    if len > block.len() - header_len {
        return 0;
    }
    let at: usize = header_len + len;
    let left: usize = block.len() - at;
    if left < 2 {
        return 0;
    }
    let count: u32 = block[at] as u32;
    if count < 128 {
        count
    } else if count < 255 {
        if left < 3 {
            0
        } else {
            (count - 128) * 256 + block[at + 1] as u32
        }
    } else if left < 4 {
        0
    } else {
        block[at + 1] as u32 + 256 * block[at + 2] as u32 + 0x7f00
    }
}

/// Finds out whether a stream unpacks to what counters and buffers hold.
pub fn check_zstd_blocks(packed: &[u8]) -> (r: bool)
    ensures
        r == zstd_blocks_fit(packed@),
{
    let mut at: usize = match read_frame_header_len(packed) {
        Some(len) => len,
        None => return true,
    };
    let mut left: u64 = (isize::MAX / 4) as u64;
    loop
        invariant
            at <= packed.len(),
            zstd_blocks_fit(packed@) == blocks_fit(packed@, at as int, left as int),
        decreases packed.len() - at,
    {
        let block = match read_block_at(packed, at) {
            Some(block) => block,
            None => return true,
        };
        let len: usize = block.len as usize;
        let bound: u64 = if block.is_compressed {
            let contents = vstd::slice::slice_subrange(packed, at + 3, at + 3 + len);
            let sequences: u32 = read_stated_sequences(contents);
            if block.len >= SHORT_BLOCK && sequences > FEW_SEQUENCES {
                return false;
            }
            sequences as u64 * MAX_MATCH_LENGTH + MAX_LITERALS
        } else {
            block.size as u64
        };
        if bound > left {
            return false;
        }
        if block.is_last {
            return true;
        }
        left = left - bound;
        at = at + 3 + len;
    }
}

} // verus!
