//! How the data codewords of a symbol are divided into blocks for error
//! correction coding.

use vstd::prelude::*;
use crate::version::{ErrorCorrection, QRCodeVersion};

verus! {

/// A group of blocks: it holds `data_bytes * blocks` data codewords in all.
///
/// The number of error correction bytes is held by its container,
/// [`GroupSplit`].
#[derive(Debug)]
pub struct BlockSplit {
    pub data_bytes: usize,
    pub blocks: usize,
}

/// The number and structure of the groups of a symbol.
#[derive(Debug)]
pub enum GroupSplit {
    /// The division when one group is enough.
    One { ec_bytes: usize, block_split: BlockSplit },
    /// The division when two groups are needed.
    Two { ec_bytes: usize, block_split_one: BlockSplit, block_split_two: BlockSplit },
}

impl BlockSplit {
    /// The data codewords that the group holds.
    pub open spec fn data_total(self) -> nat {
        (self.data_bytes * self.blocks) as nat
    }
}

impl GroupSplit {
    /// The data codewords that all groups hold together.
    pub open spec fn data_total(self) -> nat {
        match self {
            GroupSplit::One { block_split, .. } => block_split.data_total(),
            GroupSplit::Two { block_split_one, block_split_two, .. } => block_split_one.data_total()
                + block_split_two.data_total(),
        }
    }
}

/// One row of the split table: a single group.
pub open spec fn one_group(ec_bytes: usize, data_bytes: usize, blocks: usize) -> GroupSplit {
    GroupSplit::One { ec_bytes, block_split: BlockSplit { data_bytes, blocks } }
}

/// One row of the split table: two groups.
pub open spec fn two_groups(
    ec_bytes: usize,
    data_bytes_one: usize,
    blocks_one: usize,
    data_bytes_two: usize,
    blocks_two: usize,
) -> GroupSplit {
    GroupSplit::Two {
        ec_bytes,
        block_split_one: BlockSplit { data_bytes: data_bytes_one, blocks: blocks_one },
        block_split_two: BlockSplit { data_bytes: data_bytes_two, blocks: blocks_two },
    }
}

/// Builds a division into a single group.
fn one(ec_bytes: usize, data_bytes: usize, blocks: usize) -> (groups: GroupSplit)
    ensures
        groups == one_group(ec_bytes, data_bytes, blocks),
{
    GroupSplit::One { ec_bytes, block_split: BlockSplit { data_bytes, blocks } }
}

/// Builds a division into two groups.
fn two(
    ec_bytes: usize,
    data_bytes_one: usize,
    blocks_one: usize,
    data_bytes_two: usize,
    blocks_two: usize,
) -> (groups: GroupSplit)
    ensures
        groups == two_groups(ec_bytes, data_bytes_one, blocks_one, data_bytes_two, blocks_two),
{
    GroupSplit::Two {
        ec_bytes,
        block_split_one: BlockSplit { data_bytes: data_bytes_one, blocks: blocks_one },
        block_split_two: BlockSplit { data_bytes: data_bytes_two, blocks: blocks_two },
    }
}

/// A single group holds the product of its two entries.
proof fn lemma_one_group(ec_bytes: usize, data_bytes: usize, blocks: usize, total: nat)
    requires
        data_bytes * blocks == total,
    ensures
        one_group(ec_bytes, data_bytes, blocks).data_total() == total,
{
}

/// Two groups hold the sum of their products.
proof fn lemma_two_groups(
    ec_bytes: usize,
    data_bytes_one: usize,
    blocks_one: usize,
    data_bytes_two: usize,
    blocks_two: usize,
    total: nat,
)
    requires
        data_bytes_one * blocks_one + data_bytes_two * blocks_two == total,
    ensures
        two_groups(ec_bytes, data_bytes_one, blocks_one, data_bytes_two, blocks_two).data_total()
            == total,
{
}

impl QRCodeVersion {
    /// The split table.
    pub open spec fn spec_split(self, ec: ErrorCorrection) -> GroupSplit {
        match self {
            QRCodeVersion::V1 => match ec {
                ErrorCorrection::L => one_group(7, 1, 19),
                ErrorCorrection::M => one_group(10, 1, 16),
                ErrorCorrection::Q => one_group(13, 1, 13),
                ErrorCorrection::H => one_group(17, 1, 9),
            },
            QRCodeVersion::V2 => match ec {
                ErrorCorrection::L => one_group(10, 1, 34),
                ErrorCorrection::M => one_group(16, 1, 28),
                ErrorCorrection::Q => one_group(22, 1, 22),
                ErrorCorrection::H => one_group(28, 1, 16),
            },
            QRCodeVersion::V3 => match ec {
                ErrorCorrection::L => one_group(15, 1, 55),
                ErrorCorrection::M => one_group(26, 1, 44),
                ErrorCorrection::Q => one_group(18, 2, 17),
                ErrorCorrection::H => one_group(22, 2, 13),
            },
            QRCodeVersion::V4 => match ec {
                ErrorCorrection::L => one_group(20, 1, 80),
                ErrorCorrection::M => one_group(18, 2, 32),
                ErrorCorrection::Q => one_group(26, 2, 24),
                ErrorCorrection::H => one_group(16, 4, 9),
            },
            QRCodeVersion::V5 => match ec {
                ErrorCorrection::L => one_group(26, 1, 108),
                ErrorCorrection::M => one_group(24, 2, 43),
                ErrorCorrection::Q => two_groups(18, 2, 15, 2, 16),
                ErrorCorrection::H => two_groups(22, 2, 11, 2, 12),
            },
            QRCodeVersion::V6 => match ec {
                ErrorCorrection::L => one_group(18, 2, 68),
                ErrorCorrection::M => one_group(16, 4, 27),
                ErrorCorrection::Q => one_group(24, 4, 19),
                ErrorCorrection::H => one_group(28, 4, 15),
            },
            QRCodeVersion::V7 => match ec {
                ErrorCorrection::L => one_group(20, 2, 78),
                ErrorCorrection::M => one_group(18, 4, 31),
                ErrorCorrection::Q => two_groups(18, 2, 14, 4, 15),
                ErrorCorrection::H => two_groups(26, 4, 13, 1, 14),
            },
            QRCodeVersion::V8 => match ec {
                ErrorCorrection::L => one_group(24, 2, 97),
                ErrorCorrection::M => two_groups(22, 2, 38, 2, 39),
                ErrorCorrection::Q => two_groups(22, 4, 18, 2, 19),
                ErrorCorrection::H => two_groups(26, 4, 14, 2, 15),
            },
            QRCodeVersion::V9 => match ec {
                ErrorCorrection::L => one_group(30, 2, 116),
                ErrorCorrection::M => two_groups(22, 3, 36, 2, 37),
                ErrorCorrection::Q => two_groups(20, 4, 16, 4, 17),
                ErrorCorrection::H => two_groups(24, 4, 12, 4, 13),
            },
            QRCodeVersion::V10 => match ec {
                ErrorCorrection::L => two_groups(18, 2, 68, 2, 69),
                ErrorCorrection::M => two_groups(26, 4, 43, 1, 44),
                ErrorCorrection::Q => two_groups(24, 6, 19, 2, 20),
                ErrorCorrection::H => two_groups(28, 6, 15, 2, 16),
            },
            QRCodeVersion::V11 => match ec {
                ErrorCorrection::L => one_group(20, 4, 81),
                ErrorCorrection::M => two_groups(30, 1, 50, 4, 51),
                ErrorCorrection::Q => two_groups(28, 4, 22, 4, 23),
                ErrorCorrection::H => two_groups(24, 3, 12, 8, 13),
            },
            QRCodeVersion::V12 => match ec {
                ErrorCorrection::L => two_groups(24, 2, 92, 2, 93),
                ErrorCorrection::M => two_groups(22, 6, 36, 2, 37),
                ErrorCorrection::Q => two_groups(26, 4, 20, 6, 21),
                ErrorCorrection::H => two_groups(28, 7, 14, 4, 15),
            },
            QRCodeVersion::V13 => match ec {
                ErrorCorrection::L => one_group(26, 4, 107),
                ErrorCorrection::M => two_groups(22, 8, 37, 1, 38),
                ErrorCorrection::Q => two_groups(24, 8, 20, 4, 21),
                ErrorCorrection::H => two_groups(22, 12, 11, 4, 12),
            },
            QRCodeVersion::V14 => match ec {
                ErrorCorrection::L => two_groups(30, 3, 115, 1, 116),
                ErrorCorrection::M => two_groups(24, 4, 40, 5, 41),
                ErrorCorrection::Q => two_groups(20, 11, 16, 5, 17),
                ErrorCorrection::H => two_groups(24, 11, 12, 5, 13),
            },
            QRCodeVersion::V15 => match ec {
                ErrorCorrection::L => two_groups(22, 5, 87, 1, 88),
                ErrorCorrection::M => two_groups(24, 5, 41, 5, 42),
                ErrorCorrection::Q => two_groups(30, 5, 24, 7, 25),
                ErrorCorrection::H => two_groups(24, 11, 12, 7, 13),
            },
            QRCodeVersion::V16 => match ec {
                ErrorCorrection::L => two_groups(24, 5, 98, 1, 99),
                ErrorCorrection::M => two_groups(28, 7, 45, 3, 46),
                ErrorCorrection::Q => two_groups(24, 15, 19, 2, 20),
                ErrorCorrection::H => two_groups(30, 3, 15, 13, 16),
            },
            QRCodeVersion::V17 => match ec {
                ErrorCorrection::L => two_groups(28, 1, 107, 5, 108),
                ErrorCorrection::M => two_groups(28, 10, 46, 1, 47),
                ErrorCorrection::Q => two_groups(28, 1, 22, 15, 23),
                ErrorCorrection::H => two_groups(28, 2, 14, 17, 15),
            },
            QRCodeVersion::V18 => match ec {
                ErrorCorrection::L => two_groups(30, 5, 120, 1, 121),
                ErrorCorrection::M => two_groups(26, 9, 43, 4, 44),
                ErrorCorrection::Q => two_groups(28, 17, 22, 1, 23),
                ErrorCorrection::H => two_groups(28, 2, 14, 19, 15),
            },
            QRCodeVersion::V19 => match ec {
                ErrorCorrection::L => two_groups(28, 3, 113, 4, 114),
                ErrorCorrection::M => two_groups(26, 3, 44, 11, 45),
                ErrorCorrection::Q => two_groups(26, 17, 21, 4, 22),
                ErrorCorrection::H => two_groups(26, 9, 13, 16, 14),
            },
            QRCodeVersion::V20 => match ec {
                ErrorCorrection::L => two_groups(28, 3, 107, 5, 108),
                ErrorCorrection::M => two_groups(26, 3, 41, 13, 42),
                ErrorCorrection::Q => two_groups(30, 15, 24, 5, 25),
                ErrorCorrection::H => two_groups(28, 15, 15, 10, 16),
            },
            QRCodeVersion::V21 => match ec {
                ErrorCorrection::L => two_groups(28, 4, 116, 4, 117),
                ErrorCorrection::M => one_group(26, 17, 42),
                ErrorCorrection::Q => two_groups(28, 17, 22, 6, 23),
                ErrorCorrection::H => two_groups(30, 19, 16, 6, 17),
            },
            QRCodeVersion::V22 => match ec {
                ErrorCorrection::L => two_groups(28, 2, 111, 7, 112),
                ErrorCorrection::M => one_group(28, 17, 46),
                ErrorCorrection::Q => two_groups(30, 7, 24, 16, 25),
                ErrorCorrection::H => one_group(24, 34, 13),
            },
            QRCodeVersion::V23 => match ec {
                ErrorCorrection::L => two_groups(30, 4, 121, 5, 122),
                ErrorCorrection::M => two_groups(28, 4, 47, 14, 48),
                ErrorCorrection::Q => two_groups(30, 11, 24, 14, 25),
                ErrorCorrection::H => two_groups(30, 16, 15, 14, 16),
            },
            QRCodeVersion::V24 => match ec {
                ErrorCorrection::L => two_groups(30, 6, 117, 4, 118),
                ErrorCorrection::M => two_groups(28, 6, 45, 14, 46),
                ErrorCorrection::Q => two_groups(30, 11, 24, 16, 25),
                ErrorCorrection::H => two_groups(30, 30, 16, 2, 17),
            },
            QRCodeVersion::V25 => match ec {
                ErrorCorrection::L => two_groups(26, 8, 106, 4, 107),
                ErrorCorrection::M => two_groups(28, 8, 47, 13, 48),
                ErrorCorrection::Q => two_groups(30, 7, 24, 22, 25),
                ErrorCorrection::H => two_groups(30, 22, 15, 13, 16),
            },
            QRCodeVersion::V26 => match ec {
                ErrorCorrection::L => two_groups(28, 10, 114, 2, 115),
                ErrorCorrection::M => two_groups(28, 19, 46, 4, 47),
                ErrorCorrection::Q => two_groups(28, 28, 22, 6, 23),
                ErrorCorrection::H => two_groups(30, 33, 16, 4, 17),
            },
            QRCodeVersion::V27 => match ec {
                ErrorCorrection::L => two_groups(30, 8, 122, 4, 123),
                ErrorCorrection::M => two_groups(28, 22, 45, 3, 46),
                ErrorCorrection::Q => two_groups(30, 8, 23, 26, 24),
                ErrorCorrection::H => two_groups(30, 12, 15, 28, 16),
            },
            QRCodeVersion::V28 => match ec {
                ErrorCorrection::L => two_groups(30, 3, 117, 10, 118),
                ErrorCorrection::M => two_groups(28, 3, 45, 23, 46),
                ErrorCorrection::Q => two_groups(30, 4, 24, 31, 25),
                ErrorCorrection::H => two_groups(30, 11, 15, 31, 16),
            },
            QRCodeVersion::V29 => match ec {
                ErrorCorrection::L => two_groups(30, 7, 116, 7, 117),
                ErrorCorrection::M => two_groups(28, 21, 45, 7, 46),
                ErrorCorrection::Q => two_groups(30, 1, 23, 37, 24),
                ErrorCorrection::H => two_groups(30, 19, 15, 26, 16),
            },
            QRCodeVersion::V30 => match ec {
                ErrorCorrection::L => two_groups(30, 5, 115, 10, 116),
                ErrorCorrection::M => two_groups(28, 19, 47, 10, 48),
                ErrorCorrection::Q => two_groups(30, 15, 24, 25, 25),
                ErrorCorrection::H => two_groups(30, 23, 15, 25, 16),
            },
            QRCodeVersion::V31 => match ec {
                ErrorCorrection::L => two_groups(30, 13, 115, 3, 116),
                ErrorCorrection::M => two_groups(28, 2, 46, 29, 47),
                ErrorCorrection::Q => two_groups(30, 42, 24, 1, 25),
                ErrorCorrection::H => two_groups(30, 23, 15, 28, 16),
            },
            QRCodeVersion::V32 => match ec {
                ErrorCorrection::L => one_group(30, 17, 115),
                ErrorCorrection::M => two_groups(28, 10, 46, 23, 47),
                ErrorCorrection::Q => two_groups(30, 10, 24, 35, 25),
                ErrorCorrection::H => two_groups(30, 19, 15, 35, 16),
            },
            QRCodeVersion::V33 => match ec {
                ErrorCorrection::L => two_groups(30, 17, 115, 1, 116),
                ErrorCorrection::M => two_groups(28, 14, 46, 21, 47),
                ErrorCorrection::Q => two_groups(30, 29, 24, 19, 25),
                ErrorCorrection::H => two_groups(30, 11, 15, 46, 16),
            },
            QRCodeVersion::V34 => match ec {
                ErrorCorrection::L => two_groups(30, 13, 115, 6, 116),
                ErrorCorrection::M => two_groups(28, 14, 46, 23, 47),
                ErrorCorrection::Q => two_groups(30, 44, 24, 7, 25),
                ErrorCorrection::H => two_groups(30, 59, 16, 1, 17),
            },
            QRCodeVersion::V35 => match ec {
                ErrorCorrection::L => two_groups(30, 12, 121, 7, 122),
                ErrorCorrection::M => two_groups(28, 12, 47, 26, 48),
                ErrorCorrection::Q => two_groups(30, 39, 24, 14, 25),
                ErrorCorrection::H => two_groups(30, 22, 15, 41, 16),
            },
            QRCodeVersion::V36 => match ec {
                ErrorCorrection::L => two_groups(30, 6, 121, 14, 122),
                ErrorCorrection::M => two_groups(28, 6, 47, 34, 48),
                ErrorCorrection::Q => two_groups(30, 46, 24, 10, 25),
                ErrorCorrection::H => two_groups(30, 2, 15, 64, 16),
            },
            QRCodeVersion::V37 => match ec {
                ErrorCorrection::L => two_groups(30, 17, 122, 4, 123),
                ErrorCorrection::M => two_groups(28, 29, 46, 14, 47),
                ErrorCorrection::Q => two_groups(30, 49, 24, 10, 25),
                ErrorCorrection::H => two_groups(30, 24, 15, 46, 16),
            },
            QRCodeVersion::V38 => match ec {
                ErrorCorrection::L => two_groups(30, 4, 122, 18, 123),
                ErrorCorrection::M => two_groups(28, 13, 46, 32, 47),
                ErrorCorrection::Q => two_groups(30, 48, 24, 14, 25),
                ErrorCorrection::H => two_groups(30, 42, 15, 32, 16),
            },
            QRCodeVersion::V39 => match ec {
                ErrorCorrection::L => two_groups(30, 20, 117, 4, 118),
                ErrorCorrection::M => two_groups(28, 40, 47, 7, 48),
                ErrorCorrection::Q => two_groups(30, 43, 24, 22, 25),
                ErrorCorrection::H => two_groups(30, 10, 15, 67, 16),
            },
            QRCodeVersion::V40 => match ec {
                ErrorCorrection::L => two_groups(30, 19, 118, 6, 119),
                ErrorCorrection::M => two_groups(28, 18, 47, 31, 48),
                ErrorCorrection::Q => two_groups(30, 34, 24, 34, 25),
                ErrorCorrection::H => two_groups(30, 20, 15, 61, 16),
            },
        }
    }

    /// In every version and at every level the groups hold exactly the
    /// symbol's data codewords.
    pub proof fn lemma_split_covers_capacity(self, ec: ErrorCorrection)
        ensures
            self.spec_split(ec).data_total() == self.capacity(ec),
    {
        match self {
            QRCodeVersion::V1 => match ec {
                ErrorCorrection::L => lemma_one_group(7, 1, 19, 19),
                ErrorCorrection::M => lemma_one_group(10, 1, 16, 16),
                ErrorCorrection::Q => lemma_one_group(13, 1, 13, 13),
                ErrorCorrection::H => lemma_one_group(17, 1, 9, 9),
            },
            QRCodeVersion::V2 => match ec {
                ErrorCorrection::L => lemma_one_group(10, 1, 34, 34),
                ErrorCorrection::M => lemma_one_group(16, 1, 28, 28),
                ErrorCorrection::Q => lemma_one_group(22, 1, 22, 22),
                ErrorCorrection::H => lemma_one_group(28, 1, 16, 16),
            },
            QRCodeVersion::V3 => match ec {
                ErrorCorrection::L => lemma_one_group(15, 1, 55, 55),
                ErrorCorrection::M => lemma_one_group(26, 1, 44, 44),
                ErrorCorrection::Q => lemma_one_group(18, 2, 17, 34),
                ErrorCorrection::H => lemma_one_group(22, 2, 13, 26),
            },
            QRCodeVersion::V4 => match ec {
                ErrorCorrection::L => lemma_one_group(20, 1, 80, 80),
                ErrorCorrection::M => lemma_one_group(18, 2, 32, 64),
                ErrorCorrection::Q => lemma_one_group(26, 2, 24, 48),
                ErrorCorrection::H => lemma_one_group(16, 4, 9, 36),
            },
            QRCodeVersion::V5 => match ec {
                ErrorCorrection::L => lemma_one_group(26, 1, 108, 108),
                ErrorCorrection::M => lemma_one_group(24, 2, 43, 86),
                ErrorCorrection::Q => lemma_two_groups(18, 2, 15, 2, 16, 62),
                ErrorCorrection::H => lemma_two_groups(22, 2, 11, 2, 12, 46),
            },
            QRCodeVersion::V6 => match ec {
                ErrorCorrection::L => lemma_one_group(18, 2, 68, 136),
                ErrorCorrection::M => lemma_one_group(16, 4, 27, 108),
                ErrorCorrection::Q => lemma_one_group(24, 4, 19, 76),
                ErrorCorrection::H => lemma_one_group(28, 4, 15, 60),
            },
            QRCodeVersion::V7 => match ec {
                ErrorCorrection::L => lemma_one_group(20, 2, 78, 156),
                ErrorCorrection::M => lemma_one_group(18, 4, 31, 124),
                ErrorCorrection::Q => lemma_two_groups(18, 2, 14, 4, 15, 88),
                ErrorCorrection::H => lemma_two_groups(26, 4, 13, 1, 14, 66),
            },
            QRCodeVersion::V8 => match ec {
                ErrorCorrection::L => lemma_one_group(24, 2, 97, 194),
                ErrorCorrection::M => lemma_two_groups(22, 2, 38, 2, 39, 154),
                ErrorCorrection::Q => lemma_two_groups(22, 4, 18, 2, 19, 110),
                ErrorCorrection::H => lemma_two_groups(26, 4, 14, 2, 15, 86),
            },
            QRCodeVersion::V9 => match ec {
                ErrorCorrection::L => lemma_one_group(30, 2, 116, 232),
                ErrorCorrection::M => lemma_two_groups(22, 3, 36, 2, 37, 182),
                ErrorCorrection::Q => lemma_two_groups(20, 4, 16, 4, 17, 132),
                ErrorCorrection::H => lemma_two_groups(24, 4, 12, 4, 13, 100),
            },
            QRCodeVersion::V10 => match ec {
                ErrorCorrection::L => lemma_two_groups(18, 2, 68, 2, 69, 274),
                ErrorCorrection::M => lemma_two_groups(26, 4, 43, 1, 44, 216),
                ErrorCorrection::Q => lemma_two_groups(24, 6, 19, 2, 20, 154),
                ErrorCorrection::H => lemma_two_groups(28, 6, 15, 2, 16, 122),
            },
            QRCodeVersion::V11 => match ec {
                ErrorCorrection::L => lemma_one_group(20, 4, 81, 324),
                ErrorCorrection::M => lemma_two_groups(30, 1, 50, 4, 51, 254),
                ErrorCorrection::Q => lemma_two_groups(28, 4, 22, 4, 23, 180),
                ErrorCorrection::H => lemma_two_groups(24, 3, 12, 8, 13, 140),
            },
            QRCodeVersion::V12 => match ec {
                ErrorCorrection::L => lemma_two_groups(24, 2, 92, 2, 93, 370),
                ErrorCorrection::M => lemma_two_groups(22, 6, 36, 2, 37, 290),
                ErrorCorrection::Q => lemma_two_groups(26, 4, 20, 6, 21, 206),
                ErrorCorrection::H => lemma_two_groups(28, 7, 14, 4, 15, 158),
            },
            QRCodeVersion::V13 => match ec {
                ErrorCorrection::L => lemma_one_group(26, 4, 107, 428),
                ErrorCorrection::M => lemma_two_groups(22, 8, 37, 1, 38, 334),
                ErrorCorrection::Q => lemma_two_groups(24, 8, 20, 4, 21, 244),
                ErrorCorrection::H => lemma_two_groups(22, 12, 11, 4, 12, 180),
            },
            QRCodeVersion::V14 => match ec {
                ErrorCorrection::L => lemma_two_groups(30, 3, 115, 1, 116, 461),
                ErrorCorrection::M => lemma_two_groups(24, 4, 40, 5, 41, 365),
                ErrorCorrection::Q => lemma_two_groups(20, 11, 16, 5, 17, 261),
                ErrorCorrection::H => lemma_two_groups(24, 11, 12, 5, 13, 197),
            },
            QRCodeVersion::V15 => match ec {
                ErrorCorrection::L => lemma_two_groups(22, 5, 87, 1, 88, 523),
                ErrorCorrection::M => lemma_two_groups(24, 5, 41, 5, 42, 415),
                ErrorCorrection::Q => lemma_two_groups(30, 5, 24, 7, 25, 295),
                ErrorCorrection::H => lemma_two_groups(24, 11, 12, 7, 13, 223),
            },
            QRCodeVersion::V16 => match ec {
                ErrorCorrection::L => lemma_two_groups(24, 5, 98, 1, 99, 589),
                ErrorCorrection::M => lemma_two_groups(28, 7, 45, 3, 46, 453),
                ErrorCorrection::Q => lemma_two_groups(24, 15, 19, 2, 20, 325),
                ErrorCorrection::H => lemma_two_groups(30, 3, 15, 13, 16, 253),
            },
            QRCodeVersion::V17 => match ec {
                ErrorCorrection::L => lemma_two_groups(28, 1, 107, 5, 108, 647),
                ErrorCorrection::M => lemma_two_groups(28, 10, 46, 1, 47, 507),
                ErrorCorrection::Q => lemma_two_groups(28, 1, 22, 15, 23, 367),
                ErrorCorrection::H => lemma_two_groups(28, 2, 14, 17, 15, 283),
            },
            QRCodeVersion::V18 => match ec {
                ErrorCorrection::L => lemma_two_groups(30, 5, 120, 1, 121, 721),
                ErrorCorrection::M => lemma_two_groups(26, 9, 43, 4, 44, 563),
                ErrorCorrection::Q => lemma_two_groups(28, 17, 22, 1, 23, 397),
                ErrorCorrection::H => lemma_two_groups(28, 2, 14, 19, 15, 313),
            },
            QRCodeVersion::V19 => match ec {
                ErrorCorrection::L => lemma_two_groups(28, 3, 113, 4, 114, 795),
                ErrorCorrection::M => lemma_two_groups(26, 3, 44, 11, 45, 627),
                ErrorCorrection::Q => lemma_two_groups(26, 17, 21, 4, 22, 445),
                ErrorCorrection::H => lemma_two_groups(26, 9, 13, 16, 14, 341),
            },
            QRCodeVersion::V20 => match ec {
                ErrorCorrection::L => lemma_two_groups(28, 3, 107, 5, 108, 861),
                ErrorCorrection::M => lemma_two_groups(26, 3, 41, 13, 42, 669),
                ErrorCorrection::Q => lemma_two_groups(30, 15, 24, 5, 25, 485),
                ErrorCorrection::H => lemma_two_groups(28, 15, 15, 10, 16, 385),
            },
            QRCodeVersion::V21 => match ec {
                ErrorCorrection::L => lemma_two_groups(28, 4, 116, 4, 117, 932),
                ErrorCorrection::M => lemma_one_group(26, 17, 42, 714),
                ErrorCorrection::Q => lemma_two_groups(28, 17, 22, 6, 23, 512),
                ErrorCorrection::H => lemma_two_groups(30, 19, 16, 6, 17, 406),
            },
            QRCodeVersion::V22 => match ec {
                ErrorCorrection::L => lemma_two_groups(28, 2, 111, 7, 112, 1006),
                ErrorCorrection::M => lemma_one_group(28, 17, 46, 782),
                ErrorCorrection::Q => lemma_two_groups(30, 7, 24, 16, 25, 568),
                ErrorCorrection::H => lemma_one_group(24, 34, 13, 442),
            },
            QRCodeVersion::V23 => match ec {
                ErrorCorrection::L => lemma_two_groups(30, 4, 121, 5, 122, 1094),
                ErrorCorrection::M => lemma_two_groups(28, 4, 47, 14, 48, 860),
                ErrorCorrection::Q => lemma_two_groups(30, 11, 24, 14, 25, 614),
                ErrorCorrection::H => lemma_two_groups(30, 16, 15, 14, 16, 464),
            },
            QRCodeVersion::V24 => match ec {
                ErrorCorrection::L => lemma_two_groups(30, 6, 117, 4, 118, 1174),
                ErrorCorrection::M => lemma_two_groups(28, 6, 45, 14, 46, 914),
                ErrorCorrection::Q => lemma_two_groups(30, 11, 24, 16, 25, 664),
                ErrorCorrection::H => lemma_two_groups(30, 30, 16, 2, 17, 514),
            },
            QRCodeVersion::V25 => match ec {
                ErrorCorrection::L => lemma_two_groups(26, 8, 106, 4, 107, 1276),
                ErrorCorrection::M => lemma_two_groups(28, 8, 47, 13, 48, 1000),
                ErrorCorrection::Q => lemma_two_groups(30, 7, 24, 22, 25, 718),
                ErrorCorrection::H => lemma_two_groups(30, 22, 15, 13, 16, 538),
            },
            QRCodeVersion::V26 => match ec {
                ErrorCorrection::L => lemma_two_groups(28, 10, 114, 2, 115, 1370),
                ErrorCorrection::M => lemma_two_groups(28, 19, 46, 4, 47, 1062),
                ErrorCorrection::Q => lemma_two_groups(28, 28, 22, 6, 23, 754),
                ErrorCorrection::H => lemma_two_groups(30, 33, 16, 4, 17, 596),
            },
            QRCodeVersion::V27 => match ec {
                ErrorCorrection::L => lemma_two_groups(30, 8, 122, 4, 123, 1468),
                ErrorCorrection::M => lemma_two_groups(28, 22, 45, 3, 46, 1128),
                ErrorCorrection::Q => lemma_two_groups(30, 8, 23, 26, 24, 808),
                ErrorCorrection::H => lemma_two_groups(30, 12, 15, 28, 16, 628),
            },
            QRCodeVersion::V28 => match ec {
                ErrorCorrection::L => lemma_two_groups(30, 3, 117, 10, 118, 1531),
                ErrorCorrection::M => lemma_two_groups(28, 3, 45, 23, 46, 1193),
                ErrorCorrection::Q => lemma_two_groups(30, 4, 24, 31, 25, 871),
                ErrorCorrection::H => lemma_two_groups(30, 11, 15, 31, 16, 661),
            },
            QRCodeVersion::V29 => match ec {
                ErrorCorrection::L => lemma_two_groups(30, 7, 116, 7, 117, 1631),
                ErrorCorrection::M => lemma_two_groups(28, 21, 45, 7, 46, 1267),
                ErrorCorrection::Q => lemma_two_groups(30, 1, 23, 37, 24, 911),
                ErrorCorrection::H => lemma_two_groups(30, 19, 15, 26, 16, 701),
            },
            QRCodeVersion::V30 => match ec {
                ErrorCorrection::L => lemma_two_groups(30, 5, 115, 10, 116, 1735),
                ErrorCorrection::M => lemma_two_groups(28, 19, 47, 10, 48, 1373),
                ErrorCorrection::Q => lemma_two_groups(30, 15, 24, 25, 25, 985),
                ErrorCorrection::H => lemma_two_groups(30, 23, 15, 25, 16, 745),
            },
            QRCodeVersion::V31 => match ec {
                ErrorCorrection::L => lemma_two_groups(30, 13, 115, 3, 116, 1843),
                ErrorCorrection::M => lemma_two_groups(28, 2, 46, 29, 47, 1455),
                ErrorCorrection::Q => lemma_two_groups(30, 42, 24, 1, 25, 1033),
                ErrorCorrection::H => lemma_two_groups(30, 23, 15, 28, 16, 793),
            },
            QRCodeVersion::V32 => match ec {
                ErrorCorrection::L => lemma_one_group(30, 17, 115, 1955),
                ErrorCorrection::M => lemma_two_groups(28, 10, 46, 23, 47, 1541),
                ErrorCorrection::Q => lemma_two_groups(30, 10, 24, 35, 25, 1115),
                ErrorCorrection::H => lemma_two_groups(30, 19, 15, 35, 16, 845),
            },
            QRCodeVersion::V33 => match ec {
                ErrorCorrection::L => lemma_two_groups(30, 17, 115, 1, 116, 2071),
                ErrorCorrection::M => lemma_two_groups(28, 14, 46, 21, 47, 1631),
                ErrorCorrection::Q => lemma_two_groups(30, 29, 24, 19, 25, 1171),
                ErrorCorrection::H => lemma_two_groups(30, 11, 15, 46, 16, 901),
            },
            QRCodeVersion::V34 => match ec {
                ErrorCorrection::L => lemma_two_groups(30, 13, 115, 6, 116, 2191),
                ErrorCorrection::M => lemma_two_groups(28, 14, 46, 23, 47, 1725),
                ErrorCorrection::Q => lemma_two_groups(30, 44, 24, 7, 25, 1231),
                ErrorCorrection::H => lemma_two_groups(30, 59, 16, 1, 17, 961),
            },
            QRCodeVersion::V35 => match ec {
                ErrorCorrection::L => lemma_two_groups(30, 12, 121, 7, 122, 2306),
                ErrorCorrection::M => lemma_two_groups(28, 12, 47, 26, 48, 1812),
                ErrorCorrection::Q => lemma_two_groups(30, 39, 24, 14, 25, 1286),
                ErrorCorrection::H => lemma_two_groups(30, 22, 15, 41, 16, 986),
            },
            QRCodeVersion::V36 => match ec {
                ErrorCorrection::L => lemma_two_groups(30, 6, 121, 14, 122, 2434),
                ErrorCorrection::M => lemma_two_groups(28, 6, 47, 34, 48, 1914),
                ErrorCorrection::Q => lemma_two_groups(30, 46, 24, 10, 25, 1354),
                ErrorCorrection::H => lemma_two_groups(30, 2, 15, 64, 16, 1054),
            },
            QRCodeVersion::V37 => match ec {
                ErrorCorrection::L => lemma_two_groups(30, 17, 122, 4, 123, 2566),
                ErrorCorrection::M => lemma_two_groups(28, 29, 46, 14, 47, 1992),
                ErrorCorrection::Q => lemma_two_groups(30, 49, 24, 10, 25, 1426),
                ErrorCorrection::H => lemma_two_groups(30, 24, 15, 46, 16, 1096),
            },
            QRCodeVersion::V38 => match ec {
                ErrorCorrection::L => lemma_two_groups(30, 4, 122, 18, 123, 2702),
                ErrorCorrection::M => lemma_two_groups(28, 13, 46, 32, 47, 2102),
                ErrorCorrection::Q => lemma_two_groups(30, 48, 24, 14, 25, 1502),
                ErrorCorrection::H => lemma_two_groups(30, 42, 15, 32, 16, 1142),
            },
            QRCodeVersion::V39 => match ec {
                ErrorCorrection::L => lemma_two_groups(30, 20, 117, 4, 118, 2812),
                ErrorCorrection::M => lemma_two_groups(28, 40, 47, 7, 48, 2216),
                ErrorCorrection::Q => lemma_two_groups(30, 43, 24, 22, 25, 1582),
                ErrorCorrection::H => lemma_two_groups(30, 10, 15, 67, 16, 1222),
            },
            QRCodeVersion::V40 => match ec {
                ErrorCorrection::L => lemma_two_groups(30, 19, 118, 6, 119, 2956),
                ErrorCorrection::M => lemma_two_groups(28, 18, 47, 31, 48, 2334),
                ErrorCorrection::Q => lemma_two_groups(30, 34, 24, 34, 25, 1666),
                ErrorCorrection::H => lemma_two_groups(30, 20, 15, 61, 16, 1276),
            },
        }
    }

    /// The way the data codewords are split into blocks in this version at
    /// level `ec`.
    #[inline]
    #[must_use]
    pub fn split(self, ec: ErrorCorrection) -> (groups: GroupSplit)
        ensures
            groups == self.spec_split(ec),
            groups.data_total() == self.capacity(ec),
    {
        proof {
            self.lemma_split_covers_capacity(ec);
        }
        match self {
            QRCodeVersion::V1 => match ec {
                ErrorCorrection::L => one(7, 1, 19),
                ErrorCorrection::M => one(10, 1, 16),
                ErrorCorrection::Q => one(13, 1, 13),
                ErrorCorrection::H => one(17, 1, 9),
            },
            QRCodeVersion::V2 => match ec {
                ErrorCorrection::L => one(10, 1, 34),
                ErrorCorrection::M => one(16, 1, 28),
                ErrorCorrection::Q => one(22, 1, 22),
                ErrorCorrection::H => one(28, 1, 16),
            },
            QRCodeVersion::V3 => match ec {
                ErrorCorrection::L => one(15, 1, 55),
                ErrorCorrection::M => one(26, 1, 44),
                ErrorCorrection::Q => one(18, 2, 17),
                ErrorCorrection::H => one(22, 2, 13),
            },
            QRCodeVersion::V4 => match ec {
                ErrorCorrection::L => one(20, 1, 80),
                ErrorCorrection::M => one(18, 2, 32),
                ErrorCorrection::Q => one(26, 2, 24),
                ErrorCorrection::H => one(16, 4, 9),
            },
            QRCodeVersion::V5 => match ec {
                ErrorCorrection::L => one(26, 1, 108),
                ErrorCorrection::M => one(24, 2, 43),
                ErrorCorrection::Q => two(18, 2, 15, 2, 16),
                ErrorCorrection::H => two(22, 2, 11, 2, 12),
            },
            QRCodeVersion::V6 => match ec {
                ErrorCorrection::L => one(18, 2, 68),
                ErrorCorrection::M => one(16, 4, 27),
                ErrorCorrection::Q => one(24, 4, 19),
                ErrorCorrection::H => one(28, 4, 15),
            },
            QRCodeVersion::V7 => match ec {
                ErrorCorrection::L => one(20, 2, 78),
                ErrorCorrection::M => one(18, 4, 31),
                ErrorCorrection::Q => two(18, 2, 14, 4, 15),
                ErrorCorrection::H => two(26, 4, 13, 1, 14),
            },
            QRCodeVersion::V8 => match ec {
                ErrorCorrection::L => one(24, 2, 97),
                ErrorCorrection::M => two(22, 2, 38, 2, 39),
                ErrorCorrection::Q => two(22, 4, 18, 2, 19),
                ErrorCorrection::H => two(26, 4, 14, 2, 15),
            },
            QRCodeVersion::V9 => match ec {
                ErrorCorrection::L => one(30, 2, 116),
                ErrorCorrection::M => two(22, 3, 36, 2, 37),
                ErrorCorrection::Q => two(20, 4, 16, 4, 17),
                ErrorCorrection::H => two(24, 4, 12, 4, 13),
            },
            QRCodeVersion::V10 => match ec {
                ErrorCorrection::L => two(18, 2, 68, 2, 69),
                ErrorCorrection::M => two(26, 4, 43, 1, 44),
                ErrorCorrection::Q => two(24, 6, 19, 2, 20),
                ErrorCorrection::H => two(28, 6, 15, 2, 16),
            },
            QRCodeVersion::V11 => match ec {
                ErrorCorrection::L => one(20, 4, 81),
                ErrorCorrection::M => two(30, 1, 50, 4, 51),
                ErrorCorrection::Q => two(28, 4, 22, 4, 23),
                ErrorCorrection::H => two(24, 3, 12, 8, 13),
            },
            QRCodeVersion::V12 => match ec {
                ErrorCorrection::L => two(24, 2, 92, 2, 93),
                ErrorCorrection::M => two(22, 6, 36, 2, 37),
                ErrorCorrection::Q => two(26, 4, 20, 6, 21),
                ErrorCorrection::H => two(28, 7, 14, 4, 15),
            },
            QRCodeVersion::V13 => match ec {
                ErrorCorrection::L => one(26, 4, 107),
                ErrorCorrection::M => two(22, 8, 37, 1, 38),
                ErrorCorrection::Q => two(24, 8, 20, 4, 21),
                ErrorCorrection::H => two(22, 12, 11, 4, 12),
            },
            QRCodeVersion::V14 => match ec {
                ErrorCorrection::L => two(30, 3, 115, 1, 116),
                ErrorCorrection::M => two(24, 4, 40, 5, 41),
                ErrorCorrection::Q => two(20, 11, 16, 5, 17),
                ErrorCorrection::H => two(24, 11, 12, 5, 13),
            },
            QRCodeVersion::V15 => match ec {
                ErrorCorrection::L => two(22, 5, 87, 1, 88),
                ErrorCorrection::M => two(24, 5, 41, 5, 42),
                ErrorCorrection::Q => two(30, 5, 24, 7, 25),
                ErrorCorrection::H => two(24, 11, 12, 7, 13),
            },
            QRCodeVersion::V16 => match ec {
                ErrorCorrection::L => two(24, 5, 98, 1, 99),
                ErrorCorrection::M => two(28, 7, 45, 3, 46),
                ErrorCorrection::Q => two(24, 15, 19, 2, 20),
                ErrorCorrection::H => two(30, 3, 15, 13, 16),
            },
            QRCodeVersion::V17 => match ec {
                ErrorCorrection::L => two(28, 1, 107, 5, 108),
                ErrorCorrection::M => two(28, 10, 46, 1, 47),
                ErrorCorrection::Q => two(28, 1, 22, 15, 23),
                ErrorCorrection::H => two(28, 2, 14, 17, 15),
            },
            QRCodeVersion::V18 => match ec {
                ErrorCorrection::L => two(30, 5, 120, 1, 121),
                ErrorCorrection::M => two(26, 9, 43, 4, 44),
                ErrorCorrection::Q => two(28, 17, 22, 1, 23),
                ErrorCorrection::H => two(28, 2, 14, 19, 15),
            },
            QRCodeVersion::V19 => match ec {
                ErrorCorrection::L => two(28, 3, 113, 4, 114),
                ErrorCorrection::M => two(26, 3, 44, 11, 45),
                ErrorCorrection::Q => two(26, 17, 21, 4, 22),
                ErrorCorrection::H => two(26, 9, 13, 16, 14),
            },
            QRCodeVersion::V20 => match ec {
                ErrorCorrection::L => two(28, 3, 107, 5, 108),
                ErrorCorrection::M => two(26, 3, 41, 13, 42),
                ErrorCorrection::Q => two(30, 15, 24, 5, 25),
                ErrorCorrection::H => two(28, 15, 15, 10, 16),
            },
            QRCodeVersion::V21 => match ec {
                ErrorCorrection::L => two(28, 4, 116, 4, 117),
                ErrorCorrection::M => one(26, 17, 42),
                ErrorCorrection::Q => two(28, 17, 22, 6, 23),
                ErrorCorrection::H => two(30, 19, 16, 6, 17),
            },
            QRCodeVersion::V22 => match ec {
                ErrorCorrection::L => two(28, 2, 111, 7, 112),
                ErrorCorrection::M => one(28, 17, 46),
                ErrorCorrection::Q => two(30, 7, 24, 16, 25),
                ErrorCorrection::H => one(24, 34, 13),
            },
            QRCodeVersion::V23 => match ec {
                ErrorCorrection::L => two(30, 4, 121, 5, 122),
                ErrorCorrection::M => two(28, 4, 47, 14, 48),
                ErrorCorrection::Q => two(30, 11, 24, 14, 25),
                ErrorCorrection::H => two(30, 16, 15, 14, 16),
            },
            QRCodeVersion::V24 => match ec {
                ErrorCorrection::L => two(30, 6, 117, 4, 118),
                ErrorCorrection::M => two(28, 6, 45, 14, 46),
                ErrorCorrection::Q => two(30, 11, 24, 16, 25),
                ErrorCorrection::H => two(30, 30, 16, 2, 17),
            },
            QRCodeVersion::V25 => match ec {
                ErrorCorrection::L => two(26, 8, 106, 4, 107),
                ErrorCorrection::M => two(28, 8, 47, 13, 48),
                ErrorCorrection::Q => two(30, 7, 24, 22, 25),
                ErrorCorrection::H => two(30, 22, 15, 13, 16),
            },
            QRCodeVersion::V26 => match ec {
                ErrorCorrection::L => two(28, 10, 114, 2, 115),
                ErrorCorrection::M => two(28, 19, 46, 4, 47),
                ErrorCorrection::Q => two(28, 28, 22, 6, 23),
                ErrorCorrection::H => two(30, 33, 16, 4, 17),
            },
            QRCodeVersion::V27 => match ec {
                ErrorCorrection::L => two(30, 8, 122, 4, 123),
                ErrorCorrection::M => two(28, 22, 45, 3, 46),
                ErrorCorrection::Q => two(30, 8, 23, 26, 24),
                ErrorCorrection::H => two(30, 12, 15, 28, 16),
            },
            QRCodeVersion::V28 => match ec {
                ErrorCorrection::L => two(30, 3, 117, 10, 118),
                ErrorCorrection::M => two(28, 3, 45, 23, 46),
                ErrorCorrection::Q => two(30, 4, 24, 31, 25),
                ErrorCorrection::H => two(30, 11, 15, 31, 16),
            },
            QRCodeVersion::V29 => match ec {
                ErrorCorrection::L => two(30, 7, 116, 7, 117),
                ErrorCorrection::M => two(28, 21, 45, 7, 46),
                ErrorCorrection::Q => two(30, 1, 23, 37, 24),
                ErrorCorrection::H => two(30, 19, 15, 26, 16),
            },
            QRCodeVersion::V30 => match ec {
                ErrorCorrection::L => two(30, 5, 115, 10, 116),
                ErrorCorrection::M => two(28, 19, 47, 10, 48),
                ErrorCorrection::Q => two(30, 15, 24, 25, 25),
                ErrorCorrection::H => two(30, 23, 15, 25, 16),
            },
            QRCodeVersion::V31 => match ec {
                ErrorCorrection::L => two(30, 13, 115, 3, 116),
                ErrorCorrection::M => two(28, 2, 46, 29, 47),
                ErrorCorrection::Q => two(30, 42, 24, 1, 25),
                ErrorCorrection::H => two(30, 23, 15, 28, 16),
            },
            QRCodeVersion::V32 => match ec {
                ErrorCorrection::L => one(30, 17, 115),
                ErrorCorrection::M => two(28, 10, 46, 23, 47),
                ErrorCorrection::Q => two(30, 10, 24, 35, 25),
                ErrorCorrection::H => two(30, 19, 15, 35, 16),
            },
            QRCodeVersion::V33 => match ec {
                ErrorCorrection::L => two(30, 17, 115, 1, 116),
                ErrorCorrection::M => two(28, 14, 46, 21, 47),
                ErrorCorrection::Q => two(30, 29, 24, 19, 25),
                ErrorCorrection::H => two(30, 11, 15, 46, 16),
            },
            QRCodeVersion::V34 => match ec {
                ErrorCorrection::L => two(30, 13, 115, 6, 116),
                ErrorCorrection::M => two(28, 14, 46, 23, 47),
                ErrorCorrection::Q => two(30, 44, 24, 7, 25),
                ErrorCorrection::H => two(30, 59, 16, 1, 17),
            },
            QRCodeVersion::V35 => match ec {
                ErrorCorrection::L => two(30, 12, 121, 7, 122),
                ErrorCorrection::M => two(28, 12, 47, 26, 48),
                ErrorCorrection::Q => two(30, 39, 24, 14, 25),
                ErrorCorrection::H => two(30, 22, 15, 41, 16),
            },
            QRCodeVersion::V36 => match ec {
                ErrorCorrection::L => two(30, 6, 121, 14, 122),
                ErrorCorrection::M => two(28, 6, 47, 34, 48),
                ErrorCorrection::Q => two(30, 46, 24, 10, 25),
                ErrorCorrection::H => two(30, 2, 15, 64, 16),
            },
            QRCodeVersion::V37 => match ec {
                ErrorCorrection::L => two(30, 17, 122, 4, 123),
                ErrorCorrection::M => two(28, 29, 46, 14, 47),
                ErrorCorrection::Q => two(30, 49, 24, 10, 25),
                ErrorCorrection::H => two(30, 24, 15, 46, 16),
            },
            QRCodeVersion::V38 => match ec {
                ErrorCorrection::L => two(30, 4, 122, 18, 123),
                ErrorCorrection::M => two(28, 13, 46, 32, 47),
                ErrorCorrection::Q => two(30, 48, 24, 14, 25),
                ErrorCorrection::H => two(30, 42, 15, 32, 16),
            },
            QRCodeVersion::V39 => match ec {
                ErrorCorrection::L => two(30, 20, 117, 4, 118),
                ErrorCorrection::M => two(28, 40, 47, 7, 48),
                ErrorCorrection::Q => two(30, 43, 24, 22, 25),
                ErrorCorrection::H => two(30, 10, 15, 67, 16),
            },
            QRCodeVersion::V40 => match ec {
                ErrorCorrection::L => two(30, 19, 118, 6, 119),
                ErrorCorrection::M => two(28, 18, 47, 31, 48),
                ErrorCorrection::Q => two(30, 34, 24, 34, 25),
                ErrorCorrection::H => two(30, 20, 15, 61, 16),
            },
        }
    }
}

} // verus!
