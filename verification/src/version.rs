//! Symbol versions, error correction levels and the capacity table.

use vstd::prelude::*;

verus! {

/// How much of a symbol is given to error correction: `L` the least, `H` the
/// most.
#[derive(Debug, Clone, Copy, PartialEq, Eq, Structural)]
pub enum ErrorCorrection {
    L,
    M,
    Q,
    H,
}

/// The forty symbol sizes.
#[derive(Debug, Clone, Copy, PartialEq, Eq, Structural, PartialOrd, Ord)]
pub enum QRCodeVersion {
    V1,
    V2,
    V3,
    V4,
    V5,
    V6,
    V7,
    V8,
    V9,
    V10,
    V11,
    V12,
    V13,
    V14,
    V15,
    V16,
    V17,
    V18,
    V19,
    V20,
    V21,
    V22,
    V23,
    V24,
    V25,
    V26,
    V27,
    V28,
    V29,
    V30,
    V31,
    V32,
    V33,
    V34,
    V35,
    V36,
    V37,
    V38,
    V39,
    V40,
}

impl QRCodeVersion {
    /// The version's number, from 1 to 40.
    pub open spec fn number(self) -> nat {
        match self {
            QRCodeVersion::V1 => 1,
            QRCodeVersion::V2 => 2,
            QRCodeVersion::V3 => 3,
            QRCodeVersion::V4 => 4,
            QRCodeVersion::V5 => 5,
            QRCodeVersion::V6 => 6,
            QRCodeVersion::V7 => 7,
            QRCodeVersion::V8 => 8,
            QRCodeVersion::V9 => 9,
            QRCodeVersion::V10 => 10,
            QRCodeVersion::V11 => 11,
            QRCodeVersion::V12 => 12,
            QRCodeVersion::V13 => 13,
            QRCodeVersion::V14 => 14,
            QRCodeVersion::V15 => 15,
            QRCodeVersion::V16 => 16,
            QRCodeVersion::V17 => 17,
            QRCodeVersion::V18 => 18,
            QRCodeVersion::V19 => 19,
            QRCodeVersion::V20 => 20,
            QRCodeVersion::V21 => 21,
            QRCodeVersion::V22 => 22,
            QRCodeVersion::V23 => 23,
            QRCodeVersion::V24 => 24,
            QRCodeVersion::V25 => 25,
            QRCodeVersion::V26 => 26,
            QRCodeVersion::V27 => 27,
            QRCodeVersion::V28 => 28,
            QRCodeVersion::V29 => 29,
            QRCodeVersion::V30 => 30,
            QRCodeVersion::V31 => 31,
            QRCodeVersion::V32 => 32,
            QRCodeVersion::V33 => 33,
            QRCodeVersion::V34 => 34,
            QRCodeVersion::V35 => 35,
            QRCodeVersion::V36 => 36,
            QRCodeVersion::V37 => 37,
            QRCodeVersion::V38 => 38,
            QRCodeVersion::V39 => 39,
            QRCodeVersion::V40 => 40,
        }
    }

    /// The number of data codewords of a symbol of this version at level `ec`.
    pub open spec fn capacity(self, ec: ErrorCorrection) -> nat {
        match ec {
            ErrorCorrection::L => match self {
                QRCodeVersion::V1 => 19,
                QRCodeVersion::V2 => 34,
                QRCodeVersion::V3 => 55,
                QRCodeVersion::V4 => 80,
                QRCodeVersion::V5 => 108,
                QRCodeVersion::V6 => 136,
                QRCodeVersion::V7 => 156,
                QRCodeVersion::V8 => 194,
                QRCodeVersion::V9 => 232,
                QRCodeVersion::V10 => 274,
                QRCodeVersion::V11 => 324,
                QRCodeVersion::V12 => 370,
                QRCodeVersion::V13 => 428,
                QRCodeVersion::V14 => 461,
                QRCodeVersion::V15 => 523,
                QRCodeVersion::V16 => 589,
                QRCodeVersion::V17 => 647,
                QRCodeVersion::V18 => 721,
                QRCodeVersion::V19 => 795,
                QRCodeVersion::V20 => 861,
                QRCodeVersion::V21 => 932,
                QRCodeVersion::V22 => 1006,
                QRCodeVersion::V23 => 1094,
                QRCodeVersion::V24 => 1174,
                QRCodeVersion::V25 => 1276,
                QRCodeVersion::V26 => 1370,
                QRCodeVersion::V27 => 1468,
                QRCodeVersion::V28 => 1531,
                QRCodeVersion::V29 => 1631,
                QRCodeVersion::V30 => 1735,
                QRCodeVersion::V31 => 1843,
                QRCodeVersion::V32 => 1955,
                QRCodeVersion::V33 => 2071,
                QRCodeVersion::V34 => 2191,
                QRCodeVersion::V35 => 2306,
                QRCodeVersion::V36 => 2434,
                QRCodeVersion::V37 => 2566,
                QRCodeVersion::V38 => 2702,
                QRCodeVersion::V39 => 2812,
                QRCodeVersion::V40 => 2956,
            },
            ErrorCorrection::M => match self {
                QRCodeVersion::V1 => 16,
                QRCodeVersion::V2 => 28,
                QRCodeVersion::V3 => 44,
                QRCodeVersion::V4 => 64,
                QRCodeVersion::V5 => 86,
                QRCodeVersion::V6 => 108,
                QRCodeVersion::V7 => 124,
                QRCodeVersion::V8 => 154,
                QRCodeVersion::V9 => 182,
                QRCodeVersion::V10 => 216,
                QRCodeVersion::V11 => 254,
                QRCodeVersion::V12 => 290,
                QRCodeVersion::V13 => 334,
                QRCodeVersion::V14 => 365,
                QRCodeVersion::V15 => 415,
                QRCodeVersion::V16 => 453,
                QRCodeVersion::V17 => 507,
                QRCodeVersion::V18 => 563,
                QRCodeVersion::V19 => 627,
                QRCodeVersion::V20 => 669,
                QRCodeVersion::V21 => 714,
                QRCodeVersion::V22 => 782,
                QRCodeVersion::V23 => 860,
                QRCodeVersion::V24 => 914,
                QRCodeVersion::V25 => 1000,
                QRCodeVersion::V26 => 1062,
                QRCodeVersion::V27 => 1128,
                QRCodeVersion::V28 => 1193,
                QRCodeVersion::V29 => 1267,
                QRCodeVersion::V30 => 1373,
                QRCodeVersion::V31 => 1455,
                QRCodeVersion::V32 => 1541,
                QRCodeVersion::V33 => 1631,
                QRCodeVersion::V34 => 1725,
                QRCodeVersion::V35 => 1812,
                QRCodeVersion::V36 => 1914,
                QRCodeVersion::V37 => 1992,
                QRCodeVersion::V38 => 2102,
                QRCodeVersion::V39 => 2216,
                QRCodeVersion::V40 => 2334,
            },
            ErrorCorrection::Q => match self {
                QRCodeVersion::V1 => 13,
                QRCodeVersion::V2 => 22,
                QRCodeVersion::V3 => 34,
                QRCodeVersion::V4 => 48,
                QRCodeVersion::V5 => 62,
                QRCodeVersion::V6 => 76,
                QRCodeVersion::V7 => 88,
                QRCodeVersion::V8 => 110,
                QRCodeVersion::V9 => 132,
                QRCodeVersion::V10 => 154,
                QRCodeVersion::V11 => 180,
                QRCodeVersion::V12 => 206,
                QRCodeVersion::V13 => 244,
                QRCodeVersion::V14 => 261,
                QRCodeVersion::V15 => 295,
                QRCodeVersion::V16 => 325,
                QRCodeVersion::V17 => 367,
                QRCodeVersion::V18 => 397,
                QRCodeVersion::V19 => 445,
                QRCodeVersion::V20 => 485,
                QRCodeVersion::V21 => 512,
                QRCodeVersion::V22 => 568,
                QRCodeVersion::V23 => 614,
                QRCodeVersion::V24 => 664,
                QRCodeVersion::V25 => 718,
                QRCodeVersion::V26 => 754,
                QRCodeVersion::V27 => 808,
                QRCodeVersion::V28 => 871,
                QRCodeVersion::V29 => 911,
                QRCodeVersion::V30 => 985,
                QRCodeVersion::V31 => 1033,
                QRCodeVersion::V32 => 1115,
                QRCodeVersion::V33 => 1171,
                QRCodeVersion::V34 => 1231,
                QRCodeVersion::V35 => 1286,
                QRCodeVersion::V36 => 1354,
                QRCodeVersion::V37 => 1426,
                QRCodeVersion::V38 => 1502,
                QRCodeVersion::V39 => 1582,
                QRCodeVersion::V40 => 1666,
            },
            ErrorCorrection::H => match self {
                QRCodeVersion::V1 => 9,
                QRCodeVersion::V2 => 16,
                QRCodeVersion::V3 => 26,
                QRCodeVersion::V4 => 36,
                QRCodeVersion::V5 => 46,
                QRCodeVersion::V6 => 60,
                QRCodeVersion::V7 => 66,
                QRCodeVersion::V8 => 86,
                QRCodeVersion::V9 => 100,
                QRCodeVersion::V10 => 122,
                QRCodeVersion::V11 => 140,
                QRCodeVersion::V12 => 158,
                QRCodeVersion::V13 => 180,
                QRCodeVersion::V14 => 197,
                QRCodeVersion::V15 => 223,
                QRCodeVersion::V16 => 253,
                QRCodeVersion::V17 => 283,
                QRCodeVersion::V18 => 313,
                QRCodeVersion::V19 => 341,
                QRCodeVersion::V20 => 385,
                QRCodeVersion::V21 => 406,
                QRCodeVersion::V22 => 442,
                QRCodeVersion::V23 => 464,
                QRCodeVersion::V24 => 514,
                QRCodeVersion::V25 => 538,
                QRCodeVersion::V26 => 596,
                QRCodeVersion::V27 => 628,
                QRCodeVersion::V28 => 661,
                QRCodeVersion::V29 => 701,
                QRCodeVersion::V30 => 745,
                QRCodeVersion::V31 => 793,
                QRCodeVersion::V32 => 845,
                QRCodeVersion::V33 => 901,
                QRCodeVersion::V34 => 961,
                QRCodeVersion::V35 => 986,
                QRCodeVersion::V36 => 1054,
                QRCodeVersion::V37 => 1096,
                QRCodeVersion::V38 => 1142,
                QRCodeVersion::V39 => 1222,
                QRCodeVersion::V40 => 1276,
            },
        }
    }

    /// A larger version holds more data at every level.
    pub proof fn lemma_capacity_grows(self, other: QRCodeVersion, ec: ErrorCorrection)
        requires
            self.number() < other.number(),
        ensures
            self.capacity(ec) < other.capacity(ec),
    {
    }

    /// A stronger level leaves less room for data in every version.
    pub proof fn lemma_capacity_by_level(self)
        ensures
            self.capacity(ErrorCorrection::L) > self.capacity(ErrorCorrection::M),
            self.capacity(ErrorCorrection::M) > self.capacity(ErrorCorrection::Q),
            self.capacity(ErrorCorrection::Q) > self.capacity(ErrorCorrection::H),
            self.capacity(ErrorCorrection::H) >= 9,
            self.capacity(ErrorCorrection::L) <= 2956,
    {
    }

    /// The number of data codewords of a symbol of this version at level `ec`.
    #[inline]
    #[must_use]
    pub fn data_size(self, ec: ErrorCorrection) -> (size: usize)
        ensures
            size == self.capacity(ec),
    {
        match ec {
            ErrorCorrection::L => match self {
                QRCodeVersion::V1 => 19,
                QRCodeVersion::V2 => 34,
                QRCodeVersion::V3 => 55,
                QRCodeVersion::V4 => 80,
                QRCodeVersion::V5 => 108,
                QRCodeVersion::V6 => 136,
                QRCodeVersion::V7 => 156,
                QRCodeVersion::V8 => 194,
                QRCodeVersion::V9 => 232,
                QRCodeVersion::V10 => 274,
                QRCodeVersion::V11 => 324,
                QRCodeVersion::V12 => 370,
                QRCodeVersion::V13 => 428,
                QRCodeVersion::V14 => 461,
                QRCodeVersion::V15 => 523,
                QRCodeVersion::V16 => 589,
                QRCodeVersion::V17 => 647,
                QRCodeVersion::V18 => 721,
                QRCodeVersion::V19 => 795,
                QRCodeVersion::V20 => 861,
                QRCodeVersion::V21 => 932,
                QRCodeVersion::V22 => 1006,
                QRCodeVersion::V23 => 1094,
                QRCodeVersion::V24 => 1174,
                QRCodeVersion::V25 => 1276,
                QRCodeVersion::V26 => 1370,
                QRCodeVersion::V27 => 1468,
                QRCodeVersion::V28 => 1531,
                QRCodeVersion::V29 => 1631,
                QRCodeVersion::V30 => 1735,
                QRCodeVersion::V31 => 1843,
                QRCodeVersion::V32 => 1955,
                QRCodeVersion::V33 => 2071,
                QRCodeVersion::V34 => 2191,
                QRCodeVersion::V35 => 2306,
                QRCodeVersion::V36 => 2434,
                QRCodeVersion::V37 => 2566,
                QRCodeVersion::V38 => 2702,
                QRCodeVersion::V39 => 2812,
                QRCodeVersion::V40 => 2956,
            },
            ErrorCorrection::M => match self {
                QRCodeVersion::V1 => 16,
                QRCodeVersion::V2 => 28,
                QRCodeVersion::V3 => 44,
                QRCodeVersion::V4 => 64,
                QRCodeVersion::V5 => 86,
                QRCodeVersion::V6 => 108,
                QRCodeVersion::V7 => 124,
                QRCodeVersion::V8 => 154,
                QRCodeVersion::V9 => 182,
                QRCodeVersion::V10 => 216,
                QRCodeVersion::V11 => 254,
                QRCodeVersion::V12 => 290,
                QRCodeVersion::V13 => 334,
                QRCodeVersion::V14 => 365,
                QRCodeVersion::V15 => 415,
                QRCodeVersion::V16 => 453,
                QRCodeVersion::V17 => 507,
                QRCodeVersion::V18 => 563,
                QRCodeVersion::V19 => 627,
                QRCodeVersion::V20 => 669,
                QRCodeVersion::V21 => 714,
                QRCodeVersion::V22 => 782,
                QRCodeVersion::V23 => 860,
                QRCodeVersion::V24 => 914,
                QRCodeVersion::V25 => 1000,
                QRCodeVersion::V26 => 1062,
                QRCodeVersion::V27 => 1128,
                QRCodeVersion::V28 => 1193,
                QRCodeVersion::V29 => 1267,
                QRCodeVersion::V30 => 1373,
                QRCodeVersion::V31 => 1455,
                QRCodeVersion::V32 => 1541,
                QRCodeVersion::V33 => 1631,
                QRCodeVersion::V34 => 1725,
                QRCodeVersion::V35 => 1812,
                QRCodeVersion::V36 => 1914,
                QRCodeVersion::V37 => 1992,
                QRCodeVersion::V38 => 2102,
                QRCodeVersion::V39 => 2216,
                QRCodeVersion::V40 => 2334,
            },
            ErrorCorrection::Q => match self {
                QRCodeVersion::V1 => 13,
                QRCodeVersion::V2 => 22,
                QRCodeVersion::V3 => 34,
                QRCodeVersion::V4 => 48,
                QRCodeVersion::V5 => 62,
                QRCodeVersion::V6 => 76,
                QRCodeVersion::V7 => 88,
                QRCodeVersion::V8 => 110,
                QRCodeVersion::V9 => 132,
                QRCodeVersion::V10 => 154,
                QRCodeVersion::V11 => 180,
                QRCodeVersion::V12 => 206,
                QRCodeVersion::V13 => 244,
                QRCodeVersion::V14 => 261,
                QRCodeVersion::V15 => 295,
                QRCodeVersion::V16 => 325,
                QRCodeVersion::V17 => 367,
                QRCodeVersion::V18 => 397,
                QRCodeVersion::V19 => 445,
                QRCodeVersion::V20 => 485,
                QRCodeVersion::V21 => 512,
                QRCodeVersion::V22 => 568,
                QRCodeVersion::V23 => 614,
                QRCodeVersion::V24 => 664,
                QRCodeVersion::V25 => 718,
                QRCodeVersion::V26 => 754,
                QRCodeVersion::V27 => 808,
                QRCodeVersion::V28 => 871,
                QRCodeVersion::V29 => 911,
                QRCodeVersion::V30 => 985,
                QRCodeVersion::V31 => 1033,
                QRCodeVersion::V32 => 1115,
                QRCodeVersion::V33 => 1171,
                QRCodeVersion::V34 => 1231,
                QRCodeVersion::V35 => 1286,
                QRCodeVersion::V36 => 1354,
                QRCodeVersion::V37 => 1426,
                QRCodeVersion::V38 => 1502,
                QRCodeVersion::V39 => 1582,
                QRCodeVersion::V40 => 1666,
            },
            ErrorCorrection::H => match self {
                QRCodeVersion::V1 => 9,
                QRCodeVersion::V2 => 16,
                QRCodeVersion::V3 => 26,
                QRCodeVersion::V4 => 36,
                QRCodeVersion::V5 => 46,
                QRCodeVersion::V6 => 60,
                QRCodeVersion::V7 => 66,
                QRCodeVersion::V8 => 86,
                QRCodeVersion::V9 => 100,
                QRCodeVersion::V10 => 122,
                QRCodeVersion::V11 => 140,
                QRCodeVersion::V12 => 158,
                QRCodeVersion::V13 => 180,
                QRCodeVersion::V14 => 197,
                QRCodeVersion::V15 => 223,
                QRCodeVersion::V16 => 253,
                QRCodeVersion::V17 => 283,
                QRCodeVersion::V18 => 313,
                QRCodeVersion::V19 => 341,
                QRCodeVersion::V20 => 385,
                QRCodeVersion::V21 => 406,
                QRCodeVersion::V22 => 442,
                QRCodeVersion::V23 => 464,
                QRCodeVersion::V24 => 514,
                QRCodeVersion::V25 => 538,
                QRCodeVersion::V26 => 596,
                QRCodeVersion::V27 => 628,
                QRCodeVersion::V28 => 661,
                QRCodeVersion::V29 => 701,
                QRCodeVersion::V30 => 745,
                QRCodeVersion::V31 => 793,
                QRCodeVersion::V32 => 845,
                QRCodeVersion::V33 => 901,
                QRCodeVersion::V34 => 961,
                QRCodeVersion::V35 => 986,
                QRCodeVersion::V36 => 1054,
                QRCodeVersion::V37 => 1096,
                QRCodeVersion::V38 => 1142,
                QRCodeVersion::V39 => 1222,
                QRCodeVersion::V40 => 1276,
            },
        }
    }

    /// The smallest version that holds `count` data codewords at level `ec`,
    /// if there is one.
    #[inline]
    #[must_use]
    pub fn fit_version(count: usize, ec: ErrorCorrection) -> (fit: Option<Self>)
        ensures
            match fit {
                Some(version) => {
                    &&& count <= version.capacity(ec)
                    &&& forall|smaller: QRCodeVersion|
                        smaller.number() < version.number() ==> #[trigger] smaller.capacity(ec)
                            < count
                },
                None => forall|any: QRCodeVersion| #[trigger] any.capacity(ec) < count,
            },
    {
        match ec {
            ErrorCorrection::L => match count {
                ..=19 => Some(QRCodeVersion::V1),
                ..=34 => Some(QRCodeVersion::V2),
                ..=55 => Some(QRCodeVersion::V3),
                ..=80 => Some(QRCodeVersion::V4),
                ..=108 => Some(QRCodeVersion::V5),
                ..=136 => Some(QRCodeVersion::V6),
                ..=156 => Some(QRCodeVersion::V7),
                ..=194 => Some(QRCodeVersion::V8),
                ..=232 => Some(QRCodeVersion::V9),
                ..=274 => Some(QRCodeVersion::V10),
                ..=324 => Some(QRCodeVersion::V11),
                ..=370 => Some(QRCodeVersion::V12),
                ..=428 => Some(QRCodeVersion::V13),
                ..=461 => Some(QRCodeVersion::V14),
                ..=523 => Some(QRCodeVersion::V15),
                ..=589 => Some(QRCodeVersion::V16),
                ..=647 => Some(QRCodeVersion::V17),
                ..=721 => Some(QRCodeVersion::V18),
                ..=795 => Some(QRCodeVersion::V19),
                ..=861 => Some(QRCodeVersion::V20),
                ..=932 => Some(QRCodeVersion::V21),
                ..=1006 => Some(QRCodeVersion::V22),
                ..=1094 => Some(QRCodeVersion::V23),
                ..=1174 => Some(QRCodeVersion::V24),
                ..=1276 => Some(QRCodeVersion::V25),
                ..=1370 => Some(QRCodeVersion::V26),
                ..=1468 => Some(QRCodeVersion::V27),
                ..=1531 => Some(QRCodeVersion::V28),
                ..=1631 => Some(QRCodeVersion::V29),
                ..=1735 => Some(QRCodeVersion::V30),
                ..=1843 => Some(QRCodeVersion::V31),
                ..=1955 => Some(QRCodeVersion::V32),
                ..=2071 => Some(QRCodeVersion::V33),
                ..=2191 => Some(QRCodeVersion::V34),
                ..=2306 => Some(QRCodeVersion::V35),
                ..=2434 => Some(QRCodeVersion::V36),
                ..=2566 => Some(QRCodeVersion::V37),
                ..=2702 => Some(QRCodeVersion::V38),
                ..=2812 => Some(QRCodeVersion::V39),
                ..=2956 => Some(QRCodeVersion::V40),
                _ => None,
            },
            ErrorCorrection::M => match count {
                ..=16 => Some(QRCodeVersion::V1),
                ..=28 => Some(QRCodeVersion::V2),
                ..=44 => Some(QRCodeVersion::V3),
                ..=64 => Some(QRCodeVersion::V4),
                ..=86 => Some(QRCodeVersion::V5),
                ..=108 => Some(QRCodeVersion::V6),
                ..=124 => Some(QRCodeVersion::V7),
                ..=154 => Some(QRCodeVersion::V8),
                ..=182 => Some(QRCodeVersion::V9),
                ..=216 => Some(QRCodeVersion::V10),
                ..=254 => Some(QRCodeVersion::V11),
                ..=290 => Some(QRCodeVersion::V12),
                ..=334 => Some(QRCodeVersion::V13),
                ..=365 => Some(QRCodeVersion::V14),
                ..=415 => Some(QRCodeVersion::V15),
                ..=453 => Some(QRCodeVersion::V16),
                ..=507 => Some(QRCodeVersion::V17),
                ..=563 => Some(QRCodeVersion::V18),
                ..=627 => Some(QRCodeVersion::V19),
                ..=669 => Some(QRCodeVersion::V20),
                ..=714 => Some(QRCodeVersion::V21),
                ..=782 => Some(QRCodeVersion::V22),
                ..=860 => Some(QRCodeVersion::V23),
                ..=914 => Some(QRCodeVersion::V24),
                ..=1000 => Some(QRCodeVersion::V25),
                ..=1062 => Some(QRCodeVersion::V26),
                ..=1128 => Some(QRCodeVersion::V27),
                ..=1193 => Some(QRCodeVersion::V28),
                ..=1267 => Some(QRCodeVersion::V29),
                ..=1373 => Some(QRCodeVersion::V30),
                ..=1455 => Some(QRCodeVersion::V31),
                ..=1541 => Some(QRCodeVersion::V32),
                ..=1631 => Some(QRCodeVersion::V33),
                ..=1725 => Some(QRCodeVersion::V34),
                ..=1812 => Some(QRCodeVersion::V35),
                ..=1914 => Some(QRCodeVersion::V36),
                ..=1992 => Some(QRCodeVersion::V37),
                ..=2102 => Some(QRCodeVersion::V38),
                ..=2216 => Some(QRCodeVersion::V39),
                ..=2334 => Some(QRCodeVersion::V40),
                _ => None,
            },
            ErrorCorrection::Q => match count {
                ..=13 => Some(QRCodeVersion::V1),
                ..=22 => Some(QRCodeVersion::V2),
                ..=34 => Some(QRCodeVersion::V3),
                ..=48 => Some(QRCodeVersion::V4),
                ..=62 => Some(QRCodeVersion::V5),
                ..=76 => Some(QRCodeVersion::V6),
                ..=88 => Some(QRCodeVersion::V7),
                ..=110 => Some(QRCodeVersion::V8),
                ..=132 => Some(QRCodeVersion::V9),
                ..=154 => Some(QRCodeVersion::V10),
                ..=180 => Some(QRCodeVersion::V11),
                ..=206 => Some(QRCodeVersion::V12),
                ..=244 => Some(QRCodeVersion::V13),
                ..=261 => Some(QRCodeVersion::V14),
                ..=295 => Some(QRCodeVersion::V15),
                ..=325 => Some(QRCodeVersion::V16),
                ..=367 => Some(QRCodeVersion::V17),
                ..=397 => Some(QRCodeVersion::V18),
                ..=445 => Some(QRCodeVersion::V19),
                ..=485 => Some(QRCodeVersion::V20),
                ..=512 => Some(QRCodeVersion::V21),
                ..=568 => Some(QRCodeVersion::V22),
                ..=614 => Some(QRCodeVersion::V23),
                ..=664 => Some(QRCodeVersion::V24),
                ..=718 => Some(QRCodeVersion::V25),
                ..=754 => Some(QRCodeVersion::V26),
                ..=808 => Some(QRCodeVersion::V27),
                ..=871 => Some(QRCodeVersion::V28),
                ..=911 => Some(QRCodeVersion::V29),
                ..=985 => Some(QRCodeVersion::V30),
                ..=1033 => Some(QRCodeVersion::V31),
                ..=1115 => Some(QRCodeVersion::V32),
                ..=1171 => Some(QRCodeVersion::V33),
                ..=1231 => Some(QRCodeVersion::V34),
                ..=1286 => Some(QRCodeVersion::V35),
                ..=1354 => Some(QRCodeVersion::V36),
                ..=1426 => Some(QRCodeVersion::V37),
                ..=1502 => Some(QRCodeVersion::V38),
                ..=1582 => Some(QRCodeVersion::V39),
                ..=1666 => Some(QRCodeVersion::V40),
                _ => None,
            },
            ErrorCorrection::H => match count {
                ..=9 => Some(QRCodeVersion::V1),
                ..=16 => Some(QRCodeVersion::V2),
                ..=26 => Some(QRCodeVersion::V3),
                ..=36 => Some(QRCodeVersion::V4),
                ..=46 => Some(QRCodeVersion::V5),
                ..=60 => Some(QRCodeVersion::V6),
                ..=66 => Some(QRCodeVersion::V7),
                ..=86 => Some(QRCodeVersion::V8),
                ..=100 => Some(QRCodeVersion::V9),
                ..=122 => Some(QRCodeVersion::V10),
                ..=140 => Some(QRCodeVersion::V11),
                ..=158 => Some(QRCodeVersion::V12),
                ..=180 => Some(QRCodeVersion::V13),
                ..=197 => Some(QRCodeVersion::V14),
                ..=223 => Some(QRCodeVersion::V15),
                ..=253 => Some(QRCodeVersion::V16),
                ..=283 => Some(QRCodeVersion::V17),
                ..=313 => Some(QRCodeVersion::V18),
                ..=341 => Some(QRCodeVersion::V19),
                ..=385 => Some(QRCodeVersion::V20),
                ..=406 => Some(QRCodeVersion::V21),
                ..=442 => Some(QRCodeVersion::V22),
                ..=464 => Some(QRCodeVersion::V23),
                ..=514 => Some(QRCodeVersion::V24),
                ..=538 => Some(QRCodeVersion::V25),
                ..=596 => Some(QRCodeVersion::V26),
                ..=628 => Some(QRCodeVersion::V27),
                ..=661 => Some(QRCodeVersion::V28),
                ..=701 => Some(QRCodeVersion::V29),
                ..=745 => Some(QRCodeVersion::V30),
                ..=793 => Some(QRCodeVersion::V31),
                ..=845 => Some(QRCodeVersion::V32),
                ..=901 => Some(QRCodeVersion::V33),
                ..=961 => Some(QRCodeVersion::V34),
                ..=986 => Some(QRCodeVersion::V35),
                ..=1054 => Some(QRCodeVersion::V36),
                ..=1096 => Some(QRCodeVersion::V37),
                ..=1142 => Some(QRCodeVersion::V38),
                ..=1222 => Some(QRCodeVersion::V39),
                ..=1276 => Some(QRCodeVersion::V40),
                _ => None,
            },
        }
    }
}

} // verus!
