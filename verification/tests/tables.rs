use easy_qr::encoding::count_bits_count;
use easy_qr::{BlockSplit, EncodingMode, ErrorCorrection, GroupSplit, QRCodeVersion};

const VERSIONS: [QRCodeVersion; 40] = [
    QRCodeVersion::V1,
    QRCodeVersion::V2,
    QRCodeVersion::V3,
    QRCodeVersion::V4,
    QRCodeVersion::V5,
    QRCodeVersion::V6,
    QRCodeVersion::V7,
    QRCodeVersion::V8,
    QRCodeVersion::V9,
    QRCodeVersion::V10,
    QRCodeVersion::V11,
    QRCodeVersion::V12,
    QRCodeVersion::V13,
    QRCodeVersion::V14,
    QRCodeVersion::V15,
    QRCodeVersion::V16,
    QRCodeVersion::V17,
    QRCodeVersion::V18,
    QRCodeVersion::V19,
    QRCodeVersion::V20,
    QRCodeVersion::V21,
    QRCodeVersion::V22,
    QRCodeVersion::V23,
    QRCodeVersion::V24,
    QRCodeVersion::V25,
    QRCodeVersion::V26,
    QRCodeVersion::V27,
    QRCodeVersion::V28,
    QRCodeVersion::V29,
    QRCodeVersion::V30,
    QRCodeVersion::V31,
    QRCodeVersion::V32,
    QRCodeVersion::V33,
    QRCodeVersion::V34,
    QRCodeVersion::V35,
    QRCodeVersion::V36,
    QRCodeVersion::V37,
    QRCodeVersion::V38,
    QRCodeVersion::V39,
    QRCodeVersion::V40,
];

const LEVELS: [ErrorCorrection; 4] =
    [ErrorCorrection::L, ErrorCorrection::M, ErrorCorrection::Q, ErrorCorrection::H];

const CAPACITY_L: [usize; 40] = [
    19, 34, 55, 80, 108, 136, 156, 194, 232, 274, 324, 370, 428, 461, 523, 589, 647, 721, 795, 861,
    932, 1006, 1094, 1174, 1276, 1370, 1468, 1531, 1631, 1735, 1843, 1955, 2071, 2191, 2306, 2434,
    2566, 2702, 2812, 2956,
];

const CAPACITY_M: [usize; 40] = [
    16, 28, 44, 64, 86, 108, 124, 154, 182, 216, 254, 290, 334, 365, 415, 453, 507, 563, 627, 669,
    714, 782, 860, 914, 1000, 1062, 1128, 1193, 1267, 1373, 1455, 1541, 1631, 1725, 1812, 1914,
    1992, 2102, 2216, 2334,
];

const CAPACITY_Q: [usize; 40] = [
    13, 22, 34, 48, 62, 76, 88, 110, 132, 154, 180, 206, 244, 261, 295, 325, 367, 397, 445, 485,
    512, 568, 614, 664, 718, 754, 808, 871, 911, 985, 1033, 1115, 1171, 1231, 1286, 1354, 1426,
    1502, 1582, 1666,
];

const CAPACITY_H: [usize; 40] = [
    9, 16, 26, 36, 46, 60, 66, 86, 100, 122, 140, 158, 180, 197, 223, 253, 283, 313, 341, 385, 406,
    442, 464, 514, 538, 596, 628, 661, 701, 745, 793, 845, 901, 961, 986, 1054, 1096, 1142, 1222,
    1276,
];

fn capacities(ec: ErrorCorrection) -> [usize; 40] {
    match ec {
        ErrorCorrection::L => CAPACITY_L,
        ErrorCorrection::M => CAPACITY_M,
        ErrorCorrection::Q => CAPACITY_Q,
        ErrorCorrection::H => CAPACITY_H,
    }
}

#[test]
fn count_width_by_band() {
    for (index, version) in VERSIONS.into_iter().enumerate() {
        let (numeric, alphanumeric, byte) = match index + 1 {
            1..=9 => (10, 9, 8),
            10..=26 => (12, 11, 16),
            _ => (14, 13, 16),
        };
        assert_eq!(count_bits_count(version, EncodingMode::Numeric), numeric);
        assert_eq!(count_bits_count(version, EncodingMode::Alphanumeric), alphanumeric);
        assert_eq!(count_bits_count(version, EncodingMode::Byte), byte);
    }
}

#[test]
fn count_width_at_the_band_edges() {
    assert_eq!(count_bits_count(QRCodeVersion::V9, EncodingMode::Numeric), 10);
    assert_eq!(count_bits_count(QRCodeVersion::V10, EncodingMode::Numeric), 12);
    assert_eq!(count_bits_count(QRCodeVersion::V26, EncodingMode::Alphanumeric), 11);
    assert_eq!(count_bits_count(QRCodeVersion::V27, EncodingMode::Alphanumeric), 13);
    assert_eq!(count_bits_count(QRCodeVersion::V9, EncodingMode::Byte), 8);
    assert_eq!(count_bits_count(QRCodeVersion::V10, EncodingMode::Byte), 16);
    assert_eq!(count_bits_count(QRCodeVersion::V40, EncodingMode::Byte), 16);
}

#[test]
fn mode_indicators() {
    assert_eq!(EncodingMode::Numeric.indicator(), 0b0001);
    assert_eq!(EncodingMode::Alphanumeric.indicator(), 0b0010);
    assert_eq!(EncodingMode::Byte.indicator(), 0b0100);
}

#[test]
fn data_size_table() {
    for ec in LEVELS {
        let expected = capacities(ec);
        for (index, version) in VERSIONS.into_iter().enumerate() {
            assert_eq!(version.data_size(ec), expected[index], "{version:?} {ec:?}");
        }
    }
}

#[test]
fn data_size_grows_with_the_version_and_shrinks_with_the_level() {
    for ec in LEVELS {
        for pair in VERSIONS.windows(2) {
            assert!(pair[0].data_size(ec) < pair[1].data_size(ec));
        }
    }
    for version in VERSIONS {
        assert!(version.data_size(ErrorCorrection::L) > version.data_size(ErrorCorrection::M));
        assert!(version.data_size(ErrorCorrection::M) > version.data_size(ErrorCorrection::Q));
        assert!(version.data_size(ErrorCorrection::Q) > version.data_size(ErrorCorrection::H));
    }
}

#[test]
fn fit_version_picks_the_smallest() {
    assert_eq!(QRCodeVersion::fit_version(0, ErrorCorrection::L), Some(QRCodeVersion::V1));
    assert_eq!(QRCodeVersion::fit_version(19, ErrorCorrection::L), Some(QRCodeVersion::V1));
    assert_eq!(QRCodeVersion::fit_version(20, ErrorCorrection::L), Some(QRCodeVersion::V2));
    assert_eq!(QRCodeVersion::fit_version(9, ErrorCorrection::H), Some(QRCodeVersion::V1));
    assert_eq!(QRCodeVersion::fit_version(10, ErrorCorrection::H), Some(QRCodeVersion::V2));
    assert_eq!(QRCodeVersion::fit_version(1000, ErrorCorrection::M), Some(QRCodeVersion::V25));
    assert_eq!(QRCodeVersion::fit_version(1001, ErrorCorrection::M), Some(QRCodeVersion::V26));
    assert_eq!(QRCodeVersion::fit_version(1666, ErrorCorrection::Q), Some(QRCodeVersion::V40));
    assert_eq!(QRCodeVersion::fit_version(2956, ErrorCorrection::L), Some(QRCodeVersion::V40));
}

#[test]
fn fit_version_gives_up_past_the_largest() {
    assert_eq!(QRCodeVersion::fit_version(2957, ErrorCorrection::L), None);
    assert_eq!(QRCodeVersion::fit_version(2335, ErrorCorrection::M), None);
    assert_eq!(QRCodeVersion::fit_version(1667, ErrorCorrection::Q), None);
    assert_eq!(QRCodeVersion::fit_version(1277, ErrorCorrection::H), None);
    assert_eq!(QRCodeVersion::fit_version(usize::MAX, ErrorCorrection::H), None);
}

#[test]
fn fit_version_agrees_with_data_size() {
    for ec in LEVELS {
        for count in 0..=3000usize {
            let expected = VERSIONS.into_iter().find(|version| version.data_size(ec) >= count);
            assert_eq!(QRCodeVersion::fit_version(count, ec), expected, "{count} {ec:?}");
        }
    }
}

#[test]
fn versions_are_ordered() {
    assert!(QRCodeVersion::V1 < QRCodeVersion::V2);
    assert!(QRCodeVersion::V39 < QRCodeVersion::V40);
    assert_eq!(QRCodeVersion::V7, QRCodeVersion::V7);
    for pair in VERSIONS.windows(2) {
        assert!(pair[0] < pair[1]);
    }
}

fn total(block: &BlockSplit) -> usize {
    block.data_bytes * block.blocks
}

#[test]
fn split_covers_the_data_codewords() {
    for ec in LEVELS {
        for version in VERSIONS {
            let data = match version.split(ec) {
                GroupSplit::One { block_split, .. } => total(&block_split),
                GroupSplit::Two { block_split_one, block_split_two, .. } => {
                    total(&block_split_one) + total(&block_split_two)
                }
            };
            assert_eq!(data, version.data_size(ec), "{version:?} {ec:?}");
        }
    }
}

#[test]
fn split_with_one_group() {
    match QRCodeVersion::V1.split(ErrorCorrection::L) {
        GroupSplit::One { ec_bytes, block_split } => {
            assert_eq!(ec_bytes, 7);
            assert_eq!(block_split.data_bytes, 1);
            assert_eq!(block_split.blocks, 19);
        }
        other => panic!("one group expected, got {other:?}"),
    }
    match QRCodeVersion::V22.split(ErrorCorrection::H) {
        GroupSplit::One { ec_bytes, block_split } => {
            assert_eq!(ec_bytes, 24);
            assert_eq!(block_split.data_bytes, 34);
            assert_eq!(block_split.blocks, 13);
        }
        other => panic!("one group expected, got {other:?}"),
    }
}

#[test]
fn split_with_two_groups() {
    match QRCodeVersion::V5.split(ErrorCorrection::Q) {
        GroupSplit::Two { ec_bytes, block_split_one, block_split_two } => {
            assert_eq!(ec_bytes, 18);
            assert_eq!((block_split_one.data_bytes, block_split_one.blocks), (2, 15));
            assert_eq!((block_split_two.data_bytes, block_split_two.blocks), (2, 16));
        }
        other => panic!("two groups expected, got {other:?}"),
    }
    match QRCodeVersion::V40.split(ErrorCorrection::L) {
        GroupSplit::Two { ec_bytes, block_split_one, block_split_two } => {
            assert_eq!(ec_bytes, 30);
            assert_eq!((block_split_one.data_bytes, block_split_one.blocks), (19, 118));
            assert_eq!((block_split_two.data_bytes, block_split_two.blocks), (6, 119));
        }
        other => panic!("two groups expected, got {other:?}"),
    }
}
