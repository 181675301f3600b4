use armv7a::cache::{
    cache_selection, geometry, line_bytes, maintained_levels, num_bits, BranchPredictor,
    CacheGeometry, CacheOp, DCache, ICache, LineOp, LineWalk, RangeOp, SetWayOp, SetWayWalk,
};

/// 4 sets, 2 ways, 32-byte lines.
const SMALL: u32 = (3 << 13) | (1 << 3) | 1;

fn set_way_all(mut w: SetWayWalk) -> Vec<SetWayOp> {
    let mut v = Vec::new();
    while let Some(op) = w.next() {
        v.push(op);
    }
    v
}

fn lines_all(mut w: LineWalk) -> Vec<LineOp> {
    let mut v = Vec::new();
    while let Some(op) = w.next() {
        v.push(op);
    }
    v
}

#[test]
fn num_bits_is_ceil_log2() {
    let cases = [(0, 0), (1, 0), (2, 1), (3, 2), (4, 2), (5, 3), (32, 5), (1024, 10), (u32::MAX, 32)];
    for (v, r) in cases {
        assert_eq!(num_bits(v), r, "num_bits({v})");
    }
}

#[test]
fn geometry_from_ccsidr() {
    assert_eq!(geometry(SMALL), CacheGeometry { sets: 4, ways: 2, line_shift: 5 });
    assert_eq!(line_bytes(SMALL), 32);
    assert_eq!(line_bytes(0), 16);
    assert_eq!(line_bytes(7), 2048);
    let full = geometry(0xFFFF_FFFF);
    assert_eq!(full, CacheGeometry { sets: 0x8000, ways: 0x400, line_shift: 11 });
}

#[test]
fn set_way_pass_visits_ways_times_sets() {
    let ops = set_way_all(SetWayWalk::new(SMALL, 0, CacheOp::Invalidate));
    let words: Vec<u32> = ops.iter().map(|o| o.operand).collect();
    assert_eq!(
        words,
        vec![0x0, 0x20, 0x40, 0x60, 0x8000_0000, 0x8000_0020, 0x8000_0040, 0x8000_0060]
    );
    assert!(ops.iter().all(|o| o.op == CacheOp::Invalidate));
}

#[test]
fn set_way_pass_single_way_and_level() {
    // 2 sets, 1 way, 16-byte lines, second level.
    let ops = set_way_all(SetWayWalk::new(1 << 13, 1, CacheOp::CleanInvalidate));
    let words: Vec<u32> = ops.iter().map(|o| o.operand).collect();
    assert_eq!(words, vec![0x2, 0x12]);
    assert!(ops.iter().all(|o| o.op == CacheOp::CleanInvalidate));
}

#[test]
fn set_way_pass_count_large() {
    // 256 sets, 4 ways, 32-byte lines, third level.
    let ccsidr = (255 << 13) | (3 << 3) | 1;
    let ops = set_way_all(SetWayWalk::new(ccsidr, 2, CacheOp::Invalidate));
    assert_eq!(ops.len(), 1024);
    let mut words: Vec<u32> = ops.iter().map(|o| o.operand).collect();
    assert_eq!(words[255], (255 << 5) | 4);
    assert_eq!(words[256], (1 << 30) | 4);
    words.sort();
    words.dedup();
    assert_eq!(words.len(), 1024);
}

#[test]
fn levels_filtered_by_type() {
    // first level separate, second unified, third instruction only
    assert_eq!(maintained_levels(3 | (4 << 3) | (1 << 6)), vec![0, 1]);
    // first level data, second absent, third unified
    assert_eq!(maintained_levels(2 | (4 << 6)), vec![0, 2]);
    assert_eq!(maintained_levels(0), Vec::<u32>::new());
    assert_eq!(maintained_levels(1), Vec::<u32>::new());
    let all = DCache::invalidate_all(3 | (4 << 3));
    assert_eq!(all.op, CacheOp::Invalidate);
    assert_eq!(all.levels, vec![0, 1]);
    let clean = DCache::clean_invalidate_all(4 << 18);
    assert_eq!(clean.op, CacheOp::CleanInvalidate);
    assert_eq!(clean.levels, vec![6]);
}

#[test]
fn aligned_range_is_plain_invalidate() {
    let ops = lines_all(DCache::invalidate_range(0x1000, 0x107F, SMALL));
    let expected: Vec<LineOp> = [0x1000, 0x1020, 0x1040, 0x1060]
        .iter()
        .map(|&a| LineOp { op: RangeOp::DataInvalidate, line_addr: a })
        .collect();
    assert_eq!(ops, expected);
}

#[test]
fn misaligned_range_upgrades_boundary_lines() {
    let ops = lines_all(DCache::invalidate_range(0x1010, 0x1087, SMALL));
    let expected = vec![
        LineOp { op: RangeOp::DataCleanInvalidate, line_addr: 0x1000 },
        LineOp { op: RangeOp::DataInvalidate, line_addr: 0x1020 },
        LineOp { op: RangeOp::DataInvalidate, line_addr: 0x1040 },
        LineOp { op: RangeOp::DataInvalidate, line_addr: 0x1060 },
        LineOp { op: RangeOp::DataCleanInvalidate, line_addr: 0x1080 },
    ];
    assert_eq!(ops, expected);
}

#[test]
fn misaligned_end_only() {
    let ops = lines_all(DCache::invalidate_range(0x1000, 0x1030, SMALL));
    assert_eq!(
        ops,
        vec![
            LineOp { op: RangeOp::DataInvalidate, line_addr: 0x1000 },
            LineOp { op: RangeOp::DataCleanInvalidate, line_addr: 0x1020 },
        ]
    );
}

#[test]
fn range_within_one_line() {
    let ops = lines_all(DCache::invalidate_range(0x1004, 0x1008, SMALL));
    assert_eq!(ops, vec![LineOp { op: RangeOp::DataCleanInvalidate, line_addr: 0x1000 }]);
}

#[test]
fn range_at_top_of_address_space() {
    let ops = lines_all(DCache::invalidate_range(0xFFFF_FFC0, 0xFFFF_FFFF, SMALL));
    assert_eq!(
        ops,
        vec![
            LineOp { op: RangeOp::DataInvalidate, line_addr: 0xFFFF_FFC0 },
            LineOp { op: RangeOp::DataInvalidate, line_addr: 0xFFFF_FFE0 },
        ]
    );
}

#[test]
fn empty_range_has_no_line() {
    assert!(lines_all(DCache::invalidate_range(0x2000, 0x1FFF, SMALL)).is_empty());
}

#[test]
fn clean_invalidate_and_instruction_ranges() {
    let c = lines_all(DCache::clean_invalidate_range(0x1010, 0x1030, SMALL));
    assert_eq!(
        c,
        vec![
            LineOp { op: RangeOp::DataCleanInvalidate, line_addr: 0x1000 },
            LineOp { op: RangeOp::DataCleanInvalidate, line_addr: 0x1020 },
        ]
    );
    let i = lines_all(ICache::invalidate_range(0x1010, 0x1030, SMALL));
    assert_eq!(i.len(), 2);
    assert!(i.iter().all(|o| o.op == RangeOp::InstructionInvalidate));
    let b = lines_all(BranchPredictor::invalidate_range(0x1010, 0x1030, 0));
    let addrs: Vec<u32> = b.iter().map(|o| o.line_addr).collect();
    assert_eq!(addrs, vec![0x1010, 0x1020, 0x1030]);
    assert!(b.iter().all(|o| o.op == RangeOp::BranchPredictorInvalidate));
}

#[test]
fn cache_switches() {
    assert_eq!(DCache::enable(0x00C5_0078), 0x00C5_007C);
    assert_eq!(DCache::disable(0x00C5_007C), 0x00C5_0078);
    assert_eq!(ICache::enable(0), 0x1000);
    assert_eq!(ICache::disable(0xFFFF_FFFF), 0xFFFF_EFFF);
    assert_eq!(BranchPredictor::enable(0), 0x800);
    assert_eq!(BranchPredictor::disable(0x1800), 0x1000);
}

#[test]
fn selection_words() {
    assert_eq!(cache_selection(0, false), 0);
    assert_eq!(cache_selection(0, true), 1);
    assert_eq!(cache_selection(2, false), 4);
    assert_eq!(cache_selection(6, true), 13);
}
