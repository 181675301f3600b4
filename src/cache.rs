//! Cache maintenance planning: cache geometry, set/way operand words for
//! whole-cache operations, and the lines that a range operation touches.
//!
//! A walker hands out one maintenance operation at a time; the caller issues
//! each as the matching CP15 operation, and brackets a batch with the
//! barriers that the operation's documentation names.

use crate::bits::{field_of, field_read, lemma_bit_constants, set_flag};
use crate::mmu::{SCTLR_C, SCTLR_I, SCTLR_Z};
use vstd::arithmetic::power2::{lemma_pow2_unfold, pow2};
use vstd::prelude::*;

verus! {

/// What a data cache operation does to a line.
#[derive(Clone, Copy, PartialEq, Eq, Structural, Debug)]
pub enum CacheOp {
    /// Discards the line.
    Invalidate,
    /// Writes the line back if it is dirty, then discards it.
    CleanInvalidate,
}

/// `ceil(log2(v))`, with 0 for 0 and 1.
pub open spec fn ceil_log2(v: nat) -> nat
    decreases v,
{
    if v <= 1 {
        0
    } else {
        1 + ceil_log2(((v + 1) / 2) as nat)
    }
}

proof fn lemma_ceil_log2_le(v: nat, k: nat)
    requires
        v <= pow2(k),
    ensures
        ceil_log2(v) <= k,
    decreases v,
{
    if v > 1 {
        if k == 0 {
            vstd::arithmetic::power2::lemma2_to64();
        } else {
            lemma_pow2_unfold(k);
            lemma_ceil_log2_le(((v + 1) / 2) as nat, (k - 1) as nat);
        }
    }
}

/// The number of bits that values below `v` need: `ceil(log2(v))`.
pub fn num_bits(v: u32) -> (r: u32)
    ensures
        r == ceil_log2(v as nat),
        r <= 32,
{
    let mut x: u32 = v;
    let mut r: u32 = 0;
    proof {
        vstd::arithmetic::power2::lemma2_to64();
        lemma_ceil_log2_le(v as nat, 32);
    }
    while x > 1
        invariant
            r + ceil_log2(x as nat) == ceil_log2(v as nat),
            ceil_log2(v as nat) <= 32,
        decreases x,
    {
        x = x / 2 + x % 2;
        r = r + 1;
    }
    r
}

/// Sets, ways and line width of one cache, as CCSIDR reports them.
#[derive(Clone, Copy, PartialEq, Eq, Structural, Debug)]
pub struct CacheGeometry {
    pub sets: u32,
    pub ways: u32,
    /// log2 of the line width in bytes.
    pub line_shift: u32,
}

impl CacheGeometry {
    pub open spec fn line_bytes(self) -> nat {
        pow2(self.line_shift as nat)
    }

    /// Within the ranges that CCSIDR can encode.
    pub open spec fn wf(self) -> bool {
        &&& 1 <= self.sets <= 0x8000
        &&& 1 <= self.ways <= 0x400
        &&& 4 <= self.line_shift <= 11
    }
}

/// The geometry that a CCSIDR word describes: NumSets + 1 sets,
/// Associativity + 1 ways, lines of 2^(LineSize + 2) words.
pub open spec fn geometry_of(ccsidr: u32) -> CacheGeometry {
    CacheGeometry {
        sets: (field_of(ccsidr, 0x7FFF, 13) + 1) as u32,
        ways: (field_of(ccsidr, 0x3FF, 3) + 1) as u32,
        line_shift: (field_of(ccsidr, 7, 0) + 4) as u32,
    }
}

/// Reads the geometry out of a CCSIDR word.
pub fn geometry(ccsidr: u32) -> (r: CacheGeometry)
    ensures
        r == geometry_of(ccsidr),
        r.wf(),
{
    let sets = field_read(ccsidr, 0x7FFF, 13);
    let ways = field_read(ccsidr, 0x3FF, 3);
    let line = field_read(ccsidr, 7, 0);
    assert(field_of(ccsidr, 0x7FFF, 13) <= 0x7FFF && field_of(ccsidr, 0x3FF, 3) <= 0x3FF
        && field_of(ccsidr, 7, 0) <= 7) by (bit_vector);
    CacheGeometry { sets: sets + 1, ways: ways + 1, line_shift: line + 4 }
}

/// The line width in bytes of the cache that a CCSIDR word describes.
pub fn line_bytes(ccsidr: u32) -> (r: u32)
    ensures
        r == geometry_of(ccsidr).line_bytes(),
        16 <= r <= 2048,
{
    let g = geometry(ccsidr);
    let mut r: u32 = 1;
    let mut i: u32 = 0;
    proof {
        vstd::arithmetic::power2::lemma2_to64();
    }
    while i < g.line_shift
        invariant
            i <= g.line_shift <= 11,
            r == pow2(i as nat),
            r <= pow2(11),
            pow2(11) == 2048,
        decreases g.line_shift - i,
    {
        proof {
            lemma_pow2_unfold((i + 1) as nat);
            if i + 1 < 11 {
                vstd::arithmetic::power2::lemma_pow2_strictly_increases((i + 1) as nat, 11);
            }
        }
        r = r * 2;
        i = i + 1;
    }
    proof {
        if g.line_shift > 4 {
            vstd::arithmetic::power2::lemma_pow2_strictly_increases(4, g.line_shift as nat);
        }
    }
    r
}

/// The shift that places a way number at the top of the operand word.
pub open spec fn way_shift(g: CacheGeometry) -> int {
    32 - ceil_log2(g.ways as nat)
}

/// The shift that places a set number above the line offset.
pub open spec fn set_shift(g: CacheGeometry) -> int {
    ceil_log2(g.line_bytes()) as int
}

/// The operand word of a set/way operation: way, set and level (0 for the
/// first level) in their fields. With a single way the way field is empty.
pub open spec fn set_way_word(g: CacheGeometry, level: u32, way: u32, set: u32) -> u32 {
    let w: u32 = if g.ways <= 1 {
        0
    } else {
        way << (way_shift(g) as u32)
    };
    (w | (set << (set_shift(g) as u32))) | (level << 1u32)
}

/// One set/way operation: what to do, and its operand word.
#[derive(Clone, Copy, PartialEq, Eq, Structural, Debug)]
pub struct SetWayOp {
    pub op: CacheOp,
    pub operand: u32,
}

/// The operations of one whole-cache pass over a level: for each way in
/// turn, each of its sets.
pub open spec fn set_way_ops(g: CacheGeometry, level: u32, op: CacheOp) -> Seq<SetWayOp> {
    Seq::new(
        (g.ways * g.sets) as nat,
        |k: int|
            SetWayOp {
                op,
                operand: set_way_word(g, level, (k / g.sets as int) as u32, (k % g.sets as int) as u32),
            },
    )
}

/// Hands out the set/way operations of one cache level one at a time.
pub struct SetWayWalk {
    geometry: CacheGeometry,
    level: u32,
    op: CacheOp,
    way: u32,
    set: u32,
    way_shift: u32,
    set_shift: u32,
    done: Ghost<nat>,
}

impl SetWayWalk {
    /// All the operations of the walk, handed out or not.
    pub closed spec fn ops(&self) -> Seq<SetWayOp> {
        set_way_ops(self.geometry, self.level, self.op)
    }

    /// How many operations have been handed out.
    pub closed spec fn position(&self) -> nat {
        self.done@
    }

    pub closed spec fn wf(&self) -> bool {
        &&& self.geometry.wf()
        &&& self.level < 7
        &&& self.way_shift == way_shift(self.geometry)
        &&& self.set_shift == set_shift(self.geometry)
        &&& self.set_shift < 32
        &&& 0 < self.way_shift <= 32
        &&& (self.geometry.ways > 1 ==> self.way_shift < 32)
        &&& self.set < self.geometry.sets
        &&& self.way <= self.geometry.ways
        &&& self.done@ == self.way * self.geometry.sets + self.set
        &&& (self.way == self.geometry.ways ==> self.set == 0)
    }

    /// A walk over level `level` (0 for the first) of a data or unified
    /// cache with the geometry that `ccsidr` describes.
    pub fn new(ccsidr: u32, level: u32, op: CacheOp) -> (r: Self)
        requires
            level < 7,
        ensures
            r.wf(),
            r.ops() == set_way_ops(geometry_of(ccsidr), level, op),
            r.position() == 0,
    {
        let g = geometry(ccsidr);
        let lb = line_bytes(ccsidr);
        let nw = num_bits(g.ways);
        let ns = num_bits(lb);
        proof {
            vstd::arithmetic::power2::lemma2_to64();
            lemma_ceil_log2_le(g.ways as nat, 10);
            lemma_ceil_log2_le(lb as nat, 11);
        }
        SetWayWalk {
            geometry: g,
            level,
            op,
            way: 0,
            set: 0,
            way_shift: 32 - nw,
            set_shift: ns,
            done: Ghost(0),
        }
    }

    /// The next operation, or `None` once every (way, set) pair has had one.
    pub fn next(&mut self) -> (r: Option<SetWayOp>)
        requires
            old(self).wf(),
        ensures
            final(self).wf(),
            final(self).ops() == old(self).ops(),
            old(self).position() < old(self).ops().len() ==> r == Some(
                old(self).ops()[old(self).position() as int],
            ) && final(self).position() == old(self).position() + 1,
            old(self).position() >= old(self).ops().len() ==> r is None && final(self).position()
                == old(self).position(),
    {
        let g = self.geometry;
        proof {
            let (w, s, n) = (self.way as int, self.set as int, g.sets as int);
            assert((w * n + s) / n == w && (w * n + s) % n == s) by (nonlinear_arith)
                requires
                    0 <= s < n,
                    0 <= w,
            {
                vstd::arithmetic::div_mod::lemma_fundamental_div_mod_converse(w * n + s, n, w, s);
            }
            let ways = g.ways as int;
            if w < ways {
                vstd::arithmetic::mul::lemma_mul_inequality(w + 1, ways, n);
                vstd::arithmetic::mul::lemma_mul_is_distributive_add_other_way(n, w, 1);
            }
            assert(w == g.ways ==> w * n + s >= g.ways * n) by (nonlinear_arith)
                requires
                    s >= 0,
            ;
            assert(g.ways * n <= 0x400 * 0x8000) by (nonlinear_arith)
                requires
                    g.ways <= 0x400,
                    n <= 0x8000,
            ;
        }
        if self.way >= g.ways {
            return None;
        }
        let w: u32 = if g.ways <= 1 {
            0
        } else {
            self.way << self.way_shift
        };
        let operand = (w | (self.set << self.set_shift)) | (self.level << 1u32);
        let r = SetWayOp { op: self.op, operand };
        if self.set + 1 < g.sets {
            self.set = self.set + 1;
        } else {
            self.set = 0;
            self.way = self.way + 1;
        }
        self.done = Ghost(self.done@ + 1);
        proof {
            let n = g.sets as int;
            let (w0, s0, w1, s1) = (
                old(self).way as int,
                old(self).set as int,
                self.way as int,
                self.set as int,
            );
            assert(w1 * n + s1 == w0 * n + s0 + 1) by (nonlinear_arith)
                requires
                    (w1 == w0 && s1 == s0 + 1) || (w1 == w0 + 1 && s1 == 0 && s0 + 1 == n),
            ;
        }
        Some(r)
    }
}

/// Every (way, set) pair of a level has exactly one operation in the pass,
/// at position `way * sets + set`, and the pass has `ways * sets` of them.
pub proof fn lemma_set_way_pass_complete(
    g: CacheGeometry,
    level: u32,
    op: CacheOp,
    way: u32,
    set: u32,
)
    requires
        g.wf(),
        way < g.ways,
        set < g.sets,
    ensures
        set_way_ops(g, level, op).len() == g.ways * g.sets,
        0 <= way * g.sets + set < g.ways * g.sets,
        set_way_ops(g, level, op)[way * g.sets + set] == (SetWayOp {
            op,
            operand: set_way_word(g, level, way, set),
        }),
{
    let (w, s, n) = (way as int, set as int, g.sets as int);
    assert((w * n + s) / n == w && (w * n + s) % n == s) by (nonlinear_arith)
        requires
            0 <= s < n,
            0 <= w,
    {
        vstd::arithmetic::div_mod::lemma_fundamental_div_mod_converse(w * n + s, n, w, s);
    }
    assert(0 <= w * n + s < g.ways * n) by (nonlinear_arith)
        requires
            0 <= s < n,
            0 <= w < g.ways,
    ;
}

proof fn lemma_ceil_log2_gt(v: nat, k: nat)
    requires
        v > pow2(k),
    ensures
        ceil_log2(v) >= k + 1,
    decreases k,
{
    vstd::arithmetic::power2::lemma2_to64();
    if k > 0 {
        lemma_pow2_unfold(k);
        lemma_ceil_log2_gt(((v + 1) / 2) as nat, (k - 1) as nat);
    }
}

/// Every operand of a level's pass names that level in bits [3:1], so a
/// whole-cache operation acts on no level but those its plan lists.
pub proof fn lemma_set_way_operand_level(g: CacheGeometry, level: u32, way: u32, set: u32)
    requires
        g.wf(),
        level < 7,
        way < g.ways,
    ensures
        (set_way_word(g, level, way, set) >> 1u32) & 7 == level,
{
    vstd::arithmetic::power2::lemma2_to64();
    if g.line_shift > 4 {
        vstd::arithmetic::power2::lemma_pow2_strictly_increases(4, g.line_shift as nat);
    }
    lemma_ceil_log2_gt(g.line_bytes(), 3);
    if g.line_shift < 11 {
        vstd::arithmetic::power2::lemma_pow2_strictly_increases(g.line_shift as nat, 11);
    }
    lemma_ceil_log2_le(g.line_bytes(), 11);
    lemma_ceil_log2_le(g.ways as nat, 10);
    let ss = set_shift(g) as u32;
    let ws = way_shift(g) as u32;
    let w: u32 = if g.ways <= 1 {
        0
    } else {
        way << ws
    };
    assert(((w | (set << ss)) | (level << 1u32)) >> 1u32 & 7 == level) by (bit_vector)
        requires
            4 <= ss < 32,
            22 <= ws <= 32,
            w == 0 || (ws < 32 && w == way << ws),
            level < 7,
    ;
}

/// The cache type that CLIDR reports for `level` (0 for the first).
pub open spec fn cache_type(clidr: u32, level: u32) -> u32 {
    field_of(clidr, 7, (3 * level) as u32)
}

/// Set/way maintenance visits a level whose type is data (2), separate
/// instruction and data (3) or unified (4).
pub open spec fn level_maintained(clidr: u32, level: u32) -> bool {
    let t = cache_type(clidr, level);
    t == 2 || t == 3 || t == 4
}

/// The levels (0 for the first) that set/way maintenance visits, in
/// increasing order.
pub fn maintained_levels(clidr: u32) -> (r: Vec<u32>)
    ensures
        forall|i: int, j: int| 0 <= i < j < r@.len() ==> r@[i] < r@[j],
        forall|i: int| 0 <= i < r@.len() ==> r@[i] < 7,
        forall|l: u32| l < 7 ==> (r@.contains(l) <==> level_maintained(clidr, l)),
{
    let mut r: Vec<u32> = Vec::new();
    let mut level: u32 = 0;
    while level < 7
        invariant
            level <= 7,
            forall|i: int, j: int| 0 <= i < j < r@.len() ==> r@[i] < r@[j],
            forall|i: int| 0 <= i < r@.len() ==> r@[i] < level,
            forall|l: u32| l < level ==> (r@.contains(l) <==> level_maintained(clidr, l)),
        decreases 7 - level,
    {
        let t = field_read(clidr, 7, 3 * level);
        let ghost before = r@;
        if t == 2 || t == 3 || t == 4 {
            r.push(level);
        }
        proof {
            assert forall|l: u32| l < level + 1 implies (r@.contains(l) <==> level_maintained(
                clidr,
                l,
            )) by {
                if level_maintained(clidr, level) {
                    assert(r@ == before.push(level));
                    if l == level {
                        assert(r@[r@.len() - 1] == l);
                    } else {
                        if r@.contains(l) {
                            let k = choose|k: int| 0 <= k < r@.len() && r@[k] == l;
                            assert(before[k] == l);
                        }
                        if before.contains(l) {
                            let k = choose|k: int| 0 <= k < before.len() && before[k] == l;
                            assert(r@[k] == l);
                        }
                    }
                } else {
                    assert(r@ == before);
                    if l == level && r@.contains(l) {
                        let k = choose|k: int| 0 <= k < r@.len() && r@[k] == l;
                        assert(r@[k] < level);
                    }
                }
            }
        }
        level = level + 1;
    }
    r
}

} // verus!

verus! {

/// The maintenance operation that a range walk issues per line.
#[derive(Clone, Copy, PartialEq, Eq, Structural, Debug)]
pub enum RangeOp {
    /// Invalidate a data or unified cache line (DCIMVAC).
    DataInvalidate,
    /// Clean and invalidate a data or unified cache line (DCCIMVAC).
    DataCleanInvalidate,
    /// Invalidate an instruction cache line (ICIMVAU).
    InstructionInvalidate,
    /// Invalidate branch predictor entries of a line (BPIMVA).
    BranchPredictorInvalidate,
}

/// One line operation: what to do, at the line-aligned address of the line.
#[derive(Clone, Copy, PartialEq, Eq, Structural, Debug)]
pub struct LineOp {
    pub op: RangeOp,
    pub line_addr: u32,
}

/// How many lines the inclusive range `[start, end]` touches.
pub open spec fn line_count(start: u32, end: u32, line: u32) -> nat {
    if start > end {
        0
    } else {
        (end as int / line as int - start as int / line as int + 1) as nat
    }
}

/// The operation on the `k`-th line that `[start, end]` touches. A plain
/// data invalidate of a line that the range covers only in part becomes a
/// clean-and-invalidate, so dirty data outside the range is not lost.
pub open spec fn line_op_at(start: u32, end: u32, line: u32, op: RangeOp, k: int) -> LineOp {
    let addr = (start as int / line as int + k) * line as int;
    let partial = addr < start || end < addr + line - 1;
    LineOp {
        op: if op == RangeOp::DataInvalidate && partial {
            RangeOp::DataCleanInvalidate
        } else {
            op
        },
        line_addr: addr as u32,
    }
}

/// The operations of a range walk, one per line touched, in address order.
pub open spec fn line_ops(start: u32, end: u32, line: u32, op: RangeOp) -> Seq<LineOp> {
    Seq::new(line_count(start, end, line), |k: int| line_op_at(start, end, line, op, k))
}

/// Hands out the line operations of a virtual address range one at a time.
pub struct LineWalk {
    start: u32,
    end: u32,
    line: u32,
    op: RangeOp,
    next_line: u32,
    done: Ghost<nat>,
}

impl LineWalk {
    /// All the operations of the walk, handed out or not.
    pub closed spec fn ops(&self) -> Seq<LineOp> {
        line_ops(self.start, self.end, self.line, self.op)
    }

    /// How many operations have been handed out.
    pub closed spec fn position(&self) -> nat {
        self.done@
    }

    pub closed spec fn wf(&self) -> bool {
        &&& 16 <= self.line <= 2048
        &&& self.start <= self.end ==> {
            &&& self.next_line == self.start / self.line + self.done@
            &&& self.next_line <= self.end / self.line + 1
        }
        &&& self.start > self.end ==> self.done@ == 0
    }

    /// A walk over the lines that `[start, end]` touches, in a cache with
    /// lines of `line` bytes. An empty range (`start > end`) has no line.
    pub fn new(start: u32, end: u32, line: u32, op: RangeOp) -> (r: Self)
        requires
            16 <= line <= 2048,
        ensures
            r.wf(),
            r.ops() == line_ops(start, end, line, op),
            r.position() == 0,
    {
        proof {
            if start <= end {
                vstd::arithmetic::div_mod::lemma_div_is_ordered(start as int, end as int, line as int);
            }
        }
        LineWalk { start, end, line, op, next_line: start / line, done: Ghost(0) }
    }

    /// The next operation, or `None` once every line has had one.
    pub fn next(&mut self) -> (r: Option<LineOp>)
        requires
            old(self).wf(),
        ensures
            final(self).wf(),
            final(self).ops() == old(self).ops(),
            old(self).position() < old(self).ops().len() ==> r == Some(
                old(self).ops()[old(self).position() as int],
            ) && final(self).position() == old(self).position() + 1,
            old(self).position() >= old(self).ops().len() ==> r is None && final(self).position()
                == old(self).position(),
    {
        if self.start > self.end || self.next_line > self.end / self.line {
            return None;
        }
        let line = self.line;
        let n = self.next_line;
        proof {
            vstd::arithmetic::div_mod::lemma_div_is_ordered_by_denominator(self.end as int, 16, line as int);
            let e = self.end as int;
            let l = line as int;
            vstd::arithmetic::mul::lemma_mul_inequality(n as int, e / l, l);
            vstd::arithmetic::div_mod::lemma_fundamental_div_mod(e, l);
            assert((e / l) * l <= e) by {
                vstd::arithmetic::mul::lemma_mul_is_commutative(l, e / l);
            }
        }
        let addr = n * line;
        let partial = addr < self.start || (self.end as u64) < addr as u64 + line as u64 - 1;
        let op = if self.op == RangeOp::DataInvalidate && partial {
            RangeOp::DataCleanInvalidate
        } else {
            self.op
        };
        self.next_line = n + 1;
        self.done = Ghost(self.done@ + 1);
        Some(LineOp { op, line_addr: addr })
    }
}

/// A range that starts and ends on line boundaries gets exactly
/// `ceil(bytes / line)` operations, all plain invalidates at line-aligned
/// addresses.
pub proof fn lemma_aligned_range_plain(start: u32, end: u32, line: u32)
    requires
        16 <= line <= 2048,
        start <= end,
        start as int % line as int == 0,
        (end as int + 1) % line as int == 0,
    ensures
        line_ops(start, end, line, RangeOp::DataInvalidate).len() == (end as int - start as int
            + 1 + line - 1) / line as int,
        forall|k: int|
            0 <= k < line_ops(start, end, line, RangeOp::DataInvalidate).len() ==> {
                let o = #[trigger] line_ops(start, end, line, RangeOp::DataInvalidate)[k];
                &&& o.op == RangeOp::DataInvalidate
                &&& o.line_addr as int % line as int == 0
            },
{
    let (s, e, l) = (start as int, end as int, line as int);
    let qs = s / l;
    let qe = e / l;
    vstd::arithmetic::div_mod::lemma_fundamental_div_mod(s, l);
    vstd::arithmetic::div_mod::lemma_fundamental_div_mod(e, l);
    vstd::arithmetic::div_mod::lemma_fundamental_div_mod(e + 1, l);
    // e + 1 == (qe + 1) * l, since e % l == l - 1
    assert(e % l == l - 1) by {
        vstd::arithmetic::div_mod::lemma_mod_adds(e, 1, l);
        vstd::arithmetic::div_mod::lemma_small_mod(1, l as nat);
    }
    assert(e + 1 == (qe + 1) * l) by (nonlinear_arith)
        requires
            e == l * qe + e % l,
            e % l == l - 1,
    ;
    assert(s == qs * l) by (nonlinear_arith)
        requires
            s == l * qs + s % l,
            s % l == 0,
    ;
    let bytes = e - s + 1;
    assert(bytes == (qe - qs + 1) * l) by (nonlinear_arith)
        requires
            e + 1 == (qe + 1) * l,
            s == qs * l,
            bytes == e - s + 1,
    ;
    assert((bytes + l - 1) / l == qe - qs + 1) by {
        vstd::arithmetic::div_mod::lemma_fundamental_div_mod_converse(
            bytes + l - 1,
            l,
            qe - qs + 1,
            l - 1,
        );
    }
    assert forall|k: int| 0 <= k < line_ops(start, end, line, RangeOp::DataInvalidate).len() implies {
        let o = #[trigger] line_ops(start, end, line, RangeOp::DataInvalidate)[k];
        &&& o.op == RangeOp::DataInvalidate
        &&& o.line_addr as int % line as int == 0
    } by {
        let addr = (qs + k) * l;
        assert(s <= addr && addr + l - 1 <= e) by (nonlinear_arith)
            requires
                s == qs * l,
                e + 1 == (qe + 1) * l,
                0 <= k <= qe - qs,
                addr == (qs + k) * l,
                l > 0,
        ;
        assert(addr % l == 0) by {
            vstd::arithmetic::div_mod::lemma_mod_multiples_basic(qs + k, l);
        }
    }
}

/// Whatever the range, only its first and last lines can be upgraded to a
/// clean-and-invalidate, and each only where the range covers it in part:
/// the first where the range starts inside it, the last where the range ends
/// inside it. Every operation is at a line-aligned address.
pub proof fn lemma_range_upgrades_boundaries_only(start: u32, end: u32, line: u32, k: int)
    requires
        16 <= line <= 2048,
        0 <= k < line_count(start, end, line),
    ensures
        ({
            let o = line_ops(start, end, line, RangeOp::DataInvalidate)[k];
            &&& o.line_addr as int % line as int == 0
            &&& (o.op == RangeOp::DataCleanInvalidate) <==> ((k == 0 && start as int % line as int
                != 0) || (k == line_count(start, end, line) - 1 && (end as int + 1) % line as int
                != 0))
            &&& o.op == RangeOp::DataInvalidate || o.op == RangeOp::DataCleanInvalidate
        }),
{
    let (s, e, l) = (start as int, end as int, line as int);
    let qs = s / l;
    let qe = e / l;
    let n = qe - qs + 1;
    let addr = (qs + k) * l;
    vstd::arithmetic::div_mod::lemma_fundamental_div_mod(s, l);
    vstd::arithmetic::div_mod::lemma_fundamental_div_mod(e, l);
    vstd::arithmetic::div_mod::lemma_div_is_ordered(s, e, l);
    assert(0 <= s % l < l && 0 <= e % l < l);
    assert(0 <= k < n);
    assert((e + 1) % l != 0 <==> e % l != l - 1) by {
        vstd::arithmetic::div_mod::lemma_fundamental_div_mod(e + 1, l);
        if e % l == l - 1 {
            assert(e + 1 == (qe + 1) * l + 0) by (nonlinear_arith)
                requires
                    e == l * qe + e % l,
                    e % l == l - 1,
            ;
            vstd::arithmetic::div_mod::lemma_fundamental_div_mod_converse(e + 1, l, qe + 1, 0);
        } else {
            assert(e + 1 == qe * l + (e % l + 1)) by (nonlinear_arith)
                requires
                    e == l * qe + e % l,
            ;
            vstd::arithmetic::div_mod::lemma_fundamental_div_mod_converse(
                e + 1,
                l,
                qe,
                e % l + 1,
            );
        }
    }
    assert(addr < s <==> (k == 0 && s % l != 0)) by (nonlinear_arith)
        requires
            s == l * qs + s % l,
            0 <= s % l < l,
            addr == (qs + k) * l,
            k >= 0,
    ;
    assert(e < addr + l - 1 <==> (k == n - 1 && e % l != l - 1)) by (nonlinear_arith)
        requires
            e == l * qe + e % l,
            0 <= e % l < l,
            addr == (qs + k) * l,
            0 <= k < n,
            n == qe - qs + 1,
    ;
    assert(addr >= 0 && addr <= e) by (nonlinear_arith)
        requires
            e == l * qe + e % l,
            0 <= e % l,
            addr == (qs + k) * l,
            0 <= k < n,
            n == qe - qs + 1,
            qs >= 0,
            l > 0,
    ;
    assert(addr % l == 0) by {
        vstd::arithmetic::div_mod::lemma_mod_multiples_basic(qs + k, l);
    }
}

} // verus!

verus! {

/// The CSSELR word that selects level `level` (0 for the first) of the
/// instruction cache, or of the data or unified cache.
pub fn cache_selection(level: u32, instruction: bool) -> (r: u32)
    requires
        level < 7,
    ensures
        r == (level << 1u32) | (if instruction {
            1u32
        } else {
            0u32
        }),
{
    let lv = field_read(level, 7, 0);
    assert(lv == level && lv << 1u32 == level << 1u32) by (bit_vector)
        requires
            lv == (level & (7u32 << 0u32)) >> 0u32,
            level < 7,
    ;
    let sel = set_flag(level << 1u32, 0, instruction);
    assert(((level << 1u32) | (1u32 << 0u32)) == (level << 1u32) | 1u32 && ((level << 1u32) & !(1u32
        << 0u32)) == (level << 1u32) | 0u32) by (bit_vector)
        requires
            level < 7,
    ;
    sel
}

/// The levels that a whole data cache operation visits, and what it does
/// at each of them.
pub struct SetWayPlan {
    pub op: CacheOp,
    /// Levels (0 for the first), in increasing order.
    pub levels: Vec<u32>,
}

fn plan(clidr: u32, op: CacheOp) -> (r: SetWayPlan)
    ensures
        r.op == op,
        forall|i: int, j: int| 0 <= i < j < r.levels@.len() ==> r.levels@[i] < r.levels@[j],
        forall|i: int| 0 <= i < r.levels@.len() ==> r.levels@[i] < 7,
        forall|l: u32| l < 7 ==> (r.levels@.contains(l) <==> level_maintained(clidr, l)),
{
    SetWayPlan { op, levels: maintained_levels(clidr) }
}

/// The data and unified caches, switched by SCTLR.C.
pub struct DCache;

impl DCache {
    /// SCTLR with the data cache switched on.
    pub fn enable(sctlr: u32) -> (r: u32)
        ensures
            r == sctlr | 0x4,
    {
        let r = set_flag(sctlr, SCTLR_C, true);
        proof {
            lemma_bit_constants();
        }
        r
    }

    /// SCTLR with the data cache switched off.
    pub fn disable(sctlr: u32) -> (r: u32)
        ensures
            r == sctlr & !0x4u32,
    {
        let r = set_flag(sctlr, SCTLR_C, false);
        proof {
            lemma_bit_constants();
        }
        r
    }

    /// Invalidate by set/way every level that CLIDR reports as a data,
    /// separate or unified cache: for each, a [`SetWayWalk`] over the
    /// geometry read after selecting it. Data lines are discarded unwritten.
    pub fn invalidate_all(clidr: u32) -> (r: SetWayPlan)
        ensures
            r.op == CacheOp::Invalidate,
            forall|i: int, j: int| 0 <= i < j < r.levels@.len() ==> r.levels@[i] < r.levels@[j],
            forall|i: int| 0 <= i < r.levels@.len() ==> r.levels@[i] < 7,
            forall|l: u32| l < 7 ==> (r.levels@.contains(l) <==> level_maintained(clidr, l)),
    {
        plan(clidr, CacheOp::Invalidate)
    }

    /// As [`DCache::invalidate_all`], writing dirty lines back first.
    pub fn clean_invalidate_all(clidr: u32) -> (r: SetWayPlan)
        ensures
            r.op == CacheOp::CleanInvalidate,
            forall|i: int, j: int| 0 <= i < j < r.levels@.len() ==> r.levels@[i] < r.levels@[j],
            forall|i: int| 0 <= i < r.levels@.len() ==> r.levels@[i] < 7,
            forall|l: u32| l < 7 ==> (r.levels@.contains(l) <==> level_maintained(clidr, l)),
    {
        plan(clidr, CacheOp::CleanInvalidate)
    }

    /// Invalidate the lines that `[start, end]` touches, in a first-level
    /// data cache that `ccsidr` describes. A line that the range covers only
    /// in part is cleaned and invalidated instead.
    pub fn invalidate_range(start: u32, end: u32, ccsidr: u32) -> (r: LineWalk)
        ensures
            r.wf(),
            r.position() == 0,
            r.ops() == line_ops(
                start,
                end,
                geometry_of(ccsidr).line_bytes() as u32,
                RangeOp::DataInvalidate,
            ),
    {
        LineWalk::new(start, end, line_bytes(ccsidr), RangeOp::DataInvalidate)
    }

    /// Clean and invalidate the lines that `[start, end]` touches.
    pub fn clean_invalidate_range(start: u32, end: u32, ccsidr: u32) -> (r: LineWalk)
        ensures
            r.wf(),
            r.position() == 0,
            r.ops() == line_ops(
                start,
                end,
                geometry_of(ccsidr).line_bytes() as u32,
                RangeOp::DataCleanInvalidate,
            ),
    {
        LineWalk::new(start, end, line_bytes(ccsidr), RangeOp::DataCleanInvalidate)
    }
}

/// The instruction caches, switched by SCTLR.I.
pub struct ICache;

impl ICache {
    /// SCTLR with the instruction cache switched on.
    pub fn enable(sctlr: u32) -> (r: u32)
        ensures
            r == sctlr | 0x1000,
    {
        let r = set_flag(sctlr, SCTLR_I, true);
        proof {
            lemma_bit_constants();
        }
        r
    }

    /// SCTLR with the instruction cache switched off.
    pub fn disable(sctlr: u32) -> (r: u32)
        ensures
            r == sctlr & !0x1000u32,
    {
        let r = set_flag(sctlr, SCTLR_I, false);
        proof {
            lemma_bit_constants();
        }
        r
    }

    /// Invalidate the instruction cache lines that `[start, end]` touches,
    /// in a first-level instruction cache that `ccsidr` describes.
    pub fn invalidate_range(start: u32, end: u32, ccsidr: u32) -> (r: LineWalk)
        ensures
            r.wf(),
            r.position() == 0,
            r.ops() == line_ops(
                start,
                end,
                geometry_of(ccsidr).line_bytes() as u32,
                RangeOp::InstructionInvalidate,
            ),
    {
        LineWalk::new(start, end, line_bytes(ccsidr), RangeOp::InstructionInvalidate)
    }
}

/// The branch predictor, switched by SCTLR.Z.
pub struct BranchPredictor;

impl BranchPredictor {
    /// SCTLR with branch prediction switched on.
    pub fn enable(sctlr: u32) -> (r: u32)
        ensures
            r == sctlr | 0x800,
    {
        let r = set_flag(sctlr, SCTLR_Z, true);
        proof {
            lemma_bit_constants();
        }
        r
    }

    /// SCTLR with branch prediction switched off.
    pub fn disable(sctlr: u32) -> (r: u32)
        ensures
            r == sctlr & !0x800u32,
    {
        let r = set_flag(sctlr, SCTLR_Z, false);
        proof {
            lemma_bit_constants();
        }
        r
    }

    /// Invalidate the branch predictor entries of the lines that
    /// `[start, end]` touches, with the line width of the first-level
    /// instruction cache that `ccsidr` describes.
    pub fn invalidate_range(start: u32, end: u32, ccsidr: u32) -> (r: LineWalk)
        ensures
            r.wf(),
            r.position() == 0,
            r.ops() == line_ops(
                start,
                end,
                geometry_of(ccsidr).line_bytes() as u32,
                RangeOp::BranchPredictorInvalidate,
            ),
    {
        LineWalk::new(start, end, line_bytes(ccsidr), RangeOp::BranchPredictorInvalidate)
    }
}

} // verus!
