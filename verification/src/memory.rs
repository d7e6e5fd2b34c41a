//! Physical memory as the boot loader describes it: totals for the system
//! information screens, and handing out 4 KiB frames from usable regions.
use vstd::prelude::*;

verus! {

/// Bytes in a page frame.
pub const FRAME_SIZE: u64 = 4096;

/// Regions ending at or below this address count as RAM below 4 GiB.
pub const LOW_MEMORY_END: u64 = 0xF000_0000;

/// Regions starting at or above this address count as RAM above 4 GiB.
pub const HIGH_MEMORY_START: u64 = 0x1_0000_0000;

/// How the boot loader classes a region (all other classes are `Other`).
#[derive(Debug, Clone, Copy, PartialEq, Eq, Structural)]
pub enum RegionKind {
    Usable,
    Reserved,
    Other,
}

/// A physical address range `[start, end)` and its class.
#[derive(Debug, Clone, Copy, PartialEq, Eq, Structural)]
pub struct MemoryRegion {
    pub start: u64,
    pub end: u64,
    pub kind: RegionKind,
}

/// Installed and usable RAM in bytes.
#[derive(Debug, Clone, Copy, PartialEq, Eq, Structural)]
pub struct SystemMemoryInfo {
    pub total_ram_bytes: u64,
    pub usable_ram_bytes: u64,
}

/// A region's size (0 when it ends before it starts).
pub open spec fn region_size(r: MemoryRegion) -> int {
    if r.end >= r.start { r.end - r.start } else { 0 }
}

/// The total size of the usable regions among `rs`.
pub open spec fn usable_bytes(rs: Seq<MemoryRegion>) -> int
    decreases rs.len(),
{
    if rs.len() == 0 {
        0
    } else {
        usable_bytes(rs.drop_last()) + (if rs.last().kind == RegionKind::Usable { region_size(rs.last()) } else { 0 })
    }
}

/// The highest end among the regions of `rs` ending at or below
/// `LOW_MEMORY_END` (0 when there is none).
pub open spec fn low_memory_top(rs: Seq<MemoryRegion>) -> int
    decreases rs.len(),
{
    if rs.len() == 0 {
        0
    } else {
        let prev = low_memory_top(rs.drop_last());
        let r = rs.last();
        if r.end <= 0xF000_0000 && r.end > prev { r.end as int } else { prev }
    }
}

/// The total size of the regions of `rs` above 4 GiB that are not reserved.
pub open spec fn high_memory_bytes(rs: Seq<MemoryRegion>) -> int
    decreases rs.len(),
{
    if rs.len() == 0 {
        0
    } else {
        let r = rs.last();
        high_memory_bytes(rs.drop_last())
            + (if r.end > 0xF000_0000 && r.start >= 0x1_0000_0000 && r.kind != RegionKind::Reserved { region_size(r) } else { 0 })
    }
}

/// The memory totals of the map `rs`: RAM below 4 GiB up to its highest
/// address plus the unreserved RAM above 4 GiB, and the usable bytes.
pub open spec fn memory_totals(rs: Seq<MemoryRegion>) -> SystemMemoryInfo {
    SystemMemoryInfo {
        total_ram_bytes: (low_memory_top(rs) + high_memory_bytes(rs)) as u64,
        usable_ram_bytes: usable_bytes(rs) as u64,
    }
}

/// Whether the totals of `rs` fit in 64 bits.
pub open spec fn totals_fit(rs: Seq<MemoryRegion>) -> bool {
    &&& usable_bytes(rs) <= u64::MAX
    &&& low_memory_top(rs) + high_memory_bytes(rs) <= u64::MAX
}

proof fn lemma_totals_monotone(rs: Seq<MemoryRegion>, i: int)
    requires
        0 <= i <= rs.len(),
    ensures
        usable_bytes(rs.take(i)) <= usable_bytes(rs),
        high_memory_bytes(rs.take(i)) <= high_memory_bytes(rs),
        low_memory_top(rs.take(i)) <= low_memory_top(rs),
        0 <= usable_bytes(rs.take(i)),
        0 <= high_memory_bytes(rs.take(i)),
        0 <= low_memory_top(rs.take(i)),
    decreases rs.len() - i,
{
    lemma_totals_nonneg(rs.take(i));
    if i < rs.len() {
        lemma_totals_monotone(rs, i + 1);
        assert(rs.take(i + 1).drop_last() =~= rs.take(i));
    } else {
        assert(rs.take(i) =~= rs);
        lemma_totals_nonneg(rs);
    }
}

proof fn lemma_totals_nonneg(rs: Seq<MemoryRegion>)
    ensures
        0 <= usable_bytes(rs),
        0 <= high_memory_bytes(rs),
        0 <= low_memory_top(rs),
    decreases rs.len(),
{
    if rs.len() > 0 {
        lemma_totals_nonneg(rs.drop_last());
    }
}

/// The totals of the memory map `regions`.
pub fn memory_stats(regions: &[MemoryRegion]) -> (info: SystemMemoryInfo)
    requires
        totals_fit(regions@),
    ensures
        info == memory_totals(regions@),
{
    let mut max_low: u64 = 0;
    let mut high: u64 = 0;
    let mut usable: u64 = 0;
    let mut i: usize = 0;
    while i < regions.len()
        invariant
            i <= regions@.len(),
            totals_fit(regions@),
            usable == usable_bytes(regions@.take(i as int)),
            high == high_memory_bytes(regions@.take(i as int)),
            max_low == low_memory_top(regions@.take(i as int)),
        decreases regions@.len() - i,
    {
        let r = regions[i];
        proof {
            assert(regions@.take(i + 1).drop_last() =~= regions@.take(i as int));
            lemma_totals_monotone(regions@, i + 1);
        }
        let size = if r.end >= r.start { r.end - r.start } else { 0 };
        if r.kind == RegionKind::Usable {
            usable = usable + size;
        }
        if r.end <= LOW_MEMORY_END {
            if r.end > max_low {
                max_low = r.end;
            }
        } else if r.start >= HIGH_MEMORY_START && r.kind != RegionKind::Reserved {
            high = high + size;
        }
        i = i + 1;
    }
    assert(regions@.take(regions@.len() as int) =~= regions@);
    proof {
        lemma_totals_nonneg(regions@);
    }
    SystemMemoryInfo { total_ram_bytes: max_low + high, usable_ram_bytes: usable }
}

/// The memory totals the system screens show, set once the memory map is
/// known.
pub struct MemoryStatsCell {
    pub info: SystemMemoryInfo,
}

impl MemoryStatsCell {
    /// Before the memory map is read: 8 MiB of RAM, all usable.
    pub fn new() -> (c: MemoryStatsCell)
        ensures
            c.info == (SystemMemoryInfo { total_ram_bytes: 8388608, usable_ram_bytes: 8388608 }),
    {
        MemoryStatsCell { info: SystemMemoryInfo { total_ram_bytes: 8388608, usable_ram_bytes: 8388608 } }
    }

    /// Computes and keeps the totals of the memory map `regions`.
    pub fn init_memory_stats(&mut self, regions: &[MemoryRegion]) -> (info: SystemMemoryInfo)
        requires
            totals_fit(regions@),
        ensures
            info == memory_totals(regions@),
            final(self).info == info,
    {
        let info = memory_stats(regions);
        self.info = info;
        info
    }
}

/// The memory totals last kept in `cell`.
pub fn get_system_memory_info(cell: &MemoryStatsCell) -> (info: SystemMemoryInfo)
    ensures
        info == cell.info,
{
    cell.info
}

/// A frame allocator that never has a frame to give.
pub struct EmptyFrameAllocator;

impl EmptyFrameAllocator {
    /// Always `None`.
    pub fn allocate_frame(&mut self) -> (f: Option<u64>)
        ensures
            f is None,
    {
        None
    }
}

/// The start of the 4 KiB frame holding address `a`.
pub open spec fn frame_of(a: u64) -> u64 {
    (a - a % 4096) as u64
}

/// Whether a whole frame starting at `addr` fits in region `r`, which
/// must be usable.
pub open spec fn can_give(r: MemoryRegion, addr: u64) -> bool {
    r.kind == RegionKind::Usable && addr + 4096 <= r.end
}

/// Whether region `r` is usable and not empty.
pub open spec fn usable_region(r: MemoryRegion) -> bool {
    r.kind == RegionKind::Usable && r.start < r.end
}

/// One call of `allocate_frame` takes the allocator from `a` to `b` and
/// hands out `f`: the map stays; the walk only moves forward, and within a
/// region the address only grows; the regions passed over had no room; a
/// frame comes from the first region from the current one that has room
/// for a whole frame from the current address (or, past the current
/// region, from its start), which then moves on by a frame; `None` when the
/// map is used up.
pub open spec fn alloc_step(a: BootInfoFrameAllocator, b: BootInfoFrameAllocator, f: Option<u64>) -> bool {
    &&& b.regions@ == a.regions@
    &&& a.current_region_idx <= b.current_region_idx
    &&& b.current_region_idx == a.current_region_idx ==> a.current_addr <= b.current_addr
    &&& a.current_region_idx < b.current_region_idx && a.current_region_idx < a.regions@.len()
        ==> !can_give(a.regions@[a.current_region_idx as int], a.current_addr)
    &&& forall|j: int| a.current_region_idx < j < b.current_region_idx
        ==> !can_give(#[trigger] a.regions@[j], a.regions@[j].start)
    &&& match f {
        Some(frame) => {
            let i = b.current_region_idx;
            let from = if i == a.current_region_idx { a.current_addr } else { a.regions@[i as int].start };
            &&& i < a.regions@.len()
            &&& can_give(a.regions@[i as int], from)
            &&& frame == frame_of(from)
            &&& b.current_addr == from + 4096
        },
        None => b.current_region_idx == b.regions@.len(),
    }
}

/// Whether the regions of `rs` pairwise share no address.
pub open spec fn disjoint_regions(rs: Seq<MemoryRegion>) -> bool {
    forall|i: int, j: int| 0 <= i < rs.len() && 0 <= j < rs.len() && i != j
        ==> #[trigger] rs[i].end <= #[trigger] rs[j].start || rs[j].end <= rs[i].start
}

/// Whether every usable region of `rs` starts on a 4 KiB boundary.
pub open spec fn aligned_usable(rs: Seq<MemoryRegion>) -> bool {
    forall|i: int| 0 <= i < rs.len() && (#[trigger] rs[i]).kind == RegionKind::Usable ==> rs[i].start % 4096 == 0
}

/// Whether frame `f` lies whole in a usable region of `rs`.
pub open spec fn in_usable(rs: Seq<MemoryRegion>, f: u64) -> bool {
    exists|i: int| 0 <= i < rs.len() && (#[trigger] rs[i]).kind == RegionKind::Usable && rs[i].start <= f
        && f + 4096 <= rs[i].end
}

/// What holds of an allocator between calls: inside the map, and when not
/// used up, at a 4 KiB boundary in a usable region, not before its start.
pub open spec fn alloc_inv(a: BootInfoFrameAllocator) -> bool {
    &&& a.wf()
    &&& a.current_region_idx < a.regions@.len() ==> {
        &&& a.regions@[a.current_region_idx as int].kind == RegionKind::Usable
        &&& a.regions@[a.current_region_idx as int].start <= a.current_addr
        &&& a.current_addr % 4096 == 0
    }
}

/// A fresh allocator keeps `alloc_inv` when the usable regions start on
/// 4 KiB boundaries.
pub proof fn lemma_init_inv(a: BootInfoFrameAllocator)
    requires
        a.wf(),
        aligned_usable(a.regions@),
        a.current_region_idx < a.regions@.len() ==> {
            &&& usable_region(a.regions@[a.current_region_idx as int])
            &&& a.current_addr == a.regions@[a.current_region_idx as int].start
        },
    ensures
        alloc_inv(a),
{
}

/// One step keeps `alloc_inv`, and a frame it hands out is the address it
/// was at, lies whole in the usable region the allocator is then in, and is
/// a frame below the new address.
proof fn lemma_step(a: BootInfoFrameAllocator, b: BootInfoFrameAllocator, f: Option<u64>)
    requires
        alloc_inv(a),
        b.wf(),
        aligned_usable(a.regions@),
        alloc_step(a, b, f),
    ensures
        alloc_inv(b),
        f matches Some(fr) ==> {
            let i = b.current_region_idx as int;
            &&& 0 <= i < b.regions@.len()
            &&& b.regions@[i].kind == RegionKind::Usable
            &&& b.regions@[i].start <= fr
            &&& fr + 4096 <= b.regions@[i].end
            &&& b.current_addr == fr + 4096
        },
{
    match f {
        Some(fr) => {
            let i = b.current_region_idx as int;
            let from = if i == a.current_region_idx { a.current_addr } else { a.regions@[i].start };
            assert(from % 4096 == 0);
            assert(fr == from);
            assert((from + 4096) % 4096 == 0);
        },
        None => {},
    }
}

/// Laws of the frame allocator over any run of calls from a fresh one, on a
/// map whose regions are pairwise disjoint and whose usable regions start
/// on 4 KiB boundaries: every frame handed out lies whole in a usable
/// region, no frame is handed out twice, and once it answers `None` it
/// answers `None` ever after. `runs[k]` is the allocator before call `k`,
/// which handed out `frames[k]`.
pub proof fn lemma_allocator_run(runs: Seq<BootInfoFrameAllocator>, frames: Seq<Option<u64>>)
    requires
        runs.len() == frames.len() + 1,
        alloc_inv(runs[0]),
        disjoint_regions(runs[0].regions@),
        aligned_usable(runs[0].regions@),
        forall|k: int| 0 <= k < frames.len() ==> (#[trigger] runs[k + 1]).wf() && alloc_step(runs[k], runs[k + 1], frames[k]),
    ensures
        forall|k: int| 0 <= k < frames.len() ==> (#[trigger] frames[k] matches Some(fr) ==> in_usable(runs[0].regions@, fr)),
        forall|k: int, m: int| 0 <= k < m < frames.len() && #[trigger] frames[k] is Some && #[trigger] frames[m] is Some
            ==> frames[k] != frames[m],
        forall|k: int, m: int| 0 <= k < m < frames.len() && #[trigger] frames[k] is None ==> #[trigger] frames[m] is None,
{
    let rs = runs[0].regions@;
    lemma_run_facts(runs, frames, frames.len() as int);
    assert forall|k: int| 0 <= k < frames.len() implies (#[trigger] frames[k] matches Some(fr) ==> in_usable(rs, fr)) by {
        if let Some(fr) = frames[k] {
            let i = runs[k + 1].current_region_idx as int;
            assert(rs[i].kind == RegionKind::Usable && rs[i].start <= fr && fr + 4096 <= rs[i].end);
        }
    }
    assert forall|k: int, m: int| 0 <= k < m < frames.len() && #[trigger] frames[k] is Some && #[trigger] frames[m] is Some
        implies frames[k] != frames[m] by {
        let fk = frames[k]->0;
        let fm = frames[m]->0;
        let ik = runs[k + 1].current_region_idx as int;
        let im = runs[m + 1].current_region_idx as int;
        lemma_forward(runs, frames, k + 1, m);
        lemma_forward(runs, frames, m, m + 1);
        if ik == im {
            assert(runs[m].current_region_idx == im);
            assert(fk + 4096 <= runs[m].current_addr);
            assert(fm == runs[m].current_addr);
        } else {
            assert(rs[ik].end <= rs[im].start || rs[im].end <= rs[ik].start);
        }
    }
    assert forall|k: int, m: int| 0 <= k < m < frames.len() && #[trigger] frames[k] is None implies #[trigger] frames[m] is None by {
        lemma_forward(runs, frames, k + 1, m);
        assert(runs[m].current_region_idx == rs.len());
    }
}

/// Facts of every step of a run up to `n`: each keeps `alloc_inv` and the
/// map, and what `lemma_step` says of the frame it hands out.
proof fn lemma_run_facts(runs: Seq<BootInfoFrameAllocator>, frames: Seq<Option<u64>>, n: int)
    requires
        runs.len() == frames.len() + 1,
        0 <= n <= frames.len(),
        alloc_inv(runs[0]),
        aligned_usable(runs[0].regions@),
        forall|k: int| 0 <= k < frames.len() ==> (#[trigger] runs[k + 1]).wf() && alloc_step(runs[k], runs[k + 1], frames[k]),
    ensures
        forall|k: int| 0 <= k <= n ==> alloc_inv(#[trigger] runs[k]) && runs[k].regions@ == runs[0].regions@,
        forall|k: int| 0 <= k < n ==> (#[trigger] frames[k] matches Some(fr) ==> {
            let i = runs[k + 1].current_region_idx as int;
            &&& 0 <= i < runs[0].regions@.len()
            &&& runs[0].regions@[i].kind == RegionKind::Usable
            &&& runs[0].regions@[i].start <= fr
            &&& fr + 4096 <= runs[0].regions@[i].end
            &&& runs[k + 1].current_addr == fr + 4096
        }),
    decreases n,
{
    if n > 0 {
        lemma_run_facts(runs, frames, n - 1);
        assert(runs[n - 1 + 1] == runs[n]);
        lemma_step(runs[n - 1], runs[n], frames[n - 1]);
    }
}

/// From call `k` to call `m` of a run, the walk only moves forward, and
/// where it stays in one region the address only grows.
proof fn lemma_forward(runs: Seq<BootInfoFrameAllocator>, frames: Seq<Option<u64>>, k: int, m: int)
    requires
        runs.len() == frames.len() + 1,
        0 <= k <= m <= frames.len(),
        forall|j: int| 0 <= j < frames.len() ==> (#[trigger] runs[j + 1]).wf() && alloc_step(runs[j], runs[j + 1], frames[j]),
    ensures
        runs[k].current_region_idx <= runs[m].current_region_idx,
        runs[k].current_region_idx == runs[m].current_region_idx ==> runs[k].current_addr <= runs[m].current_addr,
    decreases m - k,
{
    if k < m {
        lemma_forward(runs, frames, k, m - 1);
        assert(runs[m - 1 + 1] == runs[m]);
        assert(alloc_step(runs[m - 1], runs[m], frames[m - 1]));
    }
}

/// A frame allocator walking the usable regions of the memory map in
/// order, handing out consecutive 4 KiB frames.
pub struct BootInfoFrameAllocator {
    pub regions: Vec<MemoryRegion>,
    pub current_region_idx: usize,
    pub current_addr: u64,
}

impl BootInfoFrameAllocator {
    /// The region index stays within the map (one past its end when the
    /// map is used up).
    pub open spec fn wf(&self) -> bool {
        self.current_region_idx <= self.regions@.len()
    }

    /// Moves to the first usable, non-empty region at or after the current
    /// one and points at its start; at the end of the map nothing is left.
    fn advance_to_next_usable(&mut self)
        requires
            old(self).wf(),
        ensures
            final(self).wf(),
            final(self).regions@ == old(self).regions@,
            old(self).current_region_idx <= final(self).current_region_idx,
            forall|j: int| old(self).current_region_idx <= j < final(self).current_region_idx
                ==> !usable_region(#[trigger] old(self).regions@[j]),
            final(self).current_region_idx < final(self).regions@.len() ==> {
                &&& usable_region(final(self).regions@[final(self).current_region_idx as int])
                &&& final(self).current_addr == final(self).regions@[final(self).current_region_idx as int].start
            },
            final(self).current_region_idx == final(self).regions@.len() ==> final(self).current_addr == old(self).current_addr,
    {
        while self.current_region_idx < self.regions.len()
            invariant_except_break
                self.wf(),
                self.regions@ == old(self).regions@,
                old(self).current_region_idx <= self.current_region_idx,
                forall|j: int| old(self).current_region_idx <= j < self.current_region_idx
                    ==> !usable_region(#[trigger] old(self).regions@[j]),
                self.current_addr == old(self).current_addr,
            ensures
                self.wf(),
                self.regions@ == old(self).regions@,
                old(self).current_region_idx <= self.current_region_idx,
                forall|j: int| old(self).current_region_idx <= j < self.current_region_idx
                    ==> !usable_region(#[trigger] old(self).regions@[j]),
                self.current_region_idx < self.regions@.len() ==> {
                    &&& usable_region(self.regions@[self.current_region_idx as int])
                    &&& self.current_addr == self.regions@[self.current_region_idx as int].start
                },
                self.current_region_idx == self.regions@.len() ==> self.current_addr == old(self).current_addr,
            decreases self.regions@.len() - self.current_region_idx,
        {
            let r = self.regions[self.current_region_idx];
            if r.kind == RegionKind::Usable && r.start < r.end {
                self.current_addr = r.start;
                return;
            }
            self.current_region_idx = self.current_region_idx + 1;
        }
    }

    /// An allocator over the memory map `regions`, pointing at the start of
    /// its first usable region.
    pub fn init(regions: Vec<MemoryRegion>) -> (a: BootInfoFrameAllocator)
        ensures
            a.wf(),
            a.regions@ == regions@,
            forall|j: int| 0 <= j < a.current_region_idx ==> !usable_region(#[trigger] regions@[j]),
            a.current_region_idx < regions@.len() ==> {
                &&& usable_region(regions@[a.current_region_idx as int])
                &&& a.current_addr == regions@[a.current_region_idx as int].start
            },
            a.current_region_idx == regions@.len() ==> a.current_addr == 0,
    {
        let mut a = BootInfoFrameAllocator { regions, current_region_idx: 0, current_addr: 0 };
        a.advance_to_next_usable();
        a
    }

    /// The next frame: the frame holding the current address when a whole
    /// frame from there still fits in the current usable region (the address
    /// then moves on by a frame); otherwise the next regions are tried in
    /// turn from their starts. `None` once the map is used up.
    pub fn allocate_frame(&mut self) -> (f: Option<u64>)
        requires
            old(self).wf(),
        ensures
            final(self).wf(),
            alloc_step(*old(self), *final(self), f),
    {
        while self.current_region_idx < self.regions.len()
            invariant
                self.wf(),
                self.regions@ == old(self).regions@,
                old(self).current_region_idx <= self.current_region_idx,
                self.current_region_idx > old(self).current_region_idx && self.current_region_idx < self.regions@.len() ==>
                    self.current_addr == self.regions@[self.current_region_idx as int].start,
                self.current_region_idx == old(self).current_region_idx ==> self.current_addr == old(self).current_addr,
                old(self).current_region_idx < self.current_region_idx && old(self).current_region_idx < old(self).regions@.len()
                    ==> !can_give(old(self).regions@[old(self).current_region_idx as int], old(self).current_addr),
                forall|j: int| old(self).current_region_idx < j < self.current_region_idx
                    ==> !can_give(#[trigger] old(self).regions@[j], old(self).regions@[j].start),
            decreases self.regions@.len() - self.current_region_idx,
        {
            let r = self.regions[self.current_region_idx];
            if r.kind == RegionKind::Usable && r.end >= 4096 && self.current_addr <= r.end - 4096 {
                let a = self.current_addr;
                let frame = a - a % 4096;
                self.current_addr = a + 4096;
                return Some(frame);
            }
            let ghost skipped = self.current_region_idx;
            self.current_region_idx = self.current_region_idx + 1;
            self.advance_to_next_usable();
            proof {
                assert forall|j: int| old(self).current_region_idx < j < self.current_region_idx
                    implies !can_give(#[trigger] old(self).regions@[j], old(self).regions@[j].start) by {
                    if j == skipped {
                    }
                }
            }
        }
        None
    }
}

/// The kernel heap size for `usable` bytes of usable RAM: 48 MiB from
/// 512 MiB on, 32 MiB from 256 MiB, 16 MiB from 128 MiB, else 8 MiB.
pub open spec fn heap_size_spec(usable: u64) -> nat {
    if usable >= 512 * 1048576 { 48 * 1048576 }
    else if usable >= 256 * 1048576 { 32 * 1048576 }
    else if usable >= 128 * 1048576 { 16 * 1048576 }
    else { 8 * 1048576 }
}

/// The kernel heap size for `usable` bytes of usable RAM.
pub fn heap_size_for(usable: u64) -> (n: usize)
    ensures
        n == heap_size_spec(usable),
{
    if usable >= 512 * 1024 * 1024 {
        48 * 1024 * 1024
    } else if usable >= 256 * 1024 * 1024 {
        32 * 1024 * 1024
    } else if usable >= 128 * 1024 * 1024 {
        16 * 1024 * 1024
    } else {
        8 * 1024 * 1024
    }
}

} // verus!
