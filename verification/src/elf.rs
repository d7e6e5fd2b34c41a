//! Loading 64-bit little-endian x86-64 ELF executables into a flat memory
//! image, and what a finished process hands back.
use vstd::prelude::*;

verus! {

/// The exit code and printed output of a finished process.
pub struct ProcessResult {
    pub exit_code: i32,
    pub output: String,
}

/// Why an executable cannot be loaded.
#[derive(Debug, Clone, Copy, PartialEq, Eq, Structural)]
pub enum ElfError {
    TooSmall,
    BadMagic,
    NotLittleEndian64,
    NotX86_64,
    HeaderOutOfBounds,
    NoLoadSegments,
    TooLarge,
    SegmentOutOfBounds,
    EntryOutOfBounds,
}

/// The message an error is reported with.
pub fn elf_error_message(e: ElfError) -> (s: &'static str)
    ensures
        s@ == error_text(e),
{
    match e {
        ElfError::TooSmall => "ELF file too small",
        ElfError::BadMagic => "Invalid ELF magic header",
        ElfError::NotLittleEndian64 => "Unsupported architecture (requires 64-bit little endian)",
        ElfError::NotX86_64 => "Unsupported machine type (requires x86_64)",
        ElfError::HeaderOutOfBounds => "Program header out of bounds",
        ElfError::NoLoadSegments => "No valid PT_LOAD segments found in ELF",
        ElfError::TooLarge => "ELF executable memory requirement too large (>10MB)",
        ElfError::SegmentOutOfBounds => "Segment data out of bounds",
        ElfError::EntryOutOfBounds => "Entry point address out of bounds",
    }
}

/// The message of error `e`.
pub open spec fn error_text(e: ElfError) -> Seq<char> {
    match e {
        ElfError::TooSmall => "ELF file too small"@,
        ElfError::BadMagic => "Invalid ELF magic header"@,
        ElfError::NotLittleEndian64 => "Unsupported architecture (requires 64-bit little endian)"@,
        ElfError::NotX86_64 => "Unsupported machine type (requires x86_64)"@,
        ElfError::HeaderOutOfBounds => "Program header out of bounds"@,
        ElfError::NoLoadSegments => "No valid PT_LOAD segments found in ELF"@,
        ElfError::TooLarge => "ELF executable memory requirement too large (>10MB)"@,
        ElfError::SegmentOutOfBounds => "Segment data out of bounds"@,
        ElfError::EntryOutOfBounds => "Entry point address out of bounds"@,
    }
}

/// A program laid out in memory: its loadable segments copied into a
/// zeroed buffer at their offsets from the lowest segment address, and where
/// to start it.
pub struct LoadedImage {
    pub memory: Vec<u8>,
    pub entry_offset: usize,
}

/// A little-endian 16-bit number at `i`.
pub open spec fn le16(b: Seq<u8>, i: int) -> int {
    b[i] as int + 256 * b[i + 1] as int
}

/// A little-endian 32-bit number at `i`.
pub open spec fn le32(b: Seq<u8>, i: int) -> int {
    le16(b, i) + 65536 * le16(b, i + 2)
}

/// A little-endian 64-bit number at `i`.
pub open spec fn le64(b: Seq<u8>, i: int) -> int {
    le32(b, i) + 4294967296 * le32(b, i + 4)
}

/// Where program header `i` starts.
pub open spec fn ph_offset(b: Seq<u8>, i: int) -> int {
    le64(b, 32) + i * le16(b, 54)
}

/// The number of program headers.
pub open spec fn ph_count(b: Seq<u8>) -> int {
    le16(b, 56)
}

/// Whether program header `i` describes a loadable segment.
pub open spec fn is_load(b: Seq<u8>, i: int) -> bool {
    le32(b, ph_offset(b, i)) == 1
}

/// The virtual address of the segment of header `i`.
pub open spec fn seg_vaddr(b: Seq<u8>, i: int) -> int {
    le64(b, ph_offset(b, i) + 16)
}

/// The in-memory size of the segment of header `i`.
pub open spec fn seg_memsz(b: Seq<u8>, i: int) -> int {
    le64(b, ph_offset(b, i) + 40)
}

/// The file offset of the segment of header `i`.
pub open spec fn seg_offset(b: Seq<u8>, i: int) -> int {
    le64(b, ph_offset(b, i) + 8)
}

/// The in-file size of the segment of header `i`.
pub open spec fn seg_filesz(b: Seq<u8>, i: int) -> int {
    le64(b, ph_offset(b, i) + 32)
}

/// The outcome of scanning the program headers from `i` with the lowest
/// and highest segment addresses `lo`, `hi` so far: 0 with the final `lo`
/// and `hi` when every header lies in the file; 1 when one does not; 2 when
/// the arithmetic overflows first.
pub open spec fn scan_headers(b: Seq<u8>, i: int, lo: int, hi: int) -> (int, int, int)
    decreases ph_count(b) - i,
{
    if i < 0 || i >= ph_count(b) {
        (0, lo, hi)
    } else {
        let off = ph_offset(b, i);
        if off + 56 > u64::MAX {
            (2, lo, hi)
        } else if off + 56 > b.len() {
            (1, lo, hi)
        } else if is_load(b, i) {
            let top = seg_vaddr(b, i) + seg_memsz(b, i);
            if top > u64::MAX {
                (2, lo, hi)
            } else {
                scan_headers(b, i + 1, if seg_vaddr(b, i) < lo { seg_vaddr(b, i) } else { lo }, if top > hi { top } else { hi })
            }
        } else {
            scan_headers(b, i + 1, lo, hi)
        }
    }
}

/// The outcome of copying the loadable segments from header `i` into the
/// image `img`, whose first byte stands for address `lo`: 0 with the image
/// when every segment fits in the file and the image; 1 when one does not;
/// 2 when the arithmetic overflows first.
pub open spec fn copy_segments(b: Seq<u8>, i: int, lo: int, img: Seq<u8>) -> (int, Seq<u8>)
    decreases ph_count(b) - i,
{
    if i < 0 || i >= ph_count(b) {
        (0, img)
    } else if is_load(b, i) {
        let from = seg_offset(b, i);
        let n = seg_filesz(b, i);
        let dest = seg_vaddr(b, i) - lo;
        if from + n > u64::MAX || dest + n > u64::MAX {
            (2, img)
        } else if from + n > b.len() || dest + n > img.len() {
            (1, img)
        } else {
            copy_segments(b, i + 1, lo, img.subrange(0, dest) + b.subrange(from, from + n) + img.subrange(dest + n, img.len() as int))
        }
    } else {
        copy_segments(b, i + 1, lo, img)
    }
}

/// What loading the file `b` does.
pub enum LoadOutcome {
    /// The image and the entry point's offset in it.
    Loaded(Seq<u8>, int),
    Failed(ElfError),
    /// The original arithmetic would overflow (and stop the system).
    Overflows,
}

/// What loading `b` gives: the header checks (size, magic, 64-bit
/// little-endian class, x86-64 machine), the program headers' bounds, at
/// least one loadable segment, at most 10 MiB of address span, the segments
/// copied into a zeroed buffer of the span rounded up to 4 KiB plus one page,
/// and the entry point inside it.
pub open spec fn load_outcome(b: Seq<u8>) -> LoadOutcome {
    if b.len() < 64 {
        LoadOutcome::Failed(ElfError::TooSmall)
    } else if !(b[0] == 0x7F && b[1] == 0x45 && b[2] == 0x4C && b[3] == 0x46) {
        LoadOutcome::Failed(ElfError::BadMagic)
    } else if b[4] != 2 || b[5] != 1 {
        LoadOutcome::Failed(ElfError::NotLittleEndian64)
    } else if le16(b, 18) != 0x3E {
        LoadOutcome::Failed(ElfError::NotX86_64)
    } else {
        let (status, lo, hi) = scan_headers(b, 0, u64::MAX as int, 0);
        if status == 2 {
            LoadOutcome::Overflows
        } else if status == 1 {
            LoadOutcome::Failed(ElfError::HeaderOutOfBounds)
        } else if lo == u64::MAX || hi <= lo {
            LoadOutcome::Failed(ElfError::NoLoadSegments)
        } else if hi - lo > 10485760 {
            LoadOutcome::Failed(ElfError::TooLarge)
        } else {
            let size = ((hi - lo + 4095) / 4096) * 4096 + 4096;
            let (cstatus, img) = copy_segments(b, 0, lo, Seq::new(size as nat, |k: int| 0u8));
            if cstatus == 2 {
                LoadOutcome::Overflows
            } else if cstatus == 1 {
                LoadOutcome::Failed(ElfError::SegmentOutOfBounds)
            } else if le64(b, 24) < lo {
                LoadOutcome::Overflows
            } else if le64(b, 24) - lo >= size {
                LoadOutcome::Failed(ElfError::EntryOutOfBounds)
            } else {
                LoadOutcome::Loaded(img, le64(b, 24) - lo)
            }
        }
    }
}

fn rd16(b: &[u8], i: usize) -> (v: u64)
    requires
        i + 2 <= b@.len(),
    ensures
        v == le16(b@, i as int),
{
    let n = b.len();
    assert(i + 2 <= n);
    b[i] as u64 + 256 * b[i + 1] as u64
}

fn rd32(b: &[u8], i: usize) -> (v: u64)
    requires
        i + 4 <= b@.len(),
    ensures
        v == le32(b@, i as int),
{
    let n = b.len();
    assert(i + 4 <= n);
    rd16(b, i) + 65536 * rd16(b, i + 2)
}

fn rd64(b: &[u8], i: usize) -> (v: u64)
    requires
        i + 8 <= b@.len(),
    ensures
        v == le64(b@, i as int),
{
    let n = b.len();
    assert(i + 8 <= n);
    let lo = rd32(b, i);
    let hi = rd32(b, i + 4);
    assert(lo + 4294967296 * hi <= u64::MAX) by (nonlinear_arith)
        requires lo <= 4294967295, hi <= 4294967295;
    lo + 4294967296 * hi
}

/// The lowest and highest addresses of the loadable segments, or why the
/// headers cannot be read (1 out of the file, 2 overflow).
fn scan(b: &[u8]) -> (r: (u8, u64, u64))
    requires
        b@.len() >= 64,
    ensures
        (r.0 as int, r.1 as int, r.2 as int) == scan_headers(b@, 0, u64::MAX as int, 0),
{
    let phoff = rd64(b, 32);
    let ent = rd16(b, 54);
    let num = rd16(b, 56);
    let mut lo: u64 = u64::MAX;
    let mut hi: u64 = 0;
    let mut i: u64 = 0;
    while i < num
        invariant
            b@.len() >= 64,
            phoff == le64(b@, 32),
            ent == le16(b@, 54),
            num == ph_count(b@),
            ent <= 65535,
            num <= 65535,
            i <= num,
            scan_headers(b@, i as int, lo as int, hi as int) == scan_headers(b@, 0, u64::MAX as int, 0),
        decreases num - i,
    {
        assert(i * ent <= 65535 * 65535) by (nonlinear_arith) requires i <= 65535, ent <= 65535;
        let step = i * ent;
        if phoff > u64::MAX - step || phoff + step > u64::MAX - 56 {
            return (2, lo, hi);
        }
        let off = phoff + step;
        if off + 56 > b.len() as u64 {
            return (1, lo, hi);
        }
        let o = off as usize;
        if rd32(b, o) == 1 {
            let va = rd64(b, o + 16);
            let mem = rd64(b, o + 40);
            if va > u64::MAX - mem {
                return (2, lo, hi);
            }
            let top = va + mem;
            if va < lo {
                lo = va;
            }
            if top > hi {
                hi = top;
            }
        }
        i = i + 1;
    }
    (0, lo, hi)
}

/// A scan ends in one of its three outcomes.
proof fn lemma_scan_status(b: Seq<u8>, i: int, lo: int, hi: int)
    ensures
        0 <= scan_headers(b, i, lo, hi).0 <= 2,
    decreases ph_count(b) - i,
{
    if 0 <= i < ph_count(b) {
        let top = seg_vaddr(b, i) + seg_memsz(b, i);
        if is_load(b, i) {
            lemma_scan_status(b, i + 1, if seg_vaddr(b, i) < lo { seg_vaddr(b, i) } else { lo }, if top > hi { top } else { hi });
        } else {
            lemma_scan_status(b, i + 1, lo, hi);
        }
    }
}

/// A copy ends in one of its three outcomes.
proof fn lemma_copy_status(b: Seq<u8>, i: int, lo: int, img: Seq<u8>)
    ensures
        0 <= copy_segments(b, i, lo, img).0 <= 2,
    decreases ph_count(b) - i,
{
    if 0 <= i < ph_count(b) {
        let from = seg_offset(b, i);
        let n = seg_filesz(b, i);
        let dest = seg_vaddr(b, i) - lo;
        if is_load(b, i) {
            lemma_copy_status(b, i + 1, lo, img.subrange(0, dest) + b.subrange(from, from + n) + img.subrange(dest + n, img.len() as int));
        } else {
            lemma_copy_status(b, i + 1, lo, img);
        }
    }
}

/// A successful scan never raises its lowest address.
proof fn lemma_scan_mono(b: Seq<u8>, i: int, lo: int, hi: int)
    requires
        0 <= i,
        scan_headers(b, i, lo, hi).0 == 0,
    ensures
        scan_headers(b, i, lo, hi).1 <= lo,
    decreases ph_count(b) - i,
{
    if i < ph_count(b) {
        let top = seg_vaddr(b, i) + seg_memsz(b, i);
        if is_load(b, i) {
            lemma_scan_mono(b, i + 1, if seg_vaddr(b, i) < lo { seg_vaddr(b, i) } else { lo }, if top > hi { top } else { hi });
        } else {
            lemma_scan_mono(b, i + 1, lo, hi);
        }
    }
}

/// A successful scan ends with an address no higher than any loadable
/// segment's it passed.
proof fn lemma_scan_low(b: Seq<u8>, i: int, lo: int, hi: int, j: int)
    requires
        0 <= i <= j < ph_count(b),
        scan_headers(b, i, lo, hi).0 == 0,
        is_load(b, j),
    ensures
        scan_headers(b, i, lo, hi).1 <= seg_vaddr(b, j),
    decreases j - i,
{
    let top = seg_vaddr(b, i) + seg_memsz(b, i);
    let lo2 = if is_load(b, i) { if seg_vaddr(b, i) < lo { seg_vaddr(b, i) } else { lo } } else { lo };
    let hi2 = if is_load(b, i) { if top > hi { top } else { hi } } else { hi };
    if i == j {
        lemma_scan_mono(b, i + 1, lo2, hi2);
    } else {
        lemma_scan_low(b, i + 1, lo2, hi2, j);
    }
}

/// The address the image's first byte stands for: the lowest address of a
/// loadable segment (see `lemma_image_base`).
pub open spec fn image_base(b: Seq<u8>) -> int {
    scan_headers(b, 0, u64::MAX as int, 0).1
}

/// Whether the file parts of the loadable segments `j` and `k` land on
/// different addresses.
pub open spec fn apart(b: Seq<u8>, j: int, k: int) -> bool {
    seg_vaddr(b, j) + seg_filesz(b, j) <= seg_vaddr(b, k) || seg_vaddr(b, k) + seg_filesz(b, k) <= seg_vaddr(b, j)
}

/// Whether no two loadable segments of `b` write the same address.
pub open spec fn loads_apart(b: Seq<u8>) -> bool {
    forall|j: int, k: int| 0 <= j < ph_count(b) && 0 <= k < ph_count(b) && j != k && is_load(b, j) && is_load(b, k)
        ==> #[trigger] apart(b, j, k)
}

/// Whether the image `m` of the file `b` holds every loadable segment's
/// file bytes at the segment's address (counted from the image base).
pub open spec fn segments_in_image(b: Seq<u8>, m: Seq<u8>) -> bool {
    forall|j: int| 0 <= j < ph_count(b) && #[trigger] is_load(b, j) ==> {
        let at = seg_vaddr(b, j) - image_base(b);
        &&& 0 <= at
        &&& at + seg_filesz(b, j) <= m.len()
        &&& m.subrange(at, at + seg_filesz(b, j)) == b.subrange(seg_offset(b, j), seg_offset(b, j) + seg_filesz(b, j))
    }
}

/// Every byte of the image at or past the start of segment `k`'s place
/// that no loadable segment from header `i` on writes, the copy leaves as
/// it was; the copy keeps the image's length.
proof fn lemma_copy_frame(b: Seq<u8>, i: int, lo: int, img: Seq<u8>, p: int)
    requires
        0 <= i,
        copy_segments(b, i, lo, img).0 == 0,
        forall|k: int| i <= k < ph_count(b) && #[trigger] is_load(b, k) ==> seg_vaddr(b, k) >= lo,
        0 <= p < img.len(),
        forall|k: int| i <= k < ph_count(b) && #[trigger] is_load(b, k)
            ==> p < seg_vaddr(b, k) - lo || p >= seg_vaddr(b, k) - lo + seg_filesz(b, k),
    ensures
        copy_segments(b, i, lo, img).1.len() == img.len(),
        copy_segments(b, i, lo, img).1[p] == img[p],
    decreases ph_count(b) - i,
{
    if i < ph_count(b) {
        if is_load(b, i) {
            let from = seg_offset(b, i);
            let n = seg_filesz(b, i);
            let dest = seg_vaddr(b, i) - lo;
            let img2 = img.subrange(0, dest) + b.subrange(from, from + n) + img.subrange(dest + n, img.len() as int);
            assert(img2.len() == img.len());
            assert(img2[p] == img[p]);
            lemma_copy_frame(b, i + 1, lo, img2, p);
        } else {
            lemma_copy_frame(b, i + 1, lo, img, p);
        }
    }
}

/// After a successful copy from header `i` on, the place of loadable
/// segment `k` holds its file bytes, when no later loadable segment writes
/// over it.
proof fn lemma_copy_seg(b: Seq<u8>, i: int, lo: int, img: Seq<u8>, k: int)
    requires
        0 <= i <= k < ph_count(b),
        is_load(b, k),
        copy_segments(b, i, lo, img).0 == 0,
        forall|j: int| i <= j < ph_count(b) && #[trigger] is_load(b, j) ==> seg_vaddr(b, j) >= lo,
        forall|j: int| k < j < ph_count(b) && #[trigger] is_load(b, j) ==> apart(b, k, j),
    ensures
        ({
            let at = seg_vaddr(b, k) - lo;
            let n = seg_filesz(b, k);
            &&& at + n <= img.len()
            &&& copy_segments(b, i, lo, img).1.subrange(at, at + n) == b.subrange(seg_offset(b, k), seg_offset(b, k) + n)
        }),
    decreases k - i,
{
    let from = seg_offset(b, i);
    let n = seg_filesz(b, i);
    let dest = seg_vaddr(b, i) - lo;
    if i == k {
        let img2 = img.subrange(0, dest) + b.subrange(from, from + n) + img.subrange(dest + n, img.len() as int);
        let out = copy_segments(b, i + 1, lo, img2).1;
        assert(out == copy_segments(b, i, lo, img).1);
        assert(from + n <= b.len() && dest + n <= img.len() && 0 <= dest);
        assert(img2.len() == img.len());
        lemma_copy_frame_len(b, i + 1, lo, img2);
        assert(out.len() == img.len());
        assert forall|q: int| 0 <= q < n implies #[trigger] out.subrange(dest, dest + n)[q] == b.subrange(from, from + n)[q] by {
            assert forall|j: int| i + 1 <= j < ph_count(b) && #[trigger] is_load(b, j)
                implies dest + q < seg_vaddr(b, j) - lo || dest + q >= seg_vaddr(b, j) - lo + seg_filesz(b, j) by {
                assert(apart(b, k, j));
            }
            lemma_copy_frame(b, i + 1, lo, img2, dest + q);
            assert(img2[dest + q] == b[from + q]);
            assert(out.subrange(dest, dest + n)[q] == out[dest + q]);
        }
        assert(out.subrange(dest, dest + n) =~= b.subrange(from, from + n));
    } else if is_load(b, i) {
        let img2 = img.subrange(0, dest) + b.subrange(from, from + n) + img.subrange(dest + n, img.len() as int);
        lemma_copy_seg(b, i + 1, lo, img2, k);
    } else {
        lemma_copy_seg(b, i + 1, lo, img, k);
    }
}

/// A successful scan from header `i` ends at its starting lowest address or
/// at the address of one of the loadable segments it passed.
proof fn lemma_scan_attained(b: Seq<u8>, i: int, lo: int, hi: int)
    requires
        0 <= i,
        scan_headers(b, i, lo, hi).0 == 0,
    ensures
        scan_headers(b, i, lo, hi).1 == lo || exists|j: int| i <= j < ph_count(b) && #[trigger] is_load(b, j)
            && seg_vaddr(b, j) == scan_headers(b, i, lo, hi).1,
    decreases ph_count(b) - i,
{
    if i < ph_count(b) {
        let top = seg_vaddr(b, i) + seg_memsz(b, i);
        if is_load(b, i) {
            lemma_scan_attained(b, i + 1, if seg_vaddr(b, i) < lo { seg_vaddr(b, i) } else { lo }, if top > hi { top } else { hi });
        } else {
            lemma_scan_attained(b, i + 1, lo, hi);
        }
    }
}

/// What a successful load went through: a successful scan and copy, and
/// the image is what the copy gave.
proof fn lemma_loaded_facts(b: Seq<u8>)
    requires
        load_outcome(b) is Loaded,
    ensures
        scan_headers(b, 0, u64::MAX as int, 0).0 == 0,
        ({
            let lo = scan_headers(b, 0, u64::MAX as int, 0).1;
            let hi = scan_headers(b, 0, u64::MAX as int, 0).2;
            let size = ((hi - lo + 4095) / 4096) * 4096 + 4096;
            let c = copy_segments(b, 0, lo, Seq::new(size as nat, |k: int| 0u8));
            &&& c.0 == 0
            &&& load_outcome(b)->Loaded_0 == c.1
            &&& size >= 0
        }),
{
    lemma_scan_status(b, 0, u64::MAX as int, 0);
    let lo = scan_headers(b, 0, u64::MAX as int, 0).1;
    let hi = scan_headers(b, 0, u64::MAX as int, 0).2;
    let size = ((hi - lo + 4095) / 4096) * 4096 + 4096;
    lemma_copy_status(b, 0, lo, Seq::new(size as nat, |k: int| 0u8));
}

/// The base of a loaded image is the lowest address of its loadable
/// segments: no loadable segment lies below it, and one starts at it.
pub proof fn lemma_image_base(b: Seq<u8>)
    requires
        load_outcome(b) is Loaded,
    ensures
        forall|j: int| 0 <= j < ph_count(b) && #[trigger] is_load(b, j) ==> image_base(b) <= seg_vaddr(b, j),
        exists|j: int| 0 <= j < ph_count(b) && #[trigger] is_load(b, j) && seg_vaddr(b, j) == image_base(b),
{
    lemma_loaded_facts(b);
    assert forall|j: int| 0 <= j < ph_count(b) && #[trigger] is_load(b, j) implies image_base(b) <= seg_vaddr(b, j) by {
        lemma_scan_low(b, 0, u64::MAX as int, 0, j);
    }
    lemma_scan_attained(b, 0, u64::MAX as int, 0);
}

/// Loading copies every loadable segment: in an image loaded from `b`
/// whose loadable segments write different addresses, each segment's file
/// bytes stand at its address counted from the image base (the lowest
/// segment address), wherever it comes among the headers.
pub proof fn lemma_load_copies_segments(b: Seq<u8>)
    requires
        load_outcome(b) is Loaded,
        loads_apart(b),
    ensures
        segments_in_image(b, load_outcome(b)->Loaded_0),
{
    let lo = image_base(b);
    let hi = scan_headers(b, 0, u64::MAX as int, 0).2;
    let size = ((hi - lo + 4095) / 4096) * 4096 + 4096;
    let zero = Seq::new(size as nat, |k: int| 0u8);
    lemma_loaded_facts(b);
    assert(load_outcome(b)->Loaded_0 == copy_segments(b, 0, lo, zero).1);
    assert forall|j: int| 0 <= j < ph_count(b) && #[trigger] is_load(b, j) implies seg_vaddr(b, j) >= lo by {
        lemma_scan_low(b, 0, u64::MAX as int, 0, j);
    }
    assert forall|j: int| 0 <= j < ph_count(b) && #[trigger] is_load(b, j) implies {
        let at = seg_vaddr(b, j) - image_base(b);
        let m = load_outcome(b)->Loaded_0;
        &&& 0 <= at
        &&& at + seg_filesz(b, j) <= m.len()
        &&& m.subrange(at, at + seg_filesz(b, j)) == b.subrange(seg_offset(b, j), seg_offset(b, j) + seg_filesz(b, j))
    } by {
        assert forall|k: int| j < k < ph_count(b) && #[trigger] is_load(b, k) implies apart(b, j, k) by {
            assert(apart(b, j, k));
        }
        lemma_copy_seg(b, 0, lo, zero, j);
        lemma_copy_frame_len(b, 0, lo, zero);
    }
}

/// Whether every byte of the image `m` of the file `b` that no loadable
/// segment's file bytes land on is zero.
pub open spec fn zero_elsewhere(b: Seq<u8>, m: Seq<u8>) -> bool {
    forall|p: int| 0 <= p < m.len() && (forall|j: int| 0 <= j < ph_count(b) && #[trigger] is_load(b, j)
        ==> p < seg_vaddr(b, j) - image_base(b) || p >= seg_vaddr(b, j) - image_base(b) + seg_filesz(b, j))
        ==> #[trigger] m[p] == 0
}

/// Loading starts from a zeroed buffer: every byte of a loaded image that
/// no loadable segment's file bytes land on (the rest of each segment's
/// memory size, and the gaps and the page after them) is zero; the entry
/// point lies inside the image.
pub proof fn lemma_load_zero_elsewhere(b: Seq<u8>)
    requires
        load_outcome(b) is Loaded,
    ensures
        zero_elsewhere(b, load_outcome(b)->Loaded_0),
        0 <= load_outcome(b)->Loaded_1 < load_outcome(b)->Loaded_0.len(),
{
    let lo = image_base(b);
    let hi = scan_headers(b, 0, u64::MAX as int, 0).2;
    let size = ((hi - lo + 4095) / 4096) * 4096 + 4096;
    let zero = Seq::new(size as nat, |k: int| 0u8);
    lemma_loaded_facts(b);
    assert forall|j: int| 0 <= j < ph_count(b) && #[trigger] is_load(b, j) implies seg_vaddr(b, j) >= lo by {
        lemma_scan_low(b, 0, u64::MAX as int, 0, j);
    }
    lemma_copy_frame_len(b, 0, lo, zero);
    let m = load_outcome(b)->Loaded_0;
    assert forall|p: int| 0 <= p < m.len() && (forall|j: int| 0 <= j < ph_count(b) && #[trigger] is_load(b, j)
        ==> p < seg_vaddr(b, j) - image_base(b) || p >= seg_vaddr(b, j) - image_base(b) + seg_filesz(b, j))
        implies #[trigger] m[p] == 0 by {
        lemma_copy_frame(b, 0, lo, zero, p);
    }
}

/// A successful copy keeps the image's length.
proof fn lemma_copy_frame_len(b: Seq<u8>, i: int, lo: int, img: Seq<u8>)
    requires
        0 <= i,
        copy_segments(b, i, lo, img).0 == 0,
        forall|k: int| i <= k < ph_count(b) && #[trigger] is_load(b, k) ==> seg_vaddr(b, k) >= lo,
    ensures
        copy_segments(b, i, lo, img).1.len() == img.len(),
    decreases ph_count(b) - i,
{
    if i < ph_count(b) {
        if is_load(b, i) {
            let from = seg_offset(b, i);
            let n = seg_filesz(b, i);
            let dest = seg_vaddr(b, i) - lo;
            let img2 = img.subrange(0, dest) + b.subrange(from, from + n) + img.subrange(dest + n, img.len() as int);
            lemma_copy_frame_len(b, i + 1, lo, img2);
        } else {
            lemma_copy_frame_len(b, i + 1, lo, img);
        }
    }
}

/// Copies the loadable segments into `img` (whose first byte stands for
/// address `lo`), or says why not (1 out of bounds, 2 overflow).
fn copy_all(b: &[u8], lo: u64, img: &mut Vec<u8>) -> (status: u8)
    requires
        b@.len() >= 64,
        scan_headers(b@, 0, u64::MAX as int, 0).0 == 0,
        lo == scan_headers(b@, 0, u64::MAX as int, 0).1,
    ensures
        (status as int, final(img)@) == copy_segments(b@, 0, lo as int, old(img)@),
{
    let phoff = rd64(b, 32);
    let ent = rd16(b, 54);
    let num = rd16(b, 56);
    let mut i: u64 = 0;
    let ghost mut slo: int = u64::MAX as int;
    let ghost mut shi: int = 0;
    while i < num
        invariant
            b@.len() >= 64,
            phoff == le64(b@, 32),
            ent == le16(b@, 54),
            num == ph_count(b@),
            ent <= 65535,
            num <= 65535,
            i <= num,
            scan_headers(b@, i as int, slo, shi).0 == 0,
            scan_headers(b@, i as int, slo, shi).1 == lo,
            scan_headers(b@, 0, u64::MAX as int, 0).1 == lo,
            scan_headers(b@, 0, u64::MAX as int, 0).0 == 0,
            copy_segments(b@, i as int, lo as int, img@) == copy_segments(b@, 0, lo as int, old(img)@),
        decreases num - i,
    {
        assert(i * ent <= 65535 * 65535) by (nonlinear_arith) requires i <= 65535, ent <= 65535;
        let blen = b.len();
        assert(ph_offset(b@, i as int) + 56 <= blen);
        let off = phoff + i * ent;
        let o = off as usize;
        proof {
            let top = seg_vaddr(b@, i as int) + seg_memsz(b@, i as int);
            if is_load(b@, i as int) {
                slo = if seg_vaddr(b@, i as int) < slo { seg_vaddr(b@, i as int) } else { slo };
                shi = if top > shi { top } else { shi };
            }
        }
        if rd32(b, o) == 1 {
            let from = rd64(b, o + 8);
            let va = rd64(b, o + 16);
            let n = rd64(b, o + 32);
            proof {
                lemma_scan_low(b@, 0, u64::MAX as int, 0, i as int);
            }
            let dest_big: u64 = va - lo;
            if from > u64::MAX - n || dest_big > u64::MAX - n {
                return 2;
            }
            if from + n > b.len() as u64 || dest_big + n > img.len() as u64 {
                return 1;
            }
            let start = from as usize;
            let d = dest_big as usize;
            let cnt = n as usize;
            let mut k: usize = 0;
            let ghost before = img@;
            let ilen = img.len();
            while k < cnt
                invariant
                    k <= cnt,
                    blen == b@.len(),
                    ilen == before.len(),
                    start + cnt <= b@.len(),
                    d + cnt <= before.len(),
                    img@.len() == before.len(),
                    forall|m: int| 0 <= m < img@.len() ==> #[trigger] img@[m] == if d <= m < d + k { b@[start + m - d] } else { before[m] },
                decreases cnt - k,
            {
                img.set(d + k, b[start + k]);
                k = k + 1;
            }
            assert(img@ =~= before.subrange(0, d as int) + b@.subrange(start as int, start + cnt) + before.subrange(d + cnt, before.len() as int));
        }
        i = i + 1;
    }
    0
}

/// Loads `bytes`: the image and entry offset, an error, or `None` where
/// the arithmetic would overflow.
fn load(bytes: &[u8]) -> (r: Option<Result<LoadedImage, ElfError>>)
    ensures
        match r {
            None => load_outcome(bytes@) is Overflows,
            Some(Ok(img)) => load_outcome(bytes@) == LoadOutcome::Loaded(img.memory@, img.entry_offset as int),
            Some(Err(e)) => load_outcome(bytes@) == LoadOutcome::Failed(e),
        },
{
    if bytes.len() < 64 {
        return Some(Err(ElfError::TooSmall));
    }
    if !(bytes[0] == 0x7F && bytes[1] == 0x45 && bytes[2] == 0x4C && bytes[3] == 0x46) {
        return Some(Err(ElfError::BadMagic));
    }
    if bytes[4] != 2 || bytes[5] != 1 {
        return Some(Err(ElfError::NotLittleEndian64));
    }
    if rd16(bytes, 18) != 0x3E {
        return Some(Err(ElfError::NotX86_64));
    }
    let (status, lo, hi) = scan(bytes);
    proof {
        lemma_scan_status(bytes@, 0, u64::MAX as int, 0);
    }
    if status == 2 {
        return None;
    }
    if status == 1 {
        return Some(Err(ElfError::HeaderOutOfBounds));
    }
    if lo == u64::MAX || hi <= lo {
        return Some(Err(ElfError::NoLoadSegments));
    }
    let total = hi - lo;
    if total > 10485760 {
        return Some(Err(ElfError::TooLarge));
    }
    let rounded = (total + 4095) & !4095u64;
    let t4 = total + 4095;
    assert(t4 & !4095u64 == (t4 / 4096) * 4096) by (bit_vector);
    let size = (rounded + 4096) as usize;
    let mut memory: Vec<u8> = Vec::new();
    let mut k: usize = 0;
    while k < size
        invariant
            k <= size,
            memory@ == Seq::new(k as nat, |m: int| 0u8),
        decreases size - k,
    {
        memory.push(0u8);
        assert(memory@ =~= Seq::new((k + 1) as nat, |m: int| 0u8));
        k = k + 1;
    }
    let cstatus = copy_all(bytes, lo, &mut memory);
    proof {
        lemma_copy_status(bytes@, 0, lo as int, Seq::new(size as nat, |m: int| 0u8));
    }
    if cstatus == 2 {
        return None;
    }
    if cstatus == 1 {
        return Some(Err(ElfError::SegmentOutOfBounds));
    }
    let entry = rd64(bytes, 24);
    if entry < lo {
        return None;
    }
    let off = entry - lo;
    if off >= size as u64 {
        return Some(Err(ElfError::EntryOutOfBounds));
    }
    Some(Ok(LoadedImage { memory, entry_offset: off as usize }))
}

/// Loads the executable `bytes` into a memory image (see `load_outcome`).
pub fn load_elf(bytes: &[u8]) -> (r: Result<LoadedImage, ElfError>)
    requires
        !(load_outcome(bytes@) is Overflows),
    ensures
        match r {
            Ok(img) => load_outcome(bytes@) == LoadOutcome::Loaded(img.memory@, img.entry_offset as int),
            Err(e) => load_outcome(bytes@) == LoadOutcome::Failed(e),
        },
        loads_apart(bytes@) ==> (r matches Ok(img) ==> segments_in_image(bytes@, img.memory@)),
        r matches Ok(img) ==> zero_elsewhere(bytes@, img.memory@),
        r matches Ok(img) ==> img.entry_offset + image_base(bytes@) == le64(bytes@, 24) && img.entry_offset < img.memory@.len(),
{
    proof {
        if load_outcome(bytes@) is Loaded {
            lemma_load_zero_elsewhere(bytes@);
            if loads_apart(bytes@) {
                lemma_load_copies_segments(bytes@);
            }
        }
    }
    match load(bytes) {
        Some(r) => r,
        None => Err(ElfError::TooSmall),
    }
}

/// Whether loading `bytes` would overflow (the host must not load such a
/// file).
pub fn load_overflows(bytes: &[u8]) -> (b: bool)
    ensures
        b == (load_outcome(bytes@) is Overflows),
{
    load(bytes).is_none()
}

} // verus!
