//! Finding the applications in flash.
//!
//! The flash region is a byte span cut into blocks of `BLOCK_SIZE` bytes. A
//! block holds an application when the probe at its start is not all zero.
//! Applications are stored back to back from block 0 on: the scan stops at
//! the first block that holds none, so what lies behind a gap is never
//! launched.

use vstd::prelude::*;
use crate::config::BLOCK_SIZE;
use crate::config::MAX_APPS;
use crate::config::MAX_BLOCKS;
use crate::config::PROBE_SIZE;
use crate::image::all_zeros;
use crate::image::ensure_length;
use crate::image::is_all_zeros;
use crate::image::lemma_true_length_bounds;
use crate::image::trim;
use crate::image::true_length;

verus! {

/// One application found in flash.
#[derive(Clone, Copy, Debug, PartialEq, Eq, Structural)]
pub struct AppRecord {
    /// Block at which the application starts.
    pub block_index: usize,
    /// Number of bytes that were probed at the start of the block.
    pub scan_length: usize,
    /// Length of the image inside the probe.
    pub true_length: usize,
}

/// Why a scan gave up.
#[derive(Clone, Copy, Debug, PartialEq, Eq, Structural)]
pub enum ScanError {
    /// Flash holds more applications than the table has room for.
    CapacityExceeded,
}

/// Byte offset of block `i` from the start of flash.
pub open spec fn block_offset(i: int) -> int {
    i * BLOCK_SIZE
}

/// The probe of block `i` lies inside `flash`.
pub open spec fn probe_in_span(flash: Seq<u8>, probe: int, i: int) -> bool {
    0 <= i && 0 <= probe && block_offset(i) + probe <= flash.len()
}

/// The first `probe` bytes of block `i`.
pub open spec fn probe_at(flash: Seq<u8>, probe: int, i: int) -> Seq<u8> {
    flash.subrange(block_offset(i), block_offset(i) + probe)
}

/// Block `i` is one that a scan walks, its probe lies inside `flash`, and the
/// probe is not all zero.
pub open spec fn occupied(flash: Seq<u8>, probe: int, i: int) -> bool {
    &&& 0 <= i < MAX_BLOCKS
    &&& probe_in_span(flash, probe, i)
    &&& !all_zeros(probe_at(flash, probe, i))
}

/// The record that a scan writes for block `i`.
pub open spec fn record_at(flash: Seq<u8>, probe: int, i: int) -> AppRecord {
    AppRecord {
        block_index: i as usize,
        scan_length: probe as usize,
        true_length: true_length(probe_at(flash, probe, i)) as usize,
    }
}

/// Blocks `0..n` are occupied and the run ends there: block `n` is not
/// occupied, or `n` is the number of blocks that a scan walks.
pub open spec fn leading_run(flash: Seq<u8>, probe: int, n: int) -> bool {
    &&& 0 <= n <= MAX_BLOCKS
    &&& forall|i: int| 0 <= i < n ==> occupied(flash, probe, i)
    &&& !occupied(flash, probe, n)
}

/// Number of occupied blocks before the first gap.
pub open spec fn run_length(flash: Seq<u8>, probe: int) -> int {
    choose|n: int| leading_run(flash, probe, n)
}

/// The records of blocks `0..n`, in block order.
pub open spec fn scan_result(flash: Seq<u8>, probe: int, n: int) -> Seq<AppRecord> {
    Seq::new(n as nat, |i: int| record_at(flash, probe, i))
}

/// The image that `record` stands for: what measuring its probe gives.
pub open spec fn image_of(flash: Seq<u8>, record: AppRecord) -> Seq<u8> {
    trim(probe_at(flash, record.scan_length as int, record.block_index as int))
}

/// Two runs from block 0 that both end at a gap have the same length.
pub proof fn lemma_leading_run_unique(flash: Seq<u8>, probe: int, a: int, b: int)
    requires
        leading_run(flash, probe, a),
        leading_run(flash, probe, b),
    ensures
        a == b,
{
    if a < b {
        assert(occupied(flash, probe, a));
    } else if b < a {
        assert(occupied(flash, probe, b));
    }
}

/// A scan returns the first contiguous run of occupied blocks and nothing
/// else: if blocks `0..n` are occupied and block `n` is not, the run has
/// length `n` whatever the blocks after `n` hold, and the records come in
/// increasing block order, one for each block of the run.
pub proof fn lemma_scan_first_run(flash: Seq<u8>, probe: int, n: int)
    requires
        0 <= n,
        forall|i: int| 0 <= i < n ==> occupied(flash, probe, i),
        !occupied(flash, probe, n),
    ensures
        run_length(flash, probe) == n,
        scan_result(flash, probe, n).len() == n,
        forall|i: int| 0 <= i < n ==> (#[trigger] scan_result(flash, probe, n)[i]).block_index == i,
        forall|i: int, j: int|
            0 <= i < j < n ==> scan_result(flash, probe, n)[i].block_index < scan_result(
                flash,
                probe,
                n,
            )[j].block_index,
{
    if n > MAX_BLOCKS {
        assert(occupied(flash, probe, MAX_BLOCKS as int));
    }
    assert(leading_run(flash, probe, n));
    lemma_leading_run_unique(flash, probe, run_length(flash, probe), n);
}

/// Every flash span has a run length.
pub proof fn lemma_run_length_exists(flash: Seq<u8>, probe: int)
    ensures
        leading_run(flash, probe, run_length(flash, probe)),
{
    lemma_run_from(flash, probe, 0);
}

proof fn lemma_run_from(flash: Seq<u8>, probe: int, k: int)
    requires
        0 <= k <= MAX_BLOCKS,
        forall|i: int| 0 <= i < k ==> occupied(flash, probe, i),
    ensures
        exists|n: int| leading_run(flash, probe, n),
    decreases MAX_BLOCKS - k,
{
    if occupied(flash, probe, k) {
        lemma_run_from(flash, probe, k + 1);
    } else {
        assert(leading_run(flash, probe, k));
    }
}

/// What an `AppManager` holds.
pub struct AppManagerView {
    /// The flash span that is scanned.
    pub flash: Seq<u8>,
    /// Number of bytes probed at the start of each block.
    pub probe_size: usize,
    /// Index of the record that is handed out next.
    pub current_num: usize,
    /// The table of records, in the order in which they were found.
    pub records: Seq<AppRecord>,
}

/// The table `v.records` holds at most `MAX_APPS` records, and record `i` is
/// the one that a scan of `v.flash` writes for block `i`: every record
/// stands for an occupied block, and the records are in block order.
pub open spec fn table_wf(v: AppManagerView) -> bool {
    &&& v.records.len() <= MAX_APPS
    &&& v.records == scan_result(v.flash, v.probe_size as int, v.records.len() as int)
    &&& forall|i: int| 0 <= i < v.records.len() ==> occupied(v.flash, v.probe_size as int, i)
}

/// The application table together with the flash span it was read from.
pub struct AppManager<'a> {
    flash: &'a [u8],
    probe_size: usize,
    current_num: usize,
    records: Vec<AppRecord>,
}

impl<'a> View for AppManager<'a> {
    type V = AppManagerView;

    closed spec fn view(&self) -> AppManagerView {
        AppManagerView {
            flash: self.flash@,
            probe_size: self.probe_size,
            current_num: self.current_num,
            records: self.records@,
        }
    }
}

/// The probe of block `i`, if it lies inside `flash`.
fn probe_of_block<'a>(flash: &'a [u8], probe_size: usize, i: usize) -> (r: Option<&'a [u8]>)
    requires
        i < MAX_BLOCKS,
    ensures
        r is Some <==> probe_in_span(flash@, probe_size as int, i as int),
        r matches Some(p) ==> p@ == probe_at(flash@, probe_size as int, i as int),
{
    let offset: usize = i * BLOCK_SIZE;
    let len: usize = flash.len();
    if probe_size > len || offset > len - probe_size {
        None
    } else {
        Some(&flash[offset..offset + probe_size])
    }
}

impl<'a> AppManager<'a> {
    /// The table holds at most `MAX_APPS` records, and record `i` is the one
    /// that a scan of this flash span writes for block `i`.
    pub open spec fn wf(&self) -> bool {
        table_wf(self@)
    }

    /// The image of record `index`, or the empty image where the table has no
    /// such record.
    pub open spec fn image_at(&self, index: int) -> Seq<u8> {
        if 0 <= index < self@.records.len() {
            image_of(self@.flash, self@.records[index])
        } else {
            Seq::empty()
        }
    }

    /// An empty table over `flash`, with the standard probe size.
    pub fn new(flash: &'a [u8]) -> (m: Self)
        ensures
            m@ == (AppManagerView {
                flash: flash@,
                probe_size: PROBE_SIZE,
                current_num: 0,
                records: Seq::empty(),
            }),
            m.wf(),
    {
        AppManager::with_probe_size(flash, PROBE_SIZE)
    }

    /// An empty table over `flash` that probes `probe_size` bytes per block.
    pub fn with_probe_size(flash: &'a [u8], probe_size: usize) -> (m: Self)
        ensures
            m@ == (AppManagerView {
                flash: flash@,
                probe_size,
                current_num: 0,
                records: Seq::empty(),
            }),
            m.wf(),
    {
        let m = AppManager { flash, probe_size, current_num: 0, records: Vec::new() };
        assert(m@.records =~= scan_result(flash@, probe_size as int, 0));
        m
    }

    /// Scans flash from block 0 up to the first block that holds no
    /// application and fills the table with what it found.
    ///
    /// The scan fails, and leaves the table as it was, when the run of
    /// occupied blocks is longer than the table.
    pub fn search_app(&mut self) -> (r: Result<(), ScanError>)
        ensures
            final(self)@.flash == old(self)@.flash,
            final(self)@.probe_size == old(self)@.probe_size,
            final(self)@.current_num == old(self)@.current_num,
            r is Ok <==> run_length(old(self)@.flash, old(self)@.probe_size as int) <= MAX_APPS,
            r is Ok ==> final(self)@.records == scan_result(
                old(self)@.flash,
                old(self)@.probe_size as int,
                run_length(old(self)@.flash, old(self)@.probe_size as int),
            ),
            r is Ok ==> final(self).wf(),
            r matches Err(e) ==> e == ScanError::CapacityExceeded && final(self)@ == old(self)@,
    {
        let ghost flash = self.flash@;
        let ghost probe = self.probe_size as int;
        let mut found: Vec<AppRecord> = Vec::new();
        let mut i: usize = 0;
        let mut gap: bool = false;
        while i < MAX_BLOCKS && !gap
            invariant
                flash == self.flash@,
                probe == self.probe_size as int,
                i <= MAX_BLOCKS,
                i <= MAX_APPS,
                gap ==> !occupied(flash, probe, i as int),
                forall|j: int| 0 <= j < i ==> occupied(flash, probe, j),
                found@ == scan_result(flash, probe, i as int),
                *self == *old(self),
            decreases MAX_BLOCKS - i + (if gap { 0int } else { 1int }),
        {
            let probed = probe_of_block(self.flash, self.probe_size, i);
            match probed {
                None => {
                    gap = true;
                },
                Some(bytes) => {
                    if is_all_zeros(bytes) {
                        gap = true;
                    } else if i >= MAX_APPS {
                        proof {
                            assert(occupied(flash, probe, i as int));
                            lemma_run_length_exists(flash, probe);
                            let n = run_length(flash, probe);
                            if n <= MAX_APPS {
                                assert(occupied(flash, probe, n));
                            }
                        }
                        return Err(ScanError::CapacityExceeded);
                    } else {
                        let code = ensure_length(bytes);
                        proof {
                            lemma_true_length_bounds(bytes@);
                        }
                        found.push(
                            AppRecord {
                                block_index: i,
                                scan_length: self.probe_size,
                                true_length: code.len(),
                            },
                        );
                        assert(found@ =~= scan_result(flash, probe, i + 1));
                        i += 1;
                    }
                },
            }
        }
        proof {
            assert(leading_run(flash, probe, i as int));
            lemma_run_length_exists(flash, probe);
            lemma_leading_run_unique(flash, probe, run_length(flash, probe), i as int);
        }
        self.records = found;
        Ok(())
    }

    /// Hands out the image of the current record and moves on to the next
    /// record. Past the last record the image is empty.
    pub fn get_load_true(&mut self) -> (code: &'a [u8])
        requires
            old(self).wf(),
            old(self)@.current_num < usize::MAX,
        ensures
            final(self)@ == (AppManagerView {
                current_num: (old(self)@.current_num + 1) as usize,
                ..old(self)@
            }),
            final(self).wf(),
            code@ == old(self).image_at(old(self)@.current_num as int),
            old(self)@.current_num < old(self)@.records.len() ==> code@.len() == old(
                self,
            )@.records[old(self)@.current_num as int].true_length,
    {
        let code = self.get_true_code(self.current_num);
        self.current_forward();
        code
    }

    /// The image of record `index`. Where the table has no such record the
    /// image is empty.
    pub fn get_true_code(&self, index: usize) -> (code: &'a [u8])
        requires
            self.wf(),
        ensures
            code@ == self.image_at(index as int),
            index < self@.records.len() ==> code@.len() == self@.records[index as int].true_length,
    {
        let flash: &'a [u8] = self.flash;
        if index < self.records.len() {
            let record = self.records[index];
            assert(record == scan_result(
                self@.flash,
                self@.probe_size as int,
                self@.records.len() as int,
            )[index as int]);
            assert(occupied(self@.flash, self@.probe_size as int, index as int));
            proof {
                lemma_true_length_bounds(
                    probe_at(self@.flash, self@.probe_size as int, index as int),
                );
            }
            match probe_of_block(flash, record.scan_length, record.block_index) {
                Some(bytes) => ensure_length(bytes),
                None => &flash[0..0],
            }
        } else {
            &flash[0..0]
        }
    }

    /// Moves on to the next record.
    pub fn current_forward(&mut self)
        requires
            old(self)@.current_num < usize::MAX,
        ensures
            final(self)@ == (AppManagerView {
                current_num: (old(self)@.current_num + 1) as usize,
                ..old(self)@
            }),
    {
        self.current_num += 1;
    }

    /// Number of records in the table.
    pub fn apps_num(&self) -> (n: usize)
        ensures
            n == self@.records.len(),
    {
        self.records.len()
    }

    /// Index of the record that is handed out next.
    pub fn current_num(&self) -> (n: usize)
        ensures
            n == self@.current_num,
    {
        self.current_num
    }

    /// Record `index` of the table.
    pub fn record(&self, index: usize) -> (r: Option<AppRecord>)
        ensures
            r == if index < self@.records.len() {
                Some(self@.records[index as int])
            } else {
                None
            },
    {
        if index < self.records.len() {
            Some(self.records[index])
        } else {
            None
        }
    }
}

impl AppRecord {
    /// The probe held no end-of-image window: the image fills the probe, or
    /// is longer than the probe and was cut at its end.
    pub fn fills_probe(&self) -> (r: bool)
        ensures
            r == (self.true_length == self.scan_length),
    {
        self.true_length == self.scan_length
    }

    /// Byte offset of the record's block from the start of flash.
    pub fn flash_offset(&self) -> (r: Option<usize>)
        ensures
            r == if block_offset(self.block_index as int) <= usize::MAX {
                Some(block_offset(self.block_index as int) as usize)
            } else {
                None
            },
    {
        self.block_index.checked_mul(BLOCK_SIZE)
    }
}

} // verus!
