use vstd::prelude::*;
use crate::nominal::{BillNominal, nominal_at, nominal_of_value, NOMINAL_COUNT};

verus! {

/// Why the ledger refused an operation.
#[derive(Debug, Clone, Copy, PartialEq, Eq, Structural)]
pub enum LedgerError {
    /// The count of this bill is already the largest one a `u32` holds.
    CountOverflow(BillNominal),
    /// A stored row names a face value that is no known bill.
    UnknownNominal(i64),
    /// A stored row holds a count that is negative or does not fit a `u32`.
    InvalidCount { nominal: i64, count: i64 },
}

/// The number of bills accepted so far, for each bill.
pub struct Ledger {
    counts: Vec<u32>,
}

/// Sum of face value times count over all bills, for counts in ascending
/// order of face value.
pub open spec fn total_of(c: Seq<u32>) -> int {
    1000 * c[0] + 2000 * c[1] + 5000 * c[2] + 10000 * c[3] + 20000 * c[4]
}

/// The counts after one more acceptance of `d`.
pub open spec fn counts_after_record(c: Seq<u32>, d: BillNominal) -> Seq<u32> {
    c.update(d.spec_index(), (c[d.spec_index()] + 1) as u32)
}

/// Whether a stored row names a known bill with a count that fits.
pub open spec fn row_valid(row: (i64, i64)) -> bool {
    nominal_of_value(row.0 as int) is Some && 0 <= row.1 <= u32::MAX
}

/// Why a stored row is refused.
pub open spec fn row_error(row: (i64, i64)) -> LedgerError {
    if nominal_of_value(row.0 as int) is None {
        LedgerError::UnknownNominal(row.0)
    } else {
        LedgerError::InvalidCount { nominal: row.0, count: row.1 }
    }
}

/// The counts that valid rows give: each row sets the count of its bill, a
/// later row overriding an earlier one, and bills without a row count zero.
pub open spec fn counts_of_rows(rows: Seq<(i64, i64)>) -> Seq<u32>
    decreases rows.len(),
{
    if rows.len() == 0 {
        seq![0u32, 0, 0, 0, 0]
    } else {
        let last = rows.last();
        let prev = counts_of_rows(rows.drop_last());
        match nominal_of_value(last.0 as int) {
            Some(d) => prev.update(d.spec_index(), last.1 as u32),
            None => prev,
        }
    }
}

impl View for Ledger {
    /// The counts in ascending order of face value.
    type V = Seq<u32>;

    closed spec fn view(&self) -> Seq<u32> {
        self.counts@
    }
}

impl Ledger {
    /// One count for each bill.
    pub open spec fn wf(&self) -> bool {
        self@.len() == NOMINAL_COUNT
    }

    /// A ledger with every count zero.
    pub fn new() -> (r: Ledger)
        ensures
            r.wf(),
            r@ == seq![0u32, 0, 0, 0, 0],
    {
        let r = Ledger { counts: vec![0u32, 0, 0, 0, 0] };
        assert(r@ =~= seq![0u32, 0, 0, 0, 0]);
        r
    }

    /// The ledger that stored rows of (face value, count) describe.
    pub fn from_rows(rows: &Vec<(i64, i64)>) -> (r: Result<Ledger, LedgerError>)
        ensures
            (forall|i: int| 0 <= i < rows@.len() ==> row_valid(#[trigger] rows@[i])) <==> r is Ok,
            r matches Ok(l) ==> l.wf() && l@ == counts_of_rows(rows@),
            r matches Err(e) ==> exists|k: int|
                0 <= k < rows@.len() && !row_valid(#[trigger] rows@[k]) && e == row_error(rows@[k])
                    && forall|j: int| 0 <= j < k ==> row_valid(rows@[j]),
    {
        let mut l = Ledger::new();
        let mut i: usize = 0;
        while i < rows.len()
            invariant
                0 <= i <= rows@.len(),
                l.wf(),
                l@ == counts_of_rows(rows@.take(i as int)),
                forall|j: int| 0 <= j < i ==> row_valid(#[trigger] rows@[j]),
            decreases rows@.len() - i,
        {
            let row = rows[i];
            proof {
                assert(rows@.take(i as int + 1).drop_last() =~= rows@.take(i as int));
                assert(rows@.take(i as int + 1).last() == row);
            }
            match BillNominal::from_value(row.0) {
                None => {
                    return Err(LedgerError::UnknownNominal(row.0));
                },
                Some(d) => {
                    if row.1 < 0 || row.1 > u32::MAX as i64 {
                        return Err(LedgerError::InvalidCount { nominal: row.0, count: row.1 });
                    }
                    let idx = d.index();
                    l.counts.set(idx, row.1 as u32);
                },
            }
            i = i + 1;
        }
        assert(rows@.take(rows@.len() as int) =~= rows@);
        Ok(l)
    }

    /// The count of one bill.
    pub fn count(&self, d: BillNominal) -> (r: u32)
        requires
            self.wf(),
        ensures
            r == self@[d.spec_index()],
    {
        self.counts[d.index()]
    }

    /// Records one more accepted bill `d`.
    pub fn record_accepted(&mut self, d: BillNominal) -> (r: Result<(), LedgerError>)
        requires
            old(self).wf(),
        ensures
            final(self).wf(),
            old(self)@[d.spec_index()] < u32::MAX ==> r is Ok && final(self)@ == counts_after_record(
                old(self)@,
                d,
            ),
            old(self)@[d.spec_index()] < u32::MAX ==> final(self)@[d.spec_index()] == old(
                self,
            )@[d.spec_index()] + 1,
            forall|i: int|
                0 <= i < NOMINAL_COUNT && i != d.spec_index() ==> #[trigger] final(self)@[i] == old(
                    self,
                )@[i],
            old(self)@[d.spec_index()] == u32::MAX ==> r == Err::<(), LedgerError>(
                LedgerError::CountOverflow(d),
            ) && final(self)@ == old(self)@,
    {
        let idx = d.index();
        let c = self.counts[idx];
        if c == u32::MAX {
            return Err(LedgerError::CountOverflow(d));
        }
        self.counts.set(idx, c + 1);
        Ok(())
    }

    /// Each bill's face value with its count, in ascending order of face value.
    pub fn get_counts(&self) -> (r: Vec<(i32, u32)>)
        requires
            self.wf(),
        ensures
            r@.len() == NOMINAL_COUNT,
            forall|i: int|
                0 <= i < NOMINAL_COUNT ==> (#[trigger] r@[i]).0 as int == nominal_at(i).spec_value()
                    && r@[i].1 == self@[i],
    {
        let mut r: Vec<(i32, u32)> = Vec::new();
        let mut i: usize = 0;
        while i < NOMINAL_COUNT
            invariant
                self.wf(),
                0 <= i <= NOMINAL_COUNT,
                r@.len() == i,
                forall|j: int|
                    0 <= j < i ==> (#[trigger] r@[j]).0 as int == nominal_at(j).spec_value()
                        && r@[j].1 == self@[j],
            decreases NOMINAL_COUNT - i,
        {
            let d = BillNominal::at(i);
            r.push((d.value(), self.counts[i]));
            i = i + 1;
        }
        r
    }

    /// The sum of face value times count over all bills.
    pub fn get_total(&self) -> (r: u64)
        requires
            self.wf(),
        ensures
            r as int == total_of(self@),
    {
        let c = &self.counts;
        1000u64 * (c[0] as u64) + 2000u64 * (c[1] as u64) + 5000u64 * (c[2] as u64) + 10000u64 * (
        c[3] as u64) + 20000u64 * (c[4] as u64)
    }
}

/// The counts after `n` acceptances of `d`.
pub open spec fn counts_after_records(c: Seq<u32>, d: BillNominal, n: nat) -> Seq<u32>
    decreases n,
{
    if n == 0 {
        c
    } else {
        counts_after_record(counts_after_records(c, d, (n - 1) as nat), d)
    }
}

/// Recording `d` accepted `n` times raises the count of `d` by `n`, leaves
/// every other count as it was, and raises the total by `n` times the face
/// value of `d`; the total stays the sum of face value times count.
pub proof fn lemma_record_n_times(c: Seq<u32>, d: BillNominal, n: nat)
    requires
        c.len() == NOMINAL_COUNT,
        c[d.spec_index()] + n <= u32::MAX,
    ensures
        counts_after_records(c, d, n).len() == NOMINAL_COUNT,
        counts_after_records(c, d, n)[d.spec_index()] == c[d.spec_index()] + n,
        forall|i: int|
            0 <= i < NOMINAL_COUNT && i != d.spec_index() ==> #[trigger] counts_after_records(
                c,
                d,
                n,
            )[i] == c[i],
        total_of(counts_after_records(c, d, n)) == total_of(c) + n * d.spec_value(),
    decreases n,
{
    if n > 0 {
        lemma_record_n_times(c, d, (n - 1) as nat);
        let prev = counts_after_records(c, d, (n - 1) as nat);
        assert(total_of(counts_after_record(prev, d)) == total_of(prev) + d.spec_value());
        assert((n - 1) * d.spec_value() + d.spec_value() == n * d.spec_value()) by (nonlinear_arith);
    }
}

} // verus!
