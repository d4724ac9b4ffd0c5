use cashcode::ledger::{Ledger, LedgerError};
use cashcode::nominal::BillNominal;

#[test]
fn new_ledger_is_zero_and_ordered() {
    let l = Ledger::new();
    assert_eq!(
        l.get_counts(),
        vec![(1000, 0), (2000, 0), (5000, 0), (10000, 0), (20000, 0)]
    );
    assert_eq!(l.get_total(), 0);
}

#[test]
fn record_n_times_counts_n() {
    let mut l = Ledger::new();
    for _ in 0..7 {
        l.record_accepted(BillNominal::Dram2000).unwrap();
    }
    l.record_accepted(BillNominal::Dram20000).unwrap();
    assert_eq!(
        l.get_counts(),
        vec![(1000, 0), (2000, 7), (5000, 0), (10000, 0), (20000, 1)]
    );
    assert_eq!(l.count(BillNominal::Dram2000), 7);
    assert_eq!(l.get_total(), 7 * 2000 + 20000);
}

#[test]
fn total_is_sum_of_value_times_count() {
    let l = Ledger::from_rows(&vec![(1000, 3), (2000, 1), (5000, 2), (10000, 4), (20000, 5)]).unwrap();
    assert_eq!(l.get_total(), 3000 + 2000 + 10000 + 40000 + 100000);
}

#[test]
fn largest_total_fits() {
    let m = u32::MAX as i64;
    let l = Ledger::from_rows(&vec![(1000, m), (2000, m), (5000, m), (10000, m), (20000, m)]).unwrap();
    assert_eq!(l.get_total(), 38000u64 * u32::MAX as u64);
}

#[test]
fn count_overflow_is_refused() {
    let mut l = Ledger::from_rows(&vec![(5000, u32::MAX as i64)]).unwrap();
    assert_eq!(
        l.record_accepted(BillNominal::Dram5000),
        Err(LedgerError::CountOverflow(BillNominal::Dram5000))
    );
    assert_eq!(l.count(BillNominal::Dram5000), u32::MAX);
    assert_eq!(l.record_accepted(BillNominal::Dram1000), Ok(()));
}

#[test]
fn rows_fill_missing_bills_with_zero_and_later_rows_win() {
    let l = Ledger::from_rows(&vec![(10000, 2), (1000, 9), (10000, 5)]).unwrap();
    assert_eq!(
        l.get_counts(),
        vec![(1000, 9), (2000, 0), (5000, 0), (10000, 5), (20000, 0)]
    );
}

#[test]
fn bad_rows_are_refused() {
    assert_eq!(
        Ledger::from_rows(&vec![(1000, 1), (3000, 1), (2000, -1)]).err(),
        Some(LedgerError::UnknownNominal(3000))
    );
    assert_eq!(
        Ledger::from_rows(&vec![(2000, -1), (3000, 1)]).err(),
        Some(LedgerError::InvalidCount { nominal: 2000, count: -1 })
    );
    assert_eq!(
        Ledger::from_rows(&vec![(5000, 1i64 << 32)]).err(),
        Some(LedgerError::InvalidCount { nominal: 5000, count: 1i64 << 32 })
    );
}

#[test]
fn record_leaves_other_counts_alone() {
    let mut l = Ledger::from_rows(&vec![(1000, 4), (2000, 3), (5000, 2), (10000, 1), (20000, 9)]).unwrap();
    l.record_accepted(BillNominal::Dram10000).unwrap();
    assert_eq!(
        l.get_counts(),
        vec![(1000, 4), (2000, 3), (5000, 2), (10000, 2), (20000, 9)]
    );
}
