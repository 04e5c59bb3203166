//! Latest-state selection and write-batch outcomes.
//!
//! The store is queried once per cycle for the most recently persisted row
//! per category.  A singular category expects exactly one row: zero rows fall
//! back to the sentinel (normal on first run), several rows keep the first
//! (a store anomaly worth a warning, not a failure), and a failed query falls
//! back to the sentinel too, so reconciliation degrades to "treat everything
//! as new".  Writes are attempted one insert per category, independently; the
//! cycle counts as fully successful only when every insert succeeded.

use vstd::prelude::*;

use crate::devices::{
    ConsumptionMeter, ConsumptionMeterV, Inverter, ProductionMeter, ProductionMeterV, Supervisor,
    SupervisorV,
};

verus! {

/// The latest persisted supervisor reading from the rows a query returned:
/// the first row when there is at least one (several rows indicate a store
/// anomaly and the first is kept), the sentinel when the query failed
/// (`None`) or returned nothing.
pub fn pick_latest_supervisor(rows: Option<Vec<Supervisor>>) -> (r: Supervisor)
    ensures
        match rows {
            Option::Some(v) => if v@.len() == 0 {
                r@ == SupervisorV::sentinel()
            } else {
                r@ == v@[0]@
            },
            Option::None => r@ == SupervisorV::sentinel(),
        },
{
    match rows {
        Some(v) => if v.len() == 0 {
            Supervisor::new()
        } else {
            v[0].clone()
        },
        None => Supervisor::new(),
    }
}

/// The latest persisted consumption-meter reading from the rows a query
/// returned; sentinel on a failed or empty query, first row otherwise.
pub fn pick_latest_cons_meter(rows: Option<Vec<ConsumptionMeter>>) -> (r: ConsumptionMeter)
    ensures
        match rows {
            Option::Some(v) => if v@.len() == 0 {
                r@ == ConsumptionMeterV::sentinel()
            } else {
                r@ == v@[0]@
            },
            Option::None => r@ == ConsumptionMeterV::sentinel(),
        },
{
    match rows {
        Some(v) => if v.len() == 0 {
            ConsumptionMeter::new()
        } else {
            v[0].clone()
        },
        None => ConsumptionMeter::new(),
    }
}

/// The latest persisted production-meter reading from the rows a query
/// returned; sentinel on a failed or empty query, first row otherwise.
pub fn pick_latest_prod_meter(rows: Option<Vec<ProductionMeter>>) -> (r: ProductionMeter)
    ensures
        match rows {
            Option::Some(v) => if v@.len() == 0 {
                r@ == ProductionMeterV::sentinel()
            } else {
                r@ == v@[0]@
            },
            Option::None => r@ == ProductionMeterV::sentinel(),
        },
{
    match rows {
        Some(v) => if v.len() == 0 {
            ProductionMeter::new()
        } else {
            v[0].clone()
        },
        None => ProductionMeter::new(),
    }
}

/// The latest persisted inverter readings: all returned rows, or no rows at
/// all when the query failed.
pub fn pick_latest_inverters(rows: Option<Vec<Inverter>>) -> (r: Vec<Inverter>)
    ensures
        rows is Some ==> r == rows->0,
        rows is None ==> r@.len() == 0,
{
    match rows {
        Some(v) => v,
        None => Vec::new(),
    }
}

/// Whether a write batch was fully successful: true exactly when every
/// per-category insert in it succeeded.  A failed insert never blocks its
/// siblings; it only turns the cycle's summary into a partial-success
/// warning.
pub fn all_writes_succeeded(results: &Vec<bool>) -> (b: bool)
    ensures
        b <==> (forall|i: int| 0 <= i < results@.len() ==> results@[i]),
{
    let mut i: usize = 0;
    let mut all_ok = true;
    while i < results.len()
        invariant
            i <= results.len(),
            all_ok <==> (forall|k: int| 0 <= k < i ==> results@[k]),
        decreases results.len() - i,
    {
        if !results[i] {
            all_ok = false;
        }
        i += 1;
    }
    all_ok
}

/// Outcome of a replace-style write of the daily row, classified by how many
/// rows the store reports as affected.
#[derive(Clone, Copy, Debug, PartialEq, Eq, Structural)]
pub enum ReplaceOutcome {
    /// Nothing changed; a row should have been added or replaced.
    NoRowChanged,
    /// A fresh row was added.
    RowAdded,
    /// An existing row for the day was replaced.
    RowReplaced,
    /// More rows changed than a single add or replace can explain.
    UnexpectedRowCount,
}

/// Classifies how many rows a replace-style write affected: one row is a
/// fresh add, two are a replacement of the day's existing row, anything else
/// deserves a warning.
pub fn classify_replace(rows_affected: u64) -> (r: ReplaceOutcome)
    ensures
        rows_affected == 0 ==> r == ReplaceOutcome::NoRowChanged,
        rows_affected == 1 ==> r == ReplaceOutcome::RowAdded,
        rows_affected == 2 ==> r == ReplaceOutcome::RowReplaced,
        rows_affected >= 3 ==> r == ReplaceOutcome::UnexpectedRowCount,
{
    if rows_affected == 0 {
        ReplaceOutcome::NoRowChanged
    } else if rows_affected == 1 {
        ReplaceOutcome::RowAdded
    } else if rows_affected == 2 {
        ReplaceOutcome::RowReplaced
    } else {
        ReplaceOutcome::UnexpectedRowCount
    }
}

} // verus!
