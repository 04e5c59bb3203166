//! The snapshot reconciler: a pure function of two snapshots.
//!
//! The polled device keeps echoing its last reading (same serial, same
//! reading timestamp) until its internal counters roll over.  Persisting the
//! echo again would create duplicate rows; dropping it would hide the
//! difference between "device responsive but no new data" and "device
//! unreachable".  Reconciliation resolves this: a reading that matches the
//! latest persisted one by serial and timestamp is replaced by a heartbeat
//! row (serial kept, timestamp set to the freshest timestamp in the current
//! snapshot, every measurement field cleared), while anything else passes
//! through unchanged.

use vstd::prelude::*;

use crate::devices::{
    ConsumptionMeterV, Inverter, InverterV, ProductionMeterV, Pvs6DevicesResponse, ReadingKey,
    SnapshotV, Supervisor, SupervisorV,
};

verus! {

/// The larger of two optional timestamps; an absent timestamp is smaller
/// than any present one.  On equal present timestamps the first operand wins.
pub open spec fn max_opt_dt(a: Option<i64>, b: Option<i64>) -> Option<i64> {
    match b {
        Option::None => a,
        Option::Some(y) => match a {
            Option::None => b,
            Option::Some(x) => if y > x {
                b
            } else {
                a
            },
        },
    }
}

/// The greatest timestamp in a sequence of optional timestamps, absent when
/// every entry is absent.
pub open spec fn spec_greatest_dt(s: Seq<Option<i64>>) -> Option<i64>
    decreases s.len(),
{
    if s.len() == 0 {
        None
    } else {
        max_opt_dt(spec_greatest_dt(s.drop_last()), s.last())
    }
}

/// The greatest entry is absent exactly when every entry is absent, is one of
/// the entries when present, and bounds every present entry from above.
pub proof fn lemma_greatest_dt_is_max(s: Seq<Option<i64>>)
    ensures
        (spec_greatest_dt(s) is None) <==> (forall|i: int| 0 <= i < s.len() ==> s[i] is None),
        spec_greatest_dt(s) is Some ==> exists|i: int|
            0 <= i < s.len() && s[i] == spec_greatest_dt(s),
        forall|i: int|
            0 <= i < s.len() && #[trigger] s[i] is Some ==> spec_greatest_dt(s) is Some && s[i]->0
                <= spec_greatest_dt(s)->0,
    decreases s.len(),
{
    if s.len() > 0 {
        let sub = s.drop_last();
        let gs = spec_greatest_dt(sub);
        let g = spec_greatest_dt(s);
        lemma_greatest_dt_is_max(sub);
        assert(forall|i: int| 0 <= i < sub.len() ==> #[trigger] sub[i] == s[i]);
        assert(g == max_opt_dt(gs, s.last()));
        assert(s[s.len() - 1] == s.last());
        if g is None {
            assert(gs is None && s.last() is None);
            assert(forall|i: int| 0 <= i < sub.len() ==> #[trigger] sub[i] is None);
        }
        if forall|i: int| 0 <= i < s.len() ==> #[trigger] s[i] is None {
            assert(forall|i: int| 0 <= i < sub.len() ==> #[trigger] sub[i] is None);
            assert(gs is None);
            assert(s.last() is None);
            assert(g is None);
        }
        if g is Some {
            if s.last() == g {
                assert(s[s.len() - 1] == g);
            } else {
                assert(gs == g);
                let i = choose|i: int| 0 <= i < sub.len() && sub[i] == gs;
                assert(s[i] == g);
            }
        }
        assert forall|i: int| 0 <= i < s.len() && #[trigger] s[i] is Some implies g is Some
            && s[i]->0 <= g->0 by {
            if i < s.len() - 1 {
                assert(sub[i] == s[i]);
                assert(sub[i] is Some);
                assert(gs is Some && sub[i]->0 <= gs->0);
            } else {
                assert(s[i] == s.last());
            }
        }
    }
}

/// All timestamps of a snapshot, in a fixed order: supervisor, production
/// meter, consumption meter, then each inverter.
pub open spec fn snapshot_dts(c: SnapshotV) -> Seq<Option<i64>> {
    seq![c.supervisor.data_time, c.prod_meter.data_time, c.cons_meter.data_time]
        + c.inverters.map_values(|iv: InverterV| iv.data_time)
}

/// The shared freshness marker used for every heartbeat of one cycle: the
/// greatest timestamp present anywhere in the current snapshot.
pub open spec fn heartbeat_ts(c: SnapshotV) -> Option<i64> {
    spec_greatest_dt(snapshot_dts(c))
}

/// Whether a current reading repeats the latest persisted one: same serial,
/// same timestamp, and both meaningful.  An empty serial or an absent current
/// timestamp never counts as a repeat, so a category that was not decoded
/// this cycle passes through as the sentinel instead of producing a hollow
/// heartbeat for a device that was never observed.
pub open spec fn is_repeat(c: ReadingKey, l: ReadingKey) -> bool {
    c.serial == l.serial && c.serial.len() > 0 && c.data_time is Some && c.data_time == l.data_time
}

/// One reconciled supervisor reading: heartbeat on a repeat, pass-through
/// otherwise.
pub open spec fn spec_reconcile_sup(c: SupervisorV, l: SupervisorV, hb: Option<i64>) -> SupervisorV {
    if is_repeat(c.key(), l.key()) {
        SupervisorV::heartbeat(c.serial, hb)
    } else {
        c
    }
}

/// One reconciled production-meter reading.
pub open spec fn spec_reconcile_pm(
    c: ProductionMeterV,
    l: ProductionMeterV,
    hb: Option<i64>,
) -> ProductionMeterV {
    if is_repeat(c.key(), l.key()) {
        ProductionMeterV::heartbeat(c.serial, hb)
    } else {
        c
    }
}

/// One reconciled consumption-meter reading.
pub open spec fn spec_reconcile_cm(
    c: ConsumptionMeterV,
    l: ConsumptionMeterV,
    hb: Option<i64>,
) -> ConsumptionMeterV {
    if is_repeat(c.key(), l.key()) {
        ConsumptionMeterV::heartbeat(c.serial, hb)
    } else {
        c
    }
}

/// The first latest-persisted inverter with the given serial, if any.
pub open spec fn find_latest_inv(latest: Seq<InverterV>, serial: Seq<char>) -> Option<InverterV>
    decreases latest.len(),
{
    if latest.len() == 0 {
        None
    } else if latest[0].serial == serial {
        Some(latest[0])
    } else {
        find_latest_inv(latest.drop_first(), serial)
    }
}

/// Whether a current inverter repeats a persisted one: some persisted
/// inverter has the same serial, and the reading repeats it.
pub open spec fn inv_is_repeat(c: InverterV, latest: Seq<InverterV>) -> bool {
    match find_latest_inv(latest, c.serial) {
        Option::Some(l) => is_repeat(c.key(), l.key()),
        Option::None => false,
    }
}

/// One reconciled inverter reading: heartbeat when a persisted inverter with
/// the same serial and timestamp exists, pass-through otherwise (including
/// when the serial is not in the persisted set at all).
pub open spec fn spec_reconcile_inv(
    c: InverterV,
    latest: Seq<InverterV>,
    hb: Option<i64>,
) -> InverterV {
    if inv_is_repeat(c, latest) {
        InverterV::heartbeat(c.serial, hb)
    } else {
        c
    }
}

/// The reconciled snapshot: each category treated independently, all
/// heartbeats sharing the one freshness marker of the current snapshot.
pub open spec fn spec_reconcile(c: SnapshotV, l: SnapshotV) -> SnapshotV {
    let hb = heartbeat_ts(c);
    SnapshotV {
        supervisor: spec_reconcile_sup(c.supervisor, l.supervisor, hb),
        cons_meter: spec_reconcile_cm(c.cons_meter, l.cons_meter, hb),
        prod_meter: spec_reconcile_pm(c.prod_meter, l.prod_meter, hb),
        inverters: c.inverters.map_values(
            |iv: InverterV| spec_reconcile_inv(iv, l.inverters, hb),
        ),
    }
}

/// The serials of current inverters that the latest persisted set does not
/// know, in snapshot order.
pub open spec fn spec_unseen_serials(
    cur_invs: Seq<InverterV>,
    latest_invs: Seq<InverterV>,
) -> Seq<Seq<char>>
    decreases cur_invs.len(),
{
    if cur_invs.len() == 0 {
        Seq::empty()
    } else {
        let rest = spec_unseen_serials(cur_invs.drop_last(), latest_invs);
        if find_latest_inv(latest_invs, cur_invs.last().serial) is None {
            rest.push(cur_invs.last().serial)
        } else {
            rest
        }
    }
}

proof fn lemma_find_latest_inv_at(latest: Seq<InverterV>, serial: Seq<char>, j: int)
    requires
        0 <= j < latest.len(),
        latest[j].serial == serial,
        forall|k: int| 0 <= k < j ==> latest[k].serial != serial,
    ensures
        find_latest_inv(latest, serial) == Some(latest[j]),
    decreases j,
{
    if j > 0 {
        lemma_find_latest_inv_at(latest.drop_first(), serial, j - 1);
        assert(forall|k: int|
            0 <= k < latest.drop_first().len() ==> #[trigger] latest.drop_first()[k] == latest[k
                + 1]);
    }
}

proof fn lemma_find_latest_inv_none(latest: Seq<InverterV>, serial: Seq<char>)
    requires
        forall|k: int| 0 <= k < latest.len() ==> latest[k].serial != serial,
    ensures
        find_latest_inv(latest, serial) is None,
    decreases latest.len(),
{
    if latest.len() > 0 {
        assert(forall|k: int|
            0 <= k < latest.drop_first().len() ==> #[trigger] latest.drop_first()[k] == latest[k
                + 1]);
        lemma_find_latest_inv_none(latest.drop_first(), serial);
    }
}

/// The greatest of a list of optional timestamps; absent entries are smaller
/// than any present one, and the result is absent only when every entry is.
pub fn greater_option_dt(dt_vec: Vec<Option<i64>>) -> (r: Option<i64>)
    ensures
        r == spec_greatest_dt(dt_vec@),
{
    let mut greatest_dt: Option<i64> = None;
    let mut i: usize = 0;
    while i < dt_vec.len()
        invariant
            i <= dt_vec.len(),
            greatest_dt == spec_greatest_dt(dt_vec@.take(i as int)),
        decreases dt_vec.len() - i,
    {
        let dt = dt_vec[i];
        greatest_dt = match dt {
            Some(y) => match greatest_dt {
                Some(x) => if y > x {
                    Some(y)
                } else {
                    Some(x)
                },
                None => Some(y),
            },
            None => greatest_dt,
        };
        proof {
            assert(dt_vec@.take(i + 1 as int).drop_last() =~= dt_vec@.take(i as int));
            assert(dt_vec@.take(i + 1 as int).last() == dt_vec@[i as int]);
        }
        i += 1;
    }
    proof {
        assert(dt_vec@.take(dt_vec@.len() as int) =~= dt_vec@);
    }
    greatest_dt
}

/// Index of the first latest inverter with the given serial, if any.
fn find_inverter_index(latest: &Vec<Inverter>, serial: &String) -> (r: Option<usize>)
    ensures
        r is Some ==> r->0 < latest@.len() && latest@[r->0 as int]@.serial == serial@ && forall|
            k: int,
        | 0 <= k < r->0 ==> latest@[k]@.serial != serial@,
        r is None ==> forall|k: int| 0 <= k < latest@.len() ==> latest@[k]@.serial != serial@,
{
    let mut j: usize = 0;
    while j < latest.len()
        invariant
            j <= latest.len(),
            forall|k: int| 0 <= k < j ==> latest@[k]@.serial != serial@,
        decreases latest.len() - j,
    {
        if latest[j].serial == *serial {
            return Some(j);
        }
        j += 1;
    }
    None
}

/// Reconciles a freshly polled snapshot against the latest persisted state:
/// repeats become heartbeat rows carrying the snapshot's freshest timestamp,
/// everything else passes through unchanged.  Pure; the result is exactly
/// [`spec_reconcile`] of the two snapshots.
pub fn update_pvs6_old_responses(
    cur_data: Pvs6DevicesResponse,
    latest_sql_data: &Pvs6DevicesResponse,
) -> (r: Pvs6DevicesResponse)
    ensures
        r@ == spec_reconcile(cur_data@, latest_sql_data@),
{
    let ghost c0 = cur_data@;
    let ghost l0 = latest_sql_data@;

    // Gather every timestamp of the current snapshot, in snapshot order.
    let mut check_dts: Vec<Option<i64>> = vec![
        cur_data.supervisor.data_time,
        cur_data.prod_meter.data_time,
        cur_data.cons_meter.data_time,
    ];
    proof {
        assert(check_dts@ =~= seq![
            c0.supervisor.data_time,
            c0.prod_meter.data_time,
            c0.cons_meter.data_time,
        ] + c0.inverters.take(0).map_values(|iv: InverterV| iv.data_time));
    }
    let mut i: usize = 0;
    while i < cur_data.inverters.len()
        invariant
            i <= cur_data.inverters.len(),
            c0 == cur_data@,
            check_dts@ =~= seq![
                c0.supervisor.data_time,
                c0.prod_meter.data_time,
                c0.cons_meter.data_time,
            ] + c0.inverters.take(i as int).map_values(|iv: InverterV| iv.data_time),
        decreases cur_data.inverters.len() - i,
    {
        check_dts.push(cur_data.inverters[i].data_time);
        proof {
            assert(c0.inverters.take(i + 1 as int) =~= c0.inverters.take(i as int).push(
                c0.inverters[i as int],
            ));
            assert(c0.inverters.take(i + 1 as int).map_values(|iv: InverterV| iv.data_time)
                =~= c0.inverters.take(i as int).map_values(|iv: InverterV| iv.data_time).push(
                c0.inverters[i as int].data_time,
            ));
        }
        i += 1;
    }
    proof {
        assert(c0.inverters.take(c0.inverters.len() as int) =~= c0.inverters);
        assert(check_dts@ =~= snapshot_dts(c0));
    }
    let greatest_cur_dt: Option<i64> = greater_option_dt(check_dts);
    let ghost hbts = heartbeat_ts(c0);
    proof {
        assert(greatest_cur_dt == hbts);
    }

    // Supervisor.
    let sup_repeat = cur_data.supervisor.serial == latest_sql_data.supervisor.serial
        && !cur_data.supervisor.serial.as_str().is_empty()
        && cur_data.supervisor.data_time.is_some() && cur_data.supervisor.data_time
        == latest_sql_data.supervisor.data_time;
    proof {
        assert(sup_repeat == is_repeat(c0.supervisor.key(), l0.supervisor.key()));
    }
    let sup: Supervisor = if sup_repeat {
        Supervisor::set_values(
            cur_data.supervisor.serial,
            greatest_cur_dt,
            None,
            None,
            None,
            None,
            None,
            None,
            None,
            None,
            None,
        )
    } else {
        cur_data.supervisor
    };
    proof {
        assert(sup@ == spec_reconcile_sup(c0.supervisor, l0.supervisor, hbts));
    }

    // Production meter.
    let pm_repeat = cur_data.prod_meter.serial == latest_sql_data.prod_meter.serial
        && !cur_data.prod_meter.serial.as_str().is_empty()
        && cur_data.prod_meter.data_time.is_some() && cur_data.prod_meter.data_time
        == latest_sql_data.prod_meter.data_time;
    proof {
        assert(pm_repeat == is_repeat(c0.prod_meter.key(), l0.prod_meter.key()));
    }
    let pm: crate::devices::ProductionMeter = if pm_repeat {
        crate::devices::ProductionMeter::set_values(
            cur_data.prod_meter.serial.as_str(),
            greatest_cur_dt,
            None,
            None,
            None,
            None,
            None,
            None,
            None,
            None,
        )
    } else {
        cur_data.prod_meter
    };
    proof {
        assert(pm@ == spec_reconcile_pm(c0.prod_meter, l0.prod_meter, hbts));
    }

    // Consumption meter.
    let cm_repeat = cur_data.cons_meter.serial == latest_sql_data.cons_meter.serial
        && !cur_data.cons_meter.serial.as_str().is_empty()
        && cur_data.cons_meter.data_time.is_some() && cur_data.cons_meter.data_time
        == latest_sql_data.cons_meter.data_time;
    proof {
        assert(cm_repeat == is_repeat(c0.cons_meter.key(), l0.cons_meter.key()));
    }
    let cm: crate::devices::ConsumptionMeter = if cm_repeat {
        crate::devices::ConsumptionMeter::set_values(
            cur_data.cons_meter.serial,
            greatest_cur_dt,
            None,
            None,
            None,
            None,
            None,
            None,
            None,
            None,
            None,
            None,
            None,
            None,
            None,
            None,
            None,
        )
    } else {
        cur_data.cons_meter
    };
    proof {
        assert(cm@ == spec_reconcile_cm(c0.cons_meter, l0.cons_meter, hbts));
    }

    // Inverters: search the persisted set for each current serial.
    let ghost target = c0.inverters.map_values(
        |iv: InverterV| spec_reconcile_inv(iv, l0.inverters, hbts),
    );
    let mut invs: Vec<Inverter> = Vec::new();
    let mut idx: usize = 0;
    while idx < cur_data.inverters.len()
        invariant
            idx <= cur_data.inverters.len(),
            c0.inverters == cur_data.inverters@.map_values(|inv: Inverter| inv@),
            l0 == latest_sql_data@,
            target == c0.inverters.map_values(
                |iv: InverterV| spec_reconcile_inv(iv, l0.inverters, hbts),
            ),
            greatest_cur_dt == hbts,
            invs@.map_values(|inv: Inverter| inv@) =~= target.take(idx as int),
        decreases cur_data.inverters.len() - idx,
    {
        let cur_inv = &cur_data.inverters[idx];
        proof {
            assert(cur_inv@ == c0.inverters[idx as int]);
            assert(target[idx as int] == spec_reconcile_inv(
                c0.inverters[idx as int],
                l0.inverters,
                hbts,
            ));
        }
        let found = find_inverter_index(&latest_sql_data.inverters, &cur_inv.serial);
        let new_inv: Inverter = match found {
            Some(j) => {
                proof {
                    lemma_find_latest_inv_at(l0.inverters, cur_inv@.serial, j as int);
                }
                let latest_inv = &latest_sql_data.inverters[j];
                let inv_repeat = !cur_inv.serial.as_str().is_empty()
                    && cur_inv.data_time.is_some() && cur_inv.data_time == latest_inv.data_time;
                proof {
                    assert(inv_repeat == is_repeat(cur_inv@.key(), latest_inv@.key()));
                }
                if inv_repeat {
                    Inverter::set_values(
                        cur_inv.serial.as_str(),
                        greatest_cur_dt,
                        None,
                        None,
                        None,
                        None,
                        None,
                        None,
                        None,
                        None,
                        None,
                        None,
                    )
                } else {
                    cur_inv.clone()
                }
            },
            None => {
                proof {
                    lemma_find_latest_inv_none(l0.inverters, cur_inv@.serial);
                }
                cur_inv.clone()
            },
        };
        proof {
            assert(new_inv@ == target[idx as int]);
        }
        invs.push(new_inv);
        proof {
            assert(target.take(idx + 1 as int) =~= target.take(idx as int).push(
                target[idx as int],
            ));
            assert(invs@.map_values(|inv: Inverter| inv@) =~= target.take(idx + 1 as int));
        }
        idx += 1;
    }
    proof {
        assert(target.take(c0.inverters.len() as int) =~= target);
    }

    let r = Pvs6DevicesResponse::set_values(sup, cm, pm, invs);
    proof {
        assert(r@ =~~= spec_reconcile(c0, l0));
    }
    r
}

/// The serials of current inverters that the latest persisted set does not
/// know.  Such an inverter passes through reconciliation unchanged, but its
/// appearance deserves operator attention, so the caller reports each serial
/// returned here.
pub fn unseen_inverter_serials(
    cur_data: &Pvs6DevicesResponse,
    latest_sql_data: &Pvs6DevicesResponse,
) -> (r: Vec<String>)
    ensures
        r@.map_values(|s: String| s@) == spec_unseen_serials(
            cur_data@.inverters,
            latest_sql_data@.inverters,
        ),
{
    let ghost c0 = cur_data@;
    let ghost l0 = latest_sql_data@;
    let mut r: Vec<String> = Vec::new();
    let mut idx: usize = 0;
    while idx < cur_data.inverters.len()
        invariant
            idx <= cur_data.inverters.len(),
            c0 == cur_data@,
            l0 == latest_sql_data@,
            r@.map_values(|s: String| s@) =~= spec_unseen_serials(
                c0.inverters.take(idx as int),
                l0.inverters,
            ),
        decreases cur_data.inverters.len() - idx,
    {
        let cur_inv = &cur_data.inverters[idx];
        let found = find_inverter_index(&latest_sql_data.inverters, &cur_inv.serial);
        proof {
            assert(c0.inverters.take(idx + 1 as int).drop_last() =~= c0.inverters.take(idx as int));
            assert(c0.inverters.take(idx + 1 as int).last() == c0.inverters[idx as int]);
        }
        match found {
            Some(j) => {
                proof {
                    lemma_find_latest_inv_at(l0.inverters, cur_inv@.serial, j as int);
                    assert(r@.map_values(|s: String| s@) =~= spec_unseen_serials(
                        c0.inverters.take(idx + 1 as int),
                        l0.inverters,
                    ));
                }
            },
            None => {
                proof {
                    lemma_find_latest_inv_none(l0.inverters, cur_inv@.serial);
                }
                r.push(cur_inv.serial.clone());
                proof {
                    assert(r@.map_values(|s: String| s@) =~= spec_unseen_serials(
                        c0.inverters.take(idx + 1 as int),
                        l0.inverters,
                    ));
                }
            },
        }
        idx += 1;
    }
    proof {
        assert(c0.inverters.take(c0.inverters.len() as int) =~= c0.inverters);
    }
    r
}

/// Law: a serial change is always new data.  A category whose current serial
/// differs from the latest persisted serial passes through reconciliation
/// unchanged, regardless of timestamps.
pub proof fn lemma_serial_change_is_new(c: SnapshotV, l: SnapshotV)
    ensures
        c.supervisor.serial != l.supervisor.serial ==> spec_reconcile(c, l).supervisor
            == c.supervisor,
        c.prod_meter.serial != l.prod_meter.serial ==> spec_reconcile(c, l).prod_meter
            == c.prod_meter,
        c.cons_meter.serial != l.cons_meter.serial ==> spec_reconcile(c, l).cons_meter
            == c.cons_meter,
{
}

/// Law: a reading with an absent current timestamp is never treated as a
/// repeat, so it is never replaced by a heartbeat — even when the latest
/// persisted timestamp is absent too, as it is when both sides are the
/// sentinel of an undetected device.
pub proof fn lemma_absent_timestamp_is_new(c: SnapshotV, l: SnapshotV)
    ensures
        c.supervisor.data_time is None ==> spec_reconcile(c, l).supervisor == c.supervisor,
        c.prod_meter.data_time is None ==> spec_reconcile(c, l).prod_meter == c.prod_meter,
        c.cons_meter.data_time is None ==> spec_reconcile(c, l).cons_meter == c.cons_meter,
        forall|i: int|
            0 <= i < c.inverters.len() && (#[trigger] c.inverters[i]).data_time is None
                ==> spec_reconcile(c, l).inverters[i] == c.inverters[i],
{
    assert forall|i: int|
        0 <= i < c.inverters.len() && (#[trigger] c.inverters[i]).data_time is None implies
    spec_reconcile(c, l).inverters[i] == c.inverters[i] by {
        assert(spec_reconcile(c, l).inverters[i] == spec_reconcile_inv(
            c.inverters[i],
            l.inverters,
            heartbeat_ts(c),
        ));
    }
}

/// Law: a category that was not observed this cycle (empty serial, the
/// sentinel) is never turned into a heartbeat; it passes through as the
/// sentinel and can then be omitted from persistence entirely.
pub proof fn lemma_sentinel_never_heartbeat(c: SnapshotV, l: SnapshotV)
    ensures
        c.supervisor.serial.len() == 0 ==> spec_reconcile(c, l).supervisor == c.supervisor,
        c.prod_meter.serial.len() == 0 ==> spec_reconcile(c, l).prod_meter == c.prod_meter,
        c.cons_meter.serial.len() == 0 ==> spec_reconcile(c, l).cons_meter == c.cons_meter,
        forall|i: int|
            0 <= i < c.inverters.len() && (#[trigger] c.inverters[i]).serial.len() == 0
                ==> spec_reconcile(c, l).inverters[i] == c.inverters[i],
{
    assert forall|i: int|
        0 <= i < c.inverters.len() && (#[trigger] c.inverters[i]).serial.len() == 0 implies
    spec_reconcile(c, l).inverters[i] == c.inverters[i] by {
        assert(spec_reconcile(c, l).inverters[i] == spec_reconcile_inv(
            c.inverters[i],
            l.inverters,
            heartbeat_ts(c),
        ));
    }
}

/// Law: the heartbeat timestamp of a cycle is exactly the greatest timestamp
/// present anywhere in the current snapshot — absent only when every
/// timestamp is absent, always one of the snapshot's own timestamps, and an
/// upper bound on each of them.
pub proof fn lemma_heartbeat_is_max(c: SnapshotV)
    ensures
        (heartbeat_ts(c) is None) <==> (c.supervisor.data_time is None && c.prod_meter.data_time
            is None && c.cons_meter.data_time is None && forall|i: int|
            0 <= i < c.inverters.len() ==> (#[trigger] c.inverters[i]).data_time is None),
        c.supervisor.data_time is Some ==> heartbeat_ts(c) is Some && c.supervisor.data_time->0
            <= heartbeat_ts(c)->0,
        c.prod_meter.data_time is Some ==> heartbeat_ts(c) is Some && c.prod_meter.data_time->0
            <= heartbeat_ts(c)->0,
        c.cons_meter.data_time is Some ==> heartbeat_ts(c) is Some && c.cons_meter.data_time->0
            <= heartbeat_ts(c)->0,
        forall|i: int|
            0 <= i < c.inverters.len() && (#[trigger] c.inverters[i]).data_time is Some
                ==> heartbeat_ts(c) is Some && c.inverters[i].data_time->0 <= heartbeat_ts(c)->0,
        heartbeat_ts(c) is Some ==> heartbeat_ts(c) == c.supervisor.data_time || heartbeat_ts(c)
            == c.prod_meter.data_time || heartbeat_ts(c) == c.cons_meter.data_time || exists|i: int|
            0 <= i < c.inverters.len() && (#[trigger] c.inverters[i]).data_time == heartbeat_ts(c),
{
    let s = snapshot_dts(c);
    let g = heartbeat_ts(c);
    lemma_greatest_dt_is_max(s);
    assert(s.len() == 3 + c.inverters.len());
    assert(s[0] == c.supervisor.data_time);
    assert(s[1] == c.prod_meter.data_time);
    assert(s[2] == c.cons_meter.data_time);
    assert(forall|i: int|
        0 <= i < c.inverters.len() ==> s[3 + i] == (#[trigger] c.inverters[i]).data_time);
    if g is None {
        assert forall|i: int| 0 <= i < c.inverters.len() implies (
        #[trigger] c.inverters[i]).data_time is None by {
            assert(s[3 + i] is None);
        }
    }
    if c.supervisor.data_time is None && c.prod_meter.data_time is None && c.cons_meter.data_time
        is None && forall|i: int|
        0 <= i < c.inverters.len() ==> (#[trigger] c.inverters[i]).data_time is None {
        assert forall|j: int| 0 <= j < s.len() implies s[j] is None by {
            if j >= 3 {
                assert(s[j] == c.inverters[j - 3].data_time);
            }
        }
        assert(g is None);
    }
    assert forall|i: int|
        0 <= i < c.inverters.len() && (#[trigger] c.inverters[i]).data_time is Some implies g
        is Some && c.inverters[i].data_time->0 <= g->0 by {
        assert(s[3 + i] == c.inverters[i].data_time);
        assert(s[3 + i] is Some);
    }
    if g is Some {
        let j = choose|j: int| 0 <= j < s.len() && s[j] == g;
        if j >= 3 {
            assert(c.inverters[j - 3].data_time == g);
        }
    }
}

/// Law: once a reading has been persisted, reconciling the echoed reading
/// against that unchanged latest state yields a heartbeat row, and
/// reconciling the reconciled snapshot again still carries no measurement
/// values: the original values never resurface.
pub proof fn lemma_repeat_reconcile_idempotent(c: SnapshotV, l: SnapshotV)
    ensures
        is_repeat(c.supervisor.key(), l.supervisor.key()) ==> {
            let r1 = spec_reconcile(c, l);
            let r2 = spec_reconcile(r1, l);
            &&& r1.supervisor.serial == c.supervisor.serial
            &&& r1.supervisor.fields_absent()
            &&& r2.supervisor.serial == c.supervisor.serial
            &&& r2.supervisor.fields_absent()
        },
        is_repeat(c.prod_meter.key(), l.prod_meter.key()) ==> {
            let r1 = spec_reconcile(c, l);
            let r2 = spec_reconcile(r1, l);
            &&& r1.prod_meter.serial == c.prod_meter.serial
            &&& r1.prod_meter.fields_absent()
            &&& r2.prod_meter.serial == c.prod_meter.serial
            &&& r2.prod_meter.fields_absent()
        },
        is_repeat(c.cons_meter.key(), l.cons_meter.key()) ==> {
            let r1 = spec_reconcile(c, l);
            let r2 = spec_reconcile(r1, l);
            &&& r1.cons_meter.serial == c.cons_meter.serial
            &&& r1.cons_meter.fields_absent()
            &&& r2.cons_meter.serial == c.cons_meter.serial
            &&& r2.cons_meter.fields_absent()
        },
{
}

/// Law: an inverter that repeats its persisted reading becomes a heartbeat,
/// stays content-free under repeated reconciliation, and its heartbeat
/// timestamp never precedes the persisted timestamp it stands in for.
pub proof fn lemma_repeat_inverter_reconcile(c: SnapshotV, l: SnapshotV, i: int)
    requires
        0 <= i < c.inverters.len(),
        inv_is_repeat(c.inverters[i], l.inverters),
    ensures
        ({
            let r1 = spec_reconcile(c, l);
            let r2 = spec_reconcile(r1, l);
            &&& r1.inverters[i].serial == c.inverters[i].serial
            &&& r1.inverters[i].fields_absent()
            &&& r2.inverters[i].serial == c.inverters[i].serial
            &&& r2.inverters[i].fields_absent()
            &&& r1.inverters[i].data_time is Some
            &&& find_latest_inv(l.inverters, c.inverters[i].serial)->0.data_time is Some
            &&& find_latest_inv(l.inverters, c.inverters[i].serial)->0.data_time->0
                <= r1.inverters[i].data_time->0
        }),
{
    let r1 = spec_reconcile(c, l);
    let r2 = spec_reconcile(r1, l);
    lemma_heartbeat_is_max(c);
    assert(r1.inverters[i] == spec_reconcile_inv(c.inverters[i], l.inverters, heartbeat_ts(c)));
    assert(r2.inverters[i] == spec_reconcile_inv(r1.inverters[i], l.inverters, heartbeat_ts(r1)));
}

/// Law: heartbeat timestamps never move backwards.  When a singular category
/// repeats, its heartbeat carries a timestamp at least as large as the
/// persisted one, so persisted timestamps stay monotonically non-decreasing
/// for a given serial.
pub proof fn lemma_heartbeat_not_before_persisted(c: SnapshotV, l: SnapshotV)
    ensures
        is_repeat(c.supervisor.key(), l.supervisor.key()) ==> {
            let r = spec_reconcile(c, l);
            &&& r.supervisor.data_time is Some
            &&& l.supervisor.data_time is Some
            &&& l.supervisor.data_time->0 <= r.supervisor.data_time->0
        },
        is_repeat(c.prod_meter.key(), l.prod_meter.key()) ==> {
            let r = spec_reconcile(c, l);
            &&& r.prod_meter.data_time is Some
            &&& l.prod_meter.data_time is Some
            &&& l.prod_meter.data_time->0 <= r.prod_meter.data_time->0
        },
        is_repeat(c.cons_meter.key(), l.cons_meter.key()) ==> {
            let r = spec_reconcile(c, l);
            &&& r.cons_meter.data_time is Some
            &&& l.cons_meter.data_time is Some
            &&& l.cons_meter.data_time->0 <= r.cons_meter.data_time->0
        },
{
    lemma_heartbeat_is_max(c);
}

/// Law: the heartbeat timestamp is stable under reconciliation — the
/// freshest timestamp of a reconciled snapshot is the freshest timestamp of
/// the snapshot it came from, since heartbeats carry that very timestamp and
/// pass-through readings keep timestamps it already bounds.
pub proof fn lemma_heartbeat_ts_stable(c: SnapshotV, l: SnapshotV)
    ensures
        heartbeat_ts(spec_reconcile(c, l)) == heartbeat_ts(c),
{
    let hb = heartbeat_ts(c);
    let r1 = spec_reconcile(c, l);
    let s = snapshot_dts(c);
    let s1 = snapshot_dts(r1);
    lemma_greatest_dt_is_max(s);
    lemma_greatest_dt_is_max(s1);
    assert(s.len() == 3 + c.inverters.len());
    assert(s1.len() == 3 + c.inverters.len());
    assert(s[0] == c.supervisor.data_time && s[1] == c.prod_meter.data_time && s[2]
        == c.cons_meter.data_time);
    assert(s1[0] == r1.supervisor.data_time && s1[1] == r1.prod_meter.data_time && s1[2]
        == r1.cons_meter.data_time);
    assert(forall|i: int|
        0 <= i < c.inverters.len() ==> s[3 + i] == (#[trigger] c.inverters[i]).data_time);
    assert(forall|i: int|
        0 <= i < c.inverters.len() ==> s1[3 + i] == (#[trigger] r1.inverters[i]).data_time);
    assert(forall|i: int|
        0 <= i < c.inverters.len() ==> #[trigger] r1.inverters[i] == spec_reconcile_inv(
            c.inverters[i],
            l.inverters,
            hb,
        ));
    // Every reconciled timestamp is either the one it had or the heartbeat.
    assert forall|j: int| 0 <= j < s1.len() implies s1[j] == s[j] || (s1[j] == hb
        && hb is Some) by {
        if j >= 3 {
            assert(s1[j] == spec_reconcile_inv(c.inverters[j - 3], l.inverters, hb).data_time);
        }
    }
    let any_rep = is_repeat(c.supervisor.key(), l.supervisor.key()) || is_repeat(
        c.prod_meter.key(),
        l.prod_meter.key(),
    ) || is_repeat(c.cons_meter.key(), l.cons_meter.key()) || exists|i: int|
        0 <= i < c.inverters.len() && inv_is_repeat(#[trigger] c.inverters[i], l.inverters);
    if !any_rep {
        assert forall|j: int| 0 <= j < s1.len() implies s1[j] == s[j] by {
            if j >= 3 {
                assert(!inv_is_repeat(c.inverters[j - 3], l.inverters));
                assert(s1[j] == c.inverters[j - 3].data_time);
            }
        }
        assert(s1 =~= s);
    } else {
        // Some category repeats, so its own timestamp is present and the
        // heartbeat is attained somewhere in the reconciled snapshot.
        let jstar: int = if is_repeat(c.supervisor.key(), l.supervisor.key()) {
            0
        } else if is_repeat(c.prod_meter.key(), l.prod_meter.key()) {
            1
        } else if is_repeat(c.cons_meter.key(), l.cons_meter.key()) {
            2
        } else {
            3 + choose|i: int|
                0 <= i < c.inverters.len() && inv_is_repeat(#[trigger] c.inverters[i], l.inverters)
        };
        assert(0 <= jstar < s1.len());
        assert(s[jstar] is Some);
        assert(hb is Some);
        let h = hb->0;
        assert(s1[jstar] == hb) by {
            if jstar >= 3 {
                assert(s1[jstar] == spec_reconcile_inv(
                    c.inverters[jstar - 3],
                    l.inverters,
                    hb,
                ).data_time);
            }
        }
        let hb1 = spec_greatest_dt(s1);
        assert(hb1 is Some && h <= hb1->0);
        let j0 = choose|j0: int| 0 <= j0 < s1.len() && s1[j0] == hb1;
        assert(s1[j0] == s[j0] || s1[j0] == hb);
        assert(hb1->0 <= h);
        assert(hb1 == hb);
    }
}

/// Law: reconciliation is idempotent — reconciling an already reconciled
/// snapshot against the same unchanged latest persisted state changes
/// nothing.  In particular, once a repeat has been neutralized into a
/// heartbeat, further cycles against the same state keep it a heartbeat.
pub proof fn lemma_reconcile_idempotent(c: SnapshotV, l: SnapshotV)
    ensures
        spec_reconcile(spec_reconcile(c, l), l) == spec_reconcile(c, l),
{
    let hb = heartbeat_ts(c);
    let r1 = spec_reconcile(c, l);
    let r2 = spec_reconcile(r1, l);
    lemma_heartbeat_ts_stable(c, l);
    assert(heartbeat_ts(r1) == hb);
    assert(r2.supervisor == r1.supervisor);
    assert(r2.prod_meter == r1.prod_meter);
    assert(r2.cons_meter == r1.cons_meter);
    assert forall|i: int| 0 <= i < c.inverters.len() implies #[trigger] r2.inverters[i]
        == r1.inverters[i] by {
        assert(r1.inverters[i] == spec_reconcile_inv(c.inverters[i], l.inverters, hb));
        assert(r2.inverters[i] == spec_reconcile_inv(r1.inverters[i], l.inverters, hb));
    }
    assert(r2.inverters =~= r1.inverters);
    assert(r2 =~~= r1);
}

proof fn lemma_unseen_contains(cur: Seq<InverterV>, latest: Seq<InverterV>, i: int)
    requires
        0 <= i < cur.len(),
        find_latest_inv(latest, cur[i].serial) is None,
    ensures
        spec_unseen_serials(cur, latest).contains(cur[i].serial),
    decreases cur.len(),
{
    let rest = spec_unseen_serials(cur.drop_last(), latest);
    if i == cur.len() - 1 {
        assert(cur.last() == cur[i]);
        assert(spec_unseen_serials(cur, latest) == rest.push(cur[i].serial));
        assert(rest.push(cur[i].serial)[rest.len() as int] == cur[i].serial);
    } else {
        assert(cur.drop_last()[i] == cur[i]);
        lemma_unseen_contains(cur.drop_last(), latest, i);
        let j = choose|j: int| 0 <= j < rest.len() && rest[j] == cur[i].serial;
        if find_latest_inv(latest, cur.last().serial) is None {
            assert(rest.push(cur.last().serial)[j] == cur[i].serial);
        }
    }
}

/// Law: an inverter serial present in the current snapshot but absent from
/// the latest persisted set passes through reconciliation unchanged — never a
/// heartbeat — and is reported among the unseen serials so the caller can
/// raise a diagnostic warning.
pub proof fn lemma_unseen_inverter_passes_through(c: SnapshotV, l: SnapshotV, i: int)
    requires
        0 <= i < c.inverters.len(),
        find_latest_inv(l.inverters, c.inverters[i].serial) is None,
    ensures
        spec_reconcile(c, l).inverters[i] == c.inverters[i],
        spec_unseen_serials(c.inverters, l.inverters).contains(c.inverters[i].serial),
{
    assert(spec_reconcile(c, l).inverters[i] == spec_reconcile_inv(
        c.inverters[i],
        l.inverters,
        heartbeat_ts(c),
    ));
    lemma_unseen_contains(c.inverters, l.inverters, i);
}

} // verus!
