use solar_telemetry::devices::{Inverter, ProductionMeter, Supervisor};
use solar_telemetry::store::{
    all_writes_succeeded, classify_replace, pick_latest_cons_meter, pick_latest_inverters,
    pick_latest_prod_meter, pick_latest_supervisor, ReplaceOutcome,
};

fn supervisor(serial: &str, data_time: Option<i64>) -> Supervisor {
    let mut s = Supervisor::new();
    s.serial = serial.to_string();
    s.data_time = data_time;
    s
}

#[test]
fn failed_query_falls_back_to_sentinel() {
    let r = pick_latest_supervisor(None);
    assert_eq!(r.serial, "");
    assert_eq!(r.data_time, None);
    let cm = pick_latest_cons_meter(None);
    assert_eq!(cm.serial, "");
    let pm = pick_latest_prod_meter(None);
    assert_eq!(pm.serial, "");
}

#[test]
fn no_rows_falls_back_to_sentinel() {
    let r = pick_latest_supervisor(Some(Vec::new()));
    assert_eq!(r.serial, "");
    assert_eq!(r.data_time, None);
}

#[test]
fn single_row_is_taken() {
    let r = pick_latest_supervisor(Some(vec![supervisor("S1", Some(77))]));
    assert_eq!(r.serial, "S1");
    assert_eq!(r.data_time, Some(77));
}

#[test]
fn several_rows_take_the_first() {
    let rows = vec![supervisor("S1", Some(77)), supervisor("S2", Some(99))];
    let r = pick_latest_supervisor(Some(rows));
    assert_eq!(r.serial, "S1");
    assert_eq!(r.data_time, Some(77));
}

#[test]
fn prod_meter_row_is_taken() {
    let mut pm = ProductionMeter::new();
    pm.serial = "P1".to_string();
    pm.p_3phsum_kw = Some(5);
    let r = pick_latest_prod_meter(Some(vec![pm]));
    assert_eq!(r.serial, "P1");
    assert_eq!(r.p_3phsum_kw, Some(5));
}

#[test]
fn inverter_rows_pass_through() {
    let mut a = Inverter::set_values(
        "I1", Some(1), None, None, None, None, None, None, None, None, None, None,
    );
    a.p_3phsum_kw = Some(4);
    let rows = vec![a];
    let r = pick_latest_inverters(Some(rows));
    assert_eq!(r.len(), 1);
    assert_eq!(r[0].serial, "I1");
    assert_eq!(r[0].p_3phsum_kw, Some(4));
    assert_eq!(pick_latest_inverters(None).len(), 0);
}

#[test]
fn all_writes_ok_means_full_success() {
    assert!(all_writes_succeeded(&vec![true, true, true, true]));
    assert!(all_writes_succeeded(&Vec::new()));
}

#[test]
fn one_failed_write_means_partial_success() {
    // The supervisor write failed while the meters and inverters succeeded:
    // the batch reports partial success, and nothing stops the other writes
    // or the cycle (the next tick proceeds normally).
    let results = vec![false, true, true, true];
    assert!(!all_writes_succeeded(&results));
    let failures = results.iter().filter(|ok| !**ok).count();
    assert_eq!(failures, 1);
}

#[test]
fn replace_outcomes() {
    assert_eq!(classify_replace(0), ReplaceOutcome::NoRowChanged);
    assert_eq!(classify_replace(1), ReplaceOutcome::RowAdded);
    assert_eq!(classify_replace(2), ReplaceOutcome::RowReplaced);
    assert_eq!(classify_replace(3), ReplaceOutcome::UnexpectedRowCount);
    assert_eq!(classify_replace(u64::MAX), ReplaceOutcome::UnexpectedRowCount);
}
