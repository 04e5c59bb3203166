use solar_telemetry::devices::{
    ConsumptionMeter, Inverter, ProductionMeter, Pvs6DevicesResponse, Supervisor,
};
use solar_telemetry::reconcile::{greater_option_dt, unseen_inverter_serials, update_pvs6_old_responses};

fn supervisor(serial: &str, data_time: Option<i64>, load: Option<u64>) -> Supervisor {
    Supervisor {
        serial: serial.to_string(),
        data_time,
        dl_comm_err: None,
        dl_cpu_load: load,
        dl_err_count: None,
        dl_flash_avail: None,
        dl_mem_used: None,
        dl_scan_time: None,
        dl_skipped_scans: None,
        dl_untransmitted: None,
        dl_uptime: None,
    }
}

fn prod_meter(serial: &str, data_time: Option<i64>, power: Option<u64>) -> ProductionMeter {
    ProductionMeter {
        serial: serial.to_string(),
        data_time,
        freq_hz: None,
        i_a: None,
        net_ltea_3phsum_kwh: None,
        p_3phsum_kw: power,
        q_3phsum_kvar: None,
        s_3phsum_kva: None,
        tot_pf_rto: None,
        v12_v: None,
    }
}

fn cons_meter(serial: &str, data_time: Option<i64>, power: Option<u64>) -> ConsumptionMeter {
    ConsumptionMeter {
        serial: serial.to_string(),
        data_time,
        freq_hz: None,
        i1_a: None,
        i2_a: None,
        neg_ltea_3phsum_kwh: None,
        net_ltea_3phsum_kwh: None,
        p_3phsum_kw: power,
        p1_kw: None,
        p2_kw: None,
        pos_ltea_3phsum_kwh: None,
        q_3phsum_kvar: None,
        s_3phsum_kva: None,
        tot_pf_rto: None,
        v12_v: None,
        v1n_v: None,
        v2n_v: None,
    }
}

fn inverter(serial: &str, data_time: Option<i64>, power: Option<u64>) -> Inverter {
    Inverter {
        serial: serial.to_string(),
        data_time,
        freq_hz: None,
        i_3phsum_a: None,
        i_mppt1_a: None,
        ltea_3phsum_kwh: None,
        p_3phsum_kw: power,
        p_mppt1_kw: None,
        stat_ind: None,
        t_htsnk_degc: None,
        v_mppt1_v: None,
        vln_3phavg_v: None,
    }
}

fn snapshot(
    sup: Supervisor,
    cm: ConsumptionMeter,
    pm: ProductionMeter,
    invs: Vec<Inverter>,
) -> Pvs6DevicesResponse {
    Pvs6DevicesResponse { supervisor: sup, cons_meter: cm, prod_meter: pm, inverters: invs }
}

fn sup_fields_absent(s: &Supervisor) -> bool {
    s.dl_comm_err.is_none()
        && s.dl_cpu_load.is_none()
        && s.dl_err_count.is_none()
        && s.dl_flash_avail.is_none()
        && s.dl_mem_used.is_none()
        && s.dl_scan_time.is_none()
        && s.dl_skipped_scans.is_none()
        && s.dl_untransmitted.is_none()
        && s.dl_uptime.is_none()
}

#[test]
fn repeated_supervisor_becomes_heartbeat() {
    let cur = snapshot(
        supervisor("S1", Some(1000), Some(42)),
        ConsumptionMeter::new(),
        ProductionMeter::new(),
        Vec::new(),
    );
    let latest = snapshot(
        supervisor("S1", Some(1000), Some(42)),
        ConsumptionMeter::new(),
        ProductionMeter::new(),
        Vec::new(),
    );
    let r = update_pvs6_old_responses(cur, &latest);
    assert_eq!(r.supervisor.serial, "S1");
    assert_eq!(r.supervisor.data_time, Some(1000));
    assert!(sup_fields_absent(&r.supervisor));
}

#[test]
fn supervisor_repeat_then_production_meter_new() {
    // latestPersisted = {Supervisor: "S1" @ T0}; current has the same
    // supervisor echo plus a fresh production-meter reading at T1 > T0.
    let t0: i64 = 1000;
    let t1: i64 = 1300;
    let cur = snapshot(
        supervisor("S1", Some(t0), Some(42)),
        ConsumptionMeter::new(),
        prod_meter("P1", Some(t1), Some(77)),
        Vec::new(),
    );
    let latest = snapshot(
        supervisor("S1", Some(t0), Some(9)),
        ConsumptionMeter::new(),
        ProductionMeter::new(),
        Vec::new(),
    );
    let r = update_pvs6_old_responses(cur, &latest);
    // Supervisor: heartbeat with serial kept and the snapshot's freshest
    // timestamp (T1), every field absent.
    assert_eq!(r.supervisor.serial, "S1");
    assert_eq!(r.supervisor.data_time, Some(t1));
    assert!(sup_fields_absent(&r.supervisor));
    // Production meter: new data, unchanged.
    assert_eq!(r.prod_meter.serial, "P1");
    assert_eq!(r.prod_meter.data_time, Some(t1));
    assert_eq!(r.prod_meter.p_3phsum_kw, Some(77));
}

#[test]
fn first_run_everything_passes_through() {
    // latestPersisted has no rows: all sentinels.  Everything is new.
    let cur = snapshot(
        supervisor("S1", Some(500), Some(1)),
        cons_meter("C1", Some(501), Some(2)),
        prod_meter("P1", Some(502), Some(3)),
        vec![inverter("I1", Some(503), Some(4)), inverter("I2", Some(504), Some(5))],
    );
    let latest = Pvs6DevicesResponse::new();
    let r = update_pvs6_old_responses(cur, &latest);
    assert_eq!(r.supervisor.serial, "S1");
    assert_eq!(r.supervisor.data_time, Some(500));
    assert_eq!(r.supervisor.dl_cpu_load, Some(1));
    assert_eq!(r.cons_meter.serial, "C1");
    assert_eq!(r.cons_meter.p_3phsum_kw, Some(2));
    assert_eq!(r.prod_meter.serial, "P1");
    assert_eq!(r.prod_meter.p_3phsum_kw, Some(3));
    assert_eq!(r.inverters.len(), 2);
    assert_eq!(r.inverters[0].serial, "I1");
    assert_eq!(r.inverters[0].p_3phsum_kw, Some(4));
    assert_eq!(r.inverters[1].serial, "I2");
    assert_eq!(r.inverters[1].p_3phsum_kw, Some(5));
}

#[test]
fn serial_change_is_new_regardless_of_timestamps() {
    let cur = snapshot(
        supervisor("S2", Some(1000), Some(42)),
        ConsumptionMeter::new(),
        ProductionMeter::new(),
        Vec::new(),
    );
    let latest = snapshot(
        supervisor("S1", Some(1000), Some(9)),
        ConsumptionMeter::new(),
        ProductionMeter::new(),
        Vec::new(),
    );
    let r = update_pvs6_old_responses(cur, &latest);
    assert_eq!(r.supervisor.serial, "S2");
    assert_eq!(r.supervisor.data_time, Some(1000));
    assert_eq!(r.supervisor.dl_cpu_load, Some(42));
}

#[test]
fn absent_timestamp_is_never_a_heartbeat() {
    // Same serial on both sides, both timestamps absent: still no heartbeat.
    let cur = snapshot(
        supervisor("S1", None, Some(42)),
        ConsumptionMeter::new(),
        ProductionMeter::new(),
        Vec::new(),
    );
    let latest = snapshot(
        supervisor("S1", None, Some(9)),
        ConsumptionMeter::new(),
        ProductionMeter::new(),
        Vec::new(),
    );
    let r = update_pvs6_old_responses(cur, &latest);
    assert_eq!(r.supervisor.serial, "S1");
    assert_eq!(r.supervisor.data_time, None);
    assert_eq!(r.supervisor.dl_cpu_load, Some(42));
}

#[test]
fn sentinel_category_is_not_turned_into_heartbeat() {
    // The consumption meter failed to decode this cycle (sentinel), and the
    // store holds no consumption meter either: both sides are the sentinel,
    // which must not produce a hollow heartbeat row.
    let cur = snapshot(
        supervisor("S1", Some(2000), Some(42)),
        ConsumptionMeter::new(),
        ProductionMeter::new(),
        Vec::new(),
    );
    let latest = Pvs6DevicesResponse::new();
    let r = update_pvs6_old_responses(cur, &latest);
    assert_eq!(r.cons_meter.serial, "");
    assert_eq!(r.cons_meter.data_time, None);
}

#[test]
fn heartbeat_uses_greatest_timestamp_of_snapshot() {
    // Supervisor at T1, an inverter at T2 > T1; the production meter repeats,
    // so its heartbeat must carry T2, not T1.
    let t1: i64 = 1000;
    let t2: i64 = 2000;
    let cur = snapshot(
        supervisor("S1", Some(t1), Some(42)),
        ConsumptionMeter::new(),
        prod_meter("P1", Some(900), Some(77)),
        vec![inverter("I1", Some(t2), Some(4))],
    );
    let latest = snapshot(
        Supervisor::new(),
        ConsumptionMeter::new(),
        prod_meter("P1", Some(900), Some(50)),
        Vec::new(),
    );
    let r = update_pvs6_old_responses(cur, &latest);
    assert_eq!(r.prod_meter.serial, "P1");
    assert_eq!(r.prod_meter.data_time, Some(t2));
    assert_eq!(r.prod_meter.p_3phsum_kw, None);
}

#[test]
fn unseen_inverter_passes_through_and_is_reported() {
    let cur = snapshot(
        Supervisor::new(),
        ConsumptionMeter::new(),
        ProductionMeter::new(),
        vec![inverter("I1", Some(100), Some(4)), inverter("I9", Some(100), Some(5))],
    );
    let latest = snapshot(
        Supervisor::new(),
        ConsumptionMeter::new(),
        ProductionMeter::new(),
        vec![inverter("I1", Some(100), Some(4))],
    );
    let warnings = unseen_inverter_serials(&cur, &latest);
    assert_eq!(warnings, vec!["I9".to_string()]);
    let r = update_pvs6_old_responses(cur, &latest);
    // I1 repeats: heartbeat.  I9 is unseen: passes through unchanged.
    assert_eq!(r.inverters.len(), 2);
    assert_eq!(r.inverters[0].serial, "I1");
    assert_eq!(r.inverters[0].p_3phsum_kw, None);
    assert_eq!(r.inverters[1].serial, "I9");
    assert_eq!(r.inverters[1].data_time, Some(100));
    assert_eq!(r.inverters[1].p_3phsum_kw, Some(5));
}

#[test]
fn inverter_with_new_timestamp_passes_through() {
    let cur = snapshot(
        Supervisor::new(),
        ConsumptionMeter::new(),
        ProductionMeter::new(),
        vec![inverter("I1", Some(200), Some(4))],
    );
    let latest = snapshot(
        Supervisor::new(),
        ConsumptionMeter::new(),
        ProductionMeter::new(),
        vec![inverter("I1", Some(100), Some(9))],
    );
    let r = update_pvs6_old_responses(cur, &latest);
    assert_eq!(r.inverters[0].serial, "I1");
    assert_eq!(r.inverters[0].data_time, Some(200));
    assert_eq!(r.inverters[0].p_3phsum_kw, Some(4));
}

#[test]
fn reconciling_twice_never_resurrects_measurements() {
    // The device echoes the same persisted reading on two consecutive polls
    // while the latest persisted state stays unchanged: both cycles yield
    // heartbeat rows, never the original measurement values.
    let latest = snapshot(
        supervisor("S1", Some(1000), Some(9)),
        ConsumptionMeter::new(),
        ProductionMeter::new(),
        Vec::new(),
    );
    let echo = || {
        snapshot(
            supervisor("S1", Some(1000), Some(42)),
            ConsumptionMeter::new(),
            ProductionMeter::new(),
            Vec::new(),
        )
    };
    let r1 = update_pvs6_old_responses(echo(), &latest);
    assert!(sup_fields_absent(&r1.supervisor));
    let r2 = update_pvs6_old_responses(echo(), &latest);
    assert!(sup_fields_absent(&r2.supervisor));
    // And reconciling an already reconciled snapshot stays content-free.
    let r3 = update_pvs6_old_responses(r1, &latest);
    assert!(sup_fields_absent(&r3.supervisor));
    assert_eq!(r3.supervisor.serial, "S1");
}

#[test]
fn greater_option_dt_picks_maximum() {
    assert_eq!(greater_option_dt(Vec::new()), None);
    assert_eq!(greater_option_dt(vec![None, None, None]), None);
    assert_eq!(greater_option_dt(vec![Some(5)]), Some(5));
    assert_eq!(greater_option_dt(vec![None, Some(3), Some(7), None, Some(2)]), Some(7));
    assert_eq!(greater_option_dt(vec![Some(-5), None, Some(-9)]), Some(-5));
}
