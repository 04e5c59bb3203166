//! The snapshot data model: one reading per device category.
//!
//! A reading carries a serial number, an optional reading timestamp, and a
//! fixed set of named measurement fields, each independently optional.  An
//! empty serial is the sentinel: "no device of this category observed yet".
//! Timestamps are seconds since the epoch.  Fractional measurements are
//! carried as opaque 64-bit encodings chosen by the caller; this crate only
//! moves them or clears them, never interprets them.

use vstd::prelude::*;

verus! {

/// What the reconciler compares two readings by: serial and timestamp.
#[verifier::ext_equal]
pub ghost struct ReadingKey {
    pub serial: Seq<char>,
    pub data_time: Option<i64>,
}

/// Mathematical value of a [`Supervisor`] reading.
#[verifier::ext_equal]
pub ghost struct SupervisorV {
    pub serial: Seq<char>,
    pub data_time: Option<i64>,
    pub dl_comm_err: Option<i32>,
    pub dl_cpu_load: Option<u64>,
    pub dl_err_count: Option<i32>,
    pub dl_flash_avail: Option<u32>,
    pub dl_mem_used: Option<u32>,
    pub dl_scan_time: Option<i32>,
    pub dl_skipped_scans: Option<i32>,
    pub dl_untransmitted: Option<u32>,
    pub dl_uptime: Option<i64>,
}

impl SupervisorV {
    pub open spec fn key(self) -> ReadingKey {
        ReadingKey { serial: self.serial, data_time: self.data_time }
    }

    /// Every measurement field is absent.
    pub open spec fn fields_absent(self) -> bool {
        &&& self.dl_comm_err is None
        &&& self.dl_cpu_load is None
        &&& self.dl_err_count is None
        &&& self.dl_flash_avail is None
        &&& self.dl_mem_used is None
        &&& self.dl_scan_time is None
        &&& self.dl_skipped_scans is None
        &&& self.dl_untransmitted is None
        &&& self.dl_uptime is None
    }

    /// The reading that stands for "nothing observed, nothing persisted".
    pub open spec fn sentinel() -> SupervisorV {
        SupervisorV {
            serial: Seq::<char>::empty(),
            data_time: None,
            dl_comm_err: None,
            dl_cpu_load: None,
            dl_err_count: None,
            dl_flash_avail: None,
            dl_mem_used: None,
            dl_scan_time: None,
            dl_skipped_scans: None,
            dl_untransmitted: None,
            dl_uptime: None,
        }
    }

    /// A content-free row that keeps a serial and carries a fresh timestamp.
    pub open spec fn heartbeat(serial: Seq<char>, data_time: Option<i64>) -> SupervisorV {
        SupervisorV {
            serial,
            data_time,
            dl_comm_err: None,
            dl_cpu_load: None,
            dl_err_count: None,
            dl_flash_avail: None,
            dl_mem_used: None,
            dl_scan_time: None,
            dl_skipped_scans: None,
            dl_untransmitted: None,
            dl_uptime: None,
        }
    }
}

/// Mathematical value of a [`ProductionMeter`] reading.
#[verifier::ext_equal]
pub ghost struct ProductionMeterV {
    pub serial: Seq<char>,
    pub data_time: Option<i64>,
    pub freq_hz: Option<u64>,
    pub i_a: Option<u64>,
    pub net_ltea_3phsum_kwh: Option<u64>,
    pub p_3phsum_kw: Option<u64>,
    pub q_3phsum_kvar: Option<u64>,
    pub s_3phsum_kva: Option<u64>,
    pub tot_pf_rto: Option<u64>,
    pub v12_v: Option<u64>,
}

impl ProductionMeterV {
    pub open spec fn key(self) -> ReadingKey {
        ReadingKey { serial: self.serial, data_time: self.data_time }
    }

    /// Every measurement field is absent.
    pub open spec fn fields_absent(self) -> bool {
        &&& self.freq_hz is None
        &&& self.i_a is None
        &&& self.net_ltea_3phsum_kwh is None
        &&& self.p_3phsum_kw is None
        &&& self.q_3phsum_kvar is None
        &&& self.s_3phsum_kva is None
        &&& self.tot_pf_rto is None
        &&& self.v12_v is None
    }

    /// The reading that stands for "nothing observed, nothing persisted".
    pub open spec fn sentinel() -> ProductionMeterV {
        ProductionMeterV {
            serial: Seq::<char>::empty(),
            data_time: None,
            freq_hz: None,
            i_a: None,
            net_ltea_3phsum_kwh: None,
            p_3phsum_kw: None,
            q_3phsum_kvar: None,
            s_3phsum_kva: None,
            tot_pf_rto: None,
            v12_v: None,
        }
    }

    /// A content-free row that keeps a serial and carries a fresh timestamp.
    pub open spec fn heartbeat(serial: Seq<char>, data_time: Option<i64>) -> ProductionMeterV {
        ProductionMeterV {
            serial,
            data_time,
            freq_hz: None,
            i_a: None,
            net_ltea_3phsum_kwh: None,
            p_3phsum_kw: None,
            q_3phsum_kvar: None,
            s_3phsum_kva: None,
            tot_pf_rto: None,
            v12_v: None,
        }
    }
}

/// Mathematical value of a [`ConsumptionMeter`] reading.
#[verifier::ext_equal]
pub ghost struct ConsumptionMeterV {
    pub serial: Seq<char>,
    pub data_time: Option<i64>,
    pub freq_hz: Option<u64>,
    pub i1_a: Option<u64>,
    pub i2_a: Option<u64>,
    pub neg_ltea_3phsum_kwh: Option<u64>,
    pub net_ltea_3phsum_kwh: Option<u64>,
    pub p_3phsum_kw: Option<u64>,
    pub p1_kw: Option<u64>,
    pub p2_kw: Option<u64>,
    pub pos_ltea_3phsum_kwh: Option<u64>,
    pub q_3phsum_kvar: Option<u64>,
    pub s_3phsum_kva: Option<u64>,
    pub tot_pf_rto: Option<u64>,
    pub v12_v: Option<u64>,
    pub v1n_v: Option<u64>,
    pub v2n_v: Option<u64>,
}

impl ConsumptionMeterV {
    pub open spec fn key(self) -> ReadingKey {
        ReadingKey { serial: self.serial, data_time: self.data_time }
    }

    /// Every measurement field is absent.
    pub open spec fn fields_absent(self) -> bool {
        &&& self.freq_hz is None
        &&& self.i1_a is None
        &&& self.i2_a is None
        &&& self.neg_ltea_3phsum_kwh is None
        &&& self.net_ltea_3phsum_kwh is None
        &&& self.p_3phsum_kw is None
        &&& self.p1_kw is None
        &&& self.p2_kw is None
        &&& self.pos_ltea_3phsum_kwh is None
        &&& self.q_3phsum_kvar is None
        &&& self.s_3phsum_kva is None
        &&& self.tot_pf_rto is None
        &&& self.v12_v is None
        &&& self.v1n_v is None
        &&& self.v2n_v is None
    }

    /// The reading that stands for "nothing observed, nothing persisted".
    pub open spec fn sentinel() -> ConsumptionMeterV {
        ConsumptionMeterV {
            serial: Seq::<char>::empty(),
            data_time: None,
            freq_hz: None,
            i1_a: None,
            i2_a: None,
            neg_ltea_3phsum_kwh: None,
            net_ltea_3phsum_kwh: None,
            p_3phsum_kw: None,
            p1_kw: None,
            p2_kw: None,
            pos_ltea_3phsum_kwh: None,
            q_3phsum_kvar: None,
            s_3phsum_kva: None,
            tot_pf_rto: None,
            v12_v: None,
            v1n_v: None,
            v2n_v: None,
        }
    }

    /// A content-free row that keeps a serial and carries a fresh timestamp.
    pub open spec fn heartbeat(serial: Seq<char>, data_time: Option<i64>) -> ConsumptionMeterV {
        ConsumptionMeterV {
            serial,
            data_time,
            freq_hz: None,
            i1_a: None,
            i2_a: None,
            neg_ltea_3phsum_kwh: None,
            net_ltea_3phsum_kwh: None,
            p_3phsum_kw: None,
            p1_kw: None,
            p2_kw: None,
            pos_ltea_3phsum_kwh: None,
            q_3phsum_kvar: None,
            s_3phsum_kva: None,
            tot_pf_rto: None,
            v12_v: None,
            v1n_v: None,
            v2n_v: None,
        }
    }
}

/// Mathematical value of an [`Inverter`] reading.
#[verifier::ext_equal]
pub ghost struct InverterV {
    pub serial: Seq<char>,
    pub data_time: Option<i64>,
    pub freq_hz: Option<u64>,
    pub i_3phsum_a: Option<u64>,
    pub i_mppt1_a: Option<u64>,
    pub ltea_3phsum_kwh: Option<u64>,
    pub p_3phsum_kw: Option<u64>,
    pub p_mppt1_kw: Option<u64>,
    pub stat_ind: Option<u64>,
    pub t_htsnk_degc: Option<u64>,
    pub v_mppt1_v: Option<u64>,
    pub vln_3phavg_v: Option<u64>,
}

impl InverterV {
    pub open spec fn key(self) -> ReadingKey {
        ReadingKey { serial: self.serial, data_time: self.data_time }
    }

    /// Every measurement field is absent.
    pub open spec fn fields_absent(self) -> bool {
        &&& self.freq_hz is None
        &&& self.i_3phsum_a is None
        &&& self.i_mppt1_a is None
        &&& self.ltea_3phsum_kwh is None
        &&& self.p_3phsum_kw is None
        &&& self.p_mppt1_kw is None
        &&& self.stat_ind is None
        &&& self.t_htsnk_degc is None
        &&& self.v_mppt1_v is None
        &&& self.vln_3phavg_v is None
    }

    /// A content-free row that keeps a serial and carries a fresh timestamp.
    pub open spec fn heartbeat(serial: Seq<char>, data_time: Option<i64>) -> InverterV {
        InverterV {
            serial,
            data_time,
            freq_hz: None,
            i_3phsum_a: None,
            i_mppt1_a: None,
            ltea_3phsum_kwh: None,
            p_3phsum_kw: None,
            p_mppt1_kw: None,
            stat_ind: None,
            t_htsnk_degc: None,
            v_mppt1_v: None,
            vln_3phavg_v: None,
        }
    }
}

/// Mathematical value of a whole [`Pvs6DevicesResponse`] snapshot.
#[verifier::ext_equal]
pub ghost struct SnapshotV {
    pub supervisor: SupervisorV,
    pub cons_meter: ConsumptionMeterV,
    pub prod_meter: ProductionMeterV,
    pub inverters: Seq<InverterV>,
}

/// The supervisor reading: the gateway device itself.
pub struct Supervisor {
    pub serial: String,
    pub data_time: Option<i64>,
    pub dl_comm_err: Option<i32>,
    pub dl_cpu_load: Option<u64>,
    pub dl_err_count: Option<i32>,
    pub dl_flash_avail: Option<u32>,
    pub dl_mem_used: Option<u32>,
    pub dl_scan_time: Option<i32>,
    pub dl_skipped_scans: Option<i32>,
    pub dl_untransmitted: Option<u32>,
    pub dl_uptime: Option<i64>,
}

impl View for Supervisor {
    type V = SupervisorV;

    open spec fn view(&self) -> SupervisorV {
        SupervisorV {
            serial: self.serial@,
            data_time: self.data_time,
            dl_comm_err: self.dl_comm_err,
            dl_cpu_load: self.dl_cpu_load,
            dl_err_count: self.dl_err_count,
            dl_flash_avail: self.dl_flash_avail,
            dl_mem_used: self.dl_mem_used,
            dl_scan_time: self.dl_scan_time,
            dl_skipped_scans: self.dl_skipped_scans,
            dl_untransmitted: self.dl_untransmitted,
            dl_uptime: self.dl_uptime,
        }
    }
}

impl Clone for Supervisor {
    fn clone(&self) -> (res: Self)
        ensures
            res@ == self@,
    {
        Supervisor {
            serial: self.serial.clone(),
            data_time: self.data_time,
            dl_comm_err: self.dl_comm_err,
            dl_cpu_load: self.dl_cpu_load,
            dl_err_count: self.dl_err_count,
            dl_flash_avail: self.dl_flash_avail,
            dl_mem_used: self.dl_mem_used,
            dl_scan_time: self.dl_scan_time,
            dl_skipped_scans: self.dl_skipped_scans,
            dl_untransmitted: self.dl_untransmitted,
            dl_uptime: self.dl_uptime,
        }
    }
}

impl Supervisor {
    /// The sentinel supervisor reading.
    pub fn new() -> (r: Self)
        ensures
            r@ == SupervisorV::sentinel(),
    {
        Supervisor {
            serial: String::new(),
            data_time: None,
            dl_comm_err: None,
            dl_cpu_load: None,
            dl_err_count: None,
            dl_flash_avail: None,
            dl_mem_used: None,
            dl_scan_time: None,
            dl_skipped_scans: None,
            dl_untransmitted: None,
            dl_uptime: None,
        }
    }

    pub fn set_values(
        serial: String,
        data_time: Option<i64>,
        dl_comm_err: Option<i32>,
        dl_cpu_load: Option<u64>,
        dl_err_count: Option<i32>,
        dl_flash_avail: Option<u32>,
        dl_mem_used: Option<u32>,
        dl_scan_time: Option<i32>,
        dl_skipped_scans: Option<i32>,
        dl_untransmitted: Option<u32>,
        dl_uptime: Option<i64>,
    ) -> (r: Self)
        ensures
            r@ == (SupervisorV {
                serial: serial@,
                data_time,
                dl_comm_err,
                dl_cpu_load,
                dl_err_count,
                dl_flash_avail,
                dl_mem_used,
                dl_scan_time,
                dl_skipped_scans,
                dl_untransmitted,
                dl_uptime,
            }),
    {
        Supervisor {
            serial,
            data_time,
            dl_comm_err,
            dl_cpu_load,
            dl_err_count,
            dl_flash_avail,
            dl_mem_used,
            dl_scan_time,
            dl_skipped_scans,
            dl_untransmitted,
            dl_uptime,
        }
    }

    /// Whether a device of this category was actually observed: a reading
    /// with an empty serial is the sentinel and must never be persisted.
    pub fn is_observed(&self) -> (b: bool)
        ensures
            b == (self@.serial.len() > 0),
    {
        !self.serial.as_str().is_empty()
    }
}

/// The production meter reading.
pub struct ProductionMeter {
    pub serial: String,
    pub data_time: Option<i64>,
    pub freq_hz: Option<u64>,
    pub i_a: Option<u64>,
    pub net_ltea_3phsum_kwh: Option<u64>,
    pub p_3phsum_kw: Option<u64>,
    pub q_3phsum_kvar: Option<u64>,
    pub s_3phsum_kva: Option<u64>,
    pub tot_pf_rto: Option<u64>,
    pub v12_v: Option<u64>,
}

impl View for ProductionMeter {
    type V = ProductionMeterV;

    open spec fn view(&self) -> ProductionMeterV {
        ProductionMeterV {
            serial: self.serial@,
            data_time: self.data_time,
            freq_hz: self.freq_hz,
            i_a: self.i_a,
            net_ltea_3phsum_kwh: self.net_ltea_3phsum_kwh,
            p_3phsum_kw: self.p_3phsum_kw,
            q_3phsum_kvar: self.q_3phsum_kvar,
            s_3phsum_kva: self.s_3phsum_kva,
            tot_pf_rto: self.tot_pf_rto,
            v12_v: self.v12_v,
        }
    }
}

impl Clone for ProductionMeter {
    fn clone(&self) -> (res: Self)
        ensures
            res@ == self@,
    {
        ProductionMeter {
            serial: self.serial.clone(),
            data_time: self.data_time,
            freq_hz: self.freq_hz,
            i_a: self.i_a,
            net_ltea_3phsum_kwh: self.net_ltea_3phsum_kwh,
            p_3phsum_kw: self.p_3phsum_kw,
            q_3phsum_kvar: self.q_3phsum_kvar,
            s_3phsum_kva: self.s_3phsum_kva,
            tot_pf_rto: self.tot_pf_rto,
            v12_v: self.v12_v,
        }
    }
}

impl ProductionMeter {
    /// The sentinel production-meter reading.
    pub fn new() -> (r: Self)
        ensures
            r@ == ProductionMeterV::sentinel(),
    {
        ProductionMeter {
            serial: String::new(),
            data_time: None,
            freq_hz: None,
            i_a: None,
            net_ltea_3phsum_kwh: None,
            p_3phsum_kw: None,
            q_3phsum_kvar: None,
            s_3phsum_kva: None,
            tot_pf_rto: None,
            v12_v: None,
        }
    }

    pub fn set_values(
        serial: &str,
        data_time: Option<i64>,
        freq_hz: Option<u64>,
        i_a: Option<u64>,
        net_ltea_3phsum_kwh: Option<u64>,
        p_3phsum_kw: Option<u64>,
        q_3phsum_kvar: Option<u64>,
        s_3phsum_kva: Option<u64>,
        tot_pf_rto: Option<u64>,
        v12_v: Option<u64>,
    ) -> (r: Self)
        ensures
            r@ == (ProductionMeterV {
                serial: serial@,
                data_time,
                freq_hz,
                i_a,
                net_ltea_3phsum_kwh,
                p_3phsum_kw,
                q_3phsum_kvar,
                s_3phsum_kva,
                tot_pf_rto,
                v12_v,
            }),
    {
        ProductionMeter {
            serial: String::from_str(serial),
            data_time,
            freq_hz,
            i_a,
            net_ltea_3phsum_kwh,
            p_3phsum_kw,
            q_3phsum_kvar,
            s_3phsum_kva,
            tot_pf_rto,
            v12_v,
        }
    }

    /// Whether a device of this category was actually observed: a reading
    /// with an empty serial is the sentinel and must never be persisted.
    pub fn is_observed(&self) -> (b: bool)
        ensures
            b == (self@.serial.len() > 0),
    {
        !self.serial.as_str().is_empty()
    }
}

/// The consumption meter reading.
pub struct ConsumptionMeter {
    pub serial: String,
    pub data_time: Option<i64>,
    pub freq_hz: Option<u64>,
    pub i1_a: Option<u64>,
    pub i2_a: Option<u64>,
    pub neg_ltea_3phsum_kwh: Option<u64>,
    pub net_ltea_3phsum_kwh: Option<u64>,
    pub p_3phsum_kw: Option<u64>,
    pub p1_kw: Option<u64>,
    pub p2_kw: Option<u64>,
    pub pos_ltea_3phsum_kwh: Option<u64>,
    pub q_3phsum_kvar: Option<u64>,
    pub s_3phsum_kva: Option<u64>,
    pub tot_pf_rto: Option<u64>,
    pub v12_v: Option<u64>,
    pub v1n_v: Option<u64>,
    pub v2n_v: Option<u64>,
}

impl View for ConsumptionMeter {
    type V = ConsumptionMeterV;

    open spec fn view(&self) -> ConsumptionMeterV {
        ConsumptionMeterV {
            serial: self.serial@,
            data_time: self.data_time,
            freq_hz: self.freq_hz,
            i1_a: self.i1_a,
            i2_a: self.i2_a,
            neg_ltea_3phsum_kwh: self.neg_ltea_3phsum_kwh,
            net_ltea_3phsum_kwh: self.net_ltea_3phsum_kwh,
            p_3phsum_kw: self.p_3phsum_kw,
            p1_kw: self.p1_kw,
            p2_kw: self.p2_kw,
            pos_ltea_3phsum_kwh: self.pos_ltea_3phsum_kwh,
            q_3phsum_kvar: self.q_3phsum_kvar,
            s_3phsum_kva: self.s_3phsum_kva,
            tot_pf_rto: self.tot_pf_rto,
            v12_v: self.v12_v,
            v1n_v: self.v1n_v,
            v2n_v: self.v2n_v,
        }
    }
}

impl Clone for ConsumptionMeter {
    fn clone(&self) -> (res: Self)
        ensures
            res@ == self@,
    {
        ConsumptionMeter {
            serial: self.serial.clone(),
            data_time: self.data_time,
            freq_hz: self.freq_hz,
            i1_a: self.i1_a,
            i2_a: self.i2_a,
            neg_ltea_3phsum_kwh: self.neg_ltea_3phsum_kwh,
            net_ltea_3phsum_kwh: self.net_ltea_3phsum_kwh,
            p_3phsum_kw: self.p_3phsum_kw,
            p1_kw: self.p1_kw,
            p2_kw: self.p2_kw,
            pos_ltea_3phsum_kwh: self.pos_ltea_3phsum_kwh,
            q_3phsum_kvar: self.q_3phsum_kvar,
            s_3phsum_kva: self.s_3phsum_kva,
            tot_pf_rto: self.tot_pf_rto,
            v12_v: self.v12_v,
            v1n_v: self.v1n_v,
            v2n_v: self.v2n_v,
        }
    }
}

impl ConsumptionMeter {
    /// The sentinel consumption-meter reading.
    pub fn new() -> (r: Self)
        ensures
            r@ == ConsumptionMeterV::sentinel(),
    {
        ConsumptionMeter {
            serial: String::new(),
            data_time: None,
            freq_hz: None,
            i1_a: None,
            i2_a: None,
            neg_ltea_3phsum_kwh: None,
            net_ltea_3phsum_kwh: None,
            p_3phsum_kw: None,
            p1_kw: None,
            p2_kw: None,
            pos_ltea_3phsum_kwh: None,
            q_3phsum_kvar: None,
            s_3phsum_kva: None,
            tot_pf_rto: None,
            v12_v: None,
            v1n_v: None,
            v2n_v: None,
        }
    }

    pub fn set_values(
        serial: String,
        data_time: Option<i64>,
        freq_hz: Option<u64>,
        i1_a: Option<u64>,
        i2_a: Option<u64>,
        neg_ltea_3phsum_kwh: Option<u64>,
        net_ltea_3phsum_kwh: Option<u64>,
        p_3phsum_kw: Option<u64>,
        p1_kw: Option<u64>,
        p2_kw: Option<u64>,
        pos_ltea_3phsum_kwh: Option<u64>,
        q_3phsum_kvar: Option<u64>,
        s_3phsum_kva: Option<u64>,
        tot_pf_rto: Option<u64>,
        v12_v: Option<u64>,
        v1n_v: Option<u64>,
        v2n_v: Option<u64>,
    ) -> (r: Self)
        ensures
            r@ == (ConsumptionMeterV {
                serial: serial@,
                data_time,
                freq_hz,
                i1_a,
                i2_a,
                neg_ltea_3phsum_kwh,
                net_ltea_3phsum_kwh,
                p_3phsum_kw,
                p1_kw,
                p2_kw,
                pos_ltea_3phsum_kwh,
                q_3phsum_kvar,
                s_3phsum_kva,
                tot_pf_rto,
                v12_v,
                v1n_v,
                v2n_v,
            }),
    {
        ConsumptionMeter {
            serial,
            data_time,
            freq_hz,
            i1_a,
            i2_a,
            neg_ltea_3phsum_kwh,
            net_ltea_3phsum_kwh,
            p_3phsum_kw,
            p1_kw,
            p2_kw,
            pos_ltea_3phsum_kwh,
            q_3phsum_kvar,
            s_3phsum_kva,
            tot_pf_rto,
            v12_v,
            v1n_v,
            v2n_v,
        }
    }

    /// Whether a device of this category was actually observed: a reading
    /// with an empty serial is the sentinel and must never be persisted.
    pub fn is_observed(&self) -> (b: bool)
        ensures
            b == (self@.serial.len() > 0),
    {
        !self.serial.as_str().is_empty()
    }
}

/// One inverter reading; a snapshot holds any number of these, keyed by
/// serial.
pub struct Inverter {
    pub serial: String,
    pub data_time: Option<i64>,
    pub freq_hz: Option<u64>,
    pub i_3phsum_a: Option<u64>,
    pub i_mppt1_a: Option<u64>,
    pub ltea_3phsum_kwh: Option<u64>,
    pub p_3phsum_kw: Option<u64>,
    pub p_mppt1_kw: Option<u64>,
    pub stat_ind: Option<u64>,
    pub t_htsnk_degc: Option<u64>,
    pub v_mppt1_v: Option<u64>,
    pub vln_3phavg_v: Option<u64>,
}

impl View for Inverter {
    type V = InverterV;

    open spec fn view(&self) -> InverterV {
        InverterV {
            serial: self.serial@,
            data_time: self.data_time,
            freq_hz: self.freq_hz,
            i_3phsum_a: self.i_3phsum_a,
            i_mppt1_a: self.i_mppt1_a,
            ltea_3phsum_kwh: self.ltea_3phsum_kwh,
            p_3phsum_kw: self.p_3phsum_kw,
            p_mppt1_kw: self.p_mppt1_kw,
            stat_ind: self.stat_ind,
            t_htsnk_degc: self.t_htsnk_degc,
            v_mppt1_v: self.v_mppt1_v,
            vln_3phavg_v: self.vln_3phavg_v,
        }
    }
}

impl Clone for Inverter {
    fn clone(&self) -> (res: Self)
        ensures
            res@ == self@,
    {
        Inverter {
            serial: self.serial.clone(),
            data_time: self.data_time,
            freq_hz: self.freq_hz,
            i_3phsum_a: self.i_3phsum_a,
            i_mppt1_a: self.i_mppt1_a,
            ltea_3phsum_kwh: self.ltea_3phsum_kwh,
            p_3phsum_kw: self.p_3phsum_kw,
            p_mppt1_kw: self.p_mppt1_kw,
            stat_ind: self.stat_ind,
            t_htsnk_degc: self.t_htsnk_degc,
            v_mppt1_v: self.v_mppt1_v,
            vln_3phavg_v: self.vln_3phavg_v,
        }
    }
}

impl Inverter {
    pub fn set_values(
        serial: &str,
        data_time: Option<i64>,
        freq_hz: Option<u64>,
        i_3phsum_a: Option<u64>,
        i_mppt1_a: Option<u64>,
        ltea_3phsum_kwh: Option<u64>,
        p_3phsum_kw: Option<u64>,
        p_mppt1_kw: Option<u64>,
        stat_ind: Option<u64>,
        t_htsnk_degc: Option<u64>,
        v_mppt1_v: Option<u64>,
        vln_3phavg_v: Option<u64>,
    ) -> (r: Self)
        ensures
            r@ == (InverterV {
                serial: serial@,
                data_time,
                freq_hz,
                i_3phsum_a,
                i_mppt1_a,
                ltea_3phsum_kwh,
                p_3phsum_kw,
                p_mppt1_kw,
                stat_ind,
                t_htsnk_degc,
                v_mppt1_v,
                vln_3phavg_v,
            }),
    {
        Inverter {
            serial: String::from_str(serial),
            data_time,
            freq_hz,
            i_3phsum_a,
            i_mppt1_a,
            ltea_3phsum_kwh,
            p_3phsum_kw,
            p_mppt1_kw,
            stat_ind,
            t_htsnk_degc,
            v_mppt1_v,
            vln_3phavg_v,
        }
    }

    /// Whether this inverter was actually observed: a reading with an empty
    /// serial is the sentinel and must never be persisted.
    pub fn is_observed(&self) -> (b: bool)
        ensures
            b == (self@.serial.len() > 0),
    {
        !self.serial.as_str().is_empty()
    }
}

/// A whole snapshot: one reading per singular category plus the inverters,
/// either freshly decoded from a poll or read back as the latest persisted
/// state.
pub struct Pvs6DevicesResponse {
    pub supervisor: Supervisor,
    pub cons_meter: ConsumptionMeter,
    pub prod_meter: ProductionMeter,
    pub inverters: Vec<Inverter>,
}

impl View for Pvs6DevicesResponse {
    type V = SnapshotV;

    open spec fn view(&self) -> SnapshotV {
        SnapshotV {
            supervisor: self.supervisor@,
            cons_meter: self.cons_meter@,
            prod_meter: self.prod_meter@,
            inverters: self.inverters@.map_values(|inv: Inverter| inv@),
        }
    }
}

impl Pvs6DevicesResponse {
    /// The all-sentinel snapshot: nothing observed, nothing persisted.
    pub fn new() -> (r: Self)
        ensures
            r@.supervisor == SupervisorV::sentinel(),
            r@.cons_meter == ConsumptionMeterV::sentinel(),
            r@.prod_meter == ProductionMeterV::sentinel(),
            r@.inverters =~= Seq::<InverterV>::empty(),
    {
        let r = Pvs6DevicesResponse {
            supervisor: Supervisor::new(),
            cons_meter: ConsumptionMeter::new(),
            prod_meter: ProductionMeter::new(),
            inverters: Vec::new(),
        };
        proof {
            assert(r@.inverters =~= Seq::<InverterV>::empty());
        }
        r
    }

    pub fn set_values(
        supervisor: Supervisor,
        cons_meter: ConsumptionMeter,
        prod_meter: ProductionMeter,
        inverters: Vec<Inverter>,
    ) -> (r: Self)
        ensures
            r@.supervisor == supervisor@,
            r@.cons_meter == cons_meter@,
            r@.prod_meter == prod_meter@,
            r@.inverters == inverters@.map_values(|inv: Inverter| inv@),
    {
        Pvs6DevicesResponse { supervisor, cons_meter, prod_meter, inverters }
    }
}

} // verus!
