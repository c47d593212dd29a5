//! Data contract and capability set of the adaptive data-rate engine.
//!
//! An algorithm is handed an immutable snapshot of device and link state and
//! answers with recommended radio settings. Signal quantities are carried in
//! tenths of a dB so that every threshold of the decision procedure is an
//! exact integer.

pub mod netmore;

use vstd::prelude::*;

verus! {

/// One historical uplink observation. Histories are ordered oldest first;
/// the caller guarantees strictly increasing frame counters with an expected
/// step of one, so a larger step means frames were lost.
#[derive(Clone, Copy, Debug, PartialEq, Eq, Structural)]
pub struct UplinkHistory {
    /// Uplink frame counter of the observation.
    pub f_cnt: u32,
    /// Best signal-to-noise ratio heard for the uplink, in tenths of a dB.
    pub max_snr: i32,
}

/// MAC revision of the device. The two oldest revisions use a coarser
/// transmit-power step margin than the later ones.
#[allow(non_camel_case_types)]
#[derive(Clone, Copy, Debug, PartialEq, Eq, Structural)]
pub enum MacVersion {
    LORAWAN_1_0_0,
    LORAWAN_1_0_1,
    LORAWAN_1_0_2,
    LORAWAN_1_0_3,
    LORAWAN_1_0_4,
    LORAWAN_1_1_0,
}

/// Snapshot of device and link state for one evaluation. The engine never
/// mutates or retains it; a response is a pure function of the request.
#[derive(Clone, Debug)]
pub struct Request {
    /// Identifier of the device under evaluation, an EUI-64 as an integer.
    pub dev_eui: u64,
    pub mac_version: MacVersion,
    /// When false the engine hands the current values back unchanged.
    pub adr: bool,
    pub dr: u8,
    pub min_dr: u8,
    pub max_dr: u8,
    /// Transmit-power index; a lower index means higher radiated power.
    pub tx_power_index: u8,
    pub min_tx_power_index: u8,
    pub max_tx_power_index: u8,
    /// Current retransmission count, intended range 1..=3 but not pre-clamped.
    pub nb_trans: u8,
    /// Safety margin added to required-SNR thresholds, in tenths of a dB.
    pub installation_margin: i32,
    /// True when the device does not support frame-counter based loss
    /// detection, so only a single transmission is ever allowed.
    pub skip_fcnt_check: bool,
    /// Past observations, oldest first.
    pub uplink_history: Vec<UplinkHistory>,
}

/// Radio settings recommended by an algorithm.
#[derive(Clone, Copy, Debug, PartialEq, Eq, Structural)]
pub struct Response {
    pub dr: u8,
    pub tx_power_index: u8,
    pub nb_trans: u8,
}

/// The frame counters of a history run strictly upward, oldest first.
pub open spec fn history_counters_increase(h: Seq<UplinkHistory>) -> bool {
    forall|i: int| #![trigger h[i]] 1 <= i < h.len() ==> h[i - 1].f_cnt < h[i].f_cnt
}

impl Request {
    /// A request an algorithm is expected to work on: bounds are ordered,
    /// every data rate the region allows has a required-SNR entry, and the
    /// history counters run strictly upward.
    pub open spec fn valid(&self) -> bool {
        &&& self.min_dr <= self.max_dr
        &&& self.max_dr <= 5
        &&& self.min_tx_power_index <= self.max_tx_power_index
        &&& history_counters_increase(self.uplink_history@)
    }
}

/// Capability set of an adaptive data-rate algorithm: a human-readable
/// label, a stable identifier an external registry selects it by, and the
/// decision function itself.
pub trait Handler {
    /// Human-readable label of the algorithm.
    fn get_name(&self) -> String;

    /// Stable lowercase identifier used for configuration and selection.
    fn get_id(&self) -> String;

    /// Recommend new radio settings for the request. With adaptive control
    /// disabled the current settings come back unchanged; otherwise the
    /// recommendation lies within the request's bounds, and the
    /// retransmission count is only ever left below one where the request
    /// already carried it and no step of the procedure touched it.
    fn handle(&self, req: &Request) -> (resp: Response)
        requires
            req.valid(),
        ensures
            !req.adr ==> resp == (Response {
                dr: req.dr,
                tx_power_index: req.tx_power_index,
                nb_trans: req.nb_trans,
            }),
            req.adr ==> req.min_dr <= resp.dr <= req.max_dr,
            req.adr ==> req.min_tx_power_index <= resp.tx_power_index
                <= req.max_tx_power_index,
            req.adr ==> resp.nb_trans >= 1 || resp.nb_trans == req.nb_trans,
    ;
}

} // verus!
