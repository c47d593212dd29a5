//! The "netmore" adaptive data-rate algorithm.
//!
//! A deterministic feedback controller: from the uplink history it derives a
//! packet-loss figure and an SNR baseline, and from those a recommended data
//! rate, transmit-power index and retransmission count. Every step of the
//! decision procedure is stated as a spec function, and `handle` is proved
//! to compute exactly their composition.

use vstd::prelude::*;

use crate::adr::{history_counters_increase, Handler, MacVersion, Request, Response, UplinkHistory};

verus! {

/// Required SNR to decode at a data rate, in tenths of a dB: 2.5 dB steps
/// from -20.0 dB at rate 0 up to -7.5 dB at rate 5.
pub open spec fn spec_req_snr(rate: int) -> int
    recommends
        0 <= rate <= 5,
{
    25 * rate - 200
}

/// Required SNR to decode at the data rate, in tenths of a dB. A rate
/// outside the supported table is a regional-configuration fault and is
/// excluded by the precondition.
pub fn data_rate_to_req_snr(rate: u8) -> (r: i32)
    requires
        rate <= 5,
    ensures
        r == spec_req_snr(rate as int),
{
    match rate {
        5 => -75,
        4 => -100,
        3 => -125,
        2 => -150,
        1 => -175,
        _ => -200,
    }
}

/// Frames missing from a history: the sum, over consecutive samples, of the
/// frame-counter gap beyond the expected step of one.
pub open spec fn spec_lost_packets(h: Seq<UplinkHistory>) -> int
    decreases h.len(),
{
    if h.len() <= 1 {
        0
    } else {
        spec_lost_packets(h.drop_last()) + h[h.len() - 1].f_cnt - h[h.len() - 2].f_cnt - 1
    }
}

/// Packet loss over a history, in hundredths of a percent: lost frames
/// divided by the number of samples, times one hundred percent. An empty
/// history means no loss.
pub open spec fn spec_packet_loss(h: Seq<UplinkHistory>) -> int {
    if h.len() == 0 {
        0
    } else {
        spec_lost_packets(h) * 10000 / h.len() as int
    }
}

/// Carrying the loss figure in hundredths of a percent loses nothing: the
/// truncated figure falls below a band boundary exactly when the
/// percentage `lost / len * 100` itself does, so the loss-band matrix
/// below classifies exactly as it would on the exact percentage.
pub proof fn lemma_loss_bands_exact(lost: int, len: int)
    requires
        0 <= lost,
        1 <= len,
    ensures
        (lost * 10000 / len < 500) <==> (lost * 100 < 5 * len),
        (lost * 10000 / len < 1000) <==> (lost * 100 < 10 * len),
        (lost * 10000 / len < 3000) <==> (lost * 100 < 30 * len),
{
    assert((lost * 10000 / len < 500) <==> (lost * 100 < 5 * len)) by (nonlinear_arith)
        requires
            0 <= lost,
            1 <= len,
    ;
    assert((lost * 10000 / len < 1000) <==> (lost * 100 < 10 * len)) by (nonlinear_arith)
        requires
            0 <= lost,
            1 <= len,
    ;
    assert((lost * 10000 / len < 3000) <==> (lost * 100 < 30 * len)) by (nonlinear_arith)
        requires
            0 <= lost,
            1 <= len,
    ;
}

/// With strictly increasing counters the gap sum telescopes: it is the span
/// from the first to the last counter minus the expected steps, and so is
/// never negative and never above the last counter.
proof fn lemma_lost_packets_closed_form(h: Seq<UplinkHistory>)
    requires
        history_counters_increase(h),
        h.len() >= 1,
    ensures
        spec_lost_packets(h) == h[h.len() - 1].f_cnt - h[0].f_cnt - (h.len() - 1),
        0 <= spec_lost_packets(h) <= h[h.len() - 1].f_cnt,
    decreases h.len(),
{
    if h.len() > 1 {
        assert(history_counters_increase(h.drop_last()));
        lemma_lost_packets_closed_form(h.drop_last());
    }
}

/// Samples eligible for the historical SNR baseline: all but the five most
/// recent, which may already reflect the very change under evaluation.
pub open spec fn spec_baseline_window(h: Seq<UplinkHistory>) -> Seq<UplinkHistory> {
    if h.len() >= 5 {
        h.take(h.len() - 5)
    } else {
        Seq::empty()
    }
}

/// Greatest `max_snr` of a sequence, in tenths of a dB. An empty sequence
/// yields the very-low sentinel meaning "insufficient evidence, do not
/// relax".
pub open spec fn spec_snr_seq_max(h: Seq<UplinkHistory>) -> int
    decreases h.len(),
{
    if h.len() == 0 {
        -9990
    } else if h.last().max_snr > spec_snr_seq_max(h.drop_last()) {
        h.last().max_snr as int
    } else {
        spec_snr_seq_max(h.drop_last())
    }
}

/// Historical SNR baseline of a request's history: the greatest `max_snr`
/// outside the five most recent samples.
pub open spec fn spec_max_snr(h: Seq<UplinkHistory>) -> int {
    spec_snr_seq_max(spec_baseline_window(h))
}

/// Current retransmission count clamped into the table range 1..=3.
pub open spec fn spec_clamp_nb_trans(n: u8) -> u8 {
    if n < 1 {
        1
    } else if n > 3 {
        3
    } else {
        n
    }
}

/// Desired retransmission count from the fixed matrix indexed by loss band
/// and clamped current count. `loss` is in hundredths of a percent, so the
/// bands below five, ten and thirty percent end at 500, 1000 and 3000.
pub open spec fn spec_nb_trans(current: u8, loss: int) -> u8 {
    let col = spec_clamp_nb_trans(current);
    if loss < 500 {
        if col == 1 {
            0
        } else if col == 2 {
            1
        } else {
            2
        }
    } else if loss < 1000 {
        if col == 1 {
            1
        } else if col == 2 {
            2
        } else {
            3
        }
    } else if loss < 3000 {
        if col == 1 {
            2
        } else if col == 2 {
            3
        } else {
            4
        }
    } else {
        4
    }
}

/// A value clamped into an inclusive range.
pub open spec fn spec_clamp_u8(v: u8, lo: u8, hi: u8) -> u8
    recommends
        lo <= hi,
{
    if v < lo {
        lo
    } else if v > hi {
        hi
    } else {
        v
    }
}

/// The smaller of two values.
pub open spec fn spec_min_u8(a: u8, b: u8) -> u8 {
    if a < b {
        a
    } else {
        b
    }
}

/// One data rate down, floored at the minimum.
pub open spec fn spec_step_down_dr(dr: u8, min_dr: u8) -> u8 {
    if dr > min_dr {
        (dr - 1) as u8
    } else {
        min_dr
    }
}

/// One transmit-power index up (less radiated power), capped at the maximum.
pub open spec fn spec_step_up_tx(tx: u8, max_tx: u8) -> u8 {
    if tx < max_tx {
        (tx + 1) as u8
    } else {
        max_tx
    }
}

/// Extra SNR headroom demanded before giving up transmit power, in tenths
/// of a dB: 3 dB for the two legacy MAC revisions, 2 dB otherwise.
pub open spec fn spec_power_step(v: MacVersion) -> int {
    match v {
        MacVersion::LORAWAN_1_0_0 => 30,
        MacVersion::LORAWAN_1_0_1 => 30,
        _ => 20,
    }
}

/// The full re-tuning step, reached only with a complete history window and
/// no bound correction, so the response still carries the request's current
/// values. `calc` is the desired retransmission count and `snr_max` the
/// historical SNR baseline in tenths of a dB.
pub open spec fn spec_retune(req: Request, calc: u8, snr_max: int) -> Response {
    let tx1 = if calc > req.nb_trans {
        req.min_tx_power_index
    } else {
        req.tx_power_index
    };
    let max_nb: u8 = if req.skip_fcnt_check {
        1u8
    } else {
        3u8
    };
    if calc > max_nb {
        Response {
            dr: spec_step_down_dr(req.dr, req.min_dr),
            tx_power_index: tx1,
            nb_trans: 1u8,
        }
    } else if calc < 1 {
        if req.dr == req.max_dr {
            if snr_max > spec_req_snr(req.dr as int) + req.installation_margin
                + spec_power_step(req.mac_version) {
                Response {
                    dr: req.dr,
                    tx_power_index: spec_step_up_tx(req.tx_power_index, req.max_tx_power_index),
                    nb_trans: 1u8,
                }
            } else {
                Response { dr: req.dr, tx_power_index: tx1, nb_trans: 1u8 }
            }
        } else if snr_max > spec_req_snr(req.dr + 1) + req.installation_margin {
            Response {
                dr: (req.dr + 1) as u8,
                tx_power_index: req.min_tx_power_index,
                nb_trans: spec_min_u8(2u8, max_nb),
            }
        } else {
            Response { dr: req.dr, tx_power_index: tx1, nb_trans: 1u8 }
        }
    } else {
        Response { dr: req.dr, tx_power_index: tx1, nb_trans: spec_min_u8(calc, max_nb) }
    }
}

/// Rate floor: at the two most robust data rates a single transmission is
/// always enough, whatever an earlier step computed.
pub open spec fn spec_rate_floor(r: Response) -> Response {
    if r.dr == 0 || r.dr == 1 {
        Response { dr: r.dr, tx_power_index: r.tx_power_index, nb_trans: 1u8 }
    } else {
        r
    }
}

/// Escape from the lowest rate: with evidence that rate 1 would be decoded,
/// leave rate 0 at full power.
pub open spec fn spec_low_rate_escape(req: Request, snr_max: int, r: Response) -> Response {
    if r.dr == 0 && snr_max > spec_req_snr(1) + req.installation_margin {
        Response {
            dr: spec_min_u8(1u8, req.max_dr),
            tx_power_index: req.min_tx_power_index,
            nb_trans: r.nb_trans,
        }
    } else {
        r
    }
}

/// The whole decision procedure: pass-through when disabled; clamp into
/// bounds with an early exit on any correction; otherwise the desired
/// retransmission count and SNR baseline feed the re-tuning step, gated on
/// a complete history window; the rate floor and the lowest-rate escape
/// apply in every case.
pub open spec fn spec_decide(req: Request) -> Response {
    if !req.adr {
        Response { dr: req.dr, tx_power_index: req.tx_power_index, nb_trans: req.nb_trans }
    } else {
        let dr1 = spec_clamp_u8(req.dr, req.min_dr, req.max_dr);
        let tx_clamped = spec_clamp_u8(
            req.tx_power_index,
            req.min_tx_power_index,
            req.max_tx_power_index,
        );
        let tx1 = if dr1 != req.dr {
            req.min_tx_power_index
        } else {
            tx_clamped
        };
        if dr1 != req.dr || tx1 != req.tx_power_index {
            Response { dr: dr1, tx_power_index: tx1, nb_trans: 1u8 }
        } else {
            let calc = spec_nb_trans(req.nb_trans, spec_packet_loss(req.uplink_history@));
            let snr_max = spec_max_snr(req.uplink_history@);
            let tuned = if req.uplink_history@.len() == 20 {
                spec_retune(req, calc, snr_max)
            } else {
                Response {
                    dr: req.dr,
                    tx_power_index: req.tx_power_index,
                    nb_trans: req.nb_trans,
                }
            };
            spec_low_rate_escape(req, snr_max, spec_rate_floor(tuned))
        }
    }
}

/// The netmore algorithm. It holds no state: each response is a pure
/// function of its request, so evaluations for distinct devices may run
/// concurrently without synchronization.
#[derive(Clone, Copy, Debug)]
pub struct Algorithm {}

impl Algorithm {
    pub fn new() -> Algorithm {
        Algorithm {}
    }

    /// History length the full re-tuning step is gated on.
    pub fn required_history_count(&self) -> (r: usize)
        ensures
            r == 20,
    {
        20
    }

    /// Desired retransmission count for a current count and a packet-loss
    /// figure in hundredths of a percent, from the fixed loss-band matrix.
    pub fn get_nb_trans(&self, current_nb_trans: u8, pkt_loss_rate: u64) -> (r: u8)
        ensures
            r == spec_nb_trans(current_nb_trans, pkt_loss_rate as int),
    {
        let mut current_nb_trans = current_nb_trans;
        if current_nb_trans < 1 {
            current_nb_trans = 1;
        }
        if current_nb_trans > 3 {
            current_nb_trans = 3;
        }

        if pkt_loss_rate < 500 {
            if current_nb_trans == 1 {
                0
            } else if current_nb_trans == 2 {
                1
            } else {
                2
            }
        } else if pkt_loss_rate < 1000 {
            if current_nb_trans == 1 {
                1
            } else if current_nb_trans == 2 {
                2
            } else {
                3
            }
        } else if pkt_loss_rate < 3000 {
            if current_nb_trans == 1 {
                2
            } else if current_nb_trans == 2 {
                3
            } else {
                4
            }
        } else {
            4
        }
    }

    /// Packet loss over the request's history, in hundredths of a percent.
    pub fn get_packet_loss_percentage(&self, req: &Request) -> (r: u64)
        requires
            history_counters_increase(req.uplink_history@),
        ensures
            r == spec_packet_loss(req.uplink_history@),
    {
        let n = req.uplink_history.len();
        if n == 0 {
            return 0;
        }

        let mut lost_packets: u32 = 0;
        let mut i: usize = 1;
        while i < n
            invariant
                1 <= i <= n,
                n == req.uplink_history@.len(),
                history_counters_increase(req.uplink_history@),
                lost_packets == spec_lost_packets(req.uplink_history@.take(i as int)),
            decreases n - i,
        {
            let ghost h = req.uplink_history@;
            proof {
                assert(h.take(i + 1).drop_last() =~= h.take(i as int));
                assert(history_counters_increase(h.take(i + 1)));
                lemma_lost_packets_closed_form(h.take(i + 1));
            }
            let prev = req.uplink_history[i - 1].f_cnt;
            let cur = req.uplink_history[i].f_cnt;
            lost_packets = lost_packets + (cur - prev - 1);
            i = i + 1;
        }
        proof {
            assert(req.uplink_history@.take(n as int) =~= req.uplink_history@);
        }
        ((lost_packets as u64) * 10000) / (n as u64)
    }

    /// Historical SNR baseline of the request, in tenths of a dB: the
    /// greatest `max_snr` outside the five most recent samples, or the
    /// very-low sentinel when no sample is eligible.
    pub fn get_max_snr(&self, req: &Request) -> (r: i32)
        ensures
            r == spec_max_snr(req.uplink_history@),
    {
        let mut max_snr: i32 = -9990;
        let n = req.uplink_history.len();
        let end = if n >= 5 {
            n - 5
        } else {
            0
        };
        assert(spec_baseline_window(req.uplink_history@) =~= req.uplink_history@.take(
            end as int,
        ));
        let mut i: usize = 0;
        while i < end
            invariant
                0 <= i <= end,
                end <= n,
                n == req.uplink_history@.len(),
                max_snr == spec_snr_seq_max(req.uplink_history@.take(end as int).take(i as int)),
            decreases end - i,
        {
            let ghost w = req.uplink_history@.take(end as int);
            proof {
                assert(w.take(i + 1).drop_last() =~= w.take(i as int));
                assert(w.take(i + 1).last() == req.uplink_history@[i as int]);
            }
            let uh_snr = req.uplink_history[i].max_snr;
            if uh_snr > max_snr {
                max_snr = uh_snr;
            }
            i = i + 1;
        }
        proof {
            let w = req.uplink_history@.take(end as int);
            assert(w.take(end as int) =~= w);
        }
        max_snr
    }

    /// The decision procedure, exactly the composition of the step spec
    /// functions: pass-through when disabled; clamp with early exit on any
    /// correction; desired retransmission count and SNR baseline; the full
    /// re-tuning step gated on a complete history window; rate floor and
    /// lowest-rate escape in every case.
    pub fn handle(&self, req: &Request) -> (resp: Response)
        requires
            req.valid(),
        ensures
            resp == spec_decide(*req),
    {
        let mut resp = Response {
            dr: req.dr,
            tx_power_index: req.tx_power_index,
            nb_trans: req.nb_trans,
        };

        // If ADR is disabled, return with current values.
        if !req.adr {
            return resp;
        }

        // Clamp the requested data rate and power index into their bounds.
        resp.dr = clamp_u8(req.dr, req.min_dr, req.max_dr);
        resp.tx_power_index = clamp_u8(
            req.tx_power_index,
            req.min_tx_power_index,
            req.max_tx_power_index,
        );

        // A forced rate change invalidates prior power assumptions: favor
        // the strongest power after it.
        if resp.dr != req.dr {
            resp.tx_power_index = req.min_tx_power_index;
        }

        // A single evaluation never compounds a bound correction with the
        // retransmission and SNR tuning below.
        if resp.dr != req.dr || resp.tx_power_index != req.tx_power_index {
            resp.nb_trans = 1;
            return resp;
        }

        let pkt_loss = self.get_packet_loss_percentage(req);
        let calc_nb_trans = self.get_nb_trans(req.nb_trans, pkt_loss);
        let snr_max = self.get_max_snr(req);

        if req.uplink_history.len() == self.required_history_count() {
            // More retransmissions mean a weakening link: prioritize
            // robustness over power economy before finalizing the count.
            if calc_nb_trans > resp.nb_trans {
                resp.tx_power_index = req.min_tx_power_index;
            }
            resp.nb_trans = calc_nb_trans;

            let max_nb_trans: u8 = if req.skip_fcnt_check {
                1
            } else {
                3
            };

            if resp.nb_trans > max_nb_trans {
                // Too weak even at the retransmission ceiling: one data
                // rate down, floored at the minimum, and restart the climb.
                resp.dr = if resp.dr > req.min_dr {
                    resp.dr - 1
                } else {
                    req.min_dr
                };
                resp.nb_trans = 1;
            } else {
                if resp.nb_trans < 1 {
                    resp.nb_trans = 1;
                    if resp.dr == req.max_dr {
                        let tx_power_step: i64 = match req.mac_version {
                            MacVersion::LORAWAN_1_0_0 | MacVersion::LORAWAN_1_0_1 => 30,
                            _ => 20,
                        };
                        let snr_min: i64 = data_rate_to_req_snr(resp.dr) as i64
                            + req.installation_margin as i64 + tx_power_step;
                        if snr_max as i64 > snr_min {
                            // The link tolerates less power.
                            resp.tx_power_index = if req.tx_power_index
                                < req.max_tx_power_index {
                                req.tx_power_index + 1
                            } else {
                                req.max_tx_power_index
                            };
                        }
                    } else {
                        let snr_min: i64 = data_rate_to_req_snr(resp.dr + 1) as i64
                            + req.installation_margin as i64;
                        if snr_max as i64 > snr_min {
                            resp.dr = resp.dr + 1;
                            resp.nb_trans = 2;
                            resp.tx_power_index = req.min_tx_power_index;
                        }
                    }
                }
                resp.nb_trans = if resp.nb_trans < max_nb_trans {
                    resp.nb_trans
                } else {
                    max_nb_trans
                };
            }
        }

        // Rate floor: the two most robust rates need a single transmission.
        if resp.dr == 0 || resp.dr == 1 {
            resp.nb_trans = 1;
        }

        // Escape from the lowest rate when the baseline shows that rate 1
        // would be decoded.
        let snr_floor: i64 = data_rate_to_req_snr(1) as i64 + req.installation_margin as i64;
        if resp.dr == 0 && snr_max as i64 > snr_floor {
            resp.dr = if req.max_dr < 1 {
                req.max_dr
            } else {
                1
            };
            resp.tx_power_index = req.min_tx_power_index;
        }

        resp
    }
}

/// A value clamped into an inclusive range.
fn clamp_u8(v: u8, lo: u8, hi: u8) -> (r: u8)
    requires
        lo <= hi,
    ensures
        r == spec_clamp_u8(v, lo, hi),
{
    if v < lo {
        lo
    } else if v > hi {
        hi
    } else {
        v
    }
}

impl Algorithm {
    /// Human-readable label of the algorithm.
    pub fn get_name(&self) -> (r: String)
        ensures
            r@ == "Netmore ADR algorithm"@,
    {
        "Netmore ADR algorithm".to_owned()
    }

    /// Stable lowercase identifier the algorithm is selected by.
    pub fn get_id(&self) -> (r: String)
        ensures
            r@ == "netmore"@,
    {
        "netmore".to_owned()
    }
}

impl Handler for Algorithm {
    fn get_name(&self) -> String {
        Algorithm::get_name(self)
    }

    fn get_id(&self) -> String {
        Algorithm::get_id(self)
    }

    fn handle(&self, req: &Request) -> (resp: Response) {
        proof {
            if req.adr {
                lemma_decide_in_bounds(*req);
            }
        }
        Algorithm::handle(self, req)
    }
}

/// A recommendation always lies within the request's bounds, and the
/// retransmission count is only ever left below one where the request
/// already carried it there and no step touched it.
pub proof fn lemma_decide_in_bounds(req: Request)
    requires
        req.valid(),
        req.adr,
    ensures
        req.min_dr <= spec_decide(req).dr <= req.max_dr,
        req.min_tx_power_index <= spec_decide(req).tx_power_index <= req.max_tx_power_index,
        spec_decide(req).nb_trans >= 1 || spec_decide(req).nb_trans == req.nb_trans,
{
}

/// With adaptive control disabled the engine is a pass-through: the
/// response carries the request's current settings, whatever the history.
pub proof fn lemma_disabled_is_pass_through(req: Request)
    requires
        !req.adr,
    ensures
        spec_decide(req) == (Response {
            dr: req.dr,
            tx_power_index: req.tx_power_index,
            nb_trans: req.nb_trans,
        }),
{
}

/// A requested data rate outside the bounds is clamped into them, forces
/// the strongest transmit power, and exits early with a single
/// transmission.
pub proof fn lemma_out_of_range_dr_is_corrected(req: Request)
    requires
        req.valid(),
        req.adr,
        req.dr < req.min_dr || req.dr > req.max_dr,
    ensures
        spec_decide(req) == (Response {
            dr: spec_clamp_u8(req.dr, req.min_dr, req.max_dr),
            tx_power_index: req.min_tx_power_index,
            nb_trans: 1u8,
        }),
{
}

/// Without a history window of exactly twenty samples the re-tuning step
/// never runs: when the bound clamp changes nothing, only the rate floor
/// and the lowest-rate escape apply to the request's current settings.
pub proof fn lemma_short_history_skips_retuning(req: Request)
    requires
        req.valid(),
        req.adr,
        spec_clamp_u8(req.dr, req.min_dr, req.max_dr) == req.dr,
        spec_clamp_u8(req.tx_power_index, req.min_tx_power_index, req.max_tx_power_index)
            == req.tx_power_index,
        req.uplink_history@.len() != 20,
    ensures
        spec_decide(req) == spec_low_rate_escape(
            req,
            spec_max_snr(req.uplink_history@),
            spec_rate_floor(Response {
                dr: req.dr,
                tx_power_index: req.tx_power_index,
                nb_trans: req.nb_trans,
            }),
        ),
{
}

/// Rate floor: any recommendation at data rate 0 or 1 carries a single
/// transmission, overriding whatever an earlier step computed.
pub proof fn lemma_low_rate_forces_single_transmission(req: Request)
    requires
        req.valid(),
        req.adr,
    ensures
        spec_decide(req).dr <= 1 ==> spec_decide(req).nb_trans == 1,
{
}

/// A device that cannot support frame-counter loss detection is capped at
/// a single transmission, so in the re-tuning step any desired count of
/// two or more triggers the data-rate step-down branch: one rate down,
/// floored at the minimum, and the climb restarts at one transmission.
pub proof fn lemma_skip_fcnt_check_steps_down(req: Request, calc: u8, snr_max: int)
    requires
        req.skip_fcnt_check,
        calc >= 2,
    ensures
        spec_retune(req, calc, snr_max) == (Response {
            dr: spec_step_down_dr(req.dr, req.min_dr),
            tx_power_index: if calc > req.nb_trans {
                req.min_tx_power_index
            } else {
                req.tx_power_index
            },
            nb_trans: 1u8,
        }),
{
}

} // verus!
