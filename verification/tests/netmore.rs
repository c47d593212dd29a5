use chirpstack::adr::netmore::{data_rate_to_req_snr, Algorithm};
use chirpstack::adr::{Handler, MacVersion, Request, Response, UplinkHistory};

fn base_request() -> Request {
    Request {
        dev_eui: 0x0102030405060708,
        mac_version: MacVersion::LORAWAN_1_0_3,
        adr: true,
        dr: 3,
        min_dr: 0,
        max_dr: 5,
        tx_power_index: 2,
        min_tx_power_index: 0,
        max_tx_power_index: 5,
        nb_trans: 1,
        installation_margin: 0,
        skip_fcnt_check: false,
        uplink_history: Vec::new(),
    }
}

/// A history of `n` samples with consecutive frame counters (no loss) and a
/// constant SNR, in tenths of a dB.
fn flat_history(n: u32, max_snr: i32) -> Vec<UplinkHistory> {
    let mut h = Vec::new();
    let mut i: u32 = 0;
    while i < n {
        h.push(UplinkHistory { f_cnt: i + 1, max_snr });
        i += 1;
    }
    h
}

#[test]
fn test_disabled_is_pass_through() {
    let a = Algorithm::new();
    let mut req = base_request();
    req.adr = false;
    req.dr = 7;
    req.tx_power_index = 9;
    req.nb_trans = 0;
    req.uplink_history = flat_history(20, -50);
    let resp = a.handle(&req);
    assert_eq!(resp, Response { dr: 7, tx_power_index: 9, nb_trans: 0 });
}

#[test]
fn test_dr_above_max_clamps_and_exits_early() {
    let a = Algorithm::new();
    let mut req = base_request();
    req.dr = 6;
    req.max_dr = 5;
    req.tx_power_index = 2;
    req.min_tx_power_index = 0;
    req.nb_trans = 2;
    let resp = a.handle(&req);
    assert_eq!(resp, Response { dr: 5, tx_power_index: 0, nb_trans: 1 });
}

#[test]
fn test_dr_below_min_clamps_and_exits_early() {
    let a = Algorithm::new();
    let mut req = base_request();
    req.dr = 1;
    req.min_dr = 2;
    req.nb_trans = 3;
    req.uplink_history = flat_history(20, -50);
    let resp = a.handle(&req);
    assert_eq!(resp, Response { dr: 2, tx_power_index: 0, nb_trans: 1 });
}

#[test]
fn test_tx_power_out_of_bounds_clamps_and_exits_early() {
    let a = Algorithm::new();
    let mut req = base_request();
    req.tx_power_index = 9;
    req.max_tx_power_index = 5;
    req.nb_trans = 3;
    let resp = a.handle(&req);
    assert_eq!(resp, Response { dr: 3, tx_power_index: 5, nb_trans: 1 });
}

#[test]
fn test_packet_loss_percentage() {
    let a = Algorithm::new();
    let mut req = base_request();
    req.uplink_history = vec![
        UplinkHistory { f_cnt: 10, max_snr: -50 },
        UplinkHistory { f_cnt: 11, max_snr: -50 },
        UplinkHistory { f_cnt: 13, max_snr: -50 },
        UplinkHistory { f_cnt: 14, max_snr: -50 },
    ];
    // One gap of one frame over four samples: 25%, in hundredths of a percent.
    assert_eq!(a.get_packet_loss_percentage(&req), 2500);
}

#[test]
fn test_packet_loss_empty_history() {
    let a = Algorithm::new();
    let req = base_request();
    assert_eq!(a.get_packet_loss_percentage(&req), 0);
}

#[test]
fn test_nb_trans_table() {
    let a = Algorithm::new();
    // Bands: below 5%, below 10%, below 30%, 30% and up, in hundredths of
    // a percent; columns: clamped current count 1, 2, 3.
    let expected: [[u8; 3]; 4] = [[0, 1, 2], [1, 2, 3], [2, 3, 4], [4, 4, 4]];
    let band_samples: [u64; 4] = [0, 500, 1000, 3000];
    for (row, loss) in band_samples.iter().enumerate() {
        for col in 0..3u8 {
            assert_eq!(a.get_nb_trans(col + 1, *loss), expected[row][col as usize]);
        }
    }
    // Edges of the bands.
    assert_eq!(a.get_nb_trans(1, 499), 0);
    assert_eq!(a.get_nb_trans(1, 999), 1);
    assert_eq!(a.get_nb_trans(1, 2999), 2);
    // The current count is clamped into 1..=3 before indexing.
    assert_eq!(a.get_nb_trans(0, 0), 0);
    assert_eq!(a.get_nb_trans(9, 0), 2);
}

#[test]
fn test_required_snr_table() {
    assert_eq!(data_rate_to_req_snr(0), -200);
    assert_eq!(data_rate_to_req_snr(1), -175);
    assert_eq!(data_rate_to_req_snr(2), -150);
    assert_eq!(data_rate_to_req_snr(3), -125);
    assert_eq!(data_rate_to_req_snr(4), -100);
    assert_eq!(data_rate_to_req_snr(5), -75);
}

#[test]
fn test_required_history_count() {
    let a = Algorithm::new();
    assert_eq!(a.required_history_count(), 20);
}

#[test]
fn test_name_and_id() {
    let a = Algorithm::new();
    assert_eq!(<Algorithm as Handler>::get_name(&a), "Netmore ADR algorithm");
    assert_eq!(<Algorithm as Handler>::get_id(&a), "netmore");
}

#[test]
fn test_max_snr_excludes_recent_five() {
    let a = Algorithm::new();
    let mut req = base_request();
    // The best sample sits among the five most recent and must not count.
    let mut h = flat_history(20, -80);
    h[17].max_snr = -10;
    h[3].max_snr = -60;
    req.uplink_history = h;
    assert_eq!(a.get_max_snr(&req), -60);
}

#[test]
fn test_max_snr_short_history_is_sentinel() {
    let a = Algorithm::new();
    let mut req = base_request();
    req.uplink_history = flat_history(4, -50);
    assert_eq!(a.get_max_snr(&req), -9990);
}

#[test]
fn test_short_history_skips_retuning() {
    let a = Algorithm::new();
    let mut req = base_request();
    // Nineteen samples with heavy loss: a full window would step down the
    // data rate, a short one changes nothing (rate 3 is above the floor).
    let mut h = Vec::new();
    for i in 0..19u32 {
        h.push(UplinkHistory { f_cnt: 10 * i, max_snr: -200 });
    }
    req.uplink_history = h;
    req.nb_trans = 3;
    let resp = a.handle(&req);
    assert_eq!(resp, Response { dr: 3, tx_power_index: 2, nb_trans: 3 });
}

#[test]
fn test_rate_floor_applies_without_full_window() {
    let a = Algorithm::new();
    let mut req = base_request();
    req.dr = 1;
    req.nb_trans = 3;
    req.uplink_history = flat_history(10, -200);
    let resp = a.handle(&req);
    assert_eq!(resp, Response { dr: 1, tx_power_index: 2, nb_trans: 1 });
}

#[test]
fn test_low_rate_escape_applies_without_full_window() {
    let a = Algorithm::new();
    let mut req = base_request();
    req.dr = 0;
    req.min_dr = 0;
    req.nb_trans = 2;
    // Baseline -100 exceeds the rate-1 requirement of -175.
    req.uplink_history = flat_history(10, -100);
    let resp = a.handle(&req);
    assert_eq!(resp, Response { dr: 1, tx_power_index: 0, nb_trans: 1 });
}

#[test]
fn test_full_window_zero_loss_keeps_three_at_two() {
    let a = Algorithm::new();
    let mut req = base_request();
    req.nb_trans = 3;
    req.uplink_history = flat_history(20, -100);
    // Desired count for no loss at a current count of three is two; two is
    // not above three, so no power reset fires.
    let resp = a.handle(&req);
    assert_eq!(resp, Response { dr: 3, tx_power_index: 2, nb_trans: 2 });
}

#[test]
fn test_heavy_loss_steps_rate_down() {
    let a = Algorithm::new();
    let mut req = base_request();
    req.nb_trans = 3;
    // Gaps everywhere: loss far above 30%, desired count 4 exceeds the
    // current count, so power resets to full, and exceeds the ceiling of
    // 3, so one rate down and the climb restarts.
    let mut h = Vec::new();
    for i in 0..20u32 {
        h.push(UplinkHistory { f_cnt: 10 * i + 1, max_snr: -200 });
    }
    req.uplink_history = h;
    let resp = a.handle(&req);
    assert_eq!(resp, Response { dr: 2, tx_power_index: 0, nb_trans: 1 });
}

#[test]
fn test_skip_fcnt_check_forces_step_down() {
    let a = Algorithm::new();
    let mut req = base_request();
    req.skip_fcnt_check = true;
    req.nb_trans = 3;
    // No loss, current count three: desired is two, above the ceiling of
    // one, so the step-down branch fires even on a clean link.
    req.uplink_history = flat_history(20, -200);
    let resp = a.handle(&req);
    assert_eq!(resp, Response { dr: 2, tx_power_index: 2, nb_trans: 1 });
}

#[test]
fn test_skip_fcnt_check_caps_at_one() {
    let a = Algorithm::new();
    let mut req = base_request();
    req.skip_fcnt_check = true;
    req.nb_trans = 2;
    // Desired count one stays within the ceiling: no step-down.
    req.uplink_history = flat_history(20, -200);
    let resp = a.handle(&req);
    assert_eq!(resp, Response { dr: 3, tx_power_index: 2, nb_trans: 1 });
}

#[test]
fn test_good_link_at_max_dr_gives_up_power() {
    let a = Algorithm::new();
    let mut req = base_request();
    req.dr = 5;
    req.nb_trans = 1;
    // Desired count zero; at the top rate with baseline -50 above
    // -75 + 0 + 20 the power index steps up by one.
    req.uplink_history = flat_history(20, -50);
    let resp = a.handle(&req);
    assert_eq!(resp, Response { dr: 5, tx_power_index: 3, nb_trans: 1 });
}

#[test]
fn test_good_link_below_max_dr_raises_rate() {
    let a = Algorithm::new();
    let mut req = base_request();
    req.dr = 3;
    req.nb_trans = 1;
    // Desired count zero; baseline -90 above the rate-4 requirement -100,
    // so the rate rises, the count restarts at two, power goes to full.
    req.uplink_history = flat_history(20, -90);
    let resp = a.handle(&req);
    assert_eq!(resp, Response { dr: 4, tx_power_index: 0, nb_trans: 2 });
}

#[test]
fn test_power_step_depends_on_mac_version() {
    let a = Algorithm::new();
    let mut req = base_request();
    req.dr = 5;
    req.nb_trans = 1;
    // Baseline -50 exceeds -75 + 0 + 20 but not -75 + 0 + 30: the newer
    // revisions give up power, the two legacy revisions do not.
    req.uplink_history = flat_history(20, -50);
    req.mac_version = MacVersion::LORAWAN_1_1_0;
    let resp = a.handle(&req);
    assert_eq!(resp.tx_power_index, 3);
    req.mac_version = MacVersion::LORAWAN_1_0_0;
    let resp = a.handle(&req);
    assert_eq!(resp.tx_power_index, 2);
}

#[test]
fn test_no_rate_raise_without_snr_headroom() {
    let a = Algorithm::new();
    let mut req = base_request();
    req.dr = 3;
    req.nb_trans = 1;
    // Desired count zero but baseline -120 is below the rate-4
    // requirement -100: everything stays.
    req.uplink_history = flat_history(20, -120);
    let resp = a.handle(&req);
    assert_eq!(resp, Response { dr: 3, tx_power_index: 2, nb_trans: 1 });
}
