use vocal_analyzer::osc::{
    join_halves, parameter_bundle, quantize, quantize_formant, split_halves, Level, Parameter,
    FORMANT_CEILING_HZ, FORMANT_SLOTS, HALF_MAX, HIGHEST_NOTE, LOWEST_NOTE, SCALE_MAX,
};

#[test]
fn split_gives_the_low_and_the_high_seven_bits() {
    assert_eq!(split_halves(0), (0, 0));
    assert_eq!(split_halves(1), (1, 0));
    assert_eq!(split_halves(127), (127, 0));
    assert_eq!(split_halves(128), (0, 1));
    assert_eq!(split_halves(0x3FFF), (127, 127));
    assert_eq!(split_halves(8191), (127, 63));
    assert_eq!(split_halves(8192), (0, 64));
    assert_eq!(split_halves(1000), (104, 7));
}

#[test]
fn split_drops_the_bits_above_the_fourteenth() {
    assert_eq!(split_halves(0x4000), (0, 0));
    assert_eq!(split_halves(0x4001), (1, 0));
    assert_eq!(split_halves(u32::MAX), (127, 127));
}

#[test]
fn join_puts_the_halves_together() {
    assert_eq!(join_halves(0, 0), 0);
    assert_eq!(join_halves(104, 7), 1000);
    assert_eq!(join_halves(127, 127), 16383);
    assert_eq!(join_halves(255, 255), 255 + 128 * 255);
}

#[test]
fn every_quantized_value_survives_the_round_trip() {
    for q in 0..=SCALE_MAX {
        let (low, high) = split_halves(q);
        assert!(low <= HALF_MAX && high <= HALF_MAX);
        assert_eq!(join_halves(low, high), q);
    }
}

#[test]
fn quantize_scales_a_ratio_to_fourteen_bits() {
    assert_eq!(quantize(0, 1), 0);
    assert_eq!(quantize(1, 1), 16383);
    assert_eq!(quantize(1, 2), 8191);
    assert_eq!(quantize(1, 3), 5461);
    assert_eq!(quantize(2, 3), 10922);
    assert_eq!(quantize(1, 16383), 1);
    assert_eq!(quantize(1, 16384), 0);
    assert_eq!(quantize(u32::MAX, u32::MAX), 16383);
    assert_eq!(quantize(u32::MAX - 1, u32::MAX), 16382);
}

#[test]
fn the_round_trip_loses_less_than_one_step() {
    let ratios = [(0u32, 1u32), (1, 1), (1, 2), (1, 3), (2, 3), (5, 7), (999, 1000), (1, 100000)];
    for (n, d) in ratios {
        let x = n as f64 / d as f64;
        let (low, high) = split_halves(quantize(n, d));
        let low = low as f64 / 127.0;
        let high = high as f64 / 127.0;
        let back = (low * 127.0 + high * 127.0 * 128.0) / 16383.0;
        assert!(back <= x);
        assert!(x - back < 1.0 / 16383.0);
    }
}

#[test]
fn formants_are_held_to_the_ceiling() {
    assert_eq!(quantize_formant(0), 0);
    assert_eq!(quantize_formant(700), 700);
    assert_eq!(quantize_formant(8192), 8192);
    assert_eq!(quantize_formant(8193), 8192);
    assert_eq!(quantize_formant(u32::MAX), 8192);
    assert_eq!(FORMANT_CEILING_HZ, 8192);
}

#[test]
fn the_pitch_is_normalized_between_e2_and_g5() {
    assert_eq!(LOWEST_NOTE, 40);
    assert_eq!(HIGHEST_NOTE, 79);
}

fn parameter(address: &str, level: Level<f32>) -> Parameter<f32> {
    Parameter { address: address.to_string(), level }
}

#[test]
fn a_bundle_names_gains_pitch_and_formants_in_order() {
    let gains: Vec<f32> = (1..=20).map(|k| k as f32 / 20.0).collect();
    let bundle = parameter_bundle(Some(1000), &gains, &vec![700, 1200]);
    assert_eq!(bundle.len(), 26);
    for k in 1..=20 {
        assert_eq!(bundle[k - 1].address, format!("/avatar/parameters/G{}", k));
        assert_eq!(bundle[k - 1].level, Level::Gain(k as f32 / 20.0));
    }
    assert_eq!(bundle[20], parameter("/avatar/parameters/FT_L", Level::Half(104)));
    assert_eq!(bundle[21], parameter("/avatar/parameters/FT_H", Level::Half(7)));
    assert_eq!(bundle[22], parameter("/avatar/parameters/F1_L", Level::Half(60)));
    assert_eq!(bundle[23], parameter("/avatar/parameters/F1_H", Level::Half(5)));
    assert_eq!(bundle[24], parameter("/avatar/parameters/F2_L", Level::Half(48)));
    assert_eq!(bundle[25], parameter("/avatar/parameters/F2_H", Level::Half(9)));
}

#[test]
fn an_unvoiced_cycle_sends_zero_for_the_pitch() {
    let bundle = parameter_bundle(None, &vec![0.0f32; 20], &Vec::new());
    assert_eq!(bundle.len(), 22);
    assert_eq!(bundle[20], parameter("/avatar/parameters/FT_L", Level::Half(0)));
    assert_eq!(bundle[21], parameter("/avatar/parameters/FT_H", Level::Half(0)));
    assert!(bundle[..20].iter().all(|p| p.level == Level::Gain(0.0)));
}

#[test]
fn only_the_first_four_formants_are_sent() {
    let bundle: Vec<Parameter<f32>> =
        parameter_bundle(Some(0), &Vec::new(), &vec![300, 900, 2500, 3500, 4500, 5500]);
    assert_eq!(FORMANT_SLOTS, 4);
    assert_eq!(bundle.len(), 2 + 8);
    let addresses: Vec<&str> = bundle.iter().map(|p| p.address.as_str()).collect();
    assert_eq!(
        addresses,
        vec![
            "/avatar/parameters/FT_L",
            "/avatar/parameters/FT_H",
            "/avatar/parameters/F1_L",
            "/avatar/parameters/F1_H",
            "/avatar/parameters/F2_L",
            "/avatar/parameters/F2_H",
            "/avatar/parameters/F3_L",
            "/avatar/parameters/F3_H",
            "/avatar/parameters/F4_L",
            "/avatar/parameters/F4_H",
        ]
    );
    assert_eq!(bundle[8].level, Level::Half((3500 % 128) as u8));
    assert_eq!(bundle[9].level, Level::Half((3500 / 128) as u8));
}

#[test]
fn a_formant_above_the_ceiling_is_sent_as_the_ceiling() {
    let bundle: Vec<Parameter<f32>> = parameter_bundle(None, &Vec::new(), &vec![9000]);
    assert_eq!(bundle[2].level, Level::Half(0));
    assert_eq!(bundle[3].level, Level::Half(64));
}

#[test]
fn gain_addresses_count_in_decimal_from_one() {
    let bundle = parameter_bundle(None, &vec![0u8; 120], &Vec::new());
    assert_eq!(bundle[0].address, "/avatar/parameters/G1");
    assert_eq!(bundle[8].address, "/avatar/parameters/G9");
    assert_eq!(bundle[9].address, "/avatar/parameters/G10");
    assert_eq!(bundle[99].address, "/avatar/parameters/G100");
    assert_eq!(bundle[119].address, "/avatar/parameters/G120");
}

#[test]
fn a_pitch_beyond_full_scale_keeps_its_low_fourteen_bits() {
    let bundle: Vec<Parameter<f32>> = parameter_bundle(Some(0x4000 + 129), &Vec::new(), &Vec::new());
    assert_eq!(bundle[0].level, Level::Half(1));
    assert_eq!(bundle[1].level, Level::Half(1));
}
