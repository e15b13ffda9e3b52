use leptos_leaflet_velocity::encode::{encode_component, encode_header, encode_options};
use leptos_leaflet_velocity::grid::{VelocityData, VelocityDataHeader, VelocityLayerOptions};
use leptos_leaflet_velocity::number::{is_nan, sanitize};

fn header(parameter_number: usize) -> VelocityDataHeader {
    VelocityDataHeader {
        parameter_number,
        parameter_category: 2,
        dx: 90.0f64.to_bits(),
        dy: 45.0f64.to_bits(),
        nx: 5,
        ny: 5,
        la1: 90.0f64.to_bits(),
        la2: (-90.0f64).to_bits(),
        lo1: (-180.0f64).to_bits(),
        lo2: 180.0f64.to_bits(),
    }
}

fn bits(values: &[f64]) -> Vec<u64> {
    values.iter().map(|v| v.to_bits()).collect()
}

fn eastward() -> Vec<f64> {
    vec![
        0.0, 0.0, 0.0, 0.0, 0.0, 0.0, 21.0, 30.0, 21.0, 0.0, 0.0, 0.0, 0.0, 0.0, 0.0, 0.0, -21.0,
        -30.0, -21.0, 0.0, 0.0, 0.0, 0.0, 0.0, 0.0,
    ]
}

fn northward() -> Vec<f64> {
    vec![
        0.0, 0.0, 0.0, 0.0, 0.0, 0.0, 21.0, 0.0, -21.0, 0.0, 0.0, 30.0, 0.0, -30.0, 0.0, 0.0, 21.0,
        0.0, -21.0, 0.0, 0.0, 0.0, 0.0, 0.0, 0.0,
    ]
}

fn layer_options() -> VelocityLayerOptions {
    VelocityLayerOptions {
        display_values: true,
        max_velocity: 30.0f64.to_bits(),
        frame_rate: 15.0f64.to_bits(),
        color_scale: vec!["rgb(36,104,180)".to_string(), "rgb(180,0,35)".to_string()],
        line_width: 1.5f64.to_bits(),
        particle_multiplier: (1.0f64 / 300.0).to_bits(),
        particle_age: 90.0f64.to_bits(),
        velocity_scale: 0.005f64.to_bits(),
        keyboard: false,
        data: [
            VelocityData { header: header(2), data: bits(&eastward()) },
            VelocityData { header: header(3), data: bits(&northward()) },
        ],
    }
}

#[test]
fn five_by_five_grid_encodes_in_order() {
    let o = layer_options();
    let n = encode_options(&o);
    assert_eq!(n.data.len(), 2);
    let h = n.data[0].header;
    assert_eq!(h.parameter_number, 2);
    assert_eq!(h.parameter_category, 2);
    assert_eq!(h.nx, 5);
    assert_eq!(h.ny, 5);
    assert_eq!(f64::from_bits(h.la1), 90.0);
    assert_eq!(f64::from_bits(h.la2), -90.0);
    assert_eq!(f64::from_bits(h.lo1), -180.0);
    assert_eq!(f64::from_bits(h.lo2), 180.0);
    assert_eq!(f64::from_bits(h.dx), 90.0);
    assert_eq!(f64::from_bits(h.dy), 45.0);
    assert_eq!(n.data[0].data.len(), 25);
    assert_eq!(n.data[0].data, bits(&eastward()));
    assert_eq!(n.data[1].data, bits(&northward()));
}

#[test]
fn components_are_not_swapped() {
    let n = encode_options(&layer_options());
    assert_eq!(n.data[0].header.parameter_number, 2);
    assert_eq!(n.data[1].header.parameter_number, 3);
    assert_eq!(f64::from_bits(n.data[0].data[7]), 30.0);
    assert_eq!(f64::from_bits(n.data[1].data[7]), 0.0);
    assert_eq!(f64::from_bits(n.data[1].data[11]), 30.0);
}

#[test]
fn scalar_settings_and_colors_are_copied() {
    let o = layer_options();
    let n = encode_options(&o);
    assert!(n.display_values);
    assert!(!n.keyboard);
    assert_eq!(f64::from_bits(n.max_velocity), 30.0);
    assert_eq!(f64::from_bits(n.frame_rate), 15.0);
    assert_eq!(f64::from_bits(n.line_width), 1.5);
    assert_eq!(f64::from_bits(n.particle_multiplier), 1.0 / 300.0);
    assert_eq!(f64::from_bits(n.particle_age), 90.0);
    assert_eq!(f64::from_bits(n.velocity_scale), 0.005);
    assert_eq!(n.color_scale, vec!["rgb(36,104,180)".to_string(), "rgb(180,0,35)".to_string()]);
}

#[test]
fn nan_becomes_zero_and_others_are_kept() {
    let c = VelocityData {
        header: header(2),
        data: bits(&[1.5, f64::NAN, -2.0, -0.0, f64::INFINITY]),
    };
    let n = encode_component(&c);
    assert_eq!(n.data.len(), 5);
    assert_eq!(n.data[0], 1.5f64.to_bits());
    assert_eq!(n.data[1], 0);
    assert_eq!(n.data[2], (-2.0f64).to_bits());
    assert_eq!(n.data[3], (-0.0f64).to_bits());
    assert_eq!(n.data[4], f64::INFINITY.to_bits());
}

#[test]
fn every_nan_payload_is_replaced() {
    let quiet = f64::NAN.to_bits();
    let signalling = 0x7ff0_0000_0000_0001u64;
    let negative = 0xfff8_0000_0000_0000u64;
    for b in [quiet, signalling, negative] {
        assert!(f64::from_bits(b).is_nan());
        assert!(is_nan(b));
        assert_eq!(sanitize(b), 0);
    }
    assert!(!is_nan(f64::INFINITY.to_bits()));
    assert!(!is_nan(f64::NEG_INFINITY.to_bits()));
    assert_eq!(sanitize(7.25f64.to_bits()), 7.25f64.to_bits());
}

#[test]
fn encoding_is_deterministic() {
    let c = VelocityData {
        header: header(3),
        data: bits(&[f64::NAN, 3.0, 4.0]),
    };
    let a = encode_component(&c);
    let b = encode_component(&c);
    assert_eq!(a.header, b.header);
    assert_eq!(a.data, b.data);
}

#[test]
fn empty_component_encodes_to_empty() {
    let c = VelocityData { header: header(2), data: Vec::new() };
    let n = encode_component(&c);
    assert!(n.data.is_empty());
    assert_eq!(n.header.nx, 5);
}

#[test]
fn header_is_copied_field_for_field() {
    let h = header(3);
    let n = encode_header(&h);
    assert_eq!(n.parameter_number, 3);
    assert_eq!(n.parameter_category, 2);
    assert_eq!((n.dx, n.dy, n.nx, n.ny), (h.dx, h.dy, h.nx, h.ny));
    assert_eq!((n.la1, n.la2, n.lo1, n.lo2), (h.la1, h.la2, h.lo1, h.lo2));
}

#[test]
fn shape_check_compares_count_with_grid() {
    let good = VelocityData { header: header(2), data: bits(&eastward()) };
    assert!(good.has_consistent_shape());
    let short = VelocityData { header: header(2), data: bits(&[1.0, 2.0]) };
    assert!(!short.has_consistent_shape());
    let mut empty_header = header(2);
    empty_header.nx = 0;
    let empty = VelocityData { header: empty_header, data: Vec::new() };
    assert!(!empty.has_consistent_shape());
}
