use vtx_tool::power::Power;

fn p(v: f32) -> Power {
    Power { bits: v.to_bits() }
}

#[test]
fn readings_compare_as_their_values() {
    let values = [
        f32::NEG_INFINITY, -1000.5, -1.0, -0.0, 0.0, 1e-42, 0.1, 1.0, 1.0000001, 25.0, 399.99, 400.0,
        65535.0, f32::INFINITY, f32::NAN,
    ];
    for a in values {
        for b in values {
            assert_eq!(p(a).lt(p(b)), a < b, "{a} < {b}");
            assert_eq!(p(a).le(p(b)), a <= b, "{a} <= {b}");
        }
        assert_eq!(p(a).nan(), a.is_nan());
    }
}

#[test]
fn whole_milliwatts_are_exact() {
    for mw in [0u16, 1, 2, 3, 25, 100, 200, 400, 999, 1000, 32767, 32768, 65535] {
        assert_eq!(Power::from_mw(mw).bits, (mw as f32).to_bits(), "{mw}");
    }
}
