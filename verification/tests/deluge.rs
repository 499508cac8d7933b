use sf2deluge::deluge::{attack_to_value, decay_to_value, release_to_value, sustain_to_value,
    Osc, OscType, Sound, Value};

#[test]
fn test_value() {
    assert_eq!(Value(0x80000000).to_deluge_val(), 0);
    assert_eq!(Value(0x00000000).to_deluge_val(), 25);
    assert_eq!(Value(0x7FFFFFFF).to_deluge_val(), 50);
    assert_eq!(Value::from_deluge_val(0), Value(0x80000000));
    assert_eq!(Value::from_deluge_val(25), Value(0x00000000));
    assert_eq!(Value::from_deluge_val(50), Value(0x7FFFFFFF));
}

#[test]
fn test_value_display_round_trip_all() {
    // Round-trip law: every display value survives encoding and decoding.
    for d in 0..=50 {
        assert_eq!(Value::from_deluge_val(d).to_deluge_val(), d);
    }
}

#[test]
fn test_value_saturates_out_of_range() {
    assert_eq!(Value::from_deluge_val(-3), Value(0x80000000));
    assert_eq!(Value::from_deluge_val(1000), Value(0x7FFFFFFF));
}

#[test]
fn test_value_bit_round_trip_error_bound() {
    // Decoding the display value and re-encoding stays within half a step.
    let cases = [0u32, 1, 0x1234_5678, 0x7FFF_FFFF, 0x8000_0000, 0xFFFF_FFFF, 0xDEAD_BEEF];
    for &u in &cases {
        let d = Value(u).to_deluge_val();
        let v2 = Value::from_deluge_val(d);
        let diff = (u as i32 as i64 - v2.0 as i32 as i64).abs();
        assert!(diff <= 42949675, "u={:#x} diff={}", u, diff);
    }
}

#[test]
fn test_attack_curve_anchors() {
    // 0 microseconds maps to display 0, the physical minimum anchor.
    assert_eq!(attack_to_value(0), Value(0x80000000));
    // 0.7 ms is the display-0 calibration entry.
    assert_eq!(attack_to_value(700), Value(0x80000000));
    // Anything beyond the top entry maps to display 50.
    assert_eq!(attack_to_value(3_000_000), Value(0x7FFFFFFF));
    // One second of attack falls at display 44.
    assert_eq!(attack_to_value(1_000_000), Value::from_deluge_val(44));
}

#[test]
fn test_decay_release_curves_monotone() {
    let times = [0u64, 1000, 10_000, 100_000, 1_000_000, 10_000_000, 100_000_000];
    let mut prev_d = -1;
    for &t in &times {
        let d = {
            let v = decay_to_value(t);
            v.to_deluge_val()
        };
        assert!(d >= prev_d, "decay curve must not decrease");
        prev_d = d;
    }
    let mut prev_r = -1;
    for &t in &times {
        let r = release_to_value(t).to_deluge_val();
        assert!(r >= prev_r, "release curve must not decrease");
        prev_r = r;
    }
}

#[test]
fn test_sustain_curve_anchors() {
    // Full level maps to display 50, the maximum positive bit pattern.
    assert_eq!(sustain_to_value(0), Value(0x7FFFFFFF));
    // -68 dB is the display-1 calibration entry.
    assert_eq!(sustain_to_value(-680), Value::from_deluge_val(1));
    // Far below the table floor maps to display 0.
    assert_eq!(sustain_to_value(-20000), Value(0x80000000));
}

#[test]
fn test_build_sound() {
    let mut sound = Sound::default();
    let mut osc2 = Osc::default();
    osc2.osc_type = OscType::Saw;
    sound.osc2 = osc2;
    assert_eq!(sound.osc2.osc_type, OscType::Saw);
    println!("{:?}", sound);
    let s = sound.to_xml();
    for line in s.lines() {
        println!("{}", line);
    }
}

#[test]
fn test_default_sound_xml() {
    let s = Sound::default().to_xml();
    assert!(s.starts_with("<?xml version=\"1.0\" encoding=\"UTF-8\"?><sound "));
    assert!(s.ends_with("</sound>"));
    assert!(s.contains(" firmwareVersion=\"3.1.3\""));
    assert!(s.contains(" polyphonic=\"poly\""));
    assert!(s.contains(" voicePriority=\"1\""));
    assert!(s.contains(" lpfMode=\"24dB\""));
    assert!(s.contains("<osc1 type=\"square\" transpose=\"0\" cents=\"0\" retrigPhase=\"-1\"/>"));
    assert!(s.contains("<lfo1 type=\"triangle\" syncLevel=\"0\"/>"));
    assert!(s.contains("<lfo2 type=\"triangle\"/>"));
    assert!(s.contains("<unison num=\"1\" detune=\"8\"/>"));
    assert!(s.contains("<delay pingPong=\"1\" analog=\"0\" syncLevel=\"7\"/>"));
    assert!(s.contains("<compressor syncLevel=\"7\" attack=\"327244\" release=\"936\"/>"));
    // normalized values serialize as lowercase 8-hex-digit strings
    assert!(s.contains(
        "<envelope1 attack=\"0x80000000\" decay=\"0xe6666654\" sustain=\"0x7fffffff\" release=\"0x80000000\"/>"
    ));
    assert!(s.contains(
        "<patchCable source=\"velocity\" destination=\"volume\" amount=\"0x3fffffe8\"/>"
    ));
    assert!(s.contains("<modKnob controlsParam=\"pan\"/>"));
    assert!(s.contains(
        "<modKnob controlsParam=\"volumePostReverbSend\" patchAmountFromSource=\"compressor\"/>"
    ));
    assert!(s.contains("<arpeggiator mode=\"off\" numOctaves=\"2\" syncLevel=\"7\"/>"));
}

#[test]
fn test_xml_escapes_file_names() {
    let mut sound = Sound::default();
    let mut osc1 = Osc::default();
    osc1.osc_type = OscType::Sample;
    osc1.file_name = Some("a<b>&\"c\".wav".to_string());
    sound.osc1 = osc1;
    let s = sound.to_xml();
    assert!(s.contains(" fileName=\"a&lt;b&gt;&amp;&quot;c&quot;.wav\""));
}
