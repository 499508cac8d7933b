use sf2deluge::convert::{slice_end, soundfont_to_deluge};
use sf2deluge::deluge::{OscType, Value};
use sf2deluge::soundfont::{Bag, Generator, Instrument, LoopMode, Preset, Sample, SoundFont};

fn sample(name: &str, pitch: u8) -> Sample {
    Sample {
        name: name.to_string(),
        start: 0,
        end: 100,
        start_loop: 10,
        end_loop: 90,
        sample_rate: 44100,
        correction: 0,
        original_pitch: pitch,
        sample_link: 0,
        sample_type: 1,
    }
}

fn preset(name: &str, bag_index: u16) -> Preset {
    Preset {
        name: name.to_string(),
        preset: 0,
        bank: 0,
        bag_index,
        library: 0,
        genre: 0,
        morphology: 0,
    }
}

fn bag(gen_ndx: u16) -> Bag {
    Bag { gen_ndx, mod_ndx: 0 }
}

/// A bank with one preset referencing one instrument whose zones are given as
/// generator lists.
fn bank_with_zones(zones: Vec<Vec<Generator>>, samples: Vec<Sample>) -> SoundFont {
    let mut ibags = Vec::new();
    let mut igens = Vec::new();
    for z in &zones {
        ibags.push(bag(igens.len() as u16));
        igens.extend(z.iter().cloned());
    }
    ibags.push(bag(igens.len() as u16)); // terminal instrument bag
    SoundFont {
        samples,
        sample_data: vec![0; 400],
        presets: vec![preset("TestPreset", 0), preset("EOP", 1)],
        instruments: vec![
            Instrument { name: "TestInst".to_string(), bag_index: 0 },
            Instrument { name: "EOI".to_string(), bag_index: (ibags.len() - 1) as u16 },
        ],
        igens,
        pgens: vec![Generator::Instrument(0)],
        imods: vec![],
        pmods: vec![],
        ibags,
        pbags: vec![bag(0), bag(1)],
    }
}

#[test]
fn test_entity_index_slice_ends() {
    // Entity i's slice ends at the next entity's first index; the last
    // entity's slice ends at the shared array's length.
    let firsts: Vec<u16> = vec![0, 5, 9];
    assert_eq!(slice_end(&firsts, 0, 20), 5);
    assert_eq!(slice_end(&firsts, 1, 20), 9);
    assert_eq!(slice_end(&firsts, 2, 20), 20);
}

#[test]
fn test_coalesce_contiguous_same_sample() {
    // Three contiguous key ranges on the same sample and root coalesce onto
    // one oscillator with one promoted range and no upper key bound.
    let zones = vec![
        vec![Generator::KeyRange(0, 39), Generator::SampleID(0)],
        vec![Generator::KeyRange(40, 79), Generator::SampleID(0)],
        vec![Generator::KeyRange(80, 127), Generator::SampleID(0)],
    ];
    let sf = bank_with_zones(zones, vec![sample("sampA", 60)]);
    assert!(sf.check_wf());
    let (sound, jobs, warnings) = soundfont_to_deluge(&sf, "SAMPLES", 0, "");
    assert!(warnings.is_empty());
    assert_eq!(sound.osc1.osc_type, OscType::Sample);
    assert!(sound.osc1.sample_ranges.is_none(), "a single range is promoted");
    assert_eq!(sound.osc1.file_name.as_deref(), Some("SAMPLES/sampA.wav"));
    assert_eq!(sound.osc1.transpose, Some(0));
    let z = sound.osc1.zone.expect("promoted zone");
    assert_eq!(z.start_sample_pos, 0);
    assert_eq!(z.end_sample_pos, 100);
    assert_eq!(z.start_loop_pos, None);
    assert_eq!(jobs, vec![(0u16, LoopMode::NoLoop)]);
    // the second slot stays at its factory default
    assert_eq!(sound.osc2.osc_type, OscType::Square);
}

#[test]
fn test_coalesce_middle_zone_other_sample() {
    // With the middle zone on a different sample the oscillator keeps three
    // nested ranges; only the last omits its upper key bound.
    let zones = vec![
        vec![Generator::KeyRange(0, 39), Generator::SampleID(0)],
        vec![Generator::KeyRange(40, 79), Generator::SampleID(1)],
        vec![Generator::KeyRange(80, 127), Generator::SampleID(0)],
    ];
    let sf = bank_with_zones(zones, vec![sample("sampA", 60), sample("sampB", 60)]);
    assert!(sf.check_wf());
    let (sound, _jobs, warnings) = soundfont_to_deluge(&sf, "SAMPLES", 0, "");
    assert!(warnings.is_empty());
    let ranges = sound.osc1.sample_ranges.expect("nested ranges").sample_range;
    assert_eq!(ranges.len(), 3);
    assert_eq!(ranges[0].range_top_note, Some(39));
    assert_eq!(ranges[1].range_top_note, Some(79));
    assert_eq!(ranges[2].range_top_note, None);
    assert_eq!(ranges[0].file_name.as_deref(), Some("SAMPLES/sampA.wav"));
    assert_eq!(ranges[1].file_name.as_deref(), Some("SAMPLES/sampB.wav"));
    assert_eq!(ranges[2].file_name.as_deref(), Some("SAMPLES/sampA.wav"));
}

#[test]
fn test_budget_cap_warns_once_and_keeps_two() {
    // Four non-adjacent zones give four groups: only the first two appear and
    // exactly one warning names the preset.
    let zones = vec![
        vec![Generator::KeyRange(0, 10), Generator::SampleID(0)],
        vec![Generator::KeyRange(50, 60), Generator::SampleID(0)],
        vec![Generator::KeyRange(90, 100), Generator::SampleID(0)],
        vec![Generator::KeyRange(120, 127), Generator::SampleID(0)],
    ];
    let sf = bank_with_zones(zones, vec![sample("sampA", 60)]);
    assert!(sf.check_wf());
    let (sound, jobs, warnings) = soundfont_to_deluge(&sf, "SAMPLES", 0, "");
    assert_eq!(warnings.len(), 1);
    assert_eq!(
        warnings[0],
        "TestPreset has more osc than the deluge has, need to select"
    );
    assert_eq!(sound.osc1.osc_type, OscType::Sample);
    assert_eq!(sound.osc2.osc_type, OscType::Sample);
    assert!(sound.osc1.file_name.is_some());
    assert!(sound.osc2.file_name.is_some());
    // both retained groups ask for their samples, the dropped ones do not
    assert_eq!(jobs.len(), 2);
    assert_eq!(sound.default_params.osc2_volume, Value(0x7FFFFFFF));
}

#[test]
fn test_instrument_without_zones_keeps_defaults() {
    // An instrument with no zones contributes nothing: the oscillator slots
    // keep their factory defaults, with no sample assignment and no error.
    let sf = bank_with_zones(vec![], vec![sample("sampA", 60)]);
    assert!(sf.check_wf());
    let (sound, jobs, warnings) = soundfont_to_deluge(&sf, "SAMPLES", 0, "");
    assert!(warnings.is_empty());
    assert!(jobs.is_empty());
    assert_eq!(sound.osc1.osc_type, OscType::Square);
    assert!(sound.osc1.file_name.is_none());
    assert!(sound.osc1.sample_ranges.is_none());
    assert_eq!(sound.osc2.osc_type, OscType::Square);
}

#[test]
fn test_no_attack_generator_averages_zero() {
    // No zone contributes an attack generator: the averaged attack is zero,
    // the lowest normalized value, with no division failure.
    let zones = vec![vec![Generator::KeyRange(0, 127), Generator::SampleID(0)]];
    let sf = bank_with_zones(zones, vec![sample("sampA", 60)]);
    assert!(sf.check_wf());
    let (sound, _jobs, _warnings) = soundfont_to_deluge(&sf, "SAMPLES", 0, "");
    assert_eq!(sound.default_params.envelope1.attack, Value(0x80000000));
    // absent sustain values average to full level
    assert_eq!(sound.default_params.envelope1.sustain, Value(0x7FFFFFFF));
}

#[test]
fn test_envelope_values_transcode() {
    // One zone with a one-second attack (0 timecents): display 44.
    let zones = vec![
        vec![
            Generator::KeyRange(0, 127),
            Generator::SampleID(0),
            Generator::AttackVolEnv(0),
            Generator::SustainVolEnv(680),
        ],
    ];
    let sf = bank_with_zones(zones, vec![sample("sampA", 60)]);
    assert!(sf.check_wf());
    let (sound, _jobs, _warnings) = soundfont_to_deluge(&sf, "SAMPLES", 0, "");
    assert_eq!(sound.default_params.envelope1.attack, Value::from_deluge_val(44));
    // 680 centibels of attenuation is the -68 dB calibration entry
    assert_eq!(sound.default_params.envelope1.sustain, Value::from_deluge_val(1));
}

#[test]
fn test_root_key_and_tuning() {
    // An overriding root key beats the sample's original pitch; fine tuning
    // and a continuous loop carry into the oscillator.
    let zones = vec![
        vec![
            Generator::KeyRange(0, 127),
            Generator::SampleID(0),
            Generator::OverridingRootKey(48),
            Generator::FineTune(-20),
            Generator::SampleModes(LoopMode::ContinuousLoop),
        ],
    ];
    let sf = bank_with_zones(zones, vec![sample("sampA", 60)]);
    assert!(sf.check_wf());
    let (sound, jobs, _warnings) = soundfont_to_deluge(&sf, "SAMPLES", 0, "pre ");
    assert_eq!(sound.name, "pre TestPreset");
    assert_eq!(sound.osc1.transpose, Some(12));
    assert_eq!(sound.osc1.cents, Some(-20));
    assert_eq!(sound.osc1.loop_mode, Some(2));
    let z = sound.osc1.zone.expect("zone");
    assert_eq!(z.start_loop_pos, Some(10));
    assert_eq!(z.end_loop_pos, Some(90));
    assert_eq!(jobs, vec![(0u16, LoopMode::ContinuousLoop)]);
}

#[test]
fn test_dump_lines() {
    let zones = vec![vec![Generator::KeyRange(0, 127), Generator::SampleID(0)]];
    let sf = bank_with_zones(zones, vec![sample("sampA", 60)]);
    assert!(sf.check_wf());
    let lines = sf.dump();
    assert_eq!(lines[0], "Presets:");
    assert_eq!(lines[1], "Name: TestPreset");
    assert_eq!(lines[2], "Pos: 0");
    assert_eq!(lines[3], "Bank: 0");
    assert_eq!(lines[4], "Preset zone 0:");
    assert_eq!(lines[5], "Instrument: TestInst");
    assert_eq!(lines[6], "Instrument zone 0:");
    assert_eq!(lines[7], "  keyRange 0 127");
    assert_eq!(lines[8], "  sampleID 0");
    assert_eq!(lines[9], "  modulators: 0");
    assert_eq!(lines[10], "  modulators: 0");
    assert_eq!(lines.len(), 11);
}

#[test]
fn test_sample_frames() {
    let mut sf = bank_with_zones(vec![], vec![sample("sampA", 60)]);
    sf.sample_data = vec![0x01, 0x00, 0xFF, 0xFF, 0x00, 0x80];
    sf.samples[0].start = 0;
    sf.samples[0].end = 3;
    let frames = sf.sample_frames(0).expect("frames");
    assert_eq!(frames, vec![1i16, -1, -32768]);
    sf.samples[0].end = 4; // past the buffer
    assert!(sf.sample_frames(0).is_none());
}
