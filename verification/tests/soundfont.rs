use sf2deluge::soundfont::{parse_dest_oper, parse_generator, parse_modulator, DestOper,
    Generator, LoopMode, SfError, SoundFont, SourceEnumeratorController, SourcePolarity,
    SourceType};

fn chunk(tag: &[u8; 4], payload: &[u8]) -> Vec<u8> {
    let mut v = Vec::new();
    v.extend_from_slice(tag);
    v.extend_from_slice(&(payload.len() as u32).to_le_bytes());
    v.extend_from_slice(payload);
    if payload.len() % 2 == 1 {
        v.push(0);
    }
    v
}

fn list(form: &[u8; 4], children: &[u8]) -> Vec<u8> {
    let mut payload = Vec::new();
    payload.extend_from_slice(form);
    payload.extend_from_slice(children);
    chunk(b"LIST", &payload)
}

fn riff(form: &[u8; 4], children: &[u8]) -> Vec<u8> {
    let mut payload = Vec::new();
    payload.extend_from_slice(form);
    payload.extend_from_slice(children);
    chunk(b"RIFF", &payload)
}

fn name20(name: &str) -> Vec<u8> {
    let mut v = name.as_bytes().to_vec();
    v.resize(20, 0);
    v
}

fn phdr_record(name: &str, bag_index: u16) -> Vec<u8> {
    let mut v = name20(name);
    v.extend_from_slice(&0u16.to_le_bytes()); // preset number
    v.extend_from_slice(&0u16.to_le_bytes()); // bank
    v.extend_from_slice(&bag_index.to_le_bytes());
    v.extend_from_slice(&[0; 12]); // library, genre, morphology
    v
}

fn inst_record(name: &str, bag_index: u16) -> Vec<u8> {
    let mut v = name20(name);
    v.extend_from_slice(&bag_index.to_le_bytes());
    v
}

fn bag_record(gen_ndx: u16, mod_ndx: u16) -> Vec<u8> {
    let mut v = Vec::new();
    v.extend_from_slice(&gen_ndx.to_le_bytes());
    v.extend_from_slice(&mod_ndx.to_le_bytes());
    v
}

fn gen_record(oper: u16, amount: [u8; 2]) -> Vec<u8> {
    let mut v = Vec::new();
    v.extend_from_slice(&oper.to_le_bytes());
    v.extend_from_slice(&amount);
    v
}

fn small_bank() -> Vec<u8> {
    let mut phdr = phdr_record("Piano", 0);
    phdr.extend(phdr_record("EOP", 1));
    let mut pbag = bag_record(0, 0);
    pbag.extend(bag_record(1, 0));
    let pgen = gen_record(41, [0, 0]); // instrument reference
    let mut inst = inst_record("Keys", 0);
    inst.extend(inst_record("EOI", 1));
    let mut ibag = bag_record(0, 0);
    ibag.extend(bag_record(2, 0));
    let mut igen = gen_record(43, [0, 127]); // key range
    igen.extend(gen_record(53, [0, 0])); // sample reference
    let shdr = {
        let mut v = name20("sampA");
        v.extend_from_slice(&0u32.to_le_bytes()); // start
        v.extend_from_slice(&4u32.to_le_bytes()); // end
        v.extend_from_slice(&1u32.to_le_bytes()); // loop start
        v.extend_from_slice(&3u32.to_le_bytes()); // loop end
        v.extend_from_slice(&44100u32.to_le_bytes()); // rate
        v.push(0); // correction
        v.push(60); // original pitch
        v.extend_from_slice(&0u16.to_le_bytes()); // link
        v.extend_from_slice(&1u16.to_le_bytes()); // type
        v
    };
    let smpl = [1u8, 0, 2, 0, 3, 0, 4, 0];

    let mut pdta = chunk(b"phdr", &phdr);
    pdta.extend(chunk(b"pbag", &pbag));
    pdta.extend(chunk(b"pgen", &pgen));
    pdta.extend(chunk(b"inst", &inst));
    pdta.extend(chunk(b"ibag", &ibag));
    pdta.extend(chunk(b"igen", &igen));
    pdta.extend(chunk(b"shdr", &shdr));
    let mut info = chunk(b"INAM", b"Tiny bank");
    info.extend(chunk(b"ifil", &[2, 0, 1, 0]));
    let mut body = list(b"INFO", &info);
    body.extend(list(b"sdta", &chunk(b"smpl", &smpl)));
    body.extend(list(b"pdta", &pdta));
    riff(b"sfbk", &body)
}

#[test]
fn test_parse_small_bank() {
    let data = small_bank();
    let mut diags = Vec::new();
    let sf = SoundFont::parse_soundfont(&data, &mut diags).expect("decodes");
    assert!(diags.is_empty(), "no unrecognized material: {:?}", diags);
    assert_eq!(sf.presets.len(), 2);
    assert_eq!(sf.presets[0].name, "Piano");
    assert_eq!(sf.presets[1].name, "EOP");
    assert_eq!(sf.instruments.len(), 2);
    assert_eq!(sf.instruments[0].name, "Keys");
    assert_eq!(sf.pgens, vec![Generator::Instrument(0)]);
    assert_eq!(
        sf.igens,
        vec![Generator::KeyRange(0, 127), Generator::SampleID(0)]
    );
    assert_eq!(sf.samples.len(), 1);
    assert_eq!(sf.samples[0].name, "sampA");
    assert_eq!(sf.samples[0].end, 4);
    assert_eq!(sf.samples[0].original_pitch, 60);
    assert_eq!(sf.sample_data, vec![1, 0, 2, 0, 3, 0, 4, 0]);
    assert!(sf.check_wf());
}

#[test]
fn test_parse_bank_end_to_end() {
    let data = small_bank();
    let mut diags = Vec::new();
    let sf = SoundFont::parse_soundfont(&data, &mut diags).expect("decodes");
    assert!(sf.check_wf());
    let (sound, jobs, warnings) =
        sf2deluge::convert::soundfont_to_deluge(&sf, "SAMPLES", 0, "");
    assert!(warnings.is_empty());
    assert_eq!(sound.name, "Piano");
    assert_eq!(sound.osc1.file_name.as_deref(), Some("SAMPLES/sampA.wav"));
    assert_eq!(jobs, vec![(0u16, LoopMode::NoLoop)]);
}

#[test]
fn test_parse_unknown_chunk_is_reported() {
    let body = chunk(b"zzzz", &[1, 2, 3, 4]);
    let data = riff(b"sfbk", &body);
    let mut diags = Vec::new();
    let sf = SoundFont::parse_soundfont(&data, &mut diags).expect("decodes");
    assert_eq!(sf.presets.len(), 0);
    assert_eq!(diags.len(), 1);
    assert!(diags[0].starts_with("unrecognized chunk tag: "));
}

#[test]
fn test_parse_unknown_generator_operator_is_reported() {
    let igen = gen_record(99, [0, 0]);
    let data = riff(b"sfbk", &list(b"pdta", &chunk(b"igen", &igen)));
    let mut diags = Vec::new();
    let sf = SoundFont::parse_soundfont(&data, &mut diags).expect("decodes");
    assert_eq!(sf.igens, vec![Generator::Unused]);
    assert_eq!(diags, vec!["unrecognized generator operator: 99".to_string()]);
}

#[test]
fn test_parse_framing_errors() {
    // too short for a root chunk
    assert_eq!(
        SoundFont::parse_soundfont(&vec![1, 2, 3], &mut Vec::new()),
        Err(SfError::Framing)
    );
    // a chunk claiming more payload than the file holds
    let mut data = riff(b"sfbk", &[]);
    data[4] = 200;
    assert_eq!(
        SoundFont::parse_soundfont(&data, &mut Vec::new()),
        Err(SfError::Framing)
    );
}

#[test]
fn test_parse_partial_record_is_fatal() {
    // a preset header span that is not a whole number of records
    let data = riff(b"sfbk", &list(b"pdta", &chunk(b"phdr", &[0; 39])));
    assert_eq!(
        SoundFont::parse_soundfont(&data, &mut Vec::new()),
        Err(SfError::Record)
    );
}

#[test]
fn test_parse_bad_metadata_text_is_fatal() {
    let data = riff(b"sfbk", &list(b"INFO", &chunk(b"INAM", &[0xFF, 0xFE])));
    assert_eq!(
        SoundFont::parse_soundfont(&data, &mut Vec::new()),
        Err(SfError::Encoding)
    );
}

#[test]
fn test_name_field_sentinel_on_bad_encoding() {
    // a sample header whose name bytes are not valid text
    let mut shdr = vec![0xFFu8; 20];
    shdr.extend_from_slice(&[0; 26]);
    let data = riff(b"sfbk", &list(b"pdta", &chunk(b"shdr", &shdr)));
    let sf = SoundFont::parse_soundfont(&data, &mut Vec::new()).expect("decodes");
    assert_eq!(sf.samples[0].name, "<invalid>");
}

#[test]
fn test_parse_generator_table() {
    assert_eq!(parse_generator(43, [10, 20]), Generator::KeyRange(10, 20));
    assert_eq!(parse_generator(34, [0xF4, 0x01]), Generator::AttackVolEnv(500));
    assert_eq!(parse_generator(52, [0xFF, 0xFF]), Generator::FineTune(-1));
    assert_eq!(
        parse_generator(54, [1, 0]),
        Generator::SampleModes(LoopMode::ContinuousLoop)
    );
    assert_eq!(
        parse_generator(54, [3, 0]),
        Generator::SampleModes(LoopMode::ReleaseLoop)
    );
    assert_eq!(parse_generator(60, [0, 0]), Generator::EndOper);
    assert_eq!(parse_generator(99, [0, 0]), Generator::Unused);
}

#[test]
fn test_parse_modulator_fields() {
    let m = parse_modulator(0x0202).expect("valid");
    assert_eq!(m.polarity, SourcePolarity::Bipolar);
    assert_eq!(m.index, SourceEnumeratorController::NoteOnVelocity);
    assert_eq!(m.continuity, SourceType::Linear);
    let cc = parse_modulator(0x0087).expect("valid");
    assert_eq!(cc.index, SourceEnumeratorController::MidiCC(7));
    // a reserved controller index is rejected
    assert!(parse_modulator(0x0004).is_none());
    // a reserved curve type is rejected
    assert!(parse_modulator(4 << 10).is_none());
}

#[test]
fn test_parse_dest_oper_link_bit() {
    assert_eq!(parse_dest_oper(0x8005), DestOper::Link(5));
    assert_eq!(
        parse_dest_oper(43),
        DestOper::Generator(Generator::KeyRange(0, 0))
    );
}

#[test]
fn test_safe_name() {
    assert_eq!(SoundFont::safe_name("a/b\"c?d*e"), "a_b_c_d_e");
    assert_eq!(SoundFont::safe_name("plain name"), "plain name");
}

#[test]
fn test_parse_reserved_modulator_is_fatal() {
    // a modulator record whose source field uses a reserved controller index
    let mut imod = 4u16.to_le_bytes().to_vec(); // reserved controller
    imod.extend_from_slice(&[0; 8]);
    let data = riff(b"sfbk", &list(b"pdta", &chunk(b"imod", &imod)));
    assert_eq!(
        SoundFont::parse_soundfont(&data, &mut Vec::new()),
        Err(SfError::Modulator)
    );
}

#[test]
fn test_parse_valid_modulator_record() {
    // note-on velocity, bipolar, into a generator destination
    let mut imod = 0x0202u16.to_le_bytes().to_vec();
    imod.extend_from_slice(&48u16.to_le_bytes()); // initial attenuation
    imod.extend_from_slice(&960i16.to_le_bytes());
    imod.extend_from_slice(&0u16.to_le_bytes());
    imod.extend_from_slice(&0u16.to_le_bytes());
    let data = riff(b"sfbk", &list(b"pdta", &chunk(b"imod", &imod)));
    let sf = SoundFont::parse_soundfont(&data, &mut Vec::new()).expect("decodes");
    assert_eq!(sf.imods.len(), 1);
    assert_eq!(sf.imods[0].amount, 960);
    assert_eq!(
        sf.imods[0].dest_oper,
        DestOper::Generator(Generator::InitialAttenuation(0))
    );
    assert_eq!(sf.imods[0].src_oper.polarity, SourcePolarity::Bipolar);
}
