use bitrosynth::script::{parse_row, Waveform};

fn text(v: &[char]) -> String {
    v.iter().collect()
}

#[test]
fn two_note_row() {
    let notes = parse_row("A4_500_1.0_Sine>C4_500_0.5_Square").unwrap();
    assert_eq!(notes.len(), 2);
    assert_eq!(notes[0].waveform, Waveform::Sine);
    assert_eq!(notes[0].frequency, 44000);
    assert_eq!(notes[0].duration_ms, 500);
    assert_eq!(text(&notes[0].gain), "1.0");
    assert_eq!(notes[1].waveform, Waveform::Square);
    assert_eq!(notes[1].frequency, 26163);
    assert_eq!(text(&notes[1].gain), "0.5");
}

#[test]
fn three_fields_fail_the_row() {
    assert!(parse_row("A4_500_Sine").is_none());
    assert!(parse_row("C4_100_1_Sine>A4_500_Sine").is_none());
}

#[test]
fn blank_segments_are_skipped() {
    let notes = parse_row(" > A4_100_1_Sine >  >\t").unwrap();
    assert_eq!(notes.len(), 1);
    assert!(parse_row("").unwrap().is_empty());
    assert!(parse_row(">>").unwrap().is_empty());
}

#[test]
fn fields_are_trimmed_and_normalised() {
    let notes = parse_row(" c#4 _ 250 _ 0,75 _ White Noise ").unwrap();
    assert_eq!(notes.len(), 1);
    assert_eq!(notes[0].frequency, 27718);
    assert_eq!(notes[0].duration_ms, 250);
    assert_eq!(text(&notes[0].gain), "0.75");
    assert_eq!(notes[0].waveform, Waveform::WhiteNoise);
}

#[test]
fn every_waveform_name() {
    let row = "A4_1_1_Triangle>A4_1_1_Sine>A4_1_1_Square>A4_1_1_Sawtooth>A4_1_1_WhiteNoise>A4_1_1_PinkNoise>A4_1_1_Silence";
    let kinds: Vec<Waveform> = parse_row(row).unwrap().iter().map(|n| n.waveform).collect();
    assert_eq!(
        kinds,
        vec![
            Waveform::Triangle,
            Waveform::Sine,
            Waveform::Square,
            Waveform::Sawtooth,
            Waveform::WhiteNoise,
            Waveform::PinkNoise,
            Waveform::Silence
        ]
    );
    assert!(parse_row("A4_1_1_sine").is_none());
    assert!(parse_row("A4_1_1_Noise").is_none());
}

#[test]
fn extra_fields_are_ignored() {
    let notes = parse_row("A4_10_1_Sine_extra").unwrap();
    assert_eq!(notes.len(), 1);
}

#[test]
fn durations() {
    assert_eq!(parse_row("A4_+5_1_Sine").unwrap()[0].duration_ms, 5);
    assert_eq!(parse_row("A4_0_1_Sine").unwrap()[0].duration_ms, 0);
    assert_eq!(parse_row("A4_4294967295_1_Sine").unwrap()[0].duration_ms, 4294967295);
    assert!(parse_row("A4_4294967296_1_Sine").is_none());
    assert!(parse_row("A4_-5_1_Sine").is_none());
    assert!(parse_row("A4_+_1_Sine").is_none());
    assert!(parse_row("A4__1_Sine").is_none());
    assert!(parse_row("A4_1.5_1_Sine").is_none());
}

#[test]
fn gains() {
    for g in ["1e3", "-2", "+.5", "5.", "1E-2", "inf", "-Infinity", "NaN", "0,25", "007"] {
        let row = format!("A4_10_{}_Sine", g);
        assert!(parse_row(&row).is_some(), "{}", g);
        let norm = g.replace(',', ".");
        assert!(norm.parse::<f32>().is_ok(), "{}", g);
    }
    for g in [".", "", "abc", "1e", "1..2", "--1", "1,2,3", "in"] {
        let row = format!("A4_10_{}_Sine", g);
        assert!(parse_row(&row).is_none(), "{}", g);
        let norm = g.replace(',', ".");
        assert!(norm.parse::<f32>().is_err(), "{}", g);
    }
}

#[test]
fn unknown_note_fails() {
    assert!(parse_row("H4_500_1_Sine").is_none());
}

#[test]
fn unicode_white_space_is_trimmed() {
    let row = "\u{3000}A4_1_1_Sine\u{00A0}>\u{2003}>\u{85}B4 _2_1_Silence\n";
    let notes = parse_row(row).unwrap();
    assert_eq!(notes.len(), 2);
    assert_eq!(notes[1].frequency, 49388);
    assert!(" \u{3000}\u{00A0}\u{2003}\u{85}\n".trim().is_empty());
}

#[test]
fn inner_spaces_of_a_name_fail() {
    assert!(parse_row("A 4_1_1_Sine").is_none());
    assert!(parse_row("A4_1 0_1_Sine").is_none());
}
