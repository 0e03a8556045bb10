use bitrosynth::render::{render_script_row, sample_count};
use bitrosynth::script::{NoteEvent, Waveform};

fn wave(n: &NoteEvent, len: u64, rate: u32) -> Vec<f32> {
    let f = n.frequency as f32 / 100.0;
    let gain: f32 = n.gain.iter().collect::<String>().parse().unwrap();
    (0..len)
        .map(|i| {
            let t = i as f32 / rate as f32;
            let s = match n.waveform {
                Waveform::Sine => (2.0 * std::f32::consts::PI * f * t).sin(),
                Waveform::Square => {
                    if (2.0 * std::f32::consts::PI * f * t).sin() >= 0.0 {
                        1.0
                    } else {
                        -1.0
                    }
                }
                _ => 0.0,
            };
            (s * gain).clamp(-1.0, 1.0)
        })
        .collect()
}

#[test]
fn counts_round_toward_zero() {
    assert_eq!(sample_count(500, 8000), 4000);
    assert_eq!(sample_count(1, 44100), 44);
    assert_eq!(sample_count(0, 44100), 0);
    assert_eq!(sample_count(1000, 0), 0);
    assert_eq!(sample_count(u32::MAX, u32::MAX), (u32::MAX as u64 * u32::MAX as u64) / 1000);
}

#[test]
fn sine_then_square_at_8000() {
    let rate = 8000;
    let out = render_script_row("A4_500_1.0_Sine>C4_500_0.5_Square", rate, &|n: &NoteEvent, len: u64| {
        wave(n, len, rate)
    })
    .unwrap();
    assert_eq!(out.len(), 8000);
    for i in 0..4000 {
        let t = i as f32 / 8000.0;
        let want = (2.0 * std::f32::consts::PI * 440.0 * t).sin();
        assert!((out[i] - want).abs() < 1e-3);
    }
    for i in 4000..8000 {
        assert!(out[i] == 0.5 || out[i] == -0.5);
    }
    assert_eq!(out[4000], 0.5);
}

#[test]
fn row_length_is_the_sum_of_note_lengths() {
    let rate = 44100;
    let out = render_script_row("A4_1_1_Sine>B2_333_2_Silence>C4_10_1_Square", rate, &|n: &NoteEvent, len: u64| {
        wave(n, len, rate)
    })
    .unwrap();
    assert_eq!(out.len() as u64, sample_count(1, rate) + sample_count(333, rate) + sample_count(10, rate));
    assert_eq!(out.len(), 44 + 14685 + 441);
}

#[test]
fn clamped_gain_stays_in_range() {
    let rate = 8000;
    let out = render_script_row("A4_100_7.5_Sine>A4_100_-3_Square", rate, &|n: &NoteEvent, len: u64| {
        wave(n, len, rate)
    })
    .unwrap();
    assert_eq!(out.len(), 1600);
    assert!(out.iter().all(|s| (-1.0..=1.0).contains(s)));
}

#[test]
fn bad_row_renders_nothing() {
    let r = render_script_row("A4_500_Sine", 8000, &|n: &NoteEvent, len: u64| wave(n, len, 8000));
    assert!(r.is_none());
}
