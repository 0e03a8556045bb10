use bitrosynth::status::ProcessStatus;
use bitrosynth::synth::{
    finish_synthesis, get_current_command, get_process_status, get_sample_rate, output_format,
    parse_channel, set_8_bit_status, set_sample_rate, set_status, synthesize_audio, CommandType,
    StatusRegister, SynthSettings,
};

fn rows(v: &[&[&str]]) -> Vec<Vec<String>> {
    v.iter().map(|c| c.iter().map(|s| s.to_string()).collect()).collect()
}

#[test]
fn settings_default_and_change() {
    let mut reg = StatusRegister::new();
    let mut s = SynthSettings::new();
    assert_eq!(get_sample_rate(&s), 44100);
    assert!(!s.is_8_bit);
    set_8_bit_status(&mut reg, &mut s, 1);
    assert!(s.is_8_bit);
    set_8_bit_status(&mut reg, &mut s, 2);
    assert!(!s.is_8_bit);
    set_sample_rate(&mut reg, &mut s, 8000);
    assert_eq!(get_sample_rate(&s), 8000);
    assert_eq!(get_process_status(&reg), 0);
    assert_eq!(get_current_command(&reg), 0);
}

#[test]
fn output_format_follows_settings() {
    let mut reg = StatusRegister::new();
    let mut s = SynthSettings::new();
    let f = output_format(&s);
    assert_eq!((f.channels, f.sample_rate, f.bits_per_sample), (1, 44100, 16));
    set_8_bit_status(&mut reg, &mut s, 1);
    set_sample_rate(&mut reg, &mut s, 22050);
    let f = output_format(&s);
    assert_eq!((f.channels, f.sample_rate, f.bits_per_sample), (1, 22050, 8));
}

#[test]
fn malformed_segment_fails_the_request() {
    let mut reg = StatusRegister::new();
    let req = rows(&[&["A4_500_1.0_Sine"], &["C4_100_1_Square", "A4_500_Sine"]]);
    assert!(synthesize_audio(&mut reg, &req).is_none());
    assert_eq!(get_process_status(&reg), -1);
    assert_eq!(get_current_command(&reg), 0);
}

#[test]
fn empty_request_or_channel_fails() {
    let mut reg = StatusRegister::new();
    assert!(synthesize_audio(&mut reg, &Vec::new()).is_none());
    assert_eq!(get_process_status(&reg), -1);
    let req = rows(&[&["A4_500_1.0_Sine"], &[]]);
    assert!(synthesize_audio(&mut reg, &req).is_none());
    assert_eq!(get_process_status(&reg), -1);
}

#[test]
fn accepted_request_is_in_progress_until_written() {
    let mut reg = StatusRegister::new();
    let req = rows(&[&["A4_500_1.0_Sine>C4_500_0.5_Square", ""], &["B3_10_1_Silence"]]);
    let parsed = synthesize_audio(&mut reg, &req).unwrap();
    assert_eq!(parsed.len(), 2);
    assert_eq!(parsed[0].len(), 2);
    assert_eq!(parsed[0][0].len(), 2);
    assert!(parsed[0][1].is_empty());
    assert_eq!(parsed[1][0][0].duration_ms, 10);
    assert_eq!(get_process_status(&reg), 1);
    assert_eq!(get_current_command(&reg), 1);
    finish_synthesis(&mut reg, true);
    assert_eq!(get_process_status(&reg), 0);
    assert_eq!(get_current_command(&reg), 0);
    finish_synthesis(&mut reg, false);
    assert_eq!(get_process_status(&reg), -1);
}

#[test]
fn channel_parse() {
    let ok = vec!["A4_1_1_Sine".to_string(), "C4_2_1_Sine>D4_3_1_Sine".to_string()];
    let p = parse_channel(&ok).unwrap();
    assert_eq!(p[1].len(), 2);
    let bad = vec!["A4_1_1_Sine".to_string(), "A4_1_1".to_string()];
    assert!(parse_channel(&bad).is_none());
}

#[test]
fn status_register_last_write_wins() {
    let mut reg = StatusRegister::new();
    set_status(&mut reg, ProcessStatus::InProgress, CommandType::SetSampleRate);
    assert_eq!(get_process_status(&reg), 1);
    assert_eq!(get_current_command(&reg), 4);
    set_status(&mut reg, ProcessStatus::Error, CommandType::NoCommand);
    assert_eq!(get_process_status(&reg), -1);
    assert_eq!(CommandType::Set8BitStatus.code(), 2);
    assert_eq!(CommandType::GetSampleRate.code(), 3);
    assert_eq!(ProcessStatus::Success.code(), 0);
}
