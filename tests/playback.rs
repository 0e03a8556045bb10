use bitrosynth::playback::{
    de_init, get_current_command, get_process_status, play_audio, start_position, stop_audio,
    CommandType, PlaybackBuffer, StatusRegister, WavFileData,
};

fn file(n: usize, rate: u32, ch: u8) -> WavFileData<f32> {
    WavFileData { samples: (0..n).map(|i| (i + 1) as f32 / 100.0).collect(), sample_rate: rate, channel_count: ch }
}

#[test]
fn play_from_start_gives_first_samples() {
    let mut reg = StatusRegister::new();
    let mut buf: PlaybackBuffer<f32> = PlaybackBuffer::new();
    play_audio(&mut reg, &mut buf, Some(file(10, 1000, 1)), 0);
    assert_eq!(get_process_status(&reg), 0);
    assert_eq!(get_current_command(&reg), 0);
    assert!(buf.is_playing());
    let mut out = [9.0f32; 4];
    buf.render(&mut out, 0.0);
    assert_eq!(out, [0.01, 0.02, 0.03, 0.04]);
    assert_eq!(buf.position(), 4);
    let mut rest = [9.0f32; 8];
    buf.render(&mut rest, 0.0);
    assert_eq!(rest, [0.05, 0.06, 0.07, 0.08, 0.09, 0.1, 0.0, 0.0]);
    assert_eq!(buf.position(), 10);
}

#[test]
fn huge_offset_clamps_and_is_silent() {
    let mut reg = StatusRegister::new();
    let mut buf: PlaybackBuffer<f32> = PlaybackBuffer::new();
    play_audio(&mut reg, &mut buf, Some(file(10, 44100, 2)), u32::MAX);
    assert_eq!(buf.position(), 10);
    let mut out = [9.0f32; 5];
    buf.render(&mut out, 0.0);
    assert_eq!(out, [0.0; 5]);
    assert_eq!(buf.position(), 10);
}

#[test]
fn stop_gives_silence_and_keeps_cursor() {
    let mut reg = StatusRegister::new();
    let mut buf: PlaybackBuffer<f32> = PlaybackBuffer::new();
    play_audio(&mut reg, &mut buf, Some(file(10, 1000, 1)), 3);
    assert_eq!(buf.position(), 3);
    stop_audio(&mut reg, &mut buf);
    assert!(!buf.is_playing());
    let mut out = [9.0f32; 4];
    buf.render(&mut out, 0.0);
    assert_eq!(out, [0.0; 4]);
    assert_eq!(buf.position(), 3);
    assert_eq!(buf.len(), 10);
    assert_eq!(get_process_status(&reg), 0);
    play_audio(&mut reg, &mut buf, Some(file(10, 1000, 1)), 3);
    let mut again = [9.0f32; 2];
    buf.render(&mut again, 0.0);
    assert_eq!(again, [0.04, 0.05]);
}

#[test]
fn offset_counts_frames_times_channels() {
    assert_eq!(start_position(1000, 44100, 2, 1_000_000), 88200);
    assert_eq!(start_position(1, 500, 2, 100), 2);
    assert_eq!(start_position(1, 499, 2, 100), 0);
    assert_eq!(start_position(10, 1000, 0, 100), 0);
    assert_eq!(start_position(u32::MAX, u32::MAX, 255, 7), 7);
    let mut reg = StatusRegister::new();
    let mut buf: PlaybackBuffer<i16> = PlaybackBuffer::new();
    let f = WavFileData { samples: vec![1i16, 2, 3, 4, 5, 6], sample_rate: 1000, channel_count: 2 };
    play_audio(&mut reg, &mut buf, Some(f), 1);
    assert_eq!(buf.position(), 2);
    let mut out = [0i16; 3];
    buf.render(&mut out, 0);
    assert_eq!(out, [3, 4, 5]);
}

#[test]
fn failed_decode_reports_error_and_keeps_buffer() {
    let mut reg = StatusRegister::new();
    let mut buf: PlaybackBuffer<f32> = PlaybackBuffer::new();
    play_audio(&mut reg, &mut buf, Some(file(4, 1000, 1)), 1);
    play_audio(&mut reg, &mut buf, None, 0);
    assert_eq!(get_process_status(&reg), -1);
    assert_eq!(get_current_command(&reg), 0);
    assert_eq!(buf.len(), 4);
    assert_eq!(buf.position(), 1);
}

#[test]
fn de_init_clears_everything() {
    let mut reg = StatusRegister::new();
    let mut buf: PlaybackBuffer<f32> = PlaybackBuffer::new();
    play_audio(&mut reg, &mut buf, Some(file(4, 1000, 1)), 2);
    de_init(&mut reg, &mut buf);
    assert_eq!(buf.len(), 0);
    assert_eq!(buf.position(), 0);
    assert!(!buf.is_playing());
    let mut out = [9.0f32; 2];
    buf.render(&mut out, 0.0);
    assert_eq!(out, [0.0; 2]);
}

#[test]
fn new_buffer_is_silent() {
    let mut buf: PlaybackBuffer<f32> = PlaybackBuffer::new();
    let mut out = [9.0f32; 3];
    buf.render(&mut out, 0.0);
    assert_eq!(out, [0.0; 3]);
    let mut none: [f32; 0] = [];
    buf.render(&mut none, 0.0);
    assert_eq!(buf.position(), 0);
}

#[test]
fn command_codes() {
    assert_eq!(CommandType::NoCommand.code(), 0);
    assert_eq!(CommandType::Init.code(), 1);
    assert_eq!(CommandType::Play.code(), 2);
    assert_eq!(CommandType::Stop.code(), 3);
    assert_eq!(CommandType::DeInit.code(), 4);
    assert_eq!(CommandType::SetSampleRate.code(), 5);
}
