//! The playback engine: command status, the shared sample buffer with its read cursor,
//! and the render callback that feeds the output device.
use vstd::prelude::*;

pub use crate::status::ProcessStatus;

verus! {

/// Commands of the playback engine, as reported to callers that poll.
#[derive(Clone, Copy, Debug, PartialEq, Eq, Structural)]
pub enum CommandType {
    NoCommand,
    Init,
    Play,
    Stop,
    DeInit,
    SetSampleRate,
}

pub open spec fn command_code(c: CommandType) -> i32 {
    match c {
        CommandType::NoCommand => 0,
        CommandType::Init => 1,
        CommandType::Play => 2,
        CommandType::Stop => 3,
        CommandType::DeInit => 4,
        CommandType::SetSampleRate => 5,
    }
}

impl CommandType {
    /// Code of the command across the foreign boundary.
    pub fn code(&self) -> (r: i32)
        ensures
            r == command_code(*self),
    {
        match self {
            CommandType::NoCommand => 0,
            CommandType::Init => 1,
            CommandType::Play => 2,
            CommandType::Stop => 3,
            CommandType::DeInit => 4,
            CommandType::SetSampleRate => 5,
        }
    }
}

/// The single slot that tells pollers which command runs and how it went.
#[derive(Clone, Copy, Debug, PartialEq, Eq, Structural)]
pub struct StatusRegister {
    pub status: ProcessStatus,
    pub command: CommandType,
}

impl StatusRegister {
    /// A register that reports success of no command.
    pub fn new() -> (r: StatusRegister)
        ensures
            r.status == ProcessStatus::Success,
            r.command == CommandType::NoCommand,
    {
        StatusRegister { status: ProcessStatus::Success, command: CommandType::NoCommand }
    }
}

/// Overwrites the register; the last write wins.
pub fn set_status(reg: &mut StatusRegister, status: ProcessStatus, current_command: CommandType)
    ensures
        final(reg).status == status,
        final(reg).command == current_command,
{
    reg.status = status;
    reg.command = current_command;
}

/// Code of the current phase: success 0, in progress 1, error -1.
pub fn get_process_status(reg: &StatusRegister) -> (r: i32)
    ensures
        r == crate::status::status_code(reg.status),
{
    reg.status.code()
}

/// Code of the command in flight.
pub fn get_current_command(reg: &StatusRegister) -> (r: i32)
    ensures
        r == command_code(reg.command),
{
    reg.command.code()
}

/// Samples of a decoded file, interleaved by channel.
pub struct WavFileData<T> {
    pub samples: Vec<T>,
    pub sample_rate: u32,
    pub channel_count: u8,
}

/// The shared sample buffer, its read cursor and the playing flag.
pub struct PlaybackBuffer<T> {
    samples: Vec<T>,
    cursor: usize,
    playing: bool,
}

/// Index at which playback starts `ms` milliseconds into a file, before clamping: the
/// frame nearest to that time (halves round up), times the channel count.
pub open spec fn frame_index(ms: u32, rate: u32, channels: u8) -> nat {
    (((ms as nat) * (rate as nat) + 500) / 1000) * (channels as nat)
}

pub open spec fn clamp_to(x: nat, len: nat) -> nat {
    if x <= len {
        x
    } else {
        len
    }
}

/// What one render period of `n` slots writes.
pub open spec fn rendered<T>(samples: Seq<T>, cursor: nat, playing: bool, n: nat, silence: T) -> Seq<
    T,
> {
    Seq::new(
        n,
        |i: int|
            if playing && cursor + i < samples.len() {
                samples[cursor + i]
            } else {
                silence
            },
    )
}

/// Cursor after one render period of `n` slots.
pub open spec fn cursor_after(len: nat, cursor: nat, playing: bool, n: nat) -> nat {
    if playing {
        clamp_to(cursor + n, len)
    } else {
        cursor
    }
}

/// Start index of playback `ms` milliseconds into a file of `len` samples.
pub fn start_position(ms: u32, rate: u32, channels: u8, len: usize) -> (r: usize)
    ensures
        r == clamp_to(frame_index(ms, rate, channels), len as nat),
{
    assert(ms as u64 * rate as u64 + 500 <= u64::MAX) by (nonlinear_arith)
        requires
            ms <= u32::MAX,
            rate <= u32::MAX,
    ;
    let frame = (ms as u64 * rate as u64 + 500) / 1000;
    assert(frame as u128 * channels as u128 <= u128::MAX) by (nonlinear_arith)
        requires
            frame <= u64::MAX,
            channels <= u8::MAX,
    ;
    let target = frame as u128 * channels as u128;
    if target <= len as u128 {
        target as usize
    } else {
        len
    }
}

impl<T: Copy> PlaybackBuffer<T> {
    pub closed spec fn samples(&self) -> Seq<T> {
        self.samples@
    }

    pub closed spec fn cursor(&self) -> nat {
        self.cursor as nat
    }

    pub closed spec fn playing(&self) -> bool {
        self.playing
    }

    /// The cursor never passes the end of the samples.
    pub closed spec fn wf(&self) -> bool {
        self.cursor <= self.samples@.len()
    }

    /// An empty buffer, cursor at 0, not playing.
    pub fn new() -> (r: PlaybackBuffer<T>)
        ensures
            r.wf(),
            r.samples() == Seq::<T>::empty(),
            r.cursor() == 0,
            !r.playing(),
    {
        PlaybackBuffer { samples: Vec::new(), cursor: 0, playing: false }
    }

    pub fn len(&self) -> (r: usize)
        ensures
            r == self.samples().len(),
    {
        self.samples.len()
    }

    pub fn position(&self) -> (r: usize)
        ensures
            r == self.cursor(),
    {
        self.cursor
    }

    pub fn is_playing(&self) -> (r: bool)
        ensures
            r == self.playing(),
    {
        self.playing
    }

    /// Fills `out` for one device period: the samples under the cursor while playing,
    /// silence when stopped or past the end. The cursor advances by what was read.
    pub fn render(&mut self, out: &mut [T], silence: T)
        requires
            old(self).wf(),
        ensures
            final(self).wf(),
            final(out)@ == rendered(
                old(self).samples(),
                old(self).cursor(),
                old(self).playing(),
                old(out)@.len(),
                silence,
            ),
            final(self).cursor() == cursor_after(
                old(self).samples().len(),
                old(self).cursor(),
                old(self).playing(),
                old(out)@.len(),
            ),
            final(self).samples() == old(self).samples(),
            final(self).playing() == old(self).playing(),
    {
        let ghost c0 = self.cursor as nat;
        let ghost n = out@.len();
        let mut i: usize = 0;
        while i < out.len()
            invariant
                self.wf(),
                self.samples@ == old(self).samples@,
                self.playing == old(self).playing,
                c0 == old(self).cursor,
                n == old(out)@.len(),
                out@.len() == n,
                i <= n,
                self.cursor == cursor_after(self.samples@.len(), c0, self.playing, i as nat),
                forall|k: int|
                    0 <= k < i ==> out@[k] == #[trigger] rendered(
                        self.samples@,
                        c0,
                        self.playing,
                        n,
                        silence,
                    )[k],
            decreases n - i,
        {
            if self.playing && self.cursor < self.samples.len() {
                out[i] = self.samples[self.cursor];
                self.cursor = self.cursor + 1;
            } else {
                out[i] = silence;
            }
            i = i + 1;
        }
        assert(out@ =~= rendered(self.samples@, c0, self.playing, n, silence));
    }
}

/// Stops audible output; the samples and the cursor stay, so playback can resume.
pub fn stop_audio<T: Copy>(reg: &mut StatusRegister, buffer: &mut PlaybackBuffer<T>)
    requires
        old(buffer).wf(),
    ensures
        final(buffer).wf(),
        !final(buffer).playing(),
        final(buffer).samples() == old(buffer).samples(),
        final(buffer).cursor() == old(buffer).cursor(),
        final(reg).status == ProcessStatus::Success,
        final(reg).command == CommandType::NoCommand,
{
    set_status(reg, ProcessStatus::InProgress, CommandType::Stop);
    buffer.playing = false;
    set_status(reg, ProcessStatus::Success, CommandType::NoCommand);
}

/// Installs a decoded file and starts playing `milliseconds_position` into it; the start
/// index is clamped to the end of the samples. Without a file nothing changes but the
/// status, which reports the error.
pub fn play_audio<T: Copy>(
    reg: &mut StatusRegister,
    buffer: &mut PlaybackBuffer<T>,
    file: Option<WavFileData<T>>,
    milliseconds_position: u32,
)
    requires
        old(buffer).wf(),
    ensures
        final(buffer).wf(),
        match file {
            Some(d) => {
                &&& final(buffer).samples() == d.samples@
                &&& final(buffer).cursor() == clamp_to(
                    frame_index(milliseconds_position, d.sample_rate, d.channel_count),
                    d.samples@.len(),
                )
                &&& final(buffer).playing()
                &&& final(reg).status == ProcessStatus::Success
            },
            None => {
                &&& final(buffer).samples() == old(buffer).samples()
                &&& final(buffer).cursor() == old(buffer).cursor()
                &&& final(buffer).playing() == old(buffer).playing()
                &&& final(reg).status == ProcessStatus::Error
            },
        },
        final(reg).command == CommandType::NoCommand,
{
    set_status(reg, ProcessStatus::InProgress, CommandType::Play);
    match file {
        Some(d) => {
            let start = start_position(
                milliseconds_position,
                d.sample_rate,
                d.channel_count,
                d.samples.len(),
            );
            buffer.samples = d.samples;
            buffer.cursor = start;
            buffer.playing = true;
            set_status(reg, ProcessStatus::Success, CommandType::NoCommand);
        },
        None => {
            set_status(reg, ProcessStatus::Error, CommandType::NoCommand);
        },
    }
}

/// Tears playback down: not playing, no samples, cursor at 0.
pub fn de_init<T: Copy>(reg: &mut StatusRegister, buffer: &mut PlaybackBuffer<T>)
    requires
        old(buffer).wf(),
    ensures
        final(buffer).wf(),
        !final(buffer).playing(),
        final(buffer).samples() == Seq::<T>::empty(),
        final(buffer).cursor() == 0,
        final(reg).status == ProcessStatus::Success,
        final(reg).command == CommandType::NoCommand,
{
    set_status(reg, ProcessStatus::InProgress, CommandType::DeInit);
    buffer.playing = false;
    buffer.samples.clear();
    buffer.cursor = 0;
    set_status(reg, ProcessStatus::Success, CommandType::NoCommand);
}

/// Playing a file from offset 0 and rendering one period of `n` slots gives the file's
/// first samples in order, then silence once the file is used up.
pub proof fn law_play_from_start<T>(samples: Seq<T>, rate: u32, channels: u8, n: nat, silence: T)
    ensures
        clamp_to(frame_index(0, rate, channels), samples.len()) == 0,
        forall|i: int|
            0 <= i < n ==> #[trigger] rendered(samples, 0, true, n, silence)[i] == if i
                < samples.len() {
                samples[i]
            } else {
                silence
            },
{
}

/// Playing from an offset at or past the end puts the cursor at the end, and a render
/// period then gives only silence.
pub proof fn law_play_past_end<T>(
    samples: Seq<T>,
    ms: u32,
    rate: u32,
    channels: u8,
    n: nat,
    silence: T,
)
    requires
        frame_index(ms, rate, channels) >= samples.len(),
    ensures
        clamp_to(frame_index(ms, rate, channels), samples.len()) == samples.len(),
        rendered(samples, samples.len(), true, n, silence) == Seq::new(n, |i: int| silence),
{
    assert(rendered(samples, samples.len(), true, n, silence) =~= Seq::new(n, |i: int| silence));
}

/// While stopped, a render period gives only silence and leaves the cursor where it was.
pub proof fn law_stopped_renders_silence<T>(
    samples: Seq<T>,
    cursor: nat,
    n: nat,
    silence: T,
)
    ensures
        rendered(samples, cursor, false, n, silence) == Seq::new(n, |i: int| silence),
        cursor_after(samples.len(), cursor, false, n) == cursor,
{
    assert(rendered(samples, cursor, false, n, silence) =~= Seq::new(n, |i: int| silence));
}

} // verus!
