//! The synthesis engine: its settings, command status, and the parsing of a request.
use vstd::prelude::*;

use crate::script::{notes_view, parse_row, parse_row_spec, NoteEvent};
pub use crate::status::ProcessStatus;
use crate::status::status_code;

verus! {

/// Commands of the synthesis engine, as reported to callers that poll.
#[derive(Clone, Copy, Debug, PartialEq, Eq, Structural)]
pub enum CommandType {
    NoCommand,
    SynthesizeAudio,
    Set8BitStatus,
    GetSampleRate,
    SetSampleRate,
}

pub open spec fn command_code(c: CommandType) -> i32 {
    match c {
        CommandType::NoCommand => 0,
        CommandType::SynthesizeAudio => 1,
        CommandType::Set8BitStatus => 2,
        CommandType::GetSampleRate => 3,
        CommandType::SetSampleRate => 4,
    }
}

impl CommandType {
    /// Code of the command across the foreign boundary.
    pub fn code(&self) -> (r: i32)
        ensures
            r == command_code(*self),
    {
        match self {
            CommandType::NoCommand => 0,
            CommandType::SynthesizeAudio => 1,
            CommandType::Set8BitStatus => 2,
            CommandType::GetSampleRate => 3,
            CommandType::SetSampleRate => 4,
        }
    }
}

/// The single slot that tells pollers which command runs and how it went.
#[derive(Clone, Copy, Debug, PartialEq, Eq, Structural)]
pub struct StatusRegister {
    pub status: ProcessStatus,
    pub command: CommandType,
}

impl StatusRegister {
    /// A register that reports success of no command.
    pub fn new() -> (r: StatusRegister)
        ensures
            r.status == ProcessStatus::Success,
            r.command == CommandType::NoCommand,
    {
        StatusRegister { status: ProcessStatus::Success, command: CommandType::NoCommand }
    }
}

/// Overwrites the register; the last write wins.
pub fn set_status(reg: &mut StatusRegister, status: ProcessStatus, current_command: CommandType)
    ensures
        final(reg).status == status,
        final(reg).command == current_command,
{
    reg.status = status;
    reg.command = current_command;
}

/// Code of the current phase: success 0, in progress 1, error -1.
pub fn get_process_status(reg: &StatusRegister) -> (r: i32)
    ensures
        r == status_code(reg.status),
{
    reg.status.code()
}

/// Code of the command in flight.
pub fn get_current_command(reg: &StatusRegister) -> (r: i32)
    ensures
        r == command_code(reg.command),
{
    reg.command.code()
}

/// Sample rate and output depth that synthesis uses.
#[derive(Clone, Copy, Debug, PartialEq, Eq, Structural)]
pub struct SynthSettings {
    pub sample_rate: u32,
    pub is_8_bit: bool,
}

/// Sample rate before any is set.
pub const DEFAULT_SAMPLE_RATE: u32 = 44100;

impl SynthSettings {
    /// 44100 samples per second, 16-bit output.
    pub fn new() -> (r: SynthSettings)
        ensures
            r.sample_rate == DEFAULT_SAMPLE_RATE,
            !r.is_8_bit,
    {
        SynthSettings { sample_rate: DEFAULT_SAMPLE_RATE, is_8_bit: false }
    }
}

/// Chooses 8-bit output when `new_status` is 1, 16-bit otherwise.
pub fn set_8_bit_status(reg: &mut StatusRegister, settings: &mut SynthSettings, new_status: u8)
    ensures
        final(settings).is_8_bit == (new_status == 1),
        final(settings).sample_rate == old(settings).sample_rate,
        final(reg).status == ProcessStatus::Success,
        final(reg).command == CommandType::NoCommand,
{
    set_status(reg, ProcessStatus::InProgress, CommandType::Set8BitStatus);
    settings.is_8_bit = new_status == 1;
    set_status(reg, ProcessStatus::Success, CommandType::NoCommand);
}

/// Sets the sample rate of every later synthesis.
pub fn set_sample_rate(reg: &mut StatusRegister, settings: &mut SynthSettings, new_sample_rate: u32)
    ensures
        final(settings).sample_rate == new_sample_rate,
        final(settings).is_8_bit == old(settings).is_8_bit,
        final(reg).status == ProcessStatus::Success,
        final(reg).command == CommandType::NoCommand,
{
    set_status(reg, ProcessStatus::InProgress, CommandType::SetSampleRate);
    settings.sample_rate = new_sample_rate;
    set_status(reg, ProcessStatus::Success, CommandType::NoCommand);
}

pub fn get_sample_rate(settings: &SynthSettings) -> (r: u32)
    ensures
        r == settings.sample_rate,
{
    settings.sample_rate
}

/// Every row of a channel parses.
pub open spec fn rows_parse(rows: Seq<String>) -> bool {
    forall|k: int| 0 <= k < rows.len() ==> (#[trigger] parse_row_spec(rows[k]@)) is Some
}

/// `parsed` holds the notes of each row, row for row.
pub open spec fn rows_parsed_as(rows: Seq<String>, parsed: Seq<Vec<NoteEvent>>) -> bool {
    &&& parsed.len() == rows.len()
    &&& forall|k: int|
        0 <= k < rows.len() ==> parse_row_spec(rows[k]@) == Some(
            notes_view(#[trigger] parsed[k]@),
        )
}

/// A request is taken when it has a channel, every channel has a row, and every row
/// parses.
pub open spec fn request_accepted(request: Seq<Vec<String>>) -> bool {
    &&& request.len() > 0
    &&& forall|c: int|
        0 <= c < request.len() ==> #[trigger] request[c]@.len() > 0 && rows_parse(request[c]@)
}

/// Parses the rows of one channel; `None` as soon as one row fails.
pub fn parse_channel(rows: &Vec<String>) -> (r: Option<Vec<Vec<NoteEvent>>>)
    ensures
        r is Some <==> rows_parse(rows@),
        r is Some ==> rows_parsed_as(rows@, r->0@),
{
    let mut out: Vec<Vec<NoteEvent>> = Vec::new();
    let mut k: usize = 0;
    while k < rows.len()
        invariant
            k <= rows@.len(),
            rows_parsed_as(rows@.take(k as int), out@),
        decreases rows@.len() - k,
    {
        match parse_row(rows[k].as_str()) {
            Some(v) => {
                out.push(v);
            },
            None => {
                return None;
            },
        }
        k = k + 1;
    }
    assert(rows@.take(rows@.len() as int) == rows@);
    assert forall|j: int| 0 <= j < rows@.len() implies (#[trigger] parse_row_spec(
        rows@[j]@,
    )) is Some by {
        assert(parse_row_spec(rows@[j]@) == Some(notes_view(out@[j]@)));
    }
    Some(out)
}

/// Takes a synthesis request: a list of channels, each a list of note rows. The status
/// shows the request in progress when it is taken (rendering and writing follow), and
/// an error when a channel is missing, a channel has no row, or a row does not parse;
/// nothing is produced then.
pub fn synthesize_audio(reg: &mut StatusRegister, request: &Vec<Vec<String>>) -> (r: Option<
    Vec<Vec<Vec<NoteEvent>>>,
>)
    ensures
        r is Some <==> request_accepted(request@),
        r is Some ==> r->0@.len() == request@.len() && forall|c: int|
            0 <= c < request@.len() ==> rows_parsed_as(request@[c]@, #[trigger] r->0@[c]@),
        r is Some ==> final(reg).status == ProcessStatus::InProgress && final(reg).command
            == CommandType::SynthesizeAudio,
        r is None ==> final(reg).status == ProcessStatus::Error && final(reg).command
            == CommandType::NoCommand,
{
    set_status(reg, ProcessStatus::InProgress, CommandType::SynthesizeAudio);
    if request.len() == 0 {
        set_status(reg, ProcessStatus::Error, CommandType::NoCommand);
        return None;
    }
    let mut out: Vec<Vec<Vec<NoteEvent>>> = Vec::new();
    let mut c: usize = 0;
    while c < request.len()
        invariant
            c <= request@.len(),
            request@.len() > 0,
            reg.status == ProcessStatus::InProgress,
            reg.command == CommandType::SynthesizeAudio,
            out@.len() == c,
            forall|j: int|
                0 <= j < c ==> #[trigger] request@[j]@.len() > 0 && rows_parse(request@[j]@),
            forall|j: int| 0 <= j < c ==> rows_parsed_as(request@[j]@, #[trigger] out@[j]@),
        decreases request@.len() - c,
    {
        if request[c].len() == 0 {
            set_status(reg, ProcessStatus::Error, CommandType::NoCommand);
            return None;
        }
        match parse_channel(&request[c]) {
            Some(ch) => {
                out.push(ch);
            },
            None => {
                set_status(reg, ProcessStatus::Error, CommandType::NoCommand);
                return None;
            },
        }
        c = c + 1;
    }
    Some(out)
}

/// One row that does not parse refuses the whole request, whatever the other rows hold.
pub proof fn law_bad_row_refuses_request(request: Seq<Vec<String>>, c: int, k: int)
    requires
        0 <= c < request.len(),
        0 <= k < request[c]@.len(),
        parse_row_spec(request[c]@[k]@) is None,
    ensures
        !request_accepted(request),
{
    if request_accepted(request) {
        assert(request[c]@.len() > 0 && rows_parse(request[c]@));
    }
}

/// Closes a synthesis request once its output was written, or failed to be.
pub fn finish_synthesis(reg: &mut StatusRegister, written: bool)
    ensures
        final(reg).status == (if written {
            ProcessStatus::Success
        } else {
            ProcessStatus::Error
        }),
        final(reg).command == CommandType::NoCommand,
{
    set_status(
        reg,
        if written {
            ProcessStatus::Success
        } else {
            ProcessStatus::Error
        },
        CommandType::NoCommand,
    );
}

/// Layout of the file that synthesis writes: mono integer PCM.
#[derive(Clone, Copy, Debug, PartialEq, Eq, Structural)]
pub struct OutputFormat {
    pub channels: u16,
    pub sample_rate: u32,
    pub bits_per_sample: u16,
}

/// Mono at the configured rate, 8 or 16 bits per sample as configured.
pub fn output_format(settings: &SynthSettings) -> (r: OutputFormat)
    ensures
        r.channels == 1,
        r.sample_rate == settings.sample_rate,
        r.bits_per_sample == (if settings.is_8_bit {
            8u16
        } else {
            16u16
        }),
{
    OutputFormat {
        channels: 1,
        sample_rate: settings.sample_rate,
        bits_per_sample: if settings.is_8_bit {
            8
        } else {
            16
        },
    }
}

} // verus!
