//! The note script: rows of notes such as `A4_500_1.0_Sine>C4_500_0,5_Square`.
use vstd::prelude::*;

use crate::notes::{note_pitch, pitch_of};
use crate::numbers::{is_float_chars, is_float_text, parse_u32, parse_u32_chars};
use crate::text::{
    chars_of, lemma_split_nonempty, remove_char, remove_chars, replace_char, replace_chars, split,
    split_chars, trim, trim_chars, upper, upper_chars,
};

verus! {

/// Shape of the wave that a note plays.
#[derive(Clone, Copy, Debug, PartialEq, Eq, Structural)]
pub enum Waveform {
    Sine,
    Square,
    Triangle,
    Sawtooth,
    WhiteNoise,
    PinkNoise,
    Silence,
}

/// One parsed note. The gain is kept as its decimal text (comma already turned into a
/// point), in a form that `f32::from_str` accepts.
#[derive(Clone, Debug)]
pub struct NoteEvent {
    pub waveform: Waveform,
    /// Pitch in hundredths of a hertz.
    pub frequency: u32,
    pub duration_ms: u32,
    pub gain: Vec<char>,
}

pub ghost struct NoteSpec {
    pub waveform: Waveform,
    pub frequency: u32,
    pub duration_ms: u32,
    pub gain: Seq<char>,
}

impl View for NoteEvent {
    type V = NoteSpec;

    open spec fn view(&self) -> NoteSpec {
        NoteSpec {
            waveform: self.waveform,
            frequency: self.frequency,
            duration_ms: self.duration_ms,
            gain: self.gain@,
        }
    }
}

pub open spec fn notes_view(v: Seq<NoteEvent>) -> Seq<NoteSpec> {
    v.map_values(|n: NoteEvent| n@)
}

/// Waveform named exactly by `s`.
pub open spec fn waveform_named(s: Seq<char>) -> Option<Waveform> {
    if s == seq!['T', 'r', 'i', 'a', 'n', 'g', 'l', 'e'] {
        Some(Waveform::Triangle)
    } else if s == seq!['S', 'i', 'n', 'e'] {
        Some(Waveform::Sine)
    } else if s == seq!['S', 'q', 'u', 'a', 'r', 'e'] {
        Some(Waveform::Square)
    } else if s == seq!['S', 'a', 'w', 't', 'o', 'o', 't', 'h'] {
        Some(Waveform::Sawtooth)
    } else if s == seq!['W', 'h', 'i', 't', 'e', 'N', 'o', 'i', 's', 'e'] {
        Some(Waveform::WhiteNoise)
    } else if s == seq!['P', 'i', 'n', 'k', 'N', 'o', 'i', 's', 'e'] {
        Some(Waveform::PinkNoise)
    } else if s == seq!['S', 'i', 'l', 'e', 'n', 'c', 'e'] {
        Some(Waveform::Silence)
    } else {
        None
    }
}

/// A note segment `name_duration_gain_waveform`: fields split at `_` and trimmed, the
/// name upper-cased, commas of the gain read as points, spaces of the waveform dropped.
/// Fields after the fourth are ignored.
pub open spec fn parse_note(seg: Seq<char>) -> Option<NoteSpec> {
    let f = split(seg, '_');
    if f.len() < 4 {
        None
    } else {
        let pitch = note_pitch(upper(trim(f[0])));
        let dur = parse_u32(trim(f[1]));
        let gain = replace_char(trim(f[2]), ',', '.');
        let wave = waveform_named(remove_char(trim(f[3]), ' '));
        if pitch is Some && dur is Some && is_float_text(gain) && wave is Some {
            Some(
                NoteSpec {
                    waveform: wave->0,
                    frequency: pitch->0,
                    duration_ms: dur->0,
                    gain: gain,
                },
            )
        } else {
            None
        }
    }
}

/// Notes of the segments in order, skipping blank ones; `None` if any segment fails.
pub open spec fn parse_segments(segs: Seq<Seq<char>>) -> Option<Seq<NoteSpec>>
    decreases segs.len(),
{
    if segs.len() == 0 {
        Some(Seq::empty())
    } else {
        match parse_segments(segs.drop_last()) {
            None => None,
            Some(prev) => if trim(segs.last()).len() == 0 {
                Some(prev)
            } else {
                match parse_note(segs.last()) {
                    None => None,
                    Some(n) => Some(prev.push(n)),
                }
            },
        }
    }
}

/// Notes of a row: its segments are separated by `>`.
pub open spec fn parse_row_spec(row: Seq<char>) -> Option<Seq<NoteSpec>> {
    parse_segments(split(row, '>'))
}

fn same_chars(a: &Vec<char>, b: &Vec<char>) -> (r: bool)
    ensures
        r == (a@ == b@),
{
    if a.len() != b.len() {
        return false;
    }
    let mut i: usize = 0;
    while i < a.len()
        invariant
            a@.len() == b@.len(),
            i <= a@.len(),
            forall|k: int| 0 <= k < i ==> a@[k] == b@[k],
        decreases a@.len() - i,
    {
        if a[i] != b[i] {
            return false;
        }
        i = i + 1;
    }
    assert(a@ =~= b@);
    true
}

/// Waveform named exactly by `s`.
pub fn waveform_of(s: &Vec<char>) -> (r: Option<Waveform>)
    ensures
        r == waveform_named(s@),
{
    if same_chars(s, &vec!['T', 'r', 'i', 'a', 'n', 'g', 'l', 'e']) {
        Some(Waveform::Triangle)
    } else if same_chars(s, &vec!['S', 'i', 'n', 'e']) {
        Some(Waveform::Sine)
    } else if same_chars(s, &vec!['S', 'q', 'u', 'a', 'r', 'e']) {
        Some(Waveform::Square)
    } else if same_chars(s, &vec!['S', 'a', 'w', 't', 'o', 'o', 't', 'h']) {
        Some(Waveform::Sawtooth)
    } else if same_chars(s, &vec!['W', 'h', 'i', 't', 'e', 'N', 'o', 'i', 's', 'e']) {
        Some(Waveform::WhiteNoise)
    } else if same_chars(s, &vec!['P', 'i', 'n', 'k', 'N', 'o', 'i', 's', 'e']) {
        Some(Waveform::PinkNoise)
    } else if same_chars(s, &vec!['S', 'i', 'l', 'e', 'n', 'c', 'e']) {
        Some(Waveform::Silence)
    } else {
        None
    }
}

/// Parses one note segment.
pub fn parse_note_chars(seg: &Vec<char>) -> (r: Option<NoteEvent>)
    ensures
        match r {
            Some(n) => parse_note(seg@) == Some(n@),
            None => parse_note(seg@) is None,
        },
{
    let f = split_chars(seg, '_');
    if f.len() < 4 {
        return None;
    }
    let name = upper_chars(&trim_chars(&f[0]));
    let pitch = pitch_of(&name);
    let dur = parse_u32_chars(&trim_chars(&f[1]));
    let gain = replace_chars(&trim_chars(&f[2]), ',', '.');
    let gain_ok = is_float_chars(&gain);
    let wave = waveform_of(&remove_chars(&trim_chars(&f[3]), ' '));
    match (pitch, dur, wave) {
        (Some(p), Some(d), Some(w)) => if gain_ok {
            Some(NoteEvent { waveform: w, frequency: p, duration_ms: d, gain: gain })
        } else {
            None
        },
        _ => None,
    }
}

/// Parses one row of a note script into its notes, in order. Blank segments are
/// skipped; any malformed segment fails the whole row.
pub fn parse_row(row: &str) -> (r: Option<Vec<NoteEvent>>)
    ensures
        match r {
            Some(v) => parse_row_spec(row@) == Some(notes_view(v@)),
            None => parse_row_spec(row@) is None,
        },
{
    let chars = chars_of(row);
    let segs = split_chars(&chars, '>');
    let ghost ss = split(row@, '>');
    let mut out: Vec<NoteEvent> = Vec::new();
    let mut i: usize = 0;
    while i < segs.len()
        invariant
            i <= segs@.len(),
            ss == split(row@, '>'),
            segs@.len() == ss.len(),
            forall|k: int| 0 <= k < segs@.len() ==> #[trigger] segs@[k]@ == ss[k],
            parse_segments(ss.take(i as int)) == Some(notes_view(out@)),
        decreases segs@.len() - i,
    {
        let seg = &segs[i];
        assert(ss.take(i + 1).drop_last() == ss.take(i as int));
        assert(ss.take(i + 1).last() == seg@);
        let t = trim_chars(seg);
        if t.len() != 0 {
            match parse_note_chars(seg) {
                Some(n) => {
                    out.push(n);
                    assert(notes_view(out@) == notes_view(out@.drop_last()).push(n@));
                },
                None => {
                    proof {
                        lemma_parse_segments_fails(ss, i as int);
                    }

                    return None;
                },
            }
        }
        i = i + 1;
    }
    assert(ss.take(ss.len() as int) == ss);
    Some(out)
}

/// Once a prefix of the segments fails, the whole list fails.
proof fn lemma_parse_segments_fails(segs: Seq<Seq<char>>, i: int)
    requires
        0 <= i < segs.len(),
        parse_segments(segs.take(i + 1)) is None,
    ensures
        parse_segments(segs) is None,
    decreases segs.len() - i,
{
    if i + 1 < segs.len() {
        assert(segs.take(i + 2).drop_last() == segs.take(i + 1));
        lemma_parse_segments_fails(segs, i + 1);
    } else {
        assert(segs.take(i + 1) == segs);
    }
}

} // verus!
