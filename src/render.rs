//! Sample counts and the assembly of a row's notes into one channel.
use vstd::prelude::*;

use crate::script::{parse_row, parse_row_spec, notes_view, NoteEvent, NoteSpec};

verus! {

/// Samples that a note of `ms` milliseconds takes at `rate` samples per second,
/// rounded toward zero.
pub open spec fn samples_for(ms: u32, rate: u32) -> nat {
    ((ms as nat) * (rate as nat)) / 1000
}

/// Samples that the notes of a row take together.
pub open spec fn row_samples(notes: Seq<NoteSpec>, rate: u32) -> nat
    decreases notes.len(),
{
    if notes.len() == 0 {
        0
    } else {
        row_samples(notes.drop_last(), rate) + samples_for(notes.last().duration_ms, rate)
    }
}

/// The waves one after the other.
pub open spec fn concat_waves<T>(ws: Seq<Vec<T>>) -> Seq<T>
    decreases ws.len(),
{
    if ws.len() == 0 {
        Seq::empty()
    } else {
        concat_waves(ws.drop_last()) + ws.last()@
    }
}

/// Samples of a note of `milliseconds` at `sample_rate`.
pub fn sample_count(milliseconds: u32, sample_rate: u32) -> (r: u64)
    ensures
        r == samples_for(milliseconds, sample_rate),
{
    assert(milliseconds as u64 * sample_rate as u64 <= u64::MAX) by (nonlinear_arith)
        requires
            milliseconds <= u32::MAX,
            sample_rate <= u32::MAX,
    ;
    let p = milliseconds as u64 * sample_rate as u64;
    p / 1000
}

/// Renders a row: the wave of each note, made by `wave` from the note and its sample
/// count, one after the other with no overlap.
pub fn render_row<T, F: Fn(&NoteEvent, u64) -> Vec<T>>(
    notes: &Vec<NoteEvent>,
    sample_rate: u32,
    wave: &F,
) -> (r: Vec<T>)
    requires
        forall|n: &NoteEvent, len: u64| #[trigger] wave.requires((n, len)),
        forall|n: &NoteEvent, len: u64, w: Vec<T>| #[trigger]
            wave.ensures((n, len), w) ==> w@.len() == len,
    ensures
        r@.len() == row_samples(notes_view(notes@), sample_rate),
        exists|ws: Seq<Vec<T>>|
            {
                &&& ws.len() == notes@.len()
                &&& forall|k: int|
                    0 <= k < ws.len() ==> wave.ensures(
                        (&notes@[k], samples_for(notes@[k].duration_ms, sample_rate) as u64),
                        #[trigger] ws[k],
                    )
                &&& r@ == concat_waves(ws)
            },
{
    let mut out: Vec<T> = Vec::new();
    let ghost mut ws: Seq<Vec<T>> = Seq::empty();
    let mut i: usize = 0;
    while i < notes.len()
        invariant
            i <= notes@.len(),
            ws.len() == i,
            forall|n: &NoteEvent, len: u64| #[trigger] wave.requires((n, len)),
            forall|n: &NoteEvent, len: u64, w: Vec<T>| #[trigger]
                wave.ensures((n, len), w) ==> w@.len() == len,
            forall|k: int|
                0 <= k < ws.len() ==> wave.ensures(
                    (&notes@[k], samples_for(notes@[k].duration_ms, sample_rate) as u64),
                    #[trigger] ws[k],
                ),
            out@ == concat_waves(ws),
            out@.len() == row_samples(notes_view(notes@.take(i as int)), sample_rate),
        decreases notes@.len() - i,
    {
        let n = &notes[i];
        let len = sample_count(n.duration_ms, sample_rate);
        let mut w = wave(n, len);
        let ghost old_ws = ws;
        proof {
            ws = ws.push(w);
            assert(ws.drop_last() == old_ws);
            assert(notes_view(notes@.take(i + 1)).drop_last() =~= notes_view(notes@.take(i as int)));
        }
        let ghost wv = w@;
        let ghost before = out@;
        out.append(&mut w);
        assert(out@ == before + wv);
        i = i + 1;
    }
    assert(notes@.take(notes@.len() as int) == notes@);
    out
}

/// Parses a row and renders its notes; `None` when the row does not parse.
pub fn render_script_row<T, F: Fn(&NoteEvent, u64) -> Vec<T>>(
    row: &str,
    sample_rate: u32,
    wave: &F,
) -> (r: Option<Vec<T>>)
    requires
        forall|n: &NoteEvent, len: u64| #[trigger] wave.requires((n, len)),
        forall|n: &NoteEvent, len: u64, w: Vec<T>| #[trigger]
            wave.ensures((n, len), w) ==> w@.len() == len,
    ensures
        r is Some <==> parse_row_spec(row@) is Some,
        r is Some ==> r->0@.len() == row_samples(parse_row_spec(row@)->0, sample_rate),
{
    match parse_row(row) {
        Some(notes) => Some(render_row(&notes, sample_rate, wave)),
        None => None,
    }
}

} // verus!
