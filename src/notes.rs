//! Note names and their pitches.
use vstd::prelude::*;

use crate::text::chars_of;

verus! {

/// Number of entries of the pitch table: twelve pitch classes over octaves 0 to 8.
pub const NOTE_COUNT: usize = 108;

/// Pitch of table entry `i` (octave `i / 12`, pitch class `i % 12` counted from C),
/// in hundredths of a hertz.
pub open spec fn pitch_table(i: usize) -> u32 {
    match i {
        0 => 1635, 1 => 1732, 2 => 1835, 3 => 1945, 4 => 2060, 5 => 2183,
        6 => 2312, 7 => 2450, 8 => 2596, 9 => 2750, 10 => 2914, 11 => 3087,
        12 => 3270, 13 => 3465, 14 => 3671, 15 => 3889, 16 => 4120, 17 => 4365,
        18 => 4625, 19 => 4900, 20 => 5191, 21 => 5500, 22 => 5827, 23 => 6174,
        24 => 6541, 25 => 6930, 26 => 7342, 27 => 7778, 28 => 8241, 29 => 8731,
        30 => 9250, 31 => 9800, 32 => 10383, 33 => 11000, 34 => 11654, 35 => 12347,
        36 => 13081, 37 => 13859, 38 => 14683, 39 => 15556, 40 => 16481, 41 => 17461,
        42 => 18500, 43 => 19600, 44 => 20765, 45 => 22000, 46 => 23308, 47 => 24694,
        48 => 26163, 49 => 27718, 50 => 29366, 51 => 31113, 52 => 32963, 53 => 34923,
        54 => 36999, 55 => 39200, 56 => 41530, 57 => 44000, 58 => 46616, 59 => 49388,
        60 => 52325, 61 => 55437, 62 => 58733, 63 => 62225, 64 => 65926, 65 => 69846,
        66 => 73999, 67 => 78399, 68 => 83061, 69 => 88000, 70 => 93233, 71 => 98777,
        72 => 104650, 73 => 110873, 74 => 117466, 75 => 124451, 76 => 131851, 77 => 139691,
        78 => 147998, 79 => 156798, 80 => 166122, 81 => 176000, 82 => 186466, 83 => 197553,
        84 => 209300, 85 => 221746, 86 => 234932, 87 => 248902, 88 => 263702, 89 => 279383,
        90 => 295996, 91 => 313596, 92 => 332244, 93 => 352000, 94 => 372931, 95 => 395107,
        96 => 418601, 97 => 443492, 98 => 469864, 99 => 497803, 100 => 527404, 101 => 558765,
        102 => 591991, 103 => 627193, 104 => 664488, 105 => 704000, 106 => 745862, 107 => 790213,
        _ => 0,
    }
}

/// Semitones above C of a natural note letter.
pub open spec fn letter_semitone(c: char) -> Option<int> {
    if c == 'C' {
        Some(0)
    } else if c == 'D' {
        Some(2)
    } else if c == 'E' {
        Some(4)
    } else if c == 'F' {
        Some(5)
    } else if c == 'G' {
        Some(7)
    } else if c == 'A' {
        Some(9)
    } else if c == 'B' {
        Some(11)
    } else {
        None
    }
}

/// Letters that take a sharp in the table (E and B do not).
pub open spec fn takes_sharp(c: char) -> bool {
    c == 'C' || c == 'D' || c == 'F' || c == 'G' || c == 'A'
}

pub open spec fn octave_digit(c: char) -> bool {
    '0' <= c && c <= '8'
}

/// Table entry named by a note name such as `A4` or `C#4`; names are case-sensitive
/// and only sharps are spelled.
pub open spec fn note_index(name: Seq<char>) -> Option<int> {
    if name.len() == 2 && letter_semitone(name[0]) is Some && octave_digit(name[1]) {
        Some(((name[1] as u32) - 48) * 12 + letter_semitone(name[0])->0)
    } else if name.len() == 3 && letter_semitone(name[0]) is Some && takes_sharp(name[0])
        && name[1] == '#' && octave_digit(name[2]) {
        Some(((name[2] as u32) - 48) * 12 + letter_semitone(name[0])->0 + 1)
    } else {
        None
    }
}

/// Pitch of a note name in hundredths of a hertz, `None` when the table lacks it.
pub open spec fn note_pitch(name: Seq<char>) -> Option<u32> {
    match note_index(name) {
        Some(i) => Some(pitch_table(i as usize)),
        None => None,
    }
}

fn table_entry(i: usize) -> (r: u32)
    requires
        i < NOTE_COUNT,
    ensures
        r == pitch_table(i),
{
    match i {
        0 => 1635u32, 1 => 1732u32, 2 => 1835u32, 3 => 1945u32, 4 => 2060u32, 5 => 2183u32,
        6 => 2312u32, 7 => 2450u32, 8 => 2596u32, 9 => 2750u32, 10 => 2914u32, 11 => 3087u32,
        12 => 3270u32, 13 => 3465u32, 14 => 3671u32, 15 => 3889u32, 16 => 4120u32, 17 => 4365u32,
        18 => 4625u32, 19 => 4900u32, 20 => 5191u32, 21 => 5500u32, 22 => 5827u32, 23 => 6174u32,
        24 => 6541u32, 25 => 6930u32, 26 => 7342u32, 27 => 7778u32, 28 => 8241u32, 29 => 8731u32,
        30 => 9250u32, 31 => 9800u32, 32 => 10383u32, 33 => 11000u32, 34 => 11654u32, 35 => 12347u32,
        36 => 13081u32, 37 => 13859u32, 38 => 14683u32, 39 => 15556u32, 40 => 16481u32, 41 => 17461u32,
        42 => 18500u32, 43 => 19600u32, 44 => 20765u32, 45 => 22000u32, 46 => 23308u32, 47 => 24694u32,
        48 => 26163u32, 49 => 27718u32, 50 => 29366u32, 51 => 31113u32, 52 => 32963u32, 53 => 34923u32,
        54 => 36999u32, 55 => 39200u32, 56 => 41530u32, 57 => 44000u32, 58 => 46616u32, 59 => 49388u32,
        60 => 52325u32, 61 => 55437u32, 62 => 58733u32, 63 => 62225u32, 64 => 65926u32, 65 => 69846u32,
        66 => 73999u32, 67 => 78399u32, 68 => 83061u32, 69 => 88000u32, 70 => 93233u32, 71 => 98777u32,
        72 => 104650u32, 73 => 110873u32, 74 => 117466u32, 75 => 124451u32, 76 => 131851u32, 77 => 139691u32,
        78 => 147998u32, 79 => 156798u32, 80 => 166122u32, 81 => 176000u32, 82 => 186466u32, 83 => 197553u32,
        84 => 209300u32, 85 => 221746u32, 86 => 234932u32, 87 => 248902u32, 88 => 263702u32, 89 => 279383u32,
        90 => 295996u32, 91 => 313596u32, 92 => 332244u32, 93 => 352000u32, 94 => 372931u32, 95 => 395107u32,
        96 => 418601u32, 97 => 443492u32, 98 => 469864u32, 99 => 497803u32, 100 => 527404u32, 101 => 558765u32,
        102 => 591991u32, 103 => 627193u32, 104 => 664488u32, 105 => 704000u32, 106 => 745862u32, 107 => 790213u32,
        _ => 0,
    }
}

fn semitone_of(c: char) -> (r: Option<usize>)
    ensures
        r is Some <==> letter_semitone(c) is Some,
        r is Some ==> r->0 == letter_semitone(c)->0,
{
    if c == 'C' {
        Some(0)
    } else if c == 'D' {
        Some(2)
    } else if c == 'E' {
        Some(4)
    } else if c == 'F' {
        Some(5)
    } else if c == 'G' {
        Some(7)
    } else if c == 'A' {
        Some(9)
    } else if c == 'B' {
        Some(11)
    } else {
        None
    }
}

/// Pitch of the note name held in `name`, in hundredths of a hertz.
pub fn pitch_of(name: &Vec<char>) -> (r: Option<u32>)
    ensures
        r == note_pitch(name@),
{
    let n = name.len();
    if n != 2 && n != 3 {
        return None;
    }
    let semi = match semitone_of(name[0]) {
        Some(v) => v,
        None => return None,
    };
    let oct_char = name[n - 1];
    if !('0' <= oct_char && oct_char <= '8') {
        return None;
    }
    let octave = (oct_char as u32 - 48) as usize;
    if n == 2 {
        Some(table_entry(octave * 12 + semi))
    } else {
        let c = name[0];
        if name[1] == '#' && (c == 'C' || c == 'D' || c == 'F' || c == 'G' || c == 'A') {
            Some(table_entry(octave * 12 + semi + 1))
        } else {
            None
        }
    }
}

/// Pitch of a note name (`A4` is 44000, that is 440.00 Hz), in hundredths of a hertz;
/// `None` for a name outside the table.
pub fn note_to_frequency(note: &str) -> (r: Option<u32>)
    ensures
        r == note_pitch(note@),
{
    let name = chars_of(note);
    pitch_of(&name)
}

} // verus!
