//! Grammars of the numeric fields of a note: an unsigned duration and a decimal gain.
use vstd::prelude::*;

verus! {

pub open spec fn is_digit(c: char) -> bool {
    '0' <= c && c <= '9'
}

pub open spec fn all_digits(s: Seq<char>) -> bool {
    forall|i: int| 0 <= i < s.len() ==> is_digit(#[trigger] s[i])
}

/// Value of a string of decimal digits.
pub open spec fn digits_value(s: Seq<char>) -> nat
    decreases s.len(),
{
    if s.len() == 0 {
        0
    } else {
        digits_value(s.drop_last()) * 10 + ((s.last() as u32) - 48) as nat
    }
}

/// What `u32::from_str` accepts: an optional `+`, then one or more digits whose value fits.
pub open spec fn parse_u32(s: Seq<char>) -> Option<u32> {
    let d = if s.len() > 0 && s[0] == '+' {
        s.drop_first()
    } else {
        s
    };
    if d.len() > 0 && all_digits(d) && digits_value(d) <= u32::MAX {
        Some(digits_value(d) as u32)
    } else {
        None
    }
}

/// States of a reader of the decimal form of a float.
#[derive(Clone, Copy, Debug, PartialEq, Eq, Structural)]
pub enum FloatState {
    Start,
    Signed,
    Int,
    IntDot,
    LeadDot,
    Frac,
    ExpStart,
    ExpSign,
    Exp,
    Reject,
}

pub open spec fn is_sign(c: char) -> bool {
    c == '+' || c == '-'
}

pub open spec fn is_exp_mark(c: char) -> bool {
    c == 'e' || c == 'E'
}

/// One step of the reader on the character `c`.
pub open spec fn float_step(st: FloatState, c: char) -> FloatState {
    match st {
        FloatState::Start => if is_sign(c) {
            FloatState::Signed
        } else if is_digit(c) {
            FloatState::Int
        } else if c == '.' {
            FloatState::LeadDot
        } else {
            FloatState::Reject
        },
        FloatState::Signed => if is_digit(c) {
            FloatState::Int
        } else if c == '.' {
            FloatState::LeadDot
        } else {
            FloatState::Reject
        },
        FloatState::Int => if is_digit(c) {
            FloatState::Int
        } else if c == '.' {
            FloatState::IntDot
        } else if is_exp_mark(c) {
            FloatState::ExpStart
        } else {
            FloatState::Reject
        },
        FloatState::IntDot | FloatState::Frac => if is_digit(c) {
            FloatState::Frac
        } else if is_exp_mark(c) {
            FloatState::ExpStart
        } else {
            FloatState::Reject
        },
        FloatState::LeadDot => if is_digit(c) {
            FloatState::Frac
        } else {
            FloatState::Reject
        },
        FloatState::ExpStart => if is_sign(c) {
            FloatState::ExpSign
        } else if is_digit(c) {
            FloatState::Exp
        } else {
            FloatState::Reject
        },
        FloatState::ExpSign | FloatState::Exp => if is_digit(c) {
            FloatState::Exp
        } else {
            FloatState::Reject
        },
        FloatState::Reject => FloatState::Reject,
    }
}

/// State of the reader after all of `s`.
pub open spec fn float_run(s: Seq<char>) -> FloatState
    decreases s.len(),
{
    if s.len() == 0 {
        FloatState::Start
    } else {
        float_step(float_run(s.drop_last()), s.last())
    }
}

/// `s` is `Sign? (Digit+ | Digit+ '.' Digit* | Digit* '.' Digit+) (('e'|'E') Sign? Digit+)?`.
pub open spec fn is_decimal_number(s: Seq<char>) -> bool {
    let st = float_run(s);
    st == FloatState::Int || st == FloatState::IntDot || st == FloatState::Frac || st
        == FloatState::Exp
}

pub open spec fn lower_char(c: char) -> char {
    if 'A' <= c && c <= 'Z' {
        ((c as u8) + 32) as char
    } else {
        c
    }
}

/// `s`, after an optional sign, is `inf`, `infinity` or `nan` in any case.
pub open spec fn is_special_float(s: Seq<char>) -> bool {
    let b = if s.len() > 0 && is_sign(s[0]) {
        s.drop_first()
    } else {
        s
    };
    let l = b.map_values(|c: char| lower_char(c));
    l == seq!['i', 'n', 'f'] || l == seq!['i', 'n', 'f', 'i', 'n', 'i', 't', 'y'] || l == seq![
        'n',
        'a',
        'n',
    ]
}

/// The text forms that `f32::from_str` accepts.
pub open spec fn is_float_text(s: Seq<char>) -> bool {
    is_decimal_number(s) || is_special_float(s)
}

/// Reads an unsigned 32-bit decimal, as `u32::from_str` does.
pub fn parse_u32_chars(s: &Vec<char>) -> (r: Option<u32>)
    ensures
        r == parse_u32(s@),
{
    let start: usize = if s.len() > 0 && s[0] == '+' {
        1
    } else {
        0
    };
    let ghost d = s@.subrange(start as int, s@.len() as int);
    assert(d == (if s@.len() > 0 && s@[0] == '+' {
        s@.drop_first()
    } else {
        s@
    }));
    if start == s.len() {
        return None;
    }
    let mut acc: u64 = 0;
    let mut over: bool = false;
    let mut i: usize = start;
    while i < s.len()
        invariant
            start <= i <= s@.len(),
            d == s@.subrange(start as int, s@.len() as int),
            d == (if s@.len() > 0 && s@[0] == '+' {
                s@.drop_first()
            } else {
                s@
            }),
            all_digits(s@.subrange(start as int, i as int)),
            !over ==> acc as nat == digits_value(s@.subrange(start as int, i as int)) && acc
                <= u32::MAX,
            over ==> digits_value(s@.subrange(start as int, i as int)) > u32::MAX,
        decreases s@.len() - i,
    {
        let c = s[i];
        if !('0' <= c && c <= '9') {
            assert(d[i - start] == c);
            assert(!all_digits(d));
            return None;
        }
        let ghost prev = s@.subrange(start as int, i as int);
        let ghost next = s@.subrange(start as int, i + 1);
        assert(next.drop_last() == prev);
        assert(next.last() == c);
        let dig = (c as u32 - 48) as u64;
        if !over {
            acc = acc * 10 + dig;
            if acc > 4294967295 {
                over = true;
            }
        } else {
            assert(digits_value(next) >= digits_value(prev));
        }
        i = i + 1;
    }
    if over {
        None
    } else {
        Some(acc as u32)
    }
}

fn float_step_exec(st: FloatState, c: char) -> (r: FloatState)
    ensures
        r == float_step(st, c),
{
    let digit = '0' <= c && c <= '9';
    let sign = c == '+' || c == '-';
    let exp = c == 'e' || c == 'E';
    match st {
        FloatState::Start => if sign {
            FloatState::Signed
        } else if digit {
            FloatState::Int
        } else if c == '.' {
            FloatState::LeadDot
        } else {
            FloatState::Reject
        },
        FloatState::Signed => if digit {
            FloatState::Int
        } else if c == '.' {
            FloatState::LeadDot
        } else {
            FloatState::Reject
        },
        FloatState::Int => if digit {
            FloatState::Int
        } else if c == '.' {
            FloatState::IntDot
        } else if exp {
            FloatState::ExpStart
        } else {
            FloatState::Reject
        },
        FloatState::IntDot | FloatState::Frac => if digit {
            FloatState::Frac
        } else if exp {
            FloatState::ExpStart
        } else {
            FloatState::Reject
        },
        FloatState::LeadDot => if digit {
            FloatState::Frac
        } else {
            FloatState::Reject
        },
        FloatState::ExpStart => if sign {
            FloatState::ExpSign
        } else if digit {
            FloatState::Exp
        } else {
            FloatState::Reject
        },
        FloatState::ExpSign | FloatState::Exp => if digit {
            FloatState::Exp
        } else {
            FloatState::Reject
        },
        FloatState::Reject => FloatState::Reject,
    }
}

fn lower_matches(s: &Vec<char>, from: usize, word: &Vec<char>) -> (r: bool)
    requires
        from <= s@.len(),
    ensures
        r == (s@.subrange(from as int, s@.len() as int).map_values(|c: char| lower_char(c))
            == word@),
{
    let ghost b = s@.subrange(from as int, s@.len() as int);
    let ghost l = b.map_values(|c: char| lower_char(c));
    if s.len() - from != word.len() {
        return false;
    }
    let mut i: usize = 0;
    while i < word.len()
        invariant
            from + word@.len() == s@.len(),
            s@.len() <= usize::MAX,
            i <= word@.len(),
            b == s@.subrange(from as int, s@.len() as int),
            l == b.map_values(|c: char| lower_char(c)),
            forall|k: int| 0 <= k < i ==> l[k] == word@[k],
        decreases word@.len() - i,
    {
        let c = s[from + i];
        let lc = if 'A' <= c && c <= 'Z' {
            ((c as u8) + 32) as char
        } else {
            c
        };
        assert(l[i as int] == lc);
        if lc != word[i] {
            return false;
        }
        i = i + 1;
    }
    assert(l =~= word@);
    true
}

/// Whether `s` is a float in one of the text forms that `f32::from_str` accepts.
pub fn is_float_chars(s: &Vec<char>) -> (r: bool)
    ensures
        r == is_float_text(s@),
{
    let mut st = FloatState::Start;
    let mut i: usize = 0;
    while i < s.len()
        invariant
            i <= s@.len(),
            st == float_run(s@.take(i as int)),
        decreases s@.len() - i,
    {
        assert(s@.take(i + 1).drop_last() == s@.take(i as int));
        st = float_step_exec(st, s[i]);
        i = i + 1;
    }
    assert(s@.take(s@.len() as int) == s@);
    if st == FloatState::Int || st == FloatState::IntDot || st == FloatState::Frac || st
        == FloatState::Exp {
        return true;
    }
    let from: usize = if s.len() > 0 && (s[0] == '+' || s[0] == '-') {
        1
    } else {
        0
    };
    assert(s@.subrange(from as int, s@.len() as int) == (if s@.len() > 0 && is_sign(s@[0]) {
        s@.drop_first()
    } else {
        s@
    }));
    let inf = vec!['i', 'n', 'f'];
    let infinity = vec!['i', 'n', 'f', 'i', 'n', 'i', 't', 'y'];
    let nan = vec!['n', 'a', 'n'];
    lower_matches(s, from, &inf) || lower_matches(s, from, &infinity) || lower_matches(
        s,
        from,
        &nan,
    )
}

} // verus!
