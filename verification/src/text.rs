//! Zero-padded decimal and hexadecimal numbers, and the lines of the
//! diagnostics overlay built from them.

use vstd::prelude::*;
use crate::paint::{Ink, TextWrite};
use crate::skyline::Area;

verus! {

/// Calls `String::push`: the character is appended.
#[verifier::external_body]
fn push_char(s: &mut String, c: char)
    ensures
        final(s)@ == old(s)@.push(c),
{
    s.push(c)
}

/// The digit for `d` (below 16): `0`-`9`, then `A`-`F`.
pub open spec fn digit_char(d: int) -> char {
    if d < 10 {
        ('0' as int + d) as char
    } else {
        ('A' as int + d - 10) as char
    }
}

/// The digits of `n` in base `base`, most significant first, without
/// leading zeros (`0` is the single digit `0`).
pub open spec fn digits(n: nat, base: nat) -> Seq<char>
    decreases n,
{
    if base < 2 || n < base {
        seq![digit_char(n as int)]
    } else {
        proof {
            assert(n / base < n) by (nonlinear_arith)
                requires
                    base >= 2,
                    n >= base,
            ;
        }
        digits(n / base, base).push(digit_char((n % base) as int))
    }
}

/// `s` padded on the left with `0` to at least `width` characters.
pub open spec fn zero_pad(s: Seq<char>, width: int) -> Seq<char> {
    if s.len() >= width {
        s
    } else {
        Seq::new((width - s.len()) as nat, |i: int| '0') + s
    }
}

fn digit(d: u64) -> (c: char)
    requires
        d < 16,
    ensures
        c == digit_char(d as int),
{
    match d {
        0 => '0',
        1 => '1',
        2 => '2',
        3 => '3',
        4 => '4',
        5 => '5',
        6 => '6',
        7 => '7',
        8 => '8',
        9 => '9',
        10 => 'A',
        11 => 'B',
        12 => 'C',
        13 => 'D',
        14 => 'E',
        _ => 'F',
    }
}

proof fn lemma_digits_step(n: nat, base: nat)
    requires
        2 <= base,
        n >= base,
    ensures
        digits(n, base) == digits(n / base, base).push(digit_char((n % base) as int)),
{
}

/// `n` written in base `base` (10 or 16, upper-case letters), padded with
/// zeros to at least `width` characters.
pub fn padded_number(n: u64, base: u64, width: usize) -> (text: String)
    requires
        base == 10 || base == 16,
    ensures
        text@ == zero_pad(digits(n as nat, base as nat), width as int),
{
    // Collect the digits least significant first.
    let mut rev: Vec<char> = Vec::new();
    let mut m: u64 = n;
    let ghost mut tail: Seq<char> = seq![];
    loop
        invariant_except_break
            digits(n as nat, base as nat) == digits(m as nat, base as nat) + tail,
        invariant
            base == 10 || base == 16,
            rev@.len() == tail.len(),
            forall|i: int| 0 <= i < tail.len() ==> #[trigger] rev@[i] == tail[tail.len() - 1 - i],
        ensures
            digits(n as nat, base as nat) == tail,
        decreases m,
    {
        if m < base {
            let c = digit(m);
            proof {
                let t2 = seq![c] + tail;
                assert forall|i: int| 0 <= i < t2.len() implies #[trigger] rev@.push(c)[i] == t2[t2.len() - 1 - i] by {
                    if i < tail.len() {
                        assert(t2[t2.len() - 1 - i] == tail[tail.len() - 1 - i]);
                    }
                }
                assert(digits(n as nat, base as nat) == t2);
                tail = t2;
            }
            rev.push(c);
            break;
        }
        let c = digit(m % base);
        proof {
            lemma_digits_step(m as nat, base as nat);
            let t2 = seq![c] + tail;
            assert(digits(m as nat, base as nat) + tail =~= digits((m / base) as nat, base as nat) + t2);
            assert forall|i: int| 0 <= i < t2.len() implies #[trigger] rev@.push(c)[i] == t2[t2.len() - 1 - i] by {
                if i < tail.len() {
                    assert(t2[t2.len() - 1 - i] == tail[tail.len() - 1 - i]);
                }
            }
            tail = t2;
        }
        rev.push(c);
        m = m / base;
    }
    assert(digits(n as nat, base as nat) == tail);
    let mut text = String::new();
    let len = rev.len();
    if len < width {
        let pad = width - len;
        let mut k: usize = 0;
        while k < pad
            invariant
                k <= pad,
                text@ =~= Seq::new(k as nat, |i: int| '0'),
            decreases pad - k,
        {
            push_char(&mut text, '0');
            k = k + 1;
        }
    }
    let ghost prefix = text@;
    let mut j: usize = len;
    while j > 0
        invariant
            j <= len,
            len == rev@.len(),
            len == tail.len(),
            forall|i: int| 0 <= i < tail.len() ==> #[trigger] rev@[i] == tail[tail.len() - 1 - i],
            text@ =~= prefix + tail.subrange(0, (len - j) as int),
        decreases j,
    {
        j = j - 1;
        push_char(&mut text, rev[j]);
        proof {
            assert(tail.subrange(0, (len - j) as int) =~= tail.subrange(0, (len - j - 1) as int).push(
                tail[(len - j - 1) as int],
            ));
        }
    }
    proof {
        assert(tail.subrange(0, len as int) =~= tail);
        if len >= width {
            assert(prefix =~= seq![]);
        }
    }
    text
}

/// The lines of the diagnostics overlay that hold numbers.
pub struct DiagnosticsText {
    pub frame_line: String,
    pub cooldown_line: String,
    pub seed_line: String,
    pub vehicles_line: String,
}

/// The frame counter (eight decimal digits), the chase cool-down (four),
/// the window seed (sixteen hexadecimal digits) and the vehicle count
/// (three), each after its label.
pub fn diagnostics_text(frame: u64, cooldown: u32, seed: u64, vehicles: usize) -> (d: DiagnosticsText)
    requires
        vehicles <= u64::MAX,
    ensures
        d.frame_line@ == "FRM:  "@ + zero_pad(digits(frame as nat, 10), 8),
        d.cooldown_line@ == "CSH:  "@ + zero_pad(digits(cooldown as nat, 10), 4),
        d.seed_line@ == "SEED: "@ + zero_pad(digits(seed as nat, 16), 16),
        d.vehicles_line@ == "VHC:  "@ + zero_pad(digits(vehicles as nat, 10), 3),
{
    let f = padded_number(frame, 10, 8);
    let c = padded_number(cooldown as u64, 10, 4);
    let s = padded_number(seed, 16, 16);
    let v = padded_number(vehicles as u64, 10, 3);
    DiagnosticsText {
        frame_line: String::from_str("FRM:  ").concat(f.as_str()),
        cooldown_line: String::from_str("CSH:  ").concat(c.as_str()),
        seed_line: String::from_str("SEED: ").concat(s.as_str()),
        vehicles_line: String::from_str("VHC:  ").concat(v.as_str()),
    }
}

/// The green of the diagnostics overlay's frame lines.
pub open spec fn diagnostics_green() -> Ink {
    Ink::Rgb { r: 85, g: 255, b: 85 }
}

/// The texts of the diagnostics overlay from top to bottom: a header, the
/// frame, the weather's name, the chase cool-down, the window seed, the
/// vehicle count and a closing rule.
pub open spec fn overlay_texts(
    frame: int,
    cooldown: int,
    seed: int,
    weather: Seq<char>,
    vehicles: int,
) -> Seq<Seq<char>> {
    seq![
        "--- DIAGNOSTICS ---"@,
        "FRM:  "@ + zero_pad(digits(frame as nat, 10), 8),
        "WTR:  "@ + weather,
        "CSH:  "@ + zero_pad(digits(cooldown as nat, 10), 4),
        "SEED: "@ + zero_pad(digits(seed as nat, 16), 16),
        "VHC:  "@ + zero_pad(digits(vehicles as nat, 10), 3),
        "-------------------"@,
    ]
}

/// The diagnostics overlay of `area`: seven lines from two columns and two
/// rows inside its top-left corner, one per row, the header and the rule
/// in green and the readings in white.  `weather` is the weather's name.
pub fn diagnostics_overlay(
    area: Area,
    frame: u64,
    cooldown: u32,
    seed: u64,
    weather: &str,
    vehicles: usize,
) -> (lines: Vec<TextWrite>)
    requires
        area.x + 2 <= u16::MAX,
        area.y + 8 <= u16::MAX,
        vehicles <= u64::MAX,
    ensures
        lines@.len() == 7,
        forall|k: int|
            0 <= k < 7 ==> {
                &&& #[trigger] lines@[k].col == area.x + 2
                &&& lines@[k].row == area.y + 2 + k
                &&& lines@[k].text@ == overlay_texts(
                    frame as int,
                    cooldown as int,
                    seed as int,
                    weather@,
                    vehicles as int,
                )[k]
                &&& lines@[k].fg == (if k == 0 || k == 6 { diagnostics_green() } else { Ink::White })
            },
{
    let dx = area.x + 2;
    let dy = area.y + 2;
    let d = diagnostics_text(frame, cooldown, seed, vehicles);
    let green = Ink::Rgb { r: 85, g: 255, b: 85 };
    let mut lines: Vec<TextWrite> = Vec::new();
    lines.push(TextWrite { col: dx, row: dy, text: String::from_str("--- DIAGNOSTICS ---"), fg: green });
    lines.push(TextWrite { col: dx, row: dy + 1, text: d.frame_line, fg: Ink::White });
    lines.push(TextWrite { col: dx, row: dy + 2, text: String::from_str("WTR:  ").concat(weather), fg: Ink::White });
    lines.push(TextWrite { col: dx, row: dy + 3, text: d.cooldown_line, fg: Ink::White });
    lines.push(TextWrite { col: dx, row: dy + 4, text: d.seed_line, fg: Ink::White });
    lines.push(TextWrite { col: dx, row: dy + 5, text: d.vehicles_line, fg: Ink::White });
    lines.push(TextWrite { col: dx, row: dy + 6, text: String::from_str("-------------------"), fg: green });
    proof {
        let t = overlay_texts(frame as int, cooldown as int, seed as int, weather@, vehicles as int);
        assert(lines@[0].text@ == t[0]);
        assert(lines@[1].text@ == t[1]);
        assert(lines@[2].text@ == t[2]);
        assert(lines@[3].text@ == t[3]);
        assert(lines@[4].text@ == t[4]);
        assert(lines@[5].text@ == t[5]);
        assert(lines@[6].text@ == t[6]);
    }
    lines
}

} // verus!
