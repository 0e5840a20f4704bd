//! Twister: maps detected frequencies onto equal-temperament notes and
//! chords. The integer side lives here: chord structures and note naming.

use vstd::prelude::*;
use crate::text::{append_decimal_i64, decimal};

verus! {

/// Harmonic chord structures expressed as semitone offsets from the root.
#[derive(Debug, Clone, Copy, PartialEq, Eq, Structural)]
pub enum ChordMode {
    /// Root + major 3rd (+4) + perfect 5th (+7)
    Major,
    /// Root + minor 3rd (+3) + perfect 5th (+7)
    Minor,
    /// Root only — pure tone
    Unison,
}

impl ChordMode {
    /// Semitone offsets of the three voices from the root.
    pub fn semitone_offsets(self) -> (r: [i32; 3])
        ensures
            self == ChordMode::Major ==> r@ == seq![0i32, 4, 7],
            self == ChordMode::Minor ==> r@ == seq![0i32, 3, 7],
            self == ChordMode::Unison ==> r@ == seq![0i32, 0, 0],
    {
        let r = match self {
            ChordMode::Major => [0, 4, 7],
            ChordMode::Minor => [0, 3, 7],
            ChordMode::Unison => [0, 0, 0],
        };
        assert(self == ChordMode::Major ==> r@ =~= seq![0i32, 4, 7]);
        assert(self == ChordMode::Minor ==> r@ =~= seq![0i32, 3, 7]);
        assert(self == ChordMode::Unison ==> r@ =~= seq![0i32, 0, 0]);
        r
    }
}

/// Name of the pitch class `s` (0 = C … 11 = B), sharps for black keys.
pub open spec fn pitch_class_name(s: int) -> Seq<char> {
    if s == 0 { seq!['C'] }
    else if s == 1 { seq!['C', '#'] }
    else if s == 2 { seq!['D'] }
    else if s == 3 { seq!['D', '#'] }
    else if s == 4 { seq!['E'] }
    else if s == 5 { seq!['F'] }
    else if s == 6 { seq!['F', '#'] }
    else if s == 7 { seq!['G'] }
    else if s == 8 { seq!['G', '#'] }
    else if s == 9 { seq!['A'] }
    else if s == 10 { seq!['A', '#'] }
    else { seq!['B'] }
}

/// Display name of a MIDI note: pitch class followed by the octave, where
/// MIDI 60 is C4 and A4 is MIDI 69. Defined for every integer.
pub open spec fn note_name(midi: int) -> Seq<char> {
    pitch_class_name(midi % 12) + decimal(midi / 12 - 1)
}

/// The literal spelling of pitch class `s`.
fn pitch_class_str(s: i64) -> (r: &'static str)
    requires
        0 <= s < 12,
    ensures
        r@ == pitch_class_name(s as int),
{
    proof {
        reveal_strlit("C");
        reveal_strlit("C#");
        reveal_strlit("D");
        reveal_strlit("D#");
        reveal_strlit("E");
        reveal_strlit("F");
        reveal_strlit("F#");
        reveal_strlit("G");
        reveal_strlit("G#");
        reveal_strlit("A");
        reveal_strlit("A#");
        reveal_strlit("B");
    }
    let r = if s == 0 { "C" }
        else if s == 1 { "C#" }
        else if s == 2 { "D" }
        else if s == 3 { "D#" }
        else if s == 4 { "E" }
        else if s == 5 { "F" }
        else if s == 6 { "F#" }
        else if s == 7 { "G" }
        else if s == 8 { "G#" }
        else if s == 9 { "A" }
        else if s == 10 { "A#" }
        else { "B" };
    assert(r@ =~= pitch_class_name(s as int));
    r
}

/// Return a display name for a MIDI note number, e.g. "A4", "C#5".
/// Works for any integer, including numbers > 127 or < 0.
pub fn midi_note_name(midi: i32) -> (r: String)
    ensures
        r@ == note_name(midi as int),
{
    let m = midi as i64;
    // floor division by 12, for negative numbers too
    let q: i64 = if m >= 0 { m / 12 } else { -((-m + 11) / 12) };
    let semitone: i64 = m - 12 * q;
    assert(q == m as int / 12 && semitone == m as int % 12) by (nonlinear_arith)
        requires
            q == if m >= 0 { m as int / 12 } else { -((-m + 11) / 12) },
            semitone == m - 12 * q,
            -2147483648 <= m < 2147483648,
    {
        if m >= 0 {
        } else {
            vstd::arithmetic::div_mod::lemma_fundamental_div_mod(m as int, 12);
            vstd::arithmetic::div_mod::lemma_fundamental_div_mod(-m + 11, 12);
        }
    }
    let octave = q - 1;
    let mut name = String::new();
    name.append(pitch_class_str(semitone));
    append_decimal_i64(&mut name, octave);
    assert(name@ =~= note_name(midi as int));
    name
}

/// The twelve pitch classes from C upward are named C, C#, D, D#, E, F,
/// F#, G, G#, A, A#, B: every name is different, sharps mark the black
/// keys, and the natural notes run C D E F G A B in alphabetical order
/// from C.
pub proof fn law_pitch_class_names()
    ensures
        pitch_class_name(0) == seq!['C'],
        pitch_class_name(1) == seq!['C', '#'],
        pitch_class_name(2) == seq!['D'],
        pitch_class_name(3) == seq!['D', '#'],
        pitch_class_name(4) == seq!['E'],
        pitch_class_name(5) == seq!['F'],
        pitch_class_name(6) == seq!['F', '#'],
        pitch_class_name(7) == seq!['G'],
        pitch_class_name(8) == seq!['G', '#'],
        pitch_class_name(9) == seq!['A'],
        pitch_class_name(10) == seq!['A', '#'],
        pitch_class_name(11) == seq!['B'],
        forall|a: int, b: int| 0 <= a < b < 12 ==> #[trigger] pitch_class_name(a) != #[trigger] pitch_class_name(b),
        forall|a: int|
            0 <= a < 12 ==> (#[trigger] pitch_class_name(a).len() == 2 <==> (a == 1 || a == 3 || a == 6 || a == 8
                || a == 10)),
{
    assert forall|a: int, b: int| 0 <= a < b < 12 implies #[trigger] pitch_class_name(a) != #[trigger] pitch_class_name(b) by {
        if pitch_class_name(a) == pitch_class_name(b) {
            assert(pitch_class_name(a).len() == pitch_class_name(b).len());
            assert(pitch_class_name(a)[0] == pitch_class_name(b)[0]);
        }
    }
}

/// A note name is its pitch class (MIDI number modulo 12, with C at 0)
/// followed by its octave, counted so that middle C (MIDI 60) is C4: the
/// note a major third above middle C is E4, concert A (MIDI 69) is A4, and
/// twelve semitones up keeps the pitch class and raises the octave by one.
pub proof fn law_note_names(midi: int)
    ensures
        note_name(60) == seq!['C', '4'],
        note_name(64) == seq!['E', '4'],
        note_name(69) == seq!['A', '4'],
        note_name(midi + 12) == pitch_class_name(midi % 12) + decimal(midi / 12),
{
    reveal_with_fuel(crate::text::decimal_digits, 2);
    assert((midi + 12) % 12 == midi % 12);
    assert((midi + 12) / 12 - 1 == midi / 12);
    assert(decimal(4) == seq!['4']);
}

} // verus!
