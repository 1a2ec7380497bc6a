//! Small helpers: shortening a string to a byte budget, and integer scaling.

use vstd::prelude::*;
use vstd::string::*;
use vstd::utf8::*;

verus! {

/// The character that stands for what was cut off.
pub open spec fn elision_mark() -> char {
    '\u{2026}'
}

/// The number of bytes that `c` takes in UTF-8.
pub open spec fn utf8_width(c: char) -> int {
    encode_scalar(c as u32).len() as int
}

/// The number of leading characters of `s` that stay when `s` is cut to fit
/// `limit` bytes: as many as end before byte `limit`, the first of them only
/// if it ends there too.
pub open spec fn kept_chars(s: Seq<char>, limit: int) -> nat
    decreases s.len(),
{
    if s.len() == 0 || utf8_width(s[0]) >= limit {
        0
    } else {
        1 + kept_chars(s.drop_first(), limit - utf8_width(s[0]))
    }
}

/// `s` shortened to a budget of `len` bytes: unchanged if its UTF-8 encoding
/// has at most `len` bytes, else its kept characters followed by the elision
/// mark.
pub open spec fn elided(s: Seq<char>, len: int) -> Seq<char> {
    if encode_utf8(s).len() <= len {
        s
    } else {
        s.take(kept_chars(s, len) as int).push(elision_mark())
    }
}

/// Shortening in place to a byte budget.
pub trait Elipsis {
    fn elipsis(&mut self, len: usize);
}

/// The encoding of a sequence is the encoding of a prefix followed by the
/// encoding of the rest.
proof fn lemma_encode_splits(s: Seq<char>, k: int)
    requires
        0 <= k <= s.len(),
    ensures
        encode_utf8(s) == encode_utf8(s.take(k)) + encode_utf8(s.skip(k)),
    decreases k,
{
    if k == 0 {
        assert(s.take(0) =~= Seq::<char>::empty());
        assert(s.skip(0) =~= s);
        assert(encode_utf8(s.take(0)) =~= Seq::<u8>::empty());
        assert(encode_utf8(s) =~= encode_utf8(s.take(0)) + encode_utf8(s.skip(0)));
    } else {
        let rest = s.drop_first();
        lemma_encode_splits(rest, k - 1);
        assert(rest.take(k - 1) =~= s.take(k).drop_first());
        assert(rest.skip(k - 1) =~= s.skip(k));
        assert(s.take(k)[0] == s[0]);
        assert(encode_utf8(s) =~= encode_utf8(s.take(k)) + encode_utf8(s.skip(k)));
    }
}

/// The last character boundary before byte `limit` (or the start, if there is
/// none) closes exactly the kept characters.
proof fn lemma_boundary_closes_kept(s: Seq<char>, limit: int, b: int)
    requires
        0 <= b <= encode_utf8(s).len(),
        b == 0 || b < limit,
        is_char_boundary(encode_utf8(s), b),
        forall|j: int| b < j < limit ==> !is_char_boundary(encode_utf8(s), j),
    ensures
        kept_chars(s, limit) <= s.len(),
        b == encode_utf8(s.take(kept_chars(s, limit) as int)).len(),
    decreases s.len(),
{
    broadcast use encode_utf8_valid_utf8;

    let bytes = encode_utf8(s);
    if s.len() == 0 {
        assert(s.take(0) =~= s);
    } else {
        let rest = s.drop_first();
        let w = utf8_width(s[0]);
        encode_utf8_first_scalar(s);
        assert(pop_first_scalar(bytes) =~= encode_utf8(rest));
        assert(1 <= w <= bytes.len());
        if w < limit {
            assert(is_char_boundary(encode_utf8(rest), 0));
            assert(is_char_boundary(bytes, w));
            assert(b >= w);
            assert forall|j: int| b - w < j < limit - w implies !is_char_boundary(
                encode_utf8(rest),
                j,
            ) by {
                assert(!is_char_boundary(bytes, j + w));
            }
            lemma_boundary_closes_kept(rest, limit - w, b - w);
            let k = kept_chars(s, limit) as int;
            assert(rest.take(k - 1) =~= s.take(k).drop_first());
            assert(s.take(k)[0] == s[0]);
        } else {
            assert(b == 0) by {
                reveal_with_fuel(is_char_boundary, 2);
            }
            assert(s.take(0) =~= Seq::<char>::empty());
        }
    }
}

impl Elipsis for String {
    /// Cuts the string to a budget of `len` bytes. A string that fits stays as
    /// it is. A longer one keeps the characters that end before byte `len`
    /// and gets the elision mark in place of the rest.
    fn elipsis(&mut self, len: usize)
        ensures
            final(self)@ == elided(old(self)@, len as int),
    {
        broadcast use encode_utf8_valid_utf8, encode_utf8_decode_utf8;

        let ghost chars = self@;
        let ghost bytes = encode_utf8(chars);
        if self.as_str().as_bytes().len() > len {
            let mut i: usize = len;
            while i > 0 && !self.as_str().is_char_boundary(i - 1)
                invariant
                    i <= len,
                    self@ == chars,
                    bytes == encode_utf8(chars),
                    forall|j: int| i <= j < len ==> !is_char_boundary(bytes, j),
                decreases i,
            {
                i -= 1;
            }
            let boundary: usize = if i > 0 {
                i - 1
            } else {
                0
            };
            proof {
                assert(is_char_boundary(bytes, 0));
                lemma_boundary_closes_kept(chars, len as int, boundary as int);
                lemma_encode_splits(chars, kept_chars(chars, len as int) as int);
            }
            let (head, _) = self.as_str().split_at(boundary);
            let mut out = String::from_str(head);
            proof {
                let kept = chars.take(kept_chars(chars, len as int) as int);
                assert(encode_utf8(head@) =~= encode_utf8(kept));
                assert(decode_utf8(encode_utf8(head@)) == head@);
                assert(decode_utf8(encode_utf8(kept)) == kept);
                reveal_strlit("\u{2026}");
                assert("\u{2026}"@ =~= seq![elision_mark()]);
            }
            out.append("\u{2026}");
            *self = out;
            assert(self@ =~= elided(chars, len as int));
        }
    }
}

/// The character of the decimal digit `d`.
pub open spec fn digit(d: int) -> char {
    if d == 0 {
        '0'
    } else if d == 1 {
        '1'
    } else if d == 2 {
        '2'
    } else if d == 3 {
        '3'
    } else if d == 4 {
        '4'
    } else if d == 5 {
        '5'
    } else if d == 6 {
        '6'
    } else if d == 7 {
        '7'
    } else if d == 8 {
        '8'
    } else {
        '9'
    }
}

/// `n` written in decimal, without leading zeros.
pub open spec fn decimal(n: nat) -> Seq<char>
    decreases n,
{
    if n < 10 {
        seq![digit(n as int)]
    } else {
        decimal(n / 10).push(digit((n % 10) as int))
    }
}

/// The text of the decimal digit `d`.
fn digit_text(d: usize) -> (text: &'static str)
    requires
        d < 10,
    ensures
        text@ == seq![digit(d as int)],
{
    proof {
        reveal_strlit("0");
        reveal_strlit("1");
        reveal_strlit("2");
        reveal_strlit("3");
        reveal_strlit("4");
        reveal_strlit("5");
        reveal_strlit("6");
        reveal_strlit("7");
        reveal_strlit("8");
        reveal_strlit("9");
    }
    let text = match d {
        0 => "0",
        1 => "1",
        2 => "2",
        3 => "3",
        4 => "4",
        5 => "5",
        6 => "6",
        7 => "7",
        8 => "8",
        _ => "9",
    };
    assert(text@ =~= seq![digit(d as int)]);
    text
}

/// Writes `n` in decimal at the end of `text`.
pub fn append_decimal(text: &mut String, n: usize)
    ensures
        final(text)@ == old(text)@ + decimal(n as nat),
    decreases n,
{
    if n >= 10 {
        append_decimal(text, n / 10);
    }
    text.append(digit_text(n % 10));
    assert(text@ =~= old(text)@ + decimal(n as nat));
}

/// The highest MIDI note number that has a name here.
pub const HIGHEST_NAMED_NOTE: usize = 150;

/// The name of pitch class `class` of the twelve-tone scale, counted from C.
pub open spec fn pitch_class_name(class: int) -> Seq<char> {
    if class == 0 {
        "C"@
    } else if class == 1 {
        "C#"@
    } else if class == 2 {
        "D"@
    } else if class == 3 {
        "D#"@
    } else if class == 4 {
        "E"@
    } else if class == 5 {
        "F"@
    } else if class == 6 {
        "F#"@
    } else if class == 7 {
        "G"@
    } else if class == 8 {
        "G#"@
    } else if class == 9 {
        "A"@
    } else if class == 10 {
        "A#"@
    } else {
        "B"@
    }
}

/// The octave number of MIDI note `n` as text: note 60 is in octave 4, and
/// the notes below 12 are in octave -1.
pub open spec fn octave_text(n: nat) -> Seq<char> {
    if n < 12 {
        "-1"@
    } else {
        decimal((n / 12 - 1) as nat)
    }
}

/// The name of MIDI note `n`: its pitch class and its octave, or nothing for
/// a note above the highest named one.
pub open spec fn note_name(n: nat) -> Seq<char> {
    if n > HIGHEST_NAMED_NOTE {
        Seq::empty()
    } else {
        pitch_class_name((n % 12) as int) + octave_text(n)
    }
}

/// The name of pitch class `class`.
fn pitch_class_text(class: usize) -> (text: &'static str)
    requires
        class < 12,
    ensures
        text@ == pitch_class_name(class as int),
{
    match class {
        0 => "C",
        1 => "C#",
        2 => "D",
        3 => "D#",
        4 => "E",
        5 => "F",
        6 => "F#",
        7 => "G",
        8 => "G#",
        9 => "A",
        10 => "A#",
        _ => "B",
    }
}

/// Names a MIDI note for display, such as `A4` for note 69.
pub fn midi_note_number_to_str(n: usize) -> (name: String)
    ensures
        name@ == note_name(n as nat),
{
    if n > HIGHEST_NAMED_NOTE {
        return String::new();
    }
    let mut name = String::from_str(pitch_class_text(n % 12));
    if n < 12 {
        name.append("-1");
    } else {
        append_decimal(&mut name, n / 12 - 1);
    }
    name
}

} // verus!
