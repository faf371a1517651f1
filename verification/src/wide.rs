use vstd::prelude::*;
use vstd::std_specs::iter::IteratorSpec;

verus! {

/// The UTF-16 code units of one character: one unit for a character of the
/// Basic Multilingual Plane, a surrogate pair for any other.
pub open spec fn utf16_units(c: char) -> Seq<u16> {
    let v = c as u32;
    if v < 0x10000 {
        seq![v as u16]
    } else {
        let w = (v - 0x10000) as u32;
        seq![(0xD800 + w / 0x400) as u16, (0xDC00 + w % 0x400) as u16]
    }
}

/// The UTF-16 encoding of a character sequence, unit sequences concatenated in order.
pub open spec fn utf16_of(s: Seq<char>) -> Seq<u16>
    decreases s.len(),
{
    if s.len() == 0 {
        Seq::empty()
    } else {
        utf16_of(s.drop_last()) + utf16_units(s.last())
    }
}

/// The null-terminated wide string the Windows API expects for `s`.
pub open spec fn wide_string(s: Seq<char>) -> Seq<u16> {
    utf16_of(s).push(0u16)
}

/// Each character takes one or two UTF-16 units; a character of the Basic
/// Multilingual Plane takes one, equal to its code point.
pub proof fn lemma_utf16_units(c: char)
    ensures
        1 <= utf16_units(c).len() <= 2,
        (c as u32) < 0x10000 ==> utf16_units(c).len() == 1 && utf16_units(c)[0] as u32 == c as u32,
        (c as u32) != 0 ==> forall|j: int| 0 <= j < utf16_units(c).len() ==> #[trigger] utf16_units(c)[j] != 0,
{
}

/// The UTF-16 text of a sequence is between one and two units per character;
/// when no character is NUL, no unit is zero.
pub proof fn lemma_utf16_of_bounds(s: Seq<char>)
    ensures
        s.len() <= utf16_of(s).len() <= 2 * s.len(),
        (forall|i: int| 0 <= i < s.len() ==> (#[trigger] s[i] as u32) != 0) ==> forall|j: int|
            0 <= j < utf16_of(s).len() ==> #[trigger] utf16_of(s)[j] != 0,
    decreases s.len(),
{
    if s.len() > 0 {
        lemma_utf16_of_bounds(s.drop_last());
        lemma_utf16_units(s.last());
        if forall|i: int| 0 <= i < s.len() ==> (#[trigger] s[i] as u32) != 0 {
            assert(s.last() as u32 != 0) by {
                assert(s[s.len() - 1] as u32 != 0);
            }
            assert forall|i: int| 0 <= i < s.drop_last().len() implies (#[trigger] s.drop_last()[i] as u32) != 0 by {
                assert(s[i] as u32 != 0);
            }
            let a = utf16_of(s.drop_last());
            let b = utf16_units(s.last());
            assert forall|j: int| 0 <= j < utf16_of(s).len() implies #[trigger] utf16_of(s)[j] != 0 by {
                if j < a.len() {
                    assert(utf16_of(s)[j] == a[j]);
                } else {
                    assert(utf16_of(s)[j] == b[j - a.len()]);
                }
            }
        }
    }
}

/// A text of the Basic Multilingual Plane encodes to one UTF-16 unit per
/// character, each equal to the character's code point.
pub proof fn lemma_utf16_of_bmp(s: Seq<char>)
    requires
        forall|i: int| 0 <= i < s.len() ==> (#[trigger] s[i] as u32) < 0x10000,
    ensures
        utf16_of(s).len() == s.len(),
        forall|i: int| 0 <= i < s.len() ==> #[trigger] utf16_of(s)[i] as u32 == s[i] as u32,
    decreases s.len(),
{
    if s.len() > 0 {
        assert forall|i: int| 0 <= i < s.drop_last().len() implies (#[trigger] s.drop_last()[i] as u32) < 0x10000 by {
            assert((s[i] as u32) < 0x10000);
        }
        lemma_utf16_of_bmp(s.drop_last());
        assert((s[s.len() - 1] as u32) < 0x10000);
        lemma_utf16_units(s.last());
        assert forall|i: int| 0 <= i < s.len() implies #[trigger] utf16_of(s)[i] as u32 == s[i] as u32 by {
            if i < s.len() - 1 {
                assert(utf16_of(s)[i] == utf16_of(s.drop_last())[i]);
                assert(s.drop_last()[i] == s[i]);
            }
        }
    }
}

/// A wide string is null-terminated: its last unit is zero, and when the text
/// holds no NUL character that terminator is its only zero unit, so the
/// platform reads back exactly the text.
pub proof fn lemma_wide_string_terminated(s: Seq<char>)
    ensures
        wide_string(s).len() >= s.len() + 1,
        wide_string(s).last() == 0,
        (forall|i: int| 0 <= i < s.len() ==> (#[trigger] s[i] as u32) != 0) ==> forall|j: int|
            0 <= j < wide_string(s).len() - 1 ==> #[trigger] wide_string(s)[j] != 0,
{
    lemma_utf16_of_bounds(s);
    if forall|i: int| 0 <= i < s.len() ==> (#[trigger] s[i] as u32) != 0 {
        assert forall|j: int| 0 <= j < wide_string(s).len() - 1 implies #[trigger] wide_string(s)[j] != 0 by {
            assert(wide_string(s)[j] == utf16_of(s)[j]);
        }
    }
}

/// UTF-16 decoding: a high surrogate (0xD800..0xDBFF) followed by a low
/// surrogate (0xDC00..0xDFFF) is one supplementary character, ten bits from
/// each; any other unit is the character of that code point.
pub open spec fn utf16_decode(units: Seq<u16>) -> Seq<char>
    decreases units.len(),
{
    if units.len() == 0 {
        Seq::empty()
    } else if 0xD800 <= units[0] < 0xDC00 && units.len() >= 2 && 0xDC00 <= units[1] < 0xE000 {
        let hi = units[0] - 0xD800;
        let lo = units[1] - 0xDC00;
        seq![(0x10000 + hi * 0x400 + lo) as u32 as char] + utf16_decode(units.skip(2))
    } else {
        seq![units[0] as u32 as char] + utf16_decode(units.skip(1))
    }
}

/// The encoding of a text is the encodings of its parts, one after the
/// other: each character's units depend on that character alone.
pub proof fn lemma_utf16_of_concat(a: Seq<char>, b: Seq<char>)
    ensures
        utf16_of(a + b) == utf16_of(a) + utf16_of(b),
    decreases b.len(),
{
    if b.len() == 0 {
        assert(a + b =~= a);
        assert(utf16_of(a) + utf16_of(b) =~= utf16_of(a));
    } else {
        lemma_utf16_of_concat(a, b.drop_last());
        assert((a + b).drop_last() =~= a + b.drop_last());
        assert((a + b).last() == b.last());
        assert(utf16_of(a + b) =~= utf16_of(a) + utf16_of(b));
    }
}

/// Decoding the units of one character followed by more units gives the
/// character, then the decoding of the rest.
proof fn lemma_utf16_decode_units(c: char, rest: Seq<u16>)
    ensures
        utf16_decode(utf16_units(c) + rest) == seq![c] + utf16_decode(rest),
{
    let v = c as u32;
    let u = utf16_units(c) + rest;
    vstd::utf8::char_is_scalar(c);
    if v < 0x10000 {
        assert(u[0] as u32 == v);
        assert(!(0xD800 <= u[0] < 0xDC00));
        assert(u.skip(1) =~= rest);
        vstd::utf8::char_u32_cast(c, v);
        assert(u[0] as u32 as char == c);
    } else {
        let w = (v - 0x10000) as u32;
        assert(w <= 0xFFFFF);
        assert(u[0] == (0xD800 + w / 0x400) as u16);
        assert(u[1] == (0xDC00 + w % 0x400) as u16);
        assert(0xD800 <= u[0] < 0xDC00);
        assert(0xDC00 <= u[1] < 0xE000);
        assert(u.skip(2) =~= rest);
        assert((u[0] - 0xD800) * 0x400 + (u[1] - 0xDC00) == w);
        vstd::utf8::char_u32_cast(c, v);
    }
    assert(utf16_decode(u) =~= seq![c] + utf16_decode(rest));
}

/// Decoding the UTF-16 encoding of any text gives back exactly that text, so
/// no character is lost, replaced or altered by the encoding.
pub proof fn lemma_utf16_round_trip(s: Seq<char>)
    ensures
        utf16_decode(utf16_of(s)) == s,
    decreases s.len(),
{
    if s.len() > 0 {
        let first = seq![s[0]];
        let rest = s.skip(1);
        assert(s =~= first + rest);
        lemma_utf16_of_concat(first, rest);
        assert(first.drop_last() =~= Seq::<char>::empty());
        assert(first.last() == s[0]);
        assert(utf16_of(first.drop_last()) =~= Seq::<u16>::empty());
        assert(utf16_of(first) =~= utf16_units(s[0]));
        lemma_utf16_decode_units(s[0], utf16_of(rest));
        lemma_utf16_round_trip(rest);
        assert(utf16_decode(utf16_of(s)) =~= s);
    }
}

/// The wide string handed to the platform decodes, terminator left off, to
/// exactly the text.
pub proof fn lemma_wide_string_round_trip(s: Seq<char>)
    ensures
        utf16_decode(wide_string(s).drop_last()) == s,
{
    assert(wide_string(s).drop_last() =~= utf16_of(s));
    lemma_utf16_round_trip(s);
}

fn push_char_units(out: &mut Vec<u16>, c: char)
    ensures
        final(out)@ == old(out)@ + utf16_units(c),
{
    let v = c as u32;
    if v < 0x10000 {
        out.push(v as u16);
    } else {
        let w = v - 0x10000;
        out.push((0xD800 + w / 0x400) as u16);
        out.push((0xDC00 + w % 0x400) as u16);
    }
}

/// Converts a string to a null-terminated UTF-16 wide string.
pub fn to_utf16(s: &str) -> (res: Vec<u16>)
    ensures
        res@ == wide_string(s@),
{
    let mut out: Vec<u16> = Vec::new();
    let mut chars = s.chars();
    let ghost mut seen: Seq<char> = Seq::empty();
    proof {
        broadcast use vstd::string::axiom_spec_iter;

        assert(chars.remaining() == s@);
    }
    loop
        invariant
            seen + chars.remaining() == s@,
            out@ == utf16_of(seen),
            chars.decrease() is Some,
        ensures
            seen =~= s@,
            out@ == utf16_of(seen),
        decreases chars.decrease()->0,
    {
        let next = chars.next();
        proof {
            broadcast use vstd::string::next_postcondition;

        }
        match next {
            Some(c) => {
                proof {
                    assert(seen.push(c).drop_last() =~= seen);
                    seen = seen.push(c);
                }
                push_char_units(&mut out, c);
            },
            None => {
                break;
            },
        }
    }
    out.push(0);
    out
}

} // verus!
