use vstd::prelude::*;
use base64::Engine;

verus! {

/// The symbol of a six-bit value in the standard Base64 alphabet
/// (`A`-`Z`, `a`-`z`, `0`-`9`, `+`, `/`).
pub open spec fn base64_symbol(v: int) -> char
    recommends
        0 <= v < 64,
{
    if v < 26 {
        (65 + v) as char
    } else if v < 52 {
        (97 + (v - 26)) as char
    } else if v < 62 {
        (48 + (v - 52)) as char
    } else if v == 62 {
        '+'
    } else {
        '/'
    }
}

/// The standard padded Base64 encoding (RFC 4648, section 4): each group of
/// three bytes becomes four symbols of six bits each; a final group of one or
/// two bytes is zero-filled to whole symbols and padded with `=` to four.
pub open spec fn base64_standard(input: Seq<u8>) -> Seq<char>
    decreases input.len(),
{
    if input.len() == 0 {
        Seq::empty()
    } else if input.len() == 1 {
        let b0 = input[0] as int;
        seq![base64_symbol(b0 / 4), base64_symbol((b0 % 4) * 16), '=', '=']
    } else if input.len() == 2 {
        let b0 = input[0] as int;
        let b1 = input[1] as int;
        seq![
            base64_symbol(b0 / 4),
            base64_symbol((b0 % 4) * 16 + b1 / 16),
            base64_symbol((b1 % 16) * 4),
            '=',
        ]
    } else {
        let b0 = input[0] as int;
        let b1 = input[1] as int;
        let b2 = input[2] as int;
        seq![
            base64_symbol(b0 / 4),
            base64_symbol((b0 % 4) * 16 + b1 / 16),
            base64_symbol((b1 % 16) * 4 + b2 / 64),
            base64_symbol(b2 % 64),
        ] + base64_standard(input.skip(3))
    }
}

/// A character of the standard Base64 alphabet, or the padding character.
pub open spec fn is_base64_standard_char(c: char) -> bool {
    ||| 'A' <= c <= 'Z'
    ||| 'a' <= c <= 'z'
    ||| '0' <= c <= '9'
    ||| c == '+'
    ||| c == '/'
    ||| c == '='
}

/// Length of the padded Base64 text of `n` bytes: four characters for every
/// started group of three bytes.
pub open spec fn base64_padded_len(n: nat) -> nat {
    4 * ((n + 2) / 3)
}

/// Calls `base64::engine::general_purpose::STANDARD.encode`. Claimed of it: the
/// result is the standard padded Base64 encoding of the input. The call panics
/// when the encoded length does not fit in `usize`, which `requires` rules out.
#[verifier::external_body]
pub(crate) fn base64_encode_standard(input: &[u8]) -> (res: String)
    requires
        input@.len() <= usize::MAX / 2,
    ensures
        res@ == base64_standard(input@),
{
    base64::engine::general_purpose::STANDARD.encode(input)
}

/// Every symbol of the alphabet is an ASCII letter, digit, `+` or `/`.
pub proof fn lemma_base64_symbol(v: int)
    requires
        0 <= v < 64,
    ensures
        is_base64_standard_char(base64_symbol(v)),
        (base64_symbol(v) as u32) < 0x80,
{
}

/// The padded encoding has four characters for every started group of three
/// bytes, each of the alphabet or `=`.
pub proof fn lemma_base64_standard_shape(input: Seq<u8>)
    ensures
        base64_standard(input).len() == base64_padded_len(input.len()),
        forall|i: int|
            0 <= i < base64_standard(input).len() ==> is_base64_standard_char(
                #[trigger] base64_standard(input)[i],
            ) && (base64_standard(input)[i] as u32) < 0x80,
    decreases input.len(),
{
    if input.len() > 0 {
        let b0 = input[0] as int;
        lemma_base64_symbol(b0 / 4);
        if input.len() == 1 {
            lemma_base64_symbol((b0 % 4) * 16);
        } else {
            let b1 = input[1] as int;
            lemma_base64_symbol((b0 % 4) * 16 + b1 / 16);
            if input.len() == 2 {
                lemma_base64_symbol((b1 % 16) * 4);
            } else {
                let b2 = input[2] as int;
                lemma_base64_symbol((b1 % 16) * 4 + b2 / 64);
                lemma_base64_symbol(b2 % 64);
                lemma_base64_standard_shape(input.skip(3));
                let head = seq![
                    base64_symbol(b0 / 4),
                    base64_symbol((b0 % 4) * 16 + b1 / 16),
                    base64_symbol((b1 % 16) * 4 + b2 / 64),
                    base64_symbol(b2 % 64),
                ];
                let tail = base64_standard(input.skip(3));
                assert(base64_standard(input) == head + tail);
                assert forall|i: int| 0 <= i < base64_standard(input).len() implies is_base64_standard_char(
                    #[trigger] base64_standard(input)[i],
                ) && (base64_standard(input)[i] as u32) < 0x80 by {
                    if i >= 4 {
                        assert(base64_standard(input)[i] == tail[i - 4]);
                    }
                }
            }
        }
    }
}

/// The six-bit value of a symbol of the standard Base64 alphabet.
pub open spec fn base64_value(c: char) -> int {
    let u = c as u32 as int;
    if 65 <= u <= 90 {
        u - 65
    } else if 97 <= u <= 122 {
        u - 97 + 26
    } else if 48 <= u <= 57 {
        u - 48 + 52
    } else if c == '+' {
        62
    } else {
        63
    }
}

/// Standard padded Base64 decoding: each group of four characters gives back
/// three bytes, one fewer per `=` of padding.
pub open spec fn base64_decode_standard(text: Seq<char>) -> Seq<u8>
    decreases text.len(),
{
    if text.len() < 4 {
        Seq::empty()
    } else {
        let v0 = base64_value(text[0]);
        let v1 = base64_value(text[1]);
        let v2 = base64_value(text[2]);
        let v3 = base64_value(text[3]);
        let b0 = (v0 * 4 + v1 / 16) as u8;
        let b1 = ((v1 % 16) * 16 + v2 / 4) as u8;
        let b2 = ((v2 % 4) * 64 + v3) as u8;
        if text[2] == '=' {
            seq![b0]
        } else if text[3] == '=' {
            seq![b0, b1]
        } else {
            seq![b0, b1, b2] + base64_decode_standard(text.skip(4))
        }
    }
}

/// Reading a symbol back gives its value.
pub proof fn lemma_base64_symbol_value(v: int)
    requires
        0 <= v < 64,
    ensures
        base64_value(base64_symbol(v)) == v,
        base64_symbol(v) != '=',
{
}

/// Number of `=` characters that pad the encoding of `n` bytes: none for whole
/// groups of three, two after one leftover byte, one after two.
pub open spec fn base64_padding_len(n: nat) -> int {
    (3 - (n % 3) as int) % 3
}

/// The encoding is canonical: its last `base64_padding_len` characters are
/// `=`, and every character before them is a symbol of the alphabet, never `=`.
pub proof fn lemma_base64_padding(input: Seq<u8>)
    ensures
        forall|i: int|
            0 <= i < base64_standard(input).len() ==> (#[trigger] base64_standard(input)[i] == '='
                <==> i >= base64_standard(input).len() - base64_padding_len(input.len())),
    decreases input.len(),
{
    lemma_base64_standard_shape(input);
    if input.len() > 0 {
        let t = base64_standard(input);
        let b0 = input[0] as int;
        lemma_base64_symbol_value(b0 / 4);
        if input.len() == 1 {
            lemma_base64_symbol_value((b0 % 4) * 16);
        } else {
            let b1 = input[1] as int;
            lemma_base64_symbol_value((b0 % 4) * 16 + b1 / 16);
            if input.len() == 2 {
                lemma_base64_symbol_value((b1 % 16) * 4);
            } else {
                let b2 = input[2] as int;
                lemma_base64_symbol_value((b1 % 16) * 4 + b2 / 64);
                lemma_base64_symbol_value(b2 % 64);
                lemma_base64_padding(input.skip(3));
                lemma_base64_standard_shape(input.skip(3));
                let tail = base64_standard(input.skip(3));
                assert(input.skip(3).len() % 3 == input.len() % 3);
                assert forall|i: int| 0 <= i < t.len() implies (#[trigger] t[i] == '=' <==> i >= t.len()
                    - base64_padding_len(input.len())) by {
                    if i >= 4 {
                        assert(t[i] == tail[i - 4]);
                    }
                }
            }
        }
    }
}

/// Decoding the standard encoding of bytes gives back exactly those bytes.
pub proof fn lemma_base64_round_trip(input: Seq<u8>)
    ensures
        base64_decode_standard(base64_standard(input)) == input,
    decreases input.len(),
{
    if input.len() > 0 {
        let b0 = input[0] as int;
        lemma_base64_symbol_value(b0 / 4);
        if input.len() == 1 {
            lemma_base64_symbol_value((b0 % 4) * 16);
            assert(base64_decode_standard(base64_standard(input)) =~= input);
        } else {
            let b1 = input[1] as int;
            lemma_base64_symbol_value((b0 % 4) * 16 + b1 / 16);
            if input.len() == 2 {
                lemma_base64_symbol_value((b1 % 16) * 4);
                assert(base64_decode_standard(base64_standard(input)) =~= input);
            } else {
                let b2 = input[2] as int;
                lemma_base64_symbol_value((b1 % 16) * 4 + b2 / 64);
                lemma_base64_symbol_value(b2 % 64);
                lemma_base64_round_trip(input.skip(3));
                let head = seq![
                    base64_symbol(b0 / 4),
                    base64_symbol((b0 % 4) * 16 + b1 / 16),
                    base64_symbol((b1 % 16) * 4 + b2 / 64),
                    base64_symbol(b2 % 64),
                ];
                let text = base64_standard(input);
                assert(text == head + base64_standard(input.skip(3)));
                assert(text.skip(4) =~= base64_standard(input.skip(3)));
                assert(input =~= seq![input[0], input[1], input[2]] + input.skip(3));
            }
        }
    }
}

} // verus!
