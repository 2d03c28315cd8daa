//! Base64 with padding, as the page decodes it with `atob`.

use vstd::prelude::*;

verus! {

/// The character that stands for a value below 64: capitals, small letters, digits, `+`, `/`.
pub open spec fn alphabet_char(value: nat) -> char {
    if value < 26 {
        ('A' as nat + value) as char
    } else if value < 52 {
        ('a' as nat + (value - 26)) as char
    } else if value < 62 {
        ('0' as nat + (value - 52)) as char
    } else if value == 62 {
        '+'
    } else {
        '/'
    }
}

/// The value that a character stands for.
pub open spec fn alphabet_value(c: char) -> Option<nat> {
    if 'A' <= c <= 'Z' {
        Some((c as nat - 'A' as nat) as nat)
    } else if 'a' <= c <= 'z' {
        Some((c as nat - 'a' as nat + 26) as nat)
    } else if '0' <= c <= '9' {
        Some((c as nat - '0' as nat + 52) as nat)
    } else if c == '+' {
        Some(62)
    } else if c == '/' {
        Some(63)
    } else {
        None
    }
}

/// The byte at a position of a group, zero past its end.
pub open spec fn byte_or_zero(group: Seq<u8>, i: int) -> nat {
    if i < group.len() {
        group[i] as nat
    } else {
        0
    }
}

/// The number below 2^24 that a group of up to three bytes spells.
pub open spec fn group_number(group: Seq<u8>) -> nat {
    byte_or_zero(group, 0) * 65536 + byte_or_zero(group, 1) * 256 + byte_or_zero(group, 2)
}

/// The four characters for a group of one to three bytes: its number in base 64, with `=` for
/// each digit that only missing bytes fill.
pub open spec fn group_text(group: Seq<u8>) -> Seq<char> {
    let n = group_number(group);
    seq![
        alphabet_char(n / 262144),
        alphabet_char(n / 4096 % 64),
        if group.len() > 1 {
            alphabet_char(n / 64 % 64)
        } else {
            '='
        },
        if group.len() > 2 {
            alphabet_char(n % 64)
        } else {
            '='
        },
    ]
}

/// How many bytes the next group takes from this many.
pub open spec fn group_size(len: nat) -> nat {
    if len < 3 {
        len
    } else {
        3
    }
}

/// The base64 text of some bytes, group by group.
pub open spec fn base64_text(data: Seq<u8>) -> Seq<char>
    decreases data.len(),
{
    if data.len() == 0 {
        Seq::empty()
    } else {
        let size = group_size(data.len()) as int;
        group_text(data.take(size)) + base64_text(data.skip(size))
    }
}

/// The one to three bytes that four characters stand for.
pub open spec fn group_bytes(quad: Seq<char>) -> Option<Seq<u8>> {
    match (alphabet_value(quad[0]), alphabet_value(quad[1])) {
        (Some(v0), Some(v1)) => {
            let high = v0 * 262144 + v1 * 4096;
            match (alphabet_value(quad[2]), alphabet_value(quad[3])) {
                (Some(v2), Some(v3)) => {
                    let n = high + v2 * 64 + v3;
                    Some(seq![(n / 65536) as u8, (n / 256 % 256) as u8, (n % 256) as u8])
                },
                (Some(v2), None) => if quad[3] == '=' {
                    let n = high + v2 * 64;
                    Some(seq![(n / 65536) as u8, (n / 256 % 256) as u8])
                } else {
                    None
                },
                (None, _) => if quad[2] == '=' && quad[3] == '=' {
                    Some(seq![(high / 65536) as u8])
                } else {
                    None
                },
            }
        },
        _ => None,
    }
}

/// The bytes that a base64 text stands for. Only its last group may be short.
pub open spec fn base64_bytes(text: Seq<char>) -> Option<Seq<u8>>
    decreases text.len(),
{
    if text.len() == 0 {
        Some(Seq::empty())
    } else if text.len() < 4 {
        None
    } else {
        match (group_bytes(text.take(4)), base64_bytes(text.skip(4))) {
            (Some(front), Some(back)) => if front.len() == 3 || back.len() == 0 {
                Some(front + back)
            } else {
                None
            },
            _ => None,
        }
    }
}

/// The character for a value below 64.
fn char_of(value: u32) -> (c: char)
    requires
        value < 64,
    ensures
        c == alphabet_char(value as nat),
{
    let small: u8 = value as u8;
    if small < 26 {
        ('A' as u8 + small) as char
    } else if small < 52 {
        ('a' as u8 + (small - 26)) as char
    } else if small < 62 {
        ('0' as u8 + (small - 52)) as char
    } else if small == 62 {
        '+'
    } else {
        '/'
    }
}

/// The base64 text of some bytes, padded with `=` to a multiple of four characters.
pub fn base64_encode(data: &[u8]) -> (text: String)
    ensures
        text@ == base64_text(data@),
{
    let mut out = String::new();
    let mut i: usize = 0;
    assert(data@.skip(0) == data@);
    while i < data.len()
        invariant
            i <= data@.len(),
            out@ + base64_text(data@.skip(i as int)) == base64_text(data@),
        decreases data@.len() - i,
    {
        let left: usize = data.len() - i;
        let b0: u32 = data[i] as u32;
        let b1: u32 = if left > 1 {
            data[i + 1] as u32
        } else {
            0
        };
        let b2: u32 = if left > 2 {
            data[i + 2] as u32
        } else {
            0
        };
        let n: u32 = b0 * 65536 + b1 * 256 + b2;
        let size: usize = if left < 3 {
            left
        } else {
            3
        };
        let ghost before = out@;
        let ghost rest = data@.skip(i as int);
        let ghost group = rest.take(size as int);
        assert(n == group_number(group));
        out.push(char_of(n / 262144));
        out.push(char_of(n / 4096 % 64));
        out.push(
            if left > 1 {
                char_of(n / 64 % 64)
            } else {
                '='
            },
        );
        out.push(
            if left > 2 {
                char_of(n % 64)
            } else {
                '='
            },
        );
        assert(out@ == before + group_text(group));
        assert(rest.skip(size as int) == data@.skip(i + size));
        assert(out@ + base64_text(data@.skip(i + size)) == before + base64_text(rest));
        i = i + size;
    }
    assert(out@ + base64_text(data@.skip(i as int)) == out@);
    out
}

/// The text has four characters for every three bytes begun.
pub proof fn base64_text_length(data: Seq<u8>)
    ensures
        base64_text(data).len() == (data.len() + 2) / 3 * 4,
    decreases data.len(),
{
    if data.len() > 0 {
        let size = group_size(data.len()) as int;
        base64_text_length(data.skip(size));
    }
}

/// The text holds nothing but the 64 characters of the alphabet and `=`.
pub proof fn base64_text_alphabet(data: Seq<u8>, i: int)
    requires
        0 <= i < base64_text(data).len(),
    ensures
        base64_text(data)[i] == '=' || alphabet_value(base64_text(data)[i]) is Some,
    decreases data.len(),
{
    let size = group_size(data.len()) as int;
    if i >= 4 {
        base64_text_alphabet(data.skip(size), i - 4);
    } else {
        let n = group_number(data.take(size));
        assert(n / 262144 < 64);
    }
}

/// Reading a character of the alphabet gives back the value that it was written for.
proof fn lemma_alphabet_inverse(value: nat)
    requires
        value < 64,
    ensures
        alphabet_value(alphabet_char(value)) == Some(value),
        alphabet_char(value) != '=',
{
}

/// A number of three base-256 digits, taken apart into four base-64 digits and put together.
proof fn lemma_digits(b0: nat, b1: nat, b2: nat)
    requires
        b0 < 256,
        b1 < 256,
        b2 < 256,
    ensures
        ({
            let n = b0 * 65536 + b1 * 256 + b2;
            &&& n / 262144 < 64
            &&& n == n / 262144 * 262144 + n / 4096 % 64 * 4096 + n / 64 % 64 * 64 + n % 64
            &&& n / 65536 == b0
            &&& n / 256 % 256 == b1
            &&& n % 256 == b2
            &&& b2 == 0 ==> n % 64 == 0
            &&& b1 == 0 && b2 == 0 ==> n / 64 % 64 == 0
        }),
{
    let n = b0 * 65536 + b1 * 256 + b2;
    let thirds = n / 64;
    let halves = thirds / 64;
    assert(n / 4096 == halves && n / 262144 == halves / 64) by (nonlinear_arith)
        requires
            thirds == n / 64,
            halves == thirds / 64,
    ;
    assert(n / 256 == b0 * 256 + b1);
    assert(n / 65536 == b0);
    assert(n / 256 % 256 == b1);
    assert(n == thirds * 64 + n % 64);
    assert(thirds == halves * 64 + thirds % 64);
    assert(halves == halves / 64 * 64 + halves % 64);
    assert(thirds == b0 * 1024 + b1 * 4 + b2 / 64);
    if b1 == 0 && b2 == 0 {
        assert(thirds == (b0 * 16) * 64);
    }
}

/// Reading the four characters of a group gives back its bytes.
proof fn lemma_group_inverse(group: Seq<u8>)
    requires
        0 < group.len() <= 3,
    ensures
        group_bytes(group_text(group)) == Some(group),
{
    let b0 = byte_or_zero(group, 0);
    let b1 = byte_or_zero(group, 1);
    let b2 = byte_or_zero(group, 2);
    let n = group_number(group);
    lemma_digits(b0, b1, b2);
    lemma_alphabet_inverse(n / 262144);
    lemma_alphabet_inverse(n / 4096 % 64);
    lemma_alphabet_inverse(n / 64 % 64);
    lemma_alphabet_inverse(n % 64);
    let quad = group_text(group);
    let high = n / 262144 * 262144 + n / 4096 % 64 * 4096;
    assert(alphabet_value('=') is None);
    if group.len() == 1 {
        assert(high == n);
        assert(group_bytes(quad) == Some(seq![(n / 65536) as u8]));
        assert(seq![(n / 65536) as u8] == group);
    } else if group.len() == 2 {
        assert(high + n / 64 % 64 * 64 == n);
        assert(group_bytes(quad) == Some(seq![(n / 65536) as u8, (n / 256 % 256) as u8]));
        assert(seq![(n / 65536) as u8, (n / 256 % 256) as u8] == group);
    } else {
        assert(high + n / 64 % 64 * 64 + n % 64 == n);
        assert(group_bytes(quad) == Some(
            seq![(n / 65536) as u8, (n / 256 % 256) as u8, (n % 256) as u8],
        ));
        assert(seq![(n / 65536) as u8, (n / 256 % 256) as u8, (n % 256) as u8] == group);
    }
}

/// Decoding what was encoded gives back the same bytes, whatever they are.
pub proof fn base64_round_trip(data: Seq<u8>)
    ensures
        base64_bytes(base64_text(data)) == Some(data),
    decreases data.len(),
{
    if data.len() > 0 {
        let size = group_size(data.len()) as int;
        let front = data.take(size);
        let back = data.skip(size);
        let text = base64_text(data);
        lemma_group_inverse(front);
        base64_round_trip(back);
        assert(text.take(4) == group_text(front));
        assert(text.skip(4) == base64_text(back));
        assert(front + back == data);
    }
}

/// Different bytes have different texts.
pub proof fn base64_text_is_injective(a: Seq<u8>, b: Seq<u8>)
    requires
        base64_text(a) == base64_text(b),
    ensures
        a == b,
{
    base64_round_trip(a);
    base64_round_trip(b);
}

/// The alphabet of base64 is the usual one.
pub proof fn alphabet_is_the_usual_one(value: nat)
    requires
        value < 64,
    ensures
        alphabet_char(value) == "ABCDEFGHIJKLMNOPQRSTUVWXYZabcdefghijklmnopqrstuvwxyz0123456789+/"@[value as int],
{
    reveal_strlit("ABCDEFGHIJKLMNOPQRSTUVWXYZabcdefghijklmnopqrstuvwxyz0123456789+/");
}

/// The characters of a group stand where the groups before it end.
proof fn lemma_group_at(data: Seq<u8>, k: int)
    requires
        0 <= k,
        3 * k < data.len(),
    ensures
        4 * k + 4 <= base64_text(data).len(),
        base64_text(data).subrange(4 * k, 4 * k + 4) == group_text(
            data.subrange(
                3 * k,
                if data.len() < 3 * k + 3 {
                    data.len() as int
                } else {
                    3 * k + 3
                },
            ),
        ),
    decreases k,
{
    let size = group_size(data.len()) as int;
    let text = base64_text(data);
    let group = group_text(data.take(size));
    let rest = data.skip(size);
    assert(text == group + base64_text(rest));
    if k == 0 {
        assert(text.subrange(0, 4) == group);
        assert(data.subrange(0, size) == data.take(size));
    } else {
        lemma_group_at(rest, k - 1);
        let end = if data.len() < 3 * k + 3 {
            data.len() as int
        } else {
            3 * k + 3
        };
        assert(text.subrange(4 * k, 4 * k + 4) == base64_text(rest).subrange(4 * k - 4, 4 * k));
        assert(rest.subrange(3 * k - 3, end - 3) == data.subrange(3 * k, end));
    }
}

/// The bits of three bytes, six by six.
proof fn lemma_six_bits(b0: nat, b1: nat, b2: nat)
    requires
        b0 < 256,
        b1 < 256,
        b2 < 256,
    ensures
        ({
            let n = b0 * 65536 + b1 * 256 + b2;
            &&& n / 262144 == b0 / 4
            &&& n / 4096 % 64 == b0 % 4 * 16 + b1 / 16
            &&& n / 64 % 64 == b1 % 16 * 4 + b2 / 64
            &&& n % 64 == b2 % 64
        }),
{
    let n = b0 * 65536 + b1 * 256 + b2;
    assert(n / 64 == b0 * 1024 + b1 * 4 + b2 / 64);
    assert(n / 4096 == b0 * 16 + b1 / 16);
    assert(n / 262144 == b0 / 4);
    assert((b0 * 16 + b1 / 16) % 64 == b0 % 4 * 16 + b1 / 16);
    assert((b0 * 1024 + b1 * 4 + b2 / 64) % 64 == b1 % 16 * 4 + b2 / 64);
}

/// Every three bytes are four characters of the usual alphabet, one for each six bits from the
/// highest on. Bits past the end count as zero, and a character with no bit of the data is `=`.
/// There are no other characters, and no line breaks.
pub proof fn six_bits_are_a_character(data: &[u8], k: int, text: String)
    requires
        call_ensures(base64_encode, (data,), text),
        0 <= k,
        3 * k < data@.len(),
    ensures
        text@.len() == (data@.len() + 2) / 3 * 4,
        ({
            let table = "ABCDEFGHIJKLMNOPQRSTUVWXYZabcdefghijklmnopqrstuvwxyz0123456789+/"@;
            let b0 = data@[3 * k] as int;
            let b1 = if 3 * k + 1 < data@.len() {
                data@[3 * k + 1] as int
            } else {
                0
            };
            let b2 = if 3 * k + 2 < data@.len() {
                data@[3 * k + 2] as int
            } else {
                0
            };
            &&& text@[4 * k] == table[b0 / 4]
            &&& text@[4 * k + 1] == table[b0 % 4 * 16 + b1 / 16]
            &&& text@[4 * k + 2] == if 3 * k + 1 < data@.len() {
                table[b1 % 16 * 4 + b2 / 64]
            } else {
                '='
            }
            &&& text@[4 * k + 3] == if 3 * k + 2 < data@.len() {
                table[b2 % 64]
            } else {
                '='
            }
        }),
{
    base64_text_length(data@);
    lemma_group_at(data@, k);
    let end = if data@.len() < 3 * k + 3 {
        data@.len() as int
    } else {
        3 * k + 3
    };
    let group = data@.subrange(3 * k, end);
    let quad = text@.subrange(4 * k, 4 * k + 4);
    let b0 = byte_or_zero(group, 0);
    let b1 = byte_or_zero(group, 1);
    let b2 = byte_or_zero(group, 2);
    lemma_six_bits(b0, b1, b2);
    alphabet_is_the_usual_one(b0 / 4);
    alphabet_is_the_usual_one(b0 % 4 * 16 + b1 / 16);
    alphabet_is_the_usual_one(b1 % 16 * 4 + b2 / 64);
    alphabet_is_the_usual_one(b2 % 64);
    assert(quad[0] == text@[4 * k]);
    assert(quad[1] == text@[4 * k + 1]);
    assert(quad[2] == text@[4 * k + 2]);
    assert(quad[3] == text@[4 * k + 3]);
}

/// Different bytes are different texts, and the text of no bytes is empty.
pub proof fn texts_tell_bytes_apart(data: &[u8], other: &[u8], text: String, other_text: String)
    requires
        call_ensures(base64_encode, (data,), text),
        call_ensures(base64_encode, (other,), other_text),
    ensures
        text@ == other_text@ <==> data@ == other@,
        text@.len() == 0 <==> data@.len() == 0,
{
    if text@ == other_text@ {
        base64_text_is_injective(data@, other@);
    }
    base64_text_length(data@);
}

} // verus!
