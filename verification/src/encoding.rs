//! Text encodings used on the wire: decimal numbers and base64 blocks.
use vstd::prelude::*;
use vstd::string::StringExecFns;

verus! {

/// The character of a decimal digit.
pub open spec fn digit(value: nat) -> char
    recommends
        value < 10,
{
    if value == 0 {
        '0'
    } else if value == 1 {
        '1'
    } else if value == 2 {
        '2'
    } else if value == 3 {
        '3'
    } else if value == 4 {
        '4'
    } else if value == 5 {
        '5'
    } else if value == 6 {
        '6'
    } else if value == 7 {
        '7'
    } else if value == 8 {
        '8'
    } else {
        '9'
    }
}

/// A number in decimal, without sign or leading zeros.
pub open spec fn decimal(value: nat) -> Seq<char>
    decreases value,
{
    if value < 10 {
        seq![digit(value)]
    } else {
        decimal(value / 10).push(digit(value % 10))
    }
}

/// The character that stands for six bits in base64.
pub open spec fn sextet(value: int) -> char
    recommends
        0 <= value < 64,
{
    "ABCDEFGHIJKLMNOPQRSTUVWXYZabcdefghijklmnopqrstuvwxyz0123456789+/"@[value]
}

/// Standard base64 with padding and without line breaks: four characters for
/// every three bytes, the last group filled up with `=`.
pub open spec fn base64(bytes: Seq<u8>) -> Seq<char>
    decreases bytes.len(),
{
    if bytes.len() == 0 {
        Seq::empty()
    } else if bytes.len() == 1 {
        let a = bytes[0] as int;
        seq![sextet(a / 4), sextet((a % 4) * 16), '=', '=']
    } else if bytes.len() == 2 {
        let a = bytes[0] as int;
        let b = bytes[1] as int;
        seq![sextet(a / 4), sextet((a % 4) * 16 + b / 16), sextet((b % 16) * 4), '=']
    } else {
        let a = bytes[0] as int;
        let b = bytes[1] as int;
        let c = bytes[2] as int;
        seq![
            sextet(a / 4),
            sextet((a % 4) * 16 + b / 16),
            sextet((b % 16) * 4 + c / 64),
            sextet(c % 64),
        ] + base64(bytes.skip(3))
    }
}

/// The six bits that a character of the base64 alphabet stands for.
pub open spec fn sextet_of(c: char) -> Option<int> {
    if exists|value: int| 0 <= value < 64 && sextet(value) == c {
        Some(choose|value: int| 0 <= value < 64 && sextet(value) == c)
    } else {
        None
    }
}

/// The bytes that a base64 text stands for: three for every four characters,
/// fewer for a last group that ends in `=`. `None` for a text that no bytes
/// encode to.
pub open spec fn base64_decoded(text: Seq<char>) -> Option<Seq<u8>>
    decreases text.len(),
{
    if text.len() == 0 {
        Some(Seq::empty())
    } else if text.len() < 4 {
        None
    } else {
        match (sextet_of(text[0]), sextet_of(text[1])) {
            (Some(a), Some(b)) => if text.len() == 4 && text[2] == '=' && text[3] == '=' {
                if b % 16 == 0 {
                    Some(seq![(a * 4 + b / 16) as u8])
                } else {
                    None
                }
            } else if text.len() == 4 && text[3] == '=' {
                match sextet_of(text[2]) {
                    Some(c) => if c % 4 == 0 {
                        Some(seq![(a * 4 + b / 16) as u8, ((b % 16) * 16 + c / 4) as u8])
                    } else {
                        None
                    },
                    None => None,
                }
            } else {
                match (sextet_of(text[2]), sextet_of(text[3]), base64_decoded(text.skip(4))) {
                    (Some(c), Some(d), Some(rest)) => Some(
                        seq![
                            (a * 4 + b / 16) as u8,
                            ((b % 16) * 16 + c / 4) as u8,
                            ((c % 4) * 64 + d) as u8,
                        ] + rest,
                    ),
                    _ => None,
                }
            },
            _ => None,
        }
    }
}

/// The longest input that [`encode_block`] takes: its output, with one byte
/// more, has to fit a C `int`.
pub open spec fn fits_block(len: nat) -> bool {
    (len / 3) * 4 + 5 <= i32::MAX
}

/// The most bytes for which [`fits_block`] holds.
pub const MAX_BLOCK: usize = 1610612732;

/// A base64 text has four characters for every three bytes begun.
pub proof fn lemma_base64_len(bytes: Seq<u8>)
    ensures
        base64(bytes).len() == 4 * ((bytes.len() + 2) / 3),
    decreases bytes.len(),
{
    if bytes.len() >= 3 {
        lemma_base64_len(bytes.skip(3));
    }
}

/// The base64 alphabet has sixty-four different characters, none of them `=`.
pub proof fn lemma_alphabet(a: int, b: int)
    requires
        0 <= a < 64,
        0 <= b < 64,
    ensures
        sextet(a) != '=',
        sextet(a) == sextet(b) ==> a == b,
        sextet_of(sextet(a)) == Some(a),
{
    reveal_strlit("ABCDEFGHIJKLMNOPQRSTUVWXYZabcdefghijklmnopqrstuvwxyz0123456789+/");
    assert(sextet(a) == sextet(b) ==> a == b);
    assert forall|value: int| 0 <= value < 64 && sextet(value) == sextet(a) implies value == a by {
        lemma_alphabet_distinct(value, a);
    }
}

/// Two places of the alphabet hold the same character only if they are one.
proof fn lemma_alphabet_distinct(a: int, b: int)
    requires
        0 <= a < 64,
        0 <= b < 64,
        sextet(a) == sextet(b),
    ensures
        a == b,
{
    reveal_strlit("ABCDEFGHIJKLMNOPQRSTUVWXYZabcdefghijklmnopqrstuvwxyz0123456789+/");
}

/// Decoding undoes encoding: the bytes of a base64 text are the bytes that
/// were encoded.
pub proof fn lemma_base64_round_trip(bytes: Seq<u8>)
    ensures
        base64_decoded(base64(bytes)) == Some(bytes),
    decreases bytes.len(),
{
    let text = base64(bytes);
    if bytes.len() == 0 {
        assert(bytes =~= Seq::<u8>::empty());
    } else if bytes.len() == 1 {
        let a = bytes[0] as int;
        lemma_alphabet(a / 4, 0);
        lemma_alphabet((a % 4) * 16, 0);
        assert(seq![((a / 4) * 4 + ((a % 4) * 16) / 16) as u8] =~= bytes);
    } else if bytes.len() == 2 {
        let a = bytes[0] as int;
        let b = bytes[1] as int;
        lemma_alphabet(a / 4, 0);
        lemma_alphabet((a % 4) * 16 + b / 16, 0);
        lemma_alphabet((b % 16) * 4, 0);
        assert(seq![
            ((a / 4) * 4 + ((a % 4) * 16 + b / 16) / 16) as u8,
            ((((a % 4) * 16 + b / 16) % 16) * 16 + ((b % 16) * 4) / 4) as u8,
        ] =~= bytes);
    } else {
        let a = bytes[0] as int;
        let b = bytes[1] as int;
        let c = bytes[2] as int;
        lemma_alphabet(a / 4, 0);
        lemma_alphabet((a % 4) * 16 + b / 16, 0);
        lemma_alphabet((b % 16) * 4 + c / 64, 0);
        lemma_alphabet(c % 64, 0);
        lemma_base64_round_trip(bytes.skip(3));
        lemma_base64_len(bytes.skip(3));
        assert(text.skip(4) =~= base64(bytes.skip(3)));
        assert(seq![
            ((a / 4) * 4 + ((a % 4) * 16 + b / 16) / 16) as u8,
            ((((a % 4) * 16 + b / 16) % 16) * 16 + ((b % 16) * 4 + c / 64) / 4) as u8,
            ((((b % 16) * 4 + c / 64) % 4) * 64 + c % 64) as u8,
        ] + bytes.skip(3) =~= bytes);
    }
}

/// Calls `openssl::base64::encode_block`: standard base64 of the bytes, padded,
/// on one line. It panics where the output would not fit a C `int`, which
/// `requires` leaves out.
#[verifier::external_body]
pub(crate) fn encode_block(bytes: &[u8]) -> (text: String)
    requires
        fits_block(bytes@.len()),
    ensures
        text@ == base64(bytes@),
{
    openssl::base64::encode_block(bytes)
}

fn digit_text(value: u8) -> (text: &'static str)
    requires
        value < 10,
    ensures
        text@ == seq![digit(value as nat)],
{
    proof {
        reveal_strlit("0");
        reveal_strlit("1");
        reveal_strlit("2");
        reveal_strlit("3");
        reveal_strlit("4");
        reveal_strlit("5");
        reveal_strlit("6");
        reveal_strlit("7");
        reveal_strlit("8");
        reveal_strlit("9");
        assert("0"@ =~= seq!['0']);
        assert("1"@ =~= seq!['1']);
        assert("2"@ =~= seq!['2']);
        assert("3"@ =~= seq!['3']);
        assert("4"@ =~= seq!['4']);
        assert("5"@ =~= seq!['5']);
        assert("6"@ =~= seq!['6']);
        assert("7"@ =~= seq!['7']);
        assert("8"@ =~= seq!['8']);
        assert("9"@ =~= seq!['9']);
    }
    if value == 0 {
        "0"
    } else if value == 1 {
        "1"
    } else if value == 2 {
        "2"
    } else if value == 3 {
        "3"
    } else if value == 4 {
        "4"
    } else if value == 5 {
        "5"
    } else if value == 6 {
        "6"
    } else if value == 7 {
        "7"
    } else if value == 8 {
        "8"
    } else {
        "9"
    }
}

/// Appends a number in decimal.
pub fn push_decimal(out: &mut String, value: u128)
    ensures
        final(out)@ == old(out)@ + decimal(value as nat),
    decreases value,
{
    if value >= 10 {
        push_decimal(out, value / 10);
    }
    let last: u8 = (value % 10) as u8;
    out.append(digit_text(last));
    proof {
        if value >= 10 {
            assert(out@ =~= old(out)@ + decimal(value as nat));
        } else {
            assert(out@ =~= old(out)@ + decimal(value as nat));
        }
    }
}

} // verus!
