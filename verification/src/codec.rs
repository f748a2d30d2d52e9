//! Wire-level encodings shared by the reference values: 8-byte big-endian
//! words (the binary layout other components may depend on) and the decimal
//! digits used in printed type names.

use vstd::prelude::*;
use vstd::slice::slice_index_get;
use vstd::string::StringExecFns;

verus! {

/// The 8-byte big-endian encoding of `x`, most significant byte first.
pub open spec fn be_bytes_of(x: u64) -> Seq<u8> {
    seq![
        (x >> 56u64) as u8,
        (x >> 48u64) as u8,
        (x >> 40u64) as u8,
        (x >> 32u64) as u8,
        (x >> 24u64) as u8,
        (x >> 16u64) as u8,
        (x >> 8u64) as u8,
        x as u8,
    ]
}

/// The word read back from an 8-byte big-endian window.
pub open spec fn be_value_of(s: Seq<u8>) -> u64
    recommends
        s.len() == 8,
{
    ((s[0] as u64) << 56u64) | ((s[1] as u64) << 48u64) | ((s[2] as u64) << 40u64) | ((s[3]
        as u64) << 32u64) | ((s[4] as u64) << 24u64) | ((s[5] as u64) << 16u64) | ((s[6]
        as u64) << 8u64) | (s[7] as u64)
}

/// Appends the 8-byte big-endian encoding of `x` to `out`.
pub fn push_be_bytes(out: &mut Vec<u8>, x: u64)
    ensures
        final(out)@ == old(out)@ + be_bytes_of(x),
{
    out.push((x >> 56u64) as u8);
    out.push((x >> 48u64) as u8);
    out.push((x >> 40u64) as u8);
    out.push((x >> 32u64) as u8);
    out.push((x >> 24u64) as u8);
    out.push((x >> 16u64) as u8);
    out.push((x >> 8u64) as u8);
    out.push(x as u8);
    proof {
        assert(out@ =~= old(out)@ + be_bytes_of(x));
    }
}

/// Reads a word back from an 8-byte big-endian window.
pub fn read_be_bytes(raw: &[u8]) -> (x: u64)
    requires
        raw@.len() == 8,
    ensures
        x == be_value_of(raw@),
{
    ((*slice_index_get(raw, 0) as u64) << 56u64) | ((*slice_index_get(raw, 1) as u64) << 48u64)
        | ((*slice_index_get(raw, 2) as u64) << 40u64) | ((*slice_index_get(raw, 3) as u64)
        << 32u64) | ((*slice_index_get(raw, 4) as u64) << 24u64) | ((*slice_index_get(raw, 5)
        as u64) << 16u64) | ((*slice_index_get(raw, 6) as u64) << 8u64) | (*slice_index_get(
        raw,
        7,
    ) as u64)
}

/// Decoding inverts encoding: the word read back from the big-endian bytes of
/// `x` is `x` itself.
pub proof fn lemma_be_round_trip(x: u64)
    ensures
        be_value_of(be_bytes_of(x)) == x,
{
    assert((((x >> 56u64) as u8 as u64) << 56u64) | (((x >> 48u64) as u8 as u64) << 48u64) | (((x
        >> 40u64) as u8 as u64) << 40u64) | (((x >> 32u64) as u8 as u64) << 32u64) | (((x
        >> 24u64) as u8 as u64) << 24u64) | (((x >> 16u64) as u8 as u64) << 16u64) | (((x
        >> 8u64) as u8 as u64) << 8u64) | (x as u8 as u64) == x) by (bit_vector);
}

/// A tag (generation or level) and an address, each as 8 big-endian bytes: the
/// 16-byte layout of every stored reference value.
pub open spec fn encode_tagged_address(tag: u64, address: u64) -> Seq<u8> {
    be_bytes_of(tag) + be_bytes_of(address)
}

/// Round trip of the 16-byte reference layout: both halves decode back to the
/// words that were encoded.
pub proof fn lemma_tagged_address_round_trip(tag: u64, address: u64)
    ensures
        encode_tagged_address(tag, address).len() == 16,
        be_value_of(encode_tagged_address(tag, address).subrange(0, 8)) == tag,
        be_value_of(encode_tagged_address(tag, address).subrange(8, 16)) == address,
{
    let enc = encode_tagged_address(tag, address);
    assert(enc.subrange(0, 8) =~= be_bytes_of(tag));
    assert(enc.subrange(8, 16) =~= be_bytes_of(address));
    lemma_be_round_trip(tag);
    lemma_be_round_trip(address);
}

/// The decimal digit character for `d`.
pub open spec fn dec_digit(d: nat) -> char
    recommends
        d < 10,
{
    if d == 0 {
        '0'
    } else if d == 1 {
        '1'
    } else if d == 2 {
        '2'
    } else if d == 3 {
        '3'
    } else if d == 4 {
        '4'
    } else if d == 5 {
        '5'
    } else if d == 6 {
        '6'
    } else if d == 7 {
        '7'
    } else if d == 8 {
        '8'
    } else {
        '9'
    }
}

/// The decimal digits of `n`, most significant first, with no leading zero
/// except for `n == 0` itself.
pub open spec fn dec_chars(n: nat) -> Seq<char>
    decreases n,
{
    if n < 10 {
        seq![dec_digit(n)]
    } else {
        dec_chars(n / 10).push(dec_digit(n % 10))
    }
}

fn digit_string(d: usize) -> (s: String)
    requires
        d < 10,
    ensures
        s@ == seq![dec_digit(d as nat)],
{
    if d == 0 {
        proof {
            reveal_strlit("0");
            assert("0"@ =~= seq![dec_digit(d as nat)]);
        }
        String::from_str("0")
    } else if d == 1 {
        proof {
            reveal_strlit("1");
            assert("1"@ =~= seq![dec_digit(d as nat)]);
        }
        String::from_str("1")
    } else if d == 2 {
        proof {
            reveal_strlit("2");
            assert("2"@ =~= seq![dec_digit(d as nat)]);
        }
        String::from_str("2")
    } else if d == 3 {
        proof {
            reveal_strlit("3");
            assert("3"@ =~= seq![dec_digit(d as nat)]);
        }
        String::from_str("3")
    } else if d == 4 {
        proof {
            reveal_strlit("4");
            assert("4"@ =~= seq![dec_digit(d as nat)]);
        }
        String::from_str("4")
    } else if d == 5 {
        proof {
            reveal_strlit("5");
            assert("5"@ =~= seq![dec_digit(d as nat)]);
        }
        String::from_str("5")
    } else if d == 6 {
        proof {
            reveal_strlit("6");
            assert("6"@ =~= seq![dec_digit(d as nat)]);
        }
        String::from_str("6")
    } else if d == 7 {
        proof {
            reveal_strlit("7");
            assert("7"@ =~= seq![dec_digit(d as nat)]);
        }
        String::from_str("7")
    } else if d == 8 {
        proof {
            reveal_strlit("8");
            assert("8"@ =~= seq![dec_digit(d as nat)]);
        }
        String::from_str("8")
    } else {
        proof {
            reveal_strlit("9");
            assert("9"@ =~= seq![dec_digit(d as nat)]);
        }
        String::from_str("9")
    }
}

/// Prints `n` in decimal, matching `dec_chars`.
pub fn format_decimal(n: usize) -> (s: String)
    ensures
        s@ == dec_chars(n as nat),
    decreases n,
{
    if n < 10 {
        digit_string(n)
    } else {
        let mut s = format_decimal(n / 10);
        let d = digit_string(n % 10);
        s.append(d.as_str());
        proof {
            assert(s@ =~= dec_chars(n as nat));
        }
        s
    }
}

} // verus!
