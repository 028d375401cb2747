use vstd::prelude::*;
use std::collections::hash_map::DefaultHasher;
use std::hash::Hasher;
use vstd::std_specs::hash::DefaultHasherAdditionalSpecFns;
use vstd::string::StringExecFns;
use vstd::utf8::{decode_utf8, valid_utf8};
use crate::text::{chars_eq, chars_of};

verus! {

/// The decimal digit for `d < 10`.
pub open spec fn digit_char(d: nat) -> char {
    if d == 0 {
        '0'
    } else if d == 1 {
        '1'
    } else if d == 2 {
        '2'
    } else if d == 3 {
        '3'
    } else if d == 4 {
        '4'
    } else if d == 5 {
        '5'
    } else if d == 6 {
        '6'
    } else if d == 7 {
        '7'
    } else if d == 8 {
        '8'
    } else {
        '9'
    }
}

/// Decimal notation of `n`, without leading zeros.
pub open spec fn decimal_of(n: nat) -> Seq<char>
    decreases n,
{
    if n < 10 {
        seq![digit_char(n)]
    } else {
        decimal_of(n / 10).push(digit_char(n % 10))
    }
}

/// Hash of raw label bytes, as a single write into a fresh default hasher.
pub open spec fn label_hash(b: Seq<u8>) -> u64 {
    DefaultHasher::spec_finish(seq![b])
}

/// The label that raw declaration bytes stand for: the text they encode, where
/// the empty-label marker stands for the empty text; where the bytes are not
/// UTF-8, the decimal notation of their hash.
pub open spec fn label_of(b: Seq<u8>) -> Seq<char> {
    if valid_utf8(b) {
        if decode_utf8(b) == "0x00"@ {
            Seq::empty()
        } else {
            decode_utf8(b)
        }
    } else {
        decimal_of(label_hash(b) as nat)
    }
}

/// Relies on `std::str::from_utf8`: it succeeds exactly on valid UTF-8 and
/// then yields the characters that the bytes encode.
#[verifier::external_body]
fn utf8_to_string(b: &[u8]) -> (r: Option<String>)
    ensures
        r is Some <==> valid_utf8(b@),
        r is Some ==> r->0@ == decode_utf8(b@),
{
    std::str::from_utf8(b).ok().map(|s| s.to_owned())
}

/// The one-character text of the decimal digit `d`.
fn digit_str(d: u64) -> (r: &'static str)
    requires
        d < 10,
    ensures
        r@ == seq![digit_char(d as nat)],
{
    proof {
        reveal_strlit("0");
        reveal_strlit("1");
        reveal_strlit("2");
        reveal_strlit("3");
        reveal_strlit("4");
        reveal_strlit("5");
        reveal_strlit("6");
        reveal_strlit("7");
        reveal_strlit("8");
        reveal_strlit("9");
    }
    if d == 0 {
        "0"
    } else if d == 1 {
        "1"
    } else if d == 2 {
        "2"
    } else if d == 3 {
        "3"
    } else if d == 4 {
        "4"
    } else if d == 5 {
        "5"
    } else if d == 6 {
        "6"
    } else if d == 7 {
        "7"
    } else if d == 8 {
        "8"
    } else {
        "9"
    }
}

/// The decimal notation of `n`.
fn u64_to_decimal(n: u64) -> (r: String)
    ensures
        r@ == decimal_of(n as nat),
    decreases n,
{
    if n < 10 {
        digit_str(n).to_owned()
    } else {
        let mut s = u64_to_decimal(n / 10);
        s.append(digit_str(n % 10));
        s
    }
}

fn hash_bytes(b: &[u8]) -> (r: u64)
    ensures
        r == label_hash(b@),
{
    let mut state = DefaultHasher::new();
    state.write(b);
    let r = state.finish();
    assert(state@ =~= seq![b@]);
    r
}

/// Decodes the raw bytes of a declared label.
pub fn decode_label(b: &[u8]) -> (r: String)
    ensures
        r@ == label_of(b@),
{
    match utf8_to_string(b) {
        Some(s) => {
            if chars_eq(&chars_of(s.as_str()), "0x00") {
                String::new()
            } else {
                s
            }
        },
        None => u64_to_decimal(hash_bytes(b)),
    }
}

proof fn lemma_decimal_nonempty(n: nat)
    ensures
        decimal_of(n).len() > 0,
    decreases n,
{
    if n >= 10 {
        lemma_decimal_nonempty(n / 10);
    }
}

/// Bytes that are not UTF-8 get a placeholder label that is not empty, and the
/// same bytes always get the same placeholder.
pub proof fn lemma_invalid_label_placeholder(b1: Seq<u8>, b2: Seq<u8>)
    requires
        !valid_utf8(b1),
        b1 == b2,
    ensures
        label_of(b1).len() > 0,
        label_of(b1) == label_of(b2),
        label_of(b1) == decimal_of(label_hash(b1) as nat),
{
    lemma_decimal_nonempty(label_hash(b1) as nat);
}

} // verus!
