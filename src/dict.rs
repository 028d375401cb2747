use vstd::prelude::*;
use crate::metadata::{pairs_map, unique_labels, Choices};
use crate::text::{
    chars_of, find_from, first_of, string_of, sub_chars, trim, trim_chars,
};

verus! {

pub open spec fn is_digit(c: char) -> bool {
    48 <= c as u32 <= 57
}

pub open spec fn is_sign(c: char) -> bool {
    c == '+' || c == '-'
}

pub open spec fn is_exp_mark(c: char) -> bool {
    c == 'e' || c == 'E'
}

/// Digits with at most one decimal point, and at least one digit.
pub open spec fn is_mantissa(t: Seq<char>) -> bool {
    &&& forall|i: int| 0 <= i < t.len() ==> is_digit(#[trigger] t[i]) || t[i] == '.'
    &&& forall|i: int, j: int|
        #![trigger t[i], t[j]]
        0 <= i < j < t.len() && t[i] == '.' ==> t[j] != '.'
    &&& exists|i: int| 0 <= i < t.len() && is_digit(#[trigger] t[i])
}

/// An exponent mark, an optional sign, and at least one digit.
pub open spec fn is_exponent(t: Seq<char>) -> bool {
    let k: int = if t.len() >= 2 && is_sign(t[1]) {
        2
    } else {
        1
    };
    &&& t.len() >= 1 && is_exp_mark(t[0])
    &&& k < t.len()
    &&& forall|i: int| k <= i < t.len() ==> is_digit(#[trigger] t[i])
}

/// Index of the first exponent mark at or after `i`, or the length.
pub open spec fn first_exp(t: Seq<char>, i: int) -> int
    decreases t.len() - i,
{
    if i >= t.len() {
        t.len() as int
    } else if is_exp_mark(t[i]) {
        i
    } else {
        first_exp(t, i + 1)
    }
}

/// A decimal number: an optional sign, a mantissa, an optional exponent.
pub open spec fn is_number(s: Seq<char>) -> bool {
    let u = if s.len() > 0 && is_sign(s[0]) {
        s.skip(1)
    } else {
        s
    };
    let p = first_exp(u, 0);
    is_mantissa(u.take(p)) && (p == u.len() || is_exponent(u.skip(p)))
}

/// One `'label':value` pair, with white space around its two parts.
pub open spec fn parse_pair(piece: Seq<char>) -> Option<(Seq<char>, Seq<char>)> {
    let p = first_of(piece, ':', 0);
    let rest = piece.skip(p + 1);
    let k = trim(piece.take(p));
    let v = trim(rest);
    if p >= piece.len() || first_of(rest, ':', 0) < rest.len() {
        None
    } else if k.len() >= 2 && k[0] == '\'' && k[k.len() - 1] == '\'' && is_number(v) {
        Some((k.subrange(1, k.len() - 1), v))
    } else {
        None
    }
}

/// The pairs from index `start` on, separated by `;`: a later pair overrides
/// an earlier one with the same label.
pub open spec fn parse_pairs(s: Seq<char>, start: int) -> Option<Map<Seq<char>, Seq<char>>>
    decreases s.len() - start,
{
    let p = first_of(s, ';', start);
    if start < 0 || start > s.len() || p < start {
        None
    } else {
        match parse_pair(s.subrange(start, p)) {
            None => None,
            Some(kv) => if p >= s.len() {
                Some(map![kv.0 => kv.1])
            } else {
                match parse_pairs(s, p + 1) {
                    None => None,
                    Some(m) => Some(map![kv.0 => kv.1].union_prefer_right(m)),
                }
            },
        }
    }
}

/// The mapping that a dictionary `{'label1':v1;'label2':v2;...}` denotes, or
/// `None` where it is malformed.
pub open spec fn parse_dict(s: Seq<char>) -> Option<Map<Seq<char>, Seq<char>>> {
    let t = trim(s);
    if t.len() >= 2 && t[0] == '{' && t[t.len() - 1] == '}' {
        parse_pairs(trim(t.subrange(1, t.len() - 1)), 0)
    } else {
        None
    }
}

/// A dictionary could not be parsed.
#[derive(Debug, PartialEq, Eq, Clone, Copy, Structural)]
pub struct DictError;

fn is_digit_char(c: char) -> (r: bool)
    ensures
        r == is_digit(c),
{
    48 <= c as u32 && c as u32 <= 57
}

fn mantissa_ok(t: &Vec<char>) -> (r: bool)
    ensures
        r == is_mantissa(t@),
{
    let mut dot_at: Option<usize> = None;
    let mut digit_at: Option<usize> = None;
    let mut i: usize = 0;
    while i < t.len()
        invariant
            i <= t@.len(),
            forall|j: int| 0 <= j < i ==> is_digit(#[trigger] t@[j]) || t@[j] == '.',
            forall|j: int, k: int|
                #![trigger t@[j], t@[k]]
                0 <= j < k < i && t@[j] == '.' ==> t@[k] != '.',
            match dot_at {
                Some(d) => d < i && t@[d as int] == '.',
                None => forall|j: int| 0 <= j < i ==> #[trigger] t@[j] != '.',
            },
            match digit_at {
                Some(d) => d < i && is_digit(t@[d as int]),
                None => forall|j: int| 0 <= j < i ==> !is_digit(#[trigger] t@[j]),
            },
        decreases t@.len() - i,
    {
        let c = t[i];
        if is_digit_char(c) {
            digit_at = Some(i);
        } else if c == '.' {
            if let Some(d) = dot_at {
                assert(t@[d as int] == '.' && t@[i as int] == '.');
                return false;
            }
            dot_at = Some(i);
        } else {
            assert(!(is_digit(t@[i as int]) || t@[i as int] == '.'));
            return false;
        }
        i = i + 1;
    }
    match digit_at {
        Some(d) => {
            assert(is_digit(t@[d as int]));
            true
        },
        None => false,
    }
}

fn exponent_ok(t: &Vec<char>) -> (r: bool)
    ensures
        r == is_exponent(t@),
{
    if t.len() < 1 || !(t[0] == 'e' || t[0] == 'E') {
        return false;
    }
    let k: usize = if t.len() >= 2 && (t[1] == '+' || t[1] == '-') {
        2
    } else {
        1
    };
    if k >= t.len() {
        return false;
    }
    let mut i: usize = k;
    while i < t.len()
        invariant
            k <= i <= t@.len(),
            k < t@.len(),
            t@.len() >= 1 && is_exp_mark(t@[0]),
            k as int == (if t@.len() >= 2 && is_sign(t@[1]) {
                2int
            } else {
                1int
            }),
            forall|j: int| k <= j < i ==> is_digit(#[trigger] t@[j]),
        decreases t@.len() - i,
    {
        if !is_digit_char(t[i]) {
            assert(!is_digit(t@[i as int]));
            return false;
        }
        i = i + 1;
    }
    true
}

fn find_exp(t: &Vec<char>) -> (r: usize)
    ensures
        r == first_exp(t@, 0),
        r <= t@.len(),
{
    let mut i: usize = 0;
    while i < t.len() && !(t[i] == 'e' || t[i] == 'E')
        invariant
            i <= t@.len(),
            first_exp(t@, 0) == first_exp(t@, i as int),
        decreases t@.len() - i,
    {
        i = i + 1;
    }
    i
}

/// Whether `cs` is a decimal number.
pub fn number_ok(cs: &Vec<char>) -> (r: bool)
    ensures
        r == is_number(cs@),
{
    let u = if cs.len() > 0 && (cs[0] == '+' || cs[0] == '-') {
        sub_chars(cs, 1, cs.len())
    } else {
        sub_chars(cs, 0, cs.len())
    };
    assert(cs@.subrange(0, cs@.len() as int) =~= cs@);
    assert(cs@.subrange(1, cs@.len() as int) =~= cs@.skip(1));
    let p = find_exp(&u);
    let m = sub_chars(&u, 0, p);
    assert(u@.subrange(0, p as int) =~= u@.take(p as int));
    if !mantissa_ok(&m) {
        return false;
    }
    if p == u.len() {
        return true;
    }
    let e = sub_chars(&u, p, u.len());
    assert(u@.subrange(p as int, u@.len() as int) =~= u@.skip(p as int));
    exponent_ok(&e)
}

fn parse_pair_chars(piece: &Vec<char>) -> (r: Option<(Vec<char>, Vec<char>)>)
    ensures
        match r {
            Some((k, v)) => parse_pair(piece@) == Some((k@, v@)),
            None => parse_pair(piece@) is None,
        },
{
    let p = find_from(piece, ':', 0);
    if p >= piece.len() {
        return None;
    }
    let rest = sub_chars(piece, p + 1, piece.len());
    assert(rest@ =~= piece@.skip(p + 1));
    let q = find_from(&rest, ':', 0);
    if q < rest.len() {
        return None;
    }
    let head = sub_chars(piece, 0, p);
    assert(head@ =~= piece@.take(p as int));
    let k = trim_chars(&head);
    let v = trim_chars(&rest);
    let kn = k.len();
    if kn >= 2 && k[0] == '\'' && k[kn - 1] == '\'' && number_ok(&v) {
        Some((sub_chars(&k, 1, kn - 1), v))
    } else {
        None
    }
}

proof fn lemma_update_choice(s: Seq<(String, String)>, j: int, x: (String, String))
    requires
        unique_labels(s),
        0 <= j < s.len(),
        x.0@ == s[j].0@,
    ensures
        pairs_map(s.update(j, x)) == pairs_map(s).insert(x.0@, x.1@),
        unique_labels(s.update(j, x)),
    decreases s.len(),
{
    let u = s.update(j, x);
    let d = s.drop_last();
    if j == s.len() - 1 {
        assert(u.drop_last() =~= d);
        assert(pairs_map(u) =~= pairs_map(s).insert(x.0@, x.1@));
    } else {
        assert(u.drop_last() =~= d.update(j, x));
        lemma_update_choice(d, j, x);
        assert(s.last().0@ != x.0@);
        assert(pairs_map(u) =~= pairs_map(s).insert(x.0@, x.1@));
    }
    assert forall|a: int, b: int| 0 <= a < b < u.len() implies u[a].0@ != u[b].0@ by {
        assert(s[a].0@ != s[b].0@);
    }
}

/// Sets the value of the option `k`, adding it where it is new.
fn insert_choice(entries: &mut Choices, k: String, v: String)
    requires
        unique_labels(old(entries)@),
    ensures
        unique_labels(final(entries)@),
        pairs_map(final(entries)@) == pairs_map(old(entries)@).insert(k@, v@),
{
    let mut j: usize = 0;
    while j < entries.len()
        invariant
            j <= entries@.len(),
            entries@ == old(entries)@,
            unique_labels(entries@),
            forall|i: int| 0 <= i < j ==> (#[trigger] entries@[i]).0@ != k@,
        decreases entries@.len() - j,
    {
        if entries[j].0 == k {
            proof {
                lemma_update_choice(entries@, j as int, (k, v));
            }
            entries.set(j, (k, v));
            return;
        }
        j = j + 1;
    }
    let ghost before = entries@;
    entries.push((k, v));
    assert(entries@.drop_last() =~= before);
    assert forall|a: int, b: int| 0 <= a < b < entries@.len() implies entries@[a].0@
        != entries@[b].0@ by {
        if b < before.len() {
            assert(before[a].0@ != before[b].0@);
        }
    }
}

fn parse_pairs_chars(s: &Vec<char>) -> (r: Result<Choices, DictError>)
    ensures
        match r {
            Ok(c) => parse_pairs(s@, 0) == Some(pairs_map(c@)) && unique_labels(c@),
            Err(_) => parse_pairs(s@, 0) is None,
        },
{
    let mut entries: Choices = Vec::new();
    let mut start: usize = 0;
    proof {
        match parse_pairs(s@, 0) {
            Some(m) => {
                assert(pairs_map(entries@).union_prefer_right(m) =~= m);
            },
            None => {},
        }
    }
    loop
        invariant
            start <= s@.len(),
            unique_labels(entries@),
            parse_pairs(s@, 0) == match parse_pairs(s@, start as int) {
                Some(m) => Some(pairs_map(entries@).union_prefer_right(m)),
                None => None::<Map<Seq<char>, Seq<char>>>,
            },
        decreases s@.len() - start,
    {
        let p = find_from(s, ';', start);
        let piece = sub_chars(s, start, p);
        match parse_pair_chars(&piece) {
            None => {
                return Err(DictError);
            },
            Some((k, v)) => {
                let ghost acc = pairs_map(entries@);
                let ks = string_of(&k);
                let vs = string_of(&v);
                insert_choice(&mut entries, ks, vs);
                if p >= s.len() {
                    assert(acc.union_prefer_right(map![k@ => v@]) =~= pairs_map(entries@));
                    return Ok(entries);
                }
                proof {
                    match parse_pairs(s@, p + 1) {
                        Some(m) => {
                            assert(acc.union_prefer_right(map![k@ => v@].union_prefer_right(m))
                                =~= pairs_map(entries@).union_prefer_right(m));
                        },
                        None => {},
                    }
                }
                start = p + 1;
            },
        }
    }
}

/// Parses a dictionary `{'label1':v1;'label2':v2;...}` into its options,
/// without repeated labels: a later pair overrides an earlier one.
pub fn parse_dict_chars(cs: &Vec<char>) -> (r: Result<Choices, DictError>)
    ensures
        match r {
            Ok(c) => parse_dict(cs@) == Some(pairs_map(c@)) && unique_labels(c@),
            Err(_) => parse_dict(cs@) is None,
        },
{
    let t = trim_chars(cs);
    let n = t.len();
    if n >= 2 && t[0] == '{' && t[n - 1] == '}' {
        let inner = sub_chars(&t, 1, n - 1);
        let inner = trim_chars(&inner);
        parse_pairs_chars(&inner)
    } else {
        Err(DictError)
    }
}

/// Parses a dictionary `{'label1':v1;'label2':v2;...}` into its options.
pub fn parse_metadata_dict(s: &str) -> (r: Result<Choices, DictError>)
    ensures
        match r {
            Ok(c) => parse_dict(s@) == Some(pairs_map(c@)) && unique_labels(c@),
            Err(_) => parse_dict(s@) is None,
        },
{
    let cs = chars_of(s);
    parse_dict_chars(&cs)
}

} // verus!
