use vstd::prelude::*;
use vstd::string::*;

use crate::json::str_eq;

verus! {

/// The fixed prefix of a chain file's name.
pub open spec fn spec_name_prefix() -> Seq<char> {
    "eip155-"@
}

/// The fixed suffix of a chain file's name.
pub open spec fn spec_name_suffix() -> Seq<char> {
    ".json"@
}

/// The fixed directory the chain files live in.
pub open spec fn spec_data_dir() -> Seq<char> {
    "ethereum-list/chains/_data/chains/"@
}

pub open spec fn is_digit(c: char) -> bool {
    '0' <= c && c <= '9'
}

/// The numeric value of one decimal digit character.
pub open spec fn digit_val(c: char) -> nat {
    (c as int - '0' as int) as nat
}

pub open spec fn all_digits(s: Seq<char>) -> bool {
    forall|i: int| 0 <= i < s.len() ==> is_digit(s[i])
}

/// The value of a decimal digit string, most significant digit first.
pub open spec fn dec_val(s: Seq<char>) -> nat
    decreases s.len(),
{
    if s.len() == 0 {
        0
    } else {
        dec_val(s.drop_last()) * 10 + digit_val(s.last())
    }
}

/// The decimal digit character for a value below ten.
pub open spec fn spec_digit_char(d: int) -> char {
    if d == 0 {
        '0'
    } else if d == 1 {
        '1'
    } else if d == 2 {
        '2'
    } else if d == 3 {
        '3'
    } else if d == 4 {
        '4'
    } else if d == 5 {
        '5'
    } else if d == 6 {
        '6'
    } else if d == 7 {
        '7'
    } else if d == 8 {
        '8'
    } else {
        '9'
    }
}

/// The decimal digit string of a number, without leading zeros.
pub open spec fn dec_digits(n: u64) -> Seq<char>
    decreases n,
{
    if n < 10 {
        seq![spec_digit_char(n as int)]
    } else {
        dec_digits(n / 10).push(spec_digit_char((n % 10) as int))
    }
}

/// The name a chain file carries: the prefix, the id's digits, the suffix.
pub open spec fn spec_chain_file_name(id: u64) -> Seq<char> {
    spec_name_prefix() + dec_digits(id) + spec_name_suffix()
}

/// The path of a chain file under the fixed data directory.
pub open spec fn spec_chain_file_path(id: u64) -> Seq<char> {
    spec_data_dir() + spec_chain_file_name(id)
}

/// The chain id a file name encodes: the digits between the fixed prefix
/// and suffix, read as a decimal `u64`. A name with the wrong prefix or
/// suffix, a non-digit, no digits at all, or a value out of range encodes
/// nothing.
pub open spec fn spec_parse_file_name(s: Seq<char>) -> Option<u64> {
    let p = spec_name_prefix();
    let q = spec_name_suffix();
    if s.len() > p.len() + q.len() && s.subrange(0, p.len() as int) == p && s.subrange(
        s.len() - q.len(),
        s.len() as int,
    ) == q {
        let digits = s.subrange(p.len() as int, s.len() - q.len());
        if all_digits(digits) && dec_val(digits) <= u64::MAX {
            Some(dec_val(digits) as u64)
        } else {
            None
        }
    } else {
        None
    }
}

/// Every digit string the library forms is made of digits.
pub proof fn lemma_dec_digits_all(n: u64)
    ensures
        all_digits(dec_digits(n)),
        dec_digits(n).len() >= 1,
    decreases n,
{
    if n >= 10 {
        lemma_dec_digits_all(n / 10);
    }
}

/// A digit character's value is the value it was formed from.
proof fn lemma_digit_char_val(d: int)
    requires
        0 <= d < 10,
    ensures
        digit_val(spec_digit_char(d)) == d,
{
}

/// Reading back the digit string of a number yields the number.
pub proof fn lemma_dec_val_digits(n: u64)
    ensures
        dec_val(dec_digits(n)) == n,
    decreases n,
{
    let s = dec_digits(n);
    if n < 10 {
        lemma_digit_char_val(n as int);
        assert(s =~= seq![spec_digit_char(n as int)]);
        assert(s.drop_last() =~= Seq::<char>::empty());
        assert(dec_val(s) == dec_val(s.drop_last()) * 10 + digit_val(s.last()));
    } else {
        lemma_digit_char_val((n % 10) as int);
        lemma_dec_val_digits(n / 10);
        assert(s == dec_digits(n / 10).push(spec_digit_char((n % 10) as int)));
        assert(s.drop_last() =~= dec_digits(n / 10));
        assert(s.last() == spec_digit_char((n % 10) as int));
        assert(dec_val(s) == dec_val(s.drop_last()) * 10 + digit_val(s.last()));
        assert(n == (n / 10) * 10 + n % 10);
    }
}

/// A digit string is worth at least any of its prefixes.
proof fn lemma_dec_val_prefix(s: Seq<char>, i: int)
    requires
        0 <= i <= s.len(),
    ensures
        dec_val(s) >= dec_val(s.take(i)),
    decreases s.len() - i,
{
    if i < s.len() {
        assert(s.take(i + 1).drop_last() =~= s.take(i));
        assert(dec_val(s.take(i + 1)) == dec_val(s.take(i)) * 10 + digit_val(s.take(i + 1).last()));
        lemma_dec_val_prefix(s, i + 1);
    } else {
        assert(s.take(i) =~= s);
    }
}

/// One decimal digit, as a borrowed one-character string.
fn digit_str(d: u64) -> (r: &'static str)
    requires
        d < 10,
    ensures
        r@ == seq![spec_digit_char(d as int)],
{
    let r: &'static str = if d == 0 {
        "0"
    } else if d == 1 {
        "1"
    } else if d == 2 {
        "2"
    } else if d == 3 {
        "3"
    } else if d == 4 {
        "4"
    } else if d == 5 {
        "5"
    } else if d == 6 {
        "6"
    } else if d == 7 {
        "7"
    } else if d == 8 {
        "8"
    } else {
        "9"
    };
    proof {
        reveal_strlit("0");
        reveal_strlit("1");
        reveal_strlit("2");
        reveal_strlit("3");
        reveal_strlit("4");
        reveal_strlit("5");
        reveal_strlit("6");
        reveal_strlit("7");
        reveal_strlit("8");
        reveal_strlit("9");
        assert(r@ =~= seq![spec_digit_char(d as int)]);
    }
    r
}

/// The decimal digit string of a number.
fn dec_str(n: u64) -> (r: String)
    ensures
        r@ == dec_digits(n),
    decreases n,
{
    if n < 10 {
        digit_str(n).to_owned()
    } else {
        proof {
            assert(n / 10 < n) by (nonlinear_arith)
                requires
                    n >= 10,
            ;
        }
        let mut s = dec_str(n / 10);
        s.append(digit_str(n % 10));
        proof {
            assert(s@ =~= dec_digits(n));
        }
        s
    }
}

/// Forms the file name that carries a chain id.
pub fn chain_file_name(chain_id: u64) -> (r: String)
    ensures
        r@ == spec_chain_file_name(chain_id),
{
    let mut s = String::from_str("eip155-");
    s.append(dec_str(chain_id).as_str());
    s.append(".json");
    s
}

/// Forms the path of a chain file under the fixed data directory.
pub fn chain_file_path(chain_id: u64) -> (r: String)
    ensures
        r@ == spec_chain_file_path(chain_id),
{
    let mut s = String::from_str("ethereum-list/chains/_data/chains/");
    s.append(chain_file_name(chain_id).as_str());
    s
}

/// The fixed directory the chain files live in.
pub fn data_dir_path() -> (r: String)
    ensures
        r@ == spec_data_dir(),
{
    String::from_str("ethereum-list/chains/_data/chains/")
}

/// Reads the chain id out of a file name of the fixed form.
pub fn parse_chain_file_name(name: &str) -> (r: Option<u64>)
    ensures
        r == spec_parse_file_name(name@),
{
    proof {
        reveal_strlit("eip155-");
        reveal_strlit(".json");
    }
    let len = name.unicode_len();
    if len <= 12 {
        return None;
    }
    let prefix = name.substring_char(0, 7);
    if !str_eq(prefix, "eip155-") {
        return None;
    }
    let suffix = name.substring_char(len - 5, len);
    if !str_eq(suffix, ".json") {
        return None;
    }
    let digits = name.substring_char(7, len - 5);
    let dlen = digits.unicode_len();
    let mut acc: u64 = 0;
    let mut i: usize = 0;
    while i < dlen
        invariant
            0 <= i <= dlen,
            dlen == digits@.len(),
            digits@ == name@.subrange(7, name@.len() - 5),
            name@.len() > 12,
            name@.subrange(0, 7) == spec_name_prefix(),
            name@.subrange(name@.len() - 5, name@.len() as int) == spec_name_suffix(),
            spec_name_prefix().len() == 7,
            spec_name_suffix().len() == 5,
            all_digits(digits@.take(i as int)),
            acc == dec_val(digits@.take(i as int)),
        decreases dlen - i,
    {
        let c = digits.get_char(i);
        if c < '0' || c > '9' {
            assert(!is_digit(digits@[i as int]));
            return None;
        }
        let d: u64 = ((c as u32) - ('0' as u32)) as u64;
        proof {
            assert(digits@.take(i + 1).drop_last() =~= digits@.take(i as int));
            assert(digits@.take(i + 1).last() == digits@[i as int]);
        }
        let m = match acc.checked_mul(10) {
            Some(m) => m,
            None => {
                proof {
                    lemma_dec_val_prefix(digits@, i + 1);
                }
                return None;
            },
        };
        let a = match m.checked_add(d) {
            Some(a) => a,
            None => {
                proof {
                    lemma_dec_val_prefix(digits@, i + 1);
                }
                return None;
            },
        };
        acc = a;
        i = i + 1;
    }
    proof {
        assert(digits@.take(i as int) =~= digits@);
    }
    Some(acc)
}

/// Forming a chain file name from an id and parsing it back yields the
/// same id.
pub proof fn lemma_file_name_round_trip(id: u64)
    ensures
        spec_parse_file_name(spec_chain_file_name(id)) == Some(id),
{
    reveal_strlit("eip155-");
    reveal_strlit(".json");
    lemma_dec_digits_all(id);
    lemma_dec_val_digits(id);
    let s = spec_chain_file_name(id);
    let p = spec_name_prefix();
    let q = spec_name_suffix();
    let d = dec_digits(id);
    assert(s.subrange(0, p.len() as int) =~= p);
    assert(s.subrange(s.len() - q.len(), s.len() as int) =~= q);
    assert(s.subrange(p.len() as int, s.len() - q.len()) =~= d);
}

} // verus!
