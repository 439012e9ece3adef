//! Decimal text for the numbers that appear in subjects, dates and times.

use vstd::prelude::*;
use vstd::string::{StrSliceExecFns, StringExecFns};

verus! {

/// The character of one decimal digit.
pub open spec fn digit(d: int) -> char {
    if d == 0 {
        '0'
    } else if d == 1 {
        '1'
    } else if d == 2 {
        '2'
    } else if d == 3 {
        '3'
    } else if d == 4 {
        '4'
    } else if d == 5 {
        '5'
    } else if d == 6 {
        '6'
    } else if d == 7 {
        '7'
    } else if d == 8 {
        '8'
    } else {
        '9'
    }
}

/// The decimal digits of `n`, without leading zeros.
pub open spec fn decimal(n: nat) -> Seq<char>
    decreases n,
{
    if n < 10 {
        seq![digit(n as int)]
    } else {
        decimal(n / 10).push(digit((n % 10) as int))
    }
}

/// The last two decimal digits of `n`, zero-padded.
pub open spec fn two_digits(n: nat) -> Seq<char> {
    seq![digit(((n / 10) % 10) as int), digit((n % 10) as int)]
}

/// One decimal digit as text.
pub fn digit_str(d: usize) -> (s: &'static str)
    requires
        d < 10,
    ensures
        s@ == seq![digit(d as int)],
{
    proof {
        reveal_strlit("0");
        reveal_strlit("1");
        reveal_strlit("2");
        reveal_strlit("3");
        reveal_strlit("4");
        reveal_strlit("5");
        reveal_strlit("6");
        reveal_strlit("7");
        reveal_strlit("8");
        reveal_strlit("9");
    }
    let s: &'static str = if d == 0 {
        "0"
    } else if d == 1 {
        "1"
    } else if d == 2 {
        "2"
    } else if d == 3 {
        "3"
    } else if d == 4 {
        "4"
    } else if d == 5 {
        "5"
    } else if d == 6 {
        "6"
    } else if d == 7 {
        "7"
    } else if d == 8 {
        "8"
    } else {
        "9"
    };
    assert(s@ =~= seq![digit(d as int)]);
    s
}

/// The decimal text of `n`.
pub fn decimal_string(n: usize) -> (s: String)
    ensures
        s@ == decimal(n as nat),
    decreases n,
{
    if n < 10 {
        String::from_str(digit_str(n))
    } else {
        let mut s = decimal_string(n / 10);
        s.append(digit_str(n % 10));
        assert(s@ =~= decimal(n as nat));
        s
    }
}

/// The last two decimal digits of `n`, zero-padded, as text.
pub fn two_digit_string(n: usize) -> (s: String)
    ensures
        s@ == two_digits(n as nat),
{
    let mut s = String::from_str(digit_str((n / 10) % 10));
    s.append(digit_str(n % 10));
    assert(s@ =~= two_digits(n as nat));
    s
}

/// The number that `str::parse` reads from a text as a `u64`, if it reads
/// one.
pub uninterp spec fn parsed_number(s: Seq<char>) -> Option<u64>;

/// Reads a number by `str::parse::<u64>`; a text that is refused gives
/// `None`. The contract only names the result.
#[verifier::external_body]
fn read_number(s: &str) -> (r: Option<u64>)
    ensures
        r == parsed_number(s@),
{
    s.parse::<u64>().ok()
}

/// What [`parse_number`] returns: the number read, where one is read and it
/// fits the machine's word.
pub open spec fn number_read(s: Seq<char>) -> Option<usize> {
    match parsed_number(s) {
        Some(n) => if n <= usize::MAX {
            Some(n as usize)
        } else {
            None
        },
        None => None,
    }
}

/// The number that a text names, if it names one that fits the machine's
/// word.
pub fn parse_number(s: &str) -> (r: Option<usize>)
    ensures
        r == number_read(s@),
{
    match read_number(s) {
        Some(n) => {
            if n <= usize::MAX as u64 {
                Some(n as usize)
            } else {
                None
            }
        },
        None => None,
    }
}

/// The fields of a text that is split at every underscore.
pub open spec fn fields(s: Seq<char>) -> Seq<Seq<char>>
    decreases s.len(),
{
    if s.len() == 0 {
        seq![Seq::empty()]
    } else {
        let rest = fields(s.drop_last());
        if s.last() == '_' {
            rest.push(Seq::empty())
        } else {
            rest.update(rest.len() - 1, rest.last().push(s.last()))
        }
    }
}

/// Field `k` of a text that is split at every underscore, counted from 0.
pub open spec fn field(s: Seq<char>, k: nat) -> Option<Seq<char>> {
    if k < fields(s).len() {
        Some(fields(s)[k as int])
    } else {
        None
    }
}

/// The fields that a prefix of a text has closed are fields of the text.
pub proof fn lemma_fields_stable(s: Seq<char>, i: int, k: int)
    requires
        0 <= i <= s.len(),
        0 <= k,
        k + 1 < fields(s.take(i)).len(),
    ensures
        fields(s).len() >= fields(s.take(i)).len(),
        fields(s)[k] == fields(s.take(i))[k],
    decreases s.len(),
{
    if i == s.len() {
        assert(s.take(i) =~= s);
    } else {
        let front = s.drop_last();
        assert(front.take(i) =~= s.take(i));
        lemma_fields_stable(front, i, k);
    }
}

/// Field `k` of a text that is split at every underscore, counted from 0.
#[verifier::rlimit(50)]
pub fn field_string(s: &str, k: usize) -> (r: Option<String>)
    ensures
        r is Some == field(s@, k as nat) is Some,
        r matches Some(f) ==> field(s@, k as nat) == Some(f@),
{
    let n: usize = s.unicode_len();
    let mut i: usize = 0;
    let mut number: usize = 0;
    let mut start: usize = 0;
    while i < n
        invariant
            n == s@.len(),
            start <= i <= n,
            number <= k,
            number <= i,
            fields(s@.take(i as int)).len() == number + 1,
            fields(s@.take(i as int)).last() == s@.subrange(start as int, i as int),
        decreases n - i,
    {
        let c: char = s.get_char(i);
        proof {
            let next = s@.take(i + 1);
            assert(next.drop_last() =~= s@.take(i as int));
            assert(next.last() == c);
            if c != '_' {
                assert(s@.subrange(start as int, i as int).push(c) =~= s@.subrange(
                    start as int,
                    i + 1,
                ));
            } else {
                assert(s@.subrange(i + 1, i + 1) =~= Seq::<char>::empty());
            }
        }
        if c == '_' {
            if number == k {
                proof {
                    lemma_fields_stable(s@, i + 1, k as int);
                }
                return Some(String::from_str(s.substring_char(start, i)));
            }
            number += 1;
            start = i + 1;
        }
        i += 1;
    }
    proof {
        assert(s@.take(n as int) =~= s@);
    }
    if number == k {
        Some(String::from_str(s.substring_char(start, n)))
    } else {
        None
    }
}

/// The last field of a text that is split at every underscore.
#[verifier::rlimit(50)]
pub fn last_field_string(s: &str) -> (r: String)
    ensures
        r@ == fields(s@).last(),
{
    let n: usize = s.unicode_len();
    let mut i: usize = 0;
    let mut start: usize = 0;
    while i < n
        invariant
            n == s@.len(),
            start <= i <= n,
            fields(s@.take(i as int)).len() >= 1,
            fields(s@.take(i as int)).last() == s@.subrange(start as int, i as int),
        decreases n - i,
    {
        let c: char = s.get_char(i);
        proof {
            let next = s@.take(i + 1);
            assert(next.drop_last() =~= s@.take(i as int));
            assert(next.last() == c);
            if c != '_' {
                assert(s@.subrange(start as int, i as int).push(c) =~= s@.subrange(
                    start as int,
                    i + 1,
                ));
            } else {
                assert(s@.subrange(i + 1, i + 1) =~= Seq::<char>::empty());
            }
        }
        if c == '_' {
            start = i + 1;
        }
        i += 1;
    }
    proof {
        assert(s@.take(n as int) =~= s@);
    }
    String::from_str(s.substring_char(start, n))
}

} // verus!
