//! Amounts of storage as Kubernetes writes them.

use vstd::prelude::*;
use vstd::string::*;

use crate::text::{
    chars_of, decimal_is_read_back, digit_value, int_text, natural, str_eq, string_of,
};

verus! {

/// How many digits a text begins with.
pub open spec fn digit_run(s: Seq<char>) -> nat
    decreases s.len(),
{
    if s.len() == 0 || digit_value(s[0]) is None {
        0
    } else {
        1 + digit_run(s.skip(1))
    }
}

/// What a unit stands for: thousands, or powers of 1024.
pub open spec fn unit(suffix: Seq<char>) -> Option<int> {
    if suffix == ""@ {
        Some(1)
    } else if suffix == "k"@ {
        Some(1_000)
    } else if suffix == "M"@ {
        Some(1_000_000)
    } else if suffix == "G"@ {
        Some(1_000_000_000)
    } else if suffix == "T"@ {
        Some(1_000_000_000_000)
    } else if suffix == "P"@ {
        Some(1_000_000_000_000_000)
    } else if suffix == "E"@ {
        Some(1_000_000_000_000_000_000)
    } else if suffix == "Ki"@ {
        Some(1_024)
    } else if suffix == "Mi"@ {
        Some(1_048_576)
    } else if suffix == "Gi"@ {
        Some(1_073_741_824)
    } else if suffix == "Ti"@ {
        Some(1_099_511_627_776)
    } else if suffix == "Pi"@ {
        Some(1_125_899_906_842_624)
    } else if suffix == "Ei"@ {
        Some(1_152_921_504_606_846_976)
    } else {
        None
    }
}

/// The bytes that a quantity stands for, where it is a whole number with or without a unit.
pub open spec fn bytes_of(quantity: Seq<char>) -> Option<int> {
    let digits = digit_run(quantity) as int;
    match (natural(quantity.take(digits)), unit(quantity.skip(digits))) {
        (Some(n), Some(u)) => if n * u <= i64::MAX {
            Some(n * u)
        } else {
            None
        },
        _ => None,
    }
}

fn unit_of(suffix: &str) -> (r: Option<u64>)
    ensures
        match unit(suffix@) {
            Some(u) => r == Some(u as u64) && 1 <= u <= 1_152_921_504_606_846_976,
            None => r is None,
        },
{
    if str_eq(suffix, "") {
        Some(1)
    } else if str_eq(suffix, "k") {
        Some(1_000)
    } else if str_eq(suffix, "M") {
        Some(1_000_000)
    } else if str_eq(suffix, "G") {
        Some(1_000_000_000)
    } else if str_eq(suffix, "T") {
        Some(1_000_000_000_000)
    } else if str_eq(suffix, "P") {
        Some(1_000_000_000_000_000)
    } else if str_eq(suffix, "E") {
        Some(1_000_000_000_000_000_000)
    } else if str_eq(suffix, "Ki") {
        Some(1_024)
    } else if str_eq(suffix, "Mi") {
        Some(1_048_576)
    } else if str_eq(suffix, "Gi") {
        Some(1_073_741_824)
    } else if str_eq(suffix, "Ti") {
        Some(1_099_511_627_776)
    } else if str_eq(suffix, "Pi") {
        Some(1_125_899_906_842_624)
    } else if str_eq(suffix, "Ei") {
        Some(1_152_921_504_606_846_976)
    } else {
        None
    }
}

fn count_digits(chars: &Vec<char>) -> (r: usize)
    ensures
        r == digit_run(chars@),
        r <= chars@.len(),
        forall|j: int| 0 <= j < r ==> '0' <= #[trigger] chars@[j] <= '9',
{
    let mut i: usize = 0;
    proof {
        assert(chars@.skip(0) =~= chars@);
    }
    while i < chars.len() && '0' <= chars[i] && chars[i] <= '9'
        invariant
            i <= chars.len(),
            digit_run(chars@) == i + digit_run(chars@.skip(i as int)),
            forall|j: int| 0 <= j < i ==> '0' <= #[trigger] chars@[j] <= '9',
        decreases chars.len() - i,
    {
        proof {
            let rest = chars@.skip(i as int);
            assert(rest[0] == chars@[i as int]);
            assert(rest.skip(1) =~= chars@.skip(i as int + 1));
        }
        i = i + 1;
    }
    proof {
        let rest = chars@.skip(i as int);
        if i < chars@.len() {
            assert(rest[0] == chars@[i as int]);
        }
        assert(digit_run(rest) == 0);
    }
    i
}

fn tail_of(chars: &Vec<char>, from: usize) -> (r: String)
    requires
        from <= chars@.len(),
    ensures
        r@ == chars@.skip(from as int),
{
    let mut out: Vec<char> = Vec::new();
    let mut i: usize = from;
    while i < chars.len()
        invariant
            from <= i <= chars.len(),
            out@ == chars@.subrange(from as int, i as int),
        decreases chars.len() - i,
    {
        out.push(chars[i]);
        proof {
            assert(chars@.subrange(from as int, i as int + 1) =~= chars@.subrange(
                from as int,
                i as int,
            ).push(chars@[i as int]));
        }
        i = i + 1;
    }
    proof {
        assert(out@ =~= chars@.skip(from as int));
    }
    string_of(&out)
}

/// The number that the first digits name, where it is below ten to the 19th.
fn read_digits(chars: &Vec<char>, digits: usize) -> (r: Option<u128>)
    requires
        0 < digits <= chars@.len(),
        forall|j: int| 0 <= j < digits ==> '0' <= #[trigger] chars@[j] <= '9',
    ensures
        natural(chars@.take(digits as int)) is Some,
        match r {
            Some(n) => natural(chars@.take(digits as int)) == Some(n as nat) && n
                <= 10_000_000_000_000_000_000,
            None => natural(chars@.take(digits as int))->0 > 10_000_000_000_000_000_000,
        },
{
    let ghost s = chars@.take(digits as int);
    let mut value: u128 = 0;
    let mut large: bool = false;
    let mut i: usize = 0;
    while i < digits
        invariant
            i <= digits <= chars@.len(),
            s == chars@.take(digits as int),
            forall|j: int| 0 <= j < digits ==> '0' <= #[trigger] chars@[j] <= '9',
            i > 0 ==> natural(s.take(i as int)) is Some,
            i > 0 && !large ==> natural(s.take(i as int)) == Some(value as nat),
            i > 0 && large ==> natural(s.take(i as int))->0 > 10_000_000_000_000_000_000,
            i == 0 ==> value == 0 && !large,
            value <= 10_000_000_000_000_000_000,
        decreases digits - i,
    {
        let c = chars[i];
        proof {
            let next = s.take(i as int + 1);
            assert(next.last() == c);
            assert(next.drop_last() =~= s.take(i as int));
            assert(digit_value(c) is Some);
            if i == 0 {
                assert(next.len() == 1);
            }
        }
        if !large {
            let longer: u128 = value * 10 + (c as u128 - 48);
            if longer > 10_000_000_000_000_000_000 {
                large = true;
            } else {
                value = longer;
            }
        }
        i = i + 1;
    }
    proof {
        assert(s.take(digits as int) =~= s);
    }
    if large {
        None
    } else {
        Some(value)
    }
}

/// The bytes that a quantity stands for.
pub fn quantity_bytes(quantity: &str) -> (r: Option<i64>)
    ensures
        r == match bytes_of(quantity@) {
            Some(n) => Some(n as i64),
            None => None,
        },
{
    let chars: Vec<char> = chars_of(quantity);
    let digits: usize = count_digits(&chars);
    if digits == 0 {
        proof {
            assert(chars@.take(0).len() == 0);
        }
        return None;
    }
    let number = read_digits(&chars, digits);
    let suffix: String = tail_of(&chars, digits);
    let ghost n = natural(chars@.take(digits as int))->0;
    match unit_of(suffix.as_str()) {
        None => None,
        Some(u) => {
            match number {
                None => {
                    proof {
                        assert(n * u >= n) by (nonlinear_arith)
                            requires
                                u >= 1,
                                n >= 0,
                        ;
                    }
                    None
                },
                Some(value) => {
                    proof {
                        assert(0 <= value * u <= 10_000_000_000_000_000_000
                            * 1_152_921_504_606_846_976) by (nonlinear_arith)
                            requires
                                0 <= value <= 10_000_000_000_000_000_000,
                                1 <= u <= 1_152_921_504_606_846_976,
                        ;
                    }
                    let total: u128 = value * (u as u128);
                    if total <= i64::MAX as u128 {
                        Some(total as i64)
                    } else {
                        None
                    }
                },
            }
        },
    }
}

proof fn lemma_all_digits(s: Seq<char>)
    requires
        natural(s) is Some,
    ensures
        digit_run(s) == s.len(),
    decreases s.len(),
{
    let rest = s.skip(1);
    lemma_first_digit(s);
    if s.len() > 1 {
        lemma_rest_digits(s);
        lemma_all_digits(rest);
    } else {
        assert(digit_run(rest) == 0);
    }
    assert(digit_run(s) == 1 + digit_run(rest));
}

proof fn lemma_first_digit(s: Seq<char>)
    requires
        natural(s) is Some,
    ensures
        s.len() > 0,
        digit_value(s[0]) is Some,
    decreases s.len(),
{
    if s.len() > 1 {
        lemma_first_digit(s.drop_last());
        assert(s.drop_last()[0] == s[0]);
    }
}

proof fn lemma_rest_digits(s: Seq<char>)
    requires
        natural(s) is Some,
        s.len() > 1,
    ensures
        natural(s.skip(1)) is Some,
    decreases s.len(),
{
    let rest = s.skip(1);
    assert(rest.last() == s.last());
    if s.len() > 2 {
        lemma_rest_digits(s.drop_last());
        assert(s.drop_last().skip(1) =~= rest.drop_last());
    }
}

/// A number of bytes that was written as a quantity is read back.
pub proof fn bytes_are_read_back(n: int)
    requires
        0 <= n <= i64::MAX,
    ensures
        bytes_of(int_text(n)) == Some(n),
{
    let s = int_text(n);
    decimal_is_read_back(n as nat);
    lemma_all_digits(s);
    assert(s.take(s.len() as int) =~= s);
    reveal_strlit("");
    assert(s.skip(s.len() as int) =~= ""@);
}

} // verus!
