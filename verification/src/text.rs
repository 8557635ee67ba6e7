//! Text: the order of strings, decimal numbers, prefixes, suffixes and joining.

use vstd::prelude::*;
use vstd::string::*;

verus! {

/// `String::push` of std: appends one character to the end of the string.
pub assume_specification[ String::push ](s: &mut String, c: char)
    ensures
        final(s)@ == old(s)@.push(c),
;

/// The view of an optional string.
pub open spec fn opt_text(s: Option<String>) -> Option<Seq<char>> {
    match s {
        Some(s) => Some(s@),
        None => None,
    }
}

/// The view of an optional string slice.
pub open spec fn opt_str(s: Option<&str>) -> Option<Seq<char>> {
    match s {
        Some(s) => Some(s@),
        None => None,
    }
}

/// The views of a sequence of strings.
pub open spec fn texts(s: Seq<String>) -> Seq<Seq<char>> {
    Seq::new(s.len(), |i: int| s[i]@)
}

/// The same strings once more.
pub fn duplicate_texts(s: &Vec<String>) -> (r: Vec<String>)
    ensures
        texts(r@) == texts(s@),
{
    let mut out: Vec<String> = Vec::new();
    let mut i: usize = 0;
    while i < s.len()
        invariant
            i <= s.len(),
            out@.len() == i,
            forall|j: int| 0 <= j < i ==> (#[trigger] out@[j])@ == s@[j]@,
        decreases s.len() - i,
    {
        out.push(s[i].clone());
        i = i + 1;
    }
    proof {
        assert(texts(out@) =~= texts(s@));
    }
    out
}

/// Whether two strings hold the same characters.
pub fn str_eq(a: &str, b: &str) -> (r: bool)
    ensures
        r == (a@ == b@),
{
    a.to_owned() == b.to_owned()
}

/// Two strings, one after the other.
pub fn cat(a: &str, b: &str) -> (r: String)
    ensures
        r@ == a@ + b@,
{
    let mut s: String = a.to_owned();
    s.append(b);
    s
}

/// Three strings, one after the other.
pub fn cat3(a: &str, b: &str, c: &str) -> (r: String)
    ensures
        r@ == a@ + b@ + c@,
{
    let mut s: String = cat(a, b);
    s.append(c);
    s
}

/// The characters of a string, one by one.
pub fn chars_of(s: &str) -> (r: Vec<char>)
    ensures
        r@ == s@,
{
    let mut out: Vec<char> = Vec::new();
    for c in it: s.chars()
        invariant
            it.seq() == s@,
            out@ == s@.take(it.index()),
    {
        out.push(c);
        proof {
            assert(s@.take(it.index() + 1) =~= s@.take(it.index()).push(c));
        }
    }
    proof {
        assert(s@.take(s@.len() as int) =~= s@);
    }
    out
}

/// The string made of the given characters.
pub fn string_of(chars: &Vec<char>) -> (r: String)
    ensures
        r@ == chars@,
{
    let mut out: String = String::new();
    let mut i: usize = 0;
    while i < chars.len()
        invariant
            i <= chars.len(),
            out@ == chars@.take(i as int),
        decreases chars.len() - i,
    {
        out.push(chars[i]);
        proof {
            assert(chars@.take(i + 1) =~= chars@.take(i as int).push(chars@[i as int]));
        }
        i = i + 1;
    }
    proof {
        assert(chars@.take(chars@.len() as int) =~= chars@);
    }
    out
}

/// The order of strings: by the first character in which they differ, a proper prefix first.
pub open spec fn text_lt(a: Seq<char>, b: Seq<char>) -> bool
    decreases a.len(),
{
    if b.len() == 0 {
        false
    } else if a.len() == 0 {
        true
    } else if a[0] != b[0] {
        (a[0] as u32) < (b[0] as u32)
    } else {
        text_lt(a.skip(1), b.skip(1))
    }
}

/// No string comes before itself.
pub proof fn text_lt_irreflexive(a: Seq<char>)
    ensures
        !text_lt(a, a),
    decreases a.len(),
{
    if a.len() > 0 {
        text_lt_irreflexive(a.skip(1));
    }
}

/// The order of strings is transitive.
pub proof fn text_lt_transitive(a: Seq<char>, b: Seq<char>, c: Seq<char>)
    requires
        text_lt(a, b),
        text_lt(b, c),
    ensures
        text_lt(a, c),
    decreases a.len(),
{
    if a.len() > 0 && b.len() > 0 && c.len() > 0 && a[0] == b[0] && b[0] == c[0] {
        text_lt_transitive(a.skip(1), b.skip(1), c.skip(1));
    }
}

proof fn char_code_injective(a: char, b: char)
    ensures
        a != b ==> a as u32 != b as u32,
{
}

/// Of two different strings one comes first.
pub proof fn text_lt_total(a: Seq<char>, b: Seq<char>)
    ensures
        text_lt(a, b) || text_lt(b, a) || a == b,
    decreases a.len(),
{
    if a.len() > 0 && b.len() > 0 {
        if a[0] == b[0] {
            text_lt_total(a.skip(1), b.skip(1));
            if a.skip(1) == b.skip(1) {
                assert(a =~= seq![a[0]] + a.skip(1));
                assert(b =~= seq![b[0]] + b.skip(1));
            }
        } else {
            char_code_injective(a[0], b[0]);
        }
    } else if a.len() == 0 && b.len() == 0 {
        assert(a =~= b);
    }
}

/// Whether texts are those of a list, each once and in ascending order.
pub open spec fn orders(ordered: Seq<Seq<char>>, list: Seq<Seq<char>>) -> bool {
    &&& forall|i: int, j: int|
        0 <= i < j < ordered.len() ==> #[trigger] text_lt(ordered[i], ordered[j])
    &&& forall|t: Seq<char>| #[trigger] ordered.contains(t) <==> list.contains(t)
}

/// The texts of a list, each once and in ascending order.
pub open spec fn in_order(list: Seq<Seq<char>>) -> Seq<Seq<char>> {
    choose|ordered: Seq<Seq<char>>| orders(ordered, list)
}

/// Every list has its texts in one order, and in no other.
pub proof fn the_order_of_texts(list: Seq<Seq<char>>, other: Seq<Seq<char>>)
    ensures
        orders(in_order(list), list),
        orders(other, list) ==> other == in_order(list),
{
    lemma_some_order(list);
    if orders(other, list) {
        lemma_one_order(other, in_order(list));
    }
}

proof fn lemma_some_order(list: Seq<Seq<char>>)
    ensures
        exists|ordered: Seq<Seq<char>>| orders(ordered, list),
    decreases list.len(),
{
    if list.len() == 0 {
        assert(orders(Seq::empty(), list));
    } else {
        let last = list.last();
        let before = list.drop_last();
        lemma_some_order(before);
        let o = choose|o: Seq<Seq<char>>| orders(o, before);
        assert forall|t: Seq<char>| #[trigger] list.contains(t) <==> before.contains(t) || t
            == last by {
            if list.contains(t) && t != last {
                let i = choose|i: int| 0 <= i < list.len() && list[i] == t;
                assert(before[i] == t);
            }
            if before.contains(t) {
                let i = choose|i: int| 0 <= i < before.len() && before[i] == t;
                assert(list[i] == t);
            }
            assert(list[list.len() - 1] == last);
        }
        if before.contains(last) {
            assert(orders(o, list));
        } else {
            let k = lemma_place(o, last);
            let more = o.insert(k, last);
            assert forall|i: int, j: int| 0 <= i < j < more.len() implies #[trigger] text_lt(
                more[i],
                more[j],
            ) by {
                let x = if i < k {
                    i
                } else {
                    i - 1
                };
                let y = if j < k {
                    j
                } else {
                    j - 1
                };
                if i != k && j != k {
                    assert(text_lt(o[x], o[y]));
                }
            }
            assert forall|t: Seq<char>| #[trigger] more.contains(t) <==> o.contains(t) || t
                == last by {
                if o.contains(t) {
                    let i = choose|i: int| 0 <= i < o.len() && o[i] == t;
                    if i < k {
                        assert(more[i] == t);
                    } else {
                        assert(more[i + 1] == t);
                    }
                }
                if more.contains(t) && t != last {
                    let i = choose|i: int| 0 <= i < more.len() && more[i] == t;
                    if i < k {
                        assert(o[i] == t);
                    } else {
                        assert(o[i - 1] == t);
                    }
                }
                assert(more[k] == last);
            }
            assert(orders(more, list));
        }
    }
}

proof fn lemma_place(ordered: Seq<Seq<char>>, t: Seq<char>) -> (k: int)
    requires
        forall|i: int, j: int|
            0 <= i < j < ordered.len() ==> #[trigger] text_lt(ordered[i], ordered[j]),
        !ordered.contains(t),
    ensures
        0 <= k <= ordered.len(),
        forall|i: int| 0 <= i < k ==> text_lt(#[trigger] ordered[i], t),
        forall|i: int| k <= i < ordered.len() ==> text_lt(t, #[trigger] ordered[i]),
    decreases ordered.len(),
{
    if ordered.len() == 0 {
        0
    } else {
        let before = ordered.drop_last();
        let last = ordered.last();
        assert forall|i: int, j: int| 0 <= i < j < before.len() implies #[trigger] text_lt(
            before[i],
            before[j],
        ) by {
            assert(text_lt(ordered[i], ordered[j]));
        }
        if before.contains(t) {
            let i = choose|i: int| 0 <= i < before.len() && before[i] == t;
            assert(ordered[i] == t);
        }
        assert(ordered[ordered.len() - 1] == last);
        text_lt_total(t, last);
        if text_lt(last, t) {
            assert forall|i: int| 0 <= i < ordered.len() implies text_lt(
                #[trigger] ordered[i],
                t,
            ) by {
                if i < ordered.len() - 1 {
                    assert(text_lt(ordered[i], ordered[ordered.len() - 1]));
                    text_lt_transitive(ordered[i], last, t);
                }
            }
            ordered.len() as int
        } else {
            let k = lemma_place(before, t);
            assert forall|i: int| 0 <= i < k implies text_lt(#[trigger] ordered[i], t) by {
                assert(before[i] == ordered[i]);
            }
            assert forall|i: int| k <= i < ordered.len() implies text_lt(
                t,
                #[trigger] ordered[i],
            ) by {
                if i < before.len() {
                    assert(before[i] == ordered[i]);
                }
            }
            k
        }
    }
}

proof fn lemma_one_order(a: Seq<Seq<char>>, b: Seq<Seq<char>>)
    requires
        forall|i: int, j: int| 0 <= i < j < a.len() ==> #[trigger] text_lt(a[i], a[j]),
        forall|i: int, j: int| 0 <= i < j < b.len() ==> #[trigger] text_lt(b[i], b[j]),
        forall|t: Seq<char>| #[trigger] a.contains(t) <==> b.contains(t),
    ensures
        a == b,
    decreases a.len(),
{
    if a.len() == 0 {
        if b.len() > 0 {
            assert(b.contains(b[0]));
            assert(a.contains(b[0]));
        }
        assert(a =~= b);
    } else {
        assert(a.contains(a.last()));
        assert(b.contains(a.last()));
        assert(b.contains(b.last()));
        assert(a.contains(b.last()));
        let i = choose|i: int| 0 <= i < b.len() && b[i] == a.last();
        let j = choose|j: int| 0 <= j < a.len() && a[j] == b.last();
        if i != b.len() - 1 {
            assert(text_lt(b[i], b[b.len() - 1]));
            if j != a.len() - 1 {
                assert(text_lt(a[j], a[a.len() - 1]));
                text_lt_transitive(a.last(), b.last(), a.last());
            }
            text_lt_irreflexive(a.last());
        }
        assert(a.last() == b.last());
        let x = a.drop_last();
        let y = b.drop_last();
        assert forall|i: int, j: int| 0 <= i < j < x.len() implies #[trigger] text_lt(
            x[i],
            x[j],
        ) by {
            assert(text_lt(a[i], a[j]));
        }
        assert forall|i: int, j: int| 0 <= i < j < y.len() implies #[trigger] text_lt(
            y[i],
            y[j],
        ) by {
            assert(text_lt(b[i], b[j]));
        }
        assert forall|t: Seq<char>| #[trigger] x.contains(t) <==> y.contains(t) by {
            lemma_below_the_last(a, t);
            lemma_below_the_last(b, t);
        }
        lemma_one_order(x, y);
        assert(a =~= x.push(a.last()));
        assert(b =~= y.push(b.last()));
    }
}

proof fn lemma_below_the_last(a: Seq<Seq<char>>, t: Seq<char>)
    requires
        a.len() > 0,
        forall|i: int, j: int| 0 <= i < j < a.len() ==> #[trigger] text_lt(a[i], a[j]),
    ensures
        a.drop_last().contains(t) <==> a.contains(t) && t != a.last(),
{
    let x = a.drop_last();
    if x.contains(t) {
        let i = choose|i: int| 0 <= i < x.len() && x[i] == t;
        assert(a[i] == t);
        assert(text_lt(a[i], a[a.len() - 1]));
        text_lt_irreflexive(t);
    }
    if a.contains(t) && t != a.last() {
        let i = choose|i: int| 0 <= i < a.len() && a[i] == t;
        assert(x[i] == t);
    }
}

/// Whether `a` comes before `b`.
pub fn str_lt(a: &str, b: &str) -> (r: bool)
    ensures
        r == text_lt(a@, b@),
{
    let x: Vec<char> = chars_of(a);
    let y: Vec<char> = chars_of(b);
    let mut i: usize = 0;
    proof {
        assert(a@.skip(0) =~= a@);
        assert(b@.skip(0) =~= b@);
    }
    while i < x.len() && i < y.len() && x[i] == y[i]
        invariant
            x@ == a@,
            y@ == b@,
            i <= x.len(),
            i <= y.len(),
            text_lt(a@, b@) == text_lt(a@.skip(i as int), b@.skip(i as int)),
        decreases x.len() - i,
    {
        proof {
            assert(a@.skip(i as int).skip(1) =~= a@.skip(i + 1));
            assert(b@.skip(i as int).skip(1) =~= b@.skip(i + 1));
        }
        i = i + 1;
    }
    if i >= y.len() {
        false
    } else if i >= x.len() {
        true
    } else {
        (x[i] as u32) < (y[i] as u32)
    }
}

/// The decimal digit of a number below ten.
pub open spec fn digit_char(d: nat) -> char {
    if d == 0 {
        '0'
    } else if d == 1 {
        '1'
    } else if d == 2 {
        '2'
    } else if d == 3 {
        '3'
    } else if d == 4 {
        '4'
    } else if d == 5 {
        '5'
    } else if d == 6 {
        '6'
    } else if d == 7 {
        '7'
    } else if d == 8 {
        '8'
    } else {
        '9'
    }
}

fn digit(d: u64) -> (r: char)
    requires
        d < 10,
    ensures
        r == digit_char(d as nat),
{
    if d == 0 {
        '0'
    } else if d == 1 {
        '1'
    } else if d == 2 {
        '2'
    } else if d == 3 {
        '3'
    } else if d == 4 {
        '4'
    } else if d == 5 {
        '5'
    } else if d == 6 {
        '6'
    } else if d == 7 {
        '7'
    } else if d == 8 {
        '8'
    } else {
        '9'
    }
}

/// A natural number in decimal, without leading zeros.
pub open spec fn decimal(n: nat) -> Seq<char>
    decreases n,
{
    if n < 10 {
        seq![digit_char(n)]
    } else {
        decimal(n / 10).push(digit_char(n % 10))
    }
}

/// An integer in decimal, with a minus sign where it is negative.
pub open spec fn int_text(i: int) -> Seq<char> {
    if i < 0 {
        seq!['-'] + decimal((-i) as nat)
    } else {
        decimal(i as nat)
    }
}

/// Writes a natural number in decimal.
pub fn u64_text(n: u64) -> (r: String)
    ensures
        r@ == decimal(n as nat),
    decreases n,
{
    if n < 10 {
        let mut out: String = String::new();
        out.push(digit(n));
        proof {
            assert(out@ =~= seq![digit_char(n as nat)]);
        }
        out
    } else {
        let mut out: String = u64_text(n / 10);
        out.push(digit(n % 10));
        out
    }
}

/// Writes an integer in decimal.
pub fn i64_text(i: i64) -> (r: String)
    ensures
        r@ == int_text(i as int),
{
    if i >= 0 {
        u64_text(i as u64)
    } else if i == i64::MIN {
        let mut out: String = String::new();
        out.push('-');
        out.append(u64_text(9223372036854775808u64).as_str());
        proof {
            assert(out@ =~= int_text(i as int));
        }
        out
    } else {
        let mut out: String = String::new();
        out.push('-');
        out.append(u64_text((-i) as u64).as_str());
        proof {
            assert(out@ =~= int_text(i as int));
        }
        out
    }
}

/// The strings in order, with the separator between each two.
pub open spec fn join(parts: Seq<Seq<char>>, separator: Seq<char>) -> Seq<char>
    decreases parts.len(),
{
    if parts.len() == 0 {
        Seq::<char>::empty()
    } else if parts.len() == 1 {
        parts[0]
    } else {
        join(parts.drop_last(), separator) + separator + parts.last()
    }
}

/// Joins strings with a separator between each two.
pub fn join_strings(parts: &Vec<String>, separator: &str) -> (r: String)
    ensures
        r@ == join(texts(parts@), separator@),
{
    let mut out: String = String::new();
    let mut i: usize = 0;
    proof {
        assert(texts(parts@).take(0) =~= Seq::<Seq<char>>::empty());
    }
    while i < parts.len()
        invariant
            i <= parts.len(),
            out@ == join(texts(parts@).take(i as int), separator@),
        decreases parts.len() - i,
    {
        let ghost before = texts(parts@).take(i as int);
        let ghost after = texts(parts@).take(i + 1);
        if i > 0 {
            out.append(separator);
        }
        out.append(parts[i].as_str());
        proof {
            assert(after.drop_last() =~= before);
            assert(after.last() == parts@[i as int]@);
            if i == 0 {
                assert(out@ =~= after[0]);
            }
        }
        i = i + 1;
    }
    proof {
        assert(texts(parts@).take(parts@.len() as int) =~= texts(parts@));
    }
    out
}

/// Whether `s` begins with `prefix`.
pub open spec fn begins_with(s: Seq<char>, prefix: Seq<char>) -> bool {
    prefix.len() <= s.len() && s.take(prefix.len() as int) == prefix
}

/// Whether `s` ends with `suffix`.
pub open spec fn ends_with(s: Seq<char>, suffix: Seq<char>) -> bool {
    suffix.len() <= s.len() && s.skip(s.len() - suffix.len()) == suffix
}

/// Whether `part` occurs in `s`.
pub open spec fn occurs_in(s: Seq<char>, part: Seq<char>) -> bool {
    exists|i: int|
        0 <= i <= s.len() - part.len() && #[trigger] s.subrange(i, i + part.len()) == part
}

/// In how many places `part` occurs in `s`.
pub open spec fn occurrences(s: Seq<char>, part: Seq<char>) -> nat
    decreases s.len(),
{
    if s.len() == 0 {
        0
    } else {
        occurrences(s.drop_last(), part) + if ends_with(s, part) {
            1nat
        } else {
            0
        }
    }
}

/// Whether `part` stands in `s` at `i`.
pub open spec fn stands_at(s: Seq<char>, part: Seq<char>, i: int) -> bool {
    0 <= i <= s.len() - part.len() && forall|j: int|
        0 <= j < part.len() ==> s[i + j] == #[trigger] part[j]
}

/// A text occurs in another where it is counted there at all, and wherever it stands in it.
pub proof fn lemma_occurrences_count(s: Seq<char>, part: Seq<char>)
    requires
        part.len() > 0,
    ensures
        occurs_in(s, part) <==> occurrences(s, part) > 0,
        forall|i: int| stands_at(s, part, i) ==> occurs_in(s, part),
    decreases s.len(),
{
    assert forall|i: int| stands_at(s, part, i) implies occurs_in(s, part) by {
        assert(s.subrange(i, i + part.len()) =~= part);
    }
    if s.len() > 0 {
        let before = s.drop_last();
        lemma_occurrences_count(before, part);
        if ends_with(s, part) {
            let i = s.len() - part.len();
            assert(s.subrange(i, i + part.len()) =~= s.skip(i));
        }
        if occurs_in(before, part) {
            let i = choose|i: int|
                0 <= i <= before.len() - part.len() && #[trigger] before.subrange(
                    i,
                    i + part.len(),
                ) == part;
            assert(s.subrange(i, i + part.len()) =~= part);
        }
        if occurs_in(s, part) && !ends_with(s, part) {
            let i = choose|i: int|
                0 <= i <= s.len() - part.len() && #[trigger] s.subrange(i, i + part.len()) == part;
            if i == s.len() - part.len() {
                assert(s.skip(i) =~= part);
            }
            assert(before.subrange(i, i + part.len()) =~= part);
        }
    }
}

/// A text that stands nowhere but in one place of another occurs there once.
pub proof fn lemma_occurs_once(s: Seq<char>, part: Seq<char>, at: int)
    requires
        part.len() > 0,
        stands_at(s, part, at),
        forall|i: int| stands_at(s, part, i) ==> i == at,
    ensures
        occurrences(s, part) == 1,
    decreases s.len(),
{
    let before = s.drop_last();
    assert forall|i: int| stands_at(before, part, i) implies i == at by {
        assert(stands_at(s, part, i));
    }
    if at == s.len() - part.len() {
        assert(s.skip(at) =~= part);
        lemma_occurs_nowhere(before, part);
    } else {
        if ends_with(s, part) {
            let i = s.len() - part.len();
            assert forall|j: int| 0 <= j < part.len() implies s[i + j] == #[trigger] part[j] by {
                assert(s.skip(i)[j] == part[j]);
            }
            assert(stands_at(s, part, i));
        }
        assert(stands_at(before, part, at));
        lemma_occurs_once(before, part, at);
    }
}

/// A text that stands nowhere in another does not occur in it.
pub proof fn lemma_occurs_nowhere(s: Seq<char>, part: Seq<char>)
    requires
        part.len() > 0,
        forall|i: int| !stands_at(s, part, i),
    ensures
        occurrences(s, part) == 0,
    decreases s.len(),
{
    if s.len() > 0 {
        let before = s.drop_last();
        assert forall|i: int| !stands_at(before, part, i) by {
            if stands_at(before, part, i) {
                assert(stands_at(s, part, i));
            }
        }
        if ends_with(s, part) {
            let i = s.len() - part.len();
            assert forall|j: int| 0 <= j < part.len() implies s[i + j] == #[trigger] part[j] by {
                assert(s.skip(i)[j] == part[j]);
            }
            assert(stands_at(s, part, i));
        }
        lemma_occurs_nowhere(before, part);
    }
}

/// A text with a character that another lacks does not occur in it.
pub proof fn lemma_lacks(s: Seq<char>, part: Seq<char>, k: int)
    requires
        0 <= k < part.len(),
        !s.contains(part[k]),
    ensures
        occurrences(s, part) == 0,
{
    assert forall|i: int| !stands_at(s, part, i) by {
        if stands_at(s, part, i) {
            assert(s[i + k] == part[k]);
        }
    }
    lemma_occurs_nowhere(s, part);
}

/// A text that lacks one of the characters next to a seam does not occur across it.
pub proof fn lemma_occurrences_add_up(a: Seq<char>, b: Seq<char>, part: Seq<char>)
    requires
        part.len() > 0,
        a.len() > 0 && b.len() > 0 ==> !part.contains(a.last()) || !part.contains(b[0]),
    ensures
        occurrences(a + b, part) == occurrences(a, part) + occurrences(b, part),
    decreases b.len(),
{
    let s = a + b;
    if b.len() == 0 {
        assert(s =~= a);
    } else {
        assert(s.drop_last() =~= a + b.drop_last());
        lemma_occurrences_add_up(a, b.drop_last(), part);
        if part.len() <= b.len() {
            assert(s.skip(s.len() - part.len()) =~= b.skip(b.len() - part.len()));
        } else if ends_with(s, part) {
            let at = s.len() - part.len();
            assert(s.skip(at)[a.len() - 1 - at] == a.last());
            assert(s.skip(at)[a.len() - at] == b[0]);
        }
    }
}

fn matches_at(s: &Vec<char>, at: usize, part: &Vec<char>) -> (r: bool)
    requires
        at + part.len() <= s.len(),
    ensures
        r == (s@.subrange(at as int, at + part@.len()) == part@),
{
    let mut i: usize = 0;
    while i < part.len()
        invariant
            at + part.len() <= s.len(),
            i <= part.len(),
            forall|j: int| 0 <= j < i ==> s@[at + j] == part@[j],
        decreases part.len() - i,
    {
        if s[at + i] != part[i] {
            proof {
                assert(s@.subrange(at as int, at + part@.len())[i as int] != part@[i as int]);
            }
            return false;
        }
        i = i + 1;
    }
    proof {
        assert(s@.subrange(at as int, at + part@.len()) =~= part@);
    }
    true
}

/// Tests whether `s` begins with `prefix`.
pub fn starts_with_str(s: &str, prefix: &str) -> (r: bool)
    ensures
        r == begins_with(s@, prefix@),
{
    let x: Vec<char> = chars_of(s);
    let y: Vec<char> = chars_of(prefix);
    if y.len() > x.len() {
        return false;
    }
    proof {
        assert(s@.subrange(0, 0int + prefix@.len()) =~= s@.take(prefix@.len() as int));
    }
    matches_at(&x, 0, &y)
}

/// Tests whether `part` occurs in `s`.
pub fn contains_str(s: &str, part: &str) -> (r: bool)
    ensures
        r == occurs_in(s@, part@),
{
    let x: Vec<char> = chars_of(s);
    let y: Vec<char> = chars_of(part);
    if y.len() > x.len() {
        return false;
    }
    let last: usize = x.len() - y.len();
    let mut i: usize = 0;
    while i <= last
        invariant
            x@ == s@,
            y@ == part@,
            last == x.len() - y.len(),
            i <= last + 1,
            last < usize::MAX || i <= last,
            forall|j: int| 0 <= j < i ==> #[trigger] s@.subrange(j, j + part@.len()) != part@,
        decreases last + 1 - i,
    {
        if matches_at(&x, i, &y) {
            return true;
        }
        if i == last {
            return false;
        }
        i = i + 1;
    }
    false
}

/// `s` without `suffix`, where it ends with it.
pub open spec fn without_suffix(s: Seq<char>, suffix: Seq<char>) -> Option<Seq<char>> {
    if ends_with(s, suffix) {
        Some(s.take(s.len() - suffix.len()))
    } else {
        None
    }
}

/// Takes `suffix` off the end of `s`.
pub fn strip_suffix_str<'a>(s: &'a str, suffix: &str) -> (r: Option<&'a str>)
    ensures
        opt_str(r) == without_suffix(s@, suffix@),
{
    let x: Vec<char> = chars_of(s);
    let y: Vec<char> = chars_of(suffix);
    if y.len() > x.len() {
        return None;
    }
    let at: usize = x.len() - y.len();
    proof {
        assert(s@.subrange(at as int, at + suffix@.len()) =~= s@.skip(at as int));
        assert(s@.subrange(0, at as int) =~= s@.take(at as int));
    }
    if matches_at(&x, at, &y) {
        Some(s.substring_char(0, at))
    } else {
        None
    }
}

/// An ASCII capital letter in lower case, any other character unchanged.
pub open spec fn ascii_lower(c: char) -> char {
    if 'A' <= c <= 'Z' {
        ((c as u32 + 32) as u32) as char
    } else {
        c
    }
}

/// Whether two strings agree up to the case of ASCII letters.
pub open spec fn same_ignoring_case(a: Seq<char>, b: Seq<char>) -> bool {
    a.len() == b.len() && forall|i: int|
        0 <= i < a.len() ==> ascii_lower(#[trigger] a[i]) == ascii_lower(b[i])
}

fn lower(c: char) -> (r: char)
    ensures
        r == ascii_lower(c),
{
    if 'A' <= c && c <= 'Z' {
        let code: u8 = c as u8;
        (code + 32) as char
    } else {
        c
    }
}

/// Compares two strings up to the case of ASCII letters.
pub fn eq_ignoring_case(a: &str, b: &str) -> (r: bool)
    ensures
        r == same_ignoring_case(a@, b@),
{
    let x: Vec<char> = chars_of(a);
    let y: Vec<char> = chars_of(b);
    if x.len() != y.len() {
        return false;
    }
    let mut i: usize = 0;
    while i < x.len()
        invariant
            x@ == a@,
            y@ == b@,
            x.len() == y.len(),
            i <= x.len(),
            forall|j: int| 0 <= j < i ==> ascii_lower(#[trigger] a@[j]) == ascii_lower(b@[j]),
        decreases x.len() - i,
    {
        if lower(x[i]) != lower(y[i]) {
            return false;
        }
        i = i + 1;
    }
    true
}

/// The value of a decimal digit.
pub open spec fn digit_value(c: char) -> Option<nat> {
    if '0' <= c <= '9' {
        Some((c as u32 - 48) as nat)
    } else {
        None
    }
}

/// The natural number that a text of decimal digits names.
pub open spec fn natural(s: Seq<char>) -> Option<nat>
    decreases s.len(),
{
    if s.len() == 0 {
        None
    } else {
        match digit_value(s.last()) {
            None => None,
            Some(d) => if s.len() == 1 {
                Some(d)
            } else {
                match natural(s.drop_last()) {
                    None => None,
                    Some(n) => Some(n * 10 + d),
                }
            },
        }
    }
}

/// The integer that a text names: decimal digits, after a sign where there is one.
pub open spec fn integer(s: Seq<char>) -> Option<int> {
    if s.len() == 0 {
        None
    } else if s[0] == '-' {
        match natural(s.skip(1)) {
            Some(n) => Some(-(n as int)),
            None => None,
        }
    } else {
        match natural(
            if s[0] == '+' {
                s.skip(1)
            } else {
                s
            },
        ) {
            Some(n) => Some(n as int),
            None => None,
        }
    }
}

/// The first digits of a number name a number that is no larger.
pub proof fn lemma_natural_prefix(s: Seq<char>, k: int)
    requires
        0 < k <= s.len(),
        natural(s) is Some,
    ensures
        natural(s.take(k)) is Some,
        natural(s.take(k))->0 <= natural(s)->0,
    decreases s.len(),
{
    if k == s.len() {
        assert(s.take(k) =~= s);
    } else {
        lemma_natural_prefix(s.drop_last(), k);
        assert(s.drop_last().take(k) =~= s.take(k));
    }
}

/// A number that was written is read back.
pub proof fn decimal_is_read_back(n: nat)
    ensures
        natural(decimal(n)) == Some(n),
        decimal(n).len() > 0,
        '0' <= decimal(n)[0] <= '9',
    decreases n,
{
    if n < 10 {
        assert(decimal(n).last() == digit_char(n));
    } else {
        decimal_is_read_back(n / 10);
        let s = decimal(n);
        assert(s.drop_last() =~= decimal(n / 10));
        assert(s.last() == digit_char(n % 10));
    }
}

/// The natural number that the digits from a place on name, where it is below two to the 32nd.
fn parse_digits(chars: &Vec<char>, from: usize) -> (r: Option<u64>)
    requires
        from <= chars.len(),
    ensures
        r == match natural(chars@.skip(from as int)) {
            Some(n) => if n < 0x1_0000_0000 {
                Some(n as u64)
            } else {
                None
            },
            None => None,
        },
{
    let ghost s = chars@.skip(from as int);
    if from == chars.len() {
        return None;
    }
    let mut value: u64 = 0;
    let mut i: usize = from;
    while i < chars.len()
        invariant
            from <= i <= chars.len(),
            from < chars.len(),
            s == chars@.skip(from as int),
            value < 0x1_0000_0000,
            i == from ==> value == 0,
            i > from ==> natural(s.take(i - from)) == Some(value as nat),
        decreases chars.len() - i,
    {
        let c = chars[i];
        let ghost next = s.take(i - from + 1);
        proof {
            assert(next.last() == c);
            assert(next.drop_last() =~= s.take(i - from));
            if natural(s) is Some {
                lemma_natural_prefix(s, i - from + 1);
            }
        }
        if !('0' <= c && c <= '9') {
            return None;
        }
        value = value * 10 + (c as u64 - 48);
        if value >= 0x1_0000_0000 {
            return None;
        }
        i = i + 1;
    }
    proof {
        assert(s.take(i - from) =~= s);
    }
    Some(value)
}

/// The integer that a text names, where it fits.
pub fn parse_i32(text: &str) -> (r: Option<i32>)
    ensures
        r == match integer(text@) {
            Some(n) => if i32::MIN <= n <= i32::MAX {
                Some(n as i32)
            } else {
                None
            },
            None => None,
        },
{
    let chars: Vec<char> = chars_of(text);
    if chars.len() == 0 {
        return None;
    }
    let negative = chars[0] == '-';
    let signed = negative || chars[0] == '+';
    let from: usize = if signed {
        1
    } else {
        0
    };
    proof {
        assert(chars@.skip(0) =~= chars@);
    }
    match parse_digits(&chars, from) {
        None => None,
        Some(n) => {
            let value: i64 = if negative {
                -(n as i64)
            } else {
                n as i64
            };
            if value < i32::MIN as i64 || value > i32::MAX as i64 {
                None
            } else {
                Some(value as i32)
            }
        },
    }
}

} // verus!
