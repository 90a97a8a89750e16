//! IPv4 addresses in dotted decimal notation.

use vstd::prelude::*;

use crate::text::{
    chars_of, decimal, digits_value, first_index, is_digit, is_digits, law_decimal_notation,
    lemma_decimal, lemma_first_index, lemma_first_index_is,
};

verus! {

/// The parts of `s` between its dots.
pub open spec fn dotted_parts(s: Seq<char>) -> Seq<Seq<char>>
    decreases s.len(),
{
    proof {
        lemma_first_index(s, '.');
    }
    let dot = first_index(s, '.');
    if dot == s.len() {
        seq![s]
    } else {
        seq![s.take(dot as int)] + dotted_parts(s.skip(dot as int + 1))
    }
}

/// `s` is a number of at most three digits below 256, without a leading zero.
pub open spec fn is_octet(s: Seq<char>) -> bool {
    &&& is_digits(s)
    &&& s.len() <= 3
    &&& s.len() > 1 ==> s[0] != '0'
    &&& digits_value(s) <= 255
}

/// The address that `s` is the notation of: four octets with dots between them.
pub open spec fn parsed_ipv4(s: Seq<char>) -> Option<(u8, u8, u8, u8)> {
    let parts = dotted_parts(s);
    if parts.len() == 4 && is_octet(parts[0]) && is_octet(parts[1]) && is_octet(parts[2])
        && is_octet(parts[3]) {
        Some(
            (
                digits_value(parts[0]) as u8,
                digits_value(parts[1]) as u8,
                digits_value(parts[2]) as u8,
                digits_value(parts[3]) as u8,
            ),
        )
    } else {
        None
    }
}

/// The value of `chars[from..to]` where it is an octet.
fn octet(chars: &Vec<char>, from: usize, to: usize) -> (value: Option<u8>)
    requires
        from <= to <= chars@.len(),
    ensures
        value == (if is_octet(chars@.subrange(from as int, to as int)) {
            Some(digits_value(chars@.subrange(from as int, to as int)) as u8)
        } else {
            None
        }),
{
    let ghost part = chars@.subrange(from as int, to as int);
    if to == from || to - from > 3 {
        return None;
    }
    if to - from > 1 && chars[from] == '0' {
        assert(part[0] == '0');
        return None;
    }
    let mut value: u32 = 0;
    let mut i: usize = from;
    assert(part.take(0) =~= Seq::<char>::empty());
    while i < to
        invariant
            from <= i <= to <= chars@.len(),
            to - from <= 3,
            part == chars@.subrange(from as int, to as int),
            forall|j: int| 0 <= j < i - from ==> is_digit(#[trigger] part[j]),
            value == digits_value(part.take(i - from)),
            i == from ==> value == 0,
            i == from + 1 ==> value < 10,
            i == from + 2 ==> value < 100,
            i == from + 3 ==> value < 1000,
        decreases to - i,
    {
        let c = chars[i];
        assert(c == part[i - from]);
        if !('0' <= c && c <= '9') {
            assert(!is_digit(part[i - from]));
            return None;
        }
        proof {
            assert(part.take(i - from + 1).drop_last() =~= part.take(i - from));
            assert(part.take(i - from + 1).last() == c);
        }
        value = value * 10 + (c as u32 - 48);
        i = i + 1;
    }
    assert(part.take(part.len() as int) =~= part);
    if value > 255 {
        None
    } else {
        Some(value as u8)
    }
}

/// The position of the next dot at or after `from`, and the length where there is none.
fn next_dot(chars: &Vec<char>, from: usize) -> (at: usize)
    requires
        from <= chars@.len(),
    ensures
        from <= at <= chars@.len(),
        at == from + first_index(chars@.skip(from as int), '.'),
{
    let mut i: usize = from;
    while i < chars.len() && chars[i] != '.'
        invariant
            from <= i <= chars@.len(),
            forall|j: int| from <= j < i ==> chars@[j] != '.',
        decreases chars@.len() - i,
    {
        i = i + 1;
    }
    proof {
        lemma_first_index_is(chars@.skip(from as int), '.', i - from);
    }
    i
}

/// The parts of `s[from..]`, where `at` is the position of its first dot.
proof fn lemma_dotted_parts(s: Seq<char>, from: int, at: int)
    requires
        0 <= from <= at <= s.len(),
        at == from + first_index(s.skip(from), '.'),
    ensures
        at == s.len() ==> dotted_parts(s.skip(from)) == seq![s.subrange(from, at)],
        at < s.len() ==> dotted_parts(s.skip(from)) == seq![s.subrange(from, at)] + dotted_parts(
            s.skip(at + 1),
        ),
        dotted_parts(s.skip(from)).len() >= 1,
{
    let rest = s.skip(from);
    assert(rest.take(at - from) =~= s.subrange(from, at));
    if at == s.len() {
        assert(rest =~= s.subrange(from, at));
    } else {
        assert(rest.skip(at - from + 1) =~= s.skip(at + 1));
    }
}

proof fn lemma_dotted_parts_nonempty(s: Seq<char>)
    ensures
        dotted_parts(s).len() >= 1,
{
    lemma_first_index(s, '.');
}

/// Reads an IPv4 address in dotted decimal notation.
pub fn parse_ipv4(s: &str) -> (address: Option<(u8, u8, u8, u8)>)
    ensures
        address == parsed_ipv4(s@),
{
    let chars = chars_of(s);
    let ghost all = chars@;
    assert(all.skip(0) =~= all);
    let a = next_dot(&chars, 0);
    proof {
        lemma_dotted_parts(all, 0, a as int);
    }
    if a == chars.len() {
        return None;
    }
    let b = next_dot(&chars, a + 1);
    proof {
        lemma_dotted_parts(all, a + 1, b as int);
    }
    if b == chars.len() {
        return None;
    }
    let c = next_dot(&chars, b + 1);
    proof {
        lemma_dotted_parts(all, b + 1, c as int);
    }
    if c == chars.len() {
        return None;
    }
    let d = next_dot(&chars, c + 1);
    proof {
        lemma_dotted_parts(all, c + 1, d as int);
    }
    if d != chars.len() {
        proof {
            lemma_dotted_parts_nonempty(all.skip(d + 1));
        }
        return None;
    }
    match (
        octet(&chars, 0, a),
        octet(&chars, a + 1, b),
        octet(&chars, b + 1, c),
        octet(&chars, c + 1, d),
    ) {
        (Some(first), Some(second), Some(third), Some(fourth)) => Some(
            (first, second, third, fourth),
        ),
        _ => None,
    }
}

/// The notation of an address: its octets in decimal notation, with dots between them.
pub open spec fn dotted(a: u8, b: u8, c: u8, d: u8) -> Seq<char> {
    decimal(a as nat) + seq!['.'] + (decimal(b as nat) + seq!['.'] + (decimal(c as nat) + seq!['.']
        + decimal(d as nat)))
}

/// An address is read from its notation, and from no other text.
pub proof fn law_addresses_are_read_back(s: Seq<char>, a: u8, b: u8, c: u8, d: u8)
    ensures
        parsed_ipv4(s) == Some((a, b, c, d)) <==> s == dotted(a, b, c, d),
{
    if s == dotted(a, b, c, d) {
        let last = decimal(d as nat);
        let third = decimal(c as nat) + seq!['.'] + last;
        let second = decimal(b as nat) + seq!['.'] + third;
        lemma_octet_notation(a);
        lemma_octet_notation(b);
        lemma_octet_notation(c);
        lemma_octet_notation(d);
        law_parts_end_at_dots(decimal(a as nat), second);
        law_parts_end_at_dots(decimal(b as nat), third);
        law_parts_end_at_dots(decimal(c as nat), last);
        law_parts_end_at_dots(last, Seq::empty());
        assert(dotted_parts(s) =~= seq![
            decimal(a as nat),
            decimal(b as nat),
            decimal(c as nat),
            last,
        ]);
    }
    if parsed_ipv4(s) == Some((a, b, c, d)) {
        let parts = dotted_parts(s);
        lemma_octet_is_decimal(parts[0]);
        lemma_octet_is_decimal(parts[1]);
        lemma_octet_is_decimal(parts[2]);
        lemma_octet_is_decimal(parts[3]);
        lemma_parts_make_the_text(s);
        let rest = s.skip(first_index(s, '.') as int + 1);
        lemma_parts_make_the_text(rest);
        let more = rest.skip(first_index(rest, '.') as int + 1);
        lemma_parts_make_the_text(more);
        let last = more.skip(first_index(more, '.') as int + 1);
        lemma_parts_make_the_text(last);
        assert(dotted_parts(rest) =~= parts.drop_first());
        assert(dotted_parts(more) =~= parts.drop_first().drop_first());
        assert(dotted_parts(last) =~= parts.drop_first().drop_first().drop_first());
        assert(last =~= parts[3]);
        assert(more =~= parts[2] + seq!['.'] + last);
        assert(rest =~= parts[1] + seq!['.'] + more);
        assert(s =~= parts[0] + seq!['.'] + rest);
    }
}

/// A text is cut at its dots.
pub proof fn law_parts_end_at_dots(part: Seq<char>, rest: Seq<char>)
    requires
        forall|i: int| 0 <= i < part.len() ==> #[trigger] part[i] != '.',
    ensures
        dotted_parts(part) == seq![part],
        dotted_parts(part + seq!['.'] + rest) == seq![part] + dotted_parts(rest),
{
    lemma_first_index_is(part, '.', part.len() as int);
    let whole = part + seq!['.'] + rest;
    lemma_first_index_is(whole, '.', part.len() as int);
    assert(whole.take(part.len() as int) =~= part);
    assert(whole.skip(part.len() as int + 1) =~= rest);
}

proof fn lemma_octet_notation(n: u8)
    ensures
        is_octet(decimal(n as nat)),
        digits_value(decimal(n as nat)) == n,
        forall|i: int| 0 <= i < decimal(n as nat).len() ==> #[trigger] decimal(n as nat)[i] != '.',
{
    lemma_decimal(n as nat);
    law_decimal_notation(n as nat, 0, Seq::empty());
    reveal_with_fuel(decimal, 3);
    let s = decimal(n as nat);
    assert forall|i: int| 0 <= i < s.len() implies #[trigger] s[i] != '.' by {
        assert(is_digit(s[i]));
    }
    if n > 0 {
        assert(s[0] != '0');
    }
}

/// Digits without a zero to spare are the decimal notation of their number.
proof fn lemma_digits_are_decimal(s: Seq<char>)
    requires
        is_digits(s),
        s.len() > 1 ==> s[0] != '0',
    ensures
        decimal(digits_value(s)) == s,
        s[0] != '0' ==> digits_value(s) > 0,
    decreases s.len(),
{
    let less = s.drop_last();
    let last = s.last();
    assert(is_digit(s[s.len() - 1]));
    if s.len() == 1 {
        assert(less =~= Seq::<char>::empty());
        assert(digits_value(less) == 0);
        assert(s =~= seq![last]);
    } else {
        assert(less[0] == s[0]);
        assert forall|i: int| 0 <= i < less.len() implies is_digit(#[trigger] less[i]) by {
            assert(is_digit(s[i]));
        }
        lemma_digits_are_decimal(less);
        let n = digits_value(s);
        assert(n / 10 == digits_value(less));
        assert(n % 10 == last as nat - 48);
        assert(less.push(last) =~= s);
    }
}

proof fn lemma_octet_is_decimal(s: Seq<char>)
    requires
        is_octet(s),
    ensures
        s == decimal(digits_value(s)),
{
    lemma_digits_are_decimal(s);
}

proof fn lemma_parts_make_the_text(s: Seq<char>)
    ensures
        ({
            let dot = first_index(s, '.') as int;
            &&& dotted_parts(s).len() > 1 ==> dot < s.len() && s =~= dotted_parts(s)[0] + seq!['.']
                + s.skip(dot + 1) && dotted_parts(s).drop_first() =~= dotted_parts(s.skip(dot + 1))
            &&& dotted_parts(s).len() == 1 ==> s =~= dotted_parts(s)[0]
        }),
{
    lemma_first_index(s, '.');
    let dot = first_index(s, '.') as int;
    if dot < s.len() {
        lemma_dotted_parts_nonempty(s.skip(dot + 1));
        assert((seq![s.take(dot)] + dotted_parts(s.skip(dot + 1))).drop_first() =~= dotted_parts(
            s.skip(dot + 1),
        ));
    }
}

} // verus!
