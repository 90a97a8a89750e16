//! Text as sequences of characters: the small vocabulary of operations that the rest of the
//! library is stated over, each with a mathematical definition and a verified implementation.

use vstd::prelude::*;
use vstd::string::*;

verus! {

// ---------------------------------------------------------------------------------------------
// Trusted: building strings
// ---------------------------------------------------------------------------------------------

/// `String::push` of the standard library: the character is added at the end of the string.
pub assume_specification[ String::push ](s: &mut String, c: char)
    ensures
        final(s)@ == old(s)@.push(c),
;

// ---------------------------------------------------------------------------------------------
// Definitions
// ---------------------------------------------------------------------------------------------

/// The texts that a list of strings holds.
pub open spec fn texts(list: Seq<String>) -> Seq<Seq<char>> {
    Seq::new(list.len(), |i: int| list[i]@)
}

/// The text that an optional string holds.
pub open spec fn opt_text(text: Option<String>) -> Option<Seq<char>> {
    match text {
        Some(value) => Some(value@),
        None => None,
    }
}

/// The text that an optional string slice holds.
pub open spec fn opt_str(text: Option<&str>) -> Option<Seq<char>> {
    match text {
        Some(value) => Some(value@),
        None => None,
    }
}

/// The characters with the Unicode property `White_Space`.
pub open spec fn is_white(c: char) -> bool {
    ||| '\u{9}' <= c <= '\u{d}'
    ||| c == '\u{20}'
    ||| c == '\u{85}'
    ||| c == '\u{a0}'
    ||| c == '\u{1680}'
    ||| '\u{2000}' <= c <= '\u{200a}'
    ||| c == '\u{2028}'
    ||| c == '\u{2029}'
    ||| c == '\u{202f}'
    ||| c == '\u{205f}'
    ||| c == '\u{3000}'
}

/// `s` without the white space that it starts with.
pub open spec fn skip_white(s: Seq<char>) -> Seq<char>
    decreases s.len(),
{
    if s.len() > 0 && is_white(s[0]) {
        skip_white(s.drop_first())
    } else {
        s
    }
}

/// `s` without the white space that it ends with.
pub open spec fn drop_white(s: Seq<char>) -> Seq<char>
    decreases s.len(),
{
    if s.len() > 0 && is_white(s.last()) {
        drop_white(s.drop_last())
    } else {
        s
    }
}

/// `s` without the white space around it.
pub open spec fn trimmed(s: Seq<char>) -> Seq<char> {
    drop_white(skip_white(s))
}

/// `pattern` stands in `s` from position `i` on.
pub open spec fn occurs_at(s: Seq<char>, pattern: Seq<char>, i: int) -> bool {
    &&& 0 <= i <= s.len() - pattern.len()
    &&& s.subrange(i, i + pattern.len()) == pattern
}

/// `pattern` stands somewhere in `s`.
pub open spec fn has_text(s: Seq<char>, pattern: Seq<char>) -> bool {
    exists|i: int| occurs_at(s, pattern, i)
}

/// `s` starts with `prefix`.
pub open spec fn starts_with(s: Seq<char>, prefix: Seq<char>) -> bool {
    prefix.len() <= s.len() && s.take(prefix.len() as int) == prefix
}

/// `s` with every occurrence of `c` written as `with`.
pub open spec fn replaced(s: Seq<char>, c: char, with: Seq<char>) -> Seq<char>
    decreases s.len(),
{
    if s.len() == 0 {
        Seq::empty()
    } else {
        replaced(s.drop_last(), c, with) + (if s.last() == c {
            with
        } else {
            seq![s.last()]
        })
    }
}

/// The position of the first `c` in `s`, and the length of `s` where there is none.
pub open spec fn first_index(s: Seq<char>, c: char) -> nat
    decreases s.len(),
{
    if s.len() == 0 || s[0] == c {
        0
    } else {
        1 + first_index(s.drop_first(), c)
    }
}

/// `s` without a carriage return at its end.
pub open spec fn without_cr(s: Seq<char>) -> Seq<char> {
    if s.len() > 0 && s.last() == '\r' {
        s.drop_last()
    } else {
        s
    }
}

/// The lines of `s`: each ends with a line feed, which a carriage return may precede; the last
/// one may lack the line feed, and is then kept as it stands.
pub open spec fn text_lines(s: Seq<char>) -> Seq<Seq<char>>
    decreases s.len(),
{
    proof {
        lemma_first_index(s, '\n');
    }
    let end = first_index(s, '\n');
    if s.len() == 0 {
        Seq::empty()
    } else if end == s.len() {
        seq![s]
    } else {
        seq![without_cr(s.take(end as int))] + text_lines(s.skip(end as int + 1))
    }
}

/// The parts in order, with `separator` between each two.
pub open spec fn joined(parts: Seq<Seq<char>>, separator: Seq<char>) -> Seq<char>
    decreases parts.len(),
{
    if parts.len() == 0 {
        Seq::empty()
    } else if parts.len() == 1 {
        parts[0]
    } else {
        joined(parts.drop_last(), separator) + separator + parts.last()
    }
}

/// `c` as a capital where it is one of the letters `a` to `z`.
pub open spec fn upper_char(c: char) -> char {
    if 'a' <= c <= 'z' {
        (c as u8 - 32) as char
    } else {
        c
    }
}

/// `c` as a small letter where it is one of the capitals `A` to `Z`.
pub open spec fn lower_char(c: char) -> char {
    if 'A' <= c <= 'Z' {
        (c as u8 + 32) as char
    } else {
        c
    }
}

/// `s` with the letters `a` to `z` as capitals.
pub open spec fn ascii_upper(s: Seq<char>) -> Seq<char> {
    Seq::new(s.len(), |i: int| upper_char(s[i]))
}

/// `s` with the capitals `A` to `Z` as small letters.
pub open spec fn ascii_lower(s: Seq<char>) -> Seq<char> {
    Seq::new(s.len(), |i: int| lower_char(s[i]))
}

/// The decimal digit with the value `d`.
pub open spec fn digit(d: int) -> char {
    (48 + d) as char
}

/// `n` in decimal notation.
pub open spec fn decimal(n: nat) -> Seq<char>
    decreases n,
{
    if n < 10 {
        seq![digit(n as int)]
    } else {
        decimal(n / 10).push(digit((n % 10) as int))
    }
}

pub open spec fn is_digit(c: char) -> bool {
    '0' <= c <= '9'
}

/// One or more decimal digits and nothing else.
pub open spec fn is_digits(s: Seq<char>) -> bool {
    &&& s.len() > 0
    &&& forall|i: int| 0 <= i < s.len() ==> is_digit(#[trigger] s[i])
}

/// The number that a run of decimal digits stands for.
pub open spec fn digits_value(s: Seq<char>) -> nat
    decreases s.len(),
{
    if s.len() == 0 {
        0
    } else {
        digits_value(s.drop_last()) * 10 + (s.last() as nat - 48) as nat
    }
}

/// `s` without a plus sign at its start.
pub open spec fn without_plus(s: Seq<char>) -> Seq<char> {
    if s.len() > 0 && s[0] == '+' {
        s.drop_first()
    } else {
        s
    }
}

/// The number that `s` is the notation of: decimal digits after an optional plus sign, with a
/// value of 32 bits.
pub open spec fn parsed_u32(s: Seq<char>) -> Option<u32> {
    let digits = without_plus(s);
    if is_digits(digits) && digits_value(digits) <= u32::MAX {
        Some(digits_value(digits) as u32)
    } else {
        None
    }
}

/// The hexadecimal digit with the value `d`, in small letters.
pub open spec fn hex_digit(d: int) -> char {
    if d < 10 {
        (48 + d) as char
    } else {
        (87 + d) as char
    }
}

/// The last `width` hexadecimal digits of `n`.
pub open spec fn hex_digits(n: nat, width: nat) -> Seq<char>
    decreases width,
{
    if width == 0 {
        Seq::empty()
    } else {
        hex_digits(n / 16, (width - 1) as nat).push(hex_digit((n % 16) as int))
    }
}

/// The path of `part` below the directory `base`, in the notation of Unix: an absolute `part`
/// stands for itself.
pub open spec fn path_below(base: Seq<char>, part: Seq<char>) -> Seq<char> {
    if part.len() > 0 && part[0] == '/' {
        part
    } else if base.len() == 0 || base.last() == '/' {
        base + part
    } else {
        base + seq!['/'] + part
    }
}

// ---------------------------------------------------------------------------------------------
// Facts about the definitions
// ---------------------------------------------------------------------------------------------

pub proof fn lemma_first_index(s: Seq<char>, c: char)
    ensures
        first_index(s, c) <= s.len(),
        first_index(s, c) < s.len() ==> s[first_index(s, c) as int] == c,
        forall|i: int| 0 <= i < first_index(s, c) ==> s[i] != c,
    decreases s.len(),
{
    if s.len() == 0 || s[0] == c {
    } else {
        let rest = s.drop_first();
        lemma_first_index(rest, c);
        assert forall|i: int| 0 <= i < first_index(s, c) implies s[i] != c by {
            if i > 0 {
                assert(rest[i - 1] != c);
            }
        }
    }
}

/// The first index is the only position with its properties.
pub proof fn lemma_first_index_is(s: Seq<char>, c: char, i: int)
    requires
        0 <= i <= s.len(),
        forall|j: int| 0 <= j < i ==> s[j] != c,
        i < s.len() ==> s[i] == c,
    ensures
        first_index(s, c) == i,
{
    lemma_first_index(s, c);
    let k = first_index(s, c) as int;
    if k < i {
        assert(s[k] != c);
    }
    if i < k {
        assert(s[i] != c);
    }
}

pub proof fn lemma_texts_push(list: Seq<String>, s: String)
    ensures
        texts(list.push(s)) == texts(list).push(s@),
{
    assert(texts(list.push(s)) =~= texts(list).push(s@));
}

/// A text that neither starts nor ends with white space is its own trimmed form.
pub proof fn lemma_trimmed_of_tight(s: Seq<char>)
    requires
        s.len() > 0 ==> !is_white(s[0]) && !is_white(s.last()),
    ensures
        trimmed(s) == s,
{
}

/// Trimming is idempotent: what it leaves neither starts nor ends with white space.
pub proof fn lemma_trimmed(s: Seq<char>)
    ensures
        trimmed(s).len() > 0 ==> !is_white(trimmed(s)[0]) && !is_white(trimmed(s).last()),
        trimmed(trimmed(s)) == trimmed(s),
{
    lemma_skip_white(s);
    lemma_drop_white(skip_white(s));
    lemma_trimmed_of_tight(trimmed(s));
}

proof fn lemma_skip_white(s: Seq<char>)
    ensures
        skip_white(s).len() <= s.len(),
        skip_white(s).len() > 0 ==> !is_white(skip_white(s)[0]),
    decreases s.len(),
{
    if s.len() > 0 && is_white(s[0]) {
        lemma_skip_white(s.drop_first());
    }
}

proof fn lemma_drop_white(s: Seq<char>)
    ensures
        drop_white(s).len() <= s.len(),
        drop_white(s) == s.take(drop_white(s).len() as int),
        drop_white(s).len() > 0 ==> !is_white(drop_white(s).last()),
    decreases s.len(),
{
    if s.len() > 0 && is_white(s.last()) {
        lemma_drop_white(s.drop_last());
        assert(s.drop_last().take(drop_white(s).len() as int) =~= s.take(
            drop_white(s).len() as int,
        ));
    } else {
        assert(s.take(s.len() as int) =~= s);
    }
}

/// Replacing works on each part of a text on its own.
pub proof fn lemma_replaced_concat(a: Seq<char>, b: Seq<char>, c: char, with: Seq<char>)
    ensures
        replaced(a + b, c, with) == replaced(a, c, with) + replaced(b, c, with),
    decreases b.len(),
{
    if b.len() == 0 {
        assert(a + b =~= a);
        assert(replaced(a, c, with) + replaced(b, c, with) =~= replaced(a, c, with));
    } else {
        lemma_replaced_concat(a, b.drop_last(), c, with);
        assert((a + b).drop_last() =~= a + b.drop_last());
        let tail = if b.last() == c {
            with
        } else {
            seq![b.last()]
        };
        assert((replaced(a, c, with) + replaced(b.drop_last(), c, with)) + tail =~= replaced(
            a,
            c,
            with,
        ) + (replaced(b.drop_last(), c, with) + tail));
    }
}

pub proof fn lemma_replaced_one(x: char, c: char, with: Seq<char>)
    ensures
        replaced(seq![x], c, with) == (if x == c {
            with
        } else {
            seq![x]
        }),
{
    reveal_with_fuel(replaced, 2);
    assert(seq![x].drop_last() =~= Seq::<char>::empty());
    assert(Seq::<char>::empty() + with =~= with);
    assert(Seq::<char>::empty() + seq![x] =~= seq![x]);
}

/// What replacing takes out is no longer there, unless it was put in again.
pub proof fn lemma_replaced_free(s: Seq<char>, c: char, with: Seq<char>, x: char)
    requires
        forall|i: int| 0 <= i < with.len() ==> with[i] != x,
        x == c || forall|i: int| 0 <= i < s.len() ==> s[i] != x,
    ensures
        forall|i: int| 0 <= i < replaced(s, c, with).len() ==> replaced(s, c, with)[i] != x,
    decreases s.len(),
{
    if s.len() > 0 {
        let head = replaced(s.drop_last(), c, with);
        let tail = if s.last() == c {
            with
        } else {
            seq![s.last()]
        };
        assert(x == c || forall|i: int| 0 <= i < s.drop_last().len() ==> s.drop_last()[i] != x);
        lemma_replaced_free(s.drop_last(), c, with, x);
        assert(forall|i: int| 0 <= i < tail.len() ==> tail[i] != x);
        assert forall|i: int| 0 <= i < (head + tail).len() implies (head + tail)[i] != x by {
            if i < head.len() {
                assert((head + tail)[i] == head[i]);
            } else {
                assert((head + tail)[i] == tail[i - head.len()]);
            }
        }
    }
}

/// A text in which `c` does not occur is left as it is.
pub proof fn lemma_replaced_absent(s: Seq<char>, c: char, with: Seq<char>)
    requires
        forall|i: int| 0 <= i < s.len() ==> s[i] != c,
    ensures
        replaced(s, c, with) == s,
    decreases s.len(),
{
    if s.len() > 0 {
        lemma_replaced_absent(s.drop_last(), c, with);
        assert(s.drop_last() + seq![s.last()] =~= s);
    } else {
        assert(s =~= Seq::<char>::empty());
    }
}

proof fn lemma_digits_value_monotone(s: Seq<char>, i: int)
    requires
        0 <= i <= s.len(),
    ensures
        digits_value(s.take(i)) <= digits_value(s),
    decreases s.len() - i,
{
    if i == s.len() {
        assert(s.take(i) =~= s);
    } else {
        lemma_digits_value_monotone(s, i + 1);
        assert(s.take(i + 1).drop_last() =~= s.take(i));
    }
}

/// Decimal notation consists of digits, and stands for the number that it was made of.
pub proof fn lemma_decimal(n: nat)
    ensures
        is_digits(decimal(n)),
        digits_value(decimal(n)) == n,
    decreases n,
{
    if n < 10 {
        let s = seq![digit(n as int)];
        assert(s.drop_last() =~= Seq::<char>::empty());
        assert(digits_value(s.drop_last()) == 0);
    } else {
        lemma_decimal(n / 10);
        let s = decimal(n);
        assert(s.drop_last() =~= decimal(n / 10));
        assert forall|i: int| 0 <= i < s.len() implies is_digit(#[trigger] s[i]) by {
            if i < s.len() - 1 {
                assert(s[i] == decimal(n / 10)[i]);
            }
        }
    }
}

/// Reading what was written: the decimal notation of a number of 32 bits, with white space
/// around it taken off, is read as that number.
pub proof fn lemma_decimal_round_trip(n: u32)
    ensures
        parsed_u32(trimmed(decimal(n as nat))) == Some(n),
        parsed_u32(decimal(n as nat)) == Some(n),
{
    lemma_decimal(n as nat);
    let s = decimal(n as nat);
    assert(is_digit(s[0]));
    assert(is_digit(s[s.len() - 1]));
    lemma_trimmed_of_tight(s);
}

/// Decimal notation is unambiguous.
pub proof fn lemma_decimal_injective(a: nat, b: nat)
    requires
        decimal(a) == decimal(b),
    ensures
        a == b,
{
    lemma_decimal(a);
    lemma_decimal(b);
}

// ---------------------------------------------------------------------------------------------
// Operations
// ---------------------------------------------------------------------------------------------

/// The characters of `s`, in order.
pub fn chars_of(s: &str) -> (chars: Vec<char>)
    ensures
        chars@ == s@,
{
    let mut chars: Vec<char> = Vec::new();
    for c in iter: s.chars()
        invariant
            chars@ == iter.seq().take(iter.index() as int),
    {
        chars.push(c);
    }
    chars
}

/// The text made of `chars[from..to]`.
pub fn text_between(chars: &[char], from: usize, to: usize) -> (s: String)
    requires
        from <= to <= chars@.len(),
    ensures
        s@ == chars@.subrange(from as int, to as int),
{
    let mut s = String::new();
    let mut i: usize = from;
    while i < to
        invariant
            from <= i <= to <= chars@.len(),
            s@ == chars@.subrange(from as int, i as int),
        decreases to - i,
    {
        s.push(chars[i]);
        i = i + 1;
        assert(chars@.subrange(from as int, i as int) =~= chars@.subrange(
            from as int,
            i - 1,
        ).push(chars@[i - 1]));
    }
    s
}

/// Whether two texts are equal.
pub fn same_text(a: &str, b: &str) -> (same: bool)
    ensures
        same == (a@ == b@),
{
    a.to_owned() == b.to_owned()
}

/// Whether two optional texts are equal.
pub fn same_opt_text(a: &Option<String>, b: &Option<String>) -> (same: bool)
    ensures
        same == (opt_text(*a) == opt_text(*b)),
{
    match (a, b) {
        (Some(x), Some(y)) => same_text(x.as_str(), y.as_str()),
        (None, None) => true,
        _ => false,
    }
}

/// A copy of a list of texts.
pub fn clone_texts(list: &Vec<String>) -> (copy: Vec<String>)
    ensures
        texts(copy@) == texts(list@),
{
    let mut copy: Vec<String> = Vec::new();
    for i in 0..list.len()
        invariant
            texts(copy@) =~= texts(list@).take(i as int),
    {
        push_text(&mut copy, list[i].clone());
    }
    copy
}

/// Adds a text at the end of a list.
pub fn push_text(list: &mut Vec<String>, s: String)
    ensures
        texts(final(list)@) == texts(old(list)@).push(s@),
{
    proof {
        lemma_texts_push(list@, s);
    }
    list.push(s);
}

/// Whether `c` is white space.
pub fn is_white_char(c: char) -> (white: bool)
    ensures
        white == is_white(c),
{
    ('\u{9}' <= c && c <= '\u{d}') || c == '\u{20}' || c == '\u{85}' || c == '\u{a0}' || c
        == '\u{1680}' || ('\u{2000}' <= c && c <= '\u{200a}') || c == '\u{2028}' || c
        == '\u{2029}' || c == '\u{202f}' || c == '\u{205f}' || c == '\u{3000}'
}

/// `s` without the white space around it.
pub fn trim(s: &str) -> (t: String)
    ensures
        t@ == trimmed(s@),
{
    let chars = chars_of(s);
    let mut from: usize = 0;
    assert(chars@.skip(0) =~= chars@);
    while from < chars.len() && is_white_char(chars[from])
        invariant
            from <= chars.len(),
            skip_white(chars@) == skip_white(chars@.skip(from as int)),
        decreases chars.len() - from,
    {
        assert(chars@.skip(from as int).drop_first() =~= chars@.skip(from + 1));
        from = from + 1;
    }
    let ghost rest = chars@.skip(from as int);
    assert(skip_white(chars@) == rest);
    let mut to: usize = chars.len();
    assert(chars@.subrange(from as int, to as int) =~= rest);
    while from < to && is_white_char(chars[to - 1])
        invariant
            from <= to <= chars.len(),
            drop_white(rest) == drop_white(chars@.subrange(from as int, to as int)),
        decreases to,
    {
        assert(chars@.subrange(from as int, to as int).drop_last() =~= chars@.subrange(
            from as int,
            to - 1,
        ));
        to = to - 1;
    }
    text_between(chars.as_slice(), from, to)
}

/// Whether `pattern` stands in `chars` from position `i` on.
fn stands_at(chars: &[char], pattern: &[char], i: usize) -> (found: bool)
    requires
        i + pattern@.len() <= chars@.len(),
    ensures
        found == occurs_at(chars@, pattern@, i as int),
{
    let total: usize = chars.len();
    let mut k: usize = 0;
    while k < pattern.len()
        invariant
            total == chars@.len(),
            k <= pattern@.len(),
            i + pattern@.len() <= chars@.len(),
            forall|j: int| 0 <= j < k ==> chars@[i + j] == pattern@[j],
        decreases pattern@.len() - k,
    {
        if chars[i + k] != pattern[k] {
            assert(chars@.subrange(i as int, i + pattern@.len())[k as int] != pattern@[k as int]);
            return false;
        }
        k = k + 1;
    }
    assert(chars@.subrange(i as int, i + pattern@.len()) =~= pattern@);
    true
}

/// Whether `pattern` stands somewhere in `s`.
pub fn contains(s: &str, pattern: &str) -> (found: bool)
    ensures
        found == has_text(s@, pattern@),
{
    let chars = chars_of(s);
    let wanted = chars_of(pattern);
    if wanted.len() > chars.len() {
        return false;
    }
    let last: usize = chars.len() - wanted.len();
    let mut i: usize = 0;
    while i <= last
        invariant
            chars@ == s@,
            wanted@ == pattern@,
            last + wanted@.len() == chars@.len(),
            i <= last + 1,
            forall|j: int| 0 <= j < i ==> !occurs_at(s@, pattern@, j),
        decreases last + 1 - i,
    {
        if stands_at(chars.as_slice(), wanted.as_slice(), i) {
            return true;
        }
        if i == last {
            return false;
        }
        i = i + 1;
    }
    false
}

/// What follows `prefix` in `s`, where `s` starts with it.
pub fn strip_prefix(s: &str, prefix: &str) -> (rest: Option<String>)
    ensures
        opt_text(rest) == (if starts_with(s@, prefix@) {
            Some(s@.skip(prefix@.len() as int))
        } else {
            None
        }),
{
    let chars = chars_of(s);
    let wanted = chars_of(prefix);
    if wanted.len() > chars.len() {
        return None;
    }
    proof {
        assert(s@.subrange(0, prefix@.len() as int) =~= s@.take(prefix@.len() as int));
    }
    if stands_at(chars.as_slice(), wanted.as_slice(), 0) {
        let rest = text_between(chars.as_slice(), wanted.len(), chars.len());
        assert(rest@ =~= s@.skip(prefix@.len() as int));
        Some(rest)
    } else {
        None
    }
}

/// `s` with every occurrence of `c` written as `with`.
pub fn replace_char(s: &str, c: char, with: &str) -> (t: String)
    ensures
        t@ == replaced(s@, c, with@),
{
    let chars = chars_of(s);
    let mut t = String::new();
    for i in 0..chars.len()
        invariant
            chars@ == s@,
            t@ == replaced(s@.take(i as int), c, with@),
    {
        proof {
            assert(s@.take(i + 1).drop_last() =~= s@.take(i as int));
            assert(s@.take(i + 1).last() == s@[i as int]);
        }
        if chars[i] == c {
            t.append(with);
        } else {
            let ghost before = t@;
            t.push(chars[i]);
            assert(t@ =~= before + seq![s@[i as int]]);
        }
    }
    assert(s@.take(s@.len() as int) =~= s@);
    t
}

/// The position of the first `c` in `chars[from..]`, and the length of `chars` where there is
/// none.
fn find_from(chars: &[char], c: char, from: usize) -> (at: usize)
    requires
        from <= chars@.len(),
    ensures
        at == from + first_index(chars@.skip(from as int), c),
        from <= at <= chars@.len(),
{
    let mut i: usize = from;
    while i < chars.len() && chars[i] != c
        invariant
            from <= i <= chars@.len(),
            forall|j: int| from <= j < i ==> chars@[j] != c,
        decreases chars@.len() - i,
    {
        i = i + 1;
    }
    proof {
        lemma_first_index_is(chars@.skip(from as int), c, i - from);
    }
    i
}

/// The texts before and after the first `c` in `s`.
pub fn split_once(s: &str, c: char) -> (parts: Option<(String, String)>)
    ensures
        match parts {
            Some((before, after)) => first_index(s@, c) < s@.len() && before@ == s@.take(
                first_index(s@, c) as int,
            ) && after@ == s@.skip(first_index(s@, c) as int + 1),
            None => first_index(s@, c) == s@.len(),
        },
{
    let chars = chars_of(s);
    let at = find_from(chars.as_slice(), c, 0);
    assert(chars@.skip(0) =~= s@);
    if at == chars.len() {
        None
    } else {
        let before = text_between(chars.as_slice(), 0, at);
        let after = text_between(chars.as_slice(), at + 1, chars.len());
        assert(before@ =~= s@.take(at as int));
        assert(after@ =~= s@.skip(at + 1));
        Some((before, after))
    }
}

/// The lines of `s`.
pub fn lines(s: &str) -> (list: Vec<String>)
    ensures
        texts(list@) == text_lines(s@),
{
    let chars = chars_of(s);
    let mut list: Vec<String> = Vec::new();
    let mut from: usize = 0;
    assert(chars@.skip(0) =~= s@);
    assert(texts(list@) + text_lines(s@) =~= text_lines(s@));
    while from < chars.len()
        invariant
            from <= chars@.len(),
            texts(list@) + text_lines(chars@.skip(from as int)) == text_lines(s@),
        decreases chars@.len() - from,
    {
        let at = find_from(chars.as_slice(), '\n', from);
        let ghost rest = chars@.skip(from as int);
        let ghost before = texts(list@);
        if at == chars.len() {
            let line = text_between(chars.as_slice(), from, at);
            push_text(&mut list, line);
            proof {
                assert(line@ =~= rest);
                assert(text_lines(rest) =~= seq![rest]);
                assert(before.push(line@) =~= before + seq![rest]);
            }
            return list;
        }
        let end: usize = if from < at && chars[at - 1] == '\r' {
            at - 1
        } else {
            at
        };
        let line = text_between(chars.as_slice(), from, end);
        push_text(&mut list, line);
        proof {
            let n = first_index(rest, '\n');
            assert(rest.take(n as int) =~= chars@.subrange(from as int, at as int));
            assert(line@ =~= without_cr(rest.take(n as int)));
            assert(rest.skip(n as int + 1) =~= chars@.skip(at + 1));
            assert(text_lines(rest) == seq![line@] + text_lines(chars@.skip(at + 1)));
            assert(before.push(line@) + text_lines(chars@.skip(at + 1)) =~= before + (seq![line@]
                + text_lines(chars@.skip(at + 1))));
        }
        from = at + 1;
    }
    assert(text_lines(chars@.skip(from as int)) =~= Seq::<Seq<char>>::empty());
    assert(texts(list@) + Seq::<Seq<char>>::empty() =~= texts(list@));
    list
}

/// The texts in order, with `separator` between each two.
pub fn join(parts: &Vec<String>, separator: &str) -> (s: String)
    ensures
        s@ == joined(texts(parts@), separator@),
{
    let mut s = String::new();
    let ghost all = texts(parts@);
    for i in 0..parts.len()
        invariant
            all == texts(parts@),
            s@ == joined(all.take(i as int), separator@),
    {
        proof {
            assert(all.take(i + 1).drop_last() =~= all.take(i as int));
            assert(all.take(i + 1).last() == parts@[i as int]@);
        }
        if i > 0 {
            s.append(separator);
            s.append(parts[i].as_str());
        } else {
            s.append(parts[i].as_str());
            assert(s@ =~= parts@[0]@);
        }
    }
    assert(all.take(all.len() as int) =~= all);
    s
}

/// `s` with the letters `a` to `z` as capitals.
pub fn to_ascii_upper(s: &str) -> (t: String)
    ensures
        t@ == ascii_upper(s@),
{
    let chars = chars_of(s);
    let mut t = String::new();
    for i in 0..chars.len()
        invariant
            chars@ == s@,
            t@ =~= ascii_upper(s@).take(i as int),
    {
        let c = chars[i];
        if 'a' <= c && c <= 'z' {
            t.push((c as u8 - 32) as char);
        } else {
            t.push(c);
        }
    }
    assert(ascii_upper(s@).take(s@.len() as int) =~= ascii_upper(s@));
    t
}

/// `c` as a small letter where it is one of the capitals `A` to `Z`.
fn to_lower_char(c: char) -> (l: char)
    ensures
        l == lower_char(c),
{
    if 'A' <= c && c <= 'Z' {
        (c as u8 + 32) as char
    } else {
        c
    }
}

/// Whether two texts are equal up to the case of the letters `a` to `z`.
pub fn same_ignoring_case(a: &str, b: &str) -> (same: bool)
    ensures
        same == (ascii_lower(a@) == ascii_lower(b@)),
{
    let left = chars_of(a);
    let right = chars_of(b);
    if left.len() != right.len() {
        assert(ascii_lower(a@).len() != ascii_lower(b@).len());
        return false;
    }
    for i in 0..left.len()
        invariant
            left@ == a@,
            right@ == b@,
            left@.len() == right@.len(),
            forall|j: int| 0 <= j < i ==> lower_char(a@[j]) == lower_char(b@[j]),
    {
        if to_lower_char(left[i]) != to_lower_char(right[i]) {
            assert(ascii_lower(a@)[i as int] != ascii_lower(b@)[i as int]);
            return false;
        }
    }
    assert(ascii_lower(a@) =~= ascii_lower(b@));
    true
}

/// The first `count` characters of `s`, or all of them where there are fewer.
pub fn take_chars(s: &str, count: usize) -> (t: String)
    ensures
        t@ == s@.take(if count <= s@.len() {
            count as int
        } else {
            s@.len() as int
        }),
{
    let chars = chars_of(s);
    let to: usize = if count <= chars.len() {
        count
    } else {
        chars.len()
    };
    let t = text_between(chars.as_slice(), 0, to);
    assert(t@ =~= s@.take(to as int));
    t
}

/// `n` in decimal notation.
pub fn decimal_text(n: u64) -> (s: String)
    ensures
        s@ == decimal(n as nat),
    decreases n,
{
    let last = (48u8 + (n % 10) as u8) as char;
    if n < 10 {
        let mut s = String::new();
        s.push(last);
        assert(s@ =~= seq![digit(n as int)]);
        s
    } else {
        let mut s = decimal_text(n / 10);
        s.push(last);
        s
    }
}

/// The number of 32 bits that `s` is the notation of.
pub fn parse_u32(s: &str) -> (n: Option<u32>)
    ensures
        n == parsed_u32(s@),
{
    let chars = chars_of(s);
    let from: usize = if chars.len() > 0 && chars[0] == '+' {
        1
    } else {
        0
    };
    let ghost digits = without_plus(s@);
    assert(digits =~= s@.skip(from as int));
    if from == chars.len() {
        return None;
    }
    let mut value: u64 = 0;
    let mut i: usize = from;
    assert(digits.take(0) =~= Seq::<char>::empty());
    while i < chars.len()
        invariant
            from <= i <= chars@.len(),
            chars@ == s@,
            digits == s@.skip(from as int),
            digits == without_plus(s@),
            forall|j: int| 0 <= j < i - from ==> is_digit(#[trigger] digits[j]),
            value == digits_value(digits.take(i - from)),
            value <= u32::MAX,
        decreases chars@.len() - i,
    {
        let c = chars[i];
        assert(c == digits[i - from]);
        if !('0' <= c && c <= '9') {
            assert(!is_digit(digits[i - from]));
            return None;
        }
        proof {
            assert(digits.take(i - from + 1).drop_last() =~= digits.take(i - from));
            assert(digits.take(i - from + 1).last() == c);
        }
        value = value * 10 + (c as u64 - 48);
        i = i + 1;
        if value > 4_294_967_295 {
            proof {
                lemma_digits_value_monotone(digits, i - from);
            }
            return None;
        }
    }
    assert(digits.take(digits.len() as int) =~= digits);
    Some(value as u32)
}

/// `n` as eight hexadecimal digits.
pub fn hex_text(n: u32) -> (s: String)
    ensures
        s@ == hex_digits(n as nat, 8),
{
    hex_text_of(n, 8)
}

fn hex_text_of(n: u32, width: usize) -> (s: String)
    ensures
        s@ == hex_digits(n as nat, width as nat),
    decreases width,
{
    if width == 0 {
        String::new()
    } else {
        let mut s = hex_text_of(n / 16, width - 1);
        let d = (n % 16) as u8;
        if d < 10 {
            s.push((48u8 + d) as char);
        } else {
            s.push((87u8 + d) as char);
        }
        s
    }
}

/// The path of `part` below the directory `base`, in the notation of Unix.
pub fn join_path(base: &str, part: &str) -> (path: String)
    ensures
        path@ == path_below(base@, part@),
{
    let left = chars_of(base);
    let right = chars_of(part);
    if right.len() > 0 && right[0] == '/' {
        part.to_owned()
    } else if left.len() == 0 || left[left.len() - 1] == '/' {
        base.to_owned().concat(part)
    } else {
        let mut path = base.to_owned();
        path.push('/');
        assert(path@ =~= base@ + seq!['/']);
        path.concat(part)
    }
}

// ---------------------------------------------------------------------------------------------
// Laws
// ---------------------------------------------------------------------------------------------

/// All of the text is white space.
pub open spec fn all_white(s: Seq<char>) -> bool {
    forall|i: int| 0 <= i < s.len() ==> is_white(#[trigger] s[i])
}

/// White space is what Unicode calls so, by the numbers of the characters.
pub proof fn law_white_space_is_that_of_unicode(c: char)
    ensures
        is_white(c) <==> ({
            let n = c as int;
            ||| 9 <= n <= 13
            ||| n == 32
            ||| n == 133
            ||| n == 160
            ||| n == 5760
            ||| 8192 <= n <= 8202
            ||| n == 8232 || n == 8233
            ||| n == 8239
            ||| n == 8287
            ||| n == 12288
        }),
{
}

/// Trimming takes off white space at both ends, all of it, and nothing else.
pub proof fn law_trimming_takes_off_the_ends(s: Seq<char>)
    ensures
        exists|left: Seq<char>, right: Seq<char>|
            all_white(left) && all_white(right) && #[trigger] (left + trimmed(s) + right) == s,
        trimmed(s).len() > 0 ==> !is_white(trimmed(s)[0]) && !is_white(trimmed(s).last()),
{
    lemma_trimmed(s);
    lemma_skipped_is_white(s);
    let middle = skip_white(s);
    lemma_dropped_is_white(middle);
    let left = s.take(s.len() - middle.len());
    let right = middle.skip(trimmed(s).len() as int);
    assert(left + trimmed(s) + right =~= s);
}

proof fn lemma_skipped_is_white(s: Seq<char>)
    ensures
        skip_white(s).len() <= s.len(),
        skip_white(s) == s.skip(s.len() - skip_white(s).len()),
        all_white(s.take(s.len() - skip_white(s).len())),
    decreases s.len(),
{
    if s.len() > 0 && is_white(s[0]) {
        let rest = s.drop_first();
        lemma_skipped_is_white(rest);
        let n = s.len() - skip_white(s).len();
        assert(rest.skip(n - 1) =~= s.skip(n));
        assert forall|i: int| 0 <= i < n implies is_white(#[trigger] s.take(n)[i]) by {
            if i > 0 {
                assert(rest.take(n - 1)[i - 1] == s[i]);
            }
        }
    } else {
        assert(s.skip(0) =~= s);
    }
}

proof fn lemma_dropped_is_white(s: Seq<char>)
    ensures
        drop_white(s).len() <= s.len(),
        drop_white(s) == s.take(drop_white(s).len() as int),
        all_white(s.skip(drop_white(s).len() as int)),
    decreases s.len(),
{
    lemma_drop_white(s);
    if s.len() > 0 && is_white(s.last()) {
        let rest = s.drop_last();
        lemma_dropped_is_white(rest);
        let n = drop_white(s).len() as int;
        assert forall|i: int| 0 <= i < s.len() - n implies is_white(#[trigger] s.skip(n)[i]) by {
            if i < rest.len() - n {
                assert(rest.skip(n)[i] == s[n + i]);
            }
        }
    }
}

/// A text holds a pattern exactly where it can be cut into what stands before it, the pattern and
/// what stands after it; it starts with the pattern where nothing stands before.
pub proof fn law_patterns_are_found(before: Seq<char>, pattern: Seq<char>, after: Seq<char>)
    ensures
        has_text(before + pattern + after, pattern),
        starts_with(pattern + after, pattern),
        forall|s: Seq<char>| #[trigger]
            has_text(s, pattern) ==> exists|a: Seq<char>, b: Seq<char>| #[trigger]
                (a + pattern + b) == s,
        forall|s: Seq<char>| #[trigger]
            starts_with(s, pattern) ==> pattern + s.skip(pattern.len() as int) == s,
{
    let whole = before + pattern + after;
    assert(whole.subrange(before.len() as int, (before.len() + pattern.len()) as int) =~= pattern);
    assert(occurs_at(whole, pattern, before.len() as int));
    assert((pattern + after).take(pattern.len() as int) =~= pattern);
    assert forall|s: Seq<char>| #[trigger] has_text(s, pattern) implies exists|
        a: Seq<char>,
        b: Seq<char>,
    | #[trigger] (a + pattern + b) == s by {
        let i = choose|i: int| occurs_at(s, pattern, i);
        let a = s.take(i);
        let b = s.skip(i + pattern.len());
        assert(a + s.subrange(i, i + pattern.len()) + b =~= s);
        assert(a + pattern + b == s);
    }
    assert forall|s: Seq<char>| #[trigger] starts_with(s, pattern) implies pattern + s.skip(
        pattern.len() as int,
    ) == s by {
        assert(s.take(pattern.len() as int) + s.skip(pattern.len() as int) =~= s);
    }
}

/// Replacing goes through a text character by character: the character is exchanged wherever it stands,
/// and every other one stays.
pub proof fn law_replacing_exchanges_one_character(
    a: Seq<char>,
    x: char,
    b: Seq<char>,
    c: char,
    with: Seq<char>,
)
    ensures
        replaced(Seq::empty(), c, with).len() == 0,
        replaced(a + seq![x] + b, c, with) == replaced(a, c, with) + (if x == c {
            with
        } else {
            seq![x]
        }) + replaced(b, c, with),
{
    lemma_replaced_concat(a + seq![x], b, c, with);
    lemma_replaced_concat(a, seq![x], c, with);
    lemma_replaced_one(x, c, with);
}

/// A text is read line by line: a line ends at a line feed, the carriage return before it belongs to the
/// end of the line, and what follows the last line feed is a line of its own where there is anything.
pub proof fn law_lines_end_at_line_feeds(line: Seq<char>, rest: Seq<char>)
    requires
        forall|i: int| 0 <= i < line.len() ==> #[trigger] line[i] != '\n',
    ensures
        text_lines(Seq::empty()).len() == 0,
        line.len() > 0 ==> text_lines(line) == seq![line],
        text_lines(line + seq!['\n'] + rest) == seq![
            if line.len() > 0 && line.last() == '\r' {
                line.drop_last()
            } else {
                line
            },
        ] + text_lines(rest),
{
    lemma_first_index_is(line, '\n', line.len() as int);
    let whole = line + seq!['\n'] + rest;
    lemma_first_index_is(whole, '\n', line.len() as int);
    assert(whole.take(line.len() as int) =~= line);
    assert(whole.skip(line.len() as int + 1) =~= rest);
}

/// Joined lists are joined in order, with the separator between them.
pub proof fn law_joining_keeps_the_order(
    a: Seq<Seq<char>>,
    b: Seq<Seq<char>>,
    part: Seq<char>,
    separator: Seq<char>,
)
    ensures
        joined(Seq::empty(), separator).len() == 0,
        joined(seq![part], separator) == part,
        a.len() > 0 && b.len() > 0 ==> joined(a + b, separator) == joined(a, separator) + separator
            + joined(b, separator),
    decreases b.len(),
{
    if a.len() > 0 && b.len() > 0 {
        let whole = a + b;
        assert(whole.drop_last() =~= a + b.drop_last());
        if b.len() == 1 {
            assert(a + b.drop_last() =~= a);
        } else {
            law_joining_keeps_the_order(a, b.drop_last(), part, separator);
            assert(joined(whole, separator) =~= joined(a, separator) + separator + joined(
                b,
                separator,
            ));
        }
    }
}

/// The case of the letters of ASCII is changed by their numbers, and no other character is touched.
pub proof fn law_case_is_that_of_ascii(s: Seq<char>, i: int)
    requires
        0 <= i < s.len(),
    ensures
        ascii_upper(s).len() == s.len(),
        ascii_lower(s).len() == s.len(),
        97 <= s[i] as int <= 122 ==> ascii_upper(s)[i] as int == s[i] as int - 32,
        !(97 <= s[i] as int <= 122) ==> ascii_upper(s)[i] == s[i],
        65 <= s[i] as int <= 90 ==> ascii_lower(s)[i] as int == s[i] as int + 32,
        !(65 <= s[i] as int <= 90) ==> ascii_lower(s)[i] == s[i],
{
}

/// Decimal notation has no digits to spare, and one more digit makes a number ten times as large with
/// the digit added.
pub proof fn law_decimal_notation(n: nat, d: nat, s: Seq<char>)
    requires
        d < 10,
    ensures
        is_digits(decimal(n)),
        digits_value(decimal(n)) == n,
        decimal(n)[0] == '0' ==> n == 0,
        n == 0 ==> decimal(n).len() == 1,
        digits_value(Seq::empty()) == 0,
        digits_value(s.push((48 + d) as char)) == 10 * digits_value(s) + d,
    decreases n,
{
    lemma_decimal(n);
    let more = s.push((48 + d) as char);
    assert(more.drop_last() =~= s);
    if n >= 10 {
        law_decimal_notation(n / 10, d, s);
        lemma_decimal(n / 10);
        assert(decimal(n)[0] == decimal(n / 10)[0]);
    }
}

/// A number is read from digits and nothing else, after a plus sign or without one, and only where it
/// fits.
pub proof fn law_numbers_are_read_from_digits(digits: Seq<char>)
    ensures
        digits.len() == 0 ==> parsed_u32(digits) is None,
        !(digits.len() > 0 && digits[0] == '+') ==> {
            &&& parsed_u32(seq!['+'] + digits) == parsed_u32(digits)
            &&& parsed_u32(digits) is Some <==> digits.len() > 0 && digits_value(digits)
                <= 4_294_967_295 && forall|i: int|
                0 <= i < digits.len() ==> '0' <= #[trigger] digits[i] <= '9'
            &&& parsed_u32(digits) is Some ==> parsed_u32(digits)->0 == digits_value(digits)
        },
        parsed_u32(seq!['+', '+'] + digits) is None,
{
    assert((seq!['+'] + digits).drop_first() =~= digits);
    let twice = (seq!['+', '+'] + digits).drop_first();
    assert(twice[0] == '+');
    if is_digits(twice) {
        assert(is_digit(twice[0]));
    }
    if is_digits(digits) {
        assert forall|i: int| 0 <= i < digits.len() implies '0' <= #[trigger] digits[i] <= '9' by {
            assert(is_digit(digits[i]));
        }
    }
    if forall|i: int| 0 <= i < digits.len() ==> '0' <= #[trigger] digits[i] <= '9' {
        assert forall|i: int| 0 <= i < digits.len() implies is_digit(#[trigger] digits[i]) by {
            assert('0' <= digits[i] <= '9');
        }
    }
}

/// The number that hexadecimal digits in small letters stand for.
pub open spec fn hex_value(s: Seq<char>) -> int
    decreases s.len(),
{
    if s.len() == 0 {
        0
    } else {
        hex_value(s.drop_last()) * 16 + (if '0' <= s.last() <= '9' {
            s.last() as int - 48
        } else {
            s.last() as int - 97 + 10
        })
    }
}

/// The eight hexadecimal digits of a number are digits or small letters, and stand for the number.
pub proof fn law_hex_notation(n: u32)
    ensures
        hex_digits(n as nat, 8).len() == 8,
        hex_value(hex_digits(n as nat, 8)) == n,
        forall|i: int|
            0 <= i < 8 ==> ('0' <= #[trigger] hex_digits(n as nat, 8)[i] <= '9' || 'a' <= hex_digits(
                n as nat,
                8,
            )[i] <= 'f'),
{
    reveal_with_fuel(sixteen, 9);
    lemma_hex_digits(n as nat, 8);
}

spec fn sixteen(width: nat) -> nat
    decreases width,
{
    if width == 0 {
        1
    } else {
        16 * sixteen((width - 1) as nat)
    }
}

proof fn lemma_hex_digits(n: nat, width: nat)
    requires
        n < sixteen(width),
    ensures
        hex_digits(n, width).len() == width,
        hex_value(hex_digits(n, width)) == n,
        forall|i: int|
            0 <= i < width ==> ('0' <= #[trigger] hex_digits(n, width)[i] <= '9' || 'a'
                <= hex_digits(n, width)[i] <= 'f'),
    decreases width,
{
    if width > 0 {
        let less = hex_digits(n / 16, (width - 1) as nat);
        let s = hex_digits(n, width);
        lemma_hex_digits(n / 16, (width - 1) as nat);
        assert(s.drop_last() =~= less);
        assert forall|i: int| 0 <= i < width implies ('0' <= #[trigger] s[i] <= '9' || 'a' <= s[i]
            <= 'f') by {
            if i < width - 1 {
                assert(s[i] == less[i]);
            }
        }
    }
}

/// A path leads on from a directory after one slash, unless it is absolute or the directory is the one
/// that the path is relative to.
pub proof fn law_paths_are_joined_by_one_slash(base: Seq<char>, part: Seq<char>)
    ensures
        path_below(base, seq!['/'] + part) == seq!['/'] + part,
        !(part.len() > 0 && part[0] == '/') ==> {
            &&& path_below(Seq::empty(), part) == part
            &&& path_below(base + seq!['/'], part) == base + seq!['/'] + part
            &&& base.len() > 0 && base.last() != '/' ==> path_below(base, part) == path_below(
                base + seq!['/'],
                part,
            )
        },
{
    assert(Seq::<char>::empty() + part =~= part);
}

} // verus!
