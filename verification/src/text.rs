//! Character-level text helpers shared by the rest of the crate.
//!
//! Every string is reasoned about through its view, a `Seq<char>`. The
//! executable helpers work on `Vec<char>` buffers and convert at the edges.

use vstd::prelude::*;

verus! {

/// `String::push` appends exactly one character.
pub assume_specification[ String::push ](s: &mut String, c: char)
    ensures
        final(s)@ == old(s)@.push(c),
;

/// The characters of `s`, in order.
pub fn to_chars(s: &str) -> (out: Vec<char>)
    ensures
        out@ == s@,
{
    let mut out: Vec<char> = Vec::new();
    for c in it: s.chars()
        invariant
            out@ == it.seq().take(it.index() as int),
    {
        out.push(c);
    }
    out
}

/// The string made of the characters `v[from..to]`.
pub(crate) fn string_of_range(v: &Vec<char>, from: usize, to: usize) -> (out: String)
    requires
        from <= to <= v.len(),
    ensures
        out@ == v@.subrange(from as int, to as int),
{
    let mut out = String::new();
    let mut i: usize = from;
    while i < to
        invariant
            from <= i <= to <= v.len(),
            out@ == v@.subrange(from as int, i as int),
        decreases to - i,
    {
        out.push(v[i]);
        i += 1;
    }
    out
}

/// The string made of all the characters of `v`.
pub fn from_chars(v: &Vec<char>) -> (out: String)
    ensures
        out@ == v@,
{
    let out = string_of_range(v, 0, v.len());
    assert(v@.subrange(0, v@.len() as int) == v@);
    out
}

/// Whether two strings hold the same characters.
pub fn str_eq(a: &str, b: &str) -> (same: bool)
    ensures
        same == (a@ == b@),
{
    let x = to_chars(a);
    let y = to_chars(b);
    chars_eq(&x, &y)
}

/// Whether two character buffers hold the same characters.
pub fn chars_eq(a: &Vec<char>, b: &Vec<char>) -> (same: bool)
    ensures
        same == (a@ == b@),
{
    if a.len() != b.len() {
        return false;
    }
    let mut i: usize = 0;
    while i < a.len()
        invariant
            i <= a.len(),
            a.len() == b.len(),
            a@.take(i as int) == b@.take(i as int),
        decreases a.len() - i,
    {
        if a[i] != b[i] {
            return false;
        }
        assert(a@.take(i + 1) == a@.take(i as int).push(a@[i as int]));
        assert(b@.take(i + 1) == b@.take(i as int).push(b@[i as int]));
        i += 1;
    }
    assert(a@.take(a@.len() as int) == a@);
    assert(b@.take(b@.len() as int) == b@);
    true
}

/// `needle` stands in `hay` at index `i`.
pub open spec fn occurs_at(hay: Seq<char>, needle: Seq<char>, i: int) -> bool {
    &&& 0 <= i
    &&& i + needle.len() <= hay.len()
    &&& hay.subrange(i, i + needle.len()) == needle
}

/// `needle` stands somewhere in `hay`.
pub open spec fn contains(hay: Seq<char>, needle: Seq<char>) -> bool {
    exists|i: int| occurs_at(hay, needle, i)
}

/// `hay` begins with `needle`.
pub open spec fn starts_with(hay: Seq<char>, needle: Seq<char>) -> bool {
    occurs_at(hay, needle, 0)
}

/// Whether `needle` stands in `hay` at index `at`.
pub fn matches_at(hay: &Vec<char>, needle: &Vec<char>, at: usize) -> (hit: bool)
    ensures
        hit == occurs_at(hay@, needle@, at as int),
{
    if needle.len() > hay.len() || at > hay.len() - needle.len() {
        return false;
    }
    let mut k: usize = 0;
    while k < needle.len()
        invariant
            k <= needle.len(),
            at + needle.len() <= hay.len(),
            hay@.subrange(at as int, at + k) == needle@.take(k as int),
        decreases needle.len() - k,
    {
        if hay[at + k] != needle[k] {
            assert(hay@.subrange(at as int, at + needle.len())[k as int] != needle@[k as int]);
            return false;
        }
        assert(hay@.subrange(at as int, at + k + 1) == hay@.subrange(at as int, at + k).push(
            hay@[at + k],
        ));
        assert(needle@.take(k + 1) == needle@.take(k as int).push(needle@[k as int]));
        k += 1;
    }
    assert(needle@.take(needle@.len() as int) == needle@);
    true
}

/// The first index at which `needle` stands in `hay` at or after `from`.
pub fn find_from(hay: &Vec<char>, needle: &Vec<char>, from: usize) -> (found: Option<usize>)
    ensures
        match found {
            Some(i) => from <= i && occurs_at(hay@, needle@, i as int) && forall|j: int|
                from <= j < i ==> !occurs_at(hay@, needle@, j),
            None => forall|j: int| from <= j ==> !occurs_at(hay@, needle@, j),
        },
{
    if from > hay.len() {
        return None;
    }
    let mut i: usize = from;
    while i < hay.len()
        invariant
            from <= i <= hay.len(),
            forall|j: int| from <= j < i ==> !occurs_at(hay@, needle@, j),
        decreases hay.len() - i,
    {
        if matches_at(hay, needle, i) {
            return Some(i);
        }
        i += 1;
    }
    if matches_at(hay, needle, i) {
        Some(i)
    } else {
        None
    }
}

/// The first index at which `needle` stands in `hay`.
pub fn find(hay: &Vec<char>, needle: &Vec<char>) -> (found: Option<usize>)
    ensures
        found is Some <==> contains(hay@, needle@),
        match found {
            Some(i) => occurs_at(hay@, needle@, i as int) && forall|j: int|
                0 <= j < i ==> !occurs_at(hay@, needle@, j),
            None => true,
        },
{
    find_from(hay, needle, 0)
}

/// Whether `needle` stands somewhere in `hay`.
pub fn holds(hay: &Vec<char>, needle: &str) -> (hit: bool)
    ensures
        hit == contains(hay@, needle@),
{
    let n = to_chars(needle);
    find(hay, &n).is_some()
}

/// The character for a decimal digit.
pub open spec fn digit_char(d: nat) -> char
    recommends
        d < 10,
{
    ((48 + d) as u8) as char
}

/// The decimal numeral of `n`, without sign or leading zeros.
pub open spec fn decimal(n: nat) -> Seq<char>
    decreases n,
{
    if n < 10 {
        seq![digit_char(n)]
    } else {
        decimal(n / 10).push(digit_char(n % 10))
    }
}

fn push_decimal(n: u128, out: &mut Vec<char>)
    ensures
        final(out)@ == old(out)@ + decimal(n as nat),
    decreases n,
{
    if n >= 10 {
        push_decimal(n / 10, out);
    }
    let d: u8 = (n % 10) as u8;
    out.push((48u8 + d) as char);
    assert(final(out)@ == old(out)@ + decimal(n as nat)) by {
        if n >= 10 {
            assert(old(out)@ + decimal(n as nat) == (old(out)@ + decimal((n / 10) as nat)).push(
                digit_char((n % 10) as nat),
            ));
        } else {
            assert(old(out)@ + decimal(n as nat) == old(out)@.push(digit_char(n as nat)));
        }
    }
}

/// The decimal numeral of `n` as text.
pub fn decimal_string_wide(n: u128) -> (out: String)
    ensures
        out@ == decimal(n as nat),
{
    let mut buf: Vec<char> = Vec::new();
    push_decimal(n, &mut buf);
    assert(Seq::<char>::empty() + decimal(n as nat) == decimal(n as nat));
    from_chars(&buf)
}

/// The decimal numeral of `n` as text.
pub fn decimal_string(n: u64) -> (out: String)
    ensures
        out@ == decimal(n as nat),
{
    decimal_string_wide(n as u128)
}

/// `c` is one of the ten ASCII digits.
pub open spec fn is_digit(c: char) -> bool {
    '0' <= c <= '9'
}

/// Every character of `s` is an ASCII digit.
pub open spec fn all_digits(s: Seq<char>) -> bool {
    forall|i: int| 0 <= i < s.len() ==> is_digit(#[trigger] s[i])
}

/// The number a digit stands for.
pub open spec fn digit_value(c: char) -> nat
    recommends
        is_digit(c),
{
    (c as u32 - 48) as nat
}

/// The number that a run of digits denotes in base ten.
pub open spec fn decimal_value(s: Seq<char>) -> nat
    decreases s.len(),
{
    if s.len() == 0 {
        0
    } else {
        decimal_value(s.drop_last()) * 10 + digit_value(s.last())
    }
}

/// Appends the characters of `piece` to `out`.
pub fn push_str(out: &mut Vec<char>, piece: &str)
    ensures
        final(out)@ == old(out)@ + piece@,
{
    let p = to_chars(piece);
    push_all(out, &p);
}

/// Appends the characters `piece[from..to]` to `out`.
pub(crate) fn push_range(out: &mut Vec<char>, piece: &Vec<char>, from: usize, to: usize)
    requires
        from <= to <= piece.len(),
    ensures
        final(out)@ == old(out)@ + piece@.subrange(from as int, to as int),
{
    let mut i: usize = from;
    while i < to
        invariant
            from <= i <= to <= piece.len(),
            out@ == old(out)@ + piece@.subrange(from as int, i as int),
        decreases to - i,
    {
        out.push(piece[i]);
        assert(piece@.subrange(from as int, i + 1) == piece@.subrange(from as int, i as int).push(
            piece@[i as int],
        ));
        i += 1;
    }
}

/// Appends all the characters of `piece` to `out`.
pub fn push_all(out: &mut Vec<char>, piece: &Vec<char>)
    ensures
        final(out)@ == old(out)@ + piece@,
{
    push_range(out, piece, 0, piece.len());
    assert(piece@.subrange(0, piece@.len() as int) == piece@);
}

/// The text of an optional string.
pub open spec fn opt_text(o: Option<String>) -> Option<Seq<char>> {
    match o {
        Some(s) => Some(s@),
        None => None,
    }
}

/// The texts of a list of strings.
pub open spec fn texts(v: Seq<String>) -> Seq<Seq<char>> {
    v.map_values(|s: String| s@)
}

/// Whether `c` is white space: one of the characters with the Unicode
/// property `White_Space`. These are tab to carriage return, the space, the
/// next-line control, the no-break space, the ogham space mark, the spaces
/// from en quad to hair space, the line and the paragraph separator, the
/// narrow no-break space, the medium mathematical space and the
/// ideographic space.
pub open spec fn is_whitespace(c: char) -> bool {
    ||| '\u{9}' <= c <= '\u{d}'
    ||| c == ' '
    ||| c == '\u{85}'
    ||| c == '\u{a0}'
    ||| c == '\u{1680}'
    ||| '\u{2000}' <= c <= '\u{200a}'
    ||| c == '\u{2028}'
    ||| c == '\u{2029}'
    ||| c == '\u{202f}'
    ||| c == '\u{205f}'
    ||| c == '\u{3000}'
}

/// `char::is_whitespace` tells whether a character has the property
/// `White_Space`.
pub assume_specification[ char::is_whitespace ](c: char) -> (b: bool)
    ensures
        b == is_whitespace(c),
;

/// `s` without its leading white space.
pub open spec fn trim_start(s: Seq<char>) -> Seq<char>
    decreases s.len(),
{
    if s.len() > 0 && is_whitespace(s[0]) {
        trim_start(s.drop_first())
    } else {
        s
    }
}

/// `s` without its trailing white space.
pub open spec fn trim_end(s: Seq<char>) -> Seq<char>
    decreases s.len(),
{
    if s.len() > 0 && is_whitespace(s.last()) {
        trim_end(s.drop_last())
    } else {
        s
    }
}

/// `s` without leading and trailing white space.
pub open spec fn trim(s: Seq<char>) -> Seq<char> {
    trim_end(trim_start(s))
}

proof fn lemma_trim_start_skip(s: Seq<char>, a: int)
    requires
        0 <= a <= s.len(),
        forall|j: int| 0 <= j < a ==> is_whitespace(#[trigger] s[j]),
        a < s.len() ==> !is_whitespace(s[a]),
    ensures
        trim_start(s) == s.skip(a),
    decreases a,
{
    if a == 0 {
        assert(s.skip(0) == s);
    } else {
        let t = s.drop_first();
        assert forall|j: int| 0 <= j < a - 1 implies is_whitespace(#[trigger] t[j]) by {
            assert(t[j] == s[j + 1]);
        }
        lemma_trim_start_skip(t, a - 1);
        assert(t.skip(a - 1) == s.skip(a));
    }
}

proof fn lemma_trim_end_take(s: Seq<char>, b: int)
    requires
        0 <= b <= s.len(),
        forall|j: int| b <= j < s.len() ==> is_whitespace(#[trigger] s[j]),
        0 < b ==> !is_whitespace(s[b - 1]),
    ensures
        trim_end(s) == s.take(b),
    decreases s.len() - b,
{
    if b == s.len() {
        assert(s.take(b) == s);
    } else {
        let t = s.drop_last();
        lemma_trim_end_take(t, b);
        assert(t.take(b) == s.take(b));
    }
}

/// The bounds of `v` without its leading and trailing white space.
pub fn trim_bounds(v: &Vec<char>) -> (r: (usize, usize))
    ensures
        r.0 <= r.1 <= v.len(),
        v@.subrange(r.0 as int, r.1 as int) == trim(v@),
{
    assert(v@.subrange(0, v@.len() as int) == v@);
    trim_bounds_in(v, 0, v.len())
}

/// `s` without leading and trailing white space, as `str::trim` gives it.
pub fn trimmed(s: &str) -> (out: String)
    ensures
        out@ == trim(s@),
{
    let v = to_chars(s);
    let (a, b) = trim_bounds(&v);
    string_of_range(&v, a, b)
}

/// The part of `s` behind its last `sep`, or all of `s` where it holds none.
pub open spec fn after_last(s: Seq<char>, sep: char) -> Seq<char>
    decreases s.len(),
{
    if s.len() == 0 {
        s
    } else if s.last() == sep {
        Seq::empty()
    } else {
        after_last(s.drop_last(), sep).push(s.last())
    }
}

proof fn lemma_after_last(s: Seq<char>, sep: char, k: int)
    requires
        0 <= k <= s.len(),
        forall|j: int| k <= j < s.len() ==> #[trigger] s[j] != sep,
        k > 0 ==> s[k - 1] == sep,
    ensures
        after_last(s, sep) == s.skip(k),
    decreases s.len() - k,
{
    if s.len() == 0 {
        assert(s.skip(0) == s);
    } else if k == s.len() {
        assert(s.skip(k) == Seq::<char>::empty());
    } else {
        let t = s.drop_last();
        lemma_after_last(t, sep, k);
        assert(t.skip(k).push(s.last()) == s.skip(k));
    }
}

/// The index at which the part of `v` behind its last `sep` begins.
pub fn after_last_index(v: &Vec<char>, sep: char) -> (k: usize)
    ensures
        k <= v.len(),
        v@.skip(k as int) == after_last(v@, sep),
{
    let mut k: usize = v.len();
    while k > 0 && v[k - 1] != sep
        invariant
            k <= v.len(),
            forall|j: int| k <= j < v.len() ==> #[trigger] v@[j] != sep,
        decreases k,
    {
        k -= 1;
    }
    proof {
        lemma_after_last(v@, sep, k as int);
    }
    k
}

/// The number below 65536 that `s` spells in decimal digits, if it does:
/// `s` is not empty, holds ASCII digits only, and its value fits.
pub open spec fn parse_u16(s: Seq<char>) -> Option<u16> {
    if s.len() > 0 && all_digits(s) && decimal_value(s) <= 65535 {
        Some(decimal_value(s) as u16)
    } else {
        None
    }
}

proof fn lemma_decimal_value_grows(s: Seq<char>, n: int)
    requires
        0 <= n <= s.len(),
    ensures
        decimal_value(s.take(n)) <= decimal_value(s),
    decreases s.len() - n,
{
    if n == s.len() {
        assert(s.take(n) == s);
    } else {
        lemma_decimal_value_grows(s.drop_last(), n);
        assert(s.drop_last().take(n) == s.take(n));
    }
}

/// Reads the digits `v[from..]` as a number below 65536.
pub(crate) fn parse_u16_from(v: &Vec<char>, from: usize) -> (out: Option<u16>)
    requires
        from <= v.len(),
    ensures
        out == parse_u16(v@.skip(from as int)),
{
    let ghost s = v@.skip(from as int);
    if from == v.len() {
        return None;
    }
    let mut acc: u32 = 0;
    let mut i: usize = from;
    while i < v.len()
        invariant
            from <= i <= v.len(),
            s == v@.skip(from as int),
            all_digits(s.take(i - from)),
            acc <= 65535,
            acc == decimal_value(s.take(i - from)),
        decreases v.len() - i,
    {
        let c = v[i];
        proof {
            let cur = s.take(i - from + 1);
            assert(cur.drop_last() == s.take(i - from));
            assert(cur.last() == c);
            assert(s[i - from] == c);
        }
        if c < '0' || c > '9' {
            return None;
        }
        let d: u32 = (c as u32) - 48;
        acc = acc * 10 + d;
        if acc > 65535 {
            proof {
                lemma_decimal_value_grows(s, i - from + 1);
            }
            return None;
        }
        i += 1;
    }
    assert(s.take(s.len() as int) == s);
    Some(acc as u16)
}

/// `i` is the first index at which `needle` stands in `hay`.
pub open spec fn is_first_occurrence(hay: Seq<char>, needle: Seq<char>, i: int) -> bool {
    occurs_at(hay, needle, i) && forall|j: int| 0 <= j < i ==> !occurs_at(hay, needle, j)
}

/// The first index at which `needle` stands in `hay`.
pub open spec fn first_occurrence(hay: Seq<char>, needle: Seq<char>) -> Option<int> {
    if contains(hay, needle) {
        Some(choose|i: int| is_first_occurrence(hay, needle, i))
    } else {
        None
    }
}

/// There is one first occurrence at most.
pub proof fn lemma_first_occurrence(hay: Seq<char>, needle: Seq<char>, i: int)
    requires
        is_first_occurrence(hay, needle, i),
    ensures
        first_occurrence(hay, needle) == Some(i),
{
    let w = choose|k: int| is_first_occurrence(hay, needle, k);
    assert(is_first_occurrence(hay, needle, w));
    if w < i {
        assert(!occurs_at(hay, needle, w));
    } else if i < w {
        assert(!occurs_at(hay, needle, i));
    }
}

/// What the contracts say of an index that may be absent.
pub open spec fn opt_index(found: Option<usize>) -> Option<int> {
    match found {
        Some(i) => Some(i as int),
        None => None,
    }
}

/// The first index at which the text `needle` stands in `hay`.
pub fn find_str(hay: &Vec<char>, needle: &str) -> (found: Option<usize>)
    ensures
        opt_index(found) == first_occurrence(hay@, needle@),
        found is Some ==> is_first_occurrence(hay@, needle@, found->0 as int),
{
    let n = to_chars(needle);
    let found = find(hay, &n);
    proof {
        if let Some(i) = found {
            lemma_first_occurrence(hay@, needle@, i as int);
        }
    }
    found
}

/// `s` in lower case, as `str::to_lowercase` gives it.
pub uninterp spec fn lowercase(s: Seq<char>) -> Seq<char>;

/// `str::to_lowercase` depends on the string alone.
pub assume_specification[ str::to_lowercase ](s: &str) -> (out: String)
    ensures
        out@ == lowercase(s@),
;

/// The decimal numeral of a number is made of digits and spells that
/// number.
pub proof fn lemma_decimal_round_trip(n: nat)
    ensures
        decimal(n).len() > 0,
        all_digits(decimal(n)),
        decimal_value(decimal(n)) == n,
    decreases n,
{
    if n < 10 {
        let s = decimal(n);
        assert(s.len() == 1);
        assert(s[0] == digit_char(n));
        assert(s.drop_last() == Seq::<char>::empty());
        assert(decimal_value(s.drop_last()) == 0);
        assert(s.last() == digit_char(n));
    } else {
        lemma_decimal_round_trip(n / 10);
        let head = decimal(n / 10);
        let s = decimal(n);
        assert(s == head.push(digit_char(n % 10)));
        assert(s.drop_last() == head);
        assert(s.last() == digit_char(n % 10));
        assert forall|i: int| 0 <= i < s.len() implies is_digit(#[trigger] s[i]) by {
            if i < head.len() {
                assert(s[i] == head[i]);
            }
        }
    }
}

/// Every number below 65536 is read back from its decimal numeral.
pub proof fn lemma_parse_u16_of_decimal(n: u16)
    ensures
        parse_u16(decimal(n as nat)) == Some(n),
{
    lemma_decimal_round_trip(n as nat);
}

/// Behind a text that ends in `sep`, what follows is what stands behind the
/// last `sep`, as long as it holds none itself.
pub proof fn lemma_after_last_of_joined(head: Seq<char>, tail: Seq<char>, sep: char)
    requires
        head.len() > 0,
        head.last() == sep,
        forall|j: int| 0 <= j < tail.len() ==> #[trigger] tail[j] != sep,
    ensures
        after_last(head + tail, sep) == tail,
{
    let s = head + tail;
    assert forall|j: int| head.len() <= j < s.len() implies #[trigger] s[j] != sep by {
        assert(s[j] == tail[j - head.len()]);
    }
    assert(s[head.len() - 1] == head.last());
    lemma_after_last(s, sep, head.len() as int);
    assert(s.skip(head.len() as int) == tail);
}

/// The part of `s` before its first `sep`; all of `s` where it holds none.
pub open spec fn before_first(s: Seq<char>, sep: char) -> Seq<char>
    decreases s.len(),
{
    if s.len() == 0 || s[0] == sep {
        Seq::empty()
    } else {
        seq![s[0]] + before_first(s.drop_first(), sep)
    }
}

proof fn lemma_before_first(s: Seq<char>, sep: char, k: int)
    requires
        0 <= k <= s.len(),
        forall|j: int| 0 <= j < k ==> #[trigger] s[j] != sep,
        k < s.len() ==> s[k] == sep,
    ensures
        before_first(s, sep) == s.take(k),
    decreases k,
{
    if k == 0 {
        assert(s.take(0) == Seq::<char>::empty());
    } else {
        let rest = s.drop_first();
        assert forall|j: int| 0 <= j < k - 1 implies #[trigger] rest[j] != sep by {
            assert(rest[j] == s[j + 1]);
        }
        if k < s.len() {
            assert(rest[k - 1] == s[k]);
        }
        lemma_before_first(rest, sep, k - 1);
        assert(seq![s[0]] + rest.take(k - 1) == s.take(k));
    }
}

/// The index of the first `sep` in `v` at or after `from`, or the length of
/// `v` where none follows.
pub(crate) fn next_separator(v: &Vec<char>, from: usize, sep: char) -> (k: usize)
    requires
        from <= v.len(),
    ensures
        from <= k <= v.len(),
        v@.subrange(from as int, k as int) == before_first(v@.skip(from as int), sep),
        k < v.len() ==> v@[k as int] == sep,
{
    let mut k: usize = from;
    while k < v.len() && v[k] != sep
        invariant
            from <= k <= v.len(),
            forall|j: int| from <= j < k ==> #[trigger] v@[j] != sep,
        decreases v.len() - k,
    {
        k += 1;
    }
    proof {
        let rest = v@.skip(from as int);
        assert forall|j: int| 0 <= j < k - from implies #[trigger] rest[j] != sep by {
            assert(rest[j] == v@[j + from]);
        }
        if k < v.len() {
            assert(rest[k - from] == v@[k as int]);
        }
        lemma_before_first(rest, sep, k - from);
        assert(rest.take(k - from) == v@.subrange(from as int, k as int));
    }
    k
}

/// `s` without the `c`s at its start.
pub open spec fn strip_start(s: Seq<char>, c: char) -> Seq<char>
    decreases s.len(),
{
    if s.len() > 0 && s[0] == c {
        strip_start(s.drop_first(), c)
    } else {
        s
    }
}

/// `s` without the `c`s at its end.
pub open spec fn strip_end(s: Seq<char>, c: char) -> Seq<char>
    decreases s.len(),
{
    if s.len() > 0 && s.last() == c {
        strip_end(s.drop_last(), c)
    } else {
        s
    }
}

/// `s` without the `c`s at its start and at its end, as `str::trim_matches`
/// gives it for a single character.
pub open spec fn strip_both(s: Seq<char>, c: char) -> Seq<char> {
    strip_end(strip_start(s, c), c)
}

proof fn lemma_strip_start(s: Seq<char>, c: char, a: int)
    requires
        0 <= a <= s.len(),
        forall|j: int| 0 <= j < a ==> #[trigger] s[j] == c,
        a < s.len() ==> s[a] != c,
    ensures
        strip_start(s, c) == s.skip(a),
    decreases a,
{
    if a == 0 {
        assert(s.skip(0) == s);
    } else {
        let t = s.drop_first();
        assert forall|j: int| 0 <= j < a - 1 implies #[trigger] t[j] == c by {
            assert(t[j] == s[j + 1]);
        }
        lemma_strip_start(t, c, a - 1);
        assert(t.skip(a - 1) == s.skip(a));
    }
}

proof fn lemma_strip_end(s: Seq<char>, c: char, b: int)
    requires
        0 <= b <= s.len(),
        forall|j: int| b <= j < s.len() ==> #[trigger] s[j] == c,
        0 < b ==> s[b - 1] != c,
    ensures
        strip_end(s, c) == s.take(b),
    decreases s.len() - b,
{
    if b == s.len() {
        assert(s.take(b) == s);
    } else {
        let t = s.drop_last();
        lemma_strip_end(t, c, b);
        assert(t.take(b) == s.take(b));
    }
}

/// The bounds, within `v[from..to]`, of what is left once the `c`s at both
/// ends are taken away.
pub(crate) fn strip_bounds(v: &Vec<char>, from: usize, to: usize, c: char) -> (r: (usize, usize))
    requires
        from <= to <= v.len(),
    ensures
        from <= r.0 <= r.1 <= to,
        v@.subrange(r.0 as int, r.1 as int) == strip_both(v@.subrange(from as int, to as int), c),
{
    let mut a: usize = from;
    while a < to && v[a] == c
        invariant
            from <= a <= to <= v.len(),
            forall|j: int| from <= j < a ==> #[trigger] v@[j] == c,
        decreases to - a,
    {
        a += 1;
    }
    let mut b: usize = to;
    while b > a && v[b - 1] == c
        invariant
            a <= b <= to <= v.len(),
            forall|j: int| b <= j < to ==> #[trigger] v@[j] == c,
        decreases b,
    {
        b -= 1;
    }
    proof {
        let s = v@.subrange(from as int, to as int);
        assert forall|j: int| 0 <= j < a - from implies #[trigger] s[j] == c by {
            assert(s[j] == v@[j + from]);
        }
        if a < to {
            assert(s[a - from] == v@[a as int]);
        }
        lemma_strip_start(s, c, a - from);
        let t = s.skip(a - from);
        assert forall|j: int| b - a <= j < t.len() implies #[trigger] t[j] == c by {
            assert(t[j] == v@[j + a]);
        }
        if b > a {
            assert(t[b - a - 1] == v@[b - 1]);
        }
        lemma_strip_end(t, c, b - a);
        assert(t.take(b - a) == v@.subrange(a as int, b as int));
    }
    (a, b)
}

/// The bounds, within `v[from..to]`, of what is left once the white space
/// at both ends is taken away.
pub(crate) fn trim_bounds_in(v: &Vec<char>, from: usize, to: usize) -> (r: (usize, usize))
    requires
        from <= to <= v.len(),
    ensures
        from <= r.0 <= r.1 <= to,
        v@.subrange(r.0 as int, r.1 as int) == trim(v@.subrange(from as int, to as int)),
{
    let mut a: usize = from;
    while a < to && v[a].is_whitespace()
        invariant
            from <= a <= to <= v.len(),
            forall|j: int| from <= j < a ==> is_whitespace(#[trigger] v@[j]),
        decreases to - a,
    {
        a += 1;
    }
    let mut b: usize = to;
    while b > a && v[b - 1].is_whitespace()
        invariant
            a <= b <= to <= v.len(),
            forall|j: int| b <= j < to ==> is_whitespace(#[trigger] v@[j]),
        decreases b,
    {
        b -= 1;
    }
    proof {
        let s = v@.subrange(from as int, to as int);
        assert forall|j: int| 0 <= j < a - from implies is_whitespace(#[trigger] s[j]) by {
            assert(s[j] == v@[j + from]);
        }
        if a < to {
            assert(s[a - from] == v@[a as int]);
        }
        lemma_trim_start_skip(s, a - from);
        let t = s.skip(a - from);
        assert forall|j: int| b - a <= j < t.len() implies is_whitespace(#[trigger] t[j]) by {
            assert(t[j] == v@[j + a]);
        }
        if b > a {
            assert(t[b - a - 1] == v@[b - 1]);
        }
        lemma_trim_end_take(t, b - a);
        assert(t.take(b - a) == v@.subrange(a as int, b as int));
    }
    (a, b)
}

/// A trimmed text neither begins nor ends with white space.
pub proof fn lemma_trim_is_tight(s: Seq<char>)
    ensures
        trim(s).len() > 0 ==> !is_whitespace(trim(s)[0]) && !is_whitespace(trim(s).last()),
{
    lemma_trim_start_tight(s);
    lemma_trim_end_tight(trim_start(s));
    let t = trim_start(s);
    if trim(s).len() > 0 {
        lemma_trim_end_is_prefix(t);
        assert(trim(s)[0] == t[0]);
    }
}

proof fn lemma_trim_start_tight(s: Seq<char>)
    ensures
        trim_start(s).len() > 0 ==> !is_whitespace(trim_start(s)[0]),
    decreases s.len(),
{
    if s.len() > 0 && is_whitespace(s[0]) {
        lemma_trim_start_tight(s.drop_first());
    }
}

proof fn lemma_trim_end_tight(s: Seq<char>)
    ensures
        trim_end(s).len() > 0 ==> !is_whitespace(trim_end(s).last()),
    decreases s.len(),
{
    if s.len() > 0 && is_whitespace(s.last()) {
        lemma_trim_end_tight(s.drop_last());
    }
}

proof fn lemma_trim_end_is_prefix(s: Seq<char>)
    ensures
        trim_end(s).len() <= s.len(),
        trim_end(s) == s.take(trim_end(s).len() as int),
    decreases s.len(),
{
    if s.len() > 0 && is_whitespace(s.last()) {
        lemma_trim_end_is_prefix(s.drop_last());
        assert(s.drop_last().take(trim_end(s).len() as int) == s.take(trim_end(s).len() as int));
    } else {
        assert(s.take(s.len() as int) == s);
    }
}


/// In a text of ASCII characters bytes and characters go one to one: every
/// index is a character boundary, and a range of its bytes decodes to the
/// same range of its characters.
pub proof fn lemma_ascii_bytes(value: Seq<char>, from: int, to: int)
    requires
        vstd::utf8::is_ascii_chars(value),
        0 <= from <= to <= value.len(),
    ensures
        vstd::utf8::encode_utf8(value).len() == value.len(),
        vstd::utf8::decode_utf8(vstd::utf8::encode_utf8(value).subrange(from, to)) == value.subrange(from, to),
        from < value.len() ==> vstd::utf8::is_char_boundary(vstd::utf8::encode_utf8(value), from),
{
    let bytes = vstd::utf8::encode_utf8(value);
    let part = value.subrange(from, to);
    vstd::utf8::is_ascii_chars_encode_utf8(value);
    assert(vstd::utf8::is_ascii_chars(part));
    vstd::utf8::is_ascii_chars_encode_utf8(part);
    assert(bytes.subrange(from, to) =~= vstd::utf8::encode_utf8(part)) by {
        assert forall|i: int| 0 <= i < to - from implies bytes.subrange(from, to)[i] == vstd::utf8::encode_utf8(
            part,
        )[i] by {
            assert(part[i] == value[i + from]);
            assert(bytes[i + from] == value[i + from] as u8);
            assert(vstd::utf8::encode_utf8(part)[i] == part[i] as u8);
        }
    }
    vstd::utf8::encode_utf8_decode_utf8(part);
    if from < value.len() {
        vstd::utf8::encode_utf8_valid_utf8(value);
        vstd::utf8::is_char_boundary_iff_not_is_continuation_byte(bytes, from);
        let b = bytes[from];
        assert(b == value[from] as u8);
        assert(b < 128);
        assert(!vstd::utf8::is_continuation_byte(b)) by (bit_vector)
            requires
                b < 128,
        ;
    }
}


/// The last character boundary of `bytes` at or before index `at`.
pub open spec fn boundary_at_or_before(bytes: Seq<u8>, at: int) -> int
    decreases at,
{
    if at <= 0 {
        0
    } else if vstd::utf8::is_char_boundary(bytes, at) {
        at
    } else {
        boundary_at_or_before(bytes, at - 1)
    }
}

/// The beginning of `text` that fits in `limit` bytes of its UTF-8 form:
/// the text is cut after byte `limit`, or before it where the cut would
/// fall inside a character.
pub open spec fn byte_head(text: Seq<char>, limit: int) -> Seq<char> {
    let bytes = vstd::utf8::encode_utf8(text);
    vstd::utf8::decode_utf8(bytes.subrange(0, boundary_at_or_before(bytes, limit)))
}

/// The beginning of `text` that fits in `limit` bytes.
pub fn byte_head_string(text: &str, limit: usize) -> (out: String)
    ensures
        out@ == byte_head(text@, limit as int),
{
    let ghost bytes = vstd::utf8::encode_utf8(text@);
    let mut k: usize = limit;
    while k > 0 && !text.is_char_boundary(k)
        invariant
            k <= limit,
            bytes == vstd::utf8::encode_utf8(text@),
            boundary_at_or_before(bytes, limit as int) == boundary_at_or_before(bytes, k as int),
        decreases k,
    {
        k -= 1;
    }
    proof {
        vstd::utf8::encode_utf8_valid_utf8(text@);
        assert(boundary_at_or_before(bytes, k as int) == k);
        assert(vstd::utf8::is_char_boundary(bytes, k as int));
    }
    let (head, _) = text.split_at(k);
    proof {
        vstd::utf8::encode_utf8_decode_utf8(head@);
    }
    String::from_str(head)
}

/// Of a text of ASCII characters, the beginning that fits in `limit` bytes
/// is its first `limit` characters.
pub proof fn lemma_byte_head_ascii(text: Seq<char>, limit: int)
    requires
        vstd::utf8::is_ascii_chars(text),
        0 <= limit <= text.len(),
    ensures
        byte_head(text, limit) == text.take(limit),
{
    vstd::utf8::is_ascii_chars_encode_utf8(text);
    vstd::utf8::encode_utf8_valid_utf8(text);
    let bytes = vstd::utf8::encode_utf8(text);
    if limit > 0 {
        if limit < text.len() {
            lemma_ascii_bytes(text, limit, limit);
        } else {
            vstd::utf8::is_char_boundary_start_end_of_seq(bytes);
        }
    }
    lemma_ascii_bytes(text, 0, limit);
    assert(text.subrange(0, limit) == text.take(limit));
}


/// White space at the end of a text is of no account to its trimmed form.
pub proof fn lemma_trim_ignores_trailing_space(s: Seq<char>, w: char)
    requires
        is_whitespace(w),
    ensures
        trim(s.push(w)) == trim(s),
    decreases s.len(),
{
    let t = s.push(w);
    if s.len() == 0 {
        assert(t[0] == w);
        assert(t.drop_first() == Seq::<char>::empty());
        assert(trim_start(Seq::<char>::empty()) == Seq::<char>::empty());
        assert(trim_start(t) == trim_start(t.drop_first()));
        assert(trim_end(Seq::<char>::empty()) == Seq::<char>::empty());
    } else if is_whitespace(s[0]) {
        assert(t[0] == s[0]);
        assert(t.drop_first() == s.drop_first().push(w));
        lemma_trim_ignores_trailing_space(s.drop_first(), w);
    } else {
        assert(t[0] == s[0]);
        assert(trim_start(t) == t);
        assert(t.last() == w);
        assert(t.drop_last() == s);
    }
}

} // verus!
