//! Character-level helpers on strings: searching, trimming, splitting into
//! fields, and unsigned decimal numbers.

use vstd::prelude::*;

verus! {

/// The characters of `s`, in order.
pub fn chars_of(s: &str) -> (out: Vec<char>)
    ensures
        out@ == s@,
{
    let mut out: Vec<char> = Vec::new();
    for c in it: s.chars()
        invariant
            it.seq() == s@,
            out@ == it.seq().take(it.index() as int),
    {
        assert(it.seq().take(it.index() as int).push(c) == it.seq().take(it.index() + 1));
        out.push(c);
    }
    assert(s@.take(s@.len() as int) == s@);
    out
}

/// Mathematical value of a text that may be absent.
pub open spec fn optional_text(text: Option<String>) -> Option<Seq<char>> {
    match text {
        Some(t) => Some(t@),
        None => None,
    }
}

/// `needle` occurs in `hay` as a run of neighbouring characters.
pub open spec fn has_substring(hay: Seq<char>, needle: Seq<char>) -> bool {
    exists|i: int|
        0 <= i <= hay.len() - needle.len() && #[trigger] hay.subrange(i, i + needle.len())
            == needle
}

/// Whether `needle` stands in `hay` at position `at`.
fn occurs_at(hay: &Vec<char>, needle: &Vec<char>, at: usize) -> (r: bool)
    requires
        at + needle.len() <= hay.len(),
    ensures
        r == (hay@.subrange(at as int, at + needle.len()) == needle@),
{
    let ghost window = hay@.subrange(at as int, at + needle.len());
    let mut k: usize = 0;
    while k < needle.len()
        invariant
            k <= needle.len(),
            at + needle.len() <= hay.len(),
            window == hay@.subrange(at as int, at + needle.len()),
            forall|j: int| 0 <= j < k ==> window[j] == needle[j],
        decreases needle.len() - k,
    {
        if hay[at + k] != needle[k] {
            assert(window[k as int] != needle[k as int]);
            return false;
        }
        k += 1;
    }
    assert(window =~= needle@);
    true
}

/// Whether `needle` occurs in `hay`. An empty `needle` occurs in every text.
pub fn contains_text(hay: &str, needle: &str) -> (r: bool)
    ensures
        r == has_substring(hay@, needle@),
{
    let h = chars_of(hay);
    let n = chars_of(needle);
    if n.len() > h.len() {
        return false;
    }
    let last = h.len() - n.len();
    let mut i: usize = 0;
    loop
        invariant
            i <= last,
            last == h.len() - n.len(),
            n.len() <= h.len(),
            h@ == hay@,
            n@ == needle@,
            forall|k: int| 0 <= k < i ==> #[trigger] h@.subrange(k, k + n.len()) != n@,
        decreases last - i,
    {
        if occurs_at(&h, &n, i) {
            return true;
        }
        if i == last {
            return false;
        }
        i += 1;
    }
}

/// The characters that Unicode gives the property `White_Space`.
pub open spec fn is_whitespace(c: char) -> bool {
    let n = c as u32;
    ||| 0x09 <= n <= 0x0D
    ||| n == 0x20
    ||| n == 0x85
    ||| n == 0xA0
    ||| n == 0x1680
    ||| 0x2000 <= n <= 0x200A
    ||| n == 0x2028
    ||| n == 0x2029
    ||| n == 0x202F
    ||| n == 0x205F
    ||| n == 0x3000
}

/// Whether `c` is white space.
pub fn is_space(c: char) -> (r: bool)
    ensures
        r == is_whitespace(c),
{
    let n = c as u32;
    (0x09 <= n && n <= 0x0D) || n == 0x20 || n == 0x85 || n == 0xA0 || n == 0x1680 || (0x2000 <= n
        && n <= 0x200A) || n == 0x2028 || n == 0x2029 || n == 0x202F || n == 0x205F || n == 0x3000
}

/// Number of white-space characters at the start of `s`.
pub open spec fn leading_space(s: Seq<char>) -> nat
    decreases s.len(),
{
    if s.len() > 0 && is_whitespace(s[0]) {
        1 + leading_space(s.drop_first())
    } else {
        0
    }
}

/// Number of white-space characters at the end of `s`.
pub open spec fn trailing_space(s: Seq<char>) -> nat
    decreases s.len(),
{
    if s.len() > 0 && is_whitespace(s.last()) {
        1 + trailing_space(s.drop_last())
    } else {
        0
    }
}

/// `s` without the white space at its start and at its end.
pub open spec fn trimmed(s: Seq<char>) -> Seq<char> {
    let rest = s.skip(leading_space(s) as int);
    rest.take(rest.len() - trailing_space(rest))
}

/// What `leading_space` counts lies inside `s`, is white space throughout, and
/// ends where `s` ends or something else begins.
pub proof fn lemma_leading_space(s: Seq<char>)
    ensures
        leading_space(s) <= s.len(),
        forall|i: int| 0 <= i < leading_space(s) ==> is_whitespace(#[trigger] s[i]),
        leading_space(s) < s.len() ==> !is_whitespace(s[leading_space(s) as int]),
    decreases s.len(),
{
    if s.len() > 0 && is_whitespace(s[0]) {
        let rest = s.drop_first();
        lemma_leading_space(rest);
        assert forall|i: int| 0 <= i < leading_space(s) implies is_whitespace(#[trigger] s[i]) by {
            if i > 0 {
                assert(s[i] == rest[i - 1]);
            }
        }
        if leading_space(s) < s.len() {
            assert(s[leading_space(s) as int] == rest[leading_space(rest) as int]);
        }
    }
}

/// A run of white space at the start of `s` that is followed by the end or by
/// something else is all that `leading_space` counts.
pub proof fn lemma_leading_space_is(s: Seq<char>, n: int)
    requires
        0 <= n <= s.len(),
        forall|i: int| 0 <= i < n ==> is_whitespace(#[trigger] s[i]),
        n < s.len() ==> !is_whitespace(s[n]),
    ensures
        leading_space(s) == n,
    decreases s.len(),
{
    if n > 0 {
        let rest = s.drop_first();
        assert(is_whitespace(s[0]));
        assert forall|i: int| 0 <= i < n - 1 implies is_whitespace(#[trigger] rest[i]) by {
            assert(rest[i] == s[i + 1]);
        }
        lemma_leading_space_is(rest, n - 1);
    }
}

/// A run of white space at the end of `s` that is preceded by the start or by
/// something else is all that `trailing_space` counts.
pub proof fn lemma_trailing_space_is(s: Seq<char>, n: int)
    requires
        0 <= n <= s.len(),
        forall|i: int| s.len() - n <= i < s.len() ==> is_whitespace(#[trigger] s[i]),
        n < s.len() ==> !is_whitespace(s[s.len() - n - 1]),
    ensures
        trailing_space(s) == n,
    decreases s.len(),
{
    if n > 0 {
        let rest = s.drop_last();
        assert(is_whitespace(s[s.len() - 1]));
        assert forall|i: int| rest.len() - (n - 1) <= i < rest.len() implies is_whitespace(
            #[trigger] rest[i],
        ) by {
            assert(rest[i] == s[i]);
        }
        lemma_trailing_space_is(rest, n - 1);
    }
}

/// What `trailing_space` counts lies inside `s`, is white space throughout,
/// and begins where `s` begins or something else ends.
pub proof fn lemma_trailing_space(s: Seq<char>)
    ensures
        trailing_space(s) <= s.len(),
        forall|i: int|
            s.len() - trailing_space(s) <= i < s.len() ==> is_whitespace(#[trigger] s[i]),
        trailing_space(s) < s.len() ==> !is_whitespace(s[s.len() - trailing_space(s) - 1]),
    decreases s.len(),
{
    if s.len() > 0 && is_whitespace(s.last()) {
        let rest = s.drop_last();
        lemma_trailing_space(rest);
        assert forall|i: int| s.len() - trailing_space(s) <= i < s.len() implies is_whitespace(
            #[trigger] s[i],
        ) by {
            if i < rest.len() {
                assert(s[i] == rest[i]);
            }
        }
        if trailing_space(s) < s.len() {
            assert(s[s.len() - trailing_space(s) - 1] == rest[rest.len() - trailing_space(rest)
                - 1]);
        }
    }
}

/// White space is trimmed up to the first and the last character that is
/// none: a text with such a character `c` after `before`, and such a
/// character `d` before `after`, loses the white space at the start of
/// `before` and at the end of `after`, and nothing else.
pub proof fn lemma_trimmed_around(
    before: Seq<char>,
    c: char,
    middle: Seq<char>,
    d: char,
    after: Seq<char>,
)
    requires
        !is_whitespace(c),
        !is_whitespace(d),
    ensures
        leading_space(before) <= before.len(),
        trailing_space(after) <= after.len(),
        trimmed(before + seq![c] + middle + seq![d] + after) == before.skip(
            leading_space(before) as int,
        ) + seq![c] + middle + seq![d] + after.take(after.len() - trailing_space(after)),
{
    let s = before + seq![c] + middle + seq![d] + after;
    let lead = leading_space(before);
    let trail = trailing_space(after);
    lemma_leading_space(before);
    lemma_trailing_space(after);
    assert forall|i: int| 0 <= i < lead implies is_whitespace(#[trigger] s[i]) by {
        assert(s[i] == before[i]);
    }
    if lead < before.len() {
        assert(s[lead as int] == before[lead as int]);
    } else {
        assert(s[lead as int] == c);
    }
    lemma_leading_space_is(s, lead as int);
    let rest = s.skip(lead as int);
    assert(rest =~= before.skip(lead as int) + seq![c] + middle + seq![d] + after);
    let shift = rest.len() - after.len();
    assert forall|i: int| rest.len() - trail <= i < rest.len() implies is_whitespace(
        #[trigger] rest[i],
    ) by {
        assert(rest[i] == after[i - shift]);
    }
    if trail < after.len() {
        assert(rest[rest.len() - trail - 1] == after[after.len() - trail - 1]);
    } else {
        assert(rest[rest.len() - trail - 1] == d);
    }
    lemma_trailing_space_is(rest, trail as int);
    assert(rest.take(rest.len() - trail) =~= before.skip(lead as int) + seq![c] + middle + seq![d]
        + after.take(after.len() - trail));
}

/// The bounds of `trimmed`: `lo` and `hi` with `s@.subrange(lo, hi)` being `s`
/// without the white space around it.
pub fn trim_bounds(s: &Vec<char>) -> (bounds: (usize, usize))
    ensures
        bounds.0 <= bounds.1 <= s.len(),
        s@.subrange(bounds.0 as int, bounds.1 as int) == trimmed(s@),
{
    let mut lo: usize = 0;
    while lo < s.len() && is_space(s[lo])
        invariant
            lo <= s.len(),
            forall|i: int| 0 <= i < lo ==> is_whitespace(#[trigger] s[i]),
        decreases s.len() - lo,
    {
        lo += 1;
    }
    let mut hi: usize = s.len();
    while hi > lo && is_space(s[hi - 1])
        invariant
            lo <= hi <= s.len(),
            forall|i: int| hi <= i < s.len() ==> is_whitespace(#[trigger] s[i]),
        decreases hi,
    {
        hi -= 1;
    }
    proof {
        lemma_leading_space_is(s@, lo as int);
        let rest = s@.skip(lo as int);
        assert forall|i: int| rest.len() - (s.len() - hi) <= i < rest.len() implies is_whitespace(
            #[trigger] rest[i],
        ) by {
            assert(rest[i] == s[i + lo]);
        }
        if hi > lo {
            assert(rest[rest.len() - (s.len() - hi) - 1] == s[hi - 1]);
        }
        lemma_trailing_space_is(rest, s.len() - hi);
        assert(s@.subrange(lo as int, hi as int) =~= rest.take(rest.len() - trailing_space(rest)));
    }
    (lo, hi)
}

/// The fields of `s`: the runs of characters between one occurrence of `sep`
/// and the next. A text without `sep` is one field, and the empty text one
/// empty field.
pub open spec fn fields(s: Seq<char>, sep: char) -> Seq<Seq<char>>
    decreases s.len(),
{
    if s.len() == 0 {
        seq![Seq::<char>::empty()]
    } else {
        let before = fields(s.drop_last(), sep);
        if s.last() == sep {
            before.push(Seq::<char>::empty())
        } else {
            before.update(before.len() - 1, before.last().push(s.last()))
        }
    }
}

/// There is always at least one field.
pub proof fn lemma_fields_len(s: Seq<char>, sep: char)
    ensures
        fields(s, sep).len() >= 1,
    decreases s.len(),
{
    if s.len() > 0 {
        lemma_fields_len(s.drop_last(), sep);
    }
}

/// `c` does not occur in `s`.
pub open spec fn free_of(s: Seq<char>, c: char) -> bool {
    forall|i: int| 0 <= i < s.len() ==> #[trigger] s[i] != c
}

/// A text without the separator is one field.
pub proof fn lemma_fields_single(s: Seq<char>, sep: char)
    requires
        free_of(s, sep),
    ensures
        fields(s, sep) == seq![s],
    decreases s.len(),
{
    if s.len() > 0 {
        let front = s.drop_last();
        assert(s[s.len() - 1] != sep);
        assert forall|i: int| 0 <= i < front.len() implies #[trigger] front[i] != sep by {
            assert(front[i] == s[i]);
        }
        lemma_fields_single(front, sep);
        let before = fields(front, sep);
        assert(before.last().push(s.last()) == s);
        assert(before.update(before.len() - 1, s) =~= seq![s]);
    } else {
        assert(s =~= Seq::<char>::empty());
    }
}

/// The fields of two texts with a separator between them are the fields of
/// the one followed by the fields of the other.
pub proof fn lemma_fields_concat(s: Seq<char>, t: Seq<char>, sep: char)
    ensures
        fields(s + seq![sep] + t, sep) == fields(s, sep) + fields(t, sep),
    decreases t.len(),
{
    let whole = s + seq![sep] + t;
    if t.len() == 0 {
        assert(whole.drop_last() =~= s);
        assert(fields(s, sep).push(Seq::<char>::empty()) =~= fields(s, sep) + fields(t, sep));
    } else {
        let front = t.drop_last();
        lemma_fields_concat(s, front, sep);
        lemma_fields_len(front, sep);
        assert(whole.drop_last() =~= s + seq![sep] + front);
        assert(whole.last() == t.last());
        let x = fields(s, sep) + fields(front, sep);
        let y = fields(front, sep);
        assert(x.last() == y.last());
        if t.last() == sep {
            assert(x.push(Seq::<char>::empty()) =~= fields(s, sep) + y.push(Seq::<char>::empty()));
        } else {
            let grown = y.last().push(t.last());
            assert(x.update(x.len() - 1, grown) =~= fields(s, sep) + y.update(y.len() - 1, grown));
        }
    }
}

/// A text without the separator, a separator and more text: the first field
/// is the text, and the fields after it are those of the rest.
pub proof fn lemma_fields_prepend(first: Seq<char>, rest: Seq<char>, sep: char)
    requires
        free_of(first, sep),
    ensures
        fields(first + seq![sep] + rest, sep) == seq![first] + fields(rest, sep),
{
    lemma_fields_single(first, sep);
    lemma_fields_concat(first, rest, sep);
}

/// Where the fields of `s[lo..hi]` lie: one pair of bounds for each field, in
/// order. Bounds that are no range of `s` have no fields.
pub fn field_bounds(s: &Vec<char>, lo: usize, hi: usize, sep: char) -> (bounds: Vec<(usize, usize)>)
    ensures
        lo <= hi <= s.len() ==> bounds.len() == fields(
            s@.subrange(lo as int, hi as int),
            sep,
        ).len(),
        lo <= hi <= s.len() ==> forall|k: int|
            0 <= k < bounds.len() ==> {
                &&& lo <= (#[trigger] bounds[k]).0 <= bounds[k].1 <= hi
                &&& s@.subrange(bounds[k].0 as int, bounds[k].1 as int) == fields(
                    s@.subrange(lo as int, hi as int),
                    sep,
                )[k]
            },
        !(lo <= hi <= s.len()) ==> bounds.len() == 0,
{
    let mut bounds: Vec<(usize, usize)> = Vec::new();
    if lo > hi || hi > s.len() {
        return bounds;
    }
    let mut start: usize = lo;
    let mut i: usize = lo;
    while i < hi
        invariant
            lo <= start <= i <= hi <= s.len(),
            fields(s@.subrange(lo as int, i as int), sep).len() == bounds.len() + 1,
            fields(s@.subrange(lo as int, i as int), sep).last() == s@.subrange(
                start as int,
                i as int,
            ),
            forall|k: int|
                0 <= k < bounds.len() ==> {
                    &&& lo <= (#[trigger] bounds[k]).0 <= bounds[k].1 <= hi
                    &&& s@.subrange(bounds[k].0 as int, bounds[k].1 as int) == fields(
                        s@.subrange(lo as int, i as int),
                        sep,
                    )[k]
                },
        decreases hi - i,
    {
        let ghost before = fields(s@.subrange(lo as int, i as int), sep);
        let ghost next = s@.subrange(lo as int, i + 1);
        assert(next.drop_last() == s@.subrange(lo as int, i as int));
        assert(next.last() == s[i as int]);
        if s[i] == sep {
            bounds.push((start, i));
            start = i + 1;
            assert(s@.subrange(start as int, i + 1) == Seq::<char>::empty());
        } else {
            assert(s@.subrange(start as int, i as int).push(s[i as int]) == s@.subrange(
                start as int,
                i + 1,
            ));
        }
        i += 1;
    }
    bounds.push((start, hi));
    bounds
}

/// One of the ten characters `0` to `9`.
pub open spec fn is_digit(c: char) -> bool {
    '0' <= c <= '9'
}

/// The number that a run of digits stands for, most significant digit first.
pub open spec fn digits_value(s: Seq<char>) -> nat
    decreases s.len(),
{
    if s.len() == 0 {
        0
    } else {
        digits_value(s.drop_last()) * 10 + (s.last() as u32 - '0' as u32) as nat
    }
}

/// Every character of `s` is a digit.
pub open spec fn all_digits(s: Seq<char>) -> bool {
    forall|i: int| 0 <= i < s.len() ==> is_digit(#[trigger] s[i])
}

/// The number that `s` denotes as an unsigned decimal no greater than `max`:
/// an optional `+`, then one digit or more and nothing else. `None` where `s`
/// is not of that form or denotes more than `max`.
pub open spec fn unsigned_decimal(s: Seq<char>, max: nat) -> Option<nat> {
    let digits = if s.len() > 1 && s[0] == '+' {
        s.drop_first()
    } else {
        s
    };
    if digits.len() > 0 && all_digits(digits) && digits_value(digits) <= max {
        Some(digits_value(digits))
    } else {
        None
    }
}

/// A run of digits denotes no less than any run it starts with.
pub proof fn lemma_digits_value_prefix(s: Seq<char>, k: int)
    requires
        0 <= k <= s.len(),
    ensures
        digits_value(s.take(k)) <= digits_value(s),
    decreases s.len(),
{
    if k < s.len() {
        lemma_digits_value_prefix(s.drop_last(), k);
        assert(s.drop_last().take(k) == s.take(k));
    } else {
        assert(s.take(k) == s);
    }
}

/// Reads `s[lo..hi]` as an unsigned decimal no greater than `max`. Bounds
/// that are no range of `s` give `None`.
pub fn parse_unsigned(s: &Vec<char>, lo: usize, hi: usize, max: u32) -> (value: Option<u32>)
    ensures
        match value {
            Some(n) => lo <= hi <= s.len() && unsigned_decimal(
                s@.subrange(lo as int, hi as int),
                max as nat,
            ) == Some(n as nat),
            None => !(lo <= hi <= s.len()) || unsigned_decimal(
                s@.subrange(lo as int, hi as int),
                max as nat,
            ) is None,
        },
{
    if lo > hi || hi > s.len() {
        return None;
    }
    let ghost whole = s@.subrange(lo as int, hi as int);
    let first = if hi - lo > 1 && s[lo] == '+' {
        lo + 1
    } else {
        lo
    };
    let ghost digits = s@.subrange(first as int, hi as int);
    assert(digits == if whole.len() > 1 && whole[0] == '+' {
        whole.drop_first()
    } else {
        whole
    });
    if first == hi {
        return None;
    }
    let mut acc: u64 = 0;
    let mut i: usize = first;
    while i < hi
        invariant
            first <= i <= hi <= s.len(),
            first < hi,
            whole == s@.subrange(lo as int, hi as int),
            digits == s@.subrange(first as int, hi as int),
            digits == if whole.len() > 1 && whole[0] == '+' {
                whole.drop_first()
            } else {
                whole
            },
            all_digits(digits.take(i - first)),
            acc == digits_value(digits.take(i - first)),
            acc <= max,
        decreases hi - i,
    {
        let c = s[i];
        let ghost seen = digits.take(i - first);
        let ghost more = digits.take(i - first + 1);
        assert(more.drop_last() == seen);
        assert(more.last() == c);
        if !(c >= '0' && c <= '9') {
            assert(!is_digit(digits[i - first]));
            return None;
        }
        let d: u64 = (c as u32 - '0' as u32) as u64;
        acc = acc * 10 + d;
        if acc > max as u64 {
            proof {
                lemma_digits_value_prefix(digits, i - first + 1);
            }
            return None;
        }
        assert forall|j: int| 0 <= j < more.len() implies is_digit(#[trigger] more[j]) by {
            if j < seen.len() {
                assert(more[j] == seen[j]);
            }
        }
        i += 1;
    }
    assert(digits.take(hi - first) == digits);
    Some(acc as u32)
}

/// The character that stands for a digit.
pub open spec fn digit_char(d: nat) -> char {
    if d == 0 {
        '0'
    } else if d == 1 {
        '1'
    } else if d == 2 {
        '2'
    } else if d == 3 {
        '3'
    } else if d == 4 {
        '4'
    } else if d == 5 {
        '5'
    } else if d == 6 {
        '6'
    } else if d == 7 {
        '7'
    } else if d == 8 {
        '8'
    } else {
        '9'
    }
}

/// The decimal digits of `n`, most significant first, with no leading zero
/// but for `0` itself.
pub open spec fn decimal_digits(n: nat) -> Seq<char>
    decreases n,
{
    if n < 10 {
        seq![digit_char(n)]
    } else {
        decimal_digits(n / 10).push(digit_char(n % 10))
    }
}

/// The one-character text of a digit.
fn digit_text(d: u64) -> (text: &'static str)
    requires
        d < 10,
    ensures
        text@ == seq![digit_char(d as nat)],
{
    proof {
        reveal_strlit("0");
        reveal_strlit("1");
        reveal_strlit("2");
        reveal_strlit("3");
        reveal_strlit("4");
        reveal_strlit("5");
        reveal_strlit("6");
        reveal_strlit("7");
        reveal_strlit("8");
        reveal_strlit("9");
    }
    let text = if d == 0 {
        "0"
    } else if d == 1 {
        "1"
    } else if d == 2 {
        "2"
    } else if d == 3 {
        "3"
    } else if d == 4 {
        "4"
    } else if d == 5 {
        "5"
    } else if d == 6 {
        "6"
    } else if d == 7 {
        "7"
    } else if d == 8 {
        "8"
    } else {
        "9"
    };
    assert(text@ =~= seq![digit_char(d as nat)]);
    text
}

/// `n` written in decimal.
pub fn decimal_string(n: u64) -> (text: String)
    ensures
        text@ == decimal_digits(n as nat),
    decreases n,
{
    if n < 10 {
        String::from_str(digit_text(n))
    } else {
        let mut text = decimal_string(n / 10);
        text.append(digit_text(n % 10));
        text
    }
}

/// What `decimal_digits` writes is a run of digits that denotes the number
/// written.
pub proof fn lemma_decimal_digits(n: nat)
    ensures
        decimal_digits(n).len() >= 1,
        all_digits(decimal_digits(n)),
        digits_value(decimal_digits(n)) == n,
    decreases n,
{
    if n < 10 {
        let s = decimal_digits(n);
        assert(s.drop_last() =~= Seq::<char>::empty());
        assert(digits_value(s.drop_last()) == 0);
    } else {
        lemma_decimal_digits(n / 10);
        let s = decimal_digits(n);
        assert(s.drop_last() =~= decimal_digits(n / 10));
        assert(s.last() == digit_char(n % 10));
    }
}

/// Reading back what was written gives the number again.
pub proof fn lemma_decimal_round_trip(n: nat, max: nat)
    requires
        n <= max,
    ensures
        unsigned_decimal(decimal_digits(n), max) == Some(n),
{
    lemma_decimal_digits(n);
    let s = decimal_digits(n);
    assert(is_digit(s[0]));
}

} // verus!
