//! Text processing over sequences of characters.
//!
//! The tools driven by this crate (`adb`, `ip`, `scutil`, ...) talk in plain
//! text. The functions here split, trim and search such text, and print the
//! few numbers that go back out.

use vstd::prelude::*;

verus! {

/// `String::push` adds the character after those already in the string, and
/// changes nothing else.
pub assume_specification[ String::push ](s: &mut String, c: char)
    ensures
        final(s)@ == old(s)@.push(c),
;

/// `From<&str>` for `String`: the new string has the characters of the slice.
pub assume_specification<'a>[ <String as From<&'a str>>::from ](s: &str) -> (r: String)
    ensures
        r@ == s@,
;

/// The conversion of a value into its own type hands the value back.
pub assume_specification<Value>[ <Value as From<Value>>::from ](v: Value) -> (r: Value)
    ensures
        r == v,
;

/// The text that bytes stand for, with what is not valid UTF-8 replaced.
pub uninterp spec fn utf8_lossy(bytes: Seq<u8>) -> Seq<char>;

/// Reads bytes as text.
///
/// `String::from_utf8_lossy` depends on nothing but the bytes. Bytes that are
/// valid UTF-8 are decoded; in what it makes of others, nothing is claimed
/// beyond that it is the same each time.
#[verifier::external_body]
pub(crate) fn from_utf8_lossy(bytes: &[u8]) -> (s: String)
    ensures
        s@ == utf8_lossy(bytes@),
        vstd::utf8::valid_utf8(bytes@) ==> s@ == vstd::utf8::decode_utf8(bytes@),
{
    String::from_utf8_lossy(bytes).into_owned()
}

/// Reads bytes as text, where they are valid UTF-8.
///
/// `str::from_utf8` succeeds exactly on valid UTF-8, which it decodes.
#[verifier::external_body]
pub(crate) fn from_utf8(bytes: &[u8]) -> (r: Option<String>)
    ensures
        optional_text(r) == (if vstd::utf8::valid_utf8(bytes@) {
            Some(vstd::utf8::decode_utf8(bytes@))
        } else {
            None
        }),
{
    match std::str::from_utf8(bytes) {
        Ok(s) => Some(s.to_string()),
        Err(_) => None,
    }
}

/// The characters of each slice.
pub open spec fn contents(parts: Seq<Vec<char>>) -> Seq<Seq<char>> {
    Seq::new(parts.len(), |i: int| parts[i]@)
}

/// The characters of each string.
pub open spec fn texts(strings: Seq<String>) -> Seq<Seq<char>> {
    Seq::new(strings.len(), |i: int| strings[i]@)
}

/// Splits a string slice into its characters.
pub fn to_chars(s: &str) -> (chars: Vec<char>)
    ensures
        chars@ == s@,
{
    let mut chars: Vec<char> = Vec::new();
    for c in it: s.chars()
        invariant
            it.seq() == s@,
            chars@ == s@.take(it.index()),
    {
        chars.push(c);
        assert(s@.take(it.index() + 1) =~= s@.take(it.index()).push(c));
    }
    assert(s@.take(s@.len() as int) =~= s@);
    chars
}

/// Builds a string from characters.
pub fn to_text(chars: &[char]) -> (s: String)
    ensures
        s@ == chars@,
{
    let mut s = String::new();
    let mut i: usize = 0;
    while i < chars.len()
        invariant
            i <= chars@.len(),
            s@ == chars@.take(i as int),
        decreases chars@.len() - i,
    {
        s.push(chars[i]);
        assert(chars@.take(i + 1) =~= chars@.take(i as int).push(chars@[i as int]));
        i = i + 1;
    }
    assert(chars@.take(i as int) =~= chars@);
    s
}

/// Copies characters out of a slice.
pub fn to_vec(chars: &[char]) -> (v: Vec<char>)
    ensures
        v@ == chars@,
{
    vstd::slice::slice_to_vec(chars)
}

/// The characters of a string slice that may be missing.
pub open spec fn optional_str(s: Option<&str>) -> Option<Seq<char>> {
    match s {
        Some(s) => Some(s@),
        None => None,
    }
}

/// The characters of a string that may be missing.
pub open spec fn optional_text(s: Option<String>) -> Option<Seq<char>> {
    match s {
        Some(s) => Some(s@),
        None => None,
    }
}

/// Borrows a string that may be missing.
pub fn as_optional_str(s: &Option<String>) -> (r: Option<&str>)
    ensures
        optional_str(r) == optional_text(*s),
{
    match s {
        Some(s) => Some(s.as_str()),
        None => None,
    }
}

/// Copies a string slice that may be missing.
pub fn to_optional_text(s: Option<&str>) -> (r: Option<String>)
    ensures
        optional_text(r) == optional_str(s),
{
    match s {
        Some(s) => Some(s.to_string()),
        None => None,
    }
}

/// Puts two texts one after the other.
pub fn concatenated(first: &str, second: &str) -> (r: String)
    ensures
        r@ == first@ + second@,
{
    let mut r = String::new();
    r.append(first);
    r.append(second);
    assert(r@ =~= first@ + second@);
    r
}

/// Whether the characters spell `text`.
pub fn same_text(chars: &[char], text: &str) -> (same: bool)
    ensures
        same == (chars@ == text@),
{
    let other = to_chars(text);
    if chars.len() != other.len() {
        return false;
    }
    let mut i: usize = 0;
    while i < chars.len()
        invariant
            chars@.len() == other@.len(),
            i <= chars@.len(),
            other@ == text@,
            forall|j: int| 0 <= j < i ==> chars@[j] == other@[j],
        decreases chars@.len() - i,
    {
        if chars[i] != other[i] {
            return false;
        }
        i = i + 1;
    }
    assert(chars@ =~= other@);
    true
}

/// The characters with the Unicode `White_Space` property.
pub open spec fn whitespace(c: char) -> bool {
    let code = c as u32;
    ||| 0x9 <= code <= 0xd
    ||| code == 0x20
    ||| code == 0x85
    ||| code == 0xa0
    ||| code == 0x1680
    ||| 0x2000 <= code <= 0x200a
    ||| code == 0x2028
    ||| code == 0x2029
    ||| code == 0x202f
    ||| code == 0x205f
    ||| code == 0x3000
}

/// Whether `c` has the Unicode `White_Space` property.
pub fn is_whitespace(c: char) -> (r: bool)
    ensures
        r == whitespace(c),
{
    let code: u32 = c as u32;
    (0x9 <= code && code <= 0xd) || code == 0x20 || code == 0x85 || code == 0xa0 || code == 0x1680
        || (0x2000 <= code && code <= 0x200a) || code == 0x2028 || code == 0x2029 || code == 0x202f
        || code == 0x205f || code == 0x3000
}

/// `s` without the whitespace at its start.
pub open spec fn trimmed_start(s: Seq<char>) -> Seq<char>
    decreases s.len(),
{
    if s.len() > 0 && whitespace(s[0]) {
        trimmed_start(s.drop_first())
    } else {
        s
    }
}

/// `s` without the whitespace at its end.
pub open spec fn trimmed_end(s: Seq<char>) -> Seq<char>
    decreases s.len(),
{
    if s.len() > 0 && whitespace(s.last()) {
        trimmed_end(s.drop_last())
    } else {
        s
    }
}

/// `s` without the whitespace at its two ends.
pub open spec fn trimmed(s: Seq<char>) -> Seq<char> {
    trimmed_end(trimmed_start(s))
}

/// Removes the whitespace at the two ends.
pub fn trim(s: &[char]) -> (r: &[char])
    ensures
        r@ == trimmed(s@),
{
    let mut i: usize = 0;
    assert(s@.skip(0) =~= s@);
    while i < s.len() && is_whitespace(s[i])
        invariant
            i <= s@.len(),
            trimmed_start(s@) == trimmed_start(s@.skip(i as int)),
        decreases s@.len() - i,
    {
        assert(s@.skip(i as int).drop_first() =~= s@.skip(i + 1));
        i = i + 1;
    }
    let start = vstd::slice::slice_subrange(s, i, s.len());
    assert(start@ =~= s@.skip(i as int));
    assert(start@.len() > 0 ==> start@[0] == s@[i as int]);
    let mut n: usize = start.len();
    assert(start@.take(n as int) =~= start@);
    while n > 0 && is_whitespace(start[n - 1])
        invariant
            n <= start@.len(),
            trimmed_end(start@) == trimmed_end(start@.take(n as int)),
        decreases n,
    {
        assert(start@.take(n as int).drop_last() =~= start@.take(n - 1));
        n = n - 1;
    }
    let r = vstd::slice::slice_subrange(start, 0, n);
    assert(r@ =~= start@.take(n as int));
    assert(n > 0 ==> start@.take(n as int).last() == start@[n - 1]);
    r
}

/// What follows `prefix` in `s`, where `s` starts with it.
pub open spec fn without_prefix(s: Seq<char>, prefix: Seq<char>) -> Option<Seq<char>> {
    if prefix.is_prefix_of(s) {
        Some(s.skip(prefix.len() as int))
    } else {
        None
    }
}

/// Whether `s` starts with `prefix`.
pub fn starts_with(s: &[char], prefix: &[char]) -> (r: bool)
    ensures
        r == prefix@.is_prefix_of(s@),
{
    if s.len() < prefix.len() {
        return false;
    }
    let mut i: usize = 0;
    while i < prefix.len()
        invariant
            i <= prefix@.len() <= s@.len(),
            forall|j: int| 0 <= j < i ==> prefix@[j] == s@[j],
        decreases prefix@.len() - i,
    {
        if prefix[i] != s[i] {
            assert(s@.subrange(0, prefix@.len() as int)[i as int] == s@[i as int]);
            return false;
        }
        i = i + 1;
    }
    assert(prefix@ =~= s@.subrange(0, prefix@.len() as int));
    true
}

/// Removes `prefix` from the start, if it is there.
pub fn strip_prefix<'a>(s: &'a [char], prefix: &str) -> (r: Option<&'a [char]>)
    ensures
        match r {
            Some(rest) => without_prefix(s@, prefix@) == Some(rest@),
            None => without_prefix(s@, prefix@) is None,
        },
{
    let p = to_chars(prefix);
    if starts_with(s, p.as_slice()) {
        let rest = vstd::slice::slice_subrange(s, p.len(), s.len());
        assert(rest@ =~= s@.skip(p@.len() as int));
        Some(rest)
    } else {
        None
    }
}

/// The index of the first occurrence of `pattern` in `s`.
pub open spec fn first_match(s: Seq<char>, pattern: Seq<char>) -> Option<int>
    decreases s.len(),
{
    if pattern.is_prefix_of(s) {
        Some(0int)
    } else if s.len() == 0 {
        None
    } else {
        match first_match(s.drop_first(), pattern) {
            Some(i) => Some(i + 1),
            None => None,
        }
    }
}

/// A match lies inside the text, has the pattern's characters, and nothing
/// before it does; without a match the pattern is nowhere.
pub proof fn first_match_is_first(s: Seq<char>, pattern: Seq<char>)
    ensures
        match first_match(s, pattern) {
            Some(i) => {
                &&& 0 <= i <= s.len() - pattern.len()
                &&& s.subrange(i, i + pattern.len()) == pattern
                &&& forall|j: int|
                    0 <= j < i ==> #[trigger] s.subrange(j, j + pattern.len()) != pattern
            },
            None => forall|j: int|
                0 <= j <= s.len() - pattern.len() ==> #[trigger] s.subrange(j, j + pattern.len())
                    != pattern,
        },
    decreases s.len(),
{
    let n = pattern.len() as int;
    if pattern.is_prefix_of(s) {
    } else if s.len() == 0 {
        assert(forall|j: int|
            0 <= j <= s.len() - n ==> #[trigger] s.subrange(j, j + n) != pattern);
    } else {
        let rest = s.drop_first();
        first_match_is_first(rest, pattern);
        assert forall|j: int| 0 < j <= s.len() - n implies #[trigger] s.subrange(j, j + n)
            == rest.subrange(j - 1, j - 1 + n) by {
            assert(s.subrange(j, j + n) =~= rest.subrange(j - 1, j - 1 + n));
        }
        assert(n <= s.len() ==> s.subrange(0, n) != pattern);
    }
}

/// Finds the first occurrence of `pattern`.
pub fn find(s: &[char], pattern: &str) -> (r: Option<usize>)
    ensures
        match r {
            Some(i) => first_match(s@, pattern@) == Some(i as int) && i + pattern@.len()
                <= s@.len(),
            None => first_match(s@, pattern@) is None,
        },
{
    let p = to_chars(pattern);
    let mut i: usize = 0;
    assert(s@.skip(0) =~= s@);
    proof {
        first_match_is_first(s@, pattern@);
    }
    loop
        invariant
            i <= s@.len(),
            p@ == pattern@,
            first_match(s@, p@) == (match first_match(s@.skip(i as int), p@) {
                Some(k) => Some(k + i),
                None => None::<int>,
            }),
            first_match(s@, p@) matches Some(k) ==> k + p@.len() <= s@.len(),
        decreases s@.len() - i,
    {
        let rest = vstd::slice::slice_subrange(s, i, s.len());
        assert(rest@ =~= s@.skip(i as int));
        if starts_with(rest, p.as_slice()) {
            return Some(i);
        }
        if i == s.len() {
            return None;
        }
        assert(s@.skip(i as int).drop_first() =~= s@.skip(i + 1));
        i = i + 1;
    }
}

/// The number of characters before the first `c` in `s`, or all of them.
pub open spec fn length_before(s: Seq<char>, c: char) -> int
    decreases s.len(),
{
    if s.len() == 0 || s[0] == c {
        0
    } else {
        1 + length_before(s.drop_first(), c)
    }
}

/// `length_before` stays inside the sequence and stops at the first `c`.
pub proof fn length_before_is_first(s: Seq<char>, c: char)
    ensures
        0 <= length_before(s, c) <= s.len(),
        length_before(s, c) < s.len() ==> s[length_before(s, c)] == c,
        forall|j: int| 0 <= j < length_before(s, c) ==> s[j] != c,
    decreases s.len(),
{
    if s.len() > 0 && s[0] != c {
        let rest = s.drop_first();
        length_before_is_first(rest, c);
        assert forall|j: int| 0 <= j < length_before(s, c) implies s[j] != c by {
            if j > 0 {
                assert(rest[j - 1] == s[j]);
            }
        }
    }
}

/// Counts the characters before the first `c`.
pub fn count_before(s: &[char], c: char) -> (n: usize)
    ensures
        n == length_before(s@, c),
        n <= s@.len(),
        n < s@.len() ==> s@[n as int] == c,
{
    let mut n: usize = 0;
    assert(s@.skip(0) =~= s@);
    while n < s.len() && s[n] != c
        invariant
            n <= s@.len(),
            length_before(s@, c) == n + length_before(s@.skip(n as int), c),
        decreases s@.len() - n,
    {
        assert(s@.skip(n as int).drop_first() =~= s@.skip(n + 1));
        n = n + 1;
    }
    n
}

/// A line without the carriage return that may close it.
pub open spec fn without_carriage_return(line: Seq<char>) -> Seq<char> {
    if line.len() > 0 && line.last() == '\r' {
        line.drop_last()
    } else {
        line
    }
}

/// The lines of a text. A line ends with `\n` or `\r\n`, which are not part of
/// it; the last line may go without.
pub open spec fn lines_of(s: Seq<char>) -> Seq<Seq<char>>
    decreases s.len(),
    via lines_of_decreases
{
    if s.len() == 0 {
        Seq::empty()
    } else {
        let n = length_before(s, '\n');
        if n >= s.len() {
            seq![s]
        } else {
            seq![without_carriage_return(s.take(n))] + lines_of(s.skip(n + 1))
        }
    }
}

#[via_fn]
proof fn lines_of_decreases(s: Seq<char>) {
    length_before_is_first(s, '\n');
}

/// Splits a text into its lines.
pub fn lines(s: &[char]) -> (r: Vec<Vec<char>>)
    ensures
        contents(r@) == lines_of(s@),
{
    let mut r: Vec<Vec<char>> = Vec::new();
    let mut i: usize = 0;
    assert(s@.skip(0) =~= s@);
    while i < s.len()
        invariant
            i <= s@.len(),
            lines_of(s@) == contents(r@) + lines_of(s@.skip(i as int)),
        decreases s@.len() - i,
    {
        let rest = vstd::slice::slice_subrange(s, i, s.len());
        assert(rest@ =~= s@.skip(i as int));
        let n: usize = count_before(rest, '\n');
        let ghost before = contents(r@);
        if n == rest.len() {
            r.push(to_vec(rest));
            assert(contents(r@) =~= before + seq![rest@]);
            assert(contents(r@) + Seq::<Seq<char>>::empty() =~= contents(r@));
            assert(s@.skip(s@.len() as int).len() == 0);
            i = s.len();
        } else {
            let end: usize = if n > 0 && rest[n - 1] == '\r' {
                n - 1
            } else {
                n
            };
            let line = vstd::slice::slice_subrange(rest, 0, end);
            assert(line@ =~= without_carriage_return(rest@.take(n as int)));
            r.push(to_vec(line));
            assert(contents(r@) =~= before + seq![line@]);
            assert(rest@.skip(n + 1) =~= s@.skip(i + n + 1));
            assert(before + (seq![line@] + lines_of(s@.skip(i + n + 1))) =~= contents(r@)
                + lines_of(s@.skip(i + n + 1)));
            i = i + n + 1;
        }
    }
    assert(s@.skip(i as int).len() == 0);
    assert(contents(r@) + Seq::<Seq<char>>::empty() =~= contents(r@));
    r
}

/// The number of characters before the first whitespace in `s`, or all of
/// them.
pub open spec fn word_length(s: Seq<char>) -> int
    decreases s.len(),
{
    if s.len() == 0 || whitespace(s[0]) {
        0
    } else {
        1 + word_length(s.drop_first())
    }
}

proof fn word_length_bounds(s: Seq<char>)
    ensures
        0 <= word_length(s) <= s.len(),
    decreases s.len(),
{
    if s.len() > 0 && !whitespace(s[0]) {
        word_length_bounds(s.drop_first());
    }
}

/// The words of a text: its longest runs of characters that are not
/// whitespace, in order.
pub open spec fn words_of(s: Seq<char>) -> Seq<Seq<char>>
    decreases s.len(),
    via words_of_decreases
{
    if s.len() == 0 {
        Seq::empty()
    } else if whitespace(s[0]) {
        words_of(s.drop_first())
    } else {
        let n = word_length(s);
        seq![s.take(n)] + words_of(s.skip(n))
    }
}

#[via_fn]
proof fn words_of_decreases(s: Seq<char>) {
    word_length_bounds(s);
    if s.len() > 0 {
        word_length_bounds(s.drop_first());
    }
}

/// Splits a text into its words.
pub fn words(s: &[char]) -> (r: Vec<Vec<char>>)
    ensures
        contents(r@) == words_of(s@),
{
    let mut r: Vec<Vec<char>> = Vec::new();
    let mut i: usize = 0;
    assert(s@.skip(0) =~= s@);
    while i < s.len()
        invariant
            i <= s@.len(),
            words_of(s@) == contents(r@) + words_of(s@.skip(i as int)),
        decreases s@.len() - i,
    {
        let ghost rest = s@.skip(i as int);
        if is_whitespace(s[i]) {
            assert(rest.drop_first() =~= s@.skip(i + 1));
            i = i + 1;
        } else {
            let ghost before = contents(r@);
            let mut n: usize = 0;
            assert(rest.skip(0) =~= rest);
            while n < s.len() - i && !is_whitespace(s[i + n])
                invariant
                    i < s@.len(),
                    n <= s@.len() - i,
                    rest == s@.skip(i as int),
                    word_length(rest) == n + word_length(rest.skip(n as int)),
                decreases s@.len() - i - n,
            {
                assert(rest.skip(n as int).drop_first() =~= rest.skip(n + 1));
                n = n + 1;
            }
            assert(word_length(rest) == n);
            assert(!whitespace(rest[0]));
            proof {
                word_length_bounds(rest.drop_first());
            }
            let word = vstd::slice::slice_subrange(s, i, i + n);
            assert(word@ =~= rest.take(n as int));
            r.push(to_vec(word));
            assert(contents(r@) =~= before + seq![word@]);
            assert(rest.skip(n as int) =~= s@.skip(i + n));
            assert(before + (seq![word@] + words_of(s@.skip(i + n))) =~= contents(r@)
                + words_of(s@.skip(i + n)));
            i = i + n;
        }
    }
    assert(s@.skip(i as int).len() == 0);
    assert(contents(r@) + Seq::<Seq<char>>::empty() =~= contents(r@));
    r
}

/// The second of the fields that `separator` splits `s` into, where there are
/// two or more.
pub open spec fn second_field_of(s: Seq<char>, separator: char) -> Option<Seq<char>> {
    let n = length_before(s, separator);
    if n >= s.len() {
        None
    } else {
        let rest = s.skip(n + 1);
        Some(rest.take(length_before(rest, separator)))
    }
}

/// Takes the second of the fields that `separator` splits `s` into.
pub fn second_field<'a>(s: &'a [char], separator: char) -> (r: Option<&'a [char]>)
    ensures
        match r {
            Some(field) => second_field_of(s@, separator) == Some(field@),
            None => second_field_of(s@, separator) is None,
        },
{
    let n: usize = count_before(s, separator);
    if n == s.len() {
        return None;
    }
    let rest = vstd::slice::slice_subrange(s, n + 1, s.len());
    assert(rest@ =~= s@.skip(n + 1));
    let m: usize = count_before(rest, separator);
    let field = vstd::slice::slice_subrange(rest, 0, m);
    assert(field@ =~= rest@.take(m as int));
    Some(field)
}

/// The parts one after the other, with `separator` between neighbours.
pub open spec fn joined(parts: Seq<Seq<char>>, separator: Seq<char>) -> Seq<char>
    decreases parts.len(),
{
    if parts.len() == 0 {
        Seq::empty()
    } else if parts.len() == 1 {
        parts[0]
    } else {
        joined(parts.drop_last(), separator) + separator + parts.last()
    }
}

/// Joins the parts with `separator` between neighbours.
pub fn join(parts: &[String], separator: &str) -> (r: String)
    ensures
        r@ == joined(texts(parts@), separator@),
{
    let mut r = String::new();
    let mut i: usize = 0;
    let ghost all = texts(parts@);
    while i < parts.len()
        invariant
            all == texts(parts@),
            i <= parts@.len(),
            r@ == joined(all.take(i as int), separator@),
        decreases parts@.len() - i,
    {
        let ghost next = all.take(i + 1);
        assert(next.drop_last() =~= all.take(i as int));
        assert(next.last() == parts@[i as int]@);
        if i > 0 {
            r.append(separator);
        }
        let ghost so_far = r@;
        r.append(parts[i].as_str());
        assert(r@ =~= so_far + next.last());
        if i == 0 {
            assert(r@ =~= next[0]);
        }
        i = i + 1;
    }
    assert(all.take(i as int) =~= all);
    r
}

/// The digit for a value below sixteen, in lower case.
pub open spec fn digit(d: nat) -> char {
    if d < 10 {
        (48 + d) as char
    } else {
        (87 + d) as char
    }
}

/// The digit for a value below sixteen, in lower case.
fn digit_char(d: u8) -> (c: char)
    requires
        d < 16,
    ensures
        c == digit(d as nat),
{
    if d < 10 {
        (48 + d) as char
    } else {
        (87 + d) as char
    }
}

/// The decimal numeral of `n`.
pub open spec fn decimal(n: nat) -> Seq<char>
    decreases n,
{
    if n < 10 {
        seq![digit(n)]
    } else {
        decimal(n / 10).push(digit(n % 10))
    }
}

/// Appends the decimal numeral of `n`.
pub fn push_decimal(out: &mut String, n: u64)
    ensures
        final(out)@ == old(out)@ + decimal(n as nat),
    decreases n,
{
    if n >= 10 {
        push_decimal(out, n / 10);
    }
    out.push(digit_char((n % 10) as u8));
    assert(out@ =~= old(out)@ + decimal(n as nat));
}

/// The hexadecimal numeral of `n`, in lower case.
pub open spec fn hexadecimal(n: nat) -> Seq<char>
    decreases n,
{
    if n < 16 {
        seq![digit(n)]
    } else {
        hexadecimal(n / 16).push(digit(n % 16))
    }
}

/// Appends the hexadecimal numeral of `n`, in lower case.
pub fn push_hexadecimal(out: &mut String, n: u64)
    ensures
        final(out)@ == old(out)@ + hexadecimal(n as nat),
    decreases n,
{
    if n >= 16 {
        push_hexadecimal(out, n / 16);
    }
    out.push(digit_char((n % 16) as u8));
    assert(out@ =~= old(out)@ + hexadecimal(n as nat));
}

/// Whether every character is a decimal digit.
pub open spec fn all_digits(s: Seq<char>) -> bool {
    forall|i: int| 0 <= i < s.len() ==> '0' <= #[trigger] s[i] <= '9'
}

/// The number that decimal digits spell.
pub open spec fn number(s: Seq<char>) -> nat
    decreases s.len(),
{
    if s.len() == 0 {
        0
    } else {
        number(s.drop_last()) * 10 + (s.last() as nat - '0' as nat) as nat
    }
}

/// The 16-bit number that a text spells: one or more decimal digits, after a
/// `+` or nothing, for a value that fits.
pub open spec fn parsed_u16(s: Seq<char>) -> Option<u16> {
    let digits = if s.len() > 0 && s[0] == '+' {
        s.skip(1)
    } else {
        s
    };
    if digits.len() > 0 && all_digits(digits) && number(digits) <= u16::MAX {
        Some(number(digits) as u16)
    } else {
        None
    }
}

/// Reads a 16-bit number.
pub fn parse_u16(s: &[char]) -> (r: Option<u16>)
    ensures
        r == parsed_u16(s@),
{
    let start: usize = if s.len() > 0 && s[0] == '+' {
        1
    } else {
        0
    };
    let digits = vstd::slice::slice_subrange(s, start, s.len());
    assert(digits@ =~= s@.skip(start as int));
    assert(s@.skip(0) =~= s@);
    if digits.len() == 0 {
        return None;
    }
    let mut value: u32 = 0;
    let mut i: usize = 0;
    while i < digits.len()
        invariant
            digits@ == (if s@.len() > 0 && s@[0] == '+' {
                s@.skip(1)
            } else {
                s@
            }),
            i <= digits@.len(),
            all_digits(digits@.take(i as int)),
            value <= 65536,
            number(digits@.take(i as int)) <= 65535 ==> value == number(digits@.take(i as int)),
            number(digits@.take(i as int)) > 65535 ==> value == 65536,
        decreases digits@.len() - i,
    {
        let c = digits[i];
        let ghost next = digits@.take(i + 1);
        assert(next.drop_last() =~= digits@.take(i as int));
        assert(next.last() == c);
        if c < '0' || c > '9' {
            assert(!('0' <= digits@[i as int] <= '9'));
            return None;
        }
        let d: u32 = c as u32 - '0' as u32;
        value = value * 10 + d;
        if value > 65535 {
            value = 65536;
        }
        assert forall|j: int| 0 <= j < next.len() implies '0' <= #[trigger] next[j] <= '9' by {
            if j < i {
                assert(next[j] == digits@.take(i as int)[j]);
            }
        }
        i = i + 1;
    }
    assert(digits@.take(i as int) =~= digits@);
    if value > 65535 {
        None
    } else {
        Some(value as u16)
    }
}

/// A decimal numeral is made of digits and spells its number, so reading it back
/// gives the number.
pub proof fn law_decimal_round_trip(n: nat)
    ensures
        decimal(n).len() > 0,
        all_digits(decimal(n)),
        number(decimal(n)) == n,
        n <= u16::MAX ==> parsed_u16(decimal(n)) == Some(n as u16),
    decreases n,
{
    if n < 10 {
        assert(decimal(n).drop_last() =~= Seq::<char>::empty());
        assert(number(Seq::<char>::empty()) == 0);
        assert(decimal(n).last() == digit(n));
        assert(digit(n) as nat == 48 + n);
    } else {
        law_decimal_round_trip(n / 10);
        assert(decimal(n).drop_last() =~= decimal(n / 10));
        assert(decimal(n).last() == digit(n % 10));
        assert(digit(n % 10) as nat == 48 + n % 10);
    }
    assert('0' <= decimal(n)[0] <= '9');
}

/// Trimming keeps what lies between the first and the last character that is not
/// whitespace: what surrounds it goes, and nothing of it.
pub proof fn law_trimming_keeps_the_middle(
    before: Seq<char>,
    middle: Seq<char>,
    after: Seq<char>,
)
    requires
        forall|i: int| 0 <= i < before.len() ==> whitespace(#[trigger] before[i]),
        forall|i: int| 0 <= i < after.len() ==> whitespace(#[trigger] after[i]),
        middle.len() > 0 ==> !whitespace(middle[0]) && !whitespace(middle.last()),
    ensures
        trimmed(before + middle + after) == middle,
{
    let s = before + middle + after;
    trim_start_drops(before, middle + after);
    assert(s =~= before + (middle + after));
    if middle.len() > 0 {
        assert((middle + after)[0] == middle[0]);
        assert(trimmed_start(middle + after) == middle + after);
        trim_end_drops(middle, after);
        assert(trimmed_end(middle) == middle);
    } else {
        assert(middle + after =~= after + Seq::<char>::empty());
        trim_start_drops(after, Seq::<char>::empty());
        assert(middle =~= Seq::<char>::empty());
    }
}

proof fn trim_start_drops(blank: Seq<char>, s: Seq<char>)
    requires
        forall|i: int| 0 <= i < blank.len() ==> whitespace(#[trigger] blank[i]),
    ensures
        trimmed_start(blank + s) == trimmed_start(s),
    decreases blank.len(),
{
    if blank.len() == 0 {
        assert(blank + s =~= s);
    } else {
        let rest = blank.drop_first();
        assert forall|i: int| 0 <= i < rest.len() implies whitespace(#[trigger] rest[i]) by {
            assert(rest[i] == blank[i + 1]);
        }
        trim_start_drops(rest, s);
        assert((blank + s)[0] == blank[0]);
        assert((blank + s).drop_first() =~= rest + s);
    }
}

proof fn trim_end_drops(s: Seq<char>, blank: Seq<char>)
    requires
        forall|i: int| 0 <= i < blank.len() ==> whitespace(#[trigger] blank[i]),
    ensures
        trimmed_end(s + blank) == trimmed_end(s),
    decreases blank.len(),
{
    if blank.len() == 0 {
        assert(s + blank =~= s);
    } else {
        let rest = blank.drop_last();
        assert forall|i: int| 0 <= i < rest.len() implies whitespace(#[trigger] rest[i]) by {
            assert(rest[i] == blank[i]);
        }
        trim_end_drops(s, rest);
        assert((s + blank).last() == blank[blank.len() - 1]);
        assert((s + blank).drop_last() =~= s + rest);
    }
}

/// Removing a prefix undoes putting it in front, and fails only where it is not
/// there.
pub proof fn law_prefix_is_removed(s: Seq<char>, prefix: Seq<char>)
    ensures
        without_prefix(prefix + s, prefix) == Some(s),
        without_prefix(s, prefix) matches Some(rest) ==> prefix + rest == s,
        without_prefix(s, prefix) is None ==> forall|rest: Seq<char>| prefix + rest != s,
{
    assert(prefix =~= (prefix + s).subrange(0, prefix.len() as int));
    assert((prefix + s).skip(prefix.len() as int) =~= s);
    if without_prefix(s, prefix) is Some {
        assert(prefix + s.skip(prefix.len() as int) =~= s);
    } else {
        assert forall|rest: Seq<char>| prefix + rest != s by {
            assert(prefix =~= (prefix + rest).subrange(0, prefix.len() as int));
        }
    }
}

proof fn length_before_found(before: Seq<char>, c: char, after: Seq<char>)
    requires
        !before.contains(c),
    ensures
        length_before(before + seq![c] + after, c) == before.len(),
        length_before(before, c) == before.len(),
{
    let s = before + seq![c] + after;
    length_before_is_first(s, c);
    length_before_is_first(before, c);
    let n = length_before(s, c);
    assert(s[before.len() as int] == c);
    assert forall|i: int| 0 <= i < before.len() implies s[i] != c by {
        assert(s[i] == before[i]);
        assert(before.contains(before[i]));
    }
    if length_before(before, c) < before.len() {
        assert(before.contains(before[length_before(before, c)]));
    }
}

/// A text whose first line ends with `\n` has that line, without a `\r` at its
/// end, before the lines of what follows; a text without `\n` is one line.
pub proof fn law_lines_end_at_newlines(line: Seq<char>, rest: Seq<char>)
    requires
        !line.contains('\n'),
    ensures
        lines_of(line + seq!['\n'] + rest) == seq![
            if line.len() > 0 && line.last() == '\r' {
                line.drop_last()
            } else {
                line
            },
        ] + lines_of(rest),
        line.len() > 0 ==> lines_of(line) == seq![line],
        lines_of(Seq::empty()) == Seq::<Seq<char>>::empty(),
{
    let s = line + seq!['\n'] + rest;
    length_before_found(line, '\n', rest);
    assert(s.take(line.len() as int) =~= line);
    assert(s.skip(line.len() as int + 1) =~= rest);
}

/// A text that starts with a run of characters that are not whitespace, up to
/// whitespace or the end, has that run as its first word; whitespace in front of
/// a text changes no word.
pub proof fn law_words_end_at_whitespace(word: Seq<char>, c: char, rest: Seq<char>)
    requires
        forall|i: int| 0 <= i < word.len() ==> !whitespace(#[trigger] word[i]),
        whitespace(c),
    ensures
        word.len() > 0 ==> words_of(word + seq![c] + rest) == seq![word] + words_of(rest),
        word.len() > 0 ==> words_of(word) == seq![word],
        words_of(seq![c] + rest) == words_of(rest),
        words_of(Seq::empty()) == Seq::<Seq<char>>::empty(),
{
    assert((seq![c] + rest)[0] == c);
    assert((seq![c] + rest).drop_first() =~= rest);
    assert(words_of(seq![c] + rest) == words_of(rest));
    if word.len() > 0 {
        let s = word + seq![c] + rest;
        word_length_found(word, seq![c] + rest);
        assert(s =~= word + (seq![c] + rest));
        assert(s[0] == word[0]);
        assert(s.take(word.len() as int) =~= word);
        assert(s.skip(word.len() as int) =~= seq![c] + rest);
        word_length_found(word, Seq::empty());
        assert(word + Seq::<char>::empty() =~= word);
        assert(word.take(word.len() as int) =~= word);
        assert(words_of(word.skip(word.len() as int)) =~= Seq::<Seq<char>>::empty());
        assert(words_of(word) =~= seq![word]);
    }
}

proof fn word_length_found(word: Seq<char>, rest: Seq<char>)
    requires
        forall|i: int| 0 <= i < word.len() ==> !whitespace(#[trigger] word[i]),
        rest.len() > 0 ==> whitespace(rest[0]),
    ensures
        word_length(word + rest) == word.len(),
    decreases word.len(),
{
    if word.len() == 0 {
        assert(word + rest =~= rest);
    } else {
        let tail = word.drop_first();
        assert forall|i: int| 0 <= i < tail.len() implies !whitespace(#[trigger] tail[i]) by {
            assert(tail[i] == word[i + 1]);
        }
        word_length_found(tail, rest);
        assert((word + rest)[0] == word[0]);
        assert((word + rest).drop_first() =~= tail + rest);
    }
}

/// The second field is what stands between the first separator and the next, or
/// the end; without a separator there is none.
pub proof fn law_second_field_is_between_separators(
    first: Seq<char>,
    second: Seq<char>,
    separator: char,
    rest: Seq<char>,
)
    requires
        !first.contains(separator),
        !second.contains(separator),
    ensures
        second_field_of(first, separator) is None,
        second_field_of(first + seq![separator] + second, separator) == Some(second),
        second_field_of(
            first + seq![separator] + (second + seq![separator] + rest),
            separator,
        ) == Some(second),
{
    length_before_found(first, separator, second);
    length_before_found(second, separator, rest);
    let n = first.len() as int;
    let two = first + seq![separator] + second;
    assert(two.skip(n + 1) =~= second);
    assert(second.take(second.len() as int) =~= second);
    let tail = second + seq![separator] + rest;
    length_before_found(first, separator, tail);
    let three = first + seq![separator] + tail;
    assert(three.skip(n + 1) =~= tail);
    assert(tail.take(second.len() as int) =~= second);
}

/// Joining one part gives it, and joining more puts the separator between
/// neighbours, once.
pub proof fn law_joining_separates_neighbours(
    parts: Seq<Seq<char>>,
    part: Seq<char>,
    separator: Seq<char>,
)
    ensures
        joined(seq![part], separator) == part,
        parts.len() > 0 ==> joined(parts.push(part), separator) == joined(parts, separator)
            + separator + part,
        joined(Seq::empty(), separator) == Seq::<char>::empty(),
{
    assert(parts.push(part).drop_last() =~= parts);
}

/// The digits are the ten decimal ones and then the letters from `a` to `f`.
pub proof fn law_digits(d: nat)
    requires
        d < 16,
    ensures
        digit(d) == "0123456789abcdef"@[d as int],
{
    reveal_strlit("0123456789abcdef");
}

/// A numeral is that of the number without its last digit, followed by that
/// digit; it never starts with a zero but for the number zero.
pub proof fn law_numerals_grow_by_digits(n: nat, d: nat)
    requires
        n > 0,
        d < 16,
    ensures
        hexadecimal(n * 16 + d) == hexadecimal(n).push("0123456789abcdef"@[d as int]),
        hexadecimal(d) == seq!["0123456789abcdef"@[d as int]],
        d < 10 ==> decimal(n * 10 + d) == decimal(n).push("0123456789abcdef"@[d as int]),
        d < 10 ==> decimal(d) == seq!["0123456789abcdef"@[d as int]],
{
    law_digits(d);
    assert((n * 16 + d) / 16 == n && (n * 16 + d) % 16 == d);
    if d < 10 {
        assert((n * 10 + d) / 10 == n && (n * 10 + d) % 10 == d);
    }
}

/// A text is read as a number exactly where it is one or more digits, after a
/// plus sign or none, and the value fits; each further digit counts once while
/// what stood before counts ten times.
pub proof fn law_numbers_are_read_digit_by_digit(digits: Seq<char>, c: char)
    ensures
        '0' <= c <= '9' ==> number(digits.push(c)) == number(digits) * 10 + (c as int - '0' as int),
        number(Seq::empty()) == 0,
        (digits.len() > 0 && (forall|i: int| 0 <= i < digits.len() ==> '0' <= #[trigger] digits[i]
            <= '9')) ==> {
            &&& parsed_u16(digits) == (if number(digits) < 65536 {
                Some(number(digits) as u16)
            } else {
                None
            })
            &&& parsed_u16(seq!['+'] + digits) == parsed_u16(digits)
        },
        parsed_u16(Seq::empty()) is None,
        parsed_u16(seq!['+']) is None,
        !('0' <= c <= '9') ==> parsed_u16(digits.push(c)) is None,
{
    assert(digits.push(c).drop_last() =~= digits);
    assert((seq!['+'] + digits).skip(1) =~= digits);
    assert(seq!['+'].skip(1).len() == 0);
    let s = digits.push(c);
    if !('0' <= c <= '9') {
        if s[0] == '+' {
            if s.len() > 1 {
                assert(s.skip(1)[s.len() - 2] == c);
            }
        } else {
            assert(s[s.len() - 1] == c);
        }
    }
}

/// Every call splits, trims, joins, prints and reads text as it should.
pub proof fn law_calls_work_on_text(
    chars: &[char],
    piece: &[char],
    text: &str,
    c: char,
    parts: Vec<Vec<char>>,
    field: Option<&[char]>,
    strings: &[String],
    joined_text: String,
    number_read: Option<u16>,
)
    ensures
        call_ensures(trim, (chars,), piece) ==> piece@ == trimmed(chars@),
        call_ensures(lines, (chars,), parts) ==> contents(parts@) == lines_of(chars@),
        call_ensures(words, (chars,), parts) ==> contents(parts@) == words_of(chars@),
        call_ensures(second_field, (chars, c), field) ==> (match field {
            Some(f) => second_field_of(chars@, c) == Some(f@),
            None => second_field_of(chars@, c) is None,
        }),
        call_ensures(strip_prefix, (chars, text), field) ==> (match field {
            Some(f) => text@ + f@ == chars@,
            None => !text@.is_prefix_of(chars@),
        }),
        call_ensures(join, (strings, text), joined_text) ==> joined_text@ == joined(
            texts(strings@),
            text@,
        ),
        call_ensures(parse_u16, (chars,), number_read) ==> number_read == parsed_u16(chars@),
{
    law_prefix_is_removed(chars@, text@);
}

/// Numbers are printed behind what was printed before, on every call.
pub proof fn law_calls_print_numbers(out: &mut String, n: u64)
    ensures
        call_ensures(push_decimal, (out, n), ()) ==> final(out)@ == old(out)@ + decimal(n as nat),
        call_ensures(push_hexadecimal, (out, n), ()) ==> final(out)@ == old(out)@ + hexadecimal(
            n as nat,
        ),
{
}

/// Blanks, tabs and the ends of lines separate, in ASCII, and no other character
/// that can be seen does; the separators beyond ASCII are those of Unicode.
pub proof fn law_separators(c: char)
    ensures
        c == ' ' || c == '\t' || c == '\n' || c == '\r' ==> whitespace(c),
        '!' <= c <= '~' ==> !whitespace(c),
        c < '\t' ==> !whitespace(c),
        '\u{e}' <= c <= '\u{1f}' ==> !whitespace(c),
        '\u{2000}' <= c <= '\u{200a}' ==> whitespace(c),
        c == '\u{b}' || c == '\u{c}' || c == '\u{85}' || c == '\u{a0}' || c == '\u{1680}' || c
            == '\u{2028}' || c == '\u{2029}' || c == '\u{202f}' || c == '\u{205f}' || c
            == '\u{3000}' ==> whitespace(c),
        c > '\u{3000}' ==> !whitespace(c),
{
}

/// Text is copied, put together, compared and searched as it should be on every
/// call; a match is the first one.
pub proof fn law_calls_find_text(
    text: &str,
    other: &str,
    chars: &[char],
    piece: &[char],
    copy: Vec<char>,
    made: String,
    c: char,
    answer: bool,
    place: Option<usize>,
    n: usize,
)
    ensures
        call_ensures(to_chars, (text,), copy) ==> copy@ == text@,
        call_ensures(to_text, (chars,), made) ==> made@ == chars@,
        call_ensures(to_vec, (chars,), copy) ==> copy@ == chars@,
        call_ensures(concatenated, (text, other), made) ==> made@ == text@ + other@,
        call_ensures(same_text, (chars, text), answer) ==> (answer <==> chars@ == text@),
        call_ensures(is_whitespace, (c,), answer) ==> answer == whitespace(c),
        call_ensures(starts_with, (chars, piece), answer) ==> (answer <==> piece@.is_prefix_of(
            chars@,
        )),
        call_ensures(find, (chars, text), place) ==> {
            &&& place is Some ==> place->0 + text@.len() <= chars@.len() && chars@.subrange(
                place->0 as int,
                place->0 + text@.len(),
            ) == text@
            &&& forall|i: int|
                0 <= i <= chars@.len() - text@.len() && (place is Some ==> i < place->0)
                    ==> #[trigger] chars@.subrange(i, i + text@.len()) != text@
        },
        call_ensures(count_before, (chars, c), n) ==> {
            &&& n <= chars@.len()
            &&& forall|i: int| 0 <= i < n ==> #[trigger] chars@[i] != c
            &&& n < chars@.len() ==> chars@[n as int] == c
        },
{
    if call_ensures(find, (chars, text), place) {
        first_match_is_first(chars@, text@);
    }
    if call_ensures(count_before, (chars, c), n) {
        length_before_is_first(chars@, c);
    }
}

} // verus!
