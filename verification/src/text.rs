//! Text primitives shared by every part of the runtime.
//!
//! A text is modelled by its sequence of characters. The functions here mirror the familiar
//! string operations (trimming, case folding, splitting, searching), each with an exact contract.

use vstd::prelude::*;

verus! {

/// `String::push` of the standard library: appends one character to the end of the string.
pub assume_specification[ String::push ](s: &mut String, ch: char)
    ensures
        final(s)@ == old(s)@.push(ch),
;

/// The texts held by a list of strings.
pub open spec fn texts(list: Seq<String>) -> Seq<Seq<char>> {
    list.map_values(|s: String| s@)
}

/// The text held by an optional string.
pub open spec fn opt_text(value: Option<String>) -> Option<Seq<char>> {
    match value {
        Some(s) => Some(s@),
        None => None,
    }
}

/// A text, or a stand-in where there is none.
pub open spec fn text_or(value: Option<Seq<char>>, stand_in: Seq<char>) -> Seq<char> {
    match value {
        Some(inner) => inner,
        None => stand_in,
    }
}

/// The text held by an optional string slice.
pub open spec fn opt_str(value: Option<&str>) -> Option<Seq<char>> {
    match value {
        Some(s) => Some(s@),
        None => None,
    }
}

/// The Unicode `White_Space` property.
pub open spec fn is_white_space(c: char) -> bool {
    let u = c as u32;
    ||| 0x09 <= u <= 0x0d
    ||| u == 0x20
    ||| u == 0x85
    ||| u == 0xa0
    ||| u == 0x1680
    ||| 0x2000 <= u <= 0x200a
    ||| u == 0x2028
    ||| u == 0x2029
    ||| u == 0x202f
    ||| u == 0x205f
    ||| u == 0x3000
}

/// A text without its leading white space.
pub open spec fn trim_start(s: Seq<char>) -> Seq<char>
    decreases s.len(),
{
    if s.len() > 0 && is_white_space(s[0]) {
        trim_start(s.drop_first())
    } else {
        s
    }
}

/// A text without its trailing white space.
pub open spec fn trim_end(s: Seq<char>) -> Seq<char>
    decreases s.len(),
{
    if s.len() > 0 && is_white_space(s.last()) {
        trim_end(s.drop_last())
    } else {
        s
    }
}

/// A text without its leading and trailing white space.
pub open spec fn trim(s: Seq<char>) -> Seq<char> {
    trim_end(trim_start(s))
}

/// Trimming changes nothing where there is nothing left to trim.
pub proof fn trimming_twice_changes_nothing(s: Seq<char>)
    ensures
        trim(trim(s)) == trim(s),
{
    lemma_trim_start_is_done(s);
    let head = trim_start(s);
    lemma_trim_end_keeps_the_start(head);
    lemma_trim_end_is_done(head);
    let body = trim_end(head);
    assert(trim_start(body) == body);
}

/// A text with no white space at either end is kept as it is.
pub proof fn trimming_keeps_what_has_no_margin(s: Seq<char>)
    requires
        s.len() > 0 ==> !is_white_space(s[0]) && !is_white_space(s.last()),
    ensures
        trim(s) == s,
{
}

/// What is trimmed at the start begins with no white space.
proof fn lemma_trim_start_is_done(s: Seq<char>)
    ensures
        trim_start(s).len() > 0 ==> !is_white_space(trim_start(s)[0]),
    decreases s.len(),
{
    if s.len() > 0 && is_white_space(s[0]) {
        lemma_trim_start_is_done(s.drop_first());
    }
}

/// What is trimmed at the end needs no more of it.
proof fn lemma_trim_end_is_done(s: Seq<char>)
    ensures
        trim_end(trim_end(s)) == trim_end(s),
    decreases s.len(),
{
    if s.len() > 0 && is_white_space(s.last()) {
        lemma_trim_end_is_done(s.drop_last());
    }
}

/// Trimming at the end keeps the first character, unless nothing is left.
proof fn lemma_trim_end_keeps_the_start(s: Seq<char>)
    ensures
        trim_end(s).len() > 0 ==> s.len() > 0 && trim_end(s)[0] == s[0],
    decreases s.len(),
{
    if s.len() > 0 && is_white_space(s.last()) {
        lemma_trim_end_keeps_the_start(s.drop_last());
    }
}

/// A character with ASCII capitals folded to lower case.
pub open spec fn ascii_lower(c: char) -> char {
    if 'A' <= c && c <= 'Z' {
        ((c as u32) + 32) as char
    } else {
        c
    }
}

/// A text with ASCII capitals folded to lower case.
pub open spec fn lower(s: Seq<char>) -> Seq<char> {
    s.map_values(|c: char| ascii_lower(c))
}

/// `needle` stands in `s` at position `at`.
pub open spec fn occurs_at(s: Seq<char>, needle: Seq<char>, at: int) -> bool {
    &&& 0 <= at
    &&& at + needle.len() <= s.len()
    &&& s.subrange(at, at + needle.len()) == needle
}

/// `needle` stands somewhere in `s`.
pub open spec fn contains_text(s: Seq<char>, needle: Seq<char>) -> bool {
    exists|at: int| occurs_at(s, needle, at)
}

/// The characters of a text as a vector.
pub fn chars_of(s: &str) -> (out: Vec<char>)
    ensures
        out@ == s@,
{
    let mut out: Vec<char> = Vec::new();
    for c in it: s.chars()
        invariant
            it.seq() == s@,
            out@ == s@.take(it.index() as int),
    {
        out.push(c);
        assert(s@.take(it.index() + 1) == s@.take(it.index() as int).push(c));
    }
    assert(s@.take(s@.len() as int) == s@);
    out
}

/// The string made of the characters at positions `from` up to, not including, `to`.
pub fn string_between(chars: &Vec<char>, from: usize, to: usize) -> (out: String)
    requires
        from <= to <= chars.len(),
    ensures
        out@ == chars@.subrange(from as int, to as int),
{
    let mut out = String::new();
    let mut i: usize = from;
    while i < to
        invariant
            from <= i <= to <= chars.len(),
            out@ == chars@.subrange(from as int, i as int),
        decreases to - i,
    {
        out.push(chars[i]);
        i = i + 1;
        assert(chars@.subrange(from as int, i as int) == chars@.subrange(
            from as int,
            i - 1,
        ).push(chars@[i - 1]));
    }
    out
}

/// Whether two texts are the same.
pub fn text_eq(a: &str, b: &str) -> (same: bool)
    ensures
        same == (a@ == b@),
{
    a.to_owned() == b.to_owned()
}

/// Whether a character is white space.
pub fn is_space(c: char) -> (space: bool)
    ensures
        space == is_white_space(c),
{
    let u: u32 = c as u32;
    (0x09 <= u && u <= 0x0d) || u == 0x20 || u == 0x85 || u == 0xa0 || u == 0x1680 || (0x2000 <= u
        && u <= 0x200a) || u == 0x2028 || u == 0x2029 || u == 0x202f || u == 0x205f || u == 0x3000
}

/// A text without its leading and trailing white space.
pub fn trimmed_text(s: &str) -> (out: String)
    ensures
        out@ == trim(s@),
{
    let chars = chars_of(s);
    let (from, to) = trim_bounds(&chars, 0, chars.len());
    assert(chars@.subrange(0, chars.len() as int) == s@);
    string_between(&chars, from, to)
}

/// The bounds of the trimmed text that stands between `from` and `to`.
pub fn trim_bounds(chars: &Vec<char>, from: usize, to: usize) -> (out: (usize, usize))
    requires
        from <= to <= chars.len(),
    ensures
        from <= out.0 <= out.1 <= to,
        chars@.subrange(out.0 as int, out.1 as int) == trim(
            chars@.subrange(from as int, to as int),
        ),
{
    let ghost all = chars@.subrange(from as int, to as int);
    let mut i: usize = from;
    while i < to && is_space(chars[i])
        invariant
            from <= i <= to <= chars.len(),
            all == chars@.subrange(from as int, to as int),
            trim_start(all) == trim_start(chars@.subrange(i as int, to as int)),
        decreases to - i,
    {
        let ghost here = chars@.subrange(i as int, to as int);
        assert(here[0] == chars@[i as int]);
        assert(here.drop_first() == chars@.subrange(i + 1, to as int));
        i = i + 1;
    }
    let ghost head = chars@.subrange(i as int, to as int);
    assert(trim_start(head) == head) by {
        if head.len() > 0 {
            assert(head[0] == chars@[i as int]);
        }
    }
    let mut j: usize = to;
    while j > i && is_space(chars[j - 1])
        invariant
            i <= j <= to <= chars.len(),
            trim_end(head) == trim_end(chars@.subrange(i as int, j as int)),
        decreases j,
    {
        let ghost here = chars@.subrange(i as int, j as int);
        assert(here.last() == chars@[j - 1]);
        assert(here.drop_last() == chars@.subrange(i as int, j - 1));
        j = j - 1;
    }
    assert(trim_end(chars@.subrange(i as int, j as int)) == chars@.subrange(i as int, j as int)) by {
        if j > i {
            assert(chars@.subrange(i as int, j as int).last() == chars@[j - 1]);
        }
    }
    (i, j)
}

/// A text without its trailing white space.
pub fn trimmed_end(s: &str) -> (out: String)
    ensures
        out@ == trim_end(s@),
{
    let chars = chars_of(s);
    let mut j: usize = chars.len();
    assert(chars@.subrange(0, j as int) == s@);
    while j > 0 && is_space(chars[j - 1])
        invariant
            j <= chars.len(),
            chars@ == s@,
            trim_end(s@) == trim_end(chars@.subrange(0, j as int)),
        decreases j,
    {
        let ghost here = chars@.subrange(0, j as int);
        assert(here.last() == chars@[j - 1]);
        assert(here.drop_last() == chars@.subrange(0, j - 1));
        j = j - 1;
    }
    assert(trim_end(chars@.subrange(0, j as int)) == chars@.subrange(0, j as int)) by {
        if j > 0 {
            assert(chars@.subrange(0, j as int).last() == chars@[j - 1]);
        }
    }
    string_between(&chars, 0, j)
}

/// A text with ASCII capitals folded to lower case.
pub fn lowered(s: &str) -> (out: String)
    ensures
        out@ == lower(s@),
{
    let mut out = String::new();
    for c in it: s.chars()
        invariant
            it.seq() == s@,
            out@ == lower(s@.take(it.index() as int)),
    {
        let folded = if 'A' <= c && c <= 'Z' {
            fold_capital(c)
        } else {
            c
        };
        out.push(folded);
        assert(lower(s@.take(it.index() + 1)) == lower(s@.take(it.index() as int)).push(folded));
    }
    assert(s@.take(s@.len() as int) == s@);
    out
}

/// The lower-case form of an ASCII capital.
fn fold_capital(c: char) -> (out: char)
    requires
        'A' <= c && c <= 'Z',
    ensures
        out == ascii_lower(c),
{
    ((c as u8) + 32) as char
}

/// Whether `needle` stands in the characters at position `at`.
fn found_at(chars: &Vec<char>, needle: &Vec<char>, at: usize) -> (found: bool)
    ensures
        found == occurs_at(chars@, needle@, at as int),
{
    if at > chars.len() || chars.len() - at < needle.len() {
        return false;
    }
    let mut i: usize = 0;
    while i < needle.len()
        invariant
            i <= needle.len(),
            at + needle.len() <= chars.len(),
            forall|k: int| 0 <= k < i ==> chars@[at + k] == needle@[k],
        decreases needle.len() - i,
    {
        if chars[at + i] != needle[i] {
            assert(chars@.subrange(at as int, at + needle.len())[i as int] != needle@[i as int]);
            return false;
        }
        i = i + 1;
    }
    assert(chars@.subrange(at as int, at + needle.len()) == needle@);
    true
}

/// Whether a text begins with `prefix`.
pub fn begins_with(s: &str, prefix: &str) -> (yes: bool)
    ensures
        yes == prefix@.is_prefix_of(s@),
{
    let chars = chars_of(s);
    let needle = chars_of(prefix);
    found_at(&chars, &needle, 0)
}

/// Whether `needle` stands somewhere in a text.
pub fn has_text(s: &str, needle: &str) -> (yes: bool)
    ensures
        yes == contains_text(s@, needle@),
{
    let chars = chars_of(s);
    let part = chars_of(needle);
    let mut at: usize = 0;
    while at < chars.len()
        invariant
            at <= chars.len(),
            chars@ == s@,
            part@ == needle@,
            forall|k: int| 0 <= k < at ==> !occurs_at(s@, needle@, k),
        decreases chars.len() - at,
    {
        if found_at(&chars, &part, at) {
            return true;
        }
        at = at + 1;
    }
    found_at(&chars, &part, at)
}

/// What follows `prefix`, if the text begins with it.
pub fn without_prefix(s: &str, prefix: &str) -> (rest: Option<String>)
    ensures
        opt_text(rest) == (if prefix@.is_prefix_of(s@) {
            Some(s@.skip(prefix@.len() as int))
        } else {
            None
        }),
{
    let chars = chars_of(s);
    let needle = chars_of(prefix);
    if found_at(&chars, &needle, 0) {
        let rest = string_between(&chars, needle.len(), chars.len());
        assert(rest@ == s@.skip(prefix@.len() as int));
        Some(rest)
    } else {
        None
    }
}

/// The pieces of a text between the occurrences of a separator. There is always at least one.
pub open spec fn split_on(s: Seq<char>, sep: char) -> Seq<Seq<char>>
    decreases s.len(),
{
    if s.len() == 0 {
        seq![Seq::<char>::empty()]
    } else {
        let before = split_on(s.drop_last(), sep);
        if s.last() == sep {
            before.push(Seq::<char>::empty())
        } else {
            before.drop_last().push(before.last().push(s.last()))
        }
    }
}

/// A line without the carriage return that may end it.
pub open spec fn without_carriage_return(line: Seq<char>) -> Seq<char> {
    if line.len() > 0 && line.last() == '\r' {
        line.drop_last()
    } else {
        line
    }
}

/// The lines of a text. A line ends with a line feed, or a carriage return and a line feed;
/// the last line may lack its ending, and then it is kept as it is unless it is empty.
pub open spec fn lines_of(s: Seq<char>) -> Seq<Seq<char>> {
    let pieces = split_on(s, '\n');
    let ended = pieces.drop_last().map_values(|line: Seq<char>| without_carriage_return(line));
    if pieces.last().len() == 0 {
        ended
    } else {
        ended.push(pieces.last())
    }
}

/// A separated text always has a first piece.
pub proof fn lemma_split_has_piece(s: Seq<char>, sep: char)
    ensures
        split_on(s, sep).len() >= 1,
    decreases s.len(),
{
    if s.len() > 0 {
        lemma_split_has_piece(s.drop_last(), sep);
    }
}

/// The pieces of a text between the occurrences of a separator.
pub fn split_text(s: &str, sep: char) -> (out: Vec<String>)
    ensures
        texts(out@) == split_on(s@, sep),
{
    let mut out: Vec<String> = Vec::new();
    let mut piece = String::new();
    assert(s@.take(0) == Seq::<char>::empty());
    assert(texts(out@).push(piece@) == split_on(s@.take(0), sep));
    for c in it: s.chars()
        invariant
            it.seq() == s@,
            texts(out@).push(piece@) == split_on(s@.take(it.index() as int), sep),
    {
        let ghost done = texts(out@).push(piece@);
        let ghost next = s@.take(it.index() + 1);
        assert(next.drop_last() == s@.take(it.index() as int));
        assert(next.last() == c);
        assert(done.drop_last() == texts(out@));
        assert(done.last() == piece@);
        if c == sep {
            out.push(piece);
            piece = String::new();
            assert(texts(out@) == done);
        } else {
            piece.push(c);
        }
        assert(texts(out@).push(piece@) == split_on(next, sep));
    }
    assert(s@.take(s@.len() as int) == s@);
    let ghost done = texts(out@).push(piece@);
    out.push(piece);
    assert(texts(out@) == done);
    out
}

/// The lines of a text.
pub fn text_lines(s: &str) -> (out: Vec<String>)
    ensures
        texts(out@) == lines_of(s@),
{
    let pieces = split_text(s, '\n');
    proof {
        lemma_split_has_piece(s@, '\n');
    }
    let ghost parts = split_on(s@, '\n');
    assert(pieces.len() == parts.len());
    let last: usize = pieces.len() - 1;
    let mut out: Vec<String> = Vec::new();
    let mut i: usize = 0;
    while i < last
        invariant
            i <= last,
            last + 1 == pieces.len(),
            texts(pieces@) == parts,
            texts(out@) == parts.take(i as int).map_values(
                |line: Seq<char>| without_carriage_return(line),
            ),
        decreases last - i,
    {
        let line = chomped(&pieces[i]);
        assert(texts(pieces@)[i as int] == pieces@[i as int]@);
        push_text(&mut out, line);
        assert(parts.take(i + 1) == parts.take(i as int).push(parts[i as int]));
        i = i + 1;
        assert(texts(out@) =~= parts.take(i as int).map_values(
            |line: Seq<char>| without_carriage_return(line),
        ));
    }
    assert(parts.take(last as int) == parts.drop_last());
    assert(texts(pieces@)[last as int] == pieces@[last as int]@);
    if !pieces[last].as_str().is_empty() {
        let ghost before = texts(out@);
        out.push(pieces[last].clone());
        assert(texts(out@) == before.push(pieces@[last as int]@));
    }
    out
}

/// A line without the carriage return that may end it.
fn chomped(line: &str) -> (out: String)
    ensures
        out@ == without_carriage_return(line@),
{
    let chars = chars_of(line);
    if chars.len() > 0 && chars[chars.len() - 1] == '\r' {
        let out = string_between(&chars, 0, chars.len() - 1);
        assert(out@ == line@.drop_last());
        out
    } else {
        line.to_owned()
    }
}

/// The character of a decimal digit.
pub open spec fn digit_char(d: nat) -> char {
    (48 + d) as char
}

/// A number in decimal digits, without leading zeros.
pub open spec fn decimal(n: nat) -> Seq<char>
    decreases n,
{
    if n < 10 {
        seq![digit_char(n)]
    } else {
        decimal(n / 10).push(digit_char(n % 10))
    }
}

/// A truth value in words.
pub open spec fn bool_text(b: bool) -> Seq<char> {
    if b {
        "true"@
    } else {
        "false"@
    }
}

/// A number in decimal digits.
pub fn decimal_text(n: u64) -> (out: String)
    ensures
        out@ == decimal(n as nat),
    decreases n,
{
    let digit: char = (48u8 + (n % 10) as u8) as char;
    if n < 10 {
        let mut out = String::new();
        out.push(digit);
        assert(out@ == seq![digit_char(n as nat)]);
        out
    } else {
        let mut out = decimal_text(n / 10);
        out.push(digit);
        out
    }
}

/// A length in decimal digits.
pub fn count_text(n: usize) -> (out: String)
    ensures
        out@ == decimal(n as nat),
{
    decimal_text(n as u64)
}

/// A truth value in words.
pub fn flag_text(b: bool) -> (out: &'static str)
    ensures
        out@ == bool_text(b),
{
    if b {
        "true"
    } else {
        "false"
    }
}

/// A decimal digit.
pub open spec fn is_digit(c: char) -> bool {
    '0' <= c && c <= '9'
}

/// The number that a run of decimal digits denotes.
pub open spec fn digits_value(s: Seq<char>) -> nat
    decreases s.len(),
{
    if s.len() == 0 {
        0
    } else {
        digits_value(s.drop_last()) * 10 + ((s.last() as nat) - 48) as nat
    }
}

/// A text without the plus sign that may begin it.
pub open spec fn without_plus(s: Seq<char>) -> Seq<char> {
    if s.len() > 0 && s[0] == '+' {
        s.skip(1)
    } else {
        s
    }
}

/// The unsigned 64-bit number that a text denotes: decimal digits, perhaps after a plus sign.
pub open spec fn parsed_u64(s: Seq<char>) -> Option<u64> {
    let body = without_plus(s);
    if body.len() > 0 && (forall|i: int| 0 <= i < body.len() ==> is_digit(#[trigger] body[i]))
        && digits_value(body) <= u64::MAX {
        Some(digits_value(body) as u64)
    } else {
        None
    }
}

/// A longer run of digits denotes a number at least as large.
proof fn lemma_digits_value_grows(s: Seq<char>, i: int)
    requires
        0 <= i <= s.len(),
    ensures
        digits_value(s.take(i)) <= digits_value(s),
    decreases s.len() - i,
{
    if i == s.len() {
        assert(s.take(i) == s);
    } else {
        lemma_digits_value_grows(s, i + 1);
        assert(s.take(i + 1).drop_last() == s.take(i));
    }
}

/// The unsigned 64-bit number that a text denotes, if it denotes one.
pub fn parse_u64(s: &str) -> (out: Option<u64>)
    ensures
        out == parsed_u64(s@),
{
    let chars = chars_of(s);
    let from: usize = if chars.len() > 0 && chars[0] == '+' {
        1
    } else {
        0
    };
    let ghost body = without_plus(s@);
    assert(body == s@.skip(from as int));
    if from == chars.len() {
        return None;
    }
    let mut value: u64 = 0;
    let mut i: usize = from;
    assert(body.take(0) == Seq::<char>::empty());
    while i < chars.len()
        invariant
            from <= i <= chars.len(),
            chars@ == s@,
            body == s@.skip(from as int),
            body == without_plus(s@),
            forall|k: int| 0 <= k < i - from ==> is_digit(#[trigger] body[k]),
            value as nat == digits_value(body.take(i - from)),
        decreases chars.len() - i,
    {
        let c = chars[i];
        assert(body[i - from] == c);
        if !('0' <= c && c <= '9') {
            return None;
        }
        let d: u64 = ((c as u32) - 48) as u64;
        assert(body.take(i - from + 1).drop_last() == body.take(i - from));
        assert(digits_value(body.take(i - from + 1)) == value * 10 + d);
        proof {
            lemma_digits_value_grows(body, i - from + 1);
        }
        if value > (u64::MAX - d) / 10 {
            return None;
        }
        value = value * 10 + d;
        i = i + 1;
    }
    assert(body.take(i - from) == body);
    Some(value)
}

/// `a` stands before `b` in the order of code points, letter by letter.
pub open spec fn precedes(a: Seq<char>, b: Seq<char>) -> bool
    decreases a.len(),
{
    if b.len() == 0 {
        false
    } else if a.len() == 0 {
        true
    } else if a[0] != b[0] {
        a[0] < b[0]
    } else {
        precedes(a.drop_first(), b.drop_first())
    }
}

/// Whether `a` stands before `b` in the order of code points.
pub fn text_before(a: &str, b: &str) -> (before: bool)
    ensures
        before == precedes(a@, b@),
{
    let left = chars_of(a);
    let right = chars_of(b);
    let mut i: usize = 0;
    assert(a@.skip(0) == a@);
    assert(b@.skip(0) == b@);
    while i < left.len() && i < right.len() && left[i] == right[i]
        invariant
            i <= left.len(),
            i <= right.len(),
            left@ == a@,
            right@ == b@,
            precedes(a@, b@) == precedes(a@.skip(i as int), b@.skip(i as int)),
        decreases left.len() - i,
    {
        assert(a@.skip(i as int).drop_first() == a@.skip(i + 1));
        assert(b@.skip(i as int).drop_first() == b@.skip(i + 1));
        i = i + 1;
    }
    if i >= right.len() {
        false
    } else if i >= left.len() {
        true
    } else {
        left[i] < right[i]
    }
}

/// No text stands before itself, and of two different texts exactly one stands before the other.
pub proof fn precedes_is_total(a: Seq<char>, b: Seq<char>)
    ensures
        a == b ==> !precedes(a, b),
        a != b ==> (precedes(a, b) <==> !precedes(b, a)),
    decreases a.len(),
{
    if a.len() > 0 && b.len() > 0 && a[0] == b[0] {
        precedes_is_total(a.drop_first(), b.drop_first());
        if a.drop_first() == b.drop_first() {
            assert(a == seq![a[0]] + a.drop_first());
            assert(b == seq![b[0]] + b.drop_first());
        }
    } else if a.len() == 0 && b.len() == 0 {
        assert(a == b);
    }
}

/// The order of texts is transitive.
pub proof fn precedes_is_transitive(a: Seq<char>, b: Seq<char>, c: Seq<char>)
    requires
        precedes(a, b),
        precedes(b, c),
    ensures
        precedes(a, c),
    decreases a.len(),
{
    if a.len() > 0 && b.len() > 0 && c.len() > 0 && a[0] == b[0] && b[0] == c[0] {
        precedes_is_transitive(a.drop_first(), b.drop_first(), c.drop_first());
    }
}

/// Whether a list holds a text.
pub fn list_has(list: &Vec<String>, item: &str) -> (found: bool)
    ensures
        found == texts(list@).contains(item@),
{
    let mut i: usize = 0;
    while i < list.len()
        invariant
            i <= list.len(),
            forall|k: int| 0 <= k < i ==> texts(list@)[k] != item@,
        decreases list.len() - i,
    {
        assert(texts(list@)[i as int] == list@[i as int]@);
        if text_eq(&list[i], item) {
            return true;
        }
        i = i + 1;
    }
    false
}

/// A copy of a list of strings.
pub fn copy_list(list: &Vec<String>) -> (out: Vec<String>)
    ensures
        texts(out@) == texts(list@),
{
    let mut out: Vec<String> = Vec::new();
    let mut i: usize = 0;
    while i < list.len()
        invariant
            i <= list.len(),
            texts(out@) == texts(list@).take(i as int),
        decreases list.len() - i,
    {
        let ghost before = texts(out@);
        out.push(list[i].clone());
        assert(texts(out@) == before.push(list@[i as int]@));
        i = i + 1;
        assert(texts(list@).take(i as int) == texts(list@).take(i - 1).push(texts(list@)[i - 1]));
    }
    assert(texts(list@).take(i as int) == texts(list@));
    out
}

/// A copy of an optional string.
pub fn copy_opt(value: &Option<String>) -> (out: Option<String>)
    ensures
        opt_text(out) == opt_text(*value),
{
    match value {
        Some(s) => Some(s.clone()),
        None => None,
    }
}

/// Adds a string to the end of a list.
pub fn push_text(list: &mut Vec<String>, item: String)
    ensures
        texts(final(list)@) == texts(old(list)@).push(item@),
{
    let ghost before = texts(list@);
    list.push(item);
    assert(texts(list@) == before.push(item@));
}

/// The trimmed entries of a list, without those that are blank.
pub open spec fn trimmed_entries(list: Seq<Seq<char>>) -> Seq<Seq<char>>
    decreases list.len(),
{
    if list.len() == 0 {
        Seq::empty()
    } else {
        let before = trimmed_entries(list.drop_last());
        let entry = trim(list.last());
        if entry.len() == 0 {
            before
        } else {
            before.push(entry)
        }
    }
}

/// The trimmed entries of a list, without those that are blank.
pub fn trim_entries(list: &Vec<String>) -> (out: Vec<String>)
    ensures
        texts(out@) == trimmed_entries(texts(list@)),
{
    let mut out: Vec<String> = Vec::new();
    let mut i: usize = 0;
    assert(texts(list@).take(0) == Seq::<Seq<char>>::empty());
    assert(texts(out@) == Seq::<Seq<char>>::empty());
    while i < list.len()
        invariant
            i <= list.len(),
            texts(out@) == trimmed_entries(texts(list@).take(i as int)),
        decreases list.len() - i,
    {
        let entry = trimmed_text(&list[i]);
        assert(texts(list@).take(i + 1).drop_last() == texts(list@).take(i as int));
        assert(texts(list@).take(i + 1).last() == list@[i as int]@);
        if !entry.as_str().is_empty() {
            push_text(&mut out, entry);
        }
        i = i + 1;
    }
    assert(texts(list@).take(i as int) == texts(list@));
    out
}

/// The entries of a list, one after another with a separator between them.
pub open spec fn joined(list: Seq<Seq<char>>, sep: Seq<char>) -> Seq<char>
    decreases list.len(),
{
    if list.len() == 0 {
        Seq::empty()
    } else if list.len() == 1 {
        list[0]
    } else {
        joined(list.drop_last(), sep) + sep + list.last()
    }
}

/// The entries of a list, one after another with a separator between them.
pub fn join_texts(list: &Vec<String>, sep: &str) -> (out: String)
    ensures
        out@ == joined(texts(list@), sep@),
{
    let mut out = String::new();
    let mut i: usize = 0;
    while i < list.len()
        invariant
            i <= list.len(),
            out@ == joined(texts(list@).take(i as int), sep@),
        decreases list.len() - i,
    {
        assert(texts(list@).take(i + 1).drop_last() == texts(list@).take(i as int));
        assert(texts(list@).take(i + 1).last() == list@[i as int]@);
        if i > 0 {
            out.append(sep);
        }
        out.append(&list[i]);
        assert(i == 0 ==> out@ == list@[0]@);
        i = i + 1;
    }
    assert(texts(list@).take(i as int) == texts(list@));
    out
}

/// The last position, below `upto`, at which `needle` stands in `s`.
pub open spec fn last_occurrence(s: Seq<char>, needle: Seq<char>, upto: nat) -> Option<nat>
    decreases upto,
{
    if upto == 0 {
        None
    } else if occurs_at(s, needle, upto - 1) {
        Some((upto - 1) as nat)
    } else {
        last_occurrence(s, needle, (upto - 1) as nat)
    }
}

/// What follows the last occurrence of `needle`, if there is one.
pub open spec fn after_last(s: Seq<char>, needle: Seq<char>) -> Option<Seq<char>> {
    match last_occurrence(s, needle, s.len() + 1) {
        Some(at) => Some(s.skip((at + needle.len()) as int)),
        None => None,
    }
}

/// What follows the last occurrence of `needle`, if there is one.
pub fn text_after_last(s: &str, needle: &str) -> (out: Option<String>)
    ensures
        opt_text(out) == after_last(s@, needle@),
{
    let chars = chars_of(s);
    let part = chars_of(needle);
    let mut at: usize = chars.len();
    while at > 0 && !found_at(&chars, &part, at)
        invariant
            at <= chars.len(),
            chars@ == s@,
            part@ == needle@,
            last_occurrence(s@, needle@, s@.len() + 1) == last_occurrence(
                s@,
                needle@,
                (at + 1) as nat,
            ),
        decreases at,
    {
        at = at - 1;
    }
    if found_at(&chars, &part, at) {
        let rest = string_between(&chars, at + part.len(), chars.len());
        assert(rest@ == s@.skip(at + part.len()));
        Some(rest)
    } else {
        assert(last_occurrence(s@, needle@, 1) == last_occurrence(s@, needle@, 0));
        None
    }
}

/// A text cut to a number of characters. What stands is trimmed; an ellipsis follows where the
/// text as given was longer.
pub open spec fn truncated(s: Seq<char>, max: nat) -> Seq<char> {
    let body = trim(s);
    let head = if body.len() > max {
        body.take(max as int)
    } else {
        body
    };
    if s.len() > max {
        head + "..."@
    } else {
        head
    }
}

/// A text cut to a number of characters.
pub fn truncate_text(value: &str, max_chars: usize) -> (out: String)
    ensures
        out@ == truncated(value@, max_chars as nat),
{
    let chars = chars_of(value);
    assert(chars@.subrange(0, chars.len() as int) == value@);
    let (from, to) = trim_bounds(&chars, 0, chars.len());
    let end: usize = if to - from > max_chars {
        from + max_chars
    } else {
        to
    };
    let mut out = string_between(&chars, from, end);
    let ghost body = trim(value@);
    assert(chars@.subrange(from as int, end as int) == body.take(end - from));
    assert(end == to ==> body.take(end - from) == body);
    if chars.len() > max_chars {
        out.append("...");
    }
    out
}

/// A cut text is never longer than the limit and its ellipsis.
pub proof fn truncated_length_is_bounded(s: Seq<char>, max: nat)
    ensures
        truncated(s, max).len() <= max + 3,
{
    reveal_strlit("...");
}

/// The number of bytes that a character takes in UTF-8.
pub open spec fn utf8_width(c: char) -> int {
    let u = c as u32;
    if u < 0x80 {
        1
    } else if u < 0x800 {
        2
    } else if u < 0x10000 {
        3
    } else {
        4
    }
}

/// What follows the first `n` bytes of a text, if a character begins or the text ends there.
pub open spec fn after_bytes(s: Seq<char>, n: int) -> Option<Seq<char>>
    decreases s.len(),
{
    if n == 0 {
        Some(s)
    } else if n < 0 || s.len() == 0 {
        None
    } else {
        after_bytes(s.drop_first(), n - utf8_width(s[0]))
    }
}

/// The number of bytes that a character takes in UTF-8.
fn width_of(c: char) -> (out: usize)
    ensures
        out == utf8_width(c),
{
    let u: u32 = c as u32;
    if u < 0x80 {
        1
    } else if u < 0x800 {
        2
    } else if u < 0x10000 {
        3
    } else {
        4
    }
}

/// What follows the first `n` bytes of a text, if a character begins or the text ends there.
pub fn text_after_bytes(s: &str, n: usize) -> (out: Option<String>)
    ensures
        opt_text(out) == after_bytes(s@, n as int),
{
    let chars = chars_of(s);
    let mut left: usize = n;
    let mut i: usize = 0;
    assert(s@.skip(0) == s@);
    while left > 0 && i < chars.len()
        invariant
            i <= chars.len(),
            chars@ == s@,
            after_bytes(s@, n as int) == after_bytes(s@.skip(i as int), left as int),
        decreases chars.len() - i,
    {
        let width = width_of(chars[i]);
        assert(s@.skip(i as int).drop_first() == s@.skip(i + 1));
        if width > left {
            assert(after_bytes(s@.skip(i + 1), left - width) is None);
            return None;
        }
        left = left - width;
        i = i + 1;
    }
    if left > 0 {
        None
    } else {
        let rest = string_between(&chars, i, chars.len());
        assert(rest@ == s@.skip(i as int));
        Some(rest)
    }
}

/// What a message is about, behind the message.
pub fn message_about(message: &str, subject: &str) -> (out: String)
    ensures
        out@ == message@ + subject@,
{
    let mut out = message.to_owned();
    out.append(subject);
    out
}

/// A text contains what it was put together from.
pub proof fn parts_are_contained(before: Seq<char>, part: Seq<char>, after: Seq<char>)
    ensures
        contains_text(before + part + after, part),
{
    let whole = before + part + after;
    let at = before.len() as int;
    assert(whole.subrange(at, at + part.len()) =~= part);
    assert(occurs_at(whole, part, at));
}

/// What a text contains it still contains with more behind it, and it then contains that too.
pub proof fn containing_grows(s: Seq<char>, more: Seq<char>)
    ensures
        contains_text(s + more, more),
        forall|part: Seq<char>| #[trigger] contains_text(s, part) ==> contains_text(s + more, part),
{
    parts_are_contained(s, more, Seq::empty());
    assert(s + more + Seq::<char>::empty() =~= s + more);
    assert forall|part: Seq<char>| #[trigger] contains_text(s, part) implies contains_text(
        s + more,
        part,
    ) by {
        let at = choose|at: int| occurs_at(s, part, at);
        assert((s + more).subrange(at, at + part.len()) =~= s.subrange(at, at + part.len()));
        assert(occurs_at(s + more, part, at));
    }
}

/// Trimming takes white space off both ends and nothing else.
pub proof fn trimming_takes_only_white_space(s: Seq<char>) -> (margins: (int, int))
    ensures
        0 <= margins.0 <= margins.1 <= s.len(),
        trim(s) == s.subrange(margins.0, margins.1),
        forall|i: int| 0 <= i < margins.0 ==> is_white_space(#[trigger] s[i]),
        forall|i: int| margins.1 <= i < s.len() ==> is_white_space(#[trigger] s[i]),
        trim(s).len() > 0 ==> !is_white_space(trim(s)[0]) && !is_white_space(trim(s).last()),
        trim(s).len() == 0 <==> forall|i: int|
            0 <= i < s.len() ==> is_white_space(#[trigger] s[i]),
{
    let from = lemma_start_is_white(s);
    let rest = trim_start(s);
    let upto = lemma_end_is_white(rest);
    assert(trim(s) =~= s.subrange(from, from + upto));
    assert forall|i: int| from + upto <= i < s.len() implies is_white_space(#[trigger] s[i]) by {
        assert(rest[i - from] == s[i]);
    }
    if trim(s).len() > 0 {
        assert(trim(s)[0] == rest[0]);
        assert(!is_white_space(s[from]));
        if forall|i: int| 0 <= i < s.len() ==> is_white_space(#[trigger] s[i]) {
            assert(false);
        }
    } else {
        assert(upto == 0);
        assert forall|i: int| 0 <= i < s.len() implies is_white_space(#[trigger] s[i]) by {
            if i >= from {
                assert(rest[i - from] == s[i]);
            }
        }
    }
    (from, from + upto)
}

/// What is taken off the start is white space.
proof fn lemma_start_is_white(s: Seq<char>) -> (from: int)
    ensures
        0 <= from <= s.len(),
        trim_start(s) == s.skip(from),
        forall|i: int| 0 <= i < from ==> is_white_space(#[trigger] s[i]),
        from < s.len() ==> !is_white_space(s[from]),
    decreases s.len(),
{
    if s.len() > 0 && is_white_space(s[0]) {
        let rest = s.drop_first();
        let from = lemma_start_is_white(rest);
        assert(rest.skip(from) =~= s.skip(from + 1));
        assert forall|i: int| 0 <= i < from + 1 implies is_white_space(#[trigger] s[i]) by {
            if i > 0 {
                assert(rest[i - 1] == s[i]);
            }
        }
        from + 1
    } else {
        assert(s.skip(0) =~= s);
        0
    }
}

/// What is taken off the end is white space.
proof fn lemma_end_is_white(s: Seq<char>) -> (upto: int)
    ensures
        0 <= upto <= s.len(),
        trim_end(s) == s.take(upto),
        forall|i: int| upto <= i < s.len() ==> is_white_space(#[trigger] s[i]),
        upto > 0 ==> !is_white_space(s[upto - 1]),
    decreases s.len(),
{
    if s.len() > 0 && is_white_space(s.last()) {
        let rest = s.drop_last();
        let upto = lemma_end_is_white(rest);
        assert(rest.take(upto) =~= s.take(upto));
        assert forall|i: int| upto <= i < s.len() implies is_white_space(#[trigger] s[i]) by {
            if i < rest.len() {
                assert(rest[i] == s[i]);
            }
        }
        upto
    } else {
        assert(s.take(s.len() as int) =~= s);
        s.len() as int
    }
}

/// Trimming the end of a text takes white space off it, and all of it.
pub proof fn trimming_the_end_keeps_the_start(s: Seq<char>)
    ensures
        trim_end(s).is_prefix_of(s),
        forall|i: int| trim_end(s).len() <= i < s.len() ==> is_white_space(#[trigger] s[i]),
        trim_end(s).len() > 0 ==> !is_white_space(trim_end(s).last()),
{
    let upto = lemma_end_is_white(s);
    assert(trim_end(s) == s.take(upto));
}

/// Lower case touches nothing but the capital letters of the English alphabet, and a second time
/// changes nothing.
pub proof fn lower_case_keeps_everything_else(s: Seq<char>)
    ensures
        lower(s).len() == s.len(),
        forall|i: int|
            0 <= i < s.len() ==> {
                &&& !('A' <= #[trigger] s[i] && s[i] <= 'Z') ==> lower(s)[i] == s[i]
                &&& 'A' <= s[i] && s[i] <= 'Z' ==> lower(s)[i] as int == s[i] as int + 32
            },
        lower(lower(s)) == lower(s),
{
    assert(lower(lower(s)) =~= lower(s));
}

/// Every entry that is not blank is kept, trimmed and in order, and nothing else is.
pub proof fn trimmed_entries_are_the_entries(list: Seq<Seq<char>>)
    ensures
        forall|i: int|
            0 <= i < list.len() && trim(#[trigger] list[i]).len() > 0 ==> trimmed_entries(
                list,
            ).contains(trim(list[i])),
        forall|k: int|
            0 <= k < trimmed_entries(list).len() ==> (#[trigger] trimmed_entries(list)[k]).len()
                > 0 && exists|i: int|
                0 <= i < list.len() && trim(#[trigger] list[i]) == trimmed_entries(list)[k],
        trimmed_entries(list).len() <= list.len(),
    decreases list.len(),
{
    if list.len() > 0 {
        let shorter = list.drop_last();
        let before = trimmed_entries(shorter);
        let all = trimmed_entries(list);
        trimmed_entries_are_the_entries(shorter);
        assert forall|i: int|
            0 <= i < list.len() && trim(#[trigger] list[i]).len() > 0 implies all.contains(
            trim(list[i]),
        ) by {
            if i < shorter.len() {
                assert(shorter[i] == list[i]);
                let at = choose|at: int| 0 <= at < before.len() && before[at] == trim(list[i]);
                assert(all[at] == trim(list[i]));
            } else {
                assert(all[all.len() - 1] == trim(list[i]));
            }
        }
        assert forall|k: int| 0 <= k < all.len() implies (#[trigger] all[k]).len() > 0 && exists|
            i: int,
        |
            0 <= i < list.len() && trim(#[trigger] list[i]) == all[k] by {
            if k < before.len() {
                assert(all[k] == before[k]);
                let i = choose|i: int|
                    0 <= i < shorter.len() && trim(#[trigger] shorter[i]) == before[k];
                assert(trim(list[i]) == all[k]);
            } else {
                assert(trim(list[list.len() - 1]) == all[k]);
            }
        }
    }
}

/// A further entry is put behind the others, trimmed, unless it is blank.
pub proof fn further_entries_are_put_behind(list: Seq<Seq<char>>, entry: Seq<char>)
    ensures
        trim(entry).len() > 0 ==> trimmed_entries(list.push(entry)) == trimmed_entries(list).push(
            trim(entry),
        ),
        trim(entry).len() == 0 ==> trimmed_entries(list.push(entry)) == trimmed_entries(list),
{
    assert(list.push(entry).drop_last() =~= list);
    assert(list.push(entry).last() == entry);
}

/// The pieces of a text hold no separator, and the text is their join.
pub proof fn joining_undoes_splitting(s: Seq<char>, sep: char)
    ensures
        joined(split_on(s, sep), seq![sep]) == s,
        forall|k: int|
            0 <= k < split_on(s, sep).len() ==> !(#[trigger] split_on(s, sep)[k]).contains(sep),
        split_on(s, sep).len() >= 1,
    decreases s.len(),
{
    let pieces = split_on(s, sep);
    if s.len() > 0 {
        let start = s.drop_last();
        let before = split_on(start, sep);
        joining_undoes_splitting(start, sep);
        assert(s =~= start.push(s.last()));
        if s.last() == sep {
            assert(pieces.drop_last() =~= before);
            assert(joined(pieces, seq![sep]) =~= joined(before, seq![sep]) + seq![sep]);
        } else {
            assert(pieces.drop_last() =~= before.drop_last());
            assert(pieces.last() =~= before.last().push(s.last()));
            if before.len() == 1 {
                assert(joined(before, seq![sep]) == before[0]);
                assert(joined(pieces, seq![sep]) == pieces[0]);
            } else {
                let head = joined(before.drop_last(), seq![sep]) + seq![sep];
                assert(joined(before, seq![sep]) =~= head + before.last());
                assert(joined(pieces, seq![sep]) =~= head + pieces.last());
            }
        }
        assert forall|k: int| 0 <= k < pieces.len() implies !(#[trigger] pieces[k]).contains(
            sep,
        ) by {
            if k < pieces.len() - 1 {
                assert(pieces[k] == before[k]);
            } else if s.last() != sep {
                let last = before[before.len() - 1];
                assert(!last.contains(sep));
                if pieces[k].contains(sep) {
                    let at = choose|at: int| 0 <= at < pieces[k].len() && pieces[k][at] == sep;
                    assert(last[at] == sep);
                }
            }
        }
    }
}

/// A text without the separator is one piece, and a separator parts what stands before it from what
/// stands behind it.
pub proof fn separators_part_the_text(a: Seq<char>, b: Seq<char>, sep: char)
    ensures
        !a.contains(sep) ==> split_on(a, sep) == seq![a],
        split_on(a + seq![sep] + b, sep) == split_on(a, sep) + split_on(b, sep),
    decreases a.len() + b.len(),
{
    if a.len() > 0 {
        let start = a.drop_last();
        separators_part_the_text(start, Seq::empty(), sep);
        if !a.contains(sep) {
            assert forall|i: int| 0 <= i < start.len() implies start[i] != sep by {
                assert(a[i] != sep);
            }
            assert(a[a.len() - 1] != sep);
            assert(split_on(start, sep) == seq![start]);
            assert(start.push(a.last()) =~= a);
            assert(split_on(a, sep) =~= seq![a]);
        }
    } else {
        assert(a =~= Seq::empty());
    }
    let whole = a + seq![sep] + b;
    if b.len() == 0 {
        assert(whole.drop_last() =~= a);
        assert(whole.last() == sep);
        assert(b =~= Seq::empty());
        assert(split_on(whole, sep) =~= split_on(a, sep) + split_on(b, sep));
    } else {
        let start = b.drop_last();
        lemma_split_has_piece(start, sep);
        separators_part_the_text(a, start, sep);
        assert(whole.drop_last() =~= a + seq![sep] + start);
        assert(whole.last() == b.last());
        assert(split_on(whole, sep) =~= split_on(a, sep) + split_on(b, sep));
    }
}

/// A text is read line by line: a line feed ends a line, with the carriage return before it, and
/// what has no line feed is a line unless it is empty.
pub proof fn line_feeds_end_lines(line: Seq<char>, rest: Seq<char>)
    requires
        !line.contains('\n'),
    ensures
        lines_of(line + seq!['\n'] + rest) == seq![without_carriage_return(line)] + lines_of(rest),
        line.len() > 0 ==> lines_of(line) == seq![line],
        lines_of(Seq::empty()) == Seq::<Seq<char>>::empty(),
{
    separators_part_the_text(line, rest, '\n');
    lemma_split_has_piece(rest, '\n');
    let whole = line + seq!['\n'] + rest;
    let pieces = split_on(whole, '\n');
    let tail = split_on(rest, '\n');
    assert(pieces.last() == tail.last());
    assert(lines_of(whole) =~= seq![without_carriage_return(line)] + lines_of(rest));
    assert(split_on(line, '\n') == seq![line]);
    assert(line.len() > 0 ==> lines_of(line) =~= seq![line]);
    assert(lines_of(Seq::empty()) =~= Seq::<Seq<char>>::empty());
}

/// A carriage return that ends a line is taken off, once.
pub proof fn carriage_returns_are_taken_off(line: Seq<char>)
    ensures
        without_carriage_return(line.push('\r')) == line,
        line.len() > 0 && line.last() != '\r' ==> without_carriage_return(line) == line,
{
    assert(line.push('\r').drop_last() =~= line);
}

/// Every entry of a list is found in its join, and one entry joins to itself.
pub proof fn joins_hold_every_entry(list: Seq<Seq<char>>, sep: Seq<char>)
    ensures
        forall|i: int| 0 <= i < list.len() ==> contains_text(joined(list, sep), #[trigger] list[i]),
        list.len() == 1 ==> joined(list, sep) == list[0],
        list.len() == 2 ==> joined(list, sep) == list[0] + sep + list[1],
        list.len() > 1 ==> joined(list, sep) == joined(list.drop_last(), sep) + sep + list.last(),
    decreases list.len(),
{
    let whole = joined(list, sep);
    if list.len() == 1 {
        parts_are_contained(Seq::empty(), list[0], Seq::empty());
        assert(Seq::<char>::empty() + list[0] + Seq::<char>::empty() =~= list[0]);
    } else if list.len() > 1 {
        let start = joined(list.drop_last(), sep);
        joins_hold_every_entry(list.drop_last(), sep);
        containing_grows(start, sep);
        containing_grows(start + sep, list.last());
        assert forall|i: int| 0 <= i < list.len() implies contains_text(
            whole,
            #[trigger] list[i],
        ) by {
            if i < list.len() - 1 {
                assert(list.drop_last()[i] == list[i]);
                assert(contains_text(start, list.drop_last()[i]));
                assert(contains_text(start + sep, list[i]));
            }
        }
        if list.len() == 2 {
            assert(list.drop_last()[0] == list[0]);
        }
    }
}

/// A number is read back from its digits.
pub proof fn digits_are_read_back(n: nat)
    ensures
        digits_value(decimal(n)) == n,
        decimal(n).len() > 0,
        forall|i: int| 0 <= i < decimal(n).len() ==> is_digit(#[trigger] decimal(n)[i]),
        n <= u64::MAX ==> parsed_u64(decimal(n)) == Some(n as u64),
        n <= u64::MAX ==> parsed_u64("+"@ + decimal(n)) == Some(n as u64),
    decreases n,
{
    let all = decimal(n);
    if n < 10 {
        assert(all.drop_last() =~= Seq::empty());
        assert(digits_value(all.drop_last()) == 0);
        assert(all.last() as nat == 48 + n);
    } else {
        digits_are_read_back(n / 10);
        assert(all.drop_last() =~= decimal(n / 10));
        assert(all.last() as nat == 48 + n % 10);
        assert forall|i: int| 0 <= i < all.len() implies is_digit(#[trigger] all[i]) by {
            if i < all.len() - 1 {
                assert(all[i] == decimal(n / 10)[i]);
            }
        }
    }
    assert(is_digit(all[0]));
    assert(without_plus(all) == all);
    reveal_strlit("+");
    assert(("+"@ + all)[0] == '+');
    assert(("+"@ + all).skip(1) =~= all);
}

/// A number is read from a text of digits only, and from no other text.
pub proof fn only_digits_are_numbers(s: Seq<char>, i: int)
    requires
        0 <= i < s.len(),
        !is_digit(s[i]),
        i > 0 || s[0] != '+',
    ensures
        parsed_u64(s) is None,
{
    let body = without_plus(s);
    if s[0] == '+' {
        assert(body[i - 1] == s[i]);
    } else {
        assert(body[i] == s[i]);
    }
}

/// A text that fits is only trimmed. One that does not is cut, and says so.
pub proof fn cut_texts_say_so(s: Seq<char>, max: nat)
    ensures
        s.len() <= max ==> truncated(s, max) == trim(s),
        s.len() > max ==> "..."@.is_suffix_of(truncated(s, max)),
        trim(s).len() <= max ==> trim(s).is_prefix_of(truncated(s, max)),
        trim(s).len() > max ==> truncated(s, max) == trim(s).take(max as int) + "..."@,
{
    let margins = trimming_takes_only_white_space(s);
    let out = truncated(s, max);
    if s.len() > max {
        assert(out.subrange(out.len() - "..."@.len(), out.len() as int) =~= "..."@);
    }
    if trim(s).len() <= max {
        assert(out.subrange(0, trim(s).len() as int) =~= trim(s));
    }
}

/// What follows the last occurrence follows an occurrence, and no other stands behind that.
pub proof fn the_last_occurrence_is_the_last(s: Seq<char>, needle: Seq<char>)
    ensures
        after_last(s, needle) is Some <==> contains_text(s, needle),
        after_last(s, needle) matches Some(rest) ==> {
            let at = s.len() - rest.len() - needle.len();
            &&& occurs_at(s, needle, at)
            &&& rest == s.skip(at + needle.len())
            &&& forall|later: int| later > at ==> !#[trigger] occurs_at(s, needle, later)
        },
{
    lemma_last_occurrence(s, needle, s.len() + 1);
    if let Some(at) = last_occurrence(s, needle, s.len() + 1) {
        assert(occurs_at(s, needle, at as int));
        assert forall|later: int| later > at implies !#[trigger] occurs_at(s, needle, later) by {
            if later >= s.len() + 1 {
                assert(later + needle.len() > s.len());
            }
        }
    } else {
        assert forall|at: int| !#[trigger] occurs_at(s, needle, at) by {
            if at >= s.len() + 1 {
                assert(at + needle.len() > s.len());
            }
        }
    }
}

/// The search below a bound finds the last occurrence below it.
proof fn lemma_last_occurrence(s: Seq<char>, needle: Seq<char>, upto: nat)
    ensures
        last_occurrence(s, needle, upto) matches Some(at) ==> at < upto && occurs_at(
            s,
            needle,
            at as int,
        ) && forall|later: int| at < later < upto ==> !#[trigger] occurs_at(s, needle, later),
        last_occurrence(s, needle, upto) is None ==> forall|at: int|
            0 <= at < upto ==> !#[trigger] occurs_at(s, needle, at),
    decreases upto,
{
    if upto > 0 && !occurs_at(s, needle, upto - 1) {
        lemma_last_occurrence(s, needle, (upto - 1) as nat);
    }
}

/// The bytes of a text, counted by its characters.
pub open spec fn byte_count(s: Seq<char>) -> int
    decreases s.len(),
{
    if s.len() == 0 {
        0
    } else {
        utf8_width(s[0]) + byte_count(s.drop_first())
    }
}

/// What follows a number of bytes is what is left once characters of as many bytes are taken away.
pub proof fn skipped_bytes_are_counted(start: Seq<char>, rest: Seq<char>)
    ensures
        after_bytes(start + rest, byte_count(start)) == Some(rest),
        byte_count(start) >= start.len(),
    decreases start.len(),
{
    if start.len() == 0 {
        assert(start + rest =~= rest);
    } else {
        skipped_bytes_are_counted(start.drop_first(), rest);
        assert((start + rest).drop_first() =~= start.drop_first() + rest);
    }
}

/// A text precedes what it begins, and nothing precedes itself or what precedes it.
pub proof fn beginnings_precede(a: Seq<char>, more: Seq<char>)
    ensures
        more.len() > 0 ==> precedes(a, a + more),
        !precedes(a, a),
        !precedes(a + more, a),
    decreases a.len(),
{
    if a.len() > 0 {
        beginnings_precede(a.drop_first(), more);
        assert((a + more).drop_first() =~= a.drop_first() + more);
    } else {
        assert(a + more =~= more);
    }
}

/// The first difference decides which text precedes.
pub proof fn the_first_difference_decides(
    start: Seq<char>,
    a: char,
    b: char,
    rest_a: Seq<char>,
    rest_b: Seq<char>,
)
    requires
        a < b,
    ensures
        precedes(start.push(a) + rest_a, start.push(b) + rest_b),
        !precedes(start.push(b) + rest_b, start.push(a) + rest_a),
    decreases start.len(),
{
    let low = start.push(a) + rest_a;
    let high = start.push(b) + rest_b;
    if start.len() > 0 {
        let rest = start.drop_first();
        the_first_difference_decides(rest, a, b, rest_a, rest_b);
        assert(low.drop_first() =~= rest.push(a) + rest_a);
        assert(high.drop_first() =~= rest.push(b) + rest_b);
    }
}

/// What a text is put together from begins and ends it.
pub proof fn parts_begin_and_end(start: Seq<char>, end: Seq<char>)
    ensures
        start.is_prefix_of(start + end),
        end.is_suffix_of(start + end),
        contains_text(start + end, start),
        contains_text(start + end, end),
{
    let whole = start + end;
    assert(whole.subrange(0, start.len() as int) =~= start);
    assert(whole.subrange(whole.len() - end.len(), whole.len() as int) =~= end);
    assert(occurs_at(whole, start, 0));
    assert(occurs_at(whole, end, start.len() as int));
}

/// The white space of common texts is white space, and nothing that shows is.
pub proof fn what_shows_is_no_white_space(c: char)
    ensures
        c == ' ' || c == '\t' || c == '\n' || c == '\r' ==> is_white_space(c),
        '!' <= c && c <= '~' ==> !is_white_space(c),
{
}

/// A list is told entry by entry, an option where there is a value, and a stand-in where there is
/// none.
pub proof fn values_are_told_one_by_one(
    list: Seq<String>,
    value: Option<String>,
    given: Option<Seq<char>>,
    stand_in: Seq<char>,
)
    ensures
        texts(list).len() == list.len(),
        forall|i: int| 0 <= i < list.len() ==> texts(list)[i] == (#[trigger] list[i])@,
        opt_text(value) is Some <==> value is Some,
        value matches Some(inner) ==> opt_text(value) == Some(inner@),
        given matches Some(inner) ==> text_or(given, stand_in) == inner,
        given is None ==> text_or(given, stand_in) == stand_in,
        bool_text(true) == "true"@,
        bool_text(false) == "false"@,
{
}

/// A text contains itself.
pub proof fn texts_contain_themselves(s: Seq<char>)
    ensures
        contains_text(s, s),
{
    assert(s.subrange(0, s.len() as int) =~= s);
    assert(occurs_at(s, s, 0));
}

/// A label and a value that are put behind a text are contained in the whole, and so is what the text
/// contained.
pub proof fn labelled_values_are_contained(start: Seq<char>, label: Seq<char>, value: Seq<char>)
    ensures
        contains_text(start + label + value, label + value),
        forall|part: Seq<char>| #[trigger]
            contains_text(start, part) ==> contains_text(start + label + value, part),
{
    assert(start + label + value =~= start + (label + value));
    containing_grows(start, label + value);
}

} // verus!
