//! Text helpers: searching, trimming, replacing and composing strings.
use vstd::prelude::*;

verus! {

/// `String::push` appends one character.
pub assume_specification[ String::push ](s: &mut String, c: char)
    ensures
        final(s)@ == old(s)@.push(c),
;

/// `p` stands in `t` at index `i`.
pub open spec fn occurs_at(t: Seq<char>, p: Seq<char>, i: int) -> bool {
    0 <= i && i + p.len() <= t.len() && t.subrange(i, i + p.len()) == p
}

/// `p` stands somewhere in `t`.
pub open spec fn occurs(t: Seq<char>, p: Seq<char>) -> bool {
    exists|i: int| occurs_at(t, p, i)
}

pub open spec fn has_prefix(t: Seq<char>, p: Seq<char>) -> bool {
    occurs_at(t, p, 0)
}

pub open spec fn has_suffix(t: Seq<char>, p: Seq<char>) -> bool {
    occurs_at(t, p, t.len() - p.len())
}

/// The first index from `i` on where `p` stands in `t`.
pub open spec fn find_from(t: Seq<char>, p: Seq<char>, i: int) -> Option<int>
    decreases t.len() + 1 - i,
{
    if i < 0 || i + p.len() > t.len() {
        None
    } else if occurs_at(t, p, i) {
        Some(i)
    } else {
        find_from(t, p, i + 1)
    }
}

/// The text before and after the first `p` in `t`.
pub open spec fn split_once(t: Seq<char>, p: Seq<char>) -> Option<(Seq<char>, Seq<char>)> {
    match find_from(t, p, 0) {
        Some(i) => Some((t.take(i), t.skip(i + p.len()))),
        None => None,
    }
}

/// `t` from index `i` on with every non-overlapping `p`, taken from the left,
/// replaced by `r`.
pub open spec fn replace_from(t: Seq<char>, p: Seq<char>, r: Seq<char>, i: int) -> Seq<char>
    decreases t.len() - i,
{
    if p.len() == 0 || i < 0 || i + p.len() > t.len() {
        t.skip(i)
    } else if occurs_at(t, p, i) {
        r + replace_from(t, p, r, i + p.len())
    } else {
        seq![t[i]] + replace_from(t, p, r, i + 1)
    }
}

pub open spec fn replace_all(t: Seq<char>, p: Seq<char>, r: Seq<char>) -> Seq<char> {
    replace_from(t, p, r, 0)
}

/// Unicode general category Cc.
pub open spec fn is_control(c: char) -> bool {
    c as int <= 0x1f || 0x7f <= c as int <= 0x9f
}

/// The Unicode property White_Space.
pub open spec fn is_white(c: char) -> bool {
    ||| 0x09 <= c as int <= 0x0d
    ||| c as int == 0x20
    ||| c as int == 0x85
    ||| c as int == 0xa0
    ||| c as int == 0x1680
    ||| 0x2000 <= c as int <= 0x200a
    ||| c as int == 0x2028
    ||| c as int == 0x2029
    ||| c as int == 0x202f
    ||| c as int == 0x205f
    ||| c as int == 0x3000
}

pub open spec fn trim_start(t: Seq<char>) -> Seq<char>
    decreases t.len(),
{
    if t.len() > 0 && is_white(t[0]) {
        trim_start(t.skip(1))
    } else {
        t
    }
}

pub open spec fn trim_end(t: Seq<char>) -> Seq<char>
    decreases t.len(),
{
    if t.len() > 0 && is_white(t.last()) {
        trim_end(t.drop_last())
    } else {
        t
    }
}

/// `t` without leading and trailing white space.
pub open spec fn trim(t: Seq<char>) -> Seq<char> {
    trim_end(trim_start(t))
}

pub open spec fn lower_char(c: char) -> char {
    if 'A' <= c <= 'Z' {
        (c as int + 32) as char
    } else {
        c
    }
}

/// `t` with its ASCII letters in lower case.
pub open spec fn ascii_lower(t: Seq<char>) -> Seq<char> {
    t.map_values(|c: char| lower_char(c))
}

/// The first `n` characters of `t`, or all of them.
pub open spec fn take_at_most(t: Seq<char>, n: int) -> Seq<char> {
    if t.len() <= n {
        t
    } else {
        t.take(n)
    }
}

pub open spec fn is_digit(c: char) -> bool {
    '0' <= c <= '9'
}

pub open spec fn is_hex_digit(c: char) -> bool {
    '0' <= c <= '9' || 'a' <= c <= 'f' || 'A' <= c <= 'F'
}

pub open spec fn all_digits(t: Seq<char>) -> bool {
    forall|i: int| 0 <= i < t.len() ==> is_digit(#[trigger] t[i])
}

pub open spec fn all_hex(t: Seq<char>) -> bool {
    forall|i: int| 0 <= i < t.len() ==> is_hex_digit(#[trigger] t[i])
}

pub open spec fn digit(d: int) -> char {
    (48 + d) as char
}

/// The decimal text of `n`.
pub open spec fn decimal(n: nat) -> Seq<char>
    decreases n,
{
    if n < 10 {
        seq![digit(n as int)]
    } else {
        decimal(n / 10).push(digit((n % 10) as int))
    }
}

/// The number that a run of digits stands for.
pub open spec fn digits_value(t: Seq<char>) -> nat
    decreases t.len(),
{
    if t.len() == 0 {
        0
    } else {
        digits_value(t.drop_last()) * 10 + (t.last() as int - 48) as nat
    }
}

/// What parsing `t` as an unsigned 64-bit number gives: an optional plus sign,
/// then at least one digit and nothing else, and a value that fits.
pub open spec fn parse_number(t: Seq<char>) -> Option<u64> {
    let digits = if t.len() > 1 && t[0] == '+' {
        t.skip(1)
    } else {
        t
    };
    if digits.len() > 0 && all_digits(digits) && digits_value(digits) <= u64::MAX {
        Some(digits_value(digits) as u64)
    } else {
        None
    }
}

/// The text between separators, in order. There is always at least one piece.
pub open spec fn split_char(t: Seq<char>, separator: char) -> Seq<Seq<char>>
    decreases t.len(),
{
    if t.len() == 0 {
        seq![Seq::<char>::empty()]
    } else {
        let before = split_char(t.drop_last(), separator);
        if t.last() == separator {
            before.push(Seq::<char>::empty())
        } else {
            before.update(before.len() - 1, before.last().push(t.last()))
        }
    }
}

/// The lines of a text, each without its ending. A text that ends with a line
/// feed has an empty line behind it here.
pub open spec fn line_at(t: Seq<char>, i: int) -> Seq<char> {
    let pieces = split_char(t, '\n');
    if i < pieces.len() - 1 && pieces[i].len() > 0 && pieces[i].last() == '\r' {
        pieces[i].drop_last()
    } else {
        pieces[i]
    }
}

/// The views of a list of strings.
pub open spec fn views(items: Seq<String>) -> Seq<Seq<char>> {
    crate::values::contents(items)
}

/// Whether two strings hold the same text.
pub fn same(a: &str, b: &str) -> (r: bool)
    ensures
        r == (a@ == b@),
{
    let left = a.to_owned();
    let right = b.to_owned();
    left == right
}

/// The view of an optional string.
pub open spec fn option_view(a: Option<String>) -> Option<Seq<char>> {
    crate::values::content(a)
}

/// The characters of a string.
pub fn chars_of(text: &str) -> (r: Vec<char>)
    ensures
        r@ == text@,
{
    let mut r: Vec<char> = Vec::new();
    for c in it: text.chars()
        invariant
            r@ == it.seq().take(it.index() as int),
            it.seq() == text@,
    {
        r.push(c);
    }
    r
}

/// The string with the given characters.
pub fn string_of(chars: &[char]) -> (r: String)
    ensures
        r@ == chars@,
{
    let mut r: String = String::new();
    for i in 0..chars.len()
        invariant
            r@ == chars@.take(i as int),
    {
        r.push(chars[i]);
    }
    assert(chars@.take(chars@.len() as int) == chars@);
    r
}

pub fn join2(a: &str, b: &str) -> (r: String)
    ensures
        r@ == a@ + b@,
{
    let mut r = a.to_owned();
    r.append(b);
    r
}

pub fn join3(a: &str, b: &str, c: &str) -> (r: String)
    ensures
        r@ == a@ + b@ + c@,
{
    let mut r = a.to_owned();
    r.append(b);
    r.append(c);
    r
}

pub fn join4(a: &str, b: &str, c: &str, d: &str) -> (r: String)
    ensures
        r@ == a@ + b@ + c@ + d@,
{
    let mut r = a.to_owned();
    r.append(b);
    r.append(c);
    r.append(d);
    r
}

/// Whether `p` stands in `t` at index `i`.
pub fn matches_at(t: &[char], p: &[char], i: usize) -> (r: bool)
    ensures
        r == occurs_at(t@, p@, i as int),
{
    if i > t.len() || p.len() > t.len() - i {
        return false;
    }
    let mut j: usize = 0;
    while j < p.len()
        invariant
            j <= p@.len(),
            t@.len() <= usize::MAX,
            i + p@.len() <= t@.len(),
            t@.subrange(i as int, i + j) == p@.take(j as int),
        decreases p@.len() - j,
    {
        if t[i + j] != p[j] {
            assert(t@.subrange(i as int, i + p@.len())[j as int] != p@[j as int]);
            return false;
        }
        assert(t@.subrange(i as int, i + j + 1) == t@.subrange(i as int, i + j).push(
            t@[i + j],
        ));
        assert(p@.take(j + 1) == p@.take(j as int).push(p@[j as int]));
        j = j + 1;
    }
    assert(p@.take(p@.len() as int) == p@);
    true
}

/// A found index is an occurrence, and nothing found means there is none.
pub proof fn lemma_find_from(t: Seq<char>, p: Seq<char>, i: int)
    requires
        0 <= i,
    ensures
        match find_from(t, p, i) {
            Some(k) => i <= k && occurs_at(t, p, k) && (forall|j: int|
                i <= j < k ==> !#[trigger] occurs_at(t, p, j)),
            None => forall|j: int| i <= j ==> !#[trigger] occurs_at(t, p, j),
        },
    decreases t.len() + 1 - i,
{
    if i + p.len() <= t.len() && !occurs_at(t, p, i) {
        lemma_find_from(t, p, i + 1);
    }
}

/// The first index from `from` on where `p` stands in `t`.
pub fn find(t: &[char], p: &[char], from: usize) -> (r: Option<usize>)
    ensures
        r matches Some(k) ==> find_from(t@, p@, from as int) == Some(k as int),
        r is None ==> find_from(t@, p@, from as int) is None,
{
    if from > t.len() {
        return None;
    }
    let mut i: usize = from;
    while p.len() <= t.len() - i
        invariant
            i <= t@.len(),
            find_from(t@, p@, from as int) == find_from(t@, p@, i as int),
        decreases t@.len() - i,
    {
        if matches_at(t, p, i) {
            return Some(i);
        }
        if i == t.len() {
            assert(t@.subrange(i as int, i as int) == p@);
            return None;
        }
        i = i + 1;
    }
    None
}

/// Whether `p` stands somewhere in `t`.
pub fn contains(t: &[char], p: &[char]) -> (r: bool)
    ensures
        r == occurs(t@, p@),
{
    proof {
        lemma_find_from(t@, p@, 0);
    }
    find(t, p, 0).is_some()
}

/// Whether the text `p` stands somewhere in the text `t`.
pub fn contains_text(t: &str, p: &str) -> (r: bool)
    ensures
        r == occurs(t@, p@),
{
    let left = chars_of(t);
    let right = chars_of(p);
    contains(left.as_slice(), right.as_slice())
}

pub fn starts_with(t: &str, p: &str) -> (r: bool)
    ensures
        r == has_prefix(t@, p@),
{
    let left = chars_of(t);
    let right = chars_of(p);
    matches_at(left.as_slice(), right.as_slice(), 0)
}

pub fn ends_with(t: &str, p: &str) -> (r: bool)
    ensures
        r == has_suffix(t@, p@),
{
    let left = chars_of(t);
    let right = chars_of(p);
    if right.len() > left.len() {
        false
    } else {
        matches_at(left.as_slice(), right.as_slice(), left.len() - right.len())
    }
}

/// The characters `from..to` of `t`.
pub fn slice_of(t: &[char], from: usize, to: usize) -> (r: Vec<char>)
    requires
        from <= to <= t@.len(),
    ensures
        r@ == t@.subrange(from as int, to as int),
{
    let mut r: Vec<char> = Vec::new();
    for i in from..to
        invariant
            from <= i <= to <= t@.len(),
            r@ == t@.subrange(from as int, i as int),
    {
        r.push(t[i]);
        assert(t@.subrange(from as int, i + 1) == t@.subrange(from as int, i as int).push(
            t@[i as int],
        ));
    }
    r
}

/// The text before and after the first `p` in `t`.
pub fn split_at_first(t: &[char], p: &[char]) -> (r: Option<(Vec<char>, Vec<char>)>)
    ensures
        match r {
            Some(pair) => split_once(t@, p@) == Some((pair.0@, pair.1@)),
            None => split_once(t@, p@) is None,
        },
{
    let total = t.len();
    match find(t, p, 0) {
        Some(i) => {
            proof {
                lemma_find_from(t@, p@, 0);
            }
            let before = slice_of(t, 0, i);
            let after = slice_of(t, i + p.len(), total);
            assert(before@ == t@.take(i as int));
            assert(after@ == t@.skip(i + p@.len()));
            Some((before, after))
        },
        None => None,
    }
}

/// `t` after the prefix `p`, where it has that prefix.
pub fn strip_prefix(t: &[char], p: &[char]) -> (r: Option<Vec<char>>)
    ensures
        match r {
            Some(rest) => has_prefix(t@, p@) && rest@ == t@.skip(p@.len() as int),
            None => !has_prefix(t@, p@),
        },
{
    if matches_at(t, p, 0) {
        let rest = slice_of(t, p.len(), t.len());
        assert(rest@ == t@.skip(p@.len() as int));
        Some(rest)
    } else {
        None
    }
}

/// `t` with every non-overlapping `p`, taken from the left, replaced by `with`.
pub fn replace(t: &[char], p: &[char], with: &[char]) -> (r: Vec<char>)
    requires
        p@.len() > 0,
    ensures
        r@ == replace_all(t@, p@, with@),
{
    let mut r: Vec<char> = Vec::new();
    let mut i: usize = 0;
    assert(r@ + replace_from(t@, p@, with@, 0) == replace_all(t@, p@, with@));
    while p.len() <= t.len() - i
        invariant
            p@.len() > 0,
            i <= t@.len(),
            r@ + replace_from(t@, p@, with@, i as int) == replace_all(t@, p@, with@),
        decreases t@.len() - i,
    {
        if matches_at(t, p, i) {
            let ghost before = r@;
            for j in 0..with.len()
                invariant
                    r@ == before + with@.take(j as int),
            {
                r.push(with[j]);
                assert(with@.take(j + 1) == with@.take(j as int).push(with@[j as int]));
            }
            assert(with@.take(with@.len() as int) == with@);
            assert(r@ + replace_from(t@, p@, with@, i + p@.len()) == before + (with@
                + replace_from(t@, p@, with@, i + p@.len())));
            i = i + p.len();
        } else {
            let ghost before = r@;
            r.push(t[i]);
            assert(r@ + replace_from(t@, p@, with@, i + 1) == before + (seq![t@[i as int]]
                + replace_from(t@, p@, with@, i + 1)));
            i = i + 1;
        }
    }
    let ghost before = r@;
    let ghost from = i;
    while i < t.len()
        invariant
            from <= i <= t@.len(),
            r@ == before + t@.subrange(from as int, i as int),
        decreases t@.len() - i,
    {
        r.push(t[i]);
        assert(t@.subrange(from as int, i + 1) == t@.subrange(from as int, i as int).push(
            t@[i as int],
        ));
        i = i + 1;
    }
    assert(t@.subrange(from as int, i as int) == t@.skip(from as int));
    r
}

pub fn control(c: char) -> (r: bool)
    ensures
        r == is_control(c),
{
    let n = c as u32;
    n <= 0x1f || (0x7f <= n && n <= 0x9f)
}

pub fn white(c: char) -> (r: bool)
    ensures
        r == is_white(c),
{
    let n = c as u32;
    (0x09 <= n && n <= 0x0d) || n == 0x20 || n == 0x85 || n == 0xa0 || n == 0x1680 || (0x2000 <= n
        && n <= 0x200a) || n == 0x2028 || n == 0x2029 || n == 0x202f || n == 0x205f || n == 0x3000
}

/// `t` without leading and trailing white space.
pub fn trimmed(t: &[char]) -> (r: Vec<char>)
    ensures
        r@ == trim(t@),
{
    let mut low: usize = 0;
    assert(t@.skip(0) == t@);
    while low < t.len() && white(t[low])
        invariant
            low <= t@.len(),
            trim_start(t@) == trim_start(t@.skip(low as int)),
        decreases t@.len() - low,
    {
        assert(t@.skip(low as int).skip(1) == t@.skip(low + 1));
        low = low + 1;
    }
    let mut high: usize = t.len();
    let ghost rest = t@.skip(low as int);
    assert(rest == trim_start(t@));
    assert(t@.subrange(low as int, high as int) == rest);
    while low < high && white(t[high - 1])
        invariant
            low <= high <= t@.len(),
            trim_end(rest) == trim_end(t@.subrange(low as int, high as int)),
        decreases high,
    {
        assert(t@.subrange(low as int, high as int).drop_last() == t@.subrange(
            low as int,
            high - 1,
        ));
        high = high - 1;
    }
    let r = slice_of(t, low, high);
    assert(r@ == trim_end(r@));
    r
}

/// The text without leading and trailing white space.
pub fn trim_text(t: &str) -> (r: String)
    ensures
        r@ == trim(t@),
{
    let chars = chars_of(t);
    let kept = trimmed(chars.as_slice());
    string_of(kept.as_slice())
}

pub fn lower(c: char) -> (r: char)
    ensures
        r == lower_char(c),
{
    match c {
        'A' => 'a',
        'B' => 'b',
        'C' => 'c',
        'D' => 'd',
        'E' => 'e',
        'F' => 'f',
        'G' => 'g',
        'H' => 'h',
        'I' => 'i',
        'J' => 'j',
        'K' => 'k',
        'L' => 'l',
        'M' => 'm',
        'N' => 'n',
        'O' => 'o',
        'P' => 'p',
        'Q' => 'q',
        'R' => 'r',
        'S' => 's',
        'T' => 't',
        'U' => 'u',
        'V' => 'v',
        'W' => 'w',
        'X' => 'x',
        'Y' => 'y',
        'Z' => 'z',
        _ => c,
    }
}

/// `t` with its ASCII letters in lower case.
pub fn lowered(t: &[char]) -> (r: Vec<char>)
    ensures
        r@ == ascii_lower(t@),
{
    let mut r: Vec<char> = Vec::new();
    for i in 0..t.len()
        invariant
            r@ == ascii_lower(t@.take(i as int)),
    {
        r.push(lower(t[i]));
        assert(ascii_lower(t@.take(i + 1)) == ascii_lower(t@.take(i as int)).push(
            lower_char(t@[i as int]),
        ));
    }
    assert(t@.take(t@.len() as int) == t@);
    r
}

/// The first `n` characters of the text, or all of them.
pub fn take_text(t: &str, n: usize) -> (r: String)
    ensures
        r@ == take_at_most(t@, n as int),
{
    let chars = chars_of(t);
    if chars.len() <= n {
        string_of(chars.as_slice())
    } else {
        let kept = slice_of(chars.as_slice(), 0, n);
        assert(kept@ == t@.take(n as int));
        string_of(kept.as_slice())
    }
}

pub fn ascii_digit(c: char) -> (r: bool)
    ensures
        r == is_digit(c),
{
    '0' <= c && c <= '9'
}

pub fn hex_digit(c: char) -> (r: bool)
    ensures
        r == is_hex_digit(c),
{
    ('0' <= c && c <= '9') || ('a' <= c && c <= 'f') || ('A' <= c && c <= 'F')
}

/// Whether every character is an ASCII digit.
pub fn only_digits(t: &[char]) -> (r: bool)
    ensures
        r == all_digits(t@),
{
    for i in 0..t.len()
        invariant
            forall|j: int| 0 <= j < i ==> is_digit(#[trigger] t@[j]),
    {
        if !ascii_digit(t[i]) {
            return false;
        }
    }
    true
}

/// Whether every character is an ASCII hexadecimal digit.
pub fn only_hex(t: &[char]) -> (r: bool)
    ensures
        r == all_hex(t@),
{
    for i in 0..t.len()
        invariant
            forall|j: int| 0 <= j < i ==> is_hex_digit(#[trigger] t@[j]),
    {
        if !hex_digit(t[i]) {
            return false;
        }
    }
    true
}

fn digit_char(d: u64) -> (r: char)
    requires
        d < 10,
    ensures
        r == digit(d as int),
{
    match d {
        0 => '0',
        1 => '1',
        2 => '2',
        3 => '3',
        4 => '4',
        5 => '5',
        6 => '6',
        7 => '7',
        8 => '8',
        _ => '9',
    }
}

/// The decimal text of a number.
pub fn decimal_text(n: u64) -> (r: String)
    ensures
        r@ == decimal(n as nat),
    decreases n,
{
    if n < 10 {
        let mut r = String::new();
        r.push(digit_char(n));
        assert(r@ == seq![digit(n as int)]);
        r
    } else {
        let mut r = decimal_text(n / 10);
        r.push(digit_char(n % 10));
        r
    }
}

/// A longer run of digits stands for no smaller a number.
proof fn lemma_digits_grow(t: Seq<char>, n: int)
    requires
        all_digits(t),
        0 <= n <= t.len(),
    ensures
        digits_value(t.take(n)) <= digits_value(t),
    decreases t.len(),
{
    if n == t.len() {
        assert(t.take(n) == t);
    } else {
        assert(t.drop_last().take(n) == t.take(n));
        lemma_digits_grow(t.drop_last(), n);
    }
}

/// Parse an unsigned 64-bit number.
pub fn parse_u64(t: &[char]) -> (r: Option<u64>)
    ensures
        r == parse_number(t@),
{
    let start: usize = if t.len() > 1 && t[0] == '+' {
        1
    } else {
        0
    };
    let ghost digits = t@.skip(start as int);
    assert(start == 0 ==> digits == t@);
    if start == t.len() {
        return None;
    }
    let mut value: u64 = 0;
    let mut i: usize = start;
    assert(digits.take(0) == Seq::<char>::empty());
    while i < t.len()
        invariant
            start <= i <= t@.len(),
            digits == t@.skip(start as int),
            digits.len() > 0,
            parse_number(t@) == (if all_digits(digits) && digits_value(digits) <= u64::MAX {
                Some(digits_value(digits) as u64)
            } else {
                None::<u64>
            }),
            all_digits(digits.take(i - start)),
            value == digits_value(digits.take(i - start)),
        decreases t@.len() - i,
    {
        let c = t[i];
        let ghost k = i - start;
        assert(digits[k] == c);
        assert(digits.take(k + 1).drop_last() == digits.take(k));
        if !ascii_digit(c) {
            return None;
        }
        let d: u64 = (c as u32 - 48) as u64;
        assert(digits_value(digits.take(k + 1)) == digits_value(digits.take(k)) * 10 + d);
        proof {
            if all_digits(digits) {
                lemma_digits_grow(digits, k + 1);
            }
        }
        match value.checked_mul(10) {
            Some(tens) => match tens.checked_add(d) {
                Some(next) => {
                    value = next;
                },
                None => {
                    return None;
                },
            },
            None => {
                return None;
            },
        }
        assert forall|j: int| 0 <= j < k + 1 implies is_digit(#[trigger] digits.take(k + 1)[j]) by {
            if j < k {
                assert(digits.take(k)[j] == digits[j]);
            }
        }
        i = i + 1;
    }
    assert(digits.take(t@.len() - start) == digits);
    Some(value)
}

/// Whether the list holds the text.
pub fn holds(items: &[String], text: &str) -> (r: bool)
    ensures
        r == views(items@).contains(text@),
{
    for i in 0..items.len()
        invariant
            forall|j: int| 0 <= j < i ==> (#[trigger] items@[j])@ != text@,
    {
        if same(items[i].as_str(), text) {
            assert(views(items@)[i as int] == text@);
            return true;
        }
    }
    assert forall|j: int| 0 <= j < views(items@).len() implies views(items@)[j] != text@ by {
        assert(items@[j]@ != text@);
    }
    false
}

/// The contents of a list of pieces.
pub open spec fn piece_views(v: Seq<Vec<char>>) -> Seq<Seq<char>> {
    crate::values::contents(v)
}

/// The text between separators, in order.
pub fn split_on(t: &[char], separator: char) -> (r: Vec<Vec<char>>)
    ensures
        piece_views(r@) == split_char(t@, separator),
        r@.len() > 0,
{
    let mut done: Vec<Vec<char>> = Vec::new();
    let mut current: Vec<char> = Vec::new();
    assert(t@.take(0) == Seq::<char>::empty());
    assert(piece_views(done@).push(current@) == split_char(t@.take(0), separator));
    for i in 0..t.len()
        invariant
            piece_views(done@).push(current@) == split_char(t@.take(i as int), separator),
    {
        let ghost before = piece_views(done@);
        let ghost now = current@;
        assert(t@.take(i + 1).drop_last() == t@.take(i as int));
        if t[i] == separator {
            done.push(current);
            assert(piece_views(done@) == before.push(now));
            current = Vec::new();
            assert(piece_views(done@).push(current@) == before.push(now).push(
                Seq::<char>::empty(),
            ));
        } else {
            current.push(t[i]);
            assert(piece_views(done@).push(current@) == before.push(now).update(
                before.len() as int,
                now.push(t@[i as int]),
            ));
        }
    }
    assert(t@.take(t@.len() as int) == t@);
    let ghost before = piece_views(done@);
    let ghost now = current@;
    done.push(current);
    assert(piece_views(done@) == before.push(now));
    done
}

/// The lines of a text, each without its ending.
pub fn lines_of(t: &[char]) -> (r: Vec<Vec<char>>)
    ensures
        r@.len() == split_char(t@, '\n').len(),
        forall|i: int| 0 <= i < r@.len() ==> (#[trigger] r@[i])@ == line_at(t@, i),
{
    let pieces = split_on(t, '\n');
    let ghost views = split_char(t@, '\n');
    let mut r: Vec<Vec<char>> = Vec::new();
    for i in 0..pieces.len()
        invariant
            views == split_char(t@, '\n'),
            piece_views(pieces@) == views,
            r@.len() == i,
            forall|j: int| 0 <= j < i ==> (#[trigger] r@[j])@ == line_at(t@, j),
    {
        let piece = &pieces[i];
        assert(views[i as int] == piece@);
        assert(views.len() == pieces@.len());
        let count = piece.len();
        let line = if i < pieces.len() - 1 && count > 0 && piece[count - 1] == '\r' {
            slice_of(piece.as_slice(), 0, count - 1)
        } else {
            slice_of(piece.as_slice(), 0, count)
        };
        assert(piece@.subrange(0, piece@.len() as int) == piece@);
        assert(line@ == line_at(t@, i as int));
        r.push(line);
    }
    r
}

} // verus!
