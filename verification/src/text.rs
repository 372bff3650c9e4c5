//! Character-level helpers on source text: line splitting, trimming,
//! substring search and number formatting.
use vstd::prelude::*;

verus! {

/// Appends one character to a string (std's `String::push`).
#[verifier::external_body]
pub(crate) fn push_char(s: &mut String, c: char)
    ensures
        final(s)@ == old(s)@.push(c),
{
    s.push(c);
}

/// The characters of a string slice, in order.
pub fn chars_of(s: &str) -> (v: Vec<char>)
    ensures
        v@ == s@,
{
    let mut v: Vec<char> = Vec::new();
    for c in it: s.chars()
        invariant
            v@ == it.seq().take(it.index() as int),
    {
        v.push(c);
    }
    v
}

/// A new string holding `chars[lo..hi]`.
pub fn string_from_chars(chars: &Vec<char>, lo: usize, hi: usize) -> (s: String)
    requires
        lo <= hi <= chars@.len(),
    ensures
        s@ == chars@.subrange(lo as int, hi as int),
{
    let mut s = String::new();
    let mut i = lo;
    while i < hi
        invariant
            lo <= i <= hi <= chars@.len(),
            s@ == chars@.subrange(lo as int, i as int),
        decreases hi - i,
    {
        push_char(&mut s, chars[i]);
        i += 1;
    }
    s
}

/// Whether two texts are the same sequence of characters.
pub fn same_text(a: &str, b: &str) -> (r: bool)
    ensures
        r == (a@ == b@),
{
    let x = chars_of(a);
    let y = chars_of(b);
    if x.len() != y.len() {
        return false;
    }
    let mut i: usize = 0;
    while i < x.len()
        invariant
            i <= x@.len() == y@.len(),
            x@ == a@,
            y@ == b@,
            x@.take(i as int) == y@.take(i as int),
        decreases x.len() - i,
    {
        if x[i] != y[i] {
            assert(x@[i as int] != y@[i as int]);
            return false;
        }
        assert(x@.take(i + 1) =~= x@.take(i as int).push(x@[i as int]));
        assert(y@.take(i + 1) =~= y@.take(i as int).push(y@[i as int]));
        i += 1;
    }
    assert(x@ =~= x@.take(i as int));
    assert(y@ =~= y@.take(i as int));
    true
}

/// Unicode `White_Space` property, as `char::is_whitespace` defines it.
pub open spec fn spec_is_whitespace(c: char) -> bool {
    ||| ('\u{9}' <= c && c <= '\u{d}')
    ||| c == ' '
    ||| c == '\u{85}'
    ||| c == '\u{a0}'
    ||| c == '\u{1680}'
    ||| ('\u{2000}' <= c && c <= '\u{200a}')
    ||| c == '\u{2028}'
    ||| c == '\u{2029}'
    ||| c == '\u{202f}'
    ||| c == '\u{205f}'
    ||| c == '\u{3000}'
}

/// Whether `c` is white space in the sense of `char::is_whitespace`.
pub fn is_whitespace(c: char) -> (r: bool)
    ensures
        r == spec_is_whitespace(c),
{
    ('\u{9}' <= c && c <= '\u{d}') || c == ' ' || c == '\u{85}' || c == '\u{a0}' || c
        == '\u{1680}' || ('\u{2000}' <= c && c <= '\u{200a}') || c == '\u{2028}' || c
        == '\u{2029}' || c == '\u{202f}' || c == '\u{205f}' || c == '\u{3000}'
}

/// `s` without its leading white space.
pub open spec fn trim_start(s: Seq<char>) -> Seq<char>
    decreases s.len(),
{
    if s.len() > 0 && spec_is_whitespace(s[0]) {
        trim_start(s.drop_first())
    } else {
        s
    }
}

/// `s` without its trailing white space.
pub open spec fn trim_end(s: Seq<char>) -> Seq<char>
    decreases s.len(),
{
    if s.len() > 0 && spec_is_whitespace(s.last()) {
        trim_end(s.drop_last())
    } else {
        s
    }
}

/// `s` without leading and trailing white space (`str::trim`).
pub open spec fn trim(s: Seq<char>) -> Seq<char> {
    trim_end(trim_start(s))
}

/// The trimmed text of `chars[lo..hi]`, as a new string.
pub fn trimmed_string(chars: &Vec<char>, lo: usize, hi: usize) -> (s: String)
    requires
        lo <= hi <= chars@.len(),
    ensures
        s@ == trim(chars@.subrange(lo as int, hi as int)),
{
    let ghost whole = chars@.subrange(lo as int, hi as int);
    let mut a = lo;
    while a < hi && is_whitespace(chars[a])
        invariant
            lo <= a <= hi <= chars@.len(),
            trim_start(whole) == trim_start(chars@.subrange(a as int, hi as int)),
        decreases hi - a,
    {
        assert(chars@.subrange(a as int, hi as int).drop_first() =~= chars@.subrange(
            a + 1,
            hi as int,
        ));
        a += 1;
    }
    let ghost started = chars@.subrange(a as int, hi as int);
    assert(trim_start(started) == started);
    let mut b = hi;
    while b > a && is_whitespace(chars[b - 1])
        invariant
            lo <= a <= b <= hi <= chars@.len(),
            trim_end(started) == trim_end(chars@.subrange(a as int, b as int)),
        decreases b,
    {
        assert(chars@.subrange(a as int, b as int).drop_last() =~= chars@.subrange(
            a as int,
            b - 1,
        ));
        b -= 1;
    }
    assert(trim_end(chars@.subrange(a as int, b as int)) == chars@.subrange(a as int, b as int));
    string_from_chars(chars, a, b)
}

/// Position of the first `'\n'` in `s` at or after `from`, or `s.len()`.
pub open spec fn next_newline(s: Seq<char>, from: int) -> int
    decreases s.len() - from,
{
    if from >= s.len() {
        s.len() as int
    } else if s[from] == '\n' {
        from
    } else {
        next_newline(s, from + 1)
    }
}

/// A line as `str::lines` yields it: without its `'\n'`, and without a
/// `'\r'` that stood right before that `'\n'`.
pub open spec fn line_text(s: Seq<char>, start: int, end: int) -> Seq<char> {
    if end < s.len() && end > start && s[end - 1] == '\r' {
        s.subrange(start, end - 1)
    } else {
        s.subrange(start, end)
    }
}

/// The lines of `s` from position `from` on (`str::lines`): split at each
/// `'\n'`; a final line ending adds no empty line.
pub open spec fn lines_from(s: Seq<char>, from: int) -> Seq<Seq<char>>
    recommends
        0 <= from <= s.len(),
    decreases s.len() - from,
{
    if from < 0 || from >= s.len() {
        seq![]
    } else {
        let end = next_newline(s, from);
        proof {
            lemma_next_newline_bounds(s, from);
        }
        if end < s.len() {
            seq![line_text(s, from, end)] + lines_from(s, end + 1)
        } else {
            seq![line_text(s, from, end)]
        }
    }
}

/// The lines of `s`, as `str::lines` yields them.
pub open spec fn lines(s: Seq<char>) -> Seq<Seq<char>> {
    lines_from(s, 0)
}

/// `next_newline` finds the first line feed at or after `from`.
pub proof fn lemma_next_newline_bounds(s: Seq<char>, from: int)
    requires
        0 <= from <= s.len(),
    ensures
        from <= next_newline(s, from) <= s.len(),
        next_newline(s, from) < s.len() ==> s[next_newline(s, from)] == '\n',
        forall|k: int| from <= k < next_newline(s, from) ==> s[k] != '\n',
    decreases s.len() - from,
{
    if from < s.len() && s[from] != '\n' {
        lemma_next_newline_bounds(s, from + 1);
    }
}

/// Whether `b` gives, for each line of `s`, where its text starts and ends.
pub open spec fn are_line_bounds(s: Seq<char>, b: Seq<(usize, usize)>) -> bool {
    &&& b.len() == lines(s).len()
    &&& forall|i: int|
        0 <= i < b.len() ==> {
            &&& b[i].0 <= b[i].1 <= s.len()
            &&& #[trigger] s.subrange(b[i].0 as int, b[i].1 as int) == lines(s)[i]
        }
}

/// The line boundaries of `chars`: for each line, where its text starts and
/// where it ends (excluding the line terminator).
pub fn line_bounds(chars: &Vec<char>) -> (r: Vec<(usize, usize)>)
    ensures
        are_line_bounds(chars@, r@),
{
    let mut r: Vec<(usize, usize)> = Vec::new();
    let n = chars.len();
    let mut start: usize = 0;
    while start < n
        invariant
            n == chars@.len(),
            start <= n,
            lines(chars@) == r@.map_values(
                |p: (usize, usize)| chars@.subrange(p.0 as int, p.1 as int),
            ) + lines_from(chars@, start as int),
            forall|i: int| 0 <= i < r@.len() ==> #[trigger] r@[i].0 <= r@[i].1 <= n,
        decreases n - start,
    {
        let mut end = start;
        while end < n && chars[end] != '\n'
            invariant
                start <= end <= n == chars@.len(),
                next_newline(chars@, start as int) == next_newline(chars@, end as int),
            decreases n - end,
        {
            end += 1;
        }
        proof {
            lemma_next_newline_bounds(chars@, start as int);
        }
        let text_end = if end < n && end > start && chars[end - 1] == '\r' {
            end - 1
        } else {
            end
        };
        let ghost old_r = r@;
        r.push((start, text_end));
        assert forall|k: int| 0 <= k < r@.len() implies #[trigger] r@[k].0 <= r@[k].1 <= n by {
            if k < old_r.len() {
                assert(r@[k] == old_r[k]);
            }
        }
        assert(r@.map_values(|p: (usize, usize)| chars@.subrange(p.0 as int, p.1 as int))
            =~= old_r.map_values(|p: (usize, usize)| chars@.subrange(p.0 as int, p.1 as int))
            + seq![line_text(chars@, start as int, end as int)]);
        if end < n {
            assert(lines_from(chars@, start as int) == seq![line_text(chars@, start as int, end as int)]
                + lines_from(chars@, end + 1));
            start = end + 1;
        } else {
            assert(lines_from(chars@, start as int) == seq![line_text(chars@, start as int, end as int)]
                + lines_from(chars@, n as int));
            start = n;
        }
    }
    assert(lines_from(chars@, start as int) =~= seq![]);
    assert(r@.map_values(|p: (usize, usize)| chars@.subrange(p.0 as int, p.1 as int)) + seq![]
        =~= r@.map_values(|p: (usize, usize)| chars@.subrange(p.0 as int, p.1 as int)));
    proof {
        assert forall|i: int| 0 <= i < r@.len() implies #[trigger] chars@.subrange(
            r@[i].0 as int,
            r@[i].1 as int,
        ) == lines(chars@)[i] by {
            assert(lines(chars@)[i] == r@.map_values(
                |p: (usize, usize)| chars@.subrange(p.0 as int, p.1 as int),
            )[i]);
        }
    }
    r
}

/// Whether `needle` occurs in `hay` as a contiguous run of characters.
pub open spec fn contains_text(hay: Seq<char>, needle: Seq<char>) -> bool {
    exists|i: int|
        0 <= i && i + needle.len() <= hay.len() && #[trigger] hay.subrange(i, i + needle.len())
            == needle
}

/// Whether `needle` occurs in `hay` (`str::contains` with a string pattern).
pub fn text_contains(hay: &Vec<char>, needle: &Vec<char>) -> (r: bool)
    ensures
        r == contains_text(hay@, needle@),
{
    let n = hay.len();
    let m = needle.len();
    if m > n {
        assert forall|i: int| 0 <= i && i + m <= n implies #[trigger] hay@.subrange(i, i + m)
            != needle@ by {}
        return false;
    }
    let mut i: usize = 0;
    while i <= n - m
        invariant
            m <= n,
            n == hay@.len(),
            m == needle@.len(),
            i <= n - m + 1,
            forall|k: int| 0 <= k < i ==> #[trigger] hay@.subrange(k, k + m) != needle@,
        decreases n - i,
    {
        let mut j: usize = 0;
        while j < m && hay[i + j] == needle[j]
            invariant
                i + m <= n,
                n == hay@.len(),
                m == needle@.len(),
                j <= m,
                forall|t: int| 0 <= t < j ==> hay@[i + t] == needle@[t],
            decreases m - j,
        {
            j += 1;
        }
        if j == m {
            assert(hay@.subrange(i as int, i + m) =~= needle@);
            return true;
        }
        assert(hay@.subrange(i as int, i + m)[j as int] != needle@[j as int]);
        i += 1;
    }
    assert forall|k: int| 0 <= k && k + m <= n implies #[trigger] hay@.subrange(k, k + m)
        != needle@ by {}
    false
}

/// The decimal digit character for `d < 10`.
pub open spec fn digit_char(d: nat) -> char {
    if d == 0 { '0' } else if d == 1 { '1' } else if d == 2 { '2' } else if d == 3 { '3' }
    else if d == 4 { '4' } else if d == 5 { '5' } else if d == 6 { '6' } else if d == 7 { '7' }
    else if d == 8 { '8' } else { '9' }
}

/// The decimal notation of `n`, without leading zeros (as `Display` writes it).
pub open spec fn decimal(n: nat) -> Seq<char>
    decreases n,
{
    if n < 10 {
        seq![digit_char(n)]
    } else {
        decimal(n / 10).push(digit_char(n % 10))
    }
}

fn digit(d: usize) -> (c: char)
    requires
        d < 10,
    ensures
        c == digit_char(d as nat),
{
    if d == 0 { '0' } else if d == 1 { '1' } else if d == 2 { '2' } else if d == 3 { '3' }
    else if d == 4 { '4' } else if d == 5 { '5' } else if d == 6 { '6' } else if d == 7 { '7' }
    else if d == 8 { '8' } else { '9' }
}

/// Appends the decimal notation of `n` to `out`.
pub fn push_decimal(out: &mut String, n: usize)
    ensures
        final(out)@ == old(out)@ + decimal(n as nat),
    decreases n,
{
    if n >= 10 {
        push_decimal(out, n / 10);
    }
    push_char(out, digit(n % 10));
    assert(final(out)@ =~= old(out)@ + decimal(n as nat));
}

/// The lower-case hexadecimal digit for `d < 16`.
pub open spec fn hex_digit(d: nat) -> char {
    if d < 10 { digit_char(d) }
    else if d == 10 { 'a' } else if d == 11 { 'b' } else if d == 12 { 'c' }
    else if d == 13 { 'd' } else if d == 14 { 'e' } else { 'f' }
}

/// Two lower-case hexadecimal digits per byte (the `{:02x}` format).
pub open spec fn hex_lower(bytes: Seq<u8>) -> Seq<char>
    decreases bytes.len(),
{
    if bytes.len() == 0 {
        seq![]
    } else {
        hex_lower(bytes.drop_last()) + seq![
            hex_digit((bytes.last() / 16) as nat),
            hex_digit((bytes.last() % 16) as nat),
        ]
    }
}

/// Whether `c` is a lower-case hexadecimal digit.
pub open spec fn is_hex_digit(c: char) -> bool {
    ('0' <= c && c <= '9') || ('a' <= c && c <= 'f')
}

/// The hexadecimal text of `bytes` has two digits per byte, each a
/// lower-case hexadecimal digit.
pub proof fn lemma_hex_lower_shape(bytes: Seq<u8>)
    ensures
        hex_lower(bytes).len() == 2 * bytes.len(),
        forall|i: int| 0 <= i < hex_lower(bytes).len() ==> is_hex_digit(#[trigger] hex_lower(bytes)[i]),
    decreases bytes.len(),
{
    if bytes.len() > 0 {
        lemma_hex_lower_shape(bytes.drop_last());
        let prev = hex_lower(bytes.drop_last());
        let tail = seq![
            hex_digit((bytes.last() / 16) as nat),
            hex_digit((bytes.last() % 16) as nat),
        ];
        assert forall|i: int| 0 <= i < hex_lower(bytes).len() implies is_hex_digit(
            #[trigger] hex_lower(bytes)[i],
        ) by {
            if i < prev.len() {
                assert(hex_lower(bytes)[i] == prev[i]);
            } else {
                assert(hex_lower(bytes)[i] == tail[i - prev.len()]);
            }
        }
    }
}

fn hex_char(d: u8) -> (c: char)
    requires
        d < 16,
    ensures
        c == hex_digit(d as nat),
{
    if d < 10 { digit(d as usize) }
    else if d == 10 { 'a' } else if d == 11 { 'b' } else if d == 12 { 'c' }
    else if d == 13 { 'd' } else if d == 14 { 'e' } else { 'f' }
}

/// Lower-case hexadecimal text of `bytes`, two digits per byte.
pub fn to_hex_lower(bytes: &[u8]) -> (s: String)
    ensures
        s@ == hex_lower(bytes@),
{
    let mut s = String::new();
    let mut i: usize = 0;
    while i < bytes.len()
        invariant
            i <= bytes@.len(),
            s@ == hex_lower(bytes@.take(i as int)),
        decreases bytes.len() - i,
    {
        let b = bytes[i];
        push_char(&mut s, hex_char(b / 16));
        push_char(&mut s, hex_char(b % 16));
        assert(bytes@.take(i + 1).drop_last() =~= bytes@.take(i as int));
        i += 1;
    }
    assert(bytes@.take(i as int) =~= bytes@);
    s
}

} // verus!
