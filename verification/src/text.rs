//! Character-level string helpers shared by the parsers and formatters.

use vstd::prelude::*;

verus! {

/// Appends one character to a `String` (`String::push`).
#[verifier::external_body]
pub fn push_char(s: &mut String, c: char)
    ensures
        final(s)@ == old(s)@.push(c),
{
    s.push(c);
}

/// The characters of `s`, in order.
pub fn chars_of(s: &str) -> (v: Vec<char>)
    ensures
        v@ == s@,
{
    let mut v: Vec<char> = Vec::new();
    for c in it: s.chars()
        invariant
            it.seq() == s@,
            v@ == it.seq().take(it.index() as int),
    {
        v.push(c);
        assert(it.seq().take(it.index() + 1) =~= it.seq().take(it.index() as int).push(c));
    }
    v
}

/// A `String` holding `v[lo..hi]`.
pub fn string_from_range(v: &Vec<char>, lo: usize, hi: usize) -> (s: String)
    requires
        lo <= hi <= v.len(),
    ensures
        s@ == v@.subrange(lo as int, hi as int),
{
    let mut s = String::new();
    let mut i = lo;
    while i < hi
        invariant
            lo <= i <= hi <= v.len(),
            s@ == v@.subrange(lo as int, i as int),
        decreases hi - i,
    {
        push_char(&mut s, v[i]);
        assert(v@.subrange(lo as int, i + 1) =~= v@.subrange(lo as int, i as int).push(v@[i as int]));
        i = i + 1;
    }
    s
}

/// A `String` holding all of `v`.
pub fn string_from_chars(v: &Vec<char>) -> (s: String)
    ensures
        s@ == v@,
{
    let s = string_from_range(v, 0, v.len());
    assert(v@.subrange(0, v@.len() as int) =~= v@);
    s
}

/// Appends the characters of `v` to `out`.
pub fn append_chars(out: &mut String, v: &Vec<char>)
    ensures
        final(out)@ == old(out)@ + v@,
{
    let s = string_from_chars(v);
    out.append(s.as_str());
}

/// Whether two character sequences are equal.
pub fn seq_eq(a: &Vec<char>, b: &Vec<char>) -> (r: bool)
    ensures
        r == (a@ == b@),
{
    if a.len() != b.len() {
        return false;
    }
    let mut i: usize = 0;
    while i < a.len()
        invariant
            a.len() == b.len(),
            i <= a.len(),
            forall|j: int| 0 <= j < i ==> a@[j] == b@[j],
        decreases a.len() - i,
    {
        if a[i] != b[i] {
            return false;
        }
        i = i + 1;
    }
    assert(a@ =~= b@);
    true
}

/// Whether the text of `s` equals `t`.
pub fn str_is(s: &str, t: &str) -> (r: bool)
    ensures
        r == (s@ == t@),
{
    let a = chars_of(s);
    let b = chars_of(t);
    seq_eq(&a, &b)
}

// ── whitespace and trimming ─────────────────────────────────────────

/// Unicode `White_Space`, the property behind `char::is_whitespace`.
pub open spec fn is_ws(c: char) -> bool {
    let u = c as u32;
    ||| 0x09 <= u <= 0x0d
    ||| u == 0x20
    ||| u == 0x85
    ||| u == 0xa0
    ||| u == 0x1680
    ||| 0x2000 <= u <= 0x200a
    ||| u == 0x2028
    ||| u == 0x2029
    ||| u == 0x202f
    ||| u == 0x205f
    ||| u == 0x3000
}

pub fn char_is_ws(c: char) -> (b: bool)
    ensures
        b == is_ws(c),
{
    let u = c as u32;
    (0x09 <= u && u <= 0x0d) || u == 0x20 || u == 0x85 || u == 0xa0 || u == 0x1680 || (0x2000
        <= u && u <= 0x200a) || u == 0x2028 || u == 0x2029 || u == 0x202f || u == 0x205f || u
        == 0x3000
}

/// Every character of `s` is whitespace (so `s.trim()` is empty).
pub open spec fn all_ws(s: Seq<char>) -> bool {
    forall|i: int| 0 <= i < s.len() ==> is_ws(#[trigger] s[i])
}

/// `s` without leading whitespace.
pub open spec fn trim_start(s: Seq<char>) -> Seq<char>
    decreases s.len(),
{
    if s.len() > 0 && is_ws(s[0]) {
        trim_start(s.drop_first())
    } else {
        s
    }
}

/// `s` without trailing whitespace.
pub open spec fn trim_end(s: Seq<char>) -> Seq<char>
    decreases s.len(),
{
    if s.len() > 0 && is_ws(s.last()) {
        trim_end(s.drop_last())
    } else {
        s
    }
}

/// `s.trim()`: leading and trailing whitespace removed.
pub open spec fn trimmed(s: Seq<char>) -> Seq<char> {
    trim_end(trim_start(s))
}

proof fn lemma_trim_start_at(s: Seq<char>, i: int)
    requires
        0 <= i <= s.len(),
        forall|j: int| 0 <= j < i ==> is_ws(#[trigger] s[j]),
        i == s.len() || !is_ws(s[i]),
    ensures
        trim_start(s) == s.subrange(i, s.len() as int),
    decreases i,
{
    if i == 0 {
        assert(s.subrange(0, s.len() as int) =~= s);
    } else {
        assert(is_ws(s[0]));
        let t = s.drop_first();
        assert forall|j: int| 0 <= j < i - 1 implies is_ws(#[trigger] t[j]) by {
            assert(t[j] == s[j + 1]);
        }
        lemma_trim_start_at(t, i - 1);
        assert(t.subrange(i - 1, t.len() as int) =~= s.subrange(i, s.len() as int));
    }
}

proof fn lemma_trim_end_at(s: Seq<char>, k: int)
    requires
        0 <= k <= s.len(),
        forall|j: int| k <= j < s.len() ==> is_ws(#[trigger] s[j]),
        k == 0 || !is_ws(s[k - 1]),
    ensures
        trim_end(s) == s.subrange(0, k),
    decreases s.len() - k,
{
    if k == s.len() {
        assert(s.subrange(0, k) =~= s);
    } else {
        assert(is_ws(s.last()));
        let t = s.drop_last();
        assert forall|j: int| k <= j < t.len() implies is_ws(#[trigger] t[j]) by {
            assert(t[j] == s[j]);
        }
        lemma_trim_end_at(t, k);
        assert(t.subrange(0, k) =~= s.subrange(0, k));
    }
}

/// Bounds `[lo, hi)` of `s.trim()` inside `v`.
pub fn trim_bounds(v: &Vec<char>) -> (r: (usize, usize))
    ensures
        r.0 <= r.1 <= v.len(),
        trimmed(v@) == v@.subrange(r.0 as int, r.1 as int),
{
    let mut lo: usize = 0;
    while lo < v.len() && char_is_ws(v[lo])
        invariant
            lo <= v.len(),
            forall|j: int| 0 <= j < lo ==> is_ws(#[trigger] v@[j]),
        decreases v.len() - lo,
    {
        lo = lo + 1;
    }
    proof {
        lemma_trim_start_at(v@, lo as int);
    }
    let ghost rest = v@.subrange(lo as int, v@.len() as int);
    let mut hi: usize = v.len();
    while hi > lo && char_is_ws(v[hi - 1])
        invariant
            lo <= hi <= v.len(),
            forall|j: int| hi <= j < v.len() ==> is_ws(#[trigger] v@[j]),
        decreases hi,
    {
        hi = hi - 1;
    }
    proof {
        let k = hi - lo;
        assert forall|j: int| k <= j < rest.len() implies is_ws(#[trigger] rest[j]) by {
            assert(rest[j] == v@[j + lo]);
        }
        if k > 0 {
            assert(rest[k - 1] == v@[hi - 1]);
        }
        lemma_trim_end_at(rest, k as int);
        assert(rest.subrange(0, k as int) =~= v@.subrange(lo as int, hi as int));
    }
    (lo, hi)
}

/// `s.trim()` as an owned string.
pub fn trim(s: &str) -> (r: String)
    ensures
        r@ == trimmed(s@),
{
    let v = chars_of(s);
    let (lo, hi) = trim_bounds(&v);
    string_from_range(&v, lo, hi)
}

proof fn lemma_trimmed_empty(s: Seq<char>)
    ensures
        (trimmed(s).len() == 0) == all_ws(s),
    decreases s.len(),
{
    if s.len() > 0 && is_ws(s[0]) {
        lemma_trimmed_empty(s.drop_first());
        assert forall|i: int| 0 <= i < s.drop_first().len() implies s.drop_first()[i] == s[i + 1] by {}
        if all_ws(s.drop_first()) {
            assert forall|i: int| 0 <= i < s.len() implies is_ws(#[trigger] s[i]) by {
                if i > 0 {
                    assert(s[i] == s.drop_first()[i - 1]);
                }
            }
        }
    } else if s.len() > 0 {
        lemma_trim_end_nonempty(s);
    }
}

proof fn lemma_trim_end_nonempty(s: Seq<char>)
    requires
        s.len() > 0,
        !is_ws(s[0]),
    ensures
        trim_end(s).len() > 0,
    decreases s.len(),
{
    if is_ws(s.last()) {
        assert(s.len() > 1);
        assert(s.drop_last()[0] == s[0]);
        lemma_trim_end_nonempty(s.drop_last());
    }
}

/// `s.trim().is_empty()`.
pub fn is_blank(s: &str) -> (b: bool)
    ensures
        b == all_ws(s@),
        b == (trimmed(s@).len() == 0),
{
    proof {
        lemma_trimmed_empty(s@);
    }
    let v = chars_of(s);
    let mut i: usize = 0;
    while i < v.len()
        invariant
            v@ == s@,
            i <= v.len(),
            forall|j: int| 0 <= j < i ==> is_ws(#[trigger] v@[j]),
        decreases v.len() - i,
    {
        if !char_is_ws(v[i]) {
            assert(!is_ws(s@[i as int]));
            proof {
                lemma_trimmed_empty(s@);
            }
            return false;
        }
        i = i + 1;
    }
    assert(all_ws(s@));
    true
}


// ── decimal numbers ─────────────────────────────────────────────────

pub open spec fn digit_char(d: nat) -> char
    recommends
        d < 10,
{
    ((d + 48) as u8) as char
}

pub open spec fn is_digit(c: char) -> bool {
    '0' <= c <= '9'
}

pub open spec fn digit_value(c: char) -> nat {
    (c as u32 - 48) as nat
}

/// Decimal rendering of `n` (what `n.to_string()` prints).
pub open spec fn decimal(n: nat) -> Seq<char>
    decreases n,
{
    if n < 10 {
        seq![digit_char(n)]
    } else {
        decimal(n / 10).push(digit_char(n % 10))
    }
}

fn digit_to_char(d: u64) -> (c: char)
    requires
        d < 10,
    ensures
        c == digit_char(d as nat),
{
    if d == 0 { '0' } else if d == 1 { '1' } else if d == 2 { '2' } else if d == 3 { '3' }
    else if d == 4 { '4' } else if d == 5 { '5' } else if d == 6 { '6' } else if d == 7 { '7' }
    else if d == 8 { '8' } else { '9' }
}

/// Appends the decimal rendering of `n` to `out`.
pub fn push_decimal(out: &mut String, n: u64)
    ensures
        final(out)@ == old(out)@ + decimal(n as nat),
    decreases n,
{
    if n >= 10 {
        push_decimal(out, n / 10);
    }
    push_char(out, digit_to_char(n % 10));
    assert(old(out)@ + decimal(n as nat) =~= if n >= 10 {
        old(out)@ + decimal((n / 10) as nat) + seq![digit_char((n % 10) as nat)]
    } else {
        old(out)@ + seq![digit_char(n as nat)]
    });
}

/// `n.to_string()`.
pub fn decimal_string(n: u64) -> (s: String)
    ensures
        s@ == decimal(n as nat),
{
    let mut s = String::new();
    push_decimal(&mut s, n);
    assert(Seq::<char>::empty() + decimal(n as nat) =~= decimal(n as nat));
    s
}

/// Value of a run of decimal digits.
pub open spec fn digits_value(s: Seq<char>) -> nat
    decreases s.len(),
{
    if s.len() == 0 {
        0
    } else {
        digits_value(s.drop_last()) * 10 + digit_value(s.last())
    }
}

pub open spec fn all_digits(s: Seq<char>) -> bool {
    forall|i: int| 0 <= i < s.len() ==> is_digit(#[trigger] s[i])
}

/// What `str::parse::<u64>` accepts: an optional `+`, then one or more
/// ASCII digits whose value fits in a `u64`.
pub open spec fn parse_u64_spec(s: Seq<char>) -> Option<u64> {
    let d = if s.len() > 0 && s[0] == '+' { s.drop_first() } else { s };
    if d.len() > 0 && all_digits(d) && digits_value(d) <= u64::MAX {
        Some(digits_value(d) as u64)
    } else {
        None
    }
}

proof fn lemma_digits_value_grows(s: Seq<char>, k: int)
    requires
        0 <= k <= s.len(),
    ensures
        digits_value(s.take(k)) <= digits_value(s),
    decreases s.len() - k,
{
    if k < s.len() {
        lemma_digits_value_grows(s, k + 1);
        assert(s.take(k + 1).drop_last() =~= s.take(k));
    } else {
        assert(s.take(k) =~= s);
    }
}

/// `str::parse::<u64>` on the characters `v`.
pub fn parse_u64(v: &Vec<char>) -> (r: Option<u64>)
    ensures
        r == parse_u64_spec(v@),
{
    let start: usize = if v.len() > 0 && v[0] == '+' { 1 } else { 0 };
    let ghost d = if v@.len() > 0 && v@[0] == '+' { v@.drop_first() } else { v@ };
    assert(d =~= v@.subrange(start as int, v@.len() as int));
    if start >= v.len() {
        return None;
    }
    let mut acc: u64 = 0;
    let mut i = start;
    while i < v.len()
        invariant
            start <= i <= v.len(),
            d == v@.subrange(start as int, v@.len() as int),
            d == (if v@.len() > 0 && v@[0] == '+' { v@.drop_first() } else { v@ }),
            d.len() > 0,
            all_digits(d.take(i - start)),
            acc == digits_value(d.take(i - start)),
        decreases v.len() - i,
    {
        let c = v[i];
        assert(d[i - start] == c);
        if !('0' <= c && c <= '9') {
            assert(!all_digits(d));
            return None;
        }
        let dv = (c as u32 - 48) as u64;
        assert(d.take(i - start + 1).drop_last() =~= d.take(i - start));
        if acc > (u64::MAX - dv) / 10 {
            proof {
                lemma_digits_value_grows(d, i - start + 1);
            }
            assert(digits_value(d.take(i - start + 1)) > u64::MAX) by (nonlinear_arith)
                requires
                    acc > (u64::MAX - dv) / 10,
                    digits_value(d.take(i - start + 1)) == acc * 10 + dv,
                    dv < 10,
            ;
            return None;
        }
        assert(acc * 10 + dv <= u64::MAX) by (nonlinear_arith)
            requires
                acc <= (u64::MAX - dv) / 10,
                dv < 10,
        ;
        acc = acc * 10 + dv;
        assert forall|j: int| 0 <= j < i - start + 1 implies is_digit(#[trigger] d.take(i - start + 1)[j]) by {
            if j < i - start {
                assert(d.take(i - start + 1)[j] == d.take(i - start)[j]);
            }
        }
        i = i + 1;
    }
    assert(d.take(i - start) =~= d);
    Some(acc)
}

// ── HTML escaping ───────────────────────────────────────────────────

/// Entity text for one character: `& < > " '` become entities.
pub open spec fn escape_char(c: char) -> Seq<char> {
    if c == '&' {
        seq!['&', 'a', 'm', 'p', ';']
    } else if c == '<' {
        seq!['&', 'l', 't', ';']
    } else if c == '>' {
        seq!['&', 'g', 't', ';']
    } else if c == '"' {
        seq!['&', 'q', 'u', 'o', 't', ';']
    } else if c == '\'' {
        seq!['&', '#', '3', '9', ';']
    } else {
        seq![c]
    }
}

/// `s` with every character replaced by its entity text.
pub open spec fn html_escaped(s: Seq<char>) -> Seq<char>
    decreases s.len(),
{
    if s.len() == 0 {
        Seq::empty()
    } else {
        html_escaped(s.drop_last()) + escape_char(s.last())
    }
}

fn push_str_chars(out: &mut String, t: &str)
    ensures
        final(out)@ == old(out)@ + t@,
{
    out.append(t);
}

/// Escapes `& < > " '` for embedding in HTML.
pub fn html_escape(value: &str) -> (r: String)
    ensures
        r@ == html_escaped(value@),
{
    let v = chars_of(value);
    let mut out = String::new();
    let mut i: usize = 0;
    while i < v.len()
        invariant
            v@ == value@,
            i <= v.len(),
            out@ == html_escaped(v@.take(i as int)),
        decreases v.len() - i,
    {
        let c = v[i];
        let ghost before = out@;
        if c == '&' {
            push_char(&mut out, '&'); push_char(&mut out, 'a'); push_char(&mut out, 'm');
            push_char(&mut out, 'p'); push_char(&mut out, ';');
        } else if c == '<' {
            push_char(&mut out, '&'); push_char(&mut out, 'l'); push_char(&mut out, 't');
            push_char(&mut out, ';');
        } else if c == '>' {
            push_char(&mut out, '&'); push_char(&mut out, 'g'); push_char(&mut out, 't');
            push_char(&mut out, ';');
        } else if c == '"' {
            push_char(&mut out, '&'); push_char(&mut out, 'q'); push_char(&mut out, 'u');
            push_char(&mut out, 'o'); push_char(&mut out, 't'); push_char(&mut out, ';');
        } else if c == '\'' {
            push_char(&mut out, '&'); push_char(&mut out, '#'); push_char(&mut out, '3');
            push_char(&mut out, '9'); push_char(&mut out, ';');
        } else {
            push_char(&mut out, c);
        }
        assert(out@ =~= before + escape_char(c));
        assert(v@.take(i + 1).drop_last() =~= v@.take(i as int));
        i = i + 1;
    }
    assert(v@.take(i as int) =~= v@);
    out
}

// ── lines and truncation ────────────────────────────────────────────

/// First line as `str::lines` yields it: text up to the first `\n`, without
/// a `\r` right before that `\n`; empty text has no line, giving `""`.
pub open spec fn first_line_spec(s: Seq<char>) -> Seq<char> {
    if exists|i: int| 0 <= i < s.len() && s[i] == '\n' {
        let i = choose|i: int| 0 <= i < s.len() && s[i] == '\n' && forall|j: int| 0 <= j < i ==> s[j] != '\n';
        if i > 0 && s[i - 1] == '\r' {
            s.take(i - 1)
        } else {
            s.take(i)
        }
    } else {
        s
    }
}

/// First line of `s` (`s.lines().next().unwrap_or("")`).
pub fn first_line(s: &str) -> (r: String)
    ensures
        r@ == first_line_spec(s@),
{
    let v = chars_of(s);
    let mut i: usize = 0;
    while i < v.len()
        invariant
            v@ == s@,
            i <= v.len(),
            forall|j: int| 0 <= j < i ==> v@[j] != '\n',
        decreases v.len() - i,
    {
        if v[i] == '\n' {
            let end = if i > 0 && v[i - 1] == '\r' { i - 1 } else { i };
            proof {
                let k = choose|k: int| 0 <= k < s@.len() && s@[k] == '\n' && forall|j: int| 0 <= j < k ==> s@[j] != '\n';
                assert(k == i) by {
                    if k < i {
                        assert(v@[k] != '\n');
                    } else if k > i {
                        assert(s@[i as int] == '\n');
                    }
                }
            }
            let r = string_from_range(&v, 0, end);
            assert(v@.subrange(0, end as int) =~= s@.take(end as int));
            return r;
        }
        i = i + 1;
    }
    assert(v@.subrange(0, v@.len() as int) =~= s@);
    string_from_range(&v, 0, v.len())
}

/// Number of bytes UTF-8 uses for `c`.
pub open spec fn utf8_width(c: char) -> nat {
    let u = c as u32;
    if u < 0x80 {
        1
    } else if u < 0x800 {
        2
    } else if u < 0x10000 {
        3
    } else {
        4
    }
}

/// Length in UTF-8 bytes (what `str::len` reports).
pub open spec fn byte_len(s: Seq<char>) -> nat
    decreases s.len(),
{
    if s.len() == 0 {
        0
    } else {
        byte_len(s.drop_last()) + utf8_width(s.last())
    }
}

pub fn char_width(c: char) -> (w: usize)
    ensures
        w == utf8_width(c),
{
    let u = c as u32;
    if u < 0x80 {
        1
    } else if u < 0x800 {
        2
    } else if u < 0x10000 {
        3
    } else {
        4
    }
}

proof fn lemma_byte_len_mono(s: Seq<char>, k: int)
    requires
        0 <= k <= s.len(),
    ensures
        byte_len(s.take(k)) <= byte_len(s),
    decreases s.len() - k,
{
    if k < s.len() {
        lemma_byte_len_mono(s, k + 1);
        assert(s.take(k + 1).drop_last() =~= s.take(k));
    } else {
        assert(s.take(k) =~= s);
    }
}

/// Text of `truncate(s, max)`: unchanged when it fits in `max` bytes,
/// otherwise the longest whole-character prefix of at most `max` bytes,
/// then `…(N bytes total)`.
pub open spec fn truncated(s: Seq<char>, max: nat) -> Seq<char> {
    if byte_len(s) <= max {
        s
    } else {
        let k = choose|k: int| 0 <= k < s.len() && #[trigger] byte_len(s.take(k)) <= max
            && byte_len(s.take(k + 1)) > max;
        s.take(k) + seq!['…', '('] + decimal(byte_len(s)) + seq![' ', 'b', 'y', 't', 'e', 's', ' ', 't', 'o', 't', 'a', 'l', ')']
    }
}

/// Shortens a log line to at most `max` bytes, cut at a character boundary.
pub fn truncate(s: &str, max: usize) -> (r: String)
    requires
        byte_len(s@) <= u64::MAX,
    ensures
        r@ == truncated(s@, max as nat),
{
    let v = chars_of(s);
    let mut total: u64 = 0;
    let mut cut: usize = 0;
    let mut cut_found = false;
    let mut i: usize = 0;
    while i < v.len()
        invariant
            v@ == s@,
            i <= v.len(),
            byte_len(s@) <= u64::MAX,
            total == byte_len(v@.take(i as int)),
            cut_found ==> (cut < i && byte_len(v@.take(cut as int)) <= max && byte_len(v@.take(cut + 1)) > max),
            !cut_found ==> total <= max,
        decreases v.len() - i,
    {
        proof {
            lemma_byte_len_mono(v@, i + 1);
            assert(v@.take(i + 1).drop_last() =~= v@.take(i as int));
        }
        let w = char_width(v[i]);
        let next = total + w as u64;
        if !cut_found && next > max as u64 {
            cut_found = true;
            cut = i;
        }
        total = next;
        i = i + 1;
    }
    assert(v@.take(i as int) =~= v@);
    if !cut_found {
        return string_from_chars(&v);
    }
    proof {
        let k = choose|k: int| 0 <= k < s@.len() && #[trigger] byte_len(s@.take(k)) <= max
            && byte_len(s@.take(k + 1)) > max;
        assert(k == cut) by {
            if k < cut {
                lemma_byte_len_mono(s@.take(cut as int), k + 1);
                assert(s@.take(cut as int).take(k + 1) =~= s@.take(k + 1));
            } else if k > cut {
                lemma_byte_len_mono(s@.take(k), cut + 1);
                assert(s@.take(k).take(cut + 1) =~= s@.take(cut + 1));
            }
        }
    }
    proof {
        lemma_byte_len_mono(s@, cut + 1);
    }
    assert(total == byte_len(s@));
    assert(byte_len(s@) > max);
    let mut out = string_from_range(&v, 0, cut);
    push_char(&mut out, '…');
    push_char(&mut out, '(');
    push_decimal(&mut out, total);
    push_str_chars(&mut out, " bytes total)");
    proof {
        reveal_strlit(" bytes total)");
    }
    assert(v@.subrange(0, cut as int) =~= s@.take(cut as int));
    assert(out@ =~= s@.take(cut as int) + seq!['…', '('] + decimal(byte_len(s@)) + seq![' ', 'b', 'y', 't', 'e', 's', ' ', 't', 'o', 't', 'a', 'l', ')']);
    out
}


/// Whether `s` begins with `prefix`.
pub fn starts_with(s: &str, prefix: &str) -> (b: bool)
    ensures
        b == (prefix@.len() <= s@.len() && s@.take(prefix@.len() as int) == prefix@),
{
    let a = chars_of(s);
    let p = chars_of(prefix);
    if p.len() > a.len() {
        return false;
    }
    let mut i: usize = 0;
    while i < p.len()
        invariant
            a@ == s@,
            p@ == prefix@,
            p.len() <= a.len(),
            i <= p.len(),
            forall|j: int| 0 <= j < i ==> a@[j] == p@[j],
        decreases p.len() - i,
    {
        if a[i] != p[i] {
            assert(s@.take(prefix@.len() as int)[i as int] != prefix@[i as int]);
            return false;
        }
        i = i + 1;
    }
    assert(s@.take(prefix@.len() as int) =~= prefix@);
    true
}

/// `a` followed by `b`.
pub fn concat2(a: &str, b: &str) -> (r: String)
    ensures
        r@ == a@ + b@,
{
    let mut r = a.to_owned();
    r.append(b);
    r
}


// ── ordering ────────────────────────────────────────────────────────

/// Lexicographic order of code points (the order of `String`'s `Ord`).
pub open spec fn seq_lt(a: Seq<char>, b: Seq<char>) -> bool
    decreases a.len(),
{
    if b.len() == 0 {
        false
    } else if a.len() == 0 {
        true
    } else if a[0] != b[0] {
        a[0] < b[0]
    } else {
        seq_lt(a.drop_first(), b.drop_first())
    }
}

/// No text is before itself.
pub proof fn lemma_seq_lt_irreflexive(a: Seq<char>)
    ensures
        !seq_lt(a, a),
    decreases a.len(),
{
    if a.len() > 0 {
        lemma_seq_lt_irreflexive(a.drop_first());
    }
}

/// Text order is transitive.
pub proof fn lemma_seq_lt_transitive(a: Seq<char>, b: Seq<char>, c: Seq<char>)
    requires
        seq_lt(a, b),
        seq_lt(b, c),
    ensures
        seq_lt(a, c),
    decreases a.len(),
{
    if a.len() > 0 && b.len() > 0 && c.len() > 0 && a[0] == b[0] && b[0] == c[0] {
        lemma_seq_lt_transitive(a.drop_first(), b.drop_first(), c.drop_first());
    }
}

/// Exactly one of `a < b`, `a == b`, `b < a`.
pub proof fn lemma_seq_lt_total(a: Seq<char>, b: Seq<char>)
    ensures
        seq_lt(a, b) || a == b || seq_lt(b, a),
        !(seq_lt(a, b) && seq_lt(b, a)),
    decreases a.len(),
{
    if a.len() > 0 && b.len() > 0 && a[0] == b[0] {
        lemma_seq_lt_total(a.drop_first(), b.drop_first());
        if a.drop_first() == b.drop_first() {
            assert forall|i: int| 0 <= i < a.len() implies a[i] == b[i] by {
                if i > 0 {
                    assert(a[i] == a.drop_first()[i - 1]);
                    assert(b[i] == b.drop_first()[i - 1]);
                }
            }
            assert(a =~= b);
        }
    } else if a.len() == 0 && b.len() == 0 {
        assert(a =~= b);
    }
}

/// Whether `a` sorts before `b`.
pub fn str_lt(a: &str, b: &str) -> (r: bool)
    ensures
        r == seq_lt(a@, b@),
{
    let x = chars_of(a);
    let y = chars_of(b);
    let mut i: usize = 0;
    assert(a@.skip(0) =~= a@);
    assert(b@.skip(0) =~= b@);
    while i < x.len() && i < y.len() && x[i] == y[i]
        invariant
            x@ == a@,
            y@ == b@,
            i <= x.len(),
            i <= y.len(),
            seq_lt(a@, b@) == seq_lt(a@.skip(i as int), b@.skip(i as int)),
        decreases x.len() - i,
    {
        assert(a@.skip(i as int).drop_first() =~= a@.skip(i + 1));
        assert(b@.skip(i as int).drop_first() =~= b@.skip(i + 1));
        i = i + 1;
    }
    if i == y.len() {
        false
    } else if i == x.len() {
        true
    } else {
        assert(a@.skip(i as int)[0] == x@[i as int]);
        assert(b@.skip(i as int)[0] == y@[i as int]);
        x[i] < y[i]
    }
}

/// Decimal rendering of a signed value (what `{}` prints).
pub open spec fn signed_decimal(n: int) -> Seq<char> {
    if n < 0 {
        seq!['-'] + decimal((-n) as nat)
    } else {
        decimal(n as nat)
    }
}

/// Appends the decimal rendering of `n` to `out`.
pub fn push_signed(out: &mut String, n: i64)
    ensures
        final(out)@ == old(out)@ + signed_decimal(n as int),
{
    if n < 0 {
        push_char(out, '-');
        let m: u64 = if n == i64::MIN { 9223372036854775808u64 } else { (-n) as u64 };
        push_decimal(out, m);
        assert(old(out)@ + signed_decimal(n as int) =~= old(out)@.push('-') + decimal(m as nat));
    } else {
        push_decimal(out, n as u64);
    }
}


// ── searching ───────────────────────────────────────────────────────

/// `i` is the position of the first `c` in `s`.
pub open spec fn is_first_index(s: Seq<char>, c: char, i: int) -> bool {
    0 <= i < s.len() && s[i] == c && forall|j: int| 0 <= j < i ==> s[j] != c
}

/// Position of the first `c` in `s` (`str::find` on a character).
pub open spec fn first_index(s: Seq<char>, c: char) -> Option<int> {
    if exists|i: int| #[trigger] is_first_index(s, c, i) {
        Some(choose|i: int| #[trigger] is_first_index(s, c, i))
    } else {
        None
    }
}

proof fn lemma_first_index_unique(s: Seq<char>, c: char, i: int)
    requires
        is_first_index(s, c, i),
    ensures
        first_index(s, c) == Some(i),
{
    let k = choose|k: int| #[trigger] is_first_index(s, c, k);
    assert(is_first_index(s, c, k));
    if k < i {
        assert(s[k] != c);
    } else if i < k {
        assert(s[i] != c);
    }
}

/// The view of an optional string.
pub open spec fn opt_str(s: Option<String>) -> Option<Seq<char>> {
    match s {
        Some(t) => Some(t@),
        None => None,
    }
}

/// Index of the first `c` in `v`.
pub fn find_char(v: &Vec<char>, c: char) -> (r: Option<usize>)
    ensures
        match r {
            Some(i) => i < v@.len() && first_index(v@, c) == Some(i as int),
            None => first_index(v@, c) is None && forall|j: int| 0 <= j < v@.len() ==> v@[j] != c,
        },
{
    let mut i: usize = 0;
    while i < v.len()
        invariant
            i <= v.len(),
            forall|j: int| 0 <= j < i ==> v@[j] != c,
        decreases v.len() - i,
    {
        if v[i] == c {
            proof {
                lemma_first_index_unique(v@, c, i as int);
            }
            return Some(i);
        }
        i = i + 1;
    }
    assert(!exists|k: int| #[trigger] is_first_index(v@, c, k));
    None
}

/// Whether every character of `v` is an ASCII digit.
pub fn all_ascii_digits(v: &Vec<char>) -> (b: bool)
    ensures
        b == all_digits(v@),
{
    let mut i: usize = 0;
    while i < v.len()
        invariant
            i <= v.len(),
            forall|j: int| 0 <= j < i ==> is_digit(#[trigger] v@[j]),
        decreases v.len() - i,
    {
        if !('0' <= v[i] && v[i] <= '9') {
            return false;
        }
        i = i + 1;
    }
    true
}


/// `needle` occurs in `hay` (`str::contains`).
pub open spec fn occurs_in(hay: Seq<char>, needle: Seq<char>) -> bool {
    exists|i: int| 0 <= i && i + needle.len() <= hay.len() && #[trigger] hay.subrange(i, i + needle.len()) == needle
}

fn matches_at(h: &Vec<char>, n: &Vec<char>, i: usize) -> (b: bool)
    requires
        i + n@.len() <= h@.len(),
    ensures
        b == (h@.subrange(i as int, i + n@.len()) == n@),
{
    let mut k: usize = 0;
    while k < n.len()
        invariant
            k <= n@.len(),
            i + n@.len() <= h@.len(),
            h@.len() == h.len(),
            forall|j: int| 0 <= j < k ==> h@[i + j] == n@[j],
        decreases n@.len() - k,
    {
        if h[i + k] != n[k] {
            assert(h@.subrange(i as int, i + n@.len())[k as int] != n@[k as int]);
            return false;
        }
        k = k + 1;
    }
    assert(h@.subrange(i as int, i + n@.len()) =~= n@);
    true
}

/// Whether `needle` occurs in `hay`.
pub fn contains_text(hay: &str, needle: &str) -> (b: bool)
    ensures
        b == occurs_in(hay@, needle@),
{
    let h = chars_of(hay);
    let n = chars_of(needle);
    if n.len() > h.len() {
        return false;
    }
    let limit = h.len() - n.len();
    let mut i: usize = 0;
    while i < limit
        invariant
            h@ == hay@,
            n@ == needle@,
            limit == h@.len() - n@.len(),
            i <= limit,
            forall|j: int| 0 <= j < i ==> #[trigger] h@.subrange(j, j + n@.len()) != n@,
        decreases limit - i,
    {
        if matches_at(&h, &n, i) {
            return true;
        }
        i = i + 1;
    }
    if matches_at(&h, &n, limit) {
        return true;
    }
    assert(!exists|j: int| 0 <= j && j + needle@.len() <= hay@.len() && #[trigger] hay@.subrange(j, j + needle@.len()) == needle@);
    false
}


/// ASCII lower case of one character.
pub open spec fn lower_char(c: char) -> char {
    if 'A' <= c <= 'Z' {
        ((c as u8) + 32) as char
    } else {
        c
    }
}

/// `str::to_ascii_lowercase`.
pub open spec fn lower_ascii(s: Seq<char>) -> Seq<char> {
    s.map_values(|c: char| lower_char(c))
}

/// The text with ASCII letters in lower case.
pub fn to_lower_ascii(s: &str) -> (r: String)
    ensures
        r@ == lower_ascii(s@),
{
    let v = chars_of(s);
    let mut r = String::new();
    let mut i: usize = 0;
    while i < v.len()
        invariant
            i <= v@.len(),
            v@ == s@,
            r@ == lower_ascii(s@).take(i as int),
        decreases v@.len() - i,
    {
        let c = v[i];
        let l = if 'A' <= c && c <= 'Z' {
            ((c as u8) + 32) as char
        } else {
            c
        };
        push_char(&mut r, l);
        assert(lower_ascii(s@).take(i + 1) =~= lower_ascii(s@).take(i as int).push(l));
        i = i + 1;
    }
    assert(lower_ascii(s@).take(i as int) =~= lower_ascii(s@));
    r
}


proof fn lemma_first_index_bound(s: Seq<char>, c: char)
    ensures
        match first_index(s, c) {
            Some(i) => is_first_index(s, c, i),
            None => forall|j: int| 0 <= j < s.len() ==> s[j] != c,
        },
{
    if !exists|i: int| #[trigger] is_first_index(s, c, i) {
        assert forall|j: int| 0 <= j < s.len() implies s[j] != c by {
            if s[j] == c {
                // the first `c` at or before `j` would be a first index
                let k = choose_first(s, c, j);
                assert(is_first_index(s, c, k));
            }
        }
    }
}

proof fn choose_first(s: Seq<char>, c: char, j: int) -> (k: int)
    requires
        0 <= j < s.len(),
        s[j] == c,
    ensures
        is_first_index(s, c, k),
    decreases j,
{
    if exists|i: int| 0 <= i < j && s[i] == c {
        let i = choose|i: int| 0 <= i < j && s[i] == c;
        choose_first(s, c, i)
    } else {
        j
    }
}

/// What follows the last `c` (all of `s` when there is none).
pub open spec fn after_last(s: Seq<char>, c: char) -> Seq<char>
    decreases s.len(),
{
    if s.len() == 0 {
        s
    } else if s.last() == c {
        Seq::empty()
    } else {
        after_last(s.drop_last(), c).push(s.last())
    }
}

/// The characters after the last `c` of `v` (all of them when there is
/// none): `rsplit(c).next()`, `split(c).last()`.
pub fn after_last_char(v: &Vec<char>, c: char) -> (r: Vec<char>)
    ensures
        r@ == after_last(v@, c),
{
    let mut p: usize = v.len();
    assert(v@.subrange(p as int, v@.len() as int) =~= Seq::<char>::empty());
    assert(v@.take(p as int) =~= v@);
    assert(after_last(v@.take(p as int), c) + Seq::<char>::empty() =~= after_last(v@, c));
    while p > 0 && v[p - 1] != c
        invariant
            p <= v@.len(),
            after_last(v@, c) == after_last(v@.take(p as int), c) + v@.subrange(p as int, v@.len() as int),
        decreases p,
    {
        let ghost t = v@.take(p as int);
        assert(t.drop_last() =~= v@.take(p - 1));
        assert(t.last() == v@[p - 1]);
        assert(after_last(t, c) == after_last(v@.take(p - 1), c).push(v@[p - 1]));
        assert(after_last(v@.take(p - 1), c).push(v@[p - 1]) + v@.subrange(p as int, v@.len() as int)
            =~= after_last(v@.take(p - 1), c) + v@.subrange(p - 1, v@.len() as int));
        p = p - 1;
    }
    proof {
        if p > 0 {
            assert(v@.take(p as int).last() == v@[p - 1]);
        }
        assert(after_last(v@.take(p as int), c) =~= Seq::<char>::empty());
        assert(Seq::<char>::empty() + v@.subrange(p as int, v@.len() as int) =~= v@.subrange(
            p as int,
            v@.len() as int,
        ));
    }
    let mut out: Vec<char> = Vec::new();
    let mut k: usize = p;
    while k < v.len()
        invariant
            p <= k <= v@.len(),
            out@ == v@.subrange(p as int, k as int),
        decreases v@.len() - k,
    {
        out.push(v[k]);
        assert(out@ =~= v@.subrange(p as int, k + 1));
        k = k + 1;
    }
    out
}

/// The text before the first `c` (all of it when there is none).
pub open spec fn before_char(s: Seq<char>, c: char) -> Seq<char> {
    match first_index(s, c) {
        Some(i) => s.take(i),
        None => s,
    }
}

/// The text after the first `c`, if there is one.
pub open spec fn after_char(s: Seq<char>, c: char) -> Option<Seq<char>> {
    match first_index(s, c) {
        Some(i) => Some(s.skip(i + 1)),
        None => None,
    }
}

/// What follows a character is shorter than the text, and what comes
/// before it no longer.
pub proof fn lemma_after_char_shorter(s: Seq<char>, c: char)
    ensures
        after_char(s, c) matches Some(r) ==> r.len() < s.len(),
        before_char(s, c).len() <= s.len(),
{
    lemma_first_index_bound(s, c);
}

/// Splits `v` at its first `c`: the text before it and, if there is a
/// `c`, the text after it.
pub fn split_once_char(v: &Vec<char>, c: char) -> (r: (Vec<char>, Option<Vec<char>>))
    ensures
        r.0@ == before_char(v@, c),
        match r.1 {
            Some(a) => after_char(v@, c) == Some(a@),
            None => after_char(v@, c) is None,
        },
{
    proof {
        lemma_first_index_bound(v@, c);
    }
    match find_char(v, c) {
        Some(i) => {
            let mut before: Vec<char> = Vec::new();
            let mut k: usize = 0;
            while k < i
                invariant
                    k <= i < v@.len(),
                    before@ == v@.take(k as int),
                decreases i - k,
            {
                before.push(v[k]);
                assert(v@.take(k + 1) =~= v@.take(k as int).push(v@[k as int]));
                k = k + 1;
            }
            let mut after: Vec<char> = Vec::new();
            assert(i < v.len());
            let mut j: usize = i + 1;
            while j < v.len()
                invariant
                    i + 1 <= j <= v@.len(),
                    after@ == v@.subrange(i + 1, j as int),
                decreases v@.len() - j,
            {
                after.push(v[j]);
                assert(v@.subrange(i + 1, j + 1) =~= v@.subrange(i + 1, j as int).push(v@[j as int]));
                j = j + 1;
            }
            assert(after@ =~= v@.skip(i + 1));
            (before, Some(after))
        },
        None => {
            let mut all: Vec<char> = Vec::new();
            let mut k: usize = 0;
            while k < v.len()
                invariant
                    k <= v@.len(),
                    all@ == v@.take(k as int),
                decreases v@.len() - k,
            {
                all.push(v[k]);
                assert(v@.take(k + 1) =~= v@.take(k as int).push(v@[k as int]));
                k = k + 1;
            }
            assert(all@ =~= v@);
            (all, None)
        },
    }
}


/// Decimal text reads back as the number it writes.
pub proof fn lemma_decimal_digits(n: nat)
    ensures
        decimal(n).len() > 0,
        all_digits(decimal(n)),
        digits_value(decimal(n)) == n,
    decreases n,
{
    if n < 10 {
        assert(decimal(n) == seq![digit_char(n)]);
        assert(decimal(n).drop_last() =~= Seq::<char>::empty());
        assert(digits_value(Seq::<char>::empty()) == 0);
        assert(digit_value(digit_char(n)) == n);
        assert(digits_value(decimal(n)) == digits_value(decimal(n).drop_last()) * 10 + digit_value(decimal(n).last()));
    } else {
        lemma_decimal_digits(n / 10);
        let d = decimal(n);
        assert(d.drop_last() =~= decimal(n / 10));
        assert(d.last() == digit_char(n % 10));
        assert(digit_value(digit_char(n % 10)) == n % 10);
        assert(digits_value(d) == digits_value(d.drop_last()) * 10 + digit_value(d.last()));
        assert(digits_value(d) == (n / 10) * 10 + n % 10);
        assert forall|i: int| 0 <= i < d.len() implies is_digit(#[trigger] d[i]) by {
            if i < d.len() - 1 {
                assert(d[i] == decimal(n / 10)[i]);
            }
        }
    }
}

/// Escaped text holds no `<`, `>`, `"` or `'`: nothing in it can open or
/// close markup or an attribute value.
pub proof fn html_escaped_has_no_markup(s: Seq<char>)
    ensures
        forall|i: int| 0 <= i < html_escaped(s).len() ==> {
            let c = #[trigger] html_escaped(s)[i];
            c != '<' && c != '>' && c != '"' && c != '\''
        },
    decreases s.len(),
{
    if s.len() > 0 {
        html_escaped_has_no_markup(s.drop_last());
        let p = html_escaped(s.drop_last());
        let e = escape_char(s.last());
        assert(html_escaped(s) == p + e);
        assert forall|i: int| 0 <= i < html_escaped(s).len() implies {
            let c = #[trigger] html_escaped(s)[i];
            c != '<' && c != '>' && c != '"' && c != '\''
        } by {
            if i < p.len() {
                assert(html_escaped(s)[i] == p[i]);
            } else {
                assert(html_escaped(s)[i] == e[i - p.len()]);
            }
        }
    }
}

} // verus!
