//! Paging through a chat's history: the cursor of the next older page.
//! Cursors are message times in microseconds, written in decimal.

use vstd::prelude::*;

use crate::text::{self, all_digits, digits_value, parse_u64_spec, signed_decimal};

verus! {

/// What `str::parse::<i64>` accepts: an optional sign, then one or more
/// ASCII digits whose value fits.
pub open spec fn parse_i64_spec(s: Seq<char>) -> Option<i64> {
    if s.len() > 0 && s[0] == '-' {
        let d = s.drop_first();
        if d.len() > 0 && all_digits(d) && digits_value(d) <= 9223372036854775808 {
            Some((-(digits_value(d) as int)) as i64)
        } else {
            None
        }
    } else {
        let d = if s.len() > 0 && s[0] == '+' { s.drop_first() } else { s };
        if d.len() > 0 && all_digits(d) && digits_value(d) <= i64::MAX {
            Some(digits_value(d) as i64)
        } else {
            None
        }
    }
}

/// `str::parse::<i64>`.
pub fn parse_i64(s: &str) -> (r: Option<i64>)
    ensures
        r == parse_i64_spec(s@),
{
    let v = text::chars_of(s);
    if v.len() == 0 {
        return None;
    }
    let negative = v[0] == '-';
    let start: usize = if v[0] == '-' || v[0] == '+' { 1 } else { 0 };
    let rest = text::string_from_range(&v, start, v.len());
    let d = text::chars_of(rest.as_str());
    assert(d@ =~= v@.subrange(start as int, v@.len() as int));
    assert(negative ==> d@ =~= s@.drop_first());
    assert(!negative && s@[0] == '+' ==> d@ =~= s@.drop_first());
    assert(!negative && s@[0] != '+' ==> d@ =~= s@);
    if d.len() == 0 || !('0' <= d[0] && d[0] <= '9') {
        proof {
            if d@.len() > 0 {
                assert(!all_digits(d@));
            }
        }
        return None;
    }
    assert(parse_u64_spec(d@) == (if all_digits(d@) && digits_value(d@) <= u64::MAX {
        Some(digits_value(d@) as u64)
    } else {
        None
    }));
    match text::parse_u64(&d) {
        None => None,
        Some(n) => {
            if negative {
                if n <= 9223372036854775808u64 {
                    if n == 9223372036854775808u64 {
                        Some(i64::MIN)
                    } else {
                        Some(-(n as i64))
                    }
                } else {
                    None
                }
            } else {
                if n <= 9223372036854775807u64 {
                    Some(n as i64)
                } else {
                    None
                }
            }
        },
    }
}

/// The smallest of some times.
pub open spec fn min_of(s: Seq<i64>) -> i64
    decreases s.len(),
{
    if s.len() <= 1 {
        s[0]
    } else if s.last() < min_of(s.drop_last()) {
        s.last()
    } else {
        min_of(s.drop_last())
    }
}

proof fn lemma_min_of(s: Seq<i64>)
    requires
        s.len() > 0,
    ensures
        s.contains(min_of(s)),
        forall|i: int| 0 <= i < s.len() ==> min_of(s) <= #[trigger] s[i],
    decreases s.len(),
{
    if s.len() > 1 {
        lemma_min_of(s.drop_last());
        let m = min_of(s.drop_last());
        assert forall|i: int| 0 <= i < s.len() implies min_of(s) <= #[trigger] s[i] by {
            if i < s.len() - 1 {
                assert(s[i] == s.drop_last()[i]);
            }
        }
        if !(s.last() < m) {
            let j = choose|j: int| 0 <= j < s.drop_last().len() && s.drop_last()[j] == m;
            assert(s[j] == m);
        } else {
            assert(s[s.len() - 1] == s.last());
        }
    } else {
        assert(s[0] == s[0]);
    }
}

/// Cursor of the page before a loaded page of `limit` messages with these
/// times: none when the page came back short (or empty), otherwise just
/// before its oldest message.
pub open spec fn next_cursor_of(created: Seq<i64>, limit: nat) -> Option<Seq<char>> {
    if created.len() < limit || created.len() == 0 {
        None
    } else {
        Some(signed_decimal(min_of(created) - 1))
    }
}

pub fn next_history_cursor(created_micros: &Vec<i64>, limit: usize) -> (r: Option<String>)
    requires
        forall|i: int| 0 <= i < created_micros@.len() ==> #[trigger] created_micros@[i] > i64::MIN,
    ensures
        text::opt_str(r) == next_cursor_of(created_micros@, limit as nat),
{
    if created_micros.len() < limit || created_micros.len() == 0 {
        return None;
    }
    let mut m = created_micros[0];
    let mut i: usize = 1;
    assert(created_micros@.take(1) =~= seq![created_micros@[0]]);
    while i < created_micros.len()
        invariant
            1 <= i <= created_micros@.len(),
            m == min_of(created_micros@.take(i as int)),
        decreases created_micros@.len() - i,
    {
        let ghost t = created_micros@.take(i + 1);
        assert(t.drop_last() =~= created_micros@.take(i as int));
        if created_micros[i] < m {
            m = created_micros[i];
        }
        i = i + 1;
    }
    assert(created_micros@.take(i as int) =~= created_micros@);
    proof {
        lemma_min_of(created_micros@);
    }
    let mut s = String::new();
    text::push_signed(&mut s, m - 1);
    Some(s)
}

/// Where to continue loading older history: the cursor the server gave
/// when it is a number; otherwise just before the message the page
/// continues from, when it is known.
pub open spec fn resolved_cursor(cursor: Option<Seq<char>>, known: Option<i64>) -> Option<i64> {
    let given = match cursor {
        Some(c) => if c.len() > 0 {
            parse_i64_spec(c)
        } else {
            None
        },
        None => None,
    };
    match given {
        Some(v) => Some(v),
        None => match known {
            Some(t) => Some((t - 1) as i64),
            None => None,
        },
    }
}

pub fn resolve_history_cursor(cursor: Option<&str>, known_created: Option<i64>) -> (r: Option<i64>)
    requires
        known_created matches Some(t) ==> t > i64::MIN,
    ensures
        r == resolved_cursor(crate::goloom::opt_view(cursor), known_created),
{
    match cursor {
        Some(c) => if !c.is_empty() {
            match parse_i64(c) {
                Some(v) => {
                    return Some(v);
                },
                None => {},
            }
        },
        None => {},
    }
    match known_created {
        Some(t) => Some(t - 1),
        None => None,
    }
}


proof fn lemma_parse_signed(x: i64)
    ensures
        parse_i64_spec(signed_decimal(x as int)) == Some(x),
{
    if x < 0 {
        let n = (-(x as int)) as nat;
        text::lemma_decimal_digits(n);
        let sd = signed_decimal(x as int);
        assert(sd == seq!['-'] + text::decimal(n));
        assert(sd.drop_first() =~= text::decimal(n));
        assert(sd[0] == '-');
    } else {
        text::lemma_decimal_digits(x as nat);
        let d = text::decimal(x as nat);
        assert(text::is_digit(d[0]));
    }
}

/// A cursor written for the next page reads back as the time just before
/// the page's oldest message.
pub proof fn cursor_roundtrip(created: Seq<i64>, limit: nat, known: Option<i64>)
    requires
        created.len() > 0,
        created.len() >= limit,
        forall|i: int| 0 <= i < created.len() ==> #[trigger] created[i] > i64::MIN,
    ensures
        next_cursor_of(created, limit) matches Some(c) && resolved_cursor(Some(c), known) == Some(
            (min_of(created) - 1) as i64,
        ),
{
    lemma_min_of(created);
    let m = min_of(created);
    let j = choose|j: int| 0 <= j < created.len() && created[j] == m;
    assert(created[j] > i64::MIN);
    let x = (m - 1) as i64;
    lemma_parse_signed(x);
    text::lemma_decimal_digits(if x < 0 { (-(x as int)) as nat } else { x as nat });
    assert(signed_decimal(m - 1).len() > 0);
}

} // verus!
