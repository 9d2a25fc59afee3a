use vstd::prelude::*;
use vstd::string::*;

verus! {

/// The decimal digits of `n`, without leading zeros.
pub open spec fn digits(n: nat) -> Seq<char>
    decreases n,
{
    if n < 10 {
        seq![(n + 48) as char]
    } else {
        digits(n / 10).push(((n % 10) + 48) as char)
    }
}

/// `n` written in decimal, with a leading `-` when negative.
pub open spec fn decimal(n: int) -> Seq<char> {
    if n < 0 {
        seq!['-'] + digits((-n) as nat)
    } else {
        digits(n as nat)
    }
}

fn digit_text(d: u128) -> (r: &'static str)
    requires
        d < 10,
    ensures
        r@ == seq![(d + 48) as char],
{
    proof {
        reveal_strlit("0");
        reveal_strlit("1");
        reveal_strlit("2");
        reveal_strlit("3");
        reveal_strlit("4");
        reveal_strlit("5");
        reveal_strlit("6");
        reveal_strlit("7");
        reveal_strlit("8");
        reveal_strlit("9");
    }
    match d {
        0 => "0",
        1 => "1",
        2 => "2",
        3 => "3",
        4 => "4",
        5 => "5",
        6 => "6",
        7 => "7",
        8 => "8",
        _ => "9",
    }
}

fn append_digits(out: &mut String, n: u128)
    ensures
        final(out)@ == old(out)@ + digits(n as nat),
    decreases n,
{
    if n >= 10 {
        append_digits(out, n / 10);
    }
    out.append(digit_text(n % 10));
    assert(final(out)@ =~= old(out)@ + digits(n as nat));
}

/// `n` in decimal, with a leading `-` when negative.
pub(crate) fn int_text(n: i128) -> (r: String)
    ensures
        r@ == decimal(n as int),
{
    let mut r = String::new();
    if n < 0 {
        r.append("-");
        proof {
            reveal_strlit("-");
        }
        let m: u128 = ((-(n + 1)) as u128) + 1;
        append_digits(&mut r, m);
        assert(r@ =~= decimal(n as int));
    } else {
        append_digits(&mut r, n as u128);
        assert(r@ =~= decimal(n as int));
    }
    r
}

/// `s` with every occurrence of `from`, taken left to right without
/// overlap, replaced by `to`.
pub open spec fn replace_all(s: Seq<char>, from: Seq<char>, to: Seq<char>) -> Seq<char>
    decreases s.len(),
{
    if s.len() == 0 || from.len() == 0 {
        s
    } else if from.len() <= s.len() && s.take(from.len() as int) == from {
        to + replace_all(s.skip(from.len() as int), from, to)
    } else {
        seq![s[0]] + replace_all(s.skip(1), from, to)
    }
}

/// Relies on `str::replace`: all non-overlapping matches of `from`, found
/// left to right, are replaced by `to`.
#[verifier::external_body]
pub(crate) fn replace_text(s: &str, from: &str, to: &str) -> (r: String)
    requires
        from@.len() > 0,
    ensures
        r@ == replace_all(s@, from@, to@),
{
    s.replace(from, to)
}

/// Integer division rounding toward zero, as `i64` division does.
pub open spec fn div_toward_zero(a: int, d: int) -> int {
    if a >= 0 {
        a / d
    } else {
        -((-a) / d)
    }
}

/// `n` followed by `unit`, plural unless `n` is one.
pub open spec fn count_phrase(n: int, unit: Seq<char>) -> Seq<char> {
    decimal(n) + seq![' '] + unit + (if n == 1 {
        Seq::<char>::empty()
    } else {
        seq!['s']
    })
}

/// A duration of `seconds` as words: seconds below a minute, then whole
/// minutes, hours, and days.
pub open spec fn duration_phrase(seconds: int) -> Seq<char> {
    if 0 <= seconds <= 59 {
        count_phrase(seconds, "second"@)
    } else if 60 <= seconds <= 3599 {
        count_phrase(seconds / 60, "minute"@)
    } else if 3600 <= seconds <= 86399 {
        count_phrase(seconds / 3600, "hour"@)
    } else {
        count_phrase(div_toward_zero(seconds, 86400), "day"@)
    }
}

fn count_text(n: i64, unit: &str) -> (r: String)
    ensures
        r@ == count_phrase(n as int, unit@),
{
    let mut r = int_text(n as i128);
    r.append(" ");
    r.append(unit);
    if n != 1 {
        r.append("s");
    }
    proof {
        reveal_strlit(" ");
        reveal_strlit("s");
    }
    r
}

/// Renders a duration given in seconds, as "3 minutes" or "1 day".
pub fn time_to_string(seconds: i64) -> (r: String)
    ensures
        r@ == duration_phrase(seconds as int),
{
    if 0 <= seconds && seconds <= 59 {
        count_text(seconds, "second")
    } else if 60 <= seconds && seconds <= 3599 {
        count_text(seconds / 60, "minute")
    } else if 3600 <= seconds && seconds <= 86399 {
        count_text(seconds / 3600, "hour")
    } else if seconds >= 0 {
        count_text(seconds / 86400, "day")
    } else {
        let d: i128 = -((-(seconds as i128)) / 86400);
        count_text(d as i64, "day")
    }
}

/// Most characters in one message on the chat platform.
pub const CHUNK_CHARS: usize = 2000;

/// Position of the last `c` in `w`, if any.
pub open spec fn last_index_of(w: Seq<char>, c: char) -> Option<int>
    decreases w.len(),
{
    if w.len() == 0 {
        None
    } else if w.last() == c {
        Some(w.len() - 1)
    } else {
        last_index_of(w.drop_last(), c)
    }
}

/// Where a full window is cut: just after its last newline, else its last
/// period, else its last space, else at its end.
pub open spec fn split_point(w: Seq<char>) -> int {
    match last_index_of(w, '\n') {
        Some(i) => i + 1,
        None => match last_index_of(w, '.') {
            Some(i) => i + 1,
            None => match last_index_of(w, ' ') {
                Some(i) => i + 1,
                None => w.len() as int,
            },
        },
    }
}

pub proof fn lemma_last_index_bounds(w: Seq<char>, c: char)
    ensures
        last_index_of(w, c) matches Some(i) ==> 0 <= i < w.len(),
    decreases w.len(),
{
    if w.len() > 0 && w.last() != c {
        lemma_last_index_bounds(w.drop_last(), c);
    }
}

pub proof fn lemma_split_point_bounds(w: Seq<char>)
    requires
        w.len() > 0,
    ensures
        1 <= split_point(w) <= w.len(),
{
    lemma_last_index_bounds(w, '\n');
    lemma_last_index_bounds(w, '.');
    lemma_last_index_bounds(w, ' ');
}

/// The pieces a text is sent in: whole when short enough, else cut at the
/// split point of its first `CHUNK_CHARS` characters, and so on.
pub open spec fn chunks(s: Seq<char>) -> Seq<Seq<char>>
    decreases s.len(),
{
    if s.len() == 0 {
        Seq::empty()
    } else if s.len() <= CHUNK_CHARS {
        seq![s]
    } else {
        let k = split_point(s.take(CHUNK_CHARS as int));
        if 1 <= k <= s.len() {
            seq![s.take(k)] + chunks(s.skip(k))
        } else {
            seq![s]
        }
    }
}

pub(crate) fn chars_of(s: &str) -> (r: Vec<char>)
    ensures
        r@ == s@,
{
    broadcast use vstd::string::axiom_spec_iter;
    let mut r: Vec<char> = Vec::new();
    for c in it: s.chars()
        invariant
            it.seq() == s@,
            r@ == s@.take(it.index() as int),
    {
        r.push(c);
        assert(r@ =~= s@.take(it.index() + 1));
    }
    assert(r@ =~= s@);
    r
}

/// Position in `v` of the last `c` between `from` and `to`.
fn last_index(v: &Vec<char>, from: usize, to: usize, c: char) -> (r: Option<usize>)
    requires
        from <= to <= v@.len(),
    ensures
        match last_index_of(v@.subrange(from as int, to as int), c) {
            Some(i) => r == Some((i + from) as usize),
            None => r is None,
        },
{
    let ghost w = v@.subrange(from as int, to as int);
    let mut j = to;
    while j > from
        invariant
            from <= j <= to,
            to <= v@.len(),
            w == v@.subrange(from as int, to as int),
            last_index_of(w, c) == last_index_of(v@.subrange(from as int, j as int), c),
        decreases j,
    {
        let ghost u = v@.subrange(from as int, j as int);
        assert(u.drop_last() =~= v@.subrange(from as int, j - 1));
        assert(u.last() == v@[j - 1]);
        if v[j - 1] == c {
            return Some(j - 1);
        }
        j = j - 1;
    }
    assert(v@.subrange(from as int, j as int) =~= Seq::<char>::empty());
    None
}

/// Splits a text into messages of at most `CHUNK_CHARS` characters, cutting
/// after a newline, else a period, else a space, where the window has one.
pub fn chunk_string(s: &str) -> (r: Vec<String>)
    ensures
        crate::prompt::texts(r@) == chunks(s@),
{
    let v = chars_of(s);
    let n = v.len();
    let mut r: Vec<String> = Vec::new();
    let mut start: usize = 0;
    assert(v@.skip(0) =~= v@);
    while start < n
        invariant
            n == v@.len(),
            v@ == s@,
            start <= n,
            crate::prompt::texts(r@) + chunks(v@.skip(start as int)) == chunks(s@),
        decreases n - start,
    {
        let ghost rest = v@.skip(start as int);
        if n - start <= CHUNK_CHARS {
            let piece = s.substring_char(start, n).to_owned();
            assert(piece@ =~= rest);
            r.push(piece);
            assert(v@.skip(n as int) =~= Seq::<char>::empty());
            assert(crate::prompt::texts(r@) =~= crate::prompt::texts(r@.drop_last()).push(rest));
            start = n;
        } else {
            let end = start + CHUNK_CHARS;
            let ghost w = rest.take(CHUNK_CHARS as int);
            assert(w =~= v@.subrange(start as int, end as int));
            proof {
                lemma_split_point_bounds(w);
                lemma_last_index_bounds(w, '\n');
                lemma_last_index_bounds(w, '.');
                lemma_last_index_bounds(w, ' ');
            }
            let split = match last_index(&v, start, end, '\n') {
                Some(i) => i + 1,
                None => match last_index(&v, start, end, '.') {
                    Some(i) => i + 1,
                    None => match last_index(&v, start, end, ' ') {
                        Some(i) => i + 1,
                        None => end,
                    },
                },
            };
            assert(split - start == split_point(w));
            let piece = s.substring_char(start, split).to_owned();
            assert(piece@ =~= rest.take(split - start));
            assert(rest.skip(split - start) =~= v@.skip(split as int));
            r.push(piece);
            assert(crate::prompt::texts(r@) =~= crate::prompt::texts(r@.drop_last()).push(piece@));
            start = split;
        }
    }
    r
}

} // verus!
