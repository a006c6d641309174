//! Configuration decisions: split the delimiter-separated channel list, fail
//! fast when it is empty, and read the poll interval with its default. The
//! surrounding binary reads the environment and hands the raw text in.

use vstd::prelude::*;
use crate::probe::view_opt;

verus! {

/// Poll interval, in whole seconds, applied when none is configured or the
/// configured one does not parse.
pub const DEFAULT_POLL_SECS: u64 = 100;

/// All `delim`-separated segments of `s`, empty ones included; `cur` is the
/// segment under construction.
pub open spec fn split_acc(s: Seq<char>, delim: char, cur: Seq<char>) -> Seq<Seq<char>>
    decreases s.len(),
{
    if s.len() == 0 {
        seq![cur]
    } else if s[0] == delim {
        seq![cur] + split_acc(s.drop_first(), delim, Seq::empty())
    } else {
        split_acc(s.drop_first(), delim, cur.push(s[0]))
    }
}

/// The segments with the empty ones dropped, in order.
pub open spec fn keep_non_empty(segs: Seq<Seq<char>>) -> Seq<Seq<char>>
    decreases segs.len(),
{
    if segs.len() == 0 {
        Seq::empty()
    } else {
        let rest = keep_non_empty(segs.drop_last());
        if segs.last().len() > 0 {
            rest.push(segs.last())
        } else {
            rest
        }
    }
}

/// The channel handles a configured list stands for: its `;`-separated
/// segments, the empty ones dropped.
pub open spec fn channel_list_spec(s: Seq<char>) -> Seq<Seq<char>> {
    keep_non_empty(split_acc(s, ';', Seq::empty()))
}

proof fn lemma_keep_non_empty_push(segs: Seq<Seq<char>>, x: Seq<char>)
    ensures
        keep_non_empty(segs.push(x)) == if x.len() > 0 {
            keep_non_empty(segs).push(x)
        } else {
            keep_non_empty(segs)
        },
{
    assert(segs.push(x).drop_last() =~= segs);
}

/// Split the configured channel list on `;`, dropping empty segments.
pub fn parse_channel_list(s: &str) -> (r: Vec<String>)
    ensures
        r@.map_values(|c: String| c@) == channel_list_spec(s@),
{
    let n = s.unicode_len();
    let mut out: Vec<String> = Vec::new();
    let ghost mut done: Seq<Seq<char>> = Seq::empty();
    let mut start: usize = 0;
    let mut j: usize = 0;
    proof {
        assert(s@.skip(0) =~= s@);
        assert(split_acc(s@, ';', Seq::empty()) == done + split_acc(
            s@.skip(0),
            ';',
            s@.subrange(0, 0),
        )) by {
            assert(s@.subrange(0, 0) =~= Seq::<char>::empty());
            assert(done + split_acc(s@.skip(0), ';', s@.subrange(0, 0)) =~= split_acc(
                s@,
                ';',
                Seq::empty(),
            )) by {
                assert(s@.subrange(0, 0) =~= Seq::<char>::empty());
            }
        }
    }
    while j < n
        invariant
            start <= j,
            j <= n,
            n == s@.len(),
            split_acc(s@, ';', Seq::empty()) == done + split_acc(
                s@.skip(j as int),
                ';',
                s@.subrange(start as int, j as int),
            ),
            out@.map_values(|c: String| c@) == keep_non_empty(done),
        decreases n - j,
    {
        let ghost cur = s@.subrange(start as int, j as int);
        if s.get_char(j) == ';' {
            let seg = String::from_str(s.substring_char(start, j));
            proof {
                assert(s@.skip(j as int)[0] == s@[j as int]);
                assert(s@.skip(j as int).drop_first() =~= s@.skip(j + 1));
                lemma_keep_non_empty_push(done, cur);
                if cur.len() > 0 {
                    assert((out@.push(seg)).map_values(|c: String| c@) =~= out@.map_values(
                        |c: String| c@,
                    ).push(seg@));
                }
                assert(s@.subrange(j + 1, j + 1) =~= Seq::<char>::empty());
            }
            if !seg.as_str().is_empty() {
                out.push(seg);
            }
            proof {
                done = done.push(cur);
            }
            start = j + 1;
        } else {
            proof {
                assert(s@.skip(j as int)[0] == s@[j as int]);
                assert(s@.skip(j as int).drop_first() =~= s@.skip(j + 1));
                assert(cur.push(s@[j as int]) =~= s@.subrange(start as int, j + 1));
            }
        }
        j += 1;
    }
    let seg = String::from_str(s.substring_char(start, n));
    proof {
        let cur = s@.subrange(start as int, n as int);
        assert(s@.skip(n as int) =~= Seq::<char>::empty());
        assert(split_acc(s@.skip(n as int), ';', cur) == seq![cur]);
        assert(done + seq![cur] =~= done.push(cur));
        lemma_keep_non_empty_push(done, cur);
        if cur.len() > 0 {
            assert((out@.push(seg)).map_values(|c: String| c@) =~= out@.map_values(
                |c: String| c@,
            ).push(seg@));
        }
    }
    if !seg.as_str().is_empty() {
        out.push(seg);
    }
    out
}

/// A decimal digit.
pub open spec fn is_digit_char(c: char) -> bool {
    '0' <= c && c <= '9'
}

pub open spec fn digit_val(c: char) -> int {
    c as int - '0' as int
}

/// The value of a digit string, most significant digit first.
pub open spec fn dec_val(s: Seq<char>) -> int
    decreases s.len(),
{
    if s.len() == 0 {
        0
    } else {
        dec_val(s.drop_last()) * 10 + digit_val(s.last())
    }
}

/// The digits of a numeral, with an optional leading `+` sign dropped.
pub open spec fn digits_of(s: Seq<char>) -> Seq<char> {
    if s.len() > 0 && s[0] == '+' {
        s.drop_first()
    } else {
        s
    }
}

pub open spec fn all_digits(s: Seq<char>) -> bool {
    forall|i: int| 0 <= i < s.len() ==> is_digit_char(#[trigger] s[i])
}

/// The strings `u64` parsing accepts: an optional `+`, then digits, with a
/// value that fits.
pub open spec fn is_u64_numeral(s: Seq<char>) -> bool {
    let d = digits_of(s);
    d.len() > 0 && all_digits(d) && dec_val(d) <= u64::MAX
}

proof fn lemma_dec_val_nonneg(t: Seq<char>)
    requires
        all_digits(t),
    ensures
        dec_val(t) >= 0,
    decreases t.len(),
{
    if t.len() > 0 {
        assert(all_digits(t.drop_last())) by {
            assert(forall|i: int|
                0 <= i < t.len() - 1 ==> #[trigger] t.drop_last()[i] == t[i]);
        }
        lemma_dec_val_nonneg(t.drop_last());
    }
}

proof fn lemma_dec_val_prefix(t: Seq<char>, k: int)
    requires
        all_digits(t),
        0 <= k <= t.len(),
    ensures
        dec_val(t.take(k)) <= dec_val(t),
    decreases t.len() - k,
{
    if k < t.len() {
        assert(all_digits(t.take(k))) by {
            assert(forall|i: int| 0 <= i < k ==> #[trigger] t.take(k)[i] == t[i]);
        }
        lemma_dec_val_nonneg(t.take(k));
        assert(t.take(k + 1).drop_last() =~= t.take(k));
        assert(dec_val(t.take(k)) <= dec_val(t.take(k + 1)));
        lemma_dec_val_prefix(t, k + 1);
    } else {
        assert(t.take(k) =~= t);
    }
}

/// Parse a whole number of seconds as `u64` parsing does: an optional `+`,
/// then decimal digits; anything else, or a value that does not fit, fails.
pub fn parse_u64(s: &str) -> (r: Option<u64>)
    ensures
        match r {
            Some(v) => is_u64_numeral(s@) && v == dec_val(digits_of(s@)),
            None => !is_u64_numeral(s@),
        },
{
    let n = s.unicode_len();
    let mut start: usize = 0;
    if n > 0 && s.get_char(0) == '+' {
        start = 1;
    }
    proof {
        if start == 1 {
            assert(digits_of(s@) =~= s@.skip(1));
        } else {
            assert(digits_of(s@) =~= s@.skip(0));
            assert(s@.skip(0) =~= s@);
        }
    }
    let ghost d = digits_of(s@);
    if start >= n {
        return None;
    }
    let mut acc: u64 = 0;
    let mut i = start;
    proof {
        assert(d.take(0) =~= Seq::<char>::empty());
    }
    while i < n
        invariant
            start <= i,
            i <= n,
            n == s@.len(),
            d == digits_of(s@),
            d =~= s@.skip(start as int),
            d.len() == n - start,
            all_digits(d.take(i - start)),
            acc == dec_val(d.take(i - start)),
        decreases n - i,
    {
        let c = s.get_char(i);
        let ghost k = i - start;
        proof {
            assert(d[k as int] == s@[i as int]);
        }
        if !(c >= '0' && c <= '9') {
            proof {
                assert(!all_digits(d));
            }
            return None;
        }
        let dv = (c as u32 - '0' as u32) as u64;
        proof {
            assert(dv == digit_val(c));
            assert(d.take(k + 1).drop_last() =~= d.take(k as int));
            assert(d.take(k + 1).last() == d[k as int]);
            assert(all_digits(d.take(k + 1))) by {
                assert(forall|x: int|
                    0 <= x < k + 1 ==> #[trigger] d.take(k + 1)[x] == d[x]);
                assert(forall|x: int| 0 <= x < k ==> #[trigger] d.take(k as int)[x] == d[x]);
            }
        }
        if acc > (u64::MAX - dv) / 10 {
            proof {
                assert(acc as int * 10 + dv as int > u64::MAX as int) by (nonlinear_arith)
                    requires
                        acc as int > (u64::MAX as int - dv as int) / 10,
                        0 <= dv as int <= 9,
                        acc as int >= 0,
                ;
                assert(dec_val(d.take(k + 1)) > u64::MAX);
                if all_digits(d) {
                    lemma_dec_val_prefix(d, k + 1);
                }
            }
            return None;
        }
        proof {
            assert(acc as int * 10 + dv as int <= u64::MAX as int) by (nonlinear_arith)
                requires
                    acc as int <= (u64::MAX as int - dv as int) / 10,
                    0 <= dv as int <= 9,
                    acc as int >= 0,
            ;
        }
        acc = acc * 10 + dv;
        i += 1;
    }
    proof {
        assert(d.take(n - start) =~= d);
    }
    Some(acc)
}

/// Why the configuration was rejected at startup.
#[derive(Debug, PartialEq, Eq)]
pub enum ConfigError {
    MissingChannelList,
    EmptyChannelList,
}

/// What the daemon runs on: the tracked channels and the poll interval.
#[derive(Debug)]
pub struct DaemonConfig {
    pub channels: Vec<String>,
    pub interval_secs: u64,
}

/// The poll interval a raw setting stands for: its value where it parses, the
/// default where it is unset or unparseable.
pub open spec fn interval_spec(raw: Option<Seq<char>>) -> int {
    match raw {
        Option::None => DEFAULT_POLL_SECS as int,
        Option::Some(s) => if is_u64_numeral(s) {
            dec_val(digits_of(s))
        } else {
            DEFAULT_POLL_SECS as int
        },
    }
}

/// Read the poll interval setting.
pub fn parse_interval(raw: Option<&str>) -> (r: u64)
    ensures
        r == interval_spec(view_opt(raw)),
{
    match raw {
        Option::None => DEFAULT_POLL_SECS,
        Option::Some(s) => match parse_u64(s) {
            Option::Some(v) => v,
            Option::None => DEFAULT_POLL_SECS,
        },
    }
}

/// Assemble the daemon's configuration from the raw channel list and interval
/// settings, failing fast where no channel is configured.
pub fn build_config(channels_raw: Option<&str>, interval_raw: Option<&str>) -> (r: Result<
    DaemonConfig,
    ConfigError,
>)
    ensures
        match r {
            Ok(c) => {
                &&& channels_raw matches Some(s) && c.channels@.map_values(|x: String| x@)
                    == channel_list_spec(s@) && channel_list_spec(s@).len() > 0
                &&& c.interval_secs == interval_spec(view_opt(interval_raw))
            },
            Err(e) => match view_opt(channels_raw) {
                Option::None => e == ConfigError::MissingChannelList,
                Option::Some(s) => e == ConfigError::EmptyChannelList && channel_list_spec(
                    s,
                ).len() == 0,
            },
        },
{
    match channels_raw {
        Option::None => Err(ConfigError::MissingChannelList),
        Option::Some(raw) => {
            let channels = parse_channel_list(raw);
            if channels.len() == 0 {
                proof {
                    assert(channel_list_spec(raw@).len() == channels@.map_values(
                        |x: String| x@,
                    ).len());
                }
                Err(ConfigError::EmptyChannelList)
            } else {
                Ok(DaemonConfig { channels, interval_secs: parse_interval(interval_raw) })
            }
        },
    }
}

} // verus!
