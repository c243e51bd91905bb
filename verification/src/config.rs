//! Settings of the bridge between the quiz server and the display.
use crate::gatt::DEVICE_NAME;
use vstd::prelude::*;
use vstd::string::StrSliceExecFns;
use vstd::string::StringExecFns;

verus! {

/// Base URL of the quiz server where none is set.
pub const DEFAULT_QUIZ_URL: &'static str = "http://localhost:3000";

/// Milliseconds between polls where none are set.
pub const DEFAULT_POLL_INTERVAL_MS: u64 = 2000;

/// Settings of the bridge.
#[derive(Debug)]
pub struct Config {
    /// Base URL of the quiz server, without a slash at the end.
    pub quiz_url: String,
    /// Milliseconds between polls.
    pub poll_interval_ms: u64,
    /// Name under which the display advertises.
    pub device_name: String,
}

/// A text without the slashes at its end.
pub open spec fn without_slashes(s: Seq<char>) -> Seq<char>
    decreases s.len(),
{
    if s.len() > 0 && s.last() == '/' {
        without_slashes(s.drop_last())
    } else {
        s
    }
}

/// Whether a text consists of decimal digits only.
pub open spec fn all_digits(s: Seq<char>) -> bool {
    forall|i: int| 0 <= i < s.len() ==> '0' <= #[trigger] s[i] <= '9'
}

/// The number that decimal digits stand for.
pub open spec fn decimal(s: Seq<char>) -> nat
    decreases s.len(),
{
    if s.len() == 0 {
        0
    } else {
        10 * decimal(s.drop_last()) + (s.last() as nat - '0' as nat) as nat
    }
}

/// A text without the plus sign at its start, if it has one.
pub open spec fn without_plus(s: Seq<char>) -> Seq<char> {
    if s.len() > 0 && s[0] == '+' {
        s.skip(1)
    } else {
        s
    }
}

/// The number that a text stands for: one or more decimal digits after an optional plus sign, of
/// a value that fits 64 bits.
pub open spec fn number(s: Seq<char>) -> Option<u64> {
    let digits = without_plus(s);
    if digits.len() > 0 && all_digits(digits) && decimal(digits) <= u64::MAX {
        Some(decimal(digits) as u64)
    } else {
        None
    }
}

/// Leading digits stand for no more than the whole text.
proof fn lemma_decimal_grows(s: Seq<char>, n: int)
    requires
        all_digits(s),
        0 <= n <= s.len(),
    ensures
        decimal(s.take(n)) <= decimal(s),
    decreases s.len() - n,
{
    if n == s.len() {
        assert(s.take(n) =~= s);
    } else {
        lemma_decimal_grows(s, n + 1);
        assert(s.take(n + 1).drop_last() =~= s.take(n));
    }
}

/// Read a number of milliseconds.
pub fn parse_number(text: &str) -> (value: Option<u64>)
    ensures
        value == number(text@),
{
    let len: usize = text.unicode_len();
    let start: usize = if len > 0 && text.get_char(0) == '+' {
        1
    } else {
        0
    };
    let ghost digits = without_plus(text@);
    if start == len {
        return None;
    }
    let mut i: usize = start;
    let mut sum: u64 = 0;
    assert(digits.take(0) =~= seq![]);
    while i < len
        invariant
            len == text@.len(),
            start <= i <= len,
            digits == text@.skip(start as int),
            digits == without_plus(text@),
            all_digits(digits.take(i - start)),
            sum == decimal(digits.take(i - start)),
        decreases len - i,
    {
        let c: char = text.get_char(i);
        assert(digits[i - start] == c);
        if c < '0' || c > '9' {
            return None;
        }
        let wide: u128 = sum as u128 * 10 + (c as u128 - '0' as u128);
        let ghost longer = digits.take(i - start + 1);
        assert(longer.drop_last() =~= digits.take(i - start));
        assert(all_digits(longer)) by {
            assert forall|k: int| 0 <= k < longer.len() implies '0' <= #[trigger] longer[k]
                <= '9' by {
                if k < i - start {
                    assert(longer[k] == digits.take(i - start)[k]);
                }
            }
        }
        if wide > u64::MAX as u128 {
            proof {
                if all_digits(digits) {
                    lemma_decimal_grows(digits, i - start + 1);
                }
            }
            return None;
        }
        sum = wide as u64;
        i += 1;
    }
    assert(digits.take(len - start) =~= digits);
    Some(sum)
}

/// Cut the slashes off the end of a text.
pub fn trim_slashes(text: &str) -> (trimmed: String)
    ensures
        trimmed@ == without_slashes(text@),
{
    let mut len: usize = text.unicode_len();
    assert(text@.take(len as int) =~= text@);
    while len > 0 && text.get_char(len - 1) == '/'
        invariant
            len <= text@.len(),
            without_slashes(text@) == without_slashes(text@.take(len as int)),
        decreases len,
    {
        assert(text@.take(len as int).drop_last() =~= text@.take(len - 1));
        len -= 1;
    }
    text.substring_char(0, len).to_owned()
}

impl Config {
    /// The settings that the values of `QUIZ_URL`, `POLL_INTERVAL_MS` and `DEVICE_NAME` stand for.
    /// Whatever is unset, and an interval that is no number, falls back to its default.
    pub fn from_env(
        quiz_url: Option<String>,
        poll_interval_ms: Option<String>,
        device_name: Option<String>,
    ) -> (config: Self)
        ensures
            config.quiz_url@ == without_slashes(
                match quiz_url {
                    Some(url) => url@,
                    None => DEFAULT_QUIZ_URL@,
                },
            ),
            config.poll_interval_ms == match poll_interval_ms {
                Some(text) => match number(text@) {
                    Some(ms) => ms,
                    None => DEFAULT_POLL_INTERVAL_MS,
                },
                None => DEFAULT_POLL_INTERVAL_MS,
            },
            config.device_name@ == match device_name {
                Some(name) => name@,
                None => DEVICE_NAME@,
            },
    {
        let quiz_url: String = match quiz_url {
            Some(url) => trim_slashes(url.as_str()),
            None => trim_slashes(DEFAULT_QUIZ_URL),
        };
        let poll_interval_ms: u64 = match poll_interval_ms {
            Some(text) => match parse_number(text.as_str()) {
                Some(ms) => ms,
                None => DEFAULT_POLL_INTERVAL_MS,
            },
            None => DEFAULT_POLL_INTERVAL_MS,
        };
        let device_name: String = match device_name {
            Some(name) => name,
            None => DEVICE_NAME.to_owned(),
        };
        Config { quiz_url, poll_interval_ms, device_name }
    }

    /// Where the quiz server tells the results.
    pub fn results_url(&self) -> (url: String)
        ensures
            url@ == self.quiz_url@ + "/results"@,
    {
        let mut url: String = self.quiz_url.clone();
        url.append("/results");
        url
    }
}

/// Trimming takes nothing but slashes, takes all of them, and trimming again takes nothing more.
pub proof fn law_trim_takes_slashes(s: Seq<char>)
    ensures
        without_slashes(s).len() <= s.len(),
        without_slashes(s) == s.take(without_slashes(s).len() as int),
        forall|i: int| without_slashes(s).len() <= i < s.len() ==> s[i] == '/',
        without_slashes(s).len() > 0 ==> without_slashes(s).last() != '/',
        without_slashes(without_slashes(s)) == without_slashes(s),
    decreases s.len(),
{
    if s.len() > 0 && s.last() == '/' {
        law_trim_takes_slashes(s.drop_last());
        assert(s.take(without_slashes(s).len() as int) =~= s.drop_last().take(
            without_slashes(s).len() as int,
        ));
        assert forall|i: int| without_slashes(s).len() <= i < s.len() implies s[i] == '/' by {
            if i < s.len() - 1 {
                assert(s.drop_last()[i] == s[i]);
            }
        }
    } else {
        assert(s.take(s.len() as int) =~= s);
    }
}

/// A digit stands for itself, and one more digit makes the number ten times as large plus the
/// digit, as long as the result fits 64 bits.
pub proof fn law_number_by_digits(digits: Seq<char>, c: char)
    requires
        '0' <= c <= '9',
        forall|i: int| 0 <= i < digits.len() ==> '0' <= #[trigger] digits[i] <= '9',
    ensures
        ({
            let digit = c as int - '0' as int;
            if digits.len() == 0 {
                number(digits.push(c)) == Some(digit as u64)
            } else {
                match number(digits) {
                    Some(value) => if value * 10 + digit <= u64::MAX {
                        number(digits.push(c)) == Some((value * 10 + digit) as u64)
                    } else {
                        number(digits.push(c)) is None
                    },
                    None => number(digits.push(c)) is None,
                }
            }
        }),
{
    let longer = digits.push(c);
    assert(longer.drop_last() =~= digits);
    assert(all_digits(longer));
    if digits.len() > 0 {
        assert(digits[0] != '+');
    }
    assert(longer[0] != '+');
    assert(decimal(longer) == 10 * decimal(digits) + (c as nat - '0' as nat));
    if digits.len() == 0 {
        assert(decimal(digits) == 0);
    }
}

/// A plus sign in front of a text that has none makes no difference.
pub proof fn law_number_ignores_plus(text: Seq<char>)
    requires
        text.len() == 0 || text[0] != '+',
    ensures
        number(seq!['+'] + text) == number(text),
{
    assert((seq!['+'] + text).skip(1) =~= text);
}

/// A text without digits is no number, and neither is one with anything but digits behind an
/// optional plus sign.
pub proof fn law_no_number_with_other_characters(text: Seq<char>, i: int)
    requires
        0 <= i < text.len(),
        !('0' <= text[i] <= '9'),
        i > 0 || text[i] != '+' || text.len() == 1,
    ensures
        number(text) is None,
        number(seq![]) is None,
{
    let digits = without_plus(text);
    if text[0] == '+' {
        if i > 0 {
            assert(digits[i - 1] == text[i]);
        }
    } else {
        assert(digits[i] == text[i]);
    }
}

/// However the server's URL is written, with slashes at its end or without, the results are asked
/// for at the same place.
pub proof fn law_slashes_make_no_difference(url: Seq<char>)
    ensures
        without_slashes(url.push('/')) == without_slashes(url),
{
    assert(url.push('/').drop_last() =~= url);
}

} // verus!
