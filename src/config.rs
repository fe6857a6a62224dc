use vstd::prelude::*;
use crate::error::{SimilariumError, SimilariumErrorType};

verus! {

/// Settings of the service.
#[derive(Debug, PartialEq, Eq)]
pub struct Config {
    pub slack_client_id: String,
    pub slack_client_secret: String,
    pub database_url: String,
    pub host: String,
    pub port: u16,
    pub worker_count: u32,
    pub worker_max_pool_size: u32,
}

pub const DEFAULT_PORT: u16 = 8080;
pub const DEFAULT_HOST: &'static str = "127.0.0.1";
pub const DEFAULT_WORKER_COUNT: u32 = 3;
pub const DEFAULT_MAX_POOL_SIZE: u32 = 3;

/// The value of an ASCII digit character.
pub open spec fn digit_value(c: char) -> int {
    c as int - '0' as int
}

/// Whether `c` is an ASCII digit.
pub open spec fn is_digit(c: char) -> bool {
    '0' <= c <= '9'
}

/// The number that the digits `s` write in decimal.
pub open spec fn digits_value(s: Seq<char>) -> int
    decreases s.len(),
{
    if s.len() == 0 {
        0
    } else {
        10 * digits_value(s.drop_last()) + digit_value(s.last())
    }
}

/// `s` without a leading '+'.
pub open spec fn unsigned_body(s: Seq<char>) -> Seq<char> {
    if s.len() > 0 && s[0] == '+' {
        s.drop_first()
    } else {
        s
    }
}

/// Whether `s` is one or more ASCII digits.
pub open spec fn all_digits(s: Seq<char>) -> bool {
    s.len() > 0 && forall|i: int| 0 <= i < s.len() ==> is_digit(#[trigger] s[i])
}

/// The number that `s` writes as an unsigned decimal: an optional '+'
/// followed by one or more ASCII digits.
pub open spec fn unsigned_decimal(s: Seq<char>) -> Option<int> {
    if all_digits(unsigned_body(s)) {
        Some(digits_value(unsigned_body(s)))
    } else {
        None
    }
}

proof fn lemma_digits_value_nonneg(s: Seq<char>)
    requires
        forall|i: int| 0 <= i < s.len() ==> is_digit(#[trigger] s[i]),
    ensures
        digits_value(s) >= 0,
        s.len() > 0 ==> digits_value(s) >= digits_value(s.drop_last()),
    decreases s.len(),
{
    if s.len() > 0 {
        assert forall|i: int| 0 <= i < s.drop_last().len() implies is_digit(#[trigger] s.drop_last()[i]) by {
            assert(s.drop_last()[i] == s[i]);
        }
        lemma_digits_value_nonneg(s.drop_last());
        assert(is_digit(s[s.len() - 1]));
    }
}

/// Parses an unsigned decimal of at most `max`, as `str::parse` does for
/// unsigned integers: an optional '+' and one or more ASCII digits.
pub fn parse_unsigned(s: &str, max: u64) -> (r: Option<u64>)
    ensures
        match unsigned_decimal(s@) {
            Some(v) => if v <= max { r == Some(v as u64) } else { r is None },
            None => r is None,
        },
        unsigned_decimal(s@) matches Some(v) ==> v >= 0,
{
    let n = s.unicode_len();
    let mut start: usize = 0;
    if n > 0 && s.get_char(0) == '+' {
        start = 1;
    }
    let ghost body = unsigned_body(s@);
    assert(body =~= s@.subrange(start as int, n as int));
    if start == n {
        return None;
    }
    let mut value: u64 = 0;
    let mut i: usize = start;
    let mut overflow = false;
    while i < n
        invariant
            start <= i <= n,
            n == s@.len(),
            body == unsigned_body(s@),
            body =~= s@.subrange(start as int, n as int),
            forall|k: int| start <= k < i ==> is_digit(#[trigger] s@[k]),
            !overflow ==> value == digits_value(s@.subrange(start as int, i as int)),
            !overflow ==> value <= max,
            overflow ==> digits_value(s@.subrange(start as int, i as int)) > max,
        decreases n - i,
    {
        let c = s.get_char(i);
        assert(body[i - start] == s@[i as int]);
        if !('0' <= c && c <= '9') {
            assert(!is_digit(body[i - start]));
            return None;
        }
        let ghost prefix = s@.subrange(start as int, i + 1);
        assert(prefix.drop_last() =~= s@.subrange(start as int, i as int));
        proof {
            assert forall|k: int| 0 <= k < prefix.len() implies is_digit(#[trigger] prefix[k]) by {
                assert(prefix[k] == s@[start + k]);
            }
            lemma_digits_value_nonneg(prefix);
        }
        if !overflow {
            let d = (c as u32 - '0' as u32) as u128;
            let next: u128 = (value as u128) * 10 + d;
            if next > max as u128 {
                overflow = true;
            } else {
                value = next as u64;
            }
        }
        i = i + 1;
    }
    assert(s@.subrange(start as int, n as int) =~= body);
    assert forall|k: int| 0 <= k < body.len() implies is_digit(#[trigger] body[k]) by {
        assert(body[k] == s@[start + k]);
    }
    proof {
        lemma_digits_value_nonneg(body);
    }
    if overflow {
        None
    } else {
        Some(value)
    }
}

impl Config {
    /// Assembles the settings from the raw values of the variables
    /// `SLACK_CLIENT_ID`, `SLACK_CLIENT_SECRET`, `DATABASE_URL`, `PORT`,
    /// `HOST`, `WORKER_COUNT` and `WORKER_MAX_POOL_SIZE` (`None` when
    /// unset). The first three are required; the others have defaults.
    pub fn from_values(
        slack_client_id: Option<String>,
        slack_client_secret: Option<String>,
        database_url: Option<String>,
        port: Option<String>,
        host: Option<String>,
        worker_count: Option<String>,
        worker_max_pool_size: Option<String>,
    ) -> (r: Result<Config, SimilariumError>)
        ensures
            (slack_client_id is None || slack_client_secret is None || database_url is None) ==> (
            r matches Err(e) && e.error_type == SimilariumErrorType::EnvError),
            r matches Ok(c) ==> {
                &&& slack_client_id == Some(c.slack_client_id)
                &&& slack_client_secret == Some(c.slack_client_secret)
                &&& database_url == Some(c.database_url)
                &&& match host {
                    Some(h) => c.host == h,
                    None => c.host@ == DEFAULT_HOST@,
                }
                &&& match port {
                    Some(p) => unsigned_decimal(p@) == Some(c.port as int),
                    None => c.port == DEFAULT_PORT,
                }
                &&& match worker_count {
                    Some(w) => unsigned_decimal(w@) == Some(c.worker_count as int),
                    None => c.worker_count == DEFAULT_WORKER_COUNT,
                }
                &&& match worker_max_pool_size {
                    Some(w) => unsigned_decimal(w@) == Some(c.worker_max_pool_size as int),
                    None => c.worker_max_pool_size == DEFAULT_MAX_POOL_SIZE,
                }
            },
            (slack_client_id is Some && slack_client_secret is Some && database_url is Some
                && (port matches Some(p) ==> (unsigned_decimal(p@) matches Some(v) && v <= 0xffff))
                && (worker_count matches Some(w) ==> (unsigned_decimal(w@) matches Some(v) && v <= 0xffff_ffff))
                && (worker_max_pool_size matches Some(w) ==> (unsigned_decimal(w@) matches Some(v) && v <= 0xffff_ffff))) <==> r is Ok,
    {
        proof {
            reveal_strlit("Unexpected error parsing environment variable");
            reveal_strlit("Unexpected error parsing integer");
            reveal_strlit("127.0.0.1");
        }
        let (slack_client_id, slack_client_secret, database_url) = match (slack_client_id, slack_client_secret, database_url) {
            (Some(a), Some(b), Some(c)) => (a, b, c),
            _ => {
                return Err(SimilariumError::with_message(
                    SimilariumErrorType::EnvError,
                    String::from_str("Unexpected error parsing environment variable"),
                ));
            },
        };
        let port_value: u16 = match &port {
            None => DEFAULT_PORT,
            Some(p) => match parse_unsigned(p.as_str(), 0xffff) {
                Some(v) => v as u16,
                None => {
                    return Err(SimilariumError::with_message(
                        SimilariumErrorType::Error,
                        String::from_str("Unexpected error parsing integer"),
                    ));
                },
            },
        };
        let host_value = match host {
            Some(h) => h,
            None => String::from_str(DEFAULT_HOST),
        };
        let workers: u32 = match &worker_count {
            None => DEFAULT_WORKER_COUNT,
            Some(w) => match parse_unsigned(w.as_str(), 0xffff_ffff) {
                Some(v) => v as u32,
                None => {
                    return Err(SimilariumError::with_message(
                        SimilariumErrorType::Error,
                        String::from_str("Unexpected error parsing integer"),
                    ));
                },
            },
        };
        let pool: u32 = match &worker_max_pool_size {
            None => DEFAULT_MAX_POOL_SIZE,
            Some(w) => match parse_unsigned(w.as_str(), 0xffff_ffff) {
                Some(v) => v as u32,
                None => {
                    return Err(SimilariumError::with_message(
                        SimilariumErrorType::Error,
                        String::from_str("Unexpected error parsing integer"),
                    ));
                },
            },
        };
        Ok(Config {
            slack_client_id,
            slack_client_secret,
            database_url,
            host: host_value,
            port: port_value,
            worker_count: workers,
            worker_max_pool_size: pool,
        })
    }
}

} // verus!
