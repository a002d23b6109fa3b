//! The controller's configuration, and its validation at startup.
//!
//! A flow returns to probing the round-trip time whenever its estimate of the
//! minimum has gone one interval without being renewed. The interval is a
//! whole number of seconds. Only an interval of zero, or one that is not
//! written as a number, is rejected; that happens before any flow exists.

use vstd::prelude::*;
use vstd::string::StringSliceAdditionalSpecFns;

verus! {

/// The interval between two probes of the round-trip time, in seconds, where
/// none is configured.
pub const PROBE_RTT_INTERVAL_SECONDS: i64 = 10;

/// The configuration that all flows of a controller share.
#[derive(Clone, Copy, Debug, PartialEq, Eq, Structural)]
pub struct BbrConfig {
    /// The interval between two probes of the round-trip time, in seconds.
    pub probe_rtt_interval: u64,
}

/// Why a text is no number of seconds.
#[derive(Clone, Copy, Debug, PartialEq, Eq, Structural)]
pub enum ParseError {
    /// The text is empty.
    Empty,
    /// The text holds something that is no decimal digit, or a sign alone.
    InvalidDigit,
    /// The number does not fit in 64 bits.
    PosOverflow,
}

/// Why a configuration was rejected.
#[derive(Clone, Copy, Debug, PartialEq, Eq, Structural)]
pub enum ConfigError {
    /// The transport named is none that the runtime offers.
    InvalidIpc,
    /// The interval is not written as a number of seconds.
    Unparsable(ParseError),
    /// The interval is zero.
    NotPositive,
}

impl BbrConfig {
    /// A configuration is valid when its interval is positive.
    pub open spec fn valid(self) -> bool {
        self.probe_rtt_interval > 0
    }

    /// The interval in microseconds, the unit of the controller's clock.
    pub open spec fn interval_us(self) -> nat {
        self.probe_rtt_interval as nat * 1_000_000
    }

    /// The configuration for an interval of `secs` seconds: there is one for
    /// every number but zero.
    pub open spec fn spec_from_seconds(secs: u64) -> Result<BbrConfig, ConfigError> {
        if secs == 0 {
            Err(ConfigError::NotPositive)
        } else {
            Ok(BbrConfig { probe_rtt_interval: secs })
        }
    }

    /// The configuration for an interval of `secs` seconds, or the reason why
    /// there is none.
    pub fn from_seconds(secs: u64) -> (r: Result<BbrConfig, ConfigError>)
        ensures
            r == Self::spec_from_seconds(secs),
            r is Ok ==> r->Ok_0.valid(),
    {
        if secs == 0 {
            Err(ConfigError::NotPositive)
        } else {
            Ok(BbrConfig { probe_rtt_interval: secs })
        }
    }
}

/// Whether `b` is an ASCII decimal digit.
pub open spec fn is_digit(b: u8) -> bool {
    0x30 <= b <= 0x39
}

/// The number that the decimal digits `s` write, most significant digit first.
pub open spec fn digits_value(s: Seq<u8>) -> nat
    decreases s.len(),
{
    if s.len() == 0 {
        0
    } else {
        10 * digits_value(s.drop_last()) + (s.last() - 0x30) as nat
    }
}

/// `s` without a leading plus sign.
pub open spec fn unsigned_part(s: Seq<u8>) -> Seq<u8> {
    if s.len() > 0 && s[0] == 0x2b {
        s.subrange(1, s.len() as int)
    } else {
        s
    }
}

/// Whether reading stops at the last byte of `s`: it is no digit, or with it
/// the number read so far no longer fits in 64 bits.
pub open spec fn stops_at_last(s: Seq<u8>) -> bool {
    !is_digit(s.last()) || digits_value(s) > u64::MAX
}

/// The position of the first byte of `s` at which reading stops, if there is
/// one.
pub open spec fn first_stop(s: Seq<u8>) -> Option<int>
    decreases s.len(),
{
    if s.len() == 0 {
        None
    } else {
        match first_stop(s.drop_last()) {
            Some(i) => Some(i),
            None => if stops_at_last(s) {
                Some(s.len() - 1)
            } else {
                None
            },
        }
    }
}

/// The number of seconds that `s` writes: an optional plus sign, then one or
/// more decimal digits whose value fits in 64 bits. Of anything else, the
/// first thing that is wrong with it, read from the left.
pub open spec fn spec_parse_seconds(s: Seq<u8>) -> Result<u64, ParseError> {
    let digits = unsigned_part(s);
    if s.len() == 0 {
        Err(ParseError::Empty)
    } else if digits.len() == 0 {
        Err(ParseError::InvalidDigit)
    } else {
        match first_stop(digits) {
            None => Ok(digits_value(digits) as u64),
            Some(i) => if is_digit(digits[i]) {
                Err(ParseError::PosOverflow)
            } else {
                Err(ParseError::InvalidDigit)
            },
        }
    }
}

/// Where reading stops within a prefix, it stops in the whole text.
proof fn lemma_first_stop_stays(s: Seq<u8>, k: int)
    requires
        0 <= k <= s.len(),
        first_stop(s.take(k)) is Some,
    ensures
        first_stop(s) == first_stop(s.take(k)),
    decreases s.len() - k,
{
    if k == s.len() {
        assert(s.take(k) =~= s);
    } else {
        let shorter = s.drop_last();
        assert(shorter.take(k) =~= s.take(k));
        lemma_first_stop_stays(shorter, k);
    }
}

/// Reads a number of seconds.
pub fn parse_seconds(text: &[u8]) -> (r: Result<u64, ParseError>)
    ensures
        r == spec_parse_seconds(text@),
{
    let n: usize = text.len();
    if n == 0 {
        return Err(ParseError::Empty);
    }
    let start: usize = if text[0] == 0x2b { 1 } else { 0 };
    let ghost digits = unsigned_part(text@);
    if start == n {
        return Err(ParseError::InvalidDigit);
    }
    let mut value: u64 = 0;
    let mut i: usize = start;
    while i < n
        invariant
            start <= i <= n,
            n == text@.len(),
            digits == unsigned_part(text@),
            digits == text@.subrange(start as int, n as int),
            first_stop(digits.take(i - start)) is None,
            value == digits_value(digits.take(i - start)),
        decreases n - i,
    {
        let b: u8 = text[i];
        let ghost next = digits.take(i - start + 1);
        assert(next.drop_last() =~= digits.take(i - start));
        if b < 0x30 || b > 0x39 {
            proof {
                lemma_first_stop_stays(digits, i - start + 1);
            }
            return Err(ParseError::InvalidDigit);
        }
        let digit: u64 = (b - 0x30) as u64;
        if value > (u64::MAX - digit) / 10 {
            proof {
                lemma_first_stop_stays(digits, i - start + 1);
            }
            return Err(ParseError::PosOverflow);
        }
        value = value * 10 + digit;
        i += 1;
    }
    assert(digits.take(n - start) =~= digits);
    Ok(value)
}

/// The configuration that an interval written as `text` gives: the text must
/// write a number of seconds, and the number must not be zero.
pub open spec fn spec_parse_interval(text: Seq<u8>) -> Result<BbrConfig, ConfigError> {
    match spec_parse_seconds(text) {
        Ok(secs) => BbrConfig::spec_from_seconds(secs),
        Err(e) => Err(ConfigError::Unparsable(e)),
    }
}

/// Reads an interval, written in seconds.
pub fn parse_interval(text: &[u8]) -> (r: Result<BbrConfig, ConfigError>)
    ensures
        r == spec_parse_interval(text@),
        r is Ok ==> r->Ok_0.valid(),
{
    match parse_seconds(text) {
        Ok(secs) => BbrConfig::from_seconds(secs),
        Err(e) => Err(ConfigError::Unparsable(e)),
    }
}

/// Asks the runtime whether it offers the transport named `v`, by
/// `portus::algs::ipc_valid`. Which transports there are depends on the
/// platform that the runtime was built for. Claimed of every platform: `unix`
/// is offered, and nothing is but `netlink`, `unix` and `char`.
#[verifier::external_body]
fn ipc_valid(v: &str) -> (r: bool)
    ensures
        v@ == "unix"@ ==> r,
        r ==> v@ == "netlink"@ || v@ == "unix"@ || v@ == "char"@,
{
    portus::algs::ipc_valid(String::from(v)).is_ok()
}

/// Whether `r` is what the arguments give, where `offered` says whether the
/// runtime offers the transport: a transport that is not offered is refused
/// before the interval is looked at.
pub open spec fn is_args_outcome(
    r: Result<(BbrConfig, String), ConfigError>,
    offered: bool,
    ipc: Seq<char>,
    interval: Seq<u8>,
) -> bool {
    if !offered {
        r == Err::<(BbrConfig, String), ConfigError>(ConfigError::InvalidIpc)
    } else {
        match spec_parse_interval(interval) {
            Ok(config) => r is Ok && r->Ok_0.0 == config && r->Ok_0.1@ == ipc,
            Err(e) => r == Err::<(BbrConfig, String), ConfigError>(e),
        }
    }
}

/// The configuration and the transport's name, from the arguments as written
/// and the runtime's word on the transport.
pub fn checked_args(offered: bool, ipc: &str, probe_rtt_interval: &str) -> (r: Result<
    (BbrConfig, String),
    ConfigError,
>)
    ensures
        is_args_outcome(r, offered, ipc@, probe_rtt_interval.spec_bytes()),
        r is Ok ==> r->Ok_0.0.valid(),
{
    if !offered {
        return Err(ConfigError::InvalidIpc);
    }
    match parse_interval(probe_rtt_interval.as_bytes()) {
        Ok(config) => Ok((config, ipc.to_owned())),
        Err(e) => Err(e),
    }
}

/// The configuration and the transport's name, from the arguments as written.
/// The transport is checked first, with the runtime; then the interval.
pub fn make_args(ipc: &str, probe_rtt_interval: &str) -> (r: Result<
    (BbrConfig, String),
    ConfigError,
>)
    ensures
        is_args_outcome(r, true, ipc@, probe_rtt_interval.spec_bytes()) || is_args_outcome(
            r,
            false,
            ipc@,
            probe_rtt_interval.spec_bytes(),
        ),
        ipc@ == "unix"@ ==> is_args_outcome(r, true, ipc@, probe_rtt_interval.spec_bytes()),
        ipc@ != "netlink"@ && ipc@ != "unix"@ && ipc@ != "char"@ ==> is_args_outcome(
            r,
            false,
            ipc@,
            probe_rtt_interval.spec_bytes(),
        ),
        r is Ok ==> r->Ok_0.0.valid(),
{
    let offered = ipc_valid(ipc);
    checked_args(offered, ipc, probe_rtt_interval)
}

} // verus!
