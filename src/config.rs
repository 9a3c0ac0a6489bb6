use vstd::prelude::*;
use vstd::string::StringSliceAdditionalSpecFns;

verus! {

/// Minutes between measurements when no usable setting is given.
pub const DEFAULT_INTERVAL_MINUTES: u64 = 10;

/// The shortest interval accepted, in minutes: a zero interval would spin.
pub const MIN_INTERVAL_MINUTES: u64 = 1;

/// The longest interval accepted, in minutes: its length in seconds fits a `u64`.
pub const MAX_INTERVAL_MINUTES: u64 = 0xffff_ffff_ffff_ffff / 60;

pub open spec fn is_digit(b: u8) -> bool {
    48 <= b && b <= 57
}

/// The number written by a string of decimal digits, most significant first.
pub open spec fn digits_value(d: Seq<u8>) -> nat
    decreases d.len(),
{
    if d.len() == 0 {
        0
    } else {
        digits_value(d.drop_last()) * 10 + (d.last() - 48) as nat
    }
}

/// The digits of an unsigned decimal: the text without one leading `+`.
pub open spec fn unsigned_digits(b: Seq<u8>) -> Seq<u8> {
    if b.len() > 0 && b[0] == 43 {
        b.drop_first()
    } else {
        b
    }
}

/// Whether `b` is an unsigned decimal that fits a `u64`: an optional `+`,
/// then at least one digit, and nothing else.
pub open spec fn is_u64_decimal(b: Seq<u8>) -> bool {
    let d = unsigned_digits(b);
    &&& d.len() > 0
    &&& forall|i: int| 0 <= i < d.len() ==> is_digit(#[trigger] d[i])
    &&& digits_value(d) <= u64::MAX
}

/// The minutes that a setting names, when it is an unsigned decimal.
pub open spec fn setting_minutes(b: Seq<u8>) -> Option<u64> {
    if is_u64_decimal(b) {
        Some(digits_value(unsigned_digits(b)) as u64)
    } else {
        None
    }
}

/// The minutes actually used for a requested number of minutes.
pub open spec fn effective_minutes(m: u64) -> u64 {
    if m < MIN_INTERVAL_MINUTES {
        MIN_INTERVAL_MINUTES
    } else if m > MAX_INTERVAL_MINUTES {
        MAX_INTERVAL_MINUTES
    } else {
        m
    }
}

/// The interval in seconds for an optional setting, as text.
pub open spec fn interval_for(setting: Option<Seq<u8>>) -> u64 {
    let m = match setting {
        Some(b) => match setting_minutes(b) {
            Some(m) => m,
            None => DEFAULT_INTERVAL_MINUTES,
        },
        None => DEFAULT_INTERVAL_MINUTES,
    };
    (effective_minutes(m) * 60) as u64
}

/// Reads an unsigned decimal number of minutes, as `u64`'s `FromStr` does.
pub fn parse_minutes(s: &str) -> (r: Option<u64>)
    ensures
        r == setting_minutes(s.spec_bytes()),
{
    let b = s.as_bytes();
    let n = b.len();
    let mut i: usize = 0;
    if n > 0 && b[0] == 43u8 {
        i = 1;
    }
    let start = i;
    let ghost d = unsigned_digits(b@);
    assert(d == b@.subrange(start as int, n as int));
    if start == n {
        return None;
    }
    let mut v: u64 = 0;
    while i < n
        invariant
            start <= i <= n,
            n == b@.len(),
            b@ == s.spec_bytes(),
            d == unsigned_digits(b@),
            d == b@.subrange(start as int, n as int),
            forall|k: int| start <= k < i ==> is_digit(#[trigger] b@[k]),
            v as nat == digits_value(b@.subrange(start as int, i as int)),
        decreases n - i,
    {
        let c = b[i];
        if c < 48u8 || c > 57u8 {
            assert(!is_u64_decimal(b@)) by {
                assert(!is_digit(d[i - start]));
            }
            return None;
        }
        let ghost prefix = b@.subrange(start as int, i as int + 1);
        assert(prefix.drop_last() == b@.subrange(start as int, i as int));
        let digit = (c - 48u8) as u64;
        if v > (u64::MAX - digit) / 10 {
            proof {
                assert(v * 10 + digit > u64::MAX) by (nonlinear_arith)
                    requires
                        v > (u64::MAX - digit) / 10,
                        digit <= 9,
                ;
                assert(digits_value(prefix) == v * 10 + digit);
                lemma_digits_value_grows(d, (i + 1 - start) as int);
                assert(d.subrange(0, i + 1 - start) == prefix);
                assert(!is_u64_decimal(b@));
            }
            return None;
        }
        v = v * 10 + digit;
        i = i + 1;
    }
    assert(b@.subrange(start as int, n as int) == d);
    Some(v)
}

/// A prefix of a digit string never has a larger value than the whole.
proof fn lemma_digits_value_grows(d: Seq<u8>, k: int)
    requires
        0 <= k <= d.len(),
    ensures
        digits_value(d.subrange(0, k)) <= digits_value(d),
    decreases d.len() - k,
{
    if k < d.len() {
        lemma_digits_value_grows(d, k + 1);
        assert(d.subrange(0, k + 1).drop_last() == d.subrange(0, k));
    }
    assert(d.subrange(0, d.len() as int) == d);
}

/// The refresh interval in seconds: the setting's minutes if it is a number,
/// else the default, kept between the shortest and the longest accepted.
pub fn interval_seconds(setting: Option<&str>) -> (r: u64)
    ensures
        r == interval_for(
            match setting {
                Some(s) => Some(s.spec_bytes()),
                None => None,
            },
        ),
        r >= 60,
{
    let requested = match setting {
        Some(s) => match parse_minutes(s) {
            Some(m) => m,
            None => DEFAULT_INTERVAL_MINUTES,
        },
        None => DEFAULT_INTERVAL_MINUTES,
    };
    let minutes = if requested < MIN_INTERVAL_MINUTES {
        MIN_INTERVAL_MINUTES
    } else if requested > MAX_INTERVAL_MINUTES {
        MAX_INTERVAL_MINUTES
    } else {
        requested
    };
    minutes * 60
}

} // verus!
