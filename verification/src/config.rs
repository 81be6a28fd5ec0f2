//! Per-location configuration for the two stages, its defaults and
//! inheritance rules, and the small parsers its directives use.

use vstd::prelude::*;
use vstd::string::*;

use crate::strutil::seq_eq_ignore_ascii_case;

verus! {

/// Ceiling on buffered body bytes when none is configured: 10 MiB.
pub const DEFAULT_MAX_BODY_SIZE: usize = 10485760;

/// Call timeout in milliseconds when none is configured.
pub const DEFAULT_EPP_TIMEOUT_MS: u64 = 200;

/// Configuration consumed by the request pipeline.
pub struct ModuleConfig {
    /// Fallback upstream recorded when a stage fails open.
    pub default_upstream: Option<String>,
    /// Ceiling on the number of body bytes the pipeline will buffer.
    pub max_body_size: usize,
    /// Body-based routing enabled.
    pub bbr_enable: bool,
    /// Header that receives the model name; empty means the stock name.
    pub bbr_header_name: String,
    /// Model recorded when the body names none.
    pub bbr_default_model: String,
    /// Endpoint-picker stage enabled.
    pub epp_enable: bool,
    /// Address of the external processor.
    pub epp_endpoint: Option<String>,
    /// Budget for one endpoint-picker call, in milliseconds.
    pub epp_timeout_ms: u64,
    /// Fail open (`true`) or fail closed (`false`) on stage failure.
    pub epp_failure_mode_allow: bool,
    /// Header that receives the chosen upstream; empty means the stock name.
    pub epp_header_name: String,
    /// Secure the processor connection.
    pub epp_tls: bool,
    /// Certificate-authority file for the secured connection.
    pub epp_ca_file: Option<String>,
}

impl ModuleConfig {
    /// The configuration state `Default::default` establishes.
    pub open spec fn is_default(&self) -> bool {
        &&& self.default_upstream is None
        &&& self.max_body_size == DEFAULT_MAX_BODY_SIZE
        &&& !self.bbr_enable
        &&& self.bbr_header_name@ == "X-Gateway-Model-Name"@
        &&& self.bbr_default_model@ == "unknown"@
        &&& !self.epp_enable
        &&& self.epp_endpoint is None
        &&& self.epp_timeout_ms == DEFAULT_EPP_TIMEOUT_MS
        &&& !self.epp_failure_mode_allow
        &&& self.epp_header_name@ == "X-Inference-Upstream"@
        &&& self.epp_tls
        &&& self.epp_ca_file is None
    }
}

impl Default for ModuleConfig {
    fn default() -> (r: Self)
        ensures
            r.is_default(),
    {
        ModuleConfig {
            default_upstream: None,
            max_body_size: DEFAULT_MAX_BODY_SIZE,
            bbr_enable: false,
            bbr_header_name: String::from_str("X-Gateway-Model-Name"),
            bbr_default_model: String::from_str("unknown"),
            epp_enable: false,
            epp_endpoint: None,
            epp_timeout_ms: DEFAULT_EPP_TIMEOUT_MS,
            epp_failure_mode_allow: false,
            epp_header_name: String::from_str("X-Inference-Upstream"),
            epp_tls: true,
            epp_ca_file: None,
        }
    }
}

/// An option inherited from the enclosing level when unset here.
pub open spec fn inherited_opt(cur: Option<String>, prev: Option<String>) -> Option<Seq<char>> {
    match cur {
        Some(s) => Some(s@),
        None => match prev {
            Some(p) => Some(p@),
            None => None,
        },
    }
}

/// A string option with an inherited and then a stock fallback for emptiness.
pub open spec fn inherited_str(cur: Seq<char>, prev: Seq<char>, stock: Seq<char>) -> Seq<char> {
    if cur.len() != 0 {
        cur
    } else if prev.len() != 0 {
        prev
    } else {
        stock
    }
}

/// A numeric option with an inherited and then a stock fallback for zero.
pub open spec fn inherited_num(cur: int, prev: int, stock: int) -> int {
    if cur != 0 {
        cur
    } else if prev != 0 {
        prev
    } else {
        stock
    }
}

impl ModuleConfig {
    /// Fold the enclosing level's settings into this one: enable flags and
    /// fail-open are sticky, options inherit when unset, strings and numbers
    /// fall back first to the enclosing value and then to the stock default.
    /// The secure-connection flag never inherits.
    #[verifier::rlimit(50)]
    pub fn merge(&mut self, prev: &ModuleConfig)
        ensures
            final(self).bbr_enable == (old(self).bbr_enable || prev.bbr_enable),
            final(self).epp_enable == (old(self).epp_enable || prev.epp_enable),
            final(self).epp_failure_mode_allow == (old(self).epp_failure_mode_allow
                || prev.epp_failure_mode_allow),
            inherited_opt(final(self).default_upstream, None) == inherited_opt(
                old(self).default_upstream,
                prev.default_upstream,
            ),
            inherited_opt(final(self).epp_endpoint, None) == inherited_opt(
                old(self).epp_endpoint,
                prev.epp_endpoint,
            ),
            inherited_opt(final(self).epp_ca_file, None) == inherited_opt(
                old(self).epp_ca_file,
                prev.epp_ca_file,
            ),
            final(self).max_body_size == inherited_num(
                old(self).max_body_size as int,
                prev.max_body_size as int,
                DEFAULT_MAX_BODY_SIZE as int,
            ),
            final(self).epp_timeout_ms == inherited_num(
                old(self).epp_timeout_ms as int,
                prev.epp_timeout_ms as int,
                DEFAULT_EPP_TIMEOUT_MS as int,
            ),
            final(self).bbr_header_name@ == inherited_str(
                old(self).bbr_header_name@,
                prev.bbr_header_name@,
                "X-Gateway-Model-Name"@,
            ),
            final(self).bbr_default_model@ == inherited_str(
                old(self).bbr_default_model@,
                prev.bbr_default_model@,
                "unknown"@,
            ),
            final(self).epp_header_name@ == inherited_str(
                old(self).epp_header_name@,
                prev.epp_header_name@,
                "X-Inference-Upstream"@,
            ),
            final(self).epp_tls == old(self).epp_tls,
    {
        if prev.bbr_enable {
            self.bbr_enable = true;
        }
        if prev.epp_enable {
            self.epp_enable = true;
        }
        if self.default_upstream.is_none() {
            self.default_upstream = clone_opt_string(&prev.default_upstream);
        }
        if self.epp_endpoint.is_none() {
            self.epp_endpoint = clone_opt_string(&prev.epp_endpoint);
        }
        if self.max_body_size == 0 {
            self.max_body_size = if prev.max_body_size == 0 {
                DEFAULT_MAX_BODY_SIZE
            } else {
                prev.max_body_size
            };
        }
        if self.epp_timeout_ms == 0 {
            self.epp_timeout_ms = if prev.epp_timeout_ms == 0 {
                DEFAULT_EPP_TIMEOUT_MS
            } else {
                prev.epp_timeout_ms
            };
        }
        if self.bbr_header_name.as_str().is_empty() {
            self.bbr_header_name = if prev.bbr_header_name.as_str().is_empty() {
                String::from_str("X-Gateway-Model-Name")
            } else {
                prev.bbr_header_name.clone()
            };
        }
        if self.bbr_default_model.as_str().is_empty() {
            self.bbr_default_model = if prev.bbr_default_model.as_str().is_empty() {
                String::from_str("unknown")
            } else {
                prev.bbr_default_model.clone()
            };
        }
        if self.epp_header_name.as_str().is_empty() {
            self.epp_header_name = if prev.epp_header_name.as_str().is_empty() {
                String::from_str("X-Inference-Upstream")
            } else {
                prev.epp_header_name.clone()
            };
        }
        if self.epp_failure_mode_allow || prev.epp_failure_mode_allow {
            self.epp_failure_mode_allow = true;
        }
        if self.epp_ca_file.is_none() {
            self.epp_ca_file = clone_opt_string(&prev.epp_ca_file);
        }
    }
}

/// Copy of an optional string.
pub fn clone_opt_string(o: &Option<String>) -> (r: Option<String>)
    ensures
        r == o,
{
    match o {
        Some(s) => Some(s.clone()),
        None => None,
    }
}

/// A directive argument reading `on` or `off`, ASCII-case-insensitively.
pub fn set_on_off(val: &str) -> (r: Option<bool>)
    ensures
        r == Some(true) <==> seq_eq_ignore_ascii_case(val@, "on"@),
        r == Some(false) <==> seq_eq_ignore_ascii_case(val@, "off"@),
        r is None <==> !seq_eq_ignore_ascii_case(val@, "on"@) && !seq_eq_ignore_ascii_case(
            val@,
            "off"@,
        ),
{
    proof {
        reveal_strlit("on");
        reveal_strlit("off");
    }
    if crate::strutil::str_eq_ignore_ascii_case(val, "on") {
        Some(true)
    } else if crate::strutil::str_eq_ignore_ascii_case(val, "off") {
        Some(false)
    } else {
        None
    }
}

/// Record a directive argument, leaving the target alone when it is empty.
pub fn set_string_opt(target: &mut Option<String>, val: &str)
    ensures
        val@.len() == 0 ==> *final(target) == *old(target),
        val@.len() != 0 ==> match *final(target) {
            Some(s) => s@ == val@,
            None => false,
        },
{
    if !val.is_empty() {
        *target = Some(String::from_str(val));
    }
}

/// A directive argument that could not be read as a number.
#[derive(Debug)]
pub struct ParseError;

/// One ASCII decimal digit.
pub open spec fn is_digit(c: char) -> bool {
    48 <= c as u32 && c as u32 <= 57
}

/// The value of one ASCII decimal digit.
pub open spec fn digit_val(c: char) -> int {
    c as u32 - 48
}

/// One or more ASCII decimal digits and nothing else.
pub open spec fn all_digits(s: Seq<char>) -> bool {
    &&& s.len() > 0
    &&& forall|i: int| 0 <= i < s.len() ==> is_digit(#[trigger] s[i])
}

/// The number an ASCII digit string denotes.
pub open spec fn digits_value(s: Seq<char>) -> int
    decreases s.len(),
{
    if s.len() == 0 {
        0
    } else {
        digits_value(s.drop_last()) * 10 + digit_val(s.last())
    }
}

/// The digits of an unsigned decimal literal: an optional leading `+` sign
/// stripped, the rest kept.
pub open spec fn unsigned_digits(s: Seq<char>) -> Seq<char> {
    if s.len() > 0 && s[0] == '+' {
        s.drop_first()
    } else {
        s
    }
}

/// `s` is an unsigned decimal literal whose value is at most `max`.
pub open spec fn is_uint_in_range(s: Seq<char>, max: int) -> bool {
    &&& all_digits(unsigned_digits(s))
    &&& digits_value(unsigned_digits(s)) <= max
}

proof fn lemma_digits_value_nonneg(s: Seq<char>)
    requires
        forall|i: int| 0 <= i < s.len() ==> is_digit(#[trigger] s[i]),
    ensures
        digits_value(s) >= 0,
    decreases s.len(),
{
    if s.len() > 0 {
        lemma_digits_value_nonneg(s.drop_last());
    }
}

/// Read an unsigned decimal literal (optional leading `+`, then digits) as a
/// `u64`, rejecting malformed text and values past `u64::MAX`.
pub fn parse_u64_str(s: &str) -> (r: Option<u64>)
    ensures
        match r {
            Some(v) => is_uint_in_range(s@, u64::MAX as int) && v == digits_value(
                unsigned_digits(s@),
            ),
            None => !is_uint_in_range(s@, u64::MAX as int),
        },
{
    let len = s.unicode_len();
    let start: usize = if len > 0 && s.get_char(0) == '+' {
        1
    } else {
        0
    };
    let ghost digits = unsigned_digits(s@);
    proof {
        assert(digits =~= s@.subrange(start as int, len as int));
    }
    if start == len {
        return None;
    }
    let mut acc: u64 = 0;
    let mut i: usize = start;
    while i < len
        invariant
            len == s@.len(),
            start <= i <= len,
            start < len,
            digits == unsigned_digits(s@),
            digits =~= s@.subrange(start as int, len as int),
            forall|j: int| start <= j < i ==> is_digit(#[trigger] s@[j]),
            acc == digits_value(s@.subrange(start as int, i as int)),
        decreases len - i,
    {
        let c = s.get_char(i);
        let u = c as u32;
        if u < 48 || u > 57 {
            proof {
                assert(digits[i - start] == s@[i as int]);
                assert(!all_digits(digits));
            }
            return None;
        }
        let d: u64 = (u - 48) as u64;
        let shifted = match acc.checked_mul(10) {
            Some(x) => x,
            None => {
                proof {
                    lemma_too_big(s@, start as int, i as int, u64::MAX as int);
                }
                return None;
            },
        };
        let next = match shifted.checked_add(d) {
            Some(x) => x,
            None => {
                proof {
                    lemma_too_big(s@, start as int, i as int, u64::MAX as int);
                }
                return None;
            },
        };
        proof {
            assert(s@.subrange(start as int, i + 1).drop_last() =~= s@.subrange(
                start as int,
                i as int,
            ));
        }
        acc = next;
        i += 1;
    }
    proof {
        assert(s@.subrange(start as int, len as int) =~= digits);
    }
    Some(acc)
}

/// Read an unsigned decimal literal as a `usize`, rejecting malformed text
/// and values past `usize::MAX`.
pub fn parse_usize_str(s: &str) -> (r: Option<usize>)
    ensures
        match r {
            Some(v) => is_uint_in_range(s@, usize::MAX as int) && v == digits_value(
                unsigned_digits(s@),
            ),
            None => !is_uint_in_range(s@, usize::MAX as int),
        },
{
    let len = s.unicode_len();
    let start: usize = if len > 0 && s.get_char(0) == '+' {
        1
    } else {
        0
    };
    let ghost digits = unsigned_digits(s@);
    proof {
        assert(digits =~= s@.subrange(start as int, len as int));
    }
    if start == len {
        return None;
    }
    let mut acc: usize = 0;
    let mut i: usize = start;
    while i < len
        invariant
            len == s@.len(),
            start <= i <= len,
            start < len,
            digits == unsigned_digits(s@),
            digits =~= s@.subrange(start as int, len as int),
            forall|j: int| start <= j < i ==> is_digit(#[trigger] s@[j]),
            acc == digits_value(s@.subrange(start as int, i as int)),
        decreases len - i,
    {
        let c = s.get_char(i);
        let u = c as u32;
        if u < 48 || u > 57 {
            proof {
                assert(digits[i - start] == s@[i as int]);
                assert(!all_digits(digits));
            }
            return None;
        }
        let d: usize = (u - 48) as usize;
        let shifted = match acc.checked_mul(10) {
            Some(x) => x,
            None => {
                proof {
                    lemma_too_big(s@, start as int, i as int, usize::MAX as int);
                }
                return None;
            },
        };
        let next = match shifted.checked_add(d) {
            Some(x) => x,
            None => {
                proof {
                    lemma_too_big(s@, start as int, i as int, usize::MAX as int);
                }
                return None;
            },
        };
        proof {
            assert(s@.subrange(start as int, i + 1).drop_last() =~= s@.subrange(
                start as int,
                i as int,
            ));
        }
        acc = next;
        i += 1;
    }
    proof {
        assert(s@.subrange(start as int, len as int) =~= digits);
    }
    Some(acc)
}

/// A digit string grows monotonically with its digits: once a prefix's value
/// times ten (plus the next digit) passes `max`, the whole string's value
/// does too.
proof fn lemma_too_big(s: Seq<char>, start: int, i: int, max: int)
    requires
        0 <= start <= i < s.len(),
        max >= 0,
        forall|j: int| start <= j < i ==> is_digit(#[trigger] s[j]),
        is_digit(s[i]),
        digits_value(s.subrange(start, i)) * 10 + digit_val(s[i]) > max,
    ensures
        all_digits(s.subrange(start, s.len() as int)) ==> digits_value(
            s.subrange(start, s.len() as int),
        ) > max,
{
    if all_digits(s.subrange(start, s.len() as int)) {
        assert forall|j: int| start <= j < s.len() implies is_digit(#[trigger] s[j]) by {
            assert(s.subrange(start, s.len() as int)[j - start] == s[j]);
        }
        lemma_digits_monotonic(s, start, i + 1, s.len() as int);
        assert(s.subrange(start, i + 1).drop_last() =~= s.subrange(start, i));
        assert(digits_value(s.subrange(start, i + 1)) == digits_value(s.subrange(start, i)) * 10
            + digit_val(s[i]));
    }
}

/// A longer digit string never denotes a smaller number than its prefix.
proof fn lemma_digits_monotonic(s: Seq<char>, start: int, mid: int, end: int)
    requires
        0 <= start <= mid <= end <= s.len(),
        forall|j: int| start <= j < end ==> is_digit(#[trigger] s[j]),
    ensures
        digits_value(s.subrange(start, mid)) <= digits_value(s.subrange(start, end)),
    decreases end - mid,
{
    if mid < end {
        lemma_digits_monotonic(s, start, mid, end - 1);
        let shorter = s.subrange(start, end - 1);
        let longer = s.subrange(start, end);
        assert(longer.drop_last() =~= shorter);
        lemma_digits_value_nonneg(shorter);
        assert(digits_value(longer) == digits_value(shorter) * 10 + digit_val(s[end - 1]));
        assert(digits_value(shorter) * 10 >= digits_value(shorter)) by (nonlinear_arith)
            requires
                digits_value(shorter) >= 0,
        ;
    }
}

/// Record a `usize` directive argument; malformed or out-of-range text is
/// refused and leaves the target alone.
pub fn set_usize(target: &mut usize, val: &str) -> (r: Result<(), ParseError>)
    ensures
        r is Ok <==> is_uint_in_range(val@, usize::MAX as int),
        r is Ok ==> *final(target) == digits_value(unsigned_digits(val@)),
        r is Err ==> *final(target) == *old(target),
{
    match parse_usize_str(val) {
        Some(parsed) => {
            *target = parsed;
            Ok(())
        },
        None => Err(ParseError),
    }
}

/// Record a `u64` directive argument; malformed or out-of-range text is
/// refused and leaves the target alone.
pub fn set_u64(target: &mut u64, val: &str) -> (r: Result<(), ParseError>)
    ensures
        r is Ok <==> is_uint_in_range(val@, u64::MAX as int),
        r is Ok ==> *final(target) == digits_value(unsigned_digits(val@)),
        r is Err ==> *final(target) == *old(target),
{
    match parse_u64_str(val) {
        Some(parsed) => {
            *target = parsed;
            Ok(())
        },
        None => Err(ParseError),
    }
}

} // verus!
