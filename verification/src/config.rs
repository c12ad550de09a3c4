//! The configuration record and its text format.
//!
//! A configuration is a plain record of five settings.  Its text form is
//! one `key:value` pair per line; a line whose first character is `#` is a
//! comment, a line without `:` is ignored, and each line is trimmed of
//! leading and trailing ASCII whitespace before it is split at the first
//! `:`.  An unknown key is a `ConfigKey` error naming the key; a value
//! that does not parse as the key's unsigned integer type is a
//! `ConfigValue` error.  Reading the file itself is the caller's concern;
//! this module consumes the text.

use vstd::prelude::*;

use vstd::string::StrSliceExecFns;

use crate::plc::PhaseLockedClock;
use crate::timestamp;
use crate::Error;

verus! {

/// The settings of one client instance.
#[derive(Debug, PartialEq, Eq)]
pub struct ConfigReader {
    /// Reference clock host.
    pub server: String,
    /// Reference clock port.
    pub port: u16,
    /// Per-request network timeout, milliseconds.
    pub timeout: u32,
    /// Large-offset correction threshold, microseconds.
    pub phase_panic: u32,
    /// Staleness threshold, microseconds.
    pub update_panic: u32,
}

/// The mathematical content of a configuration record.
pub struct ConfigModel {
    pub server: Seq<char>,
    pub port: u16,
    pub timeout: u32,
    pub phase_panic: u32,
    pub update_panic: u32,
}

/// What applying one line to a configuration yields.
pub enum LineOutcome {
    /// The line was a comment, blank, keyless, or a recognized setting.
    Updated(ConfigModel),
    /// The value did not parse as the key's type.
    BadValue,
    /// The key is not recognized.
    BadKey(Seq<char>),
}

/// The defaults, as in a configuration file reading
/// `server:127.0.0.1`, `port:4444`, `timeout:1000`, `phasePanic:5000`,
/// `updatePanic:5000000`.
pub open spec fn default_model() -> ConfigModel {
    ConfigModel {
        server: "127.0.0.1"@,
        port: 4444u16,
        timeout: 1000u32,
        phase_panic: 5000u32,
        update_panic: 5000000u32,
    }
}

/// ASCII whitespace, as trimmed from a line.
pub open spec fn is_space_char(c: char) -> bool {
    c == ' ' || c == '\t' || c == '\r'
}

/// A decimal digit.
pub open spec fn is_digit_char(c: char) -> bool {
    48 <= c as u32 <= 57
}

/// Count of leading whitespace characters.
pub open spec fn leading_spaces(s: Seq<char>) -> int
    decreases s.len(),
{
    if s.len() > 0 && is_space_char(s[0]) {
        1 + leading_spaces(s.subrange(1, s.len() as int))
    } else {
        0
    }
}

/// Length of `s` with trailing whitespace removed.
pub open spec fn trimmed_end(s: Seq<char>) -> int
    decreases s.len(),
{
    if s.len() > 0 && is_space_char(s[s.len() - 1]) {
        trimmed_end(s.drop_last())
    } else {
        s.len() as int
    }
}

/// `s` with leading and trailing whitespace removed.
pub open spec fn trim_seq(s: Seq<char>) -> Seq<char> {
    let front = s.subrange(leading_spaces(s), s.len() as int);
    front.subrange(0, trimmed_end(front))
}

/// Index of the first `:`, or the length if there is none.
pub open spec fn colon_split(s: Seq<char>) -> int
    decreases s.len(),
{
    if s.len() == 0 {
        0
    } else if s[0] == ':' {
        0
    } else {
        1 + colon_split(s.subrange(1, s.len() as int))
    }
}

/// Index of the first line break, or the length if there is none.
pub open spec fn line_split(s: Seq<char>) -> int
    decreases s.len(),
{
    if s.len() == 0 {
        0
    } else if s[0] == '\n' {
        0
    } else {
        1 + line_split(s.subrange(1, s.len() as int))
    }
}

/// The digit string of an unsigned decimal literal: an optional leading
/// `+` removed.
pub open spec fn digits_of(s: Seq<char>) -> Seq<char> {
    if s.len() > 0 && s[0] == '+' {
        s.subrange(1, s.len() as int)
    } else {
        s
    }
}

/// Every character is a decimal digit.
pub open spec fn all_digits(s: Seq<char>) -> bool {
    forall|i: int| 0 <= i < s.len() ==> is_digit_char(#[trigger] s[i])
}

/// The value of a digit string, most significant first.
pub open spec fn digits_val(s: Seq<char>) -> int
    decreases s.len(),
{
    if s.len() == 0 {
        0
    } else {
        digits_val(s.drop_last()) * 10 + (s.last() as u32 - 48)
    }
}

/// `s` parses as an unsigned integer no greater than `max`.
pub open spec fn parses_as_uint(s: Seq<char>, max: int) -> bool {
    let d = digits_of(s);
    d.len() > 0 && all_digits(d) && digits_val(d) <= max
}

/// What one line does to a configuration.
pub open spec fn spec_apply_line(m: ConfigModel, line: Seq<char>) -> LineOutcome {
    if line.len() > 0 && line[0] == '#' {
        LineOutcome::Updated(m)
    } else {
        let t = trim_seq(line);
        let c = colon_split(t);
        if c == t.len() {
            LineOutcome::Updated(m)
        } else {
            let key = t.subrange(0, c);
            let val = t.subrange(c + 1, t.len() as int);
            if key == "server"@ {
                LineOutcome::Updated(ConfigModel { server: val, ..m })
            } else if key == "port"@ {
                if parses_as_uint(val, u16::MAX as int) {
                    LineOutcome::Updated(
                        ConfigModel { port: digits_val(digits_of(val)) as u16, ..m },
                    )
                } else {
                    LineOutcome::BadValue
                }
            } else if key == "timeout"@ {
                if parses_as_uint(val, u32::MAX as int) {
                    LineOutcome::Updated(
                        ConfigModel { timeout: digits_val(digits_of(val)) as u32, ..m },
                    )
                } else {
                    LineOutcome::BadValue
                }
            } else if key == "phasePanic"@ {
                if parses_as_uint(val, u32::MAX as int) {
                    LineOutcome::Updated(
                        ConfigModel { phase_panic: digits_val(digits_of(val)) as u32, ..m },
                    )
                } else {
                    LineOutcome::BadValue
                }
            } else if key == "updatePanic"@ {
                if parses_as_uint(val, u32::MAX as int) {
                    LineOutcome::Updated(
                        ConfigModel { update_panic: digits_val(digits_of(val)) as u32, ..m },
                    )
                } else {
                    LineOutcome::BadValue
                }
            } else {
                LineOutcome::BadKey(key)
            }
        }
    }
}

/// Fold the lines of a whole text over a configuration, stopping at the
/// first error.
pub open spec fn spec_parse_lines(m: ConfigModel, s: Seq<char>) -> LineOutcome
    decreases s.len(),
{
    let e = line_split(s);
    if 0 <= e < s.len() {
        match spec_apply_line(m, s.subrange(0, e)) {
            LineOutcome::Updated(m2) => spec_parse_lines(m2, s.subrange(e + 1, s.len() as int)),
            other => other,
        }
    } else {
        spec_apply_line(m, s)
    }
}

impl ConfigReader {
    /// The record's mathematical content.
    pub open spec fn model(self) -> ConfigModel {
        ConfigModel {
            server: self.server@,
            port: self.port,
            timeout: self.timeout,
            phase_panic: self.phase_panic,
            update_panic: self.update_panic,
        }
    }
}

proof fn lemma_leading_spaces_at(s: Seq<char>, i: int)
    requires
        0 <= i <= s.len(),
        forall|j: int| 0 <= j < i ==> is_space_char(#[trigger] s[j]),
        i == s.len() || !is_space_char(s[i]),
    ensures
        leading_spaces(s) == i,
    decreases i,
{
    if i == 0 {
    } else {
        let s1 = s.subrange(1, s.len() as int);
        lemma_leading_spaces_at(s1, i - 1);
    }
}

proof fn lemma_trimmed_end_at(s: Seq<char>, b: int)
    requires
        0 <= b <= s.len(),
        forall|j: int| b <= j < s.len() ==> is_space_char(#[trigger] s[j]),
        b == 0 || !is_space_char(s[b - 1]),
    ensures
        trimmed_end(s) == b,
    decreases s.len(),
{
    if b == s.len() {
    } else {
        lemma_trimmed_end_at(s.drop_last(), b);
    }
}

proof fn lemma_colon_split_at(s: Seq<char>, i: int)
    requires
        0 <= i <= s.len(),
        forall|j: int| 0 <= j < i ==> #[trigger] s[j] != ':',
        i == s.len() || s[i] == ':',
    ensures
        colon_split(s) == i,
    decreases i,
{
    if i == 0 {
    } else {
        let s1 = s.subrange(1, s.len() as int);
        lemma_colon_split_at(s1, i - 1);
    }
}

proof fn lemma_line_split_at(s: Seq<char>, i: int)
    requires
        0 <= i <= s.len(),
        forall|j: int| 0 <= j < i ==> #[trigger] s[j] != '\n',
        i == s.len() || s[i] == '\n',
    ensures
        line_split(s) == i,
    decreases i,
{
    if i == 0 {
    } else {
        let s1 = s.subrange(1, s.len() as int);
        lemma_line_split_at(s1, i - 1);
    }
}

proof fn lemma_digits_val_nonneg(s: Seq<char>)
    requires
        all_digits(s),
    ensures
        digits_val(s) >= 0,
    decreases s.len(),
{
    if s.len() > 0 {
        assert(is_digit_char(s[s.len() - 1]));
        assert(all_digits(s.drop_last())) by {
            assert(forall|i: int|
                0 <= i < s.drop_last().len() ==> #[trigger] s.drop_last()[i] == s[i]);
        };
        lemma_digits_val_nonneg(s.drop_last());
    }
}

proof fn lemma_digits_step(s: Seq<char>, i: int)
    requires
        0 <= i < s.len(),
    ensures
        digits_val(s.subrange(0, i + 1)) == digits_val(s.subrange(0, i)) * 10 + (s[i] as u32
            - 48),
{
    let t = s.subrange(0, i + 1);
    assert(t.drop_last() =~= s.subrange(0, i));
    assert(t.last() == s[i]);
}

proof fn lemma_digits_val_prefix(s: Seq<char>, i: int)
    requires
        all_digits(s),
        0 <= i <= s.len(),
    ensures
        digits_val(s.subrange(0, i)) <= digits_val(s),
    decreases s.len() - i,
{
    if i == s.len() {
        assert(s.subrange(0, i) =~= s);
    } else {
        lemma_digits_step(s, i);
        assert(all_digits(s.subrange(0, i))) by {
            assert(forall|j: int|
                0 <= j < i ==> #[trigger] s.subrange(0, i)[j] == s[j]);
        };
        lemma_digits_val_nonneg(s.subrange(0, i));
        assert(is_digit_char(s[i]));
        lemma_digits_val_prefix(s, i + 1);
    }
}

/// Whether two strings hold the same characters.
pub fn str_eq(a: &str, b: &str) -> (r: bool)
    ensures
        r == (a@ == b@),
{
    let na = a.unicode_len();
    let nb = b.unicode_len();
    if na != nb {
        return false;
    }
    let mut i: usize = 0;
    loop
        invariant
            i <= na,
            na == a@.len(),
            na == b@.len(),
            forall|j: int| 0 <= j < i ==> a@[j] == b@[j],
        ensures
            i <= na,
            forall|j: int| 0 <= j < i ==> a@[j] == b@[j],
            i == na || a@[i as int] != b@[i as int],
        decreases na - i,
    {
        if i >= na {
            break ;
        }
        if a.get_char(i) != b.get_char(i) {
            break ;
        }
        i += 1;
    }
    if i == na {
        proof {
            assert(a@ =~= b@);
        }
        true
    } else {
        false
    }
}

/// Parse an unsigned decimal literal (optional leading `+`) of value at
/// most `max`; anything else is a `ConfigValue` error.
pub fn parse_uint(s: &str, max: u32) -> (r: Result<u32, Error>)
    ensures
        parses_as_uint(s@, max as int) ==> (r matches Ok(v) && v == digits_val(digits_of(s@))
            && v <= max),
        !parses_as_uint(s@, max as int) ==> (r matches Err(e) && e == Error::ConfigValue),
{
    let n = s.unicode_len();
    let start: usize = if n > 0 && s.get_char(0) == '+' {
        1
    } else {
        0
    };
    let ghost d = digits_of(s@);
    proof {
        assert(d =~= s@.subrange(start as int, n as int));
    }
    if start >= n {
        return Err(Error::ConfigValue);
    }
    let mut acc: u32 = 0;
    let mut i: usize = start;
    loop
        invariant
            start <= i <= n,
            n == s@.len(),
            start < n,
            d == s@.subrange(start as int, n as int),
            d == digits_of(s@),
            all_digits(s@.subrange(start as int, i as int)),
            acc == digits_val(s@.subrange(start as int, i as int)),
        ensures
            start <= i <= n,
            all_digits(s@.subrange(start as int, i as int)),
            i < n ==> !parses_as_uint(s@, max as int),
            i == n ==> acc == digits_val(d),
        decreases n - i,
    {
        if i >= n {
            proof {
                assert(s@.subrange(start as int, i as int) =~= d);
            }
            break ;
        }
        let c = s.get_char(i);
        let cu = c as u32;
        if cu < 48 || cu > 57 {
            proof {
                assert(!is_digit_char(s@[i as int]));
                assert(d[i - start] == s@[i as int]);
                assert(!all_digits(d));
            }
            return Err(Error::ConfigValue);
        }
        let ghost pre = s@.subrange(start as int, i as int);
        let ghost ext = s@.subrange(start as int, i + 1);
        proof {
            assert(ext.drop_last() =~= pre);
            assert(ext.last() == s@[i as int]);
            assert(digits_val(ext) == digits_val(pre) * 10 + (s@[i as int] as u32 - 48));
            assert(forall|j: int| 0 <= j < ext.len() ==> #[trigger] ext[j] == s@[start + j]);
        }
        let stepped = match acc.checked_mul(10) {
            Some(t) => t.checked_add(cu - 48),
            None => None,
        };
        match stepped {
            Some(v) => {
                acc = v;
            },
            None => {
                proof {
                    assert(digits_val(ext) > u32::MAX);
                    if parses_as_uint(s@, max as int) {
                        assert(all_digits(d));
                        assert(ext =~= d.subrange(0, i + 1 - start));
                        lemma_digits_val_prefix(d, i + 1 - start);
                        assert(digits_val(d) > max);
                    }
                }
                return Err(Error::ConfigValue);
            },
        }
        i += 1;
    }
    if i < n {
        return Err(Error::ConfigValue);
    }
    if acc > max {
        proof {
            assert(digits_val(d) > max);
        }
        return Err(Error::ConfigValue);
    }
    Ok(acc)
}

/// Apply one configuration line to a record.
pub fn apply_line(cfg: ConfigReader, line: &str) -> (r: Result<ConfigReader, Error>)
    ensures
        match spec_apply_line(cfg.model(), line@) {
            LineOutcome::Updated(m) => r matches Ok(c) && c.model() == m,
            LineOutcome::BadValue => r matches Err(e) && e == Error::ConfigValue,
            LineOutcome::BadKey(k) => r matches Err(e) && (e matches Error::ConfigKey(ks)
                && ks@ == k),
        },
{
    let n = line.unicode_len();
    if n > 0 && line.get_char(0) == '#' {
        return Ok(cfg);
    }
    let mut a: usize = 0;
    loop
        invariant
            a <= n,
            n == line@.len(),
            forall|j: int| 0 <= j < a ==> is_space_char(#[trigger] line@[j]),
        ensures
            a <= n,
            forall|j: int| 0 <= j < a ==> is_space_char(#[trigger] line@[j]),
            a == n || !is_space_char(line@[a as int]),
        decreases n - a,
    {
        if a >= n {
            break ;
        }
        let c = line.get_char(a);
        if c == ' ' || c == '\t' || c == '\r' {
            a += 1;
        } else {
            break ;
        }
    }
    let mut b: usize = n;
    loop
        invariant
            a <= b <= n,
            n == line@.len(),
            forall|j: int| b <= j < n ==> is_space_char(#[trigger] line@[j]),
        ensures
            a <= b <= n,
            forall|j: int| b <= j < n ==> is_space_char(#[trigger] line@[j]),
            b == a || !is_space_char(line@[b - 1]),
        decreases b,
    {
        if b <= a {
            break ;
        }
        let c = line.get_char(b - 1);
        if c == ' ' || c == '\t' || c == '\r' {
            b -= 1;
        } else {
            break ;
        }
    }
    let t = line.substring_char(a, b);
    proof {
        lemma_leading_spaces_at(line@, a as int);
        let front = line@.subrange(a as int, n as int);
        assert forall|j: int| b - a <= j < front.len() implies is_space_char(
            #[trigger] front[j],
        ) by {
            assert(front[j] == line@[a + j]);
        };
        assert(b - a == 0 || !is_space_char(front[b - a - 1])) by {
            if b > a {
                assert(front[b - a - 1] == line@[b - 1]);
            }
        };
        lemma_trimmed_end_at(front, b - a);
        assert(t@ =~= trim_seq(line@));
    }
    let nt = t.unicode_len();
    let mut ci: usize = 0;
    loop
        invariant
            ci <= nt,
            nt == t@.len(),
            forall|j: int| 0 <= j < ci ==> #[trigger] t@[j] != ':',
        ensures
            ci <= nt,
            forall|j: int| 0 <= j < ci ==> #[trigger] t@[j] != ':',
            ci == nt || t@[ci as int] == ':',
        decreases nt - ci,
    {
        if ci >= nt {
            break ;
        }
        if t.get_char(ci) == ':' {
            break ;
        }
        ci += 1;
    }
    proof {
        lemma_colon_split_at(t@, ci as int);
    }
    if ci == nt {
        return Ok(cfg);
    }
    let key = t.substring_char(0, ci);
    let val = t.substring_char(ci + 1, nt);
    if str_eq(key, "server") {
        return Ok(ConfigReader { server: val.to_owned(), ..cfg });
    }
    if str_eq(key, "port") {
        return match parse_uint(val, 65535) {
            Ok(v) => Ok(ConfigReader { port: v as u16, ..cfg }),
            Err(e) => Err(e),
        };
    }
    if str_eq(key, "timeout") {
        return match parse_uint(val, u32::MAX) {
            Ok(v) => Ok(ConfigReader { timeout: v, ..cfg }),
            Err(e) => Err(e),
        };
    }
    if str_eq(key, "phasePanic") {
        return match parse_uint(val, u32::MAX) {
            Ok(v) => Ok(ConfigReader { phase_panic: v, ..cfg }),
            Err(e) => Err(e),
        };
    }
    if str_eq(key, "updatePanic") {
        return match parse_uint(val, u32::MAX) {
            Ok(v) => Ok(ConfigReader { update_panic: v, ..cfg }),
            Err(e) => Err(e),
        };
    }
    Err(Error::ConfigKey(key.to_owned()))
}

/// Build a configuration from the text of a configuration file, starting
/// from the defaults and applying each line in order; the first bad line
/// decides the error.
pub fn from_config_text(text: &str) -> (r: Result<ConfigReader, Error>)
    ensures
        match spec_parse_lines(default_model(), text@) {
            LineOutcome::Updated(m) => r matches Ok(c) && c.model() == m,
            LineOutcome::BadValue => r matches Err(e) && e == Error::ConfigValue,
            LineOutcome::BadKey(k) => r matches Err(e) && (e matches Error::ConfigKey(ks)
                && ks@ == k),
        },
{
    let n = text.unicode_len();
    let mut cfg = ConfigReader::default();
    let mut pos: usize = 0;
    proof {
        assert(text@.subrange(0, n as int) =~= text@);
    }
    loop
        invariant
            pos <= n,
            n == text@.len(),
            spec_parse_lines(default_model(), text@) == spec_parse_lines(
                cfg.model(),
                text@.subrange(pos as int, n as int),
            ),
        decreases n - pos,
    {
        let ghost suffix = text@.subrange(pos as int, n as int);
        let mut e: usize = pos;
        loop
            invariant
                pos <= e <= n,
                n == text@.len(),
                forall|j: int| pos <= j < e ==> #[trigger] text@[j] != '\n',
            ensures
                pos <= e <= n,
                forall|j: int| pos <= j < e ==> #[trigger] text@[j] != '\n',
                e == n || text@[e as int] == '\n',
            decreases n - e,
        {
            if e >= n {
                break ;
            }
            if text.get_char(e) == '\n' {
                break ;
            }
            e += 1;
        }
        proof {
            assert forall|j: int| 0 <= j < e - pos implies #[trigger] suffix[j] != '\n' by {
                assert(suffix[j] == text@[pos + j]);
            };
            if e < n {
                assert(suffix[e - pos] == text@[e as int]);
            }
            lemma_line_split_at(suffix, e - pos);
        }
        let line = text.substring_char(pos, e);
        proof {
            assert(line@ =~= suffix.subrange(0, e - pos));
            if e - pos == suffix.len() {
                assert(line@ =~= suffix);
            }
        }
        cfg = match apply_line(cfg, line) {
            Ok(c) => c,
            Err(err) => {
                return Err(err);
            },
        };
        if e == n {
            return Ok(cfg);
        }
        proof {
            assert(text@.subrange(e + 1, n as int) =~= suffix.subrange(
                e - pos + 1,
                suffix.len() as int,
            ));
        }
        pos = e + 1;
    }
}

impl core::default::Default for ConfigReader {
    /// The built-in defaults: the loopback reference on port 4444, a one
    /// second request timeout, a five millisecond phase panic and a five
    /// second update panic.
    fn default() -> (r: ConfigReader)
        ensures
            r.model() == default_model(),
    {
        ConfigReader {
            server: "127.0.0.1".to_owned(),
            port: 4444,
            timeout: 1000,
            phase_panic: 5000,
            update_panic: 5000000,
        }
    }
}

impl ConfigReader {
    /// Replace the server address.
    pub fn server(self, server: String) -> (r: ConfigReader)
        ensures
            r.model() == (ConfigModel { server: server@, ..self.model() }),
    {
        ConfigReader { server, ..self }
    }

    /// Replace the server port.
    pub fn port(self, port: u16) -> (r: ConfigReader)
        ensures
            r.model() == (ConfigModel { port, ..self.model() }),
    {
        ConfigReader { port, ..self }
    }

    /// Replace the phase-panic threshold, in microseconds.
    pub fn phase_panic(self, phase_panic: u32) -> (r: ConfigReader)
        ensures
            r.model() == (ConfigModel { phase_panic, ..self.model() }),
    {
        ConfigReader { phase_panic, ..self }
    }

    /// Replace the update-panic threshold, in microseconds.
    pub fn update_panic(self, update_panic: u32) -> (r: ConfigReader)
        ensures
            r.model() == (ConfigModel { update_panic, ..self.model() }),
    {
        ConfigReader { update_panic, ..self }
    }

    /// Build a phase-locked clock from this configuration: fresh,
    /// unsynchronized, its thresholds taken from the record, anchored at
    /// the current wall-clock time.
    pub fn build_clock(self) -> (r: PhaseLockedClock)
        ensures
            r.phase_panic_micros == self.phase_panic,
            r.update_panic_micros == self.update_panic,
            !r.synchronized,
            !r.running,
            !r.cancel_requested,
            r.offset_micros == 0,
            r.wf(),
    {
        let now = timestamp::wall_clock_micros();
        PhaseLockedClock::new(self.phase_panic as i64, self.update_panic as i64, now)
    }
}

/// The configuration record under the name callers build it by.
pub type Config = ConfigReader;

} // verus!
