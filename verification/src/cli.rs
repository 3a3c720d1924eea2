//! The command-line tools: their arguments and the small languages they parse
//! (sandbox names with scripts, `KEY=value` pairs, file paths, durations).

use vstd::prelude::*;
use vstd::string::StringExecFns;

use chrono::TimeDelta;

use crate::text::{
    lemma_ascii_trimmed_text,
    after_first, ascii_trimmed, before_first, decimal_text, is_ascii_digit, is_ascii_text,
    is_ascii_whitespace, lacks_char, split_once_char, std_trim, str_equal, trimmed_text,
};

verus! {

//--------------------------------------------------------------------------------------------------
// Types
//--------------------------------------------------------------------------------------------------

/// Errors of the command-line tools.
#[derive(Debug)]
pub enum MicrosandboxCliError {
    /// An invalid argument was given.
    InvalidArgument(String),
    /// Something was not found.
    NotFound(String),
    /// Waiting for a process failed.
    ProcessWaitError(String),
    /// The configuration is invalid.
    ConfigError(String),
}

/// Actions on the microsandbox installation itself.
#[derive(Clone, Copy, Debug, PartialEq, Eq, Structural)]
pub enum SelfAction {
    /// Upgrade microsandbox
    Upgrade,
    /// Uninstall microsandbox
    Uninstall,
}

/// Subcommands of `msb server`.
pub enum ServerSubcommand {
    /// Start the sandbox server
    Start {
        /// Host to listen on
        host: Option<String>,
        /// Port to listen on
        port: Option<u16>,
        /// Directory to store the project files in
        project_dir: Option<String>,
        /// Run in development mode
        dev_mode: bool,
        /// Key to use for the server
        key: Option<String>,
        /// Run the server in the background
        detach: bool,
        /// Reset the server key
        reset_key: bool,
    },
    /// Stop the sandbox server
    Stop,
    /// Generate a new API key
    Keygen {
        /// Expiration of the key, such as `1h`, `2d` or `1w`
        expire: Option<String>,
    },
    /// Show the logs of a sandbox
    Log {
        /// Whether the name names a sandbox
        sandbox: bool,
        /// Name of the sandbox
        name: String,
        /// Follow the log
        follow: bool,
        /// Number of lines to show from the end
        tail: Option<usize>,
    },
    /// List the sandboxes of the server
    List,
    /// Show the status of sandboxes
    Status {
        /// Whether the names name sandboxes
        sandbox: bool,
        /// Names of the sandboxes
        names: Vec<String>,
    },
    /// SSH into a sandbox
    Ssh {
        /// Whether the name names a sandbox
        sandbox: bool,
        /// Name of the sandbox
        name: String,
    },
}

/// Arguments of the `msbserver` program.
pub struct MsbserverArgs {
    /// Secret key used for JWT token generation and validation
    pub key: Option<String>,
    /// Host address to listen on
    pub host: String,
    /// Port number to listen on
    pub port: u16,
    /// Directory for storing projects
    pub project_dir: Option<String>,
    /// Run in development mode
    pub dev_mode: bool,
}

//--------------------------------------------------------------------------------------------------
// Names with scripts and key-value pairs
//--------------------------------------------------------------------------------------------------

/// The character between a sandbox name and the script to run in it.
pub const SANDBOX_SCRIPT_SEPARATOR: char = '~';

/// Split `name~script` into the sandbox name and the script, if one is given.
pub fn parse_name_and_script<'a>(name_and_script: &'a str) -> (r: (&'a str, Option<&'a str>))
    ensures
        lacks_char(name_and_script@, '~') ==> r.0@ == name_and_script@ && r.1 is None,
        !lacks_char(name_and_script@, '~') ==> r.0@ == before_first(name_and_script@, '~') && (r.1 matches Some(s) && s@
            == after_first(name_and_script@, '~')),
{
    match split_once_char(name_and_script, SANDBOX_SCRIPT_SEPARATOR) {
        Some((name, script)) => (name, Some(script)),
        None => (name_and_script, None),
    }
}

/// Parse a `KEY=value` pair: the key is what stands before the first `=`, the
/// value all that follows it.
pub fn parse_key_val(s: &str) -> (r: Result<(String, String), String>)
    ensures
        lacks_char(s@, '=') ==> (r matches Err(m) && m@ == "invalid KEY=value: no `=` found in `"@ + s@
            + "`"@),
        !lacks_char(s@, '=') ==> (r matches Ok((k, v)) && k@ == before_first(s@, '=') && v@
            == after_first(s@, '=')),
{
    match split_once_char(s, '=') {
        Some((k, v)) => Ok((String::from_str(k), String::from_str(v))),
        None => Err(String::from_str("invalid KEY=value: no `=` found in `").concat(s).concat("`")),
    }
}

//--------------------------------------------------------------------------------------------------
// File paths
//--------------------------------------------------------------------------------------------------

/// Names what `Path::file_name` gives of a path: its final component, if it has one.
pub uninterp spec fn path_file_name(path: Seq<char>) -> Option<Seq<char>>;

/// Names what `Path::parent` gives of a path: the path without its final component, if any.
pub uninterp spec fn path_parent(path: Seq<char>) -> Option<Seq<char>>;

/// Calls `std::path::Path::file_name` and reads the name as text (which it is,
/// the path being text). The result is named by `path_file_name`.
#[verifier::external_body]
fn file_name_of(path: &str) -> (r: Option<String>)
    ensures
        match r {
            Some(n) => path_file_name(path@) == Some(n@),
            None => path_file_name(path@) is None,
        },
{
    std::path::Path::new(path).file_name().and_then(|n| n.to_str()).map(String::from)
}

/// Calls `std::path::Path::parent` and reads the parent as text. The result is
/// named by `path_parent`.
#[verifier::external_body]
fn parent_of(path: &str) -> (r: Option<String>)
    ensures
        match r {
            Some(p) => path_parent(path@) == Some(p@),
            None => path_parent(path@) is None,
        },
{
    std::path::Path::new(path).parent().and_then(|p| p.to_str()).map(String::from)
}

/// The project directory of a configuration file: its parent, or the current
/// directory where it has none or an empty one.
pub open spec fn project_dir_of(path: Seq<char>) -> Seq<char> {
    match path_parent(path) {
        Some(p) => if p.len() == 0 {
            "."@
        } else {
            p
        },
        None => "."@,
    }
}

/// Parse a file path into project path and config file name.
///
/// If the file path is a directory (`is_dir`, which the caller finds out), it
/// is treated as the project path. If it is a file, its parent directory is
/// treated as the project path and its name as the config file. If the file has
/// no parent directory or its parent is empty, the current directory is used as
/// the project path.
pub fn parse_file_path(file: Option<&str>, is_dir: bool) -> (r: (Option<String>, Option<String>))
    ensures
        file is None ==> r.0 is None && r.1 is None,
        file matches Some(f) ==> is_dir ==> (r.0 matches Some(p) && p@ == f@) && r.1 is None,
        file matches Some(f) ==> !is_dir ==> (r.0 matches Some(p) && p@ == project_dir_of(f@)) && match r.1 {
            Some(n) => path_file_name(f@) == Some(n@),
            None => path_file_name(f@) is None,
        },
{
    match file {
        Some(f) => {
            if is_dir {
                (Some(String::from_str(f)), None)
            } else {
                let config_name = file_name_of(f);
                let project_path = match parent_of(f) {
                    Some(p) => if p.unicode_len() == 0 {
                        String::from_str(".")
                    } else {
                        p
                    },
                    None => String::from_str("."),
                };
                (Some(project_path), config_name)
            }
        },
        None => (None, None),
    }
}

//--------------------------------------------------------------------------------------------------
// Durations
//--------------------------------------------------------------------------------------------------

/// The unit of a duration.
#[derive(Clone, Copy, Debug, PartialEq, Eq, Structural)]
pub enum DurationUnit {
    /// `s`
    Seconds,
    /// `m`
    Minutes,
    /// `h`, and no unit at all
    Hours,
    /// `d`
    Days,
    /// `w`
    Weeks,
    /// `mo`: 30 days
    Months,
    /// `y`: 365 days
    Years,
}

/// The seconds in one unit.
pub open spec fn unit_seconds(u: DurationUnit) -> int {
    match u {
        DurationUnit::Seconds => 1,
        DurationUnit::Minutes => 60,
        DurationUnit::Hours => 3600,
        DurationUnit::Days => 86400,
        DurationUnit::Weeks => 604800,
        DurationUnit::Months => 2592000,
        DurationUnit::Years => 31536000,
    }
}

/// The unit a suffix names.
pub open spec fn unit_of(suffix: Seq<char>) -> Option<DurationUnit> {
    if suffix == "s"@ {
        Some(DurationUnit::Seconds)
    } else if suffix == "m"@ {
        Some(DurationUnit::Minutes)
    } else if suffix == "h"@ || suffix.len() == 0 {
        Some(DurationUnit::Hours)
    } else if suffix == "d"@ {
        Some(DurationUnit::Days)
    } else if suffix == "w"@ {
        Some(DurationUnit::Weeks)
    } else if suffix == "mo"@ {
        Some(DurationUnit::Months)
    } else if suffix == "y"@ {
        Some(DurationUnit::Years)
    } else {
        None
    }
}

/// The number of leading ASCII digits of `s`.
pub open spec fn digit_prefix_len(s: Seq<char>) -> nat
    decreases s.len(),
{
    if s.len() == 0 || !is_ascii_digit(s[0]) {
        0
    } else {
        1 + digit_prefix_len(s.drop_first())
    }
}

/// The number that a text of ASCII digits writes in decimal.
pub open spec fn digits_value(s: Seq<char>) -> int
    decreases s.len(),
{
    if s.len() == 0 {
        0
    } else {
        digits_value(s.drop_last()) * 10 + (s.last() as int - '0' as int)
    }
}

/// The ways a duration can be read, or fail to be.
pub enum DurationReading {
    /// Nothing but whitespace.
    Empty,
    /// No digits at the start.
    NoNumber,
    /// The digits write a number beyond `i64`.
    BadNumber,
    /// The unit after the digits is not known.
    BadUnit,
    /// A count of units.
    Count(int, DurationUnit),
}

/// How a duration, already trimmed, reads.
pub open spec fn duration_reading(t: Seq<char>) -> DurationReading {
    let n = digit_prefix_len(t) as int;
    let digits = t.subrange(0, n);
    let unit = t.subrange(n, t.len() as int);
    if t.len() == 0 {
        DurationReading::Empty
    } else if n == 0 {
        DurationReading::NoNumber
    } else if digits_value(digits) > i64::MAX {
        DurationReading::BadNumber
    } else {
        match unit_of(unit) {
            Some(u) => DurationReading::Count(digits_value(digits), u),
            None => DurationReading::BadUnit,
        }
    }
}

/// The text of a duration reads as a count whose length in seconds a
/// `chrono::TimeDelta` can hold (at most `i64::MAX / 1000` seconds).
pub open spec fn duration_fits(t: Seq<char>) -> bool {
    match duration_reading(t) {
        DurationReading::Count(v, u) => v * unit_seconds(u) <= i64::MAX / 1000,
        _ => true,
    }
}

/// The error message of a duration that does not read, on the trimmed text.
pub open spec fn duration_error(t: Seq<char>) -> Seq<char> {
    let n = digit_prefix_len(t) as int;
    match duration_reading(t) {
        DurationReading::Empty => "Empty duration string"@,
        DurationReading::NoNumber => "Invalid duration: "@ + t + ". No numeric value found."@,
        DurationReading::BadNumber => "Invalid numeric value in duration: "@ + t.subrange(0, n),
        DurationReading::BadUnit => "Invalid duration unit: "@ + t.subrange(n, t.len() as int)
            + ". Expected one of: s, m, h, d, w, mo, y"@,
        DurationReading::Count(..) => Seq::empty(),
    }
}

/// The decimal text of a number is a nonempty run of digits that writes it.
pub proof fn lemma_decimal_text_value(n: nat)
    ensures
        decimal_text(n).len() > 0,
        forall|i: int| 0 <= i < decimal_text(n).len() ==> is_ascii_digit(#[trigger] decimal_text(n)[i]),
        digits_value(decimal_text(n)) == n,
    decreases n,
{
    reveal_strlit("0123456789");
    let digits = "0123456789"@;
    assert(digits =~= seq!['0', '1', '2', '3', '4', '5', '6', '7', '8', '9']);
    let d = (n % 10) as int;
    assert(is_ascii_digit(digits[d]) && digits[d] as int - '0' as int == d) by {
        assert(0 <= d < 10);
        if d == 0 {} else if d == 1 {} else if d == 2 {} else if d == 3 {} else if d == 4 {}
        else if d == 5 {} else if d == 6 {} else if d == 7 {} else if d == 8 {} else {}
    }
    let s = decimal_text(n);
    if n >= 10 {
        lemma_decimal_text_value(n / 10);
        assert(s.drop_last() =~= decimal_text(n / 10));
    } else {
        assert(s.drop_last() =~= Seq::<char>::empty());
    }
    // One step of `digits_value`: the last digit on top of the others.
    assert(digits_value(s) == digits_value(s.drop_last()) * 10 + (s.last() as int
        - '0' as int));
}

/// The units of a duration last what their names say: a second, a minute of
/// 60 seconds, an hour of 60 minutes, a day of 24 hours, a week of 7 days, a
/// month of 30 days and a year of 365 days; so a count of hours lasts as long as
/// 60 times that count of minutes.
pub proof fn lemma_unit_lengths(n: int)
    ensures
        unit_seconds(DurationUnit::Seconds) == 1,
        unit_seconds(DurationUnit::Minutes) == 60 * unit_seconds(DurationUnit::Seconds),
        unit_seconds(DurationUnit::Hours) == 60 * unit_seconds(DurationUnit::Minutes),
        unit_seconds(DurationUnit::Hours) == 3600,
        unit_seconds(DurationUnit::Days) == 24 * unit_seconds(DurationUnit::Hours),
        unit_seconds(DurationUnit::Weeks) == 7 * unit_seconds(DurationUnit::Days),
        unit_seconds(DurationUnit::Months) == 30 * unit_seconds(DurationUnit::Days),
        unit_seconds(DurationUnit::Years) == 365 * unit_seconds(DurationUnit::Days),
        n * unit_seconds(DurationUnit::Hours) == (60 * n) * unit_seconds(DurationUnit::Minutes),
        n * unit_seconds(DurationUnit::Days) == (24 * n) * unit_seconds(DurationUnit::Hours),
{
    assert(n * 3600 == (60 * n) * 60) by (nonlinear_arith);
    assert(n * 86400 == (24 * n) * 3600) by (nonlinear_arith);
}

/// A duration written as a count of hours (`<n>h`, or `<n>` alone) reads as
/// that many hours, which last `n * 3600` seconds; and `<n>m` lasts `n * 60`.
pub proof fn lemma_hours_text(count: u64)
    requires
        count <= i64::MAX,
    ensures
        ({
            let t = decimal_text(count as nat) + "h"@;
            duration_reading(t) matches DurationReading::Count(v, u) && v * unit_seconds(u) == count * 3600
        }),
        ({
            let t = decimal_text(count as nat);
            duration_reading(t) matches DurationReading::Count(v, u) && v * unit_seconds(u) == count * 3600
        }),
        ({
            let t = decimal_text(count as nat) + "m"@;
            duration_reading(t) matches DurationReading::Count(v, u) && v * unit_seconds(u) == count * 60
        }),
{
    reveal_strlit("h");
    reveal_strlit("m");
    lemma_duration_text_round_trip(count, Some(DurationUnit::Hours));
    lemma_duration_text_round_trip(count, Some(DurationUnit::Minutes));
    lemma_duration_text_round_trip(count, None);
    assert(decimal_text(count as nat) + Seq::<char>::empty() =~= decimal_text(count as nat));
}

/// The suffix that names a unit.
pub open spec fn unit_text(u: DurationUnit) -> Seq<char> {
    match u {
        DurationUnit::Seconds => "s"@,
        DurationUnit::Minutes => "m"@,
        DurationUnit::Hours => "h"@,
        DurationUnit::Days => "d"@,
        DurationUnit::Weeks => "w"@,
        DurationUnit::Months => "mo"@,
        DurationUnit::Years => "y"@,
    }
}

/// Digits followed by text that does not start with one: the digit prefix is
/// exactly the digits.
proof fn lemma_digit_prefix_of_concat(d: Seq<char>, rest: Seq<char>)
    requires
        forall|i: int| 0 <= i < d.len() ==> is_ascii_digit(#[trigger] d[i]),
        rest.len() == 0 || !is_ascii_digit(rest[0]),
    ensures
        digit_prefix_len(d + rest) == d.len(),
    decreases d.len(),
{
    if d.len() == 0 {
        assert(d + rest =~= rest);
    } else {
        assert((d + rest)[0] == d[0]);
        assert((d + rest).drop_first() =~= d.drop_first() + rest);
        assert forall|i: int| 0 <= i < d.drop_first().len() implies is_ascii_digit(
            #[trigger] d.drop_first()[i],
        ) by {
            assert(d.drop_first()[i] == d[i + 1]);
        }
        lemma_digit_prefix_of_concat(d.drop_first(), rest);
    }
}

/// A duration written as a count in decimal followed by the suffix of a unit
/// (or by nothing, which counts hours) reads back as that count of that unit,
/// with nothing for trimming to remove.
pub proof fn lemma_duration_text_round_trip(count: u64, unit: Option<DurationUnit>)
    requires
        count <= i64::MAX,
    ensures
        ({
            let t = decimal_text(count as nat) + match unit {
                Some(u) => unit_text(u),
                None => Seq::empty(),
            };
            &&& is_ascii_text(t)
            &&& ascii_trimmed(t) == t
            &&& duration_reading(t) == DurationReading::Count(
                count as int,
                match unit {
                    Some(u) => u,
                    None => DurationUnit::Hours,
                },
            )
        }),
{
    reveal_strlit("s");
    reveal_strlit("m");
    reveal_strlit("h");
    reveal_strlit("d");
    reveal_strlit("w");
    reveal_strlit("mo");
    reveal_strlit("y");
    let d = decimal_text(count as nat);
    let suffix = match unit {
        Some(u) => unit_text(u),
        None => Seq::<char>::empty(),
    };
    let t = d + suffix;
    lemma_decimal_text_value(count as nat);
    lemma_digit_prefix_of_concat(d, suffix);
    assert(t.subrange(0, d.len() as int) =~= d);
    assert(t.subrange(d.len() as int, t.len() as int) =~= suffix);
    assert forall|i: int| 0 <= i < t.len() implies (#[trigger] t[i] as u32) < 128 by {
        if i < d.len() {
            assert(t[i] == d[i] && is_ascii_digit(d[i]));
        } else {
            assert(t[i] == suffix[i - d.len()]);
        }
    }
    assert(t[0] == d[0] && is_ascii_digit(d[0]));
    assert(!is_ascii_whitespace(t.last()));
}

proof fn lemma_digit_prefix(s: Seq<char>, i: int)
    requires
        0 <= i <= digit_prefix_len(s),
    ensures
        digit_prefix_len(s) <= s.len(),
        i < digit_prefix_len(s) ==> is_ascii_digit(s[i]),
        i == digit_prefix_len(s) && i < s.len() ==> !is_ascii_digit(s[i]),
    decreases s.len(),
{
    if s.len() > 0 && is_ascii_digit(s[0]) && i > 0 {
        lemma_digit_prefix(s.drop_first(), i - 1);
    } else if s.len() > 0 && is_ascii_digit(s[0]) {
        lemma_digit_prefix(s.drop_first(), 0);
    }
}

proof fn lemma_digits_value_nonneg(s: Seq<char>)
    requires
        forall|i: int| 0 <= i < s.len() ==> is_ascii_digit(#[trigger] s[i]),
    ensures
        digits_value(s) >= 0,
    decreases s.len(),
{
    if s.len() > 0 {
        lemma_digits_value_nonneg(s.drop_last());
    }
}

/// Read a duration such as `30s`, `5m`, `3h`, `2d`, `1w`, `6mo` or `1y` (a bare
/// number counts hours), after trimming surrounding whitespace: the count and
/// its unit, or the reason it does not read.
pub fn duration_parts(duration_str: &str) -> (r: Result<(i64, DurationUnit), MicrosandboxCliError>)
    ensures
        duration_reading(trimmed_text(duration_str@)) matches DurationReading::Count(v, u) ==> r
            == Ok::<(i64, DurationUnit), MicrosandboxCliError>((v as i64, u)),
        !(duration_reading(trimmed_text(duration_str@)) is Count) ==> (r matches Err(
            MicrosandboxCliError::InvalidArgument(m),
        ) && m@ == duration_error(trimmed_text(duration_str@))),
        r matches Ok((v, u)) ==> v >= 0 && duration_reading(trimmed_text(duration_str@))
            == DurationReading::Count(v as int, u),
        is_ascii_text(duration_str@) ==> (r matches Ok((v, u)) ==> duration_reading(
            ascii_trimmed(duration_str@),
        ) == DurationReading::Count(v as int, u)),
        is_ascii_text(duration_str@) ==> (r is Err <==> !(duration_reading(ascii_trimmed(duration_str@)) is Count)),
        is_ascii_text(duration_str@) ==> (r matches Err(MicrosandboxCliError::InvalidArgument(m)) ==> m@
            == duration_error(ascii_trimmed(duration_str@))),
{
    proof {
        if is_ascii_text(duration_str@) {
            lemma_ascii_trimmed_text(duration_str@);
        }
    }
    let t = std_trim(duration_str);
    let n = t.unicode_len();
    if n == 0 {
        return Err(MicrosandboxCliError::InvalidArgument(String::from_str("Empty duration string")));
    }
    let ghost ts = t@;
    // Read the leading digits, keeping their value while it fits in an i64.
    let mut k: usize = 0;
    let mut value: i64 = 0;
    let mut overflow = false;
    proof {
        lemma_digit_prefix(ts, 0);
    }
    while k < n && '0' <= t.get_char(k) && t.get_char(k) <= '9'
        invariant
            n == ts.len(),
            t@ == ts,
            k <= digit_prefix_len(ts),
            digit_prefix_len(ts) <= n,
            !overflow ==> value == digits_value(ts.subrange(0, k as int)),
            overflow ==> digits_value(ts.subrange(0, k as int)) > i64::MAX,
            value >= 0,
        decreases n - k,
    {
        proof {
            lemma_digit_prefix(ts, k as int);
            if k as int == digit_prefix_len(ts) {
                assert(false);
            }
        }
        let c = t.get_char(k);
        let d: i64 = (c as u32 - '0' as u32) as i64;
        let ghost prefix = ts.subrange(0, k as int);
        assert(ts.subrange(0, k + 1).drop_last() =~= prefix);
        proof {
            assert forall|i: int| 0 <= i < prefix.len() implies is_ascii_digit(#[trigger] prefix[i]) by {
                lemma_digit_prefix(ts, i);
            }
            lemma_digits_value_nonneg(prefix);
        }
        if !overflow {
            if value > (i64::MAX - d) / 10 {
                overflow = true;
            } else {
                value = value * 10 + d;
            }
        }
        k = k + 1;
    }
    proof {
        lemma_digit_prefix(ts, k as int);
    }
    assert(k as int == digit_prefix_len(ts));
    if k == 0 {
        return Err(
            MicrosandboxCliError::InvalidArgument(
                String::from_str("Invalid duration: ").concat(t).concat(". No numeric value found."),
            ),
        );
    }
    let digits = t.substring_char(0, k);
    let unit = t.substring_char(k, n);
    if overflow {
        return Err(
            MicrosandboxCliError::InvalidArgument(
                String::from_str("Invalid numeric value in duration: ").concat(digits),
            ),
        );
    }
    let u = if str_equal(unit, "s") {
        DurationUnit::Seconds
    } else if str_equal(unit, "m") {
        DurationUnit::Minutes
    } else if str_equal(unit, "h") || unit.unicode_len() == 0 {
        DurationUnit::Hours
    } else if str_equal(unit, "d") {
        DurationUnit::Days
    } else if str_equal(unit, "w") {
        DurationUnit::Weeks
    } else if str_equal(unit, "mo") {
        DurationUnit::Months
    } else if str_equal(unit, "y") {
        DurationUnit::Years
    } else {
        return Err(
            MicrosandboxCliError::InvalidArgument(
                String::from_str("Invalid duration unit: ").concat(unit).concat(
                    ". Expected one of: s, m, h, d, w, mo, y",
                ),
            ),
        );
    };
    Ok((value, u))
}

/// The seconds in a count of units.
pub fn duration_seconds(value: i64, unit: DurationUnit) -> (r: i64)
    requires
        0 <= value,
        value * unit_seconds(unit) <= i64::MAX / 1000,
    ensures
        r == value * unit_seconds(unit),
{
    let per: i64 = match unit {
        DurationUnit::Seconds => 1,
        DurationUnit::Minutes => 60,
        DurationUnit::Hours => 3600,
        DurationUnit::Days => 86400,
        DurationUnit::Weeks => 604800,
        DurationUnit::Months => 30 * 86400,
        DurationUnit::Years => 365 * 86400,
    };
    assert(value * per >= 0) by (nonlinear_arith)
        requires
            value >= 0,
            per >= 1,
    ;
    value * per
}

/// Declares `chrono::TimeDelta` to the verifier; its values are opaque.
#[verifier::external_type_specification]
#[verifier::external_body]
pub struct ExTimeDelta(TimeDelta);

/// Names the `chrono::TimeDelta` of a number of seconds, as
/// `TimeDelta::seconds` makes it (a `TimeDelta` is opaque to the verifier).
pub uninterp spec fn time_delta_of(seconds: i64) -> TimeDelta;

/// Calls `chrono::TimeDelta::seconds`, which panics beyond `i64::MAX / 1000`
/// seconds either way; the `requires` keeps to that range. The result is named
/// by `time_delta_of`.
#[verifier::external_body]
fn time_delta_of_seconds(seconds: i64) -> (r: TimeDelta)
    requires
        -(i64::MAX / 1000) <= seconds <= i64::MAX / 1000,
    ensures
        r == time_delta_of(seconds),
{
    TimeDelta::seconds(seconds)
}

/// Parse a duration string like "1s", "1m", "3h", "2d" into a `chrono::TimeDelta`
/// of as many seconds as `duration_parts` reads. Durations beyond what a
/// `TimeDelta` holds are left out (see `try_parse_duration_string`).
pub fn parse_duration_string(duration_str: &str) -> (r: Result<TimeDelta, MicrosandboxCliError>)
    requires
        duration_fits(trimmed_text(duration_str@)),
    ensures
        r is Ok <==> duration_reading(trimmed_text(duration_str@)) is Count,
        duration_reading(trimmed_text(duration_str@)) matches DurationReading::Count(v, u) ==> r
            == Ok::<TimeDelta, MicrosandboxCliError>(time_delta_of((v * unit_seconds(u)) as i64)),
        r matches Err(MicrosandboxCliError::InvalidArgument(m)) ==> m@ == duration_error(trimmed_text(duration_str@)),
        r matches Err(e) ==> e is InvalidArgument,
        is_ascii_text(duration_str@) ==> (r is Ok <==> duration_reading(ascii_trimmed(duration_str@)) is Count),
{
    let (value, unit) = duration_parts(duration_str)?;
    Ok(time_delta_of_seconds(duration_seconds(value, unit)))
}

/// Parse a duration string, or `None` where it reads as a duration longer than
/// a `chrono::TimeDelta` holds (`i64::MAX / 1000` seconds).
pub fn try_parse_duration_string(duration_str: &str) -> (r: Option<Result<TimeDelta, MicrosandboxCliError>>)
    ensures
        r is None <==> !duration_fits(trimmed_text(duration_str@)),
        r matches Some(res) ==> (res is Ok <==> duration_reading(trimmed_text(duration_str@)) is Count),
        duration_fits(trimmed_text(duration_str@)) ==> (duration_reading(trimmed_text(duration_str@)) matches DurationReading::Count(v, u)
            ==> r == Some(Ok::<TimeDelta, MicrosandboxCliError>(time_delta_of((v * unit_seconds(u)) as i64)))),
        r matches Some(Err(MicrosandboxCliError::InvalidArgument(m))) ==> m@ == duration_error(trimmed_text(duration_str@)),
        is_ascii_text(duration_str@) ==> (r is None <==> !duration_fits(ascii_trimmed(duration_str@))),
        is_ascii_text(duration_str@) ==> (r matches Some(res) ==> (res is Ok <==> duration_reading(
            ascii_trimmed(duration_str@),
        ) is Count)),
{
    if let Ok((value, unit)) = duration_parts(duration_str) {
        let per: i64 = match unit {
            DurationUnit::Seconds => 1,
            DurationUnit::Minutes => 60,
            DurationUnit::Hours => 3600,
            DurationUnit::Days => 86400,
            DurationUnit::Weeks => 604800,
            DurationUnit::Months => 30 * 86400,
            DurationUnit::Years => 365 * 86400,
        };
        if value > (i64::MAX / 1000) / per {
            proof {
                assert(value * per > i64::MAX / 1000) by (nonlinear_arith)
                    requires
                        value > (i64::MAX / 1000) as int / per as int,
                        per >= 1,
                ;
            }
            return None;
        }
        proof {
            assert(value * per <= i64::MAX / 1000) by (nonlinear_arith)
                requires
                    value <= (i64::MAX / 1000) as int / per as int,
                    per >= 1,
                    value >= 0,
            ;
        }
    }
    Some(parse_duration_string(duration_str))
}

//--------------------------------------------------------------------------------------------------
// Usage and logging
//--------------------------------------------------------------------------------------------------

/// The usage line of an `msb` command: program, command, options, the
/// positional placeholder (empty where there is none), and the trailing
/// arguments where the command takes them.
pub fn usage(command: &str, positional_placeholder: Option<&str>, varargs: Option<&str>) -> (r: String)
    ensures
        r@ == "msb "@ + command@ + " [OPTIONS] "@ + match positional_placeholder {
            Some(p) => p@,
            None => Seq::empty(),
        } + match varargs {
            Some(v) => " [-- "@ + v@ + "... ]"@,
            None => Seq::empty(),
        },
{
    let positional = match positional_placeholder {
        Some(p) => p,
        None => "",
    };
    let head = String::from_str("msb ").concat(command).concat(" [OPTIONS] ").concat(positional);
    assert(positional@ == match positional_placeholder {
        Some(p) => p@,
        None => Seq::<char>::empty(),
    }) by {
        reveal_strlit("");
    }
    match varargs {
        Some(v) => head.concat(" [-- ").concat(v).concat("... ]"),
        None => {
            assert(head@ + Seq::<char>::empty() =~= head@);
            head
        },
    }
}

/// The log level that the verbosity flags choose, the most verbose winning.
pub open spec fn chosen_level(trace: bool, debug: bool, info: bool, warn: bool, error: bool) -> Option<Seq<char>> {
    if trace {
        Some("trace"@)
    } else if debug {
        Some("debug"@)
    } else if info {
        Some("info"@)
    } else if warn {
        Some("warn"@)
    } else if error {
        Some("error"@)
    } else {
        None
    }
}

/// The value of `RUST_LOG` that the verbosity flags set, if any.
pub fn log_level(trace: bool, debug: bool, info: bool, warn: bool, error: bool) -> (r: Option<String>)
    ensures
        match chosen_level(trace, debug, info, warn, error) {
            Some(l) => r matches Some(v) && v@ == "microsandbox="@ + l + ",msb="@ + l,
            None => r is None,
        },
{
    let level = if trace {
        "trace"
    } else if debug {
        "debug"
    } else if info {
        "info"
    } else if warn {
        "warn"
    } else if error {
        "error"
    } else {
        return None;
    };
    Some(String::from_str("microsandbox=").concat(level).concat(",msb=").concat(level))
}

/// The error text of `--build` given where builds are not supported yet.
pub fn build_unsupported_message() -> (r: String)
    ensures
        r@ == "`--build` and `-b` flags are not yet supported."@,
{
    String::from_str("`--build` and `-b` flags are not yet supported.")
}

/// Whether `--build` and `--sandbox` are given together, which is refused.
pub fn build_sandbox_conflict(build: bool, sandbox: bool) -> (r: Option<String>)
    ensures
        build && sandbox ==> (r matches Some(m) && m@ == "cannot specify both `--sandbox` and `--build` flags"@),
        !(build && sandbox) ==> r is None,
{
    if build && sandbox {
        Some(String::from_str("cannot specify both `--sandbox` and `--build` flags"))
    } else {
        None
    }
}


//--------------------------------------------------------------------------------------------------
// Subcommand rules
//--------------------------------------------------------------------------------------------------

/// The error text of a run that names both a script and `--exec`, which is refused.
pub fn script_exec_conflict(script: Option<&str>, exec: Option<&str>) -> (r: Option<String>)
    ensures
        script is Some && exec is Some ==> (r matches Some(m) && m@
            == "cannot specify both a script and an `--exec` option."@),
        !(script is Some && exec is Some) ==> r is None,
{
    if script.is_some() && exec.is_some() {
        Some(String::from_str("cannot specify both a script and an `--exec` option."))
    } else {
        None
    }
}

/// What `msb clean` cleans: the user's microsandbox home (and, when forced, the
/// user's alias scripts), the project's environment, or both.
pub struct CleanPlan {
    /// Clean the microsandbox home directory.
    pub home: bool,
    /// Remove the user's alias scripts as well.
    pub user_scripts: bool,
    /// Clean the project's environment.
    pub project: bool,
}

/// Decide what `msb clean` cleans from its `--user`, `--all` and `--force` flags.
pub fn clean_plan(user: bool, all: bool, force: bool) -> (r: CleanPlan)
    ensures
        r.home == (user || all),
        r.user_scripts == ((user || all) && force),
        r.project == (!user || all),
{
    CleanPlan { home: user || all, user_scripts: (user || all) && force, project: !user || all }
}

/// The value of a script of this name among the scripts, the last one winning.
pub open spec fn script_value(scripts: Seq<(String, String)>, name: Seq<char>) -> Option<Seq<char>>
    decreases scripts.len(),
{
    if scripts.len() == 0 {
        None
    } else if scripts.last().0@ == name {
        Some(scripts.last().1@)
    } else {
        script_value(scripts.drop_last(), name)
    }
}

/// The scripts of `msb add`: those given, with `--start` as the start script
/// where it is given (replacing a start script among them).
pub fn scripts_with_start(scripts: Vec<(String, String)>, start: Option<String>) -> (r: Vec<(String, String)>)
    ensures
        start matches Some(body) ==> script_value(r@, "start"@) == Some(body@),
        forall|n: Seq<char>| n != "start"@ ==> script_value(r@, n) == script_value(scripts@, n),
        start is None ==> r@ == scripts@,
{
    let mut r = scripts;
    match start {
        Some(body) => {
            let ghost before = r@;
            r.push((String::from_str("start"), body));
            proof {
                assert(r@.drop_last() =~= before);
                assert forall|n: Seq<char>| n != "start"@ implies script_value(r@, n) == script_value(before, n) by {
                }
            }
        },
        None => {},
    }
    r
}

/// The error text of `msb uninstall` without a script.
pub fn missing_uninstall_script() -> (r: String)
    ensures
        r@ == "Please specify the name of the script to uninstall."@,
{
    String::from_str("Please specify the name of the script to uninstall.")
}

} // verus!
