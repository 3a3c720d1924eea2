//! Starting, stopping and configuring the sandbox server, and handing out API
//! keys: the decisions, with the files and processes handled by the caller.

use vstd::prelude::*;
use vstd::string::StringExecFns;

use crate::server::auth::Claims;
use crate::server::error::{AuthenticationError, MicrosandboxServerError, ServerError};
use crate::text::{
    lemma_ascii_trimmed_text,
    ascii_trimmed, decimal_string, decimal_text, is_ascii_alnum, is_ascii_digit, is_ascii_text,
    random_alphanumeric, std_trim, trimmed_text,
};

verus! {

//--------------------------------------------------------------------------------------------------
// Process ids
//--------------------------------------------------------------------------------------------------

/// Every character is an ASCII digit.
pub open spec fn all_digits(s: Seq<char>) -> bool {
    forall|i: int| 0 <= i < s.len() ==> is_ascii_digit(#[trigger] s[i])
}

/// The text starts with a sign.
pub open spec fn has_sign(s: Seq<char>) -> bool {
    s.len() > 0 && (s[0] == '+' || s[0] == '-')
}

/// The digits of a decimal text: all after the sign, if there is one.
pub open spec fn unsigned_part(s: Seq<char>) -> Seq<char> {
    if has_sign(s) {
        s.drop_first()
    } else {
        s
    }
}

/// The number a decimal text writes, sign included.
pub open spec fn signed_value(s: Seq<char>) -> int {
    if has_sign(s) && s[0] == '-' {
        -crate::cli::digits_value(unsigned_part(s))
    } else {
        crate::cli::digits_value(unsigned_part(s))
    }
}

/// The value of a decimal text: an optional `+` or `-` and at least one ASCII
/// digit, as `str::parse::<i32>` reads it; `None` for any other text or a value
/// beyond `i32`.
pub open spec fn i32_text_value(s: Seq<char>) -> Option<i32> {
    if unsigned_part(s).len() > 0 && all_digits(unsigned_part(s)) && i32::MIN <= signed_value(s)
        <= i32::MAX {
        Some(signed_value(s) as i32)
    } else {
        None
    }
}

/// Parse a decimal `i32`.
pub fn parse_i32(s: &str) -> (r: Option<i32>)
    ensures
        r == i32_text_value(s@),
{
    let n = s.unicode_len();
    let mut start: usize = 0;
    let mut negative = false;
    if n > 0 && (s.get_char(0) == '+' || s.get_char(0) == '-') {
        negative = s.get_char(0) == '-';
        start = 1;
    }
    let ghost digits = unsigned_part(s@);
    assert(digits =~= s@.subrange(start as int, n as int));
    assert(negative == (has_sign(s@) && s@[0] == '-'));
    if start == n {
        return None;
    }
    // The magnitude, as long as it stays within 2^31.
    let mut value: i64 = 0;
    let mut i: usize = start;
    while i < n
        invariant
            n == s@.len(),
            start <= i <= n,
            start < n,
            digits == s@.subrange(start as int, n as int),
            digits == unsigned_part(s@),
            forall|j: int| 0 <= j < i - start ==> is_ascii_digit(#[trigger] digits[j]),
            value == crate::cli::digits_value(digits.subrange(0, i - start)),
            0 <= value <= 2147483648,
        decreases n - i,
    {
        let c = s.get_char(i);
        assert(c == digits[i - start]);
        if !('0' <= c && c <= '9') {
            assert(!is_ascii_digit(digits[i - start]));
            return None;
        }
        let d: i64 = (c as u32 - '0' as u32) as i64;
        assert(digits.subrange(0, i + 1 - start).drop_last() =~= digits.subrange(0, i - start));
        if value * 10 + d > 2147483648 {
            proof {
                lemma_digits_value_grows(digits, i + 1 - start);
                if all_digits(digits) {
                    assert(crate::cli::digits_value(digits) > 2147483648);
                }
            }
            return None;
        }
        value = value * 10 + d;
        i = i + 1;
    }
    assert(digits.subrange(0, n - start) =~= digits);
    if negative {
        Some((0 - value) as i32)
    } else if value > 2147483647 {
        None
    } else {
        Some(value as i32)
    }
}

/// A text of digits is worth at least its first `k` digits.
proof fn lemma_digits_value_grows(s: Seq<char>, k: int)
    requires
        0 <= k <= s.len(),
        forall|i: int| 0 <= i < k ==> is_ascii_digit(#[trigger] s[i]),
    ensures
        crate::cli::digits_value(s.subrange(0, k)) <= crate::cli::digits_value(s)
            || exists|i: int| k <= i < s.len() && !is_ascii_digit(#[trigger] s[i]),
    decreases s.len() - k,
{
    if k < s.len() && is_ascii_digit(s[k]) {
        lemma_digits_value_grows(s, k + 1);
        assert(s.subrange(0, k + 1).drop_last() =~= s.subrange(0, k));
        if crate::cli::digits_value(s.subrange(0, k + 1)) <= crate::cli::digits_value(s) {
            lemma_digits_nonneg(s.subrange(0, k));
        }
    } else if k < s.len() {
    } else {
        assert(s.subrange(0, k) =~= s);
    }
}

proof fn lemma_digits_nonneg(s: Seq<char>)
    requires
        forall|i: int| 0 <= i < s.len() ==> is_ascii_digit(#[trigger] s[i]),
    ensures
        crate::cli::digits_value(s) >= 0,
    decreases s.len(),
{
    if s.len() > 0 {
        lemma_digits_nonneg(s.drop_last());
    }
}

/// Read the process id in a server's PID file: the file's text without
/// surrounding whitespace, as a decimal `i32`.
pub fn parse_pid(pid_text: &str) -> (r: Option<i32>)
    ensures
        r == i32_text_value(trimmed_text(pid_text@)),
        is_ascii_text(pid_text@) ==> r == i32_text_value(ascii_trimmed(pid_text@)),
        all_digits(pid_text@) ==> r == i32_text_value(pid_text@),
{
    proof {
        if is_ascii_text(pid_text@) {
            lemma_ascii_trimmed_text(pid_text@);
        }
    }
    parse_i32(std_trim(pid_text))
}

/// Every `i32`, written as signed decimal text, reads back as itself.
pub proof fn lemma_i32_text_round_trip(v: i32)
    ensures
        i32_text_value(signed_text(v as int)) == Some(v),
{
    if v < 0 {
        let m = (-(v as int)) as nat;
        crate::cli::lemma_decimal_text_value(m);
        let t = signed_text(v as int);
        reveal_strlit("-");
        assert(t[0] == '-');
        assert(unsigned_part(t) =~= decimal_text(m));
    } else {
        crate::cli::lemma_decimal_text_value(v as nat);
        let t = signed_text(v as int);
        assert(is_ascii_digit(t[0]));
    }
}

/// A server's process id, written to its PID file as decimal text, reads back
/// as the same id whenever it fits an `i32`, and as no id otherwise.
pub proof fn lemma_pid_text_round_trip(pid: u32)
    ensures
        all_digits(decimal_text(pid as nat)),
        i32_text_value(decimal_text(pid as nat)) == (if pid <= i32::MAX {
            Some(pid as i32)
        } else {
            None::<i32>
        }),
{
    crate::cli::lemma_decimal_text_value(pid as nat);
    let s = decimal_text(pid as nat);
    assert(is_ascii_digit(s[0]));
    assert(!has_sign(s));
    assert(unsigned_part(s) == s);
}

//--------------------------------------------------------------------------------------------------
// Starting the server
//--------------------------------------------------------------------------------------------------

/// What starting the server does about a PID file that is already there.
pub enum ExistingServer {
    /// A server with this process id runs: starting stops here.
    AlreadyRunning(i32),
    /// The process of this id is gone: the PID file is removed first.
    Stale(i32),
    /// The file holds no process id: it is removed first.
    Invalid,
}

/// Decide about an existing PID file, given the process id it holds (if any)
/// and whether a process of that id runs.
pub fn existing_server(pid: Option<i32>, process_running: bool) -> (r: ExistingServer)
    ensures
        pid is None ==> r is Invalid,
        pid matches Some(p) ==> (process_running ==> r == ExistingServer::AlreadyRunning(p)),
        pid matches Some(p) ==> (!process_running ==> r == ExistingServer::Stale(p)),
{
    match pid {
        Some(p) => if process_running {
            ExistingServer::AlreadyRunning(p)
        } else {
            ExistingServer::Stale(p)
        },
        None => ExistingServer::Invalid,
    }
}

/// The notice printed when a server already runs.
pub fn already_running_message(pid: i32) -> (r: String)
    ensures
        r@ == "A sandbox server is already running (PID: "@ + signed_text(pid as int)
            + ") - Use msb server stop to stop it"@,
{
    String::from_str("A sandbox server is already running (PID: ").concat(signed_string(pid).as_str()).concat(
        ") - Use msb server stop to stop it",
    )
}

/// The decimal text of an integer, with a `-` when it is negative.
pub open spec fn signed_text(v: int) -> Seq<char> {
    if v < 0 {
        "-"@ + decimal_text((-v) as nat)
    } else {
        decimal_text(v as nat)
    }
}

/// The decimal text of an `i32`.
pub fn signed_string(v: i32) -> (r: String)
    ensures
        r@ == signed_text(v as int),
{
    if v < 0 {
        let magnitude: u64 = (0 - (v as i64)) as u64;
        String::from_str("-").concat(decimal_string(magnitude).as_str())
    } else {
        decimal_string(v as u64)
    }
}

/// Where the key of a server started in secure mode comes from.
#[derive(Clone, Copy, Debug, PartialEq, Eq, Structural)]
pub enum KeySource {
    /// The key given on the command line.
    Provided,
    /// The key in the existing key file.
    KeyFile,
    /// A new random key.
    Generated,
}

/// Choose the server key's source: a given key wins; else the key file, unless
/// it is missing or the key is to be reset; else a new key.
pub fn server_key_source(key_provided: bool, key_file_exists: bool, reset_key: bool) -> (r: KeySource)
    ensures
        key_provided ==> r == KeySource::Provided,
        !key_provided && key_file_exists && !reset_key ==> r == KeySource::KeyFile,
        !key_provided && (!key_file_exists || reset_key) ==> r == KeySource::Generated,
{
    if key_provided {
        KeySource::Provided
    } else if key_file_exists && !reset_key {
        KeySource::KeyFile
    } else {
        KeySource::Generated
    }
}

/// Whether the key is written to the key file: when there is none yet, when a
/// key was given, or when the key is reset.
pub fn writes_key_file(key_file_exists: bool, key_provided: bool, reset_key: bool) -> (r: bool)
    ensures
        r == (!key_file_exists || key_provided || reset_key),
{
    !key_file_exists || key_provided || reset_key
}

/// The length of a generated server key.
pub const SERVER_KEY_LENGTH: usize = 32;

/// Generate a random key for JWT token signing: ASCII letters and digits.
pub fn generate_random_key() -> (r: String)
    ensures
        r@.len() == SERVER_KEY_LENGTH,
        forall|i: int| 0 <= i < r@.len() ==> is_ascii_alnum(#[trigger] r@[i]),
{
    random_alphanumeric(SERVER_KEY_LENGTH)
}

/// The flag stands in the arguments immediately followed by the value.
pub open spec fn flag_given(args: Seq<Seq<char>>, flag: Seq<char>, value: Seq<char>) -> bool {
    exists|i: int| 0 <= i && i + 1 < args.len() && args[i] == flag && #[trigger] args[i + 1] == value
}

/// Each setting reaches the server program under the program's own flag: the
/// development mode as `--dev` first, the host after `--host`, the port in
/// decimal after `--port`, the project directory after `--path`, and, outside
/// development mode, the key after `--key`.
pub proof fn lemma_launch_flags(
    dev_mode: bool,
    host: Option<String>,
    port: Option<u16>,
    project_dir: Option<String>,
    key: Option<String>,
)
    ensures
        dev_mode ==> launch_args(dev_mode, host, port, project_dir, key)[0] == "--dev"@,
        host matches Some(h) ==> flag_given(launch_args(dev_mode, host, port, project_dir, key), "--host"@, h@),
        port matches Some(p) ==> flag_given(
            launch_args(dev_mode, host, port, project_dir, key),
            "--port"@,
            decimal_text(p as nat),
        ),
        project_dir matches Some(d) ==> flag_given(
            launch_args(dev_mode, host, port, project_dir, key),
            "--path"@,
            d@,
        ),
        key matches Some(k) ==> !dev_mode ==> flag_given(
            launch_args(dev_mode, host, port, project_dir, key),
            "--key"@,
            k@,
        ),
{
    let a0: Seq<Seq<char>> = if dev_mode { seq!["--dev"@] } else { seq![] };
    let a1: Seq<Seq<char>> = match host { Some(h) => seq!["--host"@, h@], None => seq![] };
    let a2: Seq<Seq<char>> = match port { Some(p) => seq!["--port"@, decimal_text(p as nat)], None => seq![] };
    let a3: Seq<Seq<char>> = match project_dir { Some(d) => seq!["--path"@, d@], None => seq![] };
    let a4: Seq<Seq<char>> = match key {
        Some(k) => if !dev_mode { seq!["--key"@, k@] } else { seq![] },
        None => seq![],
    };
    let all = launch_args(dev_mode, host, port, project_dir, key);
    assert(all == a0 + a1 + a2 + a3 + a4);
    let n1 = a0.len() as int;
    let n2 = n1 + a1.len();
    let n3 = n2 + a2.len();
    let n4 = n3 + a3.len();
    if dev_mode {
        assert(all[0] == a0[0]);
    }
    if host is Some {
        assert(all[n1] == a1[0] && all[n1 + 1] == a1[1]);
    }
    if port is Some {
        assert(all[n2] == a2[0] && all[n2 + 1] == a2[1]);
    }
    if project_dir is Some {
        assert(all[n3] == a3[0] && all[n3 + 1] == a3[1]);
    }
    if key is Some && !dev_mode {
        assert(all[n4] == a4[0] && all[n4 + 1] == a4[1]);
    }
}

/// The arguments the server program is started with.
pub open spec fn launch_args(
    dev_mode: bool,
    host: Option<String>,
    port: Option<u16>,
    project_dir: Option<String>,
    key: Option<String>,
) -> Seq<Seq<char>> {
    (if dev_mode {
        seq!["--dev"@]
    } else {
        seq![]
    }) + (match host {
        Some(h) => seq!["--host"@, h@],
        None => seq![],
    }) + (match port {
        Some(p) => seq!["--port"@, decimal_text(p as nat)],
        None => seq![],
    }) + (match project_dir {
        Some(d) => seq!["--path"@, d@],
        None => seq![],
    }) + (match key {
        Some(k) => if !dev_mode {
            seq!["--key"@, k@]
        } else {
            seq![]
        },
        None => seq![],
    })
}

fn push_pair(args: &mut Vec<String>, flag: &str, value: String)
    ensures
        final(args)@.len() == old(args)@.len() + 2,
        forall|i: int| 0 <= i < old(args)@.len() ==> final(args)@[i] == old(args)@[i],
        final(args)@[old(args)@.len() as int]@ == flag@,
        final(args)@[old(args)@.len() as int + 1] == value,
{
    args.push(String::from_str(flag));
    args.push(value);
}

/// The arguments the server program is started with: `--dev` in development
/// mode, `--host`, `--port` and `--path` where given, and in secure mode `--key`
/// with the chosen key.
pub fn server_launch_args(
    dev_mode: bool,
    host: Option<String>,
    port: Option<u16>,
    project_dir: Option<String>,
    key: Option<String>,
) -> (r: Vec<String>)
    ensures
        r@.len() == launch_args(dev_mode, host, port, project_dir, key).len(),
        forall|i: int| 0 <= i < r@.len() ==> (#[trigger] r@[i])@ == launch_args(dev_mode, host, port, project_dir, key)[i],
{
    let ghost expected = launch_args(dev_mode, host, port, project_dir, key);
    let mut args: Vec<String> = Vec::new();
    let ghost a0 = if dev_mode {
        seq!["--dev"@]
    } else {
        Seq::<Seq<char>>::empty()
    };
    if dev_mode {
        args.push(String::from_str("--dev"));
    }
    assert(args@.len() == a0.len() && forall|i: int| 0 <= i < args@.len() ==> (#[trigger] args@[i])@ == a0[i]);
    let ghost a1 = a0 + match &host {
        Some(h) => seq!["--host"@, h@],
        None => Seq::<Seq<char>>::empty(),
    };
    match host {
        Some(h) => push_pair(&mut args, "--host", h),
        None => {},
    }
    assert(args@.len() == a1.len() && forall|i: int| 0 <= i < args@.len() ==> (#[trigger] args@[i])@ == a1[i]);
    let ghost a2 = a1 + match port {
        Some(p) => seq!["--port"@, decimal_text(p as nat)],
        None => Seq::<Seq<char>>::empty(),
    };
    match port {
        Some(p) => push_pair(&mut args, "--port", decimal_string(p as u64)),
        None => {},
    }
    assert(args@.len() == a2.len() && forall|i: int| 0 <= i < args@.len() ==> (#[trigger] args@[i])@ == a2[i]);
    let ghost a3 = a2 + match &project_dir {
        Some(d) => seq!["--path"@, d@],
        None => Seq::<Seq<char>>::empty(),
    };
    match project_dir {
        Some(d) => push_pair(&mut args, "--path", d),
        None => {},
    }
    assert(args@.len() == a3.len() && forall|i: int| 0 <= i < args@.len() ==> (#[trigger] args@[i])@ == a3[i]);
    let ghost a4 = a3 + match &key {
        Some(k) => if !dev_mode {
            seq!["--key"@, k@]
        } else {
            Seq::<Seq<char>>::empty()
        },
        None => Seq::<Seq<char>>::empty(),
    };
    match key {
        Some(k) => if !dev_mode {
            push_pair(&mut args, "--key", k);
        },
        None => {},
    }
    assert(args@.len() == a4.len() && forall|i: int| 0 <= i < args@.len() ==> (#[trigger] args@[i])@ == a4[i]);
    assert(a4 =~= expected);
    args
}

//--------------------------------------------------------------------------------------------------
// Stopping the server
//--------------------------------------------------------------------------------------------------

/// What sending the stop signal to the server's process gave.
#[derive(Clone, Copy, Debug, PartialEq, Eq, Structural)]
pub enum SignalResult {
    /// The signal was sent.
    Sent,
    /// No process has that id.
    NoSuchProcess,
    /// The signal could not be sent for another reason.
    Failed,
}

/// The error is a stop error with this message.
pub open spec fn is_stop_error(e: MicrosandboxServerError, msg: Seq<char>) -> bool {
    e matches MicrosandboxServerError::StopError(m) && m@ == msg
}

/// The process id to stop, read from the PID file's text where the file exists.
pub fn stop_target(pid_text: Option<&str>) -> (r: Result<i32, MicrosandboxServerError>)
    ensures
        pid_text is None ==> (r matches Err(e) && is_stop_error(e, "server is not running (PID file not found)"@)),
        pid_text matches Some(t) ==> match i32_text_value(trimmed_text(t@)) {
            Some(p) => r == Ok::<i32, MicrosandboxServerError>(p),
            None => r matches Err(e) && is_stop_error(e, "invalid PID found in server.pid file"@),
        },
        pid_text matches Some(t) ==> (is_ascii_text(t@) ==> match i32_text_value(ascii_trimmed(t@)) {
            Some(p) => r == Ok::<i32, MicrosandboxServerError>(p),
            None => r is Err,
        }),
        pid_text matches Some(t) ==> (all_digits(t@) ==> match i32_text_value(t@) {
            Some(p) => r == Ok::<i32, MicrosandboxServerError>(p),
            None => r is Err,
        }),
{
    match pid_text {
        None => Err(
            MicrosandboxServerError::StopError(
                String::from_str("server is not running (PID file not found)"),
            ),
        ),
        Some(t) => match parse_pid(t) {
            Some(p) => Ok(p),
            None => Err(
                MicrosandboxServerError::StopError(String::from_str("invalid PID found in server.pid file")),
            ),
        },
    }
}

/// The outcome of stopping the server by the result of signalling its process.
/// The PID file is removed unless the signal failed for another reason than a
/// missing process.
pub fn stop_outcome(pid: i32, signal: SignalResult) -> (r: (bool, Result<(), MicrosandboxServerError>))
    ensures
        r.0 == (signal != SignalResult::Failed),
        signal == SignalResult::Sent ==> r.1 is Ok,
        signal == SignalResult::NoSuchProcess ==> (r.1 matches Err(e) && is_stop_error(
            e,
            "server process not found (stale PID file removed)"@,
        )),
        signal == SignalResult::Failed ==> (r.1 matches Err(e) && is_stop_error(
            e,
            "failed to stop server process (PID: "@ + signed_text(pid as int) + ")"@,
        )),
{
    match signal {
        SignalResult::Sent => (true, Ok(())),
        SignalResult::NoSuchProcess => (
            true,
            Err(
                MicrosandboxServerError::StopError(
                    String::from_str("server process not found (stale PID file removed)"),
                ),
            ),
        ),
        SignalResult::Failed => (
            false,
            Err(
                MicrosandboxServerError::StopError(
                    String::from_str("failed to stop server process (PID: ").concat(
                        signed_string(pid).as_str(),
                    ).concat(")"),
                ),
            ),
        ),
    }
}

//--------------------------------------------------------------------------------------------------
// API keys
//--------------------------------------------------------------------------------------------------

/// The lifetime of a generated API key when none is given: 24 hours.
pub const DEFAULT_KEY_LIFETIME_SECS: i64 = 86400;

/// The claims of an API key issued at `now` (seconds since the epoch) that
/// lives `lifetime_secs`, or a day where no lifetime is given.
pub fn keygen_claims(now: i64, lifetime_secs: Option<i64>) -> (r: Claims)
    requires
        0 <= now,
        lifetime_secs matches Some(l) ==> 0 <= l && now + l <= i64::MAX,
        now + 86400 <= i64::MAX,
    ensures
        r.iat == now,
        r.exp == now + match lifetime_secs {
            Some(l) => l,
            None => 86400,
        },
{
    let lifetime = match lifetime_secs {
        Some(l) => l,
        None => DEFAULT_KEY_LIFETIME_SECS,
    };
    Claims { exp: (now + lifetime) as u64, iat: now as u64 }
}

/// The error of key generation where the server key file is missing.
pub fn missing_key_file() -> (r: MicrosandboxServerError)
    ensures
        r matches MicrosandboxServerError::KeyGenError(m) && m@
            == "Server key file not found. Make sure the server is running in secure mode."@,
{
    MicrosandboxServerError::KeyGenError(
        String::from_str("Server key file not found. Make sure the server is running in secure mode."),
    )
}

/// Why a JWT failed to validate.
pub enum JwtFailure {
    /// Its expiry has passed.
    Expired,
    /// Its signature does not match the server key.
    BadSignature,
    /// Any other failure, with its text.
    Other(String),
}

/// The authentication error for a JWT that failed to validate.
pub fn token_validation_error(failure: JwtFailure) -> (r: ServerError)
    ensures
        r matches ServerError::Authentication(AuthenticationError::InvalidToken(m)) && m@ == match failure {
            JwtFailure::Expired => "Token expired"@,
            JwtFailure::BadSignature => "Invalid token signature"@,
            JwtFailure::Other(e) => "Token validation error: "@ + e@,
        },
{
    let message = match failure {
        JwtFailure::Expired => String::from_str("Token expired"),
        JwtFailure::BadSignature => String::from_str("Invalid token signature"),
        JwtFailure::Other(e) => String::from_str("Token validation error: ").concat(e.as_str()),
    };
    ServerError::Authentication(AuthenticationError::InvalidToken(message))
}

//--------------------------------------------------------------------------------------------------
// Server configuration
//--------------------------------------------------------------------------------------------------

/// The key a server runs with: a key must be given unless in development mode.
pub fn config_key(key: Option<String>, dev_mode: bool) -> (r: Result<Option<String>, MicrosandboxServerError>)
    ensures
        key is Some ==> r == Ok::<Option<String>, MicrosandboxServerError>(key),
        key is None && dev_mode ==> r == Ok::<Option<String>, MicrosandboxServerError>(None),
        key is None && !dev_mode ==> (r matches Err(MicrosandboxServerError::ConfigError(m)) && m@
            == "No key provided. A key is required when not in dev mode"@),
{
    match key {
        Some(k) => Ok(Some(k)),
        None => if dev_mode {
            Ok(None)
        } else {
            Err(
                MicrosandboxServerError::ConfigError(
                    String::from_str("No key provided. A key is required when not in dev mode"),
                ),
            )
        },
    }
}

/// The error of a host address that does not parse.
pub fn invalid_host(host: &str) -> (r: MicrosandboxServerError)
    ensures
        r matches MicrosandboxServerError::ConfigError(m) && m@ == "Invalid host address: "@ + host@,
{
    MicrosandboxServerError::ConfigError(String::from_str("Invalid host address: ").concat(host))
}

} // verus!
