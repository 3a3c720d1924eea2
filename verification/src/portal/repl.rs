//! Code evaluation in language REPLs: the languages, the output lines, the
//! replies an engine sends while it evaluates, and how the Python engine frames
//! code and recognises the end of its output.

use vstd::prelude::*;
use vstd::string::StringExecFns;

use crate::portal::error::PortalError;
use crate::text::{
    lemma_ascii_trimmed_text,
    ascii_lowercase, ascii_trimmed, decimal_string, decimal_text, is_ascii_alnum,
    is_ascii_text, lowercased_text,
    random_alphanumeric, std_to_lowercase, std_trim, str_equal, trimmed_text,
};

verus! {

//--------------------------------------------------------------------------------------------------
// Types
//--------------------------------------------------------------------------------------------------

/// Supported REPL languages
#[derive(Clone, Copy, Debug, PartialEq, Eq, Structural)]
pub enum Language {
    /// Python
    Python,
    /// Node.js
    Node,
}

/// Output stream types
#[derive(Clone, Copy, Debug, PartialEq, Eq, Structural)]
pub enum Stream {
    /// Standard output stream
    Stdout,
    /// Standard error stream
    Stderr,
}

/// Output line from a REPL
#[derive(Debug)]
pub struct Line {
    /// The stream the line came from
    pub stream: Stream,
    /// The text of the line
    pub text: String,
}

/// Errors that can occur during REPL operations
#[derive(Debug)]
pub enum EngineError {
    /// Failed to initialize the engine
    Initialization(String),
    /// Error during code evaluation
    Evaluation(String),
    /// Evaluation timed out
    Timeout(u64),
    /// Engine is unavailable
    Unavailable(String),
}

/// Responses from engines during evaluation
#[derive(Debug)]
pub enum Resp {
    /// Output line from evaluation
    Line {
        /// Evaluation identifier
        id: String,
        /// Stream of the line
        stream: Stream,
        /// Text of the line
        text: String,
    },
    /// Evaluation completed
    Done {
        /// Evaluation identifier
        id: String,
    },
    /// Error during evaluation
    Error {
        /// Evaluation identifier
        id: String,
        /// Error message
        message: String,
    },
}

/// The text of an engine error.
pub open spec fn engine_error_text(e: EngineError) -> Seq<char> {
    match e {
        EngineError::Initialization(m) => "Failed to initialize engine: "@ + m@,
        EngineError::Evaluation(m) => "Evaluation error: "@ + m@,
        EngineError::Timeout(s) => "Evaluation timeout after "@ + decimal_text(s as nat) + " seconds"@,
        EngineError::Unavailable(m) => "Engine unavailable: "@ + m@,
    }
}

impl EngineError {
    /// The text of the error.
    pub fn to_string(&self) -> (r: String)
        ensures
            r@ == engine_error_text(*self),
    {
        match self {
            EngineError::Initialization(m) => String::from_str("Failed to initialize engine: ").concat(
                m.as_str(),
            ),
            EngineError::Evaluation(m) => String::from_str("Evaluation error: ").concat(m.as_str()),
            EngineError::Timeout(s) => String::from_str("Evaluation timeout after ").concat(
                decimal_string(*s).as_str(),
            ).concat(" seconds"),
            EngineError::Unavailable(m) => String::from_str("Engine unavailable: ").concat(m.as_str()),
        }
    }
}

//--------------------------------------------------------------------------------------------------
// Collecting the output of an evaluation
//--------------------------------------------------------------------------------------------------

/// The line that an evaluation's reply adds to its output, if any: an output
/// line as it is, an error as a line on stderr.
pub open spec fn reply_line(resp: Resp) -> Option<(Stream, Seq<char>)> {
    match resp {
        Resp::Line { stream, text, .. } => Some((stream, text@)),
        Resp::Done { .. } => None,
        Resp::Error { message, .. } => Some((Stream::Stderr, "Error: "@ + message@)),
    }
}

/// The line holds this stream and text.
pub open spec fn line_is(l: Line, v: (Stream, Seq<char>)) -> bool {
    l.stream == v.0 && l.text@ == v.1
}

/// Add what one reply of an evaluation gives to the collected output. Returns
/// whether more replies follow: a completion or an error ends the evaluation.
pub fn collect_reply(lines: &mut Vec<Line>, resp: Resp) -> (more: bool)
    ensures
        more == (resp is Line),
        reply_line(resp) matches Some(v) ==> ({
            let n = old(lines)@.len() as int;
            &&& final(lines)@.len() == n + 1
            &&& final(lines)@.subrange(0, n) == old(lines)@
            &&& line_is(final(lines)@[n], v)
        }),
        reply_line(resp) is None ==> final(lines)@ == old(lines)@,
{
    match resp {
        Resp::Line { id: _, stream, text } => {
            lines.push(Line { stream, text });
            true
        },
        Resp::Done { id: _ } => false,
        Resp::Error { id: _, message } => {
            lines.push(
                Line { stream: Stream::Stderr, text: String::from_str("Error: ").concat(message.as_str()) },
            );
            false
        },
    }
}

/// The name of a stream in a result.
pub fn stream_name(stream: Stream) -> (r: &'static str)
    ensures
        r@ == match stream {
            Stream::Stdout => "stdout"@,
            Stream::Stderr => "stderr"@,
        },
{
    match stream {
        Stream::Stdout => "stdout",
        Stream::Stderr => "stderr",
    }
}

//--------------------------------------------------------------------------------------------------
// Choosing the language of a request
//--------------------------------------------------------------------------------------------------

/// The language a request names (case-insensitive), given which engines this
/// portal was built with.
pub open spec fn language_choice(lowered: Seq<char>, python_enabled: bool, node_enabled: bool) -> Option<Language> {
    if python_enabled && lowered == "python"@ {
        Some(Language::Python)
    } else if node_enabled && (lowered == "node"@ || lowered == "nodejs"@ || lowered
        == "javascript"@) {
        Some(Language::Node)
    } else {
        None
    }
}

/// Why a request's language is refused.
pub open spec fn language_refusal(lowered: Seq<char>, language: Seq<char>) -> Seq<char> {
    if lowered == "python"@ {
        "Python language support is not enabled. Recompile with --features python"@
    } else if lowered == "node"@ || lowered == "nodejs"@ || lowered == "javascript"@ {
        "Node.js language support is not enabled. Recompile with --features nodejs"@
    } else {
        "Unsupported language: "@ + language
    }
}

/// The names of the engines: `python` selects Python wherever its engine is
/// enabled, and each of `node`, `nodejs` and `javascript` selects Node wherever
/// its engine is enabled; no other name selects an engine. A name is refused as
/// not enabled only where its engine is disabled.
pub proof fn lemma_language_names(lowered: Seq<char>, language: Seq<char>, python_enabled: bool, node_enabled: bool)
    ensures
        lowered == "python"@ && python_enabled ==> language_choice(lowered, python_enabled, node_enabled)
            == Some(Language::Python),
        (lowered == "node"@ || lowered == "nodejs"@ || lowered == "javascript"@) && node_enabled
            ==> language_choice(lowered, python_enabled, node_enabled) == Some(Language::Node),
        language_choice(lowered, python_enabled, node_enabled) == Some(Language::Python) ==> python_enabled
            && lowered == "python"@,
        language_choice(lowered, python_enabled, node_enabled) == Some(Language::Node) ==> node_enabled && (
        lowered == "node"@ || lowered == "nodejs"@ || lowered == "javascript"@),
        language_choice(lowered, python_enabled, node_enabled) is None && language_refusal(lowered, language)
            == "Node.js language support is not enabled. Recompile with --features nodejs"@ ==> !node_enabled,
        language_choice(lowered, python_enabled, node_enabled) is None && language_refusal(lowered, language)
            == "Python language support is not enabled. Recompile with --features python"@ ==> !python_enabled,
{
    reveal_strlit("python");
    reveal_strlit("node");
    reveal_strlit("nodejs");
    reveal_strlit("javascript");
    reveal_strlit("Python language support is not enabled. Recompile with --features python");
    reveal_strlit("Node.js language support is not enabled. Recompile with --features nodejs");
    reveal_strlit("Unsupported language: ");
    assert("python"@.len() == 6 && "node"@.len() == 4 && "nodejs"@.len() == 6 && "javascript"@.len() == 10);
    assert("python"@[0] != "nodejs"@[0]);
    let pm = "Python language support is not enabled. Recompile with --features python"@;
    let nm = "Node.js language support is not enabled. Recompile with --features nodejs"@;
    let um = "Unsupported language: "@ + language;
    assert(pm[0] != nm[0]);
    assert(um[0] == 'U');
    assert(nm != um) by {
        assert(nm[0] != um[0]);
    }
    assert(pm != um) by {
        assert(pm[0] != um[0]);
    }
}

/// Convert the language of a REPL request to the engine that runs it.
pub fn parse_language(language: &str, python_enabled: bool, node_enabled: bool) -> (r: Result<
    Language,
    PortalError,
>)
    ensures
        language_choice(lowercased_text(language@), python_enabled, node_enabled) matches Some(l)
            ==> r == Ok::<Language, PortalError>(l),
        language_choice(lowercased_text(language@), python_enabled, node_enabled) is None ==> (r matches Err(
            PortalError::JsonRpc(m),
        ) && m@ == language_refusal(lowercased_text(language@), language@)),
        is_ascii_text(language@) ==> match language_choice(ascii_lowercase(language@), python_enabled, node_enabled) {
            Some(l) => r == Ok::<Language, PortalError>(l),
            None => r matches Err(PortalError::JsonRpc(m)) && m@ == language_refusal(
                ascii_lowercase(language@),
                language@,
            ),
        },
{
    let lowered = std_to_lowercase(language);
    let l = lowered.as_str();
    let is_python = str_equal(l, "python");
    let is_node = str_equal(l, "node") || str_equal(l, "nodejs") || str_equal(l, "javascript");
    if python_enabled && is_python {
        Ok(Language::Python)
    } else if node_enabled && is_node {
        Ok(Language::Node)
    } else if is_python {
        Err(
            PortalError::JsonRpc(
                String::from_str(
                    "Python language support is not enabled. Recompile with --features python",
                ),
            ),
        )
    } else if is_node {
        Err(
            PortalError::JsonRpc(
                String::from_str(
                    "Node.js language support is not enabled. Recompile with --features nodejs",
                ),
            ),
        )
    } else {
        Err(PortalError::JsonRpc(String::from_str("Unsupported language: ").concat(language)))
    }
}

//--------------------------------------------------------------------------------------------------
// The Python engine
//--------------------------------------------------------------------------------------------------

/// The code sent to the Python process: the code, a newline where it does not
/// end with one, then a statement that prints the end-of-execution marker.
pub open spec fn framed_code(code: Seq<char>, marker: Seq<char>) -> Seq<char> {
    (if code.len() > 0 && code.last() == '\n' {
        code
    } else {
        code + "\n"@
    }) + "\nprint('"@ + marker + "')\n"@
}

/// Frame code for the Python process so that its end can be recognised.
pub fn frame_python_code(code: &str, marker: &str) -> (r: String)
    ensures
        r@ == framed_code(code@, marker@),
{
    let n = code.unicode_len();
    let body = if n > 0 && code.get_char(n - 1) == '\n' {
        String::from_str(code)
    } else {
        String::from_str(code).concat("\n")
    };
    body.concat("\nprint('").concat(marker).concat("')\n")
}

/// The end-of-execution marker made of a random suffix.
pub fn eoe_marker(suffix: &str) -> (r: String)
    ensures
        r@ == "eoe_"@ + suffix@,
{
    String::from_str("eoe_").concat(suffix)
}

/// What the Python engine does with a line its process writes to stdout.
#[derive(Clone, Copy, Debug, PartialEq, Eq, Structural)]
pub enum StdoutLine {
    /// No evaluation is running: the line is dropped.
    Dropped,
    /// The line is the running evaluation's marker: the evaluation is complete.
    Completes,
    /// The line is output of the running evaluation.
    Output,
}

/// Classify a line of the Python process's stdout, given the marker of the
/// running evaluation, if any. The line is compared without its surrounding
/// whitespace.
pub fn classify_stdout_line(line: &str, marker: Option<&str>) -> (r: StdoutLine)
    ensures
        marker is None ==> r == StdoutLine::Dropped,
        marker matches Some(m) ==> (r == if trimmed_text(line@) == m@ {
            StdoutLine::Completes
        } else {
            StdoutLine::Output
        }),
        marker matches Some(m) ==> (is_ascii_text(line@) ==> (r == StdoutLine::Completes
            <==> ascii_trimmed(line@) == m@)),
{
    proof {
        if is_ascii_text(line@) {
            lemma_ascii_trimmed_text(line@);
        }
    }
    match marker {
        None => StdoutLine::Dropped,
        Some(m) => if str_equal(std_trim(line), m) {
            StdoutLine::Completes
        } else {
            StdoutLine::Output
        },
    }
}

/// The reply and the error with which a Python evaluation that timed out ends.
pub fn python_timeout(id: String, timeout_secs: u64) -> (r: (Resp, EngineError))
    ensures
        r.0 matches Resp::Error { id: i, message } && i == id && message@ == "Execution timed out after "@
            + decimal_text(timeout_secs as nat) + " seconds"@,
        r.1 == EngineError::Timeout(timeout_secs),
{
    (
        Resp::Error {
            id,
            message: String::from_str("Execution timed out after ").concat(
                decimal_string(timeout_secs).as_str(),
            ).concat(" seconds"),
        },
        EngineError::Timeout(timeout_secs),
    )
}

/// The reply with which the engine reactor reports an evaluation that failed.
pub fn eval_failure_reply(id: String, error: &EngineError) -> (r: Resp)
    ensures
        r matches Resp::Error { id: i, message } && i == id && message@ == engine_error_text(*error),
{
    Resp::Error { id, message: error.to_string() }
}

//--------------------------------------------------------------------------------------------------
// The REPL result
//--------------------------------------------------------------------------------------------------

/// The result of a `sandbox.repl.run` request.
pub struct ReplRunResult {
    /// Always `success`
    pub status: String,
    /// The language as the request gave it
    pub language: String,
    /// The output lines
    pub output: Vec<Line>,
}

/// The result of a REPL evaluation that produced `output`.
pub fn repl_run_result(language: &str, output: Vec<Line>) -> (r: ReplRunResult)
    ensures
        r.status@ == "success"@,
        r.language@ == language@,
        r.output == output,
{
    ReplRunResult { status: String::from_str("success"), language: String::from_str(language), output }
}

/// The error of a REPL request whose evaluation failed.
pub fn repl_failure(error: &EngineError) -> (r: PortalError)
    ensures
        r matches PortalError::Internal(m) && m@ == "REPL execution failed: "@ + engine_error_text(*error),
{
    PortalError::Internal(String::from_str("REPL execution failed: ").concat(error.to_string().as_str()))
}


//--------------------------------------------------------------------------------------------------
// The Python engine's evaluations
//--------------------------------------------------------------------------------------------------

/// The evaluation the Python process is running.
pub struct PythonExecution {
    /// The evaluation's identifier
    pub id: String,
    /// The marker printed at its end
    pub marker: String,
    /// Whether the marker has been seen
    pub completed: bool,
}

/// What the Python engine knows of its process's current evaluation.
pub struct PythonSession {
    /// The evaluation running, if any
    pub current: Option<PythonExecution>,
}

/// The reply a line of the Python process's output gives, if any.
pub open spec fn output_reply(r: Option<Resp>, id: String, stream: Stream, line: String) -> bool {
    r matches Some(Resp::Line { id: i, stream: s, text }) && i == id && s == stream && text == line
}

impl PythonSession {
    /// No evaluation running.
    pub fn new() -> (r: Self)
        ensures
            r.current is None,
    {
        PythonSession { current: None }
    }

    /// Start an evaluation that ends when `marker` is printed.
    pub fn begin(&mut self, id: String, marker: String)
        ensures
            final(self).current matches Some(e) && e.id == id && e.marker == marker && !e.completed,
    {
        self.current = Some(PythonExecution { id, marker, completed: false });
    }

    /// A line the process wrote to stdout: the running evaluation's marker
    /// completes it; any other line is its output; without an evaluation the
    /// line is dropped.
    pub fn on_stdout(&mut self, line: String) -> (r: Option<Resp>)
        ensures
            old(self).current is None ==> r is None && final(self).current is None,
            old(self).current matches Some(e) ==> (if trimmed_text(line@) == e.marker@ {
                (r matches Some(Resp::Done { id })) && r->Some_0->Done_id == e.id
                    && final(self).current == Some(PythonExecution { completed: true, ..e })
            } else {
                output_reply(r, e.id, Stream::Stdout, line) && final(self).current == old(self).current
            }),
            old(self).current matches Some(e) ==> (is_ascii_text(line@) ==> ((r matches Some(
                Resp::Done { .. },
            )) <==> ascii_trimmed(line@) == e.marker@)),
    {
        proof {
            if is_ascii_text(line@) {
                lemma_ascii_trimmed_text(line@);
            }
        }
        match &mut self.current {
            None => None,
            Some(e) => {
                if str_equal(std_trim(line.as_str()), e.marker.as_str()) {
                    e.completed = true;
                    Some(Resp::Done { id: e.id.clone() })
                } else {
                    Some(Resp::Line { id: e.id.clone(), stream: Stream::Stdout, text: line })
                }
            },
        }
    }

    /// A line the process wrote to stderr: output of the running evaluation, if any.
    pub fn on_stderr(&self, line: String) -> (r: Option<Resp>)
        ensures
            self.current is None ==> r is None,
            self.current matches Some(e) ==> output_reply(r, e.id, Stream::Stderr, line),
    {
        match &self.current {
            None => None,
            Some(e) => Some(Resp::Line { id: e.id.clone(), stream: Stream::Stderr, text: line }),
        }
    }

    /// Whether the running evaluation has completed.
    pub fn is_completed(&self) -> (r: bool)
        ensures
            r == (self.current matches Some(e) && e.completed),
    {
        match &self.current {
            Some(e) => e.completed,
            None => false,
        }
    }

    /// The evaluation is over: no evaluation runs.
    pub fn finish(&mut self)
        ensures
            final(self).current is None,
    {
        self.current = None;
    }
}

/// An end-of-execution marker: `eoe_` and 20 ASCII letters and digits.
pub open spec fn is_eval_marker(m: Seq<char>) -> bool {
    &&& m.len() == 24
    &&& m.subrange(0, 4) == "eoe_"@
    &&& forall|i: int| 4 <= i < 24 ==> is_ascii_alnum(#[trigger] m[i])
}

/// The line that the framed code's last statement prints is its marker, which
/// the reader of the process's output recognises: the marker is ASCII text
/// without surrounding whitespace, so it is the line's trimmed text.
pub proof fn lemma_marker_line_recognised(marker: Seq<char>)
    requires
        is_eval_marker(marker),
    ensures
        is_ascii_text(marker),
        ascii_trimmed(marker) == marker,
{
    reveal_strlit("eoe_");
    assert(marker[0] == "eoe_"@[0]) by {
        assert(marker.subrange(0, 4)[0] == marker[0]);
    }
    assert forall|i: int| 0 <= i < marker.len() implies (#[trigger] marker[i] as u32) < 128 by {
        if i < 4 {
            assert(marker[i] == marker.subrange(0, 4)[i]);
        } else {
            assert(is_ascii_alnum(marker[i]));
        }
    }
    assert(is_ascii_alnum(marker[23]));
}

/// Start a Python evaluation with a fresh random marker: `eoe_` and 20 random
/// letters and digits.
pub fn begin_python_eval(session: &mut PythonSession, id: String) -> (marker: String)
    ensures
        final(session).current matches Some(e) && e.id == id && e.marker == marker && !e.completed,
        is_eval_marker(marker@),
{
    let suffix = random_alphanumeric(20);
    let marker = eoe_marker(suffix.as_str());
    proof {
        reveal_strlit("eoe_");
        assert(marker@.subrange(0, 4) =~= "eoe_"@);
        assert forall|i: int| 4 <= i < 24 implies is_ascii_alnum(#[trigger] marker@[i]) by {
            assert(marker@[i] == suffix@[i - 4]);
        }
    }
    session.begin(id, marker.clone());
    marker
}

} // verus!
