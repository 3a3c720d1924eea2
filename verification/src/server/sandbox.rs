//! The rules the server applies when it starts, stops and inspects sandboxes:
//! which names it accepts, which configuration it writes, how long it waits,
//! and what it answers.

use vstd::prelude::*;
use vstd::string::StringExecFns;

use crate::server::error::{ServerError, ValidationError};
use serde_json::Value;

use crate::server::payload::{json_is_object, json_object, member_string, member_text, SandboxConfig};
use crate::text::{
    char_is_ascii_alnum, clone_strings, decimal_string, decimal_text, ends_with, has_suffix, is_ascii_alnum, str_equal,
};

verus! {

//--------------------------------------------------------------------------------------------------
// Sandbox names
//--------------------------------------------------------------------------------------------------

/// A character that may stand in a sandbox name.
pub open spec fn is_name_char(c: char) -> bool {
    is_ascii_alnum(c) || c == '-' || c == '_'
}

/// The error is a validation error with this message.
pub open spec fn is_invalid_input(e: ServerError, msg: Seq<char>) -> bool {
    e matches ServerError::ValidationError(ValidationError::InvalidInput(m)) && m@ == msg
}

/// The error is an internal error with this message.
pub open spec fn is_internal(e: ServerError, msg: Seq<char>) -> bool {
    e matches ServerError::InternalError(m) && m@ == msg
}

/// Why a sandbox name is refused, if it is. The length is counted in bytes of
/// its UTF-8 encoding.
pub open spec fn sandbox_name_problem(name: Seq<char>, byte_len: nat) -> Option<Seq<char>> {
    if name.len() == 0 {
        Some("Sandbox name cannot be empty"@)
    } else if byte_len > 63 {
        Some("Sandbox name cannot exceed 63 characters"@)
    } else if !(forall|i: int| 0 <= i < name.len() ==> is_name_char(#[trigger] name[i])) {
        Some("Sandbox name can only contain alphanumeric characters, hyphens, or underscores"@)
    } else if !is_ascii_alnum(name[0]) {
        Some("Sandbox name must start with an alphanumeric character"@)
    } else {
        None
    }
}

/// Validates a sandbox name
pub fn validate_sandbox_name(name: &str) -> (r: Result<(), ServerError>)
    ensures
        sandbox_name_problem(name@, name.len() as nat) is None ==> r is Ok,
        sandbox_name_problem(name@, name.len() as nat) matches Some(msg) ==> (r matches Err(
            e,
        ) && is_invalid_input(e, msg)),
{
    if name.is_empty() {
        return Err(invalid_input("Sandbox name cannot be empty"));
    }
    if name.len() > 63 {
        return Err(invalid_input("Sandbox name cannot exceed 63 characters"));
    }
    let n = name.unicode_len();
    let mut i: usize = 0;
    while i < n
        invariant
            n == name@.len(),
            n > 0,
            name.len() <= 63,
            i <= n,
            forall|j: int| 0 <= j < i ==> is_name_char(#[trigger] name@[j]),
        decreases n - i,
    {
        let c = name.get_char(i);
        if !(char_is_ascii_alnum(c) || c == '-' || c == '_') {
            assert(!is_name_char(name@[i as int]));
            return Err(
                invalid_input(
                    "Sandbox name can only contain alphanumeric characters, hyphens, or underscores",
                ),
            );
        }
        i = i + 1;
    }
    if !char_is_ascii_alnum(name.get_char(0)) {
        return Err(invalid_input("Sandbox name must start with an alphanumeric character"));
    }
    Ok(())
}

fn invalid_input(msg: &str) -> (e: ServerError)
    ensures
        is_invalid_input(e, msg@),
{
    ServerError::ValidationError(ValidationError::InvalidInput(String::from_str(msg)))
}

//--------------------------------------------------------------------------------------------------
// Starting a sandbox
//--------------------------------------------------------------------------------------------------

/// Where the configuration that a start request works on comes from.
#[derive(Clone, Copy, Debug, PartialEq, Eq, Structural)]
pub enum ConfigSource {
    /// The project's configuration file, which exists.
    ExistingFile,
    /// The default configuration, written to a new file first.
    DefaultConfig,
}

/// The request carries a configuration with an image.
pub open spec fn has_image_config(config: Option<SandboxConfig>) -> bool {
    config matches Some(c) && c.image is Some
}

/// Decide, before any file is read, which configuration a start request works
/// on: the existing file where there is one, else the default configuration,
/// which needs a configuration in the request.
pub fn start_config_source(
    sandbox: &str,
    has_config_in_request: bool,
    has_existing_config_file: bool,
) -> (r: Result<ConfigSource, ServerError>)
    ensures
        has_existing_config_file ==> r == Ok::<ConfigSource, ServerError>(
            ConfigSource::ExistingFile,
        ),
        !has_existing_config_file && has_config_in_request ==> r == Ok::<
            ConfigSource,
            ServerError,
        >(ConfigSource::DefaultConfig),
        !has_existing_config_file && !has_config_in_request ==> (r matches Err(e)
            && is_invalid_input(
            e,
            "No configuration provided and no existing configuration found for sandbox '"@
                + sandbox@ + "'"@,
        )),
{
    if !has_config_in_request && !has_existing_config_file {
        return Err(
            ServerError::ValidationError(
                ValidationError::InvalidInput(
                    String::from_str(
                        "No configuration provided and no existing configuration found for sandbox '",
                    ).concat(sandbox).concat("'"),
                ),
            ),
        );
    }
    if has_existing_config_file {
        Ok(ConfigSource::ExistingFile)
    } else {
        Ok(ConfigSource::DefaultConfig)
    }
}

/// Where a start request relies on the existing file alone, the sandbox must be
/// configured there.
pub fn require_configured_sandbox(
    sandbox: &str,
    has_config_in_request: bool,
    sandbox_in_existing_config: bool,
) -> (r: Result<(), ServerError>)
    ensures
        r is Ok <==> has_config_in_request || sandbox_in_existing_config,
        r matches Err(e) ==> is_invalid_input(
            e,
            "Sandbox '"@ + sandbox@ + "' not found in existing configuration"@,
        ),
{
    if !has_config_in_request && !sandbox_in_existing_config {
        return Err(
            ServerError::ValidationError(
                ValidationError::InvalidInput(
                    String::from_str("Sandbox '").concat(sandbox).concat(
                        "' not found in existing configuration",
                    ),
                ),
            ),
        );
    }
    Ok(())
}

/// The entry that a start request writes for its sandbox into the project's
/// configuration: each field of the request that is set, lists only where they
/// are not empty.
pub struct SandboxEntry {
    /// `image`
    pub image: String,
    /// `memory`
    pub memory: Option<u32>,
    /// `cpus`
    pub cpus: Option<u8>,
    /// `volumes`
    pub volumes: Option<Vec<String>>,
    /// `ports`
    pub ports: Option<Vec<String>>,
    /// `envs`
    pub envs: Option<Vec<String>>,
    /// `depends_on`
    pub depends_on: Option<Vec<String>>,
    /// `workdir`
    pub workdir: Option<String>,
    /// `shell`
    pub shell: Option<String>,
    /// `scripts`, by name
    pub scripts: Option<Vec<(String, String)>>,
    /// `exec`
    pub exec_command: Option<String>,
}

/// A list field is written only when the list is not empty.
pub open spec fn list_field(written: Option<Vec<String>>, given: Vec<String>) -> bool {
    if given@.len() == 0 {
        written is None
    } else {
        written matches Some(w) && w@ == given@
    }
}

/// An optional text field is written as given.
pub open spec fn text_field(written: Option<String>, given: Option<String>) -> bool {
    match given {
        Some(g) => written matches Some(w) && w@ == g@,
        None => written is None,
    }
}

/// The script pairs agree by their texts.
pub open spec fn same_pairs(a: Seq<(String, String)>, b: Seq<(String, String)>) -> bool {
    a.len() == b.len() && forall|i: int|
        0 <= i < a.len() ==> (#[trigger] a[i]).0@ == b[i].0@ && a[i].1@ == b[i].1@
}

fn list_entry(v: &Vec<String>) -> (r: Option<Vec<String>>)
    ensures
        list_field(r, *v),
{
    if v.len() == 0 {
        None
    } else {
        Some(clone_strings(v))
    }
}

fn text_entry(v: &Option<String>) -> (r: Option<String>)
    ensures
        text_field(r, *v),
{
    match v {
        Some(s) => Some(s.clone()),
        None => None,
    }
}

/// The entry for the sandbox that a start request configures, or `None` where
/// the request carries no image, in which case the configuration is left as it is.
pub fn sandbox_entry(config: &SandboxConfig) -> (r: Option<SandboxEntry>)
    ensures
        config.image is None <==> r is None,
        r matches Some(e) ==> {
            &&& e.image@ == config.image->0@
            &&& e.memory == config.memory
            &&& e.cpus == config.cpus
            &&& list_field(e.volumes, config.volumes)
            &&& list_field(e.ports, config.ports)
            &&& list_field(e.envs, config.envs)
            &&& list_field(e.depends_on, config.depends_on)
            &&& text_field(e.workdir, config.workdir)
            &&& text_field(e.shell, config.shell)
            &&& (if config.scripts@.len() == 0 {
                e.scripts is None
            } else {
                e.scripts matches Some(s) && same_pairs(s@, config.scripts@)
            })
            &&& text_field(e.exec_command, config.exec_command)
        },
{
    let image = match &config.image {
        Some(i) => i.clone(),
        None => {
            return None;
        },
    };
    let scripts = if config.scripts.len() == 0 {
        None
    } else {
        let mut s: Vec<(String, String)> = Vec::new();
        let mut i: usize = 0;
        while i < config.scripts.len()
            invariant
                i <= config.scripts@.len(),
                s@.len() == i,
                forall|j: int|
                    0 <= j < i ==> (#[trigger] s@[j]).0@ == config.scripts@[j].0@ && s@[j].1@
                        == config.scripts@[j].1@,
            decreases config.scripts@.len() - i,
        {
            let (name, script) = &config.scripts[i];
            s.push((name.clone(), script.clone()));
            i = i + 1;
        }
        Some(s)
    };
    Some(
        SandboxEntry {
            image,
            memory: config.memory,
            cpus: config.cpus,
            volumes: list_entry(&config.volumes),
            ports: list_entry(&config.ports),
            envs: list_entry(&config.envs),
            depends_on: list_entry(&config.depends_on),
            workdir: text_entry(&config.workdir),
            shell: text_entry(&config.shell),
            scripts,
            exec_command: text_entry(&config.exec_command),
        },
    )
}

/// The port mapping that exposes a sandbox's portal: host port, colon, guest port.
pub open spec fn portal_mapping_text(port: u16, guest_port: u16) -> Seq<char> {
    decimal_text(port as nat) + ":"@ + decimal_text(guest_port as nat)
}

/// The port mapping that exposes a sandbox's portal on `port` of the host.
pub fn portal_port_mapping(port: u16, guest_port: u16) -> (r: String)
    ensures
        r@ == portal_mapping_text(port, guest_port),
{
    decimal_string(port as u64).concat(":").concat(decimal_string(guest_port as u64).as_str())
}

/// The error of a configuration that lacks the sandbox being started, once
/// its entry was to be written.
pub fn sandbox_not_configured(sandbox: &str) -> (e: ServerError)
    ensures
        is_internal(e, "Sandbox '"@ + sandbox@ + "' not found in configuration"@),
{
    ServerError::InternalError(String::from_str("Sandbox '").concat(sandbox).concat("' not found in configuration"))
}

/// The error of a sandbox entry that is not a mapping.
pub fn sandbox_config_not_mapping(sandbox: &str) -> (e: ServerError)
    ensures
        is_internal(e, "Sandbox '"@ + sandbox@ + "' configuration is not a mapping"@),
{
    ServerError::InternalError(
        String::from_str("Sandbox '").concat(sandbox).concat("' configuration is not a mapping"),
    )
}

/// Whether an entry of a sandbox's `ports` list stays when the portal mapping
/// is replaced: entries that are not text stay, and text entries stay unless
/// they map the portal's guest port.
pub fn keeps_port_entry(entry: Option<&str>, guest_port: u16) -> (r: bool)
    ensures
        r == match entry {
            Some(s) => !has_suffix(s@, ":"@ + decimal_text(guest_port as nat)),
            None => true,
        },
{
    match entry {
        Some(s) => {
            let suffix = String::from_str(":").concat(decimal_string(guest_port as u64).as_str());
            !ends_with(s, suffix.as_str())
        },
        None => true,
    }
}

/// Whether an entry of a sandbox's `ports` list stays when the portal mapping
/// is replaced (`None` stands for an entry that is not text).
pub open spec fn keeps_port(entry: Option<String>, guest_port: u16) -> bool {
    match entry {
        Some(s) => !has_suffix(s@, ":"@ + decimal_text(guest_port as nat)),
        None => true,
    }
}

/// The entries of a `ports` list that stay when the portal mapping is replaced,
/// in their order.
pub open spec fn kept_ports(ports: Seq<Option<String>>, guest_port: u16) -> Seq<Option<String>> {
    ports.filter(|e: Option<String>| keeps_port(e, guest_port))
}

/// A sandbox's `ports` list once its portal is given host port `port`: the
/// entries that map the portal's guest port are dropped, the others keep their
/// order, and the new mapping comes last. `None` stands for an entry that is not
/// text, which stays as it is.
pub fn replace_portal_mapping(ports: &Vec<Option<String>>, port: u16, guest_port: u16) -> (r: Vec<
    Option<String>,
>)
    ensures
        r@.len() == kept_ports(ports@, guest_port).len() + 1,
        r@.subrange(0, r@.len() - 1) == kept_ports(ports@, guest_port),
        r@.last() matches Some(m) && m@ == portal_mapping_text(port, guest_port),
        forall|i: int| 0 <= i < r@.len() - 1 ==> keeps_port(#[trigger] r@[i], guest_port),
        !keeps_port(r@.last(), guest_port),
{
    let ghost pred = |e: Option<String>| keeps_port(e, guest_port);
    let mut r: Vec<Option<String>> = Vec::new();
    let mut i: usize = 0;
    while i < ports.len()
        invariant
            i <= ports@.len(),
            pred == (|e: Option<String>| keeps_port(e, guest_port)),
            r@ == ports@.subrange(0, i as int).filter(pred),
        decreases ports@.len() - i,
    {
        proof {
            reveal(Seq::filter);
            assert(ports@.subrange(0, i + 1).drop_last() =~= ports@.subrange(0, i as int));
            assert(ports@.subrange(0, i + 1).last() == ports@[i as int]);
        }
        let entry: Option<&str> = match &ports[i] {
            Some(s) => Some(s.as_str()),
            None => None,
        };
        if keeps_port_entry(entry, guest_port) {
            let kept = match &ports[i] {
                Some(s) => Some(s.clone()),
                None => None,
            };
            r.push(kept);
        }
        i = i + 1;
    }
    proof {
        assert(ports@.subrange(0, ports@.len() as int) =~= ports@);
        broadcast use vstd::seq_lib::group_filter_ensures;
        lemma_portal_mapping_replaced(port, guest_port);
    }
    let ghost kept = r@;
    r.push(Some(portal_port_mapping(port, guest_port)));
    proof {
        assert(r@.subrange(0, r@.len() - 1) =~= kept);
        assert forall|i: int| 0 <= i < r@.len() - 1 implies keeps_port(#[trigger] r@[i], guest_port) by {
            assert(r@[i] == kept[i]);
            assert(pred(kept[i]));
        }
    }
    r
}

/// A new portal mapping is itself one that the next replacement removes, so
/// that a sandbox's `ports` list never holds two.
pub proof fn lemma_portal_mapping_replaced(port: u16, guest_port: u16)
    ensures
        has_suffix(portal_mapping_text(port, guest_port), ":"@ + decimal_text(guest_port as nat)),
{
    let full = portal_mapping_text(port, guest_port);
    let suffix = ":"@ + decimal_text(guest_port as nat);
    assert(full =~= decimal_text(port as nat) + suffix);
    assert(full.subrange(full.len() - suffix.len(), full.len() as int) =~= suffix);
}

/// How long, in seconds, to wait for a started sandbox to run: longer where the
/// request names an image, which may have to be pulled first.
pub fn start_poll_timeout_secs(config: &Option<SandboxConfig>) -> (r: u64)
    ensures
        r == (if has_image_config(*config) {
            180u64
        } else {
            60u64
        }),
{
    match config {
        Some(c) => if c.image.is_some() {
            180
        } else {
            60
        },
        None => 60,
    }
}

/// How waiting for a started sandbox ended.
pub enum StartWait {
    /// The sandbox was seen running.
    Running,
    /// Polling the sandbox's status failed with this error text.
    PollFailed(String),
    /// The timeout passed first.
    TimedOut,
}

/// The message with which a start request is answered, once the sandbox was started.
pub open spec fn start_outcome_text(sandbox: Seq<char>, wait: StartWait) -> Seq<char> {
    match wait {
        StartWait::Running => "Sandbox "@ + sandbox + " started successfully"@,
        StartWait::PollFailed(e) => "Sandbox "@ + sandbox + " was started, but couldn't verify it's running: "@
            + e@,
        StartWait::TimedOut => "Sandbox "@ + sandbox
            + " was started, but timed out waiting for it to be fully running. It may still be initializing."@,
    }
}

/// The message with which a start request is answered, once the sandbox was started.
pub fn start_outcome_message(sandbox: &str, wait: &StartWait) -> (r: String)
    ensures
        r@ == start_outcome_text(sandbox@, *wait),
        r@ == match wait {
            StartWait::Running => "Sandbox "@ + sandbox@ + " started successfully"@,
            StartWait::PollFailed(e) => "Sandbox "@ + sandbox@
                + " was started, but couldn't verify it's running: "@ + e@,
            StartWait::TimedOut => "Sandbox "@ + sandbox@
                + " was started, but timed out waiting for it to be fully running. It may still be initializing."@,
        },
{
    let head = String::from_str("Sandbox ").concat(sandbox);
    match wait {
        StartWait::Running => head.concat(" started successfully"),
        StartWait::PollFailed(e) => head.concat(" was started, but couldn't verify it's running: ").concat(
            e.as_str(),
        ),
        StartWait::TimedOut => head.concat(
            " was started, but timed out waiting for it to be fully running. It may still be initializing.",
        ),
    }
}

/// An internal error whose message is `prefix` followed by `detail`.
pub fn internal_error(prefix: &str, detail: &str) -> (e: ServerError)
    ensures
        is_internal(e, prefix@ + detail@),
{
    ServerError::InternalError(String::from_str(prefix).concat(detail))
}

/// The error of a sandbox that failed to start.
pub fn start_failed(sandbox: &str, error_text: &str) -> (e: ServerError)
    ensures
        is_internal(e, "Failed to start sandbox "@ + sandbox@ + ": "@ + error_text@),
{
    ServerError::InternalError(
        String::from_str("Failed to start sandbox ").concat(sandbox).concat(": ").concat(error_text),
    )
}

//--------------------------------------------------------------------------------------------------
// The sequence of starting a sandbox
//--------------------------------------------------------------------------------------------------

/// A sandbox name that passed validation: not empty, made of letters, digits,
/// hyphens and underscores, and starting with a letter or digit.
pub open spec fn valid_sandbox_name(name: Seq<char>) -> bool {
    &&& name.len() > 0
    &&& forall|i: int| 0 <= i < name.len() ==> is_name_char(#[trigger] name[i])
    &&& is_ascii_alnum(name[0])
}

/// Why validation refuses a sandbox name, if it does.
pub open spec fn validate_outcome(name: Seq<char>) -> Option<Seq<char>> {
    sandbox_name_problem(name, (vstd::utf8::encode_utf8(name).len() as usize) as nat)
}

/// What starting a sandbox asks of the world next.
pub enum StartAction {
    /// Find out whether the project directory exists.
    CheckProjectDir,
    /// Create the project directory.
    CreateProjectDir,
    /// Initialize the microsandbox environment in the new project directory.
    InitializeEnvironment,
    /// Find out whether the project's configuration file exists.
    CheckConfigFile,
    /// Read and parse the configuration file, and find out whether it configures
    /// the sandbox.
    ReadConfig,
    /// Write the default configuration as the configuration file, and parse it.
    WriteDefaultConfig,
    /// Assign the sandbox a portal port.
    AssignPort,
    /// Write the request's sandbox entry and the portal mapping on this host
    /// port into the configuration, and save it.
    WriteConfig(u16),
    /// Start the sandbox.
    StartSandbox,
    /// Wait for the sandbox to run, at most this many seconds.
    WaitRunning(u64),
    /// Answer the request; starting is over.
    Reply(Result<String, ServerError>),
}

/// What the world answers to the last action.
pub enum StartEvent {
    /// The request has arrived.
    Begin,
    /// The directory or file looked for exists, or not.
    Exists(bool),
    /// The configuration read configures the sandbox, or not.
    SandboxConfigured(bool),
    /// The sandbox was given this portal port.
    PortAssigned(u16),
    /// The action succeeded.
    Succeeded,
    /// The action failed with this error text.
    Failed(String),
    /// The configuration could not be parsed (or, once edited, serialized), with
    /// this error text.
    ParseFailed(String),
    /// The configuration could not be edited, with this error.
    Rejected(ServerError),
    /// Waiting for the sandbox ended so.
    Waited(StartWait),
}

/// How far starting a sandbox has come.
#[derive(Clone, Copy, Debug, PartialEq, Eq, Structural)]
pub enum StartStage {
    /// Nothing done yet.
    Begin,
    /// Waiting to hear whether the project directory exists.
    CheckingProjectDir,
    /// Creating the project directory.
    CreatingProjectDir,
    /// Initializing the environment.
    InitializingEnvironment,
    /// Waiting to hear whether the configuration file exists.
    CheckingConfigFile,
    /// Reading the configuration file.
    ReadingConfig,
    /// Writing the default configuration.
    WritingDefaultConfig,
    /// Assigning a portal port.
    AssigningPort,
    /// Writing the configuration.
    WritingConfig,
    /// Starting the sandbox.
    Starting,
    /// Waiting for the sandbox to run.
    Waiting,
    /// The request was answered.
    Finished,
}

/// The decisions of starting a sandbox, from the request to its answer. Each
/// step takes what the world answered to the last action and gives the next one.
pub struct SandboxStart {
    /// The sandbox to start
    pub sandbox: String,
    /// The request carries a configuration with an image
    pub has_config_in_request: bool,
    /// How long to wait for the sandbox to run, in seconds
    pub timeout_secs: u64,
    /// How far starting has come
    pub stage: StartStage,
    /// The project's configuration file existed when it was looked for
    pub config_file_exists: bool,
    /// The configuration file read configures the sandbox
    pub sandbox_configured: bool,
}

/// The request may change the configuration: either it carries a configuration,
/// or the existing configuration file configures the sandbox.
pub open spec fn config_checks_pass(m: SandboxStart) -> bool {
    m.has_config_in_request || (m.config_file_exists && m.sandbox_configured)
}

/// The stages that come after the name was validated.
pub open spec fn past_name_check(stage: StartStage) -> bool {
    !(stage is Begin) && !(stage is Finished)
}

/// The stages that come after the configuration was checked.
pub open spec fn past_config_check(stage: StartStage) -> bool {
    stage is AssigningPort || stage is WritingConfig || stage is Starting || stage is Waiting
}

/// An action that changes something outside.
pub open spec fn is_effect(a: StartAction) -> bool {
    a is CreateProjectDir || a is InitializeEnvironment || a is WriteDefaultConfig || a is AssignPort
        || a is WriteConfig || a is StartSandbox
}

/// An action that changes the configuration, the port assignments or the
/// sandbox itself.
pub open spec fn is_config_effect(a: StartAction) -> bool {
    a is WriteDefaultConfig || a is AssignPort || a is WriteConfig || a is StartSandbox
}

/// The event is one that the stage waits for.
pub open spec fn fits(stage: StartStage, e: StartEvent) -> bool {
    match stage {
        StartStage::Begin => e is Begin,
        StartStage::CheckingProjectDir | StartStage::CheckingConfigFile => e is Exists,
        StartStage::CreatingProjectDir | StartStage::InitializingEnvironment | StartStage::Starting => e is Succeeded || e is Failed,
        StartStage::ReadingConfig => e is SandboxConfigured || e is Failed || e is ParseFailed,
        StartStage::WritingDefaultConfig => e is Succeeded || e is Failed || e is ParseFailed,
        StartStage::AssigningPort => e is PortAssigned || e is Failed,
        StartStage::WritingConfig => e is Succeeded || e is Failed || e is ParseFailed || e is Rejected,
        StartStage::Waiting => e is Waited,
        StartStage::Finished => false,
    }
}

/// The answer is an internal error whose message is `prefix` and the text.
pub open spec fn replies_internal(a: StartAction, msg: Seq<char>) -> bool {
    a matches StartAction::Reply(Err(e)) && is_internal(e, msg)
}

impl SandboxStart {
    /// What starting knows: once past the name check the name is valid, and once
    /// past the configuration check the request may change the configuration.
    pub open spec fn wf(&self) -> bool {
        &&& past_name_check(self.stage) ==> valid_sandbox_name(self.sandbox@)
        &&& past_config_check(self.stage) ==> config_checks_pass(*self)
        &&& self.stage is ReadingConfig ==> self.config_file_exists
        &&& self.stage is WritingDefaultConfig ==> self.has_config_in_request
    }

    /// Start the sandbox `sandbox` as the request with `config` asks.
    pub fn new(sandbox: String, config: &Option<SandboxConfig>) -> (r: Self)
        ensures
            r.wf(),
            r.sandbox == sandbox,
            r.has_config_in_request == has_image_config(*config),
            r.timeout_secs == (if has_image_config(*config) { 180u64 } else { 60u64 }),
            r.stage is Begin,
            !r.config_file_exists && !r.sandbox_configured,
    {
        let has_config_in_request = match config {
            Some(c) => c.image.is_some(),
            None => false,
        };
        SandboxStart {
            sandbox,
            has_config_in_request,
            timeout_secs: start_poll_timeout_secs(config),
            stage: StartStage::Begin,
            config_file_exists: false,
            sandbox_configured: false,
        }
    }

    /// Whether the event is one that starting waits for now.
    pub fn accepts(&self, event: &StartEvent) -> (r: bool)
        ensures
            r == fits(self.stage, *event),
    {
        match self.stage {
            StartStage::Begin => matches!(event, StartEvent::Begin),
            StartStage::CheckingProjectDir | StartStage::CheckingConfigFile => matches!(event, StartEvent::Exists(_)),
            StartStage::CreatingProjectDir | StartStage::InitializingEnvironment | StartStage::Starting => matches!(event, StartEvent::Succeeded | StartEvent::Failed(_)),
            StartStage::ReadingConfig => matches!(event, StartEvent::SandboxConfigured(_) | StartEvent::Failed(_) | StartEvent::ParseFailed(_)),
            StartStage::WritingDefaultConfig => matches!(event, StartEvent::Succeeded | StartEvent::Failed(_) | StartEvent::ParseFailed(_)),
            StartStage::AssigningPort => matches!(event, StartEvent::PortAssigned(_) | StartEvent::Failed(_)),
            StartStage::WritingConfig => matches!(event, StartEvent::Succeeded | StartEvent::Failed(_) | StartEvent::ParseFailed(_) | StartEvent::Rejected(_)),
            StartStage::Waiting => matches!(event, StartEvent::Waited(_)),
            StartStage::Finished => false,
        }
    }

    /// Take the world's answer to the last action and give the next action. No
    /// action changes anything outside before the name was validated, and none
    /// changes the configuration, the ports or the sandbox before the
    /// configuration was checked.
    pub fn step(&mut self, event: StartEvent) -> (a: StartAction)
        requires
            old(self).wf(),
            fits(old(self).stage, event),
        ensures
            final(self).wf(),
            final(self).sandbox == old(self).sandbox,
            final(self).has_config_in_request == old(self).has_config_in_request,
            final(self).timeout_secs == old(self).timeout_secs,
            is_effect(a) ==> valid_sandbox_name(final(self).sandbox@),
            is_config_effect(a) ==> config_checks_pass(*final(self)),
            (a is Reply) <==> (final(self).stage is Finished),
            // the request arrives: validate the name before anything else
            old(self).stage is Begin ==> match validate_outcome(old(self).sandbox@) {
                Some(msg) => (a matches StartAction::Reply(Err(e)) && is_invalid_input(e, msg)),
                None => a is CheckProjectDir && final(self).stage is CheckingProjectDir,
            },
            // the project directory: create and initialize it where it is missing
            event matches StartEvent::Exists(b) ==> old(self).stage is CheckingProjectDir ==> (if b {
                a is CheckConfigFile && final(self).stage is CheckingConfigFile
            } else {
                a is CreateProjectDir && final(self).stage is CreatingProjectDir
            }),
            (old(self).stage is CreatingProjectDir && event is Succeeded) ==> (a is InitializeEnvironment
                && final(self).stage is InitializingEnvironment),
            event matches StartEvent::Failed(t) ==> old(self).stage is CreatingProjectDir ==> replies_internal(
                a, "Failed to create project directory: "@ + t@),
            (old(self).stage is InitializingEnvironment && event is Succeeded) ==> (a is CheckConfigFile
                && final(self).stage is CheckingConfigFile),
            event matches StartEvent::Failed(t) ==> old(self).stage is InitializingEnvironment ==> replies_internal(
                a, "Failed to initialize microsandbox environment: "@ + t@),
            // the configuration: the existing file, or the default where the request carries one
            event matches StartEvent::Exists(b) ==> old(self).stage is CheckingConfigFile ==> (
            final(self).config_file_exists == b && if b {
                a is ReadConfig && final(self).stage is ReadingConfig
            } else if old(self).has_config_in_request {
                a is WriteDefaultConfig && final(self).stage is WritingDefaultConfig
            } else {
                a matches StartAction::Reply(Err(e)) && is_invalid_input(e,
                    "No configuration provided and no existing configuration found for sandbox '"@
                        + old(self).sandbox@ + "'"@)
            }),
            event matches StartEvent::SandboxConfigured(b) ==> old(self).stage is ReadingConfig ==> (
            final(self).sandbox_configured == b && if b || old(self).has_config_in_request {
                a is AssignPort && final(self).stage is AssigningPort
            } else {
                a matches StartAction::Reply(Err(e)) && is_invalid_input(e,
                    "Sandbox '"@ + old(self).sandbox@ + "' not found in existing configuration"@)
            }),
            event matches StartEvent::Failed(t) ==> old(self).stage is ReadingConfig ==> replies_internal(
                a, "Failed to read config file: "@ + t@),
            event matches StartEvent::ParseFailed(t) ==> old(self).stage is ReadingConfig ==> replies_internal(
                a, "Failed to parse config file: "@ + t@),
            (old(self).stage is WritingDefaultConfig && event is Succeeded) ==> (a is AssignPort
                && final(self).stage is AssigningPort),
            event matches StartEvent::Failed(t) ==> old(self).stage is WritingDefaultConfig ==> replies_internal(
                a, "Failed to create config file: "@ + t@),
            event matches StartEvent::ParseFailed(t) ==> old(self).stage is WritingDefaultConfig ==> replies_internal(
                a, "Failed to parse default config: "@ + t@),
            // the port, the configuration written, the sandbox started and waited for
            event matches StartEvent::PortAssigned(p) ==> old(self).stage is AssigningPort ==> (a
                == StartAction::WriteConfig(p) && final(self).stage is WritingConfig),
            event matches StartEvent::Failed(t) ==> old(self).stage is AssigningPort ==> replies_internal(
                a, "Failed to assign portal port: "@ + t@),
            (old(self).stage is WritingConfig && event is Succeeded) ==> (a is StartSandbox
                && final(self).stage is Starting),
            event matches StartEvent::Failed(t) ==> old(self).stage is WritingConfig ==> replies_internal(
                a, "Failed to write config file: "@ + t@),
            event matches StartEvent::ParseFailed(t) ==> old(self).stage is WritingConfig ==> replies_internal(
                a, "Failed to serialize config: "@ + t@),
            event matches StartEvent::Rejected(e) ==> old(self).stage is WritingConfig ==> a == StartAction::Reply(
                Err(e)),
            (old(self).stage is Starting && event is Succeeded) ==> (a == StartAction::WaitRunning(
                old(self).timeout_secs) && final(self).stage is Waiting),
            event matches StartEvent::Failed(t) ==> old(self).stage is Starting ==> replies_internal(
                a, "Failed to start sandbox "@ + old(self).sandbox@ + ": "@ + t@),
            event matches StartEvent::Waited(w) ==> old(self).stage is Waiting ==> (a matches StartAction::Reply(
                Ok(m)) && m@ == start_outcome_text(old(self).sandbox@, w)),
    {
        match event {
            StartEvent::Begin => {
                match validate_sandbox_name(self.sandbox.as_str()) {
                    Err(e) => self.finish(Err(e)),
                    Ok(()) => {
                        self.stage = StartStage::CheckingProjectDir;
                        StartAction::CheckProjectDir
                    },
                }
            },
            StartEvent::Exists(b) => {
                if self.stage == StartStage::CheckingProjectDir {
                    if b {
                        self.stage = StartStage::CheckingConfigFile;
                        StartAction::CheckConfigFile
                    } else {
                        self.stage = StartStage::CreatingProjectDir;
                        StartAction::CreateProjectDir
                    }
                } else {
                    self.config_file_exists = b;
                    match start_config_source(self.sandbox.as_str(), self.has_config_in_request, b) {
                        Err(e) => self.finish(Err(e)),
                        Ok(ConfigSource::ExistingFile) => {
                            self.stage = StartStage::ReadingConfig;
                            StartAction::ReadConfig
                        },
                        Ok(ConfigSource::DefaultConfig) => {
                            self.stage = StartStage::WritingDefaultConfig;
                            StartAction::WriteDefaultConfig
                        },
                    }
                }
            },
            StartEvent::SandboxConfigured(b) => {
                self.sandbox_configured = b;
                match require_configured_sandbox(self.sandbox.as_str(), self.has_config_in_request, b) {
                    Err(e) => self.finish(Err(e)),
                    Ok(()) => {
                        self.stage = StartStage::AssigningPort;
                        StartAction::AssignPort
                    },
                }
            },
            StartEvent::PortAssigned(p) => {
                self.stage = StartStage::WritingConfig;
                StartAction::WriteConfig(p)
            },
            StartEvent::Succeeded => {
                match self.stage {
                    StartStage::CreatingProjectDir => {
                        self.stage = StartStage::InitializingEnvironment;
                        StartAction::InitializeEnvironment
                    },
                    StartStage::InitializingEnvironment => {
                        self.stage = StartStage::CheckingConfigFile;
                        StartAction::CheckConfigFile
                    },
                    StartStage::WritingDefaultConfig => {
                        self.stage = StartStage::AssigningPort;
                        StartAction::AssignPort
                    },
                    StartStage::WritingConfig => {
                        self.stage = StartStage::Starting;
                        StartAction::StartSandbox
                    },
                    _ => {
                        self.stage = StartStage::Waiting;
                        StartAction::WaitRunning(self.timeout_secs)
                    },
                }
            },
            StartEvent::Failed(t) => {
                let e = match self.stage {
                    StartStage::CreatingProjectDir => internal_error("Failed to create project directory: ", t.as_str()),
                    StartStage::InitializingEnvironment => internal_error("Failed to initialize microsandbox environment: ", t.as_str()),
                    StartStage::ReadingConfig => internal_error("Failed to read config file: ", t.as_str()),
                    StartStage::WritingDefaultConfig => internal_error("Failed to create config file: ", t.as_str()),
                    StartStage::AssigningPort => internal_error("Failed to assign portal port: ", t.as_str()),
                    StartStage::WritingConfig => internal_error("Failed to write config file: ", t.as_str()),
                    _ => start_failed(self.sandbox.as_str(), t.as_str()),
                };
                self.finish(Err(e))
            },
            StartEvent::ParseFailed(t) => {
                let e = match self.stage {
                    StartStage::ReadingConfig => internal_error("Failed to parse config file: ", t.as_str()),
                    StartStage::WritingDefaultConfig => internal_error("Failed to parse default config: ", t.as_str()),
                    _ => internal_error("Failed to serialize config: ", t.as_str()),
                };
                self.finish(Err(e))
            },
            StartEvent::Rejected(e) => self.finish(Err(e)),
            StartEvent::Waited(w) => {
                let m = start_outcome_message(self.sandbox.as_str(), &w);
                self.finish(Ok(m))
            },
        }
    }

    /// Answer the request: starting is over.
    fn finish(&mut self, r: Result<String, ServerError>) -> (a: StartAction)
        ensures
            a == StartAction::Reply(r),
            final(self).stage is Finished,
            final(self).sandbox == old(self).sandbox,
            final(self).has_config_in_request == old(self).has_config_in_request,
            final(self).timeout_secs == old(self).timeout_secs,
            final(self).config_file_exists == old(self).config_file_exists,
            final(self).sandbox_configured == old(self).sandbox_configured,
    {
        self.stage = StartStage::Finished;
        StartAction::Reply(r)
    }
}

//--------------------------------------------------------------------------------------------------
// Waiting for a sandbox to run
//--------------------------------------------------------------------------------------------------

/// How many times the status of a started sandbox is polled.
pub const MAX_POLL_ATTEMPTS: u64 = 2500;

/// The first status listed for the sandbox says that it runs.
pub open spec fn listed_running(statuses: Seq<(String, bool)>, name: Seq<char>) -> bool {
    exists|i: int|
        0 <= i < statuses.len() && (#[trigger] statuses[i]).0@ == name && statuses[i].1 && forall|
            j: int,
        |
            0 <= j < i ==> (#[trigger] statuses[j]).0@ != name
}

/// Whether the first status of `name` among `statuses` (name, running) says
/// that it runs.
pub fn sandbox_is_running(statuses: &Vec<(String, bool)>, name: &str) -> (r: bool)
    ensures
        r == listed_running(statuses@, name@),
{
    let mut i: usize = 0;
    while i < statuses.len()
        invariant
            i <= statuses@.len(),
            forall|j: int| 0 <= j < i ==> (#[trigger] statuses@[j]).0@ != name@,
        decreases statuses@.len() - i,
    {
        if str_equal(statuses[i].0.as_str(), name) {
            let running = statuses[i].1;
            proof {
                if !running {
                    assert forall|k: int|
                        0 <= k < statuses@.len() && (#[trigger] statuses@[k]).0@ == name@
                            && statuses@[k].1 implies exists|j: int|
                        0 <= j < k && (#[trigger] statuses@[j]).0@ == name@ by {
                        if k > i {
                            assert(statuses@[i as int].0@ == name@);
                        }
                    }
                }
            }
            return running;
        }
        i = i + 1;
    }
    false
}

/// What to do after one poll of a started sandbox's status.
pub enum PollAction {
    /// The sandbox runs: stop polling.
    Running,
    /// Sleep, then poll again.
    PollAgain,
    /// Stop polling with this error.
    GiveUp(ServerError),
}

/// Decide after poll number `attempt` (counted from 1) whether to poll again.
pub fn poll_step(sandbox: &str, attempt: u64, running: bool) -> (r: PollAction)
    requires
        1 <= attempt <= MAX_POLL_ATTEMPTS,
    ensures
        running ==> r is Running,
        !running && attempt < MAX_POLL_ATTEMPTS ==> r is PollAgain,
        !running && attempt == MAX_POLL_ATTEMPTS ==> (r matches PollAction::GiveUp(e)
            && is_internal(
            e,
            "Exceeded maximum attempts to verify sandbox "@ + sandbox@ + " is running"@,
        )),
{
    if running {
        PollAction::Running
    } else if attempt < MAX_POLL_ATTEMPTS {
        PollAction::PollAgain
    } else {
        PollAction::GiveUp(
            ServerError::InternalError(
                String::from_str("Exceeded maximum attempts to verify sandbox ").concat(
                    sandbox,
                ).concat(" is running"),
            ),
        )
    }
}

//--------------------------------------------------------------------------------------------------
// Stopping a sandbox and reading its metrics
//--------------------------------------------------------------------------------------------------

/// A stop request needs the project directory and its configuration file.
pub fn check_stop_paths(project_dir_exists: bool, config_file_exists: bool) -> (r: Result<
    (),
    ServerError,
>)
    ensures
        r is Ok <==> project_dir_exists && config_file_exists,
        !project_dir_exists ==> (r matches Err(e) && is_invalid_input(
            e,
            "Project directory does not exist"@,
        )),
        project_dir_exists && !config_file_exists ==> (r matches Err(e) && is_invalid_input(
            e,
            "Configuration file not found"@,
        )),
{
    if !project_dir_exists {
        return Err(invalid_input("Project directory does not exist"));
    }
    if !config_file_exists {
        return Err(invalid_input("Configuration file not found"));
    }
    Ok(())
}

/// The error of a sandbox that failed to stop.
pub fn stop_failed(sandbox: &str, error_text: &str) -> (e: ServerError)
    ensures
        is_internal(e, "Failed to stop sandbox "@ + sandbox@ + ": "@ + error_text@),
{
    ServerError::InternalError(
        String::from_str("Failed to stop sandbox ").concat(sandbox).concat(": ").concat(error_text),
    )
}

/// The message with which a stop request is answered.
pub fn stop_message(sandbox: &str) -> (r: String)
    ensures
        r@ == "Sandbox "@ + sandbox@ + " stopped successfully"@,
{
    String::from_str("Sandbox ").concat(sandbox).concat(" stopped successfully")
}

/// The sandboxes whose metrics a request asks for: the one it names, else all
/// (an empty list). A named sandbox is validated first.
pub fn metrics_sandbox_names(sandbox: Option<&str>) -> (r: Result<Vec<String>, ServerError>)
    ensures
        sandbox is None ==> (r matches Ok(v) && v@.len() == 0),
        sandbox matches Some(s) ==> (sandbox_name_problem(s@, s.len() as nat) is None
            ==> (r matches Ok(v) && v@.len() == 1 && v@[0]@ == s@)),
        sandbox matches Some(s) ==> (sandbox_name_problem(s@, s.len() as nat) matches Some(
            msg,
        ) ==> (r matches Err(e) && is_invalid_input(e, msg))),
{
    match sandbox {
        Some(s) => {
            match validate_sandbox_name(s) {
                Ok(()) => {
                    let mut v: Vec<String> = Vec::new();
                    v.push(String::from_str(s));
                    Ok(v)
                },
                Err(e) => Err(e),
            }
        },
        None => Ok(Vec::new()),
    }
}

/// The error of a metrics request whose project directory does not exist.
pub fn missing_project_dir(project_dir: &str) -> (e: ServerError)
    ensures
        is_internal(e, "Project directory '"@ + project_dir@ + "' does not exist"@),
{
    ServerError::InternalError(
        String::from_str("Project directory '").concat(project_dir).concat("' does not exist"),
    )
}

//--------------------------------------------------------------------------------------------------
// Forwarding to the portal
//--------------------------------------------------------------------------------------------------

/// What the params of a request to be forwarded hold under `sandbox`.
pub enum SandboxParam {
    /// The params are not an object.
    NotObject,
    /// The object has no `sandbox` text.
    Missing,
    /// The sandbox named.
    Name(String),
}

/// The sandbox that a forwarded request names.
pub fn portal_sandbox_name(param: SandboxParam) -> (r: Result<String, ServerError>)
    ensures
        param matches SandboxParam::Name(n) ==> r == Ok::<String, ServerError>(n),
        param is Missing ==> (r matches Err(e) && is_invalid_input(
            e,
            "Missing required 'sandbox' parameter for portal request"@,
        )),
        param is NotObject ==> (r matches Err(e) && is_invalid_input(
            e,
            "Request parameters must be an object containing 'sandbox'"@,
        )),
{
    match param {
        SandboxParam::Name(n) => Ok(n),
        SandboxParam::Missing => Err(
            invalid_input("Missing required 'sandbox' parameter for portal request"),
        ),
        SandboxParam::NotObject => Err(
            invalid_input("Request parameters must be an object containing 'sandbox'"),
        ),
    }
}

/// What the params of a forwarded request hold under `sandbox`: whether they
/// are an object, and the `sandbox` text of that object.
pub open spec fn reads_sandbox_param(params: Value, p: SandboxParam) -> bool {
    if !json_object(params) {
        p is NotObject
    } else {
        match member_text(params, "sandbox"@) {
            Some(n) => p matches SandboxParam::Name(s) && s@ == n,
            None => p is Missing,
        }
    }
}

/// Read the `sandbox` text of a request's params.
pub fn sandbox_param_of(params: &Value) -> (r: SandboxParam)
    ensures
        reads_sandbox_param(*params, r),
{
    if !json_is_object(params) {
        return SandboxParam::NotObject;
    }
    match member_string(params, "sandbox") {
        Some(name) => SandboxParam::Name(name),
        None => SandboxParam::Missing,
    }
}

/// The sandbox that a request to be forwarded to a portal names in its params.
pub fn forwarded_sandbox_name(params: &Value) -> (r: Result<String, ServerError>)
    ensures
        !json_object(*params) ==> (r matches Err(e) && is_invalid_input(
            e,
            "Request parameters must be an object containing 'sandbox'"@,
        )),
        json_object(*params) ==> match member_text(*params, "sandbox"@) {
            Some(n) => r matches Ok(s) && s@ == n,
            None => r matches Err(e) && is_invalid_input(
                e,
                "Missing required 'sandbox' parameter for portal request"@,
            ),
        },
{
    portal_sandbox_name(sandbox_param_of(params))
}

/// The portal's JSON-RPC endpoint under its base URL.
pub fn portal_rpc_url(portal_url: &str) -> (r: String)
    ensures
        r@ == portal_url@ + "/api/v1/rpc"@,
{
    String::from_str(portal_url).concat("/api/v1/rpc")
}

/// The portal's health endpoint under its base URL.
pub fn portal_health_url(portal_url: &str) -> (r: String)
    ensures
        r@ == portal_url@ + "/health"@,
{
    String::from_str(portal_url).concat("/health")
}

/// How many times the portal's health is probed before the request fails.
pub const MAX_PORTAL_RETRIES: u32 = 300;

/// What one probe of the portal's health endpoint gave.
pub enum ProbeOutcome {
    /// A reply with this status code and its text (such as `503 Service Unavailable`).
    Reply(u16, String),
    /// No reply; the error's text.
    Failed(String),
}

/// What the forwarding does next.
pub enum ProbeStep {
    /// Probe the portal's health.
    Probe,
    /// Give up with this error.
    GiveUp(ServerError),
}

/// The connection attempts made to a sandbox's portal before a request is
/// forwarded to it: the portal may still be starting.
pub struct PortalProbe {
    /// Failed attempts so far
    pub retry_count: u32,
    /// The error of the last failed attempt
    pub last_error: Option<String>,
}

/// The text recorded for a failed probe.
pub open spec fn probe_error(outcome: ProbeOutcome) -> Seq<char> {
    match outcome {
        ProbeOutcome::Reply(code, text) => if code == 503 {
            "Portal not ready yet (status: "@ + text@ + ")"@
        } else {
            "Portal returned error status: "@ + text@
        },
        ProbeOutcome::Failed(e) => e@,
    }
}

/// The error with which forwarding gives up.
pub open spec fn give_up_text(last_error: Option<String>) -> Seq<char> {
    match last_error {
        Some(e) => "Failed to connect to portal after 300 retries: "@ + e@,
        None => "Failed to connect to portal after 300 retries"@,
    }
}

impl PortalProbe {
    /// No attempt made yet.
    pub fn new() -> (r: Self)
        ensures
            r.retry_count == 0,
            r.last_error is None,
    {
        PortalProbe { retry_count: 0, last_error: None }
    }

    /// Whether to probe again or give up.
    pub fn next_step(&self) -> (r: ProbeStep)
        ensures
            self.retry_count < MAX_PORTAL_RETRIES ==> r is Probe,
            self.retry_count >= MAX_PORTAL_RETRIES ==> (r matches ProbeStep::GiveUp(e)
                && is_internal(e, give_up_text(self.last_error))),
    {
        if self.retry_count < MAX_PORTAL_RETRIES {
            ProbeStep::Probe
        } else {
            let msg = match &self.last_error {
                Some(e) => String::from_str("Failed to connect to portal after 300 retries: ").concat(
                    e.as_str(),
                ),
                None => String::from_str("Failed to connect to portal after 300 retries"),
            };
            ProbeStep::GiveUp(ServerError::InternalError(msg))
        }
    }

    /// Record what a probe gave. Returns whether the portal is ready (status
    /// 200), in which case the request is forwarded; otherwise the caller waits
    /// and asks `next_step` again.
    pub fn record(&mut self, outcome: ProbeOutcome) -> (ready: bool)
        requires
            old(self).retry_count < MAX_PORTAL_RETRIES,
        ensures
            ready == (outcome matches ProbeOutcome::Reply(code, _) && code == 200),
            ready ==> *final(self) == *old(self),
            !ready ==> final(self).retry_count == old(self).retry_count + 1,
            !ready ==> (final(self).last_error matches Some(e) && e@ == probe_error(outcome)),
    {
        let text = match outcome {
            ProbeOutcome::Reply(code, text) => {
                if code == 200 {
                    return true;
                } else if code == 503 {
                    String::from_str("Portal not ready yet (status: ").concat(text.as_str()).concat(
                        ")",
                    )
                } else {
                    String::from_str("Portal returned error status: ").concat(text.as_str())
                }
            },
            ProbeOutcome::Failed(e) => e,
        };
        self.last_error = Some(text);
        self.retry_count = self.retry_count + 1;
        false
    }
}

/// The error of a portal that answered a forwarded request with a status that
/// is not a success; `body` is the reply's text, where it could be read.
pub fn portal_status_error(status_text: &str, body: Option<&str>) -> (e: ServerError)
    ensures
        is_internal(
            e,
            "Portal returned error status "@ + status_text@ + ": "@ + match body {
                Some(b) => b@,
                None => "Unknown error"@,
            },
        ),
{
    let b = match body {
        Some(b) => b,
        None => "Unknown error",
    };
    ServerError::InternalError(
        String::from_str("Portal returned error status ").concat(status_text).concat(": ").concat(b),
    )
}


//--------------------------------------------------------------------------------------------------
// Proxying
//--------------------------------------------------------------------------------------------------

/// The address a request to a sandbox is proxied to: the sandbox's internal
/// host on port 8080, with the request's path and query (or `/`).
pub open spec fn proxy_uri_text(namespace: Seq<char>, sandbox_name: Seq<char>, path_and_query: Option<Seq<char>>) -> Seq<char> {
    "http://sandbox-"@ + sandbox_name + "."@ + namespace + ".internal:8080"@ + match path_and_query {
        Some(pq) => pq,
        None => "/"@,
    }
}

/// The address a request to a sandbox is proxied to, given the original
/// request's path and query where it has them. The caller parses it as a URI,
/// falling back to `PROXY_FALLBACK_URI` where it does not parse.
pub fn proxy_uri(namespace: &str, sandbox_name: &str, path_and_query: Option<&str>) -> (r: String)
    ensures
        r@ == proxy_uri_text(
            namespace@,
            sandbox_name@,
            match path_and_query {
                Some(pq) => Some(pq@),
                None => None,
            },
        ),
{
    let base = String::from_str("http://sandbox-").concat(sandbox_name).concat(".").concat(namespace).concat(
        ".internal:8080",
    );
    match path_and_query {
        Some(pq) => base.concat(pq),
        None => base.concat("/"),
    }
}

/// The address used where the proxied address does not parse.
pub const PROXY_FALLBACK_URI: &'static str = "http://localhost:8080/";

} // verus!
