//! Microsandbox configuration types and the rules that check them.

use vstd::prelude::*;
use vstd::string::StringExecFns;

use crate::error::MicrosandboxError;
use crate::text::{
    ascii_lowercase, decimal_string, decimal_text, is_ascii_text, lemma_lowercase_letters_unchanged,
    lowercased_text, std_to_lowercase, str_equal, collect_entries, collected_entries, has_key,
    keys_distinct,
};

verus! {

//--------------------------------------------------------------------------------------------------
// Constants
//--------------------------------------------------------------------------------------------------

/// The name of the script that starts a sandbox.
pub const START_SCRIPT_NAME: &'static str = "start";

/// The name under which the sandbox's shell is run as a script.
pub const SHELL_SCRIPT_NAME: &'static str = "shell";

/// The directory inside a sandbox that holds microsandbox's files.
pub const SANDBOX_DIR: &'static str = ".sandbox";

/// The directory under `SANDBOX_DIR` that holds the sandbox's scripts.
pub const SCRIPTS_DIR: &'static str = "scripts";

//--------------------------------------------------------------------------------------------------
// Network scope
//--------------------------------------------------------------------------------------------------

/// The network scope of a sandbox: which other hosts it may reach.
#[derive(Clone, Copy, Debug, PartialEq, Eq, Structural)]
pub enum NetworkScope {
    /// Sandboxes cannot communicate with any other sandboxes
    NoNetwork,
    /// Sandboxes can only communicate within their subnet
    Group,
    /// Sandboxes can communicate with any other non-private address
    Public,
    /// Sandboxes can communicate with any address
    Any,
}

/// The default network scope.
pub open spec fn default_network_scope() -> NetworkScope {
    NetworkScope::Public
}

/// The name of a scope, as it is written in a configuration.
pub open spec fn scope_name(s: NetworkScope) -> Seq<char> {
    match s {
        NetworkScope::NoNetwork => "none"@,
        NetworkScope::Group => "group"@,
        NetworkScope::Public => "public"@,
        NetworkScope::Any => "any"@,
    }
}

/// The number of a scope.
pub open spec fn scope_number(s: NetworkScope) -> u8 {
    match s {
        NetworkScope::NoNetwork => 0,
        NetworkScope::Group => 1,
        NetworkScope::Public => 2,
        NetworkScope::Any => 3,
    }
}

/// The scope a (lowercased) name names.
pub open spec fn scope_of_name(name: Seq<char>) -> Option<NetworkScope> {
    if name == "none"@ {
        Some(NetworkScope::NoNetwork)
    } else if name == "group"@ {
        Some(NetworkScope::Group)
    } else if name == "public"@ {
        Some(NetworkScope::Public)
    } else if name == "any"@ {
        Some(NetworkScope::Any)
    } else {
        None
    }
}

/// The scope a number names.
pub open spec fn scope_of_number(n: u8) -> Option<NetworkScope> {
    if n == 0 {
        Some(NetworkScope::NoNetwork)
    } else if n == 1 {
        Some(NetworkScope::Group)
    } else if n == 2 {
        Some(NetworkScope::Public)
    } else if n == 3 {
        Some(NetworkScope::Any)
    } else {
        None
    }
}

/// The names of the scopes are distinct and made of lowercase ASCII letters.
proof fn lemma_scope_names()
    ensures
        forall|s: NetworkScope| scope_of_name(#[trigger] scope_name(s)) == Some(s),
        forall|s: NetworkScope, i: int|
            0 <= i < scope_name(s).len() ==> 'a' <= #[trigger] scope_name(s)[i] <= 'z',
{
    reveal_strlit("none");
    reveal_strlit("group");
    reveal_strlit("public");
    reveal_strlit("any");
    assert("none"@.len() == 4 && "group"@.len() == 5 && "public"@.len() == 6 && "any"@.len() == 3);
    assert forall|s: NetworkScope, i: int|
        0 <= i < scope_name(s).len() implies 'a' <= #[trigger] scope_name(s)[i] <= 'z' by {
        match s {
            NetworkScope::NoNetwork => {},
            NetworkScope::Group => {},
            NetworkScope::Public => {},
            NetworkScope::Any => {},
        }
    }
}

impl NetworkScope {
    /// The default scope: public.
    pub fn default_scope() -> (r: Self)
        ensures
            r == default_network_scope(),
    {
        NetworkScope::Public
    }

    /// Parse a scope from its name, in any case. The name of every scope parses
    /// back to that scope.
    pub fn try_from_str(s: &str) -> (r: Result<Self, MicrosandboxError>)
        ensures
            scope_of_name(lowercased_text(s@)) matches Some(sc) ==> r == Ok::<
                NetworkScope,
                MicrosandboxError,
            >(sc),
            scope_of_name(lowercased_text(s@)) is None ==> (r matches Err(
                MicrosandboxError::InvalidNetworkScope(t),
            ) && t@ == s@),
            forall|sc: NetworkScope| s@ == scope_name(sc) ==> r == Ok::<NetworkScope, MicrosandboxError>(sc),
            is_ascii_text(s@) ==> match scope_of_name(ascii_lowercase(s@)) {
                Some(sc) => r == Ok::<NetworkScope, MicrosandboxError>(sc),
                None => r is Err,
            },
    {
        proof {
            lemma_scope_names();
            lemma_lowercase_letters_unchanged(s@);
        }
        let lowered = std_to_lowercase(s);
        let l = lowered.as_str();
        if str_equal(l, "none") {
            Ok(NetworkScope::NoNetwork)
        } else if str_equal(l, "group") {
            Ok(NetworkScope::Group)
        } else if str_equal(l, "public") {
            Ok(NetworkScope::Public)
        } else if str_equal(l, "any") {
            Ok(NetworkScope::Any)
        } else {
            Err(MicrosandboxError::InvalidNetworkScope(String::from_str(s)))
        }
    }

    /// Convert a number to a scope.
    pub fn try_from_u8(u: u8) -> (r: Result<Self, MicrosandboxError>)
        ensures
            scope_of_number(u) matches Some(sc) ==> r == Ok::<NetworkScope, MicrosandboxError>(sc),
            scope_of_number(u) is None ==> (r matches Err(MicrosandboxError::InvalidNetworkScope(t))
                && t@ == decimal_text(u as nat)),
    {
        match u {
            0 => Ok(NetworkScope::NoNetwork),
            1 => Ok(NetworkScope::Group),
            2 => Ok(NetworkScope::Public),
            3 => Ok(NetworkScope::Any),
            _ => Err(MicrosandboxError::InvalidNetworkScope(decimal_string(u as u64))),
        }
    }

    /// The number of the scope.
    pub fn as_u8(&self) -> (r: u8)
        ensures
            r == scope_number(*self),
    {
        match self {
            NetworkScope::NoNetwork => 0,
            NetworkScope::Group => 1,
            NetworkScope::Public => 2,
            NetworkScope::Any => 3,
        }
    }

    /// The name of the scope.
    pub fn to_string(&self) -> (r: String)
        ensures
            r@ == scope_name(*self),
    {
        match self {
            NetworkScope::NoNetwork => String::from_str("none"),
            NetworkScope::Group => String::from_str("group"),
            NetworkScope::Public => String::from_str("public"),
            NetworkScope::Any => String::from_str("any"),
        }
    }
}

impl std::str::FromStr for NetworkScope {
    type Err = MicrosandboxError;

    /// Parse a scope from its name, in any case (see `try_from_str`).
    fn from_str(s: &str) -> (r: Result<Self, Self::Err>)
        ensures
            scope_of_name(lowercased_text(s@)) matches Some(sc) ==> r == Ok::<
                NetworkScope,
                MicrosandboxError,
            >(sc),
            scope_of_name(lowercased_text(s@)) is None ==> (r matches Err(
                MicrosandboxError::InvalidNetworkScope(t),
            ) && t@ == s@),
            forall|sc: NetworkScope| s@ == scope_name(sc) ==> r == Ok::<NetworkScope, MicrosandboxError>(sc),
            is_ascii_text(s@) ==> match scope_of_name(ascii_lowercase(s@)) {
                Some(sc) => r == Ok::<NetworkScope, MicrosandboxError>(sc),
                None => r is Err,
            },
    {
        NetworkScope::try_from_str(s)
    }
}

/// A scope's number converts back to the scope, and the numbers of distinct
/// scopes differ.
pub proof fn lemma_scope_number_round_trip(s: NetworkScope, t: NetworkScope)
    ensures
        scope_of_number(scope_number(s)) == Some(s),
        scope_number(s) == scope_number(t) ==> s == t,
{
}

/// A scope's name parses back to the scope, and the names of distinct scopes differ.
pub proof fn lemma_scope_name_round_trip(s: NetworkScope, t: NetworkScope)
    ensures
        scope_of_name(scope_name(s)) == Some(s),
        scope_name(s) == scope_name(t) ==> s == t,
{
    lemma_scope_names();
    assert(scope_of_name(scope_name(s)) == Some(s));
    assert(scope_of_name(scope_name(t)) == Some(t));
}

//--------------------------------------------------------------------------------------------------
// Modules
//--------------------------------------------------------------------------------------------------

/// The mapping of a component imported from a module.
pub struct ComponentMapping {
    /// The name under which the component is imported.
    pub as_: Option<String>,
}

/// The components imported from a module, by name, each with its mapping.
pub struct Module(pub Vec<(String, Option<ComponentMapping>)>);

/// Descriptive metadata of a project or a sandbox.
pub struct Meta {
    /// The authors.
    pub authors: Option<Vec<String>>,
    /// A description.
    pub description: Option<String>,
    /// The homepage.
    pub homepage: Option<String>,
    /// The repository.
    pub repository: Option<String>,
    /// The path to the readme file.
    pub readme: Option<String>,
    /// The tags.
    pub tags: Option<Vec<String>>,
    /// The path to the icon file.
    pub icon: Option<String>,
}

//--------------------------------------------------------------------------------------------------
// Builds
//--------------------------------------------------------------------------------------------------

/// The configuration of a build.
pub struct Build {
    /// The image: a reference or a path to a root filesystem.
    pub image: String,
    /// The amount of memory in MiB to use.
    pub memory: Option<u32>,
    /// The number of vCPUs to use.
    pub cpus: Option<u8>,
    /// The volumes to mount.
    pub volumes: Vec<String>,
    /// The ports to expose.
    pub ports: Vec<String>,
    /// The environment variables to use.
    pub envs: Vec<String>,
    /// The builds this one depends on.
    pub depends_on: Vec<String>,
    /// The working directory to use.
    pub workdir: Option<String>,
    /// The shell to use.
    pub shell: Option<String>,
    /// The steps of the build.
    pub steps: Vec<String>,
    /// The command to run and its arguments.
    pub command: Vec<String>,
    /// The files imported into the build, by name.
    pub imports: Vec<(String, String)>,
    /// The files exported from the build, by name.
    pub exports: Vec<(String, String)>,
}

//--------------------------------------------------------------------------------------------------
// Sandboxes
//--------------------------------------------------------------------------------------------------

/// The configuration of a sandbox.
pub struct Sandbox {
    /// The version of the sandbox.
    pub version: Option<String>,
    /// The metadata of the sandbox.
    pub meta: Option<Meta>,
    /// The image: a reference or a path to a root filesystem.
    pub image: String,
    /// The amount of memory in MiB to use.
    pub memory: Option<u32>,
    /// The number of vCPUs to use.
    pub cpus: Option<u8>,
    /// The volumes to mount.
    pub volumes: Vec<String>,
    /// The ports to expose.
    pub ports: Vec<String>,
    /// The environment variables to use.
    pub envs: Vec<String>,
    /// The sandboxes this one depends on.
    pub depends_on: Vec<String>,
    /// The working directory to use.
    pub workdir: Option<String>,
    /// The shell to use.
    pub shell: Option<String>,
    /// The scripts that can be run, by name.
    pub scripts: Vec<(String, String)>,
    /// The command to run and its arguments.
    pub command: Vec<String>,
    /// The files imported into the sandbox, by name.
    pub imports: Vec<(String, String)>,
    /// The files exported from the sandbox, by name.
    pub exports: Vec<(String, String)>,
    /// The network scope.
    pub scope: NetworkScope,
}

/// A script of this name is defined.
pub open spec fn has_script(scripts: Seq<(String, String)>, name: Seq<char>) -> bool {
    exists|i: int| 0 <= i < scripts.len() && (#[trigger] scripts[i]).0@ == name
}

/// Whether a script of this name is defined.
pub fn script_defined(scripts: &Vec<(String, String)>, name: &str) -> (r: bool)
    ensures
        r == has_script(scripts@, name@),
{
    let mut i: usize = 0;
    while i < scripts.len()
        invariant
            i <= scripts@.len(),
            forall|j: int| 0 <= j < i ==> (#[trigger] scripts@[j]).0@ != name@,
        decreases scripts@.len() - i,
    {
        if str_equal(scripts[i].0.as_str(), name) {
            return true;
        }
        i = i + 1;
    }
    false
}

/// A sandbox can be started: it has a start script, a command or a shell.
pub open spec fn startable(s: Sandbox) -> bool {
    has_script(s.scripts@, "start"@) || s.command@.len() > 0 || s.shell is Some
}

impl Sandbox {
    /// The scripts, imports and exports each name an entry at most once, as the
    /// maps they stand for.
    pub open spec fn maps_distinct(&self) -> bool {
        keys_distinct(self.scripts@) && keys_distinct(self.imports@) && keys_distinct(self.exports@)
    }

    /// Validate the sandbox configuration: it needs a start script, a command or a shell.
    pub fn validate(&self) -> (r: Result<(), MicrosandboxError>)
        ensures
            r is Ok <==> startable(*self),
            r matches Err(e) ==> e is MissingStartOrExecOrShell,
    {
        if !script_defined(&self.scripts, START_SCRIPT_NAME) && self.command.len() == 0
            && self.shell.is_none() {
            return Err(MicrosandboxError::MissingStartOrExecOrShell);
        }
        Ok(())
    }
}

/// The configuration of a project: its metadata, and its modules, builds and
/// sandboxes, by name.
pub struct Microsandbox {
    /// The metadata of the project.
    pub meta: Option<Meta>,
    /// The modules to import, by name.
    pub modules: Vec<(String, Module)>,
    /// The builds, by name.
    pub builds: Vec<(String, Build)>,
    /// The sandboxes, by name.
    pub sandboxes: Vec<(String, Sandbox)>,
}

/// The index of the first build of this name.
pub open spec fn first_named_build(builds: Seq<(String, Build)>, name: Seq<char>, i: int) -> bool {
    0 <= i < builds.len() && builds[i].0@ == name && forall|j: int|
        0 <= j < i ==> (#[trigger] builds[j]).0@ != name
}

/// A build of this name is configured.
pub open spec fn has_build(builds: Seq<(String, Build)>, name: Seq<char>) -> bool {
    exists|i: int| 0 <= i < builds.len() && (#[trigger] builds[i]).0@ == name
}

/// The index of the first sandbox of this name.
pub open spec fn first_named(sandboxes: Seq<(String, Sandbox)>, name: Seq<char>, i: int) -> bool {
    0 <= i < sandboxes.len() && sandboxes[i].0@ == name && forall|j: int|
        0 <= j < i ==> (#[trigger] sandboxes[j]).0@ != name
}

/// A sandbox of this name is configured.
pub open spec fn has_sandbox(sandboxes: Seq<(String, Sandbox)>, name: Seq<char>) -> bool {
    exists|i: int| 0 <= i < sandboxes.len() && (#[trigger] sandboxes[i]).0@ == name
}

impl Microsandbox {
    /// The modules, builds and sandboxes each name an entry at most once, as the
    /// maps they stand for.
    pub open spec fn maps_distinct(&self) -> bool {
        keys_distinct(self.modules@) && keys_distinct(self.builds@) && keys_distinct(self.sandboxes@)
    }

    /// The maximum depth of dependencies between sandboxes.
    pub const MAX_DEPENDENCY_DEPTH: usize = 32;

    /// Get a sandbox configuration by name.
    pub fn get_sandbox(&self, sandbox_name: &str) -> (r: Option<&Sandbox>)
        ensures
            r is None <==> !has_sandbox(self.sandboxes@, sandbox_name@),
            r matches Some(s) ==> exists|i: int|
                first_named(self.sandboxes@, sandbox_name@, i) && *s == self.sandboxes@[i].1,
            keys_distinct(self.sandboxes@) ==> (r matches Some(s) ==> forall|i: int|
                0 <= i < self.sandboxes@.len() && (#[trigger] self.sandboxes@[i]).0@ == sandbox_name@
                    ==> *s == self.sandboxes@[i].1),
    {
        let mut i: usize = 0;
        while i < self.sandboxes.len()
            invariant
                i <= self.sandboxes@.len(),
                forall|j: int| 0 <= j < i ==> (#[trigger] self.sandboxes@[j]).0@ != sandbox_name@,
            decreases self.sandboxes@.len() - i,
        {
            if str_equal(self.sandboxes[i].0.as_str(), sandbox_name) {
                assert(first_named(self.sandboxes@, sandbox_name@, i as int));
                return Some(&self.sandboxes[i].1);
            }
            i = i + 1;
        }
        None
    }

    /// Get a build configuration by name.
    pub fn get_build(&self, build_name: &str) -> (r: Option<&Build>)
        ensures
            r is None <==> !has_build(self.builds@, build_name@),
            r matches Some(b) ==> exists|i: int|
                first_named_build(self.builds@, build_name@, i) && *b == self.builds@[i].1,
            keys_distinct(self.builds@) ==> (r matches Some(b) ==> forall|i: int|
                0 <= i < self.builds@.len() && (#[trigger] self.builds@[i]).0@ == build_name@
                    ==> *b == self.builds@[i].1),
    {
        let mut i: usize = 0;
        while i < self.builds.len()
            invariant
                i <= self.builds@.len(),
                forall|j: int| 0 <= j < i ==> (#[trigger] self.builds@[j]).0@ != build_name@,
            decreases self.builds@.len() - i,
        {
            if str_equal(self.builds[i].0.as_str(), build_name) {
                assert(first_named_build(self.builds@, build_name@, i as int));
                return Some(&self.builds[i].1);
            }
            i = i + 1;
        }
        None
    }

    /// Validate the configuration: every sandbox must be startable.
    pub fn validate(&self) -> (r: Result<(), MicrosandboxError>)
        ensures
            r is Ok <==> forall|i: int|
                0 <= i < self.sandboxes@.len() ==> startable(#[trigger] self.sandboxes@[i].1),
            r matches Err(e) ==> e is MissingStartOrExecOrShell,
    {
        let mut i: usize = 0;
        while i < self.sandboxes.len()
            invariant
                i <= self.sandboxes@.len(),
                forall|j: int| 0 <= j < i ==> startable(#[trigger] self.sandboxes@[j].1),
            decreases self.sandboxes@.len() - i,
        {
            self.sandboxes[i].1.validate()?;
            i = i + 1;
        }
        Ok(())
    }
}

//--------------------------------------------------------------------------------------------------
// What a sandbox runs
//--------------------------------------------------------------------------------------------------

/// The path inside the sandbox of the script of this name.
pub open spec fn script_path(name: Seq<char>) -> Seq<char> {
    ".sandbox"@ + "/"@ + "scripts"@ + "/"@ + name
}

fn script_path_of(name: &str) -> (r: String)
    ensures
        r@ == script_path(name@),
{
    String::from_str(SANDBOX_DIR).concat("/").concat(SCRIPTS_DIR).concat("/").concat(name)
}

/// Determine what runs in a sandbox: the `exec` command where one is given;
/// else the named script (which must be defined, unless it is the shell); else
/// the start script where one is defined; else the configured command and its
/// arguments; else the shell.
pub fn determine_exec_path_and_args(
    exec: Option<&str>,
    script_name: Option<&str>,
    sandbox_config: &Sandbox,
    sandbox_name: &str,
) -> (r: Result<(String, Vec<String>), MicrosandboxError>)
    ensures
        exec matches Some(e) ==> (r matches Ok((p, a)) && p@ == e@ && a@.len() == 0),
        exec is None ==> (script_name matches Some(s) ==> if s@ != "shell"@ && !has_script(
            sandbox_config.scripts@,
            s@,
        ) {
            r matches Err(MicrosandboxError::ScriptNotFoundInSandbox(n, b)) && n@ == s@ && b@
                == sandbox_name@
        } else {
            r matches Ok((p, a)) && p@ == script_path(s@) && a@.len() == 0
        }),
        exec is None && script_name is None ==> if has_script(sandbox_config.scripts@, "start"@) {
            r matches Ok((p, a)) && p@ == script_path("start"@) && a@.len() == 0
        } else if sandbox_config.command@.len() > 0 {
            r matches Ok((p, a)) && p@ == sandbox_config.command@[0]@ && a@.len()
                == sandbox_config.command@.len() - 1 && forall|i: int|
                0 <= i < a@.len() ==> (#[trigger] a@[i])@ == sandbox_config.command@[i + 1]@
        } else if sandbox_config.shell is Some {
            r matches Ok((p, a)) && p@ == sandbox_config.shell->0@ && a@.len() == 0
        } else {
            r matches Err(e) && e is MissingStartOrExecOrShell
        },
{
    match exec {
        Some(e) => Ok((String::from_str(e), Vec::new())),
        None => match script_name {
            Some(s) => {
                if !str_equal(s, SHELL_SCRIPT_NAME) && !script_defined(&sandbox_config.scripts, s) {
                    return Err(
                        MicrosandboxError::ScriptNotFoundInSandbox(
                            String::from_str(s),
                            String::from_str(sandbox_name),
                        ),
                    );
                }
                Ok((script_path_of(s), Vec::new()))
            },
            None => {
                if script_defined(&sandbox_config.scripts, START_SCRIPT_NAME) {
                    return Ok((script_path_of(START_SCRIPT_NAME), Vec::new()));
                }
                let command = &sandbox_config.command;
                if command.len() > 0 {
                    let cmd = command[0].clone();
                    let mut args: Vec<String> = Vec::new();
                    let mut i: usize = 1;
                    while i < command.len()
                        invariant
                            1 <= i <= command@.len(),
                            args@.len() == i - 1,
                            forall|j: int| 0 <= j < args@.len() ==> (#[trigger] args@[j])@ == command@[j + 1]@,
                        decreases command@.len() - i,
                    {
                        args.push(command[i].clone());
                        i = i + 1;
                    }
                    Ok((cmd, args))
                } else {
                    match &sandbox_config.shell {
                        Some(sh) => Ok((sh.clone(), Vec::new())),
                        None => Err(MicrosandboxError::MissingStartOrExecOrShell),
                    }
                }
            },
        },
    }
}

//--------------------------------------------------------------------------------------------------
// Requested sandboxes
//--------------------------------------------------------------------------------------------------

/// The names, in order, joined by `, `.
pub open spec fn joined(names: Seq<String>) -> Seq<char>
    decreases names.len(),
{
    if names.len() == 0 {
        Seq::empty()
    } else if names.len() == 1 {
        names[0]@
    } else {
        joined(names.drop_last()) + ", "@ + names.last()@
    }
}

/// The requested names that the configuration does not define, in order.
pub open spec fn missing_names(requested: Seq<String>, config: Seq<(String, Sandbox)>) -> Seq<String>
    decreases requested.len(),
{
    if requested.len() == 0 {
        Seq::empty()
    } else {
        let rest = missing_names(requested.drop_last(), config);
        if has_sandbox(config, requested.last()@) {
            rest
        } else {
            rest.push(requested.last())
        }
    }
}

/// Validate that all requested sandbox names exist in the configuration; the
/// error lists the missing ones and the configuration file's path.
pub fn validate_sandbox_names(sandbox_names: &Vec<String>, config: &Microsandbox, config_path: &str) -> (r: Result<(), MicrosandboxError>)
    ensures
        missing_names(sandbox_names@, config.sandboxes@).len() == 0 ==> r is Ok,
        missing_names(sandbox_names@, config.sandboxes@).len() > 0 ==> (r matches Err(
            MicrosandboxError::SandboxNotFoundInConfig(names, path),
        ) && names@ == joined(missing_names(sandbox_names@, config.sandboxes@)) && path@ == config_path@),
{
    let mut missing: Vec<String> = Vec::new();
    let mut text = String::new();
    let mut i: usize = 0;
    while i < sandbox_names.len()
        invariant
            i <= sandbox_names@.len(),
            missing@ == missing_names(sandbox_names@.take(i as int), config.sandboxes@),
            text@ == joined(missing@),
        decreases sandbox_names@.len() - i,
    {
        assert(sandbox_names@.take(i + 1).drop_last() =~= sandbox_names@.take(i as int));
        let name = &sandbox_names[i];
        let found = config.get_sandbox(name.as_str()).is_some();
        if !found {
            let ghost before = missing@;
            let ghost before_text = text@;
            if missing.len() > 0 {
                text = text.concat(", ");
            }
            text = text.concat(name.as_str());
            missing.push(name.clone());
            assert(missing@.drop_last() =~= before);
            proof {
                if before.len() == 0 {
                    assert(text@ =~= name@);
                } else {
                    assert(text@ =~= before_text + ", "@ + name@);
                }
            }
        }
        i = i + 1;
    }
    assert(sandbox_names@.take(sandbox_names@.len() as int) =~= sandbox_names@);
    if missing.len() > 0 {
        return Err(MicrosandboxError::SandboxNotFoundInConfig(text, String::from_str(config_path)));
    }
    Ok(())
}


//--------------------------------------------------------------------------------------------------
// Builders
//--------------------------------------------------------------------------------------------------

/// The shell a sandbox gets unless it is given another.
pub const DEFAULT_SHELL: &'static str = "/bin/sh";

/// Builder for a sandbox configuration. The image is given before `build`
/// can be called: `I` is `()` until then, and `String` after.
pub struct SandboxBuilder<I> {
    /// The version
    pub version: Option<String>,
    /// The metadata
    pub meta: Option<Meta>,
    /// The image
    pub image: I,
    /// The amount of memory in MiB
    pub memory: Option<u32>,
    /// The number of vCPUs
    pub cpus: Option<u8>,
    /// The volumes
    pub volumes: Vec<String>,
    /// The ports
    pub ports: Vec<String>,
    /// The environment variables
    pub envs: Vec<String>,
    /// The environment file
    pub env_file: Option<String>,
    /// The sandboxes depended on
    pub depends_on: Vec<String>,
    /// The working directory
    pub workdir: Option<String>,
    /// The shell
    pub shell: Option<String>,
    /// The scripts, by name
    pub scripts: Vec<(String, String)>,
    /// The command
    pub command: Vec<String>,
    /// The imports, by name
    pub imports: Vec<(String, String)>,
    /// The exports, by name
    pub exports: Vec<(String, String)>,
    /// The network scope
    pub scope: NetworkScope,
}

impl Default for SandboxBuilder<()> {
    /// A builder with nothing set but the default shell and scope.
    fn default() -> (r: Self)
        ensures
            r.version is None && r.meta is None && r.env_file is None,
            r.memory is None && r.cpus is None && r.workdir is None,
            r.volumes@.len() == 0 && r.ports@.len() == 0 && r.envs@.len() == 0,
            r.depends_on@.len() == 0 && r.scripts@.len() == 0 && r.command@.len() == 0,
            r.imports@.len() == 0 && r.exports@.len() == 0,
            r.shell matches Some(sh) && sh@ == "/bin/sh"@,
            r.scope == default_network_scope(),
    {
        SandboxBuilder {
            version: None,
            meta: None,
            image: (),
            memory: None,
            cpus: None,
            volumes: Vec::new(),
            ports: Vec::new(),
            envs: Vec::new(),
            env_file: None,
            depends_on: Vec::new(),
            workdir: None,
            shell: Some(String::from_str(DEFAULT_SHELL)),
            scripts: Vec::new(),
            command: Vec::new(),
            imports: Vec::new(),
            exports: Vec::new(),
            scope: NetworkScope::Public,
        }
    }
}

impl Sandbox {
    /// A builder with nothing set but the default shell and scope.
    pub fn builder() -> (r: SandboxBuilder<()>)
        ensures
            r.version is None && r.meta is None && r.env_file is None,
            r.memory is None && r.cpus is None && r.workdir is None,
            r.volumes@.len() == 0 && r.ports@.len() == 0 && r.envs@.len() == 0,
            r.depends_on@.len() == 0 && r.scripts@.len() == 0 && r.command@.len() == 0,
            r.imports@.len() == 0 && r.exports@.len() == 0,
            r.shell matches Some(sh) && sh@ == "/bin/sh"@,
            r.scope == default_network_scope(),
    {
        SandboxBuilder::default()
    }
}

impl<I> SandboxBuilder<I> {
    /// Set the image.
    pub fn image(self, image: String) -> (r: SandboxBuilder<String>)
        ensures
            r.image == image,
            r.version == self.version && r.meta == self.meta && r.env_file == self.env_file,
            r.memory == self.memory && r.cpus == self.cpus && r.volumes == self.volumes,
            r.ports == self.ports && r.envs == self.envs && r.depends_on == self.depends_on,
            r.workdir == self.workdir && r.shell == self.shell && r.scripts == self.scripts,
            r.command == self.command && r.imports == self.imports && r.exports == self.exports,
            r.scope == self.scope,
    {
        SandboxBuilder {
            version: self.version,
            meta: self.meta,
            image,
            memory: self.memory,
            cpus: self.cpus,
            volumes: self.volumes,
            ports: self.ports,
            envs: self.envs,
            env_file: self.env_file,
            depends_on: self.depends_on,
            workdir: self.workdir,
            shell: self.shell,
            scripts: self.scripts,
            command: self.command,
            imports: self.imports,
            exports: self.exports,
            scope: self.scope,
        }
    }

    /// Set the version.
    pub fn version(self, version: String) -> (r: Self)
        ensures
            r == (SandboxBuilder { version: Some(version), ..self }),
    {
        SandboxBuilder { version: Some(version), ..self }
    }

    /// Set the metadata.
    pub fn meta(self, meta: Meta) -> (r: Self)
        ensures
            r == (SandboxBuilder { meta: Some(meta), ..self }),
    {
        SandboxBuilder { meta: Some(meta), ..self }
    }

    /// Set the environment file.
    pub fn env_file(self, env_file: String) -> (r: Self)
        ensures
            r == (SandboxBuilder { env_file: Some(env_file), ..self }),
    {
        SandboxBuilder { env_file: Some(env_file), ..self }
    }

    /// Set the memory in MiB.
    pub fn memory(self, memory: u32) -> (r: Self)
        ensures
            r == (SandboxBuilder { memory: Some(memory), ..self }),
    {
        SandboxBuilder { memory: Some(memory), ..self }
    }

    /// Set the number of vCPUs.
    pub fn cpus(self, cpus: u8) -> (r: Self)
        ensures
            r == (SandboxBuilder { cpus: Some(cpus), ..self }),
    {
        SandboxBuilder { cpus: Some(cpus), ..self }
    }

    /// Set the volumes.
    pub fn volumes(self, volumes: Vec<String>) -> (r: Self)
        ensures
            r == (SandboxBuilder { volumes, ..self }),
    {
        SandboxBuilder { volumes, ..self }
    }

    /// Set the ports.
    pub fn ports(self, ports: Vec<String>) -> (r: Self)
        ensures
            r == (SandboxBuilder { ports, ..self }),
    {
        SandboxBuilder { ports, ..self }
    }

    /// Set the environment variables.
    pub fn envs(self, envs: Vec<String>) -> (r: Self)
        ensures
            r == (SandboxBuilder { envs, ..self }),
    {
        SandboxBuilder { envs, ..self }
    }

    /// Set the sandboxes depended on.
    pub fn depends_on(self, depends_on: Vec<String>) -> (r: Self)
        ensures
            r == (SandboxBuilder { depends_on, ..self }),
    {
        SandboxBuilder { depends_on, ..self }
    }

    /// Set the working directory.
    pub fn workdir(self, workdir: String) -> (r: Self)
        ensures
            r == (SandboxBuilder { workdir: Some(workdir), ..self }),
    {
        SandboxBuilder { workdir: Some(workdir), ..self }
    }

    /// Set the shell.
    pub fn shell(self, shell: &str) -> (r: Self)
        ensures
            r.shell matches Some(sh) && sh@ == shell@,
            r == (SandboxBuilder { shell: r.shell, ..self }),
    {
        SandboxBuilder { shell: Some(String::from_str(shell)), ..self }
    }

    /// Set the scripts, collected by name: where a name occurs more than once, its
    /// last entry is the one that stays.
    pub fn scripts(self, scripts: Vec<(String, String)>) -> (r: Self)
        ensures
            r.scripts@ == collected_entries(scripts@),
            keys_distinct(r.scripts@),
            forall|x: Seq<char>| has_key(r.scripts@, x) <==> has_key(scripts@, x),
            r == (SandboxBuilder { scripts: r.scripts, ..self }),
    {
        SandboxBuilder { scripts: collect_entries(scripts), ..self }
    }

    /// Set the command.
    pub fn command(self, command: Vec<String>) -> (r: Self)
        ensures
            r == (SandboxBuilder { command, ..self }),
    {
        SandboxBuilder { command, ..self }
    }

    /// Set the imports, collected by name: where a name occurs more than once, its
    /// last entry is the one that stays.
    pub fn imports(self, imports: Vec<(String, String)>) -> (r: Self)
        ensures
            r.imports@ == collected_entries(imports@),
            keys_distinct(r.imports@),
            forall|x: Seq<char>| has_key(r.imports@, x) <==> has_key(imports@, x),
            r == (SandboxBuilder { imports: r.imports, ..self }),
    {
        SandboxBuilder { imports: collect_entries(imports), ..self }
    }

    /// Set the exports, collected by name: where a name occurs more than once, its
    /// last entry is the one that stays.
    pub fn exports(self, exports: Vec<(String, String)>) -> (r: Self)
        ensures
            r.exports@ == collected_entries(exports@),
            keys_distinct(r.exports@),
            forall|x: Seq<char>| has_key(r.exports@, x) <==> has_key(exports@, x),
            r == (SandboxBuilder { exports: r.exports, ..self }),
    {
        SandboxBuilder { exports: collect_entries(exports), ..self }
    }

    /// Set the network scope.
    pub fn scope(self, scope: NetworkScope) -> (r: Self)
        ensures
            r == (SandboxBuilder { scope, ..self }),
    {
        SandboxBuilder { scope, ..self }
    }
}

impl SandboxBuilder<String> {
    /// Build the sandbox configuration.
    pub fn build(self) -> (r: Sandbox)
        ensures
            r == (Sandbox {
                version: self.version,
                meta: self.meta,
                image: self.image,
                memory: self.memory,
                cpus: self.cpus,
                volumes: self.volumes,
                ports: self.ports,
                envs: self.envs,
                depends_on: self.depends_on,
                workdir: self.workdir,
                shell: self.shell,
                scripts: self.scripts,
                command: self.command,
                imports: self.imports,
                exports: self.exports,
                scope: self.scope,
            }),
            r.maps_distinct() <==> keys_distinct(self.scripts@) && keys_distinct(self.imports@)
                && keys_distinct(self.exports@),
    {
        Sandbox {
            version: self.version,
            meta: self.meta,
            image: self.image,
            memory: self.memory,
            cpus: self.cpus,
            volumes: self.volumes,
            ports: self.ports,
            envs: self.envs,
            depends_on: self.depends_on,
            workdir: self.workdir,
            shell: self.shell,
            scripts: self.scripts,
            command: self.command,
            imports: self.imports,
            exports: self.exports,
            scope: self.scope,
        }
    }
}

/// Builder for a project configuration.
pub struct MicrosandboxBuilder {
    /// The metadata
    pub meta: Option<Meta>,
    /// The modules, by name
    pub modules: Vec<(String, Module)>,
    /// The builds, by name
    pub builds: Vec<(String, Build)>,
    /// The sandboxes, by name
    pub sandboxes: Vec<(String, Sandbox)>,
}

impl Default for MicrosandboxBuilder {
    /// A builder with no metadata, modules, builds or sandboxes.
    fn default() -> (r: Self)
        ensures
            r.meta is None,
            r.modules@.len() == 0 && r.builds@.len() == 0 && r.sandboxes@.len() == 0,
    {
        MicrosandboxBuilder { meta: None, modules: Vec::new(), builds: Vec::new(), sandboxes: Vec::new() }
    }
}

impl Microsandbox {
    /// A builder with no metadata, modules, builds or sandboxes.
    pub fn builder() -> (r: MicrosandboxBuilder)
        ensures
            r.meta is None,
            r.modules@.len() == 0 && r.builds@.len() == 0 && r.sandboxes@.len() == 0,
    {
        MicrosandboxBuilder::default()
    }
}

impl MicrosandboxBuilder {
    /// Set the metadata.
    pub fn meta(self, meta: Meta) -> (r: Self)
        ensures
            r == (MicrosandboxBuilder { meta: Some(meta), ..self }),
    {
        MicrosandboxBuilder { meta: Some(meta), ..self }
    }

    /// Set the modules, collected by name: where a name occurs more than once, its
    /// last entry is the one that stays.
    pub fn modules(self, modules: Vec<(String, Module)>) -> (r: Self)
        ensures
            r.modules@ == collected_entries(modules@),
            keys_distinct(r.modules@),
            forall|x: Seq<char>| has_key(r.modules@, x) <==> has_key(modules@, x),
            r == (MicrosandboxBuilder { modules: r.modules, ..self }),
    {
        MicrosandboxBuilder { modules: collect_entries(modules), ..self }
    }

    /// Set the builds, collected by name: where a name occurs more than once, its
    /// last entry is the one that stays.
    pub fn builds(self, builds: Vec<(String, Build)>) -> (r: Self)
        ensures
            r.builds@ == collected_entries(builds@),
            keys_distinct(r.builds@),
            forall|x: Seq<char>| has_key(r.builds@, x) <==> has_key(builds@, x),
            r == (MicrosandboxBuilder { builds: r.builds, ..self }),
    {
        MicrosandboxBuilder { builds: collect_entries(builds), ..self }
    }

    /// Set the sandboxes, collected by name: where a name occurs more than once, its
    /// last entry is the one that stays.
    pub fn sandboxes(self, sandboxes: Vec<(String, Sandbox)>) -> (r: Self)
        ensures
            r.sandboxes@ == collected_entries(sandboxes@),
            keys_distinct(r.sandboxes@),
            forall|x: Seq<char>| has_key(r.sandboxes@, x) <==> has_key(sandboxes@, x),
            r == (MicrosandboxBuilder { sandboxes: r.sandboxes, ..self }),
    {
        MicrosandboxBuilder { sandboxes: collect_entries(sandboxes), ..self }
    }

    /// Build the configuration without validating it.
    pub fn build_unchecked(self) -> (r: Microsandbox)
        ensures
            r.maps_distinct() <==> keys_distinct(self.modules@) && keys_distinct(self.builds@)
                && keys_distinct(self.sandboxes@),
            r == (Microsandbox {
                meta: self.meta,
                modules: self.modules,
                builds: self.builds,
                sandboxes: self.sandboxes,
            }),
    {
        Microsandbox {
            meta: self.meta,
            modules: self.modules,
            builds: self.builds,
            sandboxes: self.sandboxes,
        }
    }

    /// Build the configuration, which must validate.
    pub fn build(self) -> (r: Result<Microsandbox, MicrosandboxError>)
        ensures
            r is Ok <==> forall|i: int|
                0 <= i < self.sandboxes@.len() ==> startable(#[trigger] self.sandboxes@[i].1),
            r matches Ok(m) ==> m == (Microsandbox {
                meta: self.meta,
                modules: self.modules,
                builds: self.builds,
                sandboxes: self.sandboxes,
            }),
            r matches Ok(m) ==> (m.maps_distinct() <==> keys_distinct(self.modules@) && keys_distinct(
                self.builds@,
            ) && keys_distinct(self.sandboxes@)),
            r matches Err(e) ==> e is MissingStartOrExecOrShell,
    {
        let microsandbox = self.build_unchecked();
        assert(microsandbox.sandboxes@ == self.sandboxes@);
        microsandbox.validate()?;
        Ok(microsandbox)
    }
}

} // verus!
