//! Sandboxes installed as commands: the name an installed sandbox is run by,
//! the command it runs, and the script that runs it.

use vstd::prelude::*;
use vstd::string::StringExecFns;

use crate::config::{
    default_network_scope, scope_of_name, NetworkScope, Sandbox,
};
use crate::error::MicrosandboxError;
use crate::oci::auth::extract_name_from_reference;
use crate::oci::reference::Reference;
use crate::text::{after_last, before_first, clone_strings, contains_text, has_infix, lowercased_text};
use crate::toolchain::ALIAS_MARKER;

verus! {

/// The directory under the user's home that holds microsandbox's files.
pub const MICROSANDBOX_HOME_DIR: &'static str = ".microsandbox";

/// The subdirectory of the microsandbox home that holds installed sandboxes.
pub const INSTALLS_SUBDIR: &'static str = "installs";

/// The name an installed sandbox is run by: the alias given, else the script,
/// else the image's name.
pub fn alias_name(alias: Option<&str>, script: Option<&str>, image: &Reference) -> (r: String)
    ensures
        r@ == match alias {
            Some(a) => a@,
            None => match script {
                Some(s) => s@,
                None => before_first(after_last(image.text(), '/'), ':'),
            },
        },
{
    match alias {
        Some(a) => String::from_str(a),
        None => match script {
            Some(s) => String::from_str(s),
            None => extract_name_from_reference(image),
        },
    }
}

/// The command an installed sandbox runs where `exec` is given: the program,
/// then its arguments.
pub fn install_command(exec: Option<&str>, args: &Vec<String>) -> (r: Option<Vec<String>>)
    ensures
        exec is None ==> r is None,
        exec matches Some(e) ==> (r matches Some(c) && c@.len() == args@.len() + 1 && c@[0]@ == e@
            && forall|i: int| 0 <= i < args@.len() ==> (#[trigger] c@[i + 1]) == args@[i]),
{
    match exec {
        Some(e) => {
            let mut command: Vec<String> = Vec::new();
            command.push(String::from_str(e));
            let rest = clone_strings(args);
            let mut i: usize = 0;
            while i < rest.len()
                invariant
                    i <= rest@.len(),
                    rest@ == args@,
                    command@.len() == i + 1,
                    command@[0]@ == e@,
                    forall|j: int| 0 <= j < i ==> (#[trigger] command@[j + 1]) == args@[j],
                decreases rest@.len() - i,
            {
                command.push(rest[i].clone());
                i = i + 1;
            }
            Some(command)
        },
        None => None,
    }
}

/// The `msb run` target of an alias: the sandbox, and the script where one is given.
pub open spec fn run_target(alias: Seq<char>, script: Option<Seq<char>>) -> Seq<char> {
    match script {
        Some(s) => alias + "~"@ + s,
        None => alias,
    }
}

/// The shell script that runs an installed sandbox.
pub open spec fn alias_script_text(alias: Seq<char>, script: Option<Seq<char>>) -> Seq<char> {
    "#!/bin/sh\n# MSB-ALIAS: "@ + alias + "\n# Alias for 'msb run "@ + run_target(alias, script)
        + "' from installed sandbox\n\n# Find the directory where this script is located\nSCRIPT_DIR=\"$(cd \"$(dirname \"$0\")\" && pwd)\"\n# Assuming msb is in the same directory as this script\nif [ -x \"$SCRIPT_DIR/msb\" ]; then\n  MSB_PATH=\"$SCRIPT_DIR/msb\"\nelse\n  # Otherwise, rely on PATH\n  MSB_PATH=\"msb\"\nfi\n\n"@
        + "exec \"$MSB_PATH\" run \""@ + run_target(alias, script)
        + "\" -f \"$HOME/.microsandbox/installs\" \"$@\""@ + "\n"@
}

/// Generate the shell script that runs an installed sandbox through `msb run`,
/// using the `msb` next to the script where there is one.
pub fn generate_alias_script(alias: &str, script: Option<&str>) -> (r: String)
    ensures
        r@ == alias_script_text(
            alias@,
            match script {
                Some(s) => Some(s@),
                None => None,
            },
        ),
{
    let target = match script {
        Some(s) => String::from_str(alias).concat("~").concat(s),
        None => String::from_str(alias),
    };
    String::from_str("#!/bin/sh\n# MSB-ALIAS: ").concat(alias).concat("\n# Alias for 'msb run ").concat(
        target.as_str(),
    ).concat(
        "' from installed sandbox\n\n# Find the directory where this script is located\nSCRIPT_DIR=\"$(cd \"$(dirname \"$0\")\" && pwd)\"\n# Assuming msb is in the same directory as this script\nif [ -x \"$SCRIPT_DIR/msb\" ]; then\n  MSB_PATH=\"$SCRIPT_DIR/msb\"\nelse\n  # Otherwise, rely on PATH\n  MSB_PATH=\"msb\"\nfi\n\n",
    ).concat("exec \"$MSB_PATH\" run \"").concat(target.as_str()).concat(
        "\" -f \"$HOME/.microsandbox/installs\" \"$@\"",
    ).concat("\n")
}

/// Refuse to install an alias that names a command that already exists.
pub fn check_alias_free(alias: &str, command_exists: bool) -> (r: Result<(), MicrosandboxError>)
    ensures
        r is Ok <==> !command_exists,
        r matches Err(e) ==> (e matches MicrosandboxError::CommandExists(n) && n@ == alias@),
{
    if command_exists {
        Err(MicrosandboxError::CommandExists(String::from_str(alias)))
    } else {
        Ok(())
    }
}

/// The configuration of a sandbox installed from `image`, or run once from it
/// in a temporary project: the resources, volumes, ports and environment given
/// (the volumes, ports and environment entries that parse), and its scope where
/// one is named. A scope name that is not known is refused.
pub fn install_sandbox(
    image: String,
    cpus: Option<u8>,
    memory: Option<u32>,
    workdir: Option<String>,
    volumes: Vec<String>,
    ports: Vec<String>,
    envs: Vec<String>,
    scope: Option<&str>,
) -> (r: Result<Sandbox, MicrosandboxError>)
    ensures
        scope matches Some(s) && scope_of_name(lowercased_text(s@)) is None <==> r is Err,
        r matches Err(e) ==> (e matches MicrosandboxError::InvalidNetworkScope(t) && scope matches Some(
            s,
        ) && t@ == s@),
        r matches Ok(sb) ==> {
            &&& sb.image == image && sb.cpus == cpus && sb.memory == memory && sb.workdir == workdir
            &&& sb.volumes@ == volumes@ && sb.ports@ == ports@ && sb.envs@ == envs@
            &&& sb.version is None && sb.meta is None
            &&& sb.depends_on@.len() == 0 && sb.scripts@.len() == 0 && sb.command@.len() == 0
            &&& sb.imports@.len() == 0 && sb.exports@.len() == 0
            &&& sb.shell matches Some(sh) && sh@ == "/bin/sh"@
            &&& sb.scope == match scope {
                Some(s) => scope_of_name(lowercased_text(s@)).unwrap(),
                None => default_network_scope(),
            }
        },
{
    let mut b = Sandbox::builder().image(image);
    if let Some(c) = cpus {
        b = b.cpus(c);
    }
    if let Some(m) = memory {
        b = b.memory(m);
    }
    if let Some(w) = workdir {
        b = b.workdir(w);
    }
    if volumes.len() > 0 {
        b = b.volumes(volumes);
    }
    if ports.len() > 0 {
        b = b.ports(ports);
    }
    if envs.len() > 0 {
        b = b.envs(envs);
    }
    if let Some(s) = scope {
        let parsed = NetworkScope::try_from_str(s)?;
        b = b.scope(parsed);
    }
    Ok(b.build())
}

/// Check that the script to uninstall is an installed sandbox's alias: it
/// exists (`content` is its text, `None` where there is no such file) and
/// carries the alias marker.
pub fn check_alias_uninstall(script_name: &str, script_path: &str, content: Option<&str>) -> (r: Result<
    (),
    MicrosandboxError,
>)
    ensures
        content is None ==> (r matches Err(MicrosandboxError::PathNotFound(m)) && m@ == "Script '"@
            + script_name@ + "' not found at "@ + script_path@),
        content matches Some(c) ==> (has_infix(c@, ALIAS_MARKER@) <==> r is Ok),
        content matches Some(c) ==> (!has_infix(c@, ALIAS_MARKER@) ==> (r matches Err(
            MicrosandboxError::InvalidArgument(m),
        ) && m@ == "Script '"@ + script_name@
            + "' is not a microsandbox alias (missing MSB-ALIAS marker)"@)),
{
    match content {
        None => Err(
            MicrosandboxError::PathNotFound(
                String::from_str("Script '").concat(script_name).concat("' not found at ").concat(
                    script_path,
                ),
            ),
        ),
        Some(c) => if contains_text(c, ALIAS_MARKER) {
            Ok(())
        } else {
            Err(
                MicrosandboxError::InvalidArgument(
                    String::from_str("Script '").concat(script_name).concat(
                        "' is not a microsandbox alias (missing MSB-ALIAS marker)",
                    ),
                ),
            )
        },
    }
}

/// Every alias script that installing writes carries the alias marker, so
/// uninstalling it by its name passes the check.
pub proof fn lemma_alias_script_marked(alias: Seq<char>, script: Option<Seq<char>>)
    ensures
        has_infix(alias_script_text(alias, script), ALIAS_MARKER@),
{
    reveal_strlit("# MSB-ALIAS:");
    reveal_strlit("#!/bin/sh\n# MSB-ALIAS: ");
    let text = alias_script_text(alias, script);
    let head = "#!/bin/sh\n# MSB-ALIAS: "@;
    let marker = ALIAS_MARKER@;
    assert(marker =~= "# MSB-ALIAS:"@);
    assert(text.subrange(0, head.len() as int) =~= head);
    assert(text.subrange(10, 10 + marker.len() as int) =~= marker) by {
        assert(text.subrange(10, 22) =~= head.subrange(10, 22));
    }
}

} // verus!
