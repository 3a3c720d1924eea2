//! The command line of the supervisor process that runs a sandbox.

use vstd::prelude::*;
use vstd::string::StringExecFns;

use crate::config::{scope_name, NetworkScope};
use crate::text::{
    after_first, before_first, decimal_string, decimal_text, has_prefix, lacks_char, split_once_char, texts,
};

verus! {

/// The root filesystem a sandbox runs on.
pub enum Rootfs {
    /// A directory on the host.
    Native(String),
    /// The layers of an image, stacked bottom to top.
    Overlayfs(Vec<String>),
}

/// What the supervisor of a sandbox is told.
pub struct SupervisorSpec {
    /// Directory for the sandbox's logs
    pub log_dir: String,
    /// The sandbox's name
    pub sandbox_name: String,
    /// The configuration file's name
    pub config_file: String,
    /// When the configuration was last modified (RFC 3339)
    pub config_last_modified: String,
    /// The sandbox database's path
    pub sandbox_db_path: String,
    /// The network scope
    pub scope: NetworkScope,
    /// The program to run
    pub exec_path: String,
    /// Number of vCPUs
    pub cpus: Option<u8>,
    /// Memory in MiB
    pub memory: Option<u32>,
    /// Working directory inside the sandbox
    pub workdir: Option<String>,
    /// Environment variables (`NAME=value`)
    pub envs: Vec<String>,
    /// Port mappings
    pub ports: Vec<String>,
    /// Mapped directories (`host:guest`, host paths made absolute)
    pub volumes: Vec<String>,
    /// The root filesystem
    pub rootfs: Rootfs,
    /// Whether the supervisor runs detached
    pub detach: bool,
    /// Arguments given to the run
    pub args: Vec<String>,
    /// Arguments of the configured command
    pub exec_args: Vec<String>,
}

/// A flag before each of the values.
pub open spec fn flag_each(flag: Seq<char>, values: Seq<String>) -> Seq<Seq<char>>
    decreases values.len(),
{
    if values.len() == 0 {
        Seq::empty()
    } else {
        flag_each(flag, values.drop_last()) + seq![flag, values.last()@]
    }
}

/// A flag and its value where there is a value.
pub open spec fn flag_opt(flag: Seq<char>, value: Option<Seq<char>>) -> Seq<Seq<char>> {
    match value {
        Some(v) => seq![flag, v],
        None => Seq::empty(),
    }
}

/// The fixed head of the supervisor command.
pub open spec fn head_args(s: SupervisorSpec) -> Seq<Seq<char>> {
    seq![
        "supervisor"@, "--log-dir"@, s.log_dir@, "--sandbox-name"@, s.sandbox_name@,
        "--config-file"@, s.config_file@, "--config-last-modified"@, s.config_last_modified@,
        "--sandbox-db-path"@, s.sandbox_db_path@, "--scope"@, scope_name(s.scope),
        "--exec-path"@, s.exec_path@,
    ]
}

/// The resource options of the supervisor command.
pub open spec fn option_args(s: SupervisorSpec) -> Seq<Seq<char>> {
    flag_opt("--num-vcpus"@, match s.cpus {
        Some(c) => Some(decimal_text(c as nat)),
        None => None,
    }) + flag_opt("--memory-mib"@, match s.memory {
        Some(m) => Some(decimal_text(m as nat)),
        None => None,
    }) + flag_opt("--workdir-path"@, match s.workdir {
        Some(w) => Some(w@),
        None => None,
    })
}

/// The environment, port and directory options of the supervisor command.
pub open spec fn list_args(s: SupervisorSpec) -> Seq<Seq<char>> {
    flag_each("--env"@, s.envs@) + flag_each("--port-map"@, s.ports@) + flag_each(
        "--mapped-dir"@,
        s.volumes@,
    )
}

/// The root filesystem options of the supervisor command.
pub open spec fn rootfs_args(rootfs: Rootfs) -> Seq<Seq<char>> {
    match rootfs {
        Rootfs::Native(p) => seq!["--native-rootfs"@, p@],
        Rootfs::Overlayfs(ps) => flag_each("--overlayfs-layer"@, ps@),
    }
}

/// The tail of the supervisor command: output forwarding and the arguments.
pub open spec fn tail_args(s: SupervisorSpec) -> Seq<Seq<char>> {
    (if s.detach {
        Seq::empty()
    } else {
        seq!["--forward-output"@]
    }) + (if s.args@.len() > 0 {
        seq!["--"@] + texts(s.args@)
    } else if s.exec_args@.len() > 0 {
        seq!["--"@] + texts(s.exec_args@)
    } else {
        Seq::empty()
    })
}

/// The arguments of the supervisor command.
pub open spec fn supervisor_args_of(s: SupervisorSpec) -> Seq<Seq<char>> {
    head_args(s) + option_args(s) + list_args(s) + rootfs_args(s.rootfs) + tail_args(s)
}

fn push_text(args: &mut Vec<String>, text: &str)
    ensures
        texts(final(args)@) == texts(old(args)@).push(text@),
{
    args.push(String::from_str(text));
    assert(texts(final(args)@) =~= texts(old(args)@).push(text@));
}

fn push_string(args: &mut Vec<String>, text: String)
    ensures
        texts(final(args)@) == texts(old(args)@).push(text@),
{
    args.push(text);
    assert(texts(final(args)@) =~= texts(old(args)@).push(text@));
}

fn push_flag_each(args: &mut Vec<String>, flag: &str, values: &Vec<String>)
    ensures
        texts(final(args)@) == texts(old(args)@) + flag_each(flag@, values@),
{
    let mut i: usize = 0;
    assert(values@.take(0) =~= Seq::<String>::empty());
    assert(texts(args@) =~= texts(old(args)@) + flag_each(flag@, values@.take(0)));
    while i < values.len()
        invariant
            i <= values@.len(),
            texts(args@) == texts(old(args)@) + flag_each(flag@, values@.take(i as int)),
        decreases values@.len() - i,
    {
        let ghost before = texts(args@);
        push_text(args, flag);
        push_string(args, values[i].clone());
        assert(values@.take(i + 1).drop_last() =~= values@.take(i as int));
        assert(texts(args@) =~= texts(old(args)@) + flag_each(flag@, values@.take(i + 1)));
        i = i + 1;
    }
    assert(values@.take(values@.len() as int) =~= values@);
}

fn push_all(args: &mut Vec<String>, values: &Vec<String>)
    ensures
        texts(final(args)@) == texts(old(args)@) + texts(values@),
{
    let mut i: usize = 0;
    while i < values.len()
        invariant
            i <= values@.len(),
            texts(args@) == texts(old(args)@) + texts(values@.take(i as int)),
        decreases values@.len() - i,
    {
        push_string(args, values[i].clone());
        assert(texts(values@.take(i + 1)) =~= texts(values@.take(i as int)).push(values@[i as int]@));
        i = i + 1;
    }
    assert(values@.take(values@.len() as int) =~= values@);
}

fn push_head(args: &mut Vec<String>, s: &SupervisorSpec)
    ensures
        texts(final(args)@) == texts(old(args)@) + head_args(*s),
{
    push_text(args, "supervisor");
    push_text(args, "--log-dir");
    push_string(args, s.log_dir.clone());
    push_text(args, "--sandbox-name");
    push_string(args, s.sandbox_name.clone());
    push_text(args, "--config-file");
    push_string(args, s.config_file.clone());
    push_text(args, "--config-last-modified");
    push_string(args, s.config_last_modified.clone());
    push_text(args, "--sandbox-db-path");
    push_string(args, s.sandbox_db_path.clone());
    push_text(args, "--scope");
    push_string(args, s.scope.to_string());
    push_text(args, "--exec-path");
    push_string(args, s.exec_path.clone());
    assert(texts(args@) =~= texts(old(args)@) + head_args(*s));
}

fn push_options(args: &mut Vec<String>, s: &SupervisorSpec)
    ensures
        texts(final(args)@) == texts(old(args)@) + option_args(*s),
{
    match s.cpus {
        Some(c) => {
            push_text(args, "--num-vcpus");
            push_string(args, decimal_string(c as u64));
        },
        None => {},
    }
    let ghost after_cpus = texts(args@);
    match s.memory {
        Some(m) => {
            push_text(args, "--memory-mib");
            push_string(args, decimal_string(m as u64));
        },
        None => {},
    }
    let ghost after_memory = texts(args@);
    match &s.workdir {
        Some(w) => {
            push_text(args, "--workdir-path");
            push_string(args, w.clone());
        },
        None => {},
    }
    assert(texts(args@) =~= texts(old(args)@) + option_args(*s));
}

fn push_rootfs(args: &mut Vec<String>, rootfs: &Rootfs)
    ensures
        texts(final(args)@) == texts(old(args)@) + rootfs_args(*rootfs),
{
    match rootfs {
        Rootfs::Native(p) => {
            push_text(args, "--native-rootfs");
            push_string(args, p.clone());
            assert(texts(args@) =~= texts(old(args)@) + rootfs_args(*rootfs));
        },
        Rootfs::Overlayfs(ps) => {
            push_flag_each(args, "--overlayfs-layer", ps);
        },
    }
}

fn push_tail(args: &mut Vec<String>, s: &SupervisorSpec)
    ensures
        texts(final(args)@) == texts(old(args)@) + tail_args(*s),
{
    if !s.detach {
        push_text(args, "--forward-output");
    }
    let ghost with_output = texts(args@);
    if s.args.len() > 0 {
        push_text(args, "--");
        push_all(args, &s.args);
    } else if s.exec_args.len() > 0 {
        push_text(args, "--");
        push_all(args, &s.exec_args);
    }
    assert(texts(args@) =~= texts(old(args)@) + tail_args(*s));
}

/// The arguments the supervisor of a sandbox is started with: what it runs and
/// where it logs, the sandbox's resources, environment, ports and mapped
/// directories, its root filesystem, whether it forwards its output, and the
/// run's arguments (else the configured command's) after `--`.
pub fn supervisor_args(s: &SupervisorSpec) -> (r: Vec<String>)
    ensures
        texts(r@) == supervisor_args_of(*s),
{
    let mut args: Vec<String> = Vec::new();
    assert(texts(args@) =~= Seq::<Seq<char>>::empty());
    push_head(&mut args, s);
    push_options(&mut args, s);
    push_flag_each(&mut args, "--env", &s.envs);
    push_flag_each(&mut args, "--port-map", &s.ports);
    push_flag_each(&mut args, "--mapped-dir", &s.volumes);
    push_rootfs(&mut args, &s.rootfs);
    push_tail(&mut args, s);
    assert(texts(args@) =~= supervisor_args_of(*s));
    args
}


//--------------------------------------------------------------------------------------------------
// Mapped directories
//--------------------------------------------------------------------------------------------------

/// The host side of a volume `host:guest`, or the whole volume where it names
/// one path for both.
pub open spec fn volume_host(volume: Seq<char>) -> Seq<char> {
    before_first(volume, ':')
}

/// The guest side of a volume `host:guest`, or the whole volume where it names
/// one path for both.
pub open spec fn volume_guest(volume: Seq<char>) -> Seq<char> {
    if lacks_char(volume, ':') {
        volume
    } else {
        after_first(volume, ':')
    }
}

/// A relative path joined to a directory, with one `/` between them.
pub open spec fn joined_path(dir: Seq<char>, path: Seq<char>) -> Seq<char> {
    if dir.len() > 0 && dir.last() == '/' {
        dir + path
    } else {
        dir + "/"@ + path
    }
}

/// The directory mapping a sandbox is given for a volume: as it is where its
/// host path is absolute, else with the host path joined to the project
/// directory, and the guest path after a colon.
pub open spec fn mapped_dir_text(project_dir: Seq<char>, volume: Seq<char>) -> Seq<char> {
    if has_prefix(volume_host(volume), "/"@) {
        volume
    } else {
        joined_path(project_dir, volume_host(volume)) + ":"@ + volume_guest(volume)
    }
}

/// The `--mapped-dir` argument for a volume of a sandbox in `project_dir`.
pub fn mapped_dir_arg(project_dir: &str, volume: &str) -> (r: String)
    ensures
        r@ == mapped_dir_text(project_dir@, volume@),
{
    proof {
        reveal_strlit("/");
    }
    let (host, guest) = match split_once_char(volume, ':') {
        Some((h, g)) => (h, g),
        None => (volume, volume),
    };
    let n = host.unicode_len();
    if n > 0 && host.get_char(0) == '/' {
        proof {
            assert(host@.subrange(0, 1) =~= "/"@);
        }
        return String::from_str(volume);
    }
    proof {
        if has_prefix(host@, "/"@) {
            assert(host@[0] == host@.subrange(0, 1)[0]);
        }
    }
    let m = project_dir.unicode_len();
    let joined = if m > 0 && project_dir.get_char(m - 1) == '/' {
        String::from_str(project_dir).concat(host)
    } else {
        String::from_str(project_dir).concat("/").concat(host)
    };
    joined.concat(":").concat(guest)
}

/// The `--mapped-dir` arguments for the volumes of a sandbox in `project_dir`,
/// in their order.
pub fn mapped_dirs(project_dir: &str, volumes: &Vec<String>) -> (r: Vec<String>)
    ensures
        r@.len() == volumes@.len(),
        forall|i: int| 0 <= i < r@.len() ==> (#[trigger] r@[i])@ == mapped_dir_text(project_dir@, volumes@[i]@),
{
    let mut r: Vec<String> = Vec::new();
    let mut i: usize = 0;
    while i < volumes.len()
        invariant
            i <= volumes@.len(),
            r@.len() == i,
            forall|j: int| 0 <= j < i ==> (#[trigger] r@[j])@ == mapped_dir_text(project_dir@, volumes@[j]@),
        decreases volumes@.len() - i,
    {
        r.push(mapped_dir_arg(project_dir, volumes[i].as_str()));
        i = i + 1;
    }
    r
}

} // verus!
