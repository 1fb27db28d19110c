//! The container launch pipeline, as decisions: the ordered kernel actions
//! the child performs from cgroup attachment through overlay assembly,
//! mount and device synthesis, pivot-root, credential transition and exec.
//! Every path, flag, file content and their order is fixed and proved
//! here; the unverified shell only carries each action out, in order, and
//! stops at the first failure.

use vstd::prelude::*;

verus! {

use crate::model::{ContainerRuntimeError, ContainerRuntimeResult, User, UserModel};
use crate::specs::{BindMountSpec, DNSSpec, RunContainerSpec};
use crate::text::{dec_str, int_str, path_join, join_path, u32_to_dec_string, i64_to_dec_string};

/// Mount the target's filesystem without device nodes.
pub const MS_NODEV: u64 = 0x4;

/// Mount the target's filesystem without set-id bits.
pub const MS_NOSUID: u64 = 0x2;

/// Keep access times strictly.
pub const MS_STRICTATIME: u64 = 0x100_0000;

/// Bind one directory over another.
pub const MS_BIND: u64 = 0x1000;

/// Make a mount private to this namespace.
pub const MS_PRIVATE: u64 = 0x4_0000;

/// Apply to the whole mount subtree.
pub const MS_REC: u64 = 0x4000;

/// New pid namespace for the clone.
pub const CLONE_NEWPID: u64 = 0x2000_0000;

/// New mount namespace for the clone.
pub const CLONE_NEWNS: u64 = 0x2_0000;

/// New uts namespace for the clone.
pub const CLONE_NEWUTS: u64 = 0x400_0000;

/// New network namespace for the clone.
pub const CLONE_NEWNET: u64 = 0x4000_0000;

/// Tell the parent of the child's exit with this signal.
pub const SIGCHLD: u64 = 17;

/// A character device's mode: readable and writable by all.
pub const CHAR_DEVICE_MODE: u32 = 0o20666;

/// One action of the child pipeline, with everything it needs resolved.
#[derive(Debug, Clone)]
pub enum ChildAction {
    EnsureDir { path: String },
    Mount {
        source: Option<String>,
        target: String,
        fstype: Option<String>,
        flags: u64,
        data: Option<String>,
    },
    WriteFile { path: String, content: String },
    Symlink { target: String, linkpath: String },
    MakeCharDevice { path: String, mode: u32, major: u64, minor: u64 },
    PivotRoot { new_root: String, old_root: String },
    ChangeDir { path: String },
    UnmountDetach { path: String },
    RemoveDir { path: String },
    JoinNamespace { path: String },
    SetHostname { name: String },
    SetEnv { name: String, value: String },
    SetGid { gid: i32 },
    SetUid { uid: i32 },
    Exec { argv: Vec<String> },
}

/// The mathematical shape of one child action.
#[verifier::ext_equal]
pub ghost enum ChildActionModel {
    EnsureDir { path: Seq<char> },
    Mount {
        source: Option<Seq<char>>,
        target: Seq<char>,
        fstype: Option<Seq<char>>,
        flags: u64,
        data: Option<Seq<char>>,
    },
    WriteFile { path: Seq<char>, content: Seq<char> },
    Symlink { target: Seq<char>, linkpath: Seq<char> },
    MakeCharDevice { path: Seq<char>, mode: u32, major: u64, minor: u64 },
    PivotRoot { new_root: Seq<char>, old_root: Seq<char> },
    ChangeDir { path: Seq<char> },
    UnmountDetach { path: Seq<char> },
    RemoveDir { path: Seq<char> },
    JoinNamespace { path: Seq<char> },
    SetHostname { name: Seq<char> },
    SetEnv { name: Seq<char>, value: Seq<char> },
    SetGid { gid: i32 },
    SetUid { uid: i32 },
    Exec { argv: Seq<Seq<char>> },
}

impl DeepView for ChildAction {
    type V = ChildActionModel;

    open spec fn deep_view(&self) -> ChildActionModel {
        match self {
            ChildAction::EnsureDir { path } => ChildActionModel::EnsureDir { path: path@ },
            ChildAction::Mount { source, target, fstype, flags, data } => ChildActionModel::Mount {
                source: source.deep_view(),
                target: target@,
                fstype: fstype.deep_view(),
                flags: *flags,
                data: data.deep_view(),
            },
            ChildAction::WriteFile { path, content } => ChildActionModel::WriteFile {
                path: path@,
                content: content@,
            },
            ChildAction::Symlink { target, linkpath } => ChildActionModel::Symlink {
                target: target@,
                linkpath: linkpath@,
            },
            ChildAction::MakeCharDevice { path, mode, major, minor } => {
                ChildActionModel::MakeCharDevice {
                    path: path@,
                    mode: *mode,
                    major: *major,
                    minor: *minor,
                }
            },
            ChildAction::PivotRoot { new_root, old_root } => ChildActionModel::PivotRoot {
                new_root: new_root@,
                old_root: old_root@,
            },
            ChildAction::ChangeDir { path } => ChildActionModel::ChangeDir { path: path@ },
            ChildAction::UnmountDetach { path } => ChildActionModel::UnmountDetach { path: path@ },
            ChildAction::RemoveDir { path } => ChildActionModel::RemoveDir { path: path@ },
            ChildAction::JoinNamespace { path } => ChildActionModel::JoinNamespace { path: path@ },
            ChildAction::SetHostname { name } => ChildActionModel::SetHostname { name: name@ },
            ChildAction::SetEnv { name, value } => ChildActionModel::SetEnv {
                name: name@,
                value: value@,
            },
            ChildAction::SetGid { gid } => ChildActionModel::SetGid { gid: *gid },
            ChildAction::SetUid { uid } => ChildActionModel::SetUid { uid: *uid },
            ChildAction::Exec { argv } => ChildActionModel::Exec { argv: argv.deep_view() },
        }
    }
}

/// The cgroup directory one container gets under one controller.
pub open spec fn cgroup_dir(controller: Seq<char>, id: Seq<char>) -> Seq<char> {
    path_join(path_join("/sys/fs/cgroup"@ + seq!['/'] + controller, "container_runtime"@), id)
}

/// Joining a cgroup: make the directory and write the task's id into its
/// `tasks` file.
pub open spec fn cgroup_task_steps(controller: Seq<char>, id: Seq<char>, pid: u32) -> Seq<
    ChildActionModel,
> {
    seq![
        ChildActionModel::EnsureDir { path: cgroup_dir(controller, id) },
        ChildActionModel::WriteFile {
            path: path_join(cgroup_dir(controller, id), "tasks"@),
            content: dec_str(pid as nat),
        },
    ]
}

/// The cpu half: join the cpu cgroup, then set the share quota where one
/// is asked for.
pub open spec fn cpu_cgroup_steps(id: Seq<char>, cpu_shares: Option<i64>, pid: u32) -> Seq<
    ChildActionModel,
> {
    let base = cgroup_task_steps("cpu"@, id, pid);
    match cpu_shares {
        Some(v) => base.push(
            ChildActionModel::WriteFile {
                path: path_join(cgroup_dir("cpu"@, id), "cpu.shares"@),
                content: int_str(v as int),
            },
        ),
        None => base,
    }
}

/// The memory half: join the memory cgroup, then set the memory and swap
/// quotas where they are asked for.
pub open spec fn memory_cgroup_steps(
    id: Seq<char>,
    memory: Option<i64>,
    memory_swap: Option<i64>,
    pid: u32,
) -> Seq<ChildActionModel> {
    let base = cgroup_task_steps("memory"@, id, pid);
    let with_memory = match memory {
        Some(v) => base.push(
            ChildActionModel::WriteFile {
                path: path_join(cgroup_dir("memory"@, id), "memory.limit_in_bytes"@),
                content: int_str(v as int),
            },
        ),
        None => base,
    };
    match memory_swap {
        Some(v) => with_memory.push(
            ChildActionModel::WriteFile {
                path: path_join(cgroup_dir("memory"@, id), "memory.memsw.limit_in_bytes"@),
                content: int_str(v as int),
            },
        ),
        None => with_memory,
    }
}

/// Builds the cgroup directory path for one controller.
fn cgroup_dir_path(controller: &str, id: &str) -> (r: String)
    ensures
        r@ == cgroup_dir(controller@, id@),
{
    let mut base = String::from_str("/sys/fs/cgroup");
    base.append("/");
    base.append(controller);
    let base2 = join_path(base.as_str(), "container_runtime");
    let r = join_path(base2.as_str(), id);
    proof {
        reveal_strlit("/");
        assert("/"@ =~= seq!['/']);
        assert(r@ =~= cgroup_dir(controller@, id@));
    }
    r
}

/// The steps that join one controller's cgroup.
fn cgroup_task_plan(controller: &str, id: &str, pid: u32) -> (r: Vec<ChildAction>)
    ensures
        r.deep_view() == cgroup_task_steps(controller@, id@, pid),
{
    let dir = cgroup_dir_path(controller, id);
    let tasks = join_path(dir.as_str(), "tasks");
    let mut out: Vec<ChildAction> = Vec::new();
    out.push(ChildAction::EnsureDir { path: dir });
    out.push(ChildAction::WriteFile { path: tasks, content: u32_to_dec_string(pid) });
    proof {
        assert(out.deep_view() =~~= cgroup_task_steps(controller@, id@, pid));
    }
    out
}

/// The cpu-cgroup steps, in order.
pub fn setup_cpu_cgroup_plan(container_id: &str, cpu_shares: Option<i64>, pid: u32) -> (r: Vec<
    ChildAction,
>)
    ensures
        r.deep_view() == cpu_cgroup_steps(container_id@, cpu_shares, pid),
{
    let mut out = cgroup_task_plan("cpu", container_id, pid);
    match cpu_shares {
        Some(v) => {
            let dir = cgroup_dir_path("cpu", container_id);
            let file = join_path(dir.as_str(), "cpu.shares");
            out.push(ChildAction::WriteFile { path: file, content: i64_to_dec_string(v) });
            proof {
                assert(out.deep_view() =~~= cpu_cgroup_steps(container_id@, cpu_shares, pid));
            }
            out
        },
        None => out,
    }
}

/// The memory-cgroup steps, in order.
pub fn setup_memory_cgroup_plan(
    container_id: &str,
    memory: Option<i64>,
    memory_swap: Option<i64>,
    pid: u32,
) -> (r: Vec<ChildAction>)
    ensures
        r.deep_view() == memory_cgroup_steps(container_id@, memory, memory_swap, pid),
{
    let mut out = cgroup_task_plan("memory", container_id, pid);
    match memory {
        Some(v) => {
            let dir = cgroup_dir_path("memory", container_id);
            let file = join_path(dir.as_str(), "memory.limit_in_bytes");
            out.push(ChildAction::WriteFile { path: file, content: i64_to_dec_string(v) });
        },
        None => {},
    }
    match memory_swap {
        Some(v) => {
            let dir = cgroup_dir_path("memory", container_id);
            let file = join_path(dir.as_str(), "memory.memsw.limit_in_bytes");
            out.push(ChildAction::WriteFile { path: file, content: i64_to_dec_string(v) });
        },
        None => {},
    }
    proof {
        assert(out.deep_view() =~~= memory_cgroup_steps(container_id@, memory, memory_swap, pid));
    }
    out
}

/// The text written into the container's resolver configuration: one
/// `nameserver` line per given server, or the host's own configuration
/// verbatim.
pub open spec fn nameserver_lines(servers: Seq<Seq<char>>) -> Seq<char>
    decreases servers.len(),
{
    if servers.len() == 0 {
        Seq::empty()
    } else if servers.len() == 1 {
        "nameserver "@ + servers[0]
    } else {
        nameserver_lines(servers.drop_last()) + seq!['\n'] + "nameserver "@ + servers.last()
    }
}

pub open spec fn resolv_conf_spec(dns: DNSSpec, host_resolv_conf: Seq<char>) -> Seq<char> {
    match dns {
        DNSSpec::Server(servers) => nameserver_lines(servers.deep_view()) + seq!['\n'],
        DNSSpec::CopyFromHost => host_resolv_conf,
    }
}

/// Renders the container's resolver configuration. For the copy-from-host
/// policy the caller hands in the host's own configuration text.
#[verifier::loop_isolation(false)]
pub fn resolv_conf_content(dns: &DNSSpec, host_resolv_conf: &str) -> (r: String)
    ensures
        r@ == resolv_conf_spec(*dns, host_resolv_conf@),
{
    match dns {
        DNSSpec::CopyFromHost => String::from_str(host_resolv_conf),
        DNSSpec::Server(servers) => {
            let ghost sseq = servers.deep_view();
            let mut r = String::new();
            let mut i: usize = 0;
            while i < servers.len()
                invariant
                    0 <= i <= servers@.len(),
                    r@ == nameserver_lines(sseq.subrange(0, i as int)),
                decreases servers@.len() - i,
            {
                proof {
                    assert(servers.deep_view()[i as int] == servers@[i as int]@);
                }
                if i > 0 {
                    r.append("\n");
                }
                r.append("nameserver ");
                r.append(servers[i].as_str());
                proof {
                    reveal_strlit("\n");
                    assert("\n"@ =~= seq!['\n']);
                    let prefix = sseq.subrange(0, i as int);
                    let longer = sseq.subrange(0, i as int + 1);
                    assert(longer.drop_last() =~= prefix);
                    assert(longer.last() == sseq[i as int]);
                    if i == 0 {
                        assert(longer.len() == 1);
                        assert(r@ =~= nameserver_lines(longer));
                    } else {
                        assert(r@ =~= nameserver_lines(longer));
                    }
                }
                i = i + 1;
            }
            r.append("\n");
            proof {
                reveal_strlit("\n");
                assert("\n"@ =~= seq!['\n']);
                assert(sseq.subrange(0, sseq.len() as int) =~= sseq);
                assert(r@ =~= resolv_conf_spec(*dns, host_resolv_conf@));
            }
            r
        },
    }
}

/// Writing the resolver configuration into the new root.
pub open spec fn dns_steps(new_root: Seq<char>, content: Seq<char>) -> Seq<ChildActionModel> {
    seq![
        ChildActionModel::WriteFile {
            path: path_join(path_join(new_root, "etc"@), "resolv.conf"@),
            content,
        },
    ]
}

/// The step that writes the resolver configuration.
pub fn setup_dns_plan(new_root: &str, content: String) -> (r: Vec<ChildAction>)
    ensures
        r.deep_view() == dns_steps(new_root@, content@),
{
    let etc = join_path(new_root, "etc");
    let file = join_path(etc.as_str(), "resolv.conf");
    let mut out: Vec<ChildAction> = Vec::new();
    out.push(ChildAction::WriteFile { path: file, content });
    proof {
        assert(out.deep_view() =~~= dns_steps(new_root@, out@[0]->WriteFile_content@));
    }
    out
}

/// Becoming the resolved user: the home folder into the environment, the
/// group id dropped first where one is known, then the user id — in that
/// order, since the right to change groups goes away with the user id.
pub open spec fn user_steps(u: UserModel) -> Seq<ChildActionModel> {
    let base = seq![
        ChildActionModel::SetEnv { name: "HOME"@, value: u.home_folder },
    ];
    let with_gid = match u.group_id {
        Some(g) => base.push(ChildActionModel::SetGid { gid: g as i32 }),
        None => base,
    };
    with_gid.push(ChildActionModel::SetUid { uid: u.id as i32 })
}

/// The credential-transition steps, in order.
pub fn setup_user_plan(user: &User) -> (r: Vec<ChildAction>)
    ensures
        r.deep_view() == user_steps(user.deep_view()),
{
    let mut out: Vec<ChildAction> = Vec::new();
    out.push(
        ChildAction::SetEnv { name: String::from_str("HOME"), value: user.home_folder.clone() },
    );
    match user.group_id {
        Some(g) => {
            out.push(ChildAction::SetGid { gid: g });
        },
        None => {},
    }
    out.push(ChildAction::SetUid { uid: user.id });
    proof {
        assert(out.deep_view() =~~= user_steps(user.deep_view()));
    }
    out
}

/// The flags the clone of the child carries: fresh pid, mount and uts
/// namespaces, the child-exit signal, and a fresh network namespace
/// exactly where a bridged network was prepared.
pub open spec fn clone_flags_spec(bridged: bool) -> u64 {
    (CLONE_NEWPID + CLONE_NEWNS + CLONE_NEWUTS + SIGCHLD + if bridged {
        CLONE_NEWNET
    } else {
        0
    }) as u64
}

pub fn clone_flags(bridged: bool) -> (r: u64)
    ensures
        r == clone_flags_spec(bridged),
{
    let base: u64 = CLONE_NEWPID + CLONE_NEWNS + CLONE_NEWUTS + SIGCHLD;
    if bridged {
        base + CLONE_NEWNET
    } else {
        base
    }
}

/// Where a named network namespace's handle sits.
pub open spec fn netns_path_spec(name: Seq<char>) -> Seq<char> {
    "/run/netns/"@ + name
}

/// The path of a named network namespace's handle.
pub fn netns_path(name: &str) -> (r: String)
    ensures
        r@ == netns_path_spec(name@),
{
    let mut r = String::from_str("/run/netns/");
    r.append(name);
    r
}


/// The overlay's mount data: the image as the immutable lower layer, the
/// container's own upper and work directories.
pub open spec fn overlay_data(
    image_root: Seq<char>,
    cow_rw: Seq<char>,
    cow_workdir: Seq<char>,
) -> Seq<char> {
    "lowerdir="@ + image_root + ",upperdir="@ + cow_rw + ",workdir="@ + cow_workdir
}

/// The merged view that becomes the container's root.
pub open spec fn new_root_of(container_root: Seq<char>) -> Seq<char> {
    path_join(container_root, "rootfs"@)
}

/// Assembling the copy-on-write root: the upper, work and merged
/// directories side by side under the container's directory, then the
/// overlay mounted over the merged one, without device nodes.
pub open spec fn container_root_steps(image_root: Seq<char>, container_root: Seq<char>) -> Seq<
    ChildActionModel,
> {
    let cow_rw = path_join(container_root, "cow_rw"@);
    let cow_workdir = path_join(container_root, "cow_workdir"@);
    let rootfs = path_join(container_root, "rootfs"@);
    seq![
        ChildActionModel::EnsureDir { path: cow_rw },
        ChildActionModel::EnsureDir { path: cow_workdir },
        ChildActionModel::EnsureDir { path: rootfs },
        ChildActionModel::Mount {
            source: Some("overlay"@),
            target: rootfs,
            fstype: Some("overlay"@),
            flags: MS_NODEV,
            data: Some(overlay_data(image_root, cow_rw, cow_workdir)),
        },
    ]
}

/// The overlay-assembly steps, and the merged root they produce.
pub fn create_container_root_plan(image_root: &str, container_root: &str) -> (r: (
    Vec<ChildAction>,
    String,
))
    ensures
        r.0.deep_view() == container_root_steps(image_root@, container_root@),
        r.1@ == new_root_of(container_root@),
{
    let cow_rw = join_path(container_root, "cow_rw");
    let cow_workdir = join_path(container_root, "cow_workdir");
    let rootfs = join_path(container_root, "rootfs");
    let mut data = String::from_str("lowerdir=");
    data.append(image_root);
    data.append(",upperdir=");
    data.append(cow_rw.as_str());
    data.append(",workdir=");
    data.append(cow_workdir.as_str());
    let mut out: Vec<ChildAction> = Vec::new();
    out.push(ChildAction::EnsureDir { path: cow_rw.clone() });
    out.push(ChildAction::EnsureDir { path: cow_workdir });
    out.push(ChildAction::EnsureDir { path: rootfs.clone() });
    out.push(
        ChildAction::Mount {
            source: Some(String::from_str("overlay")),
            target: rootfs.clone(),
            fstype: Some(String::from_str("overlay")),
            flags: MS_NODEV,
            data: Some(data),
        },
    );
    proof {
        assert(out.deep_view() =~~= container_root_steps(image_root@, container_root@));
    }
    (out, rootfs)
}

/// The kernel filesystems every container gets: `proc`, `sysfs`, a
/// `tmpfs` for devices with strict access times and no set-id bits, and
/// a `devpts` under a directory made for it.
pub open spec fn mount_steps(new_root: Seq<char>) -> Seq<ChildActionModel> {
    let dev = path_join(new_root, "dev"@);
    seq![
        ChildActionModel::Mount {
            source: Some("proc"@),
            target: path_join(new_root, "proc"@),
            fstype: Some("proc"@),
            flags: 0,
            data: None,
        },
        ChildActionModel::Mount {
            source: Some("sysfs"@),
            target: path_join(new_root, "sys"@),
            fstype: Some("sysfs"@),
            flags: 0,
            data: None,
        },
        ChildActionModel::Mount {
            source: Some("tmpfs"@),
            target: dev,
            fstype: Some("tmpfs"@),
            flags: (MS_NOSUID + MS_STRICTATIME) as u64,
            data: Some("mode=755"@),
        },
        ChildActionModel::EnsureDir { path: path_join(dev, "pts"@) },
        ChildActionModel::Mount {
            source: Some("devpts"@),
            target: path_join(dev, "pts"@),
            fstype: Some("devpts"@),
            flags: 0,
            data: None,
        },
    ]
}

/// The mount steps, in order.
pub fn setup_mounts_plan(new_root: &str) -> (r: Vec<ChildAction>)
    ensures
        r.deep_view() == mount_steps(new_root@),
{
    let dev = join_path(new_root, "dev");
    let pts = join_path(dev.as_str(), "pts");
    let mut out: Vec<ChildAction> = Vec::new();
    out.push(
        ChildAction::Mount {
            source: Some(String::from_str("proc")),
            target: join_path(new_root, "proc"),
            fstype: Some(String::from_str("proc")),
            flags: 0,
            data: None,
        },
    );
    out.push(
        ChildAction::Mount {
            source: Some(String::from_str("sysfs")),
            target: join_path(new_root, "sys"),
            fstype: Some(String::from_str("sysfs")),
            flags: 0,
            data: None,
        },
    );
    out.push(
        ChildAction::Mount {
            source: Some(String::from_str("tmpfs")),
            target: dev,
            fstype: Some(String::from_str("tmpfs")),
            flags: MS_NOSUID + MS_STRICTATIME,
            data: Some(String::from_str("mode=755")),
        },
    );
    out.push(ChildAction::EnsureDir { path: pts.clone() });
    out.push(
        ChildAction::Mount {
            source: Some(String::from_str("devpts")),
            target: pts,
            fstype: Some(String::from_str("devpts")),
            flags: 0,
            data: None,
        },
    );
    proof {
        assert(out.deep_view() =~~= mount_steps(new_root@));
    }
    out
}

/// The minimum device tree: the three standard streams linked to the
/// process's own descriptors, and the seven character devices at their
/// fixed major and minor numbers.
pub open spec fn device_steps(new_root: Seq<char>) -> Seq<ChildActionModel> {
    let dev = path_join(new_root, "dev"@);
    seq![
        ChildActionModel::Symlink {
            target: "/proc/self/fd/0"@,
            linkpath: path_join(dev, "stdin"@),
        },
        ChildActionModel::Symlink {
            target: "/proc/self/fd/1"@,
            linkpath: path_join(dev, "stdout"@),
        },
        ChildActionModel::Symlink {
            target: "/proc/self/fd/2"@,
            linkpath: path_join(dev, "stderr"@),
        },
        ChildActionModel::MakeCharDevice {
            path: path_join(dev, "null"@),
            mode: CHAR_DEVICE_MODE,
            major: 1,
            minor: 3,
        },
        ChildActionModel::MakeCharDevice {
            path: path_join(dev, "zero"@),
            mode: CHAR_DEVICE_MODE,
            major: 1,
            minor: 5,
        },
        ChildActionModel::MakeCharDevice {
            path: path_join(dev, "random"@),
            mode: CHAR_DEVICE_MODE,
            major: 1,
            minor: 8,
        },
        ChildActionModel::MakeCharDevice {
            path: path_join(dev, "urandom"@),
            mode: CHAR_DEVICE_MODE,
            major: 1,
            minor: 9,
        },
        ChildActionModel::MakeCharDevice {
            path: path_join(dev, "console"@),
            mode: CHAR_DEVICE_MODE,
            major: 136,
            minor: 1,
        },
        ChildActionModel::MakeCharDevice {
            path: path_join(dev, "tty"@),
            mode: CHAR_DEVICE_MODE,
            major: 5,
            minor: 0,
        },
        ChildActionModel::MakeCharDevice {
            path: path_join(dev, "full"@),
            mode: CHAR_DEVICE_MODE,
            major: 1,
            minor: 7,
        },
    ]
}

/// The device-synthesis steps, in order.
pub fn setup_devices_plan(new_root: &str) -> (r: Vec<ChildAction>)
    ensures
        r.deep_view() == device_steps(new_root@),
{
    let dev = join_path(new_root, "dev");
    let mut out: Vec<ChildAction> = Vec::new();
    out.push(
        ChildAction::Symlink {
            target: String::from_str("/proc/self/fd/0"),
            linkpath: join_path(dev.as_str(), "stdin"),
        },
    );
    out.push(
        ChildAction::Symlink {
            target: String::from_str("/proc/self/fd/1"),
            linkpath: join_path(dev.as_str(), "stdout"),
        },
    );
    out.push(
        ChildAction::Symlink {
            target: String::from_str("/proc/self/fd/2"),
            linkpath: join_path(dev.as_str(), "stderr"),
        },
    );
    out.push(
        ChildAction::MakeCharDevice {
            path: join_path(dev.as_str(), "null"),
            mode: CHAR_DEVICE_MODE,
            major: 1,
            minor: 3,
        },
    );
    out.push(
        ChildAction::MakeCharDevice {
            path: join_path(dev.as_str(), "zero"),
            mode: CHAR_DEVICE_MODE,
            major: 1,
            minor: 5,
        },
    );
    out.push(
        ChildAction::MakeCharDevice {
            path: join_path(dev.as_str(), "random"),
            mode: CHAR_DEVICE_MODE,
            major: 1,
            minor: 8,
        },
    );
    out.push(
        ChildAction::MakeCharDevice {
            path: join_path(dev.as_str(), "urandom"),
            mode: CHAR_DEVICE_MODE,
            major: 1,
            minor: 9,
        },
    );
    out.push(
        ChildAction::MakeCharDevice {
            path: join_path(dev.as_str(), "console"),
            mode: CHAR_DEVICE_MODE,
            major: 136,
            minor: 1,
        },
    );
    out.push(
        ChildAction::MakeCharDevice {
            path: join_path(dev.as_str(), "tty"),
            mode: CHAR_DEVICE_MODE,
            major: 5,
            minor: 0,
        },
    );
    out.push(
        ChildAction::MakeCharDevice {
            path: join_path(dev.as_str(), "full"),
            mode: CHAR_DEVICE_MODE,
            major: 1,
            minor: 7,
        },
    );
    proof {
        assert(out.deep_view() =~~= device_steps(new_root@));
    }
    out
}


/// An absolute target re-rooted under the new root: the new root's path,
/// then the target with its one leading separator kept as the join.
pub open spec fn rebased_target(new_root: Seq<char>, target: Seq<char>) -> Seq<char> {
    if target.len() > 0 && target[0] == '/' {
        new_root + target
    } else {
        path_join(new_root, target)
    }
}

/// Re-roots a bind target under the new root.
pub fn rebase_target(new_root: &str, target: &str) -> (r: String)
    ensures
        r@ == rebased_target(new_root@, target@),
{
    if target.unicode_len() > 0 && target.get_char(0) == '/' {
        let r = String::from_str(new_root).concat(target);
        r
    } else {
        join_path(new_root, target)
    }
}

/// One bind mount: the re-rooted target made, then the source bound over
/// it.
pub open spec fn bind_steps_one(new_root: Seq<char>, b: crate::specs::BindMountModel) -> Seq<
    ChildActionModel,
> {
    seq![
        ChildActionModel::EnsureDir { path: rebased_target(new_root, b.target) },
        ChildActionModel::Mount {
            source: Some(b.source),
            target: rebased_target(new_root, b.target),
            fstype: None,
            flags: MS_BIND,
            data: None,
        },
    ]
}

/// The first `n` bind mounts, in the order they were given.
pub open spec fn bind_steps_prefix(
    new_root: Seq<char>,
    binds: Seq<crate::specs::BindMountModel>,
    n: int,
) -> Seq<ChildActionModel>
    decreases n,
{
    if n <= 0 {
        Seq::empty()
    } else {
        bind_steps_prefix(new_root, binds, n - 1) + bind_steps_one(new_root, binds[n - 1])
    }
}

/// Leaving the old world behind, in this exact order: make the directory
/// that will briefly hold the old root, pivot into the new root, step
/// into the working directory, detach the old root, and remove its
/// directory.
pub open spec fn pivot_steps(new_root: Seq<char>, working_dir: Seq<char>) -> Seq<ChildActionModel> {
    seq![
        ChildActionModel::PivotRoot { new_root, old_root: path_join(new_root, "old_root"@) },
        ChildActionModel::ChangeDir { path: working_dir },
        ChildActionModel::UnmountDetach { path: "/old_root"@ },
        ChildActionModel::RemoveDir { path: "/old_root"@ },
    ]
}

/// The whole in-root sequence: kernel mounts, device synthesis, the
/// old-root directory, every bind mount, then the pivot sequence.
pub open spec fn container_root_setup_steps(
    new_root: Seq<char>,
    working_dir: Seq<char>,
    binds: Seq<crate::specs::BindMountModel>,
) -> Seq<ChildActionModel> {
    mount_steps(new_root) + device_steps(new_root) + seq![
        ChildActionModel::EnsureDir { path: path_join(new_root, "old_root"@) },
    ] + bind_steps_prefix(new_root, binds, binds.len() as int) + pivot_steps(
        new_root,
        working_dir,
    )
}

/// The in-root steps, in order.
#[verifier::loop_isolation(false)]
pub fn setup_container_root_plan(
    new_root: &str,
    working_dir: &str,
    bind_mounts: &Vec<BindMountSpec>,
) -> (r: Vec<ChildAction>)
    ensures
        r.deep_view() == container_root_setup_steps(
            new_root@,
            working_dir@,
            bind_mounts.deep_view(),
        ),
{
    let ghost bseq = bind_mounts.deep_view();
    let mut out = setup_mounts_plan(new_root);
    let mut devices = setup_devices_plan(new_root);
    out.append(&mut devices);
    let old_root = join_path(new_root, "old_root");
    out.push(ChildAction::EnsureDir { path: old_root.clone() });
    let ghost head = mount_steps(new_root@) + device_steps(new_root@) + seq![
        ChildActionModel::EnsureDir { path: path_join(new_root@, "old_root"@) },
    ];
    proof {
        assert(out.deep_view() =~= head);
    }
    let mut i: usize = 0;
    while i < bind_mounts.len()
        invariant
            0 <= i <= bind_mounts@.len(),
            out.deep_view() =~~= head + bind_steps_prefix(new_root@, bseq, i as int),
        decreases bind_mounts@.len() - i,
    {
        proof {
            assert(bind_mounts.deep_view()[i as int] == bind_mounts@[i as int].deep_view());
        }
        let target = rebase_target(new_root, bind_mounts[i].target.as_str());
        out.push(ChildAction::EnsureDir { path: target.clone() });
        out.push(
            ChildAction::Mount {
                source: Some(bind_mounts[i].source.clone()),
                target,
                fstype: None,
                flags: MS_BIND,
                data: None,
            },
        );
        proof {
            let pre = head + bind_steps_prefix(new_root@, bseq, i as int);
            let one = bind_steps_one(new_root@, bseq[i as int]);
            assert(bind_steps_prefix(new_root@, bseq, i as int + 1) == bind_steps_prefix(
                new_root@,
                bseq,
                i as int,
            ) + one);
            assert(out.deep_view() =~~= pre + one);
            assert(head + bind_steps_prefix(new_root@, bseq, i as int + 1) =~~= pre + one);
        }
        i = i + 1;
    }
    out.push(
        ChildAction::PivotRoot { new_root: String::from_str(new_root), old_root },
    );
    out.push(ChildAction::ChangeDir { path: String::from_str(working_dir) });
    out.push(ChildAction::UnmountDetach { path: String::from_str("/old_root") });
    out.push(ChildAction::RemoveDir { path: String::from_str("/old_root") });
    proof {
        assert(out.deep_view() =~~= container_root_setup_steps(
            new_root@,
            working_dir@,
            bind_mounts.deep_view(),
        ));
    }
    out
}

/// What stands before the container's root can be read: both cgroups
/// joined with the quotas set; the prepared network namespace joined and
/// the hostname set where the launch is bridged; the root's mount
/// propagation made private through the whole tree; and the overlay root
/// assembled.
pub open spec fn child_prelude_steps(s: RunContainerSpec, pid: u32) -> Seq<ChildActionModel> {
    let cgroups = cpu_cgroup_steps(s.id@, s.cpu_shares, pid) + memory_cgroup_steps(
        s.id@,
        s.memory,
        s.memory_swap,
        pid,
    );
    let network = match s.spec_network_namespace() {
        Some(ns) => {
            let join = seq![ChildActionModel::JoinNamespace { path: netns_path_spec(ns) }];
            match s.spec_hostname() {
                Some(h) => join.push(ChildActionModel::SetHostname { name: h }),
                None => join,
            }
        },
        None => Seq::empty(),
    };
    cgroups + network + seq![
        ChildActionModel::Mount {
            source: None,
            target: "/"@,
            fstype: None,
            flags: (MS_PRIVATE + MS_REC) as u64,
            data: None,
        },
    ] + container_root_steps(s.spec_image_root(), s.spec_container_root())
}

/// The child's opening steps, and the merged root they produce. They run
/// before anything inside the image can be read; the rest of the
/// pipeline follows once the caller has read the image's user database
/// out of that root.
pub fn child_prelude_plan(spec: &RunContainerSpec, pid: u32) -> (r: (Vec<ChildAction>, String))
    requires
        spec.wf(),
    ensures
        r.0.deep_view() == child_prelude_steps(*spec, pid),
        r.1@ == new_root_of(spec.spec_container_root()),
{
    let mut out = setup_cpu_cgroup_plan(spec.id.as_str(), spec.cpu_shares, pid);
    let mut memory = setup_memory_cgroup_plan(
        spec.id.as_str(),
        spec.memory,
        spec.memory_swap,
        pid,
    );
    out.append(&mut memory);
    match spec.network_namespace() {
        Some(ns) => {
            out.push(ChildAction::JoinNamespace { path: netns_path(ns.as_str()) });
            match spec.hostname() {
                Some(h) => {
                    out.push(ChildAction::SetHostname { name: h });
                },
                None => {},
            }
        },
        None => {},
    }
    out.push(
        ChildAction::Mount {
            source: None,
            target: String::from_str("/"),
            fstype: None,
            flags: MS_PRIVATE + MS_REC,
            data: None,
        },
    );
    let image_root = spec.image_root();
    let container_root = spec.container_root();
    let (mut rootfs_steps, new_root) = create_container_root_plan(
        image_root.as_str(),
        container_root.as_str(),
    );
    out.append(&mut rootfs_steps);
    proof {
        assert(out.deep_view() =~~= child_prelude_steps(*spec, pid));
    }
    (out, new_root)
}

/// The user the launch runs as, read from the resolved records: nothing
/// asked for, a record picked or synthesized, or the invalid-user
/// failure where a name selector matched nothing.
pub open spec fn spec_resolved_user(s: RunContainerSpec, users: Seq<UserModel>) -> Option<
    Option<UserModel>,
> {
    match s.user {
        None => Some(None),
        Some(us) => match us.spec_find_user(users) {
            Some(u) => Some(Some(u)),
            None => None,
        },
    }
}

/// The working directory the child steps into: the resolved user's home,
/// else the root.
pub open spec fn spec_working_dir(u: Option<UserModel>) -> Seq<char> {
    match u {
        Some(x) => x.home_folder,
        None => "/"@,
    }
}

/// What follows once the image's user database has been read: the
/// resolver configuration written, the in-root sequence through the
/// pivot, the credential transition where a user was resolved, and the
/// exec of the command.
pub open spec fn child_completion_steps(
    s: RunContainerSpec,
    users: Seq<UserModel>,
    host_resolv_conf: Seq<char>,
) -> Seq<ChildActionModel> {
    let new_root = new_root_of(s.spec_container_root());
    let u = spec_resolved_user(s, users)->0;
    dns_steps(new_root, resolv_conf_spec(s.dns, host_resolv_conf)) + container_root_setup_steps(
        new_root,
        spec_working_dir(u),
        s.bind_mounts.deep_view(),
    ) + (match u {
        Some(x) => user_steps(x),
        None => Seq::empty(),
    }) + seq![ChildActionModel::Exec { argv: s.command.deep_view() }]
}

/// The child's closing steps. Fails exactly where the launch's user
/// selector matches nothing and cannot be synthesized; otherwise the
/// steps run the pipeline to the exec.
pub fn child_completion_plan(
    spec: &RunContainerSpec,
    users: &Vec<User>,
    host_resolv_conf: &str,
) -> (r: ContainerRuntimeResult<Vec<ChildAction>>)
    requires
        spec.wf(),
    ensures
        match r {
            Ok(v) => spec_resolved_user(*spec, users.deep_view()) is Some && v.deep_view()
                == child_completion_steps(*spec, users.deep_view(), host_resolv_conf@),
            Err(e) => spec_resolved_user(*spec, users.deep_view()) is None && (e matches
            ContainerRuntimeError::InvalidUser(bad) && (spec.user matches Some(us)
                && bad.deep_view() == us.deep_view())),
        },
{
    let user = match spec.user(users) {
        None => None,
        Some(Ok(u)) => Some(u),
        Some(Err(e)) => {
            return Err(e);
        },
    };
    let container_root = spec.container_root();
    let new_root = join_path(container_root.as_str(), "rootfs");
    let content = resolv_conf_content(&spec.dns, host_resolv_conf);
    let mut out = setup_dns_plan(new_root.as_str(), content);
    let working_dir = match &user {
        Some(u) => u.home_folder.clone(),
        None => String::from_str("/"),
    };
    let mut in_root = setup_container_root_plan(
        new_root.as_str(),
        working_dir.as_str(),
        &spec.bind_mounts,
    );
    out.append(&mut in_root);
    match &user {
        Some(u) => {
            let mut creds = setup_user_plan(u);
            out.append(&mut creds);
        },
        None => {},
    }
    out.push(ChildAction::Exec { argv: spec.command.clone() });
    proof {
        assert(out.deep_view() =~~= child_completion_steps(
            *spec,
            users.deep_view(),
            host_resolv_conf@,
        ));
    }
    Ok(out)
}

} // verus!
