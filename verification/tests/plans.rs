use cort::container::{
    child_completion_plan, child_prelude_plan, clone_flags, netns_path, rebase_target,
    resolv_conf_content, setup_container_root_plan, setup_cpu_cgroup_plan, setup_devices_plan,
    setup_memory_cgroup_plan, setup_mounts_plan, setup_user_plan, create_container_root_plan,
    ChildAction, CHAR_DEVICE_MODE, CLONE_NEWNET, CLONE_NEWNS, CLONE_NEWPID, CLONE_NEWUTS, MS_BIND,
    MS_NODEV, MS_NOSUID, MS_PRIVATE, MS_REC, MS_STRICTATIME, SIGCHLD,
};
use cort::model::User;
use cort::net::Ipv4Net;
use cort::network::{
    bridge_probe_command, create_bridge_commands, create_network_namespace_commands,
    destroy_network_namespace_commands, find_container_network_namespaces, find_free_ip_address,
    is_ip_address_used, route_interface, Cmd, HostAction, NetworkNamespace, Program,
};
use cort::specs::{
    BindMountSpec, BridgeSpec, BridgedNetworkSpec, DNSSpec, NetworkSpec, RunContainerSpec,
    UserSpec,
};

fn addr(a: u32, b: u32, c: u32, d: u32) -> u32 {
    (a << 24) | (b << 16) | (c << 8) | d
}

fn args_of(cmd: &Cmd) -> Vec<&str> {
    cmd.args.iter().map(|s| s.as_str()).collect()
}

#[test]
fn bridge_probe_asks_for_the_interface() {
    let bridge = BridgeSpec::get_default(Some("eth0".to_string()));
    let probe = bridge_probe_command(&bridge);
    assert!(matches!(probe.program, Program::Ip));
    assert_eq!(vec!["link", "show", "cort0"], args_of(&probe));
}

#[test]
fn bridge_setup_with_physical_interface_masquerades() {
    let bridge = BridgeSpec::get_default(Some("eth0".to_string()));
    let plan = create_bridge_commands(&bridge);
    assert_eq!(11, plan.len());
    match &plan[0] {
        HostAction::Run(c) => {
            assert!(matches!(c.program, Program::Ip));
            assert_eq!(vec!["link", "add", "name", "cort0", "type", "bridge"], args_of(c));
        }
        _ => panic!("expected an invocation first"),
    }
    match &plan[2] {
        HostAction::Run(c) => {
            assert_eq!(vec!["addr", "add", "10.10.1.1/16", "dev", "cort0"], args_of(c));
        }
        _ => panic!("expected the address assignment"),
    }
    match &plan[3] {
        HostAction::WriteFile { path, content } => {
            assert_eq!("/proc/sys/net/ipv4/ip_forward", path.as_str());
            assert_eq!("1", content.as_str());
        }
        _ => panic!("expected the forwarding switch"),
    }
    match &plan[4] {
        HostAction::Run(c) => {
            assert!(matches!(c.program, Program::IpTables));
            assert_eq!(vec!["-P", "FORWARD", "DROP"], args_of(c));
        }
        _ => panic!("expected the policy drop"),
    }
    match &plan[8] {
        HostAction::Run(c) => {
            assert_eq!(
                vec![
                    "-t",
                    "nat",
                    "-A",
                    "POSTROUTING",
                    "-s",
                    "10.10.1.1/16",
                    "-o",
                    "eth0",
                    "-j",
                    "MASQUERADE"
                ],
                args_of(c)
            );
        }
        _ => panic!("expected the masquerade rule"),
    }
}

#[test]
fn bridge_setup_without_physical_interface_is_shorter() {
    let bridge = BridgeSpec::get_default(None);
    let plan = create_bridge_commands(&bridge);
    assert_eq!(7, plan.len());
}

#[test]
fn namespace_setup_builds_the_veth_pair_in_order() {
    let bridge = BridgeSpec::get_default(None);
    let bridged = BridgedNetworkSpec::from_bridge(
        &bridge,
        Ipv4Net::new(addr(10, 10, 1, 2), 16),
    );
    let plan = create_network_namespace_commands("cort-abcd", &bridged);
    assert_eq!(10, plan.len());
    assert_eq!(vec!["netns", "add", "cort-abcd"], args_of(&plan[0]));
    assert_eq!(
        vec!["link", "add", "cort-abcd-host", "type", "veth", "peer", "name", "cort-abcd-ns"],
        args_of(&plan[1])
    );
    assert_eq!(
        vec!["netns", "exec", "cort-abcd", "ip", "addr", "add", "10.10.1.2/16", "dev", "cort-abcd-ns"],
        args_of(&plan[6])
    );
    assert_eq!(
        vec!["-n", "cort-abcd", "route", "add", "default", "via", "10.10.1.1"],
        args_of(&plan[9])
    );
}

#[test]
fn namespace_teardown_removes_namespace_then_veth() {
    let ns = NetworkNamespace::create("cort-abcd".to_string());
    assert_eq!("cort-abcd", ns.name().as_str());
    let plan = ns.teardown_commands();
    assert_eq!(2, plan.len());
    assert_eq!(vec!["netns", "del", "cort-abcd"], args_of(&plan[0]));
    assert_eq!(vec!["link", "del", "cort-abcd-host"], args_of(&plan[1]));
    let same = destroy_network_namespace_commands("cort-abcd");
    assert_eq!(2, same.len());
}

#[test]
fn namespace_listing_keeps_only_container_namespaces() {
    let output = "cort-abcd (id: 0)\ndefault\ncort-ef12\nother cort-x\n";
    let names = find_container_network_namespaces(output);
    let names: Vec<&str> = names.iter().map(|s| s.as_str()).collect();
    assert_eq!(vec!["cort-abcd", "cort-ef12"], names);
}

#[test]
fn address_use_is_a_text_search() {
    let ip = Ipv4Net::new(addr(10, 10, 1, 2), 16);
    assert!(is_ip_address_used(&ip, "inet 10.10.1.2/16 brd ..."));
    assert!(!is_ip_address_used(&ip, "inet 10.10.1.3/16 brd ..."));
}

#[test]
fn free_ip_search_skips_reserved_and_taken_addresses() {
    let base = Ipv4Net::new(addr(10, 0, 0, 0), 29);
    let outputs = vec![
        "inet 10.0.0.1/29".to_string(),
        "inet 10.0.0.2/29".to_string(),
    ];
    let free = find_free_ip_address(base, &outputs).unwrap();
    assert_eq!(Ipv4Net::new(addr(10, 0, 0, 3), 29), free);
}

#[test]
fn full_subnet_reports_network_is_full() {
    let base = Ipv4Net::new(addr(10, 0, 0, 0), 30);
    let outputs = vec!["10.0.0.1/30 and 10.0.0.2/30".to_string()];
    let result = find_free_ip_address(base, &outputs);
    assert!(matches!(
        result,
        Err(cort::model::ContainerRuntimeError::NetworkIsFull)
    ));
}

#[test]
fn route_output_names_the_interface_in_field_five() {
    let output = "8.8.8.8 via 192.168.1.1 dev wlan0 src 192.168.1.5 uid 0";
    assert_eq!("wlan0", route_interface(output).unwrap().as_str());
    assert!(route_interface("too short").is_none());
}

#[test]
fn clone_flags_add_the_network_namespace_only_when_bridged() {
    let plain = CLONE_NEWPID + CLONE_NEWNS + CLONE_NEWUTS + SIGCHLD;
    assert_eq!(plain, clone_flags(false));
    assert_eq!(plain + CLONE_NEWNET, clone_flags(true));
}

#[test]
fn cgroup_plans_write_task_then_quotas() {
    let plan = setup_cpu_cgroup_plan("abc", Some(256), 42);
    assert_eq!(3, plan.len());
    match &plan[0] {
        ChildAction::EnsureDir { path } => {
            assert_eq!("/sys/fs/cgroup/cpu/container_runtime/abc", path.as_str())
        }
        _ => panic!("expected the directory"),
    }
    match &plan[1] {
        ChildAction::WriteFile { path, content } => {
            assert_eq!("/sys/fs/cgroup/cpu/container_runtime/abc/tasks", path.as_str());
            assert_eq!("42", content.as_str());
        }
        _ => panic!("expected the tasks write"),
    }
    match &plan[2] {
        ChildAction::WriteFile { path, content } => {
            assert_eq!(
                "/sys/fs/cgroup/cpu/container_runtime/abc/cpu.shares",
                path.as_str()
            );
            assert_eq!("256", content.as_str());
        }
        _ => panic!("expected the quota write"),
    }

    let memory = setup_memory_cgroup_plan("abc", Some(1048576), None, 42);
    assert_eq!(3, memory.len());
    match &memory[2] {
        ChildAction::WriteFile { path, content } => {
            assert_eq!(
                "/sys/fs/cgroup/memory/container_runtime/abc/memory.limit_in_bytes",
                path.as_str()
            );
            assert_eq!("1048576", content.as_str());
        }
        _ => panic!("expected the memory quota"),
    }
    let without = setup_memory_cgroup_plan("abc", None, None, 42);
    assert_eq!(2, without.len());
}

#[test]
fn resolver_content_lists_each_server() {
    let dns = DNSSpec::Server(vec!["8.8.8.8".to_string(), "8.8.4.4".to_string()]);
    assert_eq!(
        "nameserver 8.8.8.8\nnameserver 8.8.4.4\n",
        resolv_conf_content(&dns, "").as_str()
    );
    let host = DNSSpec::CopyFromHost;
    assert_eq!(
        "nameserver 1.1.1.1\n",
        resolv_conf_content(&host, "nameserver 1.1.1.1\n").as_str()
    );
}

#[test]
fn overlay_plan_builds_the_three_layers() {
    let (plan, new_root) = create_container_root_plan("images/alpine/rootfs", "containers/abc");
    assert_eq!("containers/abc/rootfs", new_root.as_str());
    assert_eq!(4, plan.len());
    match &plan[3] {
        ChildAction::Mount { source, target, fstype, flags, data } => {
            assert_eq!(Some("overlay".to_string()), *source);
            assert_eq!("containers/abc/rootfs", target.as_str());
            assert_eq!(Some("overlay".to_string()), *fstype);
            assert_eq!(MS_NODEV, *flags);
            assert_eq!(
                Some(
                    "lowerdir=images/alpine/rootfs,upperdir=containers/abc/cow_rw,workdir=containers/abc/cow_workdir"
                        .to_string()
                ),
                *data
            );
        }
        _ => panic!("expected the overlay mount"),
    }
}

#[test]
fn mount_plan_covers_proc_sys_dev_and_pts() {
    let plan = setup_mounts_plan("root");
    assert_eq!(5, plan.len());
    match &plan[2] {
        ChildAction::Mount { source, target, flags, data, .. } => {
            assert_eq!(Some("tmpfs".to_string()), *source);
            assert_eq!("root/dev", target.as_str());
            assert_eq!(MS_NOSUID + MS_STRICTATIME, *flags);
            assert_eq!(Some("mode=755".to_string()), *data);
        }
        _ => panic!("expected the device filesystem"),
    }
    assert!(matches!(&plan[3], ChildAction::EnsureDir { path } if path.as_str() == "root/dev/pts"));
}

#[test]
fn device_plan_synthesizes_streams_and_nodes() {
    let plan = setup_devices_plan("root");
    assert_eq!(10, plan.len());
    assert!(matches!(
        &plan[0],
        ChildAction::Symlink { target, linkpath }
            if target.as_str() == "/proc/self/fd/0" && linkpath.as_str() == "root/dev/stdin"
    ));
    match &plan[3] {
        ChildAction::MakeCharDevice { path, mode, major, minor } => {
            assert_eq!("root/dev/null", path.as_str());
            assert_eq!(CHAR_DEVICE_MODE, *mode);
            assert_eq!((1, 3), (*major, *minor));
        }
        _ => panic!("expected the null device"),
    }
    match &plan[7] {
        ChildAction::MakeCharDevice { path, major, minor, .. } => {
            assert_eq!("root/dev/console", path.as_str());
            assert_eq!((136, 1), (*major, *minor));
        }
        _ => panic!("expected the console device"),
    }
}

#[test]
fn in_root_plan_rebases_binds_and_ends_with_the_pivot() {
    let binds = vec![BindMountSpec {
        source: "/tmp/host".to_string(),
        target: "/mnt/in".to_string(),
    }];
    let plan = setup_container_root_plan("root", "/home/u", &binds);
    assert_eq!(5 + 10 + 1 + 2 + 4, plan.len());
    assert!(matches!(
        &plan[15],
        ChildAction::EnsureDir { path } if path.as_str() == "root/old_root"
    ));
    assert!(matches!(
        &plan[16],
        ChildAction::EnsureDir { path } if path.as_str() == "root/mnt/in"
    ));
    match &plan[17] {
        ChildAction::Mount { source, target, fstype, flags, data } => {
            assert_eq!(Some("/tmp/host".to_string()), *source);
            assert_eq!("root/mnt/in", target.as_str());
            assert_eq!(None, *fstype);
            assert_eq!(MS_BIND, *flags);
            assert_eq!(None, *data);
        }
        _ => panic!("expected the bind mount"),
    }
    assert!(matches!(
        &plan[18],
        ChildAction::PivotRoot { new_root, old_root }
            if new_root.as_str() == "root" && old_root.as_str() == "root/old_root"
    ));
    assert!(matches!(&plan[19], ChildAction::ChangeDir { path } if path.as_str() == "/home/u"));
    assert!(matches!(&plan[20], ChildAction::UnmountDetach { path } if path.as_str() == "/old_root"));
    assert!(matches!(&plan[21], ChildAction::RemoveDir { path } if path.as_str() == "/old_root"));
    assert_eq!("base/mnt/in", rebase_target("base", "/mnt/in").as_str());
    assert_eq!("base/rel", rebase_target("base", "rel").as_str());
}

#[test]
fn user_plan_sets_home_then_gid_then_uid() {
    let user = User {
        username: "ubuntu".to_string(),
        id: 1000,
        group_id: Some(1000),
        home_folder: "/home/ubuntu".to_string(),
    };
    let plan = setup_user_plan(&user);
    assert_eq!(3, plan.len());
    assert!(matches!(
        &plan[0],
        ChildAction::SetEnv { name, value }
            if name.as_str() == "HOME" && value.as_str() == "/home/ubuntu"
    ));
    assert!(matches!(&plan[1], ChildAction::SetGid { gid: 1000 }));
    assert!(matches!(&plan[2], ChildAction::SetUid { uid: 1000 }));
}

fn bridged_spec() -> RunContainerSpec {
    let bridge = BridgeSpec::get_default(None);
    let bridged = BridgedNetworkSpec::from_bridge(
        &bridge,
        Ipv4Net::new(addr(10, 10, 1, 2), 16),
    )
    .with_hostname(Some("alpine0".to_string()));
    RunContainerSpec {
        image_base_dir: "images".to_string(),
        containers_base_dir: "containers".to_string(),
        id: "abcd1234".to_string(),
        name: "alpine0".to_string(),
        image: "alpine".to_string(),
        command: vec!["/bin/hostname".to_string()],
        network: NetworkSpec::Bridged(bridged),
        dns: DNSSpec::Server(vec!["8.8.8.8".to_string()]),
        user: Some(UserSpec::Name("ubuntu".to_string())),
        cpu_shares: Some(256),
        memory: Some(1 << 30),
        memory_swap: None,
        bind_mounts: Vec::new(),
    }
}

#[test]
fn spec_paths_and_names_derive_from_the_id() {
    let spec = bridged_spec();
    assert_eq!("images/alpine/rootfs", spec.image_root().as_str());
    assert_eq!("images/alpine.tar", spec.image_archive().as_str());
    assert_eq!("containers/abcd1234", spec.container_root().as_str());
    assert_eq!("cort-abcd", spec.network_namespace().unwrap().as_str());
    assert_eq!("alpine0", spec.hostname().unwrap().as_str());
    assert!(!spec.network.is_host());
    assert_eq!("/run/netns/cort-abcd", netns_path("cort-abcd").as_str());
}

#[test]
fn prelude_plan_joins_cgroups_then_namespace_then_builds_the_root() {
    let spec = bridged_spec();
    let (plan, new_root) = child_prelude_plan(&spec, 77);
    assert_eq!("containers/abcd1234/rootfs", new_root.as_str());
    // cpu: dir, tasks, shares; memory: dir, tasks, limit; join; hostname;
    // privatize; overlay: three dirs and the mount.
    assert_eq!(3 + 3 + 2 + 1 + 4, plan.len());
    assert!(matches!(
        &plan[6],
        ChildAction::JoinNamespace { path } if path.as_str() == "/run/netns/cort-abcd"
    ));
    assert!(matches!(
        &plan[7],
        ChildAction::SetHostname { name } if name.as_str() == "alpine0"
    ));
    match &plan[8] {
        ChildAction::Mount { source, target, fstype, flags, data } => {
            assert_eq!(None, *source);
            assert_eq!("/", target.as_str());
            assert_eq!(None, *fstype);
            assert_eq!(MS_PRIVATE + MS_REC, *flags);
            assert_eq!(None, *data);
        }
        _ => panic!("expected the propagation fence"),
    }
}

#[test]
fn completion_plan_runs_to_the_exec_as_the_resolved_user() {
    let spec = bridged_spec();
    let users = User::from_passwd_file("ubuntu:x:1000:1000::/home/ubuntu:/bin/bash\n");
    let plan = child_completion_plan(&spec, &users, "").unwrap();
    match &plan[0] {
        ChildAction::WriteFile { path, content } => {
            assert_eq!("containers/abcd1234/rootfs/etc/resolv.conf", path.as_str());
            assert_eq!("nameserver 8.8.8.8\n", content.as_str());
        }
        _ => panic!("expected the resolver write"),
    }
    // resolver write; the in-root sequence; three credential steps; exec.
    assert_eq!(1 + 20 + 3 + 1, plan.len());
    assert!(matches!(
        &plan[plan.len() - 4],
        ChildAction::SetEnv { name, value }
            if name.as_str() == "HOME" && value.as_str() == "/home/ubuntu"
    ));
    match &plan[plan.len() - 1] {
        ChildAction::Exec { argv } => {
            let argv: Vec<&str> = argv.iter().map(|s| s.as_str()).collect();
            assert_eq!(vec!["/bin/hostname"], argv);
        }
        _ => panic!("expected the exec last"),
    }
    // the working directory is the resolved user's home
    assert!(plan.iter().any(|a| matches!(
        a,
        ChildAction::ChangeDir { path } if path.as_str() == "/home/ubuntu"
    )));
}

#[test]
fn completion_plan_fails_on_an_unknown_name() {
    let spec = bridged_spec();
    let users = User::from_passwd_file("root:x:0:0:root:/root:/bin/bash\n");
    let result = child_completion_plan(&spec, &users, "");
    assert!(matches!(
        result,
        Err(cort::model::ContainerRuntimeError::InvalidUser(UserSpec::Name(_)))
    ));
}

#[test]
fn subnets_of_only_reserved_addresses_are_always_full() {
    let outputs: Vec<String> = Vec::new();
    let single = Ipv4Net::new(addr(10, 0, 0, 7), 32);
    assert!(matches!(
        find_free_ip_address(single, &outputs),
        Err(cort::model::ContainerRuntimeError::NetworkIsFull)
    ));
    let pair = Ipv4Net::new(addr(10, 0, 0, 6), 31);
    assert!(matches!(
        find_free_ip_address(pair, &outputs),
        Err(cort::model::ContainerRuntimeError::NetworkIsFull)
    ));
}

#[test]
fn default_dns_follows_the_network_mode() {
    let host = NetworkSpec::Host;
    assert!(matches!(host.default_dns(), DNSSpec::CopyFromHost));
    let bridge = BridgeSpec::get_default(None);
    let bridged = NetworkSpec::Bridged(BridgedNetworkSpec::from_bridge(
        &bridge,
        Ipv4Net::new(addr(10, 10, 1, 2), 16),
    ));
    match bridged.default_dns() {
        DNSSpec::Server(servers) => {
            let servers: Vec<&str> = servers.iter().map(|s| s.as_str()).collect();
            assert_eq!(vec!["8.8.8.8", "8.8.4.4"], servers);
        }
        _ => panic!("expected the stock resolvers"),
    }
}
