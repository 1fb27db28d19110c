use cort::model::{ContainerRuntimeError, User};
use cort::specs::{
    BindMountSpec, DNSSpec, NetworkSpec, RunContainerSpec, UserSpec,
};

fn plain_spec(user: Option<UserSpec>) -> RunContainerSpec {
    RunContainerSpec {
        image_base_dir: "images".to_string(),
        containers_base_dir: "containers".to_string(),
        id: "0123456789abcdef".to_string(),
        name: "box0".to_string(),
        image: "alpine".to_string(),
        command: vec!["/bin/true".to_string()],
        network: NetworkSpec::Host,
        dns: DNSSpec::CopyFromHost,
        user,
        cpu_shares: None,
        memory: None,
        memory_swap: None,
        bind_mounts: Vec::<BindMountSpec>::new(),
    }
}

#[test]
fn name_selector_without_match_gives_nothing() {
    let users = User::from_passwd_file("root:x:0:0:root:/root:/bin/bash\n");
    let selector = UserSpec::Name("alice".to_string());
    assert!(selector.find_user(&users).is_none());
}

#[test]
fn name_selector_without_match_is_an_invalid_user() {
    let users = User::from_passwd_file("root:x:0:0:root:/root:/bin/bash\n");
    let spec = plain_spec(Some(UserSpec::Name("alice".to_string())));
    let resolved = spec.user(&users).unwrap();
    match resolved {
        Err(ContainerRuntimeError::InvalidUser(UserSpec::Name(n))) => {
            assert_eq!("alice", n.as_str());
        }
        _ => panic!("expected the invalid-user failure"),
    }
}

#[test]
fn id_selector_synthesizes_on_empty_database() {
    let users = User::from_passwd_file("");
    assert!(users.is_empty());
    let selector = UserSpec::Id(4242);
    let resolved = selector.find_user(&users).unwrap();
    assert_eq!("unknown", resolved.username.as_str());
    assert_eq!(4242, resolved.id);
    assert_eq!(None, resolved.group_id);
    assert_eq!("/root", resolved.home_folder.as_str());
}

#[test]
fn id_and_group_selector_takes_the_matching_record() {
    let users = User::from_passwd_file("ubuntu:x:1000:1000::/home/ubuntu:/bin/bash\n");
    let selector = UserSpec::IdAndGroupId(1000, 1000);
    let resolved = selector.find_user(&users).unwrap();
    assert_eq!("ubuntu", resolved.username.as_str());
    assert_eq!(1000, resolved.id);
    assert_eq!(Some(1000), resolved.group_id);
    assert_eq!("/home/ubuntu", resolved.home_folder.as_str());
}

#[test]
fn id_and_group_selector_synthesizes_on_group_mismatch() {
    let users = User::from_passwd_file("ubuntu:x:1000:1001::/home/ubuntu:/bin/bash\n");
    let selector = UserSpec::IdAndGroupId(1000, 1000);
    let resolved = selector.find_user(&users).unwrap();
    assert_eq!("unknown", resolved.username.as_str());
    assert_eq!(1000, resolved.id);
    assert_eq!(Some(1000), resolved.group_id);
    assert_eq!("/root", resolved.home_folder.as_str());
}

#[test]
fn passwd_lines_with_too_few_fields_are_ignored() {
    let users = User::from_passwd_file("short:line\nroot:x:0:0:root:/root:/bin/bash\n");
    assert_eq!(1, users.len());
    assert_eq!("root", users[0].username.as_str());
}

#[test]
fn passwd_lines_with_bad_numbers_are_ignored() {
    let users = User::from_passwd_file("odd:x:abc:0:root:/root:/bin/bash\nroot:x:0:0:root:/root:/bin/bash\n");
    assert_eq!(1, users.len());
    assert_eq!("root", users[0].username.as_str());
}

#[test]
fn later_record_replaces_the_same_id_in_place() {
    let users = User::from_passwd_file(
        "first:x:7:1:a:/home/first:/bin/sh\nother:x:8:1:b:/home/other:/bin/sh\nsecond:x:7:2:c:/home/second:/bin/sh\n",
    );
    assert_eq!(2, users.len());
    assert_eq!("second", users[0].username.as_str());
    assert_eq!(Some(2), users[0].group_id);
    assert_eq!("other", users[1].username.as_str());
}

#[test]
fn passwd_reader_strips_carriage_returns() {
    let users = User::from_passwd_file("root:x:0:0:root:/root:/bin/bash\r\n");
    assert_eq!(1, users.len());
    assert_eq!("root", users[0].username.as_str());
    assert_eq!("/root", users[0].home_folder.as_str());
}

#[test]
fn negative_and_signed_ids_are_read() {
    let users = User::from_passwd_file("odd:x:-2:+5:c:/home/odd:/bin/sh\n");
    assert_eq!(1, users.len());
    assert_eq!(-2, users[0].id);
    assert_eq!(Some(5), users[0].group_id);
}

#[test]
fn error_messages_render_their_kind_and_payload() {
    assert_eq!(
        "No free IP address found in network",
        ContainerRuntimeError::NetworkIsFull.message().as_str()
    );
    assert_eq!(
        "User not found: Name(\"alice\")",
        ContainerRuntimeError::InvalidUser(UserSpec::Name("alice".to_string()))
            .message()
            .as_str()
    );
    assert_eq!(
        "User not found: IdAndGroupId(1000, -3)",
        ContainerRuntimeError::InvalidUser(UserSpec::IdAndGroupId(1000, -3))
            .message()
            .as_str()
    );
    assert_eq!(
        "Failed to mount: device busy",
        ContainerRuntimeError::Mount("device busy".to_string())
            .message()
            .as_str()
    );
    assert_eq!(
        "IP command failure: no such device",
        ContainerRuntimeError::IPCommand("no such device".to_string())
            .message()
            .as_str()
    );
}

#[test]
fn libc_results_are_sorted_by_sign() {
    let ok = cort::linux::wrap_libc_error(7, "unused".to_string());
    assert_eq!(7, ok.unwrap());
    let err = cort::linux::wrap_libc_error(-1, "Operation not permitted".to_string());
    match err {
        Err(ContainerRuntimeError::Libc(m)) => {
            assert_eq!("Operation not permitted", m.as_str())
        }
        _ => panic!("expected the libc failure"),
    }
}

#[test]
fn guards_hold_their_directory() {
    let guard = cort::helpers::RemoveDirGuard::new("containers/abc".to_string());
    assert_eq!("containers/abc", guard.dir().as_str());
}
