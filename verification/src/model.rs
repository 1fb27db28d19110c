//! The error kinds of the runtime, and the user records read from the
//! image's user database. A database is a colon-separated text: one record
//! per line, with the name first, the user and group ids third and fourth,
//! and the home folder sixth; lines with fewer than six fields, or whose
//! id fields are not signed decimals, are ignored, and a later record for
//! an id replaces the earlier one in place.

use vstd::prelude::*;

verus! {

use crate::text::{split_on, lines_of, lines_of_str, split_on_char, valid_i32_str, i32_str_val,
    parse_i32};
use crate::specs::UserSpec;

/// The index of the first element satisfying `p`, or -1.
pub open spec fn find_first<T>(s: Seq<T>, p: spec_fn(T) -> bool) -> int
    decreases s.len(),
{
    if s.len() == 0 {
        -1
    } else if p(s[0]) {
        0
    } else {
        let r = find_first(s.drop_first(), p);
        if r < 0 {
            -1
        } else {
            r + 1
        }
    }
}

pub proof fn lemma_find_first<T>(s: Seq<T>, p: spec_fn(T) -> bool)
    ensures
        find_first(s, p) == -1 ==> forall|i: int| 0 <= i < s.len() ==> !p(#[trigger] s[i]),
        find_first(s, p) != -1 ==> {
            &&& 0 <= find_first(s, p) < s.len()
            &&& p(s[find_first(s, p)])
            &&& forall|i: int| 0 <= i < find_first(s, p) ==> !p(#[trigger] s[i])
        },
    decreases s.len(),
{
    if s.len() == 0 {
    } else if p(s[0]) {
    } else {
        let tail = s.drop_first();
        lemma_find_first(tail, p);
        assert(forall|i: int| 1 <= i < s.len() ==> s[i] == tail[i - 1]);
        let r = find_first(tail, p);
        if r >= 0 {
            assert(s[r + 1] == tail[r]);
            assert forall|i: int| 0 <= i < r + 1 implies !p(s[i]) by {
                if i >= 1 {
                    assert(s[i] == tail[i - 1]);
                }
            }
        }
    }
}

/// The mathematical shape of one user record.
pub ghost struct UserModel {
    pub username: Seq<char>,
    pub id: int,
    pub group_id: Option<int>,
    pub home_folder: Seq<char>,
}

/// One user record from the image's user database.
#[derive(Debug, Clone)]
pub struct User {
    pub username: String,
    pub id: i32,
    pub group_id: Option<i32>,
    pub home_folder: String,
}

impl DeepView for User {
    type V = UserModel;

    open spec fn deep_view(&self) -> UserModel {
        UserModel {
            username: self.username@,
            id: self.id as int,
            group_id: match self.group_id {
                Some(g) => Some(g as int),
                None => None,
            },
            home_folder: self.home_folder@,
        }
    }
}

impl User {
    /// A copy of the record, field for field.
    pub fn duplicate(&self) -> (r: User)
        ensures
            r.deep_view() == self.deep_view(),
    {
        User {
            username: self.username.clone(),
            id: self.id,
            group_id: self.group_id,
            home_folder: self.home_folder.clone(),
        }
    }
}

/// The record one database line stands for, where the line has one.
pub open spec fn passwd_line_user(line: Seq<char>) -> Option<UserModel> {
    let fields = split_on(line, ':');
    if fields.len() >= 6 && valid_i32_str(fields[2]) && valid_i32_str(fields[3]) {
        Some(
            UserModel {
                username: fields[0],
                id: i32_str_val(fields[2]),
                group_id: Some(i32_str_val(fields[3])),
                home_folder: fields[5],
            },
        )
    } else {
        None
    }
}

/// Adding a record: it replaces the first record carrying its id, or
/// comes last where the id is new.
pub open spec fn upsert_user(users: Seq<UserModel>, u: UserModel) -> Seq<UserModel> {
    let i = find_first(users, |x: UserModel| x.id == u.id);
    if i < 0 {
        users.push(u)
    } else {
        users.update(i, u)
    }
}

/// The records of the first `n` lines, read in order.
pub open spec fn passwd_fold(lines: Seq<Seq<char>>, n: int) -> Seq<UserModel>
    decreases n,
{
    if n <= 0 {
        Seq::empty()
    } else {
        let prev = passwd_fold(lines, n - 1);
        match passwd_line_user(lines[n - 1]) {
            Some(u) => upsert_user(prev, u),
            None => prev,
        }
    }
}

/// All the records a user database text holds.
pub open spec fn parse_passwd(content: Seq<char>) -> Seq<UserModel> {
    passwd_fold(lines_of(content), lines_of(content).len() as int)
}

impl User {
    /// Reads every record out of the text of a user database.
    pub fn from_passwd_file(content: &str) -> (r: Vec<User>)
        ensures
            r.deep_view() == parse_passwd(content@),
    {
        let lines = lines_of_str(content);
        let ghost lseq = lines.deep_view();
        let mut users: Vec<User> = Vec::new();
        let mut li: usize = 0;
        while li < lines.len()
            invariant
                0 <= li <= lines@.len(),
                lseq == lines.deep_view(),
                users.deep_view() == passwd_fold(lseq, li as int),
            decreases lines@.len() - li,
        {
            proof {
                assert(lines.deep_view()[li as int] == lines@[li as int]@);
            }
            let fields = split_on_char(lines[li].as_str(), ':');
            let ghost fseq = split_on(lseq[li as int], ':');
            proof {
                assert(fields.deep_view() == fseq);
                assert(fields.deep_view().len() == fields@.len());
            }
            if fields.len() >= 6 {
                proof {
                    assert(fields.deep_view()[0] == fields@[0]@);
                    assert(fields.deep_view()[2] == fields@[2]@);
                    assert(fields.deep_view()[3] == fields@[3]@);
                    assert(fields.deep_view()[5] == fields@[5]@);
                }
                let id = parse_i32(fields[2].as_str());
                let gid = parse_i32(fields[3].as_str());
                match (id, gid) {
                    (Some(id), Some(gid)) => {
                        let u = User {
                            username: fields[0].clone(),
                            id,
                            group_id: Some(gid),
                            home_folder: fields[5].clone(),
                        };
                        proof {
                            assert(passwd_line_user(lseq[li as int]) == Some(u.deep_view()));
                        }
                        upsert_user_vec(&mut users, u);
                    },
                    _ => {
                        proof {
                            assert(passwd_line_user(lseq[li as int]) is None);
                        }
                    },
                }
            } else {
                proof {
                    assert(passwd_line_user(lseq[li as int]) is None);
                }
            }
            li = li + 1;
        }
        users
    }
}

/// Puts one record into the list: in place of the first record with the
/// same id, or at the end.
#[verifier::loop_isolation(false)]
fn upsert_user_vec(users: &mut Vec<User>, u: User)
    ensures
        final(users).deep_view() == upsert_user(old(users).deep_view(), u.deep_view()),
{
    let ghost useq = old(users).deep_view();
    let ghost p = |x: UserModel| x.id == u.deep_view().id;
    let n = users.len();
    let mut i: usize = 0;
    while i < n
        invariant
            0 <= i <= n,
            n == users@.len(),
            *users == *old(users),
            useq == users.deep_view(),
            forall|j: int| 0 <= j < i ==> !p(#[trigger] useq[j]),
        decreases n - i,
    {
        proof {
            assert(users.deep_view()[i as int] == users@[i as int].deep_view());
        }
        if users[i].id == u.id {
            proof {
                lemma_find_first(useq, p);
                assert(p(useq[i as int]));
                assert(find_first(useq, p) == i);
            }
            let ghost before = users.deep_view();
            users[i] = u;
            proof {
                assert(users.deep_view() =~= before.update(i as int, u.deep_view()));
            }
            return ;
        }
        i = i + 1;
    }
    proof {
        lemma_find_first(useq, p);
        if find_first(useq, p) >= 0 {
            assert(p(useq[find_first(useq, p)]));
            assert(false);
        }
    }
    let ghost before = users.deep_view();
    users.push(u);
    proof {
        assert(users.deep_view() =~= before.push(u.deep_view()));
    }
}


/// Every failure the runtime reports, each with what it carries.
#[derive(Debug)]
pub enum ContainerRuntimeError {
    CreateNetworkBridge(String),
    CreateNetworkNamespace(String),
    DestroyNetworkNamespace(String),
    SetupCpuCgroup(String),
    SetupMemoryCgroup(String),
    SetupNetwork(String),
    SetupDNS(String),
    SetupUser(String),
    SetupContainerRoot(String),
    SetupMounts(String),
    SetupDevices(String),
    InvalidUser(UserSpec),
    NetworkIsFull,
    FailedToDetermineInternetInterface(String),
    IPCommand(String),
    IPTablesCommand(String),
    Mount(String),
    Execute(String),
    IO(String),
    Libc(String),
    Input(String),
}

pub type ContainerRuntimeResult<T> = Result<T, ContainerRuntimeError>;

impl ContainerRuntimeError {
    /// The one-line rendering of the failure.
    pub open spec fn spec_message(self) -> Seq<char> {
        match self {
            ContainerRuntimeError::CreateNetworkBridge(m) => "Failed to create network bridge: "@
                + m@,
            ContainerRuntimeError::CreateNetworkNamespace(m) => {
                "Failed to create network namespace: "@ + m@
            },
            ContainerRuntimeError::DestroyNetworkNamespace(m) => {
                "Failed to destroy network namespace: "@ + m@
            },
            ContainerRuntimeError::SetupCpuCgroup(m) => "Failed to setup cpu cgroup: "@ + m@,
            ContainerRuntimeError::SetupMemoryCgroup(m) => "Failed to setup memory cgroup: "@ + m@,
            ContainerRuntimeError::SetupNetwork(m) => "Failed to setup network stack: "@ + m@,
            ContainerRuntimeError::SetupDNS(m) => "Failed to setup DNS: "@ + m@,
            ContainerRuntimeError::SetupUser(m) => "Failed to setup user: "@ + m@,
            ContainerRuntimeError::SetupContainerRoot(m) => "Failed to setup container root: "@
                + m@,
            ContainerRuntimeError::SetupMounts(m) => "Failed to setup mounts: "@ + m@,
            ContainerRuntimeError::SetupDevices(m) => "Failed to setup devices: "@ + m@,
            ContainerRuntimeError::InvalidUser(u) => "User not found: "@ + u.spec_describe(),
            ContainerRuntimeError::NetworkIsFull => "No free IP address found in network"@,
            ContainerRuntimeError::FailedToDetermineInternetInterface(m) => {
                "Failed to determine internet interface: "@ + m@
            },
            ContainerRuntimeError::IPCommand(m) => "IP command failure: "@ + m@,
            ContainerRuntimeError::IPTablesCommand(m) => "IPTables command failure: "@ + m@,
            ContainerRuntimeError::Mount(m) => "Failed to mount: "@ + m@,
            ContainerRuntimeError::Execute(m) => "Failed to execute: "@ + m@,
            ContainerRuntimeError::IO(m) => "I/O error: "@ + m@,
            ContainerRuntimeError::Libc(m) => "Libc error: "@ + m@,
            ContainerRuntimeError::Input(m) => "Invalid input: "@ + m@,
        }
    }

    /// Renders the failure as one line.
    pub fn message(&self) -> (r: String)
        ensures
            r@ == self.spec_message(),
    {
        match self {
            ContainerRuntimeError::CreateNetworkBridge(m) => String::from_str(
                "Failed to create network bridge: ",
            ).concat(m.as_str()),
            ContainerRuntimeError::CreateNetworkNamespace(m) => String::from_str(
                "Failed to create network namespace: ",
            ).concat(m.as_str()),
            ContainerRuntimeError::DestroyNetworkNamespace(m) => String::from_str(
                "Failed to destroy network namespace: ",
            ).concat(m.as_str()),
            ContainerRuntimeError::SetupCpuCgroup(m) => String::from_str(
                "Failed to setup cpu cgroup: ",
            ).concat(m.as_str()),
            ContainerRuntimeError::SetupMemoryCgroup(m) => String::from_str(
                "Failed to setup memory cgroup: ",
            ).concat(m.as_str()),
            ContainerRuntimeError::SetupNetwork(m) => String::from_str(
                "Failed to setup network stack: ",
            ).concat(m.as_str()),
            ContainerRuntimeError::SetupDNS(m) => String::from_str("Failed to setup DNS: ").concat(
                m.as_str(),
            ),
            ContainerRuntimeError::SetupUser(m) => String::from_str(
                "Failed to setup user: ",
            ).concat(m.as_str()),
            ContainerRuntimeError::SetupContainerRoot(m) => String::from_str(
                "Failed to setup container root: ",
            ).concat(m.as_str()),
            ContainerRuntimeError::SetupMounts(m) => String::from_str(
                "Failed to setup mounts: ",
            ).concat(m.as_str()),
            ContainerRuntimeError::SetupDevices(m) => String::from_str(
                "Failed to setup devices: ",
            ).concat(m.as_str()),
            ContainerRuntimeError::InvalidUser(u) => String::from_str("User not found: ").concat(
                u.describe().as_str(),
            ),
            ContainerRuntimeError::NetworkIsFull => String::from_str(
                "No free IP address found in network",
            ),
            ContainerRuntimeError::FailedToDetermineInternetInterface(m) => String::from_str(
                "Failed to determine internet interface: ",
            ).concat(m.as_str()),
            ContainerRuntimeError::IPCommand(m) => String::from_str("IP command failure: ").concat(
                m.as_str(),
            ),
            ContainerRuntimeError::IPTablesCommand(m) => String::from_str(
                "IPTables command failure: ",
            ).concat(m.as_str()),
            ContainerRuntimeError::Mount(m) => String::from_str("Failed to mount: ").concat(
                m.as_str(),
            ),
            ContainerRuntimeError::Execute(m) => String::from_str("Failed to execute: ").concat(
                m.as_str(),
            ),
            ContainerRuntimeError::IO(m) => String::from_str("I/O error: ").concat(m.as_str()),
            ContainerRuntimeError::Libc(m) => String::from_str("Libc error: ").concat(m.as_str()),
            ContainerRuntimeError::Input(m) => String::from_str("Invalid input: ").concat(
                m.as_str(),
            ),
        }
    }
}

} // verus!
