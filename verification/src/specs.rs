//! The value objects describing a container launch: the run specification,
//! the network and DNS choices, the user selector, and the bridge shapes.

use vstd::prelude::*;

verus! {

use crate::model::{User, UserModel, find_first, lemma_find_first, ContainerRuntimeError,
    ContainerRuntimeResult};
use crate::net::Ipv4Net;
use crate::text::{path_join, join_path};

/// How the caller names the user to run as.
#[derive(Debug, Clone)]
pub enum UserSpec {
    Name(String),
    Id(i32),
    IdAndGroupId(i32, i32),
}

/// The record a selector synthesizes when no database record matches an
/// id selector: the name `unknown`, the requested ids, home `/root`.
pub open spec fn synthesized_user(id: int, group_id: Option<int>) -> UserModel {
    UserModel { username: "unknown"@, id, group_id, home_folder: "/root"@ }
}

impl UserSpec {
    /// The record a selector picks out of a database: a name selector
    /// takes the first record with that name or nothing; an id selector
    /// takes the first record with that id, or synthesizes one; an
    /// id-and-group selector matches on both ids, or synthesizes.
    pub open spec fn spec_find_user(self, users: Seq<UserModel>) -> Option<UserModel> {
        match self {
            UserSpec::Name(name) => {
                let i = find_first(users, |u: UserModel| u.username == name@);
                if i < 0 {
                    None
                } else {
                    Some(users[i])
                }
            },
            UserSpec::Id(id) => {
                let i = find_first(users, |u: UserModel| u.id == id as int);
                if i < 0 {
                    Some(synthesized_user(id as int, None))
                } else {
                    Some(users[i])
                }
            },
            UserSpec::IdAndGroupId(id, gid) => {
                let i = find_first(
                    users,
                    |u: UserModel| u.id == id as int && u.group_id == Some(gid as int),
                );
                if i < 0 {
                    Some(synthesized_user(id as int, Some(gid as int)))
                } else {
                    Some(users[i])
                }
            },
        }
    }

    /// Resolves the selector against the given records.
    #[verifier::loop_isolation(false)]
    pub fn find_user(&self, users: &Vec<User>) -> (r: Option<User>)
        ensures
            match r {
                Some(u) => self.spec_find_user(users.deep_view()) == Some(u.deep_view()),
                None => self.spec_find_user(users.deep_view()) is None,
            },
    {
        let ghost useq = users.deep_view();
        match self {
            UserSpec::Name(name) => {
                let ghost p = |u: UserModel| u.username == name@;
                let n = users.len();
                let mut i: usize = 0;
                while i < n
                    invariant
                        0 <= i <= n,
                        n == users@.len(),
                        useq == users.deep_view(),
                        forall|j: int| 0 <= j < i ==> !p(#[trigger] useq[j]),
                    decreases n - i,
                {
                    proof {
                        assert(useq[i as int] == users@[i as int].deep_view());
                    }
                    if users[i].username.eq(name) {
                        proof {
                            lemma_find_first(useq, p);
                            assert(p(useq[i as int]));
                            assert(find_first(useq, p) == i);
                        }
                        return Some(users[i].duplicate());
                    }
                    i = i + 1;
                }
                proof {
                    lemma_find_first(useq, p);
                    if find_first(useq, p) >= 0 {
                        assert(p(useq[find_first(useq, p)]));
                        assert(false);
                    }
                }
                None
            },
            UserSpec::Id(id) => {
                let ghost p = |u: UserModel| u.id == *id as int;
                let n = users.len();
                let mut i: usize = 0;
                while i < n
                    invariant
                        0 <= i <= n,
                        n == users@.len(),
                        useq == users.deep_view(),
                        forall|j: int| 0 <= j < i ==> !p(#[trigger] useq[j]),
                    decreases n - i,
                {
                    proof {
                        assert(useq[i as int] == users@[i as int].deep_view());
                    }
                    if users[i].id == *id {
                        proof {
                            lemma_find_first(useq, p);
                            assert(p(useq[i as int]));
                            assert(find_first(useq, p) == i);
                        }
                        return Some(users[i].duplicate());
                    }
                    i = i + 1;
                }
                proof {
                    lemma_find_first(useq, p);
                    if find_first(useq, p) >= 0 {
                        assert(p(useq[find_first(useq, p)]));
                        assert(false);
                    }
                }
                Some(
                    User {
                        username: String::from_str("unknown"),
                        id: *id,
                        group_id: None,
                        home_folder: String::from_str("/root"),
                    },
                )
            },
            UserSpec::IdAndGroupId(id, gid) => {
                let ghost p = |u: UserModel| u.id == *id as int && u.group_id == Some(*gid as int);
                let n = users.len();
                let mut i: usize = 0;
                while i < n
                    invariant
                        0 <= i <= n,
                        n == users@.len(),
                        useq == users.deep_view(),
                        forall|j: int| 0 <= j < i ==> !p(#[trigger] useq[j]),
                    decreases n - i,
                {
                    proof {
                        assert(useq[i as int] == users@[i as int].deep_view());
                    }
                    let same_group = match users[i].group_id {
                        Some(g) => g == *gid,
                        None => false,
                    };
                    if users[i].id == *id && same_group {
                        proof {
                            lemma_find_first(useq, p);
                            assert(p(useq[i as int]));
                            assert(find_first(useq, p) == i);
                        }
                        return Some(users[i].duplicate());
                    }
                    i = i + 1;
                }
                proof {
                    lemma_find_first(useq, p);
                    if find_first(useq, p) >= 0 {
                        assert(p(useq[find_first(useq, p)]));
                        assert(false);
                    }
                }
                Some(
                    User {
                        username: String::from_str("unknown"),
                        id: *id,
                        group_id: Some(*gid),
                        home_folder: String::from_str("/root"),
                    },
                )
            },
        }
    }
}


impl UserSpec {
    /// How a selector prints inside a failure report.
    pub open spec fn spec_describe(self) -> Seq<char> {
        match self {
            UserSpec::Name(s) => "Name(\""@ + s@ + "\")"@,
            UserSpec::Id(n) => "Id("@ + crate::text::int_str(n as int) + ")"@,
            UserSpec::IdAndGroupId(u, g) => "IdAndGroupId("@ + crate::text::int_str(u as int)
                + ", "@ + crate::text::int_str(g as int) + ")"@,
        }
    }

    /// Prints the selector for a failure report.
    pub fn describe(&self) -> (r: String)
        ensures
            r@ == self.spec_describe(),
    {
        match self {
            UserSpec::Name(s) => {
                let mut r = String::from_str("Name(\"");
                r.append(s.as_str());
                r.append("\")");
                r
            },
            UserSpec::Id(n) => {
                let mut r = String::from_str("Id(");
                let num = crate::text::i64_to_dec_string(*n as i64);
                r.append(num.as_str());
                r.append(")");
                r
            },
            UserSpec::IdAndGroupId(u, g) => {
                let mut r = String::from_str("IdAndGroupId(");
                let nu = crate::text::i64_to_dec_string(*u as i64);
                r.append(nu.as_str());
                r.append(", ");
                let ng = crate::text::i64_to_dec_string(*g as i64);
                r.append(ng.as_str());
                r.append(")");
                r
            },
        }
    }
}


/// The mathematical shape of a user selector.
pub ghost enum UserSpecModel {
    Name(Seq<char>),
    Id(int),
    IdAndGroupId(int, int),
}

impl DeepView for UserSpec {
    type V = UserSpecModel;

    open spec fn deep_view(&self) -> UserSpecModel {
        match self {
            UserSpec::Name(s) => UserSpecModel::Name(s@),
            UserSpec::Id(n) => UserSpecModel::Id(*n as int),
            UserSpec::IdAndGroupId(u, g) => UserSpecModel::IdAndGroupId(*u as int, *g as int),
        }
    }
}

impl UserSpec {
    /// A copy of the selector, field for field.
    pub fn duplicate(&self) -> (r: UserSpec)
        ensures
            r.deep_view() == self.deep_view(),
            r.spec_describe() == self.spec_describe(),
    {
        match self {
            UserSpec::Name(s) => UserSpec::Name(s.clone()),
            UserSpec::Id(n) => UserSpec::Id(*n),
            UserSpec::IdAndGroupId(u, g) => UserSpec::IdAndGroupId(*u, *g),
        }
    }
}

/// A pair of directories bound together: the source on the host, the
/// target inside the container.
#[derive(Debug, Clone)]
pub struct BindMountSpec {
    pub source: String,
    pub target: String,
}

/// The mathematical shape of one bind mount.
#[verifier::ext_equal]
pub ghost struct BindMountModel {
    pub source: Seq<char>,
    pub target: Seq<char>,
}

impl DeepView for BindMountSpec {
    type V = BindMountModel;

    open spec fn deep_view(&self) -> BindMountModel {
        BindMountModel { source: self.source@, target: self.target@ }
    }
}

/// Where the container's name service answers come from.
#[derive(Debug, Clone)]
pub enum DNSSpec {
    Server(Vec<String>),
    CopyFromHost,
}

impl Default for DNSSpec {
    /// The stock resolvers used where nothing else is asked for.
    fn default() -> (r: DNSSpec)
        ensures
            r matches DNSSpec::Server(v) && v.deep_view() =~= seq!["8.8.8.8"@, "8.8.4.4"@],
    {
        let mut v: Vec<String> = Vec::new();
        v.push(String::from_str("8.8.8.8"));
        v.push(String::from_str("8.8.4.4"));
        proof {
            assert(v.deep_view() =~= seq!["8.8.8.8"@, "8.8.4.4"@]);
        }
        DNSSpec::Server(v)
    }
}

/// The host bridge a container attaches to.
#[derive(Debug, Clone)]
pub struct BridgeSpec {
    pub physical_interface: Option<String>,
    pub interface: String,
    pub ip_address: Ipv4Net,
}

/// The address the default bridge carries: `10.10.1.1/16`.
pub open spec fn default_bridge_ip() -> Ipv4Net {
    Ipv4Net { address: 0x0A0A_0101, cidr: 16 }
}

impl BridgeSpec {
    pub open spec fn wf(self) -> bool {
        self.ip_address.wf()
    }

    /// The stock bridge: named `cort0`, at `10.10.1.1/16`, masquerading
    /// through the given physical interface where one is known.
    pub fn get_default(physical_interface: Option<String>) -> (r: BridgeSpec)
        ensures
            r.interface@ == "cort0"@,
            r.ip_address == default_bridge_ip(),
            r.physical_interface.deep_view() == physical_interface.deep_view(),
            r.wf(),
    {
        BridgeSpec {
            physical_interface,
            interface: String::from_str("cort0"),
            ip_address: Ipv4Net::new(0x0A0A_0101, 16),
        }
    }
}

/// The network half of a bridged launch.
#[derive(Debug, Clone)]
pub struct BridgedNetworkSpec {
    pub bridge_interface: String,
    pub bridge_ip_address: Ipv4Net,
    pub container_ip_address: Ipv4Net,
    pub hostname: Option<String>,
}

impl BridgedNetworkSpec {
    pub open spec fn wf(self) -> bool {
        self.bridge_ip_address.wf() && self.container_ip_address.wf()
    }

    /// The bridged half for one container: the bridge's name and address
    /// carried over, the given address for the container, no hostname yet.
    pub fn from_bridge(bridge: &BridgeSpec, container_ip_address: Ipv4Net) -> (r:
        BridgedNetworkSpec)
        ensures
            r.bridge_interface@ == bridge.interface@,
            r.bridge_ip_address == bridge.ip_address,
            r.container_ip_address == container_ip_address,
            r.hostname is None,
    {
        BridgedNetworkSpec {
            bridge_interface: bridge.interface.clone(),
            bridge_ip_address: bridge.ip_address,
            container_ip_address,
            hostname: None,
        }
    }

    /// The same network half, with the hostname settled.
    pub fn with_hostname(self, hostname: Option<String>) -> (r: BridgedNetworkSpec)
        ensures
            r.bridge_interface@ == self.bridge_interface@,
            r.bridge_ip_address == self.bridge_ip_address,
            r.container_ip_address == self.container_ip_address,
            r.hostname.deep_view() == hostname.deep_view(),
    {
        BridgedNetworkSpec {
            bridge_interface: self.bridge_interface,
            bridge_ip_address: self.bridge_ip_address,
            container_ip_address: self.container_ip_address,
            hostname,
        }
    }
}

/// Whether a container shares the host's stack or gets a bridged one.
#[derive(Debug, Clone)]
pub enum NetworkSpec {
    Host,
    Bridged(BridgedNetworkSpec),
}

impl NetworkSpec {
    pub open spec fn wf(self) -> bool {
        match self {
            NetworkSpec::Host => true,
            NetworkSpec::Bridged(b) => b.wf(),
        }
    }

    pub open spec fn spec_is_host(self) -> bool {
        self is Host
    }

    pub fn is_host(&self) -> (r: bool)
        ensures
            r == self.spec_is_host(),
    {
        match self {
            NetworkSpec::Host => true,
            _ => false,
        }
    }

    /// Which name service policy a network mode starts from: the host's
    /// own resolvers on the host network, the stock resolvers on a bridge.
    pub fn default_dns(&self) -> (r: DNSSpec)
        ensures
            self.spec_is_host() ==> r is CopyFromHost,
            !self.spec_is_host() ==> (r matches DNSSpec::Server(v) && v.deep_view() =~= seq![
                "8.8.8.8"@,
                "8.8.4.4"@,
            ]),
    {
        if self.is_host() {
            DNSSpec::CopyFromHost
        } else {
            DNSSpec::default()
        }
    }
}

/// Everything one container launch is given.
#[derive(Debug, Clone)]
pub struct RunContainerSpec {
    pub image_base_dir: String,
    pub containers_base_dir: String,
    pub id: String,
    pub name: String,
    pub image: String,
    pub command: Vec<String>,
    pub network: NetworkSpec,
    pub dns: DNSSpec,
    pub user: Option<UserSpec>,
    pub cpu_shares: Option<i64>,
    pub memory: Option<i64>,
    pub memory_swap: Option<i64>,
    pub bind_mounts: Vec<BindMountSpec>,
}

impl RunContainerSpec {
    /// What every launch needs of its specification: an id long enough to
    /// derive the namespace name from, a command to exec, a well-formed
    /// network half.
    pub open spec fn wf(self) -> bool {
        self.id@.len() >= 4 && self.command@.len() > 0 && self.network.wf()
    }

    /// The image's immutable root directory, the overlay's lower layer.
    pub open spec fn spec_image_root(self) -> Seq<char> {
        path_join(path_join(self.image_base_dir@, self.image@), "rootfs"@)
    }

    /// The writable directory owned by this container alone.
    pub open spec fn spec_container_root(self) -> Seq<char> {
        path_join(self.containers_base_dir@, self.id@)
    }

    pub fn image_root(&self) -> (r: String)
        ensures
            r@ == self.spec_image_root(),
    {
        let base = join_path(self.image_base_dir.as_str(), self.image.as_str());
        join_path(base.as_str(), "rootfs")
    }

    /// Where the image's archive would sit.
    pub fn image_archive(&self) -> (r: String)
        ensures
            r@ == path_join(self.image_base_dir@, self.image@ + ".tar"@),
    {
        let name = self.image.clone().concat(".tar");
        let r = join_path(self.image_base_dir.as_str(), name.as_str());
        proof {
            assert(r@ =~= path_join(self.image_base_dir@, self.image@ + ".tar"@));
        }
        r
    }

    pub fn container_root(&self) -> (r: String)
        ensures
            r@ == self.spec_container_root(),
    {
        join_path(self.containers_base_dir.as_str(), self.id.as_str())
    }

    /// The hostname set inside the container: only a bridged one gets
    /// any, the asked-for name or the container's display name.
    pub open spec fn spec_hostname(self) -> Option<Seq<char>> {
        match self.network {
            NetworkSpec::Host => None,
            NetworkSpec::Bridged(b) => Some(
                match b.hostname {
                    Some(h) => h@,
                    None => self.name@,
                },
            ),
        }
    }

    pub fn hostname(&self) -> (r: Option<String>)
        ensures
            r.deep_view() == self.spec_hostname(),
    {
        match &self.network {
            NetworkSpec::Host => None,
            NetworkSpec::Bridged(b) => match &b.hostname {
                Some(h) => Some(h.clone()),
                None => Some(self.name.clone()),
            },
        }
    }

    /// The name of the network namespace a bridged container lives in:
    /// the tool's prefix and the first four characters of the id.
    pub open spec fn spec_network_namespace(self) -> Option<Seq<char>> {
        match self.network {
            NetworkSpec::Host => None,
            NetworkSpec::Bridged(_) => Some("cort-"@ + self.id@.subrange(0, 4)),
        }
    }

    pub fn network_namespace(&self) -> (r: Option<String>)
        requires
            self.wf(),
        ensures
            r.deep_view() == self.spec_network_namespace(),
    {
        match &self.network {
            NetworkSpec::Host => None,
            NetworkSpec::Bridged(_) => {
                let mut r = String::from_str("cort-");
                let head = self.id.as_str().substring_char(0, 4);
                r.append(head);
                Some(r)
            },
        }
    }

    /// Resolves the launch's user selector, where it has one: the record
    /// the selector picks, or the invalid-user failure where a name
    /// selector matches nothing.
    pub fn user(&self, users: &Vec<User>) -> (r: Option<ContainerRuntimeResult<User>>)
        ensures
            r is None <==> self.user is None,
            match r {
                Some(Ok(u)) => self.user matches Some(us) && us.spec_find_user(users.deep_view())
                    == Some(u.deep_view()),
                Some(Err(e)) => self.user matches Some(us)
                    && us.spec_find_user(users.deep_view()) is None && (e matches
                ContainerRuntimeError::InvalidUser(bad) && bad.deep_view() == us.deep_view()),
                None => true,
            },
    {
        match &self.user {
            None => None,
            Some(us) => match us.find_user(users) {
                Some(u) => Some(Ok(u)),
                None => Some(Err(ContainerRuntimeError::InvalidUser(us.duplicate()))),
            },
        }
    }
}

} // verus!
