//! The bridged-network lifecycle, as decisions: the exact `ip` and
//! `iptables` invocations that create the host bridge and a container's
//! namespace and veth pair, the reading of the command output that lists
//! namespaces or addresses, and the search for a free address in the
//! bridge's subnet. Running the commands, and reading their output, is the
//! unverified shell's part; every choice of words and order is made here.

use vstd::prelude::*;

verus! {

use vstd::arithmetic::power2::pow2;
use crate::net::{Ipv4Net, net_str, addr_str, iterate_next, pow2_u64};
use crate::model::{ContainerRuntimeError, ContainerRuntimeResult};
use crate::specs::{BridgeSpec, BridgedNetworkSpec};
use crate::text::{contains_seq, contains_str, find_char_in, split_on, split_on_char, lines_of,
    lines_of_str, has_prefix, starts_with};

/// Which program an invocation calls.
#[derive(Debug, Clone, Copy, PartialEq, Eq, Structural)]
pub enum Program {
    Ip,
    IpTables,
}

/// One program invocation: the program and its arguments in order.
#[derive(Debug, Clone)]
pub struct Cmd {
    pub program: Program,
    pub args: Vec<String>,
}

/// The mathematical shape of one invocation.
#[verifier::ext_equal]
pub ghost struct CmdModel {
    pub program: Program,
    pub args: Seq<Seq<char>>,
}

impl DeepView for Cmd {
    type V = CmdModel;

    open spec fn deep_view(&self) -> CmdModel {
        CmdModel { program: self.program, args: self.args.deep_view() }
    }
}

/// One step of host-side network setup: an invocation, or a write into
/// the kernel's configuration tree.
#[derive(Debug, Clone)]
pub enum HostAction {
    Run(Cmd),
    WriteFile { path: String, content: String },
}

/// The mathematical shape of one host-side step.
#[verifier::ext_equal]
pub ghost enum HostActionModel {
    Run(CmdModel),
    WriteFile { path: Seq<char>, content: Seq<char> },
}

impl DeepView for HostAction {
    type V = HostActionModel;

    open spec fn deep_view(&self) -> HostActionModel {
        match self {
            HostAction::Run(c) => HostActionModel::Run(c.deep_view()),
            HostAction::WriteFile { path, content } => HostActionModel::WriteFile {
                path: path@,
                content: content@,
            },
        }
    }
}

pub open spec fn ip_cmd(args: Seq<Seq<char>>) -> CmdModel {
    CmdModel { program: Program::Ip, args }
}

pub open spec fn iptables_cmd(args: Seq<Seq<char>>) -> CmdModel {
    CmdModel { program: Program::IpTables, args }
}

/// The probe that tells whether the bridge interface already exists.
pub open spec fn bridge_probe_plan(b: BridgeSpec) -> CmdModel {
    ip_cmd(seq!["link"@, "show"@, b.interface@])
}

/// The steps that create the bridge where the probe found none: make and
/// raise the interface, give it its address, turn packet forwarding on,
/// drop and flush the forwarding policy, accept traffic across the
/// bridge; with a physical interface, flush translation, masquerade the
/// bridge's subnet out of it and accept forwarding both ways between it
/// and the bridge.
pub open spec fn bridge_setup_plan(b: BridgeSpec) -> Seq<HostActionModel> {
    let base = seq![
        HostActionModel::Run(
            ip_cmd(seq!["link"@, "add"@, "name"@, b.interface@, "type"@, "bridge"@]),
        ),
        HostActionModel::Run(ip_cmd(seq!["link"@, "set"@, "dev"@, b.interface@, "up"@])),
        HostActionModel::Run(ip_cmd(seq!["addr"@, "add"@, net_str(b.ip_address), "dev"@, b.interface@])),
        HostActionModel::WriteFile { path: "/proc/sys/net/ipv4/ip_forward"@, content: "1"@ },
        HostActionModel::Run(iptables_cmd(seq!["-P"@, "FORWARD"@, "DROP"@])),
        HostActionModel::Run(iptables_cmd(seq!["-F"@, "FORWARD"@])),
        HostActionModel::Run(
            iptables_cmd(
                seq!["-A"@, "FORWARD"@, "-i"@, b.interface@, "-o"@, b.interface@, "-j"@, "ACCEPT"@],
            ),
        ),
    ];
    match b.physical_interface {
        None => base,
        Some(phys) => base + seq![
            HostActionModel::Run(iptables_cmd(seq!["-t"@, "nat"@, "-F"@])),
            HostActionModel::Run(
                iptables_cmd(
                    seq![
                        "-t"@,
                        "nat"@,
                        "-A"@,
                        "POSTROUTING"@,
                        "-s"@,
                        net_str(b.ip_address),
                        "-o"@,
                        phys@,
                        "-j"@,
                        "MASQUERADE"@,
                    ],
                ),
            ),
            HostActionModel::Run(
                iptables_cmd(
                    seq!["-A"@, "FORWARD"@, "-i"@, phys@, "-o"@, b.interface@, "-j"@, "ACCEPT"@],
                ),
            ),
            HostActionModel::Run(
                iptables_cmd(
                    seq!["-A"@, "FORWARD"@, "-o"@, phys@, "-i"@, b.interface@, "-j"@, "ACCEPT"@],
                ),
            ),
        ],
    }
}

/// The probe invocation for the bridge interface.
pub fn bridge_probe_command(bridge: &BridgeSpec) -> (r: Cmd)
    ensures
        r.deep_view() == bridge_probe_plan(*bridge),
{
    let mut args: Vec<String> = Vec::new();
    args.push(String::from_str("link"));
    args.push(String::from_str("show"));
    args.push(bridge.interface.clone());
    let r = Cmd { program: Program::Ip, args };
    proof {
        assert(r.deep_view().args =~= bridge_probe_plan(*bridge).args);
    }
    r
}

/// The bridge-creation steps, in order.
pub fn create_bridge_commands(bridge: &BridgeSpec) -> (r: Vec<HostAction>)
    requires
        bridge.wf(),
    ensures
        r.deep_view() == bridge_setup_plan(*bridge),
{
    let rendered = bridge.ip_address.to_string();
    let mut out: Vec<HostAction> = Vec::new();

    let mut a0: Vec<String> = Vec::new();
    a0.push(String::from_str("link"));
    a0.push(String::from_str("add"));
    a0.push(String::from_str("name"));
    a0.push(bridge.interface.clone());
    a0.push(String::from_str("type"));
    a0.push(String::from_str("bridge"));
    out.push(HostAction::Run(Cmd { program: Program::Ip, args: a0 }));

    let mut a1: Vec<String> = Vec::new();
    a1.push(String::from_str("link"));
    a1.push(String::from_str("set"));
    a1.push(String::from_str("dev"));
    a1.push(bridge.interface.clone());
    a1.push(String::from_str("up"));
    out.push(HostAction::Run(Cmd { program: Program::Ip, args: a1 }));

    let mut a2: Vec<String> = Vec::new();
    a2.push(String::from_str("addr"));
    a2.push(String::from_str("add"));
    a2.push(rendered.clone());
    a2.push(String::from_str("dev"));
    a2.push(bridge.interface.clone());
    out.push(HostAction::Run(Cmd { program: Program::Ip, args: a2 }));

    out.push(
        HostAction::WriteFile {
            path: String::from_str("/proc/sys/net/ipv4/ip_forward"),
            content: String::from_str("1"),
        },
    );

    let mut a3: Vec<String> = Vec::new();
    a3.push(String::from_str("-P"));
    a3.push(String::from_str("FORWARD"));
    a3.push(String::from_str("DROP"));
    out.push(HostAction::Run(Cmd { program: Program::IpTables, args: a3 }));

    let mut a4: Vec<String> = Vec::new();
    a4.push(String::from_str("-F"));
    a4.push(String::from_str("FORWARD"));
    out.push(HostAction::Run(Cmd { program: Program::IpTables, args: a4 }));

    let mut a5: Vec<String> = Vec::new();
    a5.push(String::from_str("-A"));
    a5.push(String::from_str("FORWARD"));
    a5.push(String::from_str("-i"));
    a5.push(bridge.interface.clone());
    a5.push(String::from_str("-o"));
    a5.push(bridge.interface.clone());
    a5.push(String::from_str("-j"));
    a5.push(String::from_str("ACCEPT"));
    out.push(HostAction::Run(Cmd { program: Program::IpTables, args: a5 }));

    match &bridge.physical_interface {
        None => {
            proof {
                assert(out.deep_view() =~~= bridge_setup_plan(*bridge));
            }
            out
        },
        Some(phys) => {
            let mut a6: Vec<String> = Vec::new();
            a6.push(String::from_str("-t"));
            a6.push(String::from_str("nat"));
            a6.push(String::from_str("-F"));
            out.push(HostAction::Run(Cmd { program: Program::IpTables, args: a6 }));

            let mut a7: Vec<String> = Vec::new();
            a7.push(String::from_str("-t"));
            a7.push(String::from_str("nat"));
            a7.push(String::from_str("-A"));
            a7.push(String::from_str("POSTROUTING"));
            a7.push(String::from_str("-s"));
            a7.push(rendered);
            a7.push(String::from_str("-o"));
            a7.push(phys.clone());
            a7.push(String::from_str("-j"));
            a7.push(String::from_str("MASQUERADE"));
            out.push(HostAction::Run(Cmd { program: Program::IpTables, args: a7 }));

            let mut a8: Vec<String> = Vec::new();
            a8.push(String::from_str("-A"));
            a8.push(String::from_str("FORWARD"));
            a8.push(String::from_str("-i"));
            a8.push(phys.clone());
            a8.push(String::from_str("-o"));
            a8.push(bridge.interface.clone());
            a8.push(String::from_str("-j"));
            a8.push(String::from_str("ACCEPT"));
            out.push(HostAction::Run(Cmd { program: Program::IpTables, args: a8 }));

            let mut a9: Vec<String> = Vec::new();
            a9.push(String::from_str("-A"));
            a9.push(String::from_str("FORWARD"));
            a9.push(String::from_str("-o"));
            a9.push(phys.clone());
            a9.push(String::from_str("-i"));
            a9.push(bridge.interface.clone());
            a9.push(String::from_str("-j"));
            a9.push(String::from_str("ACCEPT"));
            out.push(HostAction::Run(Cmd { program: Program::IpTables, args: a9 }));

            proof {
                assert(out.deep_view() =~~= bridge_setup_plan(*bridge));
            }
            out
        },
    }
}


/// The steps that create a container's namespace and veth pair: make the
/// named namespace; make the `<name>-host`/`<name>-ns` veth pair; attach
/// both ends to the bridge; raise the host end; move the `-ns` end into
/// the namespace; inside it, give that end the container's address,
/// raise it, raise loopback, and route everything via the bridge.
pub open spec fn namespace_setup_plan(ns: Seq<char>, b: BridgedNetworkSpec) -> Seq<CmdModel> {
    let host_if = ns + "-host"@;
    let ns_if = ns + "-ns"@;
    seq![
        ip_cmd(seq!["netns"@, "add"@, ns]),
        ip_cmd(seq!["link"@, "add"@, host_if, "type"@, "veth"@, "peer"@, "name"@, ns_if]),
        ip_cmd(seq!["link"@, "set"@, "dev"@, host_if, "master"@, b.bridge_interface@]),
        ip_cmd(seq!["link"@, "set"@, "dev"@, ns_if, "master"@, b.bridge_interface@]),
        ip_cmd(seq!["link"@, "set"@, "dev"@, host_if, "up"@]),
        ip_cmd(seq!["link"@, "set"@, ns_if, "netns"@, ns]),
        ip_cmd(
            seq![
                "netns"@,
                "exec"@,
                ns,
                "ip"@,
                "addr"@,
                "add"@,
                net_str(b.container_ip_address),
                "dev"@,
                ns_if,
            ],
        ),
        ip_cmd(seq!["netns"@, "exec"@, ns, "ip"@, "link"@, "set"@, "dev"@, ns_if, "up"@]),
        ip_cmd(seq!["netns"@, "exec"@, ns, "ip"@, "link"@, "set"@, "dev"@, "lo"@, "up"@]),
        ip_cmd(
            seq![
                "-n"@,
                ns,
                "route"@,
                "add"@,
                "default"@,
                "via"@,
                addr_str(b.bridge_ip_address.address as int),
            ],
        ),
    ]
}

/// The steps that tear a container's network down: delete the namespace,
/// then the host-side veth end.
pub open spec fn namespace_teardown_plan(ns: Seq<char>) -> Seq<CmdModel> {
    seq![ip_cmd(seq!["netns"@, "del"@, ns]), ip_cmd(seq!["link"@, "del"@, ns + "-host"@])]
}

/// The namespace-creation steps, in order.
pub fn create_network_namespace_commands(namespace: &str, bridge: &BridgedNetworkSpec) -> (r: Vec<
    Cmd,
>)
    requires
        bridge.wf(),
    ensures
        r.deep_view() == namespace_setup_plan(namespace@, *bridge),
{
    let host_if = String::from_str(namespace).concat("-host");
    let ns_if = String::from_str(namespace).concat("-ns");
    proof {
        reveal_strlit("-host");
        reveal_strlit("-ns");
    }
    let container_ip = bridge.container_ip_address.to_string();
    let gateway = bridge.bridge_ip_address.address_to_string();
    let mut out: Vec<Cmd> = Vec::new();

    let mut a0: Vec<String> = Vec::new();
    a0.push(String::from_str("netns"));
    a0.push(String::from_str("add"));
    a0.push(String::from_str(namespace));
    out.push(Cmd { program: Program::Ip, args: a0 });

    let mut a1: Vec<String> = Vec::new();
    a1.push(String::from_str("link"));
    a1.push(String::from_str("add"));
    a1.push(host_if.clone());
    a1.push(String::from_str("type"));
    a1.push(String::from_str("veth"));
    a1.push(String::from_str("peer"));
    a1.push(String::from_str("name"));
    a1.push(ns_if.clone());
    out.push(Cmd { program: Program::Ip, args: a1 });

    let mut a2: Vec<String> = Vec::new();
    a2.push(String::from_str("link"));
    a2.push(String::from_str("set"));
    a2.push(String::from_str("dev"));
    a2.push(host_if.clone());
    a2.push(String::from_str("master"));
    a2.push(bridge.bridge_interface.clone());
    out.push(Cmd { program: Program::Ip, args: a2 });

    let mut a3: Vec<String> = Vec::new();
    a3.push(String::from_str("link"));
    a3.push(String::from_str("set"));
    a3.push(String::from_str("dev"));
    a3.push(ns_if.clone());
    a3.push(String::from_str("master"));
    a3.push(bridge.bridge_interface.clone());
    out.push(Cmd { program: Program::Ip, args: a3 });

    let mut a4: Vec<String> = Vec::new();
    a4.push(String::from_str("link"));
    a4.push(String::from_str("set"));
    a4.push(String::from_str("dev"));
    a4.push(host_if.clone());
    a4.push(String::from_str("up"));
    out.push(Cmd { program: Program::Ip, args: a4 });

    let mut a5: Vec<String> = Vec::new();
    a5.push(String::from_str("link"));
    a5.push(String::from_str("set"));
    a5.push(ns_if.clone());
    a5.push(String::from_str("netns"));
    a5.push(String::from_str(namespace));
    out.push(Cmd { program: Program::Ip, args: a5 });

    let mut a6: Vec<String> = Vec::new();
    a6.push(String::from_str("netns"));
    a6.push(String::from_str("exec"));
    a6.push(String::from_str(namespace));
    a6.push(String::from_str("ip"));
    a6.push(String::from_str("addr"));
    a6.push(String::from_str("add"));
    a6.push(container_ip);
    a6.push(String::from_str("dev"));
    a6.push(ns_if.clone());
    out.push(Cmd { program: Program::Ip, args: a6 });

    let mut a7: Vec<String> = Vec::new();
    a7.push(String::from_str("netns"));
    a7.push(String::from_str("exec"));
    a7.push(String::from_str(namespace));
    a7.push(String::from_str("ip"));
    a7.push(String::from_str("link"));
    a7.push(String::from_str("set"));
    a7.push(String::from_str("dev"));
    a7.push(ns_if.clone());
    a7.push(String::from_str("up"));
    out.push(Cmd { program: Program::Ip, args: a7 });

    let mut a8: Vec<String> = Vec::new();
    a8.push(String::from_str("netns"));
    a8.push(String::from_str("exec"));
    a8.push(String::from_str(namespace));
    a8.push(String::from_str("ip"));
    a8.push(String::from_str("link"));
    a8.push(String::from_str("set"));
    a8.push(String::from_str("dev"));
    a8.push(String::from_str("lo"));
    a8.push(String::from_str("up"));
    out.push(Cmd { program: Program::Ip, args: a8 });

    let mut a9: Vec<String> = Vec::new();
    a9.push(String::from_str("-n"));
    a9.push(String::from_str(namespace));
    a9.push(String::from_str("route"));
    a9.push(String::from_str("add"));
    a9.push(String::from_str("default"));
    a9.push(String::from_str("via"));
    a9.push(gateway);
    out.push(Cmd { program: Program::Ip, args: a9 });

    proof {
        assert(out.deep_view() =~~= namespace_setup_plan(namespace@, *bridge));
    }
    out
}

/// The namespace-teardown steps, in order.
pub fn destroy_network_namespace_commands(namespace: &str) -> (r: Vec<Cmd>)
    ensures
        r.deep_view() == namespace_teardown_plan(namespace@),
{
    proof {
        reveal_strlit("-host");
    }
    let mut out: Vec<Cmd> = Vec::new();

    let mut a0: Vec<String> = Vec::new();
    a0.push(String::from_str("netns"));
    a0.push(String::from_str("del"));
    a0.push(String::from_str(namespace));
    out.push(Cmd { program: Program::Ip, args: a0 });

    let mut a1: Vec<String> = Vec::new();
    a1.push(String::from_str("link"));
    a1.push(String::from_str("del"));
    a1.push(String::from_str(namespace).concat("-host"));
    out.push(Cmd { program: Program::Ip, args: a1 });

    proof {
        assert(out.deep_view() =~~= namespace_teardown_plan(namespace@));
    }
    out
}

/// The scoped name of one container's network namespace. Its owner tears
/// the namespace down with the teardown steps when the launch is over;
/// nothing of the namespace survives a run.
pub struct NetworkNamespace {
    name: String,
}

impl NetworkNamespace {
    pub closed spec fn spec_name(self) -> Seq<char> {
        self.name@
    }

    /// Takes ownership of a namespace name.
    pub fn create(name: String) -> (r: NetworkNamespace)
        ensures
            r.spec_name() == name@,
    {
        NetworkNamespace { name }
    }

    /// The name held.
    pub fn name(&self) -> (r: &String)
        ensures
            r@ == self.spec_name(),
    {
        &self.name
    }

    /// The steps that remove this namespace and its host-side veth end.
    pub fn teardown_commands(&self) -> (r: Vec<Cmd>)
        ensures
            r.deep_view() == namespace_teardown_plan(self.spec_name()),
    {
        destroy_network_namespace_commands(self.name.as_str())
    }
}

/// The first word of a line: everything before the first space.
pub open spec fn first_token(l: Seq<char>) -> Seq<char> {
    split_on(l, ' ')[0]
}

/// The container namespaces named by the first `n` lines of a namespace
/// listing: the first word of each line that starts with the tool's
/// prefix.
pub open spec fn namespaces_of_prefix(lines: Seq<Seq<char>>, n: int) -> Seq<Seq<char>>
    decreases n,
{
    if n <= 0 {
        Seq::empty()
    } else {
        let prev = namespaces_of_prefix(lines, n - 1);
        let t = first_token(lines[n - 1]);
        if has_prefix(t, "cort-"@) {
            prev.push(t)
        } else {
            prev
        }
    }
}

/// All the container namespaces a namespace listing names.
pub open spec fn namespaces_of(output: Seq<char>) -> Seq<Seq<char>> {
    namespaces_of_prefix(lines_of(output), lines_of(output).len() as int)
}

/// Reads the container namespaces out of the text a namespace listing
/// printed.
#[verifier::loop_isolation(false)]
pub fn find_container_network_namespaces(output: &str) -> (r: Vec<String>)
    ensures
        r.deep_view() == namespaces_of(output@),
{
    let lines = lines_of_str(output);
    let ghost lseq = lines.deep_view();
    let mut out: Vec<String> = Vec::new();
    let mut i: usize = 0;
    while i < lines.len()
        invariant
            0 <= i <= lines@.len(),
            out.deep_view() == namespaces_of_prefix(lseq, i as int),
        decreases lines@.len() - i,
    {
        proof {
            assert(lines.deep_view()[i as int] == lines@[i as int]@);
            crate::text::lemma_find_char(lseq[i as int], ' ');
        }
        let line = lines[i].as_str();
        let token: &str = match find_char_in(line, ' ') {
            Some(j) => line.substring_char(0, j),
            None => line,
        };
        proof {
            assert(token@ == first_token(lseq[i as int]));
        }
        let ghost before = out.deep_view();
        if starts_with(token, "cort-") {
            out.push(String::from_str(token));
            proof {
                assert(out.deep_view() =~= before.push(token@));
            }
        }
        i = i + 1;
    }
    out
}

/// Whether the rendered `address/cidr` occurs in the text an address
/// listing printed.
pub fn is_ip_address_used(ip_address: &Ipv4Net, output: &str) -> (r: bool)
    requires
        ip_address.wf(),
    ensures
        r == contains_seq(output@, net_str(*ip_address)),
{
    let rendered = ip_address.to_string();
    contains_str(output, rendered.as_str())
}

/// An address a container may take: not one of the subnet's two reserved
/// addresses, and rendered nowhere in any of the given listings.
pub open spec fn ip_free(x: Ipv4Net, outputs: Seq<Seq<char>>) -> bool {
    &&& !x.spec_is_network()
    &&& !x.spec_is_broadcast()
    &&& forall|k: int| 0 <= k < outputs.len() ==> !contains_seq(#[trigger] outputs[k], net_str(x))
}

/// Walks the subnet from `base_ip_address`, one successor step at a
/// time, and returns the first address free of the given listings — the
/// host's own and one per existing container namespace. Fails only where
/// the whole subnet is taken.
#[verifier::loop_isolation(false)]
pub fn find_free_ip_address(base_ip_address: Ipv4Net, outputs: &Vec<String>) -> (r:
    ContainerRuntimeResult<Ipv4Net>)
    requires
        base_ip_address.wf(),
    ensures
        match r {
            Ok(c) => c.wf() && c.cidr == base_ip_address.cidr && exists|n: nat|
                #![trigger iterate_next(base_ip_address, n)]
                {
                    &&& n < pow2(base_ip_address.host_bits())
                    &&& c == iterate_next(base_ip_address, n)
                    &&& ip_free(c, outputs.deep_view())
                    &&& forall|m: nat|
                        m < n ==> !ip_free(
                            #[trigger] iterate_next(base_ip_address, m),
                            outputs.deep_view(),
                        )
                },
            Err(e) => e matches ContainerRuntimeError::NetworkIsFull && forall|n: nat|
                n < pow2(base_ip_address.host_bits()) ==> !ip_free(
                    #[trigger] iterate_next(base_ip_address, n),
                    outputs.deep_view(),
                ),
        },
{
    let total: u64 = pow2_u64(base_ip_address.subnet_size());
    let mut current = base_ip_address;
    let mut count: u64 = 0;
    while count < total
        invariant
            0 <= count <= total,
            current == iterate_next(base_ip_address, count as nat),
            current.wf(),
            current.cidr == base_ip_address.cidr,
            forall|m: nat|
                m < count ==> !ip_free(
                    #[trigger] iterate_next(base_ip_address, m),
                    outputs.deep_view(),
                ),
        decreases total - count,
    {
        let network = current.is_network();
        let broadcast = current.is_broadcast();
        if !broadcast && !network {
            let mut used = false;
            let mut k: usize = 0;
            while k < outputs.len()
                invariant
                    0 <= k <= outputs@.len(),
                    !used ==> forall|j: int|
                        0 <= j < k ==> !contains_seq(
                            #[trigger] outputs.deep_view()[j],
                            net_str(current),
                        ),
                    used ==> !ip_free(current, outputs.deep_view()),
                decreases outputs@.len() - k,
            {
                proof {
                    assert(outputs.deep_view()[k as int] == outputs@[k as int]@);
                }
                if is_ip_address_used(&current, outputs[k].as_str()) {
                    used = true;
                    k = outputs.len();
                } else {
                    k = k + 1;
                }
            }
            if !used {
                proof {
                    assert(ip_free(current, outputs.deep_view()));
                }
                return Ok(current);
            }
        }
        proof {
            assert(!ip_free(iterate_next(base_ip_address, count as nat), outputs.deep_view()));
            assert(iterate_next(base_ip_address, count as nat + 1) == iterate_next(
                base_ip_address,
                count as nat,
            ).next_spec());
        }
        current = current.next();
        count = count + 1;
    }
    Err(ContainerRuntimeError::NetworkIsFull)
}

/// The interface name in the text `ip route get` printed: the fifth
/// space-separated field, counting empty fields.
pub open spec fn route_interface_of(output: Seq<char>) -> Option<Seq<char>> {
    let parts = split_on(output, ' ');
    if parts.len() > 4 {
        Some(parts[4])
    } else {
        None
    }
}

/// Reads the interface name out of the text a route query printed.
pub fn route_interface(output: &str) -> (r: Option<String>)
    ensures
        r.deep_view() == route_interface_of(output@),
{
    let parts = split_on_char(output, ' ');
    proof {
        assert(parts.deep_view().len() == parts@.len());
    }
    if parts.len() > 4 {
        proof {
            assert(parts.deep_view()[4] == parts@[4]@);
        }
        Some(parts[4].clone())
    } else {
        None
    }
}

} // verus!
