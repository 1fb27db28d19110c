//! IPv4 subnet algebra: the value type for `address/cidr` with successor,
//! network/broadcast detection, subnet-mask derivation, parsing and
//! formatting. An address is held as the big-endian reading of its four
//! octets; the low `32 - cidr` bits are the host part and the rest the
//! network part.

use vstd::prelude::*;

verus! {

use vstd::arithmetic::power2::{pow2, lemma_pow2_pos, lemma_pow2_strictly_increases, lemma2_to64,
    lemma2_to64_rest};
use vstd::arithmetic::div_mod::{
    lemma_fundamental_div_mod,
    lemma_mod_division_less_than_divisor,
    lemma_mod_decreases,
    lemma_small_mod,
};
use vstd::bits::{lemma_u64_pow2_no_overflow, lemma_u64_shl_is_mul};
use crate::text::{dec_str, dec_val, is_dec_digits, split_on, split_on_char, parse_u32_digits,
    u32_to_dec_string};

/// An IPv4 address together with the prefix length of its subnet.
#[derive(Debug, Copy, Clone, PartialEq, Eq, PartialOrd, Ord, Hash, Structural)]
pub struct Ipv4Net {
    /// The address, big-endian: `A.B.C.D` is `A*2^24 + B*2^16 + C*2^8 + D`.
    pub address: u32,
    /// The prefix length, between 0 and 32.
    pub cidr: u16,
}

impl Ipv4Net {
    /// The invariant every value of this type keeps.
    pub open spec fn wf(self) -> bool {
        self.cidr <= 32
    }

    /// How many bits the host part has.
    pub open spec fn host_bits(self) -> nat {
        (32 - self.cidr) as nat
    }

    /// How many addresses the subnet holds, reserved ones included.
    pub open spec fn host_count(self) -> int {
        pow2(self.host_bits()) as int
    }

    /// The low bits of the address, those the subnet mask clears.
    pub open spec fn host_part(self) -> int {
        self.address as int % self.host_count()
    }

    /// The high bits of the address, those the subnet mask keeps.
    pub open spec fn network_part(self) -> int {
        self.address as int - self.host_part()
    }

    /// The subnet mask as a number: ones in the high `cidr` bits.
    pub open spec fn mask_int(self) -> int {
        0x1_0000_0000 - self.host_count()
    }

    /// The successor: host part up by one, wrapping inside the subnet.
    pub open spec fn next_spec(self) -> Ipv4Net {
        Ipv4Net {
            address: (self.network_part() + (self.host_part() + 1) % self.host_count()) as u32,
            cidr: self.cidr,
        }
    }

    /// The host part is all zeros: the subnet's reserved network address.
    pub open spec fn spec_is_network(self) -> bool {
        self.host_part() == 0
    }

    /// The host part is all ones: the subnet's reserved broadcast address.
    pub open spec fn spec_is_broadcast(self) -> bool {
        self.host_part() == self.host_count() - 1
    }

    pub fn new(address: u32, cidr: u16) -> (r: Ipv4Net)
        requires
            cidr <= 32,
        ensures
            r == (Ipv4Net { address, cidr }),
            r.wf(),
    {
        Ipv4Net { address, cidr }
    }

    /// The mask with the high `cidr` bits set.
    pub fn subnet_mask(&self) -> (r: u32)
        requires
            self.wf(),
        ensures
            r as int == self.mask_int(),
    {
        let p: u64 = pow2_u64(32 - self.cidr as u32);
        proof {
            lemma_pow2_le_u32_bound(self.host_bits());
            lemma_pow2_pos(self.host_bits());
        }
        (0xFFFF_FFFFu64 - (p - 1)) as u32
    }

    /// The number of host bits, `32 - cidr`: the exponent bounding how many
    /// successor steps walk the whole subnet.
    pub fn subnet_size(&self) -> (r: u32)
        requires
            self.wf(),
        ensures
            r == 32 - self.cidr,
    {
        32 - self.cidr as u32
    }

    /// The network and host parts of the address, in that order.
    fn split(&self) -> (r: (u32, u32))
        requires
            self.wf(),
        ensures
            r.0 as int == self.network_part(),
            r.1 as int == self.host_part(),
    {
        let p: u64 = pow2_u64(32 - self.cidr as u32);
        proof {
            lemma_pow2_pos(self.host_bits());
            lemma_mod_decreases(self.address as nat, p as nat);
        }
        let host: u64 = (self.address as u64) % p;
        let network: u32 = self.address - (host as u32);
        (network, host as u32)
    }

    /// The address with the host part one higher, wrapping inside the
    /// subnet: after the broadcast address comes the network address.
    pub fn next(&self) -> (r: Ipv4Net)
        requires
            self.wf(),
        ensures
            r == self.next_spec(),
            r.wf(),
    {
        let (network, host) = self.split();
        let p: u64 = pow2_u64(32 - self.cidr as u32);
        proof {
            lemma_pow2_pos(self.host_bits());
            lemma_pow2_le_u32_bound(self.host_bits());
            lemma_mod_division_less_than_divisor((host + 1) as int, p as int);
            lemma_network_part_bound(*self);
        }
        let next_host: u64 = ((host as u64) + 1) % p;
        let address: u32 = network + (next_host as u32);
        Ipv4Net { address, cidr: self.cidr }
    }

    /// Whether this is the subnet's reserved network address.
    pub fn is_network(&self) -> (r: bool)
        requires
            self.wf(),
        ensures
            r == self.spec_is_network(),
    {
        let (_, host) = self.split();
        host == 0
    }

    /// Whether this is the subnet's reserved broadcast address.
    pub fn is_broadcast(&self) -> (r: bool)
        requires
            self.wf(),
        ensures
            r == self.spec_is_broadcast(),
    {
        let (_, host) = self.split();
        let p: u64 = pow2_u64(32 - self.cidr as u32);
        proof {
            lemma_pow2_pos(self.host_bits());
        }
        (host as u64) == p - 1
    }
}

/// The four octets of a 32-bit address, most significant first.
pub open spec fn oct0(a: int) -> nat {
    (a / 0x100_0000) as nat
}

pub open spec fn oct1(a: int) -> nat {
    ((a / 0x1_0000) % 256) as nat
}

pub open spec fn oct2(a: int) -> nat {
    ((a / 0x100) % 256) as nat
}

pub open spec fn oct3(a: int) -> nat {
    (a % 256) as nat
}

/// The dotted-quad rendering of an address.
pub open spec fn addr_str(a: int) -> Seq<char> {
    dec_str(oct0(a)) + seq!['.'] + dec_str(oct1(a)) + seq!['.'] + dec_str(oct2(a)) + seq!['.']
        + dec_str(oct3(a))
}

/// The `A.B.C.D/N` rendering of a subnet value.
pub open spec fn net_str(x: Ipv4Net) -> Seq<char> {
    addr_str(x.address as int) + seq!['/'] + dec_str(x.cidr as nat)
}

/// What an octet may look like: digits, no superfluous leading zero, at
/// most 255.
pub open spec fn valid_octet_str(s: Seq<char>) -> bool {
    is_dec_digits(s) && (s.len() == 1 || s[0] != '0') && dec_val(s) <= 255
}

/// What the prefix length may look like: digits worth at most 32.
pub open spec fn valid_cidr_str(s: Seq<char>) -> bool {
    is_dec_digits(s) && dec_val(s) <= 32
}

/// The value of a dotted quad, or nothing where the text is not one.
pub open spec fn parse_addr(s: Seq<char>) -> Option<int> {
    let parts = split_on(s, '.');
    if parts.len() == 4 && valid_octet_str(parts[0]) && valid_octet_str(parts[1])
        && valid_octet_str(parts[2]) && valid_octet_str(parts[3]) {
        Some(
            (((dec_val(parts[0]) * 256 + dec_val(parts[1])) * 256 + dec_val(parts[2])) * 256
                + dec_val(parts[3])) as int,
        )
    } else {
        None
    }
}

/// The subnet value `A.B.C.D/N` stands for, or nothing where either half
/// is malformed or the prefix length is over 32. Only the text between
/// the first and second slash counts as the prefix half.
pub open spec fn parse_net(s: Seq<char>) -> Option<Ipv4Net> {
    let parts = split_on(s, '/');
    if parts.len() < 2 {
        None
    } else {
        match parse_addr(parts[0]) {
            Some(a) => if valid_cidr_str(parts[1]) {
                Some(Ipv4Net { address: a as u32, cidr: dec_val(parts[1]) as u16 })
            } else {
                None
            },
            None => None,
        }
    }
}

impl Ipv4Net {
    /// Renders the address half alone, `A.B.C.D`.
    pub fn address_to_string(&self) -> (r: String)
        ensures
            r@ == addr_str(self.address as int),
    {
        let a = self.address;
        let o0 = a / 0x100_0000;
        let o1 = (a / 0x1_0000) % 256;
        let o2 = (a / 0x100) % 256;
        let o3 = a % 256;
        let mut r = u32_to_dec_string(o0);
        r.append(".");
        let s1 = u32_to_dec_string(o1);
        r.append(s1.as_str());
        r.append(".");
        let s2 = u32_to_dec_string(o2);
        r.append(s2.as_str());
        r.append(".");
        let s3 = u32_to_dec_string(o3);
        r.append(s3.as_str());
        proof {
            reveal_strlit(".");
            assert("."@ =~= seq!['.']);
            assert(r@ =~= addr_str(self.address as int));
        }
        r
    }

    /// Renders `A.B.C.D/N`.
    pub fn to_string(&self) -> (r: String)
        requires
            self.wf(),
        ensures
            r@ == net_str(*self),
    {
        let mut r = self.address_to_string();
        r.append("/");
        let c = u32_to_dec_string(self.cidr as u32);
        r.append(c.as_str());
        proof {
            reveal_strlit("/");
            assert("/"@ =~= seq!['/']);
            assert(r@ =~= net_str(*self));
        }
        r
    }

    /// Reads `A.B.C.D/N` back into a subnet value; the error carries a
    /// diagnostic only.
    pub fn from_str(text: &str) -> (r: Result<Ipv4Net, String>)
        ensures
            match r {
                Ok(x) => parse_net(text@) == Some(x) && x.wf(),
                Err(_) => parse_net(text@) is None,
            },
    {
        let parts = split_on_char(text, '/');
        proof {
            assert(parts.deep_view().len() == parts@.len());
        }
        if parts.len() < 2 {
            return Err(String::from_str("Expected cidr notation."));
        }
        proof {
            assert(parts.deep_view()[0] == parts@[0]@);
            assert(parts.deep_view()[1] == parts@[1]@);
        }
        let address = match parse_dotted_quad(parts[0].as_str()) {
            Some(a) => a,
            None => {
                return Err(String::from_str("Failed to parse IP address."));
            },
        };
        let cidr = match parse_u32_digits(parts[1].as_str(), 32) {
            Some(c) => c,
            None => {
                return Err(String::from_str("Failed to parse subnet mask."));
            },
        };
        Ok(Ipv4Net { address, cidr: cidr as u16 })
    }
}

/// Reads a dotted quad: four octets separated by single dots.
fn parse_dotted_quad(s: &str) -> (r: Option<u32>)
    ensures
        match r {
            Some(v) => parse_addr(s@) == Some(v as int),
            None => parse_addr(s@) is None,
        },
{
    let parts = split_on_char(s, '.');
    proof {
        assert(parts.deep_view().len() == parts@.len());
    }
    if parts.len() != 4 {
        return None;
    }
    proof {
        assert(parts.deep_view()[0] == parts@[0]@);
        assert(parts.deep_view()[1] == parts@[1]@);
        assert(parts.deep_view()[2] == parts@[2]@);
        assert(parts.deep_view()[3] == parts@[3]@);
    }
    let o0 = match parse_octet(parts[0].as_str()) {
        Some(v) => v,
        None => {
            return None;
        },
    };
    let o1 = match parse_octet(parts[1].as_str()) {
        Some(v) => v,
        None => {
            return None;
        },
    };
    let o2 = match parse_octet(parts[2].as_str()) {
        Some(v) => v,
        None => {
            return None;
        },
    };
    let o3 = match parse_octet(parts[3].as_str()) {
        Some(v) => v,
        None => {
            return None;
        },
    };
    Some(((o0 * 256 + o1) * 256 + o2) * 256 + o3)
}

/// Reads one octet.
fn parse_octet(s: &str) -> (r: Option<u32>)
    ensures
        match r {
            Some(v) => valid_octet_str(s@) && dec_val(s@) == v,
            None => !valid_octet_str(s@),
        },
{
    match parse_u32_digits(s, 255) {
        None => None,
        Some(v) => {
            if s.unicode_len() > 1 && s.get_char(0) == '0' {
                None
            } else {
                Some(v)
            }
        },
    }
}

/// An address below `2^32` is the big-endian reading of its four octets.
proof fn lemma_octets_reconstruct(a: int)
    requires
        0 <= a < 0x1_0000_0000,
    ensures
        oct0(a) < 256,
        oct1(a) < 256,
        oct2(a) < 256,
        oct3(a) < 256,
        ((oct0(a) * 256 + oct1(a)) * 256 + oct2(a)) * 256 + oct3(a) == a,
{
    lemma_fundamental_div_mod(a, 256);
    lemma_mod_division_less_than_divisor(a, 256);
    let a1 = a / 256;
    lemma_fundamental_div_mod(a1, 256);
    lemma_mod_division_less_than_divisor(a1, 256);
    let a2 = a1 / 256;
    lemma_fundamental_div_mod(a2, 256);
    lemma_mod_division_less_than_divisor(a2, 256);
    vstd::arithmetic::div_mod::lemma_div_denominator(a, 256, 256);
    vstd::arithmetic::div_mod::lemma_div_denominator(a, 0x1_0000, 256);
    assert(a2 == a / 0x1_0000);
    assert(a2 / 256 == a / 0x100_0000);
    vstd::arithmetic::div_mod::lemma_multiply_divide_lt(a, 0x100_0000, 256);
    vstd::arithmetic::div_mod::lemma_div_pos_is_pos(a, 0x100_0000);
}

/// Parsing reads back exactly what rendering wrote: for every
/// well-formed subnet value, `parse(render(x)) == x`.
#[verifier::rlimit(60)]
pub proof fn lemma_parse_of_render(x: Ipv4Net)
    requires
        x.wf(),
    ensures
        parse_net(net_str(x)) == Some(x),
{
    let a = x.address as int;
    lemma_octets_reconstruct(a);
    let d0 = dec_str(oct0(a));
    let d1 = dec_str(oct1(a));
    let d2 = dec_str(oct2(a));
    let d3 = dec_str(oct3(a));
    let dc = dec_str(x.cidr as nat);
    crate::text::lemma_dec_str_wf(oct0(a));
    crate::text::lemma_dec_str_wf(oct1(a));
    crate::text::lemma_dec_str_wf(oct2(a));
    crate::text::lemma_dec_str_wf(oct3(a));
    crate::text::lemma_dec_str_wf(x.cidr as nat);
    crate::text::lemma_dec_val_of_dec_str(oct0(a));
    crate::text::lemma_dec_val_of_dec_str(oct1(a));
    crate::text::lemma_dec_val_of_dec_str(oct2(a));
    crate::text::lemma_dec_val_of_dec_str(oct3(a));
    crate::text::lemma_dec_val_of_dec_str(x.cidr as nat);
    let dot = seq!['.'];
    let slash = seq!['/'];
    let s_addr = addr_str(a);

    // No digit is a dot or a slash, so the separators stand alone.
    assert(forall|i: int| 0 <= i < d0.len() ==> d0[i] != '/' && d0[i] != '.');
    assert(forall|i: int| 0 <= i < d1.len() ==> d1[i] != '/' && d1[i] != '.');
    assert(forall|i: int| 0 <= i < d2.len() ==> d2[i] != '/' && d2[i] != '.');
    assert(forall|i: int| 0 <= i < d3.len() ==> d3[i] != '/' && d3[i] != '.');
    assert(forall|i: int| 0 <= i < dc.len() ==> dc[i] != '/');
    assert(forall|i: int| 0 <= i < dot.len() ==> dot[i] != '/');

    // The one slash splits the rendering into its address and cidr halves.
    crate::text::lemma_concat_no_char(d0, dot, '/');
    crate::text::lemma_concat_no_char(d0 + dot, d1, '/');
    crate::text::lemma_concat_no_char(d0 + dot + d1, dot, '/');
    crate::text::lemma_concat_no_char(d0 + dot + d1 + dot, d2, '/');
    crate::text::lemma_concat_no_char(d0 + dot + d1 + dot + d2, dot, '/');
    crate::text::lemma_concat_no_char(d0 + dot + d1 + dot + d2 + dot, d3, '/');
    crate::text::lemma_split_on_concat(s_addr, dc, '/');
    crate::text::lemma_split_on_no_sep(dc, '/');
    let parts = split_on(net_str(x), '/');
    assert(parts =~= seq![s_addr, dc]);

    // The three dots split the address half into its four octets.
    let rest2 = d2 + dot + d3;
    let rest1 = d1 + dot + rest2;
    assert(s_addr =~= d0 + dot + rest1);
    crate::text::lemma_split_on_concat(d0, rest1, '.');
    crate::text::lemma_split_on_concat(d1, rest2, '.');
    crate::text::lemma_split_on_concat(d2, d3, '.');
    crate::text::lemma_split_on_no_sep(d3, '.');
    let quads = split_on(s_addr, '.');
    assert(quads =~= seq![d0, d1, d2, d3]);

    assert(valid_octet_str(d0));
    assert(valid_octet_str(d1));
    assert(valid_octet_str(d2));
    assert(valid_octet_str(d3));
    assert(valid_cidr_str(dc));
    assert(parse_addr(s_addr) == Some(a));
    assert(parse_net(net_str(x)) == Some(Ipv4Net { address: a as u32, cidr: x.cidr }));
    assert(Ipv4Net { address: a as u32, cidr: x.cidr } == x);
}

/// Walking `next` through a subnet, step by step.
pub open spec fn iterate_next(x: Ipv4Net, n: nat) -> Ipv4Net
    decreases n,
{
    if n == 0 {
        x
    } else {
        iterate_next(x, (n - 1) as nat).next_spec()
    }
}

/// Each successor step keeps the subnet and advances the host part by
/// one, modulo the subnet's size.
pub proof fn lemma_iterate_next_parts(x: Ipv4Net, n: nat)
    requires
        x.wf(),
    ensures
        iterate_next(x, n).cidr == x.cidr,
        iterate_next(x, n).wf(),
        iterate_next(x, n).network_part() == x.network_part(),
        iterate_next(x, n).host_part() == (x.host_part() + n) % x.host_count(),
    decreases n,
{
    let p = x.host_count();
    lemma_pow2_pos(x.host_bits());
    lemma_mod_division_less_than_divisor(x.address as int, p);
    if n == 0 {
        lemma_small_mod(x.host_part() as nat, p as nat);
        assert((x.host_part() + 0) % p == x.host_part());
    } else {
        lemma_iterate_next_parts(x, (n - 1) as nat);
        let y = iterate_next(x, (n - 1) as nat);
        let z = y.next_spec();
        lemma_next_spec_parts(y);
        assert(z.host_part() == (y.host_part() + 1) % p);
        assert(y.host_part() == (x.host_part() + (n - 1)) % p);
        vstd::arithmetic::div_mod::lemma_add_mod_noop(x.host_part() + (n - 1), 1, p);
        if p == 1 {
            lemma_mod_division_less_than_divisor(x.host_part() + n, 1);
            lemma_mod_division_less_than_divisor(y.host_part() + 1, 1);
        } else {
            lemma_small_mod(1nat, p as nat);
            assert(1int % p == 1);
            assert((y.host_part() + 1int % p) % p == (x.host_part() + n) % p);
        }
    }
}

/// What one successor step does to the parts of the address.
proof fn lemma_next_spec_parts(x: Ipv4Net)
    requires
        x.wf(),
    ensures
        x.next_spec().cidr == x.cidr,
        x.next_spec().wf(),
        x.next_spec().network_part() == x.network_part(),
        x.next_spec().host_part() == (x.host_part() + 1) % x.host_count(),
{
    let p = x.host_count();
    lemma_pow2_pos(x.host_bits());
    lemma_network_part_bound(x);
    lemma_mod_division_less_than_divisor(x.address as int, p);
    lemma_mod_division_less_than_divisor(x.host_part() + 1, p);
    let h2 = (x.host_part() + 1) % p;
    let addr2 = x.network_part() + h2;
    assert(0 <= addr2 < 0x1_0000_0000);
    assert(x.next_spec().address as int == addr2);
    let q = x.network_part() / p;
    assert(x.network_part() == p * q) by {
        lemma_fundamental_div_mod(x.network_part(), p);
        assert(x.network_part() % p == 0);
    }
    assert(addr2 % p == h2) by {
        vstd::arithmetic::div_mod::lemma_mod_multiples_vanish(q, h2, p);
        lemma_small_mod(h2 as nat, p as nat);
        assert(p * q + h2 == addr2);
    }
    assert(x.next_spec().host_part() == h2);
    assert(x.next_spec().network_part() == addr2 - h2);
}

/// Walking `next` as many times as the subnet has addresses comes back
/// to the start.
pub proof fn lemma_next_cycle_returns(x: Ipv4Net)
    requires
        x.wf(),
    ensures
        iterate_next(x, pow2(x.host_bits())) == x,
{
    let p = x.host_count();
    lemma_pow2_pos(x.host_bits());
    lemma_iterate_next_parts(x, pow2(x.host_bits()));
    let y = iterate_next(x, pow2(x.host_bits()));
    assert(y.host_part() == (x.host_part() + p) % p);
    lemma_mod_division_less_than_divisor(x.address as int, p);
    vstd::arithmetic::div_mod::lemma_mod_add_multiples_vanish(x.host_part(), p);
    lemma_small_mod(x.host_part() as nat, p as nat);
    assert(y.host_part() == x.host_part());
    assert(y.address as int == y.network_part() + y.host_part());
    assert(x.address as int == x.network_part() + x.host_part());
    assert(y.address == x.address);
    assert(y =~= x);
}

/// A full walk of the subnet meets the reserved network address exactly
/// once, and the reserved broadcast address exactly once.
pub proof fn lemma_cycle_reserved_once(x: Ipv4Net)
    requires
        x.wf(),
    ensures
        exists|i: nat| i < pow2(x.host_bits()) && (#[trigger] iterate_next(x, i)).spec_is_network(),
        forall|i: nat, j: nat|
            i < pow2(x.host_bits()) && j < pow2(x.host_bits()) && (#[trigger] iterate_next(
                x,
                i,
            )).spec_is_network() && (#[trigger] iterate_next(x, j)).spec_is_network() ==> i == j,
        exists|i: nat|
            i < pow2(x.host_bits()) && (#[trigger] iterate_next(x, i)).spec_is_broadcast(),
        forall|i: nat, j: nat|
            i < pow2(x.host_bits()) && j < pow2(x.host_bits()) && (#[trigger] iterate_next(
                x,
                i,
            )).spec_is_broadcast() && (#[trigger] iterate_next(x, j)).spec_is_broadcast() ==> i
                == j,
{
    let p = x.host_count();
    let h = x.host_part();
    lemma_pow2_pos(x.host_bits());
    lemma_mod_division_less_than_divisor(x.address as int, p);
    assert(0 <= h < p);

    // The one step count that lands on the network address.
    let i0: nat = if h == 0 {
        0nat
    } else {
        (p - h) as nat
    };
    lemma_iterate_next_parts(x, i0);
    assert((h + i0) % p == 0) by {
        if h == 0 {
            lemma_small_mod(0nat, p as nat);
        } else {
            vstd::arithmetic::div_mod::lemma_mod_self_0(p);
        }
    }
    assert(i0 < p && iterate_next(x, i0).spec_is_network());

    // The one step count that lands on the broadcast address.
    let i1: nat = (p - 1 - h) as nat;
    lemma_iterate_next_parts(x, i1);
    assert((h + i1) % p == p - 1) by {
        lemma_small_mod((p - 1) as nat, p as nat);
    }
    assert(i1 < p && iterate_next(x, i1).spec_is_broadcast());

    assert forall|i: nat, j: nat|
        i < pow2(x.host_bits()) && j < pow2(x.host_bits()) && (#[trigger] iterate_next(
            x,
            i,
        )).spec_is_network() && (#[trigger] iterate_next(x, j)).spec_is_network() implies i
        == j by {
        lemma_iterate_next_parts(x, i);
        lemma_iterate_next_parts(x, j);
        lemma_mod_zero_in_window(h + i, p);
        lemma_mod_zero_in_window(h + j, p);
    }

    assert forall|i: nat, j: nat|
        i < pow2(x.host_bits()) && j < pow2(x.host_bits()) && (#[trigger] iterate_next(
            x,
            i,
        )).spec_is_broadcast() && (#[trigger] iterate_next(x, j)).spec_is_broadcast() implies i
        == j by {
        lemma_iterate_next_parts(x, i);
        lemma_iterate_next_parts(x, j);
        lemma_mod_value_in_window(h + i, p);
        lemma_mod_value_in_window(h + j, p);
    }
}

/// A number below `2p` that is divisible by `p` is 0 or `p`.
proof fn lemma_mod_zero_in_window(y: int, p: int)
    requires
        0 < p,
        0 <= y < 2 * p,
        y % p == 0,
    ensures
        y == 0 || y == p,
{
    lemma_fundamental_div_mod(y, p);
    let q = y / p;
    assert(y == p * q);
    assert(y == 0 || y == p) by (nonlinear_arith)
        requires
            p > 0,
            y == p * q,
            0 <= y < 2 * p,
    ;
}

/// A number below `2p - 1` with remainder `p - 1` is exactly `p - 1`.
proof fn lemma_mod_value_in_window(y: int, p: int)
    requires
        0 < p,
        0 <= y < 2 * p - 1,
        y % p == p - 1,
    ensures
        y == p - 1,
{
    lemma_fundamental_div_mod(y, p);
    let q = y / p;
    assert(y == p * q + (p - 1));
    assert(y == p - 1) by (nonlinear_arith)
        requires
            p > 0,
            y == p * q + (p - 1),
            0 <= y < 2 * p - 1,
    ;
}

/// `2^k` for an exponent up to 32.
pub fn pow2_u64(k: u32) -> (r: u64)
    requires
        k <= 32,
    ensures
        r == pow2(k as nat),
{
    proof {
        lemma_u64_pow2_no_overflow(k as nat);
        lemma_u64_shl_is_mul(1u64, k as u64);
    }
    1u64 << (k as u64)
}

/// `2^k` fits into 33 bits when the exponent is at most 32.
proof fn lemma_pow2_le_u32_bound(k: nat)
    requires
        k <= 32,
    ensures
        pow2(k) <= 0x1_0000_0000,
{
    lemma2_to64();
    lemma2_to64_rest();
    if k < 32 {
        lemma_pow2_strictly_increases(k, 32);
    }
}

/// The network part of an address leaves room for a full host range.
proof fn lemma_network_part_bound(x: Ipv4Net)
    requires
        x.wf(),
    ensures
        0 <= x.network_part(),
        x.network_part() + x.host_count() <= 0x1_0000_0000,
        x.network_part() % x.host_count() == 0,
{
    let p = x.host_count();
    let a = x.address as int;
    lemma_pow2_pos(x.host_bits());
    lemma_pow2_le_u32_bound(x.host_bits());
    lemma_fundamental_div_mod(a, p);
    lemma_mod_division_less_than_divisor(a, p);
    vstd::arithmetic::div_mod::lemma_div_pos_is_pos(a, p);
    let q = a / p;
    assert(x.network_part() == p * q);
    assert(x.host_part() >= 0);
    assert(p * q <= a);
    assert(p * q < 0x1_0000_0000);
    let w = pow2((32 - x.host_bits()) as nat) as int;
    assert(0x1_0000_0000 as int % p == 0) by {
        assert(pow2(32) == pow2((32 - x.host_bits()) as nat) * pow2(x.host_bits())) by {
            vstd::arithmetic::power2::lemma_pow2_adds((32 - x.host_bits()) as nat, x.host_bits());
        }
        lemma2_to64();
        assert(0x1_0000_0000 as int == w * p);
        vstd::arithmetic::div_mod::lemma_mod_multiples_basic(w, p);
    }
    assert(p * q + p <= 0x1_0000_0000) by (nonlinear_arith)
        requires
            p > 0,
            q >= 0,
            p * q < 0x1_0000_0000,
            0x1_0000_0000 as int % p == 0,
    ;
    assert(p * q % p == 0) by (nonlinear_arith)
        requires
            p > 0,
            q >= 0,
    ;
}

} // verus!
