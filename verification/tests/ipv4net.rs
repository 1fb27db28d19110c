use cort::net::Ipv4Net;

fn addr(a: u32, b: u32, c: u32, d: u32) -> u32 {
    (a << 24) | (b << 16) | (c << 8) | d
}

#[test]
fn test_ipv4net_from_str() {
    assert_eq!(
        Ok(Ipv4Net::new(addr(127, 0, 0, 1), 17)),
        Ipv4Net::from_str("127.0.0.1/17")
    );
}

#[test]
fn test_ipv4net_subnet_mask() {
    let net1 = Ipv4Net::new(addr(127, 0, 0, 1), 24);
    let net2 = Ipv4Net::new(addr(127, 0, 0, 1), 17);
    assert_eq!([255, 255, 255, 0], net1.subnet_mask().to_be_bytes());
    assert_eq!([255, 255, 128, 0], net2.subnet_mask().to_be_bytes());
}

#[test]
fn test_ipv4net_next_address() {
    let net1 = Ipv4Net::new(addr(127, 41, 12, 1), 24);

    let mut current = net1;
    for _ in 0..255 {
        current = current.next();
    }

    assert_eq!(Ipv4Net::new(addr(127, 41, 12, 0), 24), current);
    assert_eq!(true, current.is_network());
}

#[test]
fn renders_address_and_cidr() {
    let net = Ipv4Net::new(addr(10, 10, 1, 1), 16);
    assert_eq!("10.10.1.1/16", net.to_string().as_str());
    assert_eq!("10.10.1.1", net.address_to_string().as_str());
    let edge = Ipv4Net::new(addr(255, 0, 200, 9), 32);
    assert_eq!("255.0.200.9/32", edge.to_string().as_str());
}

#[test]
fn parse_of_render_is_identity() {
    let values = [
        Ipv4Net::new(addr(10, 10, 1, 1), 16),
        Ipv4Net::new(addr(127, 0, 0, 1), 17),
        Ipv4Net::new(addr(0, 0, 0, 0), 0),
        Ipv4Net::new(addr(255, 255, 255, 255), 32),
        Ipv4Net::new(addr(192, 168, 0, 254), 24),
    ];
    for v in values {
        assert_eq!(Ok(v), Ipv4Net::from_str(v.to_string().as_str()));
    }
}

#[test]
fn parser_rejects_malformed_text() {
    assert!(Ipv4Net::from_str("1.2.3.4").is_err());
    assert!(Ipv4Net::from_str("/24").is_err());
    assert!(Ipv4Net::from_str("").is_err());
    assert!(Ipv4Net::from_str("1.2.3/24").is_err());
    assert!(Ipv4Net::from_str("1.2.3.4.5/24").is_err());
    assert!(Ipv4Net::from_str("256.1.1.1/8").is_err());
    assert!(Ipv4Net::from_str("01.2.3.4/8").is_err());
    assert!(Ipv4Net::from_str("1.2.3.4/33").is_err());
    assert!(Ipv4Net::from_str("1.2.3.4/x").is_err());
    assert!(Ipv4Net::from_str("a.b.c.d/8").is_err());
}

#[test]
fn parser_takes_cidr_between_first_and_second_slash() {
    assert_eq!(
        Ok(Ipv4Net::new(addr(1, 2, 3, 4), 24)),
        Ipv4Net::from_str("1.2.3.4/24/99")
    );
    assert_eq!(
        Ok(Ipv4Net::new(addr(1, 2, 3, 4), 7)),
        Ipv4Net::from_str("1.2.3.4/007")
    );
}

#[test]
fn next_wraps_from_broadcast_to_network() {
    let broadcast = Ipv4Net::new(addr(192, 168, 1, 255), 24);
    assert!(broadcast.is_broadcast());
    let wrapped = broadcast.next();
    assert_eq!(Ipv4Net::new(addr(192, 168, 1, 0), 24), wrapped);
    assert!(wrapped.is_network());
}

#[test]
fn full_cycle_returns_to_start() {
    let start = Ipv4Net::new(addr(10, 0, 0, 5), 28);
    let mut current = start;
    for _ in 0..16 {
        current = current.next();
    }
    assert_eq!(start, current);
}

#[test]
fn full_cycle_holds_one_network_and_one_broadcast() {
    let start = Ipv4Net::new(addr(10, 0, 0, 5), 28);
    let mut current = start;
    let mut networks = 0;
    let mut broadcasts = 0;
    for _ in 0..16 {
        if current.is_network() {
            networks += 1;
        }
        if current.is_broadcast() {
            broadcasts += 1;
        }
        current = current.next();
    }
    assert_eq!(1, networks);
    assert_eq!(1, broadcasts);
}

#[test]
fn subnet_size_is_the_host_bit_count() {
    assert_eq!(16, Ipv4Net::new(addr(10, 10, 1, 1), 16).subnet_size());
    assert_eq!(0, Ipv4Net::new(addr(10, 10, 1, 1), 32).subnet_size());
    assert_eq!(32, Ipv4Net::new(addr(10, 10, 1, 1), 0).subnet_size());
}

#[test]
fn subnet_mask_edges() {
    assert_eq!(0u32, Ipv4Net::new(0, 0).subnet_mask());
    assert_eq!(0xFFFF_FFFFu32, Ipv4Net::new(0, 32).subnet_mask());
}
