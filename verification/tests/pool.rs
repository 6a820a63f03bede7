use podtunnel::errors::Error;
use podtunnel::helpers::{Cidr, ObjectReference};
use podtunnel::net::Ipv4Addr;
use podtunnel::wireguard::addresses::{
    first_free_host, WireguardAddressPool, WireguardAddressPoolSpec, WireguardAddressPoolStatus,
};
use podtunnel::wireguard::allocations::Allocations;
use podtunnel::wireguard::configs::ObjectMeta;

fn pool(network: &str) -> WireguardAddressPool {
    WireguardAddressPool {
        metadata: ObjectMeta { name: "pool".to_string(), namespace: None, uid: None },
        spec: WireguardAddressPoolSpec { network: Cidr::new(network.to_string()) },
        status: None,
    }
}

fn consumer(name: &str) -> ObjectReference {
    ObjectReference { name: name.to_string(), namespace: Some("default".to_string()) }
}

fn ledger(pool: &WireguardAddressPool) -> Vec<(String, Ipv4Addr)> {
    let mut entries = match &pool.status {
        Some(status) => status.allocation.entries(),
        None => Vec::new(),
    };
    entries.sort_by(|a, b| a.0.cmp(&b.0));
    entries
}

#[test]
fn first_two_consumers_get_the_first_two_hosts() {
    let mut pool = pool("10.0.100.0/24");
    assert_eq!(pool.assign_ipv4(consumer("a")), Ok((Ipv4Addr::new(10, 0, 100, 1), 24)));
    assert_eq!(pool.assign_ipv4(consumer("b")), Ok((Ipv4Addr::new(10, 0, 100, 2), 24)));
    assert_eq!(
        ledger(&pool),
        vec![
            ("default/a".to_string(), Ipv4Addr::new(10, 0, 100, 1)),
            ("default/b".to_string(), Ipv4Addr::new(10, 0, 100, 2)),
        ]
    );
}

#[test]
fn a_recorded_address_is_passed_over() {
    let mut pool = pool("10.0.100.0/24");
    let mut allocation = Allocations::new();
    allocation.insert("default/c".to_string(), Ipv4Addr::new(10, 0, 100, 1));
    pool.status = Some(WireguardAddressPoolStatus { allocation });
    assert_eq!(pool.assign_ipv4(consumer("a")), Ok((Ipv4Addr::new(10, 0, 100, 2), 24)));
}

#[test]
fn a_gap_in_the_ledger_is_filled_first() {
    let mut pool = pool("10.0.100.0/24");
    let mut allocation = Allocations::new();
    allocation.insert("default/x".to_string(), Ipv4Addr::new(10, 0, 100, 1));
    allocation.insert("default/y".to_string(), Ipv4Addr::new(10, 0, 100, 3));
    pool.status = Some(WireguardAddressPoolStatus { allocation });
    assert_eq!(pool.assign_ipv4(consumer("a")), Ok((Ipv4Addr::new(10, 0, 100, 2), 24)));
    assert_eq!(pool.assign_ipv4(consumer("b")), Ok((Ipv4Addr::new(10, 0, 100, 4), 24)));
}

#[test]
fn assigning_twice_gives_the_same_address() {
    let mut pool = pool("10.0.100.0/24");
    pool.assign_ipv4(consumer("other")).unwrap();
    let first = pool.assign_ipv4(consumer("a"));
    let after_first = ledger(&pool);
    let second = pool.assign_ipv4(consumer("a"));
    assert_eq!(first, Ok((Ipv4Addr::new(10, 0, 100, 2), 24)));
    assert_eq!(second, first);
    assert_eq!(ledger(&pool), after_first);
}

#[test]
fn a_full_pool_is_exhausted() {
    let mut pool = pool("192.168.7.0/29");
    for i in 1..=6u8 {
        let granted = pool.assign_ipv4(consumer(&format!("pod-{}", i)));
        assert_eq!(granted, Ok((Ipv4Addr::new(192, 168, 7, i), 29)));
    }
    let before = ledger(&pool);
    assert_eq!(before.len(), 6);
    assert_eq!(pool.assign_ipv4(consumer("pod-7")), Err(Error::PoolExhausted));
    assert_eq!(ledger(&pool), before);
    assert_eq!(pool.assign_ipv4(consumer("pod-3")), Ok((Ipv4Addr::new(192, 168, 7, 3), 29)));
}

#[test]
fn no_grant_is_the_network_or_the_broadcast_address_or_held_twice() {
    let mut pool = pool("10.1.2.0/28");
    let mut seen: Vec<Ipv4Addr> = Vec::new();
    loop {
        match pool.assign_ipv4(consumer(&format!("c{}", seen.len()))) {
            Ok((address, prefix)) => {
                assert_eq!(prefix, 28);
                assert_ne!(address, Ipv4Addr::new(10, 1, 2, 0));
                assert_ne!(address, Ipv4Addr::new(10, 1, 2, 15));
                assert!(!seen.contains(&address));
                seen.push(address);
            }
            Err(error) => {
                assert_eq!(error, Error::PoolExhausted);
                break;
            }
        }
    }
    assert_eq!(seen.len(), 14);
    assert_eq!(seen[0], Ipv4Addr::new(10, 1, 2, 1));
    assert_eq!(seen[13], Ipv4Addr::new(10, 1, 2, 14));
}

#[test]
fn blocks_of_one_or_two_addresses_have_no_host() {
    assert_eq!(pool("10.0.0.4/32").assign_ipv4(consumer("a")), Err(Error::PoolExhausted));
    assert_eq!(pool("10.0.0.4/31").assign_ipv4(consumer("a")), Err(Error::PoolExhausted));
    let mut four = pool("10.0.0.4/30");
    assert_eq!(four.assign_ipv4(consumer("a")), Ok((Ipv4Addr::new(10, 0, 0, 5), 30)));
    assert_eq!(four.assign_ipv4(consumer("b")), Ok((Ipv4Addr::new(10, 0, 0, 6), 30)));
    assert_eq!(four.assign_ipv4(consumer("c")), Err(Error::PoolExhausted));
}

#[test]
fn the_whole_address_space_starts_at_one() {
    let mut pool = pool("0.0.0.0/0");
    assert_eq!(pool.assign_ipv4(consumer("a")), Ok((Ipv4Addr::new(0, 0, 0, 1), 0)));
}

#[test]
fn host_bits_of_the_base_are_cleared() {
    let mut pool = pool("10.0.100.77/24");
    assert_eq!(pool.assign_ipv4(consumer("a")), Ok((Ipv4Addr::new(10, 0, 100, 1), 24)));
    let mut top = pool_at_top();
    assert_eq!(top.assign_ipv4(consumer("a")), Ok((Ipv4Addr::new(255, 255, 255, 253), 30)));
    assert_eq!(top.assign_ipv4(consumer("b")), Ok((Ipv4Addr::new(255, 255, 255, 254), 30)));
    assert_eq!(top.assign_ipv4(consumer("c")), Err(Error::PoolExhausted));
}

fn pool_at_top() -> WireguardAddressPool {
    pool("255.255.255.255/30")
}

#[test]
fn a_malformed_network_is_refused_and_nothing_is_written() {
    for network in [
        "",
        "10.0.100.0",
        "10.0.100.0/",
        "/24",
        "10.0.100.0/24/1",
        "10.0.100/24",
        "10.0.100.256/24",
        "10.0.100.01/24",
        "10.0.100.0/33",
        "10.0.100.0/256",
        "10.0.100.0/-1",
        "10.0.100.0/2 4",
        " 10.0.100.0/24",
        "a.b.c.d/24",
    ] {
        let mut pool = pool(network);
        assert_eq!(pool.assign_ipv4(consumer("a")), Err(Error::InvalidCidr), "{}", network);
        assert!(pool.status.is_none());
    }
}

#[test]
fn the_prefix_may_carry_a_plus_sign_and_leading_zeros() {
    assert_eq!(
        pool("10.0.100.0/+24").assign_ipv4(consumer("a")),
        Ok((Ipv4Addr::new(10, 0, 100, 1), 24))
    );
    assert_eq!(
        pool("10.0.100.0/024").assign_ipv4(consumer("a")),
        Ok((Ipv4Addr::new(10, 0, 100, 1), 24))
    );
}

#[test]
fn a_valid_network_gets_a_status_even_when_exhausted() {
    let mut pool = pool("10.0.0.4/32");
    assert_eq!(pool.assign_ipv4(consumer("a")), Err(Error::PoolExhausted));
    assert!(pool.status.is_some());
    assert!(ledger(&pool).is_empty());
}

#[test]
fn the_key_of_a_consumer_is_namespace_and_name() {
    let mut pool = pool("10.0.100.0/24");
    pool.assign_ipv4(ObjectReference { name: "a".to_string(), namespace: None }).unwrap();
    pool.assign_ipv4(ObjectReference {
        name: "a".to_string(),
        namespace: Some("blue".to_string()),
    })
    .unwrap();
    assert_eq!(
        ledger(&pool),
        vec![
            ("/a".to_string(), Ipv4Addr::new(10, 0, 100, 1)),
            ("blue/a".to_string(), Ipv4Addr::new(10, 0, 100, 2)),
        ]
    );
}

#[test]
fn the_split_of_a_cidr_gives_base_and_prefix() {
    assert_eq!(
        Cidr::new("10.0.100.0/24".to_string()).split(),
        Ok((Ipv4Addr::new(10, 0, 100, 0), 24))
    );
    assert_eq!(Cidr::new("1.2.3.4/255".to_string()).split(), Err(Error::InvalidCidr));
    assert_eq!(Cidr::new("10.0.0.0/33".to_string()).split(), Err(Error::InvalidCidr));
    assert_eq!(
        Cidr::new("10.0.0.0/32".to_string()).split(),
        Ok((Ipv4Addr::new(10, 0, 0, 0), 32))
    );
    assert_eq!(Cidr::new("0.0.0.0/0".to_string()).split(), Ok((Ipv4Addr::new(0, 0, 0, 0), 0)));
    for (base, prefix) in [(Ipv4Addr::new(10, 0, 100, 0), 24u8), (Ipv4Addr::new(255, 0, 9, 1), 32)] {
        let written = format!("{}/{}", base.to_string(), prefix);
        assert_eq!(Cidr::new(written).split(), Ok((base, prefix)));
    }
    assert_eq!(Cidr::new("1.2.3.4".to_string()).split(), Err(Error::InvalidCidr));
    assert_eq!(Cidr::default().to_string(), "10.0.100.0/24");
    assert_eq!(Cidr::default().split(), Ok((Ipv4Addr::new(10, 0, 100, 0), 24)));
}

#[test]
fn the_ledger_behaves_as_a_map() {
    let mut allocation = Allocations::new();
    assert!(allocation.is_empty());
    assert_eq!(allocation.insert("a".to_string(), Ipv4Addr::new(1, 1, 1, 1)), None);
    assert_eq!(allocation.insert("b".to_string(), Ipv4Addr::new(2, 2, 2, 2)), None);
    assert_eq!(
        allocation.insert("a".to_string(), Ipv4Addr::new(3, 3, 3, 3)),
        Some(Ipv4Addr::new(1, 1, 1, 1))
    );
    assert_eq!(allocation.len(), 2);
    assert_eq!(allocation.get("a"), Some(Ipv4Addr::new(3, 3, 3, 3)));
    assert_eq!(allocation.get("c"), None);
    assert!(allocation.contains_key("b"));
    assert!(allocation.holds(Ipv4Addr::new(2, 2, 2, 2)));
    assert!(!allocation.holds(Ipv4Addr::new(1, 1, 1, 1)));
    assert_eq!(allocation.clone().entries(), allocation.entries());
    assert_eq!(
        first_free_host(&allocation, Ipv4Addr::new(2, 2, 2, 0), 30),
        Some(Ipv4Addr::new(2, 2, 2, 1))
    );
}
