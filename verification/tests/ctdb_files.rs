use gluster_coord::ctdb::{
    get_ctdb_nodes, get_interface_for_address, get_virtual_addrs, ipnetwork_from_str,
    net_to_string, parse_ipnetwork, render_ctdb_cluster_nodes, render_ctdb_configuration,
    render_ctdb_public_addresses, IpAddress, IpNetwork, NetworkInterface, VirtualIp,
};

const ADDR_V6_DB8: u128 = 0x2001_0db8_85a3_0000_0000_8a2e_0370_7334;
const ADDR_V6_CDBA: u128 = 0x2001_cdba_0000_0000_0000_0000_3257_9652;

fn v4(a: u32, b: u32, c: u32, d: u32) -> u32 {
    (a << 24) | (b << 16) | (c << 8) | d
}

#[test]
fn test_render_ctdb_cluster_nodes() {
    let ctdb_cluster = vec![
        IpAddress::V4(v4(192, 168, 1, 2)),
        IpAddress::V4(v4(192, 168, 1, 3)),
    ];
    let expected_result = "192.168.1.2\n192.168.1.3\n";
    let result = render_ctdb_cluster_nodes(&ctdb_cluster);
    println!("test_render_ctdb_cluster_nodes: \"{}\"", result);
    assert_eq!(expected_result, result);

    let ctdb_cluster = vec![IpAddress::V6(ADDR_V6_DB8), IpAddress::V6(ADDR_V6_CDBA)];
    let expected_result = "2001:db8:85a3::8a2e:370:7334\n2001:cdba::3257:9652\n";
    let result = render_ctdb_cluster_nodes(&ctdb_cluster);
    println!("test_render_ctdb_cluster_nodes ipv6: \"{}\"", result);
    assert_eq!(expected_result, result);
}

#[test]
fn test_render_ctdb_configuration() {
    let config = render_ctdb_configuration();
    assert_eq!(
        config,
        "CTDB_LOGGING=file:/var/log/ctdb/ctdb.log\nCTDB_NODES=/etc/ctdb/nodes\nCTDB_PUBLIC_ADDRESSES=/etc/ctdb/public_addresses\nCTDB_RECOVERY_LOCK=/mnt/glusterfs/.CTDB-lockfile\n"
    );
}

#[test]
fn test_render_ctdb_public_addresses() {
    let networks = vec![
        VirtualIp {
            cidr: IpNetwork::V4 { addr: v4(10, 0, 0, 6), prefix: 24 },
            interface: "eth2".to_string(),
        },
        VirtualIp {
            cidr: IpNetwork::V6 { addr: ADDR_V6_CDBA, prefix: 64 },
            interface: "eth3".to_string(),
        },
    ];
    let content = render_ctdb_public_addresses(&networks);
    assert_eq!(content, "10.0.0.6/24 eth2\n2001:cdba::3257:9652/64 eth3\n");
}

#[test]
fn test_parse_virtual_addrs() {
    let test_str = "10.0.0.6/24 eth2\n10.0.0.7/24 eth2";
    let result = get_virtual_addrs(test_str).unwrap();
    println!("test_parse_virtual_addrs: {:?}", result);
    let expected = vec![
        VirtualIp {
            cidr: IpNetwork::V4 { addr: v4(10, 0, 0, 6), prefix: 24 },
            interface: "eth2".to_string(),
        },
        VirtualIp {
            cidr: IpNetwork::V4 { addr: v4(10, 0, 0, 7), prefix: 24 },
            interface: "eth2".to_string(),
        },
    ];
    assert_eq!(expected, result);
}

#[test]
fn test_parse_virtual_addrs_v6() {
    let test_str = "2001:0db8:85a3:0000:0000:8a2e:0370:7334/24 \
                    eth2\n2001:cdba:0000:0000:0000:0000:3257:9652/24 eth2";
    let result = get_virtual_addrs(test_str).unwrap();
    println!("test_get_virtual_addrs: {:?}", result);
    let expected = vec![
        VirtualIp {
            cidr: IpNetwork::V6 { addr: ADDR_V6_DB8, prefix: 24 },
            interface: "eth2".to_string(),
        },
        VirtualIp {
            cidr: IpNetwork::V6 { addr: ADDR_V6_CDBA, prefix: 24 },
            interface: "eth2".to_string(),
        },
    ];
    assert_eq!(expected, result);
}

#[test]
fn test_parse_virtual_addrs_refuses_bad_lines() {
    assert!(get_virtual_addrs("10.0.0.6/24").is_err());
    assert!(get_virtual_addrs("not-a-network eth2").is_err());
}

#[test]
fn test_get_ctdb_nodes() {
    let test_str = "10.0.0.1\n10.0.0.2";
    let result = get_ctdb_nodes(test_str).unwrap();
    println!("test_get_ctdb_nodes: {:?}", result);
    let expected = vec![IpAddress::V4(v4(10, 0, 0, 1)), IpAddress::V4(v4(10, 0, 0, 2))];
    assert_eq!(expected, result);
}

#[test]
fn test_get_ctdb_nodes_v6() {
    let test_str = "2001:0db8:85a3:0000:0000:8a2e:0370:7334\n2001:cdba:0000:0000:0000:0000:3257:\
                    9652";
    let result = get_ctdb_nodes(test_str).unwrap();
    println!("test_get_ctdb_nodes_v6: {:?}", result);
    let expected = vec![IpAddress::V6(ADDR_V6_DB8), IpAddress::V6(ADDR_V6_CDBA)];
    assert_eq!(expected, result);
}

#[test]
fn test_get_interfaces_for_ipv4_address() {
    let addr = match ipnetwork_from_str("192.168.1.200/24") {
        Ok(net) => net,
        Err(reason) => panic!("failed to parse network: {}", reason),
    };
    let interfaces = vec![
        NetworkInterface {
            name: "eth0".to_string(),
            ips: vec![IpAddress::V4(v4(192, 168, 1, 2))],
        },
        NetworkInterface {
            name: "eth1".to_string(),
            ips: vec![IpAddress::V4(v4(192, 168, 2, 2))],
        },
    ];
    let result = get_interface_for_address(&addr, &interfaces);
    println!("get_interface_for_ipv4_address: {:?}", result);
    assert_eq!(Some("eth0".to_string()), result);
}

#[test]
fn test_get_interfaces_for_ipv6_address() {
    let addr = match ipnetwork_from_str("2001:0db8:85a3:0000:0000:8a2e:0370:7334/120") {
        Ok(net) => net,
        Err(reason) => panic!("failed to parse network: {}", reason),
    };
    let interfaces = vec![
        NetworkInterface {
            name: "eth0".to_string(),
            ips: vec![IpAddress::V6(0x2001_0db8_85a3_0000_0000_8a2e_0370_7300)],
        },
        NetworkInterface {
            name: "eth1".to_string(),
            ips: vec![IpAddress::V6(0xfd36_d456_3a78_0000_0000_0000_0000_0000)],
        },
    ];
    let result = get_interface_for_address(&addr, &interfaces);
    println!("get_interface_for_ipv6_address: {:?}", result);
    assert_eq!(Some("eth0".to_string()), result);
}

#[test]
fn test_parse_ipnetwork_keeps_refused_text() {
    match parse_ipnetwork("10.0.0.1/8") {
        Ok(IpNetwork::V4 { addr, prefix }) => {
            assert_eq!(addr, v4(10, 0, 0, 1));
            assert_eq!(prefix, 8);
        }
        other => panic!("expected a v4 network, got {:?}", other),
    }
    match parse_ipnetwork("not-a-network") {
        Err(refused) => assert_eq!(refused, "not-a-network"),
        other => panic!("expected a refusal, got {:?}", other),
    }
}

#[test]
fn test_ipnetwork_from_str_error_message() {
    match ipnetwork_from_str("999.999.999.999/40") {
        Err(reason) => assert_eq!(reason, "Unable to parse network cidr: 999.999.999.999/40"),
        other => panic!("expected a refusal, got {:?}", other),
    }
}

#[test]
fn test_net_to_string_round_trip() {
    let net = match ipnetwork_from_str("192.168.1.200/24") {
        Ok(parsed) => parsed,
        Err(reason) => panic!("failed to parse network: {}", reason),
    };
    // Rendering shows the base address as given, with its prefix.
    assert_eq!(net_to_string(&net), "192.168.1.200/24");
}
