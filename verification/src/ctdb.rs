//! CTDB configuration for highly available NFS service.
//!
//! CTDB needs three files: its own configuration, the list of cluster
//! node addresses, and the list of virtual addresses it floats across
//! the cluster.  The texts are computed here and the address formats are
//! modelled as plain numbers; parsing and printing the network notation
//! is delegated to the address library behind trusted wrappers, and
//! writing the files out is the caller's work.

use vstd::prelude::*;

use crate::text::{
    config_lines, spec_config_lines, spec_dec, spec_split, spec_str_views, spec_trim, split_on,
    str_trim, u64_to_dec,
};

verus! {

/// An IP address as a plain number.
#[derive(Clone, Copy, Debug, PartialEq, Eq, Structural)]
pub enum IpAddress {
    V4(u32),
    V6(u128),
}

/// A network in CIDR notation: a base address and a prefix length.
#[derive(Clone, Copy, Debug, PartialEq, Eq, Structural)]
pub enum IpNetwork {
    V4 { addr: u32, prefix: u8 },
    V6 { addr: u128, prefix: u8 },
}

impl IpNetwork {
    /// The prefix length fits the address family.
    pub open spec fn well_formed(self) -> bool {
        match self {
            IpNetwork::V4 { prefix, .. } => prefix <= 32,
            IpNetwork::V6 { prefix, .. } => prefix <= 128,
        }
    }
}

/// A virtual address CTDB floats across the cluster, together with the
/// interface that serves its subnet.
#[derive(Debug, PartialEq)]
pub struct VirtualIp {
    /// The network the address lives in.
    pub cidr: IpNetwork,
    /// Name of the interface that serves the subnet.
    pub interface: String,
}

impl Clone for VirtualIp {
    fn clone(&self) -> (cloned: Self)
        ensures
            cloned == *self,
    {
        VirtualIp { cidr: self.cidr, interface: self.interface.clone() }
    }
}

/// The network a string in CIDR notation stands for under the address
/// library's IPv4 rules, or `None` when it does not parse.
pub uninterp spec fn v4_net_of(text: Seq<char>) -> Option<(u32, u8)>;

/// Relies on ipnetwork's `Ipv4Network` parser: reads dotted-quad CIDR
/// notation (a missing prefix means a full 32, a dotted netmask is also
/// accepted), refusing prefixes over 32; a function of the text alone.
#[verifier::external_body]
fn parse_v4_network(text: &str) -> (net: Option<(u32, u8)>)
    ensures
        net == v4_net_of(text@),
        net matches Some((addr, prefix)) ==> prefix <= 32,
{
    text.parse::<ipnetwork::Ipv4Network>().ok().map(
        |parsed| (u32::from(parsed.ip()), parsed.prefix()),
    )
}

/// The network a string in CIDR notation stands for under the address
/// library's IPv6 rules, or `None` when it does not parse.
pub uninterp spec fn v6_net_of(text: Seq<char>) -> Option<(u128, u8)>;

/// Relies on ipnetwork's `Ipv6Network` parser: reads IPv6 CIDR notation
/// (a missing prefix means a full 128), refusing prefixes over 128; a
/// function of the text alone.
#[verifier::external_body]
fn parse_v6_network(text: &str) -> (net: Option<(u128, u8)>)
    ensures
        net == v6_net_of(text@),
        net matches Some((addr, prefix)) ==> prefix <= 128,
{
    text.parse::<ipnetwork::Ipv6Network>().ok().map(
        |parsed| (u128::from(parsed.ip()), parsed.prefix()),
    )
}

/// The address a string stands for under the standard library's address
/// parser, or `None` when it does not parse.
pub uninterp spec fn ip_addr_of(text: Seq<char>) -> Option<IpAddress>;

/// Relies on the standard library's `IpAddr` parser; a function of the
/// text alone.
#[verifier::external_body]
fn parse_ip_addr(text: &str) -> (addr: Option<IpAddress>)
    ensures
        addr == ip_addr_of(text@),
{
    match text.parse::<core::net::IpAddr>() {
        Ok(core::net::IpAddr::V4(v4)) => Some(IpAddress::V4(u32::from(v4))),
        Ok(core::net::IpAddr::V6(v6)) => Some(IpAddress::V6(u128::from(v6))),
        Err(_) => None,
    }
}

/// The canonical text form of an IPv6 address, as the standard library
/// renders it.
pub uninterp spec fn v6_addr_str_of(addr: u128) -> Seq<char>;

/// Relies on the standard library's `Ipv6Addr` display: the shortened
/// canonical form, a function of the address alone.
#[verifier::external_body]
fn v6_addr_to_string(addr: u128) -> (text: String)
    ensures
        text@ == v6_addr_str_of(addr),
{
    core::net::Ipv6Addr::from(addr).to_string()
}

/// The dotted-quad text form of an IPv4 address.
pub open spec fn spec_v4_addr_str(addr: u32) -> Seq<char> {
    spec_dec(((addr >> 24) & 0xff) as int) + "."@ + spec_dec(((addr >> 16) & 0xff) as int) + "."@
        + spec_dec(((addr >> 8) & 0xff) as int) + "."@ + spec_dec((addr & 0xff) as int)
}

/// Render an IPv4 address in dotted-quad form.
pub fn v4_addr_to_string(addr: u32) -> (text: String)
    ensures
        text@ == spec_v4_addr_str(addr),
{
    let mut text = u64_to_dec(((addr >> 24) & 0xff) as u64);
    text.append(".");
    text.append(u64_to_dec(((addr >> 16) & 0xff) as u64).as_str());
    text.append(".");
    text.append(u64_to_dec(((addr >> 8) & 0xff) as u64).as_str());
    text.append(".");
    text.append(u64_to_dec((addr & 0xff) as u64).as_str());
    text
}

/// The text form of an address of either family.
pub open spec fn spec_ip_addr_str(addr: IpAddress) -> Seq<char> {
    match addr {
        IpAddress::V4(v4) => spec_v4_addr_str(v4),
        IpAddress::V6(v6) => v6_addr_str_of(v6),
    }
}

/// Render an address of either family.
pub fn ip_addr_to_string(addr: &IpAddress) -> (text: String)
    ensures
        text@ == spec_ip_addr_str(*addr),
{
    match addr {
        IpAddress::V4(v4) => v4_addr_to_string(*v4),
        IpAddress::V6(v6) => v6_addr_to_string(*v6),
    }
}

/// The CIDR text form of a network: the base address, a slash, the
/// prefix length.
pub open spec fn spec_net_str(net: IpNetwork) -> Seq<char> {
    match net {
        IpNetwork::V4 { addr, prefix } => spec_v4_addr_str(addr) + "/"@ + spec_dec(prefix as int),
        IpNetwork::V6 { addr, prefix } => v6_addr_str_of(addr) + "/"@ + spec_dec(prefix as int),
    }
}

/// Render a network in CIDR notation.
pub fn net_to_string(net: &IpNetwork) -> (text: String)
    ensures
        text@ == spec_net_str(*net),
{
    let mut text = match net {
        IpNetwork::V4 { addr, prefix: _ } => v4_addr_to_string(*addr),
        IpNetwork::V6 { addr, prefix: _ } => v6_addr_to_string(*addr),
    };
    text.append("/");
    let prefix = match net {
        IpNetwork::V4 { addr: _, prefix } => *prefix,
        IpNetwork::V6 { addr: _, prefix } => *prefix,
    };
    text.append(u64_to_dec(prefix as u64).as_str());
    text
}

impl VirtualIp {
    /// One line of the public-addresses file: the network, a space, the
    /// interface.
    pub open spec fn spec_str(self) -> Seq<char> {
        spec_net_str(self.cidr) + " "@ + self.interface@
    }

    /// Render this virtual address as its public-addresses line.
    pub fn to_string(&self) -> (text: String)
        ensures
            text@ == self.spec_str(),
    {
        let mut text = net_to_string(&self.cidr);
        text.append(" ");
        text.append(self.interface.as_str());
        text
    }
}

/// The fixed CTDB configuration: logging to its own file, node and
/// public-address lists in their usual places, and the recovery lock on
/// the replicated volume itself, so every node sees it.
pub open spec fn spec_ctdb_config() -> Seq<char> {
    "CTDB_LOGGING=file:/var/log/ctdb/ctdb.log\nCTDB_NODES=/etc/ctdb/nodes\nCTDB_PUBLIC_ADDRESSES=/etc/ctdb/public_addresses\nCTDB_RECOVERY_LOCK=/mnt/glusterfs/.CTDB-lockfile\n"@
}

/// Render the CTDB configuration file.
pub fn render_ctdb_configuration() -> (config: String)
    ensures
        config@ == spec_ctdb_config(),
{
    String::from_str(
        "CTDB_LOGGING=file:/var/log/ctdb/ctdb.log\nCTDB_NODES=/etc/ctdb/nodes\nCTDB_PUBLIC_ADDRESSES=/etc/ctdb/public_addresses\nCTDB_RECOVERY_LOCK=/mnt/glusterfs/.CTDB-lockfile\n",
    )
}

/// The nodes file: one address per line, every line newline-terminated.
pub open spec fn spec_cluster_nodes(cluster: Seq<IpAddress>) -> Seq<char>
    decreases cluster.len(),
{
    if cluster.len() == 0 {
        Seq::empty()
    } else {
        spec_cluster_nodes(cluster.drop_last()) + spec_ip_addr_str(cluster.last()) + "\n"@
    }
}

/// Render the nodes file so every CTDB peer can find the others: the
/// participating cluster addresses, one per line, in order.
#[verifier::loop_isolation(false)]
pub fn render_ctdb_cluster_nodes(cluster: &Vec<IpAddress>) -> (content: String)
    ensures
        content@ == spec_cluster_nodes(cluster@),
{
    let mut content = String::new();
    let mut i: usize = 0;
    while i < cluster.len()
        invariant
            i <= cluster@.len(),
            content@ == spec_cluster_nodes(cluster@.take(i as int)),
        decreases cluster@.len() - i,
    {
        proof {
            assert(cluster@.take(i + 1).drop_last() =~= cluster@.take(i as int));
        }
        content.append(ip_addr_to_string(&cluster[i]).as_str());
        content.append("\n");
        i = i + 1;
    }
    proof {
        assert(cluster@.take(cluster@.len() as int) =~= cluster@);
    }
    content
}

/// The public-addresses file: one virtual address line per entry, every
/// line newline-terminated.
pub open spec fn spec_public_addresses(networks: Seq<VirtualIp>) -> Seq<char>
    decreases networks.len(),
{
    if networks.len() == 0 {
        Seq::empty()
    } else {
        spec_public_addresses(networks.drop_last()) + networks.last().spec_str() + "\n"@
    }
}

/// Render the public-addresses file: the virtual addresses CTDB floats,
/// one per line with their interfaces, in order.
#[verifier::loop_isolation(false)]
pub fn render_ctdb_public_addresses(cluster_networks: &Vec<VirtualIp>) -> (content: String)
    ensures
        content@ == spec_public_addresses(cluster_networks@),
{
    let mut content = String::new();
    let mut i: usize = 0;
    while i < cluster_networks.len()
        invariant
            i <= cluster_networks@.len(),
            content@ == spec_public_addresses(cluster_networks@.take(i as int)),
        decreases cluster_networks@.len() - i,
    {
        proof {
            assert(cluster_networks@.take(i + 1).drop_last() =~= cluster_networks@.take(
                i as int,
            ));
        }
        content.append(cluster_networks[i].to_string().as_str());
        content.append("\n");
        i = i + 1;
    }
    proof {
        assert(cluster_networks@.take(cluster_networks@.len() as int) =~= cluster_networks@);
    }
    content
}

/// The network that `text` parses to: IPv4 notation wins, IPv6 notation
/// is tried second, and text that is neither yields nothing.
pub open spec fn spec_parsed_net(text: Seq<char>) -> Option<IpNetwork> {
    match v4_net_of(text) {
        Some((addr, prefix)) => Some(IpNetwork::V4 { addr, prefix }),
        None => match v6_net_of(text) {
            Some((addr, prefix)) => Some(IpNetwork::V6 { addr, prefix }),
            None => None,
        },
    }
}

/// Parse a network in CIDR notation, trying IPv4 before IPv6.
pub fn ipnetwork_from_str(text: &str) -> (net: Result<IpNetwork, String>)
    ensures
        match net {
            Ok(parsed) => spec_parsed_net(text@) == Some(parsed) && parsed.well_formed(),
            Err(_) => spec_parsed_net(text@) is None,
        },
{
    if let Some((addr, prefix)) = parse_v4_network(text) {
        return Ok(IpNetwork::V4 { addr, prefix });
    }
    if let Some((addr, prefix)) = parse_v6_network(text) {
        return Ok(IpNetwork::V6 { addr, prefix });
    }
    let mut reason = String::from_str("Unable to parse network cidr: ");
    reason.append(text);
    Err(reason)
}

/// Parse a network in CIDR notation, trying IPv4 before IPv6; the same
/// reading as `ipnetwork_from_str`, for callers that keep the refused
/// text.
pub fn parse_ipnetwork(text: &str) -> (net: Result<IpNetwork, String>)
    ensures
        match net {
            Ok(parsed) => spec_parsed_net(text@) == Some(parsed) && parsed.well_formed(),
            Err(refused) => spec_parsed_net(text@) is None && refused@ == text@,
        },
{
    if let Some((addr, prefix)) = parse_v4_network(text) {
        return Ok(IpNetwork::V4 { addr, prefix });
    }
    if let Some((addr, prefix)) = parse_v6_network(text) {
        return Ok(IpNetwork::V6 { addr, prefix });
    }
    Err(String::from_str(text))
}

/// One line of the public-addresses file parses when it has at least a
/// network part and an interface part, and the network part parses.
pub open spec fn spec_vip_line_ok(line: Seq<char>) -> bool {
    let parts = spec_split(line, ' ');
    parts.len() >= 2 && spec_parsed_net(parts[0]) is Some
}

/// Read the virtual addresses managed by CTDB from the contents of its
/// public-addresses file: per line, a network in CIDR notation and the
/// serving interface, separated by a space.  Fails exactly when some
/// line lacks the two parts or its network does not parse.
#[verifier::loop_isolation(false)]
pub fn get_virtual_addrs(content: &str) -> (addrs: Result<Vec<VirtualIp>, String>)
    ensures
        ({
            let lines = spec_config_lines(content@);
            match addrs {
                Ok(parsed) => (forall|i: int| 0 <= i < lines.len() ==> spec_vip_line_ok(#[trigger] lines[i]))
                    && parsed@.len() == lines.len() && (forall|i: int|
                    0 <= i < lines.len() ==> {
                        let parts = spec_split(#[trigger] lines[i], ' ');
                        parsed@[i].cidr == spec_parsed_net(parts[0]).unwrap()
                            && parsed@[i].interface@ == spec_trim(parts[1])
                    }),
                Err(_) => exists|i: int|
                    0 <= i < lines.len() && !spec_vip_line_ok(#[trigger] lines[i]),
            }
        }),
{
    let lines = config_lines(content);
    let ghost line_views = spec_config_lines(content@);
    let mut addrs: Vec<VirtualIp> = Vec::new();
    let mut i: usize = 0;
    while i < lines.len()
        invariant
            i <= lines@.len(),
            spec_str_views(lines@) == line_views,
            addrs@.len() == i,
            forall|j: int| 0 <= j < i ==> spec_vip_line_ok(#[trigger] line_views[j]),
            forall|j: int|
                0 <= j < i ==> {
                    let parts = spec_split(#[trigger] line_views[j], ' ');
                    addrs@[j].cidr == spec_parsed_net(parts[0]).unwrap() && addrs@[j].interface@
                        == spec_trim(parts[1])
                },
        decreases lines@.len() - i,
    {
        let parts = split_on(lines[i].as_str(), ' ');
        proof {
            assert(spec_str_views(parts@).len() == spec_split(line_views[i as int], ' ').len());
        }
        if parts.len() < 2 {
            proof {
                assert(!spec_vip_line_ok(line_views[i as int]));
            }
            let mut reason = String::from_str("Unable to parse network: ");
            reason.append(lines[i].as_str());
            return Err(reason);
        }
        proof {
            assert(parts@[0]@ == spec_split(line_views[i as int], ' ')[0]);
        }
        let cidr = match ipnetwork_from_str(parts[0].as_str()) {
            Ok(net) => net,
            Err(reason) => {
                proof {
                    assert(!spec_vip_line_ok(line_views[i as int]));
                }
                return Err(reason);
            },
        };
        let interface = String::from_str(str_trim(parts[1].as_str()));
        addrs.push(VirtualIp { cidr, interface });
        i = i + 1;
    }
    Ok(addrs)
}

/// Read the CTDB node addresses from the contents of the nodes file:
/// one address per line.  Fails exactly when some line is no address.
#[verifier::loop_isolation(false)]
pub fn get_ctdb_nodes(content: &str) -> (nodes: Result<Vec<IpAddress>, String>)
    ensures
        ({
            let lines = spec_config_lines(content@);
            match nodes {
                Ok(parsed) => parsed@.len() == lines.len() && (forall|i: int|
                    0 <= i < lines.len() ==> ip_addr_of(#[trigger] lines[i]) == Some(
                        parsed@[i],
                    )),
                Err(_) => exists|i: int|
                    0 <= i < lines.len() && ip_addr_of(#[trigger] lines[i]) is None,
            }
        }),
{
    let lines = config_lines(content);
    let ghost line_views = spec_config_lines(content@);
    let mut nodes: Vec<IpAddress> = Vec::new();
    let mut i: usize = 0;
    while i < lines.len()
        invariant
            i <= lines@.len(),
            spec_str_views(lines@) == line_views,
            nodes@.len() == i,
            forall|j: int| 0 <= j < i ==> ip_addr_of(#[trigger] line_views[j]) == Some(nodes@[j]),
        decreases lines@.len() - i,
    {
        match parse_ip_addr(lines[i].as_str()) {
            Some(addr) => {
                nodes.push(addr);
            },
            None => {
                proof {
                    assert(ip_addr_of(line_views[i as int]) is None);
                }
                let mut reason = String::from_str("invalid ip address: ");
                reason.append(lines[i].as_str());
                return Err(reason);
            },
        }
        i = i + 1;
    }
    Ok(nodes)
}

/// One interface as the coordinator sees it: a name and the addresses it
/// serves.
#[derive(Debug, PartialEq)]
pub struct NetworkInterface {
    /// The interface name.
    pub name: String,
    /// The addresses the interface serves.
    pub ips: Vec<IpAddress>,
}

/// Membership under the address library's rule: the masked address
/// equals the masked network base.
pub open spec fn spec_v4_contains(net: u32, prefix: u8, ip: u32) -> bool
    recommends
        prefix <= 32,
{
    let mask = !(0xffff_ffffu64 >> prefix) as u32;
    (ip & mask) == (net & mask)
}

/// Membership under the address library's rule for IPv6.
pub open spec fn spec_v6_contains(net: u128, prefix: u8, ip: u128) -> bool
    recommends
        prefix <= 128,
{
    let mask = if prefix == 0 {
        0u128
    } else {
        u128::MAX << ((128 - prefix) as u128)
    };
    (ip & mask) == (net & mask)
}

/// A network of either family contains an address of the same family
/// whose masked bits match.
pub open spec fn spec_net_contains(net: IpNetwork, ip: IpAddress) -> bool {
    match (net, ip) {
        (IpNetwork::V4 { addr, prefix }, IpAddress::V4(v4)) => spec_v4_contains(addr, prefix, v4),
        (IpNetwork::V6 { addr, prefix }, IpAddress::V6(v6)) => spec_v6_contains(addr, prefix, v6),
        _ => false,
    }
}

/// Decide whether `net` contains `ip`: the same masking rule the
/// address library applies, and always false across families.
pub fn net_contains(net: &IpNetwork, ip: &IpAddress) -> (contained: bool)
    requires
        net.well_formed(),
    ensures
        contained == spec_net_contains(*net, *ip),
{
    match (net, ip) {
        (IpNetwork::V4 { addr, prefix }, IpAddress::V4(v4)) => {
            let mask = !(0xffff_ffffu64 >> *prefix) as u32;
            (*v4 & mask) == (*addr & mask)
        },
        (IpNetwork::V6 { addr, prefix }, IpAddress::V6(v6)) => {
            let mask = if *prefix == 0 {
                0u128
            } else {
                u128::MAX << ((128 - *prefix) as u128)
            };
            (*v6 & mask) == (*addr & mask)
        },
        _ => false,
    }
}

/// The first interface, in order, that serves an address inside `net`.
pub open spec fn spec_serving_interface(net: IpNetwork, interfaces: Seq<NetworkInterface>, at: int) -> bool {
    &&& 0 <= at < interfaces.len()
    &&& exists|k: int|
        0 <= k < interfaces[at].ips@.len() && spec_net_contains(
            net,
            #[trigger] interfaces[at].ips@[k],
        )
    &&& forall|j: int, k: int|
        0 <= j < at && 0 <= k < interfaces[j].ips@.len() ==> !spec_net_contains(
            net,
            #[trigger] interfaces[j].ips@[k],
        )
}

/// Find the network interface that serves the subnet of `cidr_address`:
/// the first interface with an address inside the network, or `None`
/// when no interface serves it.
#[verifier::loop_isolation(false)]
pub fn get_interface_for_address(cidr_address: &IpNetwork, interfaces: &Vec<NetworkInterface>) -> (
    found: Option<String>)
    requires
        cidr_address.well_formed(),
    ensures
        match found {
            Some(name) => exists|at: int|
                #[trigger] spec_serving_interface(*cidr_address, interfaces@, at) && name@
                    == interfaces@[at].name@,
            None => forall|j: int, k: int|
                0 <= j < interfaces@.len() && 0 <= k < interfaces@[j].ips@.len()
                    ==> !spec_net_contains(*cidr_address, #[trigger] interfaces@[j].ips@[k]),
        },
{
    let mut i: usize = 0;
    while i < interfaces.len()
        invariant
            i <= interfaces@.len(),
            forall|j: int, k: int|
                0 <= j < i && 0 <= k < interfaces@[j].ips@.len() ==> !spec_net_contains(
                    *cidr_address,
                    #[trigger] interfaces@[j].ips@[k],
                ),
        decreases interfaces@.len() - i,
    {
        let interface = &interfaces[i];
        let mut k: usize = 0;
        while k < interface.ips.len()
            invariant
                i < interfaces@.len(),
                k <= interface.ips@.len(),
                interface == interfaces@[i as int],
                forall|m: int|
                    0 <= m < k ==> !spec_net_contains(
                        *cidr_address,
                        #[trigger] interface.ips@[m],
                    ),
            decreases interface.ips@.len() - k,
        {
            if net_contains(cidr_address, &interface.ips[k]) {
                proof {
                    assert(spec_serving_interface(*cidr_address, interfaces@, i as int));
                }
                return Some(interface.name.clone());
            }
            k = k + 1;
        }
        i = i + 1;
    }
    None
}

/// The virtual-address entries of the configuration value: its
/// space-separated words, empty entries dropped.
pub open spec fn spec_vip_entries(config: Seq<char>) -> Seq<Seq<char>> {
    crate::text::spec_nonempty_parts(spec_split(config, ' '))
}

/// Resolve the configured virtual addresses to the interfaces serving
/// them: every entry of the space-separated configuration value must
/// parse as a network, and some interface must serve an address inside
/// it.  Fails exactly when an entry does not parse or no interface
/// serves it.
#[verifier::loop_isolation(false)]
pub fn get_cluster_networks(config: &str, interfaces: &Vec<NetworkInterface>) -> (networks:
    Result<Vec<VirtualIp>, String>)
    ensures
        ({
            let entries = spec_vip_entries(config@);
            match networks {
                Ok(resolved) => resolved@.len() == entries.len() && (forall|i: int|
                    0 <= i < entries.len() ==> {
                        let parsed = spec_parsed_net(#[trigger] entries[i]);
                        &&& parsed is Some
                        &&& resolved@[i].cidr == parsed.unwrap()
                        &&& exists|at: int|
                            #[trigger] spec_serving_interface(parsed.unwrap(), interfaces@, at)
                                && resolved@[i].interface@ == interfaces@[at].name@
                    }),
                Err(_) => exists|i: int|
                    0 <= i < entries.len() && {
                        let parsed = spec_parsed_net(#[trigger] entries[i]);
                        parsed is None || (forall|j: int, k: int|
                            0 <= j < interfaces@.len() && 0 <= k < interfaces@[j].ips@.len()
                                ==> !spec_net_contains(
                                parsed.unwrap(),
                                #[trigger] interfaces@[j].ips@[k],
                            ))
                    },
            }
        }),
{
    let parts = split_on(config, ' ');
    let ghost part_views = crate::text::spec_str_views(parts@);
    let mut entries: Vec<String> = Vec::new();
    let mut i: usize = 0;
    while i < parts.len()
        invariant
            i <= parts@.len(),
            crate::text::spec_str_views(entries@) =~~= crate::text::spec_nonempty_parts(
                part_views.take(i as int),
            ),
        decreases parts@.len() - i,
    {
        proof {
            assert(part_views.take(i + 1).drop_last() =~= part_views.take(i as int));
        }
        if parts[i].as_str().unicode_len() > 0 {
            entries.push(parts[i].clone());
        }
        proof {
            assert(crate::text::spec_str_views(entries@) =~~= crate::text::spec_nonempty_parts(
                part_views.take(i + 1),
            ));
        }
        i = i + 1;
    }
    proof {
        assert(part_views.take(parts@.len() as int) =~= part_views);
    }
    let ghost entry_views = spec_vip_entries(config@);
    let mut networks: Vec<VirtualIp> = Vec::new();
    let mut e: usize = 0;
    while e < entries.len()
        invariant
            e <= entries@.len(),
            crate::text::spec_str_views(entries@) == entry_views,
            networks@.len() == e,
            forall|i: int|
                0 <= i < e ==> {
                    let parsed = spec_parsed_net(#[trigger] entry_views[i]);
                    &&& parsed is Some
                    &&& networks@[i].cidr == parsed.unwrap()
                    &&& exists|at: int|
                        #[trigger] spec_serving_interface(parsed.unwrap(), interfaces@, at)
                            && networks@[i].interface@ == interfaces@[at].name@
                },
        decreases entries@.len() - e,
    {
        proof {
            assert(entries@[e as int]@ == entry_views[e as int]);
        }
        let cidr = match ipnetwork_from_str(entries[e].as_str()) {
            Ok(net) => net,
            Err(reason) => {
                proof {
                    assert(spec_parsed_net(entry_views[e as int]) is None);
                }
                return Err(reason);
            },
        };
        proof {
            assert(spec_parsed_net(entry_views[e as int]) == Some(cidr));
        }
        let interface = match get_interface_for_address(&cidr, interfaces) {
            Some(name) => name,
            None => {
                proof {
                    assert(forall|j: int, k: int|
                        0 <= j < interfaces@.len() && 0 <= k < interfaces@[j].ips@.len()
                            ==> !spec_net_contains(
                            spec_parsed_net(entry_views[e as int]).unwrap(),
                            #[trigger] interfaces@[j].ips@[k],
                        ));
                }
                let mut reason = String::from_str("Failed to find interface for network ");
                reason.append(entries[e].as_str());
                return Err(reason);
            },
        };
        networks.push(VirtualIp { cidr, interface });
        e = e + 1;
    }
    Ok(networks)
}

} // verus!
