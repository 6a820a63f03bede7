//! The commands that make a pod's tunnel interface.
//!
//! Inside the pod's network namespace a WireGuard link is created and given
//! its address, its private key and its listen port, and is brought up.
//! Traffic that the tunnel itself sends to its peers carries a firewall
//! mark and stays in the main routing table; everything else goes to a
//! routing table of its own, whose default route is the link.

use crate::drivers::system::{command_views, fed, plain, push_arg, Command, CommandView};
use crate::fields::{join, push_joined};
use crate::net::Ipv4Addr;
use crate::text::{decimal, decimal_string, push_decimal};
use crate::wireguard::peers::{peer_views, WireguardPeerConfig, WireguardPeerConfigView};
use vstd::prelude::*;
use vstd::string::*;

verus! {

/// The name of the tunnel interface inside a pod.
pub const DEFAULT_WIREGUARD_INTERFACE_NAME: &'static str = "wg0";

/// The firewall mark of the tunnel's own transport traffic.
pub const FWMARK: &'static str = "921481285";

/// The routing table that sends traffic through the tunnel.
pub const ROUTING_TABLE: &'static str = "129518285";

/// `address/prefix` as text.
pub open spec fn network_text(address: Ipv4Addr, prefix: u8) -> Seq<char> {
    address.text() + seq!['/'] + decimal(prefix as nat)
}

/// `address/prefix` as a string.
pub fn network_string(address: &Ipv4Addr, prefix: u8) -> (r: String)
    ensures
        r@ == network_text(*address, prefix),
{
    proof {
        reveal_strlit("/");
    }
    let mut out = String::new();
    address.push_text(&mut out);
    out.append("/");
    push_decimal(&mut out, prefix as u64);
    assert(out@ =~= network_text(*address, prefix));
    out
}

/// Creates the WireGuard link.
pub open spec fn link_add() -> CommandView {
    plain(
        "ip"@,
        seq!["link"@, "add"@, DEFAULT_WIREGUARD_INTERFACE_NAME@, "type"@, "wireguard"@],
    )
}

/// Gives the link its tunnel address.
pub open spec fn addr_add(address: Ipv4Addr, prefix: u8) -> CommandView {
    plain(
        "ip"@,
        seq![
            "addr"@,
            "add"@,
            network_text(address, prefix),
            "dev"@,
            DEFAULT_WIREGUARD_INTERFACE_NAME@,
        ],
    )
}

/// Sets the private key, which travels on standard input and never in
/// the argument list.
pub open spec fn set_private_key(private_key: Seq<char>) -> CommandView {
    fed(
        "wg"@,
        seq!["set"@, DEFAULT_WIREGUARD_INTERFACE_NAME@, "private-key"@, "/dev/stdin"@],
        private_key,
    )
}

/// Sets the port on which the tunnel listens.
pub open spec fn set_listen_port(listen_port: u16) -> CommandView {
    plain(
        "wg"@,
        seq![
            "set"@,
            DEFAULT_WIREGUARD_INTERFACE_NAME@,
            "listen-port"@,
            decimal(listen_port as nat),
        ],
    )
}

/// Brings the link up.
pub open spec fn link_up() -> CommandView {
    plain("ip"@, seq!["link"@, "set"@, DEFAULT_WIREGUARD_INTERFACE_NAME@, "up"@])
}

/// Marks the tunnel's own transport traffic.
pub open spec fn set_fwmark() -> CommandView {
    plain("wg"@, seq!["set"@, DEFAULT_WIREGUARD_INTERFACE_NAME@, "fwmark"@, FWMARK@])
}

/// Routes everything in the tunnel's table through the link.
pub open spec fn route_add() -> CommandView {
    plain(
        "ip"@,
        seq![
            "route"@,
            "add"@,
            "default"@,
            "dev"@,
            DEFAULT_WIREGUARD_INTERFACE_NAME@,
            "table"@,
            ROUTING_TABLE@,
        ],
    )
}

/// Makes `peer` known to the link: its key, allowed addresses and endpoint.
pub open spec fn peer_set(peer: WireguardPeerConfigView) -> CommandView {
    plain(
        "wg"@,
        seq![
            "set"@,
            DEFAULT_WIREGUARD_INTERFACE_NAME@,
            "peer"@,
            peer.public_key,
            "allowed-ips"@,
            join(peer.allowed_ips, ","@),
            "endpoint"@,
            peer.endpoint(),
        ],
    )
}

/// Sends the tunnel's own transport traffic to `peer` through the main
/// table, past the tunnel.
pub open spec fn rule_transport(peer: WireguardPeerConfigView) -> CommandView {
    plain(
        "ip"@,
        seq![
            "rule"@,
            "add"@,
            "from"@,
            "all"@,
            "to"@,
            peer.endpoint_address.text(),
            "fwmark"@,
            FWMARK@,
            "lookup"@,
            "main"@,
            "priority"@,
            "1"@,
        ],
    )
}

/// Sends all other traffic to `peer`'s endpoint through the tunnel's table.
pub open spec fn rule_tunnel(peer: WireguardPeerConfigView) -> CommandView {
    plain(
        "ip"@,
        seq![
            "rule"@,
            "add"@,
            "from"@,
            "all"@,
            "to"@,
            peer.endpoint_address.text(),
            "fwmark"@,
            "0"@,
            "lookup"@,
            ROUTING_TABLE@,
            "priority"@,
            "2"@,
        ],
    )
}

/// Lets the main table's default route count only where nothing more
/// specific matched.
pub open spec fn rule_suppress() -> CommandView {
    plain(
        "ip"@,
        seq![
            "rule"@,
            "add"@,
            "table"@,
            "main"@,
            "suppress_prefixlength"@,
            "0"@,
            "priority"@,
            "3"@,
        ],
    )
}

/// The commands that set up the link itself, in order.
pub open spec fn link_commands(
    tunnel_address: Ipv4Addr,
    tunnel_address_prefix: u8,
    private_key: Seq<char>,
    listen_port: u16,
) -> Seq<CommandView> {
    seq![
        link_add(),
        addr_add(tunnel_address, tunnel_address_prefix),
        set_private_key(private_key),
        set_listen_port(listen_port),
        link_up(),
        set_fwmark(),
        route_add(),
    ]
}

/// The commands for one peer, in order: the peer itself, then its two
/// policy-routing rules.
pub open spec fn peer_commands(peer: WireguardPeerConfigView) -> Seq<CommandView> {
    seq![peer_set(peer), rule_transport(peer), rule_tunnel(peer)]
}

/// The commands for `peers`, peer after peer.
pub open spec fn peers_commands(peers: Seq<WireguardPeerConfigView>) -> Seq<CommandView>
    decreases peers.len(),
{
    if peers.len() == 0 {
        Seq::empty()
    } else {
        peers_commands(peers.drop_last()) + peer_commands(peers.last())
    }
}

/// Everything that is run inside the pod's namespace, in order: the link,
/// each peer with its rules, and the closing suppress rule.
pub open spec fn interface_commands(
    tunnel_address: Ipv4Addr,
    tunnel_address_prefix: u8,
    private_key: Seq<char>,
    listen_port: u16,
    peers: Seq<WireguardPeerConfigView>,
) -> Seq<CommandView> {
    link_commands(tunnel_address, tunnel_address_prefix, private_key, listen_port)
        + peers_commands(peers) + seq![rule_suppress()]
}

/// Appends the commands that set up the link itself.
fn push_link_commands(
    out: &mut Vec<Command>,
    tunnel_address: &Ipv4Addr,
    tunnel_address_prefix: u8,
    private_key: &str,
    listen_port: u16,
)
    ensures
        command_views(final(out)@) == command_views(old(out)@) + link_commands(
            *tunnel_address,
            tunnel_address_prefix,
            private_key@,
            listen_port,
        ),
{
    let ghost before = command_views(out@);

    let mut args: Vec<String> = Vec::new();
    push_arg(&mut args, "link");
    push_arg(&mut args, "add");
    push_arg(&mut args, DEFAULT_WIREGUARD_INTERFACE_NAME);
    push_arg(&mut args, "type");
    push_arg(&mut args, "wireguard");
    let command = Command::new("ip", args);
    assert(command@.args =~= link_add().args);
    out.push(command);

    let mut args: Vec<String> = Vec::new();
    push_arg(&mut args, "addr");
    push_arg(&mut args, "add");
    let network = network_string(tunnel_address, tunnel_address_prefix);
    push_arg(&mut args, network.as_str());
    push_arg(&mut args, "dev");
    push_arg(&mut args, DEFAULT_WIREGUARD_INTERFACE_NAME);
    let command = Command::new("ip", args);
    assert(command@.args =~= addr_add(*tunnel_address, tunnel_address_prefix).args);
    out.push(command);

    let mut args: Vec<String> = Vec::new();
    push_arg(&mut args, "set");
    push_arg(&mut args, DEFAULT_WIREGUARD_INTERFACE_NAME);
    push_arg(&mut args, "private-key");
    push_arg(&mut args, "/dev/stdin");
    let command = Command::with_stdin("wg", args, private_key);
    assert(command@.args =~= set_private_key(private_key@).args);
    out.push(command);

    let mut args: Vec<String> = Vec::new();
    push_arg(&mut args, "set");
    push_arg(&mut args, DEFAULT_WIREGUARD_INTERFACE_NAME);
    push_arg(&mut args, "listen-port");
    let port = decimal_string(listen_port as u64);
    push_arg(&mut args, port.as_str());
    let command = Command::new("wg", args);
    assert(command@.args =~= set_listen_port(listen_port).args);
    out.push(command);

    let mut args: Vec<String> = Vec::new();
    push_arg(&mut args, "link");
    push_arg(&mut args, "set");
    push_arg(&mut args, DEFAULT_WIREGUARD_INTERFACE_NAME);
    push_arg(&mut args, "up");
    let command = Command::new("ip", args);
    assert(command@.args =~= link_up().args);
    out.push(command);

    let mut args: Vec<String> = Vec::new();
    push_arg(&mut args, "set");
    push_arg(&mut args, DEFAULT_WIREGUARD_INTERFACE_NAME);
    push_arg(&mut args, "fwmark");
    push_arg(&mut args, FWMARK);
    let command = Command::new("wg", args);
    assert(command@.args =~= set_fwmark().args);
    out.push(command);

    let mut args: Vec<String> = Vec::new();
    push_arg(&mut args, "route");
    push_arg(&mut args, "add");
    push_arg(&mut args, "default");
    push_arg(&mut args, "dev");
    push_arg(&mut args, DEFAULT_WIREGUARD_INTERFACE_NAME);
    push_arg(&mut args, "table");
    push_arg(&mut args, ROUTING_TABLE);
    let command = Command::new("ip", args);
    assert(command@.args =~= route_add().args);
    out.push(command);

    assert(command_views(out@) =~= before + link_commands(
        *tunnel_address,
        tunnel_address_prefix,
        private_key@,
        listen_port,
    ));
}

/// Appends the commands for one peer.
fn push_peer_commands(out: &mut Vec<Command>, peer: &WireguardPeerConfig)
    ensures
        command_views(final(out)@) == command_views(old(out)@) + peer_commands(peer@),
{
    let ghost before = command_views(out@);

    let mut args: Vec<String> = Vec::new();
    push_arg(&mut args, "set");
    push_arg(&mut args, DEFAULT_WIREGUARD_INTERFACE_NAME);
    push_arg(&mut args, "peer");
    push_arg(&mut args, peer.public_key.as_str());
    push_arg(&mut args, "allowed-ips");
    let mut allowed = String::new();
    push_joined(&mut allowed, &peer.allowed_ips, ",");
    assert(allowed@ =~= join(peer@.allowed_ips, ","@));
    push_arg(&mut args, allowed.as_str());
    push_arg(&mut args, "endpoint");
    let endpoint = peer.endpoint();
    push_arg(&mut args, endpoint.as_str());
    let command = Command::new("wg", args);
    assert(command@.args =~= peer_set(peer@).args);
    out.push(command);

    let address = peer.endpoint_address.to_string();

    let mut args: Vec<String> = Vec::new();
    push_arg(&mut args, "rule");
    push_arg(&mut args, "add");
    push_arg(&mut args, "from");
    push_arg(&mut args, "all");
    push_arg(&mut args, "to");
    push_arg(&mut args, address.as_str());
    push_arg(&mut args, "fwmark");
    push_arg(&mut args, FWMARK);
    push_arg(&mut args, "lookup");
    push_arg(&mut args, "main");
    push_arg(&mut args, "priority");
    push_arg(&mut args, "1");
    let command = Command::new("ip", args);
    assert(command@.args =~= rule_transport(peer@).args);
    out.push(command);

    let mut args: Vec<String> = Vec::new();
    push_arg(&mut args, "rule");
    push_arg(&mut args, "add");
    push_arg(&mut args, "from");
    push_arg(&mut args, "all");
    push_arg(&mut args, "to");
    push_arg(&mut args, address.as_str());
    push_arg(&mut args, "fwmark");
    push_arg(&mut args, "0");
    push_arg(&mut args, "lookup");
    push_arg(&mut args, ROUTING_TABLE);
    push_arg(&mut args, "priority");
    push_arg(&mut args, "2");
    let command = Command::new("ip", args);
    assert(command@.args =~= rule_tunnel(peer@).args);
    out.push(command);

    assert(command_views(out@) =~= before + peer_commands(peer@));
}

/// The commands that turn a pod's empty namespace into one with a
/// configured tunnel, in the order in which they are to be run.
pub fn configure_wireguard_interface(
    tunnel_address: &Ipv4Addr,
    tunnel_address_prefix: u8,
    private_key: &str,
    listen_port: u16,
    peers: &Vec<WireguardPeerConfig>,
) -> (r: Vec<Command>)
    ensures
        command_views(r@) == interface_commands(
            *tunnel_address,
            tunnel_address_prefix,
            private_key@,
            listen_port,
            peer_views(peers@),
        ),
{
    let mut out: Vec<Command> = Vec::new();
    assert(command_views(out@) =~= Seq::<CommandView>::empty());
    push_link_commands(&mut out, tunnel_address, tunnel_address_prefix, private_key, listen_port);
    let ghost link = link_commands(
        *tunnel_address,
        tunnel_address_prefix,
        private_key@,
        listen_port,
    );
    assert(command_views(out@) =~= link);
    let mut i: usize = 0;
    assert(peer_views(peers@).subrange(0, 0) =~= Seq::<WireguardPeerConfigView>::empty());
    assert(command_views(out@) =~= link + peers_commands(peer_views(peers@).subrange(0, 0)));
    while i < peers.len()
        invariant
            i <= peers.len(),
            command_views(out@) == link + peers_commands(
                peer_views(peers@).subrange(0, i as int),
            ),
        decreases peers.len() - i,
    {
        let ghost done = peer_views(peers@).subrange(0, i as int);
        let ghost next = peer_views(peers@).subrange(0, i + 1);
        assert(next.drop_last() =~= done);
        assert(next.last() == peers[i as int]@);
        push_peer_commands(&mut out, &peers[i]);
        assert(command_views(out@) =~= link + peers_commands(next));
        i += 1;
    }
    assert(peer_views(peers@).subrange(0, peers.len() as int) =~= peer_views(peers@));

    let ghost before = command_views(out@);
    let mut args: Vec<String> = Vec::new();
    push_arg(&mut args, "rule");
    push_arg(&mut args, "add");
    push_arg(&mut args, "table");
    push_arg(&mut args, "main");
    push_arg(&mut args, "suppress_prefixlength");
    push_arg(&mut args, "0");
    push_arg(&mut args, "priority");
    push_arg(&mut args, "3");
    let command = Command::new("ip", args);
    assert(command@.args =~= rule_suppress().args);
    out.push(command);
    assert(command_views(out@) =~= before + seq![rule_suppress()]);
    out
}

/// The commands for `peers` are three for each peer, in the order of the
/// peers: the peer itself and its two rules.
pub proof fn lemma_peers_commands(peers: Seq<WireguardPeerConfigView>)
    ensures
        peers_commands(peers).len() == 3 * peers.len(),
        forall|i: int|
            0 <= i < peers.len() ==> {
                &&& peers_commands(peers)[3 * i] == peer_set(#[trigger] peers[i])
                &&& peers_commands(peers)[3 * i + 1] == rule_transport(peers[i])
                &&& peers_commands(peers)[3 * i + 2] == rule_tunnel(peers[i])
            },
    decreases peers.len(),
{
    if peers.len() > 0 {
        let front = peers.drop_last();
        lemma_peers_commands(front);
        assert forall|i: int| 0 <= i < peers.len() implies {
            &&& peers_commands(peers)[3 * i] == peer_set(#[trigger] peers[i])
            &&& peers_commands(peers)[3 * i + 1] == rule_transport(peers[i])
            &&& peers_commands(peers)[3 * i + 2] == rule_tunnel(peers[i])
        } by {
            if i < front.len() {
                assert(front[i] == peers[i]);
            }
        }
    }
}

/// The commands of an interface are the seven of the link, three for each
/// peer, and the suppress rule at the end.
pub proof fn lemma_interface_commands(
    tunnel_address: Ipv4Addr,
    tunnel_address_prefix: u8,
    private_key: Seq<char>,
    listen_port: u16,
    peers: Seq<WireguardPeerConfigView>,
)
    ensures
        ({
            let commands = interface_commands(
                tunnel_address,
                tunnel_address_prefix,
                private_key,
                listen_port,
                peers,
            );
            &&& commands.len() == 8 + 3 * peers.len()
            &&& commands.subrange(0, 7) == link_commands(
                tunnel_address,
                tunnel_address_prefix,
                private_key,
                listen_port,
            )
            &&& forall|i: int|
                0 <= i < peers.len() ==> {
                    &&& commands[7 + 3 * i] == peer_set(#[trigger] peers[i])
                    &&& commands[8 + 3 * i] == rule_transport(peers[i])
                    &&& commands[9 + 3 * i] == rule_tunnel(peers[i])
                }
            &&& commands.last() == rule_suppress()
        }),
{
    lemma_peers_commands(peers);
    let link = link_commands(tunnel_address, tunnel_address_prefix, private_key, listen_port);
    let commands = interface_commands(
        tunnel_address,
        tunnel_address_prefix,
        private_key,
        listen_port,
        peers,
    );
    assert(commands.subrange(0, 7) =~= link);
    assert forall|i: int| 0 <= i < peers.len() implies {
        &&& commands[7 + 3 * i] == peer_set(#[trigger] peers[i])
        &&& commands[8 + 3 * i] == rule_transport(peers[i])
        &&& commands[9 + 3 * i] == rule_tunnel(peers[i])
    } by {
        assert(commands[7 + 3 * i] == peers_commands(peers)[3 * i]);
        assert(commands[8 + 3 * i] == peers_commands(peers)[3 * i + 1]);
        assert(commands[9 + 3 * i] == peers_commands(peers)[3 * i + 2]);
    }
}

/// Whether `command` adds a policy-routing rule: `ip rule add ..`.
pub open spec fn is_policy_rule(command: CommandView) -> bool {
    &&& command.program == "ip"@
    &&& command.args.len() >= 2
    &&& command.args[0] == "rule"@
    &&& command.args[1] == "add"@
}

/// The number of commands among `commands` that add a policy-routing rule.
pub open spec fn rule_count(commands: Seq<CommandView>) -> nat
    decreases commands.len(),
{
    if commands.len() == 0 {
        0
    } else {
        rule_count(commands.drop_last()) + if is_policy_rule(commands.last()) {
            1nat
        } else {
            0nat
        }
    }
}

/// The rules of two lists of commands, one after the other, add up.
pub proof fn lemma_rule_count_concat(a: Seq<CommandView>, b: Seq<CommandView>)
    ensures
        rule_count(a + b) == rule_count(a) + rule_count(b),
    decreases b.len(),
{
    if b.len() == 0 {
        assert(a + b =~= a);
    } else {
        lemma_rule_count_concat(a, b.drop_last());
        assert((a + b).drop_last() =~= a + b.drop_last());
        assert((a + b).last() == b.last());
    }
}

/// The commands for `peers` add two policy-routing rules for each peer.
pub proof fn lemma_peer_rules(peers: Seq<WireguardPeerConfigView>)
    ensures
        rule_count(peers_commands(peers)) == 2 * peers.len(),
    decreases peers.len(),
{
    if peers.len() > 0 {
        lemma_peer_rules(peers.drop_last());
        lemma_rule_count_concat(peers_commands(peers.drop_last()), peer_commands(peers.last()));
        let three = peer_commands(peers.last());
        let two = three.drop_last();
        let one = two.drop_last();
        reveal_strlit("ip");
        reveal_strlit("wg");
        assert("wg"@[0] != "ip"@[0]);
        assert(!is_policy_rule(three[0]));
        assert(is_policy_rule(three[1]));
        assert(is_policy_rule(three[2]));
        assert(one.drop_last() =~= Seq::<CommandView>::empty());
        assert(rule_count(one.drop_last()) == 0);
        assert(one.last() == three[0]);
        assert(two.last() == three[1]);
        assert(three.last() == three[2]);
        assert(rule_count(one) == 0);
        assert(rule_count(two) == 1);
        assert(rule_count(three) == 2);
    }
}

/// The commands of an interface add exactly two policy-routing rules for
/// each peer, and the one suppress rule.
pub proof fn lemma_interface_rules(
    tunnel_address: Ipv4Addr,
    tunnel_address_prefix: u8,
    private_key: Seq<char>,
    listen_port: u16,
    peers: Seq<WireguardPeerConfigView>,
)
    ensures
        rule_count(
            interface_commands(
                tunnel_address,
                tunnel_address_prefix,
                private_key,
                listen_port,
                peers,
            ),
        ) == 2 * peers.len() + 1,
{
    let link = link_commands(tunnel_address, tunnel_address_prefix, private_key, listen_port);
    lemma_peer_rules(peers);
    lemma_rule_count_concat(link, peers_commands(peers));
    lemma_rule_count_concat(link + peers_commands(peers), seq![rule_suppress()]);
    assert(rule_count(link) == 0) by {
        reveal_strlit("ip");
        reveal_strlit("wg");
        reveal_strlit("rule");
        reveal_strlit("link");
        reveal_strlit("addr");
        reveal_strlit("route");
        assert("wg"@[0] != "ip"@[0]);
        assert("link"@[0] != "rule"@[0]);
        assert("addr"@[0] != "rule"@[0]);
        assert("route"@.len() != "rule"@.len());
        assert(!is_policy_rule(link[0]));
        assert(!is_policy_rule(link[1]));
        assert(!is_policy_rule(link[2]));
        assert(!is_policy_rule(link[3]));
        assert(!is_policy_rule(link[4]));
        assert(!is_policy_rule(link[5]));
        assert(!is_policy_rule(link[6]));
        lemma_no_rule_among(link, 7);
        assert(link.subrange(0, 7) =~= link);
    }
    let last = seq![rule_suppress()];
    assert(last.drop_last() =~= Seq::<CommandView>::empty());
    assert(rule_count(last.drop_last()) == 0);
    assert(is_policy_rule(last.last()));
    assert(rule_count(last) == 1);
}

/// A list whose first `n` commands add no rule has no rule among them.
proof fn lemma_no_rule_among(commands: Seq<CommandView>, n: int)
    requires
        0 <= n <= commands.len(),
        forall|i: int| 0 <= i < n ==> !is_policy_rule(#[trigger] commands[i]),
    ensures
        rule_count(commands.subrange(0, n)) == 0,
    decreases n,
{
    if n > 0 {
        lemma_no_rule_among(commands, n - 1);
        assert(commands.subrange(0, n).drop_last() =~= commands.subrange(0, n - 1));
        assert(commands.subrange(0, n).last() == commands[n - 1]);
    }
}

/// The private key shows in no argument list: with another key, every
/// command has the same program and the same arguments.
pub proof fn lemma_key_not_in_arguments(
    tunnel_address: Ipv4Addr,
    tunnel_address_prefix: u8,
    private_key: Seq<char>,
    other_key: Seq<char>,
    listen_port: u16,
    peers: Seq<WireguardPeerConfigView>,
)
    ensures
        ({
            let with_key = interface_commands(
                tunnel_address,
                tunnel_address_prefix,
                private_key,
                listen_port,
                peers,
            );
            let with_other = interface_commands(
                tunnel_address,
                tunnel_address_prefix,
                other_key,
                listen_port,
                peers,
            );
            &&& with_key.len() == with_other.len()
            &&& forall|i: int|
                0 <= i < with_key.len() ==> (#[trigger] with_key[i]).program
                    == with_other[i].program && with_key[i].args == with_other[i].args
        }),
{
}

} // verus!
