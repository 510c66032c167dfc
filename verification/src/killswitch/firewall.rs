//! iptables-based VPN kill switch.
//!
//! A dedicated chain `SHROUD_KILLSWITCH` in the filter table accepts only:
//! traffic through VPN tunnel interfaces (tun*, tap*, wg*), traffic to the
//! VPN server addresses, loopback, established/related connections, local
//! networks (192.168.0.0/16, 10.0.0.0/8, 172.16.0.0/12) and DHCP; DNS as the
//! `DnsMode` allows (with DNS restricted to the tunnel, port 53 outside it is
//! dropped before the local networks are accepted); everything else is
//! logged and dropped. A jump rule at
//! the top of OUTPUT activates the chain. IPv6 is handled as the `Ipv6Mode`
//! says, with rules inserted directly into ip6tables' OUTPUT chain.
//!
//! The library decides which commands to run and in which order; the
//! program runs them (through `pkexec`) and reports back.
use vstd::prelude::*;

pub mod chains;
pub mod error;
pub mod ip6tables;
pub mod iptables;
pub mod plan;
pub mod script;

use crate::config::{DnsMode, Ipv6Mode};
use crate::ip::{ips_view, IpFamily, ServerIp};
use crate::ipc::opt_view;
use crate::text::{
    contains, contains_str, decimal, has_prefix, last_index, lines, lines_of, parse_unsigned,
    parse_unsigned_str, piece, push_decimal, rfind_char, split, split_str, split_ws,
    split_whitespace_str, starts_with, str_eq, str_views, strings_of, trim, trim_start_matches,
    trim_start_matches_str, trim_str, views,
};

verus! {

/// Name of the iptables chain of the kill switch.
pub const CHAIN_NAME: &'static str = "SHROUD_KILLSWITCH";

/// Name of the nftables table of the kill switch.
pub const NFT_TABLE: &'static str = "shroud_killswitch";

/// Errors of kill switch operations.
#[derive(Debug, PartialEq)]
pub enum KillSwitchError {
    /// iptables is not installed or not in PATH.
    NotFound,
    /// Permission denied: elevated privileges are needed.
    Permission,
    /// The iptables/pkexec process could not be spawned (the OS error's text).
    Spawn(String),
    /// The iptables command failed (its error output).
    Command(String),
    /// Writing to the process failed (the OS error's text).
    Write(String),
    /// Waiting for the process failed (the OS error's text).
    Wait(String),
}

/// The message of an error.
pub open spec fn error_message(e: KillSwitchError) -> Seq<char> {
    match e {
        KillSwitchError::NotFound => "iptables is not available. Install with: sudo apt install iptables"@,
        KillSwitchError::Permission => "Permission denied. Kill switch requires root privileges via pkexec."@,
        KillSwitchError::Spawn(s) => "Failed to spawn iptables process: "@ + s@,
        KillSwitchError::Command(s) => "iptables command failed: "@ + s@,
        KillSwitchError::Write(s) => "Failed to write to process: "@ + s@,
        KillSwitchError::Wait(s) => "Failed waiting for iptables process: "@ + s@,
    }
}

impl KillSwitchError {
    /// The message of the error.
    pub fn message(&self) -> (r: String)
        ensures
            r@ == error_message(*self),
    {
        match self {
            KillSwitchError::NotFound => String::from_str(
                "iptables is not available. Install with: sudo apt install iptables",
            ),
            KillSwitchError::Permission => String::from_str(
                "Permission denied. Kill switch requires root privileges via pkexec.",
            ),
            KillSwitchError::Spawn(s) => {
                let mut m = String::from_str("Failed to spawn iptables process: ");
                m.append(s.as_str());
                m
            },
            KillSwitchError::Command(s) => {
                let mut m = String::from_str("iptables command failed: ");
                m.append(s.as_str());
                m
            },
            KillSwitchError::Write(s) => {
                let mut m = String::from_str("Failed to write to process: ");
                m.append(s.as_str());
                m
            },
            KillSwitchError::Wait(s) => {
                let mut m = String::from_str("Failed waiting for iptables process: ");
                m.append(s.as_str());
                m
            },
        }
    }
}

/// Kill switch status.
#[derive(Debug, Clone, Copy, PartialEq, Eq, Structural)]
pub enum KillSwitchStatus {
    /// Disabled: normal traffic allowed.
    Disabled,
    /// Enabled and active: only VPN traffic allowed.
    Active,
    /// The kill switch encountered an error.
    Error,
}

/// The firewall program a command runs.
#[derive(Debug, Clone, Copy, PartialEq, Eq, Structural)]
pub enum FirewallProgram {
    Iptables,
    Ip6tables,
    Nft,
}

/// A firewall command: a program and its arguments.
#[derive(Debug, PartialEq)]
pub struct FirewallCommand {
    pub program: FirewallProgram,
    pub args: Vec<String>,
}

/// `FirewallCommand` with its arguments taken as character sequences.
#[verifier::ext_equal]
pub struct FirewallCommandView {
    pub program: FirewallProgram,
    pub args: Seq<Seq<char>>,
}

impl View for FirewallCommand {
    type V = FirewallCommandView;

    open spec fn view(&self) -> FirewallCommandView {
        FirewallCommandView { program: self.program, args: views(self.args@) }
    }
}

impl Clone for FirewallCommand {
    fn clone(&self) -> (r: Self)
        ensures
            r@ == self@,
    {
        let mut args: Vec<String> = Vec::new();
        for i in 0..self.args.len()
            invariant
                views(args@) == views(self.args@.take(i as int)),
        {
            let ghost old_args = args@;
            let a = self.args[i].clone();
            args.push(a);
            proof {
                assert(self.args@.take(i + 1) =~= self.args@.take(i as int).push(
                    self.args@[i as int],
                ));
                assert(args@ =~= old_args.push(a));
                assert(views(args@) =~= views(old_args).push(a@));
                assert(views(args@) =~= views(self.args@.take(i + 1)));
            }
        }
        proof {
            assert(self.args@.take(self.args@.len() as int) =~= self.args@);
        }
        FirewallCommand { program: self.program, args }
    }
}

/// The views of a sequence of commands.
pub open spec fn cmds_view(v: Seq<FirewallCommand>) -> Seq<FirewallCommandView> {
    v.map_values(|c: FirewallCommand| c@)
}

pub open spec fn ipt(args: Seq<Seq<char>>) -> FirewallCommandView {
    FirewallCommandView { program: FirewallProgram::Iptables, args }
}

pub open spec fn ip6t(args: Seq<Seq<char>>) -> FirewallCommandView {
    FirewallCommandView { program: FirewallProgram::Ip6tables, args }
}

/// A command of `program` with literal arguments.
pub fn command(program: FirewallProgram, parts: &[&str]) -> (r: FirewallCommand)
    ensures
        r@ == (FirewallCommandView { program, args: str_views(parts@) }),
{
    FirewallCommand { program, args: strings_of(parts) }
}

fn push_cmd(v: &mut Vec<FirewallCommand>, c: FirewallCommand)
    ensures
        cmds_view(final(v)@) == cmds_view(old(v)@).push(c@),
{
    let ghost old_v = v@;
    v.push(c);
    proof {
        assert(v@ =~= old_v.push(c));
        assert(cmds_view(v@) =~~= cmds_view(old_v).push(c@));
    }
}

// ---------------------------------------------------------------------------
// The rules of an enabled kill switch
// ---------------------------------------------------------------------------

/// `-A SHROUD_KILLSWITCH <rule...> -j ACCEPT`.
pub open spec fn accept(rule: Seq<Seq<char>>) -> FirewallCommandView {
    ipt(seq!["-A"@, CHAIN_NAME@] + rule + seq!["-j"@, "ACCEPT"@])
}

/// Whether an interface is covered by the tun+/tap+/wg+ wildcard rules.
pub open spec fn is_wildcard_tunnel(iface: Seq<char>) -> bool {
    has_prefix(iface, "tun"@) || has_prefix(iface, "tap"@) || has_prefix(iface, "wg"@)
}

/// Accept rules for the IPv4 addresses in `ips`, in order.
pub open spec fn v4_accepts(ips: Seq<(IpFamily, Seq<char>)>) -> Seq<FirewallCommandView>
    decreases ips.len(),
{
    if ips.len() == 0 {
        seq![]
    } else {
        let last = ips[ips.len() - 1];
        v4_accepts(ips.subrange(0, ips.len() - 1)) + if last.0 == IpFamily::V4 {
            seq![accept(seq!["-d"@, last.1])]
        } else {
            seq![]
        }
    }
}

/// Number of IPv6 addresses in `ips`.
pub open spec fn count_v6(ips: Seq<(IpFamily, Seq<char>)>) -> nat
    decreases ips.len(),
{
    if ips.len() == 0 {
        0
    } else {
        count_v6(ips.subrange(0, ips.len() - 1)) + if ips[ips.len() - 1].0 == IpFamily::V6 {
            1nat
        } else {
            0nat
        }
    }
}

/// `ip6tables -I OUTPUT <index> -d <dest> -j ACCEPT`.
pub open spec fn v6_accept_at(index: nat, dest: Seq<char>) -> FirewallCommandView {
    ip6t(seq!["-I"@, "OUTPUT"@, decimal(index), "-d"@, dest, "-j"@, "ACCEPT"@])
}

/// Accept rules for the IPv6 addresses in `ips`, inserted from position `start` on.
pub open spec fn v6_accepts(ips: Seq<(IpFamily, Seq<char>)>, start: nat) -> Seq<FirewallCommandView>
    decreases ips.len(),
{
    if ips.len() == 0 {
        seq![]
    } else {
        let front = ips.subrange(0, ips.len() - 1);
        let last = ips[ips.len() - 1];
        v6_accepts(front, start) + if last.0 == IpFamily::V6 {
            seq![v6_accept_at(start + count_v6(front), last.1)]
        } else {
            seq![]
        }
    }
}

/// The IPv6 rules of `mode`, given the detected server addresses and the
/// configured server address.
pub open spec fn ipv6_rules(
    mode: Ipv6Mode,
    detected: Seq<(IpFamily, Seq<char>)>,
    server: Option<(IpFamily, Seq<char>)>,
) -> Seq<FirewallCommandView> {
    match mode {
        Ipv6Mode::Block => seq![
            ip6t(seq!["-I"@, "OUTPUT"@, "1"@, "-o"@, "lo"@, "-j"@, "ACCEPT"@]),
            ip6t(seq!["-I"@, "OUTPUT"@, "2"@, "-j"@, "DROP"@]),
        ],
        Ipv6Mode::Tunnel => {
            let k = 6 + count_v6(detected);
            let server_rule = match server {
                Some((IpFamily::V6, t)) => seq![v6_accept_at(k, t)],
                _ => seq![],
            };
            let drop_at = k + server_rule.len();
            seq![
                ip6t(seq!["-I"@, "OUTPUT"@, "1"@, "-o"@, "lo"@, "-j"@, "ACCEPT"@]),
                ip6t(
                    seq![
                        "-I"@,
                        "OUTPUT"@,
                        "2"@,
                        "-m"@,
                        "state"@,
                        "--state"@,
                        "ESTABLISHED,RELATED"@,
                        "-j"@,
                        "ACCEPT"@,
                    ],
                ),
                ip6t(seq!["-I"@, "OUTPUT"@, "3"@, "-o"@, "tun+"@, "-j"@, "ACCEPT"@]),
                ip6t(seq!["-I"@, "OUTPUT"@, "4"@, "-o"@, "wg+"@, "-j"@, "ACCEPT"@]),
                ip6t(seq!["-I"@, "OUTPUT"@, "5"@, "-d"@, "fe80::/10"@, "-j"@, "ACCEPT"@]),
            ] + v6_accepts(detected, 6) + server_rule + seq![
                ip6t(seq!["-I"@, "OUTPUT"@, decimal(drop_at), "-j"@, "DROP"@]),
            ]
        },
        Ipv6Mode::Off => seq![],
    }
}

/// The DNS rules of `mode`.
pub open spec fn dns_rules(mode: DnsMode) -> Seq<FirewallCommandView> {
    match mode {
        DnsMode::Tunnel => seq![],
        DnsMode::Localhost => seq![
            accept(seq!["-d"@, "127.0.0.0/8"@, "-p"@, "udp"@, "--dport"@, "53"@]),
            accept(seq!["-d"@, "127.0.0.0/8"@, "-p"@, "tcp"@, "--dport"@, "53"@]),
            accept(seq!["-d"@, "127.0.0.53"@, "-p"@, "udp"@, "--dport"@, "53"@]),
            accept(seq!["-d"@, "127.0.0.53"@, "-p"@, "tcp"@, "--dport"@, "53"@]),
        ],
        DnsMode::Any => seq![
            accept(seq!["-p"@, "udp"@, "--dport"@, "53"@]),
            accept(seq!["-p"@, "tcp"@, "--dport"@, "53"@]),
        ],
    }
}

/// The rule that accepts the configured VPN interface, unless a wildcard covers it.
pub open spec fn interface_rules(iface: Option<Seq<char>>) -> Seq<FirewallCommandView> {
    match iface {
        Some(i) => if !is_wildcard_tunnel(i) {
            seq![accept(seq!["-o"@, i])]
        } else {
            seq![]
        },
        None => seq![],
    }
}

/// The rule that accepts the configured VPN server, if it is IPv4.
pub open spec fn server_v4_rules(server: Option<(IpFamily, Seq<char>)>) -> Seq<FirewallCommandView> {
    match server {
        Some((IpFamily::V4, t)) => seq![accept(seq!["-d"@, t])],
        _ => seq![],
    }
}

/// The first rules of the chain: create it, accept loopback, established
/// connections and the tunnel wildcards.
pub open spec fn head_rules() -> Seq<FirewallCommandView> {
    seq![
        ipt(seq!["-N"@, CHAIN_NAME@]),
        accept(seq!["-o"@, "lo"@]),
        accept(seq!["-m"@, "state"@, "--state"@, "ESTABLISHED,RELATED"@]),
        accept(seq!["-o"@, "tun+"@]),
        accept(seq!["-o"@, "tap+"@]),
        accept(seq!["-o"@, "wg+"@]),
    ]
}

/// Local networks and DHCP.
pub open spec fn local_rules() -> Seq<FirewallCommandView> {
    seq![
        accept(seq!["-d"@, "192.168.0.0/16"@]),
        accept(seq!["-d"@, "10.0.0.0/8"@]),
        accept(seq!["-d"@, "172.16.0.0/12"@]),
        accept(seq!["-p"@, "udp"@, "--dport"@, "67"@]),
        accept(seq!["-p"@, "udp"@, "--sport"@, "68"@]),
    ]
}

/// Log what is dropped (at most once a second).
pub open spec fn log_rule() -> FirewallCommandView {
    ipt(
        seq![
            "-A"@,
            CHAIN_NAME@,
            "-m"@,
            "limit"@,
            "--limit"@,
            "1/sec"@,
            "-j"@,
            "LOG"@,
            "--log-prefix"@,
            "[SHROUD-KS DROP] "@,
        ],
    )
}

/// Drop everything else.
pub open spec fn drop_rule() -> FirewallCommandView {
    ipt(seq!["-A"@, CHAIN_NAME@, "-j"@, "DROP"@])
}

/// Activate the chain: jump to it from the top of OUTPUT.
pub open spec fn jump_rule() -> FirewallCommandView {
    ipt(seq!["-I"@, "OUTPUT"@, "1"@, "-j"@, CHAIN_NAME@])
}

/// `-A SHROUD_KILLSWITCH -p <proto> --dport 53 -j DROP`.
pub open spec fn drop_dns(proto: Seq<char>) -> FirewallCommandView {
    ipt(seq!["-A"@, CHAIN_NAME@, "-p"@, proto, "--dport"@, "53"@, "-j"@, "DROP"@])
}

/// With DNS restricted to the tunnel, DNS that was not accepted on the way
/// through the tunnel, to a VPN server or back on an established
/// connection is dropped before the local networks are accepted, so a
/// resolver on the LAN cannot be reached around the tunnel.
pub open spec fn dns_guard_rules(mode: DnsMode) -> Seq<FirewallCommandView> {
    match mode {
        DnsMode::Tunnel => seq![drop_dns("udp"@), drop_dns("tcp"@)],
        _ => seq![],
    }
}

/// The rules that accept traffic to the VPN: its interfaces and servers.
pub open spec fn vpn_rules(
    ks: KillSwitchView,
    detected: Seq<(IpFamily, Seq<char>)>,
) -> Seq<FirewallCommandView> {
    head_rules() + interface_rules(ks.vpn_interface) + v4_accepts(detected) + server_v4_rules(
        ks.vpn_server_ip,
    )
}

/// The IPv4 rules up to (not including) the final drop and jump.
pub open spec fn ipv4_rules(
    ks: KillSwitchView,
    detected: Seq<(IpFamily, Seq<char>)>,
) -> Seq<FirewallCommandView> {
    vpn_rules(ks, detected) + dns_guard_rules(ks.dns_mode) + local_rules() + dns_rules(ks.dns_mode)
        + seq![log_rule()]
}

/// Every command that enabling the kill switch runs, in order.
pub open spec fn enable_plan_spec(
    ks: KillSwitchView,
    detected: Seq<(IpFamily, Seq<char>)>,
) -> Seq<FirewallCommandView> {
    ipv4_rules(ks, detected) + seq![drop_rule(), jump_rule()] + ipv6_rules(
        ks.ipv6_mode,
        detected,
        ks.vpn_server_ip,
    )
}

/// Every command that removing the kill switch rules runs, in order, with
/// how often each may run: the jump rule is deleted until deleting fails;
/// the others run once and their failure is ignored.
pub open spec fn cleanup_all_rules_spec() -> Seq<(FirewallCommandView, Option<u32>)> {
    seq![
        (ipt(seq!["-D"@, "OUTPUT"@, "-j"@, CHAIN_NAME@]), None),
        (ipt(seq!["-F"@, CHAIN_NAME@]), Some(1u32)),
        (ipt(seq!["-X"@, CHAIN_NAME@]), Some(1u32)),
        (ip6t(seq!["-D"@, "OUTPUT"@, "-j"@, "DROP"@]), Some(1u32)),
    ]
}

// ---------------------------------------------------------------------------
// The kill switch
// ---------------------------------------------------------------------------

/// The kill switch's settings and whether it is on.
pub struct KillSwitchView {
    pub enabled: bool,
    pub vpn_server_ip: Option<(IpFamily, Seq<char>)>,
    pub vpn_interface: Option<Seq<char>>,
    pub dns_mode: DnsMode,
    pub ipv6_mode: Ipv6Mode,
}

/// VPN kill switch using iptables.
pub struct KillSwitch {
    /// Whether the kill switch is enabled.
    enabled: bool,
    /// The VPN server address (allowed through when the kill switch is on).
    vpn_server_ip: Option<ServerIp>,
    /// The VPN tunnel interface (e.g. "tun0").
    vpn_interface: Option<String>,
    /// DNS leak protection mode.
    dns_mode: DnsMode,
    /// IPv6 leak protection mode.
    ipv6_mode: Ipv6Mode,
}

impl View for KillSwitch {
    type V = KillSwitchView;

    closed spec fn view(&self) -> KillSwitchView {
        KillSwitchView {
            enabled: self.enabled,
            vpn_server_ip: match self.vpn_server_ip {
                Some(ip) => Some(ip@),
                None => None,
            },
            vpn_interface: match self.vpn_interface {
                Some(i) => Some(i@),
                None => None,
            },
            dns_mode: self.dns_mode,
            ipv6_mode: self.ipv6_mode,
        }
    }
}

impl KillSwitch {
    /// A disabled kill switch with the secure default settings.
    pub fn new() -> (r: Self)
        ensures
            r@ == (KillSwitchView {
                enabled: false,
                vpn_server_ip: None,
                vpn_interface: None,
                dns_mode: DnsMode::Tunnel,
                ipv6_mode: Ipv6Mode::Block,
            }),
    {
        KillSwitch {
            enabled: false,
            vpn_server_ip: None,
            vpn_interface: None,
            dns_mode: DnsMode::default(),
            ipv6_mode: Ipv6Mode::default(),
        }
    }

    /// A disabled kill switch with the given DNS and IPv6 modes.
    pub fn with_config(dns_mode: DnsMode, ipv6_mode: Ipv6Mode) -> (r: Self)
        ensures
            r@ == (KillSwitchView {
                enabled: false,
                vpn_server_ip: None,
                vpn_interface: None,
                dns_mode,
                ipv6_mode,
            }),
    {
        KillSwitch { enabled: false, vpn_server_ip: None, vpn_interface: None, dns_mode, ipv6_mode }
    }

    /// Changes the DNS and IPv6 modes.
    pub fn set_config(&mut self, dns_mode: DnsMode, ipv6_mode: Ipv6Mode)
        ensures
            final(self)@ == (KillSwitchView { dns_mode, ipv6_mode, ..old(self)@ }),
    {
        self.dns_mode = dns_mode;
        self.ipv6_mode = ipv6_mode;
    }

    /// The current status.
    pub fn status(&self) -> (r: KillSwitchStatus)
        ensures
            r == (if self@.enabled {
                KillSwitchStatus::Active
            } else {
                KillSwitchStatus::Disabled
            }),
    {
        if self.enabled {
            KillSwitchStatus::Active
        } else {
            KillSwitchStatus::Disabled
        }
    }

    /// Whether the kill switch is enabled.
    pub fn is_enabled(&self) -> (r: bool)
        ensures
            r == self@.enabled,
    {
        self.enabled
    }

    /// Sets the VPN server address to allow through the firewall.
    pub fn set_vpn_server(&mut self, ip: Option<ServerIp>)
        ensures
            final(self)@ == (KillSwitchView {
                vpn_server_ip: match ip {
                    Some(a) => Some(a@),
                    None => None,
                },
                ..old(self)@
            }),
    {
        self.vpn_server_ip = ip;
    }

    /// Sets the VPN tunnel interface.
    pub fn set_vpn_interface(&mut self, iface: Option<String>)
        ensures
            final(self)@ == (KillSwitchView {
                vpn_interface: match iface {
                    Some(a) => Some(a@),
                    None => None,
                },
                ..old(self)@
            }),
    {
        self.vpn_interface = iface;
    }

    /// The DNS leak protection mode.
    pub fn dns_mode(&self) -> (r: DnsMode)
        ensures
            r == self@.dns_mode,
    {
        self.dns_mode
    }

    /// The IPv6 leak protection mode.
    pub fn ipv6_mode(&self) -> (r: Ipv6Mode)
        ensures
            r == self@.ipv6_mode,
    {
        self.ipv6_mode
    }

    /// The configured VPN server address.
    pub fn vpn_server_ip(&self) -> (r: Option<ServerIp>)
        ensures
            match r {
                Some(a) => self@.vpn_server_ip == Some(a@),
                None => self@.vpn_server_ip is None,
            },
    {
        match &self.vpn_server_ip {
            Some(a) => Some(a.clone()),
            None => None,
        }
    }

    /// The configured VPN interface.
    pub fn vpn_interface(&self) -> (r: Option<String>)
        ensures
            match r {
                Some(a) => self@.vpn_interface == Some(a@),
                None => self@.vpn_interface is None,
            },
    {
        match &self.vpn_interface {
            Some(a) => Some(a.clone()),
            None => None,
        }
    }

    /// Records that every enable command succeeded.
    pub fn record_enabled(&mut self)
        ensures
            final(self)@ == (KillSwitchView { enabled: true, ..old(self)@ }),
    {
        self.enabled = true;
    }

    /// Records that the rules were removed.
    pub fn record_disabled(&mut self)
        ensures
            final(self)@ == (KillSwitchView { enabled: false, ..old(self)@ }),
    {
        self.enabled = false;
    }

    /// Every command that enabling the kill switch runs, in order (after
    /// the old rules are removed); `detected` are the VPN server addresses
    /// found in NetworkManager's connection profiles. Enabling stops at the
    /// first command that fails.
    pub fn enable_plan(&self, detected: &[ServerIp]) -> (r: Vec<FirewallCommand>)
        ensures
            cmds_view(r@) == enable_plan_spec(self@, ips_view(detected@)),
    {
        let ghost det = ips_view(detected@);
        // 1. create the chain; 2. loopback; 3. established; 4. tunnel wildcards
        let mut v = head_rules_exec();
        // 5. the configured interface, unless a wildcard covers it
        let mut w = self.interface_rules_exec();
        append_cmds(&mut v, &mut w);
        // 6. the VPN server addresses
        let mut w = v4_accepts_exec(detected);
        append_cmds(&mut v, &mut w);
        let mut w = self.server_v4_rules_exec();
        append_cmds(&mut v, &mut w);
        // DNS outside the tunnel, when DNS is restricted to it
        let mut w = dns_guard_rules_exec(self.dns_mode);
        append_cmds(&mut v, &mut w);
        // 7. local networks; 8. DHCP
        let mut w = local_rules_exec();
        append_cmds(&mut v, &mut w);
        // 9. DNS
        let mut w = dns_rules_exec(self.dns_mode);
        append_cmds(&mut v, &mut w);
        // 10. log and drop the rest; 11. activate with the jump at the top of OUTPUT
        let mut w = tail_rules_exec();
        append_cmds(&mut v, &mut w);
        // IPv6
        let mut w = ipv6_rules_exec(self.ipv6_mode, detected, &self.vpn_server_ip);
        append_cmds(&mut v, &mut w);
        proof {
            assert(cmds_view(v@) =~= enable_plan_spec(self@, det));
        }
        v
    }

    fn interface_rules_exec(&self) -> (r: Vec<FirewallCommand>)
        ensures
            cmds_view(r@) == interface_rules(self@.vpn_interface),
    {
        let mut v: Vec<FirewallCommand> = Vec::new();
        if let Some(iface) = &self.vpn_interface {
            let s = iface.as_str();
            if !starts_with(s, "tun") && !starts_with(s, "tap") && !starts_with(s, "wg") {
                push_cmd(&mut v, accept_rule("-o", s));
            }
        }
        proof {
            assert(cmds_view(v@) =~= interface_rules(self@.vpn_interface));
        }
        v
    }

    fn server_v4_rules_exec(&self) -> (r: Vec<FirewallCommand>)
        ensures
            cmds_view(r@) == server_v4_rules(self@.vpn_server_ip),
    {
        let mut v: Vec<FirewallCommand> = Vec::new();
        if let Some(ip) = &self.vpn_server_ip {
            if ip.family == IpFamily::V4 {
                push_cmd(&mut v, accept_rule("-d", ip.text.as_str()));
            }
        }
        proof {
            assert(cmds_view(v@) =~= server_v4_rules(self@.vpn_server_ip));
        }
        v
    }

    /// The commands that remove every kill switch rule, in order, each with
    /// how often it may run (`None`: until it fails).
    pub fn cleanup_all_rules_stages() -> (r: Vec<chains::CleanupStage>)
        ensures
            chains::stages_view(r@) == cleanup_all_rules_spec(),
            chains::limits_ok(chains::stages_view(r@)),
    {
        let mut v: Vec<chains::CleanupStage> = Vec::new();
        chains::push_stage(&mut v, command(FirewallProgram::Iptables, &["-D", "OUTPUT", "-j", CHAIN_NAME]), None);
        chains::push_stage(&mut v, command(FirewallProgram::Iptables, &["-F", CHAIN_NAME]), Some(1));
        chains::push_stage(&mut v, command(FirewallProgram::Iptables, &["-X", CHAIN_NAME]), Some(1));
        chains::push_stage(&mut v, command(FirewallProgram::Ip6tables, &["-D", "OUTPUT", "-j", "DROP"]), Some(1));
        proof {
            assert(chains::stages_view(v@) =~~= cleanup_all_rules_spec());
        }
        v
    }
}

impl Default for KillSwitch {
    fn default() -> (r: Self)
        ensures
            r@ == (KillSwitchView {
                enabled: false,
                vpn_server_ip: None,
                vpn_interface: None,
                dns_mode: DnsMode::Tunnel,
                ipv6_mode: Ipv6Mode::Block,
            }),
    {
        KillSwitch::new()
    }
}

/// `-A SHROUD_KILLSWITCH <key> <value> -j ACCEPT`.
fn accept_rule(key: &str, value: &str) -> (r: FirewallCommand)
    ensures
        r@ == accept(seq![key@, value@]),
{
    let mut args: Vec<String> = Vec::new();
    args.push(String::from_str("-A"));
    args.push(String::from_str(CHAIN_NAME));
    args.push(String::from_str(key));
    args.push(String::from_str(value));
    args.push(String::from_str("-j"));
    args.push(String::from_str("ACCEPT"));
    proof {
        assert(views(args@) =~= seq!["-A"@, CHAIN_NAME@] + seq![key@, value@] + seq!["-j"@, "ACCEPT"@]);
    }
    FirewallCommand { program: FirewallProgram::Iptables, args }
}

/// Appends `w` to `v`, emptying `w`.
fn append_cmds(v: &mut Vec<FirewallCommand>, w: &mut Vec<FirewallCommand>)
    ensures
        cmds_view(final(v)@) == cmds_view(old(v)@) + cmds_view(old(w)@),
{
    let ghost a = v@;
    let ghost b = w@;
    v.append(w);
    proof {
        assert(v@ =~= a + b);
        assert(cmds_view(a + b) =~= cmds_view(a) + cmds_view(b));
    }
}

fn head_rules_exec() -> (r: Vec<FirewallCommand>)
    ensures
        cmds_view(r@) == head_rules(),
{
    let mut v: Vec<FirewallCommand> = Vec::new();
    push_cmd(&mut v, command(FirewallProgram::Iptables, &["-N", CHAIN_NAME]));
    push_cmd(&mut v, accept_rule("-o", "lo"));
    push_cmd(&mut v, accept4_rule("-m", "state", "--state", "ESTABLISHED,RELATED"));
    push_cmd(&mut v, accept_rule("-o", "tun+"));
    push_cmd(&mut v, accept_rule("-o", "tap+"));
    push_cmd(&mut v, accept_rule("-o", "wg+"));
    proof {
        assert(cmds_view(v@) =~~= head_rules());
    }
    v
}

/// `-A SHROUD_KILLSWITCH <a> <b> <c> <d> -j ACCEPT`.
fn accept4_rule(a: &str, b: &str, c: &str, d: &str) -> (r: FirewallCommand)
    ensures
        r@ == accept(seq![a@, b@, c@, d@]),
{
    let mut args: Vec<String> = Vec::new();
    args.push(String::from_str("-A"));
    args.push(String::from_str(CHAIN_NAME));
    args.push(String::from_str(a));
    args.push(String::from_str(b));
    args.push(String::from_str(c));
    args.push(String::from_str(d));
    args.push(String::from_str("-j"));
    args.push(String::from_str("ACCEPT"));
    proof {
        assert(views(args@) =~= seq!["-A"@, CHAIN_NAME@] + seq![a@, b@, c@, d@] + seq!["-j"@, "ACCEPT"@]);
    }
    FirewallCommand { program: FirewallProgram::Iptables, args }
}

/// `-A SHROUD_KILLSWITCH <a> <b> <c> <d> <e> <f> -j ACCEPT`.
fn accept6_rule(a: &str, b: &str, c: &str, d: &str, e: &str, f: &str) -> (r: FirewallCommand)
    ensures
        r@ == accept(seq![a@, b@, c@, d@, e@, f@]),
{
    let mut args: Vec<String> = Vec::new();
    args.push(String::from_str("-A"));
    args.push(String::from_str(CHAIN_NAME));
    args.push(String::from_str(a));
    args.push(String::from_str(b));
    args.push(String::from_str(c));
    args.push(String::from_str(d));
    args.push(String::from_str(e));
    args.push(String::from_str(f));
    args.push(String::from_str("-j"));
    args.push(String::from_str("ACCEPT"));
    proof {
        assert(views(args@) =~= seq!["-A"@, CHAIN_NAME@] + seq![a@, b@, c@, d@, e@, f@] + seq![
            "-j"@,
            "ACCEPT"@,
        ]);
    }
    FirewallCommand { program: FirewallProgram::Iptables, args }
}

fn v4_accepts_exec(detected: &[ServerIp]) -> (r: Vec<FirewallCommand>)
    ensures
        cmds_view(r@) == v4_accepts(ips_view(detected@)),
{
    let ghost det = ips_view(detected@);
    let mut v: Vec<FirewallCommand> = Vec::new();
    let n = detected.len();
    proof {
        assert(cmds_view(v@) =~= v4_accepts(det.take(0)));
    }
    for i in 0..n
        invariant
            n == detected@.len(),
            det == ips_view(detected@),
            cmds_view(v@) == v4_accepts(det.take(i as int)),
    {
        proof {
            let t = det.take(i + 1);
            assert(t.subrange(0, t.len() - 1) =~= det.take(i as int));
            assert(t[t.len() - 1] == detected@[i as int]@);
        }
        if detected[i].family == IpFamily::V4 {
            push_cmd(&mut v, accept_rule("-d", detected[i].text.as_str()));
        }
        proof {
            assert(cmds_view(v@) =~= v4_accepts(det.take(i + 1)));
        }
    }
    proof {
        assert(det.take(n as int) =~= det);
    }
    v
}

fn local_rules_exec() -> (r: Vec<FirewallCommand>)
    ensures
        cmds_view(r@) == local_rules(),
{
    let mut v: Vec<FirewallCommand> = Vec::new();
    push_cmd(&mut v, accept_rule("-d", "192.168.0.0/16"));
    push_cmd(&mut v, accept_rule("-d", "10.0.0.0/8"));
    push_cmd(&mut v, accept_rule("-d", "172.16.0.0/12"));
    push_cmd(&mut v, accept4_rule("-p", "udp", "--dport", "67"));
    push_cmd(&mut v, accept4_rule("-p", "udp", "--sport", "68"));
    proof {
        assert(cmds_view(v@) =~= local_rules());
    }
    v
}

fn dns_rules_exec(mode: DnsMode) -> (r: Vec<FirewallCommand>)
    ensures
        cmds_view(r@) == dns_rules(mode),
{
    let mut v: Vec<FirewallCommand> = Vec::new();
    match mode {
        DnsMode::Tunnel => {
            // no accept rules: DNS only through the tunnel (matched by -o tun+)
        },
        DnsMode::Localhost => {
            push_cmd(&mut v, accept6_rule("-d", "127.0.0.0/8", "-p", "udp", "--dport", "53"));
            push_cmd(&mut v, accept6_rule("-d", "127.0.0.0/8", "-p", "tcp", "--dport", "53"));
            push_cmd(&mut v, accept6_rule("-d", "127.0.0.53", "-p", "udp", "--dport", "53"));
            push_cmd(&mut v, accept6_rule("-d", "127.0.0.53", "-p", "tcp", "--dport", "53"));
        },
        DnsMode::Any => {
            push_cmd(&mut v, accept4_rule("-p", "udp", "--dport", "53"));
            push_cmd(&mut v, accept4_rule("-p", "tcp", "--dport", "53"));
        },
    }
    proof {
        assert(cmds_view(v@) =~= dns_rules(mode));
    }
    v
}

fn dns_guard_rules_exec(mode: DnsMode) -> (r: Vec<FirewallCommand>)
    ensures
        cmds_view(r@) == dns_guard_rules(mode),
{
    let mut v: Vec<FirewallCommand> = Vec::new();
    match mode {
        DnsMode::Tunnel => {
            push_cmd(
                &mut v,
                command(FirewallProgram::Iptables, &["-A", CHAIN_NAME, "-p", "udp", "--dport", "53", "-j", "DROP"]),
            );
            push_cmd(
                &mut v,
                command(FirewallProgram::Iptables, &["-A", CHAIN_NAME, "-p", "tcp", "--dport", "53", "-j", "DROP"]),
            );
        },
        _ => {},
    }
    proof {
        assert(cmds_view(v@) =~~= dns_guard_rules(mode));
    }
    v
}

fn tail_rules_exec() -> (r: Vec<FirewallCommand>)
    ensures
        cmds_view(r@) == seq![log_rule(), drop_rule(), jump_rule()],
{
    let mut v: Vec<FirewallCommand> = Vec::new();
    push_cmd(
        &mut v,
        command(
            FirewallProgram::Iptables,
            &["-A", CHAIN_NAME, "-m", "limit", "--limit", "1/sec", "-j", "LOG", "--log-prefix", "[SHROUD-KS DROP] "],
        ),
    );
    push_cmd(&mut v, command(FirewallProgram::Iptables, &["-A", CHAIN_NAME, "-j", "DROP"]));
    push_cmd(&mut v, command(FirewallProgram::Iptables, &["-I", "OUTPUT", "1", "-j", CHAIN_NAME]));
    proof {
        assert(cmds_view(v@) =~~= seq![log_rule(), drop_rule(), jump_rule()]);
    }
    v
}

fn ipv6_rules_exec(mode: Ipv6Mode, detected: &[ServerIp], server: &Option<ServerIp>) -> (r: Vec<FirewallCommand>)
    ensures
        cmds_view(r@) == ipv6_rules(
            mode,
            ips_view(detected@),
            match server {
                Some(a) => Some(a@),
                None => None,
            },
        ),
{
    let ghost det = ips_view(detected@);
    let ghost sv = match server {
        Some(a) => Some(a@),
        None => None::<(IpFamily, Seq<char>)>,
    };
    let mut v: Vec<FirewallCommand> = Vec::new();
    match mode {
        Ipv6Mode::Block => {
            push_cmd(&mut v, command(FirewallProgram::Ip6tables, &["-I", "OUTPUT", "1", "-o", "lo", "-j", "ACCEPT"]));
            push_cmd(&mut v, command(FirewallProgram::Ip6tables, &["-I", "OUTPUT", "2", "-j", "DROP"]));
            proof {
                assert(cmds_view(v@) =~~= ipv6_rules(mode, det, sv));
            }
        },
        Ipv6Mode::Tunnel => {
            push_cmd(&mut v, command(FirewallProgram::Ip6tables, &["-I", "OUTPUT", "1", "-o", "lo", "-j", "ACCEPT"]));
            push_cmd(
                &mut v,
                command(
                    FirewallProgram::Ip6tables,
                    &["-I", "OUTPUT", "2", "-m", "state", "--state", "ESTABLISHED,RELATED", "-j", "ACCEPT"],
                ),
            );
            push_cmd(&mut v, command(FirewallProgram::Ip6tables, &["-I", "OUTPUT", "3", "-o", "tun+", "-j", "ACCEPT"]));
            push_cmd(&mut v, command(FirewallProgram::Ip6tables, &["-I", "OUTPUT", "4", "-o", "wg+", "-j", "ACCEPT"]));
            push_cmd(&mut v, command(FirewallProgram::Ip6tables, &["-I", "OUTPUT", "5", "-d", "fe80::/10", "-j", "ACCEPT"]));
            let ghost b0 = cmds_view(v@);
            proof {
                assert(b0 =~~= seq![
                    ip6t(seq!["-I"@, "OUTPUT"@, "1"@, "-o"@, "lo"@, "-j"@, "ACCEPT"@]),
                    ip6t(seq!["-I"@, "OUTPUT"@, "2"@, "-m"@, "state"@, "--state"@, "ESTABLISHED,RELATED"@, "-j"@, "ACCEPT"@]),
                    ip6t(seq!["-I"@, "OUTPUT"@, "3"@, "-o"@, "tun+"@, "-j"@, "ACCEPT"@]),
                    ip6t(seq!["-I"@, "OUTPUT"@, "4"@, "-o"@, "wg+"@, "-j"@, "ACCEPT"@]),
                    ip6t(seq!["-I"@, "OUTPUT"@, "5"@, "-d"@, "fe80::/10"@, "-j"@, "ACCEPT"@]),
                ]);
                assert(v6_accepts(det.take(0), 6) =~= Seq::<FirewallCommandView>::empty());
                assert(cmds_view(v@) =~= b0 + v6_accepts(det.take(0), 6));
            }
            let n = detected.len();
            let mut index: u128 = 6;
            for i in 0..n
                invariant
                    n == detected@.len(),
                    det == ips_view(detected@),
                    index == 6 + count_v6(det.take(i as int)),
                    count_v6(det.take(i as int)) <= i,
                    i <= n,
                    cmds_view(v@) == b0 + v6_accepts(det.take(i as int), 6),
            {
                proof {
                    let t = det.take(i + 1);
                    assert(t.subrange(0, t.len() - 1) =~= det.take(i as int));
                    assert(t[t.len() - 1] == detected@[i as int]@);
                }
                if detected[i].family == IpFamily::V6 {
                    push_cmd(&mut v, insert_accept(index, detected[i].text.as_str()));
                    index = index + 1;
                }
                proof {
                    assert(cmds_view(v@) =~= b0 + v6_accepts(det.take(i + 1), 6));
                }
            }
            proof {
                assert(det.take(n as int) =~= det);
            }
            let ghost b1 = cmds_view(v@);
            let mut server_rules: u128 = 0;
            if let Some(ip) = server {
                if ip.family == IpFamily::V6 {
                    push_cmd(&mut v, insert_accept(index, ip.text.as_str()));
                    server_rules = 1;
                }
            }
            let mut drop_args: Vec<String> = Vec::new();
            drop_args.push(String::from_str("-I"));
            drop_args.push(String::from_str("OUTPUT"));
            let mut idx = String::new();
            push_decimal(&mut idx, index + server_rules);
            drop_args.push(idx);
            drop_args.push(String::from_str("-j"));
            drop_args.push(String::from_str("DROP"));
            proof {
                assert(views(drop_args@) =~= seq!["-I"@, "OUTPUT"@, decimal((index + server_rules) as nat), "-j"@, "DROP"@]);
            }
            let drop_cmd = FirewallCommand { program: FirewallProgram::Ip6tables, args: drop_args };
            push_cmd(&mut v, drop_cmd);
            proof {
                assert(cmds_view(v@) =~= ipv6_rules(mode, det, sv));
            }
        },
        Ipv6Mode::Off => {
            proof {
                assert(cmds_view(v@) =~= ipv6_rules(mode, det, sv));
            }
        },
    }
    v
}

/// `ip6tables -I OUTPUT <index> -d <dest> -j ACCEPT`.
fn insert_accept(index: u128, dest: &str) -> (r: FirewallCommand)
    ensures
        r@ == v6_accept_at(index as nat, dest@),
{
    let mut args: Vec<String> = Vec::new();
    args.push(String::from_str("-I"));
    args.push(String::from_str("OUTPUT"));
    let mut idx = String::new();
    push_decimal(&mut idx, index);
    args.push(idx);
    args.push(String::from_str("-d"));
    args.push(String::from_str(dest));
    args.push(String::from_str("-j"));
    args.push(String::from_str("ACCEPT"));
    proof {
        assert(views(args@) =~= seq!["-I"@, "OUTPUT"@, decimal(index as nat), "-d"@, dest@, "-j"@, "ACCEPT"@]);
    }
    FirewallCommand { program: FirewallProgram::Ip6tables, args }
}


/// Every command of `cs` runs `program`.
pub open spec fn all_run(cs: Seq<FirewallCommandView>, program: FirewallProgram) -> bool {
    forall|i: int| 0 <= i < cs.len() ==> (#[trigger] cs[i]).program == program
}

proof fn lemma_v4_accepts_iptables(ips: Seq<(IpFamily, Seq<char>)>)
    ensures
        all_run(v4_accepts(ips), FirewallProgram::Iptables),
    decreases ips.len(),
{
    if ips.len() > 0 {
        lemma_v4_accepts_iptables(ips.subrange(0, ips.len() - 1));
    }
}

proof fn lemma_v6_accepts_ip6tables(ips: Seq<(IpFamily, Seq<char>)>, start: nat)
    ensures
        all_run(v6_accepts(ips, start), FirewallProgram::Ip6tables),
    decreases ips.len(),
{
    if ips.len() > 0 {
        lemma_v6_accepts_ip6tables(ips.subrange(0, ips.len() - 1), start);
    }
}

/// Enabling is fail-closed: the plan first creates the chain, fills it
/// with iptables rules that end in the rule dropping everything else, and
/// only then inserts the jump that activates it; after the jump come only
/// ip6tables commands. So a plan cut short by a failing command never
/// leaves an activated chain without its final drop rule. With IPv6 off,
/// no ip6tables command runs; with DNS restricted to the tunnel, no DNS
/// rule is added.
pub proof fn lemma_enable_plan_fail_closed(ks: KillSwitchView, detected: Seq<(IpFamily, Seq<char>)>)
    ensures
        ({
            let p = enable_plan_spec(ks, detected);
            let k = ipv4_rules(ks, detected).len() as int;
            &&& p[0] == ipt(seq!["-N"@, CHAIN_NAME@])
            &&& 0 < k && k + 2 <= p.len()
            &&& forall|j: int| 0 <= j < k ==> (#[trigger] p[j]).program == FirewallProgram::Iptables
            &&& p[k] == drop_rule()
            &&& p[k + 1] == jump_rule()
            &&& forall|j: int| k + 2 <= j < p.len() ==> (#[trigger] p[j]).program
                == FirewallProgram::Ip6tables
            &&& ks.ipv6_mode == Ipv6Mode::Off ==> p.len() == k + 2
        }),
        ks.dns_mode == DnsMode::Tunnel ==> dns_rules(ks.dns_mode).len() == 0,
{
    let p = enable_plan_spec(ks, detected);
    let a = ipv4_rules(ks, detected);
    let k = a.len() as int;
    lemma_v4_accepts_iptables(detected);
    lemma_v6_accepts_ip6tables(detected, 6);
    let six = ipv6_rules(ks.ipv6_mode, detected, ks.vpn_server_ip);
    assert(all_run(six, FirewallProgram::Ip6tables));
    assert(all_run(a, FirewallProgram::Iptables));
    assert(p == a + seq![drop_rule(), jump_rule()] + six);
    assert forall|j: int| 0 <= j < k implies (#[trigger] p[j]).program == FirewallProgram::Iptables by {
        assert(p[j] == a[j]);
    }
    assert forall|j: int| k + 2 <= j < p.len() implies (#[trigger] p[j]).program
        == FirewallProgram::Ip6tables by {
        assert(p[j] == six[j - k - 2]);
    }
    assert(a[0] == ipt(seq!["-N"@, CHAIN_NAME@]));
}

/// A rule that lets traffic through only to the VPN: creating the chain,
/// loopback, established connections, the tunnel interfaces, the
/// configured VPN interface, or an IPv4 VPN server address (detected or
/// configured).
pub open spec fn vpn_only_rule(
    c: FirewallCommandView,
    ks: KillSwitchView,
    detected: Seq<(IpFamily, Seq<char>)>,
) -> bool {
    ||| c == ipt(seq!["-N"@, CHAIN_NAME@])
    ||| c == accept(seq!["-o"@, "lo"@])
    ||| c == accept(seq!["-m"@, "state"@, "--state"@, "ESTABLISHED,RELATED"@])
    ||| c == accept(seq!["-o"@, "tun+"@])
    ||| c == accept(seq!["-o"@, "tap+"@])
    ||| c == accept(seq!["-o"@, "wg+"@])
    ||| (ks.vpn_interface matches Some(i) && c == accept(seq!["-o"@, i]))
    ||| (c.args.len() == 6 && c == accept(seq!["-d"@, c.args[3]]) && (detected.contains(
        (IpFamily::V4, c.args[3]),
    ) || ks.vpn_server_ip == Some((IpFamily::V4, c.args[3]))))
}

proof fn lemma_v4_accepts_vpn_only(
    ks: KillSwitchView,
    ips: Seq<(IpFamily, Seq<char>)>,
    detected: Seq<(IpFamily, Seq<char>)>,
)
    requires
        forall|x: (IpFamily, Seq<char>)| ips.contains(x) ==> detected.contains(x),
    ensures
        forall|k: int|
            0 <= k < v4_accepts(ips).len() ==> vpn_only_rule(#[trigger] v4_accepts(ips)[k], ks, detected),
    decreases ips.len(),
{
    if ips.len() > 0 {
        let front = ips.subrange(0, ips.len() - 1);
        let last = ips[ips.len() - 1];
        assert forall|x: (IpFamily, Seq<char>)| front.contains(x) implies detected.contains(x) by {
            let i = choose|i: int| 0 <= i < front.len() && front[i] == x;
            assert(ips[i] == x);
        }
        lemma_v4_accepts_vpn_only(ks, front, detected);
        assert(ips.contains(last)) by {
            assert(ips[ips.len() - 1] == last);
        }
        if last.0 == IpFamily::V4 {
            let c = accept(seq!["-d"@, last.1]);
            assert(c.args =~= seq!["-A"@, CHAIN_NAME@, "-d"@, last.1, "-j"@, "ACCEPT"@]);
            assert(vpn_only_rule(c, ks, detected));
        }
        let a = v4_accepts(front);
        assert forall|k: int| 0 <= k < v4_accepts(ips).len() implies vpn_only_rule(
            #[trigger] v4_accepts(ips)[k],
            ks,
            detected,
        ) by {
            if k < a.len() {
                assert(v4_accepts(ips)[k] == a[k]);
            }
        }
    }
}

/// With DNS restricted to the tunnel, every rule of the chain before the
/// two port-53 drops lets traffic through only to the VPN, and the drops
/// come before the local networks are accepted. So a new DNS packet to an
/// address that is no VPN server, leaving by an interface that is neither
/// a tunnel nor the configured VPN interface, is dropped: DNS cannot leak
/// to a resolver on the LAN.
pub proof fn lemma_tunnel_dns_guarded(ks: KillSwitchView, detected: Seq<(IpFamily, Seq<char>)>)
    requires
        ks.dns_mode == DnsMode::Tunnel,
    ensures
        ({
            let p = enable_plan_spec(ks, detected);
            let g = vpn_rules(ks, detected).len() as int;
            &&& g + 2 <= p.len()
            &&& forall|j: int| 0 <= j < g ==> vpn_only_rule(#[trigger] p[j], ks, detected)
            &&& p[g] == drop_dns("udp"@)
            &&& p[g + 1] == drop_dns("tcp"@)
            &&& ipv4_rules(ks, detected) == vpn_rules(ks, detected) + seq![
                drop_dns("udp"@),
                drop_dns("tcp"@),
            ] + local_rules() + seq![log_rule()]
        }),
{
    let p = enable_plan_spec(ks, detected);
    let h = head_rules();
    let i = interface_rules(ks.vpn_interface);
    let v = v4_accepts(detected);
    let sv = server_v4_rules(ks.vpn_server_ip);
    let vr = vpn_rules(ks, detected);
    let a = ipv4_rules(ks, detected);
    let g = vr.len() as int;
    assert(p == a + seq![drop_rule(), jump_rule()] + ipv6_rules(ks.ipv6_mode, detected, ks.vpn_server_ip));
    assert(a == vr + dns_guard_rules(ks.dns_mode) + local_rules() + dns_rules(ks.dns_mode) + seq![log_rule()]);
    assert(vr == h + i + v + sv);
    lemma_v4_accepts_vpn_only(ks, detected, detected);
    assert forall|j: int| 0 <= j < g implies vpn_only_rule(#[trigger] p[j], ks, detected) by {
        assert(p[j] == vr[j]);
        if j < h.len() {
            assert(vr[j] == h[j]);
        } else if j < h.len() + i.len() {
            assert(vr[j] == i[j - h.len()]);
        } else if j < h.len() + i.len() + v.len() {
            assert(vr[j] == v[j - h.len() - i.len()]);
        } else {
            assert(vr[j] == sv[j - h.len() - i.len() - v.len()]);
            let c = sv[j - h.len() - i.len() - v.len()];
            if let Some((IpFamily::V4, t)) = ks.vpn_server_ip {
                assert(c.args =~= seq!["-A"@, CHAIN_NAME@, "-d"@, t, "-j"@, "ACCEPT"@]);
            }
        }
    }
    assert(p[g] == a[g]);
    assert(p[g + 1] == a[g + 1]);
    assert(a =~= vr + seq![drop_dns("udp"@), drop_dns("tcp"@)] + local_rules() + seq![log_rule()]);
}

/// The VPN server stays reachable: when the configured server is the IPv4
/// address `t`, the chain accepts traffic to `t` before the rule that drops
/// everything else, which comes right before the jump that activates the
/// chain.
pub proof fn lemma_enable_plan_accepts_server(
    ks: KillSwitchView,
    detected: Seq<(IpFamily, Seq<char>)>,
    t: Seq<char>,
)
    requires
        ks.vpn_server_ip == Some((IpFamily::V4, t)),
    ensures
        ({
            let p = enable_plan_spec(ks, detected);
            exists|k: int, d: int|
                #![trigger p[k], p[d]]
                0 <= k < d && d + 1 < p.len() && p[k] == accept(seq!["-d"@, t]) && p[d]
                    == drop_rule() && p[d + 1] == jump_rule()
        }),
{
    let p = enable_plan_spec(ks, detected);
    let h = head_rules();
    let i = interface_rules(ks.vpn_interface);
    let v = v4_accepts(detected);
    let sv = server_v4_rules(ks.vpn_server_ip);
    let a = ipv4_rules(ks, detected);
    assert(p == a + seq![drop_rule(), jump_rule()] + ipv6_rules(ks.ipv6_mode, detected, ks.vpn_server_ip));
    assert(a == h + i + v + sv + dns_guard_rules(ks.dns_mode) + local_rules() + dns_rules(ks.dns_mode)
        + seq![log_rule()]);
    let k = (h.len() + i.len() + v.len()) as int;
    let d = a.len() as int;
    assert(sv == seq![accept(seq!["-d"@, t])]);
    assert(p[k] == a[k]);
    assert(a[k] == sv[0]);
    assert(p[d] == drop_rule());
    assert(p[d + 1] == jump_rule());
    assert(k < d);
}

/// Unless IPv6 handling is off, enabling ends with an ip6tables rule that
/// drops the IPv6 traffic the rules before it did not accept, so IPv6
/// cannot leak around the tunnel.
pub proof fn lemma_enable_plan_blocks_ipv6(ks: KillSwitchView, detected: Seq<(IpFamily, Seq<char>)>)
    requires
        ks.ipv6_mode != Ipv6Mode::Off,
    ensures
        ({
            let p = enable_plan_spec(ks, detected);
            let last = p[p.len() - 1];
            &&& p.len() > 0
            &&& last.program == FirewallProgram::Ip6tables
            &&& last.args.len() == 5
            &&& last.args[0] == "-I"@ && last.args[1] == "OUTPUT"@
            &&& last.args[3] == "-j"@ && last.args[4] == "DROP"@
        }),
{
    let p = enable_plan_spec(ks, detected);
    let six = ipv6_rules(ks.ipv6_mode, detected, ks.vpn_server_ip);
    assert(p == ipv4_rules(ks, detected) + seq![drop_rule(), jump_rule()] + six);
    assert(p[p.len() - 1] == six[six.len() - 1]);
}


// ---------------------------------------------------------------------------
// Reading command output
// ---------------------------------------------------------------------------

/// The first value that `f` finds in the lines `ls`, in order.
pub open spec fn first_some(ls: Seq<Seq<char>>, f: spec_fn(Seq<char>) -> Option<Seq<char>>) -> Option<
    Seq<char>,
>
    decreases ls.len(),
{
    if ls.len() == 0 {
        None
    } else {
        match f(ls[0]) {
            Some(x) => Some(x),
            None => first_some(ls.subrange(1, ls.len() as int), f),
        }
    }
}

/// Every value that `f` finds in `ls`, in order.
pub open spec fn all_some(ls: Seq<Seq<char>>, f: spec_fn(Seq<char>) -> Option<Seq<char>>) -> Seq<
    Seq<char>,
>
    decreases ls.len(),
{
    if ls.len() == 0 {
        seq![]
    } else {
        all_some(ls.subrange(0, ls.len() - 1), f) + match f(ls[ls.len() - 1]) {
            Some(x) => seq![x],
            None => seq![],
        }
    }
}

proof fn lemma_first_some_skip(ls: Seq<Seq<char>>, f: spec_fn(Seq<char>) -> Option<Seq<char>>, i: int)
    requires
        0 <= i < ls.len(),
    ensures
        f(ls[i]) is None ==> first_some(ls.subrange(i, ls.len() as int), f) == first_some(
            ls.subrange(i + 1, ls.len() as int),
            f,
        ),
        f(ls[i]) matches Some(x) ==> first_some(ls.subrange(i, ls.len() as int), f) == Some(x),
{
    let t = ls.subrange(i, ls.len() as int);
    assert(t[0] == ls[i]);
    assert(t.subrange(1, t.len() as int) =~= ls.subrange(i + 1, ls.len() as int));
}

proof fn lemma_all_some_step(ls: Seq<Seq<char>>, f: spec_fn(Seq<char>) -> Option<Seq<char>>, i: int)
    requires
        0 <= i < ls.len(),
    ensures
        all_some(ls.take(i + 1), f) == all_some(ls.take(i), f) + match f(ls[i]) {
            Some(x) => seq![x],
            None => seq![],
        },
{
    let t = ls.take(i + 1);
    assert(t.subrange(0, t.len() - 1) =~= ls.take(i));
    assert(t[t.len() - 1] == ls[i]);
}

/// The tunnel interface named on a line of `ip link show`, if the line
/// names a tun/tap/wg interface that is up.
pub open spec fn iface_of_line(l: Seq<char>) -> Option<Seq<char>> {
    if (contains(l, "tun"@) || contains(l, "tap"@) || contains(l, "wg"@)) && contains(l, "state UP"@)
        && split(l, ':').len() > 1 {
        Some(trim(split(l, ':')[1]))
    } else {
        None
    }
}

/// `iface_of_line` as a function value.
pub open spec fn iface_finder() -> spec_fn(Seq<char>) -> Option<Seq<char>> {
    |l: Seq<char>| iface_of_line(l)
}

fn iface_of_line_exec(l: &str) -> (r: Option<String>)
    ensures
        opt_view(r) == iface_of_line(l@),
{
    if (contains_str(l, "tun") || contains_str(l, "tap") || contains_str(l, "wg")) && contains_str(
        l,
        "state UP",
    ) {
        let parts = split_str(l, ':');
        if parts.len() > 1 {
            proof {
                assert(views(parts@)[1] == parts@[1]@);
            }
            return Some(trim_str(parts[1].as_str()));
        }
    }
    None
}

/// The VPN tunnel interface in the output of `ip link show`: the first
/// tun/tap/wg interface that is up (format: "N: name: <FLAGS> ... state UP").
pub fn parse_vpn_interface(ip_link_output: &str) -> (r: Option<String>)
    ensures
        opt_view(r) == first_some(lines(ip_link_output@), iface_finder()),
{
    let ls = lines_of(ip_link_output);
    let ghost v = views(ls@);
    let ghost f = iface_finder();
    let n = ls.len();
    proof {
        assert(v.subrange(0, n as int) =~= v);
    }
    for i in 0..n
        invariant
            f == iface_finder(),
            n == ls@.len(),
            v == views(ls@),
            v == lines(ip_link_output@),
            first_some(v, f) == first_some(v.subrange(i as int, n as int), f),
    {
        let r = iface_of_line_exec(ls[i].as_str());
        proof {
            assert(v[i as int] == ls@[i as int]@);
            assert(f(v[i as int]) == iface_of_line(v[i as int]));
            lemma_first_some_skip(v, f, i as int);
        }
        if r.is_some() {
            return r;
        }
    }
    proof {
        assert(v.subrange(n as int, n as int) =~= Seq::<Seq<char>>::empty());
    }
    None
}

/// The gateway on a line of `ip route show dev tun0`: the third word of a
/// line that contains "via".
pub open spec fn gateway_of_line(l: Seq<char>) -> Option<Seq<char>> {
    if contains(l, "via"@) && split_ws(l).len() > 2 {
        Some(split_ws(l)[2])
    } else {
        None
    }
}

/// `gateway_of_line` as a function value.
pub open spec fn gateway_finder() -> spec_fn(Seq<char>) -> Option<Seq<char>> {
    |l: Seq<char>| gateway_of_line(l)
}

fn gateway_of_line_exec(l: &str) -> (r: Option<String>)
    ensures
        opt_view(r) == gateway_of_line(l@),
{
    if contains_str(l, "via") {
        let words = split_whitespace_str(l);
        if words.len() > 2 {
            proof {
                assert(views(words@)[2] == words@[2]@);
            }
            return Some(words[2].clone());
        }
    }
    None
}

/// The candidates for the VPN gateway address in the output of
/// `ip route show dev tun0`, in order: the first one that parses as an IP
/// address is the VPN server's.
pub fn route_gateway_candidates(route_output: &str) -> (r: Vec<String>)
    ensures
        views(r@) == all_some(lines(route_output@), gateway_finder()),
{
    let ls = lines_of(route_output);
    let ghost v = views(ls@);
    let ghost f = gateway_finder();
    let mut out: Vec<String> = Vec::new();
    let n = ls.len();
    proof {
        assert(v.take(0) =~= Seq::<Seq<char>>::empty());
        assert(views(out@) =~= all_some(v.take(0), f));
    }
    for i in 0..n
        invariant
            f == gateway_finder(),
            n == ls@.len(),
            v == views(ls@),
            views(out@) == all_some(v.take(i as int), f),
    {
        let r = gateway_of_line_exec(ls[i].as_str());
        proof {
            assert(v[i as int] == ls@[i as int]@);
            assert(f(v[i as int]) == gateway_of_line(v[i as int]));
            lemma_all_some_step(v, f, i as int);
        }
        let ghost before = out@;
        match r {
            Some(g) => {
                out.push(g);
                proof {
                    assert(views(out@) =~= views(before).push(g@));
                }
            },
            None => {},
        }
        proof {
            assert(views(out@) =~= all_some(v.take(i + 1), f));
        }
    }
    proof {
        assert(v.take(n as int) =~= v);
    }
    out
}

/// The name on a line of `nmcli -t -f NAME,TYPE connection show` that
/// describes a VPN connection.
pub open spec fn vpn_name_of_line(l: Seq<char>) -> Option<Seq<char>> {
    let parts = split(l, ':');
    if parts.len() >= 2 && parts[1] == "vpn"@ {
        Some(parts[0])
    } else {
        None
    }
}

/// `vpn_name_of_line` as a function value.
pub open spec fn vpn_name_finder() -> spec_fn(Seq<char>) -> Option<Seq<char>> {
    |l: Seq<char>| vpn_name_of_line(l)
}

fn vpn_name_of_line_exec(l: &str) -> (r: Option<String>)
    ensures
        opt_view(r) == vpn_name_of_line(l@),
{
    let parts = split_str(l, ':');
    if parts.len() >= 2 && str_eq(parts[1].as_str(), "vpn") {
        proof {
            assert(views(parts@)[0] == parts@[0]@);
            assert(views(parts@)[1] == parts@[1]@);
        }
        return Some(parts[0].clone());
    }
    proof {
        if parts.len() >= 2 {
            assert(views(parts@)[1] == parts@[1]@);
        }
    }
    None
}

/// The names of the VPN connections in the output of
/// `nmcli -t -f NAME,TYPE connection show`, in order.
pub fn vpn_connection_names(nmcli_output: &str) -> (r: Vec<String>)
    ensures
        views(r@) == all_some(lines(nmcli_output@), vpn_name_finder()),
{
    let ls = lines_of(nmcli_output);
    let ghost v = views(ls@);
    let ghost f = vpn_name_finder();
    let mut out: Vec<String> = Vec::new();
    let n = ls.len();
    proof {
        assert(v.take(0) =~= Seq::<Seq<char>>::empty());
        assert(views(out@) =~= all_some(v.take(0), f));
    }
    for i in 0..n
        invariant
            f == vpn_name_finder(),
            n == ls@.len(),
            v == views(ls@),
            views(out@) == all_some(v.take(i as int), f),
    {
        let r = vpn_name_of_line_exec(ls[i].as_str());
        proof {
            assert(v[i as int] == ls@[i as int]@);
            assert(f(v[i as int]) == vpn_name_of_line(v[i as int]));
            lemma_all_some_step(v, f, i as int);
        }
        let ghost before = out@;
        match r {
            Some(g) => {
                out.push(g);
                proof {
                    assert(views(out@) =~= views(before).push(g@));
                }
            },
            None => {},
        }
        proof {
            assert(views(out@) =~= all_some(v.take(i + 1), f));
        }
    }
    proof {
        assert(v.take(n as int) =~= v);
    }
    out
}

/// A host with an optional `:port` suffix, without the suffix. A colon
/// ends a port only after a host name or IPv4 address (no other colon) or
/// after a bracketed IPv6 address (`[addr]:port` gives `[addr]`); a bare
/// IPv6 address such as `2001:db8::1` is kept whole.
pub open spec fn strip_port(value: Seq<char>) -> Seq<char> {
    let p = last_index(value, ':');
    if p >= 0 && parse_unsigned(value.subrange(p + 1, value.len() as int), 0xFFFF) is Some {
        let h = value.subrange(0, p);
        if last_index(h, ':') == -1 {
            h
        } else if h.len() >= 2 && h[0] == '[' && h[h.len() - 1] == ']' {
            h
        } else {
            value
        }
    } else {
        value
    }
}

proof fn lemma_last_index_props(s: Seq<char>, c: char)
    ensures
        -1 <= last_index(s, c) < s.len(),
        last_index(s, c) >= 0 ==> s[last_index(s, c)] == c,
        forall|i: int| last_index(s, c) < i < s.len() ==> s[i] != c,
    decreases s.len(),
{
    if s.len() > 0 && s[s.len() - 1] != c {
        let t = s.subrange(0, s.len() - 1);
        lemma_last_index_props(t, c);
        assert forall|i: int| last_index(s, c) < i < s.len() implies s[i] != c by {
            if i < s.len() - 1 {
                assert(t[i] == s[i]);
            }
        }
    }
}

/// A bare IPv6 address (two or more colons, no opening bracket) keeps its
/// last group: no port is taken off it.
pub proof fn lemma_bare_ipv6_kept(value: Seq<char>, i: int, j: int)
    requires
        0 <= i < j < value.len(),
        value[i] == ':',
        value[j] == ':',
        value[0] != '[',
    ensures
        strip_port(value) == value,
{
    let p = last_index(value, ':');
    lemma_last_index_props(value, ':');
    assert(p >= j);
    let h = value.subrange(0, p);
    lemma_last_index_props(h, ':');
    assert(h[i] == ':');
    assert(last_index(h, ':') >= i);
    assert(h[0] == value[0]);
}

/// The remote host of one comma-separated item of `vpn.data`.
pub open spec fn host_of_item(item: Seq<char>) -> Option<Seq<char>> {
    let it = trim(item);
    if has_prefix(it, "remote"@) && split(it, '=').len() > 1 {
        Some(strip_port(trim(split(it, '=')[1])))
    } else {
        None
    }
}

/// `host_of_item` as a function value.
pub open spec fn host_finder() -> spec_fn(Seq<char>) -> Option<Seq<char>> {
    |l: Seq<char>| host_of_item(l)
}

/// The remote hosts on a line of `nmcli -t -f vpn.data connection show <name>`.
pub open spec fn hosts_of_line(l: Seq<char>) -> Seq<Seq<char>> {
    if has_prefix(l, "vpn.data:"@) {
        all_some(split(trim_start_matches(l, "vpn.data:"@), ','), host_finder())
    } else {
        seq![]
    }
}

/// The remote hosts of all lines, in order.
pub open spec fn all_hosts(ls: Seq<Seq<char>>) -> Seq<Seq<char>>
    decreases ls.len(),
{
    if ls.len() == 0 {
        seq![]
    } else {
        all_hosts(ls.subrange(0, ls.len() - 1)) + hosts_of_line(ls[ls.len() - 1])
    }
}

fn strip_port_exec(value: &str) -> (r: String)
    ensures
        r@ == strip_port(value@),
{
    match rfind_char(value, ':') {
        Some(p) => {
            let n = value.unicode_len();
            let port = piece(value, p + 1, n);
            if parse_unsigned_str(port.as_str(), 0xFFFF).is_some() {
                let h = piece(value, 0, p);
                let hn = h.as_str().unicode_len();
                if rfind_char(h.as_str(), ':').is_none() {
                    h
                } else if hn >= 2 && h.as_str().get_char(0) == '[' && h.as_str().get_char(hn - 1)
                    == ']' {
                    h
                } else {
                    String::from_str(value)
                }
            } else {
                String::from_str(value)
            }
        },
        None => String::from_str(value),
    }
}

fn host_of_item_exec(item: &str) -> (r: Option<String>)
    ensures
        opt_view(r) == host_of_item(item@),
{
    let it = trim_str(item);
    if starts_with(it.as_str(), "remote") {
        let kv = split_str(it.as_str(), '=');
        if kv.len() > 1 {
            proof {
                assert(views(kv@)[1] == kv@[1]@);
            }
            let value = trim_str(kv[1].as_str());
            return Some(strip_port_exec(value.as_str()));
        }
    }
    None
}

fn hosts_of_line_exec(l: &str) -> (r: Vec<String>)
    ensures
        views(r@) == hosts_of_line(l@),
{
    let mut out: Vec<String> = Vec::new();
    if !starts_with(l, "vpn.data:") {
        proof {
            assert(views(out@) =~= hosts_of_line(l@));
        }
        return out;
    }
    proof {
        reveal_strlit("vpn.data:");
    }
    let data = trim_start_matches_str(l, "vpn.data:");
    let items = split_str(data.as_str(), ',');
    let ghost v = views(items@);
    let ghost f = host_finder();
    let n = items.len();
    proof {
        assert(v.take(0) =~= Seq::<Seq<char>>::empty());
        assert(views(out@) =~= all_some(v.take(0), f));
    }
    for i in 0..n
        invariant
            f == host_finder(),
            n == items@.len(),
            v == views(items@),
            views(out@) == all_some(v.take(i as int), f),
    {
        let r = host_of_item_exec(items[i].as_str());
        proof {
            assert(v[i as int] == items@[i as int]@);
            assert(f(v[i as int]) == host_of_item(v[i as int]));
            lemma_all_some_step(v, f, i as int);
        }
        let ghost before = out@;
        match r {
            Some(g) => {
                out.push(g);
                proof {
                    assert(views(out@) =~= views(before).push(g@));
                }
            },
            None => {},
        }
        proof {
            assert(views(out@) =~= all_some(v.take(i + 1), f));
        }
    }
    proof {
        assert(v.take(n as int) =~= v);
    }
    out
}

/// The remote hosts (addresses or host names, without a port) in the output
/// of `nmcli -t -f vpn.data connection show <name>`, in order. The first
/// one that is an IP address, or that resolves to one, is the VPN server's.
pub fn vpn_remote_hosts(vpn_data_output: &str) -> (r: Vec<String>)
    ensures
        views(r@) == all_hosts(lines(vpn_data_output@)),
{
    let ls = lines_of(vpn_data_output);
    let ghost v = views(ls@);
    let mut out: Vec<String> = Vec::new();
    let n = ls.len();
    proof {
        assert(v.take(0) =~= Seq::<Seq<char>>::empty());
        assert(views(out@) =~= all_hosts(v.take(0)));
    }
    for i in 0..n
        invariant
            n == ls@.len(),
            v == views(ls@),
            views(out@) == all_hosts(v.take(i as int)),
    {
        let mut hs = hosts_of_line_exec(ls[i].as_str());
        proof {
            assert(v[i as int] == ls@[i as int]@);
            let t = v.take(i + 1);
            assert(t.subrange(0, t.len() - 1) =~= v.take(i as int));
        }
        let ghost before = out@;
        let ghost hv = hs@;
        out.append(&mut hs);
        proof {
            assert(out@ =~= before + hv);
            assert(views(out@) =~= views(before) + views(hv));
            assert(views(out@) =~= all_hosts(v.take(i + 1)));
        }
    }
    proof {
        assert(v.take(n as int) =~= v);
    }
    out
}

/// The first word of a line of `getent ahosts <host>`.
pub open spec fn first_word(l: Seq<char>) -> Option<Seq<char>> {
    if split_ws(l).len() > 0 {
        Some(split_ws(l)[0])
    } else {
        None
    }
}

/// `first_word` as a function value.
pub open spec fn first_word_finder() -> spec_fn(Seq<char>) -> Option<Seq<char>> {
    |l: Seq<char>| first_word(l)
}

fn first_word_exec(l: &str) -> (r: Option<String>)
    ensures
        opt_view(r) == first_word(l@),
{
    let words = split_whitespace_str(l);
    if words.len() > 0 {
        proof {
            assert(views(words@)[0] == words@[0]@);
        }
        Some(words[0].clone())
    } else {
        None
    }
}

/// The candidate addresses in the output of `getent ahosts <host>`: the
/// first word of every line, in order. The first that parses as an IPv4
/// address is the host's address.
pub fn getent_candidates(getent_output: &str) -> (r: Vec<String>)
    ensures
        views(r@) == all_some(lines(getent_output@), first_word_finder()),
{
    let ls = lines_of(getent_output);
    let ghost v = views(ls@);
    let ghost f = first_word_finder();
    let mut out: Vec<String> = Vec::new();
    let n = ls.len();
    proof {
        assert(v.take(0) =~= Seq::<Seq<char>>::empty());
        assert(views(out@) =~= all_some(v.take(0), f));
    }
    for i in 0..n
        invariant
            f == first_word_finder(),
            n == ls@.len(),
            v == views(ls@),
            views(out@) == all_some(v.take(i as int), f),
    {
        let r = first_word_exec(ls[i].as_str());
        proof {
            assert(v[i as int] == ls@[i as int]@);
            assert(f(v[i as int]) == first_word(v[i as int]));
            lemma_all_some_step(v, f, i as int);
        }
        let ghost before = out@;
        match r {
            Some(g) => {
                out.push(g);
                proof {
                    assert(views(out@) =~= views(before).push(g@));
                }
            },
            None => {},
        }
        proof {
            assert(views(out@) =~= all_some(v.take(i + 1), f));
        }
    }
    proof {
        assert(v.take(n as int) =~= v);
    }
    out
}

// ---------------------------------------------------------------------------
// Running commands
// ---------------------------------------------------------------------------

/// How a finished `pkexec iptables ...` run turns into a result.
pub open spec fn pkexec_outcome_spec(
    success: bool,
    exit_code: Option<i32>,
    stderr: Seq<char>,
    binary_missing: bool,
) -> Result<(), KillSwitchErrorView> {
    if success {
        Ok(())
    } else if exit_code == Some(126i32) || exit_code == Some(127i32) {
        if binary_missing {
            Err(KillSwitchErrorView::NotFound)
        } else {
            Err(KillSwitchErrorView::Permission)
        }
    } else {
        Err(KillSwitchErrorView::Command(trim(stderr)))
    }
}

/// `KillSwitchError` with its strings taken as character sequences.
pub enum KillSwitchErrorView {
    NotFound,
    Permission,
    Spawn(Seq<char>),
    Command(Seq<char>),
    Write(Seq<char>),
    Wait(Seq<char>),
}

impl View for KillSwitchError {
    type V = KillSwitchErrorView;

    open spec fn view(&self) -> KillSwitchErrorView {
        match self {
            KillSwitchError::NotFound => KillSwitchErrorView::NotFound,
            KillSwitchError::Permission => KillSwitchErrorView::Permission,
            KillSwitchError::Spawn(s) => KillSwitchErrorView::Spawn(s@),
            KillSwitchError::Command(s) => KillSwitchErrorView::Command(s@),
            KillSwitchError::Write(s) => KillSwitchErrorView::Write(s@),
            KillSwitchError::Wait(s) => KillSwitchErrorView::Wait(s@),
        }
    }
}

/// Whether a failed run must be followed by a check that the binary
/// exists (exit codes 126 and 127: not found or not permitted).
pub fn needs_binary_check(success: bool, exit_code: Option<i32>) -> (r: bool)
    ensures
        r == (!success && (exit_code == Some(126i32) || exit_code == Some(127i32))),
{
    !success && match exit_code {
        Some(c) => c == 126 || c == 127,
        None => false,
    }
}

/// The result of a finished `pkexec <iptables|ip6tables> ...` run: success,
/// or the error that its exit code and error output mean. `binary_missing`
/// (whether `which <binary>` failed) only matters for exit codes 126/127.
pub fn pkexec_outcome(success: bool, exit_code: Option<i32>, stderr: &str, binary_missing: bool) -> (r:
    Result<(), KillSwitchError>)
    ensures
        match pkexec_outcome_spec(success, exit_code, stderr@, binary_missing) {
            Ok(()) => r is Ok,
            Err(e) => r matches Err(x) && x@ == e,
        },
{
    if success {
        Ok(())
    } else if needs_binary_check(success, exit_code) {
        if binary_missing {
            Err(KillSwitchError::NotFound)
        } else {
            Err(KillSwitchError::Permission)
        }
    } else {
        Err(KillSwitchError::Command(trim_str(stderr)))
    }
}

/// The stages that remove stale kill switch rules without the async
/// runtime (from signal handlers and at startup): delete the jump rule
/// until deleting fails (duplicates pile up across crashes), then flush
/// the chain and delete it. Failures are ignored.
pub open spec fn stale_rules_spec() -> Seq<(FirewallCommandView, Option<u32>)> {
    seq![
        (ipt(seq!["-D"@, "OUTPUT"@, "-j"@, CHAIN_NAME@]), None),
        (ipt(seq!["-F"@, CHAIN_NAME@]), Some(1u32)),
        (ipt(seq!["-X"@, CHAIN_NAME@]), Some(1u32)),
    ]
}

/// The stages that remove stale kill switch rules, to be run with
/// `CleanupRun`.
pub fn stale_rule_commands() -> (r: Vec<chains::CleanupStage>)
    ensures
        chains::stages_view(r@) == stale_rules_spec(),
        chains::limits_ok(chains::stages_view(r@)),
{
    let mut v: Vec<chains::CleanupStage> = Vec::new();
    chains::push_stage(&mut v, command(FirewallProgram::Iptables, &["-D", "OUTPUT", "-j", CHAIN_NAME]), None);
    chains::push_stage(&mut v, command(FirewallProgram::Iptables, &["-F", CHAIN_NAME]), Some(1));
    chains::push_stage(&mut v, command(FirewallProgram::Iptables, &["-X", CHAIN_NAME]), Some(1));
    proof {
        assert(chains::stages_view(v@) =~~= stale_rules_spec());
    }
    v
}

/// A stale-rule cleanup deletes the jump rule again after every
/// successful delete, and only a failed delete moves it on to flushing:
/// so it never stops while a jump to the chain is left to delete.
pub proof fn lemma_stale_cleanup_repeats_jump_delete(runs: u32)
    requires
        1 <= runs,
    ensures
        chains::cleanup_step(stale_rules_spec(), 0, runs, true) == (
            0nat,
            runs,
            Some(ipt(seq!["-D"@, "OUTPUT"@, "-j"@, CHAIN_NAME@])),
        ),
        chains::cleanup_step(stale_rules_spec(), 0, runs, false) == (
            1nat,
            1u32,
            Some(ipt(seq!["-F"@, CHAIN_NAME@])),
        ),
{
}

/// The command whose success shows that the kill switch chain exists.
pub fn rules_exist_command() -> (r: FirewallCommand)
    ensures
        r@ == ipt(seq!["-t"@, "filter"@, "-nL"@, CHAIN_NAME@]),
{
    let c = command(FirewallProgram::Iptables, &["-t", "filter", "-nL", CHAIN_NAME]);
    proof {
        assert(c@.args =~= seq!["-t"@, "filter"@, "-nL"@, CHAIN_NAME@]);
    }
    c
}

} // verus!
