use shroud::config::{DnsMode, Ipv6Mode};
use shroud::ip::{IpFamily, ServerIp};
use shroud::killswitch::cleanup::{cleanup_failure_notice, CleanupResult};
use shroud::killswitch::firewall::chains::{robust_iptables_cleanup, CleanupRun, CLEANUP_REPEAT_LIMIT};
use shroud::killswitch::firewall::error::KillSwitchError as SudoError;
use shroud::killswitch::firewall::ip6tables::build_ipv6_script;
use shroud::killswitch::firewall::plan::PlanAction;
use shroud::killswitch::firewall::script::{ScriptAction, ScriptEvent, ScriptRun};
use shroud::killswitch::firewall::iptables::{
    legacy_candidates, legacy_timeout_error, nft_failure_error, parse_script, parse_script_line,
    prefers_legacy, script_step, script_step_lowered, sudo_check_lowered, sudo_check_outcome,
    timeout_error, verify_rules_command, ScriptStep,
};
use shroud::killswitch::firewall::{
    getent_candidates, needs_binary_check, parse_vpn_interface, pkexec_outcome,
    route_gateway_candidates, rules_exist_command, stale_rule_commands, vpn_connection_names,
    vpn_remote_hosts, FirewallProgram, KillSwitch, KillSwitchError, KillSwitchStatus,
};
use shroud::killswitch::paths::{find_binary, ip6tables, ip6tables_path, iptables, iptables_path, nft, nft_path};

fn v4(t: &str) -> ServerIp {
    ServerIp { family: IpFamily::V4, text: t.to_string() }
}

fn v6(t: &str) -> ServerIp {
    ServerIp { family: IpFamily::V6, text: t.to_string() }
}

fn args(parts: &[&str]) -> Vec<String> {
    parts.iter().map(|s| s.to_string()).collect()
}

// --- KillSwitch state ---

#[test]
fn test_kill_switch_status() {
    let ks = KillSwitch::new();
    assert_eq!(ks.status(), KillSwitchStatus::Disabled);
    assert!(!ks.is_enabled());
}

#[test]
fn test_kill_switch_with_config() {
    let ks = KillSwitch::with_config(DnsMode::Localhost, Ipv6Mode::Tunnel);
    assert_eq!(ks.dns_mode(), DnsMode::Localhost);
    assert_eq!(ks.ipv6_mode(), Ipv6Mode::Tunnel);
}

#[test]
fn test_kill_switch_configuration_update() {
    let mut ks = KillSwitch::new();
    ks.set_config(DnsMode::Any, Ipv6Mode::Off);
    assert_eq!(ks.dns_mode(), DnsMode::Any);
    assert_eq!(ks.ipv6_mode(), Ipv6Mode::Off);
}

#[test]
fn test_kill_switch_set_server() {
    let mut ks = KillSwitch::new();
    let ip = v4("10.0.0.1");
    ks.set_vpn_server(Some(ip.clone()));
    assert_eq!(ks.vpn_server_ip(), Some(ip));
}

#[test]
fn kill_switch_set_server_and_interface() {
    let mut ks = KillSwitch::new();
    ks.set_vpn_server(Some(v4("10.0.0.1")));
    assert_eq!(ks.vpn_server_ip(), Some(v4("10.0.0.1")));
    ks.set_vpn_interface(Some("tun0".to_string()));
    assert_eq!(ks.vpn_interface(), Some("tun0".to_string()));
    ks.set_vpn_server(None);
    assert_eq!(ks.vpn_server_ip(), None);
}

#[test]
fn kill_switch_records_state() {
    let mut ks = KillSwitch::new();
    ks.record_enabled();
    assert!(ks.is_enabled());
    assert_eq!(ks.status(), KillSwitchStatus::Active);
    ks.record_disabled();
    assert!(!ks.is_enabled());
    assert_eq!(ks.status(), KillSwitchStatus::Disabled);
}

#[test]
fn kill_switch_defaults_are_secure() {
    let ks = KillSwitch::default();
    assert_eq!(ks.dns_mode(), DnsMode::Tunnel);
    assert_eq!(ks.ipv6_mode(), Ipv6Mode::Block);
    assert!(!ks.is_enabled());
}

// --- enable plan ---

#[test]
fn enable_plan_default_settings() {
    let ks = KillSwitch::new();
    let plan = ks.enable_plan(&[]);
    let chain = "SHROUD_KILLSWITCH";
    let expected: Vec<(FirewallProgram, Vec<String>)> = vec![
        (FirewallProgram::Iptables, args(&["-N", chain])),
        (FirewallProgram::Iptables, args(&["-A", chain, "-o", "lo", "-j", "ACCEPT"])),
        (
            FirewallProgram::Iptables,
            args(&["-A", chain, "-m", "state", "--state", "ESTABLISHED,RELATED", "-j", "ACCEPT"]),
        ),
        (FirewallProgram::Iptables, args(&["-A", chain, "-o", "tun+", "-j", "ACCEPT"])),
        (FirewallProgram::Iptables, args(&["-A", chain, "-o", "tap+", "-j", "ACCEPT"])),
        (FirewallProgram::Iptables, args(&["-A", chain, "-o", "wg+", "-j", "ACCEPT"])),
        (FirewallProgram::Iptables, args(&["-A", chain, "-p", "udp", "--dport", "53", "-j", "DROP"])),
        (FirewallProgram::Iptables, args(&["-A", chain, "-p", "tcp", "--dport", "53", "-j", "DROP"])),
        (FirewallProgram::Iptables, args(&["-A", chain, "-d", "192.168.0.0/16", "-j", "ACCEPT"])),
        (FirewallProgram::Iptables, args(&["-A", chain, "-d", "10.0.0.0/8", "-j", "ACCEPT"])),
        (FirewallProgram::Iptables, args(&["-A", chain, "-d", "172.16.0.0/12", "-j", "ACCEPT"])),
        (FirewallProgram::Iptables, args(&["-A", chain, "-p", "udp", "--dport", "67", "-j", "ACCEPT"])),
        (FirewallProgram::Iptables, args(&["-A", chain, "-p", "udp", "--sport", "68", "-j", "ACCEPT"])),
        (
            FirewallProgram::Iptables,
            args(&[
                "-A",
                chain,
                "-m",
                "limit",
                "--limit",
                "1/sec",
                "-j",
                "LOG",
                "--log-prefix",
                "[SHROUD-KS DROP] ",
            ]),
        ),
        (FirewallProgram::Iptables, args(&["-A", chain, "-j", "DROP"])),
        (FirewallProgram::Iptables, args(&["-I", "OUTPUT", "1", "-j", chain])),
        (FirewallProgram::Ip6tables, args(&["-I", "OUTPUT", "1", "-o", "lo", "-j", "ACCEPT"])),
        (FirewallProgram::Ip6tables, args(&["-I", "OUTPUT", "2", "-j", "DROP"])),
    ];
    let got: Vec<(FirewallProgram, Vec<String>)> =
        plan.into_iter().map(|c| (c.program, c.args)).collect();
    assert_eq!(got, expected);
}

#[test]
fn enable_plan_drop_comes_before_jump() {
    let mut ks = KillSwitch::with_config(DnsMode::Any, Ipv6Mode::Tunnel);
    ks.set_vpn_server(Some(v6("2001:db8::1")));
    let plan = ks.enable_plan(&[v4("203.0.113.5"), v6("2001:db8::2")]);
    let drop = plan
        .iter()
        .position(|c| c.args == args(&["-A", "SHROUD_KILLSWITCH", "-j", "DROP"]))
        .unwrap();
    let jump = plan
        .iter()
        .position(|c| c.args == args(&["-I", "OUTPUT", "1", "-j", "SHROUD_KILLSWITCH"]))
        .unwrap();
    assert!(drop < jump);
    assert!(plan[jump + 1..].iter().all(|c| c.program == FirewallProgram::Ip6tables));
    assert!(plan.iter().any(|c| c.args
        == args(&["-A", "SHROUD_KILLSWITCH", "-d", "203.0.113.5", "-j", "ACCEPT"])));
    assert!(plan.iter().any(|c| c.args == args(&["-A", "SHROUD_KILLSWITCH", "-p", "udp", "--dport", "53", "-j", "ACCEPT"])));
    // IPv6 tunnel mode: five base rules, the detected v6 server at 6, the
    // configured one at 7, then the drop at 8.
    let tail: Vec<Vec<String>> = plan[jump + 1..].iter().map(|c| c.args.clone()).collect();
    assert_eq!(tail[5], args(&["-I", "OUTPUT", "6", "-d", "2001:db8::2", "-j", "ACCEPT"]));
    assert_eq!(tail[6], args(&["-I", "OUTPUT", "7", "-d", "2001:db8::1", "-j", "ACCEPT"]));
    assert_eq!(tail[7], args(&["-I", "OUTPUT", "8", "-j", "DROP"]));
    assert_eq!(tail.len(), 8);
}

#[test]
fn enable_plan_ipv6_off_runs_no_ip6tables() {
    let mut ks = KillSwitch::with_config(DnsMode::Localhost, Ipv6Mode::Off);
    ks.set_vpn_interface(Some("ppp0".to_string()));
    let plan = ks.enable_plan(&[]);
    assert!(plan.iter().all(|c| c.program == FirewallProgram::Iptables));
    assert!(plan.iter().any(|c| c.args == args(&["-A", "SHROUD_KILLSWITCH", "-o", "ppp0", "-j", "ACCEPT"])));
    assert_eq!(
        plan.iter().filter(|c| c.args.contains(&"53".to_string())).count(),
        4
    );
}

#[test]
fn enable_plan_skips_wildcard_interface() {
    let mut ks = KillSwitch::new();
    ks.set_vpn_interface(Some("tun0".to_string()));
    let plan = ks.enable_plan(&[]);
    assert!(!plan.iter().any(|c| c.args.contains(&"tun0".to_string())));
}

#[test]
fn cleanup_stages_of_all_rules() {
    let stages = KillSwitch::cleanup_all_rules_stages();
    assert_eq!(stages.len(), 4);
    assert_eq!(stages[0].command.args, args(&["-D", "OUTPUT", "-j", "SHROUD_KILLSWITCH"]));
    assert_eq!(stages[0].limit, None);
    assert_eq!(stages[3].command.program, FirewallProgram::Ip6tables);
}

// --- robust cleanup ---

#[test]
fn robust_cleanup_repeats_until_failure() {
    let mut run = CleanupRun::new(robust_iptables_cleanup());
    let first = run.step(true).unwrap();
    assert_eq!(first.args, args(&["-D", "OUTPUT", "-j", "SHROUD_KILLSWITCH"]));
    // The jump rule is deleted again while deleting succeeds.
    let again = run.step(true).unwrap();
    assert_eq!(again.args, first.args);
    // A failure moves on to flushing the chain.
    let next = run.step(false).unwrap();
    assert_eq!(next.args, args(&["-F", "SHROUD_KILLSWITCH"]));
}

#[test]
fn robust_cleanup_is_bounded() {
    let mut run = CleanupRun::new(robust_iptables_cleanup());
    let mut n = 0u32;
    while run.step(true).is_some() {
        n += 1;
        assert!(n < 10_000);
    }
    assert!(n >= CLEANUP_REPEAT_LIMIT);
}

#[test]
fn stale_rules_commands() {
    let stages = stale_rule_commands();
    let got: Vec<(Vec<String>, Option<u32>)> =
        stages.iter().map(|st| (st.command.args.clone(), st.limit)).collect();
    assert_eq!(
        got,
        vec![
            (args(&["-D", "OUTPUT", "-j", "SHROUD_KILLSWITCH"]), None),
            (args(&["-F", "SHROUD_KILLSWITCH"]), Some(1)),
            (args(&["-X", "SHROUD_KILLSWITCH"]), Some(1)),
        ]
    );
    assert_eq!(rules_exist_command().args, args(&["-t", "filter", "-nL", "SHROUD_KILLSWITCH"]));
}

#[test]
fn stale_cleanup_removes_every_duplicate_jump() {
    // Three stale jumps: the delete runs until it fails, then flush and delete.
    let mut run = CleanupRun::new(stale_rule_commands());
    let mut stale = 3;
    let mut ran: Vec<Vec<String>> = Vec::new();
    let mut ok = true;
    while let Some(cmd) = run.step(ok) {
        ok = if cmd.args[0] == "-D" {
            if stale > 0 {
                stale -= 1;
                true
            } else {
                false
            }
        } else {
            true
        };
        ran.push(cmd.args.clone());
    }
    assert_eq!(stale, 0);
    assert_eq!(ran.len(), 6);
    assert_eq!(ran[4], args(&["-F", "SHROUD_KILLSWITCH"]));
    assert_eq!(ran[5], args(&["-X", "SHROUD_KILLSWITCH"]));
}

#[test]
fn tunnel_dns_is_dropped_before_lan_accepts() {
    let ks = KillSwitch::new();
    let plan = ks.enable_plan(&[v4("198.51.100.1")]);
    let drop_udp = plan
        .iter()
        .position(|c| c.args == args(&["-A", "SHROUD_KILLSWITCH", "-p", "udp", "--dport", "53", "-j", "DROP"]))
        .unwrap();
    let lan = plan
        .iter()
        .position(|c| c.args == args(&["-A", "SHROUD_KILLSWITCH", "-d", "192.168.0.0/16", "-j", "ACCEPT"]))
        .unwrap();
    let server = plan
        .iter()
        .position(|c| c.args == args(&["-A", "SHROUD_KILLSWITCH", "-d", "198.51.100.1", "-j", "ACCEPT"]))
        .unwrap();
    assert!(server < drop_udp && drop_udp < lan);
    let any = KillSwitch::with_config(DnsMode::Any, Ipv6Mode::Block).enable_plan(&[]);
    assert!(!any.iter().any(|c| c.args.last().map(|a| a == "DROP").unwrap_or(false)
        && c.args.contains(&"53".to_string())));
}

// --- detection parsers ---

#[test]
fn vpn_interface_from_ip_link() {
    let out = "1: lo: <LOOPBACK,UP,LOWER_UP> mtu 65536 qdisc noqueue state UNKNOWN\n\
2: eth0: <BROADCAST,MULTICAST,UP> mtu 1500 state UP mode DEFAULT\n\
5: tun0: <POINTOPOINT,MULTICAST,NOARP,UP,LOWER_UP> mtu 1500 qdisc fq_codel state UP\n";
    assert_eq!(parse_vpn_interface(out), Some("tun0".to_string()));
    let down = "5: tun0: <POINTOPOINT> mtu 1500 state DOWN\n";
    assert_eq!(parse_vpn_interface(down), None);
}

#[test]
fn gateway_candidates_from_route() {
    let out = "0.0.0.0/1 via 10.8.0.1 dev tun0\n10.8.0.0/24 proto kernel scope link src 10.8.0.2\n";
    assert_eq!(route_gateway_candidates(out), vec!["10.8.0.1".to_string()]);
}

#[test]
fn vpn_names_from_nmcli() {
    let out = "Home WiFi:802-11-wireless\nwork-vpn:vpn\nwg-home:wireguard\nother:vpn\n";
    assert_eq!(
        vpn_connection_names(out),
        vec!["work-vpn".to_string(), "other".to_string()]
    );
}

#[test]
fn remote_hosts_from_vpn_data() {
    let out = "vpn.data:ca = /etc/ca.crt, remote = vpn.example.com:1194, remote-cert-tls = server\n";
    let hosts = vpn_remote_hosts(out);
    assert_eq!(hosts[0], "vpn.example.com");
    let plain = "vpn.data:remote = 198.51.100.7\n";
    assert_eq!(vpn_remote_hosts(plain), vec!["198.51.100.7".to_string()]);
}

#[test]
fn remote_hosts_keep_ipv6_addresses() {
    let out = "vpn.data:dev = tun, remote = 2001:db8::1\n";
    assert_eq!(vpn_remote_hosts(out), vec!["2001:db8::1".to_string()]);
    let bracketed = "vpn.data:remote = [2001:db8::1]:1194\n";
    assert_eq!(vpn_remote_hosts(bracketed), vec!["[2001:db8::1]".to_string()]);
    let v4_port = "vpn.data:remote = 1.2.3.4:1194\n";
    assert_eq!(vpn_remote_hosts(v4_port), vec!["1.2.3.4".to_string()]);
}

#[test]
fn getent_first_words() {
    let out = "93.184.216.34   STREAM example.com\n93.184.216.34   DGRAM\n";
    assert_eq!(
        getent_candidates(out),
        vec!["93.184.216.34".to_string(), "93.184.216.34".to_string()]
    );
}

// --- pkexec outcomes ---

#[test]
fn pkexec_results() {
    assert_eq!(pkexec_outcome(true, Some(0), "", false), Ok(()));
    assert_eq!(pkexec_outcome(false, Some(127), "", true), Err(KillSwitchError::NotFound));
    assert_eq!(pkexec_outcome(false, Some(126), "", false), Err(KillSwitchError::Permission));
    assert_eq!(
        pkexec_outcome(false, Some(1), "  bad rule \n", false),
        Err(KillSwitchError::Command("bad rule".to_string()))
    );
    assert!(needs_binary_check(false, Some(127)));
    assert!(!needs_binary_check(false, Some(1)));
    assert!(!needs_binary_check(true, Some(127)));
}

#[test]
fn kill_switch_error_messages() {
    assert_eq!(
        KillSwitchError::NotFound.message(),
        "iptables is not available. Install with: sudo apt install iptables"
    );
    assert_eq!(
        KillSwitchError::Command("x".to_string()).message(),
        "iptables command failed: x"
    );
    assert_eq!(
        SudoError::Permission.message(),
        "Permission denied. Kill switch requires sudo access. Run: ./setup.sh --install-sudoers"
    );
}

// --- rule scripts ---

#[test]
fn script_line_parsing() {
    assert!(parse_script_line("   ").is_none());
    assert!(parse_script_line("# comment").is_none());
    assert!(parse_script_line("exit 0").is_none());
    let l = parse_script_line("  ip6tables -D OUTPUT -j DROP 2>/dev/null || true ").unwrap();
    assert_eq!(l.line, "ip6tables -D OUTPUT -j DROP");
    assert_eq!(l.parts, args(&["ip6tables", "-D", "OUTPUT", "-j", "DROP"]));
    assert!(l.ignore_error);
    let script = parse_script("#!/bin/sh\niptables -N X\n\niptables -F X || true\nexit 0\n");
    assert_eq!(script.len(), 2);
    assert!(!script[0].ignore_error);
    assert!(script[1].ignore_error);
}

#[test]
fn script_steps() {
    assert_eq!(script_step(true, false, Some(0), "", "l", "iptables"), ScriptStep::Continue);
    assert_eq!(script_step(false, true, Some(1), "", "l", "iptables"), ScriptStep::Continue);
    assert_eq!(
        script_step(false, false, Some(127), "", "l", "iptables"),
        ScriptStep::Fail(SudoError::Permission)
    );
    assert_eq!(
        script_step(false, false, Some(4), "Netlink: Error: cache", "l", "/usr/sbin/iptables"),
        ScriptStep::TryLegacy
    );
    assert_eq!(
        script_step(false, false, Some(2), "", "iptables -X", "iptables"),
        ScriptStep::Fail(SudoError::Command("Command failed (exit 2): iptables -X".to_string()))
    );
    assert_eq!(
        script_step(false, false, None, "boom", "nft x", "nft"),
        ScriptStep::Fail(SudoError::Command("Command failed (exit -1): boom".to_string()))
    );
}

#[test]
fn legacy_variants() {
    assert_eq!(
        legacy_candidates("/usr/sbin/iptables"),
        Some(("iptables-legacy", "/usr/sbin/iptables-legacy"))
    );
    assert_eq!(
        legacy_candidates("ip6tables"),
        Some(("ip6tables-legacy", "/usr/sbin/ip6tables-legacy"))
    );
    assert_eq!(legacy_candidates("nft"), None);
    assert!(prefers_legacy(true, "iptables"));
    assert!(!prefers_legacy(false, "iptables"));
}

#[test]
fn sudo_checks() {
    assert_eq!(sudo_check_outcome(true, ""), Ok(()));
    assert_eq!(
        sudo_check_outcome(false, "sudo: a password is required"),
        Err(SudoError::Permission)
    );
}

#[test]
fn ipv6_script_exact() {
    assert_eq!(
        build_ipv6_script(Ipv6Mode::Block, "ip6tables"),
        "ip6tables -I OUTPUT 1 -o lo -j ACCEPT 2>/dev/null || true\n\
ip6tables -I OUTPUT 2 -j DROP 2>/dev/null || true\n"
    );
    let t = build_ipv6_script(Ipv6Mode::Tunnel, "/sbin/ip6tables");
    let lines: Vec<&str> = t.lines().collect();
    assert_eq!(lines.len(), 5);
    assert_eq!(
        lines[1],
        "/sbin/ip6tables -I OUTPUT 2 -m conntrack --ctstate ESTABLISHED,RELATED -j ACCEPT 2>/dev/null || true"
    );
    assert_eq!(lines[4], "/sbin/ip6tables -I OUTPUT 5 -j DROP 2>/dev/null || true");
}

#[test]
fn ipv6_script_modes() {
    assert_eq!(build_ipv6_script(Ipv6Mode::Off, "/usr/sbin/ip6tables"), "");
    let block = build_ipv6_script(Ipv6Mode::Block, "ip6tables");
    assert!(block.contains("ip6tables -I OUTPUT 1 -o lo -j ACCEPT"));
    assert!(block.contains("-j DROP"));
}

// --- cleanup at shutdown ---

#[test]
fn cleanup_notice_only_on_failure() {
    assert_eq!(cleanup_failure_notice(&CleanupResult::Cleaned), None);
    assert_eq!(cleanup_failure_notice(&CleanupResult::NothingToClean), None);
    assert_eq!(
        cleanup_failure_notice(&CleanupResult::Failed("x".to_string())),
        Some(("Cleanup Failed", "Firewall rules may need manual cleanup. See logs."))
    );
}

// --- binary paths ---

#[test]
fn test_path_strings_are_absolute() {
    assert!(iptables(None).starts_with('/'));
    assert!(ip6tables(None).starts_with('/'));
    assert!(nft(None).starts_with('/'));
}

#[test]
fn test_paths_are_absolute() {
    assert!(std::path::Path::new(&iptables_path(None)).is_absolute());
    assert!(std::path::Path::new(&ip6tables_path(None)).is_absolute());
    assert!(std::path::Path::new(&nft_path(None)).is_absolute());
}

#[test]
fn find_binary_order() {
    let c = ["/a/iptables", "/b/iptables"];
    assert_eq!(find_binary(&c, &[false, true], Some("/w/iptables"), "iptables"), "/b/iptables");
    assert_eq!(find_binary(&c, &[true, true], None, "iptables"), "/a/iptables");
    assert_eq!(find_binary(&c, &[false, false], Some("/w/iptables"), "iptables"), "/w/iptables");
    assert_eq!(find_binary(&c, &[false, false], None, "iptables"), "/usr/sbin/iptables");
    // A relative `which` answer is not taken.
    assert_eq!(find_binary(&c, &[false, false], Some("./iptables"), "iptables"), "/usr/sbin/iptables");
    assert!(iptables(Some("bin/iptables")).starts_with('/'));
}

#[test]
fn script_error_texts() {
    assert_eq!(
        timeout_error("iptables -N X"),
        SudoError::Command(
            "Command timed out after 30s (possible sudo prompt or frozen kernel module): iptables -N X"
                .to_string()
        )
    );
    assert_eq!(
        legacy_timeout_error("iptables -N X"),
        SudoError::Command("Legacy command timed out after 30s: iptables -N X".to_string())
    );
    assert_eq!(
        nft_failure_error("  ", "iptables -N X"),
        SudoError::Command(
            "iptables -N X (iptables-nft failed; install iptables-legacy or nftables)".to_string()
        )
    );
    assert_eq!(
        nft_failure_error("netlink: Error\n", "iptables -N X"),
        SudoError::Command(
            "netlink: Error (iptables-nft failed; install iptables-legacy or nftables)".to_string()
        )
    );
    assert_eq!(verify_rules_command().args, args(&["-C", "OUTPUT", "-j", "SHROUD_KILLSWITCH"]));
}

#[test]
fn lowered_decisions() {
    // The lower-cased output decides; the output as it is goes into messages.
    assert_eq!(
        script_step_lowered(false, false, Some(1), "X", "ip_tables missing", "l", "iptables"),
        ScriptStep::TryLegacy
    );
    assert_eq!(
        script_step_lowered(false, false, Some(1), "X", "x", "l", "iptables"),
        ScriptStep::Fail(SudoError::Command("Command failed (exit 1): X".to_string()))
    );
    assert_eq!(
        sudo_check_lowered(true, " Table does not exist ", "table does not exist"),
        Err(SudoError::Command("Sudo check failed: Table does not exist".to_string()))
    );
    assert_eq!(sudo_check_lowered(false, "Permission denied", "permission denied"), Err(SudoError::Permission));
    assert_eq!(
        sudo_check_lowered(false, "odd", "odd"),
        Err(SudoError::Command("Sudo check failed: odd".to_string()))
    );
    // Through the lower-casing call.
    assert_eq!(
        sudo_check_outcome(true, "iptables: Table does not exist (do you need to insmod?)"),
        Err(SudoError::Command(
            "Sudo check failed: iptables: Table does not exist (do you need to insmod?)".to_string()
        ))
    );
    assert_eq!(sudo_check_outcome(false, "PASSWORD required"), Err(SudoError::Permission));
}

// --- running a rule script ---

fn exited(success: bool, code: i32, stderr: &str) -> ScriptEvent {
    ScriptEvent::Exited { success, exit_code: Some(code), stderr: stderr.to_string() }
}

#[test]
fn script_runs_lines_in_order_and_stops_at_failure() {
    let script = "iptables -N X\niptables -A X -j DROP || true\niptables -I OUTPUT 1 -j X\niptables -L\n";
    let mut run = ScriptRun::new(script, false);
    assert_eq!(
        run.step(ScriptEvent::Proceed),
        ScriptAction::Run { program: "iptables".into(), args: args(&["-N", "X"]) }
    );
    assert_eq!(
        run.step(exited(true, 0, "")),
        ScriptAction::Run { program: "iptables".into(), args: args(&["-A", "X", "-j", "DROP"]) }
    );
    // Tolerated failure: go on.
    assert_eq!(
        run.step(exited(false, 1, "x")),
        ScriptAction::Run { program: "iptables".into(), args: args(&["-I", "OUTPUT", "1", "-j", "X"]) }
    );
    // Untolerated failure: stop with its error; the last line never runs.
    assert_eq!(
        run.step(exited(false, 2, " no chain ")),
        ScriptAction::Finish(Err(SudoError::Command("Command failed (exit 2): no chain".into())))
    );
    assert!(run.is_finished());
    assert_eq!(run.step(ScriptEvent::Proceed), ScriptAction::Nothing);
}

#[test]
fn script_success_and_errors() {
    let mut run = ScriptRun::new("# header\niptables -F X\n", false);
    assert_eq!(
        run.step(ScriptEvent::Proceed),
        ScriptAction::Run { program: "iptables".into(), args: args(&["-F", "X"]) }
    );
    assert_eq!(run.step(exited(true, 0, "")), ScriptAction::Finish(Ok(())));

    let mut run = ScriptRun::new("iptables -F X\n", false);
    run.step(ScriptEvent::Proceed);
    assert_eq!(run.step(exited(false, 126, "")), ScriptAction::Finish(Err(SudoError::Permission)));

    let mut run = ScriptRun::new("iptables -F X\n", false);
    run.step(ScriptEvent::Proceed);
    assert_eq!(
        run.step(ScriptEvent::TimedOut),
        ScriptAction::Finish(Err(SudoError::Command(
            "Command timed out after 30s (possible sudo prompt or frozen kernel module): iptables -F X".into()
        )))
    );
}

#[test]
fn script_legacy_retry() {
    let mut run = ScriptRun::new("iptables -N X\n", false);
    run.step(ScriptEvent::Proceed);
    assert_eq!(
        run.step(exited(false, 4, "Netlink: Error")),
        ScriptAction::FindLegacy { program: "iptables".into() }
    );
    assert_eq!(
        run.step(ScriptEvent::Legacy(Some("iptables-legacy".into()))),
        ScriptAction::Run { program: "iptables-legacy".into(), args: args(&["-N", "X"]) }
    );
    assert_eq!(run.step(exited(true, 0, "")), ScriptAction::Finish(Ok(())));

    let mut run = ScriptRun::new("iptables -N X\n", false);
    run.step(ScriptEvent::Proceed);
    run.step(exited(false, 4, "netlink: error"));
    assert_eq!(
        run.step(ScriptEvent::Legacy(None)),
        ScriptAction::Finish(Err(SudoError::Command(
            "netlink: error (iptables-nft failed; install iptables-legacy or nftables)".into()
        )))
    );
}

#[test]
fn script_prefers_legacy_when_switched() {
    let mut run = ScriptRun::new("iptables -N X\nnft list tables\n", true);
    assert_eq!(run.step(ScriptEvent::Proceed), ScriptAction::FindLegacy { program: "iptables".into() });
    assert_eq!(
        run.step(ScriptEvent::Legacy(None)),
        ScriptAction::Run { program: "iptables".into(), args: args(&["-N", "X"]) }
    );
    assert_eq!(
        run.step(exited(true, 0, "")),
        ScriptAction::Run { program: "nft".into(), args: args(&["list", "tables"]) }
    );
}

// --- enabling and disabling ---

#[test]
fn enable_does_nothing_when_enabled() {
    let mut ks = KillSwitch::new();
    ks.record_enabled();
    assert!(ks.begin_enable(&[]).is_none());
    ks.record_disabled();
    assert!(ks.begin_disable().is_none());
}

#[test]
fn enable_stops_at_first_failure() {
    let ks = KillSwitch::new();
    let mut run = ks.begin_enable(&[]).unwrap();
    match run.step(None) {
        PlanAction::Run(c) => assert_eq!(c.args, args(&["-N", "SHROUD_KILLSWITCH"])),
        other => panic!("unexpected {:?}", other),
    }
    assert!(matches!(run.step(Some(Ok(()))), PlanAction::Run(_)));
    assert_eq!(
        run.step(Some(Err(KillSwitchError::Permission))),
        PlanAction::Finish(Err(KillSwitchError::Permission))
    );
    assert!(run.is_finished());
    assert_eq!(run.step(Some(Ok(()))), PlanAction::Nothing);
}

#[test]
fn enable_runs_whole_plan() {
    let ks = KillSwitch::new();
    let expected = ks.enable_plan(&[]);
    let mut run = ks.begin_enable(&[]).unwrap();
    let mut ran = Vec::new();
    let mut last = None;
    loop {
        match run.step(last) {
            PlanAction::Run(c) => {
                ran.push(c);
                last = Some(Ok(()));
            }
            PlanAction::Finish(r) => {
                assert_eq!(r, Ok(()));
                break;
            }
            PlanAction::Nothing => panic!("ended without a result"),
        }
    }
    assert_eq!(ran, expected);
}

#[test]
fn disable_runs_cleanup() {
    let mut ks = KillSwitch::new();
    ks.record_enabled();
    let mut run = ks.begin_disable().unwrap();
    let first = run.step(true).unwrap();
    assert_eq!(first.args, args(&["-D", "OUTPUT", "-j", "SHROUD_KILLSWITCH"]));
}
