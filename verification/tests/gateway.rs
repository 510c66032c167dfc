use shroud::gateway::rule_builder::{
    build_client_rules, build_gateway_rules, nat_required, ForwardingState, GatewayRule,
};
use shroud::gateway::status_fmt::GatewaySnapshot;

// --- GatewayRule::to_args ---

#[test]
fn test_forward_args() {
    let rule = GatewayRule::Forward {
        in_iface: "eth0".into(),
        out_iface: "tun0".into(),
        action: "ACCEPT".into(),
    };
    let args = rule.to_args();
    assert!(args.contains(&"-i".into()));
    assert!(args.contains(&"eth0".into()));
    assert!(args.contains(&"-o".into()));
    assert!(args.contains(&"tun0".into()));
    assert!(args.contains(&"-j".into()));
    assert!(args.contains(&"ACCEPT".into()));
}

#[test]
fn test_forward_client_args() {
    let rule = GatewayRule::ForwardClient {
        in_iface: "eth0".into(),
        out_iface: "tun0".into(),
        source: "192.168.1.50".into(),
    };
    let args = rule.to_args();
    assert!(args.contains(&"-s".into()));
    assert!(args.contains(&"192.168.1.50".into()));
}

#[test]
fn test_related_args() {
    let rule = GatewayRule::Related {
        in_iface: "tun0".into(),
        out_iface: "eth0".into(),
    };
    let args = rule.to_args();
    assert!(args.contains(&"RELATED,ESTABLISHED".into()));
    assert!(args.contains(&"ACCEPT".into()));
}

#[test]
fn test_masquerade_args() {
    let rule = GatewayRule::Masquerade {
        out_iface: "tun0".into(),
    };
    let args = rule.to_args();
    assert!(args.contains(&"nat".into()));
    assert!(args.contains(&"MASQUERADE".into()));
    assert!(args.contains(&"tun0".into()));
}

#[test]
fn forward_args_exact_order() {
    let rule = GatewayRule::Forward {
        in_iface: "eth0".into(),
        out_iface: "tun0".into(),
        action: "DROP".into(),
    };
    assert_eq!(
        rule.to_args(),
        vec!["-A", "FORWARD", "-i", "eth0", "-o", "tun0", "-j", "DROP"]
    );
}

#[test]
fn client_args_exact_order() {
    let rule = GatewayRule::ForwardClient {
        in_iface: "eth0".into(),
        out_iface: "tun0".into(),
        source: "10.1.2.3".into(),
    };
    assert_eq!(
        rule.to_args(),
        vec!["-A", "FORWARD", "-i", "eth0", "-o", "tun0", "-s", "10.1.2.3", "-j", "ACCEPT"]
    );
}

#[test]
fn related_args_exact_order() {
    let rule = GatewayRule::Related {
        in_iface: "tun0".into(),
        out_iface: "eth0".into(),
    };
    assert_eq!(
        rule.to_args(),
        vec![
            "-A",
            "FORWARD",
            "-i",
            "tun0",
            "-o",
            "eth0",
            "-m",
            "state",
            "--state",
            "RELATED,ESTABLISHED",
            "-j",
            "ACCEPT"
        ]
    );
}

#[test]
fn masquerade_args_exact_order() {
    let rule = GatewayRule::Masquerade {
        out_iface: "wg0".into(),
    };
    assert_eq!(
        rule.to_args(),
        vec!["-t", "nat", "-A", "POSTROUTING", "-o", "wg0", "-j", "MASQUERADE"]
    );
}

// --- build_gateway_rules / build_client_rules ---

#[test]
fn test_gateway_rules_count() {
    let rules = build_gateway_rules("eth0", "tun0");
    assert_eq!(rules.len(), 3);
}

#[test]
fn test_gateway_rules_types() {
    let rules = build_gateway_rules("eth0", "tun0");
    assert!(matches!(rules[0], GatewayRule::Forward { .. }));
    assert!(matches!(rules[1], GatewayRule::Related { .. }));
    assert!(matches!(rules[2], GatewayRule::Masquerade { .. }));
}

#[test]
fn gateway_rules_exact() {
    let rules = build_gateway_rules("eth0", "tun0");
    assert_eq!(
        rules,
        vec![
            GatewayRule::Forward {
                in_iface: "eth0".into(),
                out_iface: "tun0".into(),
                action: "ACCEPT".into(),
            },
            GatewayRule::Related {
                in_iface: "tun0".into(),
                out_iface: "eth0".into(),
            },
            GatewayRule::Masquerade {
                out_iface: "tun0".into(),
            },
        ]
    );
}

#[test]
fn test_client_rules_with_sources() {
    let rules = build_client_rules(
        "eth0",
        "tun0",
        &["192.168.1.10".into(), "192.168.1.20".into()],
    );
    // 2 client + 1 related + 1 masquerade = 4
    assert_eq!(rules.len(), 4);
    assert!(matches!(rules[0], GatewayRule::ForwardClient { .. }));
    assert!(matches!(rules[1], GatewayRule::ForwardClient { .. }));
}

#[test]
fn test_client_rules_empty_sources() {
    let rules = build_client_rules("eth0", "tun0", &[]);
    // 0 client + 1 related + 1 masquerade = 2
    assert_eq!(rules.len(), 2);
}

#[test]
fn client_rules_keep_source_order() {
    let rules = build_client_rules("lan0", "tun1", &["10.0.0.9".into(), "10.0.0.3".into()]);
    assert_eq!(
        rules[0],
        GatewayRule::ForwardClient {
            in_iface: "lan0".into(),
            out_iface: "tun1".into(),
            source: "10.0.0.9".into(),
        }
    );
    assert_eq!(
        rules[1],
        GatewayRule::ForwardClient {
            in_iface: "lan0".into(),
            out_iface: "tun1".into(),
            source: "10.0.0.3".into(),
        }
    );
    assert_eq!(
        rules[2],
        GatewayRule::Related {
            in_iface: "tun1".into(),
            out_iface: "lan0".into(),
        }
    );
    assert_eq!(rules[3], GatewayRule::Masquerade { out_iface: "tun1".into() });
}

// --- nat_required ---

#[test]
fn test_nat_required_different() {
    assert!(nat_required("eth0", "tun0"));
}

#[test]
fn test_nat_not_required_same() {
    assert!(!nat_required("eth0", "eth0"));
}

#[test]
fn test_nat_not_required_empty() {
    assert!(!nat_required("", "tun0"));
    assert!(!nat_required("eth0", ""));
}

// --- ForwardingState ---

#[test]
fn test_from_proc_enabled() {
    assert_eq!(ForwardingState::from_proc("1"), ForwardingState::Enabled);
    assert_eq!(ForwardingState::from_proc("1\n"), ForwardingState::Enabled);
}

#[test]
fn test_from_proc_disabled() {
    assert_eq!(ForwardingState::from_proc("0"), ForwardingState::Disabled);
    assert_eq!(ForwardingState::from_proc("0\n"), ForwardingState::Disabled);
}

#[test]
fn test_from_proc_unknown() {
    assert_eq!(
        ForwardingState::from_proc("invalid"),
        ForwardingState::Unknown
    );
    assert_eq!(ForwardingState::from_proc(""), ForwardingState::Unknown);
}

#[test]
fn from_proc_trims_both_ends() {
    assert_eq!(ForwardingState::from_proc("  1 \t\n"), ForwardingState::Enabled);
    assert_eq!(ForwardingState::from_proc("10"), ForwardingState::Unknown);
}

#[test]
fn test_is_enabled() {
    assert!(ForwardingState::Enabled.is_enabled());
    assert!(!ForwardingState::Disabled.is_enabled());
    assert!(!ForwardingState::Unknown.is_enabled());
}

// --- GatewaySnapshot ---

#[test]
fn test_default_snapshot() {
    let s = GatewaySnapshot::default();
    assert!(!s.enabled);
    assert!(!s.forwarding_enabled);
    assert!(s.lan_interface.is_none());
    assert!(s.vpn_interface.is_none());
    assert!(!s.kill_switch_active);
    assert!(s.forward_rules.is_empty());
}

#[test]
fn test_display_disabled() {
    let s = GatewaySnapshot::default();
    let text = s.render();
    assert!(text.contains("✗ disabled"));
    assert!(text.contains("Gateway Status"));
    assert!(text.contains("Not detected"));
}

#[test]
fn test_display_enabled_with_interfaces() {
    let s = GatewaySnapshot {
        enabled: true,
        forwarding_enabled: true,
        lan_interface: Some("eth0".into()),
        lan_ip: Some("192.168.1.100".into()),
        lan_subnet: Some("192.168.1.0/24".into()),
        vpn_interface: Some("tun0".into()),
        vpn_ip: Some("10.0.0.2".into()),
        kill_switch_active: true,
        forward_rules: vec!["rule1".into(), "rule2".into()],
    };
    let text = s.render();
    assert!(text.contains("✓ enabled"));
    assert!(text.contains("eth0"));
    assert!(text.contains("192.168.1.100"));
    assert!(text.contains("tun0"));
    assert!(text.contains("10.0.0.2"));
    assert!(text.contains("✓ active"));
    assert!(text.contains("FORWARD Chain Rules"));
    assert!(text.contains("rule1"));
}

#[test]
fn test_display_no_vpn() {
    let s = GatewaySnapshot {
        lan_interface: Some("eth0".into()),
        ..Default::default()
    };
    let text = s.render();
    assert!(text.contains("eth0"));
    assert!(text.contains("Not detected (VPN not connected?)"));
}

#[test]
fn test_display_no_forward_rules_when_disabled() {
    let s = GatewaySnapshot {
        enabled: false,
        forward_rules: vec!["rule".into()],
        ..Default::default()
    };
    let text = s.render();
    // Should NOT show forward rules section when gateway is disabled
    assert!(!text.contains("FORWARD Chain Rules"));
}

#[test]
fn test_display_forward_rules_when_enabled() {
    let s = GatewaySnapshot {
        enabled: true,
        forward_rules: vec!["rule-a".into(), "rule-b".into()],
        ..Default::default()
    };
    let text = s.render();
    assert!(text.contains("FORWARD Chain Rules"));
    assert!(text.contains("rule-a"));
    assert!(text.contains("rule-b"));
}

#[test]
fn test_display_empty_forward_rules_when_enabled() {
    let s = GatewaySnapshot {
        enabled: true,
        forward_rules: vec![],
        ..Default::default()
    };
    let text = s.render();
    assert!(!text.contains("FORWARD Chain Rules"));
}

#[test]
fn test_clone() {
    let s = GatewaySnapshot {
        enabled: true,
        lan_interface: Some("eth0".into()),
        ..Default::default()
    };
    let cloned = s.clone();
    assert_eq!(cloned.enabled, s.enabled);
    assert_eq!(cloned.lan_interface, s.lan_interface);
}

fn lines(ls: &[&str]) -> String {
    ls.iter().map(|l| format!("{}\n", l)).collect()
}

#[test]
fn render_default_exact_text() {
    let text = GatewaySnapshot::default().render();
    let expected = lines(&[
        "Gateway Status",
        "==============",
        "",
        "Gateway:           ✗ disabled",
        "IP Forwarding:     ✗ disabled",
        "Forward Kill SW:   ✗ inactive",
        "",
        "LAN Interface",
        "─────────────",
        "  Not detected",
        "",
        "VPN Interface",
        "─────────────",
        "  Not detected (VPN not connected?)",
    ]);
    assert_eq!(text, expected);
}

#[test]
fn render_full_exact_text() {
    let s = GatewaySnapshot {
        enabled: true,
        forwarding_enabled: true,
        lan_interface: Some("eth0".into()),
        lan_ip: Some("192.168.1.10".into()),
        lan_subnet: None,
        vpn_interface: Some("tun0".into()),
        vpn_ip: None,
        kill_switch_active: false,
        forward_rules: vec!["ACCEPT all".into()],
    };
    let expected = lines(&[
        "Gateway Status",
        "==============",
        "",
        "Gateway:           ✓ enabled",
        "IP Forwarding:     ✓ enabled",
        "Forward Kill SW:   ✗ inactive",
        "",
        "LAN Interface",
        "─────────────",
        "  Interface:       eth0",
        "  IP Address:      192.168.1.10",
        "",
        "VPN Interface",
        "─────────────",
        "  Interface:       tun0",
        "",
        "FORWARD Chain Rules",
        "-------------------",
        "  ACCEPT all",
    ]);
    assert_eq!(s.render(), expected);
}

#[test]
fn lan_address_hidden_without_interface() {
    let s = GatewaySnapshot {
        lan_ip: Some("192.168.7.7".into()),
        vpn_ip: Some("10.9.9.9".into()),
        ..Default::default()
    };
    let text = s.render();
    assert!(!text.contains("192.168.7.7"));
    assert!(!text.contains("10.9.9.9"));
}
