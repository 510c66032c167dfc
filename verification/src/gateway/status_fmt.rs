//! The gateway's status, as shown to the user, built from a snapshot
//! without querying any system interface.
use vstd::prelude::*;

use crate::ipc::opt_view;
use crate::text::views;

verus! {

/// A snapshot of the gateway's status.
#[derive(Debug, Clone)]
pub struct GatewaySnapshot {
    pub enabled: bool,
    pub forwarding_enabled: bool,
    pub lan_interface: Option<String>,
    pub lan_ip: Option<String>,
    pub lan_subnet: Option<String>,
    pub vpn_interface: Option<String>,
    pub vpn_ip: Option<String>,
    pub kill_switch_active: bool,
    pub forward_rules: Vec<String>,
}

/// A snapshot over character sequences.
#[verifier::ext_equal]
pub ghost struct GatewaySnapshotView {
    pub enabled: bool,
    pub forwarding_enabled: bool,
    pub lan_interface: Option<Seq<char>>,
    pub lan_ip: Option<Seq<char>>,
    pub lan_subnet: Option<Seq<char>>,
    pub vpn_interface: Option<Seq<char>>,
    pub vpn_ip: Option<Seq<char>>,
    pub kill_switch_active: bool,
    pub forward_rules: Seq<Seq<char>>,
}

impl View for GatewaySnapshot {
    type V = GatewaySnapshotView;

    open spec fn view(&self) -> GatewaySnapshotView {
        GatewaySnapshotView {
            enabled: self.enabled,
            forwarding_enabled: self.forwarding_enabled,
            lan_interface: opt_view(self.lan_interface),
            lan_ip: opt_view(self.lan_ip),
            lan_subnet: opt_view(self.lan_subnet),
            vpn_interface: opt_view(self.vpn_interface),
            vpn_ip: opt_view(self.vpn_ip),
            kill_switch_active: self.kill_switch_active,
            forward_rules: views(self.forward_rules@),
        }
    }
}

impl Default for GatewaySnapshot {
    /// Everything off, nothing detected, no rules.
    fn default() -> (r: Self)
        ensures
            r@ == (GatewaySnapshotView {
                enabled: false,
                forwarding_enabled: false,
                lan_interface: None,
                lan_ip: None,
                lan_subnet: None,
                vpn_interface: None,
                vpn_ip: None,
                kill_switch_active: false,
                forward_rules: Seq::empty(),
            }),
    {
        let r = GatewaySnapshot {
            enabled: false,
            forwarding_enabled: false,
            lan_interface: None,
            lan_ip: None,
            lan_subnet: None,
            vpn_interface: None,
            vpn_ip: None,
            kill_switch_active: false,
            forward_rules: Vec::new(),
        };
        proof {
            assert(r@ =~= (GatewaySnapshotView {
                enabled: false,
                forwarding_enabled: false,
                lan_interface: None,
                lan_ip: None,
                lan_subnet: None,
                vpn_interface: None,
                vpn_ip: None,
                kill_switch_active: false,
                forward_rules: Seq::empty(),
            }));
        }
        r
    }
}

// ---------------------------------------------------------------------------
// The status text
// ---------------------------------------------------------------------------

/// Lines joined, each ended by a newline.
pub open spec fn unlines(ls: Seq<Seq<char>>) -> Seq<char>
    decreases ls.len(),
{
    if ls.len() == 0 {
        Seq::empty()
    } else {
        unlines(ls.drop_last()) + ls.last() + "\n"@
    }
}

/// A check mark or a cross, with the word for the state.
pub open spec fn mark(on: bool, yes: Seq<char>, no: Seq<char>) -> Seq<char> {
    if on {
        "✓ "@ + yes
    } else {
        "✗ "@ + no
    }
}

/// The title and the three switches.
pub open spec fn header_lines(s: GatewaySnapshotView) -> Seq<Seq<char>> {
    seq![
        "Gateway Status"@,
        "=============="@,
        ""@,
        "Gateway:           "@ + mark(s.enabled, "enabled"@, "disabled"@),
        "IP Forwarding:     "@ + mark(s.forwarding_enabled, "enabled"@, "disabled"@),
        "Forward Kill SW:   "@ + mark(s.kill_switch_active, "active"@, "inactive"@),
    ]
}

/// A line of an optional detail, when it is known.
pub open spec fn detail(label: Seq<char>, value: Option<Seq<char>>) -> Seq<Seq<char>> {
    match value {
        Some(v) => seq![label + v],
        None => seq![],
    }
}

/// The LAN section: the interface with its address and subnet, when known.
pub open spec fn lan_lines(s: GatewaySnapshotView) -> Seq<Seq<char>> {
    seq![""@, "LAN Interface"@, "─────────────"@] + match s.lan_interface {
        Some(iface) => seq!["  Interface:       "@ + iface] + detail(
            "  IP Address:      "@,
            s.lan_ip,
        ) + detail("  Subnet:          "@, s.lan_subnet),
        None => seq!["  Not detected"@],
    }
}

/// The VPN section: the interface with its address, when known.
pub open spec fn vpn_lines(s: GatewaySnapshotView) -> Seq<Seq<char>> {
    seq![""@, "VPN Interface"@, "─────────────"@] + match s.vpn_interface {
        Some(iface) => seq!["  Interface:       "@ + iface] + detail(
            "  IP Address:      "@,
            s.vpn_ip,
        ),
        None => seq!["  Not detected (VPN not connected?)"@],
    }
}

/// A FORWARD rule, indented.
pub open spec fn rule_line(r: Seq<char>) -> Seq<char> {
    "  "@ + r
}

/// The FORWARD rules, shown only while the gateway is enabled and there
/// are any.
pub open spec fn rules_lines(s: GatewaySnapshotView) -> Seq<Seq<char>> {
    if s.forward_rules.len() > 0 && s.enabled {
        seq![""@, "FORWARD Chain Rules"@, "-------------------"@] + s.forward_rules.map_values(
            |r: Seq<char>| rule_line(r),
        )
    } else {
        seq![]
    }
}

/// All lines of the status text.
pub open spec fn status_lines(s: GatewaySnapshotView) -> Seq<Seq<char>> {
    header_lines(s) + lan_lines(s) + vpn_lines(s) + rules_lines(s)
}

/// The status text.
pub open spec fn status_text(s: GatewaySnapshotView) -> Seq<char> {
    unlines(status_lines(s))
}

/// Appends one line made of two parts.
fn emit(out: &mut String, Ghost(lines): Ghost<Seq<Seq<char>>>, a: &str, b: &str) -> (r: Ghost<
    Seq<Seq<char>>,
>)
    requires
        old(out)@ == unlines(lines),
    ensures
        r@ == lines.push(a@ + b@),
        final(out)@ == unlines(r@),
{
    out.append(a);
    out.append(b);
    out.append("\n");
    proof {
        let ls = lines.push(a@ + b@);
        assert(ls.drop_last() =~= lines);
        assert(final(out)@ =~= unlines(ls));
    }
    Ghost(lines.push(a@ + b@))
}

fn mark_str(on: bool, yes: &'static str, no: &'static str) -> (r: String)
    ensures
        r@ == mark(on, yes@, no@),
{
    if on {
        let mut s = String::from_str("✓ ");
        s.append(yes);
        s
    } else {
        let mut s = String::from_str("✗ ");
        s.append(no);
        s
    }
}

/// Appends a line of one part.
fn emit_line(out: &mut String, Ghost(lines): Ghost<Seq<Seq<char>>>, a: &str) -> (r: Ghost<
    Seq<Seq<char>>,
>)
    requires
        old(out)@ == unlines(lines),
    ensures
        r@ == lines.push(a@),
        final(out)@ == unlines(r@),
{
    let r = emit(out, Ghost(lines), a, "");
    proof {
        reveal_strlit("");
        assert(a@ + ""@ =~= a@);
    }
    r
}

/// Appends an optional detail line.
fn emit_detail(out: &mut String, Ghost(lines): Ghost<Seq<Seq<char>>>, label: &str, value: &Option<String>) -> (r: Ghost<
    Seq<Seq<char>>,
>)
    requires
        old(out)@ == unlines(lines),
    ensures
        r@ == lines + detail(label@, opt_view(*value)),
        final(out)@ == unlines(r@),
{
    match value {
        Some(v) => {
            let r = emit(out, Ghost(lines), label, v.as_str());
            proof {
                assert(r@ =~= lines + detail(label@, opt_view(*value)));
            }
            r
        },
        None => {
            proof {
                assert(lines =~= lines + detail(label@, opt_view(*value)));
            }
            Ghost(lines)
        },
    }
}

impl GatewaySnapshot {
    fn render_header(&self, out: &mut String, Ghost(lines): Ghost<Seq<Seq<char>>>) -> (r: Ghost<
        Seq<Seq<char>>,
    >)
        requires
            old(out)@ == unlines(lines),
        ensures
            r@ == lines + header_lines(self@),
            final(out)@ == unlines(r@),
    {
        let g = emit_line(out, Ghost(lines), "Gateway Status");
        let g = emit_line(out, g, "==============");
        let g = emit_line(out, g, "");
        let m = mark_str(self.enabled, "enabled", "disabled");
        let g = emit(out, g, "Gateway:           ", m.as_str());
        let m = mark_str(self.forwarding_enabled, "enabled", "disabled");
        let g = emit(out, g, "IP Forwarding:     ", m.as_str());
        let m = mark_str(self.kill_switch_active, "active", "inactive");
        let g = emit(out, g, "Forward Kill SW:   ", m.as_str());
        proof {
            assert(g@ =~= lines + header_lines(self@));
        }
        g
    }

    fn render_lan(&self, out: &mut String, Ghost(lines): Ghost<Seq<Seq<char>>>) -> (r: Ghost<
        Seq<Seq<char>>,
    >)
        requires
            old(out)@ == unlines(lines),
        ensures
            r@ == lines + lan_lines(self@),
            final(out)@ == unlines(r@),
    {
        let g = emit_line(out, Ghost(lines), "");
        let g = emit_line(out, g, "LAN Interface");
        let g = emit_line(out, g, "─────────────");
        match &self.lan_interface {
            Some(iface) => {
                let g = emit(out, g, "  Interface:       ", iface.as_str());
                let g = emit_detail(out, g, "  IP Address:      ", &self.lan_ip);
                let g = emit_detail(out, g, "  Subnet:          ", &self.lan_subnet);
                proof {
                    assert(g@ =~= lines + lan_lines(self@));
                }
                g
            },
            None => {
                let g = emit_line(out, g, "  Not detected");
                proof {
                    assert(g@ =~= lines + lan_lines(self@));
                }
                g
            },
        }
    }

    fn render_vpn(&self, out: &mut String, Ghost(lines): Ghost<Seq<Seq<char>>>) -> (r: Ghost<
        Seq<Seq<char>>,
    >)
        requires
            old(out)@ == unlines(lines),
        ensures
            r@ == lines + vpn_lines(self@),
            final(out)@ == unlines(r@),
    {
        let g = emit_line(out, Ghost(lines), "");
        let g = emit_line(out, g, "VPN Interface");
        let g = emit_line(out, g, "─────────────");
        match &self.vpn_interface {
            Some(iface) => {
                let g = emit(out, g, "  Interface:       ", iface.as_str());
                let g = emit_detail(out, g, "  IP Address:      ", &self.vpn_ip);
                proof {
                    assert(g@ =~= lines + vpn_lines(self@));
                }
                g
            },
            None => {
                let g = emit_line(out, g, "  Not detected (VPN not connected?)");
                proof {
                    assert(g@ =~= lines + vpn_lines(self@));
                }
                g
            },
        }
    }

    fn render_rules(&self, out: &mut String, Ghost(lines): Ghost<Seq<Seq<char>>>) -> (r: Ghost<
        Seq<Seq<char>>,
    >)
        requires
            old(out)@ == unlines(lines),
        ensures
            r@ == lines + rules_lines(self@),
            final(out)@ == unlines(r@),
    {
        let ghost s = self@;
        if self.forward_rules.len() > 0 && self.enabled {
            let g = emit_line(out, Ghost(lines), "");
            let g = emit_line(out, g, "FORWARD Chain Rules");
            let mut g = emit_line(out, g, "-------------------");
            let ghost head = g@;
            let mut i: usize = 0;
            while i < self.forward_rules.len()
                invariant
                    i <= self.forward_rules@.len(),
                    s == self@,
                    out@ == unlines(g@),
                    g@ == head + s.forward_rules.take(i as int).map_values(
                        |r: Seq<char>| rule_line(r),
                    ),
                decreases self.forward_rules@.len() - i,
            {
                g = emit(out, g, "  ", self.forward_rules[i].as_str());
                proof {
                    let f = |r: Seq<char>| rule_line(r);
                    assert(s.forward_rules[i as int] == self.forward_rules@[i as int]@);
                    assert(s.forward_rules.take(i + 1) =~= s.forward_rules.take(i as int).push(
                        s.forward_rules[i as int],
                    ));
                    assert(s.forward_rules.take(i + 1).map_values(f) =~= s.forward_rules.take(
                        i as int,
                    ).map_values(f).push(f(s.forward_rules[i as int])));
                }
                i = i + 1;
            }
            proof {
                assert(s.forward_rules.take(i as int) =~= s.forward_rules);
                assert(g@ =~= lines + rules_lines(s));
            }
            g
        } else {
            proof {
                assert(lines =~= lines + rules_lines(s));
            }
            Ghost(lines)
        }
    }

    /// The status text shown by `gateway status`.
    pub fn render(&self) -> (r: String)
        ensures
            r@ == status_text(self@),
    {
        let mut out = String::new();
        let g = self.render_header(&mut out, Ghost(Seq::empty()));
        let g = self.render_lan(&mut out, g);
        let g = self.render_vpn(&mut out, g);
        let g = self.render_rules(&mut out, g);
        proof {
            assert(g@ =~= status_lines(self@));
        }
        out
    }
}

} // verus!
