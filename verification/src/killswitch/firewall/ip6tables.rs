//! ip6tables (IPv6) rules of the script-based backend.
//!
//! `build_ipv6_script` writes the ip6tables lines that an `Ipv6Mode`
//! needs; `ipv6_output_rules` lists the IPv6 OUTPUT rules the kill switch
//! may have inserted, which a robust cleanup deletes one duplicate at a time.
use vstd::prelude::*;

use crate::config::Ipv6Mode;
use crate::text::{decimal, push_decimal, str_views, strings_of, views};

verus! {

/// The rules that the ip6tables script of `mode` inserts at the top of
/// OUTPUT, in order (what follows `-I OUTPUT <position>`).
pub open spec fn ipv6_script_rules(mode: Ipv6Mode) -> Seq<Seq<Seq<char>>> {
    match mode {
        Ipv6Mode::Block => seq![seq!["-o"@, "lo"@, "-j"@, "ACCEPT"@], seq!["-j"@, "DROP"@]],
        Ipv6Mode::Tunnel => seq![
            seq!["-o"@, "lo"@, "-j"@, "ACCEPT"@],
            seq!["-m"@, "conntrack"@, "--ctstate"@, "ESTABLISHED,RELATED"@, "-j"@, "ACCEPT"@],
            seq!["-o"@, "tun+"@, "-j"@, "ACCEPT"@],
            seq!["-d"@, "fe80::/10"@, "-j"@, "ACCEPT"@],
            seq!["-j"@, "DROP"@],
        ],
        Ipv6Mode::Off => seq![],
    }
}

/// The words, each after a space.
pub open spec fn spaced(words: Seq<Seq<char>>) -> Seq<char>
    decreases words.len(),
{
    if words.len() == 0 {
        Seq::empty()
    } else {
        spaced(words.drop_last()) + " "@ + words.last()
    }
}

/// The script line that inserts `rule` at position `pos` of OUTPUT; its
/// failure is tolerated.
pub open spec fn ipv6_script_line(bin: Seq<char>, pos: nat, rule: Seq<Seq<char>>) -> Seq<char> {
    bin + " -I OUTPUT "@ + decimal(pos) + spaced(rule) + " 2>/dev/null || true\n"@
}

/// The lines inserting `rules` at positions 1, 2, ..., in order.
pub open spec fn ipv6_script_text(bin: Seq<char>, rules: Seq<Seq<Seq<char>>>) -> Seq<char>
    decreases rules.len(),
{
    if rules.len() == 0 {
        Seq::empty()
    } else {
        ipv6_script_text(bin, rules.drop_last()) + ipv6_script_line(
            bin,
            rules.len(),
            rules.last(),
        )
    }
}

/// The ip6tables script lines of `mode`, where `bin` is the ip6tables path.
pub open spec fn ipv6_script_spec(mode: Ipv6Mode, bin: Seq<char>) -> Seq<char> {
    ipv6_script_text(bin, ipv6_script_rules(mode))
}

fn ipv6_script_rules_exec(mode: Ipv6Mode) -> (r: Vec<Vec<String>>)
    ensures
        r@.map_values(|v: Vec<String>| views(v@)) == ipv6_script_rules(mode),
{
    let mut r: Vec<Vec<String>> = Vec::new();
    match mode {
        Ipv6Mode::Block => {
            r.push(strings_of(&["-o", "lo", "-j", "ACCEPT"]));
            r.push(strings_of(&["-j", "DROP"]));
        },
        Ipv6Mode::Tunnel => {
            r.push(strings_of(&["-o", "lo", "-j", "ACCEPT"]));
            r.push(strings_of(&["-m", "conntrack", "--ctstate", "ESTABLISHED,RELATED", "-j", "ACCEPT"]));
            r.push(strings_of(&["-o", "tun+", "-j", "ACCEPT"]));
            r.push(strings_of(&["-d", "fe80::/10", "-j", "ACCEPT"]));
            r.push(strings_of(&["-j", "DROP"]));
        },
        Ipv6Mode::Off => {},
    }
    proof {
        assert(r@.map_values(|v: Vec<String>| views(v@)) =~~= ipv6_script_rules(mode));
    }
    r
}

fn push_script_line(out: &mut String, bin: &str, pos: usize, rule: &Vec<String>)
    ensures
        final(out)@ == old(out)@ + ipv6_script_line(bin@, pos as nat, views(rule@)),
{
    let ghost start = out@;
    out.append(bin);
    out.append(" -I OUTPUT ");
    push_decimal(out, pos as u128);
    let ghost head = out@;
    let mut j: usize = 0;
    while j < rule.len()
        invariant
            j <= rule@.len(),
            out@ == head + spaced(views(rule@).take(j as int)),
        decreases rule@.len() - j,
    {
        out.append(" ");
        out.append(rule[j].as_str());
        proof {
            let w = views(rule@).take(j + 1);
            assert(w.drop_last() =~= views(rule@).take(j as int));
            assert(w.last() == rule@[j as int]@);
        }
        j = j + 1;
    }
    out.append(" 2>/dev/null || true\n");
    proof {
        assert(views(rule@).take(j as int) =~= views(rule@));
        assert(head == start + bin@ + " -I OUTPUT "@ + decimal(pos as nat));
    }
}

/// The ip6tables portion of the kill switch script for an IPv6 mode: one
/// line per rule of `ipv6_script_rules`, inserted at positions 1, 2, ....
/// Each line ends in `2>/dev/null || true`: its failure is tolerated,
/// since the IPv6 stack may legitimately be absent.
pub fn build_ipv6_script(ipv6_mode: Ipv6Mode, ip6tables_bin: &str) -> (r: String)
    ensures
        r@ == ipv6_script_spec(ipv6_mode, ip6tables_bin@),
{
    let rules = ipv6_script_rules_exec(ipv6_mode);
    let ghost rs = rules@.map_values(|v: Vec<String>| views(v@));
    let mut s = String::new();
    let mut k: usize = 0;
    while k < rules.len()
        invariant
            k <= rules@.len(),
            rs == rules@.map_values(|v: Vec<String>| views(v@)),
            s@ == ipv6_script_text(ip6tables_bin@, rs.take(k as int)),
        decreases rules@.len() - k,
    {
        push_script_line(&mut s, ip6tables_bin, k + 1, &rules[k]);
        proof {
            let t = rs.take(k + 1);
            assert(t.drop_last() =~= rs.take(k as int));
            assert(t.last() == views(rules@[k as int]@));
        }
        k = k + 1;
    }
    proof {
        assert(rs.take(k as int) =~= rs);
    }
    s
}

/// Every rule the script inserts has a delete pattern among
/// `ipv6_output_rules_spec`, so a robust cleanup can remove it; the last
/// rule drops everything and every earlier one accepts.
pub proof fn lemma_ipv6_script_rules_removable(mode: Ipv6Mode)
    ensures
        ({
            let rs = ipv6_script_rules(mode);
            &&& forall|k: int|
                0 <= k < rs.len() ==> ipv6_output_rules_spec().contains(
                    seq!["-D"@, "OUTPUT"@] + #[trigger] rs[k],
                )
            &&& mode != Ipv6Mode::Off ==> rs.len() > 0 && rs.last() == seq!["-j"@, "DROP"@]
            &&& forall|k: int|
                0 <= k < rs.len() - 1 ==> (#[trigger] rs[k]).len() >= 2 && rs[k][rs[k].len() - 2]
                    == "-j"@ && rs[k][rs[k].len() - 1] == "ACCEPT"@
        }),
{
    let rs = ipv6_script_rules(mode);
    let o = ipv6_output_rules_spec();
    let d = seq!["-D"@, "OUTPUT"@];
    assert(d + seq!["-j"@, "DROP"@] =~= o[0]);
    assert(d + seq!["-o"@, "lo"@, "-j"@, "ACCEPT"@] =~= o[1]);
    assert(d + seq!["-m"@, "conntrack"@, "--ctstate"@, "ESTABLISHED,RELATED"@, "-j"@, "ACCEPT"@] =~= o[2]);
    assert(d + seq!["-o"@, "tun+"@, "-j"@, "ACCEPT"@] =~= o[3]);
    assert(d + seq!["-d"@, "fe80::/10"@, "-j"@, "ACCEPT"@] =~= o[4]);
    assert forall|k: int| 0 <= k < rs.len() implies o.contains(d + #[trigger] rs[k]) by {
        if mode == Ipv6Mode::Block {
            if k == 0 {
                assert(o[1] == d + rs[k]);
            } else {
                assert(o[0] == d + rs[k]);
            }
        } else if mode == Ipv6Mode::Tunnel {
            if k == 0 {
                assert(o[1] == d + rs[k]);
            } else if k == 1 {
                assert(o[2] == d + rs[k]);
            } else if k == 2 {
                assert(o[3] == d + rs[k]);
            } else if k == 3 {
                assert(o[4] == d + rs[k]);
            } else {
                assert(o[0] == d + rs[k]);
            }
        }
    }
}

/// Lines joined in order.
pub open spec fn concat_lines(ls: Seq<Seq<char>>) -> Seq<char>
    decreases ls.len(),
{
    if ls.len() == 0 {
        Seq::empty()
    } else {
        concat_lines(ls.drop_last()) + ls.last()
    }
}

/// The script's lines, one per rule, the `k`-th (from zero) inserting at
/// position `k + 1`.
pub open spec fn ipv6_script_lines(bin: Seq<char>, rules: Seq<Seq<Seq<char>>>) -> Seq<Seq<char>> {
    Seq::new(rules.len(), |k: int| ipv6_script_line(bin, (k + 1) as nat, rules[k]))
}

proof fn lemma_script_text_lines(bin: Seq<char>, rules: Seq<Seq<Seq<char>>>)
    ensures
        ipv6_script_text(bin, rules) == concat_lines(ipv6_script_lines(bin, rules)),
    decreases rules.len(),
{
    if rules.len() > 0 {
        lemma_script_text_lines(bin, rules.drop_last());
        assert(ipv6_script_lines(bin, rules).drop_last() =~= ipv6_script_lines(bin, rules.drop_last()));
    }
}

/// The text of the ip6tables script is its lines in order; the `k`-th line
/// (from one) inserts rule `R_k` at position `k` of OUTPUT and tolerates
/// failure; `-D OUTPUT R_k` is one of the rules a cleanup deletes, so the
/// cleanup can remove every line's rule. Unless IPv6 is off, the last line
/// inserts the DROP and every earlier line an ACCEPT.
pub proof fn lemma_ipv6_script_lines_removable(mode: Ipv6Mode, bin: Seq<char>)
    ensures
        ({
            let rs = ipv6_script_rules(mode);
            let ls = ipv6_script_lines(bin, rs);
            &&& ipv6_script_spec(mode, bin) == concat_lines(ls)
            &&& ls.len() == rs.len()
            &&& forall|k: int|
                0 <= k < ls.len() ==> #[trigger] ls[k] == bin + " -I OUTPUT "@ + decimal(
                    (k + 1) as nat,
                ) + spaced(rs[k]) + " 2>/dev/null || true\n"@ && ipv6_output_rules_spec().contains(
                    seq!["-D"@, "OUTPUT"@] + rs[k],
                )
            &&& mode != Ipv6Mode::Off ==> rs.len() > 0 && rs.last() == seq!["-j"@, "DROP"@]
            &&& forall|k: int|
                0 <= k < rs.len() - 1 ==> (#[trigger] rs[k]).len() >= 2 && rs[k][rs[k].len() - 2]
                    == "-j"@ && rs[k][rs[k].len() - 1] == "ACCEPT"@
        }),
{
    let rs = ipv6_script_rules(mode);
    lemma_script_text_lines(bin, rs);
    lemma_ipv6_script_rules_removable(mode);
    let ls = ipv6_script_lines(bin, rs);
    assert forall|k: int| 0 <= k < ls.len() implies #[trigger] ls[k] == bin + " -I OUTPUT "@ + decimal(
        (k + 1) as nat,
    ) + spaced(rs[k]) + " 2>/dev/null || true\n"@ && ipv6_output_rules_spec().contains(
        seq!["-D"@, "OUTPUT"@] + rs[k],
    ) by {
        assert(ipv6_output_rules_spec().contains(seq!["-D"@, "OUTPUT"@] + rs[k]));
    }
}

/// The IPv6 OUTPUT rules (as delete commands) that the kill switch may
/// have inserted.
pub open spec fn ipv6_output_rules_spec() -> Seq<Seq<Seq<char>>> {
    seq![
        seq!["-D"@, "OUTPUT"@, "-j"@, "DROP"@],
        seq!["-D"@, "OUTPUT"@, "-o"@, "lo"@, "-j"@, "ACCEPT"@],
        seq![
            "-D"@,
            "OUTPUT"@,
            "-m"@,
            "conntrack"@,
            "--ctstate"@,
            "ESTABLISHED,RELATED"@,
            "-j"@,
            "ACCEPT"@,
        ],
        seq!["-D"@, "OUTPUT"@, "-o"@, "tun+"@, "-j"@, "ACCEPT"@],
        seq!["-D"@, "OUTPUT"@, "-d"@, "fe80::/10"@, "-j"@, "ACCEPT"@],
    ]
}

/// The IPv6 OUTPUT rule patterns (as delete commands) that a robust
/// cleanup removes.
pub fn ipv6_output_rules() -> (r: Vec<Vec<String>>)
    ensures
        r@.map_values(|v: Vec<String>| views(v@)) == ipv6_output_rules_spec(),
{
    let mut r: Vec<Vec<String>> = Vec::new();
    r.push(strings_of(&["-D", "OUTPUT", "-j", "DROP"]));
    r.push(strings_of(&["-D", "OUTPUT", "-o", "lo", "-j", "ACCEPT"]));
    r.push(
        strings_of(
            &["-D", "OUTPUT", "-m", "conntrack", "--ctstate", "ESTABLISHED,RELATED", "-j", "ACCEPT"],
        ),
    );
    r.push(strings_of(&["-D", "OUTPUT", "-o", "tun+", "-j", "ACCEPT"]));
    r.push(strings_of(&["-D", "OUTPUT", "-d", "fe80::/10", "-j", "ACCEPT"]));
    proof {
        assert(r@.map_values(|v: Vec<String>| views(v@)) =~~= ipv6_output_rules_spec());
    }
    r
}

} // verus!
