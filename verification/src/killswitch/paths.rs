//! Where the firewall binaries are.
//!
//! The binaries are looked for at their usual places in order, then
//! through `which`, and default to `/usr/sbin/<name>`. Probing the file
//! system happens in the program, which caches the result; this module
//! decides from what the probes found.
use vstd::prelude::*;

use crate::host::path_exists;
use crate::ipc::opt_str_view;

verus! {

/// Usual places of iptables, in the order they are tried.
pub fn iptables_candidates() -> (r: [&'static str; 4])
    ensures
        r@ == seq!["/usr/bin/iptables", "/usr/sbin/iptables", "/bin/iptables", "/sbin/iptables"],
        all_absolute(r@),
{
    let r = ["/usr/bin/iptables", "/usr/sbin/iptables", "/bin/iptables", "/sbin/iptables"];
    proof {
        reveal_strlit("/usr/bin/iptables");
        reveal_strlit("/usr/sbin/iptables");
        reveal_strlit("/bin/iptables");
        reveal_strlit("/sbin/iptables");
        assert(r@ =~= seq!["/usr/bin/iptables", "/usr/sbin/iptables", "/bin/iptables", "/sbin/iptables"]);
        assert(absolute(r@[0]@) && absolute(r@[1]@) && absolute(r@[2]@) && absolute(r@[3]@));
    }
    r
}

/// Usual places of ip6tables, in the order they are tried.
pub fn ip6tables_candidates() -> (r: [&'static str; 4])
    ensures
        r@ == seq!["/usr/bin/ip6tables", "/usr/sbin/ip6tables", "/bin/ip6tables", "/sbin/ip6tables"],
        all_absolute(r@),
{
    let r = ["/usr/bin/ip6tables", "/usr/sbin/ip6tables", "/bin/ip6tables", "/sbin/ip6tables"];
    proof {
        reveal_strlit("/usr/bin/ip6tables");
        reveal_strlit("/usr/sbin/ip6tables");
        reveal_strlit("/bin/ip6tables");
        reveal_strlit("/sbin/ip6tables");
        assert(r@ =~= seq!["/usr/bin/ip6tables", "/usr/sbin/ip6tables", "/bin/ip6tables", "/sbin/ip6tables"]);
        assert(absolute(r@[0]@) && absolute(r@[1]@) && absolute(r@[2]@) && absolute(r@[3]@));
    }
    r
}

/// Usual places of nft, in the order they are tried.
pub fn nft_candidates() -> (r: [&'static str; 4])
    ensures
        r@ == seq!["/usr/bin/nft", "/usr/sbin/nft", "/bin/nft", "/sbin/nft"],
        all_absolute(r@),
{
    let r = ["/usr/bin/nft", "/usr/sbin/nft", "/bin/nft", "/sbin/nft"];
    proof {
        reveal_strlit("/usr/bin/nft");
        reveal_strlit("/usr/sbin/nft");
        reveal_strlit("/bin/nft");
        reveal_strlit("/sbin/nft");
        assert(r@ =~= seq!["/usr/bin/nft", "/usr/sbin/nft", "/bin/nft", "/sbin/nft"]);
        assert(absolute(r@[0]@) && absolute(r@[1]@) && absolute(r@[2]@) && absolute(r@[3]@));
    }
    r
}

/// Whether a path is absolute: it starts with `/`.
pub open spec fn absolute(p: Seq<char>) -> bool {
    p.len() > 0 && p[0] == '/'
}

/// Whether every path is absolute.
pub open spec fn all_absolute(ps: Seq<&str>) -> bool {
    forall|i: int| 0 <= i < ps.len() ==> absolute(#[trigger] ps[i]@)
}

/// Index of the first `true`, or the length.
pub open spec fn first_true(b: Seq<bool>) -> int
    decreases b.len(),
{
    if b.len() == 0 {
        0
    } else if b[0] {
        0
    } else {
        1 + first_true(b.subrange(1, b.len() as int))
    }
}

/// The chosen path: the first candidate that exists, else what `which`
/// found if it is an absolute path, else `/usr/sbin/<name>`.
pub open spec fn find_binary_spec(
    candidates: Seq<&str>,
    exists: Seq<bool>,
    which_found: Option<Seq<char>>,
    name: Seq<char>,
) -> Seq<char> {
    let i = first_true(exists);
    if i < exists.len() {
        candidates[i]@
    } else {
        match which_found {
            Some(p) => if absolute(p) {
                p
            } else {
                "/usr/sbin/"@ + name
            },
            None => "/usr/sbin/"@ + name,
        }
    }
}

proof fn lemma_first_true_at(b: Seq<bool>, k: int)
    requires
        0 <= k <= b.len(),
        forall|i: int| 0 <= i < k ==> !b[i],
        k == b.len() || b[k],
    ensures
        first_true(b) == k,
    decreases k,
{
    if k > 0 {
        let t = b.subrange(1, b.len() as int);
        assert forall|i: int| 0 <= i < k - 1 implies !t[i] by {
            assert(t[i] == b[i + 1]);
        }
        if k < b.len() {
            assert(t[k - 1] == b[k]);
        }
        lemma_first_true_at(t, k - 1);
    }
}

/// Chooses the path of a firewall binary. `exists[i]` tells whether
/// `candidates[i]` exists; `which_found` is the trimmed output of a
/// successful `which <name>` when that path exists.
pub fn find_binary(
    candidates: &[&str],
    exists: &[bool],
    which_found: Option<&str>,
    name: &str,
) -> (r: String)
    requires
        candidates@.len() == exists@.len(),
    ensures
        r@ == find_binary_spec(
            candidates@,
            exists@,
            match which_found {
                Some(p) => Some(p@),
                None => None,
            },
            name@,
        ),
{
    let n = exists.len();
    let mut i: usize = 0;
    while i < n && !exists[i]
        invariant
            i <= n,
            n == exists@.len(),
            forall|k: int| 0 <= k < i ==> !exists@[k],
        decreases n - i,
    {
        i = i + 1;
    }
    proof {
        lemma_first_true_at(exists@, i as int);
    }
    if i < n {
        return String::from_str(candidates[i]);
    }
    if let Some(p) = which_found {
        if p.unicode_len() > 0 && p.get_char(0) == '/' {
            return String::from_str(p);
        }
    }
    let mut s = String::from_str("/usr/sbin/");
    s.append(name);
    s
}

proof fn lemma_first_true_bounds(b: Seq<bool>)
    ensures
        0 <= first_true(b) <= b.len(),
        first_true(b) < b.len() ==> b[first_true(b)],
    decreases b.len(),
{
    if b.len() > 0 && !b[0] {
        let t = b.subrange(1, b.len() as int);
        lemma_first_true_bounds(t);
        if first_true(t) < t.len() {
            assert(t[first_true(t)] == b[first_true(t) + 1]);
        }
    }
}

/// Every path chosen is absolute when the candidates are.
pub proof fn lemma_found_path_absolute(
    candidates: Seq<&str>,
    exists: Seq<bool>,
    which_found: Option<Seq<char>>,
    name: Seq<char>,
)
    requires
        candidates.len() == exists.len(),
        all_absolute(candidates),
    ensures
        absolute(find_binary_spec(candidates, exists, which_found, name)),
{
    let i = first_true(exists);
    lemma_first_true_bounds(exists);
    if i < exists.len() {
        assert(absolute(candidates[i]@));
    } else if !(which_found matches Some(p) && absolute(p)) {
        reveal_strlit("/usr/sbin/");
        let p = "/usr/sbin/"@ + name;
        assert(p[0] == '/');
    }
}

/// Probes each candidate path, in order.
pub fn probe(candidates: &[&str]) -> (r: Vec<bool>)
    ensures
        r@.len() == candidates@.len(),
{
    let mut r: Vec<bool> = Vec::new();
    let mut i: usize = 0;
    while i < candidates.len()
        invariant
            i <= candidates@.len(),
            r@.len() == i,
        decreases candidates@.len() - i,
    {
        r.push(path_exists(candidates[i]));
        i = i + 1;
    }
    r
}

/// Probes the candidates and chooses a path as `find_binary` does.
pub fn locate(candidates: &[&str], which_found: Option<&str>, name: &str) -> (r: String)
    ensures
        located(r@, candidates@, which_found, name@),
        all_absolute(candidates@) ==> absolute(r@),
{
    let e = probe(candidates);
    let r = find_binary(candidates, &e, which_found, name);
    proof {
        if all_absolute(candidates@) {
            lemma_found_path_absolute(candidates@, e@, opt_str_view(which_found), name@);
        }
    }
    r
}

/// `path` is what `find_binary` chooses for some outcome of probing the
/// candidates.
pub open spec fn located(
    path: Seq<char>,
    candidates: Seq<&str>,
    which_found: Option<&str>,
    name: Seq<char>,
) -> bool {
    exists|e: Seq<bool>|
        e.len() == candidates.len() && path == #[trigger] find_binary_spec(
            candidates,
            e,
            opt_str_view(which_found),
            name,
        )
}

/// The iptables binary. `which_found` is the existing path that
/// `which iptables` printed, if any; it is used only when no usual place
/// holds the binary, and only if it is absolute. The result is always an
/// absolute path.
pub fn iptables_path(which_found: Option<&str>) -> (r: String)
    ensures
        located(r@, seq!["/usr/bin/iptables", "/usr/sbin/iptables", "/bin/iptables", "/sbin/iptables"], which_found, "iptables"@),
        absolute(r@),
{
    let c = iptables_candidates();
    locate(&c, which_found, "iptables")
}

/// The ip6tables binary, found as `iptables_path` finds its own.
pub fn ip6tables_path(which_found: Option<&str>) -> (r: String)
    ensures
        located(r@, seq!["/usr/bin/ip6tables", "/usr/sbin/ip6tables", "/bin/ip6tables", "/sbin/ip6tables"], which_found, "ip6tables"@),
        absolute(r@),
{
    let c = ip6tables_candidates();
    locate(&c, which_found, "ip6tables")
}

/// The nft binary, found as `iptables_path` finds its own.
pub fn nft_path(which_found: Option<&str>) -> (r: String)
    ensures
        located(r@, seq!["/usr/bin/nft", "/usr/sbin/nft", "/bin/nft", "/sbin/nft"], which_found, "nft"@),
        absolute(r@),
{
    let c = nft_candidates();
    locate(&c, which_found, "nft")
}

/// The iptables binary as text, for building commands.
pub fn iptables(which_found: Option<&str>) -> (r: String)
    ensures
        located(r@, seq!["/usr/bin/iptables", "/usr/sbin/iptables", "/bin/iptables", "/sbin/iptables"], which_found, "iptables"@),
        absolute(r@),
{
    iptables_path(which_found)
}

/// The ip6tables binary as text, for building commands.
pub fn ip6tables(which_found: Option<&str>) -> (r: String)
    ensures
        located(r@, seq!["/usr/bin/ip6tables", "/usr/sbin/ip6tables", "/bin/ip6tables", "/sbin/ip6tables"], which_found, "ip6tables"@),
        absolute(r@),
{
    ip6tables_path(which_found)
}

/// The nft binary as text, for building commands.
pub fn nft(which_found: Option<&str>) -> (r: String)
    ensures
        located(r@, seq!["/usr/bin/nft", "/usr/sbin/nft", "/bin/nft", "/sbin/nft"], which_found, "nft"@),
        absolute(r@),
{
    nft_path(which_found)
}

} // verus!
