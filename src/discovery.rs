use vstd::prelude::*;

use crate::text::{decimal, push_char, push_decimal, str_eq};

verus! {

/// The number of dots in `s`.
pub open spec fn count_dots(s: Seq<char>) -> nat
    decreases s.len(),
{
    if s.len() == 0 {
        0
    } else {
        count_dots(s.drop_last()) + if s.last() == '.' { 1nat } else { 0nat }
    }
}

/// `s` up to and including its last dot; empty where it has none.
pub open spec fn through_last_dot(s: Seq<char>) -> Seq<char>
    decreases s.len(),
{
    if s.len() == 0 {
        s
    } else if s.last() == '.' {
        s
    } else {
        through_last_dot(s.drop_last())
    }
}

/// The address of host `k` on the /24 network of the dotted-quad `ip`.
pub open spec fn host_address(ip: Seq<char>, k: nat) -> Seq<char> {
    through_last_dot(ip) + decimal(k)
}

/// The addresses a discovery round probes: hosts 1 to 254 of the local
/// network, without this node's own address; none where `ip` does not have
/// four dot-separated parts.
pub open spec fn discovery_targets(ip: Seq<char>) -> Seq<Seq<char>> {
    if count_dots(ip) == 3 {
        Seq::new(254, |k: int| host_address(ip, (k + 1) as nat)).filter(|t: Seq<char>| t != ip)
    } else {
        Seq::empty()
    }
}

/// `ip` up to and including its last dot, where it has exactly three dots.
fn subnet_prefix(ip: &str) -> (r: Option<String>)
    ensures
        match r {
            Some(p) => count_dots(ip@) == 3 && p@ == through_last_dot(ip@),
            None => count_dots(ip@) != 3,
        },
{
    let mut cur = String::new();
    let mut prefix = String::new();
    let mut dots: usize = 0;
    for c in it: ip.chars()
        invariant
            it.seq() == ip@,
            cur@ == ip@.subrange(0, it.index() as int),
            prefix@ == through_last_dot(cur@),
            dots as nat == if count_dots(cur@) < 4 { count_dots(cur@) } else { 4 },
    {
        let ghost before = cur@;
        push_char(&mut cur, c);
        proof {
            assert(cur@.drop_last() =~= before);
            assert(ip@.subrange(0, it.index() + 1) =~= before.push(c));
        }
        if c == '.' {
            prefix = cur.clone();
            if dots < 4 {
                dots = dots + 1;
            }
        }
    }
    assert(cur@ =~= ip@);
    if dots == 3 {
        Some(prefix)
    } else {
        None
    }
}

/// The addresses a discovery round probes from the node at `ip`.
pub fn discovery_target_ips(ip: &str) -> (r: Vec<String>)
    ensures
        r@.map_values(|t: String| t@) == discovery_targets(ip@),
{
    let mut r: Vec<String> = Vec::new();
    match subnet_prefix(ip) {
        None => {
            assert(r@.map_values(|t: String| t@) =~= Seq::<Seq<char>>::empty());
            r
        },
        Some(prefix) => {
            let ghost f = |k: int| host_address(ip@, (k + 1) as nat);
            let ghost p = |t: Seq<char>| t != ip@;
            let mut k: u64 = 1;
            while k < 255
                invariant
                    1 <= k <= 255,
                    prefix@ == through_last_dot(ip@),
                    f == (|k: int| host_address(ip@, (k + 1) as nat)),
                    p == (|t: Seq<char>| t != ip@),
                    r@.map_values(|t: String| t@) == Seq::new((k - 1) as nat, f).filter(p),
                decreases 255 - k,
            {
                let mut t = prefix.clone();
                push_decimal(&mut t, k);
                proof {
                    assert(Seq::new(k as nat, f).drop_last() =~= Seq::new((k - 1) as nat, f));
                    assert(Seq::new(k as nat, f).last() == t@);
                    reveal(Seq::filter);
                }
                let ghost before = r@;
                if !str_eq(t.as_str(), ip) {
                    r.push(t);
                    assert(r@.map_values(|t: String| t@) =~= before.map_values(|t: String| t@).push(
                        r@.last()@,
                    ));
                }
                k = k + 1;
            }
            assert(Seq::new(254, f) =~= Seq::new((k - 1) as nat, f));
            r
        },
    }
}

} // verus!
