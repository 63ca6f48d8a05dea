//! Choosing the IPv6 address to publish from the interfaces the system reports.
use vstd::prelude::*;

verus! {

/// The family of an address bound to an interface.
#[derive(Clone, Copy, Debug, PartialEq, Eq, Structural)]
pub enum Family {
    V4,
    V6,
}

/// An address bound to an interface, held as its family and canonical text.
#[derive(Clone, Debug)]
pub struct BoundAddress {
    pub family: Family,
    pub text: String,
}

/// A network interface: its name and its bound addresses, in the order the
/// system lists them.
#[derive(Clone, Debug)]
pub struct Interface {
    pub name: String,
    pub addrs: Vec<BoundAddress>,
}

/// Why no address could be chosen in a cycle.
#[derive(Clone, Copy, Debug, PartialEq, Eq, Structural)]
pub enum ResolveError {
    /// No interface name starts with the configured prefix.
    NoMatchingInterface,
    /// The chosen interface has no IPv6 address bound.
    NoIpv6Address,
}

/// `prefix` is a prefix of `name`.
pub open spec fn has_prefix(name: Seq<char>, prefix: Seq<char>) -> bool {
    prefix.len() <= name.len() && name.subrange(0, prefix.len() as int) == prefix
}

/// Interface `i` is the first in `ifaces` whose name starts with `prefix`.
pub open spec fn is_first_match(ifaces: Seq<Interface>, prefix: Seq<char>, i: int) -> bool {
    &&& 0 <= i < ifaces.len()
    &&& has_prefix(ifaces[i].name@, prefix)
    &&& forall|j: int| 0 <= j < i ==> !has_prefix(#[trigger] ifaces[j].name@, prefix)
}

/// Address `j` is the first IPv6 address in `addrs`.
pub open spec fn is_first_v6(addrs: Seq<BoundAddress>, j: int) -> bool {
    &&& 0 <= j < addrs.len()
    &&& addrs[j].family == Family::V6
    &&& forall|k: int| 0 <= k < j ==> (#[trigger] addrs[k]).family != Family::V6
}

/// The first IPv6 address in `addrs`, if there is one.
pub open spec fn first_v6_spec(addrs: Seq<BoundAddress>) -> Option<Seq<char>> {
    if exists|j: int| is_first_v6(addrs, j) {
        Some(addrs[choose|j: int| is_first_v6(addrs, j)].text@)
    } else {
        None
    }
}

/// The address to publish: the first IPv6 address of the first interface
/// whose name starts with `prefix`.
pub open spec fn resolve_spec(ifaces: Seq<Interface>, prefix: Seq<char>) -> Result<
    Seq<char>,
    ResolveError,
> {
    if exists|i: int| is_first_match(ifaces, prefix, i) {
        let i = choose|i: int| is_first_match(ifaces, prefix, i);
        match first_v6_spec(ifaces[i].addrs@) {
            Some(a) => Ok(a),
            None => Err(ResolveError::NoIpv6Address),
        }
    } else {
        Err(ResolveError::NoMatchingInterface)
    }
}

/// There is one first match at most.
pub proof fn lemma_first_match_unique(ifaces: Seq<Interface>, prefix: Seq<char>, i: int, k: int)
    requires
        is_first_match(ifaces, prefix, i),
        is_first_match(ifaces, prefix, k),
    ensures
        i == k,
{
    if i < k {
        assert(!has_prefix(ifaces[i].name@, prefix));
    } else if k < i {
        assert(!has_prefix(ifaces[k].name@, prefix));
    }
}

/// There is one first IPv6 address at most.
pub proof fn lemma_first_v6_unique(addrs: Seq<BoundAddress>, j: int, k: int)
    requires
        is_first_v6(addrs, j),
        is_first_v6(addrs, k),
    ensures
        j == k,
{
    if j < k {
        assert(addrs[j].family != Family::V6);
    } else if k < j {
        assert(addrs[k].family != Family::V6);
    }
}

/// Where the chosen interface has an IPv4 address followed by two IPv6
/// addresses, the first of the two is the address to publish: never the IPv4
/// address, never the later one.
pub proof fn lemma_first_ipv6_chosen(
    ifaces: Seq<Interface>,
    prefix: Seq<char>,
    i: int,
    a: BoundAddress,
    b: BoundAddress,
    c: BoundAddress,
)
    requires
        is_first_match(ifaces, prefix, i),
        ifaces[i].addrs@ == seq![a, b, c],
        a.family == Family::V4,
        b.family == Family::V6,
        c.family == Family::V6,
    ensures
        resolve_spec(ifaces, prefix) == Ok::<Seq<char>, ResolveError>(b.text@),
{
    let k = choose|k: int| is_first_match(ifaces, prefix, k);
    lemma_first_match_unique(ifaces, prefix, i, k);
    let s = seq![a, b, c];
    assert(is_first_v6(s, 1));
    let j = choose|j: int| is_first_v6(s, j);
    lemma_first_v6_unique(s, 1, j);
}

/// Relies on `str::starts_with` with a `&str` pattern: true exactly when
/// `prefix` is a prefix of `s`.
#[verifier::external_body]
fn starts_with(s: &str, prefix: &str) -> (r: bool)
    ensures
        r == has_prefix(s@, prefix@),
{
    s.starts_with(prefix)
}

/// The index of the first interface whose name starts with `prefix`.
pub fn first_matching_interface(ifaces: &Vec<Interface>, prefix: &str) -> (r: Option<usize>)
    ensures
        match r {
            Some(i) => is_first_match(ifaces@, prefix@, i as int),
            None => forall|i: int|
                0 <= i < ifaces@.len() ==> !has_prefix(#[trigger] ifaces@[i].name@, prefix@),
        },
{
    let mut i: usize = 0;
    while i < ifaces.len()
        invariant
            i <= ifaces@.len(),
            forall|j: int| 0 <= j < i ==> !has_prefix(#[trigger] ifaces@[j].name@, prefix@),
        decreases ifaces@.len() - i,
    {
        if starts_with(ifaces[i].name.as_str(), prefix) {
            return Some(i);
        }
        i = i + 1;
    }
    None
}

/// The index of the first IPv6 address in `addrs`.
pub fn first_ipv6(addrs: &Vec<BoundAddress>) -> (r: Option<usize>)
    ensures
        match r {
            Some(j) => is_first_v6(addrs@, j as int),
            None => forall|j: int| 0 <= j < addrs@.len() ==> (#[trigger] addrs@[j]).family != Family::V6,
        },
{
    let mut j: usize = 0;
    while j < addrs.len()
        invariant
            j <= addrs@.len(),
            forall|k: int| 0 <= k < j ==> (#[trigger] addrs@[k]).family != Family::V6,
        decreases addrs@.len() - j,
    {
        if addrs[j].family == Family::V6 {
            return Some(j);
        }
        j = j + 1;
    }
    None
}

/// The address to publish: the text of the first IPv6 address of the first
/// interface whose name starts with `prefix`.
pub fn resolve(ifaces: &Vec<Interface>, prefix: &str) -> (r: Result<String, ResolveError>)
    ensures
        match r {
            Ok(a) => resolve_spec(ifaces@, prefix@) == Ok::<Seq<char>, ResolveError>(a@),
            Err(e) => resolve_spec(ifaces@, prefix@) == Err::<Seq<char>, ResolveError>(e),
        },
{
    match first_matching_interface(ifaces, prefix) {
        None => {
            assert forall|i: int| !is_first_match(ifaces@, prefix@, i) by {
                if 0 <= i < ifaces@.len() {
                    assert(!has_prefix(ifaces@[i].name@, prefix@));
                }
            }
            Err(ResolveError::NoMatchingInterface)
        },
        Some(i) => {
            let iface = &ifaces[i];
            proof {
                let k = choose|k: int| is_first_match(ifaces@, prefix@, k);
                lemma_first_match_unique(ifaces@, prefix@, i as int, k);
            }
            match first_ipv6(&iface.addrs) {
                None => {
                    assert forall|j: int| !is_first_v6(iface.addrs@, j) by {
                        if 0 <= j < iface.addrs@.len() {
                            assert(iface.addrs@[j].family != Family::V6);
                        }
                    }
                    Err(ResolveError::NoIpv6Address)
                },
                Some(j) => {
                    proof {
                        let k = choose|k: int| is_first_v6(iface.addrs@, k);
                        lemma_first_v6_unique(iface.addrs@, j as int, k);
                    }
                    Ok(iface.addrs[j].text.clone())
                },
            }
        },
    }
}

} // verus!
