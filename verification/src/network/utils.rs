//! Telling physical adapters from virtual, tunnel, loopback and
//! point-to-point interfaces.

use crate::text::starts_with;
use vstd::prelude::*;

verus! {

/// The flags of one interface address that the classifier reads.
pub struct LinkFlags {
    pub name: String,
    pub loopback: bool,
    pub point_to_point: bool,
}

/// A `LinkFlags` as plain values.
pub struct LinkView {
    pub name: Seq<char>,
    pub loopback: bool,
    pub point_to_point: bool,
}

impl DeepView for LinkFlags {
    type V = LinkView;

    open spec fn deep_view(&self) -> LinkView {
        LinkView { name: self.name@, loopback: self.loopback, point_to_point: self.point_to_point }
    }
}

/// The name prefixes of interfaces that are never physical adapters:
/// container bridges and pairs, bridges, virtual-machine adapters, tunnels,
/// WireGuard, bonds and dummies.
pub open spec fn denied_prefixes() -> Seq<Seq<char>> {
    seq![
        "docker"@,
        "veth"@,
        "br-"@,
        "virbr"@,
        "tun"@,
        "vmnet"@,
        "vboxnet"@,
        "wg"@,
        "bond"@,
        "dummy"@,
    ]
}

/// Whether `name` begins with one of the denied prefixes.
pub open spec fn has_denied_prefix(name: Seq<char>) -> bool {
    exists|i: int|
        0 <= i < denied_prefixes().len() && (#[trigger] denied_prefixes()[i]).is_prefix_of(name)
}

/// Whether the name `pre` passes the prefix filter: it begins with none of
/// the denied prefixes.
pub fn prefixes(pre: &str) -> (allowed: bool)
    ensures
        allowed == !has_denied_prefix(pre@),
{
    let denied = starts_with(pre, "docker") || starts_with(pre, "veth") || starts_with(pre, "br-")
        || starts_with(pre, "virbr") || starts_with(pre, "tun") || starts_with(pre, "vmnet")
        || starts_with(pre, "vboxnet") || starts_with(pre, "wg") || starts_with(pre, "bond")
        || starts_with(pre, "dummy");
    proof {
        let all = denied_prefixes();
        assert(all[0] == "docker"@ && all[1] == "veth"@ && all[2] == "br-"@ && all[3] == "virbr"@
            && all[4] == "tun"@);
        assert(all[5] == "vmnet"@ && all[6] == "vboxnet"@ && all[7] == "wg"@ && all[8] == "bond"@
            && all[9] == "dummy"@);
    }
    !denied
}

/// The first of `links` that belongs to the interface `name`.
pub open spec fn first_link(name: Seq<char>, links: Seq<LinkView>) -> Option<LinkView>
    decreases links.len(),
{
    if links.len() == 0 {
        None
    } else if links.first().name == name {
        Some(links.first())
    } else {
        first_link(name, links.drop_first())
    }
}

/// Whether the interface `name` is a physical adapter, given the flags that
/// the system reports; `None` stands for a query that failed.
///
/// A denied prefix decides at once. Else the flags of the first address of
/// that name decide: loopback and point-to-point links are not physical. An
/// interface of which nothing is known passes.
pub open spec fn physical_like(name: Seq<char>, links: Option<Seq<LinkView>>) -> bool {
    &&& !has_denied_prefix(name)
    &&& match links {
        Some(known) => match first_link(name, known) {
            Some(link) => !link.loopback && !link.point_to_point,
            None => true,
        },
        None => true,
    }
}

/// A name with a denied prefix is never physical, whatever the system
/// reports of it.
pub proof fn lemma_denied_prefix_is_never_physical(name: Seq<char>, links: Option<Seq<LinkView>>)
    requires
        has_denied_prefix(name),
    ensures
        !physical_like(name, links),
{
}

/// A name without a denied prefix is physical when the system could not be
/// asked, when it knows no address of that name, and when the first address
/// of that name is neither loopback nor point-to-point.
pub proof fn lemma_unflagged_adapter_is_physical(name: Seq<char>, links: Option<Seq<LinkView>>)
    requires
        !has_denied_prefix(name),
        links matches Some(known) ==> (first_link(name, known) matches Some(link)
            ==> !link.loopback && !link.point_to_point),
    ensures
        physical_like(name, links),
{
}

/// `first_link` finds the address of that name at the lowest position.
pub proof fn lemma_first_link_found(name: Seq<char>, links: Seq<LinkView>, i: int)
    requires
        0 <= i < links.len(),
        links[i].name == name,
        forall|j: int| 0 <= j < i ==> (#[trigger] links[j]).name != name,
    ensures
        first_link(name, links) == Some(links[i]),
    decreases links.len(),
{
    if i > 0 {
        let rest = links.drop_first();
        assert forall|j: int| 0 <= j < i - 1 implies (#[trigger] rest[j]).name != name by {
            assert(rest[j] == links[j + 1]);
        }
        lemma_first_link_found(name, rest, i - 1);
    }
}

/// `first_link` finds nothing exactly when no address has that name.
pub proof fn lemma_first_link_none(name: Seq<char>, links: Seq<LinkView>)
    ensures
        first_link(name, links) is None <==> forall|i: int|
            0 <= i < links.len() ==> (#[trigger] links[i]).name != name,
    decreases links.len(),
{
    if links.len() > 0 {
        let rest = links.drop_first();
        lemma_first_link_none(name, rest);
        if links[0].name != name && first_link(name, rest) is None {
            assert forall|i: int| 0 <= i < links.len() implies (#[trigger] links[i]).name
                != name by {
                if i > 0 {
                    assert(rest[i - 1] == links[i]);
                }
            }
        }
    }
}

/// Whether the interface `name` is a physical adapter, given the flags that
/// the system reported (`None`: it could not be asked).
pub fn is_phy_among(name: &str, links: &Option<Vec<LinkFlags>>) -> (physical: bool)
    ensures
        physical == physical_like(
            name@,
            match links {
                Some(known) => Some(known.deep_view()),
                None => None,
            },
        ),
{
    if !prefixes(name) {
        return false;
    }
    match links {
        None => true,
        Some(known) => {
            let wanted: String = name.to_owned();
            let ghost all = known.deep_view();
            let mut i: usize = 0;
            assert(all.skip(0) =~= all);
            while i < known.len()
                invariant
                    i <= known.len(),
                    all == known.deep_view(),
                    wanted@ == name@,
                    !has_denied_prefix(name@),
                    *links == Some(*known),
                    first_link(name@, all) == first_link(name@, all.skip(i as int)),
                decreases known.len() - i,
            {
                let ghost rest = all.skip(i as int);
                assert(rest.drop_first() =~= all.skip(i + 1));
                if known[i].name == wanted {
                    return !known[i].loopback && !known[i].point_to_point;
                }
                i = i + 1;
            }
            true
        },
    }
}

/// Asks the system for the flags of every interface address, through
/// `nix::ifaddrs::getifaddrs`. Each address comes with the name of its
/// interface and with whether `IFF_LOOPBACK` and `IFF_POINTOPOINT` are set
/// on it; `None` when the system call fails. Nothing is claimed of what the
/// system answers.
#[verifier::external_body]
fn link_flags() -> (links: Option<Vec<LinkFlags>>) {
    match nix::ifaddrs::getifaddrs() {
        Ok(addresses) => Some(
            addresses.map(
                |a| LinkFlags {
                    name: a.interface_name,
                    loopback: a.flags.contains(nix::net::if_::InterfaceFlags::IFF_LOOPBACK),
                    point_to_point: a.flags.contains(
                        nix::net::if_::InterfaceFlags::IFF_POINTOPOINT,
                    ),
                },
            ).collect(),
        ),
        Err(_) => None,
    }
}

/// Whether the interface `name` is a physical adapter.
///
/// A name with a denied prefix is rejected without asking the system. For
/// any other name the system's flags decide, as `is_phy_among` says; a
/// failed query, or a name that the system does not know, lets it pass.
pub fn is_phy(name: &str) -> (physical: bool)
    ensures
        has_denied_prefix(name@) ==> !physical,
        exists|links: Option<Seq<LinkView>>| physical == #[trigger] physical_like(name@, links),
{
    if !prefixes(name) {
        assert(!physical_like(name@, None));
        return false;
    }
    let links = link_flags();
    is_phy_among(name, &links)
}

} // verus!
