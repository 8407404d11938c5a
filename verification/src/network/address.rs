//! Picking the address that is shown for an interface.

use crate::text::contains_char;
use vstd::prelude::*;

verus! {

/// What is shown for an interface that has no IPv4 address.
pub open spec fn no_ipv4() -> Seq<char> {
    "No IPv4"@
}

/// Whether the text of an address looks like IPv4: it holds a dot.
pub open spec fn is_dotted(address: Seq<char>) -> bool {
    address.contains('.')
}

/// The first address, in order, whose text holds a dot; the marker of
/// `no_ipv4` where there is none.
pub open spec fn primary_ipv4(addresses: Seq<Seq<char>>) -> Seq<char>
    decreases addresses.len(),
{
    if addresses.len() == 0 {
        no_ipv4()
    } else if is_dotted(addresses.first()) {
        addresses.first()
    } else {
        primary_ipv4(addresses.drop_first())
    }
}

/// `primary_ipv4` picks the dotted address at the lowest position.
pub proof fn lemma_primary_ipv4_found(addresses: Seq<Seq<char>>, i: int)
    requires
        0 <= i < addresses.len(),
        is_dotted(addresses[i]),
        forall|j: int| 0 <= j < i ==> !is_dotted(#[trigger] addresses[j]),
    ensures
        primary_ipv4(addresses) == addresses[i],
    decreases addresses.len(),
{
    if i > 0 {
        let rest = addresses.drop_first();
        assert(!is_dotted(addresses[0]));
        assert forall|j: int| 0 <= j < i - 1 implies !is_dotted(#[trigger] rest[j]) by {
            assert(rest[j] == addresses[j + 1]);
        }
        lemma_primary_ipv4_found(rest, i - 1);
    }
}

/// `primary_ipv4` falls back to the marker where no address is dotted.
pub proof fn lemma_primary_ipv4_none(addresses: Seq<Seq<char>>)
    requires
        forall|i: int| 0 <= i < addresses.len() ==> !is_dotted(#[trigger] addresses[i]),
    ensures
        primary_ipv4(addresses) == no_ipv4(),
    decreases addresses.len(),
{
    if addresses.len() > 0 {
        let rest = addresses.drop_first();
        assert(!is_dotted(addresses[0]));
        assert forall|i: int| 0 <= i < rest.len() implies !is_dotted(#[trigger] rest[i]) by {
            assert(rest[i] == addresses[i + 1]);
        }
        lemma_primary_ipv4_none(rest);
    }
}

/// The address to show for an interface whose addresses read `addresses`.
pub fn get_ipv4(addresses: &Vec<String>) -> (shown: String)
    ensures
        shown@ == primary_ipv4(addresses.deep_view()),
{
    let ghost all = addresses.deep_view();
    let mut i: usize = 0;
    assert(all.skip(0) =~= all);
    while i < addresses.len()
        invariant
            i <= addresses.len(),
            all == addresses.deep_view(),
            primary_ipv4(all) == primary_ipv4(all.skip(i as int)),
        decreases addresses.len() - i,
    {
        let ghost rest = all.skip(i as int);
        assert(rest.drop_first() =~= all.skip(i + 1));
        if contains_char(addresses[i].as_str(), '.') {
            return addresses[i].clone();
        }
        i = i + 1;
    }
    "No IPv4".to_owned()
}

} // verus!
