use hostmon::network::utils::{is_phy, is_phy_among, prefixes, LinkFlags};

fn link(name: &str, loopback: bool, point_to_point: bool) -> LinkFlags {
    LinkFlags { name: name.to_string(), loopback, point_to_point }
}

#[test]
fn denied_prefixes_are_rejected() {
    assert!(!is_phy("docker0"));
    assert!(!is_phy("veth123"));
    assert!(!is_phy("br-abc"));
}

#[test]
fn loopback_is_rejected_by_its_flag() {
    let links = Some(vec![link("lo", true, false), link("eth0", false, false)]);
    assert!(!is_phy_among("lo", &links));
}

#[test]
fn plain_adapter_without_special_flags_is_physical() {
    let links = Some(vec![link("lo", true, false), link("enp3s0", false, false)]);
    assert!(is_phy_among("enp3s0", &links));
    assert!(is_phy_among("eth0", &links));
    assert!(is_phy_among("wlan0", &Some(Vec::new())));
}

#[test]
fn every_denied_prefix_fails_the_prefix_filter() {
    for name in [
        "docker0", "veth9f3a", "br-1a2b", "virbr0", "tun0", "vmnet8", "vboxnet0", "wg0", "bond0",
        "dummy0", "docker", "wg", "tunnel",
    ] {
        assert!(!prefixes(name), "{}", name);
        assert!(!is_phy_among(name, &None), "{}", name);
        assert!(!is_phy_among(name, &Some(vec![link(name, false, false)])), "{}", name);
    }
}

#[test]
fn other_names_pass_the_prefix_filter() {
    for name in ["eth0", "enp3s0", "wlan0", "lo", "ppp0", "", "br0", "mydocker0", "Docker0", "w", "tu"] {
        assert!(prefixes(name), "{}", name);
    }
}

#[test]
fn point_to_point_link_is_rejected() {
    let links = Some(vec![link("ppp0", false, true)]);
    assert!(!is_phy_among("ppp0", &links));
    let both = Some(vec![link("x0", true, true)]);
    assert!(!is_phy_among("x0", &both));
}

#[test]
fn failed_query_lets_the_name_pass() {
    assert!(is_phy_among("lo", &None));
    assert!(is_phy_among("eth0", &None));
}

#[test]
fn unknown_name_lets_the_name_pass() {
    let links = Some(vec![link("lo", true, false)]);
    assert!(is_phy_among("eth7", &links));
}

#[test]
fn first_address_of_the_name_decides() {
    let links = Some(vec![
        link("lo", true, false),
        link("eth0", false, false),
        link("eth0", true, false),
    ]);
    assert!(is_phy_among("eth0", &links));
    let links = Some(vec![link("eth0", false, true), link("eth0", false, false)]);
    assert!(!is_phy_among("eth0", &links));
}

#[test]
fn name_that_the_system_does_not_know_is_physical() {
    assert!(is_phy("zz-no-such-adapter-0"));
}

#[test]
fn interfaces_of_this_host_are_classified_by_their_flags() {
    let Ok(addresses) = nix::ifaddrs::getifaddrs() else {
        return;
    };
    let addresses: Vec<_> = addresses.collect();
    for address in &addresses {
        let name = address.interface_name.as_str();
        let first = addresses.iter().find(|a| a.interface_name == name).unwrap();
        let flagged = first.flags.contains(nix::net::if_::InterfaceFlags::IFF_LOOPBACK)
            || first.flags.contains(nix::net::if_::InterfaceFlags::IFF_POINTOPOINT);
        assert_eq!(is_phy(name), prefixes(name) && !flagged, "{}", name);
    }
}

#[test]
fn loopback_of_this_host_is_not_physical() {
    let Ok(addresses) = nix::ifaddrs::getifaddrs() else {
        return;
    };
    for address in addresses {
        if address.flags.contains(nix::net::if_::InterfaceFlags::IFF_LOOPBACK) {
            assert!(!is_phy(&address.interface_name), "{}", address.interface_name);
        }
    }
}
