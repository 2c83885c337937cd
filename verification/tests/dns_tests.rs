use rnet_core::dns::{order_candidates, resolution_result, LookupIpStrategy, ResolverOptions};
use rnet_core::error::Error;
use rnet_core::http::{IpAddr, SocketAddr};

#[test]
fn static_override_answers_matching_domain() {
    let mut opts = ResolverOptions::new(LookupIpStrategy::Ipv4AndIpv6);
    opts.add_resolve("example.test".to_string(), vec![IpAddr::V4(10, 0, 0, 1)]);
    opts.add_resolve("other.test".to_string(), vec![IpAddr::V4(10, 0, 0, 2)]);
    let addrs = opts.static_lookup("example.test").unwrap();
    assert_eq!(addrs.len(), 1);
    assert_eq!(addrs[0].port, 0);
    match &addrs[0].ip {
        IpAddr::V4(a, b, c, d) => assert_eq!((*a, *b, *c, *d), (10, 0, 0, 1)),
        _ => panic!("expected an IPv4 override"),
    }
}

#[test]
fn first_matching_override_wins() {
    let mut opts = ResolverOptions::new(LookupIpStrategy::Ipv4Only);
    opts.add_resolve("dup.test".to_string(), vec![IpAddr::V4(1, 1, 1, 1)]);
    opts.add_resolve("dup.test".to_string(), vec![IpAddr::V4(2, 2, 2, 2)]);
    let addrs = opts.static_lookup("dup.test").unwrap();
    match &addrs[0].ip {
        IpAddr::V4(a, _, _, _) => assert_eq!(*a, 1),
        _ => panic!("expected an IPv4 override"),
    }
}

#[test]
fn unmatched_domain_goes_to_live_resolution() {
    let opts = ResolverOptions::new(LookupIpStrategy::Ipv6thenIpv4);
    assert!(opts.static_lookup("nowhere.test").is_none());
    assert_eq!(opts.lookup_ip_strategy, LookupIpStrategy::Ipv6thenIpv4);
}

#[test]
fn failed_resolution_is_the_dns_error() {
    let r = resolution_result(None);
    assert!(matches!(r, Err(Error::Dns)));
}

#[test]
fn successful_resolution_passes_addresses_through() {
    let addrs = vec![SocketAddr { ip: IpAddr::V4(127, 0, 0, 1), port: 0 }];
    let r = resolution_result(Some(addrs)).unwrap();
    assert_eq!(r.len(), 1);
}

#[test]
fn error_labels_distinguish_the_taxonomy() {
    assert_eq!(Error::Config.label(), "configuration error");
    assert_eq!(Error::Transport.label(), "transport error");
    assert_eq!(Error::Dns.label(), "dns error");
    assert_eq!(Error::RedirectLimit.label(), "redirect limit exceeded");
    assert_eq!(Error::Decode.label(), "decode error");
    assert_eq!(Error::BodyConsumed.label(), "body already consumed");
    assert_eq!(Error::Timeout.label(), "operation timed out");
    assert_eq!(Error::Disconnected.label(), "websocket disconnected");
}

fn v4_addr(last: u8) -> SocketAddr {
    SocketAddr { ip: IpAddr::V4(10, 0, 0, last), port: 0 }
}

fn v6_addr(last: u8) -> SocketAddr {
    let mut octets = vec![0u8; 16];
    octets[15] = last;
    SocketAddr { ip: IpAddr::V6(octets), port: 0 }
}

fn lasts(addrs: &[SocketAddr]) -> Vec<(bool, u8)> {
    addrs
        .iter()
        .map(|a| match &a.ip {
            IpAddr::V4(_, _, _, d) => (false, *d),
            IpAddr::V6(o) => (true, o[15]),
        })
        .collect()
}

#[test]
fn ordering_honours_each_strategy() {
    let v4 = || vec![v4_addr(1), v4_addr(2)];
    let v6 = || vec![v6_addr(1), v6_addr(2), v6_addr(3)];

    let only4 = order_candidates(LookupIpStrategy::Ipv4Only, v4(), v6());
    assert_eq!(lasts(&only4), vec![(false, 1), (false, 2)]);

    let only6 = order_candidates(LookupIpStrategy::Ipv6Only, v4(), v6());
    assert_eq!(lasts(&only6), vec![(true, 1), (true, 2), (true, 3)]);

    let four_six = order_candidates(LookupIpStrategy::Ipv4thenIpv6, v4(), v6());
    assert_eq!(
        lasts(&four_six),
        vec![(false, 1), (false, 2), (true, 1), (true, 2), (true, 3)]
    );

    let six_four = order_candidates(LookupIpStrategy::Ipv6thenIpv4, v4(), v6());
    assert_eq!(
        lasts(&six_four),
        vec![(true, 1), (true, 2), (true, 3), (false, 1), (false, 2)]
    );

    // The combined strategy races both families: interleaved, IPv6 leading.
    let both = order_candidates(LookupIpStrategy::Ipv4AndIpv6, v4(), v6());
    assert_eq!(
        lasts(&both),
        vec![(true, 1), (false, 1), (true, 2), (false, 2), (true, 3)]
    );
}
