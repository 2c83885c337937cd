use rnet_core::config::RedirectPolicy;
use rnet_core::error::Error;
use rnet_core::http::StatusCode;
use rnet_core::redirect::{follow_redirects, RedirectHop};

fn redirect_hop(target: &str) -> RedirectHop {
    RedirectHop {
        status: StatusCode(302),
        url: format!("http://x.test{}", target),
        location: Some(target.to_string()),
        headers: Vec::new(),
    }
}

fn final_hop() -> RedirectHop {
    RedirectHop {
        status: StatusCode(200),
        url: "http://x.test/final".to_string(),
        location: None,
        headers: Vec::new(),
    }
}

#[test]
fn five_redirects_under_cap_three_fail_with_limit_and_three_hops() {
    // A client capped at three redirects walking a chain that redirects
    // five times: the walk fails with the redirect-limit error and the
    // history holds exactly the three hops that were followed.
    let chain = vec![
        redirect_hop("/a"),
        redirect_hop("/b"),
        redirect_hop("/c"),
        redirect_hop("/d"),
        redirect_hop("/e"),
        final_hop(),
    ];
    let (result, history) = follow_redirects(RedirectPolicy::Limited(3), &chain);
    assert!(matches!(result, Err(Error::RedirectLimit)));
    assert_eq!(history, vec![0, 1, 2]);
}

#[test]
fn two_redirects_under_cap_three_succeed() {
    let chain = vec![redirect_hop("/a"), redirect_hop("/b"), final_hop()];
    let (result, history) = follow_redirects(RedirectPolicy::Limited(3), &chain);
    assert_eq!(result.unwrap(), 2);
    assert_eq!(history, vec![0, 1]);
}

#[test]
fn no_follow_returns_first_response_unfollowed() {
    let chain = vec![redirect_hop("/a"), final_hop()];
    let (result, history) = follow_redirects(RedirectPolicy::NoFollow, &chain);
    assert_eq!(result.unwrap(), 0);
    assert!(history.is_empty());
}

#[test]
fn unlimited_walks_the_whole_chain() {
    let chain = vec![
        redirect_hop("/a"),
        redirect_hop("/b"),
        redirect_hop("/c"),
        redirect_hop("/d"),
        final_hop(),
    ];
    let (result, history) = follow_redirects(RedirectPolicy::Unlimited, &chain);
    assert_eq!(result.unwrap(), 4);
    assert_eq!(history, vec![0, 1, 2, 3]);
}

#[test]
fn redirect_status_without_location_is_final() {
    let chain = vec![RedirectHop {
        status: StatusCode(302),
        url: "http://x.test/".to_string(),
        location: None,
        headers: Vec::new(),
    }];
    let (result, history) = follow_redirects(RedirectPolicy::Limited(3), &chain);
    assert_eq!(result.unwrap(), 0);
    assert!(history.is_empty());
}

#[test]
fn only_the_five_redirect_codes_are_followed() {
    let chain = vec![RedirectHop {
        status: StatusCode(304),
        url: "http://x.test/".to_string(),
        location: Some("/x".to_string()),
        headers: Vec::new(),
    }];
    let (result, history) = follow_redirects(RedirectPolicy::Limited(3), &chain);
    assert_eq!(result.unwrap(), 0);
    assert!(history.is_empty());

    for code in [301u16, 302, 303, 307, 308] {
        let chain = vec![
            RedirectHop {
                status: StatusCode(code),
                url: "http://x.test/".to_string(),
                location: Some("/x".to_string()),
                headers: Vec::new(),
            },
            final_hop(),
        ];
        let (result, history) = follow_redirects(RedirectPolicy::Limited(3), &chain);
        assert_eq!(result.unwrap(), 1);
        assert_eq!(history, vec![0]);
    }
}

#[test]
fn cap_zero_fails_on_first_redirect() {
    let chain = vec![redirect_hop("/a"), final_hop()];
    let (result, history) = follow_redirects(RedirectPolicy::Limited(0), &chain);
    assert!(matches!(result, Err(Error::RedirectLimit)));
    assert!(history.is_empty());
}

#[test]
fn recorded_history_is_capped_and_chained() {
    let chain = vec![
        redirect_hop("/a"),
        redirect_hop("/b"),
        redirect_hop("/c"),
        redirect_hop("/d"),
        redirect_hop("/e"),
        final_hop(),
    ];
    let origin = "http://x.test/start".to_string();
    let (result, history) =
        rnet_core::response::walk_and_record(RedirectPolicy::Limited(3), &origin, &chain);
    assert!(matches!(result, Err(Error::RedirectLimit)));
    assert_eq!(history.len(), 3);
    assert_eq!(history[0].status().as_int(), 302);
    assert_eq!(history[0].url(), "http://x.test/a");
    assert_eq!(history[0].previous(), "http://x.test/start");
    assert_eq!(history[1].previous(), "http://x.test/a");
    assert_eq!(history[2].previous(), "http://x.test/b");
}

#[test]
fn recorded_history_matches_a_successful_walk() {
    let chain = vec![redirect_hop("/a"), redirect_hop("/b"), final_hop()];
    let origin = "http://x.test/start".to_string();
    let (result, history) =
        rnet_core::response::walk_and_record(RedirectPolicy::Limited(5), &origin, &chain);
    assert_eq!(result.unwrap(), 2);
    assert_eq!(history.len(), 2);
    assert_eq!(history[0].url(), "http://x.test/a");
    assert_eq!(history[1].url(), "http://x.test/b");
    assert_eq!(history[1].previous(), "http://x.test/a");
}

#[test]
fn no_follow_records_no_history() {
    let chain = vec![redirect_hop("/a"), final_hop()];
    let origin = "http://x.test/start".to_string();
    let (result, history) =
        rnet_core::response::walk_and_record(RedirectPolicy::NoFollow, &origin, &chain);
    assert_eq!(result.unwrap(), 0);
    assert!(history.is_empty());
}
