use sandbag_watch::util::{perf_to_index, Auth, Backoff};
use sandbag_watch::zulip::ZulipConfig;

#[test]
fn perf_index_table_is_exact() {
    assert_eq!(perf_to_index("bullet"), Some(1));
    assert_eq!(perf_to_index("blitz"), Some(2));
    assert_eq!(perf_to_index("classical"), Some(3));
    assert_eq!(perf_to_index("rapid"), Some(6));
}

#[test]
fn perf_index_unknown_category_has_no_number() {
    assert_eq!(perf_to_index("superBlitz"), None);
    assert_eq!(perf_to_index("ultraBullet"), None);
    assert_eq!(perf_to_index(""), None);
    assert_eq!(perf_to_index("Bullet"), None);
}

#[test]
fn backoff_sleeps_sixty_then_six_hundred() {
    // A handler that fails twice then succeeds: the two pauses taken are
    // 60s and 600s.
    let mut b = Backoff::new();
    let outcomes = [false, false, true];
    let mut pauses: Vec<u64> = Vec::new();
    for ok in outcomes {
        if ok {
            break;
        }
        pauses.push(b.next_sleep());
    }
    assert_eq!(pauses, vec![60, 600]);
}

#[test]
fn backoff_never_exceeds_one_hour() {
    let mut b = Backoff::new();
    let mut last = 0u64;
    for _ in 0..50 {
        last = b.next_sleep();
        assert!(last <= 3600);
    }
    assert_eq!(last, 3600);
}

#[test]
fn zulip_auth_is_the_basic_pair() {
    let cfg = ZulipConfig {
        email: "bot@example.org".to_string(),
        key: "not-a-real-key".to_string(),
        channel: "mods".to_string(),
        topic: "sandbagging".to_string(),
        site: "https://chat.example.org".to_string(),
    };
    match cfg.auth() {
        Some(Auth::Basic(email, key)) => {
            assert_eq!(email, "bot@example.org");
            assert_eq!(key, "not-a-real-key");
        }
        _ => panic!("expected the basic email and key pair"),
    }
}
