use sandbag_watch::lichess::{
    Arena, Arenas, Classifier, LineBuffer, Perf, Player, Schedule, Tier, User,
};
use sandbag_watch::score::{Score, SusScore};

fn arena(name: &str, capped: bool, speed: &str) -> Arena {
    Arena {
        id: "arena1".to_string(),
        has_max_rating: capped,
        schedule: Schedule {
            freq: "hourly".to_string(),
            speed: speed.to_string(),
        },
        perf: Perf {
            key: speed.to_string(),
        },
        full_name: name.to_string(),
    }
}

fn player(score: u16, rating: u16, performance: Option<u16>) -> Player {
    Player {
        rank: 1,
        score,
        rating,
        username: "alice".to_string(),
        performance,
    }
}

fn thresholds() -> SusScore {
    let low = Score {
        bullet: 10,
        super_blitz: 15,
        blitz: 15,
        rapid: 20,
    };
    let medium = Score {
        bullet: 20,
        super_blitz: 25,
        blitz: 25,
        rapid: 28,
    };
    let high = Score {
        bullet: 30,
        super_blitz: 33,
        blitz: 33,
        rapid: 35,
    };
    SusScore { low, medium, high }
}

#[test]
fn test_arena_rating_limit() {
    let mut a = Arena::default();
    a.has_max_rating = true;
    a.full_name = "≤1500 Blitz Arena".to_string();
    assert_eq!(a.rating_limit(), Some(1500));
}

#[test]
fn rating_limit_without_cap_is_unknown() {
    let a = arena("≤1500 Blitz Arena", false, "blitz");
    assert_eq!(a.rating_limit(), None);
}

#[test]
fn rating_limit_short_name_is_unknown() {
    let a = arena("≤15", true, "blitz");
    assert_eq!(a.rating_limit(), None);
}

#[test]
fn rating_limit_unparsable_name_is_unknown() {
    let a = arena("Weekly Blitz Arena", true, "blitz");
    assert_eq!(a.rating_limit(), None);
}

#[test]
fn scan_targets_keep_only_capped_arenas() {
    let arenas = Arenas {
        created: vec![arena("≤1700 Blitz Arena", true, "blitz")],
        finished: vec![
            arena("Weekly Bullet Arena", false, "bullet"),
            arena("≤1500 Blitz Arena", true, "blitz"),
            arena("Daily Rapid Arena", false, "rapid"),
            arena("≤2000 Rapid Arena", true, "rapid"),
        ],
    };
    let targets = sandbag_watch::lichess::scan_targets(&arenas);
    assert_eq!(targets.len(), 2);
    assert!(targets.iter().all(|a| a.has_max_rating));
    assert_eq!(targets[0].full_name, "≤1500 Blitz Arena");
    assert_eq!(targets[1].full_name, "≤2000 Rapid Arena");
}

#[test]
fn preselect_rejects_low_scores_and_unknown_categories() {
    let c = Classifier::new(thresholds());
    let a = arena("≤1800 Rapid Arena", true, "rapid");
    assert!(!c.preselect_player(&a, &player(19, 1500, None)));
    assert!(c.preselect_player(&a, &player(20, 1500, None)));
    let odd = arena("≤1800 Chess960 Arena", true, "chess960");
    assert!(!c.preselect_player(&odd, &player(99, 1500, None)));
}

#[test]
fn below_every_threshold_yields_no_report() {
    let c = Classifier::new(thresholds());
    let a = arena("≤1800 Rapid Arena", true, "rapid");
    // Below the low tier: prescreening drops the player, whatever else holds.
    let verdict = c.player_verdict(&a, &player(5, 1000, Some(2400)), 40, None, 0);
    assert_eq!(verdict, None);
}

#[test]
fn high_threshold_yields_exactly_tier_a() {
    let c = Classifier::new(thresholds());
    let a = arena("≤1800 Rapid Arena", true, "rapid");
    // Tier B and C conditions hold too (many games, huge deviation), yet the
    // one report is Tier A.
    let user = User {
        id: "alice".to_string(),
        tos_violation: false,
        created_at_millis: i64::MAX - 2_000_000_000,
    };
    let verdict = c.player_verdict(
        &a,
        &player(36, 1000, Some(2400)),
        40,
        Some(&user),
        i64::MAX - 1_900_000_000,
    );
    assert_eq!(verdict, Some(Tier::A));
}

#[test]
fn end_to_end_tier_a_fires_on_score_alone() {
    // Arena {hasMaxRating:true, name:"≤1800 Rapid Arena", category:"rapid"},
    // thresholds {low.rapid:20, high.rapid:35}; player {score:36, rating:1500,
    // performance:2200}: prescreen passes, Tier A fires, exactly one report.
    let c = Classifier::new(thresholds());
    let a = arena("≤1800 Rapid Arena", true, "rapid");
    let p = player(36, 1500, Some(2200));
    assert_eq!(c.player_verdict(&a, &p, 0, None, 0), Some(Tier::A));
}

#[test]
fn moderate_tier_fires_on_game_count() {
    let c = Classifier::new(thresholds());
    let a = arena("≤1800 Rapid Arena", true, "rapid");
    let p = player(25, 1700, Some(1800));
    assert_eq!(c.player_verdict(&a, &p, 26, None, 0), Some(Tier::B));
    assert_eq!(c.player_verdict(&a, &p, 25, None, 0), None);
}

#[test]
fn strict_tier_fires_on_rating_deviation() {
    let c = Classifier::new(thresholds());
    let a = arena("≤1800 Rapid Arena", true, "rapid");
    // 1800 - 300 = 1500 > 1499, but 1800 - 200 = 1600 > 1499 too, so the
    // moderate tier already fires.
    let p = player(25, 1499, Some(1800));
    assert_eq!(c.player_verdict(&a, &p, 0, None, 0), Some(Tier::B));
    // Performance 2250 > 1800 + 400 but not > 1800 + 500: strict only.
    let q = player(25, 1700, Some(2250));
    assert_eq!(c.player_verdict(&a, &q, 0, None, 0), Some(Tier::C));
}

#[test]
fn small_ceiling_clamps_instead_of_wrapping() {
    let c = Classifier::new(thresholds());
    // Ceiling 0100: the ceiling-minus-margin test clamps at zero, so no
    // rating can sit below it.
    let a = arena("≤0100 Rapid Arena", true, "rapid");
    assert_eq!(a.rating_limit(), Some(100));
    let p = player(25, 0, Some(500));
    assert_eq!(c.player_verdict(&a, &p, 0, None, 0), None);
}

#[test]
fn unknown_ceiling_or_performance_disables_deviation() {
    let c = Classifier::new(thresholds());
    let uncapped = arena("Weekly Rapid Arena", true, "rapid");
    assert_eq!(
        c.player_verdict(&uncapped, &player(25, 100, Some(2400)), 0, None, 0),
        None
    );
    let capped = arena("≤1800 Rapid Arena", true, "rapid");
    assert_eq!(
        c.player_verdict(&capped, &player(25, 100, None), 0, None, 0),
        None
    );
}

#[test]
fn failed_user_lookup_leaves_age_conditions_false() {
    let c = Classifier::new(thresholds());
    let a = arena("≤1800 Rapid Arena", true, "rapid");
    let p = player(25, 1700, Some(1800));
    // A brand-new account would fire Tier B; without the lookup it cannot.
    assert_eq!(c.player_verdict(&a, &p, 0, None, 0), None);
    let brand_new = User {
        id: "alice".to_string(),
        tos_violation: false,
        created_at_millis: 1_000_000,
    };
    assert_eq!(
        c.player_verdict(&a, &p, 0, Some(&brand_new), 2_000_000),
        Some(Tier::B)
    );
}

#[test]
fn account_age_windows() {
    let u = User {
        id: "alice".to_string(),
        tos_violation: false,
        created_at_millis: 0,
    };
    let day = 86_400_000i64;
    assert!(u.is_new(20 * day - 1));
    assert!(!u.is_new(20 * day));
    assert!(u.is_very_new(10 * day - 1));
    assert!(!u.is_very_new(10 * day));
    // A 15-day-old account is new but not very new: Tier B sees it, C would not.
    assert!(u.is_new(15 * day));
    assert!(!u.is_very_new(15 * day));
}

#[test]
fn line_buffer_frames_chunks() {
    let mut buf = LineBuffer::new();
    let lines = buf.push_chunk(b"ab\nc");
    assert_eq!(lines, vec![b"ab".to_vec()]);
    let lines = buf.push_chunk(b"d\n\ne");
    assert_eq!(lines, vec![b"cd".to_vec(), b"".to_vec()]);
    let tail = buf.take_pending();
    assert_eq!(tail, b"e".to_vec());
    let nothing = buf.take_pending();
    assert_eq!(nothing, Vec::<u8>::new());
}
