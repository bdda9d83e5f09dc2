use sandbag_watch::game_visitor::{get_games, GameResult, MoveCounter};

fn game(id: &str, moves: usize, won: bool) -> GameResult {
    GameResult {
        id: id.to_string(),
        moves,
        won,
        is_white: true,
    }
}

#[test]
fn complete_game_is_extracted() {
    let t = "\
[Site \"https://lichess.org/abcd1234\"]
[White \"alice\"]
[Result \"1-0\"]

1. e4 e5 2. Nf3
";
    let mc = get_games(t.to_string(), "alice");
    assert_eq!(mc.user_id, "alice");
    assert_eq!(mc.games.len(), 1);
    let g = &mc.games[0];
    assert_eq!(g.id, "abcd1234");
    assert_eq!(g.moves, 3);
    assert!(g.won);
    assert!(g.is_white);
}

#[test]
fn game_missing_outcome_is_dropped() {
    // Two games: one complete, one whose Result header is missing. Exactly
    // one game comes out.
    let t = "\
[Site \"https://lichess.org/abcd1234\"]
[White \"alice\"]
[Result \"1-0\"]

1. e4 e5 2. Nf3

[Site \"https://lichess.org/wxyz9876\"]
[White \"alice\"]

1. d4 d5
";
    let mc = get_games(t.to_string(), "alice");
    assert_eq!(mc.games.len(), 1);
    assert_eq!(mc.games[0].id, "abcd1234");
}

#[test]
fn nested_variation_is_skipped_whole() {
    // Side variations, even nested ones, must never be counted.
    let t = "\
[Site \"https://lichess.org/var1\"]
[White \"alice\"]
[Result \"1-0\"]

1. e4 (1. d4 (1... Nf6 2. c4) d5 2. c4) e5 2. Nf3 Nc6
";
    let mc = get_games(t.to_string(), "alice");
    assert_eq!(mc.games.len(), 1);
    assert_eq!(mc.games[0].moves, 4);
}

#[test]
fn comments_are_not_counted() {
    let t = "\
[Site \"https://lichess.org/cmt1\"]
[White \"alice\"]
[Result \"0-1\"]

1. e4 {king pawn (main line) Nf3 ideas} e5 {reply} 2. Qh5 g6
";
    let mc = get_games(t.to_string(), "alice");
    assert_eq!(mc.games.len(), 1);
    assert_eq!(mc.games[0].moves, 4);
    assert!(!mc.games[0].won);
}

#[test]
fn black_win_for_black_player_counts_as_won() {
    let t = "\
[Site \"https://lichess.org/blk1\"]
[White \"somebody\"]
[Result \"0-1\"]

1. f3 e5 2. g4 Qh4
";
    let mc = get_games(t.to_string(), "alice");
    assert_eq!(mc.games.len(), 1);
    assert!(!mc.games[0].is_white);
    assert!(mc.games[0].won);
}

#[test]
fn draw_counts_as_not_won() {
    let t = "\
[Site \"https://lichess.org/drw1\"]
[White \"alice\"]
[Result \"1/2-1/2\"]

1. e4 e5
";
    let mc = get_games(t.to_string(), "alice");
    assert_eq!(mc.games.len(), 1);
    assert!(!mc.games[0].won);
}

#[test]
fn result_before_white_leaves_outcome_unknown() {
    // The outcome is decided when the Result header arrives; without the
    // color known by then, the game stays incomplete and is dropped.
    let t = "\
[Site \"https://lichess.org/ord1\"]
[Result \"1-0\"]
[White \"alice\"]

1. e4
";
    let mc = get_games(t.to_string(), "alice");
    assert_eq!(mc.games.len(), 0);
}

#[test]
fn site_without_slash_is_taken_whole() {
    let t = "\
[Site \"plainid99\"]
[White \"alice\"]
[Result \"1-0\"]

1. e4
";
    let mc = get_games(t.to_string(), "alice");
    assert_eq!(mc.games.len(), 1);
    assert_eq!(mc.games[0].id, "plainid99");
}

#[test]
fn empty_transcript_yields_no_games() {
    let mc = get_games(String::new(), "alice");
    assert_eq!(mc.games.len(), 0);
}

#[test]
fn transcript_without_trailing_newline_still_closes_the_game() {
    let t = "\
[Site \"https://lichess.org/tail1\"]
[White \"alice\"]
[Result \"1-0\"]

1. e4 c5";
    let mc = get_games(t.to_string(), "alice");
    assert_eq!(mc.games.len(), 1);
    assert_eq!(mc.games[0].moves, 2);
}

#[test]
fn username_match_is_substring_based() {
    let t = "\
[Site \"https://lichess.org/sub1\"]
[White \"Alice the Great (alice99)\"]
[Result \"1-0\"]

1. e4
";
    let mc = get_games(t.to_string(), "alice99");
    assert_eq!(mc.games.len(), 1);
    assert!(mc.games[0].is_white);
}

#[test]
fn sorted_sus_games_are_ascending_losses() {
    // Lost games of ply 40, 10, 25 plus one won game of ply 5: the view is
    // the losses sorted ascending, the won game excluded.
    let mut mc = MoveCounter::new("alice".to_string());
    mc.games = vec![
        game("g40", 40, false),
        game("g10", 10, false),
        game("g25", 25, false),
        game("g05", 5, true),
    ];
    let sus = mc.get_sorted_sus_games();
    let moves: Vec<usize> = sus.iter().map(|g| g.moves).collect();
    assert_eq!(moves, vec![10, 25, 40]);
    assert!(sus.iter().all(|g| !g.won));
}

#[test]
fn equal_ply_counts_all_survive_the_sort() {
    let mut mc = MoveCounter::new("alice".to_string());
    mc.games = vec![
        game("a", 12, false),
        game("b", 12, false),
        game("c", 7, false),
    ];
    let sus = mc.get_sorted_sus_games();
    let moves: Vec<usize> = sus.iter().map(|g| g.moves).collect();
    assert_eq!(moves, vec![7, 12, 12]);
    let mut ids: Vec<String> = sus.iter().map(|g| g.id.clone()).collect();
    ids.sort();
    assert_eq!(ids, vec!["a".to_string(), "b".to_string(), "c".to_string()]);
}

#[test]
fn lost_game_is_kept_with_won_false() {
    // The user is not the White player and White won: a loss, kept for the
    // suspicious view.
    let t = "\
[Site \"https://lichess.org/loss1\"]
[White \"somebody\"]
[Result \"1-0\"]

1. e4 e5 2. Nf3 Nc6 3. Bb5
";
    let mc = get_games(t.to_string(), "alice");
    assert_eq!(mc.games.len(), 1);
    assert!(!mc.games[0].is_white);
    assert!(!mc.games[0].won);
    assert_eq!(mc.games[0].moves, 5);
    assert_eq!(mc.get_sorted_sus_games().len(), 1);
}

#[test]
fn carriage_returns_do_not_break_game_boundaries() {
    let t = "[Site \"https://lichess.org/crlf1\"]\r\n[White \"alice\"]\r\n[Result \"1-0\"]\r\n\r\n1. e4 e5\r\n\r\n[Site \"https://lichess.org/crlf2\"]\r\n[White \"alice\"]\r\n[Result \"0-1\"]\r\n\r\n1. d4 d5\r\n";
    let mc = get_games(t.to_string(), "alice");
    assert_eq!(mc.games.len(), 2);
    assert_eq!(mc.games[0].id, "crlf1");
    assert_eq!(mc.games[0].moves, 2);
    assert_eq!(mc.games[1].id, "crlf2");
    assert_eq!(mc.games[1].moves, 2);
}

#[test]
fn sorted_sus_games_of_nothing_is_empty() {
    let mc = MoveCounter::new("alice".to_string());
    assert_eq!(mc.get_sorted_sus_games().len(), 0);
}
