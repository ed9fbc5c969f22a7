use ball_game::chance::BounceCue;
use ball_game::components::{Enemy, Player, Star};
use ball_game::direction::Direction;
use ball_game::events::{EventReader, GameOver, GameOverEvents};
use ball_game::geometry::{Position, Viewport};
use ball_game::resources::{EnemySpawnTimer, HighScore, Score, SpawnTimer, StarSpawnTimer};
use ball_game::systems::{
    bounce, confine_enemy_movement, confine_player_movement, enemy_from_draws, enemy_hit_player,
    enemy_movement, exit_game, handle_game_over, player_collect_star, player_movement,
    spawn_enemies, spawn_enemy_over_time, spawn_player, spawn_star_over_time, spawn_stars,
    star_from_draws, tick_enemy_spawn_timer, tick_star_spawn_timer, update_enemy_direction,
    update_high_score, KeyState, ENEMY_SIZE, ENEMY_SPEED, NUMBER_OF_ENEMIES, NUMBER_OF_STARS,
    PLAYER_SIZE, PLAYER_SPEED, STAR_SIZE,
};

fn arena() -> Viewport {
    Viewport { width: 800_000, height: 600_000 }
}

fn point(x: i64, y: i64) -> Position {
    Position { x, y }
}

fn player_at(x: i64, y: i64) -> Option<Player> {
    Some(Player { position: point(x, y) })
}

fn enemy(x: i64, y: i64, dx: i32, dy: i32) -> Enemy {
    Enemy { position: point(x, y), direction: Direction::normalized(dx, dy) }
}

fn star(x: i64, y: i64) -> Star {
    Star { position: point(x, y) }
}

fn keys(left: bool, right: bool, up: bool, down: bool) -> KeyState {
    KeyState { left, right, up, down, escape: false }
}

fn heading_of(e: &Enemy) -> (i32, i32) {
    (e.direction.x(), e.direction.y())
}

fn heads_at_unit_length(e: &Enemy) -> bool {
    let (x, y) = heading_of(e);
    let squared = (x as i64) * (x as i64) + (y as i64) * (y as i64);
    999_998i64 * 999_998 < squared && squared <= 1_000_000i64 * 1_000_000
}

#[test]
fn the_sizes_and_speeds_of_the_game() {
    assert_eq!(PLAYER_SIZE, 64_000);
    assert_eq!(ENEMY_SIZE, 64_000);
    assert_eq!(STAR_SIZE, 30_000);
    assert_eq!(PLAYER_SPEED, 500_000);
    assert_eq!(ENEMY_SPEED, 200_000);
    assert_eq!(NUMBER_OF_ENEMIES, 4);
    assert_eq!(NUMBER_OF_STARS, 10);
}

#[test]
fn heading_follows_the_keys() {
    let h = |k: KeyState| k.heading().map(|d| (d.x(), d.y()));
    assert_eq!(h(keys(false, false, false, false)), None);
    assert_eq!(h(keys(false, true, false, false)), Some((1_000_000, 0)));
    assert_eq!(h(keys(true, false, false, false)), Some((-1_000_000, 0)));
    assert_eq!(h(keys(false, false, true, false)), Some((0, 1_000_000)));
    assert_eq!(h(keys(false, false, false, true)), Some((0, -1_000_000)));
    assert_eq!(h(keys(false, true, true, false)), Some((707_106, 707_106)));
    assert_eq!(h(keys(true, false, false, true)), Some((-707_106, -707_106)));
}

#[test]
fn opposite_keys_cancel() {
    let h = |k: KeyState| k.heading().map(|d| (d.x(), d.y()));
    assert_eq!(h(keys(true, true, false, false)), None);
    assert_eq!(h(keys(false, false, true, true)), None);
    assert_eq!(h(keys(true, true, true, true)), None);
    assert_eq!(h(keys(true, true, true, false)), Some((0, 1_000_000)));
    assert_eq!(h(keys(true, false, true, true)), Some((-1_000_000, 0)));
}

#[test]
fn spawn_player_puts_it_two_thirds_along_each_axis() {
    let mut player = None;
    spawn_player(&mut player, &arena());
    assert_eq!(player, player_at(533_333, 400_000));
    spawn_player(&mut player, &Viewport { width: 3, height: 0 });
    assert_eq!(player, player_at(2, 0));
    spawn_player(&mut player, &Viewport { width: u32::MAX, height: 1 });
    assert_eq!(player, player_at(2_863_311_530, 0));
}

#[test]
fn player_moves_right_by_fifty_pixels_and_stays_in_bounds() {
    let mut player = player_at(400_000, 300_000);
    player_movement(&keys(false, true, false, false), &mut player, 100_000_000);
    assert_eq!(player, player_at(450_000, 300_000));
    confine_player_movement(&mut player, &arena());
    assert_eq!(player, player_at(450_000, 300_000));
}

#[test]
fn player_moves_along_the_diagonal_at_the_same_speed() {
    let mut player = player_at(400_000, 300_000);
    player_movement(&keys(true, false, true, false), &mut player, 100_000_000);
    assert_eq!(player, player_at(400_000 - 35_355, 300_000 + 35_355));
}

#[test]
fn player_stands_still_without_keys_or_time() {
    let mut player = player_at(400_000, 300_000);
    player_movement(&keys(false, false, false, false), &mut player, 100_000_000);
    assert_eq!(player, player_at(400_000, 300_000));
    player_movement(&keys(true, true, false, false), &mut player, 100_000_000);
    assert_eq!(player, player_at(400_000, 300_000));
    player_movement(&keys(false, true, false, false), &mut player, 0);
    assert_eq!(player, player_at(400_000, 300_000));
}

#[test]
fn nothing_moves_where_there_is_no_player() {
    let mut player: Option<Player> = None;
    player_movement(&keys(false, true, false, false), &mut player, 100_000_000);
    assert_eq!(player, None);
    confine_player_movement(&mut player, &arena());
    assert_eq!(player, None);
}

#[test]
fn player_is_clamped_at_every_edge() {
    let v = arena();
    for (from, to) in [
        ((0, 300_000), (32_000, 300_000)),
        ((800_000, 300_000), (768_000, 300_000)),
        ((400_000, -1), (400_000, 32_000)),
        ((400_000, 600_001), (400_000, 568_000)),
        ((-900_000, 900_000), (32_000, 568_000)),
    ] {
        let mut player = player_at(from.0, from.1);
        confine_player_movement(&mut player, &v);
        assert_eq!(player, player_at(to.0, to.1));
        confine_player_movement(&mut player, &v);
        assert_eq!(player, player_at(to.0, to.1));
    }
}

#[test]
fn player_runs_into_the_right_edge() {
    let v = arena();
    let mut player = player_at(750_000, 300_000);
    player_movement(&keys(false, true, false, false), &mut player, 100_000_000);
    assert_eq!(player, player_at(800_000, 300_000));
    confine_player_movement(&mut player, &v);
    assert_eq!(player, player_at(768_000, 300_000));
}

#[test]
fn enemies_drift_along_their_directions() {
    let mut enemies = vec![enemy(100_000, 100_000, 3, 4), enemy(500_000, 500_000, -1, 0)];
    enemy_movement(&mut enemies, 1_000_000_000);
    assert_eq!(enemies[0], enemy(220_000, 260_000, 3, 4));
    assert_eq!(enemies[1], enemy(300_000, 500_000, -1, 0));
    enemy_movement(&mut enemies, 16_666_667);
    assert_eq!(enemies[0].position, point(222_000, 262_666));
    assert_eq!(enemies[1].position, point(296_667, 500_000));
    assert_eq!(heading_of(&enemies[0]), (600_000, 800_000));
}

#[test]
fn enemy_movement_of_no_enemies() {
    let mut enemies: Vec<Enemy> = Vec::new();
    enemy_movement(&mut enemies, 1_000_000_000);
    assert!(enemies.is_empty());
}

#[test]
fn enemy_at_the_left_edge_turns_right() {
    let (turned, touched) = bounce(enemy(10_000, 300_000, -1, 0), &arena());
    assert!(touched);
    assert_eq!(turned.position, point(10_000, 300_000));
    assert_eq!(heading_of(&turned), (1_000_000, 0));
}

#[test]
fn bounce_turns_on_the_touched_axes_only() {
    let v = arena();
    let (e, t) = bounce(enemy(400_000, 300_000, 3, 4), &v);
    assert!(!t);
    assert_eq!(heading_of(&e), (600_000, 800_000));
    let (e, t) = bounce(enemy(768_000, 300_000, 3, 4), &v);
    assert!(t);
    assert_eq!(heading_of(&e), (-600_000, 800_000));
    let (e, t) = bounce(enemy(400_000, 568_000, 3, 4), &v);
    assert!(t);
    assert_eq!(heading_of(&e), (600_000, -800_000));
    let (e, t) = bounce(enemy(32_000, 32_000, -3, -4), &v);
    assert!(t);
    assert_eq!(heading_of(&e), (600_000, 800_000));
}

#[test]
fn bounce_compares_with_the_bounds_inclusively() {
    let v = arena();
    assert!(bounce(enemy(32_000, 300_000, 1, 1), &v).1);
    assert!(!bounce(enemy(32_001, 300_000, 1, 1), &v).1);
    assert!(bounce(enemy(768_000, 300_000, 1, 1), &v).1);
    assert!(!bounce(enemy(767_999, 300_000, 1, 1), &v).1);
    assert!(bounce(enemy(400_000, 32_000, 1, 1), &v).1);
    assert!(!bounce(enemy(400_000, 32_001, 1, 1), &v).1);
    assert!(bounce(enemy(400_000, 568_000, 1, 1), &v).1);
    assert!(!bounce(enemy(400_000, 567_999, 1, 1), &v).1);
}

#[test]
fn bounce_turns_an_enemy_that_heads_inwards_too() {
    let (e, t) = bounce(enemy(10_000, 300_000, 1, 0), &arena());
    assert!(t);
    assert_eq!(heading_of(&e), (-1_000_000, 0));
}

#[test]
fn update_enemy_direction_gives_a_cue_to_each_enemy_that_turned() {
    let mut enemies = vec![
        enemy(400_000, 300_000, 3, 4),
        enemy(10_000, 300_000, -1, 0),
        enemy(790_000, 590_000, 1, 1),
        enemy(100_000, 100_000, -1, -1),
    ];
    let cues = update_enemy_direction(&mut enemies, &arena());
    assert_eq!(cues.len(), 4);
    assert_eq!(cues[0], None);
    assert!(matches!(cues[1], Some(BounceCue::First) | Some(BounceCue::Second)));
    assert!(matches!(cues[2], Some(BounceCue::First) | Some(BounceCue::Second)));
    assert_eq!(cues[3], None);
    assert_eq!(enemies[0], enemy(400_000, 300_000, 3, 4));
    assert_eq!(enemies[1], enemy(10_000, 300_000, 1, 0));
    assert_eq!(enemies[2], enemy(790_000, 590_000, -1, -1));
    assert_eq!(enemies[3], enemy(100_000, 100_000, -1, -1));
    assert!(enemies.iter().all(heads_at_unit_length));
}

#[test]
fn update_enemy_direction_draws_both_cues_in_the_long_run() {
    let mut first = 0;
    let mut second = 0;
    for _ in 0..400 {
        let mut enemies = vec![enemy(0, 0, 1, 1)];
        match update_enemy_direction(&mut enemies, &arena())[0] {
            Some(BounceCue::First) => first += 1,
            Some(BounceCue::Second) => second += 1,
            None => panic!("an enemy in the corner turns"),
        }
    }
    assert_eq!(first + second, 400);
    assert!(first > 0 && second > 0);
}

#[test]
fn enemies_are_clamped_and_keep_their_directions() {
    let mut enemies = vec![
        enemy(-5_000, 300_000, -1, 0),
        enemy(400_000, 700_000, 3, 4),
        enemy(400_000, 300_000, 1, 1),
    ];
    confine_enemy_movement(&mut enemies, &arena());
    assert_eq!(enemies[0], enemy(32_000, 300_000, -1, 0));
    assert_eq!(enemies[1], enemy(400_000, 568_000, 3, 4));
    assert_eq!(enemies[2], enemy(400_000, 300_000, 1, 1));
    let once = enemies.clone();
    confine_enemy_movement(&mut enemies, &arena());
    assert_eq!(enemies, once);
}

#[test]
fn an_enemy_moves_turns_and_is_clamped_within_one_tick() {
    let v = arena();
    let mut enemies = vec![enemy(40_000, 300_000, -1, 0)];
    enemy_movement(&mut enemies, 100_000_000);
    assert_eq!(enemies[0].position, point(20_000, 300_000));
    let cues = update_enemy_direction(&mut enemies, &v);
    assert!(cues[0].is_some());
    assert_eq!(heading_of(&enemies[0]), (1_000_000, 0));
    confine_enemy_movement(&mut enemies, &v);
    assert_eq!(enemies[0], enemy(32_000, 300_000, 1, 0));
    enemy_movement(&mut enemies, 100_000_000);
    let cues = update_enemy_direction(&mut enemies, &v);
    assert_eq!(cues, vec![None]);
    assert_eq!(enemies[0], enemy(52_000, 300_000, 1, 0));
}

#[test]
fn an_enemy_on_the_player_ends_the_session() {
    let mut player = player_at(200_000, 200_000);
    let enemies = vec![enemy(200_000, 200_000, 1, 0)];
    let score = Score { value: 7 };
    let mut events = GameOverEvents::new();
    let mut high_score = HighScore::new();
    let mut keeper = EventReader::new();
    let mut ender = EventReader::new();

    let hit = enemy_hit_player(&mut player, &enemies, &score, &mut events);
    assert_eq!(hit, Some(0));
    assert_eq!(player, None);
    assert_eq!(events.len(), 1);
    assert_eq!(score.value, 7);

    assert_eq!(handle_game_over(&mut ender, &events), vec![7]);
    update_high_score(&mut high_score, &mut keeper, &events);
    assert_eq!(*high_score.entries(), vec![("Player".to_string(), 7)]);

    assert_eq!(handle_game_over(&mut ender, &events), Vec::<u32>::new());
    update_high_score(&mut high_score, &mut keeper, &events);
    assert_eq!(high_score.entries().len(), 1);

    let again = enemy_hit_player(&mut player, &enemies, &score, &mut events);
    assert_eq!(again, None);
    assert_eq!(events.len(), 1);
}

#[test]
fn several_enemies_on_the_player_raise_one_signal() {
    let mut player = player_at(200_000, 200_000);
    let enemies = vec![
        enemy(600_000, 200_000, 1, 0),
        enemy(210_000, 200_000, 1, 0),
        enemy(200_000, 200_000, 0, 1),
        enemy(190_000, 210_000, 1, 1),
    ];
    let mut events = GameOverEvents::new();
    let hit = enemy_hit_player(&mut player, &enemies, &Score { value: 2 }, &mut events);
    assert_eq!(hit, Some(1));
    assert_eq!(player, None);
    let mut reader = EventReader::new();
    assert_eq!(reader.read(&events), vec![GameOver { score: 2 }]);
}

#[test]
fn enemies_out_of_reach_leave_the_player_alone() {
    let mut player = player_at(200_000, 200_000);
    let enemies = vec![enemy(264_000, 200_000, 1, 0), enemy(200_000, 136_000, 1, 0)];
    let mut events = GameOverEvents::new();
    let hit = enemy_hit_player(&mut player, &enemies, &Score { value: 2 }, &mut events);
    assert_eq!(hit, None);
    assert_eq!(player, player_at(200_000, 200_000));
    assert_eq!(events.len(), 0);
    let none: Vec<Enemy> = Vec::new();
    assert_eq!(enemy_hit_player(&mut player, &none, &Score { value: 2 }, &mut events), None);
    assert_eq!(player, player_at(200_000, 200_000));
}

#[test]
fn an_enemy_just_in_reach_hits() {
    let mut player = player_at(200_000, 200_000);
    let enemies = vec![enemy(263_999, 200_000, 1, 0)];
    let mut events = GameOverEvents::new();
    assert_eq!(enemy_hit_player(&mut player, &enemies, &Score::new(), &mut events), Some(0));
    let mut reader = EventReader::new();
    assert_eq!(reader.read(&events), vec![GameOver { score: 0 }]);
}

#[test]
fn the_player_collects_the_star_it_stands_on() {
    let player = player_at(100_000, 100_000);
    let mut stars = vec![star(100_000, 100_000)];
    let mut score = Score::new();
    assert_eq!(player_collect_star(&player, &mut stars, &mut score), Some(0));
    assert_eq!(score.value, 1);
    assert!(stars.is_empty());
}

#[test]
fn at_most_one_star_is_collected_per_call() {
    let player = player_at(100_000, 100_000);
    let mut stars = vec![
        star(500_000, 500_000),
        star(100_000, 100_000),
        star(110_000, 100_000),
        star(100_000, 90_000),
    ];
    let mut score = Score::new();
    assert_eq!(player_collect_star(&player, &mut stars, &mut score), Some(1));
    assert_eq!(score.value, 1);
    assert_eq!(stars, vec![star(500_000, 500_000), star(110_000, 100_000), star(100_000, 90_000)]);
    assert_eq!(player_collect_star(&player, &mut stars, &mut score), Some(1));
    assert_eq!(score.value, 2);
    assert_eq!(stars, vec![star(500_000, 500_000), star(100_000, 90_000)]);
    assert_eq!(player_collect_star(&player, &mut stars, &mut score), Some(1));
    assert_eq!(player_collect_star(&player, &mut stars, &mut score), None);
    assert_eq!(score.value, 3);
    assert_eq!(stars, vec![star(500_000, 500_000)]);
}

#[test]
fn stars_are_collected_within_forty_seven_pixels() {
    let player = player_at(100_000, 100_000);
    let mut score = Score::new();
    let mut stars = vec![star(147_000, 100_000)];
    assert_eq!(player_collect_star(&player, &mut stars, &mut score), None);
    assert_eq!((score.value, stars.len()), (0, 1));
    let mut stars = vec![star(146_999, 100_000)];
    assert_eq!(player_collect_star(&player, &mut stars, &mut score), Some(0));
    assert_eq!((score.value, stars.len()), (1, 0));
}

#[test]
fn no_player_collects_no_star() {
    let mut stars = vec![star(100_000, 100_000)];
    let mut score = Score { value: 5 };
    assert_eq!(player_collect_star(&None, &mut stars, &mut score), None);
    assert_eq!(score.value, 5);
    assert_eq!(stars.len(), 1);
}

#[test]
fn a_star_is_collected_even_when_the_score_is_full() {
    let player = player_at(100_000, 100_000);
    let mut stars = vec![star(100_000, 100_000)];
    let mut score = Score { value: u32::MAX };
    assert_eq!(player_collect_star(&player, &mut stars, &mut score), Some(0));
    assert_eq!(score.value, u32::MAX);
    assert!(stars.is_empty());
}

#[test]
fn enemy_from_draws_exact_values() {
    let e = enemy_from_draws(&arena(), (0x8000_0000, 0x4000_0000), (12_345, 67_890));
    assert_eq!(e.position, point(400_000, 150_000));
    assert_eq!(heading_of(&e), (178_918, 983_863));
    let e = enemy_from_draws(&arena(), (u32::MAX, 0), (0, 0));
    assert_eq!(e.position, point(799_999, 0));
    assert_eq!(heading_of(&e), (707_106, 707_106));
}

#[test]
fn star_from_draws_exact_values() {
    assert_eq!(star_from_draws(&arena(), (0x8000_0000, 0x4000_0000)), star(400_000, 150_000));
    assert_eq!(star_from_draws(&arena(), (u32::MAX, u32::MAX)), star(799_999, 599_999));
}

#[test]
fn spawn_enemies_adds_four_behind_the_others() {
    let v = arena();
    let mut enemies = vec![enemy(1, 2, 3, 4)];
    spawn_enemies(&mut enemies, &v);
    assert_eq!(enemies.len(), 1 + NUMBER_OF_ENEMIES);
    assert_eq!(enemies[0], enemy(1, 2, 3, 4));
    for e in &enemies[1..] {
        assert!(0 <= e.position.x && e.position.x < 800_000);
        assert!(0 <= e.position.y && e.position.y < 600_000);
        assert!(e.direction.x() >= 0 && e.direction.y() >= 0);
        assert!(heads_at_unit_length(e));
    }
}

#[test]
fn spawn_enemies_does_not_repeat_itself() {
    let v = Viewport { width: u32::MAX, height: u32::MAX };
    let mut enemies = Vec::new();
    for _ in 0..8 {
        spawn_enemies(&mut enemies, &v);
    }
    assert_eq!(enemies.len(), 32);
    let first = enemies[0];
    assert!(enemies.iter().any(|e| *e != first));
}

#[test]
fn spawn_stars_adds_ten_behind_the_others() {
    let v = arena();
    let mut stars = vec![star(5, 5)];
    spawn_stars(&mut stars, &v);
    assert_eq!(stars.len(), 1 + NUMBER_OF_STARS);
    assert_eq!(stars[0], star(5, 5));
    for s in &stars[1..] {
        assert!(0 <= s.position.x && s.position.x < 800_000);
        assert!(0 <= s.position.y && s.position.y < 600_000);
    }
}

#[test]
fn spawning_in_an_empty_viewport_lands_on_the_origin() {
    let v = Viewport { width: 0, height: 0 };
    let mut stars = Vec::new();
    spawn_stars(&mut stars, &v);
    assert!(stars.iter().all(|s| *s == star(0, 0)));
    let mut enemies = Vec::new();
    spawn_enemies(&mut enemies, &v);
    assert!(enemies.iter().all(|e| e.position == point(0, 0) && heads_at_unit_length(e)));
}

#[test]
fn the_star_timer_paces_new_stars() {
    let v = arena();
    let mut timer = StarSpawnTimer { timer: SpawnTimer::new(1_000_000_000) };
    let mut stars = vec![star(5, 5)];
    spawn_star_over_time(&timer, &mut stars, &v);
    assert_eq!(stars.len(), 1);
    tick_star_spawn_timer(&mut timer, 600_000_000);
    spawn_star_over_time(&timer, &mut stars, &v);
    assert_eq!(stars.len(), 1);
    tick_star_spawn_timer(&mut timer, 600_000_000);
    assert!(timer.timer.finished());
    assert_eq!(timer.timer.elapsed(), 200_000_000);
    spawn_star_over_time(&timer, &mut stars, &v);
    assert_eq!(stars.len(), 2);
    assert_eq!(stars[0], star(5, 5));
    assert!(0 <= stars[1].position.x && stars[1].position.x < 800_000);
    assert!(0 <= stars[1].position.y && stars[1].position.y < 600_000);
    tick_star_spawn_timer(&mut timer, 1);
    spawn_star_over_time(&timer, &mut stars, &v);
    assert_eq!(stars.len(), 2);
}

#[test]
fn the_enemy_timer_paces_new_enemies() {
    let v = arena();
    let mut timer = EnemySpawnTimer { timer: SpawnTimer::new(5_000_000_000) };
    let mut enemies = vec![enemy(1, 2, 3, 4)];
    let mut arrivals = 0;
    for _ in 0..600 {
        tick_enemy_spawn_timer(&mut timer, 16_666_667);
        let before = enemies.len();
        spawn_enemy_over_time(&timer, &mut enemies, &v);
        arrivals += enemies.len() - before;
    }
    assert_eq!(arrivals, 2);
    assert_eq!(enemies.len(), 3);
    assert_eq!(enemies[0], enemy(1, 2, 3, 4));
    for e in &enemies[1..] {
        assert!(0 <= e.position.x && e.position.x < 800_000);
        assert!(0 <= e.position.y && e.position.y < 600_000);
        assert!(e.direction.x() >= 0 && e.direction.y() >= 0);
        assert!(heads_at_unit_length(e));
    }
}

#[test]
fn exit_game_follows_the_escape_key() {
    let mut k = keys(true, true, true, true);
    assert!(!exit_game(&k));
    k.escape = true;
    assert!(exit_game(&k));
}

#[test]
fn handle_game_over_returns_each_final_score_once() {
    let mut events = GameOverEvents::new();
    let mut reader = EventReader::new();
    assert_eq!(handle_game_over(&mut reader, &events), Vec::<u32>::new());
    events.send(GameOver { score: 4 });
    events.send(GameOver { score: 9 });
    assert_eq!(handle_game_over(&mut reader, &events), vec![4, 9]);
    assert_eq!(handle_game_over(&mut reader, &events), Vec::<u32>::new());
    events.send(GameOver { score: 1 });
    assert_eq!(handle_game_over(&mut reader, &events), vec![1]);
}

#[test]
fn update_high_score_appends_one_entry_per_signal() {
    let mut events = GameOverEvents::new();
    let mut reader = EventReader::new();
    let mut high_score = HighScore::new();
    high_score.record("Ada".to_string(), 12);
    update_high_score(&mut high_score, &mut reader, &events);
    assert_eq!(*high_score.entries(), vec![("Ada".to_string(), 12)]);
    events.send(GameOver { score: 4 });
    events.send(GameOver { score: 9 });
    update_high_score(&mut high_score, &mut reader, &events);
    assert_eq!(
        *high_score.entries(),
        vec![("Ada".to_string(), 12), ("Player".to_string(), 4), ("Player".to_string(), 9)]
    );
    update_high_score(&mut high_score, &mut reader, &events);
    assert_eq!(high_score.entries().len(), 3);
}

#[test]
fn both_listeners_see_the_same_signal() {
    let mut events = GameOverEvents::new();
    let mut ender = EventReader::new();
    let mut keeper = EventReader::new();
    let mut high_score = HighScore::new();
    events.send(GameOver { score: 6 });
    update_high_score(&mut high_score, &mut keeper, &events);
    assert_eq!(handle_game_over(&mut ender, &events), vec![6]);
    assert_eq!(*high_score.entries(), vec![("Player".to_string(), 6)]);
}
