use arcade_core::animation::{update_animation, Animation, AppearanceHandle};
use arcade_core::game::{collision_event, CollisionEvent, Game, GameOverEvent};
use arcade_core::geometry::{isqrt, normalize, Point};
use arcade_core::motion::{
    integrate, keyboard_move_player, move_enemy, Bounds, Enemy, Player, PlayerInput,
    PlayerTextureAtlas,
};
use arcade_core::path::{DirectedLineSegment, Path, PathError, ScreenPath, SAMPLE_RESOLUTION};
use arcade_core::spawn::{
    launch_direction, spawn_enemy, spawn_enemy_at, spawn_player, EnemyTextureAtlas,
    ENEMY_SPAWN_MS, MAX_ENEMY_SPEED, MIN_ENEMY_SPEED, PLAYER_SPEED,
};
use arcade_core::state::{check_transition, GameState, StateError};
use arcade_core::timer::Timer;
use arcade_core::world::{ActorKind, EnemyKind, SpawnError, World};
use rand::rngs::StdRng;
use rand::SeedableRng;

fn sheet(id: u64, frame_count: usize) -> AppearanceHandle {
    AppearanceHandle { id, frame_count }
}

fn player_assets() -> PlayerTextureAtlas {
    PlayerTextureAtlas { up: sheet(1, 2), walk: sheet(2, 2) }
}

fn enemy_assets() -> EnemyTextureAtlas {
    EnemyTextureAtlas { fly: sheet(10, 2), swim: sheet(11, 2), walk: sheet(12, 2) }
}

fn pt(x: i64, y: i64) -> Point {
    Point { x, y }
}

fn segment_of(path: &Path, i: usize) -> DirectedLineSegment {
    path.segment(i)
}

fn no_keys() -> PlayerInput {
    PlayerInput { up: false, down: false, left: false, right: false }
}

fn new_game(capacity: usize) -> Game {
    Game::new(ScreenPath::default().0, player_assets(), enemy_assets(), capacity)
}

#[test]
fn isqrt_is_floor_of_square_root() {
    assert_eq!(isqrt(0), 0);
    assert_eq!(isqrt(24), 4);
    assert_eq!(isqrt(25), 5);
    assert_eq!(isqrt(26), 5);
    assert_eq!(isqrt(1_000_000_000_000), 1_000_000);
}

#[test]
fn normalize_scales_to_unit() {
    assert_eq!(normalize(pt(3, 4)), pt(600, 800));
    assert_eq!(normalize(pt(0, -7)), pt(0, -1000));
    assert_eq!(normalize(pt(-5, 0)), pt(-1000, 0));
}

#[test]
fn path_rejects_too_few_vertices() {
    let r = Path::new(vec![pt(0, 0), pt(1, 0)]);
    assert!(matches!(r, Err(PathError::TooFewVertices)));
}

#[test]
fn path_rejects_degenerate_edge() {
    let r = Path::new(vec![pt(0, 0), pt(10, 0), pt(10, 0), pt(0, 10)]);
    assert!(matches!(r, Err(PathError::DegenerateGeometry)));
    // The closing edge, from the last vertex back to the first, counts too.
    let r = Path::new(vec![pt(0, 0), pt(10, 0), pt(0, 10), pt(0, 0)]);
    assert!(matches!(r, Err(PathError::DegenerateGeometry)));
}

#[test]
fn path_rejects_far_vertex() {
    let r = Path::new(vec![pt(0, 0), pt(i64::MAX, 0), pt(0, 10)]);
    assert!(matches!(r, Err(PathError::CoordinateOutOfRange)));
}

#[test]
fn screen_path_edges_wrap_round() {
    let path = ScreenPath::default().0;
    assert_eq!(path.vertex_count(), 4);
    let s0 = segment_of(&path, 0);
    assert_eq!(s0.begin(), pt(-200_000, 360_000));
    assert_eq!(s0.end(), pt(200_000, 360_000));
    let s3 = segment_of(&path, 3);
    assert_eq!(s3.begin(), pt(-200_000, -360_000));
    assert_eq!(s3.end(), pt(-200_000, 360_000));
    assert_eq!(s0.rotation(), pt(1000, 0));
    assert_eq!(s0.len(), 400_000);
}

#[test]
fn point_at_interpolates_toward_end() {
    let path = Path::new(vec![pt(0, 0), pt(1000, 0), pt(1000, 3000)]).ok().unwrap();
    let s = segment_of(&path, 0);
    assert_eq!(s.point_at(0), pt(0, 0));
    assert_eq!(s.point_at(SAMPLE_RESOLUTION / 2), pt(500, 0));
    assert_eq!(s.point_at(SAMPLE_RESOLUTION), pt(1000, 0));
    // From (1000, 3000) back to (0, 0): a quarter of the way.
    let back = segment_of(&path, 2);
    assert_eq!(back.point_at(SAMPLE_RESOLUTION / 4), pt(750, 2250));
}

#[test]
fn random_points_stay_on_their_segment() {
    let path = Path::new(vec![pt(-300, 100), pt(700, 900), pt(500, -400), pt(-100, -50)]).ok().unwrap();
    let mut rng = StdRng::seed_from_u64(11);
    let mut distinct = std::collections::BTreeSet::new();
    for _ in 0..500 {
        let s = path.random_segment(&mut rng);
        let (b, e) = (s.begin(), s.end());
        let p = s.random_point(&mut rng);
        assert!(b.x.min(e.x) <= p.x && p.x <= b.x.max(e.x));
        assert!(b.y.min(e.y) <= p.y && p.y <= b.y.max(e.y));
        // Collinear up to the rounding of one unit per axis.
        let cross = (e.x - b.x) as i128 * (p.y - b.y) as i128 - (e.y - b.y) as i128 * (p.x - b.x) as i128;
        let bound = ((e.x - b.x).abs() + (e.y - b.y).abs()) as i128;
        assert!(cross.abs() <= bound);
        distinct.insert((p.x, p.y));
    }
    assert!(distinct.len() > 100);
}

#[test]
fn random_segment_uses_every_edge() {
    let path = ScreenPath::default().0;
    let mut rng = StdRng::seed_from_u64(3);
    let mut seen = [false; 4];
    for _ in 0..200 {
        let s = path.random_segment(&mut rng);
        for i in 0..4 {
            if segment_of(&path, i) == s {
                seen[i] = true;
            }
        }
    }
    assert_eq!(seen, [true; 4]);
}

#[test]
fn timer_carries_overflow() {
    let mut t = Timer::from_millis(500);
    assert_eq!(t.tick(300), 0);
    assert_eq!(t.tick(300), 1);
    assert_eq!(t.elapsed(), 100);
    assert_eq!(t.tick(1000), 2);
    assert_eq!(t.elapsed(), 100);
}

#[test]
fn timer_fires_twice_in_ten_ticks() {
    let mut t = Timer::from_millis(500);
    let fired: Vec<u64> = (0..10).map(|_| t.tick(100)).collect();
    assert_eq!(fired, vec![0, 0, 0, 0, 1, 0, 0, 0, 0, 1]);
}

#[test]
fn animation_advances_by_whole_intervals() {
    let mut a = Animation::new(100, sheet(1, 3));
    update_animation(&mut a, 99);
    assert_eq!(a.frame_index(), 0);
    update_animation(&mut a, 1);
    assert_eq!(a.frame_index(), 1);
    update_animation(&mut a, 250);
    assert_eq!(a.frame_index(), 0);
}

#[test]
fn animation_sum_invariance() {
    for k in 0..10u32 {
        let mut one = Animation::new(120, sheet(5, 4));
        update_animation(&mut one, k * 120);
        let mut split = Animation::new(120, sheet(5, 4));
        for _ in 0..k {
            update_animation(&mut split, 50);
            update_animation(&mut split, 70);
        }
        assert_eq!(one.frame_index(), (k as usize) % 4);
        assert_eq!(split.frame_index(), (k as usize) % 4);
    }
}

#[test]
fn stopped_animation_holds_its_frame() {
    let mut a = Animation::new(100, sheet(1, 3));
    a.stop();
    update_animation(&mut a, 1000);
    assert_eq!(a.frame_index(), 0);
    assert!(!a.is_playing());
    a.play();
    update_animation(&mut a, 100);
    assert_eq!(a.frame_index(), 1);
}

#[test]
fn appearance_switch_keeps_frame_within_sheet() {
    let mut a = Animation::new(100, sheet(1, 4));
    update_animation(&mut a, 300);
    assert_eq!(a.frame_index(), 3);
    a.update_texture_atlas(&sheet(1, 2));
    assert_eq!(a.current_appearance(), sheet(1, 4));
    assert_eq!(a.frame_index(), 3);
    a.update_texture_atlas(&sheet(2, 2));
    assert_eq!(a.current_appearance(), sheet(2, 2));
    assert_eq!(a.frame_index(), 1);
}

#[test]
fn flips_are_stored() {
    let mut a = Animation::new(100, sheet(1, 2));
    a.flip_x(true);
    a.flip_y(true);
    assert!(a.is_flipped_x() && a.is_flipped_y());
    a.flip_x(false);
    assert!(!a.is_flipped_x() && a.is_flipped_y());
}

#[test]
fn integrate_moves_by_speed_and_time() {
    // 100 px/s for 100 ms along +x: 10 px, i.e. 10_000 thousandths.
    assert_eq!(integrate(pt(0, 0), pt(1000, 0), 100, 100), pt(10_000, 0));
    assert_eq!(integrate(pt(5, 5), pt(-600, 800), 200, 50), pt(5 - 6_000, 5 + 8_000));
    // Rounded toward zero on each axis.
    assert_eq!(integrate(pt(0, 0), pt(-1, 1), 1, 999), pt(0, 0));
}

#[test]
fn resting_enemy_stays_put() {
    let bounds = Bounds::enemy_field();
    let e = Enemy { direction: pt(707, -707), speed: 0 };
    assert_eq!(move_enemy(pt(1234, -5678), &e, 1000, &bounds), Some(pt(1234, -5678)));
}

#[test]
fn enemy_leaving_field_is_culled() {
    let bounds = Bounds::enemy_field();
    let e = Enemy { direction: pt(1000, 0), speed: 300 };
    assert_eq!(move_enemy(pt(240_000, 0), &e, 10, &bounds), Some(pt(243_000, 0)));
    assert_eq!(move_enemy(pt(248_000, 0), &e, 10, &bounds), None);
    // The edges of the field are inside it.
    assert_eq!(move_enemy(pt(247_000, 0), &e, 10, &bounds), Some(pt(250_000, 0)));
    let down = Enemy { direction: pt(0, -1000), speed: 300 };
    assert_eq!(move_enemy(pt(0, -397_000), &down, 10, &bounds), Some(pt(0, -400_000)));
    assert_eq!(move_enemy(pt(0, -397_001), &down, 10, &bounds), None);
    let rest = Enemy { direction: pt(1000, 0), speed: 0 };
    assert_eq!(move_enemy(pt(250_000, 400_000), &rest, 10, &bounds), Some(pt(250_000, 400_000)));
}

#[test]
fn player_without_input_stops() {
    let assets = player_assets();
    let bounds = Bounds::player_field();
    let mut pos = pt(10, 20);
    let mut anim = Animation::new(200, assets.up);
    keyboard_move_player(no_keys(), 16, &Player { speed: 400 }, &assets, &bounds, &mut pos, &mut anim);
    assert_eq!(pos, pt(10, 20));
    assert!(!anim.is_playing());
}

#[test]
fn player_moves_and_faces_direction() {
    let assets = player_assets();
    let bounds = Bounds::player_field();
    let player = Player { speed: 400 };
    let mut pos = pt(0, 0);
    let mut anim = Animation::new(200, assets.up);
    anim.stop();
    let down = PlayerInput { up: false, down: true, left: false, right: false };
    keyboard_move_player(down, 100, &player, &assets, &bounds, &mut pos, &mut anim);
    assert_eq!(pos, pt(0, -40_000));
    assert!(anim.is_playing());
    assert!(anim.is_flipped_y());
    assert_eq!(anim.current_appearance(), assets.up);
    let left = PlayerInput { up: false, down: false, left: true, right: false };
    keyboard_move_player(left, 100, &player, &assets, &bounds, &mut pos, &mut anim);
    assert_eq!(pos, pt(-40_000, -40_000));
    assert_eq!(anim.current_appearance(), assets.walk);
    assert!(anim.is_flipped_x());
    assert!(!anim.is_flipped_y());
    // Opposite keys cancel out.
    let both = PlayerInput { up: true, down: true, left: false, right: false };
    keyboard_move_player(both, 100, &player, &assets, &bounds, &mut pos, &mut anim);
    assert!(!anim.is_playing());
}

#[test]
fn player_is_clamped_to_field() {
    let assets = player_assets();
    let bounds = Bounds::player_field();
    let mut pos = pt(190_000, 0);
    let mut anim = Animation::new(200, assets.up);
    let right_up = PlayerInput { up: true, down: false, left: false, right: true };
    keyboard_move_player(right_up, 1000, &Player { speed: 400 }, &assets, &bounds, &mut pos, &mut anim);
    assert_eq!(pos, pt(200_000, 360_000));
}

#[test]
fn transition_table() {
    assert_eq!(check_transition(GameState::Loading, GameState::Playing), Ok(true));
    assert_eq!(check_transition(GameState::Playing, GameState::Menu), Ok(true));
    assert_eq!(check_transition(GameState::Menu, GameState::Playing), Ok(true));
    assert_eq!(check_transition(GameState::Menu, GameState::Menu), Ok(false));
    assert_eq!(check_transition(GameState::Menu, GameState::Loading), Err(StateError::InvalidStateTransition));
    assert_eq!(check_transition(GameState::Playing, GameState::Loading), Err(StateError::InvalidStateTransition));
    assert_eq!(check_transition(GameState::Loading, GameState::Menu), Err(StateError::InvalidStateTransition));
}

#[test]
fn invalid_request_changes_nothing() {
    let mut g = new_game(8);
    assert_eq!(g.request_transition(GameState::Menu), Err(StateError::InvalidStateTransition));
    assert_eq!(g.state, GameState::Loading);
    assert_eq!(g.world.len(), 0);
}

#[test]
fn entering_playing_leaves_only_the_player() {
    let mut g = new_game(16);
    assert_eq!(g.request_transition(GameState::Playing), Ok(true));
    let mut rng = StdRng::seed_from_u64(1);
    for _ in 0..30 {
        g.tick(100, no_keys(), &vec![], &mut rng);
    }
    assert!(g.world.len() > 1);
    let player_id = g.world.actor(0).id;
    assert_eq!(g.request_transition(GameState::Menu), Ok(true));
    assert_eq!(g.request_transition(GameState::Playing), Ok(true));
    assert_eq!(g.world.len(), 1);
    let a = g.world.actor(0);
    assert!(matches!(a.kind, ActorKind::Player(Player { speed }) if speed == PLAYER_SPEED));
    assert_eq!(a.position, pt(0, 0));
    assert_ne!(a.id, player_id);
    // The old player's id is dead.
    assert_eq!(g.world.find(player_id), None);
}

#[test]
fn three_strikes_in_one_tick_end_the_round_once() {
    let mut g = new_game(16);
    g.request_transition(GameState::Playing).unwrap();
    let player = g.world.actor(0).id;
    let mut rng = StdRng::seed_from_u64(2);
    while g.world.len() < 2 {
        g.tick(100, no_keys(), &vec![], &mut rng);
    }
    let enemy = g.world.actor(1).id;
    let events = vec![
        CollisionEvent::Started(player, enemy),
        CollisionEvent::Started(enemy, player),
        CollisionEvent::Started(player, enemy),
    ];
    let report = g.tick(16, no_keys(), &events, &mut rng);
    assert_eq!(report.game_over, Some(GameOverEvent));
    assert_eq!(report.spawned, None);
    assert_eq!(g.state, GameState::Menu);
    // Already in the menu: the same batch again requests nothing.
    assert_eq!(g.handle_collisions(&events), None);
    assert_eq!(g.state, GameState::Menu);
}

#[test]
fn stop_events_and_unknown_bodies_are_dropped() {
    let mut g = new_game(16);
    g.request_transition(GameState::Playing).unwrap();
    let player = g.world.actor(0).id;
    let mut rng = StdRng::seed_from_u64(4);
    while g.world.len() < 2 {
        g.tick(100, no_keys(), &vec![], &mut rng);
    }
    let enemy = g.world.actor(1).id;
    let events = vec![
        CollisionEvent::Stopped(player, enemy),
        CollisionEvent::Started(player, 9_999),
        CollisionEvent::Started(player, player),
    ];
    assert!(!collision_event(&g.world, &events));
    assert_eq!(g.handle_collisions(&events), None);
    assert_eq!(g.state, GameState::Playing);
    assert!(collision_event(&g.world, &vec![CollisionEvent::Started(enemy, player)]));
}

#[test]
fn ten_ticks_spawn_two_enemies() {
    let mut g = new_game(64);
    g.request_transition(GameState::Playing).unwrap();
    assert_eq!(g.enemy_timer.duration(), ENEMY_SPAWN_MS);
    let mut rng = StdRng::seed_from_u64(42);
    let mut fired = Vec::new();
    for t in 1..=10 {
        let r = g.tick(100, no_keys(), &vec![], &mut rng);
        if r.spawned.is_some() {
            fired.push(t);
        }
    }
    assert_eq!(fired, vec![5, 10]);
}

#[test]
fn same_seed_same_spawns() {
    let run = |seed: u64| {
        let mut g = new_game(64);
        g.request_transition(GameState::Playing).unwrap();
        let mut rng = StdRng::seed_from_u64(seed);
        for _ in 0..20 {
            g.tick(100, no_keys(), &vec![], &mut rng);
        }
        (0..g.world.len()).map(|i| g.world.actor(i).position).collect::<Vec<_>>()
    };
    assert_eq!(run(9), run(9));
}

#[test]
fn ticks_outside_playing_do_nothing() {
    let mut g = new_game(8);
    let mut rng = StdRng::seed_from_u64(5);
    let r = g.tick(1000, no_keys(), &vec![], &mut rng);
    assert_eq!(r.spawned, None);
    assert_eq!(r.game_over, None);
    assert_eq!(g.enemy_timer.elapsed(), 0);
    assert_eq!(g.world.len(), 0);
}

#[test]
fn launch_direction_points_inward_within_cone() {
    let path = Path::new(vec![pt(0, 0), pt(1000, 0), pt(0, 1000)]).ok().unwrap();
    let s = segment_of(&path, 0);
    assert_eq!(launch_direction(&s, 0), pt(0, -1000));
    assert_eq!(launch_direction(&s, 1000), pt(707, -707));
    assert_eq!(launch_direction(&s, -1000), pt(-707, -707));
}

#[test]
fn spawned_enemy_has_drawn_values() {
    let path = ScreenPath::default().0;
    let s = segment_of(&path, 1);
    let mut w = World::new(4);
    let id = spawn_enemy_at(&mut w, &s, SAMPLE_RESOLUTION / 2, 0, 150, 1, &enemy_assets()).unwrap();
    let a = w.actor(0);
    assert_eq!(a.id, id);
    assert_eq!(a.position, pt(200_000, 0));
    match a.kind {
        ActorKind::Enemy(kind, e) => {
            assert_eq!(kind, EnemyKind::Swim);
            assert_eq!(e.speed, 150);
            assert_eq!(e.direction, pt(-1000, 0));
        }
        ActorKind::Player(_) => panic!("expected an enemy"),
    }
    assert_eq!(a.animation.current_appearance(), enemy_assets().swim);
    assert!(a.animation.is_playing());
}

#[test]
fn spawner_draws_within_ranges() {
    let path = ScreenPath::default().0;
    let mut w = World::new(1000);
    let mut t = Timer::from_millis(ENEMY_SPAWN_MS);
    let mut rng = StdRng::seed_from_u64(8);
    let mut speeds = std::collections::BTreeSet::new();
    for _ in 0..200 {
        let r = spawn_enemy(&mut w, &mut t, &path, &enemy_assets(), &mut rng, 500);
        assert!(matches!(r, Ok(Some(_))));
    }
    for i in 0..w.len() {
        match w.actor(i).kind {
            ActorKind::Enemy(_, e) => {
                assert!(MIN_ENEMY_SPEED <= e.speed && e.speed < MAX_ENEMY_SPEED);
                speeds.insert(e.speed);
            }
            ActorKind::Player(_) => panic!("expected an enemy"),
        }
    }
    assert!(speeds.len() > 20);
}

#[test]
fn full_world_skips_spawn() {
    let mut w = World::new(1);
    assert_eq!(spawn_player(&mut w, &player_assets()), Ok(0));
    assert_eq!(spawn_player(&mut w, &player_assets()), Err(SpawnError::SpawnCapacityExceeded));
    let path = ScreenPath::default().0;
    let mut t = Timer::from_millis(ENEMY_SPAWN_MS);
    let mut rng = StdRng::seed_from_u64(6);
    assert_eq!(spawn_enemy(&mut w, &mut t, &path, &enemy_assets(), &mut rng, 100), Ok(None));
    assert_eq!(
        spawn_enemy(&mut w, &mut t, &path, &enemy_assets(), &mut rng, 400),
        Err(SpawnError::SpawnCapacityExceeded)
    );
    assert_eq!(w.len(), 1);
}

#[test]
fn enemy_sheet_pick() {
    let assets = enemy_assets();
    assert_eq!(assets.pick(0), (EnemyKind::Fly, assets.fly));
    assert_eq!(assets.pick(1), (EnemyKind::Swim, assets.swim));
    assert_eq!(assets.pick(2), (EnemyKind::Walk, assets.walk));
    let mut rng = StdRng::seed_from_u64(12);
    let mut kinds = std::collections::BTreeSet::new();
    for _ in 0..60 {
        kinds.insert(assets.random(&mut rng).1.id);
    }
    assert_eq!(kinds.len(), 3);
}

#[test]
fn entering_playing_without_room_leaves_world_empty() {
    let mut g = new_game(0);
    assert_eq!(g.request_transition(GameState::Playing), Ok(true));
    assert_eq!(g.state, GameState::Playing);
    assert_eq!(g.world.len(), 0);
}

#[test]
fn animation_split_into_uneven_ticks() {
    let deltas = [7u32, 93, 150, 1, 49, 200, 0, 100];
    let total: u32 = deltas.iter().sum();
    let mut whole = Animation::new(100, sheet(3, 3));
    update_animation(&mut whole, total);
    let mut split = Animation::new(100, sheet(3, 3));
    for d in deltas {
        update_animation(&mut split, d);
    }
    assert_eq!(total, 600);
    assert_eq!(whole.frame_index(), 0);
    assert_eq!(split.frame_index(), whole.frame_index());
}
