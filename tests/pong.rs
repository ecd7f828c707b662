use pong::arena::{
    arena_walls, starting_ball, BALL_START_SPEED, BALL_START_Y, HALF_BALL_SIZE, HALF_FLOOR_SPAN,
    HALF_SIDE_WALL_SPAN, HALF_WALL_THICKNESS, LEFT_WALL, RIGHT_WALL, TOP_WALL, UNIT,
};
use pong::collision::{
    collide, perturbation_of, reflect_component, resolve_collision, resolve_collisions, Collider,
    ColliderKind, Collision, Scoreboard, MAX_PERTURBATION,
};
use pong::components::{Body, Extent, Position, Velocity};
use pong::motion::integrate_motion;
use pong::paddle::{move_player, PLAYER_BOUND};
use pong::timestep::{tick, FixedTimestep};

const PERTURBATIONS: [i64; 7] = [-100, 100, 210, 150, -175, 315, -225];

fn body(x: i64, y: i64, hw: i64, hh: i64, vx: i64, vy: i64) -> Body {
    Body {
        position: Position { x_position: x, y_position: y },
        half_extent: Extent { half_width: hw, half_height: hh },
        velocity: Velocity { x_velocity: vx, y_velocity: vy },
    }
}

fn collider(x: i64, y: i64, hw: i64, hh: i64, kind: ColliderKind) -> Collider {
    Collider {
        position: Position { x_position: x, y_position: y },
        half_extent: Extent { half_width: hw, half_height: hh },
        kind,
    }
}

fn ball_at(x: i64, y: i64, vx: i64, vy: i64) -> Body {
    body(x, y, 15 * UNIT, 15 * UNIT, vx, vy)
}

fn left_wall() -> Collider {
    collider(-450 * UNIT, 0, 5 * UNIT, 305 * UNIT, ColliderKind::LeftGoal)
}

#[test]
fn integrate_moves_by_velocity_times_dt() {
    let mut b = body(1000, -2000, 7, 9, 30, -40);
    integrate_motion(&mut b, 17);
    assert_eq!(b.position, Position { x_position: 1000 + 30 * 17, y_position: -2000 - 40 * 17 });
    assert_eq!(b.velocity, Velocity { x_velocity: 30, y_velocity: -40 });
    assert_eq!(b.half_extent, Extent { half_width: 7, half_height: 9 });
}

#[test]
fn integrate_large_product_is_exact() {
    let mut b = body(-4_000_000_000_000_000_000, 0, 1, 1, 1_000_000_000_000, -3);
    integrate_motion(&mut b, 4_000_000);
    assert_eq!(b.position.x_position, 0);
    assert_eq!(b.position.y_position, -12_000_000);
}

#[test]
fn disjoint_pair_changes_nothing() {
    let mut b = ball_at(0, 0, -5000, 700);
    let before = b;
    let mut board = Scoreboard { player_1_score: 3, player_2_score: 4 };
    assert_eq!(collide(&b, &left_wall()), None);
    let hit = resolve_collision(&mut b, &left_wall(), &mut board, 2);
    assert!(!hit);
    assert_eq!(b, before);
    assert_eq!(board, Scoreboard { player_1_score: 3, player_2_score: 4 });
}

#[test]
fn touching_edges_do_not_overlap() {
    // Centres exactly one sum of half-extents apart.
    let b = ball_at(-430 * UNIT, 0, -5000, 0);
    assert_eq!(collide(&b, &left_wall()), None);
}

#[test]
fn left_wall_scenario_with_ball_at_origin_is_no_contact() {
    // A ball centred at the origin is 450 units from the left wall: no overlap.
    let mut b = ball_at(0, 0, -50 * 100, 0);
    let mut board = Scoreboard::new();
    let hit = resolve_collision(&mut b, &left_wall(), &mut board, 0);
    assert!(!hit);
    assert_eq!(b.velocity.x_velocity, -5000);
    assert_eq!(board.player_2_score, 0);
}

#[test]
fn left_goal_hit_reflects_and_scores_player_two() {
    for pick in 0..7u64 {
        let mut b = ball_at(-435 * UNIT, 0, -50 * 100, 0);
        let mut board = Scoreboard::new();
        assert_eq!(collide(&b, &left_wall()), Some(Collision::Right));
        let hit = resolve_collision(&mut b, &left_wall(), &mut board, pick);
        assert!(hit);
        assert!(b.velocity.x_velocity > 0);
        assert_eq!(b.velocity.x_velocity, 5000 + PERTURBATIONS[pick as usize]);
        assert_eq!(b.velocity.y_velocity, 0);
        assert_eq!(board, Scoreboard { player_1_score: 0, player_2_score: 1 });
        assert_eq!(b.position, Position { x_position: -435 * UNIT, y_position: 0 });
    }
}

#[test]
fn right_goal_hit_scores_player_one() {
    let wall = collider(450 * UNIT, 0, 5 * UNIT, 305 * UNIT, ColliderKind::RightGoal);
    let mut b = ball_at(435 * UNIT, 10 * UNIT, 4000, 100);
    let mut board = Scoreboard { player_1_score: 7, player_2_score: 2 };
    assert_eq!(collide(&b, &wall), Some(Collision::Left));
    assert!(resolve_collision(&mut b, &wall, &mut board, 1));
    assert_eq!(b.velocity, Velocity { x_velocity: -4000 + 100, y_velocity: 100 });
    assert_eq!(board, Scoreboard { player_1_score: 8, player_2_score: 2 });
}

#[test]
fn moving_away_is_not_reflected_but_still_scores() {
    let mut b = ball_at(-435 * UNIT, 0, 3000, 0);
    let mut board = Scoreboard::new();
    assert!(resolve_collision(&mut b, &left_wall(), &mut board, 3));
    assert_eq!(b.velocity, Velocity { x_velocity: 3000, y_velocity: 0 });
    assert_eq!(board.player_2_score, 1);
}

#[test]
fn top_and_bottom_hits_reflect_vertically() {
    let top = collider(0, 300 * UNIT, 455 * UNIT, 5 * UNIT, ColliderKind::Wall);
    let mut b = ball_at(0, 285 * UNIT, 100, 2000);
    assert_eq!(collide(&b, &top), Some(Collision::Bottom));
    let mut board = Scoreboard::new();
    assert!(resolve_collision(&mut b, &top, &mut board, 4));
    assert_eq!(b.velocity, Velocity { x_velocity: 100, y_velocity: -2000 - 175 });
    assert_eq!(board, Scoreboard::new());

    let bottom = collider(0, -300 * UNIT, 455 * UNIT, 5 * UNIT, ColliderKind::Wall);
    let mut c = ball_at(0, -285 * UNIT, 100, -2000);
    assert_eq!(collide(&c, &bottom), Some(Collision::Top));
    assert!(resolve_collision(&mut c, &bottom, &mut board, 6));
    assert_eq!(c.velocity, Velocity { x_velocity: 100, y_velocity: 2000 - 225 });
}

#[test]
fn equal_depths_count_as_horizontal() {
    let block = collider(0, 0, 10, 10, ColliderKind::Paddle);
    let b = body(-15, -15, 10, 10, 0, 0);
    assert_eq!(collide(&b, &block), Some(Collision::Left));
}

#[test]
fn shallower_vertical_depth_picks_vertical_axis() {
    let block = collider(0, 0, 10, 10, ColliderKind::Paddle);
    let b = body(-12, 18, 10, 10, 0, 0);
    assert_eq!(collide(&b, &block), Some(Collision::Top));
}

#[test]
fn inside_changes_nothing_but_signals() {
    let goal = collider(0, 0, 100 * UNIT, 100 * UNIT, ColliderKind::LeftGoal);
    let mut b = ball_at(3 * UNIT, -2 * UNIT, 1234, -567);
    let before = b;
    let mut board = Scoreboard { player_1_score: 1, player_2_score: 1 };
    assert_eq!(collide(&b, &goal), Some(Collision::Inside));
    assert!(resolve_collision(&mut b, &goal, &mut board, 5));
    assert_eq!(b, before);
    assert_eq!(board, Scoreboard { player_1_score: 1, player_2_score: 1 });
}

#[test]
fn one_pass_per_collider() {
    // A slow ball: a second pass would flip it back.
    let mut b = ball_at(-435 * UNIT, 0, -50, 0);
    let mut board = Scoreboard::new();
    let cs = vec![left_wall()];
    let picks = vec![5u64];
    assert!(resolve_collisions(&mut b, &cs, &mut board, &picks));
    assert_eq!(b.velocity.x_velocity, 50 + 315);
    assert_eq!(board.player_2_score, 1);
}

#[test]
fn no_overlap_in_tick_is_idempotent() {
    let mut b = starting_ball();
    let before = b;
    let walls = arena_walls();
    let picks = vec![0u64, 1, 2, 3];
    let mut board = Scoreboard { player_1_score: 9, player_2_score: 11 };
    for _ in 0..2 {
        assert!(!resolve_collisions(&mut b, &walls, &mut board, &picks));
        assert_eq!(b, before);
        assert_eq!(board, Scoreboard { player_1_score: 9, player_2_score: 11 });
    }
}

#[test]
fn empty_collider_list_signals_nothing() {
    let mut b = ball_at(0, 0, 10, 10);
    let mut board = Scoreboard::new();
    assert!(!resolve_collisions(&mut b, &Vec::new(), &mut board, &Vec::new()));
    assert_eq!(b.velocity, Velocity { x_velocity: 10, y_velocity: 10 });
}

#[test]
fn corner_hit_resolves_each_collider_in_order() {
    let walls = arena_walls();
    // Overlaps the left goal (right side) and the top wall (bottom side).
    let mut b = ball_at(-437 * UNIT, 287 * UNIT, -1000, 1000);
    let mut board = Scoreboard::new();
    let picks = vec![1u64, 0, 0, 2];
    assert!(resolve_collisions(&mut b, &walls, &mut board, &picks));
    assert_eq!(b.velocity, Velocity { x_velocity: 1000 + 100, y_velocity: -1000 + 210 });
    assert_eq!(board, Scoreboard { player_1_score: 0, player_2_score: 1 });
}

#[test]
fn perturbations_come_from_the_fixed_set() {
    for pick in 0..50u64 {
        let p = perturbation_of(pick);
        assert!(PERTURBATIONS.contains(&p));
        assert_ne!(p, 0);
        assert_eq!(p, PERTURBATIONS[(pick % 7) as usize]);
    }
    assert_eq!(perturbation_of(u64::MAX), PERTURBATIONS[(u64::MAX % 7) as usize]);
}

#[test]
fn reflection_is_never_bare_negation() {
    for pick in 0..7u64 {
        for v in [-5000i64, -1, 0, 1, 315, 40_000] {
            let r = reflect_component(v, pick);
            assert_ne!(r, -v);
            assert!(((r.abs() - v.abs()).abs()) <= MAX_PERTURBATION);
        }
    }
    assert_eq!(reflect_component(i64::MAX - 315, 5), -(i64::MAX - 315) + 315);
}

#[test]
fn tick_moves_then_resolves() {
    let walls = arena_walls();
    let mut b = ball_at(-430 * UNIT, 0, -1000, 0);
    let mut board = Scoreboard::new();
    let picks = vec![3u64, 3, 3, 3];
    // 1000 hundredths per second for 1000 ms moves 10 units: into the left wall.
    assert!(tick(&mut b, &walls, &mut board, &picks, 1000));
    assert_eq!(b.position.x_position, -440 * UNIT);
    assert_eq!(b.velocity.x_velocity, 1000 + 150);
    assert_eq!(board.player_2_score, 1);
}

#[test]
fn timestep_accumulates_and_carries() {
    let mut t = FixedTimestep::new(16);
    assert_eq!(t.advance(10), 0);
    assert_eq!(t.accumulated, 10);
    assert_eq!(t.advance(40), 3);
    assert_eq!(t.accumulated, 2);
    assert_eq!(t.advance(0), 0);
    assert_eq!(t.accumulated, 2);
    assert_eq!(t.advance(14), 1);
    assert_eq!(t.accumulated, 0);
}

#[test]
fn paddle_accelerates_with_friction() {
    let mut p = Position { x_position: 0, y_position: -240 * UNIT };
    let mut v = Velocity { x_velocity: 0, y_velocity: 0 };
    move_player(&mut p, &mut v, false, true, 1000);
    assert_eq!(v.x_velocity, 100);
    assert_eq!(p, Position { x_position: 100 * 1000, y_position: -240 * UNIT });
    move_player(&mut p, &mut v, true, false, 10);
    assert_eq!(v.x_velocity, 0);
    assert_eq!(p.x_position, 100_000);
    move_player(&mut p, &mut v, true, true, 10);
    assert_eq!(v.x_velocity, 0);
}

#[test]
fn paddle_friction_slows_toward_zero() {
    let mut p = Position { x_position: 0, y_position: 0 };
    let mut v = Velocity { x_velocity: -120, y_velocity: 5 };
    move_player(&mut p, &mut v, false, false, 2);
    assert_eq!(v, Velocity { x_velocity: -70, y_velocity: 5 });
    assert_eq!(p.x_position, -140);
}

#[test]
fn paddle_is_clamped_to_the_field() {
    let mut p = Position { x_position: 449 * UNIT, y_position: 0 };
    let mut v = Velocity { x_velocity: 1_000_000, y_velocity: 0 };
    move_player(&mut p, &mut v, false, false, 4_000_000_000);
    assert_eq!(p.x_position, PLAYER_BOUND);
    let mut q = Position { x_position: 0, y_position: 0 };
    let mut w = Velocity { x_velocity: i64::MIN + 200, y_velocity: 0 };
    move_player(&mut q, &mut w, true, false, u32::MAX);
    assert_eq!(q.x_position, -PLAYER_BOUND);
}

#[test]
fn arena_has_goals_and_walls() {
    let walls = arena_walls();
    assert_eq!(walls.len(), 4);
    assert_eq!(walls[0], left_wall());
    assert_eq!(walls[0].position.x_position, LEFT_WALL);
    assert_eq!(walls[1].kind, ColliderKind::RightGoal);
    assert_eq!(walls[1].position.x_position, RIGHT_WALL);
    assert_eq!(walls[2].kind, ColliderKind::Wall);
    assert_eq!(walls[3].position.y_position, TOP_WALL);
    assert_eq!(walls[3].half_extent, Extent { half_width: HALF_FLOOR_SPAN, half_height: HALF_WALL_THICKNESS });
    assert_eq!(walls[1].half_extent, Extent { half_width: HALF_WALL_THICKNESS, half_height: HALF_SIDE_WALL_SPAN });
}

#[test]
fn starting_ball_values() {
    let b = starting_ball();
    assert_eq!(b.position, Position { x_position: 0, y_position: BALL_START_Y });
    assert_eq!(b.position.y_position, -5_000_000);
    assert_eq!(b.half_extent, Extent { half_width: HALF_BALL_SIZE, half_height: HALF_BALL_SIZE });
    assert_eq!(b.velocity, Velocity { x_velocity: BALL_START_SPEED, y_velocity: -BALL_START_SPEED });
    assert_eq!(BALL_START_SPEED, 20_000);
}

#[test]
fn extent_from_full_size() {
    assert_eq!(Extent::from_size(30, 610), Extent { half_width: 15, half_height: 305 });
    assert_eq!(Extent::from_size(1, 3), Extent { half_width: 0, half_height: 1 });
}
