use battle_core::board::{BoardLayout, BulletBoard};
use battle_core::death::{update_restart, DeathActivator, DespawnInTime};
use battle_core::dodging::{constrain_player, player_movement, DodgingAction, DodgingPhaseManager};
use battle_core::fight::{
    advance_turn, damage_formula, update_fight_logic, FightManager, OpponentHealthBarManager,
};
use battle_core::geom::{aabb_collision, circles_collide, dist2, Rectangle};
use battle_core::health::{update_damage, update_flash_animation, Damage};
use battle_core::interp::{isqrt, move_towards, move_towards_vec};
use battle_core::menu::{button_positions, MenuOption, MenuSelect, MenuState};
use battle_core::menu_transition::MenuTransition;
use battle_core::physics::PhysicsComponent;
use battle_core::stats::{displayed_health, health_bar_fill, PlayerStats, Progress};

fn test_board() -> BulletBoard {
    BulletBoard {
        width: 1550,
        height: 1300,
        pos_x: 0,
        pos_y: 0,
        target_width: 1550,
        target_height: 1300,
        target_x: 0,
        target_y: 0,
        border: 50,
        expansion_rate: 200,
        movement_rate: 10,
    }
}

fn test_player_stats() -> PlayerStats {
    PlayerStats {
        health: 20,
        max_health: 20,
        invincibility: 0,
        flash_animation: 0,
        interval: 3,
    }
}

#[test]
fn move_towards_steps_exactly() {
    assert_eq!(move_towards(0, 10, 3), 3);
    assert_eq!(move_towards(10, 0, 3), -3);
    assert_eq!(move_towards(0, 10, 0), 0);
    assert_eq!(move_towards(5, 5, 7), 0);
    assert_eq!(move_towards(0, 10, -4), 0);
}

#[test]
fn move_towards_never_overshoots_and_converges() {
    // Covers the no-overshoot rule: a rate at least the distance lands
    // exactly on the target.
    assert_eq!(move_towards(0, 10, 20), 10);
    assert_eq!(move_towards(10, -10, 100), -20);
    // Monotone convergence: the distance falls by the rate each step.
    let mut x: i32 = 0;
    let mut last_dist: i32 = 10;
    for _ in 0..10 {
        x += move_towards(x, 10, 3);
        let dist = (10 - x).abs();
        assert!(dist <= last_dist);
        if last_dist > 0 {
            assert!(dist < last_dist);
        }
        last_dist = dist;
    }
    assert_eq!(x, 10);
}

#[test]
fn move_towards_vec_arrives_and_stays_in_bounds() {
    // Within reach: lands exactly.
    let (dx, dy) = move_towards_vec(0, 0, 3, 4, 5);
    assert_eq!((dx, dy), (3, 4));
    // Out of reach: marches toward the target without passing it.
    let mut px: i32 = 0;
    let mut py: i32 = 0;
    for _ in 0..20 {
        let (sx, sy) = move_towards_vec(px, py, 3, 4, 1);
        px += sx;
        py += sy;
        assert!(px >= 0 && px <= 3);
        assert!(py >= 0 && py <= 4);
    }
    assert_eq!((px, py), (3, 4));
}

#[test]
fn isqrt_exact_values() {
    assert_eq!(isqrt(0), 0);
    assert_eq!(isqrt(1), 1);
    assert_eq!(isqrt(15), 3);
    assert_eq!(isqrt(16), 4);
    assert_eq!(isqrt(1_000_000), 1000);
}

#[test]
fn set_absolute_makes_board_stable() {
    // The stability predicate holds the moment the board is set outright.
    let mut board = test_board();
    board.width = 0;
    board.height = 0;
    assert!(!board.stable());
    board.set_absolute(5650, 1300, 0, -800);
    assert!(board.stable());
    assert_eq!(board.width, 5650);
    assert_eq!(board.target_width, 5650);
}

#[test]
fn absolute_board_matches_layout_and_is_stable() {
    let mut board = test_board();
    let layout = BoardLayout { x: 0, y: -800, width: 5650, height: 1300 };
    board.absolute_board(layout);
    assert!(board.stable());
    assert_eq!(board.pos_y, -800);
}

#[test]
fn stable_rounds_sizes_to_whole_units() {
    let mut board = test_board();
    board.width = 1004;
    board.target_width = 1000;
    assert!(board.stable());
    board.width = 1006;
    assert!(!board.stable());
}

#[test]
fn board_step_reaches_transition_target() {
    let mut board = test_board();
    let layout = BoardLayout { x: 20, y: -30, width: 2550, height: 500 };
    board.transition_board(layout);
    assert_eq!(board.target_width, 2550);
    assert_eq!(board.width, 1550);
    for _ in 0..200 {
        board.step();
    }
    assert_eq!(board.width, 2550);
    assert_eq!(board.height, 500);
    assert_eq!(board.pos_x, 20);
    assert_eq!(board.pos_y, -30);
    assert!(board.stable());
}

#[test]
fn board_border_geometry() {
    let board = test_board();
    assert_eq!(board.get_top(), (0, 650 + 25));
    assert_eq!(board.get_bottom(), (0, -650 - 25));
    assert_eq!(board.get_left(), (-775 - 25, 0));
    assert_eq!(board.get_right(), (775 + 25, 0));
    assert_eq!(board.get_vert_size(), (1550 + 100, 50));
    assert_eq!(board.get_hor_size(), (50, 1300 + 100));
}

#[test]
fn menu_transition_waits_for_stability() {
    let mut transition = MenuTransition::new();
    let mut board = test_board();
    board.width = 0;
    transition.new_state(MenuState::Fight);
    assert_eq!(transition.update_menu_state(&board), None);
    assert_eq!(transition.new_menu, Some(MenuState::Fight));
    board.set_absolute(1550, 1300, 0, 0);
    assert_eq!(transition.update_menu_state(&board), Some(MenuState::Fight));
    assert_eq!(transition.new_menu, None);
    assert_eq!(transition.update_menu_state(&board), None);
}

#[test]
fn menu_state_from_option() {
    assert_eq!(MenuState::from_option(MenuOption::Fight), MenuState::Fight);
    assert_eq!(MenuState::from_option(MenuOption::Act), MenuState::Decision);
    assert_eq!(MenuState::from_option(MenuOption::Item), MenuState::Decision);
    assert_eq!(MenuState::from_option(MenuOption::Mercy), MenuState::Decision);
}

#[test]
fn menu_select_cycles_both_ways() {
    let mut menu = MenuSelect {
        selection: 0,
        selections: vec![
            MenuOption::Fight,
            MenuOption::Act,
            MenuOption::Item,
            MenuOption::Mercy,
        ],
        button_width: 1100,
        button_height: 420,
        spacing: 450,
    };
    menu.cycle(-1);
    assert_eq!(menu.selection, 3);
    assert_eq!(menu.get_option(), MenuOption::Mercy);
    menu.cycle(1);
    menu.cycle(1);
    assert_eq!(menu.selection, 1);
    assert_eq!(menu.get_option(), MenuOption::Act);
}

#[test]
fn button_positions_follow_spacing() {
    let menu = MenuSelect {
        selection: 0,
        selections: vec![
            MenuOption::Fight,
            MenuOption::Act,
            MenuOption::Item,
            MenuOption::Mercy,
        ],
        button_width: 1100,
        button_height: 420,
        spacing: 450,
    };
    let gaps = vec![430, 500, 450, 0];
    let r = button_positions(&menu, 5650, 50, &gaps);
    assert_eq!(r.len(), 4);
    assert_eq!(r[0], -2825 - 50 + 550);
    assert_eq!(r[1], r[0] + 430 + 1100);
    assert_eq!(r[2], r[1] + 500 + 1100);
    assert_eq!(r[3], r[2] + 450 + 1100);
}

#[test]
fn rectangle_intersects_is_symmetric() {
    let a = Rectangle::new(0, 10, 10, 10);
    let b = Rectangle::new(5, 12, 10, 10);
    let c = Rectangle::new(100, 10, 5, 5);
    assert!(a.intersects(b));
    assert!(b.intersects(a));
    assert!(!a.intersects(c));
    assert!(!c.intersects(a));
}

#[test]
fn rectangle_point_and_rect_containment() {
    let a = Rectangle::new(0, 10, 10, 10);
    assert!(a.contains_point(5, 5));
    // Edges are excluded.
    assert!(!a.contains_point(0, 5));
    assert!(!a.contains_point(10, 5));
    assert!(!a.contains_point(5, 10));
    let inner = Rectangle::new(2, 8, 4, 4);
    assert!(a.contains_rect(inner));
    assert!(!inner.contains_rect(a));
}

#[test]
fn rectangle_intersection_depth() {
    let a = Rectangle::new(0, 10, 10, 10);
    let b = Rectangle::new(6, 10, 10, 10);
    assert_eq!(Rectangle::get_intersection_depth(a, b), (-4, -10));
    let far = Rectangle::new(100, 10, 10, 10);
    assert_eq!(Rectangle::get_intersection_depth(a, far), (0, 0));
}

#[test]
fn rectangle_accessors() {
    let a = Rectangle::new_v(10, 20, 5, 7);
    assert_eq!(a.left(), 5);
    assert_eq!(a.right(), 15);
    assert_eq!(a.top(), 27);
    assert_eq!(a.bottom(), 13);
    assert_eq!(a.middle_x(), 10);
    assert_eq!(a.middle_y(), 20);
}

#[test]
fn aabb_and_circle_overlap() {
    assert!(aabb_collision(0, 0, 32, 32, 30, 0, 30, 30));
    assert!(!aabb_collision(0, 0, 32, 32, 31, 0, 30, 30));
    assert!(circles_collide(0, 0, 18, 0, 40, 150));
    assert!(!circles_collide(0, 0, 190, 0, 40, 150));
    assert_eq!(dist2(0, 0, 3, 4), 25);
}

#[test]
fn damage_lands_once_per_invincibility_window() {
    // Overlapping frames during the window cost exactly one decrement.
    let player = PhysicsComponent::new_full(0, 0, 0, 0, 30, 30, 30, 30);
    let source = PhysicsComponent::new_full(20, 0, 0, 0, 30, 30, 30, 30);
    let sources = vec![(source, Damage { damage: 5 })];
    let mut stats = test_player_stats();
    let mut transition = MenuTransition::new();

    let hit = update_damage(&player, &mut stats, &sources, 3, &mut transition);
    assert_eq!(hit, Some(0));
    assert_eq!(stats.health, 15);
    assert_eq!(stats.invincibility, 3);

    // Still overlapping on the next frames: no further decrement.
    for _ in 0..3 {
        let again = update_damage(&player, &mut stats, &sources, 3, &mut transition);
        assert_eq!(again, None);
        assert_eq!(stats.health, 15);
        update_flash_animation(&mut stats, 1, true);
    }
    // Window over: the same source can land again.
    let third = update_damage(&player, &mut stats, &sources, 3, &mut transition);
    assert_eq!(third, Some(0));
    assert_eq!(stats.health, 10);
    assert_eq!(transition.new_menu, None);
}

#[test]
fn damage_picks_first_overlapping_source() {
    let player = PhysicsComponent::new_full(0, 0, 0, 0, 30, 30, 30, 30);
    let miss = PhysicsComponent::new_full(5000, 0, 0, 0, 30, 30, 30, 30);
    let hit = PhysicsComponent::new_full(10, 0, 0, 0, 30, 30, 30, 30);
    let sources = vec![
        (miss, Damage { damage: 9 }),
        (hit, Damage { damage: 4 }),
        (hit, Damage { damage: 100 }),
    ];
    let mut stats = test_player_stats();
    let mut transition = MenuTransition::new();
    let got = update_damage(&player, &mut stats, &sources, 2, &mut transition);
    assert_eq!(got, Some(1));
    assert_eq!(stats.health, 16);
}

#[test]
fn lethal_damage_parks_restart() {
    let player = PhysicsComponent::new_full(0, 0, 0, 0, 30, 30, 30, 30);
    let source = PhysicsComponent::new_full(0, 0, 0, 0, 30, 30, 30, 30);
    let sources = vec![(source, Damage { damage: 50 })];
    let mut stats = test_player_stats();
    let mut transition = MenuTransition::new();
    update_damage(&player, &mut stats, &sources, 3, &mut transition);
    assert_eq!(stats.health, 0);
    assert_eq!(transition.new_menu, Some(MenuState::Restart));
}

#[test]
fn flash_animation_toggles_visibility() {
    let mut stats = test_player_stats();
    stats.invincibility = 2;
    stats.flash_animation = 1;
    let v = update_flash_animation(&mut stats, 1, true);
    assert!(!v);
    assert_eq!(stats.flash_animation, 3);
    assert_eq!(stats.invincibility, 1);
    // Window over: the sprite is simply visible.
    let v2 = update_flash_animation(&mut stats, 2, v);
    assert!(v2);
}

#[test]
fn damage_formula_exact_values() {
    // atk 10, def 5, perfect strike, roll 1.50: (10 + 10 - 5 + 1.5) * 2.2
    // rounds to 36.
    assert_eq!(damage_formula(10, 5, 0, 150), 36);
    // Same strike at distance 565 ticks from the center:
    // 16.5 * (1 - 565 / 2825) * 2 = 26.4, rounded 26.
    assert_eq!(damage_formula(10, 5, 565, 150), 26);
    // A strike far off the end deals nothing or less.
    assert!(damage_formula(10, 5, 2825, 150) <= 0);
}

#[test]
fn calculate_damage_stays_within_roll_range() {
    let mut fight = FightManager::new();
    fight.position = 60;
    for _ in 0..20 {
        let d = fight.calculate_damage(10, 5);
        let mut possible = false;
        for roll in 100..200 {
            if damage_formula(10, 5, fight.position, roll) == d {
                possible = true;
            }
        }
        assert!(possible);
    }
}

#[test]
fn fight_bar_misses_off_the_end() {
    let board = test_board();
    let mut fight = FightManager::new();
    fight.init_fight(&board, 30, 45);
    assert_eq!(fight.position, -50 - 775);
    assert!(!fight.strike);
    let mut flashed = false;
    for _ in 0..2000 {
        flashed = fight.update_fight_bar(&board, 35);
        if fight.strike {
            break;
        }
    }
    assert!(fight.strike);
    assert!(fight.miss);
    assert!(fight.trigger_damage);
    assert!(!flashed);
    assert!(fight.position >= board.width / 2 + board.border);
}

#[test]
fn trigger_damage_only_first_strike() {
    let mut fight = FightManager::new();
    fight.trigger_damage();
    assert!(fight.strike);
    assert!(fight.trigger_damage);
    fight.trigger_damage = false;
    fight.trigger_damage();
    assert!(!fight.trigger_damage);
}

#[test]
fn fight_logic_applies_damage_and_hands_control_back() {
    let mut fight = FightManager::new();
    fight.strike = true;
    fight.trigger_damage = true;
    fight.miss = false;
    fight.position = 0;
    fight.attack_animation = 1;
    fight.fade_timer = 1;
    let mut progress = Progress { turns: 0, health: 100 };
    let mut bar = OpponentHealthBarManager::new();
    let mut transition = MenuTransition::new();
    let advance = update_fight_logic(
        &mut fight, &mut progress, &mut bar, &mut transition, 10, 5, 1,
    );
    // The animation and fade both ran out this frame.
    assert!(!fight.strike);
    assert!(!fight.trigger_damage);
    assert!(fight.exit_fight_menu);
    assert!(advance);
    assert_eq!(bar.old_health, 100);
    assert_eq!(bar.new_health, progress.health);
    let dealt = 100 - progress.health;
    assert_eq!(bar.damage_display, dealt);
    let mut possible = false;
    for roll in 100..200 {
        if damage_formula(10, 5, 0, roll) == dealt {
            possible = true;
        }
    }
    assert!(possible);
    assert_eq!(transition.new_menu, None);
}

#[test]
fn fight_logic_parks_enemy_death_at_zero_health() {
    let mut fight = FightManager::new();
    fight.strike = true;
    fight.trigger_damage = true;
    fight.miss = false;
    fight.position = 0;
    fight.attack_animation = 0;
    fight.fade_timer = 0;
    let mut progress = Progress { turns: 0, health: 1 };
    let mut bar = OpponentHealthBarManager::new();
    let mut transition = MenuTransition::new();
    let advance = update_fight_logic(
        &mut fight, &mut progress, &mut bar, &mut transition, 10, 0, 1,
    );
    assert_eq!(progress.health, 0);
    assert_eq!(transition.new_menu, Some(MenuState::EnemyDeath));
    assert!(!advance);
}

#[test]
fn fight_logic_missed_strike_deals_nothing() {
    let mut fight = FightManager::new();
    fight.strike = true;
    fight.trigger_damage = true;
    fight.miss = true;
    fight.attack_animation = 5;
    fight.fade_timer = 5;
    let mut progress = Progress { turns: 0, health: 100 };
    let mut bar = OpponentHealthBarManager::new();
    let mut transition = MenuTransition::new();
    let advance = update_fight_logic(
        &mut fight, &mut progress, &mut bar, &mut transition, 10, 5, 1,
    );
    assert_eq!(progress.health, 100);
    assert_eq!(fight.attack_animation, 4);
    assert!(!advance);
}

#[test]
fn advance_turn_wraps_the_script() {
    let mut progress = Progress { turns: 0, health: 7 };
    advance_turn(&mut progress, 2);
    assert_eq!(progress.turns, 1);
    advance_turn(&mut progress, 2);
    assert_eq!(progress.turns, 0);
    assert_eq!(progress.health, 7);
}

#[test]
fn dodging_phase_ends_into_selection() {
    let mut manager = DodgingPhaseManager::new();
    manager.time = 2;
    manager.has_attack = true;
    let mut transition = MenuTransition::new();
    let mut board = test_board();
    let selection_layout = BoardLayout { x: 0, y: -800, width: 5650, height: 1300 };
    let first = manager.update_dodging_phase(&mut transition, &mut board, selection_layout, 1);
    assert_eq!(first, DodgingAction::RunAttack);
    assert_eq!(transition.new_menu, None);
    let second = manager.update_dodging_phase(&mut transition, &mut board, selection_layout, 1);
    assert_eq!(second, DodgingAction::EndPhase);
    assert_eq!(transition.new_menu, Some(MenuState::Selection));
    assert_eq!(board.target_width, 5650);
    assert_eq!(board.target_y, -800);
}

#[test]
fn constrain_player_keeps_sprite_inside_board() {
    let board = test_board();
    let (x, y) = constrain_player(&board, 2000, -2000, 100, 100);
    assert_eq!(x, board.pos_x + board.width / 2 - 50);
    assert_eq!(y, board.pos_y - board.height / 2 + 50);
    let (cx, cy) = constrain_player(&board, 0, 0, 100, 100);
    assert_eq!((cx, cy), (0, 0));
}

#[test]
fn player_movement_moves_by_speed() {
    let mut physics = PhysicsComponent::new(0, 0);
    player_movement(&mut physics, true, false, true, false, 20);
    assert_eq!((physics.pos_x, physics.pos_y), (20, 20));
    player_movement(&mut physics, false, true, false, true, 20);
    assert_eq!((physics.pos_x, physics.pos_y), (0, 0));
    // Opposite keys cancel.
    player_movement(&mut physics, true, true, true, true, 20);
    assert_eq!((physics.pos_x, physics.pos_y), (0, 0));
}

#[test]
fn physics_step_adds_velocity() {
    let mut physics = PhysicsComponent::new_full(10, 20, 3, -4, 1, 1, 1, 1);
    physics.update_physics();
    assert_eq!((physics.pos_x, physics.pos_y), (13, 16));
}

#[test]
fn health_bar_math() {
    assert_eq!(health_bar_fill(50, 100, 1250), 625);
    assert_eq!(health_bar_fill(0, 100, 1250), 0);
    assert_eq!(health_bar_fill(100, 100, 1250), 1250);
    assert_eq!(displayed_health(30, 20, 1, 2), 25);
    assert_eq!(displayed_health(30, 20, 0, 2), 20);
    assert_eq!(displayed_health(30, 20, 2, 2), 30);
}

#[test]
fn dust_rows_dissolve_in_order() {
    let mut death = DeathActivator { rows: 2, timer: 0, i: 0, death_time: 10 };
    assert_eq!(death.activate_dust(3, 1), Some(0));
    assert_eq!(death.timer, 2);
    assert_eq!(death.activate_dust(3, 1), None);
    assert_eq!(death.activate_dust(3, 1), Some(1));
    // All rows gone: the clock keeps falling but nothing dissolves.
    assert_eq!(death.activate_dust(3, 5), None);
    assert_eq!(death.i, 2);
}

#[test]
fn death_timer_hands_over_to_restart() {
    let mut death = DeathActivator { rows: 0, timer: 0, i: 0, death_time: 2 };
    let mut transition = MenuTransition::new();
    death.update_death_timer(&mut transition, 1);
    assert_eq!(transition.new_menu, None);
    death.update_death_timer(&mut transition, 1);
    assert_eq!(transition.new_menu, Some(MenuState::Restart));
}

#[test]
fn restart_waits_for_the_soul_to_come_home() {
    let selection = BoardLayout { x: 0, y: -800, width: 5650, height: 1300 };
    let mut board = test_board();
    let mut transition = MenuTransition::new();
    let mut progress = Progress { turns: 3, health: 0 };
    let mut stats = test_player_stats();
    stats.health = 0;
    let mut dodging = DodgingPhaseManager::new();
    dodging.time = 55;
    // Too far out: the key does nothing.
    let early = update_restart(
        true, 300, 0, &mut board, &mut transition, &mut progress, &mut stats,
        &mut dodging, selection, 60,
    );
    assert!(!early);
    assert_eq!(progress.turns, 3);
    // Home and confirmed: everything winds back.
    let reset = update_restart(
        true, 10, 10, &mut board, &mut transition, &mut progress, &mut stats,
        &mut dodging, selection, 60,
    );
    assert!(reset);
    assert_eq!(progress.turns, 0);
    assert_eq!(progress.health, 60);
    assert_eq!(stats.health, stats.max_health);
    assert_eq!(dodging.time, 0);
    assert_eq!(transition.new_menu, Some(MenuState::Selection));
    assert_eq!(board.width, 5650);
    assert!(board.stable());
}

#[test]
fn board_center_moves_at_most_rate_per_step() {
    let mut board = test_board();
    let layout = BoardLayout { x: 20, y: -30, width: 2550, height: 500 };
    board.transition_board(layout);
    for _ in 0..60 {
        let (px, py) = (board.pos_x, board.pos_y);
        board.step();
        assert!((board.pos_x - px).abs() <= board.movement_rate);
        assert!((board.pos_y - py).abs() <= board.movement_rate);
    }
    assert!(board.stable());
}

#[test]
fn board_settles_within_the_per_channel_bounds() {
    // Each channel closes on its target by at least its rate per step, so
    // the slowest channel's step count bounds the whole animation.
    let mut board = test_board();
    let layout = BoardLayout { x: 20, y: -30, width: 2550, height: 500 };
    board.transition_board(layout);
    let div_ceil = |a: i32, b: i32| (a + b - 1) / b;
    let width_steps = div_ceil((2550i32 - 1550).abs(), board.expansion_rate);
    let height_steps = div_ceil((500i32 - 1300).abs(), board.expansion_rate);
    let center_steps = div_ceil(20i32.abs() + 30i32.abs(), board.movement_rate);
    let bound = width_steps.max(height_steps).max(center_steps);
    for _ in 0..bound {
        board.step();
    }
    assert!(board.stable());
    assert_eq!((board.pos_x, board.pos_y), (20, -30));
    assert_eq!((board.width, board.height), (2550, 500));
}

#[test]
fn vec_step_is_rate_limited_each_axis() {
    let (dx, dy) = move_towards_vec(0, 0, 300, 400, 10);
    assert!(dx.abs() <= 10 && dy.abs() <= 10);
    assert!(dx.abs() + dy.abs() >= 10);
    // A non-positive rate does not move at all.
    assert_eq!(move_towards_vec(0, 0, 300, 400, 0), (0, 0));
    assert_eq!(move_towards_vec(0, 0, 300, 400, -5), (0, 0));
}

#[test]
fn despawn_timer_counts_down_and_fires_once_due() {
    let mut life = DespawnInTime::new(3, true);
    assert!(!life.update_despawn(1));
    assert_eq!(life.timer, 2);
    assert_eq!(life.opacity_from_timer(), 66);
    assert!(!life.update_despawn(1));
    assert!(life.update_despawn(1));
    assert_eq!(life.opacity_from_timer(), 0);
    assert!(life.has_effect);
}
