use battle_core::actions::{apply_attack, decide_action, switch_turn, ActionType, Position, TurnState};
use battle_core::animation::{create_anim_bank, Animation, Animator};
use battle_core::attacks::{enter_shovel_attack, spawn_shovels, Attack1, ShovelAttack};
use battle_core::board::{BoardLayout, BulletBoard};
use battle_core::decisions::{
    decision_positions, Decision, DecisionAction, DecisionEntities, DecisionMenu, Decisions,
};
use battle_core::dodging::DodgingPhaseManager;
use battle_core::grid::{
    ai_move, ai_turn_system, cursor_over_tile, end_ai_turn, end_player_turn, manhattan,
    try_move_selected_unit, within_movement, TilePos, Turn,
};
use battle_core::menu::MenuOption;
use battle_core::stats::Stats;
use battle_core::text::{Dialogue, TextBox, TypingText};
use battle_core::turn_queue::{begin_turn, end_turn, setup_turn_queue, sort_by_speed};

fn stats_with_speed(speed: u32) -> Stats {
    Stats {
        hp: 10,
        max_hp: 10,
        movement: 3,
        range: 1,
        attack: 2,
        defense: 1,
        speed,
        max_move: 3,
    }
}

fn wide_board() -> BulletBoard {
    BulletBoard {
        width: 5650,
        height: 1300,
        pos_x: 0,
        pos_y: 0,
        target_width: 5650,
        target_height: 1300,
        target_x: 0,
        target_y: 0,
        border: 50,
        expansion_rate: 200,
        movement_rate: 10,
    }
}

#[test]
fn rotation_activates_previous_heads_successor() {
    // queue = [A(speed 5), B(speed 9)]: after the setup sort the order is
    // [B, A]; beginning activates B; ending rotates to [A, B] and clears.
    let units = vec![(1u64, stats_with_speed(5)), (2u64, stats_with_speed(9))];
    let (mut queue, mut current) = setup_turn_queue(&units);
    assert_eq!(queue.0, vec![2u64, 1u64]);
    assert_eq!(current.0, None);
    begin_turn(&mut current, &queue);
    assert_eq!(current.0, Some(2));
    end_turn(&mut current, &mut queue);
    assert_eq!(queue.0, vec![1u64, 2u64]);
    assert_eq!(current.0, None);
    begin_turn(&mut current, &queue);
    assert_eq!(current.0, Some(1));
}

#[test]
fn rotation_wraps_on_single_entry() {
    let units = vec![(9u64, stats_with_speed(4))];
    let (mut queue, mut current) = setup_turn_queue(&units);
    begin_turn(&mut current, &queue);
    assert_eq!(current.0, Some(9));
    end_turn(&mut current, &mut queue);
    begin_turn(&mut current, &queue);
    assert_eq!(current.0, Some(9));
}

#[test]
fn empty_queue_is_a_no_op() {
    let units: Vec<(u64, Stats)> = Vec::new();
    let (mut queue, mut current) = setup_turn_queue(&units);
    begin_turn(&mut current, &queue);
    assert_eq!(current.0, None);
    end_turn(&mut current, &mut queue);
    assert_eq!(queue.0.len(), 0);
}

#[test]
fn begin_turn_keeps_an_active_turn() {
    let units = vec![(1u64, stats_with_speed(5)), (2u64, stats_with_speed(9))];
    let (queue, mut current) = setup_turn_queue(&units);
    begin_turn(&mut current, &queue);
    begin_turn(&mut current, &queue);
    assert_eq!(current.0, Some(2));
}

#[test]
fn sort_by_speed_is_descending_permutation() {
    let sorted = sort_by_speed(vec![(1u64, 5u32), (2, 9), (3, 5), (4, 12)]);
    assert_eq!(sorted.len(), 4);
    assert_eq!(sorted[0], (4, 12));
    assert_eq!(sorted[1], (2, 9));
    let mut speeds: Vec<u32> = sorted.iter().map(|p| p.1).collect();
    for w in speeds.windows(2) {
        assert!(w[0] >= w[1]);
    }
    speeds.sort();
    assert_eq!(speeds, vec![5, 5, 9, 12]);
}

#[test]
fn manhattan_and_movement_range() {
    let a = TilePos { x: 1, y: 1 };
    let b = TilePos { x: 4, y: 3 };
    assert_eq!(manhattan(a, b), 5);
    assert!(within_movement(a, b, 5));
    assert!(!within_movement(a, b, 4));
    assert_eq!(try_move_selected_unit(a, b, 5), Some(b));
    assert_eq!(try_move_selected_unit(a, b, 4), None);
}

#[test]
fn cursor_tile_test_includes_edges() {
    assert!(cursor_over_tile(5, 0, 0, 0, 5));
    assert!(cursor_over_tile(-5, 5, 0, 0, 5));
    assert!(!cursor_over_tile(6, 0, 0, 0, 5));
}

#[test]
fn turn_flags_alternate() {
    let mut turn = Turn::Player;
    let mut done = true;
    end_player_turn(&mut turn, &mut done);
    assert_eq!(turn, Turn::AI);
    assert!(!done);
    let mut ai_done = true;
    end_ai_turn(&mut turn, &mut ai_done);
    assert_eq!(turn, Turn::Player);
    assert!(!ai_done);
    // Nothing happens while the flag is down.
    end_player_turn(&mut turn, &mut ai_done);
    assert_eq!(turn, Turn::Player);
}

#[test]
fn ai_move_takes_the_only_free_neighbor() {
    // On a two-by-one grid the only on-grid neighbour is to the right,
    // whatever order the directions were tried in.
    let units = vec![(TilePos { x: 0, y: 0 }, true)];
    let moved = ai_move(&units, TilePos { x: 0, y: 0 }, 2, 1);
    assert_eq!(moved, Some(TilePos { x: 1, y: 0 }));
}

#[test]
fn ai_move_reports_walled_in() {
    let units = vec![
        (TilePos { x: 0, y: 0 }, true),
        (TilePos { x: 1, y: 0 }, false),
        (TilePos { x: 0, y: 1 }, false),
    ];
    let moved = ai_move(&units, TilePos { x: 0, y: 0 }, 2, 2);
    assert_eq!(moved, None);
}

#[test]
fn ai_turn_moves_enemies_only_and_keeps_tiles_distinct() {
    let mut units = vec![
        (TilePos { x: 1, y: 1 }, false),
        (TilePos { x: 0, y: 0 }, true),
    ];
    ai_turn_system(&mut units, 3, 3);
    assert_eq!(units[0].0, TilePos { x: 1, y: 1 });
    let enemy = units[1].0;
    assert!(enemy == TilePos { x: 1, y: 0 } || enemy == TilePos { x: 0, y: 1 });
    assert!(units[0].0 != units[1].0);
}

#[test]
fn text_box_reveals_over_time() {
    let mut text_box = TextBox::new();
    text_box.set_text("hello world".to_string());
    let (shown, sound) = text_box.update_text(1);
    assert_eq!(shown, 1);
    assert!(!sound);
    let (shown2, sound2) = text_box.update_text(3);
    assert_eq!(shown2, 4);
    assert!(sound2);
    // Far past the end the whole line is out.
    let (shown3, _) = text_box.update_text(1000);
    assert_eq!(shown3, 11);
}

#[test]
fn dialogue_pages_turn_and_finish() {
    let mut text_box = TextBox::new();
    text_box.set_text("page".to_string());
    text_box.queue_event(2);
    // Cancel only reveals the rest of the page.
    assert!(!text_box.update_dialogue(true, false));
    assert_eq!(text_box.timer, 1_000_000);
    assert!(text_box.dialogue_active);
    // Confirm twice: the second turn of the page finishes the dialogue.
    assert!(!text_box.update_dialogue(false, true));
    assert_eq!(text_box.dialogue_index, 1);
    assert!(text_box.update_dialogue(false, true));
    assert!(!text_box.dialogue_active);
    assert_eq!(text_box.text, String::new());
    // Once inactive nothing changes.
    assert!(!text_box.update_dialogue(false, true));
}

#[test]
fn typing_text_reveals_and_skips() {
    let mut typing = TypingText::new(3);
    typing.text_typing_system(true);
    typing.text_typing_system(false);
    typing.text_typing_system(true);
    assert_eq!(typing.visible_length, 2);
    typing.input_skip_system();
    typing.text_typing_system(false);
    assert_eq!(typing.visible_length, 3);
}

#[test]
fn dialogue_cursor_walks_every_line_once() {
    let mut dialogue = Dialogue::new(vec!["a".to_string(), "b".to_string()]);
    assert_eq!(dialogue.next(), Some(0));
    assert_eq!(dialogue.next(), Some(1));
    assert_eq!(dialogue.next(), None);
    assert_eq!(dialogue.next(), None);
}

#[test]
fn animator_loops_around_the_clip() {
    let bank = create_anim_bank();
    assert_eq!(bank.len(), 1);
    let clip = Animation {
        name: "walk".to_string(),
        cooldown: 0,
        start: 1,
        end: 4,
        looping: true,
    };
    let mut animator = Animator::new();
    let mut seen: Vec<usize> = Vec::new();
    for _ in 0..5 {
        animator.animate_sprite(&clip, 1);
        seen.push(animator.index);
    }
    assert_eq!(seen, vec![1, 2, 3, 0, 1]);
}

#[test]
fn animator_holds_last_frame_when_not_looping() {
    let clip = Animation {
        name: "slash".to_string(),
        cooldown: 0,
        start: 1,
        end: 3,
        looping: false,
    };
    let mut animator = Animator::new();
    for _ in 0..5 {
        animator.animate_sprite(&clip, 1);
    }
    assert_eq!(animator.index, 2);
    assert!(animator.finished);
}

#[test]
fn animator_rewinds_on_clip_switch() {
    let clip = Animation {
        name: "idle".to_string(),
        cooldown: 5,
        start: 3,
        end: 6,
        looping: true,
    };
    let mut animator = Animator::new();
    animator.index = 99;
    animator.current_animation = 1;
    animator.timer = 10;
    animator.animate_sprite(&clip, 1);
    // Rewound to the clip's first frame, and not yet due to advance.
    assert_eq!(animator.index, 2);
    assert_eq!(animator.last_animation, 1);
}

#[test]
fn wave_attack_spawns_a_row_with_a_gap() {
    let board = wide_board();
    let mut attack = Attack1 { attack_timer: 1, attack_time: 30, attack_dir: 0 };
    let mut dodge = DodgingPhaseManager::new();
    let mut bullet_board = wide_board();
    attack.enter_attack_1(
        &mut bullet_board,
        BoardLayout { x: 0, y: 0, width: 5650, height: 1300 },
        &mut dodge,
        30,
    );
    assert_eq!(attack.attack_timer, 30);
    assert_eq!(dodge.time, 300);
    // Not yet due: nothing spawns.
    let none = attack.attack_1(&board, 10);
    assert_eq!(none.len(), 0);
    assert_eq!(attack.attack_timer, 20);
    // Due: a wave from the left, slot one left open.
    let spawns = attack.attack_1(&board, 30);
    // height 1300 lines up 1300 / 160 - 1 = 7 slots, one skipped.
    assert_eq!(spawns.len(), 6);
    assert_eq!(attack.attack_dir, 1);
    assert_eq!(attack.attack_timer, 30);
    let first = spawns[0];
    assert_eq!(first.pos_x, -2825);
    assert_eq!(first.pos_y, -(1300 / 2 - 160));
    assert_eq!((first.vel_x, first.vel_y), (30, 0));
    // The second entry is slot two: slot one is the gap.
    let second = spawns[1];
    assert_eq!(second.pos_y, -(1300 / 2 - 160 - 2 * 160));
}

#[test]
fn shovels_line_both_rows() {
    let board = wide_board();
    let shovels = spawn_shovels(&board);
    assert_eq!(shovels.len(), 2 * (5650 / 100) as usize);
    assert_eq!(shovels[0], (-2825 + 50, 200, true));
    assert_eq!(shovels[1], (-2825 + 50, -200, false));
    assert_eq!(shovels[2], (-2825 + 50 + 100, 200, true));
}

#[test]
fn shovel_attack_resets_clocks() {
    let mut shovel = ShovelAttack { timer: 55 };
    let mut board = wide_board();
    let mut dodge = DodgingPhaseManager::new();
    enter_shovel_attack(
        &mut shovel,
        &mut board,
        BoardLayout { x: 0, y: 0, width: 2000, height: 600 },
        &mut dodge,
    );
    assert_eq!(shovel.timer, 0);
    assert_eq!(dodge.time, 300);
    assert_eq!(board.target_width, 2000);
}

fn two_column_menu() -> DecisionMenu {
    DecisionMenu {
        left_column: vec![
            Decision::new("Check".to_string()),
            Decision::new("Talk".to_string()),
        ],
        right_column: vec![Decision::new("Flee".to_string())],
    }
}

fn fresh_decisions() -> Decisions {
    Decisions {
        fight_menu: DecisionMenu {
            left_column: vec![Decision::new_with_hover("Biped Potato".to_string())],
            right_column: Vec::new(),
        },
        act_menu: DecisionMenu {
            left_column: vec![Decision::new_with_menu(
                "Biped Potato".to_string(),
                Some(two_column_menu()),
            )],
            right_column: Vec::new(),
        },
        item_menu: DecisionMenu {
            left_column: vec![Decision::new("Monster Candy".to_string())],
            right_column: Vec::new(),
        },
        mercy_menu: DecisionMenu {
            left_column: vec![
                Decision::new("Spare".to_string()),
                Decision::new("Flee".to_string()),
            ],
            right_column: Vec::new(),
        },
        decision_menu: None,
        menu_entities: DecisionEntities {
            left_column: Vec::new(),
            right_column: Vec::new(),
        },
        switch_menu: false,
        submenu: false,
        selection: 0,
        side: 0,
        spacing: 2560,
        increment: 320,
    }
}

#[test]
fn decision_navigation_wraps_in_both_axes() {
    let mut decisions = fresh_decisions();
    decisions.enter_menu(two_column_menu());
    assert!(decisions.switch_menu);
    assert_eq!(decisions.selection, 0);
    decisions.vertical_cycle(-1);
    assert_eq!(decisions.selection, 1);
    decisions.vertical_cycle(1);
    assert_eq!(decisions.selection, 0);
    // Over to the one-entry right column: the row is wrapped into it.
    decisions.vertical_cycle(1);
    decisions.horizontal_cycle(1);
    assert_eq!(decisions.side, 1);
    assert_eq!(decisions.selection, 0);
    assert_eq!(decisions.get_decision().display, "Flee".to_string());
}

#[test]
fn decision_navigation_stays_left_without_right_column() {
    let mut decisions = fresh_decisions();
    let menu = DecisionMenu {
        left_column: vec![
            Decision::new("Spare".to_string()),
            Decision::new("Flee".to_string()),
        ],
        right_column: Vec::new(),
    };
    decisions.enter_menu(menu);
    decisions.navigate(false, false, false, true);
    assert_eq!(decisions.side, 0);
    decisions.navigate(false, true, false, false);
    assert_eq!(decisions.selection, 1);
}

#[test]
fn decision_actions_follow_the_keys() {
    let mut decisions = fresh_decisions();
    let top = DecisionMenu {
        left_column: vec![Decision::new_with_menu(
            "Biped Potato".to_string(),
            Some(two_column_menu()),
        )],
        right_column: Vec::new(),
    };
    decisions.enter_menu(top);
    assert_eq!(decisions.decide(true, false), DecisionAction::EnterSubmenu);
    assert_eq!(decisions.decide(false, true), DecisionAction::ExitToSelection);
    assert_eq!(decisions.decide(false, false), DecisionAction::Navigate);
    decisions.enter_submenu(two_column_menu());
    assert!(decisions.submenu);
    assert_eq!(decisions.decide(true, false), DecisionAction::RunSystem);
    assert_eq!(decisions.decide(false, true), DecisionAction::ExitSubmenu);
    decisions.exit_submenu(two_column_menu());
    assert!(!decisions.submenu);
}

#[test]
fn menu_for_matches_options() {
    let decisions = fresh_decisions();
    assert_eq!(
        decisions.menu_for(MenuOption::Item).left_column[0].display,
        "Monster Candy".to_string()
    );
    assert_eq!(decisions.menu_for(MenuOption::Mercy).left_column.len(), 2);
}

#[test]
fn decision_entries_line_up_in_two_columns() {
    let r = decision_positions(320, 2560, 2, 1);
    assert_eq!(r.len(), 3);
    assert_eq!(r[0], (631, -160));
    assert_eq!(r[1], (631, -160 - 320));
    assert_eq!(r[2], (631 + 2560, -160));
}

#[test]
fn unit_ai_attacks_first_enemy_in_reach() {
    let me = Position { x: 0, y: 0 };
    let enemies = vec![
        (7u64, Position { x: 5, y: 5 }),
        (8u64, Position { x: 1, y: 0 }),
    ];
    match decide_action(&me, 1, &enemies) {
        Some(ActionType::Attack(t)) => assert_eq!(t, 8),
        other => panic!("expected an attack, got {:?}", other),
    }
    // Nobody in reach: step toward positive x.
    match decide_action(&me, 1, &vec![(7u64, Position { x: 5, y: 5 })]) {
        Some(ActionType::Move(p)) => assert_eq!((p.x, p.y), (1, 0)),
        other => panic!("expected a move, got {:?}", other),
    }
}

#[test]
fn attacks_land_on_the_target_only() {
    let mut units = vec![(1u64, 50), (2u64, 100)];
    apply_attack(&mut units, 1, 20);
    assert_eq!(units, vec![(1u64, 30), (2u64, 100)]);
    apply_attack(&mut units, 1, 40);
    assert_eq!(units[0].1, -10);
    assert_eq!(switch_turn(true), TurnState::EnemyTurn);
    assert_eq!(switch_turn(false), TurnState::PlayerTurn);
}

#[test]
fn navigation_composes_row_then_column_cycles() {
    let mut decisions = fresh_decisions();
    decisions.enter_menu(two_column_menu());
    // Down from row zero of the two-entry left column: row one.
    decisions.navigate(false, true, false, false);
    assert_eq!((decisions.side, decisions.selection), (0, 1));
    // Right: over to the one-entry right column, row wrapped to zero.
    decisions.navigate(false, false, false, true);
    assert_eq!((decisions.side, decisions.selection), (1, 0));
    // Up and left together: the row cycles in the right column first
    // (staying at zero), then the column flips back.
    decisions.navigate(true, false, true, false);
    assert_eq!((decisions.side, decisions.selection), (0, 0));
    // No keys: nothing moves.
    decisions.navigate(false, false, false, false);
    assert_eq!((decisions.side, decisions.selection), (0, 0));
}
