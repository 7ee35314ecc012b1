use teris::game::{advance_frame, restart_game};
use teris::layout::{draw_origin, grid_column_xs, grid_row_ys};
use teris::structs::{Block, GameState, Position, TickInput, World, WorldLimits};
use teris::{
    check_new_block_position_is_filled, collide_with_other_block, left_block_detected,
    right_block_detected, update_world,
};

fn limits() -> WorldLimits {
    WorldLimits::for_window(800)
}

fn block(x: i64, y: i64) -> Block {
    Block { position: Position { x, y } }
}

fn world(current: (i64, i64), settled: &[(i64, i64)]) -> World {
    World {
        current_block: block(current.0, current.1),
        blocks: settled.iter().map(|&(x, y)| block(x, y)).collect(),
    }
}

fn quiet() -> TickInput {
    TickInput { left_pressed: false, right_pressed: false, down_held: false }
}

fn left() -> TickInput {
    TickInput { left_pressed: true, ..quiet() }
}

fn right() -> TickInput {
    TickInput { right_pressed: true, ..quiet() }
}

fn pos(b: &Block) -> (i64, i64) {
    (b.position.x, b.position.y)
}

#[test]
fn limits_for_default_window() {
    let l = limits();
    assert_eq!((l.left, l.right), (70, 730));
    assert_eq!(pos(&teris::spawn_block(&l)), (400, 0));
}

#[test]
fn falls_one_pixel_per_tick_then_locks_on_floor() {
    let l = limits();
    let mut w = World::new(&l);
    for n in 1..=541 {
        assert!(!update_world(&mut w, &l, &quiet()));
        assert_eq!(pos(&w.current_block), (400, n));
        assert!(w.blocks.is_empty());
    }
    assert!(!update_world(&mut w, &l, &quiet()));
    assert_eq!(w.blocks.len(), 1);
    assert_eq!(pos(&w.blocks[0]), (400, 541));
    assert_eq!(pos(&w.current_block), (400, 0));
}

#[test]
fn lock_comes_from_overlap_not_rest_height() {
    let l = limits();
    let mut w = world((400, 0), &[(400, 540)]);
    let mut ticks = 0;
    while w.blocks.len() == 1 {
        assert!(!update_world(&mut w, &l, &quiet()));
        ticks += 1;
        assert!(ticks < 1000);
    }
    assert_eq!(pos(&w.blocks[1]), (400, 481));
    assert_ne!(w.blocks[1].position.y, 540 - 60);
    assert_eq!(pos(&w.current_block), (400, 0));
}

#[test]
fn left_press_moves_once_per_press() {
    let l = limits();
    let mut w = world((400, 100), &[]);
    assert!(!update_world(&mut w, &l, &left()));
    assert_eq!(pos(&w.current_block), (340, 101));
    // The key is still held but no new press edge arrives.
    assert!(!update_world(&mut w, &l, &quiet()));
    assert_eq!(pos(&w.current_block), (340, 102));
}

#[test]
fn left_press_blocked_by_settled_neighbour() {
    let l = limits();
    let mut w = world((400, 100), &[(340, 101)]);
    assert!(!update_world(&mut w, &l, &left()));
    assert_eq!(pos(&w.current_block), (400, 101));
    assert_eq!(w.blocks.len(), 1);
}

#[test]
fn spawn_point_taken_ends_game() {
    let l = limits();
    let mut w = world((100, 545), &[(400, 0)]);
    assert!(update_world(&mut w, &l, &quiet()));
    assert_eq!(w.blocks.len(), 2);
    assert_eq!(pos(&w.blocks[1]), (100, 545));
    assert_eq!(pos(&w.current_block), (400, 0));
}

#[test]
fn restart_clears_world_and_flag() {
    let l = limits();
    let mut w = world((220, 300), &[(400, 0), (160, 541)]);
    let mut state = GameState { score: 3, game_over: true, paused: false };
    restart_game(&mut w, &mut state, &l);
    assert!(w.blocks.is_empty());
    assert_eq!(pos(&w.current_block), (400, 0));
    assert!(!state.game_over);
    assert_eq!(state.score, 3);
}

#[test]
fn world_restart_resets_blocks_and_spawn() {
    let l = limits();
    let mut w = world((220, 300), &[(400, 10)]);
    w.restart(&l);
    assert!(w.blocks.is_empty());
    assert_eq!(pos(&w.current_block), (400, 0));
}

#[test]
fn settled_blocks_stay_on_grid_and_distinct() {
    let l = limits();
    let mut w = World::new(&l);
    let mut step: u64 = 0;
    let mut over = false;
    while !over && step < 200_000 {
        step += 1;
        let input = TickInput {
            left_pressed: step % 97 == 0,
            right_pressed: step % 131 == 0,
            down_held: step % 3 == 0,
        };
        over = update_world(&mut w, &l, &input);
        let x = w.current_block.position.x;
        assert!(l.left < x - 30 && x + 30 < l.right);
        assert_eq!((x - 400) % 60, 0);
    }
    assert!(over);
    assert!(w.blocks.len() > 1);
    for (i, a) in w.blocks.iter().enumerate() {
        assert_eq!((a.position.x - 400) % 60, 0);
        assert!(l.left < a.position.x - 30 && a.position.x + 30 < l.right);
        assert!(a.position.y >= 0);
        for b in w.blocks.iter().skip(i + 1) {
            assert_ne!(a.position, b.position);
        }
    }
}

#[test]
fn landing_block_sinks_into_the_one_below_by_one_fall() {
    let l = limits();
    let mut w = world((400, 0), &[(400, 541)]);
    while w.blocks.len() == 1 {
        update_world(&mut w, &l, &quiet());
    }
    let (a, b) = (w.blocks[0].position.y, w.blocks[1].position.y);
    assert_eq!(a - b, 59);
}

#[test]
fn active_block_never_passes_the_walls() {
    let l = limits();
    let mut w = World::new(&l);
    for _ in 0..10 {
        update_world(&mut w, &l, &right());
    }
    assert_eq!(w.current_block.position.x, 640);
    for _ in 0..20 {
        update_world(&mut w, &l, &left());
    }
    assert_eq!(w.current_block.position.x, 160);
}

#[test]
fn quiet_ticks_only_move_down() {
    let l = limits();
    let mut w = world((280, 17), &[(400, 541), (340, 541)]);
    let mut last_y = w.current_block.position.y;
    for k in 0..100 {
        let input = TickInput { down_held: k % 2 == 0, ..quiet() };
        assert!(!update_world(&mut w, &l, &input));
        assert_eq!(w.current_block.position.x, 280);
        assert!(w.current_block.position.y >= last_y);
        last_y = w.current_block.position.y;
        assert_eq!(w.blocks.len(), 2);
    }
    assert_eq!(last_y, 17 + 50 * 5 + 50);
}

#[test]
fn down_held_falls_five_pixels() {
    let l = limits();
    let mut w = world((400, 10), &[]);
    let input = TickInput { down_held: true, ..quiet() };
    update_world(&mut w, &l, &input);
    assert_eq!(pos(&w.current_block), (400, 15));
}

#[test]
fn right_press_moves_one_cell() {
    let l = limits();
    let mut w = world((400, 100), &[]);
    update_world(&mut w, &l, &right());
    assert_eq!(pos(&w.current_block), (460, 101));
}

#[test]
fn right_press_blocked_by_settled_neighbour() {
    let l = limits();
    let mut w = world((400, 100), &[(460, 150)]);
    update_world(&mut w, &l, &right());
    assert_eq!(pos(&w.current_block), (400, 101));
}

#[test]
fn sideways_move_passes_neighbour_at_other_height() {
    let l = limits();
    let mut w = world((400, 100), &[(340, 161)]);
    update_world(&mut w, &l, &left());
    assert_eq!(pos(&w.current_block), (340, 101));
}

#[test]
fn blocked_left_falls_back_to_right() {
    let l = limits();
    let mut w = world((400, 100), &[(340, 101)]);
    let both = TickInput { left_pressed: true, right_pressed: true, down_held: false };
    update_world(&mut w, &l, &both);
    assert_eq!(pos(&w.current_block), (460, 101));
}

#[test]
fn left_press_stops_at_wall() {
    let l = limits();
    let mut w = world((160, 100), &[]);
    update_world(&mut w, &l, &left());
    assert_eq!(pos(&w.current_block), (160, 101));
}

#[test]
fn spawned_block_moves_in_the_lock_tick() {
    let l = limits();
    let mut w = world((400, 541), &[]);
    assert!(!update_world(&mut w, &l, &left()));
    assert_eq!(pos(&w.blocks[0]), (400, 541));
    assert_eq!(pos(&w.current_block), (340, 0));
}

#[test]
fn collision_needs_positive_overlap() {
    assert!(!collide_with_other_block(&world((400, 480), &[(400, 540)])));
    assert!(collide_with_other_block(&world((400, 481), &[(400, 540)])));
    assert!(collide_with_other_block(&world((400, 599), &[(400, 540)])));
    assert!(!collide_with_other_block(&world((400, 600), &[(400, 540)])));
    assert!(!collide_with_other_block(&world((460, 500), &[(400, 540)])));
    assert!(!collide_with_other_block(&world((400, 500), &[])));
}

#[test]
fn spawn_position_check_is_exact() {
    assert!(check_new_block_position_is_filled(&world((400, 0), &[(160, 9), (400, 0)])));
    assert!(!check_new_block_position_is_filled(&world((400, 0), &[(400, 1)])));
    assert!(!check_new_block_position_is_filled(&world((400, 0), &[(340, 0)])));
    assert!(!check_new_block_position_is_filled(&world((400, 0), &[])));
}

#[test]
fn neighbour_detection_by_side() {
    let w = world((400, 100), &[(340, 130)]);
    assert!(left_block_detected(&w));
    assert!(!right_block_detected(&w));
    let w = world((400, 100), &[(460, 40)]);
    assert!(!left_block_detected(&w));
    assert!(!right_block_detected(&w));
    let w = world((400, 100), &[(460, 41)]);
    assert!(right_block_detected(&w));
}

#[test]
fn frame_advances_only_while_running() {
    let l = limits();
    let mut w = world((400, 10), &[]);
    let mut state = GameState::new();
    assert!(state.is_running());
    advance_frame(&mut w, &mut state, &l, &quiet());
    assert_eq!(pos(&w.current_block), (400, 11));
    state.toggle_pause();
    assert!(state.paused && !state.is_running());
    advance_frame(&mut w, &mut state, &l, &quiet());
    assert_eq!(pos(&w.current_block), (400, 11));
    state.toggle_pause();
    state.toggle_game_over();
    assert!(state.game_over && !state.paused);
    advance_frame(&mut w, &mut state, &l, &right());
    assert_eq!(pos(&w.current_block), (400, 11));
}

#[test]
fn frame_records_game_over() {
    let l = limits();
    let mut w = world((100, 545), &[(400, 0)]);
    let mut state = GameState::new();
    advance_frame(&mut w, &mut state, &l, &quiet());
    assert!(state.game_over);
    assert_eq!(w.blocks.len(), 2);
    advance_frame(&mut w, &mut state, &l, &quiet());
    assert_eq!(w.blocks.len(), 2);
    assert_eq!(pos(&w.current_block), (400, 0));
}

#[test]
fn grid_lines_and_draw_origin() {
    let l = limits();
    let ys = grid_row_ys();
    assert_eq!(ys, (0..10).map(|n| n * 60).collect::<Vec<i64>>());
    let xs = grid_column_xs(&l);
    assert_eq!(xs.len(), 12);
    assert_eq!(xs[0], 70);
    assert_eq!(xs[11], 70 + 11 * 60);
    assert_eq!(draw_origin(&block(400, 25)), Position { x: 370, y: 25 });
}
