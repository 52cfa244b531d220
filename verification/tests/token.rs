use prettysure::answer::{AnswerBlock, Truth};
use prettysure::color::{AnswerColor, Color, DEFAULT_COLOR};
use prettysure::geometry::{NodeSize, Point, SideLength, UiPoint, OFFSET_X, OFFSET_Y};
use prettysure::token::{
    down_draggable, drag_token, find_landing, is_any_dragged, is_at_most_one_dragged,
    reset_tokens, spawn_tokens, up_draggable, On, Token, TokenSlot, DRAG_LAYER, REST_LAYER,
};

fn slot_at(x: i32, y: i32) -> TokenSlot {
    TokenSlot { position: UiPoint { x, y }, size: NodeSize { x: 40, y: 40 } }
}

fn slots_in_a_column() -> Vec<TokenSlot> {
    (0..5).map(|i| slot_at(100, 100 + 100 * i)).collect()
}

fn block_at(x: i64, y: i64, color: Color, truth: bool) -> AnswerBlock {
    AnswerBlock {
        position: Point { x, y },
        side_length: SideLength { x_len: 200, y_len: 200 },
        color: AnswerColor(color),
        truth: Truth(truth),
        border: Color::White,
        highlight: None,
    }
}

fn dragged_count(tokens: &[Token]) -> usize {
    tokens.iter().filter(|t| t.dragged).count()
}

#[test]
fn a_token_is_spawned_in_every_slot() {
    let slots = slots_in_a_column();
    let tokens = spawn_tokens(&slots);
    assert_eq!(tokens.len(), 5);
    for (i, token) in tokens.iter().enumerate() {
        assert_eq!(
            *token,
            Token {
                position: Point { x: 100 + OFFSET_X, y: 100 + 100 * i as i64 + OFFSET_Y },
                sides: SideLength { x_len: 40, y_len: 40 },
                start_slot: i,
                on: None,
                dragged: false,
                color: DEFAULT_COLOR,
            }
        );
        assert_eq!(token.layer(), REST_LAYER);
    }
    assert!(spawn_tokens(&Vec::new()).is_empty());
}

#[test]
fn press_on_a_token_picks_it_up() {
    let mut tokens = spawn_tokens(&slots_in_a_column());
    tokens[2].on = Some(On(1));
    tokens[2].color = Color::Green;
    let before = tokens.clone();
    let picked = up_draggable(true, Some(UiPoint { x: 110, y: 290 }), false, &mut tokens);
    assert_eq!(picked, Some(2));
    assert_eq!(
        tokens[2],
        Token { on: None, dragged: true, color: DEFAULT_COLOR, ..before[2] }
    );
    assert_eq!(tokens[2].layer(), DRAG_LAYER);
    for i in [0, 1, 3, 4] {
        assert_eq!(tokens[i], before[i]);
    }
}

#[test]
fn press_beside_every_token_picks_up_nothing() {
    let mut tokens = spawn_tokens(&slots_in_a_column());
    let before = tokens.clone();
    assert_eq!(up_draggable(true, Some(UiPoint { x: 150, y: 150 }), false, &mut tokens), None);
    assert_eq!(tokens, before);
    // Exactly on the edge of the first token.
    assert_eq!(up_draggable(true, Some(UiPoint { x: 120, y: 100 }), false, &mut tokens), None);
    assert_eq!(tokens, before);
}

#[test]
fn press_without_cursor_is_a_no_op() {
    let mut tokens = spawn_tokens(&slots_in_a_column());
    let before = tokens.clone();
    assert_eq!(up_draggable(true, None, false, &mut tokens), None);
    assert_eq!(tokens, before);
}

#[test]
fn no_press_picks_up_nothing() {
    let mut tokens = spawn_tokens(&slots_in_a_column());
    let before = tokens.clone();
    assert_eq!(up_draggable(false, Some(UiPoint { x: 100, y: 100 }), false, &mut tokens), None);
    assert_eq!(tokens, before);
}

#[test]
fn press_while_a_token_is_dragged_picks_up_no_second() {
    let mut tokens = spawn_tokens(&slots_in_a_column());
    assert_eq!(up_draggable(true, Some(UiPoint { x: 100, y: 100 }), false, &mut tokens), Some(0));
    let before = tokens.clone();
    assert_eq!(up_draggable(true, Some(UiPoint { x: 100, y: 200 }), false, &mut tokens), None);
    assert_eq!(tokens, before);
    assert_eq!(dragged_count(&tokens), 1);
    assert!(is_any_dragged(&tokens));
    assert!(is_at_most_one_dragged(&tokens));
}

#[test]
fn of_overlapping_tokens_the_first_is_picked_up() {
    let slots = vec![slot_at(100, 100), slot_at(110, 110), slot_at(105, 105)];
    let mut tokens = spawn_tokens(&slots);
    // The point is inside the second and the third token only.
    assert_eq!(up_draggable(true, Some(UiPoint { x: 124, y: 124 }), false, &mut tokens), Some(1));
    assert!(tokens[1].dragged && !tokens[0].dragged && !tokens[2].dragged);
    let mut tokens = spawn_tokens(&slots);
    // The point is inside all three.
    assert_eq!(up_draggable(true, Some(UiPoint { x: 105, y: 105 }), false, &mut tokens), Some(0));
    assert_eq!(dragged_count(&tokens), 1);
}

#[test]
fn dragged_token_follows_the_last_move() {
    let mut tokens = spawn_tokens(&slots_in_a_column());
    up_draggable(true, Some(UiPoint { x: 100, y: 300 }), false, &mut tokens);
    let before = tokens.clone();
    let moves = vec![UiPoint { x: 1, y: 2 }, UiPoint { x: 640, y: 480 }];
    drag_token(&moves, &mut tokens);
    assert_eq!(
        tokens[2],
        Token { position: Point { x: 640 + OFFSET_X, y: 480 + OFFSET_Y }, ..before[2] }
    );
    for i in [0, 1, 3, 4] {
        assert_eq!(tokens[i], before[i]);
    }
}

#[test]
fn moves_without_a_dragged_token_move_nothing() {
    let mut tokens = spawn_tokens(&slots_in_a_column());
    let before = tokens.clone();
    drag_token(&vec![UiPoint { x: 640, y: 480 }], &mut tokens);
    assert_eq!(tokens, before);
    up_draggable(true, Some(UiPoint { x: 100, y: 300 }), false, &mut tokens);
    let before = tokens.clone();
    drag_token(&Vec::new(), &mut tokens);
    assert_eq!(tokens, before);
}

#[test]
fn release_on_a_block_places_the_token() {
    let answers = vec![
        block_at(0, 0, Color::Red, false),
        block_at(1000, 0, Color::Green, true),
    ];
    let mut tokens = spawn_tokens(&slots_in_a_column());
    up_draggable(true, Some(UiPoint { x: 100, y: 100 }), false, &mut tokens);
    drag_token(&vec![UiPoint { x: 26_650, y: 19_150 }], &mut tokens);
    let before = tokens.clone();
    down_draggable(true, &mut tokens, &answers);
    assert_eq!(
        tokens[0],
        Token { on: Some(On(1)), dragged: false, color: Color::Green, ..before[0] }
    );
    assert_eq!(tokens[0].position, Point { x: 1050, y: -50 });
    assert_eq!(tokens[0].layer(), REST_LAYER);
    assert!(!is_any_dragged(&tokens));
}

#[test]
fn release_beside_every_block_leaves_the_token_unplaced() {
    let answers = vec![block_at(0, 0, Color::Red, false)];
    let mut tokens = spawn_tokens(&slots_in_a_column());
    up_draggable(true, Some(UiPoint { x: 100, y: 100 }), false, &mut tokens);
    // Exactly on the right edge of the block.
    drag_token(&vec![UiPoint { x: 25_700, y: 19_200 }], &mut tokens);
    tokens[0].color = Color::Red;
    tokens[0].on = Some(On(0));
    down_draggable(true, &mut tokens, &answers);
    assert_eq!(tokens[0].position, Point { x: 100, y: 0 });
    assert_eq!(tokens[0].on, None);
    assert_eq!(tokens[0].color, DEFAULT_COLOR);
    assert!(!tokens[0].dragged);
}

#[test]
fn of_overlapping_blocks_the_last_takes_the_token() {
    let answers = vec![
        block_at(0, 0, Color::Red, false),
        block_at(50, 0, Color::Green, false),
        block_at(100, 0, Color::Blue, false),
        block_at(5000, 0, Color::Yellow, false),
    ];
    // Inside the first three blocks.
    assert_eq!(find_landing(&answers, &Point { x: 60, y: 10 }), Some(2));
    // Inside the first two.
    assert_eq!(find_landing(&answers, &Point { x: -40, y: 10 }), Some(1));
    // Inside the first only.
    assert_eq!(find_landing(&answers, &Point { x: -60, y: 10 }), Some(0));
    assert_eq!(find_landing(&answers, &Point { x: 2000, y: 10 }), None);
    assert_eq!(find_landing(&Vec::new(), &Point { x: 0, y: 0 }), None);

    let mut tokens = spawn_tokens(&slots_in_a_column());
    up_draggable(true, Some(UiPoint { x: 100, y: 100 }), false, &mut tokens);
    drag_token(&vec![UiPoint { x: 25_660, y: 19_210 }], &mut tokens);
    down_draggable(true, &mut tokens, &answers);
    assert_eq!(tokens[0].on, Some(On(2)));
    assert_eq!(tokens[0].color, Color::Blue);
}

#[test]
fn no_release_puts_nothing_down() {
    let answers = vec![block_at(0, 0, Color::Red, false)];
    let mut tokens = spawn_tokens(&slots_in_a_column());
    up_draggable(true, Some(UiPoint { x: 100, y: 100 }), false, &mut tokens);
    let before = tokens.clone();
    down_draggable(false, &mut tokens, &answers);
    assert_eq!(tokens, before);
}

#[test]
fn release_puts_down_every_dragged_token() {
    let answers = vec![block_at(0, 0, Color::Red, false)];
    let mut tokens = spawn_tokens(&slots_in_a_column());
    tokens[1].dragged = true;
    tokens[3].dragged = true;
    assert!(!is_at_most_one_dragged(&tokens));
    down_draggable(true, &mut tokens, &answers);
    assert_eq!(dragged_count(&tokens), 0);
    assert!(is_at_most_one_dragged(&tokens));
}

#[test]
fn at_most_one_token_is_dragged_through_a_sequence() {
    let answers = vec![block_at(0, 0, Color::Red, true)];
    let mut tokens = spawn_tokens(&slots_in_a_column());
    let presses = [(100, 100), (100, 200), (500, 500), (100, 200), (100, 300)];
    for (step, (x, y)) in presses.into_iter().enumerate() {
        up_draggable(true, Some(UiPoint { x, y }), false, &mut tokens);
        assert!(dragged_count(&tokens) <= 1);
        drag_token(&vec![UiPoint { x: 25_600 + step as i32, y: 19_200 }], &mut tokens);
        assert!(dragged_count(&tokens) <= 1);
        if step % 2 == 1 {
            down_draggable(true, &mut tokens, &answers);
            assert_eq!(dragged_count(&tokens), 0);
        }
        assert!(is_at_most_one_dragged(&tokens));
    }
}

#[test]
fn reset_sends_every_token_home() {
    let slots = slots_in_a_column();
    let mut tokens = spawn_tokens(&slots);
    let home = tokens.clone();
    for (i, token) in tokens.iter_mut().enumerate() {
        token.position = Point { x: 7 * i as i64, y: -3 };
        token.on = Some(On(i % 4));
        token.color = Color::Yellow;
    }
    let moved = tokens.clone();
    reset_tokens(false, &mut tokens, &slots);
    assert_eq!(tokens, moved);
    reset_tokens(true, &mut tokens, &slots);
    assert_eq!(tokens, home);
}

#[test]
fn token_without_a_home_stays_where_it_is() {
    let slots = slots_in_a_column();
    let mut tokens = spawn_tokens(&slots);
    tokens[4].start_slot = 9;
    tokens[4].position = Point { x: 1, y: 2 };
    tokens[4].on = Some(On(0));
    tokens[4].color = Color::Red;
    reset_tokens(true, &mut tokens, &slots);
    assert_eq!(tokens[4].position, Point { x: 1, y: 2 });
    assert_eq!(tokens[4].on, None);
    assert_eq!(tokens[4].color, DEFAULT_COLOR);
}

#[test]
fn press_under_the_lock_picks_up_nothing() {
    let mut tokens = spawn_tokens(&slots_in_a_column());
    for (i, token) in tokens.iter_mut().enumerate() {
        token.on = Some(On(i % 4));
        token.color = Color::Red;
    }
    let before = tokens.clone();
    // The cursor is strictly inside the third token and none is dragged.
    assert_eq!(up_draggable(true, Some(UiPoint { x: 110, y: 290 }), true, &mut tokens), None);
    assert_eq!(tokens, before);
    assert!(!is_any_dragged(&tokens));
    // Once the lock is gone the same press picks the token up.
    assert_eq!(up_draggable(true, Some(UiPoint { x: 110, y: 290 }), false, &mut tokens), Some(2));
    assert_eq!(tokens[2].on, None);
}
