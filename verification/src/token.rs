//! The movable tokens and their drag-and-drop state machine.
//!
//! A token is at rest or dragged. A press picks up the first token under the
//! cursor, provided none is dragged yet; while dragged a token follows the
//! cursor; a release puts every dragged token down and places it on the
//! answer block under its centre, if there is one.
//!
//! Two tie-breaks are part of the rules. Where several tokens overlap under
//! the cursor, the one that comes first in the list is picked up. Where
//! several answer blocks overlap under a token, the one that comes last in
//! the list takes it.

use vstd::prelude::*;

use crate::answer::AnswerBlock;
use crate::color::{Color, DEFAULT_COLOR};
use crate::geometry::{in_bounds, inside, to_world, world_of, NodeSize, Point, SideLength, UiPoint};

verus! {

/// Draw order of a token at rest.
pub const REST_LAYER: i32 = 5;

/// Draw order of a dragged token, above every token at rest.
pub const DRAG_LAYER: i32 = 6;

/// The answer block a token rests on, by its place in the list of blocks.
#[derive(Clone, Copy, Debug, PartialEq, Eq, Structural)]
pub struct On(pub usize);

/// A place of the interface where a token is at home.
#[derive(Clone, Copy, Debug, PartialEq, Eq, Structural)]
pub struct TokenSlot {
    /// Where the slot was laid out, in window coordinates.
    pub position: UiPoint,
    /// The size it was given.
    pub size: NodeSize,
}

/// A movable game piece.
#[derive(Clone, Copy, Debug, PartialEq, Eq, Structural)]
pub struct Token {
    /// Centre of the token in world coordinates.
    pub position: Point,
    /// Extent of the box in which the token can be grabbed.
    pub sides: SideLength,
    /// The slot the token returns to at the start of a round, by its place in
    /// the list of slots.
    pub start_slot: usize,
    /// The answer block the token rests on, if any.
    pub on: Option<On>,
    /// Whether the token is being dragged.
    pub dragged: bool,
    /// The colour the token is drawn in.
    pub color: Color,
}

impl Token {
    /// Draw order of the token: a dragged token is drawn above its siblings.
    pub fn layer(&self) -> (z: i32)
        ensures
            z == if self.dragged { DRAG_LAYER } else { REST_LAYER },
    {
        if self.dragged {
            DRAG_LAYER
        } else {
            REST_LAYER
        }
    }

    /// Whether the point `at` can grab the token.
    pub open spec fn grabbed_at(self, at: Point) -> bool {
        inside(at, self.sides, self.position)
    }

    /// The token after it was picked up: dragged, resting on nothing, in its
    /// neutral colour.
    pub open spec fn picked_up(self) -> Token {
        Token { on: None, dragged: true, color: DEFAULT_COLOR, ..self }
    }

    /// The token after it was put down among `answers`: at rest, and placed on
    /// the block it landed on, in that block's colour. A token that landed on
    /// no block is placed on nothing and takes its neutral colour.
    pub open spec fn put_down(self, answers: Seq<AnswerBlock>) -> Token {
        match landing(answers, self.position) {
            Some(j) => Token {
                on: Some(On(j as usize)),
                dragged: false,
                color: answers[j].color.0,
                ..self
            },
            None => Token { on: None, dragged: false, color: DEFAULT_COLOR, ..self },
        }
    }

    /// The token after the cursor moved to `to`.
    pub open spec fn moved_to(self, to: UiPoint) -> Token {
        Token { position: world_of(to), ..self }
    }

    /// The token at the start of a round: back at its home among `slots`,
    /// resting on nothing, in its neutral colour. A token whose home is not
    /// among the slots stays where it is.
    pub open spec fn sent_home(self, slots: Seq<TokenSlot>) -> Token {
        Token {
            position: if self.start_slot < slots.len() {
                world_of(slots[self.start_slot as int].position)
            } else {
                self.position
            },
            on: None,
            color: DEFAULT_COLOR,
            ..self
        }
    }
}

/// The token that a new slot gets: at the slot, as large as the slot, at rest.
pub open spec fn token_for(slot: TokenSlot, index: int) -> Token {
    Token {
        position: world_of(slot.position),
        sides: SideLength { x_len: slot.size.x as i64, y_len: slot.size.y as i64 },
        start_slot: index as usize,
        on: None,
        dragged: false,
        color: DEFAULT_COLOR,
    }
}

/// Whether some token is being dragged.
pub open spec fn any_dragged(tokens: Seq<Token>) -> bool {
    exists|i: int| 0 <= i < tokens.len() && (#[trigger] tokens[i]).dragged
}

/// Whether no two tokens are being dragged at once.
pub open spec fn at_most_one_dragged(tokens: Seq<Token>) -> bool {
    forall|i: int, j: int|
        0 <= i < tokens.len() && 0 <= j < tokens.len() && (#[trigger] tokens[i]).dragged && (
        #[trigger] tokens[j]).dragged ==> i == j
}

/// The first token in list order that the point `at` can grab.
pub open spec fn first_grabbed(tokens: Seq<Token>, at: Point) -> Option<int>
    decreases tokens.len(),
{
    if tokens.len() == 0 {
        None
    } else {
        match first_grabbed(tokens.drop_last(), at) {
            Some(k) => Some(k),
            None => if tokens.last().grabbed_at(at) {
                Some(tokens.len() - 1)
            } else {
                None
            },
        }
    }
}

/// The last answer block in list order that contains the point `at`.
pub open spec fn landing(answers: Seq<AnswerBlock>, at: Point) -> Option<int>
    decreases answers.len(),
{
    if answers.len() == 0 {
        None
    } else if answers.last().contains(at) {
        Some(answers.len() - 1)
    } else {
        landing(answers.drop_last(), at)
    }
}

/// The tokens after a press of the primary button.
///
/// Nothing happens unless the button went down, the cursor is free and inside
/// the window, and no token is dragged. Then the first token under the
/// cursor, if there is one, is picked up. While the cursor is locked, as it is
/// from a submission until its highlight has ended, no token is picked up.
pub open spec fn after_press(
    tokens: Seq<Token>,
    pressed: bool,
    cursor: Option<UiPoint>,
    locked: bool,
) -> Seq<Token> {
    if pressed && !locked && cursor is Some && !any_dragged(tokens) {
        match first_grabbed(tokens, world_of(cursor.unwrap())) {
            Some(k) => tokens.update(k, tokens[k].picked_up()),
            None => tokens,
        }
    } else {
        tokens
    }
}

/// Under the lock a press changes no token: none starts being dragged and
/// none loses its place.
pub proof fn locked_press_changes_nothing(
    tokens: Seq<Token>,
    pressed: bool,
    cursor: Option<UiPoint>,
)
    ensures
        after_press(tokens, pressed, cursor, true) == tokens,
{
}

/// The tokens after the cursor moved through `moves`: every dragged token is
/// at the last of them.
pub open spec fn after_moves(tokens: Seq<Token>, moves: Seq<UiPoint>) -> Seq<Token> {
    if moves.len() == 0 {
        tokens
    } else {
        Seq::new(
            tokens.len(),
            |i: int|
                if tokens[i].dragged {
                    tokens[i].moved_to(moves.last())
                } else {
                    tokens[i]
                },
        )
    }
}

/// The tokens after a release of the primary button: every dragged token is
/// put down.
pub open spec fn after_release(
    tokens: Seq<Token>,
    released: bool,
    answers: Seq<AnswerBlock>,
) -> Seq<Token> {
    if released {
        Seq::new(
            tokens.len(),
            |i: int|
                if tokens[i].dragged {
                    tokens[i].put_down(answers)
                } else {
                    tokens[i]
                },
        )
    } else {
        tokens
    }
}

/// The tokens at the start of a round.
pub open spec fn after_reset(tokens: Seq<Token>, changed: bool, slots: Seq<TokenSlot>) -> Seq<
    Token,
> {
    if changed {
        Seq::new(tokens.len(), |i: int| tokens[i].sent_home(slots))
    } else {
        tokens
    }
}

/// What `first_grabbed` finds: a token under the point with none before it,
/// or nothing where no token is under the point.
pub proof fn first_grabbed_is_first(tokens: Seq<Token>, at: Point)
    ensures
        match first_grabbed(tokens, at) {
            Some(k) => 0 <= k < tokens.len() && tokens[k].grabbed_at(at) && forall|i: int|
                0 <= i < k ==> !(#[trigger] tokens[i]).grabbed_at(at),
            None => forall|i: int| 0 <= i < tokens.len() ==> !(#[trigger] tokens[i]).grabbed_at(at),
        },
    decreases tokens.len(),
{
    if tokens.len() > 0 {
        first_grabbed_is_first(tokens.drop_last(), at);
        let front = tokens.drop_last();
        assert forall|i: int| 0 <= i < front.len() implies front[i] == tokens[i] by {}
        match first_grabbed(front, at) {
            Some(k) => {
                assert(tokens[k] == front[k]);
                assert forall|i: int| 0 <= i < k implies !(#[trigger] tokens[i]).grabbed_at(at) by {
                    assert(front[i] == tokens[i]);
                }
            },
            None => {
                assert forall|i: int| 0 <= i < tokens.len() - 1 implies !(
                #[trigger] tokens[i]).grabbed_at(at) by {
                    assert(front[i] == tokens[i]);
                }
            },
        }
    }
}

/// What `landing` finds: a block that contains the point with none after it,
/// or nothing where no block contains the point.
pub proof fn landing_is_last(answers: Seq<AnswerBlock>, at: Point)
    ensures
        match landing(answers, at) {
            Some(j) => 0 <= j < answers.len() && answers[j].contains(at) && forall|i: int|
                j < i < answers.len() ==> !(#[trigger] answers[i]).contains(at),
            None => forall|i: int| 0 <= i < answers.len() ==> !(#[trigger] answers[i]).contains(at),
        },
    decreases answers.len(),
{
    if answers.len() > 0 && !answers.last().contains(at) {
        let front = answers.drop_last();
        landing_is_last(front, at);
        match landing(front, at) {
            Some(j) => {
                assert(front[j] == answers[j]);
                assert forall|i: int| j < i < answers.len() implies !(
                #[trigger] answers[i]).contains(at) by {
                    if i < answers.len() - 1 {
                        assert(front[i] == answers[i]);
                    }
                }
            },
            None => {
                assert forall|i: int| 0 <= i < answers.len() implies !(
                #[trigger] answers[i]).contains(at) by {
                    if i < answers.len() - 1 {
                        assert(front[i] == answers[i]);
                    }
                }
            },
        }
    }
}

/// A token dropped where exactly one block contains it lands on that block.
pub proof fn lands_on_the_only_block(answers: Seq<AnswerBlock>, at: Point, j: int)
    requires
        0 <= j < answers.len(),
        forall|i: int|
            0 <= i < answers.len() ==> ((#[trigger] answers[i]).contains(at) <==> i == j),
    ensures
        landing(answers, at) == Some(j),
{
    landing_is_last(answers, at);
    assert(answers[j].contains(at));
}

/// Whatever the pointer does, no second token starts being dragged: a press,
/// a move and a release each keep at most one token dragged.
pub proof fn one_token_dragged_at_a_time(
    tokens: Seq<Token>,
    pressed: bool,
    cursor: Option<UiPoint>,
    moves: Seq<UiPoint>,
    released: bool,
    answers: Seq<AnswerBlock>,
    changed: bool,
    slots: Seq<TokenSlot>,
    locked: bool,
)
    requires
        at_most_one_dragged(tokens),
    ensures
        at_most_one_dragged(after_press(tokens, pressed, cursor, locked)),
        at_most_one_dragged(after_moves(tokens, moves)),
        at_most_one_dragged(after_release(tokens, released, answers)),
        at_most_one_dragged(after_reset(tokens, changed, slots)),
        released ==> !any_dragged(after_release(tokens, released, answers)),
{
    if pressed && !locked && cursor is Some && !any_dragged(tokens) {
        let at = world_of(cursor.unwrap());
        first_grabbed_is_first(tokens, at);
        match first_grabbed(tokens, at) {
            Some(k) => {
                let next = tokens.update(k, tokens[k].picked_up());
                assert forall|i: int, j: int|
                    0 <= i < next.len() && 0 <= j < next.len() && (#[trigger] next[i]).dragged && (
                    #[trigger] next[j]).dragged implies i == j by {
                    if i != k {
                        assert(tokens[i].dragged);
                    }
                    if j != k {
                        assert(tokens[j].dragged);
                    }
                }
            },
            None => {},
        }
    }
    let moved = after_moves(tokens, moves);
    assert forall|i: int, j: int|
        0 <= i < moved.len() && 0 <= j < moved.len() && (#[trigger] moved[i]).dragged && (
        #[trigger] moved[j]).dragged implies i == j by {
        assert(tokens[i].dragged && tokens[j].dragged);
    }
    let dropped = after_release(tokens, released, answers);
    assert forall|i: int, j: int|
        0 <= i < dropped.len() && 0 <= j < dropped.len() && (#[trigger] dropped[i]).dragged && (
        #[trigger] dropped[j]).dragged implies i == j by {
        assert(tokens[i].dragged && tokens[j].dragged);
    }
    let home = after_reset(tokens, changed, slots);
    assert forall|i: int, j: int|
        0 <= i < home.len() && 0 <= j < home.len() && (#[trigger] home[i]).dragged && (
        #[trigger] home[j]).dragged implies i == j by {
        assert(tokens[i].dragged && tokens[j].dragged);
    }
}

/// Spawns a token in every token slot.
pub fn spawn_tokens(slots: &Vec<TokenSlot>) -> (tokens: Vec<Token>)
    ensures
        tokens.len() == slots.len(),
        forall|i: int| 0 <= i < slots.len() ==> #[trigger] tokens[i] == token_for(slots[i], i),
        !any_dragged(tokens@),
{
    let mut tokens: Vec<Token> = Vec::new();
    let mut i: usize = 0;
    while i < slots.len()
        invariant
            i <= slots.len(),
            tokens.len() == i,
            forall|k: int| 0 <= k < i ==> #[trigger] tokens[k] == token_for(slots[k], k),
        decreases slots.len() - i,
    {
        let slot = slots[i];
        tokens.push(
            Token {
                position: to_world(slot.position),
                sides: SideLength { x_len: slot.size.x as i64, y_len: slot.size.y as i64 },
                start_slot: i,
                on: None,
                dragged: false,
                color: DEFAULT_COLOR,
            },
        );
        i = i + 1;
    }
    tokens
}

/// Whether some token is being dragged.
pub fn is_any_dragged(tokens: &Vec<Token>) -> (found: bool)
    ensures
        found == any_dragged(tokens@),
{
    let mut i: usize = 0;
    while i < tokens.len()
        invariant
            i <= tokens.len(),
            forall|k: int| 0 <= k < i ==> !(#[trigger] tokens[k]).dragged,
        decreases tokens.len() - i,
    {
        if tokens[i].dragged {
            return true;
        }
        i = i + 1;
    }
    false
}

/// Whether no two tokens are being dragged at once.
pub fn is_at_most_one_dragged(tokens: &Vec<Token>) -> (ok: bool)
    ensures
        ok == at_most_one_dragged(tokens@),
{
    let mut seen: Option<usize> = None;
    let mut i: usize = 0;
    while i < tokens.len()
        invariant
            i <= tokens.len(),
            match seen {
                Some(s) => s < i && tokens[s as int].dragged && forall|k: int|
                    0 <= k < i && (#[trigger] tokens[k]).dragged ==> k == s,
                None => forall|k: int| 0 <= k < i ==> !(#[trigger] tokens[k]).dragged,
            },
        decreases tokens.len() - i,
    {
        if tokens[i].dragged {
            match seen {
                Some(s) => {
                    assert(tokens[s as int].dragged && tokens[i as int].dragged);
                    return false;
                },
                None => {
                    seen = Some(i);
                },
            }
        }
        i = i + 1;
    }
    true
}

/// Picks up the token under the cursor when the primary button goes down,
/// unless the cursor is locked.
///
/// Returns the place of the token that was picked up, if one was.
pub fn up_draggable(
    pressed: bool,
    cursor: Option<UiPoint>,
    locked: bool,
    tokens: &mut Vec<Token>,
) -> (picked: Option<usize>)
    ensures
        final(tokens)@ == after_press(old(tokens)@, pressed, cursor, locked),
        final(tokens).len() == old(tokens).len(),
        match picked {
            Some(k) => pressed && !locked && cursor is Some && !any_dragged(old(tokens)@)
                && first_grabbed(old(tokens)@, world_of(cursor.unwrap())) == Some(k as int),
            None => final(tokens)@ == old(tokens)@,
        },
        locked ==> picked is None && final(tokens)@ == old(tokens)@,
        at_most_one_dragged(old(tokens)@) ==> at_most_one_dragged(final(tokens)@),
{
    proof {
        if at_most_one_dragged(tokens@) {
            one_token_dragged_at_a_time(
                tokens@,
                pressed,
                cursor,
                Seq::empty(),
                false,
                Seq::empty(),
                false,
                Seq::empty(),
                locked,
            );
        }
    }
    if !pressed || locked {
        return None;
    }
    let cursor_coords = match cursor {
        Some(c) => to_world(c),
        None => {
            return None;
        },
    };
    if is_any_dragged(tokens) {
        return None;
    }
    let mut i: usize = 0;
    while i < tokens.len()
        invariant
            i <= tokens.len(),
            tokens@ == old(tokens)@,
            pressed,
            !locked,
            cursor is Some,
            cursor_coords == world_of(cursor.unwrap()),
            !any_dragged(old(tokens)@),
            first_grabbed(tokens@.take(i as int), cursor_coords) is None,
        decreases tokens.len() - i,
    {
        let token = tokens[i];
        proof {
            assert(tokens@.take(i + 1).drop_last() =~= tokens@.take(i as int));
            assert(tokens@.take(i + 1).last() == token);
        }
        if in_bounds(&cursor_coords, &token.sides, &token.position) {
            proof {
                grabbed_in_prefix(tokens@, cursor_coords, i + 1, i as int);
            }
            tokens.set(i, Token { on: None, dragged: true, color: DEFAULT_COLOR, ..token });
            return Some(i);
        }
        i = i + 1;
    }
    proof {
        assert(tokens@.take(tokens.len() as int) =~= tokens@);
    }
    None
}

/// A token found among the first `n` tokens is found among all of them.
proof fn grabbed_in_prefix(tokens: Seq<Token>, at: Point, n: int, k: int)
    requires
        0 <= n <= tokens.len(),
        first_grabbed(tokens.take(n), at) == Some(k),
    ensures
        first_grabbed(tokens, at) == Some(k),
    decreases tokens.len() - n,
{
    if n < tokens.len() {
        assert(tokens.take(n + 1).drop_last() =~= tokens.take(n));
        grabbed_in_prefix(tokens, at, n + 1, k);
    } else {
        assert(tokens.take(n) =~= tokens);
    }
}

/// Moves the token being dragged to where the cursor went.
pub fn drag_token(moves: &Vec<UiPoint>, tokens: &mut Vec<Token>)
    ensures
        final(tokens)@ == after_moves(old(tokens)@, moves@),
        final(tokens).len() == old(tokens).len(),
        at_most_one_dragged(old(tokens)@) ==> at_most_one_dragged(final(tokens)@),
{
    proof {
        if at_most_one_dragged(tokens@) {
            one_token_dragged_at_a_time(
                tokens@,
                false,
                None,
                moves@,
                false,
                Seq::empty(),
                false,
                Seq::empty(),
                false,
            );
        }
    }
    if moves.len() == 0 {
        return ;
    }
    let to = moves[moves.len() - 1];
    let new_t = to_world(to);
    let mut i: usize = 0;
    while i < tokens.len()
        invariant
            i <= tokens.len(),
            tokens.len() == old(tokens).len(),
            moves.len() > 0,
            to == moves@.last(),
            new_t == world_of(to),
            forall|k: int|
                0 <= k < i ==> #[trigger] tokens[k] == after_moves(old(tokens)@, moves@)[k],
            forall|k: int| i <= k < tokens.len() ==> #[trigger] tokens[k] == old(tokens)[k],
        decreases tokens.len() - i,
    {
        let token = tokens[i];
        if token.dragged {
            tokens.set(i, Token { position: new_t, ..token });
        }
        i = i + 1;
    }
    assert(tokens@ =~= after_moves(old(tokens)@, moves@));
}

/// Finds the answer block a token at `at` lands on: the last one in list
/// order that contains the point.
pub fn find_landing(answers: &Vec<AnswerBlock>, at: &Point) -> (found: Option<usize>)
    ensures
        match found {
            Some(j) => j < answers.len() && landing(answers@, *at) == Some(j as int),
            None => landing(answers@, *at) is None,
        },
{
    let mut found: Option<usize> = None;
    let mut j: usize = 0;
    while j < answers.len()
        invariant
            j <= answers.len(),
            match found {
                Some(f) => f < j && landing(answers@.take(j as int), *at) == Some(f as int),
                None => landing(answers@.take(j as int), *at) is None,
            },
        decreases answers.len() - j,
    {
        let block = answers[j];
        proof {
            assert(answers@.take(j + 1).drop_last() =~= answers@.take(j as int));
            assert(answers@.take(j + 1).last() == block);
        }
        if in_bounds(at, &block.side_length, &block.position) {
            found = Some(j);
        }
        j = j + 1;
    }
    proof {
        assert(answers@.take(answers.len() as int) =~= answers@);
    }
    found
}

/// Puts down the token being dragged when the primary button is released,
/// and places it on the answer block it was dropped on.
pub fn down_draggable(released: bool, tokens: &mut Vec<Token>, answers: &Vec<AnswerBlock>)
    ensures
        final(tokens)@ == after_release(old(tokens)@, released, answers@),
        final(tokens).len() == old(tokens).len(),
        released ==> !any_dragged(final(tokens)@),
        at_most_one_dragged(old(tokens)@) ==> at_most_one_dragged(final(tokens)@),
{
    proof {
        if at_most_one_dragged(tokens@) {
            one_token_dragged_at_a_time(
                tokens@,
                false,
                None,
                Seq::empty(),
                released,
                answers@,
                false,
                Seq::empty(),
                false,
            );
        }
    }
    if !released {
        return ;
    }
    let mut i: usize = 0;
    while i < tokens.len()
        invariant
            i <= tokens.len(),
            tokens.len() == old(tokens).len(),
            released,
            forall|k: int|
                0 <= k < i ==> #[trigger] tokens[k] == after_release(
                    old(tokens)@,
                    released,
                    answers@,
                )[k],
            forall|k: int| i <= k < tokens.len() ==> #[trigger] tokens[k] == old(tokens)[k],
        decreases tokens.len() - i,
    {
        let token = tokens[i];
        if token.dragged {
            let placed = match find_landing(answers, &token.position) {
                Some(j) => Token {
                    on: Some(On(j)),
                    dragged: false,
                    color: answers[j].color.0,
                    ..token
                },
                None => Token { on: None, dragged: false, color: DEFAULT_COLOR, ..token },
            };
            tokens.set(i, placed);
        }
        i = i + 1;
    }
    assert(tokens@ =~= after_release(old(tokens)@, released, answers@));
    assert(!any_dragged(tokens@));
}

/// Sends every token home when the next round has begun.
pub fn reset_tokens(changed: bool, tokens: &mut Vec<Token>, slots: &Vec<TokenSlot>)
    ensures
        final(tokens)@ == after_reset(old(tokens)@, changed, slots@),
        final(tokens).len() == old(tokens).len(),
        at_most_one_dragged(old(tokens)@) ==> at_most_one_dragged(final(tokens)@),
{
    proof {
        if at_most_one_dragged(tokens@) {
            one_token_dragged_at_a_time(
                tokens@,
                false,
                None,
                Seq::empty(),
                false,
                Seq::empty(),
                changed,
                slots@,
                false,
            );
        }
    }
    if !changed {
        return ;
    }
    let mut i: usize = 0;
    while i < tokens.len()
        invariant
            i <= tokens.len(),
            tokens.len() == old(tokens).len(),
            forall|k: int| 0 <= k < i ==> #[trigger] tokens[k] == old(tokens)[k].sent_home(slots@),
            forall|k: int| i <= k < tokens.len() ==> #[trigger] tokens[k] == old(tokens)[k],
        decreases tokens.len() - i,
    {
        let token = tokens[i];
        let position = if token.start_slot < slots.len() {
            to_world(slots[token.start_slot].position)
        } else {
            token.position
        };
        tokens.set(i, Token { position, on: None, color: DEFAULT_COLOR, ..token });
        i = i + 1;
    }
    assert(tokens@ =~= after_reset(old(tokens)@, changed, slots@));
}

} // verus!
