use crate::network::events::PlayerInput;
use vstd::prelude::*;

verus! {

/// Turns the keyboard into the player's input.
pub struct PlayerControlPlugin;

impl PlayerControlPlugin {
    /// The input that a player starts with: every intent is off.
    pub fn build(&self) -> (input: PlayerInput)
        ensures
            input == PlayerInput::idle_input(),
            !steers(input),
    {
        PlayerInput::idle()
    }
}

/// Whether the input steers along either axis.
pub open spec fn steers(input: PlayerInput) -> bool {
    steer(input.left, input.right) != 0 || steer(input.backward, input.forward) != 0
}

/// Which of the four movement keys are down.
#[derive(Clone, Copy, Debug, PartialEq, Eq, Structural)]
pub struct MovementKeys {
    pub a: bool,
    pub d: bool,
    pub w: bool,
    pub s: bool,
}

/// One for a key that is down, zero for one that is up.
pub open spec fn flag(down: bool) -> u8 {
    if down {
        1
    } else {
        0
    }
}

/// The input once the movement keys are taken into account: `a` steers left,
/// `d` right, `w` forward and `s` back. The other intents stay as they are.
pub open spec fn steered(input: PlayerInput, keys: MovementKeys) -> PlayerInput {
    PlayerInput {
        left: flag(keys.a),
        right: flag(keys.d),
        forward: flag(keys.w),
        backward: flag(keys.s),
        ..input
    }
}

/// Brings the player's input in line with the keyboard and says whether
/// anything changed, which is when the input is to be sent again.
pub fn handle_player_input(keys: MovementKeys, input: &mut PlayerInput) -> (changed: bool)
    ensures
        *final(input) == steered(*old(input), keys),
        changed == (*final(input) != *old(input)),
{
    let left: u8 = if keys.a { 1 } else { 0 };
    let right: u8 = if keys.d { 1 } else { 0 };
    let forward: u8 = if keys.w { 1 } else { 0 };
    let backward: u8 = if keys.s { 1 } else { 0 };
    let mut changed = false;
    if input.left != left {
        input.left = left;
        changed = true;
    }
    if input.right != right {
        input.right = right;
        changed = true;
    }
    if input.forward != forward {
        input.forward = forward;
        changed = true;
    }
    if input.backward != backward {
        input.backward = backward;
        changed = true;
    }
    changed
}

/// How far an avatar moves in a second along an axis on which it is steered.
pub const SPEED: i64 = 50;

/// The way that an input steers along one axis: one step for the intent
/// toward the far end, one step back for the intent toward the near end.
pub open spec fn steer(toward_near: u8, toward_far: u8) -> int {
    (if toward_far > 0 {
        1int
    } else {
        0int
    }) - (if toward_near > 0 {
        1int
    } else {
        0int
    })
}

/// The way that an input steers an avatar: along the first axis `right` is
/// the far end and `left` the near one, along the second `forward` is the far
/// end and `backward` the near one. Each is -1, 0 or 1.
pub fn direction(input: &PlayerInput) -> (way: (i8, i8))
    ensures
        way.0 == steer(input.left, input.right),
        way.1 == steer(input.backward, input.forward),
{
    let mut x: i8 = 0;
    if input.left > 0 {
        x = x - 1;
    }
    if input.right > 0 {
        x = x + 1;
    }
    let mut y: i8 = 0;
    if input.backward > 0 {
        y = y - 1;
    }
    if input.forward > 0 {
        y = y + 1;
    }
    (x, y)
}

/// A place on the plane, in thousandths of a unit.
#[derive(Clone, Copy, Debug, PartialEq, Eq, Structural)]
pub struct Place {
    pub x: i64,
    pub y: i64,
}

/// Where an avatar that is steered by `input` stands after a tick of
/// `tick_millis` milliseconds: `SPEED` units a second further along each axis
/// on which it is steered.
pub open spec fn moved(place: Place, input: PlayerInput, tick_millis: u32) -> (int, int) {
    (
        place.x + steer(input.left, input.right) * SPEED * tick_millis,
        place.y + steer(input.backward, input.forward) * SPEED * tick_millis,
    )
}

/// Moves an avatar by one tick, and says whether it moved. An avatar whose
/// input is all off, or whose steering cancels out, stays, as does one that
/// would leave the plane.
pub fn input_system(place: &mut Place, input: &PlayerInput, tick_millis: u32) -> (did_move: bool)
    ensures
        did_move ==> final(place).x == moved(*old(place), *input, tick_millis).0 && final(place).y
            == moved(*old(place), *input, tick_millis).1,
        !did_move ==> *final(place) == *old(place),
        did_move == (tick_millis > 0 && steers(*input) && i64::MIN <= moved(
            *old(place),
            *input,
            tick_millis,
        ).0 <= i64::MAX && i64::MIN <= moved(*old(place), *input, tick_millis).1 <= i64::MAX),
{
    if !input.any() {
        return false;
    }
    let (way_x, way_y) = direction(input);
    let step: i64 = SPEED * (tick_millis as i64);
    let delta_x: i64 = (way_x as i64) * step;
    let delta_y: i64 = (way_y as i64) * step;
    assert(delta_x == steer(input.left, input.right) * SPEED * tick_millis) by (nonlinear_arith)
        requires
            delta_x == way_x * step,
            step == SPEED * tick_millis,
            way_x == steer(input.left, input.right),
    ;
    assert(delta_y == steer(input.backward, input.forward) * SPEED * tick_millis)
        by (nonlinear_arith)
        requires
            delta_y == way_y * step,
            step == SPEED * tick_millis,
            way_y == steer(input.backward, input.forward),
    ;
    if delta_x == 0 && delta_y == 0 {
        assert(tick_millis == 0 || (way_x == 0 && way_y == 0)) by (nonlinear_arith)
            requires
                delta_x == way_x * step,
                delta_y == way_y * step,
                step == 50 * tick_millis,
                delta_x == 0,
                delta_y == 0,
        ;
        return false;
    }
    assert(tick_millis > 0 && (way_x != 0 || way_y != 0)) by (nonlinear_arith)
        requires
            delta_x == way_x * step,
            delta_y == way_y * step,
            step == 50 * tick_millis,
            delta_x != 0 || delta_y != 0,
    ;
    match (place.x.checked_add(delta_x), place.y.checked_add(delta_y)) {
        (Some(x), Some(y)) => {
            place.x = x;
            place.y = y;
            true
        },
        _ => false,
    }
}

/// While the input is forward alone, every tick takes the avatar strictly
/// further along the second axis, by `SPEED` units a second, and leaves it
/// where it is along the first.
pub proof fn lemma_steady_input_moves_steadily(place: Place, input: PlayerInput, tick_millis: u32)
    requires
        tick_millis > 0,
        input.forward > 0,
        input.backward == 0,
        input.left == 0,
        input.right == 0,
    ensures
        moved(place, input, tick_millis).1 == place.y + SPEED * tick_millis,
        moved(place, input, tick_millis).1 > place.y,
        moved(place, input, tick_millis).0 == place.x,
{
    assert(1 * SPEED * tick_millis == SPEED * tick_millis) by (nonlinear_arith);
    assert(0 * SPEED * tick_millis == 0) by (nonlinear_arith);
}

} // verus!
