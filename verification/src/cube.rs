use vstd::prelude::*;

use crate::direction::Direction;
use crate::keys::{Key, KeyEvent, KeyEventView, KeyView, NamedKey};
use crate::shape_util::{create_cube_vertices, spec_cube_indices};

verus! {

/// How fast the cube slides while an arrow key is held, in units per second.
pub const TRANSLATION_SPEED: i32 = 100;

/// How fast the cube turns while a rotation key is held, in radians per second.
pub const ROTATION_SPEED: i32 = 1;

/// How fast the cube grows or shrinks while a scale key is held, per second.
pub const SCALE_SPEED: i32 = 20;

/// The key that names `n`.
pub open spec fn named(n: NamedKey) -> KeyView {
    KeyView::Named(n)
}

/// The key that types the single character `c`.
pub open spec fn char_key(c: char) -> KeyView {
    KeyView::Character(seq![c])
}

/// The direction that a control is in after `event`, when the control
/// moves in `pressed_direction` while `key` is held: pressing the key sets
/// it, releasing the key stops the control if it is still moving that way,
/// and any other key leaves it alone.
pub open spec fn next_direction(
    event: KeyEventView,
    key: KeyView,
    pressed_direction: Direction,
    current: Direction,
) -> Direction {
    if event.logical_key == key {
        if event.pressed {
            pressed_direction
        } else if current == pressed_direction {
            Direction::Idle
        } else {
            current
        }
    } else {
        current
    }
}

/// The sliding speed that goes with a direction.
pub open spec fn speed_for(d: Direction) -> int {
    d.sign_of() * TRANSLATION_SPEED
}

/// Sliding state of the cube: which way it moves along each axis, and how fast.
#[derive(PartialEq, Eq, Structural, Debug, Clone, Copy)]
pub struct Translation {
    pub x_speed: i32,
    pub y_speed: i32,
    pub z_speed: i32,
    pub x_direction: Direction,
    pub y_direction: Direction,
    pub z_direction: Direction,
}

/// Turning state of the cube.
#[derive(PartialEq, Eq, Structural, Debug, Clone, Copy)]
pub struct Rotation {
    pub direction: Direction,
}

/// Growing state of the cube along each axis.
#[derive(PartialEq, Eq, Structural, Debug, Clone, Copy)]
pub struct Scale {
    pub x_direction: Direction,
    pub y_direction: Direction,
    pub z_direction: Direction,
}

/// The cube's controls and the number of indices that draw it.
#[derive(PartialEq, Eq, Structural, Debug, Clone, Copy)]
pub struct Cube {
    pub translation: Translation,
    pub rotation: Rotation,
    pub scale: Scale,
    pub num_vertices: u32,
}

/// Where the cube starts, in whole units: position, turn angle and scale.
#[derive(PartialEq, Eq, Structural, Debug, Clone, Copy)]
pub struct StartPose {
    pub x: i32,
    pub y: i32,
    pub z: i32,
    pub angle: i32,
    pub scale_x: i32,
    pub scale_y: i32,
    pub scale_z: i32,
}

/// How fast each animated quantity changes per second.
#[derive(PartialEq, Eq, Structural, Debug, Clone, Copy)]
pub struct Rates {
    pub translation_x: i32,
    pub translation_y: i32,
    pub translation_z: i32,
    pub rotation: i32,
    pub scale_x: i32,
    pub scale_y: i32,
    pub scale_z: i32,
}

impl Translation {
    /// Each speed is the one that goes with its direction.
    pub open spec fn wf(self) -> bool {
        &&& self.x_speed == speed_for(self.x_direction)
        &&& self.y_speed == speed_for(self.y_direction)
        &&& self.z_speed == speed_for(self.z_direction)
    }

    /// The sliding state after `e`: left/right steer along x, down/up along y,
    /// and the x and y speeds follow their directions.
    pub open spec fn after_key(self, e: KeyEventView) -> Translation {
        let x1 = next_direction(e, named(NamedKey::ArrowLeft), Direction::Dec, self.x_direction);
        let x2 = next_direction(e, named(NamedKey::ArrowRight), Direction::Inc, x1);
        let y1 = next_direction(e, named(NamedKey::ArrowDown), Direction::Inc, self.y_direction);
        let y2 = next_direction(e, named(NamedKey::ArrowUp), Direction::Dec, y1);
        Translation {
            x_speed: speed_for(x2) as i32,
            y_speed: speed_for(y2) as i32,
            z_speed: self.z_speed,
            x_direction: x2,
            y_direction: y2,
            z_direction: self.z_direction,
        }
    }
}

impl Rotation {
    /// The turning state after `e`: `q` turns one way, `f` the other.
    pub open spec fn after_key(self, e: KeyEventView) -> Rotation {
        let d1 = next_direction(e, char_key('q'), Direction::Inc, self.direction);
        Rotation { direction: next_direction(e, char_key('f'), Direction::Dec, d1) }
    }
}

impl Scale {
    /// The growing state along x after `e`: `s` grows, `a` shrinks.
    pub open spec fn after_key_x(self, e: KeyEventView) -> Scale {
        let d1 = next_direction(e, char_key('s'), Direction::Inc, self.x_direction);
        Scale { x_direction: next_direction(e, char_key('a'), Direction::Dec, d1), ..self }
    }

    /// The growing state along y after `e`: `w` grows, `r` shrinks.
    pub open spec fn after_key_y(self, e: KeyEventView) -> Scale {
        let d1 = next_direction(e, char_key('w'), Direction::Inc, self.y_direction);
        Scale { y_direction: next_direction(e, char_key('r'), Direction::Dec, d1), ..self }
    }
}

impl Cube {
    /// The controls hold together: the sliding speeds follow their directions.
    pub open spec fn wf(self) -> bool {
        self.translation.wf()
    }

    /// The cube after the key event `e`.
    pub open spec fn after_input(self, e: KeyEventView) -> Cube {
        Cube {
            translation: self.translation.after_key(e),
            rotation: self.rotation.after_key(e),
            scale: self.scale.after_key_y(e).after_key_x(e),
            num_vertices: self.num_vertices,
        }
    }

    /// A cube at rest, drawn with the cube mesh.
    pub open spec fn spec_initial() -> Cube {
        Cube {
            translation: Translation {
                x_speed: 0,
                y_speed: 0,
                z_speed: 0,
                x_direction: Direction::Idle,
                y_direction: Direction::Idle,
                z_direction: Direction::Idle,
            },
            rotation: Rotation { direction: Direction::Idle },
            scale: Scale {
                x_direction: Direction::Idle,
                y_direction: Direction::Idle,
                z_direction: Direction::Idle,
            },
            num_vertices: spec_cube_indices().len() as u32,
        }
    }

    /// How fast each quantity changes per second, as the controls stand.
    pub open spec fn spec_rates(self) -> Rates {
        Rates {
            translation_x: self.translation.x_speed,
            translation_y: self.translation.y_speed,
            translation_z: self.translation.z_speed,
            rotation: (self.rotation.direction.sign_of() * ROTATION_SPEED) as i32,
            scale_x: (self.scale.x_direction.sign_of() * SCALE_SPEED) as i32,
            scale_y: (self.scale.y_direction.sign_of() * SCALE_SPEED) as i32,
            scale_z: (self.scale.z_direction.sign_of() * SCALE_SPEED) as i32,
        }
    }

    /// A cube at rest, drawn with the cube mesh.
    pub fn new() -> (c: Cube)
        ensures
            c == Cube::spec_initial(),
            c.wf(),
    {
        let translation = Translation {
            x_speed: 0,
            y_speed: 0,
            z_speed: 0,
            x_direction: Direction::Idle,
            y_direction: Direction::Idle,
            z_direction: Direction::Idle,
        };
        let rotation = Rotation { direction: Direction::Idle };
        let scale = Scale {
            x_direction: Direction::Idle,
            y_direction: Direction::Idle,
            z_direction: Direction::Idle,
        };
        let (_vertex_data, _index_data, num_vertices) = create_cube_vertices();
        Cube { translation, rotation, scale, num_vertices }
    }

    /// Where a new cube stands: at depth 100, unturned, at unit scale.
    pub fn start_pose() -> (p: StartPose)
        ensures
            p == (StartPose { x: 0, y: 0, z: 100, angle: 0, scale_x: 1, scale_y: 1, scale_z: 1 }),
    {
        StartPose { x: 0, y: 0, z: 100, angle: 0, scale_x: 1, scale_y: 1, scale_z: 1 }
    }

    /// How fast each quantity of the cube changes per second, as the
    /// controls stand: the sliding speeds, and the turning and growing
    /// speeds in the direction of their controls.
    pub fn rates(&self) -> (r: Rates)
        ensures
            r == self.spec_rates(),
    {
        Rates {
            translation_x: self.translation.x_speed,
            translation_y: self.translation.y_speed,
            translation_z: self.translation.z_speed,
            rotation: self.rotation.direction.scaled(ROTATION_SPEED),
            scale_x: self.scale.x_direction.scaled(SCALE_SPEED),
            scale_y: self.scale.y_direction.scaled(SCALE_SPEED),
            scale_z: self.scale.z_direction.scaled(SCALE_SPEED),
        }
    }

    /// Steers the cube by a key event: arrows slide it, `q`/`f` turn it,
    /// `s`/`a` scale it along x and `w`/`r` along y.
    pub fn handle_input(&mut self, event: &KeyEvent)
        ensures
            *final(self) == old(self).after_input(event@),
    {
        handle_translation(event, self);
        handle_rotation(event, self);
        handle_scale_x(event, self);
        handle_scale_y(event, self);
    }
}

/// The key that types `c`, built from its text.
fn char_key_of(text: &str, Ghost(c): Ghost<char>) -> (k: Key)
    requires
        text@ == seq![c],
    ensures
        k@ == char_key(c),
{
    Key::character(text)
}

/// Moves `value_ref` by `event` as [`next_direction`] says.
pub fn handle_direction(
    event: &KeyEvent,
    logical_key: &Key,
    pressed_direction: Direction,
    value_ref: &mut Direction,
)
    ensures
        *final(value_ref) == next_direction(event@, logical_key@, pressed_direction, *old(value_ref)),
{
    if event.logical_key.same_as(logical_key) {
        if event.pressed {
            *value_ref = pressed_direction;
        } else if *value_ref == pressed_direction {
            *value_ref = Direction::Idle;
        }
    }
}

/// The sliding speed that goes with `d`.
fn speed_of(d: Direction) -> (s: i32)
    ensures
        s == speed_for(d),
{
    let mut speed: i32 = 0;
    if d == Direction::Dec {
        speed = -TRANSLATION_SPEED;
    }
    if d == Direction::Inc {
        speed = TRANSLATION_SPEED;
    }
    if d == Direction::Idle {
        speed = 0;
    }
    speed
}

/// Arrow keys steer the cube along x and y, and the speeds follow.
pub fn handle_translation(event: &KeyEvent, state: &mut Cube)
    ensures
        *final(state) == (Cube { translation: old(state).translation.after_key(event@), ..*old(state) }),
{
    handle_direction(
        event,
        &Key::Named(NamedKey::ArrowLeft),
        Direction::Dec,
        &mut state.translation.x_direction,
    );
    handle_direction(
        event,
        &Key::Named(NamedKey::ArrowRight),
        Direction::Inc,
        &mut state.translation.x_direction,
    );
    handle_direction(
        event,
        &Key::Named(NamedKey::ArrowDown),
        Direction::Inc,
        &mut state.translation.y_direction,
    );
    handle_direction(
        event,
        &Key::Named(NamedKey::ArrowUp),
        Direction::Dec,
        &mut state.translation.y_direction,
    );
    state.translation.x_speed = speed_of(state.translation.x_direction);
    state.translation.y_speed = speed_of(state.translation.y_direction);
}

/// `q` turns the cube one way and `f` the other.
pub fn handle_rotation(event: &KeyEvent, state: &mut Cube)
    ensures
        *final(state) == (Cube { rotation: old(state).rotation.after_key(event@), ..*old(state) }),
{
    proof {
        reveal_strlit("q");
        assert("q"@ =~= seq!['q']);
        reveal_strlit("f");
        assert("f"@ =~= seq!['f']);
    }
    handle_direction(event, &char_key_of("q", Ghost('q')), Direction::Inc, &mut state.rotation.direction);
    handle_direction(event, &char_key_of("f", Ghost('f')), Direction::Dec, &mut state.rotation.direction);
}

/// `s` grows the cube along x and `a` shrinks it.
pub fn handle_scale_x(event: &KeyEvent, state: &mut Cube)
    ensures
        *final(state) == (Cube { scale: old(state).scale.after_key_x(event@), ..*old(state) }),
{
    proof {
        reveal_strlit("s");
        assert("s"@ =~= seq!['s']);
        reveal_strlit("a");
        assert("a"@ =~= seq!['a']);
    }
    handle_direction(event, &char_key_of("s", Ghost('s')), Direction::Inc, &mut state.scale.x_direction);
    handle_direction(event, &char_key_of("a", Ghost('a')), Direction::Dec, &mut state.scale.x_direction);
}

/// `w` grows the cube along y and `r` shrinks it.
pub fn handle_scale_y(event: &KeyEvent, state: &mut Cube)
    ensures
        *final(state) == (Cube { scale: old(state).scale.after_key_y(event@), ..*old(state) }),
{
    proof {
        reveal_strlit("w");
        assert("w"@ =~= seq!['w']);
        reveal_strlit("r");
        assert("r"@ =~= seq!['r']);
    }
    handle_direction(event, &char_key_of("w", Ghost('w')), Direction::Inc, &mut state.scale.y_direction);
    handle_direction(event, &char_key_of("r", Ghost('r')), Direction::Dec, &mut state.scale.y_direction);
}

/// The rows of a 4x4 matrix laid end to end.
pub fn flatten_rows<T: Copy>(rows: &[[T; 4]; 4]) -> (res: Vec<T>)
    ensures
        res@.len() == 16,
        forall|i: int, j: int| 0 <= i < 4 && 0 <= j < 4 ==> #[trigger] res@[4 * i + j] == rows@[i]@[j],
{
    let mut res: Vec<T> = Vec::new();
    for i in 0..4usize
        invariant
            res@.len() == 4 * i,
            forall|a: int, b: int| 0 <= a < i && 0 <= b < 4 ==> #[trigger] res@[4 * a + b] == rows@[a]@[b],
    {
        let row: [T; 4] = rows[i];
        for j in 0..4usize
            invariant
                res@.len() == 4 * i + j,
                row@ == rows@[i as int]@,
                forall|a: int, b: int| 0 <= a < i && 0 <= b < 4 ==> #[trigger] res@[4 * a + b] == rows@[a]@[b],
                forall|b: int| 0 <= b < j ==> #[trigger] res@[4 * i + b] == rows@[i as int]@[b],
        {
            res.push(row[j]);
        }
    }
    res
}

/// The event of pressing `k`.
pub open spec fn press(k: KeyView) -> KeyEventView {
    KeyEventView { logical_key: k, pressed: true }
}

/// The event of releasing `k`.
pub open spec fn release(k: KeyView) -> KeyEventView {
    KeyEventView { logical_key: k, pressed: false }
}

/// Whether `k` is one of the keys that steer the cube.
pub open spec fn is_control_key(k: KeyView) -> bool {
    ||| k == named(NamedKey::ArrowLeft)
    ||| k == named(NamedKey::ArrowRight)
    ||| k == named(NamedKey::ArrowUp)
    ||| k == named(NamedKey::ArrowDown)
    ||| k == char_key('q')
    ||| k == char_key('f')
    ||| k == char_key('s')
    ||| k == char_key('a')
    ||| k == char_key('w')
    ||| k == char_key('r')
}

/// The direction a control ends in when `k` is pressed and released
/// while the control is in `d`: at rest if `k` is one of its two keys,
/// untouched otherwise.
pub open spec fn after_tap(d: Direction, k: KeyView, inc_key: KeyView, dec_key: KeyView) -> Direction {
    if k == inc_key || k == dec_key {
        Direction::Idle
    } else {
        d
    }
}

/// Every key event keeps the controls together: the sliding speeds go on
/// following their directions.
pub proof fn lemma_input_keeps_wf(c: Cube, e: KeyEventView)
    requires
        c.wf(),
    ensures
        c.after_input(e).wf(),
{
}

/// A key that steers nothing leaves the cube as it was.
pub proof fn lemma_other_keys_ignored(c: Cube, e: KeyEventView)
    requires
        c.wf(),
        !is_control_key(e.logical_key),
    ensures
        c.after_input(e) == c,
{
}

/// Pressing a key and releasing it again brings the control that the key
/// steers to rest and leaves every other control as it was.
pub proof fn lemma_press_then_release(c: Cube, k: KeyView)
    requires
        c.wf(),
    ensures
        ({
            let after = c.after_input(press(k)).after_input(release(k));
            &&& after.translation.x_direction == after_tap(
                c.translation.x_direction,
                k,
                named(NamedKey::ArrowRight),
                named(NamedKey::ArrowLeft),
            )
            &&& after.translation.y_direction == after_tap(
                c.translation.y_direction,
                k,
                named(NamedKey::ArrowDown),
                named(NamedKey::ArrowUp),
            )
            &&& after.translation.z_direction == c.translation.z_direction
            &&& after.rotation.direction == after_tap(
                c.rotation.direction,
                k,
                char_key('q'),
                char_key('f'),
            )
            &&& after.scale.x_direction == after_tap(
                c.scale.x_direction,
                k,
                char_key('s'),
                char_key('a'),
            )
            &&& after.scale.y_direction == after_tap(
                c.scale.y_direction,
                k,
                char_key('w'),
                char_key('r'),
            )
            &&& after.scale.z_direction == c.scale.z_direction
            &&& after.num_vertices == c.num_vertices
            &&& after.wf()
        }),
{
}

/// When a second key takes a control over in the other direction,
/// releasing the first key no longer stops it: the latest press wins.
pub proof fn lemma_latest_press_wins(
    first: KeyView,
    second: KeyView,
    first_direction: Direction,
    second_direction: Direction,
    d: Direction,
)
    requires
        first != second,
        first_direction != second_direction,
    ensures
        next_direction(
            release(first),
            first,
            first_direction,
            next_direction(
                press(second),
                second,
                second_direction,
                next_direction(press(first), first, first_direction, d),
            ),
        ) == second_direction,
{
}

/// While the controls hold together, every quantity changes at its own
/// speed in the direction of its control; a cube at rest does not change,
/// and opposite directions give opposite rates.
pub proof fn lemma_rates_follow_controls(c: Cube)
    requires
        c.wf(),
    ensures
        c.spec_rates().translation_x == c.translation.x_direction.sign_of() * TRANSLATION_SPEED,
        c.spec_rates().translation_y == c.translation.y_direction.sign_of() * TRANSLATION_SPEED,
        c.spec_rates().translation_z == c.translation.z_direction.sign_of() * TRANSLATION_SPEED,
        c.spec_rates().rotation == c.rotation.direction.sign_of() * ROTATION_SPEED,
        c.spec_rates().scale_x == c.scale.x_direction.sign_of() * SCALE_SPEED,
        c.spec_rates().scale_y == c.scale.y_direction.sign_of() * SCALE_SPEED,
        c.spec_rates().scale_z == c.scale.z_direction.sign_of() * SCALE_SPEED,
{
}

/// A new cube stands still: every rate is zero.
pub proof fn lemma_new_cube_at_rest()
    ensures
        Cube::spec_initial().wf(),
        Cube::spec_initial().spec_rates() == (Rates {
            translation_x: 0,
            translation_y: 0,
            translation_z: 0,
            rotation: 0,
            scale_x: 0,
            scale_y: 0,
            scale_z: 0,
        }),
        Cube::spec_initial().num_vertices == 24,
{
}

/// With the left arrow held, pressing the right arrow and then letting go
/// of the left one leaves the cube sliding right at full speed.
pub proof fn lemma_latest_arrow_wins(c: Cube)
    requires
        c.wf(),
    ensures
        ({
            let after = c.after_input(press(named(NamedKey::ArrowLeft))).after_input(
                press(named(NamedKey::ArrowRight)),
            ).after_input(release(named(NamedKey::ArrowLeft)));
            &&& after.translation.x_direction == Direction::Inc
            &&& after.translation.x_speed == TRANSLATION_SPEED
        }),
{
}

/// No key steers the cube in depth: its sliding and growing along z, and
/// the number of indices it is drawn with, never change under input.
pub proof fn lemma_depth_never_steered(c: Cube, e: KeyEventView)
    ensures
        c.after_input(e).translation.z_direction == c.translation.z_direction,
        c.after_input(e).translation.z_speed == c.translation.z_speed,
        c.after_input(e).scale.z_direction == c.scale.z_direction,
        c.after_input(e).num_vertices == c.num_vertices,
{
}

/// The six letter keys of the controls are six different keys.
proof fn lemma_letter_keys_distinct()
    ensures
        char_key('q') != char_key('f'),
        char_key('q') != char_key('s'),
        char_key('q') != char_key('a'),
        char_key('q') != char_key('w'),
        char_key('q') != char_key('r'),
        char_key('f') != char_key('s'),
        char_key('f') != char_key('a'),
        char_key('f') != char_key('w'),
        char_key('f') != char_key('r'),
        char_key('s') != char_key('a'),
        char_key('s') != char_key('w'),
        char_key('s') != char_key('r'),
        char_key('a') != char_key('w'),
        char_key('a') != char_key('r'),
        char_key('w') != char_key('r'),
{
    assert(char_key('q') is Character && char_key('q')->Character_0[0] == 'q');
    assert(char_key('f') is Character && char_key('f')->Character_0[0] == 'f');
    assert(char_key('s') is Character && char_key('s')->Character_0[0] == 's');
    assert(char_key('a') is Character && char_key('a')->Character_0[0] == 'a');
    assert(char_key('w') is Character && char_key('w')->Character_0[0] == 'w');
    assert(char_key('r') is Character && char_key('r')->Character_0[0] == 'r');
}

/// Pressing a key drives the key's own control: the control takes the
/// key's direction whatever it was before (a repeated press of a held key
/// keeps it moving), the sliding speed of an arrow's axis is the full speed
/// that way, and every other control keeps its direction.
pub proof fn lemma_press_sets_direction(c: Cube)
    ensures
        c.after_input(press(named(NamedKey::ArrowRight))).translation.x_direction == Direction::Inc,
        c.after_input(press(named(NamedKey::ArrowRight))).translation.x_speed == TRANSLATION_SPEED,
        c.after_input(press(named(NamedKey::ArrowRight))).translation.y_direction == c.translation.y_direction,
        c.after_input(press(named(NamedKey::ArrowRight))).rotation.direction == c.rotation.direction,
        c.after_input(press(named(NamedKey::ArrowRight))).scale.x_direction == c.scale.x_direction,
        c.after_input(press(named(NamedKey::ArrowRight))).scale.y_direction == c.scale.y_direction,
        c.after_input(press(named(NamedKey::ArrowRight))).translation.z_direction == c.translation.z_direction,
        c.after_input(press(named(NamedKey::ArrowRight))).scale.z_direction == c.scale.z_direction,
        c.after_input(press(named(NamedKey::ArrowLeft))).translation.x_direction == Direction::Dec,
        c.after_input(press(named(NamedKey::ArrowLeft))).translation.x_speed == -TRANSLATION_SPEED,
        c.after_input(press(named(NamedKey::ArrowLeft))).translation.y_direction == c.translation.y_direction,
        c.after_input(press(named(NamedKey::ArrowLeft))).rotation.direction == c.rotation.direction,
        c.after_input(press(named(NamedKey::ArrowLeft))).scale.x_direction == c.scale.x_direction,
        c.after_input(press(named(NamedKey::ArrowLeft))).scale.y_direction == c.scale.y_direction,
        c.after_input(press(named(NamedKey::ArrowLeft))).translation.z_direction == c.translation.z_direction,
        c.after_input(press(named(NamedKey::ArrowLeft))).scale.z_direction == c.scale.z_direction,
        c.after_input(press(named(NamedKey::ArrowDown))).translation.y_direction == Direction::Inc,
        c.after_input(press(named(NamedKey::ArrowDown))).translation.y_speed == TRANSLATION_SPEED,
        c.after_input(press(named(NamedKey::ArrowDown))).translation.x_direction == c.translation.x_direction,
        c.after_input(press(named(NamedKey::ArrowDown))).rotation.direction == c.rotation.direction,
        c.after_input(press(named(NamedKey::ArrowDown))).scale.x_direction == c.scale.x_direction,
        c.after_input(press(named(NamedKey::ArrowDown))).scale.y_direction == c.scale.y_direction,
        c.after_input(press(named(NamedKey::ArrowDown))).translation.z_direction == c.translation.z_direction,
        c.after_input(press(named(NamedKey::ArrowDown))).scale.z_direction == c.scale.z_direction,
        c.after_input(press(named(NamedKey::ArrowUp))).translation.y_direction == Direction::Dec,
        c.after_input(press(named(NamedKey::ArrowUp))).translation.y_speed == -TRANSLATION_SPEED,
        c.after_input(press(named(NamedKey::ArrowUp))).translation.x_direction == c.translation.x_direction,
        c.after_input(press(named(NamedKey::ArrowUp))).rotation.direction == c.rotation.direction,
        c.after_input(press(named(NamedKey::ArrowUp))).scale.x_direction == c.scale.x_direction,
        c.after_input(press(named(NamedKey::ArrowUp))).scale.y_direction == c.scale.y_direction,
        c.after_input(press(named(NamedKey::ArrowUp))).translation.z_direction == c.translation.z_direction,
        c.after_input(press(named(NamedKey::ArrowUp))).scale.z_direction == c.scale.z_direction,
        c.after_input(press(char_key('q'))).rotation.direction == Direction::Inc,
        c.after_input(press(char_key('q'))).translation.x_direction == c.translation.x_direction,
        c.after_input(press(char_key('q'))).translation.y_direction == c.translation.y_direction,
        c.after_input(press(char_key('q'))).scale.x_direction == c.scale.x_direction,
        c.after_input(press(char_key('q'))).scale.y_direction == c.scale.y_direction,
        c.after_input(press(char_key('q'))).translation.z_direction == c.translation.z_direction,
        c.after_input(press(char_key('q'))).scale.z_direction == c.scale.z_direction,
        c.after_input(press(char_key('f'))).rotation.direction == Direction::Dec,
        c.after_input(press(char_key('f'))).translation.x_direction == c.translation.x_direction,
        c.after_input(press(char_key('f'))).translation.y_direction == c.translation.y_direction,
        c.after_input(press(char_key('f'))).scale.x_direction == c.scale.x_direction,
        c.after_input(press(char_key('f'))).scale.y_direction == c.scale.y_direction,
        c.after_input(press(char_key('f'))).translation.z_direction == c.translation.z_direction,
        c.after_input(press(char_key('f'))).scale.z_direction == c.scale.z_direction,
        c.after_input(press(char_key('s'))).scale.x_direction == Direction::Inc,
        c.after_input(press(char_key('s'))).translation.x_direction == c.translation.x_direction,
        c.after_input(press(char_key('s'))).translation.y_direction == c.translation.y_direction,
        c.after_input(press(char_key('s'))).rotation.direction == c.rotation.direction,
        c.after_input(press(char_key('s'))).scale.y_direction == c.scale.y_direction,
        c.after_input(press(char_key('s'))).translation.z_direction == c.translation.z_direction,
        c.after_input(press(char_key('s'))).scale.z_direction == c.scale.z_direction,
        c.after_input(press(char_key('a'))).scale.x_direction == Direction::Dec,
        c.after_input(press(char_key('a'))).translation.x_direction == c.translation.x_direction,
        c.after_input(press(char_key('a'))).translation.y_direction == c.translation.y_direction,
        c.after_input(press(char_key('a'))).rotation.direction == c.rotation.direction,
        c.after_input(press(char_key('a'))).scale.y_direction == c.scale.y_direction,
        c.after_input(press(char_key('a'))).translation.z_direction == c.translation.z_direction,
        c.after_input(press(char_key('a'))).scale.z_direction == c.scale.z_direction,
        c.after_input(press(char_key('w'))).scale.y_direction == Direction::Inc,
        c.after_input(press(char_key('w'))).translation.x_direction == c.translation.x_direction,
        c.after_input(press(char_key('w'))).translation.y_direction == c.translation.y_direction,
        c.after_input(press(char_key('w'))).rotation.direction == c.rotation.direction,
        c.after_input(press(char_key('w'))).scale.x_direction == c.scale.x_direction,
        c.after_input(press(char_key('w'))).translation.z_direction == c.translation.z_direction,
        c.after_input(press(char_key('w'))).scale.z_direction == c.scale.z_direction,
        c.after_input(press(char_key('r'))).scale.y_direction == Direction::Dec,
        c.after_input(press(char_key('r'))).translation.x_direction == c.translation.x_direction,
        c.after_input(press(char_key('r'))).translation.y_direction == c.translation.y_direction,
        c.after_input(press(char_key('r'))).rotation.direction == c.rotation.direction,
        c.after_input(press(char_key('r'))).scale.x_direction == c.scale.x_direction,
        c.after_input(press(char_key('r'))).translation.z_direction == c.translation.z_direction,
        c.after_input(press(char_key('r'))).scale.z_direction == c.scale.z_direction,
{
    lemma_letter_keys_distinct();
}

/// Releasing a key stops its own control only while that control still
/// moves in the key's direction; a control that another key has taken over
/// keeps moving, and every other control keeps its direction.
pub proof fn lemma_release_stops_only_own_direction(c: Cube)
    ensures
        c.after_input(release(named(NamedKey::ArrowRight))).translation.x_direction == (if c.translation.x_direction == Direction::Inc { Direction::Idle } else { c.translation.x_direction }),
        c.after_input(release(named(NamedKey::ArrowRight))).translation.y_direction == c.translation.y_direction,
        c.after_input(release(named(NamedKey::ArrowRight))).rotation.direction == c.rotation.direction,
        c.after_input(release(named(NamedKey::ArrowRight))).scale.x_direction == c.scale.x_direction,
        c.after_input(release(named(NamedKey::ArrowRight))).scale.y_direction == c.scale.y_direction,
        c.after_input(release(named(NamedKey::ArrowRight))).translation.z_direction == c.translation.z_direction,
        c.after_input(release(named(NamedKey::ArrowRight))).scale.z_direction == c.scale.z_direction,
        c.after_input(release(named(NamedKey::ArrowLeft))).translation.x_direction == (if c.translation.x_direction == Direction::Dec { Direction::Idle } else { c.translation.x_direction }),
        c.after_input(release(named(NamedKey::ArrowLeft))).translation.y_direction == c.translation.y_direction,
        c.after_input(release(named(NamedKey::ArrowLeft))).rotation.direction == c.rotation.direction,
        c.after_input(release(named(NamedKey::ArrowLeft))).scale.x_direction == c.scale.x_direction,
        c.after_input(release(named(NamedKey::ArrowLeft))).scale.y_direction == c.scale.y_direction,
        c.after_input(release(named(NamedKey::ArrowLeft))).translation.z_direction == c.translation.z_direction,
        c.after_input(release(named(NamedKey::ArrowLeft))).scale.z_direction == c.scale.z_direction,
        c.after_input(release(named(NamedKey::ArrowDown))).translation.y_direction == (if c.translation.y_direction == Direction::Inc { Direction::Idle } else { c.translation.y_direction }),
        c.after_input(release(named(NamedKey::ArrowDown))).translation.x_direction == c.translation.x_direction,
        c.after_input(release(named(NamedKey::ArrowDown))).rotation.direction == c.rotation.direction,
        c.after_input(release(named(NamedKey::ArrowDown))).scale.x_direction == c.scale.x_direction,
        c.after_input(release(named(NamedKey::ArrowDown))).scale.y_direction == c.scale.y_direction,
        c.after_input(release(named(NamedKey::ArrowDown))).translation.z_direction == c.translation.z_direction,
        c.after_input(release(named(NamedKey::ArrowDown))).scale.z_direction == c.scale.z_direction,
        c.after_input(release(named(NamedKey::ArrowUp))).translation.y_direction == (if c.translation.y_direction == Direction::Dec { Direction::Idle } else { c.translation.y_direction }),
        c.after_input(release(named(NamedKey::ArrowUp))).translation.x_direction == c.translation.x_direction,
        c.after_input(release(named(NamedKey::ArrowUp))).rotation.direction == c.rotation.direction,
        c.after_input(release(named(NamedKey::ArrowUp))).scale.x_direction == c.scale.x_direction,
        c.after_input(release(named(NamedKey::ArrowUp))).scale.y_direction == c.scale.y_direction,
        c.after_input(release(named(NamedKey::ArrowUp))).translation.z_direction == c.translation.z_direction,
        c.after_input(release(named(NamedKey::ArrowUp))).scale.z_direction == c.scale.z_direction,
        c.after_input(release(char_key('q'))).rotation.direction == (if c.rotation.direction == Direction::Inc { Direction::Idle } else { c.rotation.direction }),
        c.after_input(release(char_key('q'))).translation.x_direction == c.translation.x_direction,
        c.after_input(release(char_key('q'))).translation.y_direction == c.translation.y_direction,
        c.after_input(release(char_key('q'))).scale.x_direction == c.scale.x_direction,
        c.after_input(release(char_key('q'))).scale.y_direction == c.scale.y_direction,
        c.after_input(release(char_key('q'))).translation.z_direction == c.translation.z_direction,
        c.after_input(release(char_key('q'))).scale.z_direction == c.scale.z_direction,
        c.after_input(release(char_key('f'))).rotation.direction == (if c.rotation.direction == Direction::Dec { Direction::Idle } else { c.rotation.direction }),
        c.after_input(release(char_key('f'))).translation.x_direction == c.translation.x_direction,
        c.after_input(release(char_key('f'))).translation.y_direction == c.translation.y_direction,
        c.after_input(release(char_key('f'))).scale.x_direction == c.scale.x_direction,
        c.after_input(release(char_key('f'))).scale.y_direction == c.scale.y_direction,
        c.after_input(release(char_key('f'))).translation.z_direction == c.translation.z_direction,
        c.after_input(release(char_key('f'))).scale.z_direction == c.scale.z_direction,
        c.after_input(release(char_key('s'))).scale.x_direction == (if c.scale.x_direction == Direction::Inc { Direction::Idle } else { c.scale.x_direction }),
        c.after_input(release(char_key('s'))).translation.x_direction == c.translation.x_direction,
        c.after_input(release(char_key('s'))).translation.y_direction == c.translation.y_direction,
        c.after_input(release(char_key('s'))).rotation.direction == c.rotation.direction,
        c.after_input(release(char_key('s'))).scale.y_direction == c.scale.y_direction,
        c.after_input(release(char_key('s'))).translation.z_direction == c.translation.z_direction,
        c.after_input(release(char_key('s'))).scale.z_direction == c.scale.z_direction,
        c.after_input(release(char_key('a'))).scale.x_direction == (if c.scale.x_direction == Direction::Dec { Direction::Idle } else { c.scale.x_direction }),
        c.after_input(release(char_key('a'))).translation.x_direction == c.translation.x_direction,
        c.after_input(release(char_key('a'))).translation.y_direction == c.translation.y_direction,
        c.after_input(release(char_key('a'))).rotation.direction == c.rotation.direction,
        c.after_input(release(char_key('a'))).scale.y_direction == c.scale.y_direction,
        c.after_input(release(char_key('a'))).translation.z_direction == c.translation.z_direction,
        c.after_input(release(char_key('a'))).scale.z_direction == c.scale.z_direction,
        c.after_input(release(char_key('w'))).scale.y_direction == (if c.scale.y_direction == Direction::Inc { Direction::Idle } else { c.scale.y_direction }),
        c.after_input(release(char_key('w'))).translation.x_direction == c.translation.x_direction,
        c.after_input(release(char_key('w'))).translation.y_direction == c.translation.y_direction,
        c.after_input(release(char_key('w'))).rotation.direction == c.rotation.direction,
        c.after_input(release(char_key('w'))).scale.x_direction == c.scale.x_direction,
        c.after_input(release(char_key('w'))).translation.z_direction == c.translation.z_direction,
        c.after_input(release(char_key('w'))).scale.z_direction == c.scale.z_direction,
        c.after_input(release(char_key('r'))).scale.y_direction == (if c.scale.y_direction == Direction::Dec { Direction::Idle } else { c.scale.y_direction }),
        c.after_input(release(char_key('r'))).translation.x_direction == c.translation.x_direction,
        c.after_input(release(char_key('r'))).translation.y_direction == c.translation.y_direction,
        c.after_input(release(char_key('r'))).rotation.direction == c.rotation.direction,
        c.after_input(release(char_key('r'))).scale.x_direction == c.scale.x_direction,
        c.after_input(release(char_key('r'))).translation.z_direction == c.translation.z_direction,
        c.after_input(release(char_key('r'))).scale.z_direction == c.scale.z_direction,
{
    lemma_letter_keys_distinct();
}

/// For every control, with one of its keys held, pressing its other key and
/// then releasing the first leaves the control moving the second key's way,
/// at full speed for the arrows: the latest press wins.
pub proof fn lemma_latest_press_wins_everywhere(c: Cube)
    ensures
        c.after_input(press(named(NamedKey::ArrowLeft))).after_input(press(named(NamedKey::ArrowRight))).after_input(release(named(NamedKey::ArrowLeft))).translation.x_direction == Direction::Inc,
        c.after_input(press(named(NamedKey::ArrowRight))).after_input(press(named(NamedKey::ArrowLeft))).after_input(release(named(NamedKey::ArrowRight))).translation.x_direction == Direction::Dec,
        c.after_input(press(named(NamedKey::ArrowLeft))).after_input(press(named(NamedKey::ArrowRight))).after_input(release(named(NamedKey::ArrowLeft))).translation.x_speed == TRANSLATION_SPEED,
        c.after_input(press(named(NamedKey::ArrowRight))).after_input(press(named(NamedKey::ArrowLeft))).after_input(release(named(NamedKey::ArrowRight))).translation.x_speed == -TRANSLATION_SPEED,
        c.after_input(press(named(NamedKey::ArrowUp))).after_input(press(named(NamedKey::ArrowDown))).after_input(release(named(NamedKey::ArrowUp))).translation.y_direction == Direction::Inc,
        c.after_input(press(named(NamedKey::ArrowDown))).after_input(press(named(NamedKey::ArrowUp))).after_input(release(named(NamedKey::ArrowDown))).translation.y_direction == Direction::Dec,
        c.after_input(press(named(NamedKey::ArrowUp))).after_input(press(named(NamedKey::ArrowDown))).after_input(release(named(NamedKey::ArrowUp))).translation.y_speed == TRANSLATION_SPEED,
        c.after_input(press(named(NamedKey::ArrowDown))).after_input(press(named(NamedKey::ArrowUp))).after_input(release(named(NamedKey::ArrowDown))).translation.y_speed == -TRANSLATION_SPEED,
        c.after_input(press(char_key('f'))).after_input(press(char_key('q'))).after_input(release(char_key('f'))).rotation.direction == Direction::Inc,
        c.after_input(press(char_key('q'))).after_input(press(char_key('f'))).after_input(release(char_key('q'))).rotation.direction == Direction::Dec,
        c.after_input(press(char_key('a'))).after_input(press(char_key('s'))).after_input(release(char_key('a'))).scale.x_direction == Direction::Inc,
        c.after_input(press(char_key('s'))).after_input(press(char_key('a'))).after_input(release(char_key('s'))).scale.x_direction == Direction::Dec,
        c.after_input(press(char_key('r'))).after_input(press(char_key('w'))).after_input(release(char_key('r'))).scale.y_direction == Direction::Inc,
        c.after_input(press(char_key('w'))).after_input(press(char_key('r'))).after_input(release(char_key('w'))).scale.y_direction == Direction::Dec,
{
    lemma_letter_keys_distinct();
}

/// One control driven by one key: a press sets the key's direction whatever
/// the control was doing; a release right after a press brings it to rest;
/// a release while the control moves the other way changes nothing; and an
/// event of another key changes nothing.
pub proof fn lemma_direction_by_key(key: KeyView, other: KeyView, d: Direction, cur: Direction)
    requires
        other != key,
    ensures
        next_direction(press(key), key, d, cur) == d,
        next_direction(release(key), key, d, next_direction(press(key), key, d, cur))
            == Direction::Idle,
        cur != d ==> next_direction(release(key), key, d, cur) == cur,
        next_direction(press(other), key, d, cur) == cur,
        next_direction(release(other), key, d, cur) == cur,
{
}

} // verus!
