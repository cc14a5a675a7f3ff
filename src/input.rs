use vstd::prelude::*;

verus! {

/// The intent snapshot built from input events: what is held, and where the
/// camera looks. `yaw` and `pitch` are in millidegrees.
#[derive(Clone, Copy, PartialEq, Eq, Structural, Debug)]
pub struct InputController {
    pub walk_forward: bool,
    pub walk_backward: bool,
    pub walk_left: bool,
    pub walk_right: bool,
    pub jump: bool,
    pub yaw: i64,
    pub pitch: i32,
    pub aim: bool,
    pub toss_grenade: bool,
    pub shoot: bool,
    pub run: bool,
    pub action: bool,
    pub cursor_up: bool,
    pub cursor_down: bool,
}

impl InputController {
    /// Nothing held, looking level along `yaw`.
    pub fn new(yaw: i64) -> (r: InputController)
        ensures
            r == (InputController {
                walk_forward: false,
                walk_backward: false,
                walk_left: false,
                walk_right: false,
                jump: false,
                yaw,
                pitch: 0,
                aim: false,
                toss_grenade: false,
                shoot: false,
                run: false,
                action: false,
                cursor_up: false,
                cursor_down: false,
            }),
    {
        InputController {
            walk_forward: false,
            walk_backward: false,
            walk_left: false,
            walk_right: false,
            jump: false,
            yaw,
            pitch: 0,
            aim: false,
            toss_grenade: false,
            shoot: false,
            run: false,
            action: false,
            cursor_up: false,
            cursor_down: false,
        }
    }
}

/// The largest pitch either way, in millidegrees.
pub const PITCH_LIMIT: i32 = 90000;

#[derive(Clone, Copy, PartialEq, Eq, Structural, Debug)]
pub enum ElementState {
    Pressed,
    Released,
}

/// A physical input that can be bound to an action.
#[derive(Clone, Copy, PartialEq, Eq, Structural, Debug)]
pub enum ControlButton {
    Key(u32),
    Mouse(u16),
    WheelUp,
    WheelDown,
}

/// A raw device event, as the window system reports it.
#[derive(Clone, Copy, PartialEq, Eq, Structural, Debug)]
pub enum RawInput {
    Key { code: u32, state: ElementState },
    MouseButton { button: u16, state: ElementState },
    /// A scroll, by lines or by pixels: only the sign of `delta_y` counts.
    Wheel { delta_y: i64 },
    /// Pointer motion, in device counts.
    MouseMotion { dx: i32, dy: i32 },
    Other,
}

/// The logical actions a character's controls drive.
#[derive(Clone, Copy, PartialEq, Eq, Structural, Debug)]
pub enum ControlAction {
    Aim,
    MoveForward,
    MoveBackward,
    MoveLeft,
    MoveRight,
    Jump,
    Run,
    FlashLight,
    GrabAk47,
    GrabM4,
    GrabPlasmaGun,
    GrabPistol,
    NextWeapon,
    PrevWeapon,
    TossGrenade,
    Shoot,
    CursorUp,
    CursorDown,
    Action,
    Inventory,
    Journal,
}

#[derive(Clone, Copy, PartialEq, Eq, Structural, Debug)]
pub struct Binding {
    pub action: ControlAction,
    pub button: ControlButton,
}

/// The bindings of actions to inputs, earlier bindings winning, and the
/// mouse settings: `mouse_sens` is millidegrees per count per second.
#[derive(Clone, Debug)]
pub struct ControlScheme {
    pub bindings: Vec<Binding>,
    pub mouse_sens: u32,
    pub mouse_y_inverse: bool,
}

/// The action bound to `button` by the first binding, from `i` on, that
/// names it.
pub open spec fn bound_action(bindings: Seq<Binding>, button: ControlButton, i: nat) -> Option<ControlAction>
    decreases bindings.len() - i,
{
    if i >= bindings.len() {
        None
    } else if bindings[i as int].button == button {
        Some(bindings[i as int].action)
    } else {
        bound_action(bindings, button, i + 1)
    }
}

/// The button and its state that a raw event stands for: a scroll is a
/// press of wheel-down when it goes down and of wheel-up otherwise, however
/// fine its steps; pointer motion and other events stand for none.
pub open spec fn decoded(event: RawInput) -> Option<(ControlButton, ElementState)> {
    match event {
        RawInput::Key { code, state } => Some((ControlButton::Key(code), state)),
        RawInput::MouseButton { button, state } => Some((ControlButton::Mouse(button), state)),
        RawInput::Wheel { delta_y } => if delta_y < 0 {
            Some((ControlButton::WheelDown, ElementState::Pressed))
        } else {
            Some((ControlButton::WheelUp, ElementState::Pressed))
        },
        _ => None,
    }
}

pub fn decode(event: RawInput) -> (r: Option<(ControlButton, ElementState)>)
    ensures
        r == decoded(event),
{
    match event {
        RawInput::Key { code, state } => Some((ControlButton::Key(code), state)),
        RawInput::MouseButton { button, state } => Some((ControlButton::Mouse(button), state)),
        RawInput::Wheel { delta_y } => if delta_y < 0 {
            Some((ControlButton::WheelDown, ElementState::Pressed))
        } else {
            Some((ControlButton::WheelUp, ElementState::Pressed))
        },
        _ => None,
    }
}

impl ControlScheme {
    /// The action `button` is bound to.
    pub fn resolve(&self, button: ControlButton) -> (r: Option<ControlAction>)
        ensures
            r == bound_action(self.bindings@, button, 0),
    {
        let mut i: usize = 0;
        while i < self.bindings.len()
            invariant
                i <= self.bindings@.len(),
                bound_action(self.bindings@, button, 0) == bound_action(self.bindings@, button, i as nat),
            decreases self.bindings@.len() - i,
        {
            if self.bindings[i].button == button {
                return Some(self.bindings[i].action);
            }
            i = i + 1;
        }
        None
    }
}

/// The angle, in millidegrees, that `counts` of motion turn by over `dt`
/// milliseconds at `sens` millidegrees per count per second, rounded toward
/// zero.
pub open spec fn turn_of(counts: i32, sens: u32, dt: u32) -> int {
    let m = counts as int * sens as int * dt as int;
    if m >= 0 {
        m / 1000
    } else {
        -((-m) / 1000)
    }
}

pub open spec fn clamp(v: int, lo: int, hi: int) -> int {
    if v < lo {
        lo
    } else if v > hi {
        hi
    } else {
        v
    }
}

fn turn(counts: i32, sens: u32, dt: u32) -> (r: i128)
    ensures
        r == turn_of(counts, sens, dt),
        -0x1000000000000000000000000 <= r <= 0x1000000000000000000000000,
{
    let c = counts as i128;
    let s = sens as i128;
    let d = dt as i128;
    assert(-0x80000000 * 0x100000000 <= c * s <= 0x80000000 * 0x100000000) by (nonlinear_arith)
        requires -0x80000000 <= c <= 0x80000000, 0 <= s <= 0x100000000;
    assert(-0x80000000 * 0x100000000 * 0x100000000 <= c * s * d <= 0x80000000 * 0x100000000 * 0x100000000)
        by (nonlinear_arith)
        requires -0x80000000 <= c <= 0x80000000, 0 <= s <= 0x100000000, 0 <= d <= 0x100000000;
    let m = c * s * d;
    if m >= 0 {
        m / 1000
    } else {
        -((-m) / 1000)
    }
}

/// The snapshot after pointer motion: see [`InputController::apply_mouse_motion`].
pub open spec fn moved(c: InputController, dx: i32, dy: i32, dt: u32, sens: u32, inverse: bool) -> InputController {
    InputController {
        yaw: clamp(c.yaw - turn_of(dx, sens, dt), i64::MIN as int, i64::MAX as int) as i64,
        pitch: clamp(
            if inverse {
                c.pitch - turn_of(dy, sens, dt)
            } else {
                c.pitch + turn_of(dy, sens, dt)
            },
            -PITCH_LIMIT as int,
            PITCH_LIMIT as int,
        ) as i32,
        ..c
    }
}

impl InputController {
    /// Turns the view by pointer motion: yaw follows the horizontal motion
    /// (saturating at the ends of its range), pitch the vertical motion,
    /// inverted if asked, held within a quarter turn either way.
    pub fn apply_mouse_motion(&mut self, dx: i32, dy: i32, dt: u32, scheme: &ControlScheme)
        ensures
            *final(self) == moved(*old(self), dx, dy, dt, scheme.mouse_sens, scheme.mouse_y_inverse),
            final(self).yaw == clamp(old(self).yaw - turn_of(dx, scheme.mouse_sens, dt), i64::MIN as int, i64::MAX as int),
            final(self).pitch == clamp(
                if scheme.mouse_y_inverse {
                    old(self).pitch - turn_of(dy, scheme.mouse_sens, dt)
                } else {
                    old(self).pitch + turn_of(dy, scheme.mouse_sens, dt)
                },
                -PITCH_LIMIT as int,
                PITCH_LIMIT as int,
            ),
            *final(self) == (InputController { yaw: final(self).yaw, pitch: final(self).pitch, ..*old(self) }),
    {
        let yaw = self.yaw as i128 - turn(dx, scheme.mouse_sens, dt);
        self.yaw = if yaw < i64::MIN as i128 {
            i64::MIN
        } else if yaw > i64::MAX as i128 {
            i64::MAX
        } else {
            yaw as i64
        };
        let t = turn(dy, scheme.mouse_sens, dt);
        let pitch = if scheme.mouse_y_inverse { self.pitch as i128 - t } else { self.pitch as i128 + t };
        self.pitch = if pitch < -(PITCH_LIMIT as i128) {
            -PITCH_LIMIT
        } else if pitch > PITCH_LIMIT as i128 {
            PITCH_LIMIT
        } else {
            pitch as i32
        };
    }
}

} // verus!
