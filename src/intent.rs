use vstd::prelude::*;
use crate::arena::Handle;
use crate::input::{ControlAction, InputController};
use crate::message::Message;
use crate::player::RequiredWeapon;
use crate::weapon::WeaponKind;

verus! {

/// What the host knows of the animations and displays when an input event
/// arrives.
#[derive(Clone, Copy, PartialEq, Eq, Structural, Debug)]
pub struct InputContext {
    /// The grab clip has played to its end: a weapon change may start when
    /// none is pending.
    pub grab_ended: bool,
    /// The jump clip is disabled or has played to its end.
    pub can_jump: bool,
    pub inventory_visible: bool,
    pub journal_visible: bool,
}

/// What an input event asks of the host besides the snapshot.
#[derive(Clone, Copy, PartialEq, Eq, Structural, Debug)]
pub enum InputEffect {
    SetInventoryVisible(bool),
    SetJournalVisible(bool),
    /// Enable and rewind both jump clips.
    RestartJumpClips,
    /// Enable and rewind the grenade-toss clip.
    RestartTossGrenadeClip,
    /// Rewind the put-back clip, and disable and rewind the grab clip.
    RestartWeaponChangeClips,
    Send(Message),
}

/// A request to grab `kind`, where a change is allowed and another kind is in
/// hand.
pub open spec fn grab_request(can_change: bool, current: Option<WeaponKind>, kind: WeaponKind) -> Option<RequiredWeapon> {
    if can_change && current is Some && current->0 != kind {
        Some(RequiredWeapon::Specific(kind))
    } else {
        None
    }
}

pub open spec fn empty_effects() -> Seq<InputEffect> {
    Seq::empty()
}

/// The snapshot after a logical action is pressed or released: it sets the
/// flag it drives; a jump only where the jump clip can start; a toss only
/// while a grenade is carried.
pub open spec fn controller_after(c: InputController, action: ControlAction, pressed: bool, ctx: InputContext, grenades: nat) -> InputController {
    match action {
        ControlAction::Aim => InputController { aim: pressed, ..c },
        ControlAction::MoveForward => InputController { walk_forward: pressed, ..c },
        ControlAction::MoveBackward => InputController { walk_backward: pressed, ..c },
        ControlAction::MoveLeft => InputController { walk_left: pressed, ..c },
        ControlAction::MoveRight => InputController { walk_right: pressed, ..c },
        ControlAction::Jump => InputController { jump: pressed && ctx.can_jump, ..c },
        ControlAction::Run => InputController { run: pressed, ..c },
        ControlAction::TossGrenade => if grenades > 0 {
            InputController { toss_grenade: pressed, ..c }
        } else {
            c
        },
        ControlAction::Shoot => InputController { shoot: pressed, ..c },
        ControlAction::CursorUp => InputController { cursor_up: pressed, ..c },
        ControlAction::CursorDown => InputController { cursor_down: pressed, ..c },
        ControlAction::Action => InputController { action: pressed, ..c },
        _ => c,
    }
}

/// The weapon change a logical action requests, if any.
pub open spec fn change_after(
    action: ControlAction,
    pressed: bool,
    can_change: bool,
    current: Option<WeaponKind>,
    slot: u32,
    weapon_count: nat,
) -> Option<RequiredWeapon> {
    match action {
        ControlAction::GrabAk47 => grab_request(can_change, current, WeaponKind::Ak47),
        ControlAction::GrabM4 => grab_request(can_change, current, WeaponKind::M4),
        ControlAction::GrabPlasmaGun => grab_request(can_change, current, WeaponKind::PlasmaRifle),
        ControlAction::GrabPistol => grab_request(can_change, current, WeaponKind::Glock),
        ControlAction::NextWeapon => if pressed && slot as int + 1 < weapon_count && can_change {
            Some(RequiredWeapon::Next)
        } else {
            None
        },
        ControlAction::PrevWeapon => if pressed && slot > 0 && can_change {
            Some(RequiredWeapon::Previous)
        } else {
            None
        },
        _ => None,
    }
}

/// What a logical action asks of the host: aiming hides both displays; the
/// inventory and journal keys, while not aiming, hide the other display and
/// toggle their own, syncing it when it opens.
pub open spec fn effects_after(c: InputController, action: ControlAction, pressed: bool, ctx: InputContext, grenades: nat, weapon: Handle) -> Seq<InputEffect> {
    match action {
        ControlAction::Aim => if pressed {
            seq![InputEffect::SetInventoryVisible(false), InputEffect::SetJournalVisible(false)]
        } else {
            empty_effects()
        },
        ControlAction::Jump => if pressed && ctx.can_jump {
            seq![InputEffect::RestartJumpClips]
        } else {
            empty_effects()
        },
        ControlAction::FlashLight => if pressed {
            seq![InputEffect::Send(Message::SwitchFlashLight { weapon })]
        } else {
            empty_effects()
        },
        ControlAction::TossGrenade => if grenades > 0 && pressed {
            seq![InputEffect::RestartTossGrenadeClip]
        } else {
            empty_effects()
        },
        ControlAction::Inventory => if pressed && !c.aim {
            if !ctx.inventory_visible {
                seq![
                    InputEffect::SetJournalVisible(false),
                    InputEffect::SetInventoryVisible(true),
                    InputEffect::Send(Message::SyncInventory),
                ]
            } else {
                seq![InputEffect::SetJournalVisible(false), InputEffect::SetInventoryVisible(false)]
            }
        } else {
            empty_effects()
        },
        ControlAction::Journal => if pressed && !c.aim {
            if !ctx.journal_visible {
                seq![
                    InputEffect::SetInventoryVisible(false),
                    InputEffect::SetJournalVisible(true),
                    InputEffect::Send(Message::SyncJournal),
                ]
            } else {
                seq![InputEffect::SetInventoryVisible(false), InputEffect::SetJournalVisible(false)]
            }
        } else {
            empty_effects()
        },
        _ => empty_effects(),
    }
}

pub(crate) fn grab(can_change: bool, current: Option<WeaponKind>, kind: WeaponKind) -> (r: Option<RequiredWeapon>)
    ensures
        r == grab_request(can_change, current, kind),
{
    match current {
        Some(k) => if can_change && k != kind {
            Some(RequiredWeapon::Specific(kind))
        } else {
            None
        },
        None => None,
    }
}

pub(crate) fn no_effects() -> (r: Vec<InputEffect>)
    ensures
        r@ == empty_effects(),
{
    let r: Vec<InputEffect> = Vec::new();
    assert(r@ =~= empty_effects());
    r
}

pub(crate) fn effects_of(first: InputEffect, second: Option<InputEffect>, third: Option<InputEffect>) -> (r: Vec<InputEffect>)
    ensures
        second is None ==> r@ == seq![first],
        second matches Some(b) ==> (third is None ==> r@ == seq![first, b]),
        second matches Some(b) ==> (third matches Some(t) ==> r@ == seq![first, b, t]),
{
    let mut r: Vec<InputEffect> = Vec::new();
    r.push(first);
    if let Some(b) = second {
        r.push(b);
        if let Some(t) = third {
            r.push(t);
        }
    }
    proof {
        if second is None {
            assert(r@ =~= seq![first]);
        } else if third is None {
            assert(r@ =~= seq![first, second->0]);
        } else {
            assert(r@ =~= seq![first, second->0, third->0]);
        }
    }
    r
}

pub(crate) fn flags_after(c: InputController, action: ControlAction, pressed: bool, ctx: InputContext, grenades: u32) -> (r: InputController)
    ensures
        r == controller_after(c, action, pressed, ctx, grenades as nat),
{
    match action {
        ControlAction::Aim => InputController { aim: pressed, ..c },
        ControlAction::MoveForward => InputController { walk_forward: pressed, ..c },
        ControlAction::MoveBackward => InputController { walk_backward: pressed, ..c },
        ControlAction::MoveLeft => InputController { walk_left: pressed, ..c },
        ControlAction::MoveRight => InputController { walk_right: pressed, ..c },
        ControlAction::Jump => InputController { jump: pressed && ctx.can_jump, ..c },
        ControlAction::Run => InputController { run: pressed, ..c },
        ControlAction::TossGrenade => {
            if grenades > 0 {
                InputController { toss_grenade: pressed, ..c }
            } else {
                c
            }
        },
        ControlAction::Shoot => InputController { shoot: pressed, ..c },
        ControlAction::CursorUp => InputController { cursor_up: pressed, ..c },
        ControlAction::CursorDown => InputController { cursor_down: pressed, ..c },
        ControlAction::Action => InputController { action: pressed, ..c },
        _ => c,
    }
}

pub(crate) fn requested_change(
    action: ControlAction,
    pressed: bool,
    can_change: bool,
    current: Option<WeaponKind>,
    slot: u32,
    weapon_count: usize,
) -> (r: Option<RequiredWeapon>)
    ensures
        r == change_after(action, pressed, can_change, current, slot, weapon_count as nat),
{
    match action {
        ControlAction::GrabAk47 => grab(can_change, current, WeaponKind::Ak47),
        ControlAction::GrabM4 => grab(can_change, current, WeaponKind::M4),
        ControlAction::GrabPlasmaGun => grab(can_change, current, WeaponKind::PlasmaRifle),
        ControlAction::GrabPistol => grab(can_change, current, WeaponKind::Glock),
        ControlAction::NextWeapon => {
            if pressed && (slot as usize) < weapon_count && (slot as usize) + 1 < weapon_count && can_change {
                Some(RequiredWeapon::Next)
            } else {
                None
            }
        },
        ControlAction::PrevWeapon => {
            if pressed && slot > 0 && can_change {
                Some(RequiredWeapon::Previous)
            } else {
                None
            }
        },
        _ => None,
    }
}

pub(crate) fn action_effects(c: &InputController, action: ControlAction, pressed: bool, ctx: InputContext, grenades: u32, weapon: Handle) -> (r: Vec<InputEffect>)
    ensures
        r@ == effects_after(*c, action, pressed, ctx, grenades as nat, weapon),
{
    match action {
        ControlAction::Aim => {
            if pressed {
                effects_of(InputEffect::SetInventoryVisible(false), Some(InputEffect::SetJournalVisible(false)), None)
            } else {
                no_effects()
            }
        },
        ControlAction::Jump => {
            if pressed && ctx.can_jump {
                effects_of(InputEffect::RestartJumpClips, None, None)
            } else {
                no_effects()
            }
        },
        ControlAction::FlashLight => {
            if pressed {
                effects_of(InputEffect::Send(Message::SwitchFlashLight { weapon }), None, None)
            } else {
                no_effects()
            }
        },
        ControlAction::TossGrenade => {
            if grenades > 0 && pressed {
                effects_of(InputEffect::RestartTossGrenadeClip, None, None)
            } else {
                no_effects()
            }
        },
        ControlAction::Inventory => {
            if pressed && !c.aim {
                let sync = if !ctx.inventory_visible { Some(InputEffect::Send(Message::SyncInventory)) } else { None };
                effects_of(InputEffect::SetJournalVisible(false), Some(InputEffect::SetInventoryVisible(!ctx.inventory_visible)), sync)
            } else {
                no_effects()
            }
        },
        ControlAction::Journal => {
            if pressed && !c.aim {
                let sync = if !ctx.journal_visible { Some(InputEffect::Send(Message::SyncJournal)) } else { None };
                effects_of(InputEffect::SetInventoryVisible(false), Some(InputEffect::SetJournalVisible(!ctx.journal_visible)), sync)
            } else {
                no_effects()
            }
        },
        _ => no_effects(),
    }
}

} // verus!
