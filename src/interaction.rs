use vstd::prelude::*;
use crate::arena::Handle;
use crate::geometry::{in_world, Vec3};
use crate::input::InputController;
use crate::inventory::ItemKind;
use crate::message::Message;

verus! {

/// Distance, in millimetres, within which items, elevators and call buttons
/// can be used.
pub const INTERACTION_RADIUS: i64 = 750;

/// An item within reach.
#[derive(Clone, Copy, PartialEq, Eq, Structural, Debug)]
pub struct ItemView {
    pub handle: Handle,
    pub position: Vec3,
    pub kind: ItemKind,
    pub stack_size: u32,
}

/// The first item, from `i` on, closer than the interaction radius.
pub open spec fn first_near_item(items: Seq<ItemView>, position: Vec3, i: nat) -> Option<int>
    decreases items.len() - i,
{
    if i >= items.len() {
        None
    } else if crate::geometry::distance_squared(items[i as int].position, position)
        < INTERACTION_RADIUS * INTERACTION_RADIUS {
        Some(i as int)
    } else {
        first_near_item(items, position, i + 1)
    }
}

/// What the item check asks of the caller: messages to send, and where to
/// show the item display, if an item is near.
pub struct ItemCheck {
    pub messages: Vec<Message>,
    pub display_at: Option<Vec3>,
}

/// How a call button is used.
#[derive(Clone, Copy, PartialEq, Eq, Structural, Debug)]
pub enum CallButtonKind {
    /// Calls the elevator to the button's floor.
    RequestElevator,
    /// Also lets the floor be chosen with the cursor keys.
    FloorSelector,
}

#[derive(Clone, Copy, PartialEq, Eq, Structural, Debug)]
pub struct CallButtonView {
    pub handle: Handle,
    pub position: Vec3,
    pub kind: CallButtonKind,
    pub floor: u32,
}

/// An elevator, where it stands, the floor it is at, how many floors it
/// serves, and its call buttons.
#[derive(Clone, Debug)]
pub struct ElevatorView {
    pub handle: Handle,
    pub position: Vec3,
    pub current_floor: u32,
    pub floor_count: u32,
    pub call_buttons: Vec<CallButtonView>,
}

pub open spec fn is_near(a: Vec3, b: Vec3) -> bool {
    crate::geometry::distance_squared(a, b) < INTERACTION_RADIUS * INTERACTION_RADIUS
}

pub open spec fn top_floor(floor_count: u32) -> u32 {
    if floor_count > 0 {
        (floor_count - 1) as u32
    } else {
        0
    }
}

/// Using an elevator from inside sends it to the other end of its shaft.
pub open spec fn elevator_call(handle: Handle, current_floor: u32, floor_count: u32, near: bool, action: bool) -> Seq<Message> {
    if near && action {
        if current_floor == top_floor(floor_count) {
            seq![Message::CallElevator { elevator: handle, floor: 0 }]
        } else if current_floor == 0 {
            seq![Message::CallElevator { elevator: handle, floor: top_floor(floor_count) }]
        } else {
            Seq::empty()
        }
    } else {
        Seq::empty()
    }
}

/// What a near call button does: a floor selector moves its floor with the
/// cursor keys, and the action calls the elevator to its floor.
pub open spec fn button_messages(elevator: Handle, floor_count: u32, b: CallButtonView, near: bool, c: InputController) -> Seq<Message> {
    if !near {
        Seq::empty()
    } else {
        let select = if b.kind is FloorSelector {
            if c.cursor_down {
                seq![Message::SetCallButtonFloor { call_button: b.handle, floor: if b.floor > 0 { (b.floor - 1) as u32 } else { 0 } }]
            } else if c.cursor_up {
                let up = if b.floor < u32::MAX { (b.floor + 1) as u32 } else { b.floor };
                seq![Message::SetCallButtonFloor { call_button: b.handle, floor: if up < top_floor(floor_count) { up } else { top_floor(floor_count) } }]
            } else {
                Seq::empty()
            }
        } else {
            Seq::empty()
        };
        if c.action {
            select.push(Message::CallElevator { elevator, floor: b.floor })
        } else {
            select
        }
    }
}

pub open spec fn buttons_messages(elevator: Handle, floor_count: u32, bs: Seq<CallButtonView>, position: Vec3, c: InputController) -> Seq<Message>
    decreases bs.len(),
{
    if bs.len() == 0 {
        Seq::empty()
    } else {
        buttons_messages(elevator, floor_count, bs.drop_last(), position, c) + button_messages(
            elevator,
            floor_count,
            bs.last(),
            is_near(bs.last().position, position),
            c,
        )
    }
}

pub open spec fn elevator_messages(e: ElevatorView, position: Vec3, c: InputController) -> Seq<Message> {
    elevator_call(e.handle, e.current_floor, e.floor_count, is_near(e.position, position), c.action)
        + buttons_messages(e.handle, e.floor_count, e.call_buttons@, position, c)
}

pub open spec fn elevators_messages(es: Seq<ElevatorView>, position: Vec3, c: InputController) -> Seq<Message>
    decreases es.len(),
{
    if es.len() == 0 {
        Seq::empty()
    } else {
        elevators_messages(es.drop_last(), position, c) + elevator_messages(es.last(), position, c)
    }
}

pub open spec fn all_in_world(es: Seq<ElevatorView>) -> bool {
    forall|i: int| 0 <= i < es.len() ==> {
        &&& in_world(#[trigger] es[i].position)
        &&& forall|j: int| 0 <= j < es[i].call_buttons@.len() ==> in_world(#[trigger] es[i].call_buttons@[j].position)
    }
}
/// Whether `msgs` calls an elevator.
pub open spec fn has_call(msgs: Seq<Message>) -> bool {
    exists|k: int| 0 <= k < msgs.len() && #[trigger] msgs[k] is CallElevator
}

/// The snapshot after elevator messages `msgs`: a call uses up the action,
/// so that holding it does not call again.
pub open spec fn controller_after_calls(c: InputController, msgs: Seq<Message>) -> InputController {
    if has_call(msgs) {
        InputController { action: false, ..c }
    } else {
        c
    }
}

pub(crate) fn calls_elevator(msgs: &Vec<Message>) -> (r: bool)
    ensures
        r == has_call(msgs@),
{
    let mut i: usize = 0;
    while i < msgs.len()
        invariant
            i <= msgs@.len(),
            forall|k: int| 0 <= k < i ==> !(#[trigger] msgs@[k] is CallElevator),
        decreases msgs@.len() - i,
    {
        if let Message::CallElevator { .. } = msgs[i] {
            assert(msgs@[i as int] is CallElevator);
            return true;
        }
        i = i + 1;
    }
    false
}

} // verus!
