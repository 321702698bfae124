//! Mouse input: the event sequences of a click, a double click and a right
//! click at a point. The point is carried through unchanged, whatever its
//! coordinate type.
use vstd::prelude::*;

verus! {

/// What a mouse event does.
#[derive(Debug, Clone, Copy, PartialEq, Eq, Structural)]
pub enum MouseEventKind {
    /// `mouseMoved`.
    Moved,
    /// `mousePressed`.
    Pressed,
    /// `mouseReleased`.
    Released,
}

/// A mouse button.
#[derive(Debug, Clone, Copy, PartialEq, Eq, Structural)]
pub enum MouseButton {
    Left,
    Right,
}

/// One `Input.dispatchMouseEvent` at a point: its kind, and for a press or
/// release the button and the click count.
#[derive(Debug, Clone, Copy)]
pub struct MouseEvent<C> {
    pub kind: MouseEventKind,
    pub x: C,
    pub y: C,
    pub button: Option<MouseButton>,
    pub click_count: Option<i32>,
}

/// A move to the point.
pub open spec fn move_to<C>(x: C, y: C) -> MouseEvent<C> {
    MouseEvent { kind: MouseEventKind::Moved, x, y, button: None, click_count: None }
}

/// A press or release of a button at the point, as the given click.
pub open spec fn button_event<C>(kind: MouseEventKind, x: C, y: C, b: MouseButton, count: i32) -> MouseEvent<C> {
    MouseEvent { kind, x, y, button: Some(b), click_count: Some(count) }
}

/// A click: move, press and release of the left button.
pub open spec fn click_events<C>(x: C, y: C) -> Seq<MouseEvent<C>> {
    seq![
        move_to(x, y),
        button_event(MouseEventKind::Pressed, x, y, MouseButton::Left, 1),
        button_event(MouseEventKind::Released, x, y, MouseButton::Left, 1),
    ]
}

/// A double click: a click, then a second press and release counted as the
/// second click.
pub open spec fn double_click_events<C>(x: C, y: C) -> Seq<MouseEvent<C>> {
    click_events(x, y) + seq![
        button_event(MouseEventKind::Pressed, x, y, MouseButton::Left, 2),
        button_event(MouseEventKind::Released, x, y, MouseButton::Left, 2),
    ]
}

/// A right click: move, press and release of the right button.
pub open spec fn right_click_events<C>(x: C, y: C) -> Seq<MouseEvent<C>> {
    seq![
        move_to(x, y),
        button_event(MouseEventKind::Pressed, x, y, MouseButton::Right, 1),
        button_event(MouseEventKind::Released, x, y, MouseButton::Right, 1),
    ]
}

fn press<C: Copy>(kind: MouseEventKind, x: C, y: C, b: MouseButton, count: i32) -> (e: MouseEvent<C>)
    ensures
        e == button_event(kind, x, y, b, count),
{
    MouseEvent { kind, x, y, button: Some(b), click_count: Some(count) }
}

/// The events of a left click at the point.
pub fn click<C: Copy>(x: C, y: C) -> (r: Vec<MouseEvent<C>>)
    ensures
        r@ == click_events(x, y),
{
    let mut r: Vec<MouseEvent<C>> = Vec::new();
    r.push(MouseEvent { kind: MouseEventKind::Moved, x, y, button: None, click_count: None });
    r.push(press(MouseEventKind::Pressed, x, y, MouseButton::Left, 1));
    r.push(press(MouseEventKind::Released, x, y, MouseButton::Left, 1));
    assert(r@ =~= click_events(x, y));
    r
}

/// The events of a double click at the point.
pub fn double_click<C: Copy>(x: C, y: C) -> (r: Vec<MouseEvent<C>>)
    ensures
        r@ == double_click_events(x, y),
{
    let mut r = click(x, y);
    r.push(press(MouseEventKind::Pressed, x, y, MouseButton::Left, 2));
    r.push(press(MouseEventKind::Released, x, y, MouseButton::Left, 2));
    assert(r@ =~= double_click_events(x, y));
    r
}

/// The events of a right click at the point.
pub fn right_click<C: Copy>(x: C, y: C) -> (r: Vec<MouseEvent<C>>)
    ensures
        r@ == right_click_events(x, y),
{
    let mut r: Vec<MouseEvent<C>> = Vec::new();
    r.push(MouseEvent { kind: MouseEventKind::Moved, x, y, button: None, click_count: None });
    r.push(press(MouseEventKind::Pressed, x, y, MouseButton::Right, 1));
    r.push(press(MouseEventKind::Released, x, y, MouseButton::Right, 1));
    assert(r@ =~= right_click_events(x, y));
    r
}

} // verus!
