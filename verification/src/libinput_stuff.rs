//! Input devices: the descriptor through which they are opened, and what a
//! libinput event does to the overlay.

use vstd::prelude::*;
use crate::wsk::{dirty_action_for, keys_after, DirtyAction, InputEvent, KeyDirection, KeyState, Wsk};

verus! {

/// What libinput is given to open and close devices: the client's end of
/// the socket to the root helper.
pub struct LibinputImpl {
    pub user_fd: i32,
}

impl LibinputImpl {
    /// Opens devices through the helper reached on `user_fd`.
    pub fn new(user_fd: i32) -> (l: LibinputImpl)
        ensures
            l.user_fd == user_fd,
    {
        LibinputImpl { user_fd }
    }
}

/// The direction in which the xkb state moves for a key event: up on
/// release, down otherwise.
pub fn key_direction(state: KeyState) -> (d: KeyDirection)
    ensures
        d == (if state == KeyState::Released { KeyDirection::Up } else { KeyDirection::Down }),
{
    match state {
        KeyState::Released => KeyDirection::Up,
        KeyState::Pressed => KeyDirection::Down,
    }
}

/// Handles an input event. Without an xkb state nothing happens. With
/// one, a key press is added to the keys shown, and then the overlay is
/// marked dirty, whatever the event was.
pub fn handle_libinput_event(wsk: &mut Wsk, event: InputEvent) -> (r: Option<DirtyAction>)
    ensures
        !old(wsk).has_xkb_state ==> r is None && *final(wsk) == *old(wsk),
        old(wsk).has_xkb_state ==> {
            &&& r == Some(dirty_action_for(old(wsk).frame_scheduled, old(wsk).has_surface))
            &&& final(wsk).keys@ == keys_after(old(wsk).keys@, event)
            &&& *final(wsk) == (Wsk {
                keys: final(wsk).keys,
                dirty: old(wsk).frame_scheduled || old(wsk).dirty,
                ..*old(wsk)
            })
        },
{
    if !wsk.has_xkb_state {
        return None;
    }
    match event {
        InputEvent::KeyPressed(k) => {
            wsk.keys.push(k);
        },
        _ => {},
    }
    Some(wsk.set_dirty())
}


} // verus!
