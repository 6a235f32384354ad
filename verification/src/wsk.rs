//! The overlay's state and the decisions taken on each event: which globals
//! are bound, what a keyboard, seat or output event changes, when a frame is
//! drawn, what each key press shows, and how the surface is sized.

use vstd::prelude::*;
use crate::cairo_utils::Subpixel;
use crate::text::str_eq;
use wayland_client::protocol::wl_seat::Capability;

verus! {

/// A key press as shown: its keysym, the keysym's name, and the text that
/// the key types (empty for keys that type nothing).
pub struct WskKeypress {
    pub sym: u32,
    pub name: String,
    pub utf8: String,
}

/// The overlay's state, in plain values. The Wayland objects, the xkb state
/// and the input context that these flags speak of are held beside it.
pub struct Wsk {
    /* Config */
    pub foreground: u32,
    pub background: u32,
    pub specialfg: u32,
    pub font: String,
    pub timeout: u32,
    /* Globals bound from the registry */
    pub has_compositor: bool,
    pub has_shm: bool,
    pub has_seat: bool,
    pub has_output_manager: bool,
    pub has_layer_shell: bool,
    pub has_output: bool,
    /* Objects made from them */
    pub has_surface: bool,
    pub has_keyboard: bool,
    pub has_xkb_state: bool,
    /* Output and surface */
    pub subpixel: Option<Subpixel>,
    pub width: u32,
    pub height: u32,
    /// The output's integer scale factor; `0` until one is known.
    pub scale: i32,
    /* Keys */
    pub keys: Vec<WskKeypress>,
    /* Misc */
    pub run: bool,
    pub dirty: bool,
    pub frame_scheduled: bool,
}

/// What marking the overlay dirty leads to.
#[derive(PartialEq, Eq, Clone, Copy, Debug, Structural)]
pub enum DirtyAction {
    /// A frame is already scheduled: it will pick the change up.
    Deferred,
    /// Draw a frame now.
    Render,
    /// There is no surface to draw on yet.
    Nothing,
}

/// `wayland_client::protocol::wl_seat::Capability::contains`, asked of the
/// flags that the mask `bits` holds (bits that name no capability are
/// dropped by `from_bits_truncate`) and the keyboard flag: true exactly when
/// the keyboard bit, value `2` in the protocol, is set.
#[verifier::external_body]
fn capabilities_include_keyboard(bits: u32) -> (r: bool)
    ensures
        r == (bits & 2 != 0),
{
    Capability::from_bits_truncate(bits).contains(Capability::Keyboard)
}

/// The kind of a global that the registry announces, by interface name.
#[derive(PartialEq, Eq, Clone, Copy, Debug, Structural)]
pub enum GlobalKind {
    Compositor,
    Shm,
    ShmPool,
    Seat,
    OutputManager,
    LayerShell,
    Output,
    Other,
}

/// What to do when the seat reports its capabilities.
#[derive(PartialEq, Eq, Clone, Copy, Debug, Structural)]
pub enum SeatAction {
    /// A keyboard is held already.
    Ignore,
    /// Get the seat's keyboard.
    GetKeyboard,
    /// The seat has no keyboard: report it and stop.
    NoKeyboard,
}

/// What to do with a keymap that the compositor sends.
#[derive(PartialEq, Eq, Clone, Copy, Debug, Structural)]
pub enum KeymapAction {
    /// Mapping the keymap failed: close it and report the error.
    MapFailed,
    /// The keymap is not in the xkb v1 text format: unmap and close it.
    WrongFormat,
    /// Compile the keymap, then unmap and close it, and use the new state.
    Load,
}

/// The state of a key in an input event.
#[derive(PartialEq, Eq, Clone, Copy, Debug, Structural)]
pub enum KeyState {
    Pressed,
    Released,
}

/// The direction in which the xkb state is updated for a key.
#[derive(PartialEq, Eq, Clone, Copy, Debug, Structural)]
pub enum KeyDirection {
    Up,
    Down,
}

/// An input event as the overlay sees it, after the xkb state has been
/// updated and the key looked up.
pub enum InputEvent {
    /// A key went down; what it shows.
    KeyPressed(WskKeypress),
    /// A key went up.
    KeyReleased,
    /// Any other input event.
    Other,
}

/// The text and colour with which a key press is drawn.
pub struct KeyLabel {
    pub text: String,
    pub color: u32,
}

/// What a frame does with the surface, given the size of what it drew.
#[derive(PartialEq, Eq, Clone, Copy, Debug, Structural)]
pub enum FrameAction {
    /// Nothing was drawn: detach the buffer and commit.
    Detach,
    /// Ask for this surface size (in surface units) and commit.
    Resize(u32, u32),
    /// Replay the drawing into a buffer of the configured size, at this
    /// buffer scale, damage it whole and commit.
    Present(u32, u32, i32),
    /// The surface has the right size but nothing to show.
    Idle,
}

/// The interface name of each global that the overlay binds.
pub open spec fn global_kind_of(interface: Seq<char>) -> GlobalKind {
    if interface == "wl_compositor"@ {
        GlobalKind::Compositor
    } else if interface == "wl_shm"@ {
        GlobalKind::Shm
    } else if interface == "wl_shm_pool"@ {
        GlobalKind::ShmPool
    } else if interface == "wl_seat"@ {
        GlobalKind::Seat
    } else if interface == "zxdg_output_manager_v1"@ {
        GlobalKind::OutputManager
    } else if interface == "zwlr_layer_shell_v1"@ {
        GlobalKind::LayerShell
    } else if interface == "wl_output"@ {
        GlobalKind::Output
    } else {
        GlobalKind::Other
    }
}

/// The scale that frames are drawn at: the output's, or `1` while unknown.
pub open spec fn effective_scale(scale: i32) -> i32 {
    if scale == 0 {
        1
    } else {
        scale
    }
}

/// The frame rule. `s` is the effective scale. When the drawing, divided by
/// the scale, is not the configured size, or no width is configured yet, the
/// surface is resized to it (or detached when the drawing is empty);
/// otherwise a drawing of some height is presented at the configured size.
pub open spec fn frame_action_for(width: u32, height: u32, cur_width: u32, cur_height: u32, s: i32) -> FrameAction {
    let d = s as u32;
    if height / d != cur_height || width / d != cur_width || cur_width == 0 {
        if width == 0 || height == 0 {
            FrameAction::Detach
        } else {
            FrameAction::Resize(width / d, height / d)
        }
    } else if height > 0 {
        FrameAction::Present(cur_width, cur_height, s)
    } else {
        FrameAction::Idle
    }
}

/// What marking the overlay dirty leads to, from whether a frame is
/// scheduled and whether there is a surface.
pub open spec fn dirty_action_for(frame_scheduled: bool, has_surface: bool) -> DirtyAction {
    if frame_scheduled {
        DirtyAction::Deferred
    } else if has_surface {
        DirtyAction::Render
    } else {
        DirtyAction::Nothing
    }
}

/// The keys shown after an input event: a press adds what it shows at the
/// end, anything else leaves them as they are.
pub open spec fn keys_after(keys: Seq<WskKeypress>, event: InputEvent) -> Seq<WskKeypress> {
    match event {
        InputEvent::KeyPressed(k) => keys.push(k),
        _ => keys,
    }
}

/// The size of the drawing after one more label of `w` by `h`: labels are
/// laid side by side, so widths add up and the height is the tallest.
pub fn grow_extent(width: u32, height: u32, w: i32, h: i32) -> (r: (u32, u32))
    requires
        width + (w as u32) <= u32::MAX,
    ensures
        r.0 == width + (w as u32),
        r.1 == (if height >= (h as u32) { height } else { h as u32 }),
{
    let w2 = w as u32;
    let h2 = h as u32;
    (width + w2, if height >= h2 { height } else { h2 })
}

impl WskKeypress {
    /// The press of a key whose text is `utf8` and whose keysym is `sym`,
    /// named `name`.
    pub fn new(sym: u32, name: String, utf8: String) -> (k: WskKeypress)
        ensures
            k.sym == sym,
            k.name == name,
            k.utf8 == utf8,
    {
        WskKeypress { sym, name, utf8 }
    }
}

impl Wsk {
    /// The state before anything is configured or bound: all colours and
    /// sizes zero, no font, no keys, nothing bound, not running.
    pub fn new() -> (w: Wsk)
        ensures
            w.foreground == 0 && w.background == 0 && w.specialfg == 0,
            w.font@ == Seq::<char>::empty(),
            w.timeout == 0,
            !w.has_compositor && !w.has_shm && !w.has_seat && !w.has_output_manager,
            !w.has_layer_shell && !w.has_output,
            !w.has_surface && !w.has_keyboard && !w.has_xkb_state,
            w.subpixel is None,
            w.width == 0 && w.height == 0 && w.scale == 0,
            w.keys@.len() == 0,
            !w.run && !w.dirty && !w.frame_scheduled,
    {
        Wsk {
            foreground: 0,
            background: 0,
            specialfg: 0,
            font: String::new(),
            timeout: 0,
            has_compositor: false,
            has_shm: false,
            has_seat: false,
            has_output_manager: false,
            has_layer_shell: false,
            has_output: false,
            has_surface: false,
            has_keyboard: false,
            has_xkb_state: false,
            subpixel: None,
            width: 0,
            height: 0,
            scale: 0,
            keys: Vec::new(),
            run: false,
            dirty: false,
            frame_scheduled: false,
        }
    }

    /// The starting state with the default settings: a translucent black
    /// background, white text, grey for keys that type nothing, the font
    /// `monospace 24`, a timeout of one second, and running.
    pub fn with_default_settings() -> (w: Wsk)
        ensures
            w.background == 0x000000CC,
            w.specialfg == 0xAAAAAAFF,
            w.foreground == 0xFFFFFFFF,
            w.font@ == "monospace 24"@,
            w.timeout == 1,
            w.run,
            !w.has_compositor && !w.has_shm && !w.has_seat && !w.has_output_manager,
            !w.has_layer_shell && !w.has_output,
            !w.has_surface && !w.has_keyboard && !w.has_xkb_state,
            w.subpixel is None,
            w.width == 0 && w.height == 0 && w.scale == 0,
            w.keys@.len() == 0,
            !w.dirty && !w.frame_scheduled,
    {
        let mut w = Wsk::new();
        w.background = 0x000000CC;
        w.specialfg = 0xAAAAAAFF;
        w.foreground = 0xFFFFFFFF;
        w.font = String::from_str("monospace 24");
        w.timeout = 1;
        w.run = true;
        w
    }

    /// Marks the overlay as needing a redraw. A scheduled frame picks the
    /// change up; otherwise a frame is drawn now if there is a surface.
    pub fn set_dirty(&mut self) -> (a: DirtyAction)
        ensures
            old(self).frame_scheduled ==> a == DirtyAction::Deferred
                && *final(self) == (Wsk { dirty: true, ..*old(self) }),
            !old(self).frame_scheduled && old(self).has_surface ==> a == DirtyAction::Render
                && *final(self) == *old(self),
            !old(self).frame_scheduled && !old(self).has_surface ==> a == DirtyAction::Nothing
                && *final(self) == *old(self),
    {
        if self.frame_scheduled {
            self.dirty = true;
            DirtyAction::Deferred
        } else if self.has_surface {
            DirtyAction::Render
        } else {
            DirtyAction::Nothing
        }
    }

    /// Records a global that the registry announces under `interface` and
    /// says which kind it is, so that the caller binds it. Binding the
    /// compositor also makes the surface; binding an output resets the
    /// scale to `1`. Other interfaces change nothing.
    pub fn on_global(&mut self, interface: &str) -> (k: GlobalKind)
        ensures
            k == global_kind_of(interface@),
            *final(self) == (match k {
                GlobalKind::Compositor => Wsk { has_compositor: true, has_surface: true, ..*old(self) },
                GlobalKind::Shm => Wsk { has_shm: true, ..*old(self) },
                GlobalKind::Seat => Wsk { has_seat: true, ..*old(self) },
                GlobalKind::OutputManager => Wsk { has_output_manager: true, ..*old(self) },
                GlobalKind::LayerShell => Wsk { has_layer_shell: true, ..*old(self) },
                GlobalKind::Output => Wsk { has_output: true, scale: 1, ..*old(self) },
                _ => *old(self),
            }),
    {
        let k = global_kind(interface);
        match k {
            GlobalKind::Compositor => {
                self.has_compositor = true;
                self.has_surface = true;
            },
            GlobalKind::Shm => {
                self.has_shm = true;
            },
            GlobalKind::Seat => {
                self.has_seat = true;
            },
            GlobalKind::OutputManager => {
                self.has_output_manager = true;
            },
            GlobalKind::LayerShell => {
                self.has_layer_shell = true;
            },
            GlobalKind::Output => {
                self.has_output = true;
                self.scale = 1;
            },
            _ => {},
        }
        k
    }

    /// Whether every global that the overlay cannot work without is bound:
    /// the compositor, shared memory, the seat and the layer shell.
    pub fn has_required_globals(&self) -> (r: bool)
        ensures
            r == (self.has_compositor && self.has_shm && self.has_seat && self.has_layer_shell),
    {
        self.has_compositor && self.has_shm && self.has_seat && self.has_layer_shell
    }

    /// The layer surface is configured to `width` by `height`: the size is
    /// kept and the overlay marked dirty.
    pub fn on_configure(&mut self, width: u32, height: u32) -> (a: DirtyAction)
        ensures
            final(self).width == width,
            final(self).height == height,
            old(self).frame_scheduled ==> a == DirtyAction::Deferred
                && *final(self) == (Wsk { width, height, dirty: true, ..*old(self) }),
            !old(self).frame_scheduled && old(self).has_surface ==> a == DirtyAction::Render
                && *final(self) == (Wsk { width, height, ..*old(self) }),
            !old(self).frame_scheduled && !old(self).has_surface ==> a == DirtyAction::Nothing
                && *final(self) == (Wsk { width, height, ..*old(self) }),
    {
        self.width = width;
        self.height = height;
        self.set_dirty()
    }

    /// The layer surface was closed: the overlay stops.
    pub fn on_closed(&mut self)
        ensures
            *final(self) == (Wsk { run: false, ..*old(self) }),
    {
        self.run = false;
    }

    /// The seat reports its capabilities, as the protocol's bit mask. A
    /// keyboard already held is kept; otherwise the seat's keyboard is
    /// taken, or the overlay stops when the seat has none.
    pub fn on_seat_capabilities(&mut self, capabilities: u32) -> (a: SeatAction)
        ensures
            old(self).has_keyboard ==> a == SeatAction::Ignore && *final(self) == *old(self),
            !old(self).has_keyboard && capabilities & 2 != 0 ==> a == SeatAction::GetKeyboard
                && *final(self) == (Wsk { has_keyboard: true, ..*old(self) }),
            !old(self).has_keyboard && capabilities & 2 == 0 ==> a == SeatAction::NoKeyboard
                && *final(self) == (Wsk { run: false, ..*old(self) }),
    {
        if self.has_keyboard {
            SeatAction::Ignore
        } else if capabilities_include_keyboard(capabilities) {
            self.has_keyboard = true;
            SeatAction::GetKeyboard
        } else {
            self.run = false;
            SeatAction::NoKeyboard
        }
    }

    /// The input context was (or failed to be) assigned to the seat; the
    /// overlay stops when it failed.
    pub fn on_seat_assigned(&mut self, assigned: bool)
        ensures
            assigned ==> *final(self) == *old(self),
            !assigned ==> *final(self) == (Wsk { run: false, ..*old(self) }),
    {
        if !assigned {
            self.run = false;
        }
    }

    /// The compositor sent a keymap. `mapped` tells whether it could be
    /// mapped into memory, `xkb_v1` whether its format is xkb v1 text. Only
    /// a mapped keymap of that format is loaded, and it gives the overlay
    /// an xkb state.
    pub fn on_keymap(&mut self, mapped: bool, xkb_v1: bool) -> (a: KeymapAction)
        ensures
            !mapped ==> a == KeymapAction::MapFailed && *final(self) == *old(self),
            mapped && !xkb_v1 ==> a == KeymapAction::WrongFormat && *final(self) == *old(self),
            mapped && xkb_v1 ==> a == KeymapAction::Load
                && *final(self) == (Wsk { has_xkb_state: true, ..*old(self) }),
    {
        if !mapped {
            KeymapAction::MapFailed
        } else if !xkb_v1 {
            KeymapAction::WrongFormat
        } else {
            self.has_xkb_state = true;
            KeymapAction::Load
        }
    }

    /// The output reported its geometry; its subpixel layout is kept.
    pub fn on_output_geometry(&mut self, subpixel: Subpixel)
        ensures
            *final(self) == (Wsk { subpixel: Some(subpixel), ..*old(self) }),
    {
        self.subpixel = Some(subpixel);
    }

    /// The output reported its scale factor.
    pub fn on_output_scale(&mut self, factor: i32)
        ensures
            *final(self) == (Wsk { scale: factor, ..*old(self) }),
    {
        self.scale = factor;
    }

    /// The text and colour of a key press: its text in the foreground
    /// colour, or, for a key that types nothing, its name followed by `+` in
    /// the colour for special keys.
    pub fn key_label(&self, key: &WskKeypress) -> (l: KeyLabel)
        ensures
            key.utf8@.len() == 0 ==> l.text@ == key.name@ + "+"@ && l.color == self.specialfg,
            key.utf8@.len() != 0 ==> l.text@ == key.utf8@ && l.color == self.foreground,
    {
        if key.utf8.as_str().is_empty() {
            KeyLabel { text: key.name.clone().concat("+"), color: self.specialfg }
        } else {
            KeyLabel { text: key.utf8.clone(), color: self.foreground }
        }
    }

    /// What a frame does with the surface once it has drawn `width` by
    /// `height` pixels. The scale must not be negative.
    pub fn frame_action(&self, width: u32, height: u32) -> (a: FrameAction)
        requires
            self.scale >= 0,
        ensures
            a == frame_action_for(width, height, self.width, self.height, effective_scale(self.scale)),
    {
        let s: i32 = if self.scale == 0 { 1 } else { self.scale };
        let d: u32 = s as u32;
        if height / d != self.height || width / d != self.width || self.width == 0 {
            if width == 0 || height == 0 {
                FrameAction::Detach
            } else {
                FrameAction::Resize(width / d, height / d)
            }
        } else if height > 0 {
            FrameAction::Present(self.width, self.height, s)
        } else {
            FrameAction::Idle
        }
    }

    /// How long to wait for input before looking again: a tenth of a second
    /// while keys are shown, else for ever (`-1`).
    pub fn poll_timeout(&self) -> (t: i32)
        ensures
            t == (if self.keys@.len() == 0 { -1i32 } else { 100i32 }),
    {
        if self.keys.len() == 0 {
            -1
        } else {
            100
        }
    }

}

/// The kind of global announced under the interface name `interface`.
pub fn global_kind(interface: &str) -> (k: GlobalKind)
    ensures
        k == global_kind_of(interface@),
{
    if str_eq(interface, "wl_compositor") {
        GlobalKind::Compositor
    } else if str_eq(interface, "wl_shm") {
        GlobalKind::Shm
    } else if str_eq(interface, "wl_shm_pool") {
        GlobalKind::ShmPool
    } else if str_eq(interface, "wl_seat") {
        GlobalKind::Seat
    } else if str_eq(interface, "zxdg_output_manager_v1") {
        GlobalKind::OutputManager
    } else if str_eq(interface, "zwlr_layer_shell_v1") {
        GlobalKind::LayerShell
    } else if str_eq(interface, "wl_output") {
        GlobalKind::Output
    } else {
        GlobalKind::Other
    }
}

/// A resize asks for the size at which the same drawing is presented once
/// the compositor has configured it: the surface settles after one round,
/// provided the drawing is at least one surface unit wide.
pub proof fn lemma_resize_then_present(
    width: u32,
    height: u32,
    cur_width: u32,
    cur_height: u32,
    s: i32,
    new_width: u32,
    new_height: u32,
)
    requires
        s > 0,
        frame_action_for(width, height, cur_width, cur_height, s) == FrameAction::Resize(new_width, new_height),
        new_width != 0,
    ensures
        frame_action_for(width, height, new_width, new_height, s) == FrameAction::Present(new_width, new_height, s),
{
}

/// A frame is presented only at the configured size, only once a width is
/// configured, and only when the drawing, divided by the scale, has exactly
/// that size and some height.
pub proof fn lemma_present_only_at_configured_size(width: u32, height: u32, cur_width: u32, cur_height: u32, s: i32)
    requires
        s > 0,
        frame_action_for(width, height, cur_width, cur_height, s) is Present,
    ensures
        frame_action_for(width, height, cur_width, cur_height, s) == FrameAction::Present(cur_width, cur_height, s),
        cur_width != 0,
        height > 0,
        width / (s as u32) == cur_width,
        height / (s as u32) == cur_height,
{
}

/// A frame detaches the buffer only when nothing was drawn: any drawing with
/// some width and some height is resized to or presented.
pub proof fn lemma_frame_detaches_only_empty(width: u32, height: u32, cur_width: u32, cur_height: u32, s: i32)
    requires
        s > 0,
    ensures
        frame_action_for(width, height, cur_width, cur_height, s) == FrameAction::Detach ==> width == 0 || height
            == 0,
{
}

/// A drawing with some width and height whose size, divided by the scale,
/// is not the configured one (or with no width configured yet) makes the
/// surface ask for exactly that divided size.
pub proof fn lemma_frame_mismatch_resizes(width: u32, height: u32, cur_width: u32, cur_height: u32, s: i32)
    requires
        s > 0,
        width != 0,
        height != 0,
        width / (s as u32) != cur_width || height / (s as u32) != cur_height || cur_width == 0,
    ensures
        frame_action_for(width, height, cur_width, cur_height, s) == FrameAction::Resize(
            width / (s as u32),
            height / (s as u32),
        ),
{
}

/// A drawing that, divided by the scale, has the configured size (some
/// width configured) is presented at that size and scale when it has some
/// height, and leaves the surface alone otherwise.
pub proof fn lemma_frame_match_presents(width: u32, height: u32, cur_width: u32, cur_height: u32, s: i32)
    requires
        s > 0,
        cur_width != 0,
        width / (s as u32) == cur_width,
        height / (s as u32) == cur_height,
    ensures
        height > 0 ==> frame_action_for(width, height, cur_width, cur_height, s) == FrameAction::Present(
            cur_width,
            cur_height,
            s,
        ),
        height == 0 ==> frame_action_for(width, height, cur_width, cur_height, s) == FrameAction::Idle,
{
}

/// Frames are drawn at the output's scale, and at `1` while it is unknown.
pub proof fn lemma_effective_scale(scale: i32)
    ensures
        scale == 0 ==> effective_scale(scale) == 1,
        scale != 0 ==> effective_scale(scale) == scale,
        scale >= 0 ==> effective_scale(scale) > 0,
{
}

/// With an xkb state, a key press adds exactly that key at the end of the
/// keys shown, whatever they were; other events leave them as they are.
pub proof fn lemma_press_appends_key(keys: Seq<WskKeypress>, k: WskKeypress)
    ensures
        keys_after(keys, InputEvent::KeyPressed(k)).len() == keys.len() + 1,
        keys_after(keys, InputEvent::KeyPressed(k)).last() == k,
        keys_after(keys, InputEvent::KeyPressed(k)).subrange(0, keys.len() as int) == keys,
        keys_after(keys, InputEvent::KeyReleased) == keys,
        keys_after(keys, InputEvent::Other) == keys,
{
    assert(keys_after(keys, InputEvent::KeyPressed(k)).subrange(0, keys.len() as int) =~= keys);
}

/// A global is bound as one of the seven kinds only under exactly that
/// kind's interface name; every other name is `Other`.
pub proof fn lemma_global_kind_exact(interface: Seq<char>)
    ensures
        global_kind_of(interface) == GlobalKind::Compositor <==> interface == "wl_compositor"@,
        global_kind_of(interface) == GlobalKind::Shm <==> interface == "wl_shm"@,
        global_kind_of(interface) == GlobalKind::ShmPool <==> interface == "wl_shm_pool"@,
        global_kind_of(interface) == GlobalKind::Seat <==> interface == "wl_seat"@,
        global_kind_of(interface) == GlobalKind::OutputManager <==> interface == "zxdg_output_manager_v1"@,
        global_kind_of(interface) == GlobalKind::LayerShell <==> interface == "zwlr_layer_shell_v1"@,
        global_kind_of(interface) == GlobalKind::Output <==> interface == "wl_output"@,
        global_kind_of(interface) == GlobalKind::Other <==> (interface != "wl_compositor"@ && interface
            != "wl_shm"@ && interface != "wl_shm_pool"@ && interface != "wl_seat"@ && interface
            != "zxdg_output_manager_v1"@ && interface != "zwlr_layer_shell_v1"@ && interface
            != "wl_output"@),
{
    reveal_strlit("wl_compositor");
    reveal_strlit("wl_shm");
    reveal_strlit("wl_shm_pool");
    reveal_strlit("wl_seat");
    reveal_strlit("zxdg_output_manager_v1");
    reveal_strlit("zwlr_layer_shell_v1");
    reveal_strlit("wl_output");
    let names = seq![
        "wl_compositor"@,
        "wl_shm"@,
        "wl_shm_pool"@,
        "wl_seat"@,
        "zxdg_output_manager_v1"@,
        "zwlr_layer_shell_v1"@,
        "wl_output"@,
    ];
    assert forall|i: int, j: int| 0 <= i < j < 7 implies names[i] != names[j] by {
        if names[i] == names[j] {
            assert(names[i].len() == names[j].len());
            assert(names[i][3] == names[j][3]);
            assert(names[i][4] == names[j][4]);
            assert(names[i][5] == names[j][5]);
        }
    }
}

/// Input events never take a key off the overlay: the keys after an event
/// begin with the keys before it, and at most one is added.
pub proof fn lemma_keys_only_grow(keys: Seq<WskKeypress>, event: InputEvent)
    ensures
        keys_after(keys, event).len() <= keys.len() + 1,
        keys.len() <= keys_after(keys, event).len(),
        keys_after(keys, event).subrange(0, keys.len() as int) == keys,
{
    assert(keys_after(keys, event).subrange(0, keys.len() as int) =~= keys);
}

/// The name under which a shared-memory file is created, from a random
/// suffix.
pub fn shm_name(suffix: &str) -> (name: String)
    ensures
        name@ == "/wl_shm-"@ + suffix@,
{
    let mut name = String::from_str("/wl_shm-");
    name.append(suffix);
    name
}

/// The stride (four bytes a pixel) and the byte size of a shared-memory
/// buffer of `width` by `height` pixels.
pub fn shm_buffer_layout(width: u32, height: u32) -> (r: (u32, u32))
    requires
        width * 4 <= u32::MAX,
        width * 4 * height <= u32::MAX,
    ensures
        r.0 == width * 4,
        r.1 == width * 4 * height,
{
    let stride: u32 = width * 4;
    let size: u32 = stride * height;
    (stride, size)
}

} // verus!
