//! Keyboard and mouse state: which bound buttons are held, and which changed
//! during the current frame.
use vstd::prelude::*;

verus! {

/// SDL key code of the `W` key.
pub const KEY_W: i32 = 119;
/// SDL key code of the `S` key.
pub const KEY_S: i32 = 115;
/// SDL key code of the `A` key.
pub const KEY_A: i32 = 97;
/// SDL key code of the `D` key.
pub const KEY_D: i32 = 100;
/// SDL key code of the `E` key.
pub const KEY_E: i32 = 101;
/// SDL key code of the `X` key.
pub const KEY_X: i32 = 120;
/// SDL key code of the `Z` key.
pub const KEY_Z: i32 = 122;
/// SDL key code of the `0` key of the number row.
pub const KEY_NUM0: i32 = 48;
/// SDL key code of the `1` key of the number row.
pub const KEY_NUM1: i32 = 49;
/// SDL key code of the `2` key of the number row.
pub const KEY_NUM2: i32 = 50;
/// SDL key code of the `3` key of the number row.
pub const KEY_NUM3: i32 = 51;
/// SDL key code of the `4` key of the number row.
pub const KEY_NUM4: i32 = 52;
/// SDL key code of the `5` key of the number row.
pub const KEY_NUM5: i32 = 53;
/// SDL key code of the `6` key of the number row.
pub const KEY_NUM6: i32 = 54;
/// SDL key code of the `7` key of the number row.
pub const KEY_NUM7: i32 = 55;
/// SDL key code of the `8` key of the number row.
pub const KEY_NUM8: i32 = 56;
/// SDL key code of the `9` key of the number row.
pub const KEY_NUM9: i32 = 57;
/// SDL key code of the left shift key.
pub const KEY_LSHIFT: i32 = 1073742049;
/// SDL key code of the escape key.
pub const KEY_ESCAPE: i32 = 27;

/// A mouse button, numbered as SDL numbers them.
#[derive(Clone, Copy, Debug, PartialEq, Eq, Structural)]
pub enum MouseButton {
    Unknown,
    Left,
    Middle,
    Right,
    X1,
    X2,
}

/// One event that a button reacts to.
#[derive(Clone, Copy, Debug, PartialEq, Eq, Structural)]
pub enum ButtonEvent {
    KeyDown(i32),
    KeyUp(i32),
    MouseDown(MouseButton),
    MouseUp(MouseButton),
    /// The start of a new frame.
    Refresh,
}

/// A bindable button: the key or mouse button that activates it, whether it
/// is held, and whether a matching key or mouse event reached it during this
/// frame.
#[derive(Clone, Copy, Debug, PartialEq, Eq, Structural)]
pub struct Button {
    /// The key that activates the button, if any.
    pub keycode: Option<i32>,
    /// The mouse button that activates the button, if any.
    pub mousebutton: Option<MouseButton>,
    pub is_down: bool,
    /// A matching key or mouse event reached this button during the frame
    /// (a held key that the system repeats counts too).
    pub just: bool,
}

impl Button {
    /// The button as it is after `ev`.
    pub open spec fn after(self, ev: ButtonEvent) -> Button {
        match ev {
            ButtonEvent::KeyDown(k) => if self.keycode == Some(k) {
                Button { is_down: true, just: true, ..self }
            } else {
                self
            },
            ButtonEvent::KeyUp(k) => if self.keycode == Some(k) {
                Button { is_down: false, just: true, ..self }
            } else {
                self
            },
            ButtonEvent::MouseDown(m) => if self.mousebutton == Some(m) {
                Button { is_down: true, just: true, ..self }
            } else {
                self
            },
            ButtonEvent::MouseUp(m) => if self.mousebutton == Some(m) {
                Button { is_down: false, just: true, ..self }
            } else {
                self
            },
            ButtonEvent::Refresh => Button { just: false, ..self },
        }
    }

    /// A released button bound to the key `code`.
    pub fn for_key(code: i32) -> (b: Button)
        ensures
            b == Button::for_key_spec(code),
    {
        Button { keycode: Some(code), mousebutton: None, is_down: false, just: false }
    }

    /// A released button bound to the mouse button `m`.
    pub fn for_mouse(m: MouseButton) -> (b: Button)
        ensures
            b == Button::for_mouse_spec(m),
    {
        Button { keycode: None, mousebutton: Some(m), is_down: false, just: false }
    }

    /// A released button bound to the key `code`.
    pub open spec fn for_key_spec(code: i32) -> Button {
        Button { keycode: Some(code), mousebutton: None, is_down: false, just: false }
    }

    /// A released button bound to the mouse button `m`.
    pub open spec fn for_mouse_spec(m: MouseButton) -> Button {
        Button { keycode: None, mousebutton: Some(m), is_down: false, just: false }
    }

    /// Updates the button by one event.
    pub fn handle(&mut self, ev: ButtonEvent)
        ensures
            *final(self) == old(self).after(ev),
    {
        match ev {
            ButtonEvent::KeyDown(k) => {
                if let Some(c) = self.keycode {
                    if c == k {
                        self.is_down = true;
                        self.just = true;
                    }
                }
            },
            ButtonEvent::KeyUp(k) => {
                if let Some(c) = self.keycode {
                    if c == k {
                        self.is_down = false;
                        self.just = true;
                    }
                }
            },
            ButtonEvent::MouseDown(m) => {
                if let Some(c) = self.mousebutton {
                    if c == m {
                        self.is_down = true;
                        self.just = true;
                    }
                }
            },
            ButtonEvent::MouseUp(m) => {
                if let Some(c) = self.mousebutton {
                    if c == m {
                        self.is_down = false;
                        self.just = true;
                    }
                }
            },
            ButtonEvent::Refresh => {
                self.just = false;
            },
        }
    }

    /// The button is held and a matching event reached it during this frame.
    pub fn pressed(&self) -> (r: bool)
        ensures
            r == (self.is_down && self.just),
    {
        self.is_down && self.just
    }
}

/// The state of every bound button, and of the mouse.
///
/// Numbers `1` to `6` upgrade levels; shift with a number `1` to `9` promotes
/// to another class; `E` shows the evolution information.
#[derive(Clone, Copy, Debug)]
pub struct Input {
    pub up: Button,
    pub down: Button,
    pub left: Button,
    pub right: Button,
    pub fire: Button,
    /// Number keys of the number row, used to upgrade levels or, with shift,
    /// to promote.
    pub u1: Button,
    pub u2: Button,
    pub u3: Button,
    pub u4: Button,
    pub u5: Button,
    pub u6: Button,
    pub u7: Button,
    pub u8: Button,
    pub u9: Button,
    pub u0: Button,
    pub shift: Button,
    pub evolve: Button,
    pub zoom_in: Button,
    pub zoom_out: Button,
    /// The mouse position in screen coordinates.
    pub mouse_pos: (i32, i32),
    /// How far the mouse moved in its last motion.
    pub mouse_delta: (i32, i32),
}

impl Input {
    /// The buttons, in the order in which events reach them.
    #[verifier::opaque]
    pub open spec fn buttons(self) -> Seq<Button> {
        seq![
            self.up,
            self.down,
            self.left,
            self.right,
            self.fire,
            self.u0,
            self.u1,
            self.u2,
            self.u3,
            self.u4,
            self.u5,
            self.u6,
            self.u7,
            self.u8,
            self.u9,
            self.shift,
            self.evolve,
            self.zoom_in,
            self.zoom_out,
        ]
    }

    /// What each button is bound to, in the order of `buttons`.
    pub open spec fn bindings(self) -> Seq<(Option<i32>, Option<MouseButton>)> {
        self.buttons().map_values(|b: Button| (b.keycode, b.mousebutton))
    }

    /// The input as it is after `ev` reached every button.
    pub open spec fn after(self, ev: ButtonEvent) -> Input {
        Input {
            up: self.up.after(ev),
            down: self.down.after(ev),
            left: self.left.after(ev),
            right: self.right.after(ev),
            fire: self.fire.after(ev),
            u1: self.u1.after(ev),
            u2: self.u2.after(ev),
            u3: self.u3.after(ev),
            u4: self.u4.after(ev),
            u5: self.u5.after(ev),
            u6: self.u6.after(ev),
            u7: self.u7.after(ev),
            u8: self.u8.after(ev),
            u9: self.u9.after(ev),
            u0: self.u0.after(ev),
            shift: self.shift.after(ev),
            evolve: self.evolve.after(ev),
            zoom_in: self.zoom_in.after(ev),
            zoom_out: self.zoom_out.after(ev),
            ..self
        }
    }

    /// Hands one event to every button.
    pub fn handle(&mut self, ev: ButtonEvent)
        ensures
            *final(self) == old(self).after(ev),
    {
        self.up.handle(ev);
        self.down.handle(ev);
        self.left.handle(ev);
        self.right.handle(ev);
        self.fire.handle(ev);
        self.u0.handle(ev);
        self.u1.handle(ev);
        self.u2.handle(ev);
        self.u3.handle(ev);
        self.u4.handle(ev);
        self.u5.handle(ev);
        self.u6.handle(ev);
        self.u7.handle(ev);
        self.u8.handle(ev);
        self.u9.handle(ev);
        self.shift.handle(ev);
        self.evolve.handle(ev);
        self.zoom_in.handle(ev);
        self.zoom_out.handle(ev);
    }

    /// The bindings that the game starts with: `W`, `S`, `A`, `D` move, the
    /// left mouse button fires, the number row upgrades and promotes, left
    /// shift selects promotion, `E` shows evolution information, `X` and `Z`
    /// zoom in and out.
    pub fn init() -> (r: Input)
        ensures
            r.up == Button::for_key_spec(KEY_W),
            r.down == Button::for_key_spec(KEY_S),
            r.left == Button::for_key_spec(KEY_A),
            r.right == Button::for_key_spec(KEY_D),
            r.fire == Button::for_mouse_spec(MouseButton::Left),
            r.u0 == Button::for_key_spec(KEY_NUM0),
            r.u1 == Button::for_key_spec(KEY_NUM1),
            r.u2 == Button::for_key_spec(KEY_NUM2),
            r.u3 == Button::for_key_spec(KEY_NUM3),
            r.u4 == Button::for_key_spec(KEY_NUM4),
            r.u5 == Button::for_key_spec(KEY_NUM5),
            r.u6 == Button::for_key_spec(KEY_NUM6),
            r.u7 == Button::for_key_spec(KEY_NUM7),
            r.u8 == Button::for_key_spec(KEY_NUM8),
            r.u9 == Button::for_key_spec(KEY_NUM9),
            r.zoom_in == Button::for_key_spec(KEY_X),
            r.zoom_out == Button::for_key_spec(KEY_Z),
            r.shift == Button::for_key_spec(KEY_LSHIFT),
            r.evolve == Button::for_key_spec(KEY_E),
            r.mouse_pos == (0i32, 0i32),
            r.mouse_delta == (0i32, 0i32),
            r.bindings_distinct(),
    {
        let r = Input {
            up: Button::for_key(KEY_W),
            down: Button::for_key(KEY_S),
            left: Button::for_key(KEY_A),
            right: Button::for_key(KEY_D),
            fire: Button::for_mouse(MouseButton::Left),
            u1: Button::for_key(KEY_NUM1),
            u2: Button::for_key(KEY_NUM2),
            u3: Button::for_key(KEY_NUM3),
            u4: Button::for_key(KEY_NUM4),
            u5: Button::for_key(KEY_NUM5),
            u6: Button::for_key(KEY_NUM6),
            u7: Button::for_key(KEY_NUM7),
            u8: Button::for_key(KEY_NUM8),
            u9: Button::for_key(KEY_NUM9),
            u0: Button::for_key(KEY_NUM0),
            zoom_in: Button::for_key(KEY_X),
            zoom_out: Button::for_key(KEY_Z),
            shift: Button::for_key(KEY_LSHIFT),
            evolve: Button::for_key(KEY_E),
            mouse_pos: (0, 0),
            mouse_delta: (0, 0),
        };
        proof {
            reveal(Input::buttons);
        }
        r
    }

    /// Every button has exactly one binding, a key or a mouse button, and no
    /// two buttons share one.
    pub open spec fn bindings_distinct(self) -> bool {
        &&& forall|i: int|
            #![trigger self.buttons()[i]]
            0 <= i < self.buttons().len() ==> (self.buttons()[i].keycode is Some)
                != (self.buttons()[i].mousebutton is Some)
        &&& forall|i: int, j: int|
            0 <= i < self.buttons().len() && 0 <= j < self.buttons().len() && i != j
                ==> #[trigger] self.buttons()[i].keycode != #[trigger] self.buttons()[j].keycode
                || self.buttons()[i].keycode is None
        &&& forall|i: int, j: int|
            0 <= i < self.buttons().len() && 0 <= j < self.buttons().len() && i != j
                ==> #[trigger] self.buttons()[i].mousebutton != #[trigger] self.buttons()[j].mousebutton
                || self.buttons()[i].mousebutton is None
    }

    /// Marks the buttons bound to `keycode` as held and just changed.
    pub fn register_keydown(&mut self, keycode: i32)
        ensures
            *final(self) == old(self).after(ButtonEvent::KeyDown(keycode)),
    {
        self.handle(ButtonEvent::KeyDown(keycode));
    }

    /// Marks the buttons bound to `keycode` as released and just changed.
    pub fn register_keyup(&mut self, keycode: i32)
        ensures
            *final(self) == old(self).after(ButtonEvent::KeyUp(keycode)),
    {
        self.handle(ButtonEvent::KeyUp(keycode));
    }

    /// Marks the buttons bound to `mousebutton` as held and just changed.
    pub fn register_mouse_button_down(&mut self, mousebutton: MouseButton)
        ensures
            *final(self) == old(self).after(ButtonEvent::MouseDown(mousebutton)),
    {
        self.handle(ButtonEvent::MouseDown(mousebutton));
    }

    /// Marks the buttons bound to `mousebutton` as released and just changed.
    pub fn register_mouse_button_up(&mut self, mousebutton: MouseButton)
        ensures
            *final(self) == old(self).after(ButtonEvent::MouseUp(mousebutton)),
    {
        self.handle(ButtonEvent::MouseUp(mousebutton));
    }

    /// Starts a new frame: no button has just changed any more.
    pub fn refresh(&mut self)
        ensures
            *final(self) == old(self).after(ButtonEvent::Refresh),
            forall|i: int|
                0 <= i < final(self).buttons().len() ==> !(#[trigger] final(self).buttons()[i]).just
                    && final(self).buttons()[i].is_down == old(self).buttons()[i].is_down,
    {
        self.handle(ButtonEvent::Refresh);
        proof {
            lemma_buttons_after(*old(self), ButtonEvent::Refresh);
        }
    }

    /// Where the held movement keys steer the player.
    pub fn movement(&self) -> (m: Movement)
        ensures
            m == movement_of(self.up.is_down, self.down.is_down, self.left.is_down, self.right.is_down),
    {
        let (u, d, l, r) = (self.up.is_down, self.down.is_down, self.left.is_down, self.right.is_down);
        if u && l && !d && !r {
            Movement::UpLeft
        } else if d && l && !u && !r {
            Movement::DownLeft
        } else if u && r && !d && !l {
            Movement::UpRight
        } else if d && r && !u && !l {
            Movement::DownRight
        } else if u {
            Movement::Up
        } else if d {
            Movement::Down
        } else if l {
            Movement::Left
        } else if r {
            Movement::Right
        } else {
            Movement::Brake
        }
    }
}

/// A direction of movement that the keys ask for, or braking.
#[derive(Clone, Copy, Debug, PartialEq, Eq, Structural)]
pub enum Movement {
    UpLeft,
    DownLeft,
    UpRight,
    DownRight,
    Up,
    Down,
    Left,
    Right,
    Brake,
}

/// A diagonal needs exactly its two keys among the four; otherwise up wins
/// over down, down over left and left over right; with none held the tank
/// brakes.
pub open spec fn movement_of(u: bool, d: bool, l: bool, r: bool) -> Movement {
    if u && l && !d && !r {
        Movement::UpLeft
    } else if d && l && !u && !r {
        Movement::DownLeft
    } else if u && r && !d && !l {
        Movement::UpRight
    } else if d && r && !u && !l {
        Movement::DownRight
    } else if u {
        Movement::Up
    } else if d {
        Movement::Down
    } else if l {
        Movement::Left
    } else if r {
        Movement::Right
    } else {
        Movement::Brake
    }
}

/// Every button of `input.after(ev)` is the corresponding button after `ev`.
pub proof fn lemma_buttons_after(input: Input, ev: ButtonEvent)
    ensures
        input.after(ev).buttons() == input.buttons().map_values(|b: Button| b.after(ev)),
        input.after(ev).buttons().len() == input.buttons().len(),
        input.buttons().len() == 19,
{
    reveal(Input::buttons);
    assert(input.after(ev).buttons() =~= input.buttons().map_values(|b: Button| b.after(ev)));
}

/// No event changes what any button is bound to.
pub proof fn lemma_events_keep_bindings(input: Input, ev: ButtonEvent)
    ensures
        input.after(ev).bindings() == input.bindings(),
{
    lemma_buttons_after(input, ev);
    assert forall|i: int| 0 <= i < input.buttons().len() implies #[trigger] input.after(
        ev,
    ).bindings()[i] == input.bindings()[i] by {
        let b = input.buttons()[i];
        assert(input.after(ev).buttons()[i] == b.after(ev));
    }
    assert(input.after(ev).bindings() =~= input.bindings());
}

/// Pressing and then releasing a key leaves every button bound to it released
/// and marked as just changed, and every other button as it was.
pub proof fn lemma_press_then_release(input: Input, k: i32)
    ensures
        forall|i: int|
            0 <= i < input.buttons().len() ==> {
                let b = #[trigger] input.after(ButtonEvent::KeyDown(k)).after(
                    ButtonEvent::KeyUp(k),
                ).buttons()[i];
                if input.buttons()[i].keycode == Some(k) {
                    !b.is_down && b.just
                } else {
                    b == input.buttons()[i]
                }
            },
{
    let pressed = input.after(ButtonEvent::KeyDown(k));
    lemma_buttons_after(input, ButtonEvent::KeyDown(k));
    lemma_buttons_after(pressed, ButtonEvent::KeyUp(k));
}

/// Refreshing twice is the same as refreshing once.
pub proof fn lemma_refresh_idempotent(input: Input)
    ensures
        input.after(ButtonEvent::Refresh).after(ButtonEvent::Refresh) == input.after(
            ButtonEvent::Refresh,
        ),
{
}

/// In a state whose bindings are distinct, a key event changes at most one
/// button.
pub proof fn lemma_key_reaches_one_button(input: Input, k: i32, i: int, j: int)
    requires
        input.bindings_distinct(),
        0 <= i < input.buttons().len(),
        0 <= j < input.buttons().len(),
        i != j,
        input.buttons()[i].keycode == Some(k),
    ensures
        input.after(ButtonEvent::KeyDown(k)).buttons()[j] == input.buttons()[j],
        input.after(ButtonEvent::KeyUp(k)).buttons()[j] == input.buttons()[j],
{
    lemma_buttons_after(input, ButtonEvent::KeyDown(k));
    lemma_buttons_after(input, ButtonEvent::KeyUp(k));
    assert(input.buttons()[i].keycode != input.buttons()[j].keycode);
}

/// Where the keys steer: with no movement key held the tank brakes; one key
/// held moves in its direction; up or down with left or right moves
/// diagonally; up with down moves up and left with right moves left; with
/// three or four keys held, up wins, and down wins over left and right.
pub proof fn lemma_movement_cases(u: bool, d: bool, l: bool, r: bool)
    ensures
        !u && !d && !l && !r ==> movement_of(u, d, l, r) == Movement::Brake,
        u && !d && !l && !r ==> movement_of(u, d, l, r) == Movement::Up,
        !u && d && !l && !r ==> movement_of(u, d, l, r) == Movement::Down,
        !u && !d && l && !r ==> movement_of(u, d, l, r) == Movement::Left,
        !u && !d && !l && r ==> movement_of(u, d, l, r) == Movement::Right,
        u && !d && l && !r ==> movement_of(u, d, l, r) == Movement::UpLeft,
        u && !d && !l && r ==> movement_of(u, d, l, r) == Movement::UpRight,
        !u && d && l && !r ==> movement_of(u, d, l, r) == Movement::DownLeft,
        !u && d && !l && r ==> movement_of(u, d, l, r) == Movement::DownRight,
        u && d && !l && !r ==> movement_of(u, d, l, r) == Movement::Up,
        !u && !d && l && r ==> movement_of(u, d, l, r) == Movement::Left,
        (u as int) + (d as int) + (l as int) + (r as int) >= 3 ==> movement_of(u, d, l, r) == if u {
            Movement::Up
        } else {
            Movement::Down
        },
{
}

/// The default keys are SDL's codes for `W`, `S`, `A`, `D`, `E`, `X`, `Z`,
/// the number row, left shift and escape.
pub proof fn lemma_key_codes()
    ensures
        KEY_W == 119 && KEY_S == 115 && KEY_A == 97 && KEY_D == 100,
        KEY_E == 101 && KEY_X == 120 && KEY_Z == 122,
        KEY_NUM0 == 48 && KEY_NUM1 == 49 && KEY_NUM2 == 50 && KEY_NUM3 == 51 && KEY_NUM4 == 52,
        KEY_NUM5 == 53 && KEY_NUM6 == 54 && KEY_NUM7 == 55 && KEY_NUM8 == 56 && KEY_NUM9 == 57,
        KEY_LSHIFT == 1073742049 && KEY_ESCAPE == 27,
{
}

} // verus!
