use vstd::prelude::*;

verus! {

/// The pressed state of the eight buttons of a standard controller, in the order
/// of the bits of the controller's report byte, bit 0 first.
#[derive(Debug, Clone, Copy, PartialEq, Eq, Structural)]
pub struct ControllerState {
    pub right: bool,
    pub left: bool,
    pub down: bool,
    pub up: bool,
    pub start: bool,
    pub select: bool,
    pub b: bool,
    pub a: bool,
}

/// A controller button.
#[derive(Debug, Clone, Copy, PartialEq, Eq, Structural)]
pub enum ControllerButton {
    Right,
    Left,
    Down,
    Up,
    Start,
    Select,
    B,
    A,
}

/// 1 for a pressed button, 0 for a released one.
pub open spec fn pressed_value(b: bool) -> int {
    if b {
        1
    } else {
        0
    }
}

/// The report byte of the buttons: Right in bit 0 up to A in bit 7.
pub open spec fn report_byte(s: ControllerState) -> int {
    pressed_value(s.right) + 2 * pressed_value(s.left) + 4 * pressed_value(s.down) + 8
        * pressed_value(s.up) + 16 * pressed_value(s.start) + 32 * pressed_value(s.select) + 64
        * pressed_value(s.b) + 128 * pressed_value(s.a)
}

/// Whether `button` is pressed in `s`.
pub open spec fn button_pressed(s: ControllerState, button: ControllerButton) -> bool {
    match button {
        ControllerButton::Right => s.right,
        ControllerButton::Left => s.left,
        ControllerButton::Down => s.down,
        ControllerButton::Up => s.up,
        ControllerButton::Start => s.start,
        ControllerButton::Select => s.select,
        ControllerButton::B => s.b,
        ControllerButton::A => s.a,
    }
}

/// The button whose state the `k`-th read after a poll reports, for `k` below 8:
/// A, B, Select, Start, Up, Down, Left, Right.
pub open spec fn report_order(k: int) -> ControllerButton {
    if k == 0 {
        ControllerButton::A
    } else if k == 1 {
        ControllerButton::B
    } else if k == 2 {
        ControllerButton::Select
    } else if k == 3 {
        ControllerButton::Start
    } else if k == 4 {
        ControllerButton::Up
    } else if k == 5 {
        ControllerButton::Down
    } else if k == 6 {
        ControllerButton::Left
    } else {
        ControllerButton::Right
    }
}

impl ControllerState {
    /// No button pressed.
    pub fn new() -> (r: ControllerState)
        ensures
            report_byte(r) == 0,
            forall|b: ControllerButton| !button_pressed(r, b),
    {
        ControllerState {
            right: false,
            left: false,
            down: false,
            up: false,
            start: false,
            select: false,
            b: false,
            a: false,
        }
    }

    /// The report byte of the buttons.
    pub fn to_byte(&self) -> (r: u8)
        ensures
            r as int == report_byte(*self),
    {
        let mut r: u8 = 0;
        if self.right {
            r = r + 1;
        }
        if self.left {
            r = r + 2;
        }
        if self.down {
            r = r + 4;
        }
        if self.up {
            r = r + 8;
        }
        if self.start {
            r = r + 16;
        }
        if self.select {
            r = r + 32;
        }
        if self.b {
            r = r + 64;
        }
        if self.a {
            r = r + 128;
        }
        r
    }
}

impl ControllerState {
    /// The state with `button` pressed or released.
    pub open spec fn with_button(self, button: ControllerButton, pressed: bool) -> ControllerState {
        match button {
            ControllerButton::Right => ControllerState { right: pressed, ..self },
            ControllerButton::Left => ControllerState { left: pressed, ..self },
            ControllerButton::Down => ControllerState { down: pressed, ..self },
            ControllerButton::Up => ControllerState { up: pressed, ..self },
            ControllerButton::Start => ControllerState { start: pressed, ..self },
            ControllerButton::Select => ControllerState { select: pressed, ..self },
            ControllerButton::B => ControllerState { b: pressed, ..self },
            ControllerButton::A => ControllerState { a: pressed, ..self },
        }
    }
}

/// A standard controller: its buttons and the shift register the CPU reads them
/// through, one bit per read, most significant bit first.
#[derive(Debug, Clone, Copy, PartialEq, Eq, Structural)]
pub struct Controller {
    pub state: ControllerState,
    pub shift_register: u8,
}

impl Controller {
    /// A controller with no button pressed and an empty shift register.
    pub fn new() -> (r: Controller)
        ensures
            report_byte(r.state) == 0,
            forall|b: ControllerButton| !button_pressed(r.state, b),
            r.shift_register == 0,
    {
        Controller { state: ControllerState::new(), shift_register: 0 }
    }

    /// Presses or releases `button`.
    pub fn set_button_state(&mut self, button: ControllerButton, pressed: bool)
        ensures
            button_pressed(final(self).state, button) == pressed,
            forall|b: ControllerButton|
                b != button ==> button_pressed(final(self).state, b) == button_pressed(
                    old(self).state,
                    b,
                ),
            final(self).shift_register == old(self).shift_register,
            final(self).state == old(self).state.with_button(button, pressed),
    {
        match button {
            ControllerButton::Right => self.state.right = pressed,
            ControllerButton::Left => self.state.left = pressed,
            ControllerButton::Down => self.state.down = pressed,
            ControllerButton::Up => self.state.up = pressed,
            ControllerButton::Start => self.state.start = pressed,
            ControllerButton::Select => self.state.select = pressed,
            ControllerButton::B => self.state.b = pressed,
            ControllerButton::A => self.state.a = pressed,
        }
    }

    /// The bit a read yields: the top bit of the shift register.
    pub fn read_readonly(&self) -> (r: u8)
        ensures
            r == (if self.shift_register >= 128 {
                1u8
            } else {
                0u8
            }),
    {
        if self.shift_register >= 128 {
            1
        } else {
            0
        }
    }

    /// Reads a bit and shifts the register left by one.
    pub fn read(&mut self) -> (r: u8)
        ensures
            r == (if old(self).shift_register >= 128 {
                1u8
            } else {
                0u8
            }),
            final(self).shift_register == old(self).shift_register << 1u8,
            final(self).state == old(self).state,
    {
        let result = self.read_readonly();
        self.shift_register = self.shift_register << 1u8;
        result
    }

    /// Latches the buttons into the shift register.
    pub fn poll(&mut self)
        ensures
            final(self).shift_register as int == report_byte(old(self).state),
            final(self).state == old(self).state,
    {
        self.shift_register = self.state.to_byte();
    }
}

/// After a poll, the `k`-th read (counting from 0, below 8) reports whether the
/// `k`-th button of A, B, Select, Start, Up, Down, Left, Right is pressed.
pub proof fn lemma_controller_report_order(state: ControllerState, k: u8)
    requires
        k < 8,
    ensures
        ({
            let reg = report_byte(state) as u8;
            (((reg << k) >= 128) == button_pressed(state, report_order(k as int)))
        }),
{
    let (r, l, d, u, st, se, b, a) = (
        state.right,
        state.left,
        state.down,
        state.up,
        state.start,
        state.select,
        state.b,
        state.a,
    );
    let reg: u8 = ((if r { 1u8 } else { 0u8 }) + (if l { 2u8 } else { 0u8 }) + (if d { 4u8 } else { 0u8 })
        + (if u { 8u8 } else { 0u8 }) + (if st { 16u8 } else { 0u8 }) + (if se { 32u8 } else { 0u8 })
        + (if b { 64u8 } else { 0u8 }) + (if a { 128u8 } else { 0u8 })) as u8;
    assert(reg as int == report_byte(state));
    assert(((reg << k) >= 128) == (if k == 0 {
        a
    } else if k == 1 {
        b
    } else if k == 2 {
        se
    } else if k == 3 {
        st
    } else if k == 4 {
        u
    } else if k == 5 {
        d
    } else if k == 6 {
        l
    } else {
        r
    })) by (bit_vector)
        requires
            k < 8,
            reg == ((if r { 1u8 } else { 0u8 }) + (if l { 2u8 } else { 0u8 }) + (if d { 4u8 } else { 0u8 })
                + (if u { 8u8 } else { 0u8 }) + (if st { 16u8 } else { 0u8 }) + (if se { 32u8 } else { 0u8 })
                + (if b { 64u8 } else { 0u8 }) + (if a { 128u8 } else { 0u8 })) as u8,
    ;
}

} // verus!
