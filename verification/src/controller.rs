use vstd::prelude::*;

verus! {

/// Buttons of a standard controller, as delivered by the host.
#[derive(Copy, Clone, PartialEq, Eq, Hash, Structural, Debug)]
pub enum ControllerInput {
    A,
    B,
    Select,
    Start,
    Up,
    Down,
    Left,
    Right,
}

/// Bit assigned to each button in the latched shift register,
/// packed MSB-first in the order A, B, Select, Start, Up, Down, Left, Right.
pub open spec fn input_mask(i: ControllerInput) -> u8 {
    match i {
        ControllerInput::A => 0x80,
        ControllerInput::B => 0x40,
        ControllerInput::Select => 0x20,
        ControllerInput::Start => 0x10,
        ControllerInput::Up => 0x08,
        ControllerInput::Down => 0x04,
        ControllerInput::Left => 0x02,
        ControllerInput::Right => 0x01,
    }
}

/// Bitwise OR of the masks of all buttons in the set.
pub open spec fn pack_inputs(s: Seq<ControllerInput>) -> u8
    decreases s.len(),
{
    if s.len() == 0 {
        0
    } else {
        pack_inputs(s.drop_last()) | input_mask(s.last())
    }
}

/// One controller port: the live button register and the latched
/// shift register that CPU reads drain MSB-first.
pub struct Controller {
    pub reg: u8,
    pub state: u8,
}

impl Controller {
    pub fn new() -> (r: Controller)
        ensures
            r.reg == 0,
            r.state == 0,
    {
        Controller { reg: 0x00, state: 0x00 }
    }

    /// Replace the live button register with the packed form of `input`.
    pub fn update(&mut self, input: &[ControllerInput])
        ensures
            final(self).reg == pack_inputs(input@),
            final(self).state == old(self).state,
    {
        let mut reg: u8 = 0x00;
        let mut idx: usize = 0;
        while idx < input.len()
            invariant
                idx <= input@.len(),
                reg == pack_inputs(input@.take(idx as int)),
            decreases input@.len() - idx,
        {
            let i = input[idx];
            match i {
                ControllerInput::A => {
                    reg |= 0x80;
                }
                ControllerInput::B => {
                    reg |= 0x40;
                }
                ControllerInput::Select => {
                    reg |= 0x20;
                }
                ControllerInput::Start => {
                    reg |= 0x10;
                }
                ControllerInput::Up => {
                    reg |= 0x08;
                }
                ControllerInput::Down => {
                    reg |= 0x04;
                }
                ControllerInput::Left => {
                    reg |= 0x02;
                }
                ControllerInput::Right => {
                    reg |= 0x01;
                }
            }
            proof {
                assert(input@.take(idx + 1).drop_last() =~= input@.take(idx as int));
                assert(input@.take(idx + 1).last() == input@[idx as int]);
            }
            idx += 1;
        }
        proof {
            assert(input@.take(input@.len() as int) =~= input@);
        }
        self.reg = reg;
    }

    /// Latch the live register into the shift register.
    pub fn write(&mut self)
        ensures
            final(self).state == old(self).reg,
            final(self).reg == old(self).reg,
    {
        self.state = self.reg;
    }

    /// Shift one bit out of the latched register, MSB first.
    pub fn read(&mut self) -> (data: u8)
        ensures
            data == (if old(self).state & 0x80 != 0 { 1u8 } else { 0u8 }),
            final(self).state == (old(self).state << 1) as u8,
            final(self).reg == old(self).reg,
    {
        let data: u8 = if (self.state & 0x80) != 0 { 1 } else { 0 };
        self.state <<= 1;
        data
    }

    /// Peek at the next bit without draining the shift register.
    pub fn read_ro(&self) -> (data: u8)
        ensures
            data == (if self.state & 0x80 != 0 { 1u8 } else { 0u8 }),
    {
        if (self.state & 0x80) > 0 { 1 } else { 0 }
    }
}

impl Default for Controller {
    fn default() -> (r: Controller)
        ensures
            r.reg == 0,
            r.state == 0,
    {
        Controller::new()
    }
}

} // verus!
