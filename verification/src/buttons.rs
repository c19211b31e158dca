//! The joypad state that the frontend reports to the core.

use vstd::prelude::*;

verus! {

/// The pressed buttons of the one joypad on port 0, by libretro button id.
#[derive(Clone, Copy, Debug, PartialEq, Eq, Structural)]
pub struct Buttons {
    pressed: u32,
}

impl Buttons {
    /// One bit per button id: bit `id` is set when that button is held.
    pub closed spec fn mask(self) -> u32 {
        self.pressed
    }

    /// Whether button `id` is held (ids from 32 up are never held).
    pub open spec fn is_pressed(self, id: int) -> bool {
        0 <= id < 32 && (self.mask() >> (id as u32)) & 1u32 == 1u32
    }

    /// The value the core reads for button `id`: 1 when held, else 0.
    pub open spec fn value(self, id: int) -> i16 {
        if self.is_pressed(id) {
            1
        } else {
            0
        }
    }

    /// The joypad with no button held.
    pub closed spec fn released() -> Buttons {
        Buttons { pressed: 0 }
    }

    /// No button of the released joypad is held.
    pub proof fn lemma_released_holds_nothing()
        ensures
            forall|id: int| !#[trigger] Buttons::released().is_pressed(id),
    {
        assert forall|id: int| !#[trigger] Buttons::released().is_pressed(id) by {
            if 0 <= id < 32 {
                let i = id as u32;
                assert((0u32 >> i) & 1u32 == 0u32) by (bit_vector);
            }
        }
    }

    /// A joypad with no button held.
    pub fn new() -> (b: Buttons)
        ensures
            b == Buttons::released(),
            forall|id: int| !#[trigger] b.is_pressed(id),
    {
        let b = Buttons { pressed: 0 };
        proof {
            Buttons::lemma_released_holds_nothing();
            assert(b == Buttons::released());
            assert forall|id: int| !#[trigger] b.is_pressed(id) by {
                assert(!Buttons::released().is_pressed(id));
            }
        }
        b
    }

    /// The value the core reads for button `id`: 1 when held, else 0.
    pub fn get(&self, id: usize) -> (v: i16)
        ensures
            v == self.value(id as int),
    {
        if id < 32 && (self.pressed >> (id as u32)) & 1 == 1 {
            1
        } else {
            0
        }
    }

    /// This joypad with button `id` held or released as `pressed` says, the
    /// other buttons as they were.
    pub fn set(self, id: usize, pressed: bool) -> (b: Buttons)
        requires
            id < 32,
        ensures
            b.is_pressed(id as int) == pressed,
            forall|j: int| j != id ==> #[trigger] b.is_pressed(j) == self.is_pressed(j),
    {
        let i = id as u32;
        let m = self.pressed;
        let bit = 1u32 << i;
        let pressed_mask = if pressed {
            m | bit
        } else {
            m & !bit
        };
        let b = Buttons { pressed: pressed_mask };
        proof {
            if pressed {
                assert((pressed_mask >> i) & 1u32 == 1u32) by (bit_vector)
                    requires
                        i < 32u32,
                        bit == 1u32 << i,
                        pressed_mask == m | bit,
                ;
            } else {
                assert((pressed_mask >> i) & 1u32 == 0u32) by (bit_vector)
                    requires
                        i < 32u32,
                        bit == 1u32 << i,
                        pressed_mask == m & !bit,
                ;
            }
            assert forall|j: int| j != id implies #[trigger] b.is_pressed(j) == self.is_pressed(j) by {
                if 0 <= j < 32 {
                    let k = j as u32;
                    if pressed {
                        assert((pressed_mask >> k) & 1u32 == (m >> k) & 1u32) by (bit_vector)
                            requires
                                i < 32u32,
                                k < 32u32,
                                k != i,
                                bit == 1u32 << i,
                                pressed_mask == m | bit,
                        ;
                    } else {
                        assert((pressed_mask >> k) & 1u32 == (m >> k) & 1u32) by (bit_vector)
                            requires
                                i < 32u32,
                                k < 32u32,
                                k != i,
                                bit == 1u32 << i,
                                pressed_mask == m & !bit,
                        ;
                    }
                }
            }
        }
        b
    }
}

} // verus!
