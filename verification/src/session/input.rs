//! The packed per-frame input of a peer-to-peer session: one bit per
//! bound input, in a fixed order, so a whole frame's input travels as a
//! single byte.
//!
//! Bit order: right click, left click, space, return, M, W.

use vstd::prelude::*;

use crate::input::{KeyCode, MouseButton};

verus! {

/// One frame's pressed inputs, packed.
#[derive(Copy, Clone, PartialEq, Eq, Structural, Debug)]
pub struct GameInput(pub u8);

/// The mask `from_pressed` builds: one bit per pressed input.
pub open spec fn spec_input_mask(
    right: bool,
    left: bool,
    space: bool,
    ret: bool,
    m: bool,
    w: bool,
) -> u8 {
    (if right {
        1u8
    } else {
        0u8
    }) | (if left {
        2u8
    } else {
        0u8
    }) | (if space {
        4u8
    } else {
        0u8
    }) | (if ret {
        8u8
    } else {
        0u8
    }) | (if m {
        16u8
    } else {
        0u8
    }) | (if w {
        32u8
    } else {
        0u8
    })
}

/// The mouse buttons a mask names, right before left.
pub open spec fn spec_buttons_of(bits: u8) -> Seq<MouseButton> {
    (if bits & 1 != 0 {
        seq![MouseButton::Right]
    } else {
        Seq::empty()
    }) + (if bits & 2 != 0 {
        seq![MouseButton::Left]
    } else {
        Seq::empty()
    })
}

/// The keys a mask names, in bit order.
pub open spec fn spec_keys_of(bits: u8) -> Seq<KeyCode> {
    (if bits & 4 != 0 {
        seq![KeyCode::Space]
    } else {
        Seq::empty()
    }) + (if bits & 8 != 0 {
        seq![KeyCode::Return]
    } else {
        Seq::empty()
    }) + (if bits & 16 != 0 {
        seq![KeyCode::M]
    } else {
        Seq::empty()
    }) + (if bits & 32 != 0 {
        seq![KeyCode::W]
    } else {
        Seq::empty()
    })
}

impl GameInput {
    /// Pack one frame's pressed inputs; this is the computing half of the
    /// local input reader, whose flags come from the windowing layer.
    pub fn from_pressed(right: bool, left: bool, space: bool, ret: bool, m: bool, w: bool) -> (r:
        GameInput)
        ensures
            r.0 == spec_input_mask(right, left, space, ret, m, w),
    {
        let bits: u8 = (if right {
            1u8
        } else {
            0u8
        }) | (if left {
            2u8
        } else {
            0u8
        }) | (if space {
            4u8
        } else {
            0u8
        }) | (if ret {
            8u8
        } else {
            0u8
        }) | (if m {
            16u8
        } else {
            0u8
        }) | (if w {
            32u8
        } else {
            0u8
        });
        GameInput(bits)
    }

    /// The mouse buttons this frame pressed, right before left.
    pub fn get_buttons(&self) -> (r: Vec<MouseButton>)
        ensures
            r@ == spec_buttons_of(self.0),
    {
        let mut result: Vec<MouseButton> = Vec::new();
        if self.0 & 1 != 0 {
            result.push(MouseButton::Right);
        }
        if self.0 & 2 != 0 {
            result.push(MouseButton::Left);
        }
        proof {
            assert(result@ =~= spec_buttons_of(self.0));
        }
        result
    }

    /// The keys this frame pressed, in bit order.
    pub fn get_keys(&self) -> (r: Vec<KeyCode>)
        ensures
            r@ == spec_keys_of(self.0),
    {
        let mut result: Vec<KeyCode> = Vec::new();
        if self.0 & 4 != 0 {
            result.push(KeyCode::Space);
        }
        if self.0 & 8 != 0 {
            result.push(KeyCode::Return);
        }
        if self.0 & 16 != 0 {
            result.push(KeyCode::M);
        }
        if self.0 & 32 != 0 {
            result.push(KeyCode::W);
        }
        proof {
            assert(result@ =~= spec_keys_of(self.0));
        }
        result
    }
}

} // verus!
