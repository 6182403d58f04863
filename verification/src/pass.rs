//! Render pass actions and the clear commands they issue.
//!
//! A `Clear` action names each component independently; only the components
//! actually supplied are cleared, and the final clear mask is the bitwise
//! union of the flags of those components alone.

use vstd::prelude::*;

use crate::command::Command;
use crate::gl;

verus! {

/// A rendering pass action.  Color components and the depth value are
/// IEEE-754 single-precision bit patterns.
#[derive(Clone, Copy, Debug, PartialEq, Eq)]
pub enum PassAction {
    /// Does nothing.
    Nothing,
    /// Clears the framebuffer; each component is independently optional.
    Clear {
        /// The color to clear to, as four single-precision bit patterns.
        color: Option<(u32, u32, u32, u32)>,
        /// The depth to clear to, as a single-precision bit pattern.
        depth: Option<u32>,
        /// The stencil value to clear to.
        stencil: Option<i32>,
    },
}

/// The clear mask: the union of the flags of the supplied components.
pub open spec fn clear_mask(color: bool, depth: bool, stencil: bool) -> u32 {
    (if color {
        gl::COLOR_BUFFER_BIT
    } else {
        0u32
    }) | (if depth {
        gl::DEPTH_BUFFER_BIT
    } else {
        0u32
    }) | (if stencil {
        gl::STENCIL_BUFFER_BIT
    } else {
        0u32
    })
}

/// The commands a pass action issues: one value-setting command per supplied
/// component, then a single clear of their combined mask; nothing at all for
/// `Nothing`.
pub open spec fn pass_commands(action: PassAction) -> Seq<Command> {
    match action {
        PassAction::Nothing => Seq::empty(),
        PassAction::Clear { color, depth, stencil } => (match color {
            Some(c) => seq![
                Command::ClearColor { red: c.0, green: c.1, blue: c.2, alpha: c.3 },
            ],
            None => Seq::empty(),
        }) + (match depth {
            Some(d) => seq![Command::ClearDepth { depth: d }],
            None => Seq::empty(),
        }) + (match stencil {
            Some(s) => seq![Command::ClearStencil { stencil: s }],
            None => Seq::empty(),
        }) + seq![
            Command::Clear { mask: clear_mask(color is Some, depth is Some, stencil is Some) },
        ],
    }
}

/// Clear flags are independently toggleable: the combined mask equals the
/// bitwise union of the masks each component would produce on its own.
pub proof fn lemma_clear_mask_union(color: bool, depth: bool, stencil: bool)
    ensures
        clear_mask(color, depth, stencil) == clear_mask(color, false, false) | clear_mask(
            false,
            depth,
            false,
        ) | clear_mask(false, false, stencil),
{
    let x: u32 = if color {
        gl::COLOR_BUFFER_BIT
    } else {
        0u32
    };
    let y: u32 = if depth {
        gl::DEPTH_BUFFER_BIT
    } else {
        0u32
    };
    let z: u32 = if stencil {
        gl::STENCIL_BUFFER_BIT
    } else {
        0u32
    };
    assert((x | y | z) == ((x | 0u32 | 0u32) | (0u32 | y | 0u32) | (0u32 | 0u32 | z)))
        by (bit_vector);
}

/// A component left out contributes nothing to the mask; one supplied
/// contributes exactly its own flag.
pub proof fn lemma_clear_mask_single()
    ensures
        clear_mask(true, false, false) == gl::COLOR_BUFFER_BIT,
        clear_mask(false, true, false) == gl::DEPTH_BUFFER_BIT,
        clear_mask(false, false, true) == gl::STENCIL_BUFFER_BIT,
        clear_mask(false, false, false) == 0u32,
{
    assert((0x4000u32 | 0u32 | 0u32) == 0x4000u32) by (bit_vector);
    assert((0u32 | 0x0100u32 | 0u32) == 0x0100u32) by (bit_vector);
    assert((0u32 | 0u32 | 0x0400u32) == 0x0400u32) by (bit_vector);
    assert((0u32 | 0u32 | 0u32) == 0u32) by (bit_vector);
}

} // verus!
