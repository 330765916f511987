use vstd::prelude::*;

use crate::cube::Cube;
use crate::keys::KeyEvent;

verus! {

/// Size of the buffer the shaders write debug values into: 1024 four-byte floats.
pub const DEBUG_BUFFER_BYTES: u64 = 4096;

/// How many bytes of the debug buffer are read back each frame: 32 floats.
pub const DEBUG_READ_BYTES: u64 = 128;

/// A debug read-back is printed when the random byte rolled for it is
/// below this value, so about one frame in twenty-one prints.
pub const DEBUG_PRINT_BELOW: u8 = 12;

/// What one frame of the world draws.
#[derive(PartialEq, Eq, Structural, Debug, Clone, Copy)]
pub struct RenderPlan {
    /// Whether the cube moves before drawing: only when the time since the
    /// last frame is known.
    pub animate: bool,
    /// The range of indices to draw.
    pub first_index: u32,
    pub end_index: u32,
    /// The offset added to every index.
    pub base_vertex: i32,
    /// The range of instances to draw.
    pub first_instance: u32,
    pub end_instance: u32,
}

/// Which bytes of the debug buffer a frame maps and reads.
#[derive(PartialEq, Eq, Structural, Debug, Clone, Copy)]
pub struct DebugReadPlan {
    pub map_start: u64,
    pub map_end: u64,
    pub read_start: u64,
    pub read_end: u64,
}

/// A roll of the dice for printing a debug read-back.
#[derive(PartialEq, Eq, Structural, Debug, Clone, Copy)]
pub struct DebugRoll {
    pub value: u8,
    pub print: bool,
}

/// The cube world: the cube and its controls.
#[derive(PartialEq, Eq, Structural, Debug, Clone, Copy)]
pub struct WorldRenderer {
    pub cube: Cube,
}

/// Calls `rand::random::<u8>()`: a byte from the thread-local generator.
/// Nothing is claimed of the byte; the generator panics only if the system
/// source of randomness fails, which no argument controls.
#[verifier::external_body]
fn random_byte() -> (b: u8) {
    rand::random::<u8>()
}

/// Whether a debug read-back with this roll is printed.
pub fn debug_print_due(roll: u8) -> (print: bool)
    ensures
        print == (roll < DEBUG_PRINT_BELOW),
{
    roll < DEBUG_PRINT_BELOW
}

/// Rolls a random byte and decides by it whether to print a debug read-back.
pub fn debug_roll() -> (r: DebugRoll)
    ensures
        r.print == (r.value < DEBUG_PRINT_BELOW),
{
    let value = random_byte();
    DebugRoll { value, print: debug_print_due(value) }
}

impl WorldRenderer {
    /// A world holding a cube at rest.
    pub fn new() -> (w: WorldRenderer)
        ensures
            w.cube == Cube::spec_initial(),
    {
        WorldRenderer { cube: Cube::new() }
    }

    /// The frame's drawing: animate when the time step is known, then draw
    /// every index of the cube once.
    pub fn render(&self, has_delta_time: bool) -> (p: RenderPlan)
        ensures
            p == (RenderPlan {
                animate: has_delta_time,
                first_index: 0,
                end_index: self.cube.num_vertices,
                base_vertex: 0,
                first_instance: 0,
                end_instance: 1,
            }),
    {
        RenderPlan {
            animate: has_delta_time,
            first_index: 0,
            end_index: self.cube.num_vertices,
            base_vertex: 0,
            first_instance: 0,
            end_instance: 1,
        }
    }

    /// Passes a key event on to the cube.
    pub fn handle_input(&mut self, event: &KeyEvent)
        ensures
            final(self).cube == old(self).cube.after_input(event@),
    {
        self.cube.handle_input(event);
    }

    /// The whole debug buffer is mapped, and its first 32 floats are read.
    pub fn read_debug_buffer(&self) -> (p: DebugReadPlan)
        ensures
            p == (DebugReadPlan {
                map_start: 0,
                map_end: DEBUG_BUFFER_BYTES,
                read_start: 0,
                read_end: DEBUG_READ_BYTES,
            }),
    {
        DebugReadPlan { map_start: 0, map_end: DEBUG_BUFFER_BYTES, read_start: 0, read_end: DEBUG_READ_BYTES }
    }
}

} // verus!
