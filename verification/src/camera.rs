use vstd::prelude::*;

verus! {

/// First digit of the album number that parametrises the rotation speeds.
pub const A_DIGIT: i64 = 1;

/// Second digit of the album number that parametrises the rotation speeds.
pub const B_DIGIT: i64 = 9;

/// Width of the image plane, in pixels.
pub const WIDTH: u32 = 640;

/// Height of the image plane, in pixels.
pub const HEIGHT: u32 = 480;

/// End of the animation: it shows the frames from `FRAME_START` up to, not
/// including, `FRAME_LIMIT`, then keeps its last pose.
pub const FRAME_LIMIT: u32 = 180;

/// First frame of the animation.
pub const FRAME_START: u32 = 0;

/// Roll (about OZ) of triangle A per frame, in tenths of a degree:
/// `2 + A_DIGIT / 10` degrees.
pub const ROLL_A_RATE: i64 = 20 + A_DIGIT;

/// Pitch (about OY) of triangle A per frame, in tenths of a degree:
/// `1 + B_DIGIT / 10` degrees.
pub const PITCH_A_RATE: i64 = 10 + B_DIGIT;

/// Roll (about OZ) of triangle B per frame, in tenths of a degree:
/// `-(2 + B_DIGIT / 10)` degrees.
pub const ROLL_B_RATE: i64 = -(20 + B_DIGIT);

/// Pitch (about OY) of triangle B per frame, in tenths of a degree:
/// `-(1 + A_DIGIT / 10)` degrees.
pub const PITCH_B_RATE: i64 = -(10 + A_DIGIT);

/// The rotation angles of both triangles at one animation frame, each in
/// tenths of a degree.
#[derive(Clone, Copy, Debug, PartialEq, Eq, Structural)]
pub struct FrameAngles {
    pub roll_a: i64,
    pub pitch_a: i64,
    pub roll_b: i64,
    pub pitch_b: i64,
}

/// The angles of frame `frame`: each rotation has turned by its rate once per
/// frame since frame zero.
pub open spec fn angles_at(frame: u32) -> FrameAngles {
    FrameAngles {
        roll_a: (frame * ROLL_A_RATE) as i64,
        pitch_a: (frame * PITCH_A_RATE) as i64,
        roll_b: (frame * ROLL_B_RATE) as i64,
        pitch_b: (frame * PITCH_B_RATE) as i64,
    }
}

proof fn lemma_product_fits(frame: u32, rate: i64)
    requires
        -29 <= rate <= 29,
    ensures
        -29 * 0x1_0000_0000 <= frame * rate <= 29 * 0x1_0000_0000,
{
    assert(-29 * 0x1_0000_0000 <= frame * rate <= 29 * 0x1_0000_0000) by (nonlinear_arith)
        requires
            -29 <= rate <= 29,
            0 <= frame < 0x1_0000_0000,
    ;
}

/// The rotation angles of both triangles at animation frame `frame`.
pub fn frame_angles(frame: u32) -> (angles: FrameAngles)
    ensures
        angles == angles_at(frame),
        angles.roll_a == frame * ROLL_A_RATE,
        angles.pitch_a == frame * PITCH_A_RATE,
        angles.roll_b == frame * ROLL_B_RATE,
        angles.pitch_b == frame * PITCH_B_RATE,
{
    proof {
        lemma_product_fits(frame, ROLL_A_RATE);
        lemma_product_fits(frame, PITCH_A_RATE);
        lemma_product_fits(frame, ROLL_B_RATE);
        lemma_product_fits(frame, PITCH_B_RATE);
    }
    let n = frame as i64;
    FrameAngles {
        roll_a: n * ROLL_A_RATE,
        pitch_a: n * PITCH_A_RATE,
        roll_b: n * ROLL_B_RATE,
        pitch_b: n * PITCH_B_RATE,
    }
}

/// The animation starts from the rest pose, and from one frame to the next
/// every rotation advances by exactly its per-frame rate: triangle A turns
/// forwards about both axes while triangle B turns backwards.
pub proof fn lemma_rotation_advances(frame: u32)
    requires
        frame < u32::MAX,
    ensures
        angles_at(0) == (FrameAngles { roll_a: 0, pitch_a: 0, roll_b: 0, pitch_b: 0 }),
        angles_at((frame + 1) as u32).roll_a == angles_at(frame).roll_a + ROLL_A_RATE,
        angles_at((frame + 1) as u32).pitch_a == angles_at(frame).pitch_a + PITCH_A_RATE,
        angles_at((frame + 1) as u32).roll_b == angles_at(frame).roll_b + ROLL_B_RATE,
        angles_at((frame + 1) as u32).pitch_b == angles_at(frame).pitch_b + PITCH_B_RATE,
        angles_at(frame).roll_a >= 0,
        angles_at(frame).pitch_a >= 0,
        angles_at(frame).roll_b <= 0,
        angles_at(frame).pitch_b <= 0,
{
    let next = (frame + 1) as u32;
    lemma_product_fits(frame, ROLL_A_RATE);
    lemma_product_fits(frame, PITCH_A_RATE);
    lemma_product_fits(frame, ROLL_B_RATE);
    lemma_product_fits(frame, PITCH_B_RATE);
    lemma_product_fits(next, ROLL_A_RATE);
    lemma_product_fits(next, PITCH_A_RATE);
    lemma_product_fits(next, ROLL_B_RATE);
    lemma_product_fits(next, PITCH_B_RATE);
    assert(next * ROLL_A_RATE == frame * ROLL_A_RATE + ROLL_A_RATE) by (nonlinear_arith)
        requires next == frame + 1;
    assert(next * PITCH_A_RATE == frame * PITCH_A_RATE + PITCH_A_RATE) by (nonlinear_arith)
        requires next == frame + 1;
    assert(next * ROLL_B_RATE == frame * ROLL_B_RATE + ROLL_B_RATE) by (nonlinear_arith)
        requires next == frame + 1;
    assert(next * PITCH_B_RATE == frame * PITCH_B_RATE + PITCH_B_RATE) by (nonlinear_arith)
        requires next == frame + 1;
    assert(frame * ROLL_A_RATE >= 0) by (nonlinear_arith) requires frame >= 0, ROLL_A_RATE >= 0;
    assert(frame * PITCH_A_RATE >= 0) by (nonlinear_arith) requires frame >= 0, PITCH_A_RATE >= 0;
    assert(frame * ROLL_B_RATE <= 0) by (nonlinear_arith) requires frame >= 0, ROLL_B_RATE <= 0;
    assert(frame * PITCH_B_RATE <= 0) by (nonlinear_arith) requires frame >= 0, PITCH_B_RATE <= 0;
}

} // verus!
