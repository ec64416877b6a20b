//! Contact rules: what happens when the stone meets the water or an
//! accelerator. The measured quantities (angles, speeds) are compared by the
//! caller; these functions decide which response the game applies.

use vstd::prelude::*;

verus! {

/// The largest angle, in degrees against the horizontal, at which the stone
/// still skips.
pub const SKIP_ANGLE_DEG: u32 = 20;

/// The lowest speed, in metres per second, at which the stone still skips.
pub const SKIP_SPEED_MS: u32 = 4;

/// How the water answers a stone that touches it.
#[derive(Clone, Copy, Debug, PartialEq, Eq, Structural)]
pub enum WaterResponse {
    /// The stone bounces off: horizontal speed damped, vertical speed
    /// reflected and damped.
    Skip,
    /// The stone sinks: gravity is weakened and horizontal speed is halved.
    Sink,
}

/// The skip rule: the stone skips exactly when it meets the water at a
/// shallow enough angle and fast enough.
pub open spec fn spec_water_response(shallow: bool, fast: bool) -> WaterResponse {
    if shallow && fast {
        WaterResponse::Skip
    } else {
        WaterResponse::Sink
    }
}

/// Decides the water's answer. `shallow` is whether the angle of the stone's
/// velocity against the horizontal is at most [`SKIP_ANGLE_DEG`]; `fast` is
/// whether its speed is at least [`SKIP_SPEED_MS`].
pub fn water_response(shallow: bool, fast: bool) -> (r: WaterResponse)
    ensures
        r == spec_water_response(shallow, fast),
        r == WaterResponse::Skip <==> (shallow && fast),
        r == WaterResponse::Sink <==> !(shallow && fast),
{
    if shallow && fast {
        WaterResponse::Skip
    } else {
        WaterResponse::Sink
    }
}

/// How an accelerator changes the stone's vertical motion.
#[derive(Clone, Copy, Debug, PartialEq, Eq, Structural)]
pub enum Boost {
    /// The stone is rising: both components are amplified.
    Amplify,
    /// The stone is level or falling: horizontal speed is amplified and the
    /// vertical motion is turned upwards at half strength.
    Bounce,
}

/// The boost rule: a rising stone is amplified, any other is bounced up.
pub open spec fn spec_boost(rising: bool) -> Boost {
    if rising {
        Boost::Amplify
    } else {
        Boost::Bounce
    }
}

/// Decides an accelerator's effect. `rising` is whether the stone's vertical
/// velocity points up the screen (is negative in screen coordinates).
pub fn accelerator_boost(rising: bool) -> (b: Boost)
    ensures
        b == spec_boost(rising),
        b == Boost::Amplify <==> rising,
        b == Boost::Bounce <==> !rising,
{
    if rising {
        Boost::Amplify
    } else {
        Boost::Bounce
    }
}

} // verus!
