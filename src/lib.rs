//! Player-control core of a first-person controller: the capture gate that
//! decides whether pointer motion drives the view, the look controller that
//! turns pointer motion into player yaw and camera pitch, and the locomotion
//! controller that turns held keys into a horizontal walk velocity and a jump
//! request for a character controller.
//!
//! Angles are integer microradians and lengths, speeds and vector components
//! are integer millionths of a unit, so every step is exact integer arithmetic.

pub mod capture;
pub mod look;
pub mod locomotion;
pub mod frame;
