//! Inverse kinematics for the legs of a walking creature: a chain of points
//! solved toward a target by forward and backward reaching, an orientation
//! pass for the middle joint of a leg, leg target controllers, and the gait
//! policy that decides which legs step next.
pub mod chain;
pub mod fabrik;
pub mod leg;
pub mod leg_piece;
pub mod leg_solve;
pub mod math;
pub mod orientation;
pub mod spawn;
pub mod spider;
