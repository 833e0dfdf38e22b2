//! Control core of a closed-loop stimulation device: it decodes the pressure
//! sensor's readings, follows their baseline, finds peaks of activity by the
//! area they cover, and holds the actuator off for a cooldown after each.

pub mod avg;
pub mod control;
pub mod gpio;
pub mod h710;
pub mod history;
pub mod menu;
pub mod screen;
pub mod state;
pub mod switch;
