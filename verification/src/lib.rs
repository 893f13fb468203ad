//! Verified decision logic of a building-evacuation model.
//!
//! The model moves people between the zones of a building (rooms,
//! staircases, the outside) through transits (door ways).  The numeric
//! part of the model (speeds, densities, flows, the modelling clock) is
//! floating-point arithmetic and lives outside this crate; this crate holds
//! the decisions that the model takes on plain values:
//!
//! * [`element`]: the kinds of building elements and the identity
//!   comparison used by the zone lists;
//! * [`speed`]: which speed law applies to a flow leaving a zone, and which
//!   parameter set of the stair law a direction selects;
//! * [`scenario`]: how a scenario configuration overrides transit widths and
//!   the initial distribution of people over the zones.

pub mod element;
pub mod speed;
pub mod scenario;
