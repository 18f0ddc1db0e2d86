//! Formation model and spatial layout for a simplified American-football roster.
//!
//! `formation` builds a team's players from fixed formation templates; `layout` places an
//! ordered roster, and the camera, on a display surface.
pub mod formation;
pub mod layout;
