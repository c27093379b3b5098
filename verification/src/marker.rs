//! Markers and regions.
use vstd::prelude::*;
use crate::color::Color;
use crate::misc_types::Position;

verus! {

/// A marker or region of a project.
#[derive(Debug, Clone, PartialEq)]
pub struct MarkerRegionInfo {
    pub is_region: bool,
    pub user_index: usize,
    pub enum_index: usize,
    pub position: Position,
    pub rgn_end: Position,
    pub name: String,
    pub color: Color,
}

} // verus!
