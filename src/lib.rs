//! Analysis, validation and optimization of PBR (physically based rendering)
//! texture sets.
//!
//! - [`material`]: decoded textures and the six-slot material model
//! - [`image_loading`]: decoded images, their checks, slot detection by name
//! - [`validation`]: issues, scoring and the built-in rule set
//! - [`plugin`]: config-described rules and the script plugin protocol
//! - [`analysis`]: duplicate detection, cross-material consistency, tileability
//! - [`optimization`]: resolution targets, channel packing, LOD export plans
//! - [`estimation`]: VRAM estimates
//! - [`report`], [`json_report`], [`ci`]: report assembly
//! - [`history`]: bounded audit, undo and version histories
//! - [`stats`], [`text`]: exact image statistics and decimal text
//!
//! Floating-point quantities of the domain are kept exact: luminance in
//! thousandths, similarities in parts per million, edge differences as
//! fractions, thresholds in hundredths.
use vstd::prelude::*;

pub mod analysis;
pub mod ci;
pub mod estimation;
pub mod history;
pub mod image_loading;
pub mod json_report;
pub mod material;
pub mod optimization;
pub mod plugin;
pub mod report;
pub mod stats;
pub mod text;
pub mod validation;

verus! {

/// Errors of the library's operations.
#[derive(Debug, PartialEq, Eq, Structural)]
pub enum Error {
    /// A pixel buffer whose length is not `width * height * 4`, or a zero size.
    InvalidDimensions,
}

} // verus!
