//! Per-frame direct-sound control logic for a Steam Audio style spatializer:
//! source settings, the enable flags handed to the direct simulator, the
//! occlusion sample budget, the search for the spatializer stage in a
//! renderer's processing chain, and the per-tick plan of work.

pub mod settings;
pub mod flags;
pub mod occlusion;
pub mod spatializer;
pub mod tick;
