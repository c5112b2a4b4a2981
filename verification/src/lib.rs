//! Decomposition of rectangular drawable primitives ("quads") into GPU draw
//! work: the choice of a rendering strategy, the classification of tiles,
//! the nine-patch under a rounded clip, the masks of masked render tasks,
//! the split into batches, and the keys of cached render tasks. Beside it
//! stand the plain-value parts of a URL pattern binding.
//!
//! All geometry lives on an integer lattice of device or layout units.
//! Every contract is stated over mathematical integers, and snapping an
//! edge to the lattice changes nothing: whoever holds coordinates that are
//! not whole snaps them before handing them in. Colours are stored as they
//! are given and premultiplied by whoever encodes them.
//!
//! The collaborators of the pipeline are plain data. The frame state
//! records what the pipeline emits: GPU blocks, render tasks with their
//! masks and dependencies, cache entries, and draw commands. What the
//! pipeline consults of the spatial tree and of the clip store comes with
//! each clip and each primitive as resolved facts.

pub mod batch;
pub mod clip;
pub mod clip_mask;
pub mod flags;
pub mod frame;
pub mod geometry;
pub mod gpu_types;
pub mod match_results;
pub mod maybe_string;
pub mod nine_patch;
pub mod pattern;
pub mod prepare;
pub mod quad;
pub mod rounding;
pub mod site_resolver;
pub mod strategy;
pub mod tile_classifier;
pub mod tile_laws;
pub mod tiles;
pub mod url_init;
pub mod url_matcher;
