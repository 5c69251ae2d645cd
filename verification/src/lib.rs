//! Combinatorial enumeration and placement planning for a single-atom-
//! catalyst screening study: a fixed host lattice is varied over a catalogue
//! of candidate metals, and for each metal variant a catalogue of adsorbates
//! is placed at every eligible combination of coordination sites.
//!
//! The library plans that product deterministically: it enumerates the site
//! cases of each adsorbate, assembles the placement parameters, derives the
//! canonical, collision-free name of every candidate structure, and computes
//! the export-tree paths and idempotent-copy decisions.  Decoding structural
//! files, the floating-point placement engine, and all file I/O live outside
//! the library and execute the plan.

pub mod ads_model;
pub mod adsorbate;
pub mod candidate;
pub mod elements;
pub mod enumerate;
pub mod errors;
pub mod export;
pub mod lattice;
pub mod naming;
pub mod pathway;
pub mod pipeline;
pub mod placement;
pub mod sites;
pub mod tasks;
