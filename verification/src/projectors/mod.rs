//! Which orbitals a projector selects, and their weights.
pub mod config;

pub use config::{
    extract_selections, AngularIndices, ChannelWeights, Mapping, PDOSConfig, ProjectionError,
    ProjectorConfig, Selection, SpeciesMapping, SpeciesSymbol,
};
