//! What a `.pdos_weights` file holds, in the order of the file.
pub mod header;
pub mod parsing_intermediates;

pub use header::{Header, HeaderView};
pub use parsing_intermediates::{
    WeightsPerEigen, WeightsPerKPoint, WeightsPerKPointView, WeightsPerSpin, WeightsPerSpinView,
};
