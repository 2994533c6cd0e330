//! Error predictive learning: a black-box search for a weight vector that
//! minimises an error function, in which extra terms of the search state learn
//! to predict the error, the error of that prediction, and so on, and set the
//! step of the search.
//!
//! The search is a machine that is advanced one request at a time: it asks its
//! host for the error of a weight vector, or for one sum, difference or product
//! of two binary64 numbers, and decides everything else itself.

pub mod fit;
pub mod host;
pub mod laws;
pub mod machine;
pub mod monitor;
pub mod number;
pub mod policy;
pub mod refinement;
pub mod settings;
pub mod trainer;
pub mod training;

pub use fit::Fit;
pub use host::train;
pub use settings::TrainingSettings;
pub use trainer::{Action, Trainer};
