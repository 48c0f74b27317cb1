//! Line classifiers and column arithmetic shared by the formatting passes.

pub mod columns;
pub mod lines;
pub mod scanning;
pub mod assembly;
pub mod shapes;
