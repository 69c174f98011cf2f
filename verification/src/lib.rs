//! A tracker of goals: themes, the objectives under them, the key results,
//! initiatives and projects under an objective, and the measurements and
//! tasks below those. It keeps the records, works out the status of a
//! project from its tasks, and says which fragment of a page answers which
//! request.

pub mod errors;
pub mod handlers;
pub mod model;
pub mod paths;
pub mod resolver;
pub mod status;
pub mod store;
pub mod table;
pub mod templater;
