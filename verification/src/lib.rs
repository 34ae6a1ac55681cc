//! Verified core of the AMR database service: robot state records, the text
//! stored for a state, the values the repository reads and binds, the map-file
//! naming rules, the replies of the map endpoints, the errors of a request and
//! the decisions of the pose broadcast loop.
pub mod api;
pub mod database;
pub mod models;
pub mod text;
pub mod utils;
