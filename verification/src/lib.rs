//! Navigation state, result cache and item codec of a terminal client for a
//! tree-structured news API.

pub mod cache;
pub mod codec;
pub mod connector;
pub mod endpoint;
pub mod errors;
pub mod json;
pub mod models;
pub mod paging;
pub mod path_utils;
pub mod rows;
pub mod state;
pub mod text;
