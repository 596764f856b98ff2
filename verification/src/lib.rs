pub mod dates;
pub mod models;
pub mod normalize;
pub mod numtext;
pub mod provider;
pub mod raw;
