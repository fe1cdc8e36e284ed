//! Scouting library: filters a set of athlete records against a
//! configuration and ranks the survivors by a position-weighted
//! suitability score.

pub mod pipeline;
pub mod player;
pub mod score;
pub mod text;

pub use pipeline::find_gems;
pub use pipeline::passes_filter;
pub use pipeline::rank;
pub use player::Config;
pub use player::Player;
pub use player::Profile;
pub use score::profile_of;
pub use score::SCORE_SCALE;
pub use score::VALUE_CAP;
pub use score::value_component;
