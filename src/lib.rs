//! Frame-synchronized playback of recorded controller inputs into a running game,
//! together with the game model that those inputs are planned against.
//!
//! - [`records`] decodes the seed and input lines.
//! - [`breakpoint`] patches and restores code words and sorts the stops of the target.
//! - [`playback`] is the driver: a state machine from what was observed to what to do next.
//! - [`target`] recognises the game among running processes.
//! - [`gameplay`] and [`editor`] model the game the input logs are planned against.
pub mod breakpoint;
pub mod editor;
pub mod gameplay;
pub mod playback;
pub mod records;
pub mod target;
