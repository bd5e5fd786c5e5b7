/// Screen size, physics and obstacle constants.
pub mod config;
/// Rectangles, their intersection and point containment.
pub mod geometry;
/// Obstacles: scrolling, collision, scoring and recycling.
pub mod pipe;
/// The falling, jumping player.
pub mod player;
/// The session state and its simulation tick.
pub mod world;
/// The clickable label.
pub mod button;
/// Input events turned into jumps, clicks and the end of the session.
pub mod input;
/// Where sprites, ground and text are drawn.
pub mod layout;
mod random;
