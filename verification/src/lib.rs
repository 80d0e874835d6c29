//! The rules of War of the Moons, a small real-time strategy game: ships
//! orbit moons, fleets are sent from one moon to another, a moon belongs to
//! whoever alone has ships around it, ships of different owners damage each
//! other on contact, and the planet in the middle fights back.
//!
//! Everything here works on whole numbers. An entity is named by a `u64`;
//! time is counted in milliseconds, chances in thousandths, distances in
//! hundredths, angles in millionths of a radian. Where things are, sines
//! and cosines, and everything drawn on screen stay with the caller, who
//! tells the rules what the physics has reported and carries out what they
//! decide.
//!
//! - [`space`], [`owner`], [`game`]: ships, moons, owners and the state of a
//!   match;
//! - [`counts`], [`game`]: the ships around each body and the conquest of
//!   moons;
//! - [`combat`], [`events`]: contacts, encounters and what they do;
//! - [`orders`], [`selection`], [`ratio`]: choosing bodies and sending ships;
//! - [`timer`], [`production`], [`fleet`], [`asteroid`], [`setup`]: what comes
//!   into play, and when;
//! - [`tick`]: one round of the rules in their order;
//! - [`registry`], [`entity`]: finding things by handle and by name;
//! - [`ui`], [`names`], [`menu`], [`screen`]: words, colours and screens;
//! - [`config`], [`chance`]: settings and draws of chance.

pub mod asteroid;
pub mod chance;
pub mod combat;
pub mod config;
pub mod counts;
pub mod entity;
pub mod events;
pub mod fleet;
pub mod game;
pub mod menu;
pub mod names;
pub mod orders;
pub mod owner;
pub mod production;
pub mod ratio;
pub mod registry;
pub mod screen;
pub mod selection;
pub mod setup;
pub mod space;
pub mod tick;
pub mod timer;
pub mod ui;
