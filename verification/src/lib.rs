//! Oxidite: the verified core of a Minecraft launcher.
//!
//! It chooses the version to install from Mojang's manifest, finds the hash
//! under which its metadata is published, lays out the game directory, plans
//! the downloads of the client jar, libraries and assets, checks each
//! downloaded file against its SHA-1, builds the class path and command line
//! that start the game, and reads the game's log to tell what the player is
//! doing. Fetching, writing files and running processes are left to the caller.
pub mod api;
pub mod assets;
pub mod dirs;
pub mod hashing;
pub mod instance;
pub mod launcher;
pub mod libraries;
pub mod models;
pub mod preparation;
pub mod sources;
pub mod text;

pub use dirs::MinecraftDirs;
pub use launcher::LaunchSettings;
