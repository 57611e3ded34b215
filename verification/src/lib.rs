//! Verified core of mcman, a Minecraft server manager: the server description model,
//! launcher script generation, source/version selection and the decisions made while
//! building and running a server.

pub mod app_config;
pub mod build_steps;
pub mod downloadable;
pub mod error;
pub mod hooks;
pub mod hot_reload;
pub mod import_url;
pub mod json;
pub mod launcher;
pub mod lockfile;
pub mod markdown;
pub mod mrpack;
pub mod ordered;
pub mod paths;
pub mod packwiz;
pub mod runner;
pub mod server;
pub mod servertype;
pub mod sources;
pub mod strmap;
pub mod strs;
