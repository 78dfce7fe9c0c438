//! Lifecycle management for compatibility tool packages: the release catalog
//! and its cache policy, the serialized task queue, the install pipeline with
//! cooperative cancellation, uninstall validation and state reconciliation.
//!
//! Everything here decides and computes over plain values. Callers do the
//! network and filesystem work and report what happened; the functions here
//! say what the state becomes and what is to be done next.
//!
//! - [`app`] holds the shared state, the task queue and the messages.
//! - [`session`] takes in a message from a session.
//! - [`pipeline`] hands out the queued work and steps the one install job.
//! - [`install`] picks the asset to install and plans how a package goes live.
//! - [`archive`] takes the compression off a download.
//! - [`uninstall`] checks a request to remove a tool.
//! - [`reconcile`] rebuilds the installed tools and splits the catalogs.
//! - [`cache`] decides between the cache file and the remote source.
//! - [`github_util`] holds the releases and lists them page by page.
//! - [`flavors`] holds the flavors and the naming convention.
//! - [`steam_util`] reads the host's files; [`vdf`] and [`vdf_util`] read the
//!   two formats they come in.
//! - [`config`] holds the defaults; [`text`] and [`search`] are helpers.

pub mod app;
pub mod archive;
pub mod cache;
pub mod config;
pub mod flavors;
pub mod github_util;
pub mod install;
pub mod pipeline;
pub mod reconcile;
pub mod search;
pub mod session;
pub mod steam_util;
pub mod text;
pub mod uninstall;
pub mod vdf;
pub mod vdf_util;
