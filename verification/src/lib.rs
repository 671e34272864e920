//! Orchestration core for a multi-stage marketplace-scraping pipeline.
//!
//! Galleries of marketplace listings move through a linear sequence of
//! processing stages. This crate holds the control-plane substrate for that
//! movement: the typed message bus used for inter-module calls, the pipeline
//! stage data model and its transition functions, the state tracker that
//! grants exclusive leases on each gallery's stage payload, and the scheduler
//! that re-enters galleries into the pipeline on a recurring basis.
//!
//! The actual stage work — scraping, analysis, embedding — happens in
//! external collaborator modules reachable only through the message
//! contracts defined here; this crate never looks inside their payloads.

pub mod config;
pub mod cron;
pub mod domain;
pub mod pipeline_states;
pub mod message_bus;
pub mod messages;
pub mod registry;
pub mod scheduler;
pub mod state_tracker;

pub use domain::GalleryId;
