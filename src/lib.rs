//! A multi-tier, content-addressed cache engine: a weighted in-process memory
//! tier, a read-through / write-behind layer over a durable tier, an ordered
//! persister queue, and gossip that keeps sibling processes' caches in step.
pub mod component_view;
pub mod config;
pub mod db;
pub mod error;
pub mod event;
pub mod hybrid_cache;
pub mod layer_cache;
pub mod object_cache;
pub mod persister;
pub mod pkg_spec;
