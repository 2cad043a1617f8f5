//! Mint-driven landscape art: the pure core of a pipeline that watches a
//! transaction stream for token mints and renders one deterministic mountain
//! scene per token.
//!
//! - [`mint_filter`] finds the mints in a batch of transactions.
//! - [`address`] brings token addresses into canonical form.
//! - [`randomness`], [`color`], [`terrain`] and [`scene`] draw the scene of a
//!   token from a stream seeded by its address.
//! - [`compositor`] lays the overlays over a rendered raster and encodes it.
//! - [`coordinator`] and [`pipeline`] are the two ends of the handoff between
//!   the renderer and the pipeline.
//! - [`checkpoint`] and [`blob_store`] say where to resume and where the
//!   images go.
//!
//! Nothing here touches a window, a socket or a disk: the program around the
//! library does that and reports back.

pub mod address;
pub mod blob_store;
pub mod checkpoint;
pub mod color;
pub mod compositor;
pub mod coordinator;
pub mod mint_filter;
pub mod pipeline;
pub mod randomness;
pub mod scene;
pub mod terrain;
