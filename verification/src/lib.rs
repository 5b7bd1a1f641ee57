//! Frame orchestration for a fixed three-pass GPU pipeline.
//!
//! Each displayed frame is produced by an offscreen rasterization pass, a
//! screen-space compute post-process pass, and a copy pass that draws the
//! result into the acquired swap-chain image.  This crate holds the verified
//! core of that pipeline: the per-frame pass sequencing, the compute dispatch
//! sizing, and the resize-driven lifecycle of the texture pair, the swap
//! chain and the bind groups.  A thin unverified driver owns the real GPU
//! device and window, performs the recorded work, and reports acquisition and
//! allocation outcomes back to the orchestrator.

pub mod dispatch;
pub mod frame;
pub mod orchestrator;
pub mod pipeline;
pub mod surface;
pub mod texture;
