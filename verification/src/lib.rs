//! Core of a minimal Linux container runtime: IPv4 subnet algebra, user
//! database resolution, and the exact command and filesystem-action plans
//! that drive the container launch pipeline and the bridged-network
//! lifecycle. All kernel and command effects are carried out by a thin
//! unverified shell around this library; everything here is pure and
//! verified.

pub mod container;
pub mod helpers;
pub mod linux;
pub mod model;
pub mod net;
pub mod network;
pub mod specs;
pub mod text;
