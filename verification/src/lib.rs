//! A verified core for an OpenVPN connection manager.
//!
//! The library models VPN profiles and their believed connection state,
//! parses process-table output to discover the tunnel that is actually
//! running, and drives the connect / disconnect / force-kill lifecycle
//! while preserving a single-active-tunnel invariant.  All process
//! control (spawning `openvpn`, running `ps` or `pkill`) is performed by
//! the surrounding application, which hands the observations and
//! outcomes to the functions here as plain values.

pub mod dtos;
pub mod entities;
pub mod mappers;
pub mod openvpn;
pub mod repository;
pub mod scan;
pub mod services;
pub mod text;
pub mod use_cases;
