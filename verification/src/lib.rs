//! The backend of a developer dashboard, with the supervision of its SSH
//! tunnels at the centre.
//!
//! A [`tunnel::Tunnel`] describes one port forward and the ssh command that
//! opens it. A [`connection::SSHTunnelConnection`] binds a tunnel to at most
//! one running session, and [`supervisor::SSHTunnels`] keeps the ordered
//! collection that callers list and toggle. [`laws`] and [`lifetime`] state
//! what holds of them whatever the order of calls: above all that no tunnel
//! is served by two processes at once, and that a process which has ended is
//! never listed as connected.
//!
//! Beside the tunnels stand the listing of the pod's containers
//! ([`containers`]), the health shown for the configured services
//! ([`healthcheck`], [`spring`]), and the values that pass between the
//! dashboard and the command layer ([`commands`], [`config`]).
//!
//! The library starts no process and reads no file. Where a process has to
//! be started it says so in a result, and takes the outcome in a later call.

pub mod commands;
pub mod config;
pub mod connection;
pub mod containers;
pub mod healthcheck;
pub mod laws;
pub mod lifetime;
pub mod signal;
pub mod spring;
pub mod supervisor;
pub mod text;
pub mod tunnel;
