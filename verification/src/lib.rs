//! Verified core of a chess-move proving pipeline.
//!
//! A pure, deterministic validator classifies a single half-move and commits
//! a fixed-layout public output record.  Around it stand the byte codec for
//! the committed record, an in-memory proving backend that mimics the
//! `setup -> prove -> verify -> decode` lifecycle, and the host orchestrator's
//! fail-closed state machine.

pub mod backend;
pub mod board;
pub mod codec;
pub mod moves;
pub mod orchestrator;
