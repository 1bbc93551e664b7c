//! Host side of a sandboxed scripting system for a real-time simulation.
//!
//! Stations and units carry independently compiled guest modules; the host
//! invokes optional guest exports through a fail-soft dispatcher, offers the
//! guests a catalog of import functions over host-owned state, matches a
//! dragged item to the nearest accepting station, grows products on harvest
//! spots, and drives multi-phase timed attack effects.
//!
//! Everything that crosses the guest boundary is a plain number: entity
//! handles travel as 64-bit patterns with one reserved "missing" pattern, and
//! booleans as a single signed byte.  Time is measured in milliseconds and
//! world coordinates in integer units, so that every rule of the host is an
//! exact statement about integers.

pub mod attacks;
pub mod battle;
pub mod commands;
pub mod delivery;
pub mod dispatch;
pub mod geometry;
pub mod harvest;
pub mod imports;
pub mod marshal;
pub mod values;
