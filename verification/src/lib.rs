//! A process-wide singleton lifecycle core for a telemetry handle.
//!
//! The library centers on a reusable global slot: a container that is
//! materialized once and whose contents (an optional value) may be replaced
//! any number of times afterwards. Two such slots cooperate in a two-phase
//! construction protocol: one stages a [`foo::Builder`], the other holds the
//! built [`foo::Foo`] instance that recording call sites look up. Installing
//! a new builder always tears the live instance down first, so a reader can
//! never observe a stale instance next to a newer builder.
//!
//! The metric registry modules hold the static descriptor tables that the
//! telemetry instance is configured with: pure data, built deterministically.

pub mod foo;
pub mod internal_metrics;
pub mod slot;
