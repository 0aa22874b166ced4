//! Deterministic, reversible binomial names for (date, index, salt) triples.
pub mod config;
pub mod data;
pub mod date;
pub mod decoder;
pub mod formatter;
pub mod generator;
pub mod phonotactics;
pub mod pronounceability;
pub mod text;
