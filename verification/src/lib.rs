//! Core of an audio-reactive shader filter.
//!
//! Two subsystems live here: a parameter-staging engine that moves prepared
//! values into graphics-context-bound resources and hands them to per-frame
//! rendering, and a spectral-feature pipeline (Mel filter bank with
//! log-compression and normalization) that turns an FFT magnitude spectrum
//! into texture-ready data for that engine.

pub mod ieee_bits;

pub mod tex_levels;

pub mod mel_utils;

pub mod filter_bank;

pub mod graphics;

pub mod effect_param;

pub mod properties;

pub mod adapters;
