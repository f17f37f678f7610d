//! The identifiers of the voice-generation models.

pub mod elevanlabs_models;
