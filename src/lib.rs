//! Reconstruction of a nested widget tree from a flat stream of widget
//! declarations and out-of-band metadata events.
pub mod dict;
pub mod dsp_type;
pub mod elem;
pub mod label;
pub mod layout;
pub mod metadata;
pub mod text;
pub mod widgets;
