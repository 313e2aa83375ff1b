//! Derived-artifact store for a photo catalog: metadata records and their
//! reconciliation with an import manifest, staleness tracking of derived
//! images, derivative sizing, and the scheduling of periodic refreshes.

pub mod text;
pub mod lookup;
pub mod photodata;
pub mod reconcile;
pub mod reconcile_laws;
pub mod group;
pub mod save;
pub mod image;
pub mod exif;
pub mod gui;
