//! In-memory registry of captive-wildlife assets: a closed species catalog
//! with derived diets, per-asset feeding and lifecycle ledgers, and an
//! identity-keyed repository with create / fetch / rename / delete.

pub mod asset;
pub mod diet;
pub mod lifecycle_builder;
mod platform;
pub mod repository;
pub mod vitals;

