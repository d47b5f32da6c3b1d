//! Credential authentication and group-based authorization for the mydex web service.
//!
//! Raw account records that carry a password hash are turned into hash-free identities
//! that carry a session-binding secret instead; permissions come from group membership.

pub mod auth;
pub mod config;
pub mod error;
pub mod permission;
pub mod phc;
pub mod pokedex;
pub mod web;
