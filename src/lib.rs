//! Printtables keeps track of multipart 3D-printing projects.
//!
//! The library holds two subdomains. The inventory keeps reusable parts that can be printed.
//! Projects organise those parts into a bill of materials (BOM): a list of parts and quantities.
//! Every operation is verified against a mathematical model of the relational store it runs on.
pub mod identity;
pub mod inventory;
pub mod laws;
pub mod name;
pub mod part;
pub mod project;
pub mod projects;
pub mod rest;
pub mod store;
pub mod text;
pub mod validation;
pub mod view;
