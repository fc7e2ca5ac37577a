//! Shortwave's core: the station catalogue and the decisions that drive the
//! user interface, verified with Verus.
pub mod app;
pub mod chars;
pub mod client;
pub mod library;
pub mod pages;
pub mod station;
pub mod station_model;
pub mod station_sorter;
pub mod text;
pub mod ui;
pub mod window;
