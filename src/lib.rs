pub mod command;
pub mod device;
pub mod opts;
pub mod profile;
pub mod startup;
pub mod station;
pub mod text;
pub mod web;
