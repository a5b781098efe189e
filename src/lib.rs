pub mod state;
pub mod text;
pub mod error;
pub mod output;
pub mod container;
pub mod step;
pub mod broker;
pub mod action;
pub mod sequencing;
pub mod dto;
pub mod service;
pub mod request;
pub mod scheduler;
pub mod monitor;
pub mod kernel;
