//! Runtime primitives for single-threaded, event-driven systems.
#![allow(unused_imports)]

pub mod world;
pub mod shutdown;
pub mod step;
pub mod handler;
pub mod pipeline;
pub mod codegen_audit;
pub mod system;
pub mod topo;
pub mod scheduler;
pub mod driver;
pub mod dag;
pub mod clock;
pub mod components;
pub mod drivers;
pub mod event;
pub mod resource;
pub mod testing;
pub mod combinator;
pub mod adapt;
pub mod callback;
pub mod app;
pub mod mio;
