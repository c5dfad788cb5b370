//! A GPU object model: typed registries that hand out integer handles for
//! instances, adapters, devices and surfaces, the choice of an adapter by
//! power preference, and the opening of a logical device on it.
//!
//! The graphics backend is `gfx-hal` with the `gfx-backend-empty` mock. Every
//! call into it goes through `backend`; everything else is verified.
//!
//! A function that touches several registries takes them in one fixed order:
//! instances, adapters, devices, surfaces. A caller that guards each registry
//! with its own lock acquires the locks in the order of the parameters.

pub mod error;
pub mod registry;
pub mod instance;
pub mod adapter;
pub mod backend;
pub mod device;
pub mod surface;
pub mod framework;
