//! Verified core of the DSH Community Installer: the data model, the private
//! directory layout, the runtime pointer and package checks, package-manager
//! progress tracking, update selection and the service and update decisions
//! of the tray controller.

pub mod installation;
pub mod json;
pub mod lifecycle;
pub mod logging;
pub mod lookup;
pub mod model;
pub mod paths;
pub mod pnpm;
pub mod registry;
pub mod runtime;
pub mod service;
pub mod settings;
pub mod text;
pub mod updates;
pub mod versions;
pub mod window_shape;
