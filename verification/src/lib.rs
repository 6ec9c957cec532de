//! Rewrites whole-module named imports into path-specific imports.
//!
//! Given a module's top-level statements and a configuration table keyed by
//! import source, the engine replaces each qualifying named import with a
//! member-specific import (and an optional side-effect style import), leaving
//! every other statement unchanged.

pub mod case;
pub mod config;
pub mod engine;
pub mod model;
pub mod template;

pub use case::TransformMember;
pub use config::TransformVisitorConfigs;
pub use config::TransformVisitorSubConfig;
pub use engine::RewriteError;
pub use engine::TransformVisitor;
