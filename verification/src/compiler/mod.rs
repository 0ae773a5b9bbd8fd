pub mod typecheck;
pub mod fields;
pub mod environment;
pub mod declarations;
pub mod hygiene;
pub mod substitution;
pub mod build_config;
pub mod stages;
pub mod pipeline;

pub use build_config::BuildConfig;
pub use fields::canonicalise_field_path;
pub use typecheck::Type;
