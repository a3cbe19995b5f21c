//! The configuration state: the base configuration, the switches, the
//! profile store and the outcome of the last run, each with its draft.

pub mod clash;
pub mod config;
pub mod draft;
pub mod moon;
pub mod profiles;
pub mod runtime;
pub mod verge;

pub use self::clash::IClashTemp;
pub use self::config::{Config, ConfigError, ConfigFile, ConfigType, CHECK_CONFIG, RUNTIME_CONFIG};
pub use self::draft::Draft;
pub use self::moon::IMoon;
pub use self::profiles::{IProfiles, PrfItem};
pub use self::runtime::IRuntime;
pub use self::verge::IVerge;
