//! Configuration acquisition for the LiveU stats bot: the persisted JSON
//! schema, the field validators and the interactive setup wizard.
pub mod config;
pub mod json;
pub mod validate;
pub mod wizard;


pub use config::{Config, CustomUnitNames, Error, Liveu, Rtmp, Twitch};
pub use json::Json;
pub use validate::{gate_answer, normalize_oauth, parse_cooldown};
pub use wizard::{Step, Wizard};
