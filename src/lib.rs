//! Change-triggered image transformation pipeline.
//!
//! The library holds the settings model and its merge rules, the reading of
//! the settings out of a parsed configuration document, the fixed order of
//! transformation jobs, the change detector, the per-file pipeline executor
//! and the run loop that drives them. Each of them is a verified state
//! machine or function; the program around it performs the file reads,
//! writes and sleeps that they ask for.
pub mod config;
pub mod detector;
pub mod error_change;
pub mod executor;
pub mod jobs;
pub mod mode;
pub mod paths;
pub mod picture;
pub mod run_loop;
pub mod settings;
pub mod watched;

pub use config::{parse_config, ConfigEntry, ConfigValue};
pub use detector::{Timestamp, WatchState};
pub use error_change::ChangeError;
pub use executor::{Execution, Outcome, Request, Stage};
pub use jobs::{build_jobs, resize_target, Job};
pub use mode::Mode;
pub use paths::{derived_output_path, min_output_path, PathPart};
pub use picture::Picture;
pub use run_loop::{Action, Phase, RunLoop};
pub use settings::{
    file_share_or_combine, FileWatch, ImgEditJobs, Resize, ResizeFilter, Settings, SharedSettings,
    Size,
};
pub use watched::{watched_files, WatchedFile};
