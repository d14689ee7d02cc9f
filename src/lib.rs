//! Live-reloading application configuration: settings that locate the
//! configuration file, a store holding the current snapshot, and the
//! decision core of the watch loop that reloads, compares and reports.

mod settings;
mod store;
mod watcher;

pub use settings::{
    io_error, join_path, join_path_spec, write_config_template, ConfigDir, ConfigSettings, Format,
    Label, TemplateRenderer,
};
pub use store::ConfigStore;
pub use watcher::{
    apply_spec, lemma_cancel_is_terminal, lemma_equal_reload_is_silent, lemma_failure_is_isolated,
    lemma_run_append, lemma_stopped_is_terminal, lemma_update_matches_snapshots, reload_spec,
    run_spec, wake_spec, ConfigUpdate, LoopAction, ServicePhase, Stimulus, Wake, WatchCore,
    WatchEvent,
};
