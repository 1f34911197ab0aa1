pub mod text;
pub mod seqs;
pub mod log_markers;
pub mod log_parsers;
pub mod capture_errors;
pub mod settings;
pub mod state;
pub mod engine_policy;
pub mod startup;
pub mod process;
pub mod process_metrics;
pub mod permissions;
pub mod permission_assist;
pub mod encoding;
pub mod events;
pub mod hotkeys;
pub mod runtime;
pub mod guard;
pub mod restart_policy;
pub mod recovery;
pub mod pipeline;
pub mod save_queue;
pub mod projection;
pub mod readiness;
pub mod replay_window;
pub mod segment_stats;
pub mod write_order;
pub mod capture_args;
pub mod capture_control;
pub mod capture_start;
pub mod log_tail;
pub mod save_flow;
pub mod post_save;
pub mod mic_watch;
pub mod settings_apply;
pub mod buffer;
pub mod watchdog;
