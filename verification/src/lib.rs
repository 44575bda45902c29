//! Persistence rules and window presentation modes of a cycle planner.
//!
//! The planner keeps an index of cycles and, in the folder of each cycle, a
//! file with its goals, works and tasks. This library holds the rules of
//! that store and the state machine behind the window's presentation modes.
//! It performs no input or output: callers read files and observe the
//! window, hand over what they found, and carry out what is handed back.

pub mod cycle_store;
pub mod error;
pub mod ident;
pub mod index_store;
pub mod model;
pub mod opacity;
pub mod outside;
pub mod paths;
pub mod text;
pub mod window_mode;

pub use error::{ErrorKind, StoreError};
pub use ident::{format_timestamp, now_iso, uid, uid_from, Ambient};
pub use model::{CycleData, CycleMeta, IndexData};
pub use opacity::{clamp_opacity, OPACITY_MAX_BITS, OPACITY_MIN_BITS};
pub use paths::{
    app_data_dir, cycle_file_path, index_file_path, normalize_display_path, normalize_path_for,
    platform_has_verbatim_paths, sanitize_folder_name,
};
pub use cycle_store::{ensure_cycle_data, save_cycle_data, CycleRecord, EnsuredCycle};
pub use index_store::{
    create_cycle, find_cycle, import_cycle, load_index, lookup_cycle, new_cycle_id, select_cycle,
    CreatedCycle,
};
pub use window_mode::{
    toggle_maximize, CompactMode, WindowEffect, WindowGeometry, WindowMode, WindowModeController,
};
