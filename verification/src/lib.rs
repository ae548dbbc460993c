//! Terminal-output formatting and minimal process introspection for a
//! status-reporting utility: fixed-width status-line rendering over opaque
//! styling, single-unit relative-duration phrasing, and the parsing and
//! outcome rules around a process's command-line record, all stated in
//! contracts and verified.

mod duration;
mod numeral;
mod process;
mod render;
mod style;
mod terminal;
mod trimmer;

pub use duration::duration_phrase;
pub use duration::lemma_unit_selection_monotonic;
pub use duration::relative_duration;
pub use duration::unit_phrase;
pub use duration::unit_rank;
pub use duration::SECS_PER_DAY;
pub use duration::SECS_PER_HOUR;
pub use duration::SECS_PER_MINUTE;
pub use duration::SECS_PER_MONTH;
pub use duration::SECS_PER_WEEK;
pub use duration::SECS_PER_YEAR;
pub use numeral::decimal;
pub use numeral::decimal_string;
pub use process::capture_outcome;
pub use process::cmdline_outcome;
pub use process::cmdline_path;
pub use process::default_proc_root;
pub use process::first_nul_field;
pub use process::parse_cmdline;
pub use process::validate_invocation;
pub use process::ProcessError;
pub use render::composed_status_line;
pub use render::format_status_line;
pub use render::lemma_plain_line_width;
pub use render::padded_field;
pub use render::plain_status_line;
pub use render::pushed_slot;
pub use render::spaces;
pub use render::styled_slot;
pub use render::COMMAND_WIDTH;
pub use render::ENABLED_WIDTH;
pub use render::LINE_WIDTH;
pub use render::NAME_WIDTH;
pub use render::PID_WIDTH;
pub use render::STATE_WIDTH;
pub use render::STATUS_WIDTH;
pub use render::TIME_WIDTH;
pub use style::brackets;
pub use style::ColorStyler;
pub use style::Hue;
pub use style::PlainStyler;
pub use style::Styler;
pub use terminal::should_colorize_output;
pub use trimmer::trim_long_string;
pub use trimmer::trimmed;
