//! Prints how much time has passed since the Unix epoch, in a chosen unit
//! and phrasing. The library resolves the command line, scales a clock
//! reading and builds every text the program prints.

pub mod clock;
pub mod paint;
pub mod report;
pub mod settings;
pub mod text;

pub use clock::{read_clock, scale, ClockError, Elapsed, NANOS_PER_SECOND};
pub use report::{
    help_text, render_time, run, time_report, version_text, PROGRAM_PREFIX, VERSION,
};
pub use settings::{classify, resolve, Action, Flag, Settings, TimeUnit, Verbosity};
pub use text::{decimal_text, same_text};
