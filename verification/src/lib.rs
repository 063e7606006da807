//! Live shell-pipeline runner: the decisions behind an interactive terminal
//! tool that re-runs a typed command whenever it changes and streams its
//! output into a scrollable pane.

pub mod chars;
pub mod cli;
pub mod event;
pub mod event_loop;
pub mod failure;
pub mod pipeline;
pub mod reduce;
pub mod state;
pub mod string_err;
pub mod supervisor;
pub mod throttle;

pub use cli::Cli;
pub use event::Event;
pub use event::Key;
pub use event::MouseButton;
pub use event::UserEvent;
pub use event_loop::content_rows;
pub use event_loop::cursor_position;
pub use event_loop::event_loop_step;
pub use event_loop::frame;
pub use event_loop::Frame;
pub use event_loop::Tick;
pub use event_loop::Wake;
pub use failure::Failure;
pub use pipeline::next_launch_step;
pub use pipeline::plan_pipeline;
pub use pipeline::plan_stages;
pub use pipeline::split_stages;
pub use pipeline::LaunchStep;
pub use pipeline::Pipeline;
pub use pipeline::StageSpec;
pub use pipeline::StdinSource;
pub use reduce::reduce_event;
pub use reduce::Reduction;
pub use state::text;
pub use state::State;
pub use string_err::ToStringResult;
pub use supervisor::after_notify;
pub use supervisor::reader_step;
pub use supervisor::report_failure;
pub use supervisor::Output;
pub use supervisor::ReaderAction;
pub use supervisor::SendOutcome;
pub use supervisor::Submission;
pub use supervisor::Supervisor;
pub use throttle::Throttle;
