//! Terminal spinner core: frame-cycling animation engine, one-shot stop
//! handshake, and the line-rendering protocol.
//!
//! The library holds the decision and rendering logic of a spinner: which
//! frame to draw on each tick, how a stop signal (or a disconnected
//! controller) ends the animation, and the exact text written for every
//! redraw and for the final line. Threads, clocks and terminal writes live
//! outside the library; they feed the engine plain events and timestamps in
//! milliseconds and carry the rendered strings to the output stream.

mod builder;
mod control;
mod engine;
mod render;
mod stream;
mod variant;

pub use builder::default_frames;
pub use builder::default_interval_ms;
pub use builder::SpinnerBuilder;
pub use control::closing_of;
pub use control::plan_stop;
pub use control::signal_symbol_of;
pub use control::StopKind;
pub use control::StopPlan;
pub use stream::Stream;

pub use engine::animation_lines;
pub use engine::annotation_time;
pub use engine::chosen_frame;
pub use engine::event_stops;
pub use engine::first_stop_at;
pub use engine::index_after;
pub use engine::lemma_frames_cycle;
pub use engine::lemma_next_index_mod;
pub use engine::next_index;
pub use engine::Engine;
pub use engine::run_lines;
pub use engine::PollEvent;
pub use engine::StopSignal;
pub use engine::Tick;

pub use render::annotation_of;
pub use render::clear_seq;
pub use render::dec_seq;
pub use render::decimal;
pub use render::digit_char;
pub use render::elapsed_millis;
pub use render::elapsed_seq;
pub use render::elapsed_text;
pub use render::lemma_elapsed_monotone;
pub use render::line_seq;
pub use render::render_line;
pub use render::stop_line;
pub use render::stop_seq;
pub use variant::SpinnerVariant;
pub use variant::VariantError;
