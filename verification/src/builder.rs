//! Configuration for a spinner: variant, message, elapsed-time annotation
//! and destination stream, gathered before the animation starts.

use vstd::prelude::*;
use vstd::string::StringExecFns;

use crate::stream::Stream;
use crate::variant::SpinnerVariant;

verus! {

/// The frames of the built-in default variant.
pub open spec fn default_frames() -> Seq<Seq<char>> {
    seq!["|"@, "/"@, "-"@, "\\"@]
}

/// The refresh interval of the built-in default variant, in milliseconds.
pub open spec fn default_interval_ms() -> u64 {
    80
}

/// Collects a spinner's configuration: the animation variant, the message
/// drawn beside each frame, whether elapsed time is annotated, and which
/// terminal stream the spinner draws on.
#[derive(Debug, Clone)]
pub struct SpinnerBuilder {
    /// The animation to run.
    pub variant: SpinnerVariant,
    /// The message drawn after each frame.
    pub message: String,
    /// Whether redraws carry an elapsed-time annotation.
    pub timed: bool,
    /// The chosen destination, or none for the default stream.
    pub stream: Option<Stream>,
}

impl SpinnerBuilder {
    /// A builder is well formed while its variant is; every constructor
    /// and setter keeps it so.
    pub open spec fn wf(&self) -> bool {
        self.variant.wf()
    }

    /// Starts a configuration with the built-in default variant, an empty
    /// message, no elapsed-time annotation and the default stream.
    pub fn new() -> (b: SpinnerBuilder)
        ensures
            b.wf(),
            b.variant.frames_spec() == default_frames(),
            b.variant.interval_spec() == default_interval_ms(),
            b.message@ == Seq::<char>::empty(),
            !b.timed,
            b.stream is None,
    {
        let mut frames: Vec<String> = Vec::new();
        frames.push(String::from_str("|"));
        frames.push(String::from_str("/"));
        frames.push(String::from_str("-"));
        frames.push(String::from_str("\\"));
        proof {
            assert(frames.deep_view() =~= default_frames());
        }
        let variant = SpinnerVariant::new(frames, 80).unwrap();
        SpinnerBuilder {
            variant,
            message: String::new(),
            timed: false,
            stream: Option::None,
        }
    }

    /// Selects the animation variant.
    pub fn variant(self, variant: SpinnerVariant) -> (b: SpinnerBuilder)
        requires
            variant.wf(),
        ensures
            b.wf(),
            b.variant == variant,
            b.message == self.message,
            b.timed == self.timed,
            b.stream == self.stream,
    {
        SpinnerBuilder { variant, ..self }
    }

    /// Sets the message displayed along with the spinner.
    pub fn message(self, message: String) -> (b: SpinnerBuilder)
        ensures
            b.wf() == self.wf(),
            b.message == message,
            b.variant == self.variant,
            b.timed == self.timed,
            b.stream == self.stream,
    {
        SpinnerBuilder { message, ..self }
    }

    /// Enables the elapsed-time annotation, timed from the moment the
    /// spinner is started.
    pub fn timer(self) -> (b: SpinnerBuilder)
        ensures
            b.wf() == self.wf(),
            b.timed,
            b.variant == self.variant,
            b.message == self.message,
            b.stream == self.stream,
    {
        SpinnerBuilder { timed: true, ..self }
    }

    /// Selects the output stream.
    pub fn stream(self, stream: Stream) -> (b: SpinnerBuilder)
        ensures
            b.wf() == self.wf(),
            b.stream == Option::Some(stream),
            b.variant == self.variant,
            b.message == self.message,
            b.timed == self.timed,
    {
        SpinnerBuilder { stream: Option::Some(stream), ..self }
    }
}

} // verus!
