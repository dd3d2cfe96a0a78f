//! The animation engine: a state machine that, tick by tick, chooses the
//! frame to draw, renders the redraw line, advances through the variant's
//! frames with wrap-around, and ends the loop the moment a stop signal or
//! a disconnected controller is observed. The surrounding runtime owns the
//! thread, the clock and the output stream; it feeds each tick the polled
//! event and the current time and performs the write and the sleep the
//! tick asks for.

use vstd::prelude::*;

use crate::render;
use crate::variant::SpinnerVariant;

verus! {

/// The one-shot payload a controller sends to end the animation: the stop
/// timestamp and, optionally, a symbol that replaces the last frame.
#[derive(Debug, Clone)]
pub struct StopSignal {
    /// Milliseconds timestamp at which the stop was issued; the last
    /// redraw's elapsed annotation is computed against it.
    pub stop_ms: u64,
    /// Replacement for the final animation frame, if any.
    pub symbol: Option<String>,
}

/// What one poll of the stop channel observed.
#[derive(Debug, Clone)]
pub enum PollEvent {
    /// Nothing arrived: keep animating.
    Empty,
    /// A stop signal arrived: draw once more, then stop.
    Signal(StopSignal),
    /// The controller side is gone without a signal: treat as a stop with
    /// no replacement symbol and no stop timestamp.
    Disconnected,
}

/// What one tick asks the runtime to do: write `line` to the stream, then
/// either stop the loop or sleep `sleep_ms` milliseconds and tick again.
#[derive(Debug, Clone)]
pub struct Tick {
    /// The full redraw line to write.
    pub line: String,
    /// True when this tick's write is the loop's last.
    pub stop: bool,
    /// How long to sleep before the next tick; zero when stopping.
    pub sleep_ms: u64,
}

/// The animation state owned by the background task: the variant and
/// message it was started with, the optional start timestamp for elapsed
/// annotations, the current frame position, and whether a stop has been
/// observed.
#[derive(Debug)]
pub struct Engine {
    /// The frames and interval being animated.
    pub variant: SpinnerVariant,
    /// The message drawn after each frame.
    pub message: String,
    /// Start timestamp in milliseconds, present only when elapsed-time
    /// annotation is enabled.
    pub start_ms: Option<u64>,
    /// Index of the frame the next tick will draw.
    pub index: usize,
    /// True once a tick observed a stop; no further tick is allowed.
    pub finished: bool,
}

/// The index that follows `i` in a cycle of `len` frames: one step
/// forward, wrapping to the first frame after the last.
pub open spec fn next_index(i: int, len: int) -> int {
    if i + 1 == len {
        0
    } else {
        i + 1
    }
}

/// The frame index reached from `start` after `steps` animating ticks in
/// a cycle of `len` frames.
pub open spec fn index_after(start: int, steps: nat, len: int) -> int
    decreases steps,
{
    if steps == 0 {
        start
    } else {
        next_index(index_after(start, (steps - 1) as nat, len), len)
    }
}

/// The frame a tick draws: the signal's replacement symbol when one was
/// carried, else the frame at the current position.
pub open spec fn chosen_frame(frames: Seq<Seq<char>>, index: int, event: PollEvent) -> Seq<char> {
    match event {
        PollEvent::Signal(sig) => match sig.symbol {
            Option::Some(s) => s@,
            Option::None => frames[index],
        },
        _ => frames[index],
    }
}

/// Whether an observed event ends the loop: anything but an empty poll.
pub open spec fn event_stops(event: PollEvent) -> bool {
    !(event is Empty)
}

/// The timestamp the tick's elapsed annotation is computed against: the
/// signal's stop timestamp when one arrived, else the current time.
pub open spec fn annotation_time(event: PollEvent, now_ms: u64) -> u64 {
    match event {
        PollEvent::Signal(sig) => sig.stop_ms,
        _ => now_ms,
    }
}

impl Engine {
    /// The engine is well formed while its variant is and its frame index
    /// is in range; every tick preserves this.
    pub open spec fn wf(&self) -> bool {
        self.variant.wf() && self.index < self.variant.frames_spec().len()
    }

    /// Starts the animation state at the first frame.
    pub fn new(variant: SpinnerVariant, message: String, start_ms: Option<u64>) -> (e: Engine)
        requires
            variant.wf(),
        ensures
            e.wf(),
            !e.finished,
            e.index == 0,
            e.variant == variant,
            e.message == message,
            e.start_ms == start_ms,
    {
        Engine { variant, message, start_ms, index: 0, finished: false }
    }

    /// One pass of the animation loop. Renders exactly one redraw line:
    /// the current frame, or the signal's replacement symbol if one
    /// arrived. A stop signal or a disconnect makes this the last tick —
    /// the engine is finished, and the runtime must not sleep but exit
    /// right after the write. Otherwise the engine advances one frame,
    /// wrapping after the last, and asks for one interval of sleep.
    pub fn tick(&mut self, event: &PollEvent, now_ms: u64) -> (t: Tick)
        requires
            old(self).wf(),
            !old(self).finished,
        ensures
            final(self).wf(),
            t.line@ == render::line_seq(
                chosen_frame(old(self).variant.frames_spec(), old(self).index as int, *event),
                old(self).message@,
                render::annotation_of(old(self).start_ms, annotation_time(*event, now_ms)),
            ),
            t.stop == event_stops(*event),
            final(self).finished == event_stops(*event),
            t.sleep_ms == if event_stops(*event) {
                0u64
            } else {
                old(self).variant.interval_spec()
            },
            final(self).index == if event_stops(*event) {
                old(self).index as int
            } else {
                next_index(old(self).index as int, old(self).variant.frames_spec().len() as int)
            },
            final(self).variant == old(self).variant,
            final(self).message == old(self).message,
            final(self).start_ms == old(self).start_ms,
    {
        let (stopping, annot_ms) = match event {
            PollEvent::Empty => (false, now_ms),
            PollEvent::Signal(sig) => (true, sig.stop_ms),
            PollEvent::Disconnected => (true, now_ms),
        };
        let frame: &str = match event {
            PollEvent::Signal(sig) => match &sig.symbol {
                Option::Some(s) => s.as_str(),
                Option::None => self.variant.frame_at(self.index).as_str(),
            },
            _ => self.variant.frame_at(self.index).as_str(),
        };
        let line = render::render_line(frame, self.message.as_str(), self.start_ms, annot_ms);
        let sleep_ms: u64 = if stopping {
            0
        } else {
            self.variant.interval_ms()
        };
        if stopping {
            self.finished = true;
        } else {
            let count = self.variant.frame_count();
            self.index = if self.index + 1 == count {
                0
            } else {
                self.index + 1
            };
        }
        Tick { line, stop: stopping, sleep_ms }
    }
}

/// Stepping forward from the position `x % len` lands on `(x + 1) % len`:
/// the wrap-around step agrees with modular arithmetic.
pub proof fn lemma_next_index_mod(x: nat, len: int)
    requires
        0 < len,
    ensures
        next_index((x as int) % len, len) == (x as int + 1) % len,
{
    let xi = x as int;
    let prev = xi % len;
    vstd::arithmetic::div_mod::lemma_mod_bound(xi, len);
    vstd::arithmetic::div_mod::lemma_fundamental_div_mod(xi, len);
    let q = xi / len;
    if prev + 1 == len {
        assert(xi + 1 == (q + 1) * len + 0) by (nonlinear_arith)
            requires
                xi == len * q + prev,
                prev + 1 == len,
        ;
        vstd::arithmetic::div_mod::lemma_fundamental_div_mod_converse_mod(xi + 1, len, q + 1, 0);
    } else {
        assert(xi + 1 == q * len + (prev + 1)) by (nonlinear_arith)
            requires
                xi == len * q + prev,
        ;
        vstd::arithmetic::div_mod::lemma_fundamental_div_mod_converse_mod(
            xi + 1,
            len,
            q,
            prev + 1,
        );
    }
}

/// Absent a stop, the rendered frames cycle through the variant's frame
/// list in order, wrapping to the first frame after the last, forever:
/// after any number of animating ticks from any in-range position, the
/// frame index is the start offset plus the number of ticks, modulo the
/// number of frames.
pub proof fn lemma_frames_cycle(start: int, steps: nat, len: int)
    requires
        0 < len,
        0 <= start < len,
    ensures
        index_after(start, steps, len) == (start + steps) % len,
    decreases steps,
{
    if steps == 0 {
        vstd::arithmetic::div_mod::lemma_small_mod(start as nat, len as nat);
    } else {
        lemma_frames_cycle(start, (steps - 1) as nat, len);
        lemma_next_index_mod((start + steps - 1) as nat, len);
    }
}

/// The redraw lines an undisturbed animation produces, built by running
/// the engine through `ticks` animating passes. Line `i` shows exactly
/// the variant's frame at position `i` modulo the frame count: the
/// animation walks the frame list in order and wraps to the first frame
/// after the last, for as long as no stop arrives.
pub fn animation_lines(variant: SpinnerVariant, message: String, ticks: usize) -> (lines: Vec<
    String,
>)
    requires
        variant.wf(),
    ensures
        lines@.len() == ticks,
        forall|i: int|
            0 <= i < ticks ==> #[trigger] lines@[i]@ == render::line_seq(
                variant.frames_spec()[i % variant.frames_spec().len() as int],
                message@,
                Option::None,
            ),
{
    let ghost frames = variant.frames_spec();
    let ghost len = variant.frames_spec().len() as int;
    let mut engine = Engine::new(variant, message, Option::None);
    let mut lines: Vec<String> = Vec::new();
    let mut i: usize = 0;
    proof {
        vstd::arithmetic::div_mod::lemma_small_mod(0, len as nat);
    }
    while i < ticks
        invariant
            i <= ticks,
            engine.wf(),
            !engine.finished,
            engine.start_ms is None,
            engine.variant.frames_spec() == frames,
            engine.message@ == message@,
            len == frames.len(),
            0 < len,
            engine.index == i as int % len,
            lines@.len() == i,
            forall|j: int|
                0 <= j < i ==> #[trigger] lines@[j]@ == render::line_seq(
                    frames[j % len],
                    message@,
                    Option::None,
                ),
        decreases ticks - i,
    {
        let tick = engine.tick(&PollEvent::Empty, 0);
        lines.push(tick.line);
        proof {
            lemma_next_index_mod(i as nat, len);
        }
        i = i + 1;
    }
    lines
}

/// Holds when position `k` carries the run's first stopping event: the
/// event at `k` ends the loop and no earlier one does.
pub open spec fn first_stop_at(events: Seq<PollEvent>, k: int) -> bool {
    &&& 0 <= k < events.len()
    &&& event_stops(events[k])
    &&& forall|j: int| 0 <= j < k ==> !event_stops(events[j])
}

/// The redraw lines the background loop writes when its polls observe the
/// given event stream, each poll `i` sampled at time `times[i]`. The
/// engine writes one line per tick, up to and including the first
/// stopping event, and none after it: a stop operation's signal (or a
/// disconnect) is acted on at the very tick that observes it — the loop
/// neither sleeps again nor writes again once a stop has been observed,
/// so the controller's own final write, issued after this loop has ended,
/// can never race with an animation write.
pub fn run_lines(
    variant: SpinnerVariant,
    message: String,
    start_ms: Option<u64>,
    events: &Vec<PollEvent>,
    times: &Vec<u64>,
) -> (lines: Vec<String>)
    requires
        variant.wf(),
        times@.len() == events@.len(),
    ensures
        lines@.len() <= events@.len(),
        forall|k: int| #[trigger] first_stop_at(events@, k) ==> lines@.len() == k + 1,
        (forall|j: int| 0 <= j < events@.len() ==> !event_stops(events@[j])) ==> lines@.len()
            == events@.len(),
        forall|i: int|
            0 <= i < lines@.len() ==> #[trigger] lines@[i]@ == render::line_seq(
                chosen_frame(
                    variant.frames_spec(),
                    i % variant.frames_spec().len() as int,
                    events@[i],
                ),
                message@,
                render::annotation_of(start_ms, annotation_time(events@[i], times@[i])),
            ),
{
    let ghost frames = variant.frames_spec();
    let ghost len = variant.frames_spec().len() as int;
    let mut engine = Engine::new(variant, message, start_ms);
    let mut lines: Vec<String> = Vec::new();
    let mut i: usize = 0;
    let mut stopped: bool = false;
    proof {
        vstd::arithmetic::div_mod::lemma_small_mod(0, len as nat);
    }
    while i < events.len() && !stopped
        invariant
            i <= events@.len(),
            times@.len() == events@.len(),
            engine.wf(),
            engine.variant.frames_spec() == frames,
            engine.message@ == message@,
            engine.start_ms == start_ms,
            len == frames.len(),
            0 < len,
            engine.finished == stopped,
            !stopped ==> engine.index == i as int % len,
            !stopped ==> forall|j: int| 0 <= j < i ==> !event_stops(events@[j]),
            stopped ==> 1 <= i && event_stops(events@[i - 1]) && (forall|j: int|
                0 <= j < i - 1 ==> !event_stops(events@[j])),
            lines@.len() == i,
            forall|p: int|
                0 <= p < i ==> #[trigger] lines@[p]@ == render::line_seq(
                    chosen_frame(frames, p % len, events@[p]),
                    message@,
                    render::annotation_of(start_ms, annotation_time(events@[p], times@[p])),
                ),
        decreases events@.len() - i,
    {
        let tick = engine.tick(&events[i], times[i]);
        lines.push(tick.line);
        stopped = tick.stop;
        proof {
            lemma_next_index_mod(i as nat, len);
        }
        i = i + 1;
    }
    lines
}

} // verus!
