//! The controller's side of the stop handshake: every stop operation
//! converges on one plan — which payload goes into the one-shot signal to
//! the engine, and which final line, if any, the controller writes after
//! the background task has been joined.

use vstd::prelude::*;

use crate::render;

verus! {

/// The stop operation a caller chose.
#[derive(Debug, Clone)]
pub enum StopKind {
    /// Halt with no replacement symbol and no final line.
    Plain,
    /// Halt, then emit a bare newline so later output starts fresh.
    WithNewline,
    /// Halt with the last animation frame replaced by this symbol, then
    /// leave a final line holding the symbol.
    WithSymbol(String),
    /// Halt, then leave a final line holding exactly this message.
    WithMessage(String),
    /// Halt, then leave a final line combining this symbol and message.
    AndPersist(String, String),
}

/// What a stop operation does: the replacement symbol the one-shot signal
/// carries to the engine, and the final line the controller writes once
/// the background task has exited.
#[derive(Debug, Clone)]
pub struct StopPlan {
    /// Symbol the signal carries; only a symbol stop replaces the last
    /// animation frame.
    pub signal_symbol: Option<String>,
    /// The final line to write after the join, if the operation leaves
    /// one.
    pub closing: Option<String>,
}

/// The replacement symbol each stop operation sends to the engine: only
/// the symbol stop carries one.
pub open spec fn signal_symbol_of(kind: StopKind) -> Option<Seq<char>> {
    match kind {
        StopKind::WithSymbol(s) => Option::Some(s@),
        _ => Option::None,
    }
}

/// The final line each stop operation writes after the join: none for a
/// plain stop, a bare newline, the symbol, the message, or both, laid out
/// by the final-line protocol.
pub open spec fn closing_of(kind: StopKind) -> Option<Seq<char>> {
    match kind {
        StopKind::Plain => Option::None,
        StopKind::WithNewline => Option::Some(render::stop_seq(Option::None, Option::None)),
        StopKind::WithSymbol(s) => Option::Some(
            render::stop_seq(Option::Some(s@), Option::None),
        ),
        StopKind::WithMessage(m) => Option::Some(
            render::stop_seq(Option::None, Option::Some(m@)),
        ),
        StopKind::AndPersist(s, m) => Option::Some(
            render::stop_seq(Option::Some(s@), Option::Some(m@)),
        ),
    }
}

/// Turns a chosen stop operation into its plan. At most one signal is
/// ever derived from one plan; the runtime sends it, joins the background
/// task, and only then writes the closing line, so the final write can
/// never race with an animation write.
pub fn plan_stop(kind: StopKind) -> (p: StopPlan)
    ensures
        p.signal_symbol.deep_view() == signal_symbol_of(kind),
        p.closing.deep_view() == closing_of(kind),
{
    match kind {
        StopKind::Plain => StopPlan { signal_symbol: Option::None, closing: Option::None },
        StopKind::WithNewline => StopPlan {
            signal_symbol: Option::None,
            closing: Option::Some(render::stop_line(Option::None, Option::None)),
        },
        StopKind::WithSymbol(s) => {
            let closing = render::stop_line(Option::Some(s.as_str()), Option::None);
            StopPlan { signal_symbol: Option::Some(s), closing: Option::Some(closing) }
        },
        StopKind::WithMessage(m) => StopPlan {
            signal_symbol: Option::None,
            closing: Option::Some(render::stop_line(Option::None, Option::Some(m.as_str()))),
        },
        StopKind::AndPersist(s, m) => StopPlan {
            signal_symbol: Option::None,
            closing: Option::Some(
                render::stop_line(Option::Some(s.as_str()), Option::Some(m.as_str())),
            ),
        },
    }
}

} // verus!
