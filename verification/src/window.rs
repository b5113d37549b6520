//! The windowing capability and the frame loop: a window owns the native
//! surface, presents frames, and delivers queued input/window events; the
//! loop alternates rendering callbacks with exhaustive event draining and
//! performs one implicit reaction, the viewport update on resize.

use vstd::prelude::*;

verus! {

/// One event delivered by the windowing layer, as plain values.
#[derive(Debug, Copy, Clone, PartialEq, Eq)]
pub enum WindowEvent {
    /// The window was resized to the given drawable dimensions.
    Resized { width: i32, height: i32 },
    /// The user asked to close the window.
    CloseRequested,
    /// A key went down, identified by the windowing layer's key code.
    KeyDown { keycode: i32 },
    /// Any other event; delivered so a handler may count or ignore it.
    Other,
}

/// One presentation-ordering-relevant call made on the windowing layer:
/// the calls the frame loop's sequencing contract speaks of.
#[derive(Debug, Copy, Clone, PartialEq, Eq)]
pub enum WindowCall {
    /// The front and back buffers were swapped: one frame was presented.
    SwapBuffers,
    /// The backend viewport was set to the given dimensions.
    Viewport { width: i32, height: i32 },
}

/// Capability contract for the window owning the native surface, the
/// rendering context and the event source. `ContextType` is the duplicable
/// backend handle the window can hand out.
pub trait AWindow<ContextType>: Sized {
    /// The windowing layer's failure type.
    type ErrorType;

    /// The presentation-relevant calls made on this window so far. The
    /// default model is the empty trace; a window whose calls are
    /// reasoned about overrides it.
    open spec fn trace(&self) -> Seq<WindowCall> {
        Seq::empty()
    }

    /// The events currently queued for delivery, oldest first. The
    /// default model is the empty queue; a window whose queue is
    /// reasoned about overrides it.
    open spec fn pending(&self) -> Seq<WindowEvent> {
        Seq::empty()
    }

    /// Sets the window title. Not presentation-relevant.
    fn set_title(&mut self, title: &str) -> (r: Result<(), Self::ErrorType>)
        ensures
            final(self).trace() == old(self).trace(),
            final(self).pending() == old(self).pending(),
    ;

    /// Sets the window size. Not presentation-relevant (a resize event, if
    /// any, arrives through the queue).
    fn set_size(&mut self, size: (usize, usize)) -> (r: Result<(), Self::ErrorType>)
        ensures
            final(self).trace() == old(self).trace(),
            final(self).pending() == old(self).pending(),
    ;

    /// Hides the window. Not presentation-relevant. (The windowing term
    /// for this is "hide", which is a reserved word here.)
    fn hide_window(&mut self) -> (r: Result<(), Self::ErrorType>)
        ensures
            final(self).trace() == old(self).trace(),
            final(self).pending() == old(self).pending(),
    ;

    /// A duplicable handle to the backend capability bound to this
    /// window's rendering context, if the window has one.
    fn ctx(&mut self) -> (c: Option<ContextType>)
        ensures
            final(self).trace() == old(self).trace(),
            final(self).pending() == old(self).pending(),
    ;

    /// Swaps the front and back buffers, presenting the frame rendered so
    /// far; blocks until the backend accepts the frame.
    fn swap_buffers(&mut self)
        ensures
            final(self).trace() == old(self).trace().push(WindowCall::SwapBuffers),
            final(self).pending() == old(self).pending(),
    ;

    /// Updates the backend viewport to the given dimensions.
    fn set_viewport(&mut self, width: i32, height: i32)
        ensures
            final(self).trace() == old(self).trace().push(WindowCall::Viewport { width, height }),
            final(self).pending() == old(self).pending(),
    ;

    /// Takes the oldest queued event, or reports the queue empty. Polling
    /// makes no presentation-relevant call.
    fn poll_event(&mut self) -> (e: Option<WindowEvent>)
        ensures
            final(self).trace() == old(self).trace(),
            (match e {
                Some(ev) => old(self).pending().len() > 0 && ev == old(self).pending()[0]
                    && final(self).pending() == old(self).pending().drop_first(),
                None => old(self).pending().len() == 0 && final(self).pending() == old(self).pending(),
            }),
    ;
}

/// The three per-frame callbacks the loop drives, holding the caller's
/// per-frame state. Returning `true` from any of them stops the loop at
/// that boundary.
///
/// A callback renders through whatever backend capability it holds; the
/// window's presentation state is not its to change. It neither presents
/// a frame nor updates the viewport nor consumes or enqueues events —
/// exactly the position of the original callbacks, which cannot reach
/// the buffer swap or the event pump. This is what lets the frame loop's
/// contract pin, per exit, what happened to the window.
pub trait LoopHandler<ContextType, W: AWindow<ContextType>>: Sized {
    /// Runs before the buffer swap; renders the frame to present.
    fn pre_render(&mut self, window: &mut W) -> (stop: bool)
        ensures
            final(window).trace() == old(window).trace(),
            final(window).pending() == old(window).pending(),
    ;

    /// Runs after the buffer swap, before events are drained.
    fn post_render(&mut self, window: &mut W) -> (stop: bool)
        ensures
            final(window).trace() == old(window).trace(),
            final(window).pending() == old(window).pending(),
    ;

    /// Sees one drained event; for a resize event, the viewport has
    /// already been updated when this runs.
    fn handle_event(&mut self, window: &mut W, event: WindowEvent) -> (stop: bool)
        ensures
            final(window).trace() == old(window).trace(),
            final(window).pending() == old(window).pending(),
    ;
}

/// Which checked boundary stopped the loop.
#[derive(Debug, Copy, Clone, PartialEq, Eq)]
pub enum LoopExit {
    /// `pre_render` signalled stop, before any rendering or event work of
    /// that iteration.
    PreRender,
    /// `post_render` signalled stop.
    PostRender,
    /// `handle_event` signalled stop; remaining queued events were left
    /// undrained.
    Event,
}

/// The implicit reaction one event provokes from the loop: a resize event
/// is exactly one viewport update with the event's dimensions, any other
/// event is no backend call at all.
pub open spec fn event_reaction(event: WindowEvent) -> Seq<WindowCall> {
    match event {
        WindowEvent::Resized { width, height } => seq![WindowCall::Viewport { width, height }],
        _ => seq![],
    }
}

/// The implicit reactions a sequence of drained events provokes, in the
/// order the events were drained.
pub open spec fn reaction_calls(events: Seq<WindowEvent>) -> Seq<WindowCall>
    decreases events.len(),
{
    if events.len() == 0 {
        seq![]
    } else {
        event_reaction(events[0]) + reaction_calls(events.drop_first())
    }
}

/// Draining one more event appends exactly that event's reaction.
pub proof fn lemma_reaction_calls_push(events: Seq<WindowEvent>, event: WindowEvent)
    ensures
        reaction_calls(events.push(event)) == reaction_calls(events) + event_reaction(event),
    decreases events.len(),
{
    if events.len() == 0 {
        assert(events.push(event)[0] == event);
        assert(events.push(event).drop_first() =~= events);
        assert(reaction_calls(events.push(event)) =~= reaction_calls(events) + event_reaction(
            event,
        ));
    } else {
        assert(events.push(event)[0] == events[0]);
        assert(events.push(event).drop_first() =~= events.drop_first().push(event));
        lemma_reaction_calls_push(events.drop_first(), event);
        assert(reaction_calls(events.push(event)) =~= reaction_calls(events) + event_reaction(
            event,
        ));
    }
}

/// The window state after an iteration that the event handler stopped at
/// the `k`-th queued event: the frame was presented by exactly one buffer
/// swap, the first `k` events were drained with their implicit reactions
/// performed in order — the `k`-th included, whatever the handler
/// returned — and exactly the undrained suffix of the queue remains.
pub open spec fn event_stop_state(
    t0: Seq<WindowCall>,
    t1: Seq<WindowCall>,
    q0: Seq<WindowEvent>,
    q1: Seq<WindowEvent>,
    k: int,
) -> bool {
    &&& 0 < k <= q0.len()
    &&& t1 == t0.push(WindowCall::SwapBuffers) + reaction_calls(q0.take(k))
    &&& q1 == q0.skip(k)
}

/// The loop's implicit reaction to one event, performed before the
/// caller's handler sees it: exactly [`event_reaction`] of the event —
/// one viewport update with a resize event's dimensions, no backend call
/// for any other event.
pub fn viewport_reaction<ContextType, W: AWindow<ContextType>>(window: &mut W, event: &WindowEvent)
    ensures
        final(window).trace() == old(window).trace() + event_reaction(*event),
        final(window).pending() == old(window).pending(),
{
    match event {
        WindowEvent::Resized { width, height } => {
            window.set_viewport(*width, *height);
            proof {
                assert(window.trace() =~= old(window).trace() + event_reaction(*event));
            }
        },
        _ => {
            proof {
                assert(window.trace() =~= old(window).trace() + event_reaction(*event));
            }
        },
    }
}

/// One iteration of the single-threaded frame loop, in this exact order:
/// run `pre_render` (stop here terminates before any rendering or event
/// work of the iteration — the window is untouched); swap the buffers
/// exactly once, presenting what was rendered; run `post_render`; then
/// drain the queued events one by one, performing each event's implicit
/// viewport reaction before the handler sees it and regardless of what
/// the handler returns, and stopping immediately — remaining events
/// undrained — when the handler signals stop. When no callback stops the
/// iteration, the queue has been drained exhaustively; no event is
/// re-delivered or buffered across iterations. The contract states all of
/// this per exit, over the window's trace and queue. The blocking loop
/// itself is the host's `loop` around this function, run until it reports
/// an exit: looping without bound is outside what the verifier admits,
/// the iteration's sequencing is not.
pub fn run_frame<ContextType, W: AWindow<ContextType>, H: LoopHandler<ContextType, W>>(
    window: &mut W,
    handler: &mut H,
) -> (exit: Option<LoopExit>)
    ensures
        (match exit {
            Some(LoopExit::PreRender) => final(window).trace() == old(window).trace()
                && final(window).pending() == old(window).pending(),
            Some(LoopExit::PostRender) => final(window).trace() == old(window).trace().push(
                WindowCall::SwapBuffers,
            ) && final(window).pending() == old(window).pending(),
            Some(LoopExit::Event) => exists|k: int|
                #[trigger] event_stop_state(
                    old(window).trace(),
                    final(window).trace(),
                    old(window).pending(),
                    final(window).pending(),
                    k,
                ),
            None => final(window).trace() == old(window).trace().push(WindowCall::SwapBuffers)
                + reaction_calls(old(window).pending())
                && final(window).pending() == Seq::<WindowEvent>::empty(),
        }),
{
    if handler.pre_render(window) {
        return Some(LoopExit::PreRender);
    }
    window.swap_buffers();
    if handler.post_render(window) {
        return Some(LoopExit::PostRender);
    }
    let ghost t_swapped = window.trace();
    let ghost q0 = window.pending();
    let ghost mut drained: int = 0;
    proof {
        assert(q0.take(0) =~= Seq::<WindowEvent>::empty());
        assert(t_swapped + reaction_calls(q0.take(0)) =~= t_swapped);
    }
    loop
        invariant
            0 <= drained <= q0.len(),
            window.trace() == t_swapped + reaction_calls(q0.take(drained)),
            window.pending() == q0.skip(drained),
            t_swapped == old(window).trace().push(WindowCall::SwapBuffers),
            q0 == old(window).pending(),
        decreases q0.len() - drained,
    {
        let polled = window.poll_event();
        match polled {
            None => {
                proof {
                    assert(q0.skip(drained).len() == 0);
                    assert(drained == q0.len());
                    assert(q0.take(drained) =~= q0);
                    assert(q0.skip(drained) =~= Seq::<WindowEvent>::empty());
                }
                return None;
            },
            Some(event) => {
                proof {
                    assert(event == q0.skip(drained)[0]);
                    assert(event == q0[drained]);
                    assert(q0.skip(drained).drop_first() =~= q0.skip(drained + 1));
                }
                viewport_reaction(window, &event);
                proof {
                    assert(q0.take(drained + 1) =~= q0.take(drained).push(q0[drained]));
                    lemma_reaction_calls_push(q0.take(drained), q0[drained]);
                    assert(window.trace() =~= t_swapped + reaction_calls(q0.take(drained + 1)));
                    drained = drained + 1;
                }
                if handler.handle_event(window, event) {
                    proof {
                        assert(event_stop_state(
                            old(window).trace(),
                            window.trace(),
                            q0,
                            window.pending(),
                            drained,
                        ));
                    }
                    return Some(LoopExit::Event);
                }
            },
        }
    }
}

/// A minimal event handler: renders nothing, touches nothing, and stops
/// the loop exactly when the user asks to close the window. Usable as-is
/// by a host that only needs an orderly shutdown, and the in-crate
/// witness that the callback contracts are satisfiable.
pub struct QuitOnClose;

impl<ContextType, W: AWindow<ContextType>> LoopHandler<ContextType, W> for QuitOnClose {
    fn pre_render(&mut self, window: &mut W) -> (stop: bool) {
        false
    }

    fn post_render(&mut self, window: &mut W) -> (stop: bool) {
        false
    }

    fn handle_event(&mut self, window: &mut W, event: WindowEvent) -> (stop: bool) {
        match event {
            WindowEvent::CloseRequested => true,
            _ => false,
        }
    }
}

} // verus!
