//! The redraw scheduler: the one stateful control component.
//!
//! The scheduler owns the vertex geometry for its whole lifetime and converts
//! the window system's event stream into command sequences. Its behaviour is
//! a function of its phase and the incoming event alone, stated by
//! [`step_phase`] and [`step_commands`]; [`Scheduler::handle_event`] is
//! proved to follow them exactly. Trace-level laws — redraw-request
//! idempotence, resize-before-draw ordering, and release-exactly-once — are
//! proved over whole event sequences below.

use vstd::prelude::*;
use crate::command::Command;
use crate::geometry::{
    CLEAR_ALPHA_BITS, CLEAR_BLUE_BITS, CLEAR_GREEN_BITS, CLEAR_RED_BITS, VERTEX_COUNT,
};
use crate::resources::{is_setup_sequence, VertexGeometry};

verus! {

/// An event delivered by the window system's event source.
#[derive(Clone, Copy, Debug, PartialEq, Eq)]
pub enum Event {
    /// The source finished dispatching every currently pending event.
    AllEventsProcessed,
    /// A previously requested redraw is due.
    RedrawDue,
    /// The surface dimensions changed.
    SurfaceResized { width: u32, height: u32 },
    /// The user asked to close the window.
    CloseRequested,
}

/// The scheduler's abstract state.
pub enum Phase {
    /// The context is live and the geometry is owned and usable.
    /// `redraw_pending` is the level-triggered "a redraw is requested" flag:
    /// requesting while it is already set is a no-op.
    Running { geometry: VertexGeometry, redraw_pending: bool },
    /// Close was handled: geometry released, event source stopped. Terminal;
    /// every later event is ignored.
    Terminating,
}

/// The phase after processing one event.
pub open spec fn step_phase(phase: Phase, event: Event) -> Phase {
    match phase {
        Phase::Running { geometry, redraw_pending } => match event {
            Event::AllEventsProcessed => Phase::Running { geometry, redraw_pending: true },
            Event::RedrawDue => Phase::Running { geometry, redraw_pending: false },
            Event::SurfaceResized { .. } => Phase::Running { geometry, redraw_pending },
            Event::CloseRequested => Phase::Terminating,
        },
        Phase::Terminating => Phase::Terminating,
    }
}

/// The commands emitted while processing one event.
pub open spec fn step_commands(phase: Phase, event: Event) -> Seq<Command> {
    match phase {
        Phase::Running { geometry, redraw_pending } => match event {
            Event::AllEventsProcessed => if redraw_pending {
                Seq::empty()
            } else {
                seq![Command::RequestRedraw]
            },
            Event::RedrawDue => seq![
                Command::ClearColorBuffer,
                (Command::DrawTriangles { first_vertex: 0, vertex_count: VERTEX_COUNT }),
                Command::Present,
            ],
            Event::SurfaceResized { width, height } => seq![
                (Command::Resize { width, height }),
            ],
            Event::CloseRequested => seq![
                (Command::DeleteVertexArray { vao: geometry.vao_id() }),
                (Command::DeleteBuffer { vbo: geometry.vbo_id() }),
                Command::StopEventSource,
            ],
        },
        Phase::Terminating => Seq::empty(),
    }
}

/// The phase after processing a whole event sequence in delivery order.
pub open spec fn run_phase(phase: Phase, events: Seq<Event>) -> Phase
    decreases events.len(),
{
    if events.len() == 0 {
        phase
    } else {
        run_phase(step_phase(phase, events[0]), events.drop_first())
    }
}

/// All commands emitted while processing a whole event sequence in delivery
/// order.
pub open spec fn run_commands(phase: Phase, events: Seq<Event>) -> Seq<Command>
    decreases events.len(),
{
    if events.len() == 0 {
        Seq::empty()
    } else {
        step_commands(phase, events[0]) + run_commands(step_phase(phase, events[0]), events.drop_first())
    }
}

/// The event-driven control component. It owns the geometry while running
/// and releases it exactly once, on the close request.
pub struct Scheduler {
    geometry: Option<VertexGeometry>,
    redraw_pending: bool,
}

impl Scheduler {
    /// The abstract state this scheduler is in.
    pub closed spec fn phase(self) -> Phase {
        match self.geometry {
            Option::Some(geometry) => Phase::Running {
                geometry,
                redraw_pending: self.redraw_pending,
            },
            Option::None => Phase::Terminating,
        }
    }

    /// Builds the scheduler around freshly created GPU handles and returns
    /// the initialization commands: the fixed background color is configured
    /// once, then the geometry setup sequence follows. The scheduler starts
    /// running with no redraw pending.
    pub fn startup(vao: u32, vbo: u32) -> (r: (Scheduler, Vec<Command>))
        ensures
            r.0.phase() matches Phase::Running { geometry, redraw_pending }
                && geometry.vao_id() == vao && geometry.vbo_id() == vbo && !redraw_pending,
            r.1@.len() == 6,
            r.1@[0] == (Command::SetClearColor {
                red_bits: CLEAR_RED_BITS,
                green_bits: CLEAR_GREEN_BITS,
                blue_bits: CLEAR_BLUE_BITS,
                alpha_bits: CLEAR_ALPHA_BITS,
            }),
            is_setup_sequence(r.1@.skip(1), vao, vbo),
    {
        let geometry = VertexGeometry::new(vao, vbo);
        let mut cmds: Vec<Command> = Vec::new();
        cmds.push(Command::SetClearColor {
            red_bits: CLEAR_RED_BITS,
            green_bits: CLEAR_GREEN_BITS,
            blue_bits: CLEAR_BLUE_BITS,
            alpha_bits: CLEAR_ALPHA_BITS,
        });
        let mut setup = geometry.setup_commands();
        cmds.append(&mut setup);
        proof {
            assert(cmds@.skip(1) =~= cmds@.subrange(1, 6));
        }
        let scheduler = Scheduler { geometry: Some(geometry), redraw_pending: false };
        (scheduler, cmds)
    }

    /// Processes one event, following [`step_phase`] and [`step_commands`]
    /// exactly: coalesced redraw requests, clear-draw-present on a due
    /// redraw, a forwarded resize, and on close the one-time release of the
    /// geometry followed by the stop signal. Events after termination are
    /// ignored.
    pub fn handle_event(&mut self, event: Event) -> (cmds: Vec<Command>)
        ensures
            final(self).phase() == step_phase(old(self).phase(), event),
            cmds@ == step_commands(old(self).phase(), event),
    {
        let mut cmds: Vec<Command> = Vec::new();
        match event {
            Event::AllEventsProcessed => {
                if self.geometry.is_some() && !self.redraw_pending {
                    self.redraw_pending = true;
                    cmds.push(Command::RequestRedraw);
                    proof {
                        assert(cmds@ =~= seq![Command::RequestRedraw]);
                    }
                } else {
                    proof {
                        assert(cmds@ =~= step_commands(old(self).phase(), event));
                    }
                }
            }
            Event::RedrawDue => {
                if self.geometry.is_some() {
                    self.redraw_pending = false;
                    cmds.push(Command::ClearColorBuffer);
                    cmds.push(Command::DrawTriangles { first_vertex: 0, vertex_count: VERTEX_COUNT });
                    cmds.push(Command::Present);
                    proof {
                        assert(cmds@ =~= seq![
                            Command::ClearColorBuffer,
                            (Command::DrawTriangles { first_vertex: 0, vertex_count: VERTEX_COUNT }),
                            Command::Present,
                        ]);
                    }
                }
            }
            Event::SurfaceResized { width, height } => {
                if self.geometry.is_some() {
                    cmds.push(Command::Resize { width, height });
                    proof {
                        assert(cmds@ =~= seq![(Command::Resize { width, height })]);
                    }
                }
            }
            Event::CloseRequested => {
                let mut taken: Option<VertexGeometry> = None;
                core::mem::swap(&mut self.geometry, &mut taken);
                match taken {
                    Some(geometry) => {
                        let ghost vao = geometry.vao_id();
                        let ghost vbo = geometry.vbo_id();
                        let mut release = geometry.release_commands();
                        cmds.append(&mut release);
                        cmds.push(Command::StopEventSource);
                        proof {
                            assert(cmds@ =~= seq![
                                (Command::DeleteVertexArray { vao }),
                                (Command::DeleteBuffer { vbo }),
                                Command::StopEventSource,
                            ]);
                        }
                    }
                    None => {}
                }
            }
        }
        cmds
    }

    /// Whether the scheduler has reached its terminal phase.
    pub fn is_terminated(&self) -> (done: bool)
        ensures
            done == (self.phase() is Terminating),
    {
        self.geometry.is_none()
    }
}

/// `n` consecutive end-of-dispatch events.
pub open spec fn repeated_dispatch_events(n: nat) -> Seq<Event> {
    Seq::new(n, |i: int| Event::AllEventsProcessed)
}

/// How many redraw requests `cmds` contains.
pub open spec fn count_redraw_requests(cmds: Seq<Command>) -> nat
    decreases cmds.len(),
{
    if cmds.len() == 0 {
        0
    } else {
        (if cmds[0] is RequestRedraw { 1nat } else { 0nat }) + count_redraw_requests(cmds.drop_first())
    }
}

/// How many vertex-array deletions `cmds` contains.
pub open spec fn count_vertex_array_deletes(cmds: Seq<Command>) -> nat
    decreases cmds.len(),
{
    if cmds.len() == 0 {
        0
    } else {
        (if cmds[0] is DeleteVertexArray { 1nat } else { 0nat }) + count_vertex_array_deletes(cmds.drop_first())
    }
}

/// How many buffer deletions `cmds` contains.
pub open spec fn count_buffer_deletes(cmds: Seq<Command>) -> nat
    decreases cmds.len(),
{
    if cmds.len() == 0 {
        0
    } else {
        (if cmds[0] is DeleteBuffer { 1nat } else { 0nat }) + count_buffer_deletes(cmds.drop_first())
    }
}

/// Whether `events` contains a close request.
pub open spec fn contains_close(events: Seq<Event>) -> bool
    decreases events.len(),
{
    if events.len() == 0 {
        false
    } else {
        events[0] is CloseRequested || contains_close(events.drop_first())
    }
}

proof fn lemma_counts_concat(a: Seq<Command>, b: Seq<Command>)
    ensures
        count_redraw_requests(a + b) == count_redraw_requests(a) + count_redraw_requests(b),
        count_vertex_array_deletes(a + b) == count_vertex_array_deletes(a) + count_vertex_array_deletes(b),
        count_buffer_deletes(a + b) == count_buffer_deletes(a) + count_buffer_deletes(b),
    decreases a.len(),
{
    if a.len() == 0 {
        assert(a + b =~= b);
    } else {
        assert((a + b).drop_first() =~= a.drop_first() + b);
        assert((a + b)[0] == a[0]);
        lemma_counts_concat(a.drop_first(), b);
    }
}

/// Requesting a redraw is idempotent: over any run of consecutive
/// end-of-dispatch events from a running phase, at most one redraw request
/// is issued — none if one was already pending when the run began, exactly
/// one otherwise (for a non-empty run).
pub proof fn lemma_redraw_request_idempotent(phase: Phase, n: nat)
    requires
        phase is Running,
    ensures
        count_redraw_requests(run_commands(phase, repeated_dispatch_events(n))) == (
        if phase->redraw_pending {
            0nat
        } else if n > 0 {
            1nat
        } else {
            0nat
        }),
    decreases n,
{
    let events = repeated_dispatch_events(n);
    if n == 0 {
        assert(events.len() == 0);
    } else {
        let head_cmds = step_commands(phase, events[0]);
        let next = step_phase(phase, events[0]);
        assert(events[0] == Event::AllEventsProcessed);
        assert(events.drop_first() =~= repeated_dispatch_events((n - 1) as nat));
        lemma_redraw_request_idempotent(next, (n - 1) as nat);
        lemma_counts_concat(head_cmds, run_commands(next, events.drop_first()));
        reveal_with_fuel(count_redraw_requests, 3);
        if phase->redraw_pending {
            assert(head_cmds =~= Seq::<Command>::empty());
        } else {
            assert(head_cmds =~= seq![Command::RequestRedraw]);
            assert(seq![Command::RequestRedraw].drop_first() =~= Seq::<Command>::empty());
        }
    }
}

/// Geometry release happens exactly once per lifetime, and only on a close
/// request: a run from a running phase deletes the vertex array exactly once
/// and the buffer exactly once when the events contain a close request, and
/// deletes neither otherwise; a run from the terminating phase never deletes
/// anything. Applied to any prefix of a trace, this also shows that nothing
/// is released before the close request arrives.
pub proof fn lemma_release_exactly_once(phase: Phase, events: Seq<Event>)
    ensures
        count_vertex_array_deletes(run_commands(phase, events)) == (
        if phase is Running && contains_close(events) {
            1nat
        } else {
            0nat
        }),
        count_buffer_deletes(run_commands(phase, events)) == (
        if phase is Running && contains_close(events) {
            1nat
        } else {
            0nat
        }),
    decreases events.len(),
{
    reveal_with_fuel(count_vertex_array_deletes, 5);
    reveal_with_fuel(count_buffer_deletes, 5);
    if events.len() > 0 {
        let head_cmds = step_commands(phase, events[0]);
        let next = step_phase(phase, events[0]);
        lemma_release_exactly_once(next, events.drop_first());
        lemma_counts_concat(head_cmds, run_commands(next, events.drop_first()));
        match phase {
            Phase::Running { redraw_pending, .. } => {
                match events[0] {
                    Event::AllEventsProcessed => {
                        if !redraw_pending {
                            assert(seq![Command::RequestRedraw].drop_first() =~= Seq::<Command>::empty());
                        }
                    }
                    Event::RedrawDue => {
                        assert(head_cmds.drop_first().drop_first() =~= seq![Command::Present]);
                        assert(head_cmds.drop_first().drop_first().drop_first() =~= Seq::<Command>::empty());
                    }
                    Event::SurfaceResized { .. } => {
                        assert(head_cmds.drop_first() =~= Seq::<Command>::empty());
                    }
                    Event::CloseRequested => {
                        assert(head_cmds.drop_first().drop_first() =~= seq![Command::StopEventSource]);
                        assert(head_cmds.drop_first().drop_first().drop_first() =~= Seq::<Command>::empty());
                    }
                }
            }
            Phase::Terminating => {}
        }
    }
}

/// The terminating phase is terminal: however many events are still
/// delivered after it is reached, the scheduler stays terminated and emits
/// nothing.
pub proof fn lemma_terminating_is_terminal(events: Seq<Event>)
    ensures
        run_phase(Phase::Terminating, events) == Phase::Terminating,
        run_commands(Phase::Terminating, events) == Seq::<Command>::empty(),
    decreases events.len(),
{
    if events.len() > 0 {
        lemma_terminating_is_terminal(events.drop_first());
        assert(Seq::<Command>::empty() + Seq::<Command>::empty() =~= Seq::<Command>::empty());
    }
}

/// A resize arriving before a redraw is applied before the draw: processing
/// a surface resize followed by a due redraw emits exactly the resize
/// command, then the clear, the draw and the present — the resize strictly
/// precedes the draw call.
pub proof fn lemma_resize_applied_before_draw(phase: Phase, width: u32, height: u32)
    requires
        phase is Running,
    ensures
        run_commands(phase, seq![(Event::SurfaceResized { width, height }), Event::RedrawDue]) == seq![
            (Command::Resize { width, height }),
            Command::ClearColorBuffer,
            (Command::DrawTriangles { first_vertex: 0, vertex_count: VERTEX_COUNT }),
            Command::Present,
        ],
{
    let events = seq![(Event::SurfaceResized { width, height }), Event::RedrawDue];
    assert(events.drop_first() =~= seq![Event::RedrawDue]);
    assert(seq![Event::RedrawDue].drop_first() =~= Seq::<Event>::empty());
    reveal_with_fuel(run_commands, 4);
    assert(run_commands(phase, events) =~= seq![
        (Command::Resize { width, height }),
        Command::ClearColorBuffer,
        (Command::DrawTriangles { first_vertex: 0, vertex_count: VERTEX_COUNT }),
        Command::Present,
    ]);
}

} // verus!
