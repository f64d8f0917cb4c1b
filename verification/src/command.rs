use vstd::prelude::*;

use crate::vertex::DrawEvent;
use crate::vertex::Vertex;

verus! {

/// The kind of a draw command; decides the rasterization topology and how
/// many vertices one primitive instance consumes.
#[derive(Clone, Copy, Debug, PartialEq, Eq, Structural)]
pub enum DrawPrimitive {
    /// A single point.
    Point,
    /// A line over two endpoints.
    Line,
    /// A triangle over three corners.
    Triangle,
}

impl DrawPrimitive {
    /// How many vertices one primitive instance of this kind consumes:
    /// one per point, two per line, three per triangle.
    pub open spec fn spec_vertex_count(self) -> u32 {
        match self {
            DrawPrimitive::Point => 1,
            DrawPrimitive::Line => 2,
            DrawPrimitive::Triangle => 3,
        }
    }

    /// How many vertices one primitive instance of this kind consumes.
    #[verifier::when_used_as_spec(spec_vertex_count)]
    pub fn vertex_count(self) -> (n: u32)
        ensures
            n == self.spec_vertex_count(),
    {
        match self {
            DrawPrimitive::Point => 1,
            DrawPrimitive::Line => 2,
            DrawPrimitive::Triangle => 3,
        }
    }
}

/// One run of draw work: `count` back-to-back primitives of one kind whose
/// vertices sit contiguously in the shared vertex sequence starting at
/// `begin_index`.
#[derive(Clone, Copy, Debug, PartialEq, Eq, Structural)]
pub struct Command {
    /// The primitive kind of every instance in this run.
    pub primitive: DrawPrimitive,
    /// Offset of the run's first vertex in the shared vertex sequence.
    pub begin_index: u32,
    /// How many primitive instances the run holds.
    pub count: u32,
}

impl Command {
    /// Index one past the run's last vertex:
    /// `begin_index + count * vertices-per-primitive`.
    pub open spec fn spec_end_index(self) -> int {
        self.begin_index + self.count * self.primitive.spec_vertex_count()
    }

    /// Starts a run of one instance of `primitive` at `begin_index`.
    pub fn new(primitive: DrawPrimitive, begin_index: u32) -> (c: Command)
        ensures
            c == (Command { primitive, begin_index, count: 1u32 }),
    {
        Command { primitive, begin_index, count: 1 }
    }

    /// Index one past the run's last vertex.
    pub fn end_index(&self) -> (e: u32)
        requires
            self.spec_end_index() <= u32::MAX,
        ensures
            e == self.spec_end_index(),
    {
        self.begin_index + self.count * self.primitive.vertex_count()
    }

    /// Extends the run by one primitive instance.
    pub fn inc(&mut self)
        requires
            old(self).count < u32::MAX,
        ensures
            *final(self) == (Command {
                primitive: old(self).primitive,
                begin_index: old(self).begin_index,
                count: (old(self).count + 1) as u32,
            }),
    {
        self.count = self.count + 1;
    }

    /// Starts a one-point run at `begin_index`.
    pub fn point(begin_index: u32) -> (c: Command)
        ensures
            c == (Command { primitive: DrawPrimitive::Point, begin_index, count: 1u32 }),
    {
        Command::new(DrawPrimitive::Point, begin_index)
    }

    /// Starts a one-line run at `begin_index`.
    pub fn line(begin_index: u32) -> (c: Command)
        ensures
            c == (Command { primitive: DrawPrimitive::Line, begin_index, count: 1u32 }),
    {
        Command::new(DrawPrimitive::Line, begin_index)
    }

    /// Starts a one-triangle run at `begin_index`.
    pub fn triangle(begin_index: u32) -> (c: Command)
        ensures
            c == (Command { primitive: DrawPrimitive::Triangle, begin_index, count: 1u32 }),
    {
        Command::new(DrawPrimitive::Triangle, begin_index)
    }
}

/// One draw call ready for submission: the pipeline kind plus the vertex
/// range `[begin_index, end_index)` it covers, drawn as a single instance.
#[derive(Clone, Copy, Debug, PartialEq, Eq, Structural)]
pub struct DrawCall {
    /// Which pipeline the call selects.
    pub primitive: DrawPrimitive,
    /// First vertex of the range.
    pub begin_index: u32,
    /// One past the last vertex of the range.
    pub end_index: u32,
}

/// The command list after one more request of kind `primitive` whose
/// vertices start at `begin`: the last run grows by one instance when it
/// has the same kind, otherwise a fresh single-instance run is appended.
pub open spec fn batch_step(commands: Seq<Command>, primitive: DrawPrimitive, begin: u32) -> Seq<Command> {
    if commands.len() > 0 && commands.last().primitive == primitive {
        commands.update(commands.len() - 1, Command {
            primitive: commands.last().primitive,
            begin_index: commands.last().begin_index,
            count: (commands.last().count + 1) as u32,
        })
    } else {
        commands.push(Command { primitive, begin_index: begin, count: 1u32 })
    }
}

/// The primitive kind a draw event asks for.
pub open spec fn event_primitive(event: DrawEvent) -> DrawPrimitive {
    match event {
        DrawEvent::Point(_) => DrawPrimitive::Point,
        DrawEvent::Line(_, _) => DrawPrimitive::Line,
        DrawEvent::Triangle(_, _, _) => DrawPrimitive::Triangle,
    }
}

/// The vertices a draw event contributes, in submission order.
pub open spec fn event_vertices(event: DrawEvent) -> Seq<Vertex> {
    match event {
        DrawEvent::Point(p0) => seq![p0],
        DrawEvent::Line(p0, p1) => seq![p0, p1],
        DrawEvent::Triangle(p0, p1, p2) => seq![p0, p1, p2],
    }
}

/// Run `i` sits properly in the list: it holds at least one instance, the
/// first run begins at zero, and every later run begins where its
/// predecessor ends while differing from it in kind (runs are maximal).
pub open spec fn run_linked(commands: Seq<Command>, i: int) -> bool {
    &&& commands[i].count >= 1
    &&& if i == 0 {
        commands[i].begin_index == 0
    } else {
        commands[i].begin_index == commands[i - 1].spec_end_index()
            && commands[i].primitive != commands[i - 1].primitive
    }
}

/// The command list tiles the vertex range `[0, total)`: the first run
/// begins at zero, each run begins where the one before it ends, the last
/// run ends at `total`, every run holds at least one instance, and adjacent
/// runs differ in kind.
pub open spec fn commands_tile(commands: Seq<Command>, total: int) -> bool {
    &&& commands.len() == 0 ==> total == 0
    &&& commands.len() > 0 ==> commands.last().spec_end_index() == total
    &&& forall|i: int| 0 <= i < commands.len() ==> #[trigger] run_linked(commands, i)
}

/// The draw calls a command list issues, one per run, in order.
pub open spec fn spec_draw_calls(commands: Seq<Command>) -> Seq<DrawCall> {
    commands.map_values(|c: Command| DrawCall {
        primitive: c.primitive,
        begin_index: c.begin_index,
        end_index: c.spec_end_index() as u32,
    })
}

/// Stepping a well-formed command list by one request of kind `primitive`
/// whose vertices start at `total` keeps it tiling the grown vertex range;
/// and when the request merges into the last run, that run's instance count
/// has room to grow.
proof fn lemma_batch_step_tiles(commands: Seq<Command>, total: int, primitive: DrawPrimitive)
    requires
        commands_tile(commands, total),
        0 <= total,
        total + primitive.spec_vertex_count() <= u32::MAX,
    ensures
        commands_tile(batch_step(commands, primitive, total as u32), total + primitive.spec_vertex_count()),
        commands.len() > 0 && commands.last().primitive == primitive ==> commands.last().count < u32::MAX,
{
    let v = primitive.spec_vertex_count() as int;
    let n = commands.len() as int;
    let stepped = batch_step(commands, primitive, total as u32);
    if n > 0 && commands.last().primitive == primitive {
        let last = commands[n - 1];
        assert(run_linked(commands, n - 1));
        assert(last.spec_end_index() == total);
        assert(last.count * v >= last.count) by (nonlinear_arith)
            requires
                last.count >= 1,
                v >= 1,
        ;
        assert(last.count < u32::MAX);
        let grown = Command {
            primitive: last.primitive,
            begin_index: last.begin_index,
            count: (last.count + 1) as u32,
        };
        assert(stepped == commands.update(n - 1, grown));
        assert((last.count + 1) * v == last.count * v + v) by (nonlinear_arith);
        assert(grown.spec_end_index() == total + v);
        assert(stepped.len() == n);
        assert(stepped[n - 1] == grown);
        assert(stepped.last().spec_end_index() == total + v);
        assert forall|i: int| 0 <= i < n implies #[trigger] run_linked(stepped, i) by {
            assert(run_linked(commands, i));
            if i < n - 1 {
                assert(stepped[i] == commands[i]);
                if i > 0 {
                    assert(stepped[i - 1] == commands[i - 1]);
                }
            } else {
                assert(stepped[i] == grown);
                if i > 0 {
                    assert(stepped[i - 1] == commands[i - 1]);
                }
            }
        }
    } else {
        let added = Command { primitive, begin_index: total as u32, count: 1u32 };
        assert(1 * v == v) by (nonlinear_arith);
        assert(added.spec_end_index() == total + v);
        assert(stepped == commands.push(added));
        assert(stepped.len() == n + 1);
        assert(stepped[n] == added);
        assert(stepped.last().spec_end_index() == total + v);
        assert forall|i: int| 0 <= i < n + 1 implies #[trigger] run_linked(stepped, i) by {
            if i < n {
                assert(run_linked(commands, i));
                assert(stepped[i] == commands[i]);
                if i > 0 {
                    assert(stepped[i - 1] == commands[i - 1]);
                }
            } else {
                assert(stepped[i] == added);
                if n > 0 {
                    assert(run_linked(commands, n - 1));
                    assert(stepped[i - 1] == commands[n - 1]);
                    assert(commands[n - 1].spec_end_index() == total);
                    assert(commands.last().primitive != primitive);
                }
            }
        }
    }
}

/// The batch accumulating this frame's draw work: an append-only vertex
/// sequence, the run-length-encoded command list over it, and the snapshot
/// last handed to the GPU-facing layer ([`Commands::prepare`]).
pub struct Commands {
    /// The run-length-encoded command list, in submission order.
    pub commands: Vec<Command>,
    /// Every vertex ever submitted, in submission order.
    pub vertices: Vec<Vertex>,
    /// The vertex snapshot built by the latest `prepare`, if any.
    pub buffer: Option<Vec<Vertex>>,
}

impl Commands {
    /// The batch is well formed: the vertex count fits the index type and
    /// the command list tiles the vertex sequence exactly.
    pub open spec fn wf(&self) -> bool {
        &&& self.vertices@.len() <= u32::MAX
        &&& commands_tile(self.commands@, self.vertices@.len() as int)
    }

    /// Creates an empty batch.
    pub fn new() -> (c: Commands)
        ensures
            c.wf(),
            c.commands@ == Seq::<Command>::empty(),
            c.vertices@ == Seq::<Vertex>::empty(),
            c.buffer is None,
    {
        Commands { commands: Vec::new(), vertices: Vec::new(), buffer: None }
    }

    /// Records one more primitive instance in the command list, merging it
    /// into the last run when the kind matches. The caller appends the
    /// instance's vertices right after this.
    fn note_instance(&mut self, primitive: DrawPrimitive)
        requires
            old(self).wf(),
            old(self).vertices@.len() + primitive.spec_vertex_count() <= u32::MAX,
        ensures
            final(self).commands@ == batch_step(old(self).commands@, primitive, old(self).vertices@.len() as u32),
            final(self).vertices@ == old(self).vertices@,
            final(self).buffer == old(self).buffer,
            commands_tile(final(self).commands@, old(self).vertices@.len() + primitive.spec_vertex_count()),
    {
        let ghost old_cmds = self.commands@;
        let ghost total = self.vertices@.len() as int;
        proof {
            lemma_batch_step_tiles(old_cmds, total, primitive);
        }
        let n = self.commands.len();
        if n > 0 && self.commands[n - 1].primitive == primitive {
            let slot = &mut self.commands[n - 1];
            slot.inc();
            proof {
                assert(self.commands@ == batch_step(old_cmds, primitive, total as u32));
            }
        } else {
            let begin = self.vertices.len() as u32;
            self.commands.push(Command::new(primitive, begin));
            proof {
                assert(self.commands@ == batch_step(old_cmds, primitive, total as u32));
            }
        }
    }

    /// Appends one point to the batch: its vertex goes to the tail of the
    /// vertex sequence and the command list grows by the run-length merge
    /// rule.
    pub fn enqueue_point(&mut self, p0: Vertex)
        requires
            old(self).wf(),
            old(self).vertices@.len() + 1 <= u32::MAX,
        ensures
            final(self).wf(),
            final(self).commands@ == batch_step(old(self).commands@, DrawPrimitive::Point, old(self).vertices@.len() as u32),
            final(self).vertices@ == old(self).vertices@.push(p0),
            final(self).buffer == old(self).buffer,
    {
        self.note_instance(DrawPrimitive::Point);
        self.vertices.push(p0);
    }

    /// Appends one line to the batch; both endpoint vertices go to the tail
    /// of the vertex sequence, in order.
    pub fn enqueue_line(&mut self, p0: Vertex, p1: Vertex)
        requires
            old(self).wf(),
            old(self).vertices@.len() + 2 <= u32::MAX,
        ensures
            final(self).wf(),
            final(self).commands@ == batch_step(old(self).commands@, DrawPrimitive::Line, old(self).vertices@.len() as u32),
            final(self).vertices@ == old(self).vertices@.push(p0).push(p1),
            final(self).buffer == old(self).buffer,
    {
        self.note_instance(DrawPrimitive::Line);
        self.vertices.push(p0);
        self.vertices.push(p1);
    }

    /// Appends one triangle to the batch; its three corner vertices go to
    /// the tail of the vertex sequence, in order.
    pub fn enqueue_triangle(&mut self, p0: Vertex, p1: Vertex, p2: Vertex)
        requires
            old(self).wf(),
            old(self).vertices@.len() + 3 <= u32::MAX,
        ensures
            final(self).wf(),
            final(self).commands@ == batch_step(old(self).commands@, DrawPrimitive::Triangle, old(self).vertices@.len() as u32),
            final(self).vertices@ == old(self).vertices@.push(p0).push(p1).push(p2),
            final(self).buffer == old(self).buffer,
    {
        self.note_instance(DrawPrimitive::Triangle);
        self.vertices.push(p0);
        self.vertices.push(p1);
        self.vertices.push(p2);
    }

    /// Unpacks one draw event into the batch through the matching enqueue
    /// operation.
    pub fn handle_event(&mut self, event: DrawEvent)
        requires
            old(self).wf(),
            old(self).vertices@.len() + event_vertices(event).len() <= u32::MAX,
        ensures
            final(self).wf(),
            final(self).commands@ == batch_step(old(self).commands@, event_primitive(event), old(self).vertices@.len() as u32),
            final(self).vertices@ == old(self).vertices@ + event_vertices(event),
            final(self).buffer == old(self).buffer,
    {
        let ghost old_vs = self.vertices@;
        match event {
            DrawEvent::Point(p0) => {
                self.enqueue_point(p0);
                proof {
                    assert(self.vertices@ =~= old_vs + event_vertices(event));
                }
            },
            DrawEvent::Line(p0, p1) => {
                self.enqueue_line(p0, p1);
                proof {
                    assert(self.vertices@ =~= old_vs + event_vertices(event));
                }
            },
            DrawEvent::Triangle(p0, p1, p2) => {
                self.enqueue_triangle(p0, p1, p2);
                proof {
                    assert(self.vertices@ =~= old_vs + event_vertices(event));
                }
            },
        }
    }

    /// Rebuilds the snapshot handed to the GPU-facing layer from the entire
    /// accumulated vertex sequence. Deliberately O(all vertices ever
    /// submitted), not O(new vertices): the buffer is rebuilt whole every
    /// frame.
    pub fn prepare(&mut self)
        requires
            old(self).wf(),
        ensures
            final(self).wf(),
            final(self).commands@ == old(self).commands@,
            final(self).vertices@ == old(self).vertices@,
            final(self).buffer matches Some(b) && b@ == old(self).vertices@,
    {
        let mut snapshot: Vec<Vertex> = Vec::new();
        let mut i: usize = 0;
        while i < self.vertices.len()
            invariant
                i <= self.vertices@.len(),
                snapshot@ == self.vertices@.subrange(0, i as int),
            decreases self.vertices@.len() - i,
        {
            snapshot.push(self.vertices[i]);
            i = i + 1;
            proof {
                assert(snapshot@ =~= self.vertices@.subrange(0, i as int));
            }
        }
        proof {
            assert(self.vertices@.subrange(0, self.vertices@.len() as int) =~= self.vertices@);
        }
        self.buffer = Some(snapshot);
    }

    /// The draw sequence for the current command list: one call per run,
    /// in submission order, each covering its vertex range. Requires a
    /// prepared buffer, as the calls index into that snapshot.
    pub fn render(&self) -> (calls: Vec<DrawCall>)
        requires
            self.wf(),
            self.buffer is Some,
        ensures
            calls@ == spec_draw_calls(self.commands@),
            forall|i: int| 0 <= i < calls@.len() ==> (#[trigger] calls@[i]).end_index <= self.vertices@.len(),
    {
        let mut calls: Vec<DrawCall> = Vec::new();
        let mut i: usize = 0;
        while i < self.commands.len()
            invariant
                self.wf(),
                i <= self.commands@.len(),
                calls@ == spec_draw_calls(self.commands@.subrange(0, i as int)),
                forall|j: int| 0 <= j < calls@.len() ==> (#[trigger] calls@[j]).end_index <= self.vertices@.len(),
            decreases self.commands@.len() - i,
        {
            proof {
                lemma_end_bounded(self.commands@, self.vertices@.len() as int, i as int);
            }
            let c = self.commands[i];
            let end = c.end_index();
            calls.push(DrawCall { primitive: c.primitive, begin_index: c.begin_index, end_index: end });
            i = i + 1;
            proof {
                assert(calls@ =~= spec_draw_calls(self.commands@.subrange(0, i as int)));
            }
        }
        proof {
            assert(self.commands@.subrange(0, self.commands@.len() as int) =~= self.commands@);
        }
        calls
    }
}

/// In a command list that tiles `[0, total)`, every run ends at or before
/// `total`, and begins at or after zero.
pub proof fn lemma_end_bounded(commands: Seq<Command>, total: int, i: int)
    requires
        commands_tile(commands, total),
        0 <= i < commands.len(),
    ensures
        commands[i].begin_index <= commands[i].spec_end_index() <= total,
    decreases commands.len() - i,
{
    let c = commands[i];
    assert(c.count * c.primitive.spec_vertex_count() >= 0) by (nonlinear_arith)
        requires
            c.count >= 0,
            c.primitive.spec_vertex_count() >= 0,
    ;
    if i == commands.len() - 1 {
    } else {
        lemma_end_bounded(commands, total, i + 1);
        let d = commands[i + 1];
        assert(run_linked(commands, i + 1));
        assert(d.count * d.primitive.spec_vertex_count() >= 0) by (nonlinear_arith)
            requires
                d.count >= 0,
                d.primitive.spec_vertex_count() >= 0,
        ;
        assert(d.begin_index == c.spec_end_index());
    }
}

/// The batch state reached from `(commands, vertices)` after unpacking
/// `events` in order, front first.
pub open spec fn run_events(commands: Seq<Command>, vertices: Seq<Vertex>, events: Seq<DrawEvent>) -> (Seq<Command>, Seq<Vertex>)
    decreases events.len(),
{
    if events.len() == 0 {
        (commands, vertices)
    } else {
        run_events(
            batch_step(commands, event_primitive(events[0]), vertices.len() as u32),
            vertices + event_vertices(events[0]),
            events.drop_first(),
        )
    }
}

/// The total number of vertices a sequence of events contributes.
pub open spec fn events_vertex_total(events: Seq<DrawEvent>) -> int
    decreases events.len(),
{
    if events.len() == 0 {
        0
    } else {
        event_vertices(events[0]).len() + events_vertex_total(events.drop_first())
    }
}

/// Law: batching is append-only. After any sequence of enqueue operations
/// the vertex sequence has grown by exactly the sum of the vertices each
/// operation contributed, and every vertex already present is still there,
/// unmoved: no operation ever shrinks or reorders the sequence.
pub proof fn lemma_append_only(commands: Seq<Command>, vertices: Seq<Vertex>, events: Seq<DrawEvent>)
    ensures
        run_events(commands, vertices, events).1.len() == vertices.len() + events_vertex_total(events),
        forall|i: int| 0 <= i < vertices.len() ==> run_events(commands, vertices, events).1[i] == vertices[i],
    decreases events.len(),
{
    if events.len() == 0 {
    } else {
        let mid_commands = batch_step(commands, event_primitive(events[0]), vertices.len() as u32);
        let mid_vertices = vertices + event_vertices(events[0]);
        lemma_append_only(mid_commands, mid_vertices, events.drop_first());
        assert(run_events(commands, vertices, events) == run_events(mid_commands, mid_vertices, events.drop_first()));
        assert forall|i: int| 0 <= i < vertices.len() implies run_events(commands, vertices, events).1[i] == vertices[i] by {
            assert(run_events(commands, vertices, events).1[i] == mid_vertices[i]);
            assert(mid_vertices[i] == vertices[i]);
        }
    }
}

/// Law: a request merges into the last run exactly when that run has the
/// same kind, and only grows its instance count; otherwise a fresh run of
/// one instance is appended at the given offset. Runs already closed are
/// never touched, so non-adjacent runs of one kind are never merged.
pub proof fn lemma_batch_step_merges(commands: Seq<Command>, primitive: DrawPrimitive, begin: u32)
    ensures
        commands.len() > 0 && commands.last().primitive == primitive ==> {
            &&& batch_step(commands, primitive, begin).len() == commands.len()
            &&& batch_step(commands, primitive, begin).last() == (Command {
                primitive,
                begin_index: commands.last().begin_index,
                count: (commands.last().count + 1) as u32,
            })
            &&& forall|i: int| 0 <= i < commands.len() - 1 ==> batch_step(commands, primitive, begin)[i] == commands[i]
        },
        !(commands.len() > 0 && commands.last().primitive == primitive) ==> batch_step(
            commands,
            primitive,
            begin,
        ) == commands.push(Command { primitive, begin_index: begin, count: 1u32 }),
{
}

/// Law: in a well-formed batch no two adjacent runs share a kind; each run
/// is maximal. Stated for any run `i` and its predecessor.
pub proof fn lemma_runs_maximal(batch: &Commands, i: int)
    requires
        batch.wf(),
        0 < i < batch.commands@.len(),
    ensures
        batch.commands@[i].primitive != batch.commands@[i - 1].primitive,
{
    assert(run_linked(batch.commands@, i));
}

/// Law: a run's vertex extent is exactly its instance count times the
/// vertices per primitive, and those are one for a point, two for a line
/// and three for a triangle.
pub proof fn lemma_command_extent(c: Command)
    ensures
        c.spec_end_index() - c.begin_index == c.count * c.primitive.spec_vertex_count(),
        DrawPrimitive::Point.spec_vertex_count() == 1,
        DrawPrimitive::Line.spec_vertex_count() == 2,
        DrawPrimitive::Triangle.spec_vertex_count() == 3,
{
}

/// Law: rendering is deterministic. The draw sequence is a function of the
/// enqueue history alone: equal batch states taken through equal event
/// sequences issue equal draw calls, and repeating `prepare` and `render`
/// without new enqueues replays the identical sequence.
pub proof fn lemma_render_deterministic(
    commands1: Seq<Command>,
    vertices1: Seq<Vertex>,
    commands2: Seq<Command>,
    vertices2: Seq<Vertex>,
    events: Seq<DrawEvent>,
)
    requires
        commands1 == commands2,
        vertices1 == vertices2,
    ensures
        spec_draw_calls(run_events(commands1, vertices1, events).0) == spec_draw_calls(run_events(commands2, vertices2, events).0),
{
}

} // verus!
