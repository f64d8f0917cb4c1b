use tinypaint::Color;
use tinypaint::Command;
use tinypaint::Commands;
use tinypaint::DrawCall;
use tinypaint::DrawEvent;
use tinypaint::DrawPrimitive;
use tinypaint::Ndc;
use tinypaint::Vertex;

fn vertex(n: i64) -> Vertex {
    Vertex {
        x: Ndc { num: n, den: 100 },
        y: Ndc { num: -n, den: 100 },
        color: Color::white(),
    }
}

#[test]
fn vertex_count_per_kind() {
    assert_eq!(DrawPrimitive::Point.vertex_count(), 1);
    assert_eq!(DrawPrimitive::Line.vertex_count(), 2);
    assert_eq!(DrawPrimitive::Triangle.vertex_count(), 3);
}

#[test]
fn command_extent_is_count_times_vertices_per_primitive() {
    let mut c = Command::triangle(5);
    assert_eq!(c.end_index() - 5, 1 * 3);
    c.inc();
    assert_eq!(c.count, 2);
    assert_eq!(c.end_index() - 5, 2 * 3);

    assert_eq!(Command::point(7).end_index(), 8);
    assert_eq!(Command::line(7).end_index(), 9);
    assert_eq!(Command::new(DrawPrimitive::Line, 4).end_index(), 6);
}

#[test]
fn adjacent_same_kind_requests_merge_into_one_run() {
    let mut batch = Commands::new();
    batch.enqueue_point(vertex(1));
    batch.enqueue_point(vertex(2));
    batch.enqueue_line(vertex(3), vertex(4));
    batch.enqueue_point(vertex(5));

    assert_eq!(batch.commands.len(), 3);
    assert_eq!(
        batch.commands[0],
        Command { primitive: DrawPrimitive::Point, begin_index: 0, count: 2 }
    );
    assert_eq!(
        batch.commands[1],
        Command { primitive: DrawPrimitive::Line, begin_index: 2, count: 1 }
    );
    assert_eq!(
        batch.commands[2],
        Command { primitive: DrawPrimitive::Point, begin_index: 4, count: 1 }
    );
    assert_eq!(batch.vertices.len(), 5);
}

#[test]
fn point_line_triangle_make_three_single_runs() {
    let mut batch = Commands::new();
    batch.enqueue_point(vertex(1));
    batch.enqueue_line(vertex(2), vertex(3));
    batch.enqueue_triangle(vertex(4), vertex(5), vertex(6));

    assert_eq!(batch.commands.len(), 3);
    assert_eq!(batch.commands[0].primitive, DrawPrimitive::Point);
    assert_eq!(batch.commands[1].primitive, DrawPrimitive::Line);
    assert_eq!(batch.commands[2].primitive, DrawPrimitive::Triangle);
    assert_eq!(batch.commands[0].count, 1);
    assert_eq!(batch.commands[1].count, 1);
    assert_eq!(batch.commands[2].count, 1);
    assert_eq!(batch.vertices.len(), 6);
}

#[test]
fn every_enqueue_appends_exactly_its_vertices() {
    let mut batch = Commands::new();
    assert_eq!(batch.vertices.len(), 0);

    batch.enqueue_point(vertex(1));
    assert_eq!(batch.vertices.len(), 1);
    batch.enqueue_line(vertex(2), vertex(3));
    assert_eq!(batch.vertices.len(), 3);
    batch.enqueue_triangle(vertex(4), vertex(5), vertex(6));
    assert_eq!(batch.vertices.len(), 6);
    batch.enqueue_line(vertex(7), vertex(8));
    assert_eq!(batch.vertices.len(), 8);

    let expected: Vec<Vertex> = (1..=8).map(vertex).collect();
    assert_eq!(batch.vertices, expected);
}

#[test]
fn vertices_are_never_reordered_or_removed() {
    let mut batch = Commands::new();
    batch.enqueue_point(vertex(1));
    batch.enqueue_point(vertex(2));
    let before = batch.vertices.clone();

    batch.enqueue_triangle(vertex(3), vertex(4), vertex(5));
    assert_eq!(&batch.vertices[..2], &before[..]);
    assert_eq!(batch.vertices[2..], [vertex(3), vertex(4), vertex(5)]);
}

#[test]
fn handle_event_dispatches_to_matching_enqueue() {
    let mut via_events = Commands::new();
    via_events.handle_event(DrawEvent::Point(vertex(1)));
    via_events.handle_event(DrawEvent::Line(vertex(2), vertex(3)));
    via_events.handle_event(DrawEvent::Triangle(vertex(4), vertex(5), vertex(6)));
    via_events.handle_event(DrawEvent::Triangle(vertex(7), vertex(8), vertex(9)));

    let mut direct = Commands::new();
    direct.enqueue_point(vertex(1));
    direct.enqueue_line(vertex(2), vertex(3));
    direct.enqueue_triangle(vertex(4), vertex(5), vertex(6));
    direct.enqueue_triangle(vertex(7), vertex(8), vertex(9));

    assert_eq!(via_events.commands, direct.commands);
    assert_eq!(via_events.vertices, direct.vertices);
}

#[test]
fn prepare_rebuilds_snapshot_from_all_vertices() {
    let mut batch = Commands::new();
    assert!(batch.buffer.is_none());

    batch.enqueue_line(vertex(1), vertex(2));
    batch.prepare();
    assert_eq!(batch.buffer.as_deref(), Some(&[vertex(1), vertex(2)][..]));

    batch.enqueue_point(vertex(3));
    batch.prepare();
    assert_eq!(
        batch.buffer.as_deref(),
        Some(&[vertex(1), vertex(2), vertex(3)][..])
    );
}

#[test]
fn render_issues_one_call_per_run_in_order() {
    let mut batch = Commands::new();
    batch.enqueue_point(vertex(1));
    batch.enqueue_line(vertex(2), vertex(3));
    batch.enqueue_line(vertex(4), vertex(5));
    batch.enqueue_triangle(vertex(6), vertex(7), vertex(8));
    batch.prepare();

    let calls = batch.render();
    assert_eq!(
        calls,
        vec![
            DrawCall { primitive: DrawPrimitive::Point, begin_index: 0, end_index: 1 },
            DrawCall { primitive: DrawPrimitive::Line, begin_index: 1, end_index: 5 },
            DrawCall { primitive: DrawPrimitive::Triangle, begin_index: 5, end_index: 8 },
        ]
    );
}

#[test]
fn repeated_prepare_and_render_replay_the_same_calls() {
    let mut batch = Commands::new();
    batch.enqueue_triangle(vertex(1), vertex(2), vertex(3));
    batch.enqueue_point(vertex(4));
    batch.prepare();

    let first = batch.render();
    let again = batch.render();
    assert_eq!(first, again);

    batch.prepare();
    let after_second_prepare = batch.render();
    assert_eq!(first, after_second_prepare);
    assert_eq!(batch.buffer.as_deref(), Some(&batch.vertices[..]));
}

#[test]
fn empty_batch_renders_no_calls() {
    let mut batch = Commands::new();
    batch.prepare();
    assert_eq!(batch.buffer.as_deref(), Some(&[][..]));
    assert_eq!(batch.render(), vec![]);
}
