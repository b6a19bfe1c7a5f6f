use hello_triangle::command::Command;
use hello_triangle::geometry::vertex_bytes;
use hello_triangle::scheduler::{Event, Scheduler};

fn expected_setup(vao: u32, vbo: u32) -> Vec<Command> {
    vec![
        Command::BindVertexArray { vao },
        Command::BindBuffer { vbo },
        Command::UploadVertexData { bytes: vertex_bytes() },
        Command::EnableAttribArray { slot: 0 },
        Command::DescribeAttrib { slot: 0, components: 3, stride_bytes: 12, offset_bytes: 0 },
    ]
}

#[test]
fn startup_configures_clear_color_then_geometry() {
    let (_scheduler, cmds) = Scheduler::startup(11, 22);
    assert_eq!(cmds.len(), 6);
    assert_eq!(
        cmds[0],
        Command::SetClearColor {
            red_bits: (0.1f32).to_bits(),
            green_bits: (0.2f32).to_bits(),
            blue_bits: (0.3f32).to_bits(),
            alpha_bits: (1.0f32).to_bits(),
        }
    );
    assert_eq!(cmds[1..], expected_setup(11, 22));
}

#[test]
fn attribute_layout_after_setup() {
    let (_scheduler, cmds) = Scheduler::startup(1, 2);
    assert_eq!(cmds[4], Command::EnableAttribArray { slot: 0 });
    assert_eq!(
        cmds[5],
        Command::DescribeAttrib { slot: 0, components: 3, stride_bytes: 12, offset_bytes: 0 }
    );
}

#[test]
fn redraw_requests_coalesce() {
    let (mut scheduler, _init) = Scheduler::startup(1, 2);
    let mut requests = 0;
    for _ in 0..5 {
        let cmds = scheduler.handle_event(Event::AllEventsProcessed);
        requests += cmds.iter().filter(|c| **c == Command::RequestRedraw).count();
    }
    assert_eq!(requests, 1);
}

#[test]
fn redraw_request_rearms_after_a_redraw() {
    let (mut scheduler, _init) = Scheduler::startup(1, 2);
    assert_eq!(
        scheduler.handle_event(Event::AllEventsProcessed),
        vec![Command::RequestRedraw]
    );
    assert_eq!(scheduler.handle_event(Event::AllEventsProcessed), vec![]);
    let redraw = scheduler.handle_event(Event::RedrawDue);
    assert_eq!(
        redraw,
        vec![
            Command::ClearColorBuffer,
            Command::DrawTriangles { first_vertex: 0, vertex_count: 3 },
            Command::Present,
        ]
    );
    assert_eq!(
        scheduler.handle_event(Event::AllEventsProcessed),
        vec![Command::RequestRedraw]
    );
}

#[test]
fn resize_applied_before_next_draw() {
    let (mut scheduler, _init) = Scheduler::startup(1, 2);
    let mut trace: Vec<Command> = Vec::new();
    trace.extend(scheduler.handle_event(Event::SurfaceResized { width: 800, height: 600 }));
    trace.extend(scheduler.handle_event(Event::RedrawDue));
    let resize_at = trace
        .iter()
        .position(|c| *c == Command::Resize { width: 800, height: 600 })
        .unwrap();
    let draw_at = trace
        .iter()
        .position(|c| matches!(c, Command::DrawTriangles { .. }))
        .unwrap();
    assert!(resize_at < draw_at);
}

#[test]
fn resize_before_any_redraw_draws_nothing_first() {
    let (mut scheduler, _init) = Scheduler::startup(1, 2);
    let cmds = scheduler.handle_event(Event::SurfaceResized { width: 800, height: 600 });
    assert_eq!(cmds, vec![Command::Resize { width: 800, height: 600 }]);
    assert_eq!(
        cmds.iter().filter(|c| matches!(c, Command::DrawTriangles { .. })).count(),
        0
    );
}

#[test]
fn close_releases_geometry_exactly_once() {
    let (mut scheduler, _init) = Scheduler::startup(5, 6);
    assert!(!scheduler.is_terminated());
    let close = scheduler.handle_event(Event::CloseRequested);
    assert_eq!(
        close,
        vec![
            Command::DeleteVertexArray { vao: 5 },
            Command::DeleteBuffer { vbo: 6 },
            Command::StopEventSource,
        ]
    );
    assert!(scheduler.is_terminated());
    // A second close request must not release anything again.
    assert_eq!(scheduler.handle_event(Event::CloseRequested), vec![]);
}

#[test]
fn no_release_before_close() {
    let (mut scheduler, init) = Scheduler::startup(5, 6);
    let mut trace: Vec<Command> = init;
    trace.extend(scheduler.handle_event(Event::AllEventsProcessed));
    trace.extend(scheduler.handle_event(Event::RedrawDue));
    trace.extend(scheduler.handle_event(Event::SurfaceResized { width: 640, height: 480 }));
    let releases = trace
        .iter()
        .filter(|c| matches!(c, Command::DeleteVertexArray { .. } | Command::DeleteBuffer { .. }))
        .count();
    assert_eq!(releases, 0);
}

#[test]
fn events_after_termination_are_ignored() {
    let (mut scheduler, _init) = Scheduler::startup(1, 2);
    scheduler.handle_event(Event::CloseRequested);
    assert_eq!(scheduler.handle_event(Event::AllEventsProcessed), vec![]);
    assert_eq!(scheduler.handle_event(Event::RedrawDue), vec![]);
    assert_eq!(
        scheduler.handle_event(Event::SurfaceResized { width: 1, height: 1 }),
        vec![]
    );
    assert!(scheduler.is_terminated());
}

#[test]
fn end_to_end_startup_redraw_close() {
    let (mut scheduler, init) = Scheduler::startup(7, 8);
    let mut trace: Vec<Command> = init;
    trace.extend(scheduler.handle_event(Event::RedrawDue));
    trace.extend(scheduler.handle_event(Event::CloseRequested));
    let mut expected = vec![Command::SetClearColor {
        red_bits: (0.1f32).to_bits(),
        green_bits: (0.2f32).to_bits(),
        blue_bits: (0.3f32).to_bits(),
        alpha_bits: (1.0f32).to_bits(),
    }];
    expected.extend(expected_setup(7, 8));
    expected.extend(vec![
        Command::ClearColorBuffer,
        Command::DrawTriangles { first_vertex: 0, vertex_count: 3 },
        Command::Present,
        Command::DeleteVertexArray { vao: 7 },
        Command::DeleteBuffer { vbo: 8 },
        Command::StopEventSource,
    ]);
    assert_eq!(trace, expected);
    assert!(scheduler.is_terminated());
}
