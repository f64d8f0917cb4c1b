use tinypaint::CanvasContext;
use tinypaint::Color;
use tinypaint::FrameAction;
use tinypaint::SurfaceIssue;
use tinypaint::TinyPaintError;
use tinypaint::classify_surface_error;

#[test]
fn lost_surface_is_reconfigured() {
    assert_eq!(
        classify_surface_error(SurfaceIssue::Lost),
        FrameAction::Reconfigure
    );
}

#[test]
fn out_of_memory_terminates_the_loop() {
    assert_eq!(
        classify_surface_error(SurfaceIssue::OutOfMemory),
        FrameAction::Terminate
    );
}

#[test]
fn other_surface_failures_skip_the_frame() {
    assert_eq!(classify_surface_error(SurfaceIssue::Timeout), FrameAction::Skip);
    assert_eq!(classify_surface_error(SurfaceIssue::Outdated), FrameAction::Skip);
    assert_eq!(classify_surface_error(SurfaceIssue::Other), FrameAction::Skip);
}

#[test]
fn posting_after_loop_exit_reports_channel_closed() {
    let (tx, rx) = std::sync::mpsc::channel();
    let ctx = CanvasContext::new(800, 600, tx);
    drop(rx);

    assert_eq!(
        ctx.draw_point((20, 20), Color::red()),
        Err(TinyPaintError::ChannelClosed)
    );
    assert_eq!(
        ctx.draw_line((0, 0), (10, 10), Color::green()),
        Err(TinyPaintError::ChannelClosed)
    );
    assert_eq!(
        ctx.draw_triangle((0, 0), (5, 5), (10, 0), Color::blue()),
        Err(TinyPaintError::ChannelClosed)
    );
}

#[test]
fn posting_with_live_receiver_succeeds() {
    let (tx, rx) = std::sync::mpsc::channel();
    let ctx = CanvasContext::new(800, 600, tx);

    assert_eq!(ctx.draw_point((20, 20), Color::red()), Ok(()));
    assert!(rx.recv().is_ok());
}
