use vclogg::log_viewport::LogViewportState;
use vclogg::regions::WrappedRegion;
use vclogg::result_jumps::{
    centered_log_jump_preload_range, take_pending_log_scroll_target, LogScrollFrameTarget,
    PendingLogScrollFrames,
};
use vclogg::row_drag::{RowDragMode, RowDragSelection};

/// A point in pixels.
type Point = (f32, f32);
/// A row's painted geometry: origin and size in pixels.
type Bounds = (f32, f32, f32, f32);

fn point(x: f32, y: f32) -> Point {
    (x, y)
}

fn bounds(x: f32, y: f32, width: f32, height: f32) -> Bounds {
    (x, y, width, height)
}

fn contains(bounds: Bounds, point: Point) -> bool {
    point.0 >= bounds.0 && point.0 < bounds.0 + bounds.2 && point.1 >= bounds.1 && point.1 < bounds.1 + bounds.3
}

fn test_viewport(word_wrap: bool) -> LogViewportState<Bounds, Point, ()> {
    LogViewportState::new(word_wrap)
}

#[test]
fn mode_switch_consumes_the_latest_scrollbar_target() {
    let mut viewport = test_viewport(false);
    let key = (7, WrappedRegion::Log);
    let mut pending = PendingLogScrollFrames::new();
    pending.request(key, LogScrollFrameTarget::Viewport(point(0., -300.)));
    let requested = point(0., -1_200.);
    viewport.request_scrollbar_offset(requested);

    assert_eq!(
        take_pending_log_scroll_target(&mut pending, key, &mut viewport),
        Some(LogScrollFrameTarget::Scrollbar(requested))
    );
    assert_eq!(pending.latest(key), None);
}

#[test]
fn hit_testing_uses_the_single_visible_geometry_map() {
    let mut viewport = test_viewport(false);
    viewport.record_row_bounds(2, bounds(0., 0., 100., 20.));
    viewport.record_row_bounds(3, bounds(0., 20., 100., 20.));

    assert_eq!(viewport.row_at_position(|b: Bounds| contains(b, point(4., 4.))), Some(2));
    assert_eq!(viewport.visible_row_edge(true), Some(3));

    viewport.set_word_wrap(true);
    assert_eq!(viewport.row_at_position(|b: Bounds| contains(b, point(4., 4.))), None);
}

#[test]
fn pending_scroll_requests_coalesce_to_the_latest_target() {
    let mut pending = PendingLogScrollFrames::new();
    let key = (7, WrappedRegion::Log);
    pending.request(key, LogScrollFrameTarget::Scrollbar(point(0., -100.)));
    pending.request(key, LogScrollFrameTarget::Scrollbar(point(0., -900.)));

    assert_eq!(pending.take(key), Some(LogScrollFrameTarget::Scrollbar(point(0., -900.))));
}

#[test]
fn log_jump_preload_range_covers_target_and_edges() {
    assert_eq!(centered_log_jump_preload_range(50, 100, 10), 35..65);
    assert_eq!(centered_log_jump_preload_range(2, 100, 10), 0..30);
    assert_eq!(centered_log_jump_preload_range(98, 100, 10), 70..100);
    assert_eq!(centered_log_jump_preload_range(0, 0, 10), 0..0);
}

#[test]
fn only_cross_row_line_drag_changes_selection_after_initial_select() {
    let drag = |target_row, mode| RowDragSelection {
        document_id: 1,
        region: WrappedRegion::GlobalResults,
        pointer: point(0., 0.),
        start_row: 3,
        target_row,
        mode,
    };

    assert!(!drag(3, RowDragMode::Lines).changed_row_selection());
    assert!(!drag(4, RowDragMode::Text).changed_row_selection());
    assert!(drag(4, RowDragMode::Lines).changed_row_selection());
}
