use ceron::color::Color;
use ceron::frame::{AcquireError, FatalError, FrameEvent, FrameState, SkipReason};
use ceron::ndc::{Extent, Point};
use ceron::renderer::{FrameAction, GpuRenderer, PassPlan, ResizeAction};
use ceron::surface::{ConfigureAction, SurfaceConfig, SurfaceSize};
use ceron::tessellate;
use ceron::tessellate::{circle, rectangle, triangle, DrawError};
use ceron::vertex::Offset;

fn config(width: u32, height: u32) -> SurfaceConfig {
    SurfaceConfig::new(
        SurfaceSize::new(width, height),
        wgpu::TextureFormat::Bgra8UnormSrgb,
        wgpu::PresentMode::Fifo,
    )
}

fn renderer() -> GpuRenderer {
    GpuRenderer::new(config(640, 480))
}

/// Runs a frame up to its pass.
fn record(r: &mut GpuRenderer) -> PassPlan {
    assert_eq!(r.advance_frame(FrameEvent::RedrawRequested), FrameAction::Acquire);
    match r.advance_frame(FrameEvent::ImageAcquired) {
        FrameAction::Record(pass) => pass,
        other => panic!("no pass: {:?}", other),
    }
}

/// Runs a frame from its pass to its end.
fn finish(r: &mut GpuRenderer) {
    assert_eq!(r.advance_frame(FrameEvent::PassRecorded), FrameAction::Submit);
    assert_eq!(r.advance_frame(FrameEvent::WorkSubmitted), FrameAction::Present);
    assert_eq!(r.advance_frame(FrameEvent::ImagePresented), FrameAction::Finished);
}

#[test]
fn new_renderer_is_white_empty_and_idle() {
    let r = GpuRenderer::new(config(800, 600));
    assert_eq!(r.surface_size(), SurfaceSize::new(800, 600));
    assert_eq!(r.surface_config(), config(800, 600));
    assert_eq!(r.background(), Color::white());
    assert_eq!(r.pending_commands(), 0);
    assert_eq!(r.state(), FrameState::Idle);
}

#[test]
fn set_background_changes_the_clear_colour_of_the_next_pass() {
    let mut r = renderer();
    r.set_background(Color::green());
    assert_eq!(r.background(), Color::green());
    assert_eq!(r.surface_size(), SurfaceSize::new(640, 480));
    let pass = record(&mut r);
    assert_eq!(pass.clear, Color::green());
    assert!(pass.commands.is_empty());
    finish(&mut r);
    let pass = record(&mut r);
    assert_eq!(pass.clear, Color::green());
}

#[test]
fn red_rectangle_is_recorded_as_one_command() {
    let mut r = GpuRenderer::new(config(640, 480));
    assert_eq!(r.draw_rectangle(Point::new(100, 100), Extent::new(50, 50), Color::red()), Ok(()));
    let pass = record(&mut r);
    assert_eq!(pass.commands.len(), 1);
    let command = &pass.commands[0];
    assert_eq!(command.vertices().len(), 4);
    assert_eq!(command.indices(), &vec![0u16, 1, 2, 1, 3, 2]);
    let left = (100.0 - 25.0) / 320.0 - 1.0;
    let right = (100.0 + 25.0) / 320.0 - 1.0;
    let top = -((100.0 - 25.0) / 240.0 - 1.0);
    let bottom = -((100.0 + 25.0) / 240.0 - 1.0);
    let expected = [(left, top), (right, top), (left, bottom), (right, bottom)];
    for (v, (x, y)) in command.vertices().iter().zip(expected) {
        let c = v.color();
        let channels =
            (f64::from_bits(c.r), f64::from_bits(c.g), f64::from_bits(c.b), f64::from_bits(c.a));
        assert_eq!(channels, (1.0, 0.0, 0.0, 1.0));
        assert_eq!(v.offset(), Offset::Zero);
        let p = v.anchor();
        let got_x = p.x.numerator() as f64 / p.x.denominator() as f64;
        let got_y = p.y.numerator() as f64 / p.y.denominator() as f64;
        assert!((got_x - x).abs() < 1e-12, "{} is not {}", got_x, x);
        assert!((got_y - y).abs() < 1e-12, "{} is not {}", got_y, y);
    }
    assert!((left - -0.765625f64).abs() < 1e-12);
    assert!((right - -0.609375f64).abs() < 1e-12);
    finish(&mut r);
    assert_eq!(r.state(), FrameState::Idle);
}

#[test]
fn draw_calls_give_what_the_tessellator_gives() {
    let size = SurfaceSize::new(640, 480);
    let mut r = GpuRenderer::new(config(640, 480));
    assert_eq!(r.draw_triangle(Point::new(32, 32), 32, Color::white()), Ok(()));
    assert_eq!(r.draw_rectangle(Point::new(96, 96), Extent::new(32, 32), Color::black()), Ok(()));
    assert_eq!(r.draw_line(Point::new(128, 128), Point::new(160, 160), 2, Color::red()), Ok(()));
    assert_eq!(r.draw_circle(Point::new(160, 160), 32, Color::blue(), 20), Ok(()));
    assert_eq!(r.pending_commands(), 4);
    let pass = record(&mut r);
    assert_eq!(
        pass.commands,
        vec![
            triangle(Point::new(32, 32), 32, Color::white(), size),
            rectangle(Point::new(96, 96), Extent::new(32, 32), Color::black(), size),
            tessellate::line(Point::new(128, 128), Point::new(160, 160), 2, Color::red(), size),
            circle(Point::new(160, 160), 32, Color::blue(), 20, size).unwrap(),
        ]
    );
}

#[test]
fn later_draws_are_recorded_later() {
    let mut r = renderer();
    r.draw_rectangle(Point::new(100, 100), Extent::new(80, 80), Color::red()).unwrap();
    r.draw_rectangle(Point::new(120, 120), Extent::new(80, 80), Color::blue()).unwrap();
    let pass = record(&mut r);
    assert_eq!(pass.commands.len(), 2);
    assert_eq!(pass.commands[0].vertices()[0].color(), Color::red());
    assert_eq!(pass.commands[1].vertices()[0].color(), Color::blue());
}

#[test]
fn commands_are_recorded_exactly_once() {
    let mut r = renderer();
    r.draw_triangle(Point::new(10, 10), 5, Color::red()).unwrap();
    let pass = record(&mut r);
    assert_eq!(pass.commands.len(), 1);
    assert_eq!(r.pending_commands(), 0);
    r.draw_triangle(Point::new(20, 20), 5, Color::blue()).unwrap();
    assert_eq!(r.pending_commands(), 1);
    finish(&mut r);
    assert_eq!(r.pending_commands(), 1);
    let pass = record(&mut r);
    assert_eq!(pass.commands.len(), 1);
    assert_eq!(pass.commands[0].vertices()[0].color(), Color::blue());
    finish(&mut r);
    let pass = record(&mut r);
    assert!(pass.commands.is_empty());
}

#[test]
fn nothing_is_drawn_on_a_surface_without_area() {
    for (width, height) in [(0, 480), (640, 0), (0, 0)] {
        let mut r = GpuRenderer::new(config(width, height));
        let err = Err(DrawError::SurfaceNotPresentable);
        assert_eq!(r.draw_triangle(Point::new(1, 1), 1, Color::red()), err);
        assert_eq!(r.draw_rectangle(Point::new(1, 1), Extent::new(1, 1), Color::red()), err);
        assert_eq!(r.draw_line(Point::new(1, 1), Point::new(2, 2), 1, Color::red()), err);
        assert_eq!(r.draw_line(Point::new(1, 1), Point::new(1, 1), 1, Color::red()), err);
        assert_eq!(r.draw_circle(Point::new(1, 1), 1, Color::red(), 8), err);
        assert_eq!(r.draw_circle(Point::new(1, 1), 1, Color::red(), 0), err);
        assert_eq!(r.pending_commands(), 0);
        assert_eq!(
            r.advance_frame(FrameEvent::RedrawRequested),
            FrameAction::Skip { reason: SkipReason::NotPresentable, reconfigure: false }
        );
        assert_eq!(r.state(), FrameState::Idle);
    }
}

#[test]
fn line_without_length_draws_nothing() {
    let mut r = renderer();
    let at = Point::new(77, 78);
    assert_eq!(r.draw_line(at, at, 4, Color::red()), Err(DrawError::ZeroLengthLine));
    assert_eq!(r.pending_commands(), 0);
    assert_eq!(r.draw_line(at, Point::new(77, 79), 4, Color::red()), Ok(()));
    assert_eq!(r.pending_commands(), 1);
}

#[test]
fn circle_with_a_bad_number_of_segments_draws_nothing() {
    let mut r = renderer();
    for n in [0u16, 1, 2] {
        assert_eq!(
            r.draw_circle(Point::new(5, 5), 5, Color::red(), n),
            Err(DrawError::TooFewSegments)
        );
    }
    assert_eq!(
        r.draw_circle(Point::new(5, 5), 5, Color::red(), u16::MAX),
        Err(DrawError::TooManySegments)
    );
    assert_eq!(r.pending_commands(), 0);
    assert_eq!(r.draw_circle(Point::new(5, 5), 5, Color::red(), 3), Ok(()));
    assert_eq!(r.pending_commands(), 1);
}

#[test]
fn a_skipped_frame_leaves_everything_for_the_next_redraw() {
    let size = SurfaceSize::new(640, 480);
    let failures = [
        (AcquireError::Timeout, SkipReason::Timeout, false),
        (AcquireError::Outdated, SkipReason::Outdated, true),
        (AcquireError::Lost, SkipReason::SurfaceLost, true),
        (AcquireError::Other, SkipReason::Unspecified, false),
    ];
    for (error, reason, reconfigure) in failures {
        let mut r = renderer();
        r.set_background(Color::blue());
        r.draw_triangle(Point::new(10, 10), 5, Color::red()).unwrap();
        r.draw_rectangle(Point::new(20, 20), Extent::new(4, 4), Color::green()).unwrap();
        assert_eq!(r.advance_frame(FrameEvent::RedrawRequested), FrameAction::Acquire);
        assert_eq!(r.pending_commands(), 2);
        assert_eq!(
            r.advance_frame(FrameEvent::AcquireFailed(error)),
            FrameAction::Skip { reason, reconfigure }
        );
        assert_eq!(r.pending_commands(), 2);
        assert_eq!(r.surface_config(), config(640, 480));
        assert_eq!(r.background(), Color::blue());
        assert_eq!(r.state(), FrameState::Idle);
        let pass = record(&mut r);
        assert_eq!(pass.clear, Color::blue());
        assert_eq!(
            pass.commands,
            vec![
                triangle(Point::new(10, 10), 5, Color::red(), size),
                rectangle(Point::new(20, 20), Extent::new(4, 4), Color::green(), size),
            ]
        );
        assert_eq!(r.pending_commands(), 0);
    }
}

#[test]
fn a_frame_skipped_for_want_of_area_keeps_its_commands() {
    let mut r = renderer();
    r.draw_triangle(Point::new(10, 10), 5, Color::red()).unwrap();
    assert_eq!(r.resize(SurfaceSize::new(0, 0)), ResizeAction::Suspend);
    assert_eq!(
        r.advance_frame(FrameEvent::RedrawRequested),
        FrameAction::Skip { reason: SkipReason::NotPresentable, reconfigure: false }
    );
    assert_eq!(r.pending_commands(), 1);
    assert_eq!(r.resize(SurfaceSize::new(640, 480)), ResizeAction::Reconfigure(config(640, 480)));
    let pass = record(&mut r);
    assert_eq!(
        pass.commands,
        vec![triangle(Point::new(10, 10), 5, Color::red(), SurfaceSize::new(640, 480))]
    );
}

#[test]
fn a_failed_frame_records_nothing_and_changes_nothing_else() {
    let mut r = renderer();
    r.draw_triangle(Point::new(10, 10), 5, Color::red()).unwrap();
    r.advance_frame(FrameEvent::RedrawRequested);
    assert_eq!(
        r.advance_frame(FrameEvent::AcquireFailed(AcquireError::OutOfMemory)),
        FrameAction::Fatal(FatalError::OutOfMemory)
    );
    assert_eq!(r.pending_commands(), 1);
    assert_eq!(r.surface_config(), config(640, 480));
    assert_eq!(r.background(), Color::white());
    assert_eq!(r.state(), FrameState::Idle);
    assert_eq!(r.advance_frame(FrameEvent::DeviceLost), FrameAction::Fatal(FatalError::DeviceLost));
    assert_eq!(r.pending_commands(), 1);
}

#[test]
fn fatal_errors_reach_the_caller() {
    let mut r = renderer();
    r.advance_frame(FrameEvent::RedrawRequested);
    assert_eq!(
        r.advance_frame(FrameEvent::AcquireFailed(AcquireError::OutOfMemory)),
        FrameAction::Fatal(FatalError::OutOfMemory)
    );
    let mut r = renderer();
    assert_eq!(r.advance_frame(FrameEvent::DeviceLost), FrameAction::Fatal(FatalError::DeviceLost));
    let mut r = renderer();
    r.advance_frame(FrameEvent::RedrawRequested);
    assert_eq!(
        r.advance_frame(FrameEvent::AcquireFailed(AcquireError::Lost)),
        FrameAction::Skip { reason: SkipReason::SurfaceLost, reconfigure: true }
    );
    r.advance_frame(FrameEvent::RedrawRequested);
    assert_eq!(
        r.advance_frame(FrameEvent::AcquireFailed(AcquireError::Lost)),
        FrameAction::Fatal(FatalError::SurfaceLost)
    );
}

#[test]
fn events_out_of_turn_change_nothing() {
    let mut r = renderer();
    r.draw_triangle(Point::new(10, 10), 5, Color::red()).unwrap();
    assert_eq!(r.advance_frame(FrameEvent::PassRecorded), FrameAction::Ignored);
    assert_eq!(r.advance_frame(FrameEvent::ImageAcquired), FrameAction::Ignored);
    assert_eq!(r.state(), FrameState::Idle);
    assert_eq!(r.pending_commands(), 1);
}

#[test]
fn resize_takes_the_size_and_asks_for_the_surface_to_be_configured() {
    let mut r = renderer();
    let action = r.resize(SurfaceSize::new(1280, 720));
    assert_eq!(action, ResizeAction::Reconfigure(config(1280, 720)));
    assert_eq!(r.surface_size(), SurfaceSize::new(1280, 720));
    r.draw_rectangle(Point::new(640, 360), Extent::new(1280, 720), Color::red()).unwrap();
    let pass = record(&mut r);
    let first = pass.commands[0].vertices()[0].anchor();
    assert_eq!((first.x.numerator(), first.x.denominator()), (-1280, 1280));
    assert_eq!((first.y.numerator(), first.y.denominator()), (720, 720));
}

#[test]
fn resize_twice_to_the_same_size_changes_nothing() {
    let mut r = renderer();
    r.set_background(Color::blue());
    r.draw_triangle(Point::new(10, 10), 5, Color::red()).unwrap();
    let first = r.resize(SurfaceSize::new(800, 600));
    assert_eq!(r.surface_size(), SurfaceSize::new(800, 600));
    let second = r.resize(SurfaceSize::new(800, 600));
    assert_eq!(first, second);
    assert_eq!(r.surface_size(), SurfaceSize::new(800, 600));
    assert_eq!(r.surface_config(), config(800, 600));
    assert_eq!(r.background(), Color::blue());
    assert_eq!(r.pending_commands(), 1);
    assert_eq!(r.state(), FrameState::Idle);
}

#[test]
fn resize_to_nothing_suspends_frames_until_a_size_with_area_comes() {
    let mut r = renderer();
    assert_eq!(r.resize(SurfaceSize::new(0, 0)), ResizeAction::Suspend);
    assert_eq!(r.surface_size(), SurfaceSize::new(0, 0));
    assert_eq!(
        r.advance_frame(FrameEvent::RedrawRequested),
        FrameAction::Skip { reason: SkipReason::NotPresentable, reconfigure: false }
    );
    assert_eq!(r.resize(SurfaceSize::new(320, 200)), ResizeAction::Reconfigure(config(320, 200)));
    assert_eq!(r.advance_frame(FrameEvent::RedrawRequested), FrameAction::Acquire);
}

#[test]
fn resize_waits_for_the_frame_in_flight() {
    let mut r = renderer();
    r.advance_frame(FrameEvent::RedrawRequested);
    assert_eq!(r.resize(SurfaceSize::new(0, 0)), ResizeAction::Busy);
    assert_eq!(r.surface_size(), SurfaceSize::new(640, 480));
    let _ = r.advance_frame(FrameEvent::ImageAcquired);
    assert_eq!(r.resize(SurfaceSize::new(10, 10)), ResizeAction::Busy);
    finish(&mut r);
    assert_eq!(r.resize(SurfaceSize::new(10, 10)), ResizeAction::Reconfigure(config(10, 10)));
}

#[test]
fn configuration_is_the_size_while_it_has_area() {
    let mut r = renderer();
    assert_eq!(r.configure_action(), ConfigureAction::Apply(config(640, 480)));
    r.resize(SurfaceSize::new(0, 480));
    assert_eq!(r.configure_action(), ConfigureAction::Suspend);
    assert_eq!(GpuRenderer::new(config(0, 0)).configure_action(), ConfigureAction::Suspend);
}

#[test]
fn an_outdated_surface_is_configured_again_with_the_current_size() {
    let mut r = renderer();
    r.resize(SurfaceSize::new(300, 200));
    r.advance_frame(FrameEvent::RedrawRequested);
    assert_eq!(
        r.advance_frame(FrameEvent::AcquireFailed(AcquireError::Outdated)),
        FrameAction::Skip { reason: SkipReason::Outdated, reconfigure: true }
    );
    assert_eq!(r.configure_action(), ConfigureAction::Apply(config(300, 200)));
}
