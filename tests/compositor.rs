use external_dx11_overlay::compositor::{
    Command, Compositor, DrawPlan, Event, FrameInput, OverlayState, Phase, SourceKey, Viewport,
};
use external_dx11_overlay::frame::FrameDescriptor;

fn frame(index: u32, width: u32, height: u32, a: u64, b: u64, alive: bool) -> FrameDescriptor {
    FrameDescriptor { active_index: index, width, height, handle_a: a, handle_b: b, alive }
}

fn good_frame() -> FrameDescriptor {
    frame(1, 1920, 1080, 0x1000, 0x2000, true)
}

fn input(f: FrameDescriptor, w: u32, h: u32) -> FrameInput {
    FrameInput {
        rendering_enabled: true,
        device_removed: false,
        frame: f,
        backbuffer_width: w,
        backbuffer_height: h,
    }
}

/// Runs one present call, answering every command with the given outcomes,
/// and returns the commands issued.
fn present(c: &mut Compositor, i: FrameInput, rebuild_ok: bool, target_ok: bool, import_ok: bool) -> Vec<Command> {
    let mut cmds = Vec::new();
    let mut cmd = c.step(Event::Present(i));
    loop {
        cmds.push(cmd);
        let e = match cmd {
            Command::Rebuild => Event::Rebuilt { ok: rebuild_ok, vertex_buffer: true },
            Command::RecreateTarget(_) => Event::TargetRecreated(target_ok),
            Command::ImportTextures(_) => Event::Imported(import_ok),
            Command::Draw(_) => Event::Drawn,
            Command::Teardown => Event::TornDown,
            Command::CallOriginal { .. } => break,
        };
        assert!(c.accepts_event(&e));
        cmd = c.step(e);
    }
    assert!(c.is_idle());
    cmds
}

fn calls_through(cmds: &[Command]) -> usize {
    cmds.iter().filter(|c| matches!(c, Command::CallOriginal { .. })).count()
}

fn draws(cmds: &[Command]) -> usize {
    cmds.iter().filter(|c| matches!(c, Command::Draw(_))).count()
}

#[test]
fn first_present_builds_everything_then_draws() {
    let mut c = Compositor::new();
    let cmds = present(&mut c, input(good_frame(), 800, 600), true, true, true);
    assert_eq!(
        cmds,
        vec![
            Command::Rebuild,
            Command::RecreateTarget(Viewport { x: 0, y: 0, width: 800, height: 600 }),
            Command::ImportTextures(SourceKey { handle_a: 0x1000, handle_b: 0x2000, width: 1920, height: 1080 }),
            Command::Draw(DrawPlan {
                slot: 1,
                viewport: Viewport { x: 0, y: 0, width: 800, height: 600 },
                vertex_count: 6,
                source_width: 1920,
                source_height: 1080,
            }),
            Command::CallOriginal { timed: true },
        ]
    );
}

#[test]
fn valid_frame_calls_through_exactly_once() {
    let mut c = Compositor::new();
    for _ in 0..3 {
        let cmds = present(&mut c, input(good_frame(), 800, 600), true, true, true);
        assert_eq!(calls_through(&cmds), 1);
        assert_eq!(cmds.last(), Some(&Command::CallOriginal { timed: true }));
    }
}

#[test]
fn steady_state_only_draws() {
    let mut c = Compositor::new();
    present(&mut c, input(good_frame(), 800, 600), true, true, true);
    let cmds = present(&mut c, input(good_frame(), 800, 600), true, true, true);
    assert_eq!(cmds.len(), 2);
    assert!(matches!(cmds[0], Command::Draw(_)));
}

#[test]
fn invalid_frames_bind_nothing_and_call_through_once() {
    let bad = [
        frame(0, 0, 1080, 1, 2, true),
        frame(0, 1920, 0, 1, 2, true),
        frame(0, 1920, 1080, 0, 2, true),
        frame(0, 1920, 1080, 1, 0, true),
        frame(0, 1920, 1080, 1, 2, false),
        frame(2, 1920, 1080, 1, 2, true),
    ];
    for f in bad.iter() {
        assert!(!f.is_valid());
        let mut c = Compositor::new();
        present(&mut c, input(good_frame(), 800, 600), true, true, true);
        let cmds = present(&mut c, input(*f, 800, 600), true, true, true);
        assert_eq!(cmds, vec![Command::CallOriginal { timed: false }]);
    }
}

#[test]
fn invalid_frame_on_first_present_only_rebuilds() {
    let mut c = Compositor::new();
    let cmds = present(&mut c, input(frame(0, 0, 0, 0, 0, false), 800, 600), true, true, true);
    assert_eq!(cmds, vec![Command::Rebuild, Command::CallOriginal { timed: false }]);
    assert_eq!(calls_through(&cmds), 1);
}

#[test]
fn rendering_disabled_passes_straight_through() {
    let mut c = Compositor::new();
    let mut i = input(good_frame(), 800, 600);
    i.rendering_enabled = false;
    let cmds = present(&mut c, i, true, true, true);
    assert_eq!(cmds, vec![Command::CallOriginal { timed: false }]);
    assert!(c.overlay.is_none());
}

#[test]
fn resize_recreates_target_once() {
    let mut c = Compositor::new();
    present(&mut c, input(good_frame(), 800, 600), true, true, true);
    let cmds = present(&mut c, input(good_frame(), 1024, 768), true, true, true);
    let want = Viewport { x: 0, y: 0, width: 1024, height: 768 };
    assert_eq!(cmds[0], Command::RecreateTarget(want));
    let recreations = cmds.iter().filter(|c| matches!(c, Command::RecreateTarget(_))).count();
    assert_eq!(recreations, 1);
    match cmds[1] {
        Command::Draw(p) => assert_eq!(p.viewport, want),
        other => panic!("expected a draw, got {:?}", other),
    }
    let again = present(&mut c, input(good_frame(), 1024, 768), true, true, true);
    assert!(again.iter().all(|c| !matches!(c, Command::RecreateTarget(_))));
}

#[test]
fn failed_target_skips_frame_and_retries() {
    let mut c = Compositor::new();
    let cmds = present(&mut c, input(good_frame(), 800, 600), true, false, true);
    assert_eq!(draws(&cmds), 0);
    assert_eq!(cmds.last(), Some(&Command::CallOriginal { timed: false }));
    let next = present(&mut c, input(good_frame(), 800, 600), true, true, true);
    assert!(matches!(next[0], Command::RecreateTarget(_)));
    assert_eq!(draws(&next), 1);
}

#[test]
fn zero_sized_backbuffer_skips_frame() {
    let mut c = Compositor::new();
    present(&mut c, input(good_frame(), 800, 600), true, true, true);
    let cmds = present(&mut c, input(good_frame(), 0, 600), true, true, true);
    assert_eq!(cmds, vec![Command::CallOriginal { timed: false }]);
}

#[test]
fn device_removed_rebuilds_everything() {
    let mut c = Compositor::new();
    present(&mut c, input(good_frame(), 800, 600), true, true, true);
    let mut i = input(good_frame(), 800, 600);
    i.device_removed = true;
    let cmds = present(&mut c, i, true, true, true);
    assert_eq!(cmds[0], Command::Rebuild);
    assert!(matches!(cmds[1], Command::RecreateTarget(_)));
    assert!(matches!(cmds[2], Command::ImportTextures(_)));
    assert!(matches!(cmds[3], Command::Draw(_)));
    assert_eq!(calls_through(&cmds), 1);
}

#[test]
fn failed_rebuild_skips_frame() {
    let mut c = Compositor::new();
    let cmds = present(&mut c, input(good_frame(), 800, 600), false, true, true);
    assert_eq!(cmds, vec![Command::Rebuild, Command::CallOriginal { timed: false }]);
    assert!(c.overlay.is_none());
}

#[test]
fn changed_source_reimports() {
    let mut c = Compositor::new();
    present(&mut c, input(good_frame(), 800, 600), true, true, true);
    let moved = frame(0, 1920, 1080, 0x3000, 0x2000, true);
    let cmds = present(&mut c, input(moved, 800, 600), true, true, true);
    assert_eq!(
        cmds[0],
        Command::ImportTextures(SourceKey { handle_a: 0x3000, handle_b: 0x2000, width: 1920, height: 1080 })
    );
    let resized = frame(0, 1280, 1080, 0x3000, 0x2000, true);
    let cmds = present(&mut c, input(resized, 800, 600), true, true, true);
    assert!(matches!(cmds[0], Command::ImportTextures(_)));
}

#[test]
fn import_failure_tears_down_without_drawing() {
    let mut c = Compositor::new();
    let cmds = present(&mut c, input(good_frame(), 800, 600), true, true, false);
    assert_eq!(draws(&cmds), 0);
    assert_eq!(calls_through(&cmds), 1);
    let n = cmds.len();
    assert_eq!(cmds[n - 2], Command::Teardown);
    assert_eq!(cmds[n - 1], Command::CallOriginal { timed: false });
    assert!(c.overlay.is_none());
    assert_eq!(c.phase, Phase::Idle);
    let next = present(&mut c, input(good_frame(), 800, 600), true, true, true);
    assert_eq!(next[0], Command::Rebuild);
}

#[test]
fn falls_back_to_triangle_without_vertex_buffer() {
    let mut c = Compositor::new();
    let mut cmd = c.step(Event::Present(input(good_frame(), 640, 480)));
    assert_eq!(cmd, Command::Rebuild);
    cmd = c.step(Event::Rebuilt { ok: true, vertex_buffer: false });
    assert!(matches!(cmd, Command::RecreateTarget(_)));
    cmd = c.step(Event::TargetRecreated(true));
    assert!(matches!(cmd, Command::ImportTextures(_)));
    cmd = c.step(Event::Imported(true));
    match cmd {
        Command::Draw(p) => assert_eq!(p.vertex_count, 3),
        other => panic!("expected a draw, got {:?}", other),
    }
}

#[test]
fn only_the_awaited_event_is_accepted() {
    let mut c = Compositor::new();
    assert!(c.accepts_event(&Event::Present(input(good_frame(), 1, 1))));
    assert!(!c.accepts_event(&Event::Drawn));
    c.step(Event::Present(input(good_frame(), 1, 1)));
    assert!(c.accepts_event(&Event::Rebuilt { ok: true, vertex_buffer: true }));
    assert!(!c.accepts_event(&Event::Present(input(good_frame(), 1, 1))));
    assert!(!c.is_idle());
}

#[test]
fn overlay_resize_sets_full_viewport() {
    let mut o = OverlayState {
        viewport: Viewport { x: 0, y: 0, width: 0, height: 0 },
        has_target: false,
        source: None,
        has_vertex_buffer: true,
    };
    o.resize(1280, 720, true);
    assert_eq!(o.viewport, Viewport { x: 0, y: 0, width: 1280, height: 720 });
    assert!(o.has_target);
    assert!(o.has_vertex_buffer);
    o.resize(640, 480, false);
    assert!(!o.has_target);
    assert_eq!(o.viewport.width, 640);
}
