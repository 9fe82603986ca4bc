use external_dx11_overlay::compositor::{Command, Compositor, Event, FrameInput};
use external_dx11_overlay::debug::{dump_debug_data, toggle_window, DebugFeatures};
use external_dx11_overlay::frame::FrameDescriptor;
use external_dx11_overlay::keybind::Action;
use external_dx11_overlay::pipeline::{
    overlay_blend, overlay_state, OverlayBindings, PipelineGuard, PipelineState, ALL_SAMPLES,
    BLEND_INV_SRC_ALPHA, BLEND_ONE, BLEND_SRC_ALPHA, BLEND_ZERO, TOPOLOGY_TRIANGLE_LIST,
};
use external_dx11_overlay::router::RouterPhase;
use external_dx11_overlay::session::{nexus_load, nexus_unload, HookSite, LoadError, Restoration, Session};
use external_dx11_overlay::statistics::{
    get_stats_map, record_statistic, send_frame_times, send_statistic, FRAME_TIME_CUSTOM, FRAME_TIME_DIFF,
    FRAME_TIME_TOTAL,
};

#[test]
fn load_installs_both_hooks_once() {
    let mut s = Session::new();
    assert_eq!(nexus_load(&mut s, 0x10, 0x20), Ok(()));
    assert_eq!(s.interceptor.original(), Some(0x10));
    assert_eq!(s.router.forward_target(), Some(0x20));
    assert_eq!(s.router.phase(), RouterPhase::Active);
    assert_eq!(nexus_load(&mut s, 0x30, 0x40), Err(LoadError::AlreadyLoaded));
    assert_eq!(s.interceptor.original(), Some(0x10));
    assert_eq!(s.router.forward_target(), Some(0x20));
}

#[test]
fn unload_restores_in_reverse_order() {
    let mut s = Session::new();
    nexus_load(&mut s, 0x10, 0x20).unwrap();
    let r = nexus_unload(&mut s);
    assert_eq!(
        r,
        vec![
            Restoration { site: HookSite::WindowProc, entry: 0x20 },
            Restoration { site: HookSite::Present, entry: 0x10 },
        ]
    );
    assert!(!s.interceptor.is_installed());
    assert_eq!(s.router.phase(), RouterPhase::Uninstalled);
    assert!(nexus_unload(&mut s).is_empty());
    assert_eq!(nexus_load(&mut s, 0x50, 0x60), Ok(()));
}

#[test]
fn present_hook_installs_once() {
    let mut s = Session::new();
    assert!(s.interceptor.install(5));
    assert!(!s.interceptor.install(6));
    assert_eq!(s.interceptor.uninstall(), Some(5));
    assert_eq!(s.interceptor.original(), None);
}

#[test]
fn stats_map_starts_with_every_slot_zero() {
    let m = get_stats_map();
    assert_eq!(m.len(), 100);
    for k in 0..100u32 {
        assert_eq!(m.get(&k), Some(&0));
    }
    assert_eq!(m.get(&100), None);
}

#[test]
fn recorded_statistic_replaces_value() {
    let mut m = get_stats_map();
    record_statistic(&mut m, FRAME_TIME_TOTAL, 1234);
    record_statistic(&mut m, FRAME_TIME_TOTAL, 99);
    assert_eq!(m.get(&FRAME_TIME_TOTAL), Some(&99));
    assert_eq!(m.len(), 100);
}

#[test]
fn frame_times_are_queued_with_difference() {
    let mut out = Vec::new();
    send_statistic(&mut out, 7, 8);
    send_frame_times(&mut out, 300, 1000);
    assert_eq!(out, vec![(7, 8), (FRAME_TIME_CUSTOM, 300), (FRAME_TIME_TOTAL, 1000), (FRAME_TIME_DIFF, 700)]);
    let mut wrapped = Vec::new();
    send_frame_times(&mut wrapped, 10, 4);
    assert_eq!(wrapped[2], (FRAME_TIME_DIFF, u32::MAX - 5));
}

#[test]
fn window_toggles() {
    let mut open = false;
    toggle_window(&mut open);
    assert!(open);
    toggle_window(&mut open);
    assert!(!open);
}

#[test]
fn debug_features_toggle_by_action() {
    let mut f = DebugFeatures::new();
    assert!(f.rendering_enabled && f.processing_enabled && !f.debug_overlay_enabled);
    assert!(f.toggle(Action::ToggleRendering));
    assert!(!f.rendering_enabled);
    assert!(f.toggle(Action::ToggleDebugOverlay));
    assert!(f.debug_overlay_enabled);
    assert!(f.toggle(Action::ToggleProcessing));
    assert!(!f.processing_enabled);
    assert!(!f.toggle(Action::DumpDebugData));
    assert_eq!(f, DebugFeatures { rendering_enabled: false, processing_enabled: false, debug_overlay_enabled: true });
}

#[test]
fn dump_reports_size_and_forces_rebuild() {
    let mut c = Compositor::new();
    assert_eq!(dump_debug_data(&mut c), None);
    let input = FrameInput {
        rendering_enabled: true,
        device_removed: false,
        frame: FrameDescriptor { active_index: 0, width: 10, height: 10, handle_a: 1, handle_b: 2, alive: true },
        backbuffer_width: 640,
        backbuffer_height: 480,
    };
    c.step(Event::Present(input));
    c.step(Event::Rebuilt { ok: true, vertex_buffer: true });
    c.step(Event::TargetRecreated(true));
    c.step(Event::Imported(true));
    c.step(Event::Drawn);
    assert!(c.is_idle());
    assert_eq!(dump_debug_data(&mut c), Some((640, 480)));
    assert!(c.overlay.is_none());
    assert_eq!(c.step(Event::Present(input)), Command::Rebuild);
}

type State = PipelineState<&'static str, &'static str, &'static str, &'static str, &'static str, &'static str, &'static str>;

#[test]
fn pipeline_restore_gives_back_every_captured_field() {
    let before: State = PipelineState {
        render_target: Some("host-rtv"),
        depth_stencil: Some("host-dsv"),
        blend_state: None,
        blend_factor: [1, 2, 3, 4],
        sample_mask: 0x0F,
        vertex_shader: Some("host-vs"),
        pixel_shader: None,
        shader_resource: Some("host-srv"),
        sampler: Some("host-sampler"),
        topology: 5,
    };
    let guard = PipelineGuard::capture(before.clone());
    let bound: State = overlay_state(OverlayBindings {
        render_target: "rtv",
        blend_state: "blend",
        vertex_shader: "vs",
        pixel_shader: "ps",
        shader_resource: "srv",
        sampler: "sampler",
    });
    assert_eq!(bound.render_target, Some("rtv"));
    assert_eq!(bound.depth_stencil, None);
    assert_eq!(bound.blend_factor, [0, 0, 0, 0]);
    assert_eq!(bound.sample_mask, ALL_SAMPLES);
    assert_eq!(bound.topology, TOPOLOGY_TRIANGLE_LIST);
    let after = guard.restore();
    assert_eq!(after, before);
}

#[test]
fn blend_is_source_alpha_over() {
    let b = overlay_blend();
    assert!(b.enable);
    assert_eq!((b.src_blend, b.dest_blend), (BLEND_SRC_ALPHA, BLEND_INV_SRC_ALPHA));
    assert_eq!((b.src_blend_alpha, b.dest_blend_alpha), (BLEND_ONE, BLEND_ZERO));
    assert_eq!(b.write_mask, 0x0F);
}
