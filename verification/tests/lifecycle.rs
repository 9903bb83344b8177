use crt_post::lifecycle::Phase;
use crt_post::lifecycle::Stage;
use crt_post::lifecycle::TargetStore;
use crt_post::texture::Rgba;

#[test]
fn store_creates_fresh_handles() {
    let mut store = TargetStore::new();
    let a = store.create(640, 480);
    let b = store.create(640, 480);
    assert_ne!(a.id, b.id);
    assert_eq!(store.live_count(), 2);
    store.destroy(a.id);
    assert_eq!(store.live_count(), 1);
    store.destroy(b.id);
    assert_eq!(store.live_count(), 0);
}

#[test]
fn new_stage_allocates_one_target_at_window_size() {
    let stage = Stage::new(800, 600);
    assert_eq!(stage.phase, Phase::Idle);
    assert_eq!(stage.target.width, 800);
    assert_eq!(stage.target.height, 600);
    assert_eq!(stage.store.live_count(), 1);
    assert_eq!(stage.frames, 0);
}

#[test]
fn resize_replaces_target_exactly() {
    let mut stage = Stage::new(800, 600);
    let old_id = stage.target.id;
    stage.resize_event(1024, 768);
    assert_eq!(stage.target.width, 1024);
    assert_eq!(stage.target.height, 768);
    assert_ne!(stage.target.id, old_id);
    assert_eq!(stage.store.live_count(), 1);
}

#[test]
fn hundred_resizes_leak_nothing() {
    let mut stage = Stage::new(800, 600);
    for i in 0..100u32 {
        let w = 100 + i;
        let h = 100 + 2 * i;
        stage.resize_event(w, h);
        assert_eq!(stage.store.live_count(), 1);
        assert_eq!(stage.target.width, w);
        assert_eq!(stage.target.height, h);
    }
    assert_eq!(stage.store.live_count(), 1);
}

#[test]
fn frame_protocol_orders_passes_and_recomputes_uniforms() {
    let mut stage = Stage::new(800, 600);

    stage.begin_gui_frame();
    assert_eq!(stage.phase, Phase::GuiOpen);
    stage.end_gui_frame();
    let gui_target = stage.gui_pass();
    assert_eq!(gui_target.id, stage.target.id);
    let p = stage.composite_pass();
    assert_eq!(p.clear, Rgba { r: 255, g: 255, b: 255, a: 255 });
    assert_eq!(p.texture.id, gui_target.id);
    assert_eq!(p.uniforms.res_x, 800);
    assert_eq!(p.uniforms.res_y, 600);
    assert_eq!(p.uniforms.offset_x, 0);
    assert_eq!(p.uniforms.offset_y, 0);
    assert_eq!(p.index_count, 6);
    assert_eq!(p.instances, 1);
    stage.present();
    assert_eq!(stage.phase, Phase::Idle);
    assert_eq!(stage.frames, 1);

    // After a resize the next frame's uniforms come from the live window
    // size, never from a stale cache.
    stage.resize_event(1024, 768);
    stage.begin_gui_frame();
    stage.end_gui_frame();
    let t2 = stage.gui_pass();
    let p2 = stage.composite_pass();
    assert_eq!(p2.uniforms.res_x, 1024);
    assert_eq!(p2.uniforms.res_y, 768);
    assert_eq!(p2.texture.id, t2.id);
    assert_eq!(p2.texture.width, 1024);
    stage.present();
    assert_eq!(stage.frames, 2);
}

#[test]
fn offset_is_configurable_and_flows_into_uniforms() {
    let mut stage = Stage::new(800, 600);
    stage.set_offset(7, -3);
    stage.begin_gui_frame();
    stage.end_gui_frame();
    stage.gui_pass();
    let p = stage.composite_pass();
    assert_eq!(p.uniforms.offset_x, 7);
    assert_eq!(p.uniforms.offset_y, -3);
    stage.present();
}
