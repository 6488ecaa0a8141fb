use mpf_mc::display::report_frame_stats;
use mpf_mc::pipeline::{classify_stream, starts_with, StreamKind};
use mpf_mc::scene::Scene;
use mpf_mc::widget::{RenderState, RgbaImage, UpdateOutcome, UpdateState, UpdateTask, Widget, WidgetType};

type W = Widget<u32, u64, u8, u16>;

fn label() -> WidgetType<u8, u16> {
    WidgetType::Label { text: "t".to_string(), color: [0, 0, 0, 0], font: None, font_size: 16 }
}

fn image() -> RgbaImage {
    RgbaImage { width: 0, height: 0, data: vec![] }
}

fn scene_with(kinds: Vec<WidgetType<u8, u16>>) -> Scene<u32, u64, u8, u16> {
    let mut scene = Scene::new();
    for k in kinds {
        scene.add_widget(0, Widget::new(0, 0, 0, 0, k)).unwrap();
    }
    scene
}

#[test]
fn update_tasks_follow_widget_kind() {
    let kinds: Vec<(WidgetType<u8, u16>, UpdateTask)> = vec![
        (label(), UpdateTask::RenderLabel),
        (WidgetType::Rectangle { width: 0, height: 0, color: [0; 4] }, UpdateTask::RenderRectangle),
        (WidgetType::Image { image: image() }, UpdateTask::UploadImage),
        (WidgetType::ImageSprite { image: image() }, UpdateTask::Skip),
        (WidgetType::ImageAnimated { image: image() }, UpdateTask::Skip),
        (WidgetType::Video { video: 5 }, UpdateTask::PollVideo),
        (WidgetType::Line { x1: 0, x2: 0, y1: 0, y2: 0, color: [0; 4], width: 0 }, UpdateTask::RenderLine),
    ];
    for (kind, task) in kinds {
        let w: W = Widget::new(0, 0, 0, 0, kind);
        assert_eq!(w.update_task(), task);
    }
}

#[test]
fn rendered_widget_is_clean_and_no_longer_pending() {
    let mut scene = scene_with(vec![label(), label()]);
    assert_eq!(scene.current_pending_updates(), vec![0, 1]);
    scene.complete_current_update(1, UpdateOutcome::Rendered { canvas: 77 });
    assert_eq!(scene.current_pending_updates(), vec![0]);
    let w = &scene.current_slide().widgets[1];
    assert_eq!(w.update_state, UpdateState::Clean);
    assert!(matches!(w.render_state, RenderState::CanvasRendered { canvas: 77 }));
}

#[test]
fn uploaded_image_is_clean() {
    let mut scene = scene_with(vec![WidgetType::Image { image: image() }]);
    scene.complete_current_update(0, UpdateOutcome::Uploaded { image_texture: 3 });
    let w = &scene.current_slide().widgets[0];
    assert_eq!(w.update_state, UpdateState::Clean);
    assert!(matches!(w.render_state, RenderState::ImageTextureRendered { image_texture: 3 }));
    assert!(scene.current_pending_updates().is_empty());
}

#[test]
fn video_frames_keep_the_widget_pending_until_the_end() {
    let mut scene = scene_with(vec![WidgetType::Video { video: 1 }]);
    scene.complete_current_update(0, UpdateOutcome::NoFrame);
    assert!(matches!(scene.current_slide().widgets[0].render_state, RenderState::NoContent));
    scene.complete_current_update(0, UpdateOutcome::NewFrame { image_texture: 10 });
    assert_eq!(scene.current_pending_updates(), vec![0]);
    scene.complete_current_update(0, UpdateOutcome::NewFrame { image_texture: 11 });
    assert!(matches!(
        scene.current_slide().widgets[0].render_state,
        RenderState::ImageTextureRendered { image_texture: 11 }
    ));
    scene.complete_current_update(0, UpdateOutcome::EndOfStream);
    assert!(scene.current_pending_updates().is_empty());
    // The last frame stays on show.
    assert!(matches!(
        scene.current_slide().widgets[0].render_state,
        RenderState::ImageTextureRendered { image_texture: 11 }
    ));
}

#[test]
fn sprites_stay_pending() {
    let scene = scene_with(vec![WidgetType::ImageSprite { image: image() }, label()]);
    assert_eq!(scene.current_update_task(0), UpdateTask::Skip);
    assert_eq!(scene.current_pending_updates(), vec![0, 1]);
}

#[test]
fn label_font_is_cached_once_loaded() {
    let mut scene = scene_with(vec![label()]);
    assert!(scene.current_slide().widgets[0].label_font().is_none());
    scene.cache_current_font(0, 9);
    assert_eq!(scene.current_slide().widgets[0].label_font(), Some(&9));
    // A widget that is not a label has no font to remember.
    let mut w: W = Widget::new(0, 0, 0, 0, WidgetType::Video { video: 0 });
    w.cache_font(4);
    assert!(w.label_font().is_none());
}

#[test]
fn updates_touch_only_the_shown_slide() {
    let mut scene = scene_with(vec![label()]);
    let id = scene.add_slide();
    scene.add_widget(id, Widget::new(0, 0, 0, id, label())).unwrap();
    scene.show_slide(id).unwrap();
    scene.complete_current_update(0, UpdateOutcome::Rendered { canvas: 1 });
    assert_eq!(scene.slide(0).unwrap().widgets[0].update_state, UpdateState::NeedsUpdate);
    assert_eq!(scene.slide(id).unwrap().widgets[0].update_state, UpdateState::Clean);
}

#[test]
fn streams_are_classified_by_media_type() {
    assert_eq!(classify_stream("audio/x-raw"), StreamKind { is_audio: true, is_video: false });
    assert_eq!(classify_stream("video/x-raw"), StreamKind { is_audio: false, is_video: true });
    assert_eq!(classify_stream("text/x-raw"), StreamKind { is_audio: false, is_video: false });
    assert_eq!(classify_stream("audio"), StreamKind { is_audio: false, is_video: false });
    assert!(starts_with("abc", ""));
    assert!(!starts_with("", "a"));
}

#[test]
fn frame_stats_every_hundredth_frame() {
    assert!(report_frame_stats(0));
    assert!(!report_frame_stats(99));
    assert!(report_frame_stats(100));
    assert!(report_frame_stats(300));
    assert!(!report_frame_stats(301));
}

#[test]
fn rendering_keeps_position_and_content() {
    let mut w: W = Widget::new(0x4120_0000, 7, 3, 2, label());
    w.cache_font(5);
    w.complete_update(UpdateOutcome::Rendered { canvas: 8 });
    assert_eq!((w.x, w.y, w.z, w.id), (0x4120_0000, 7, 3, 2));
    assert_eq!(w.label_font(), Some(&5));
    match &w.widget {
        WidgetType::Label { text, font_size, .. } => {
            assert_eq!(text, "t");
            assert_eq!(*font_size, 16);
        }
        _ => panic!("expected a label"),
    }
}

#[test]
fn label_font_is_remembered_only_once() {
    let mut scene = scene_with(vec![label()]);
    scene.cache_current_font(0, 9);
    scene.cache_current_font(0, 10);
    assert_eq!(scene.current_slide().widgets[0].label_font(), Some(&9));
}

#[test]
fn second_update_round_does_nothing() {
    let mut scene = scene_with(vec![
        label(),
        WidgetType::Image { image: image() },
        WidgetType::Rectangle { width: 0, height: 0, color: [0; 4] },
    ]);
    for index in scene.current_pending_updates() {
        let outcome = match scene.current_update_task(index) {
            UpdateTask::UploadImage => UpdateOutcome::Uploaded { image_texture: index as u32 },
            _ => UpdateOutcome::Rendered { canvas: index as u64 },
        };
        scene.complete_current_update(index, outcome);
    }
    assert!(scene.current_pending_updates().is_empty());
}

#[test]
fn added_slide_stays_showable() {
    let mut scene = scene_with(vec![label()]);
    let id = scene.add_slide();
    scene.add_slide();
    scene.show_slide(0).unwrap();
    scene.add_widget(id, Widget::new(0, 0, 0, id, label())).unwrap();
    assert!(scene.show_slide(7).is_err());
    assert!(scene.show_slide(id).is_ok());
    assert_eq!(scene.current_slide_id(), id);
    assert_eq!(scene.next_slide_id(), 2);
}
