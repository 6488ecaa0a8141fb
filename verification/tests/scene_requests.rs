use mpf_mc::color::{convert_color, Color};
use mpf_mc::error::RequestError;
use mpf_mc::scene::Scene;
use mpf_mc::server::{
    widget_media, Media, MediaTask, MyMediaController, ShowSlideRequest, SlideAddRequest,
    WidgetAddRequest, WidgetRequest,
};
use mpf_mc::widget::{RenderState, RgbaImage, UpdateState, WidgetType, DEFAULT_FONT_SIZE};

type Controller = MyMediaController<u32, u64, u8, String>;

fn red() -> Color {
    Color { red: 0x3f80_0000, green: 0, blue: 0, alpha: 0x3f80_0000 }
}

fn request(slide_id: u32, color: Option<Color>, widget: Option<WidgetRequest>) -> WidgetAddRequest {
    WidgetAddRequest { slide_id, x: 0x4120_0000, y: 0x41a0_0000, z: 2, color, widget }
}

#[test]
fn new_scene_shows_empty_slide_zero() {
    let scene: Scene<u32, u64, u8, String> = Scene::new();
    assert_eq!(scene.current_slide_id(), 0);
    assert_eq!(scene.next_slide_id(), 0);
    assert_eq!(scene.current_slide().widgets.len(), 0);
    assert!(scene.slide(0).is_some());
    assert!(scene.slide(1).is_none());
}

#[test]
fn added_slides_get_increasing_fresh_numbers() {
    let mut c: Controller = MyMediaController::new("assets".to_string());
    let first = c.add_slide(SlideAddRequest {});
    let second = c.add_slide(SlideAddRequest {});
    assert_eq!(first.slide_id, 1);
    assert_eq!(second.slide_id, 2);
    assert_eq!(c.scene.next_slide_id(), 2);
    assert_eq!(c.scene.slide(2).unwrap().widgets.len(), 0);
    // Adding slides does not change the slide on show.
    assert_eq!(c.scene.current_slide_id(), 0);
    assert_eq!(c.asset_path, "assets");
}

#[test]
fn show_added_slide_succeeds() {
    let mut c: Controller = MyMediaController::new(String::new());
    let added = c.add_slide(SlideAddRequest {});
    assert!(c.show_slide(ShowSlideRequest { slide_id: added.slide_id }).is_ok());
    assert_eq!(c.scene.current_slide_id(), 1);
    assert!(c.show_slide(ShowSlideRequest { slide_id: 0 }).is_ok());
    assert_eq!(c.scene.current_slide_id(), 0);
}

#[test]
fn show_unknown_slide_is_refused_and_changes_nothing() {
    let mut c: Controller = MyMediaController::new(String::new());
    c.add_slide(SlideAddRequest {});
    c.show_slide(ShowSlideRequest { slide_id: 1 }).unwrap();
    match c.show_slide(ShowSlideRequest { slide_id: 7 }) {
        Err(e) => {
            assert!(matches!(e, RequestError::SlideNotFound));
            assert_eq!(e.message(), "Could not find slide");
        }
        Ok(_) => panic!("slide 7 does not exist"),
    }
    assert_eq!(c.scene.current_slide_id(), 1);
}

#[test]
fn text_widget_is_read_back_on_its_slide() {
    let mut c: Controller = MyMediaController::new(String::new());
    c.add_slide(SlideAddRequest {});
    let req = request(1, Some(red()), Some(WidgetRequest::TextWidget { text: "Hello".to_string() }));
    assert!(matches!(widget_media(&req), Ok(MediaTask::Nothing)));
    assert!(c.add_widgets_to_slide(req, Media::Nothing).is_ok());
    let slide = c.scene.slide(1).unwrap();
    assert_eq!(slide.widgets.len(), 1);
    let w = &slide.widgets[0];
    assert_eq!((w.x, w.y, w.z, w.id), (0x4120_0000, 0x41a0_0000, 2, 1));
    assert_eq!(w.update_state, UpdateState::NeedsUpdate);
    assert!(matches!(w.render_state, RenderState::NoContent));
    match &w.widget {
        WidgetType::Label { text, color, font, font_size } => {
            assert_eq!(text, "Hello");
            assert_eq!(*color, [0x3f80_0000, 0, 0, 0x3f80_0000]);
            assert!(font.is_none());
            assert_eq!(*font_size, DEFAULT_FONT_SIZE);
            assert_eq!(*font_size, 16);
        }
        _ => panic!("expected a label"),
    }
    // Slide 0 is untouched.
    assert_eq!(c.scene.slide(0).unwrap().widgets.len(), 0);
}

#[test]
fn widgets_stack_in_order_of_arrival() {
    let mut c: Controller = MyMediaController::new(String::new());
    let rect = WidgetRequest::RectangleWidget { width: 0x4059_0000_0000_0000, height: 0x4049_0000_0000_0000 };
    c.add_widgets_to_slide(request(0, Some(red()), Some(rect)), Media::Nothing).unwrap();
    let text = WidgetRequest::TextWidget { text: "top".to_string() };
    c.add_widgets_to_slide(request(0, Some(red()), Some(text)), Media::Nothing).unwrap();
    let ws = &c.scene.current_slide().widgets;
    assert_eq!(ws.len(), 2);
    match &ws[0].widget {
        WidgetType::Rectangle { width, height, color } => {
            assert_eq!(*width, 0x4059_0000_0000_0000);
            assert_eq!(*height, 0x4049_0000_0000_0000);
            assert_eq!(*color, convert_color(red()));
        }
        _ => panic!("expected a rectangle"),
    }
    assert!(matches!(ws[1].widget, WidgetType::Label { .. }));
}

#[test]
fn missing_widget_type_comes_first() {
    let mut c: Controller = MyMediaController::new(String::new());
    let req = request(9, None, None);
    assert!(matches!(widget_media(&req), Err(RequestError::MissingWidgetType)));
    let err = c.add_widgets_to_slide(req, Media::Nothing).unwrap_err();
    assert!(matches!(err, RequestError::MissingWidgetType));
    assert_eq!(err.message(), "Missing Widget Type");
}

#[test]
fn missing_color_comes_before_missing_slide() {
    let mut c: Controller = MyMediaController::new(String::new());
    let req = request(9, None, Some(WidgetRequest::ImageWidget { path: "a.png".to_string() }));
    assert!(matches!(widget_media(&req), Err(RequestError::MissingColor)));
    let err = c.add_widgets_to_slide(req, Media::Nothing).unwrap_err();
    assert!(matches!(err, RequestError::MissingColor));
    assert_eq!(err.message(), "Missing Color");
}

#[test]
fn image_error_comes_before_missing_slide() {
    let mut c: Controller = MyMediaController::new(String::new());
    let req = request(9, Some(red()), Some(WidgetRequest::ImageWidget { path: "a.png".to_string() }));
    match widget_media(&req) {
        Ok(MediaTask::LoadImage { path }) => assert_eq!(path, "a.png"),
        _ => panic!("an image request asks for its image"),
    }
    let media = Media::Image { image: Err("No such file or directory (os error 2)".to_string()) };
    let err = c.add_widgets_to_slide(req, media).unwrap_err();
    assert_eq!(err.message(), "No such file or directory (os error 2)");
    assert!(matches!(err, RequestError::ImageLoad { .. }));
    assert_eq!(c.scene.current_slide().widgets.len(), 0);
}

#[test]
fn widget_for_unknown_slide_is_refused() {
    let mut c: Controller = MyMediaController::new(String::new());
    let req = request(3, Some(red()), Some(WidgetRequest::TextWidget { text: "x".to_string() }));
    let err = c.add_widgets_to_slide(req, Media::Nothing).unwrap_err();
    assert!(matches!(err, RequestError::SlideNotFound));
    assert_eq!(c.scene.current_slide().widgets.len(), 0);
}

#[test]
fn loaded_image_becomes_an_image_widget() {
    let mut c: Controller = MyMediaController::new(String::new());
    let req = request(0, Some(red()), Some(WidgetRequest::ImageWidget { path: "a.png".to_string() }));
    let image = RgbaImage { width: 1, height: 2, data: vec![1, 2, 3, 4, 5, 6, 7, 8] };
    c.add_widgets_to_slide(req, Media::Image { image: Ok(image) }).unwrap();
    match &c.scene.current_slide().widgets[0].widget {
        WidgetType::Image { image } => {
            assert_eq!((image.width, image.height), (1, 2));
            assert_eq!(image.data, vec![1, 2, 3, 4, 5, 6, 7, 8]);
        }
        _ => panic!("expected an image"),
    }
}

#[test]
fn started_video_becomes_a_video_widget() {
    let mut c: Controller = MyMediaController::new(String::new());
    let req = request(0, Some(red()), Some(WidgetRequest::VideoWidget { path: "v.mp4".to_string() }));
    match widget_media(&req) {
        Ok(MediaTask::StartVideo { path }) => assert_eq!(path, "v.mp4"),
        _ => panic!("a video request asks for a stream"),
    }
    c.add_widgets_to_slide(req, Media::Video { video: "stream".to_string() }).unwrap();
    match &c.scene.current_slide().widgets[0].widget {
        WidgetType::Video { video } => assert_eq!(video, "stream"),
        _ => panic!("expected a video"),
    }
}

#[test]
fn widget_on_shown_slide_is_shown() {
    let mut c: Controller = MyMediaController::new(String::new());
    c.add_slide(SlideAddRequest {});
    c.show_slide(ShowSlideRequest { slide_id: 1 }).unwrap();
    let req = request(1, Some(red()), Some(WidgetRequest::TextWidget { text: "x".to_string() }));
    c.add_widgets_to_slide(req, Media::Nothing).unwrap();
    assert_eq!(c.scene.current_slide().widgets.len(), 1);
    assert_eq!(c.scene.current_pending_updates(), vec![0]);
}

#[test]
fn convert_color_orders_channels() {
    let c = Color { red: 1, green: 2, blue: 3, alpha: 4 };
    assert_eq!(convert_color(c), [1, 2, 3, 4]);
}
