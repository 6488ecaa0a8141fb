use vstd::prelude::*;

use crate::color::{convert_color, spec_convert_color, Color};
use crate::error::RequestError;
use crate::scene::{Scene, SceneView};
use crate::widget::{RenderState, RgbaImage, UpdateState, Widget, WidgetType, DEFAULT_FONT_SIZE};

verus! {

/// A request for a new, empty slide.
#[derive(Debug)]
pub struct SlideAddRequest {}

/// The number given to the new slide.
#[derive(Debug)]
pub struct SlideAddResponse {
    pub slide_id: u32,
}

/// A request to show slide `slide_id`.
#[derive(Debug)]
pub struct ShowSlideRequest {
    pub slide_id: u32,
}

/// The answer to an accepted [`ShowSlideRequest`].
#[derive(Debug)]
pub struct ShowSlideResponse {}

/// The kind of widget a request asks for.  Rectangle sizes are `f64` bit
/// patterns.
#[derive(Debug)]
pub enum WidgetRequest {
    TextWidget { text: String },
    RectangleWidget { width: u64, height: u64 },
    ImageWidget { path: String },
    VideoWidget { path: String },
}

/// A request to put a widget on slide `slide_id` at `(x, y, z)`; `x` and
/// `y` are `f32` bit patterns.  The widget kind and the colour may be
/// missing from a request as it arrives.
#[derive(Debug)]
pub struct WidgetAddRequest {
    pub slide_id: u32,
    pub x: u32,
    pub y: u32,
    pub z: u32,
    pub color: Option<Color>,
    pub widget: Option<WidgetRequest>,
}

/// The answer to an accepted [`WidgetAddRequest`].
#[derive(Debug)]
pub struct WidgetAddResponse {}

/// What must be fetched before a widget request can be carried out.
#[derive(Debug)]
pub enum MediaTask {
    /// Nothing: the widget is made from the request alone.
    Nothing,
    /// The image file at `path` must be loaded and turned into RGBA pixels.
    LoadImage { path: String },
    /// A video stream must be started from the file at `path`.
    StartVideo { path: String },
}

/// What was fetched for a widget request, as [`widget_media`] asked.
pub enum Media<V> {
    /// Nothing was needed.
    Nothing,
    /// The image, or the text of the error that loading it gave.
    Image { image: Result<RgbaImage, String> },
    /// The started video stream.
    Video { video: V },
}

/// Whether `media` is what [`widget_media`] asks for `request`: an image
/// whose pixels fill it exactly (or the error loading it gave) for a
/// complete image request, a video for a complete video request, and
/// nothing otherwise.
pub open spec fn media_fits<V>(request: WidgetAddRequest, media: Media<V>) -> bool {
    match (request.widget, request.color) {
        (Some(WidgetRequest::ImageWidget { .. }), Some(_)) => match media {
            Media::Image { image: Ok(image) } => image.wf(),
            Media::Image { image: Err(_) } => true,
            _ => false,
        },
        (Some(WidgetRequest::VideoWidget { .. }), Some(_)) => media is Video,
        _ => media is Nothing,
    }
}

/// The widget that a complete request makes, given what was fetched for it:
/// placed as the request says, tagged with the request's slide number, in
/// the request's colour, not yet rendered.
pub open spec fn spec_new_widget<I, C, F, V>(
    request: WidgetAddRequest,
    media: Media<V>,
) -> Widget<I, C, F, V> {
    let color = spec_convert_color(request.color.unwrap());
    let kind = match media {
        Media::Image { image: Ok(image) } => WidgetType::Image { image },
        Media::Video { video } => WidgetType::Video { video },
        _ => match request.widget.unwrap() {
            WidgetRequest::TextWidget { text } => WidgetType::Label {
                text,
                color,
                font: None,
                font_size: DEFAULT_FONT_SIZE,
            },
            WidgetRequest::RectangleWidget { width, height } => WidgetType::Rectangle {
                width,
                height,
                color,
            },
            _ => vstd::pervasive::arbitrary(),
        },
    };
    Widget {
        x: request.x,
        y: request.y,
        z: request.z,
        id: request.slide_id,
        widget: kind,
        render_state: RenderState::NoContent,
        update_state: UpdateState::NeedsUpdate,
    }
}

/// Checks a widget request and says what must be fetched for it.  A request
/// without a widget kind is refused with `MissingWidgetType`; one with a
/// kind but no colour with `MissingColor`.  An image request asks for its
/// image file, a video request for a stream of its video file.
pub fn widget_media(request: &WidgetAddRequest) -> (res: Result<MediaTask, RequestError>)
    ensures
        request.widget is None ==> res == Err::<MediaTask, RequestError>(
            RequestError::MissingWidgetType,
        ),
        request.widget is Some && request.color is None ==> res == Err::<MediaTask, RequestError>(
            RequestError::MissingColor,
        ),
        request.widget is Some && request.color is Some ==> match request.widget.unwrap() {
            WidgetRequest::ImageWidget { path } => res matches Ok(MediaTask::LoadImage { path: p })
                && p@ == path@,
            WidgetRequest::VideoWidget { path } => res matches Ok(MediaTask::StartVideo { path: p })
                && p@ == path@,
            _ => res matches Ok(MediaTask::Nothing),
        },
{
    match &request.widget {
        None => Err(RequestError::MissingWidgetType),
        Some(widget) => match &request.color {
            None => Err(RequestError::MissingColor),
            Some(_) => match widget {
                WidgetRequest::ImageWidget { path } => Ok(MediaTask::LoadImage { path: path.clone() }),
                WidgetRequest::VideoWidget { path } => Ok(MediaTask::StartVideo { path: path.clone() }),
                _ => Ok(MediaTask::Nothing),
            },
        },
    }
}

/// The request handler of the controller: it owns the scene that requests
/// change and that the display shows.  `asset_path` is the directory the
/// controller was started with.
pub struct MyMediaController<I, C, F, V> {
    pub scene: Scene<I, C, F, V>,
    pub asset_path: String,
}

impl<I, C, F, V> MyMediaController<I, C, F, V> {
    /// A controller over a new scene.
    pub fn new(asset_path: String) -> (res: Self)
        ensures
            res.scene.wf(),
            res.scene@ == SceneView::<I, C, F, V>::initial(),
            res.asset_path == asset_path,
    {
        MyMediaController { scene: Scene::new(), asset_path }
    }

    /// Adds an empty slide and answers with its number, one more than the
    /// last number given.
    pub fn add_slide(&mut self, _request: SlideAddRequest) -> (res: SlideAddResponse)
        requires
            old(self).scene.wf(),
            old(self).scene@.next_id < u32::MAX,
        ensures
            final(self).scene.wf(),
            final(self).scene@ == old(self).scene@.with_new_slide(),
            res.slide_id == old(self).scene@.next_id + 1,
            final(self).asset_path == old(self).asset_path,
    {
        let slide_id = self.scene.add_slide();
        SlideAddResponse { slide_id }
    }

    /// Shows the requested slide; refused with `SlideNotFound`, nothing
    /// changed, when there is no such slide.
    pub fn show_slide(&mut self, request: ShowSlideRequest) -> (res: Result<
        ShowSlideResponse,
        RequestError,
    >)
        requires
            old(self).scene.wf(),
        ensures
            final(self).scene.wf(),
            final(self).asset_path == old(self).asset_path,
            res is Ok <==> old(self).scene@.slides.contains_key(request.slide_id),
            res is Ok ==> final(self).scene@ == old(self).scene@.showing(request.slide_id),
            res is Err ==> final(self).scene@ == old(self).scene@ && res
                == Err::<ShowSlideResponse, RequestError>(RequestError::SlideNotFound),
    {
        match self.scene.show_slide(request.slide_id) {
            Ok(()) => Ok(ShowSlideResponse {}),
            Err(e) => Err(e),
        }
    }

    /// Puts the requested widget on its slide, given what [`widget_media`]
    /// asked to fetch.  The checks come in this order: a missing widget
    /// kind (`MissingWidgetType`), a missing colour (`MissingColor`), an
    /// image that could not be loaded (`ImageLoad`, with the loader's
    /// text), a slide that does not exist (`SlideNotFound`).  A refused
    /// request changes nothing; an accepted one puts the new widget on top
    /// of the slide.
    pub fn add_widgets_to_slide(&mut self, request: WidgetAddRequest, media: Media<V>) -> (res:
        Result<WidgetAddResponse, RequestError>)
        requires
            old(self).scene.wf(),
            media_fits(request, media),
        ensures
            final(self).scene.wf(),
            final(self).asset_path == old(self).asset_path,
            res is Err ==> final(self).scene@ == old(self).scene@,
            request.widget is None ==> res == Err::<WidgetAddResponse, RequestError>(
                RequestError::MissingWidgetType,
            ),
            request.widget is Some && request.color is None ==> res == Err::<
                WidgetAddResponse,
                RequestError,
            >(RequestError::MissingColor),
            request.widget is Some && request.color is Some ==> match media {
                Media::Image { image: Err(message) } => res == Err::<
                    WidgetAddResponse,
                    RequestError,
                >(RequestError::ImageLoad { message }),
                _ => {
                    &&& res is Ok <==> old(self).scene@.slides.contains_key(request.slide_id)
                    &&& res is Ok ==> final(self).scene@ == old(self).scene@.with_widget(
                        request.slide_id,
                        spec_new_widget(request, media),
                    )
                    &&& res is Err ==> res == Err::<WidgetAddResponse, RequestError>(
                        RequestError::SlideNotFound,
                    )
                },
            },
    {
        let ghost req = request;
        let ghost fetched = media;
        let slide_id = request.slide_id;
        let x = request.x;
        let y = request.y;
        let z = request.z;
        let kind_request = match request.widget {
            Some(w) => w,
            None => {
                return Err(RequestError::MissingWidgetType);
            },
        };
        let color = match request.color {
            Some(c) => convert_color(c),
            None => {
                return Err(RequestError::MissingColor);
            },
        };
        let kind = match (kind_request, media) {
            (WidgetRequest::ImageWidget { .. }, Media::Image { image: Ok(image) }) => {
                WidgetType::Image { image }
            },
            (WidgetRequest::ImageWidget { .. }, Media::Image { image: Err(message) }) => {
                return Err(RequestError::ImageLoad { message });
            },
            (WidgetRequest::VideoWidget { .. }, Media::Video { video }) => {
                WidgetType::Video { video }
            },
            (WidgetRequest::TextWidget { text }, _) => WidgetType::Label {
                text,
                color,
                font: None,
                font_size: DEFAULT_FONT_SIZE,
            },
            (WidgetRequest::RectangleWidget { width, height }, _) => WidgetType::Rectangle {
                width,
                height,
                color,
            },
            (_, _) => {
                assert(false);
                return Err(RequestError::SlideNotFound);
            },
        };
        let widget = Widget::new(x, y, z, slide_id, kind);
        assert(widget == spec_new_widget::<I, C, F, V>(req, fetched));
        match self.scene.add_widget(slide_id, widget) {
            Ok(()) => Ok(WidgetAddResponse {}),
            Err(e) => Err(e),
        }
    }
}

} // verus!
