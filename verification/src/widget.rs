use vstd::prelude::*;

verus! {

/// The text size of a label, in pixels, when the request does not give one
/// (the renderer's own default text scale).
pub const DEFAULT_FONT_SIZE: u32 = 16;

/// An image held as 8-bit RGBA pixels, row by row.
#[derive(Debug)]
pub struct RgbaImage {
    pub width: u32,
    pub height: u32,
    pub data: Vec<u8>,
}

impl RgbaImage {
    /// The pixels fill the image exactly: four bytes for each of its
    /// `width * height` pixels.
    pub open spec fn wf(&self) -> bool {
        self.data@.len() == 4 * self.width * self.height
    }
}

/// What a widget shows.  Floating-point geometry is held as IEEE-754 bit
/// patterns (`u32` for `f32`, `u64` for `f64`).  `F` is the renderer's font
/// handle and `V` the running video stream of a video widget.
#[allow(inconsistent_fields)]
pub enum WidgetType<F, V> {
    Label { text: String, color: [u32; 4], font: Option<F>, font_size: u32 },
    Rectangle { width: u64, height: u64, color: [u32; 4] },
    Image { image: RgbaImage },
    ImageSprite { image: RgbaImage },
    ImageAnimated { image: RgbaImage },
    Video { video: V },
    Line { x1: u32, x2: u32, y1: u32, y2: u32, color: [u32; 4], width: u32 },
}

/// What a widget last rendered: a texture made from pixels (`I`), a canvas
/// drawn off-screen (`C`), or nothing yet.
pub enum RenderState<I, C> {
    ImageTextureRendered { image_texture: I },
    CanvasRendered { canvas: C },
    NoContent,
}

/// Whether a widget must be rendered again before it is drawn.
#[derive(Clone, Copy, Debug, PartialEq, Eq, Structural)]
pub enum UpdateState {
    NeedsUpdate,
    Clean,
}

/// One widget of a slide.  `x` and `y` are `f32` bit patterns; `id` is the
/// slide the widget was added to.
pub struct Widget<I, C, F, V> {
    pub x: u32,
    pub y: u32,
    pub z: u32,
    pub id: u32,
    pub widget: WidgetType<F, V>,
    pub render_state: RenderState<I, C>,
    pub update_state: UpdateState,
}

/// The work the renderer has to do to bring a widget up to date.
#[derive(Clone, Copy, Debug, PartialEq, Eq, Structural)]
pub enum UpdateTask {
    /// Draw the label's text into a canvas (loading the font first if the
    /// widget has none yet).
    RenderLabel,
    /// Draw the filled rectangle into a canvas.
    RenderRectangle,
    /// Turn the image's pixels into a texture.
    UploadImage,
    /// Ask the video stream whether it has ended, else take its latest frame.
    PollVideo,
    /// Draw the line into a canvas.
    RenderLine,
    /// Nothing is rendered for this kind of widget.
    Skip,
}

/// What the renderer reports back after doing an [`UpdateTask`].
pub enum UpdateOutcome<I, C> {
    /// A label, rectangle or line was drawn into this canvas.
    Rendered { canvas: C },
    /// An image was turned into this texture.
    Uploaded { image_texture: I },
    /// The video stream has reached its end.
    EndOfStream,
    /// The video stream's latest frame was turned into this texture.
    NewFrame { image_texture: I },
    /// The video stream has no frame yet.
    NoFrame,
}

/// The task that brings a widget of kind `w` up to date.
pub open spec fn spec_update_task<F, V>(w: WidgetType<F, V>) -> UpdateTask {
    match w {
        WidgetType::Label { .. } => UpdateTask::RenderLabel,
        WidgetType::Rectangle { .. } => UpdateTask::RenderRectangle,
        WidgetType::Image { .. } => UpdateTask::UploadImage,
        WidgetType::ImageSprite { .. } => UpdateTask::Skip,
        WidgetType::ImageAnimated { .. } => UpdateTask::Skip,
        WidgetType::Video { .. } => UpdateTask::PollVideo,
        WidgetType::Line { .. } => UpdateTask::RenderLine,
    }
}

/// A widget whose kind and placement are those of `w`, with the given
/// render and update state.
pub open spec fn with_states<I, C, F, V>(
    w: Widget<I, C, F, V>,
    render_state: RenderState<I, C>,
    update_state: UpdateState,
) -> Widget<I, C, F, V> {
    Widget {
        x: w.x,
        y: w.y,
        z: w.z,
        id: w.id,
        widget: w.widget,
        render_state,
        update_state,
    }
}

/// The widget `w` after the renderer reported `outcome`: a drawn canvas or
/// an uploaded image is kept and the widget becomes clean; a new video
/// frame is kept but the widget stays due for the next frame; the end of
/// the stream makes it clean; no frame changes nothing.
pub open spec fn spec_complete_update<I, C, F, V>(
    w: Widget<I, C, F, V>,
    outcome: UpdateOutcome<I, C>,
) -> Widget<I, C, F, V> {
    match outcome {
        UpdateOutcome::Rendered { canvas } => with_states(
            w,
            RenderState::CanvasRendered { canvas },
            UpdateState::Clean,
        ),
        UpdateOutcome::Uploaded { image_texture } => with_states(
            w,
            RenderState::ImageTextureRendered { image_texture },
            UpdateState::Clean,
        ),
        UpdateOutcome::EndOfStream => with_states(w, w.render_state, UpdateState::Clean),
        UpdateOutcome::NewFrame { image_texture } => with_states(
            w,
            RenderState::ImageTextureRendered { image_texture },
            w.update_state,
        ),
        UpdateOutcome::NoFrame => w,
    }
}

/// The label `w` with `font` remembered as its font, if it has none yet; a
/// label that already has a font keeps it, and other widgets are unchanged.
pub open spec fn spec_with_font<I, C, F, V>(w: Widget<I, C, F, V>, font: F) -> Widget<I, C, F, V> {
    match w.widget {
        WidgetType::Label { text, color, font: None, font_size } => Widget {
            widget: WidgetType::Label { text, color, font: Some(font), font_size },
            ..w
        },
        _ => w,
    }
}

/// Whether `outcome` is something the renderer can report for `task`: a
/// drawn canvas for a label, rectangle or line, a texture for an image, the
/// end, a new frame or no frame for a video, and nothing at all for a
/// widget that is skipped.
pub open spec fn outcome_fits<I, C>(task: UpdateTask, outcome: UpdateOutcome<I, C>) -> bool {
    match outcome {
        UpdateOutcome::Rendered { .. } => task == UpdateTask::RenderLabel || task
            == UpdateTask::RenderRectangle || task == UpdateTask::RenderLine,
        UpdateOutcome::Uploaded { .. } => task == UpdateTask::UploadImage,
        UpdateOutcome::EndOfStream => task == UpdateTask::PollVideo,
        UpdateOutcome::NewFrame { .. } => task == UpdateTask::PollVideo,
        UpdateOutcome::NoFrame => task == UpdateTask::PollVideo,
    }
}

impl<I, C, F, V> Widget<I, C, F, V> {
    /// A widget of kind `widget` at `(x, y, z)` on slide `id` that has not
    /// been rendered yet.
    pub fn new(x: u32, y: u32, z: u32, id: u32, widget: WidgetType<F, V>) -> (res: Self)
        ensures
            res.x == x,
            res.y == y,
            res.z == z,
            res.id == id,
            res.widget == widget,
            res.render_state == RenderState::<I, C>::NoContent,
            res.update_state == UpdateState::NeedsUpdate,
    {
        Widget {
            x,
            y,
            z,
            id,
            widget,
            render_state: RenderState::NoContent,
            update_state: UpdateState::NeedsUpdate,
        }
    }

    /// Whether the widget must be rendered again.
    pub fn needs_update(&self) -> (res: bool)
        ensures
            res == (self.update_state == UpdateState::NeedsUpdate),
    {
        match self.update_state {
            UpdateState::NeedsUpdate => true,
            UpdateState::Clean => false,
        }
    }

    /// The work that brings this widget up to date.
    pub fn update_task(&self) -> (res: UpdateTask)
        ensures
            res == spec_update_task(self.widget),
    {
        match &self.widget {
            WidgetType::Label { .. } => UpdateTask::RenderLabel,
            WidgetType::Rectangle { .. } => UpdateTask::RenderRectangle,
            WidgetType::Image { .. } => UpdateTask::UploadImage,
            WidgetType::ImageSprite { .. } => UpdateTask::Skip,
            WidgetType::ImageAnimated { .. } => UpdateTask::Skip,
            WidgetType::Video { .. } => UpdateTask::PollVideo,
            WidgetType::Line { .. } => UpdateTask::RenderLine,
        }
    }

    /// The font this label has loaded, if it is a label and has loaded one.
    pub fn label_font(&self) -> (res: Option<&F>)
        ensures
            res == (match self.widget {
                WidgetType::Label { font, .. } => match font {
                    Some(f) => Some(&f),
                    None => None,
                },
                _ => None,
            }),
    {
        match &self.widget {
            WidgetType::Label { font, .. } => match font {
                Some(f) => Some(f),
                None => None,
            },
            _ => None,
        }
    }

    /// Remembers `font` as the font of this label, so that it is loaded
    /// only once: a label that already has a font keeps it, and a widget
    /// that is not a label is left as it is.
    pub fn cache_font(&mut self, font: F)
        ensures
            *final(self) == spec_with_font(*old(self), font),
    {
        match &mut self.widget {
            WidgetType::Label { font: slot, .. } => {
                if slot.is_none() {
                    *slot = Some(font);
                }
            },
            _ => {},
        }
    }

    /// Records what the renderer produced for this widget's update task.
    pub fn complete_update(&mut self, outcome: UpdateOutcome<I, C>)
        requires
            outcome_fits(spec_update_task(old(self).widget), outcome),
        ensures
            *final(self) == spec_complete_update(*old(self), outcome),
    {
        match outcome {
            UpdateOutcome::Rendered { canvas } => {
                self.render_state = RenderState::CanvasRendered { canvas };
                self.update_state = UpdateState::Clean;
            },
            UpdateOutcome::Uploaded { image_texture } => {
                self.render_state = RenderState::ImageTextureRendered { image_texture };
                self.update_state = UpdateState::Clean;
            },
            UpdateOutcome::EndOfStream => {
                self.update_state = UpdateState::Clean;
            },
            UpdateOutcome::NewFrame { image_texture } => {
                self.render_state = RenderState::ImageTextureRendered { image_texture };
            },
            UpdateOutcome::NoFrame => {},
        }
    }
}

} // verus!
