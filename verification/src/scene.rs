use std::collections::HashMap;

use vstd::prelude::*;

use crate::error::RequestError;
use crate::slide::{spec_pending_updates, Slide};
use crate::widget::{outcome_fits, spec_complete_update, spec_update_task, spec_with_font, UpdateOutcome, UpdateTask, Widget};

verus! {

broadcast use vstd::std_specs::hash::group_hash_axioms;

/// The abstract state of a scene: the widgets of each slide by number, the
/// number of the slide on show, and the last number given to a slide.
pub struct SceneView<I, C, F, V> {
    pub slides: Map<u32, Seq<Widget<I, C, F, V>>>,
    pub current: u32,
    pub next_id: u32,
}

impl<I, C, F, V> SceneView<I, C, F, V> {
    /// Slides are numbered `0..=next_id` without gaps, and the slide on
    /// show is one of them.
    pub open spec fn wf(self) -> bool {
        &&& forall|id: u32| #[trigger] self.slides.contains_key(id) <==> id <= self.next_id
        &&& self.current <= self.next_id
    }

    /// A new scene: one empty slide, number 0, on show.
    pub open spec fn initial() -> Self {
        SceneView {
            slides: Map::<u32, Seq<Widget<I, C, F, V>>>::empty().insert(0, Seq::empty()),
            current: 0,
            next_id: 0,
        }
    }

    /// The scene after a slide is added: it gets the next number and no
    /// widgets; the slide on show stays.
    pub open spec fn with_new_slide(self) -> Self {
        SceneView {
            slides: self.slides.insert((self.next_id + 1) as u32, Seq::empty()),
            current: self.current,
            next_id: (self.next_id + 1) as u32,
        }
    }

    /// The scene with slide `id` on show.
    pub open spec fn showing(self, id: u32) -> Self {
        SceneView { slides: self.slides, current: id, next_id: self.next_id }
    }

    /// The scene with `w` put on top of slide `id`.
    pub open spec fn with_widget(self, id: u32, w: Widget<I, C, F, V>) -> Self {
        SceneView {
            slides: self.slides.insert(id, self.slides[id].push(w)),
            current: self.current,
            next_id: self.next_id,
        }
    }

    /// The scene with the widget at `index` of the slide on show replaced by `w`.
    pub open spec fn with_current_widget(self, index: int, w: Widget<I, C, F, V>) -> Self {
        SceneView {
            slides: self.slides.insert(self.current, self.slides[self.current].update(index, w)),
            current: self.current,
            next_id: self.next_id,
        }
    }

    /// The widgets of the slide on show.
    pub open spec fn current_widgets(self) -> Seq<Widget<I, C, F, V>> {
        self.slides[self.current]
    }
}

/// All slides and which one is shown.
pub struct Scene<I, C, F, V> {
    slides: HashMap<u32, Slide<I, C, F, V>>,
    current_slide: u32,
    next_slide_id: u32,
}

impl<I, C, F, V> View for Scene<I, C, F, V> {
    type V = SceneView<I, C, F, V>;

    closed spec fn view(&self) -> SceneView<I, C, F, V> {
        SceneView {
            slides: self.slides@.map_values(|s: Slide<I, C, F, V>| s.widgets@),
            current: self.current_slide,
            next_id: self.next_slide_id,
        }
    }
}

impl<I, C, F, V> Scene<I, C, F, V> {
    /// The scene's state is well formed.
    pub open spec fn wf(&self) -> bool {
        self@.wf()
    }

    /// A scene holding one empty slide, number 0, which is on show.
    pub fn new() -> (res: Self)
        ensures
            res.wf(),
            res@ == SceneView::<I, C, F, V>::initial(),
    {
        let mut slides: HashMap<u32, Slide<I, C, F, V>> = HashMap::new();
        slides.insert(0, Slide::new());
        let res = Scene { slides, current_slide: 0, next_slide_id: 0 };
        assert(res@.slides =~= SceneView::<I, C, F, V>::initial().slides);
        res
    }

    /// The last number given to a slide.
    pub fn next_slide_id(&self) -> (res: u32)
        ensures
            res == self@.next_id,
    {
        self.next_slide_id
    }

    /// The number of the slide on show.
    pub fn current_slide_id(&self) -> (res: u32)
        ensures
            res == self@.current,
    {
        self.current_slide
    }

    /// The slide numbered `id`, if there is one.
    pub fn slide(&self, id: u32) -> (res: Option<&Slide<I, C, F, V>>)
        ensures
            match res {
                Some(s) => self@.slides.contains_key(id) && s.widgets@ == self@.slides[id],
                None => !self@.slides.contains_key(id),
            },
    {
        self.slides.get(&id)
    }

    /// The slide on show.  It always exists.
    pub fn current_slide(&self) -> (res: &Slide<I, C, F, V>)
        requires
            self.wf(),
        ensures
            self@.slides.contains_key(self@.current),
            res.widgets@ == self@.current_widgets(),
    {
        assert(self@.slides.contains_key(self@.current));
        self.slides.get(&self.current_slide).unwrap()
    }

    /// Adds an empty slide under the next free number and returns that
    /// number.  The slide on show does not change.
    pub fn add_slide(&mut self) -> (res: u32)
        requires
            old(self).wf(),
            old(self)@.next_id < u32::MAX,
        ensures
            final(self).wf(),
            final(self)@ == old(self)@.with_new_slide(),
            res == final(self)@.next_id,
            res == old(self)@.next_id + 1,
            !old(self)@.slides.contains_key(res),
    {
        let ghost before = self@;
        self.next_slide_id = self.next_slide_id + 1;
        self.slides.insert(self.next_slide_id, Slide::new());
        assert(self@.slides =~= before.with_new_slide().slides);
        self.next_slide_id
    }

    /// Puts slide `id` on show.  Refused with `SlideNotFound`, the scene
    /// unchanged, when there is no such slide.
    pub fn show_slide(&mut self, id: u32) -> (res: Result<(), RequestError>)
        requires
            old(self).wf(),
        ensures
            final(self).wf(),
            res is Ok <==> old(self)@.slides.contains_key(id),
            res is Ok ==> final(self)@ == old(self)@.showing(id),
            res is Err ==> final(self)@ == old(self)@ && res == Err::<(), RequestError>(
                RequestError::SlideNotFound,
            ),
    {
        let ghost before = self@;
        if self.slides.contains_key(&id) {
            assert(before.slides.contains_key(id));
            self.current_slide = id;
            Ok(())
        } else {
            Err(RequestError::SlideNotFound)
        }
    }

    /// Puts `widget` on top of slide `id`.  Refused with `SlideNotFound`,
    /// the scene unchanged, when there is no such slide.
    pub fn add_widget(&mut self, id: u32, widget: Widget<I, C, F, V>) -> (res: Result<
        (),
        RequestError,
    >)
        requires
            old(self).wf(),
        ensures
            final(self).wf(),
            res is Ok <==> old(self)@.slides.contains_key(id),
            res is Ok ==> final(self)@ == old(self)@.with_widget(id, widget),
            res is Err ==> final(self)@ == old(self)@ && res == Err::<(), RequestError>(
                RequestError::SlideNotFound,
            ),
    {
        let ghost before = self@;
        match self.slides.remove(&id) {
            Some(mut slide) => {
                slide.push(widget);
                self.slides.insert(id, slide);
                assert(self@.slides =~= before.with_widget(id, widget).slides);
                Ok(())
            },
            None => {
                assert(self@.slides =~= before.slides);
                Err(RequestError::SlideNotFound)
            },
        }
    }

    /// The positions, in order, of the widgets on the slide on show that
    /// still need an update.
    pub fn current_pending_updates(&self) -> (res: Vec<usize>)
        requires
            self.wf(),
        ensures
            res@ == spec_pending_updates(self@.current_widgets()),
    {
        self.current_slide().pending_updates()
    }

    /// The work that brings widget `index` of the slide on show up to date.
    pub fn current_update_task(&self, index: usize) -> (res: UpdateTask)
        requires
            self.wf(),
            index < self@.current_widgets().len(),
        ensures
            res == spec_update_task(self@.current_widgets()[index as int].widget),
    {
        self.current_slide().update_task(index)
    }

    /// Remembers `font` as the font of label `index` on the slide on show.
    pub fn cache_current_font(&mut self, index: usize, font: F)
        requires
            old(self).wf(),
            index < old(self)@.current_widgets().len(),
        ensures
            final(self).wf(),
            final(self)@ == old(self)@.with_current_widget(
                index as int,
                spec_with_font(old(self)@.current_widgets()[index as int], font),
            ),
    {
        let ghost before = self@;
        let id = self.current_slide;
        assert(before.slides.contains_key(id));
        assert(self.slides@.contains_key(id));
        let mut slide = self.slides.remove(&id).unwrap();
        assert(slide.widgets@ == before.slides[id]);
        slide.cache_font(index, font);
        self.slides.insert(id, slide);
        assert(self@.slides =~= before.with_current_widget(
            index as int,
            spec_with_font(before.current_widgets()[index as int], font),
        ).slides);
    }

    /// Records what the renderer produced for widget `index` of the slide
    /// on show.
    pub fn complete_current_update(&mut self, index: usize, outcome: UpdateOutcome<I, C>)
        requires
            old(self).wf(),
            index < old(self)@.current_widgets().len(),
            outcome_fits(spec_update_task(old(self)@.current_widgets()[index as int].widget), outcome),
        ensures
            final(self).wf(),
            final(self)@ == old(self)@.with_current_widget(
                index as int,
                spec_complete_update(old(self)@.current_widgets()[index as int], outcome),
            ),
    {
        let ghost before = self@;
        let ghost w = spec_complete_update(before.current_widgets()[index as int], outcome);
        let id = self.current_slide;
        assert(before.slides.contains_key(id));
        assert(self.slides@.contains_key(id));
        let mut slide = self.slides.remove(&id).unwrap();
        assert(slide.widgets@ == before.slides[id]);
        slide.complete_update(index, outcome);
        self.slides.insert(id, slide);
        assert(self@.slides =~= before.with_current_widget(index as int, w).slides);
    }
}

} // verus!
