use vstd::prelude::*;

use crate::color::{spec_convert_color, Color};
use crate::error::{spec_error_message, RequestError};
use crate::scene::SceneView;
use crate::server::{media_fits, spec_new_widget, Media, WidgetAddRequest, WidgetRequest};
use crate::slide::{lemma_pending_in_prefix, spec_pending_updates};
use crate::widget::{
    outcome_fits, spec_complete_update, spec_update_task, spec_with_font, UpdateOutcome, UpdateState,
    RenderState, UpdateTask, Widget, WidgetType,
};

verus! {

/// A new scene is well formed and shows slide 0, which has no widgets.
pub proof fn law_initial_scene<I, C, F, V>()
    ensures
        SceneView::<I, C, F, V>::initial().wf(),
        SceneView::<I, C, F, V>::initial().current == 0,
        SceneView::<I, C, F, V>::initial().current_widgets() == Seq::<Widget<I, C, F, V>>::empty(),
{
}

/// Every change a request or the renderer makes keeps the scene well
/// formed: slides stay numbered without gaps and the slide on show exists.
pub proof fn law_changes_keep_scene_well_formed<I, C, F, V>(
    s: SceneView<I, C, F, V>,
    id: u32,
    w: Widget<I, C, F, V>,
    index: int,
)
    requires
        s.wf(),
    ensures
        s.next_id < u32::MAX ==> s.with_new_slide().wf(),
        s.slides.contains_key(id) ==> s.showing(id).wf(),
        s.slides.contains_key(id) ==> s.with_widget(id, w).wf(),
        s.with_current_widget(index, w).wf(),
        s.slides.contains_key(s.current),
{
    assert(s.slides.contains_key(s.current));
    if s.next_id < u32::MAX {
        let t = s.with_new_slide();
        assert forall|k: u32| #[trigger] t.slides.contains_key(k) <==> k <= t.next_id by {
            if k == t.next_id {
            } else {
                assert(t.slides.contains_key(k) <==> s.slides.contains_key(k));
            }
        }
    }
    if s.slides.contains_key(id) {
        let t = s.with_widget(id, w);
        assert forall|k: u32| #[trigger] t.slides.contains_key(k) <==> k <= t.next_id by {
            assert(t.slides.contains_key(k) <==> s.slides.contains_key(k));
        }
    }
    let t = s.with_current_widget(index, w);
    assert forall|k: u32| #[trigger] t.slides.contains_key(k) <==> k <= t.next_id by {
        assert(t.slides.contains_key(k) <==> s.slides.contains_key(k));
    }
}

/// Adding a slide gives it a number no slide had before, one more than the
/// last; the new slide is empty, every other slide keeps its widgets, and
/// the slide on show stays the same.
pub proof fn law_new_slide_is_fresh<I, C, F, V>(s: SceneView<I, C, F, V>)
    requires
        s.wf(),
        s.next_id < u32::MAX,
    ensures
        !s.slides.contains_key(s.with_new_slide().next_id),
        s.with_new_slide().next_id == s.next_id + 1,
        s.with_new_slide().slides[s.with_new_slide().next_id] == Seq::<Widget<I, C, F, V>>::empty(),
        s.with_new_slide().current == s.current,
        forall|k: u32|
            #[trigger] s.slides.contains_key(k) ==> s.with_new_slide().slides.contains_key(k)
                && s.with_new_slide().slides[k] == s.slides[k],
{
}

/// Two slides added one after the other get different numbers, the
/// second one above the first.
pub proof fn law_slide_numbers_increase<I, C, F, V>(s: SceneView<I, C, F, V>)
    requires
        s.wf(),
        s.next_id + 1 < u32::MAX,
    ensures
        s.with_new_slide().with_new_slide().next_id > s.with_new_slide().next_id,
        s.with_new_slide().with_new_slide().slides.contains_key(s.with_new_slide().next_id),
{
}

/// A slide that was just added can be shown, and showing it shows no
/// widgets.
pub proof fn law_show_added_slide<I, C, F, V>(s: SceneView<I, C, F, V>)
    requires
        s.wf(),
        s.next_id < u32::MAX,
    ensures
        s.with_new_slide().slides.contains_key(s.with_new_slide().next_id),
        s.with_new_slide().showing(s.with_new_slide().next_id).current_widgets() == Seq::<
            Widget<I, C, F, V>,
        >::empty(),
{
}

/// Showing a slide changes which slide is shown and nothing else; showing
/// the slide already on show changes nothing.
pub proof fn law_show_changes_only_the_shown_slide<I, C, F, V>(s: SceneView<I, C, F, V>, id: u32)
    requires
        s.wf(),
        s.slides.contains_key(id),
    ensures
        s.showing(id).current == id,
        s.showing(id).slides == s.slides,
        s.showing(id).next_id == s.next_id,
        s.showing(id).current_widgets() == s.slides[id],
        s.showing(s.current) == s,
{
}

/// A widget put on a slide is read back on top of that slide, after the
/// widgets it already had; other slides are untouched.  A widget put on
/// the slide on show is among the widgets shown.
pub proof fn law_widget_read_back<I, C, F, V>(s: SceneView<I, C, F, V>, id: u32, w: Widget<I, C, F, V>)
    requires
        s.wf(),
        s.slides.contains_key(id),
    ensures
        s.with_widget(id, w).slides[id] == s.slides[id].push(w),
        s.with_widget(id, w).slides[id].last() == w,
        forall|k: u32|
            k != id && #[trigger] s.slides.contains_key(k) ==> s.with_widget(id, w).slides[k]
                == s.slides[k],
        id == s.current ==> s.with_widget(id, w).current_widgets() == s.current_widgets().push(w),
{
}

/// A widget whose update state is `NeedsUpdate` is among the pending
/// updates, and only such widgets are.
pub proof fn law_pending_updates<I, C, F, V>(ws: Seq<Widget<I, C, F, V>>, j: int)
    requires
        ws.len() <= usize::MAX,
        0 <= j < ws.len(),
    ensures
        spec_pending_updates(ws).contains(j as usize) <==> ws[j].update_state
            == UpdateState::NeedsUpdate,
{
    lemma_pending_in_prefix(ws, ws.len() as int);
    let p = spec_pending_updates(ws);
    if p.contains(j as usize) {
        let k = choose|k: int| 0 <= k < p.len() && p[k] == j as usize;
        assert(p[k] == j as usize);
    }
}

/// A widget just put on the slide on show will be rendered: it is among
/// the pending updates of that slide.
pub proof fn law_new_widget_is_pending<I, C, F, V>(
    s: SceneView<I, C, F, V>,
    w: Widget<I, C, F, V>,
)
    requires
        s.wf(),
        w.update_state == UpdateState::NeedsUpdate,
        s.current_widgets().len() < usize::MAX,
    ensures
        spec_pending_updates(s.with_widget(s.current, w).current_widgets()).contains(
            s.current_widgets().len() as usize,
        ),
{
    assert(s.slides.contains_key(s.current));
    let ws = s.with_widget(s.current, w).current_widgets();
    assert(ws[s.current_widgets().len() as int] == w);
    law_pending_updates(ws, s.current_widgets().len() as int);
}

/// Once a canvas has been drawn, an image uploaded or a video has ended, the
/// widget is no longer pending; a new video frame or no frame leaves a
/// pending widget pending.  Either way no other widget changes.
pub proof fn law_completed_update<I, C, F, V>(
    ws: Seq<Widget<I, C, F, V>>,
    j: int,
    outcome: UpdateOutcome<I, C>,
)
    requires
        ws.len() <= usize::MAX,
        0 <= j < ws.len(),
    ensures
        ({
            let after = ws.update(j, spec_complete_update(ws[j], outcome));
            &&& (outcome is Rendered || outcome is Uploaded || outcome is EndOfStream)
                ==> !spec_pending_updates(after).contains(j as usize)
            &&& (outcome is NewFrame || outcome is NoFrame) ==> (spec_pending_updates(
                after,
            ).contains(j as usize) <==> spec_pending_updates(ws).contains(j as usize))
            &&& forall|k: int| 0 <= k < ws.len() && k != j ==> after[k] == ws[k]
        }),
{
    let after = ws.update(j, spec_complete_update(ws[j], outcome));
    law_pending_updates(ws, j);
    law_pending_updates(after, j);
}

/// Rendering never changes what a widget shows or where: its kind,
/// content, position and slide tag stay as they were.
pub proof fn law_update_keeps_widget_content<I, C, F, V>(
    w: Widget<I, C, F, V>,
    outcome: UpdateOutcome<I, C>,
)
    ensures
        spec_complete_update(w, outcome).widget == w.widget,
        spec_complete_update(w, outcome).x == w.x,
        spec_complete_update(w, outcome).y == w.y,
        spec_complete_update(w, outcome).z == w.z,
        spec_complete_update(w, outcome).id == w.id,
{
}

/// A label's font, once remembered, is the one it keeps: remembering
/// another font later changes nothing, and renders leave it in place, so
/// it is loaded only once.
pub proof fn law_label_font_is_kept<I, C, F, V>(
    w: Widget<I, C, F, V>,
    font: F,
    other: F,
    outcome: UpdateOutcome<I, C>,
)
    requires
        w.widget matches WidgetType::Label { font: None, .. },
    ensures
        spec_with_font(w, font).widget matches WidgetType::Label { font: Some(f), .. } && f == font,
        spec_with_font(spec_with_font(w, font), other) == spec_with_font(w, font),
        spec_complete_update(spec_with_font(w, font), outcome).widget == spec_with_font(
            w,
            font,
        ).widget,
{
}

/// A change to a scene, as the controller's requests and the renderer make
/// them.
pub enum SceneChange<I, C, F, V> {
    /// A request for a new slide.
    AddSlide,
    /// A request to show slide `id`.
    ShowSlide { id: u32 },
    /// A request to put `widget` on slide `id`.
    AddWidget { id: u32, widget: Widget<I, C, F, V> },
    /// The renderer's new state for widget `index` of the slide on show.
    UpdateCurrent { index: usize, widget: Widget<I, C, F, V> },
}

/// The scene after `change`: a refused request (an unknown slide, no slide
/// number left, no such widget) leaves it as it was.
pub open spec fn apply_change<I, C, F, V>(
    s: SceneView<I, C, F, V>,
    change: SceneChange<I, C, F, V>,
) -> SceneView<I, C, F, V> {
    match change {
        SceneChange::AddSlide => if s.next_id < u32::MAX {
            s.with_new_slide()
        } else {
            s
        },
        SceneChange::ShowSlide { id } => if s.slides.contains_key(id) {
            s.showing(id)
        } else {
            s
        },
        SceneChange::AddWidget { id, widget } => if s.slides.contains_key(id) {
            s.with_widget(id, widget)
        } else {
            s
        },
        SceneChange::UpdateCurrent { index, widget } => if index < s.current_widgets().len() {
            s.with_current_widget(index as int, widget)
        } else {
            s
        },
    }
}

/// The scene after `changes`, in order.
pub open spec fn apply_changes<I, C, F, V>(
    s: SceneView<I, C, F, V>,
    changes: Seq<SceneChange<I, C, F, V>>,
) -> SceneView<I, C, F, V>
    decreases changes.len(),
{
    if changes.len() == 0 {
        s
    } else {
        apply_changes(apply_change(s, changes[0]), changes.drop_first())
    }
}

/// No change removes a slide or lowers the last slide number, and every
/// change keeps the scene well formed.
pub proof fn law_change_keeps_slides<I, C, F, V>(
    s: SceneView<I, C, F, V>,
    change: SceneChange<I, C, F, V>,
)
    requires
        s.wf(),
    ensures
        apply_change(s, change).wf(),
        apply_change(s, change).next_id >= s.next_id,
        forall|k: u32| #[trigger]
            s.slides.contains_key(k) ==> apply_change(s, change).slides.contains_key(k),
{
    let w = match change {
        SceneChange::AddWidget { widget, .. } => widget,
        SceneChange::UpdateCurrent { widget, .. } => widget,
        _ => vstd::pervasive::arbitrary(),
    };
    let (id, index) = match change {
        SceneChange::ShowSlide { id } => (id, 0int),
        SceneChange::AddWidget { id, .. } => (id, 0int),
        SceneChange::UpdateCurrent { index, .. } => (0u32, index as int),
        _ => (0u32, 0int),
    };
    law_changes_keep_scene_well_formed(s, id, w, index);
}

/// A slide, once there, stays there whatever requests and renders follow,
/// so it can always be shown again; the last slide number never goes down.
/// In particular a slide that was just added can be shown after any later
/// changes.
pub proof fn law_slides_stay_showable<I, C, F, V>(
    s: SceneView<I, C, F, V>,
    changes: Seq<SceneChange<I, C, F, V>>,
    k: u32,
)
    requires
        s.wf(),
        s.slides.contains_key(k),
    ensures
        apply_changes(s, changes).wf(),
        apply_changes(s, changes).slides.contains_key(k),
        apply_changes(s, changes).next_id >= s.next_id,
        apply_change(apply_changes(s, changes), SceneChange::ShowSlide { id: k }) == apply_changes(
            s,
            changes,
        ).showing(k),
        apply_changes(s, changes).showing(k).current == k,
    decreases changes.len(),
{
    if changes.len() > 0 {
        law_change_keeps_slides(s, changes[0]);
        law_slides_stay_showable(apply_change(s, changes[0]), changes.drop_first(), k);
    }
}

/// A slide that has just been added can be shown after any changes that
/// follow.
pub proof fn law_added_slide_stays_showable<I, C, F, V>(
    s: SceneView<I, C, F, V>,
    changes: Seq<SceneChange<I, C, F, V>>,
)
    requires
        s.wf(),
        s.next_id < u32::MAX,
    ensures
        ({
            let added = apply_change(s, SceneChange::AddSlide);
            let later = apply_changes(added, changes);
            &&& later.slides.contains_key(added.next_id)
            &&& apply_change(later, SceneChange::ShowSlide { id: added.next_id }).current
                == added.next_id
        }),
{
    law_change_keeps_slides(s, SceneChange::AddSlide);
    law_slides_stay_showable(apply_change(s, SceneChange::AddSlide), changes, (s.next_id + 1) as u32);
}

/// The widgets `ws` after the renderer reported `outcomes[k]` for widget
/// `indices[k]`, one after the other.
pub open spec fn complete_each<I, C, F, V>(
    ws: Seq<Widget<I, C, F, V>>,
    indices: Seq<usize>,
    outcomes: Seq<UpdateOutcome<I, C>>,
) -> Seq<Widget<I, C, F, V>>
    decreases indices.len(),
{
    if indices.len() == 0 || outcomes.len() == 0 {
        ws
    } else {
        complete_each(
            ws.update(indices[0] as int, spec_complete_update(ws[indices[0] as int], outcomes[0])),
            indices.drop_first(),
            outcomes.drop_first(),
        )
    }
}

/// Drawn canvases and uploaded textures reported for distinct widgets make
/// exactly those widgets clean; the others, and what every widget shows,
/// stay as they were.
pub proof fn lemma_complete_each<I, C, F, V>(
    ws: Seq<Widget<I, C, F, V>>,
    indices: Seq<usize>,
    outcomes: Seq<UpdateOutcome<I, C>>,
)
    requires
        ws.len() <= usize::MAX,
        indices.len() == outcomes.len(),
        forall|k: int| 0 <= k < indices.len() ==> #[trigger] indices[k] < ws.len(),
        forall|a: int, b: int| 0 <= a < b < indices.len() ==> indices[a] != indices[b],
        forall|k: int|
            0 <= k < outcomes.len() ==> #[trigger] outcomes[k] is Rendered || outcomes[k] is Uploaded,
    ensures
        complete_each(ws, indices, outcomes).len() == ws.len(),
        forall|j: int|
            0 <= j < ws.len() ==> (#[trigger] complete_each(ws, indices, outcomes)[j]).widget
                == ws[j].widget,
        forall|j: int|
            0 <= j < ws.len() && indices.contains(j as usize) ==> (#[trigger] complete_each(
                ws,
                indices,
                outcomes,
            )[j]).update_state == UpdateState::Clean,
        forall|j: int|
            0 <= j < ws.len() && !indices.contains(j as usize) ==> #[trigger] complete_each(
                ws,
                indices,
                outcomes,
            )[j] == ws[j],
    decreases indices.len(),
{
    if indices.len() > 0 {
        let i0 = indices[0] as int;
        let first = ws.update(i0, spec_complete_update(ws[i0], outcomes[0]));
        let rest = indices.drop_first();
        assert(outcomes[0] is Rendered || outcomes[0] is Uploaded);
        assert forall|a: int, b: int| 0 <= a < b < rest.len() implies rest[a] != rest[b] by {
            assert(rest[a] == indices[a + 1]);
            assert(rest[b] == indices[b + 1]);
        }
        assert forall|k: int| 0 <= k < rest.len() implies #[trigger] rest[k] < first.len() by {
            assert(rest[k] == indices[k + 1]);
        }
        assert forall|k: int|
            0 <= k < outcomes.drop_first().len() implies #[trigger] outcomes.drop_first()[k] is Rendered
            || outcomes.drop_first()[k] is Uploaded by {
            assert(outcomes.drop_first()[k] == outcomes[k + 1]);
        }
        lemma_complete_each(first, rest, outcomes.drop_first());
        let after = complete_each(ws, indices, outcomes);
        assert(!rest.contains(indices[0])) by {
            if rest.contains(indices[0]) {
                let k = choose|k: int| 0 <= k < rest.len() && rest[k] == indices[0];
                assert(rest[k] == indices[k + 1]);
            }
        }
        assert forall|j: int| 0 <= j < ws.len() && indices.contains(j as usize) implies (
        #[trigger] after[j]).update_state == UpdateState::Clean by {
            if j != i0 {
                let k = choose|k: int| 0 <= k < indices.len() && indices[k] == j as usize;
                assert(k != 0);
                assert(rest[k - 1] == indices[k]);
                assert(rest.contains(j as usize));
            } else {
                assert(!rest.contains(j as usize));
            }
        }
        assert forall|j: int| 0 <= j < ws.len() && !indices.contains(j as usize) implies #[trigger] after[j]
            == ws[j] by {
            assert(j != i0);
            if rest.contains(j as usize) {
                let k = choose|k: int| 0 <= k < rest.len() && rest[k] == j as usize;
                assert(indices[k + 1] == j as usize);
            }
        }
        assert forall|j: int| 0 <= j < ws.len() implies (#[trigger] after[j]).widget == ws[j].widget by {
            assert(first[j].widget == ws[j].widget);
        }
    }
}

/// When neither a video nor a sprite or animation is on a slide, one round
/// of updates that renders every pending widget leaves nothing pending, so
/// the next round does nothing at all; what every widget shows stays as it
/// was.
pub proof fn law_update_round_settles<I, C, F, V>(
    ws: Seq<Widget<I, C, F, V>>,
    outcomes: Seq<UpdateOutcome<I, C>>,
    next_outcomes: Seq<UpdateOutcome<I, C>>,
)
    requires
        ws.len() <= usize::MAX,
        forall|j: int|
            0 <= j < ws.len() ==> spec_update_task((#[trigger] ws[j]).widget) != UpdateTask::PollVideo
                && spec_update_task(ws[j].widget) != UpdateTask::Skip,
        outcomes.len() == spec_pending_updates(ws).len(),
        forall|k: int|
            0 <= k < outcomes.len() ==> outcome_fits(
                spec_update_task(ws[spec_pending_updates(ws)[k] as int].widget),
                #[trigger] outcomes[k],
            ),
    ensures
        ({
            let after = complete_each(ws, spec_pending_updates(ws), outcomes);
            &&& spec_pending_updates(after) == Seq::<usize>::empty()
            &&& complete_each(after, spec_pending_updates(after), next_outcomes) == after
            &&& after.len() == ws.len()
            &&& forall|j: int| 0 <= j < ws.len() ==> (#[trigger] after[j]).widget == ws[j].widget
        }),
{
    let p = spec_pending_updates(ws);
    lemma_pending_in_prefix(ws, ws.len() as int);
    assert forall|k: int| 0 <= k < outcomes.len() implies #[trigger] outcomes[k] is Rendered
        || outcomes[k] is Uploaded by {
        let j = p[k] as int;
        assert(spec_update_task(ws[j].widget) != UpdateTask::PollVideo);
        assert(spec_update_task(ws[j].widget) != UpdateTask::Skip);
    }
    assert forall|k: int| 0 <= k < p.len() implies #[trigger] p[k] < ws.len() by {}
    assert forall|a: int, b: int| 0 <= a < b < p.len() implies p[a] != p[b] by {}
    lemma_complete_each(ws, p, outcomes);
    let after = complete_each(ws, p, outcomes);
    assert forall|j: int| 0 <= j < after.len() implies (#[trigger] after[j]).update_state
        == UpdateState::Clean by {
        law_pending_updates(ws, j);
    }
    lemma_pending_in_prefix(after, after.len() as int);
    let q = spec_pending_updates(after);
    if q.len() > 0 {
        assert(after[q[0] as int].update_state == UpdateState::NeedsUpdate);
    }
    assert(q =~= Seq::<usize>::empty());
}

/// What the renderer reports is what the widget keeps: a drawn canvas or an
/// uploaded texture becomes the widget's render state and makes it clean,
/// whatever kind of widget it is; a new video frame becomes its render
/// state and leaves its update state as it was; the end of a stream makes
/// it clean and keeps what it shows; no frame changes nothing.
pub proof fn law_complete_update_records_outcome<I, C, F, V>(
    w: Widget<I, C, F, V>,
    outcome: UpdateOutcome<I, C>,
)
    ensures
        outcome matches UpdateOutcome::Rendered { canvas } ==> {
            &&& spec_complete_update(w, outcome).render_state == RenderState::<I, C>::CanvasRendered {
                canvas,
            }
            &&& spec_complete_update(w, outcome).update_state == UpdateState::Clean
        },
        outcome matches UpdateOutcome::Uploaded { image_texture } ==> {
            &&& spec_complete_update(w, outcome).render_state
                == RenderState::<I, C>::ImageTextureRendered { image_texture }
            &&& spec_complete_update(w, outcome).update_state == UpdateState::Clean
        },
        outcome matches UpdateOutcome::NewFrame { image_texture } ==> {
            &&& spec_complete_update(w, outcome).render_state
                == RenderState::<I, C>::ImageTextureRendered { image_texture }
            &&& spec_complete_update(w, outcome).update_state == w.update_state
        },
        outcome is EndOfStream ==> {
            &&& spec_complete_update(w, outcome).render_state == w.render_state
            &&& spec_complete_update(w, outcome).update_state == UpdateState::Clean
        },
        outcome is NoFrame ==> spec_complete_update(w, outcome) == w,
        spec_complete_update(w, outcome).widget == w.widget,
        spec_complete_update(w, outcome).x == w.x,
        spec_complete_update(w, outcome).y == w.y,
        spec_complete_update(w, outcome).z == w.z,
        spec_complete_update(w, outcome).id == w.id,
{
}

/// Remembering a font changes nothing but the font of a label that had
/// none: its text, colour, size, position, slide tag, render state and
/// update state stay as they were.  Any other widget is left as it is.
pub proof fn law_cache_font_changes_only_the_font<I, C, F, V>(w: Widget<I, C, F, V>, font: F)
    ensures
        ({
            let after = spec_with_font(w, font);
            &&& after.x == w.x
            &&& after.y == w.y
            &&& after.z == w.z
            &&& after.id == w.id
            &&& after.render_state == w.render_state
            &&& after.update_state == w.update_state
            &&& (w.widget matches WidgetType::Label { text, color, font: None, font_size }
                ==> after.widget == WidgetType::<F, V>::Label {
                text,
                color,
                font: Some(font),
                font_size,
            })
            &&& !(w.widget matches WidgetType::Label { font: None, .. }) ==> after == w
        }),
{
}

/// A widget made by an accepted request sits where the request puts it and
/// on the slide it names, whatever its kind: its position is the request's
/// `x`, `y` and `z`, its tag is the request's slide number, and it is not
/// rendered yet.  A text request makes a label of that text in the
/// request's colour with the default size and no font yet; a rectangle
/// request a rectangle of that size in that colour; an image request the
/// loaded image; a video request the started stream.
pub proof fn law_new_widget_follows_request<I, C, F, V>(request: WidgetAddRequest, media: Media<V>)
    requires
        media_fits(request, media),
        request.widget is Some,
        request.color is Some,
        !(media matches Media::Image { image: Err(_) }),
    ensures
        ({
            let w = spec_new_widget::<I, C, F, V>(request, media);
            let c = request.color.unwrap();
            let rgba: [u32; 4] = [c.red, c.green, c.blue, c.alpha];
            &&& w.x == request.x
            &&& w.y == request.y
            &&& w.z == request.z
            &&& w.id == request.slide_id
            &&& w.render_state == RenderState::<I, C>::NoContent
            &&& w.update_state == UpdateState::NeedsUpdate
            &&& (request.widget matches Some(WidgetRequest::TextWidget { text })
                ==> w.widget == WidgetType::<F, V>::Label {
                text,
                color: rgba,
                font: None,
                font_size: 16,
            })
            &&& (request.widget matches Some(WidgetRequest::RectangleWidget { width, height })
                ==> w.widget == WidgetType::<F, V>::Rectangle { width, height, color: rgba })
            &&& (request.widget matches Some(WidgetRequest::ImageWidget { .. }) ==> (
            media matches Media::Image { image: Ok(image) } && w.widget == WidgetType::<
                F,
                V,
            >::Image { image }))
            &&& (request.widget matches Some(WidgetRequest::VideoWidget { .. }) ==> (
            media matches Media::Video { video } && w.widget == WidgetType::<F, V>::Video {
                video,
            }))
        }),
{
}

/// Putting a widget on a slide does not change which slide is shown, nor
/// the last slide number, nor which slides exist.
pub proof fn law_add_widget_keeps_shown_slide<I, C, F, V>(
    s: SceneView<I, C, F, V>,
    id: u32,
    w: Widget<I, C, F, V>,
)
    ensures
        s.with_widget(id, w).current == s.current,
        s.with_widget(id, w).next_id == s.next_id,
        s.slides.contains_key(id) ==> s.with_widget(id, w).slides.dom() == s.slides.dom(),
{
    if s.slides.contains_key(id) {
        assert(s.with_widget(id, w).slides.dom() =~= s.slides.dom());
    }
}

/// Rendering a widget of the slide on show keeps that slide on show and
/// changes only that widget: the other widgets of the slide, every other
/// slide and the last slide number stay as they were.
pub proof fn law_current_update_keeps_shown_slide<I, C, F, V>(
    s: SceneView<I, C, F, V>,
    index: int,
    w: Widget<I, C, F, V>,
)
    requires
        s.wf(),
        0 <= index < s.current_widgets().len(),
    ensures
        s.with_current_widget(index, w).current == s.current,
        s.with_current_widget(index, w).next_id == s.next_id,
        s.with_current_widget(index, w).current_widgets().len() == s.current_widgets().len(),
        s.with_current_widget(index, w).current_widgets()[index] == w,
        forall|k: int|
            0 <= k < s.current_widgets().len() && k != index ==> s.with_current_widget(
                index,
                w,
            ).current_widgets()[k] == s.current_widgets()[k],
        forall|id: u32|
            id != s.current && #[trigger] s.slides.contains_key(id) ==> s.with_current_widget(
                index,
                w,
            ).slides[id] == s.slides[id],
{
}

/// Each kind of widget gets the work its kind needs: text, rectangles and
/// lines are drawn into a canvas, images are uploaded, videos are polled,
/// and sprites and animations get nothing.
pub proof fn law_update_task_by_kind<F, V>(w: WidgetType<F, V>)
    ensures
        w is Label <==> spec_update_task(w) == UpdateTask::RenderLabel,
        w is Rectangle <==> spec_update_task(w) == UpdateTask::RenderRectangle,
        w is Line <==> spec_update_task(w) == UpdateTask::RenderLine,
        w is Image <==> spec_update_task(w) == UpdateTask::UploadImage,
        w is Video <==> spec_update_task(w) == UpdateTask::PollVideo,
        (w is ImageSprite || w is ImageAnimated) <==> spec_update_task(w) == UpdateTask::Skip,
{
}

/// A colour keeps its channels, in the order red, green, blue, alpha.
pub proof fn law_convert_color_keeps_channels(c: Color)
    ensures
        spec_convert_color(c)[0] == c.red,
        spec_convert_color(c)[1] == c.green,
        spec_convert_color(c)[2] == c.blue,
        spec_convert_color(c)[3] == c.alpha,
{
}

/// The refusals are told apart by their texts, and an image that could not
/// be loaded is refused with the loader's own text.
pub proof fn law_error_messages(message: String)
    ensures
        spec_error_message(RequestError::MissingWidgetType) == "Missing Widget Type"@,
        spec_error_message(RequestError::MissingColor) == "Missing Color"@,
        spec_error_message(RequestError::SlideNotFound) == "Could not find slide"@,
        spec_error_message(RequestError::ImageLoad { message }) == message@,
{
}

} // verus!
