use vstd::prelude::*;

use crate::widget::{
    outcome_fits, spec_complete_update, spec_with_font, UpdateOutcome, UpdateState, UpdateTask, Widget,
};

verus! {

/// A slide: the widgets shown together, in the order they were added.
pub struct Slide<I, C, F, V> {
    pub widgets: Vec<Widget<I, C, F, V>>,
}

/// The positions, in increasing order, of the widgets among the first `n`
/// of `ws` that still need an update.
pub open spec fn pending_in_prefix<I, C, F, V>(ws: Seq<Widget<I, C, F, V>>, n: int) -> Seq<usize>
    decreases n,
{
    if n <= 0 {
        Seq::empty()
    } else if ws[n - 1].update_state == UpdateState::NeedsUpdate {
        pending_in_prefix(ws, n - 1).push((n - 1) as usize)
    } else {
        pending_in_prefix(ws, n - 1)
    }
}

/// The positions, in increasing order, of the widgets of `ws` that still
/// need an update.
pub open spec fn spec_pending_updates<I, C, F, V>(ws: Seq<Widget<I, C, F, V>>) -> Seq<usize> {
    pending_in_prefix(ws, ws.len() as int)
}

/// A position is listed among the pending updates of a prefix exactly when
/// it lies in the prefix and its widget needs an update; the list rises.
pub proof fn lemma_pending_in_prefix<I, C, F, V>(ws: Seq<Widget<I, C, F, V>>, n: int)
    requires
        0 <= n <= ws.len(),
        ws.len() <= usize::MAX,
    ensures
        pending_in_prefix(ws, n).len() <= n,
        forall|k: int|
            0 <= k < pending_in_prefix(ws, n).len() ==> {
                let p = #[trigger] pending_in_prefix(ws, n)[k];
                &&& 0 <= p < n
                &&& ws[p as int].update_state == UpdateState::NeedsUpdate
            },
        forall|j: int|
            0 <= j < n && ws[j].update_state == UpdateState::NeedsUpdate ==> pending_in_prefix(
                ws,
                n,
            ).contains(j as usize),
        forall|a: int, b: int|
            0 <= a < b < pending_in_prefix(ws, n).len() ==> pending_in_prefix(ws, n)[a]
                < pending_in_prefix(ws, n)[b],
    decreases n,
{
    if n > 0 {
        lemma_pending_in_prefix(ws, n - 1);
        let prev = pending_in_prefix(ws, n - 1);
        if ws[n - 1].update_state == UpdateState::NeedsUpdate {
            assert(((n - 1) as usize) as int == n - 1);
            assert forall|a: int, b: int|
                0 <= a < b < pending_in_prefix(ws, n).len() implies pending_in_prefix(ws, n)[a]
                < pending_in_prefix(ws, n)[b] by {
                if b == prev.len() {
                    assert(prev[a] < n - 1);
                }
            }
            assert forall|j: int|
                0 <= j < n && ws[j].update_state == UpdateState::NeedsUpdate implies pending_in_prefix(
                ws,
                n,
            ).contains(j as usize) by {
                if j < n - 1 {
                    let k = choose|k: int| 0 <= k < prev.len() && prev[k] == j as usize;
                    assert(pending_in_prefix(ws, n)[k] == j as usize);
                } else {
                    assert(pending_in_prefix(ws, n)[prev.len() as int] == j as usize);
                }
            }
        } else {
            assert forall|j: int|
                0 <= j < n && ws[j].update_state == UpdateState::NeedsUpdate implies pending_in_prefix(
                ws,
                n,
            ).contains(j as usize) by {
                assert(j < n - 1);
            }
        }
    }
}

impl<I, C, F, V> Slide<I, C, F, V> {
    /// A slide with no widgets.
    pub fn new() -> (res: Self)
        ensures
            res.widgets@ == Seq::<Widget<I, C, F, V>>::empty(),
    {
        Slide { widgets: Vec::new() }
    }

    /// The number of widgets on the slide.
    pub fn len(&self) -> (res: usize)
        ensures
            res == self.widgets@.len(),
    {
        self.widgets.len()
    }

    /// The widget at position `index`.
    pub fn widget(&self, index: usize) -> (res: &Widget<I, C, F, V>)
        requires
            index < self.widgets@.len(),
        ensures
            *res == self.widgets@[index as int],
    {
        &self.widgets[index]
    }

    /// Puts `widget` on the slide, above those already there.
    pub fn push(&mut self, widget: Widget<I, C, F, V>)
        ensures
            final(self).widgets@ == old(self).widgets@.push(widget),
    {
        self.widgets.push(widget);
    }

    /// The positions, in order, of the widgets that still need an update:
    /// those that the renderer visits when the slide is updated.
    pub fn pending_updates(&self) -> (res: Vec<usize>)
        ensures
            res@ == spec_pending_updates(self.widgets@),
    {
        let mut res: Vec<usize> = Vec::new();
        let n = self.widgets.len();
        let mut i: usize = 0;
        while i < n
            invariant
                n == self.widgets@.len(),
                i <= n,
                res@ == pending_in_prefix(self.widgets@, i as int),
            decreases n - i,
        {
            if self.widgets[i].needs_update() {
                res.push(i);
            }
            i = i + 1;
        }
        res
    }

    /// The work that brings the widget at `index` up to date.
    pub fn update_task(&self, index: usize) -> (res: UpdateTask)
        requires
            index < self.widgets@.len(),
        ensures
            res == crate::widget::spec_update_task(self.widgets@[index as int].widget),
    {
        self.widgets[index].update_task()
    }

    /// Remembers `font` as the font of the label at `index`.
    pub fn cache_font(&mut self, index: usize, font: F)
        requires
            index < old(self).widgets@.len(),
        ensures
            final(self).widgets@ == old(self).widgets@.update(
                index as int,
                spec_with_font(old(self).widgets@[index as int], font),
            ),
    {
        self.widgets[index].cache_font(font);
    }

    /// Records what the renderer produced for the widget at `index`.
    pub fn complete_update(&mut self, index: usize, outcome: UpdateOutcome<I, C>)
        requires
            index < old(self).widgets@.len(),
            outcome_fits(crate::widget::spec_update_task(old(self).widgets@[index as int].widget), outcome),
        ensures
            final(self).widgets@ == old(self).widgets@.update(
                index as int,
                spec_complete_update(old(self).widgets@[index as int], outcome),
            ),
    {
        self.widgets[index].complete_update(outcome);
    }
}

} // verus!
