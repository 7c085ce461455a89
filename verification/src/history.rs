//! The linear history of a map's edits: what was applied, and how much of
//! it is undone.
use crate::edit::{applied, undone, EditView, MapEdit};
use crate::error::EditError;
use crate::layer::{LayerMap, LayerView};
use vstd::prelude::*;

verus! {

/// What a history holds: its edits in the order of their application, and
/// the number of them that are applied. The edits from `cursor` on are
/// undone and can be applied again.
pub struct HistoryView {
    pub entries: Seq<EditView>,
    pub cursor: nat,
}

impl HistoryView {
    /// Whether the cursor lies within the edits and every edit is well
    /// formed.
    pub open spec fn wf(self) -> bool {
        self.cursor <= self.entries.len() && forall|i: int|
            0 <= i < self.entries.len() ==> (#[trigger] self.entries[i]).wf()
    }

    /// Whether every edit names a layer of `layers`.
    pub open spec fn fits(self, layers: Seq<LayerView>) -> bool {
        forall|i: int| 0 <= i < self.entries.len() ==> (#[trigger] self.entries[i]).layer < layers.len()
    }
}

/// A history and the layers it edits, after a step that gave `result`.
pub struct Step {
    pub history: HistoryView,
    pub layers: Seq<LayerView>,
    pub result: Result<bool, EditError>,
}

/// A new edit: applied to the layers, it takes the place of what was undone
/// and the cursor moves past it. An error leaves history and layers as they
/// were.
pub open spec fn edited(history: HistoryView, layers: Seq<LayerView>, edit: EditView) -> Step {
    match applied(edit, layers) {
        Err(e) => Step { history, layers, result: Err(e) },
        Ok((kept, next)) => Step {
            history: HistoryView {
                entries: history.entries.take(history.cursor as int).push(kept),
                cursor: history.cursor + 1,
            },
            layers: next,
            result: Ok(true),
        },
    }
}

/// A step back: the last applied edit is undone and the cursor moves before
/// it. Nothing happens at the start of the history; an error leaves history
/// and layers as they were.
pub open spec fn stepped_back(history: HistoryView, layers: Seq<LayerView>) -> Step {
    if history.cursor == 0 {
        Step { history, layers, result: Ok(false) }
    } else {
        match undone(history.entries[history.cursor - 1], layers) {
            Err(e) => Step { history, layers, result: Err(e) },
            Ok(next) => Step {
                history: HistoryView { cursor: (history.cursor - 1) as nat, ..history },
                layers: next,
                result: Ok(true),
            },
        }
    }
}

/// A step forward: the first undone edit is applied again, keeps the overlap
/// it then finds, and the cursor moves past it. Nothing happens at the end
/// of the history; an error leaves history and layers as they were.
pub open spec fn stepped_forward(history: HistoryView, layers: Seq<LayerView>) -> Step {
    if history.cursor >= history.entries.len() {
        Step { history, layers, result: Ok(false) }
    } else {
        match applied(history.entries[history.cursor as int], layers) {
            Err(e) => Step { history, layers, result: Err(e) },
            Ok((kept, next)) => Step {
                history: HistoryView {
                    entries: history.entries.update(history.cursor as int, kept),
                    cursor: history.cursor + 1,
                },
                layers: next,
                result: Ok(true),
            },
        }
    }
}

/// The edits of a map in the order of their application, with a cursor
/// behind the last one that is applied.
pub struct History {
    entries: Vec<MapEdit>,
    cursor: usize,
}

impl View for History {
    type V = HistoryView;

    closed spec fn view(&self) -> HistoryView {
        HistoryView {
            entries: Seq::new(self.entries.len() as nat, |i: int| self.entries[i]@),
            cursor: self.cursor as nat,
        }
    }
}

impl Clone for History {
    /// A history of the same edits with the same cursor.
    fn clone(&self) -> (h: History)
        ensures
            h@ == self@,
    {
        let mut entries: Vec<MapEdit> = Vec::new();
        let mut i: usize = 0;
        while i < self.entries.len()
            invariant
                i <= self.entries.len(),
                entries.len() == i,
                forall|j: int| 0 <= j < i ==> (#[trigger] entries[j])@ == self.entries[j]@,
            decreases self.entries.len() - i,
        {
            entries.push(self.entries[i].clone());
            i += 1;
        }
        let h = History { entries, cursor: self.cursor };
        assert(h@.entries =~= self@.entries);
        h
    }
}

impl History {
    /// The history without an edit.
    pub fn new() -> (h: History)
        ensures
            h@ == (HistoryView { entries: Seq::empty(), cursor: 0 }),
            h@.wf(),
    {
        let h = History { entries: Vec::new(), cursor: 0 };
        assert(h@.entries =~= Seq::<EditView>::empty());
        h
    }

    /// The number of edits, applied and undone.
    pub fn len(&self) -> (n: usize)
        ensures
            n == self@.entries.len(),
    {
        self.entries.len()
    }

    /// The number of applied edits.
    pub fn cursor(&self) -> (n: usize)
        ensures
            n == self@.cursor,
    {
        self.cursor
    }

    /// Tells whether an edit is applied that `undo` would undo.
    pub fn can_undo(&self) -> (r: bool)
        ensures
            r == (self@.cursor > 0),
    {
        self.cursor > 0
    }

    /// Tells whether an edit is undone that `redo` would apply again.
    pub fn can_redo(&self) -> (r: bool)
        ensures
            r == (self@.cursor < self@.entries.len()),
    {
        self.cursor < self.entries.len()
    }

    /// Applies a new edit to the map and records it in the place of what was
    /// undone.
    pub fn edit(&mut self, target: &mut LayerMap, edit: MapEdit) -> (r: Result<bool, EditError>)
        requires
            old(self)@.wf(),
            old(self)@.fits(old(target)@),
            old(target).wf(),
            edit@.wf(),
            edit@.layer < old(target)@.len(),
        ensures
            edited(old(self)@, old(target)@, edit@) == (Step {
                history: final(self)@,
                layers: final(target)@,
                result: r,
            }),
            final(self)@.wf(),
            final(self)@.fits(final(target)@),
            final(target).wf(),
    {
        let mut edit = edit;
        let ghost before = self@;
        match edit.edit(target) {
            Err(e) => {
                return Err(e);
            },
            Ok(()) => {},
        }
        self.entries.truncate(self.cursor);
        self.entries.push(edit);
        self.cursor = self.entries.len();
        assert(self@.entries =~= before.entries.take(before.cursor as int).push(edit@));
        Ok(true)
    }

    /// Undoes the last applied edit; `false` where none is applied.
    pub fn undo(&mut self, target: &mut LayerMap) -> (r: Result<bool, EditError>)
        requires
            old(self)@.wf(),
            old(self)@.fits(old(target)@),
            old(target).wf(),
        ensures
            stepped_back(old(self)@, old(target)@) == (Step {
                history: final(self)@,
                layers: final(target)@,
                result: r,
            }),
            final(self)@.wf(),
            final(self)@.fits(final(target)@),
            final(target).wf(),
    {
        if self.cursor == 0 {
            return Ok(false);
        }
        let ghost before = self@;
        assert(before.entries[self.cursor - 1] == self.entries[self.cursor - 1]@);
        match self.entries[self.cursor - 1].undo(target) {
            Err(e) => {
                return Err(e);
            },
            Ok(()) => {},
        }
        self.cursor = self.cursor - 1;
        assert(self@.entries =~= before.entries);
        Ok(true)
    }

    /// Applies the first undone edit again; `false` where none is undone.
    pub fn redo(&mut self, target: &mut LayerMap) -> (r: Result<bool, EditError>)
        requires
            old(self)@.wf(),
            old(self)@.fits(old(target)@),
            old(target).wf(),
        ensures
            stepped_forward(old(self)@, old(target)@) == (Step {
                history: final(self)@,
                layers: final(target)@,
                result: r,
            }),
            final(self)@.wf(),
            final(self)@.fits(final(target)@),
            final(target).wf(),
    {
        if self.cursor >= self.entries.len() {
            return Ok(false);
        }
        let ghost before = self@;
        assert(before.entries[self.cursor as int] == self.entries[self.cursor as int]@);
        match self.entries[self.cursor].edit(target) {
            Err(e) => {
                assert(self@.entries =~= before.entries);
                return Err(e);
            },
            Ok(()) => {},
        }
        self.cursor = self.cursor + 1;
        assert(self@.entries =~= before.entries.update(
            before.cursor as int,
            self.entries[before.cursor as int]@,
        ));
        Ok(true)
    }
}

} // verus!
