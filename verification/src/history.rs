//! Undo/redo history of serialized canvas snapshots.
//!
//! Every recorded snapshot is the JSON text of the whole canvas. The top of
//! the undo stack is the state currently shown; undoing moves it onto the
//! redo stack and restores the snapshot below it, redoing moves it back.
use vstd::prelude::*;

verus! {

/// The abstract state of a history: both stacks as sequences of snapshot
/// texts, bottom first.
pub struct HistoryModel {
    pub undo: Seq<Seq<char>>,
    pub redo: Seq<Seq<char>>,
}

impl HistoryModel {
    /// Undo is possible only while a snapshot remains below the current one.
    pub open spec fn can_undo(self) -> bool {
        self.undo.len() > 1
    }

    pub open spec fn can_redo(self) -> bool {
        self.redo.len() > 0
    }

    /// The history after recording `snapshot`: a snapshot equal to the
    /// current one is ignored; any other one is pushed and forgets the redo
    /// stack.
    pub open spec fn recorded(self, snapshot: Seq<char>) -> HistoryModel {
        if self.undo.len() > 0 && self.undo.last() == snapshot {
            self
        } else {
            HistoryModel { undo: self.undo.push(snapshot), redo: Seq::empty() }
        }
    }

    /// The history after one undo request.
    pub open spec fn undone(self) -> HistoryModel {
        if self.can_undo() {
            HistoryModel { undo: self.undo.drop_last(), redo: self.redo.push(self.undo.last()) }
        } else {
            self
        }
    }

    /// The history after one redo request.
    pub open spec fn redone(self) -> HistoryModel {
        if self.can_redo() {
            HistoryModel { undo: self.undo.push(self.redo.last()), redo: self.redo.drop_last() }
        } else {
            self
        }
    }

    /// The history after `n` undo requests.
    pub open spec fn undone_times(self, n: nat) -> HistoryModel
        decreases n,
    {
        if n == 0 {
            self
        } else {
            self.undone_times((n - 1) as nat).undone()
        }
    }

    /// The history after `n` redo requests.
    pub open spec fn redone_times(self, n: nat) -> HistoryModel
        decreases n,
    {
        if n == 0 {
            self
        } else {
            self.redone_times((n - 1) as nat).redone()
        }
    }

    /// The snapshot that the last successful one of `n` undo requests
    /// asks to restore, if any succeeded.
    pub open spec fn undo_restores(self, n: nat) -> Option<Seq<char>>
        decreases n,
    {
        if n == 0 {
            None
        } else {
            let before = self.undone_times((n - 1) as nat);
            if before.can_undo() {
                Some(before.undone().undo.last())
            } else {
                self.undo_restores((n - 1) as nat)
            }
        }
    }

    /// The snapshot that the last successful one of `n` redo requests
    /// asks to restore, if any succeeded.
    pub open spec fn redo_restores(self, n: nat) -> Option<Seq<char>>
        decreases n,
    {
        if n == 0 {
            None
        } else {
            let before = self.redone_times((n - 1) as nat);
            if before.can_redo() {
                Some(before.redo.last())
            } else {
                self.redo_restores((n - 1) as nat)
            }
        }
    }

    /// `undos` undo requests followed by `redos` redo requests, as handled
    /// in one frame.
    pub open spec fn after_requests(self, undos: nat, redos: nat) -> HistoryModel {
        self.undone_times(undos).redone_times(redos)
    }

    /// The snapshot to restore after those requests: that of the last
    /// request that succeeded, redo requests coming after undo requests.
    pub open spec fn restored_by_requests(self, undos: nat, redos: nat) -> Option<Seq<char>> {
        match self.undone_times(undos).redo_restores(redos) {
            Some(s) => Some(s),
            None => self.undo_restores(undos),
        }
    }
}

/// The undo and redo stacks of snapshot texts.
pub struct UndoRedoHistory {
    pub UndoStack: Vec<String>,
    pub RedoStack: Vec<String>,
}

/// The texts of a stack of snapshots.
pub open spec fn snapshot_texts(stack: Seq<String>) -> Seq<Seq<char>> {
    stack.map_values(|s: String| s@)
}

impl View for UndoRedoHistory {
    type V = HistoryModel;

    open spec fn view(&self) -> HistoryModel {
        HistoryModel { undo: snapshot_texts(self.UndoStack@), redo: snapshot_texts(self.RedoStack@) }
    }
}

impl Default for UndoRedoHistory {
    fn default() -> (h: UndoRedoHistory)
        ensures
            h@.undo.len() == 0,
            h@.redo.len() == 0,
    {
        UndoRedoHistory::new()
    }
}

impl UndoRedoHistory {
    /// An empty history.
    pub fn new() -> (h: UndoRedoHistory)
        ensures
            h@.undo == Seq::<Seq<char>>::empty(),
            h@.redo == Seq::<Seq<char>>::empty(),
    {
        let h = UndoRedoHistory { UndoStack: Vec::new(), RedoStack: Vec::new() };
        assert(h@.undo =~= Seq::<Seq<char>>::empty());
        assert(h@.redo =~= Seq::<Seq<char>>::empty());
        h
    }

    /// Whether the editor still has to take its first snapshot.
    pub fn needs_initial_snapshot(&self) -> (b: bool)
        ensures
            b == (self@.undo.len() == 0),
    {
        self.UndoStack.len() == 0
    }

    /// Records a snapshot of the canvas.
    pub fn record(&mut self, snapshot: String)
        ensures
            final(self)@ == old(self)@.recorded(snapshot@),
    {
        let n = self.UndoStack.len();
        let same_as_current = n > 0 && self.UndoStack[n - 1] == snapshot;
        if !same_as_current {
            let ghost old_undo = self.UndoStack@;
            self.UndoStack.push(snapshot);
            self.RedoStack.clear();
            assert(snapshot_texts(self.UndoStack@) =~= snapshot_texts(old_undo).push(snapshot@));
            assert(snapshot_texts(self.RedoStack@) =~= Seq::<Seq<char>>::empty());
        }
    }

    /// Handles one undo request. Returns the snapshot to restore, or `None`
    /// (and changes nothing) where only the current snapshot is left.
    pub fn undo(&mut self) -> (restore: Option<String>)
        ensures
            final(self)@ == old(self)@.undone(),
            restore is Some <==> old(self)@.can_undo(),
            restore matches Some(s) ==> s@ == final(self)@.undo.last(),
    {
        if self.UndoStack.len() > 1 {
            let ghost old_undo = self.UndoStack@;
            let ghost old_redo = self.RedoStack@;
            let current = self.UndoStack.pop().unwrap();
            self.RedoStack.push(current);
            let n = self.UndoStack.len();
            let restore = self.UndoStack[n - 1].clone();
            assert(snapshot_texts(self.UndoStack@) =~= snapshot_texts(old_undo).drop_last());
            assert(snapshot_texts(self.RedoStack@) =~= snapshot_texts(old_redo).push(
                snapshot_texts(old_undo).last(),
            ));
            Some(restore)
        } else {
            None
        }
    }

    /// Handles one redo request. Returns the snapshot to restore, or `None`
    /// (and changes nothing) where there is nothing to redo.
    pub fn redo(&mut self) -> (restore: Option<String>)
        ensures
            final(self)@ == old(self)@.redone(),
            restore is Some <==> old(self)@.can_redo(),
            restore matches Some(s) ==> s@ == final(self)@.undo.last(),
    {
        if self.RedoStack.len() > 0 {
            let ghost old_undo = self.UndoStack@;
            let ghost old_redo = self.RedoStack@;
            let state = self.RedoStack.pop().unwrap();
            self.UndoStack.push(state.clone());
            assert(snapshot_texts(self.UndoStack@) =~= snapshot_texts(old_undo).push(
                snapshot_texts(old_redo).last(),
            ));
            assert(snapshot_texts(self.RedoStack@) =~= snapshot_texts(old_redo).drop_last());
            Some(state)
        } else {
            None
        }
    }
    /// Handles the undo and redo requests of one frame: first every undo
    /// request, then every redo request. Returns the snapshot to restore,
    /// that of the last request that succeeded, if any did.
    pub fn apply_requests(&mut self, undo_requests: usize, redo_requests: usize) -> (restore:
        Option<String>)
        ensures
            final(self)@ == old(self)@.after_requests(undo_requests as nat, redo_requests as nat),
            opt_text(restore) == old(self)@.restored_by_requests(
                undo_requests as nat,
                redo_requests as nat,
            ),
    {
        let ghost start = self@;
        let mut restore: Option<String> = None;
        let mut i: usize = 0;
        while i < undo_requests
            invariant
                i <= undo_requests,
                self@ == start.undone_times(i as nat),
                opt_text(restore) == start.undo_restores(i as nat),
            decreases undo_requests - i,
        {
            match self.undo() {
                Some(s) => {
                    restore = Some(s);
                },
                None => {},
            }
            i = i + 1;
        }
        let ghost middle = self@;
        let ghost undo_result = opt_text(restore);
        let mut j: usize = 0;
        while j < redo_requests
            invariant
                j <= redo_requests,
                middle == start.undone_times(undo_requests as nat),
                undo_result == start.undo_restores(undo_requests as nat),
                self@ == middle.redone_times(j as nat),
                opt_text(restore) == (match middle.redo_restores(j as nat) {
                    Some(s) => Some(s),
                    None => undo_result,
                }),
            decreases redo_requests - j,
        {
            match self.redo() {
                Some(s) => {
                    restore = Some(s);
                },
                None => {},
            }
            j = j + 1;
        }
        restore
    }
}

/// The text of an optional snapshot.
pub open spec fn opt_text(o: Option<String>) -> Option<Seq<char>> {
    match o {
        Some(s) => Some(s@),
        None => None,
    }
}


/// Undoing and then redoing gives back the same history, and the redo
/// restores the snapshot that the undo took away.
pub proof fn lemma_undo_then_redo(m: HistoryModel)
    requires
        m.can_undo(),
    ensures
        m.undone().redone() == m,
        m.undone().redone().undo.last() == m.undo.last(),
{
    assert(m.undone().redone().undo =~= m.undo);
    assert(m.undone().redone().redo =~= m.redo);
}

/// Redoing and then undoing gives back the same history, whenever a
/// snapshot was current before the redo.
pub proof fn lemma_redo_then_undo(m: HistoryModel)
    requires
        m.can_redo(),
        m.undo.len() >= 1,
    ensures
        m.redone().undone() == m,
{
    assert(m.redone().undone().undo =~= m.undo);
    assert(m.redone().undone().redo =~= m.redo);
}

/// After recording a new snapshot, one undo restores the snapshot that was
/// current before it, and only the new snapshot can then be redone.
pub proof fn lemma_undo_after_record(m: HistoryModel, snapshot: Seq<char>)
    requires
        m.undo.len() >= 1,
        m.undo.last() != snapshot,
    ensures
        m.recorded(snapshot).undone() == (HistoryModel { undo: m.undo, redo: seq![snapshot] }),
        m.recorded(snapshot).restored_by_requests(1, 0) == Some(m.undo.last()),
{
    let r = m.recorded(snapshot);
    assert(r.undo.drop_last() =~= m.undo);
    assert(r.undone().redo =~= seq![snapshot]);
    assert(r.undone_times(1) == r.undone_times(0).undone());
    assert(r.undone_times(0) == r);
    assert(r.undone_times(1).redo_restores(0) is None);
    assert(r.undo_restores(1) == Some(r.undone().undo.last()));
}

/// Recording a snapshot different from the current one leaves nothing to
/// redo; recording the current snapshot again changes nothing.
pub proof fn lemma_record_discards_redo(m: HistoryModel, snapshot: Seq<char>)
    ensures
        m.undo.len() > 0 && m.undo.last() == snapshot ==> m.recorded(snapshot) == m,
        !(m.undo.len() > 0 && m.undo.last() == snapshot) ==> !m.recorded(snapshot).can_redo()
            && m.recorded(snapshot).undo.last() == snapshot,
{
}

/// Recording the same snapshot twice in a row is the same as recording it
/// once.
pub proof fn lemma_record_idempotent(m: HistoryModel, snapshot: Seq<char>)
    ensures
        m.recorded(snapshot).recorded(snapshot) == m.recorded(snapshot),
{
}

/// Undo and redo requests never drop the current snapshot and never lose or
/// create one: the two stacks together keep their size.
pub proof fn lemma_requests_keep_snapshots(m: HistoryModel, undos: nat, redos: nat)
    ensures
        m.undo.len() >= 1 ==> m.after_requests(undos, redos).undo.len() >= 1,
        m.after_requests(undos, redos).undo.len() + m.after_requests(undos, redos).redo.len()
            == m.undo.len() + m.redo.len(),
    decreases undos + redos,
{
    if redos > 0 {
        lemma_requests_keep_snapshots(m, undos, (redos - 1) as nat);
    } else if undos > 0 {
        lemma_requests_keep_snapshots(m, (undos - 1) as nat, 0);
        assert(m.after_requests(undos, 0) == m.undone_times(undos));
        assert(m.after_requests((undos - 1) as nat, 0) == m.undone_times((undos - 1) as nat));
    } else {
        assert(m.after_requests(0, 0) == m);
    }
}

/// The snapshot that a frame's requests ask to restore is the one that is
/// current afterwards.
pub proof fn lemma_restored_is_current(m: HistoryModel, undos: nat, redos: nat)
    ensures
        m.restored_by_requests(undos, redos) matches Some(s) ==> s == m.after_requests(
            undos,
            redos,
        ).undo.last(),
{
    lemma_undo_restored_is_current(m, undos);
    lemma_redo_restored_is_current(m.undone_times(undos), redos);
    match m.undone_times(undos).redo_restores(redos) {
        Some(s) => {},
        None => {
            lemma_failed_redos_change_nothing(m.undone_times(undos), redos);
        },
    }
}

proof fn lemma_undo_restored_is_current(m: HistoryModel, n: nat)
    ensures
        m.undo_restores(n) matches Some(s) ==> s == m.undone_times(n).undo.last(),
    decreases n,
{
    if n > 0 {
        let before = m.undone_times((n - 1) as nat);
        if !before.can_undo() {
            lemma_undo_restored_is_current(m, (n - 1) as nat);
        }
    }
}

proof fn lemma_redo_restored_is_current(m: HistoryModel, n: nat)
    ensures
        m.redo_restores(n) matches Some(s) ==> s == m.redone_times(n).undo.last(),
    decreases n,
{
    if n > 0 {
        let before = m.redone_times((n - 1) as nat);
        if !before.can_redo() {
            lemma_redo_restored_is_current(m, (n - 1) as nat);
        }
    }
}

proof fn lemma_failed_redos_change_nothing(m: HistoryModel, n: nat)
    ensures
        m.redo_restores(n) is None ==> m.redone_times(n) == m,
    decreases n,
{
    if n > 0 {
        lemma_failed_redos_change_nothing(m, (n - 1) as nat);
    }
}

} // verus!
