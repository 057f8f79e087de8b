//! The upload client action: packaging a form snapshot into a multipart
//! request, and the client-owned state machine that a submission drives
//! from `NotStarted` through `Pending` to `Settled`.

use vstd::prelude::*;

use crate::multipart::{
    chunk_total, fields_total, request_clean, UploadField, UploadRequest, UploadResult,
};

verus! {

/// One element of the submitted form: its name and the bytes of its
/// value (for the file input, the selected file's contents).
pub struct FormEntry {
    pub name: String,
    pub value: Vec<u8>,
}

/// A snapshot of the form at the moment of submission.
pub struct FormSnapshot {
    pub entries: Vec<FormEntry>,
}

/// The mathematical model of one form element.
pub struct EntryView {
    pub name: Seq<char>,
    pub value: Seq<u8>,
}

impl View for FormEntry {
    type V = EntryView;

    open spec fn view(&self) -> EntryView {
        EntryView { name: self.name@, value: self.value@ }
    }
}

impl View for FormSnapshot {
    type V = Seq<EntryView>;

    open spec fn view(&self) -> Seq<EntryView> {
        Seq::new(self.entries@.len(), |i: int| self.entries@[i]@)
    }
}

/// The number of bytes a snapshot carries across all its elements.
pub open spec fn snapshot_total(entries: Seq<EntryView>) -> nat
    decreases entries.len(),
{
    if entries.len() == 0 {
        0
    } else {
        snapshot_total(entries.drop_last()) + entries.last().value.len()
    }
}

/// Copies a byte vector; packaging must not consume the snapshot, which
/// the action goes on to record.
fn copy_bytes(src: &Vec<u8>) -> (dst: Vec<u8>)
    ensures
        dst@ == src@,
{
    vstd::slice::slice_to_vec(src.as_slice())
}

/// Packages a form snapshot as a multipart request: one field per form
/// element, in order, each element's bytes as that field's single
/// chunk. Nothing is truncated: the payload is built, not streamed.
pub fn package(snapshot: &FormSnapshot) -> (req: UploadRequest)
    ensures
        !req@.truncated,
        req@.fields.len() == snapshot@.len(),
        forall|i: int|
            0 <= i < snapshot@.len() ==> {
                &&& (#[trigger] req@.fields[i]).name == snapshot@[i].name
                &&& req@.fields[i].chunks == seq![snapshot@[i].value]
                &&& !req@.fields[i].truncated
            },
        request_clean(req@),
        fields_total(req@.fields) == snapshot_total(snapshot@),
{
    let mut fields: Vec<UploadField> = Vec::new();
    let mut i: usize = 0;
    while i < snapshot.entries.len()
        invariant
            0 <= i <= snapshot.entries@.len(),
            snapshot@.len() == snapshot.entries@.len(),
            fields@.len() == i,
            forall|k: int|
                0 <= k < i ==> {
                    &&& (#[trigger] fields@[k]@).name == snapshot@[k].name
                    &&& fields@[k]@.chunks == seq![snapshot@[k].value]
                    &&& !fields@[k]@.truncated
                },
            fields_total(Seq::new(fields@.len(), |k: int| fields@[k]@)) == snapshot_total(
                snapshot@.take(i as int),
            ),
        decreases snapshot.entries@.len() - i,
    {
        let entry = &snapshot.entries[i];
        let ghost before = Seq::new(fields@.len(), |k: int| fields@[k]@);
        let field = UploadField {
            name: entry.name.clone(),
            chunks: vec![copy_bytes(&entry.value)],
            truncated: false,
        };
        proof {
            assert(field@.chunks =~~= seq![snapshot@[i as int].value]);
        }
        fields.push(field);
        proof {
            let after = Seq::new(fields@.len(), |k: int| fields@[k]@);
            assert(after =~= before.push(field@));
            assert(before.push(field@).drop_last() =~= before);
            assert(seq![snapshot@[i as int].value].drop_last() =~= Seq::<Seq<u8>>::empty());
            assert(chunk_total(Seq::<Seq<u8>>::empty()) == 0);
            assert(chunk_total(field@.chunks) == snapshot@[i as int].value.len());
            assert(snapshot@.take(i as int + 1).drop_last() =~= snapshot@.take(i as int));
        }
        i = i + 1;
    }
    let req = UploadRequest { fields, truncated: false };
    proof {
        assert(req@.fields =~= Seq::new(req.fields@.len(), |k: int| req.fields@[k]@));
        assert(snapshot@.take(i as int) =~= snapshot@);
    }
    req
}

/// The client-visible lifecycle of the upload action.
pub enum ActionState {
    /// No submission has been made since the component mounted.
    NotStarted,
    /// A submission is in flight; the snapshot it carries is recorded.
    Pending(FormSnapshot),
    /// The most recent completion, with the snapshot of the submission
    /// that was current when it arrived.
    Settled(FormSnapshot, UploadResult),
}

/// The mathematical model of the lifecycle.
pub enum ActionView {
    NotStarted,
    Pending(Seq<EntryView>),
    Settled(Seq<EntryView>, UploadResult),
}

impl View for ActionState {
    type V = ActionView;

    open spec fn view(&self) -> ActionView {
        match self {
            ActionState::NotStarted => ActionView::NotStarted,
            ActionState::Pending(s) => ActionView::Pending(s@),
            ActionState::Settled(s, r) => ActionView::Settled(s@, *r),
        }
    }
}

/// The mathematical model of the whole action container.
pub struct ActionModel {
    pub state: ActionView,
    pub destroyed: bool,
}

/// What a submission does to the model: whatever was there before is
/// overwritten with a fresh `Pending`.
pub open spec fn submit_spec(m: ActionModel, input: Seq<EntryView>) -> ActionModel {
    ActionModel { state: ActionView::Pending(input), destroyed: m.destroyed }
}

/// What an arriving completion does to the model. A completion that
/// reaches a destroyed action is discarded, as is one that arrives when
/// nothing was ever submitted; otherwise it settles the action with the
/// recorded snapshot, overwriting an earlier settlement — completions
/// are applied in arrival order, so the last one to arrive wins.
pub open spec fn complete_spec(m: ActionModel, result: UploadResult) -> ActionModel {
    if m.destroyed {
        m
    } else {
        match m.state {
            ActionView::NotStarted => m,
            ActionView::Pending(input) => ActionModel {
                state: ActionView::Settled(input, result),
                destroyed: false,
            },
            ActionView::Settled(input, _) => ActionModel {
                state: ActionView::Settled(input, result),
                destroyed: false,
            },
        }
    }
}

/// What tearing the component down does to the model: the state is kept
/// but no later completion may touch it.
pub open spec fn destroy_spec(m: ActionModel) -> ActionModel {
    ActionModel { state: m.state, destroyed: true }
}

/// The state container a component owns: the current lifecycle state,
/// and whether the owning view has been torn down.
pub struct UploadAction {
    state: ActionState,
    destroyed: bool,
}

impl View for UploadAction {
    type V = ActionModel;

    closed spec fn view(&self) -> ActionModel {
        ActionModel { state: self.state@, destroyed: self.destroyed }
    }
}

impl UploadAction {
    /// A fresh action, as created at component mount.
    pub fn new() -> (a: Self)
        ensures
            a@.state == ActionView::NotStarted,
            !a@.destroyed,
    {
        UploadAction { state: ActionState::NotStarted, destroyed: false }
    }

    /// Records a new submission: the state becomes `Pending` with this
    /// snapshot, whatever it was before.
    pub fn submit(&mut self, input: FormSnapshot)
        ensures
            final (self)@ == submit_spec(old(self)@, input@),
    {
        self.state = ActionState::Pending(input);
    }

    /// Applies an arriving completion, as `complete_spec` says: settle
    /// the live action, discard the completion on a destroyed one.
    pub fn complete(&mut self, result: UploadResult)
        ensures
            final (self)@ == complete_spec(old(self)@, result),
    {
        if self.destroyed {
            return;
        }
        let mut prev = ActionState::NotStarted;
        core::mem::swap(&mut prev, &mut self.state);
        match prev {
            ActionState::NotStarted => {},
            ActionState::Pending(input) => {
                self.state = ActionState::Settled(input, result);
            },
            ActionState::Settled(input, _) => {
                self.state = ActionState::Settled(input, result);
            },
        }
    }

    /// Marks the owning view as torn down.
    pub fn destroy(&mut self)
        ensures
            final (self)@ == destroy_spec(old(self)@),
    {
        self.destroyed = true;
    }

    /// The current lifecycle state.
    pub fn state(&self) -> (s: &ActionState)
        ensures
            s@ == self@.state,
    {
        &self.state
    }

    /// Whether the owning view has been torn down.
    pub fn is_destroyed(&self) -> (d: bool)
        ensures
            d == self@.destroyed,
    {
        self.destroyed
    }
}

} // verus!
