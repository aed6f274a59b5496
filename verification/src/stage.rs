//! What all builders share: the one build that each has, and the check of
//! its fields.

use crate::body::TextView;
use crate::error::{ErrorView, GraphError};
use crate::stack::Handle;
use crate::tree::{has_child, is_scope, one_more_child, scopeless, TreeView};
use crate::value::{CellView, ClassView, ValueCell};
use vstd::prelude::*;

verus! {

/// What every builder holds besides its fields: the scope it will build
/// under, the name of what it builds, and whether it was built already.
pub struct Stage {
    scope: Handle,
    name: String,
    built: bool,
}

/// The mathematical value of a [`Stage`].
pub struct StageView {
    pub scope: int,
    pub name: Seq<char>,
    pub built: bool,
}

impl View for Stage {
    type V = StageView;

    closed spec fn view(&self) -> StageView {
        StageView { scope: self.scope.index as int, name: self.name@, built: self.built }
    }
}

/// How a call of [`Stage::begin`] relates the stage before it, the stage
/// after it and its outcome.
pub open spec fn begun(
    before: StageView,
    after: StageView,
    outcome: Result<(), ErrorView>,
) -> bool {
    &&& after == (StageView { built: true, ..before })
    &&& outcome == if before.built {
        Err::<(), ErrorView>(ErrorView::AlreadyBuilt)
    } else {
        Ok::<(), ErrorView>(())
    }
}

/// The value of the outcome of a step that yields nothing.
pub open spec fn outcome_view(outcome: Result<(), GraphError>) -> Result<(), ErrorView> {
    match outcome {
        Ok(()) => Ok(()),
        Err(error) => Err(error@),
    }
}

impl Stage {
    /// The stage of a builder that was not built yet.
    pub fn new(scope: Handle, name: &str) -> (stage: Stage)
        ensures
            stage@ == (StageView { scope: scope.index as int, name: name@, built: false }),
    {
        Stage { scope, name: name.to_owned(), built: false }
    }

    /// The scope to build under.
    pub fn scope(&self) -> (scope: Handle)
        ensures
            scope.index as int == self@.scope,
    {
        self.scope
    }

    /// The name of what is built.
    pub fn name(&self) -> (name: &String)
        ensures
            name@ == self@.name,
    {
        &self.name
    }

    /// Enters the one build that a builder has: marks the builder as built,
    /// and fails with `AlreadyBuilt` where it was marked before.
    pub fn begin(&mut self) -> (outcome: Result<(), GraphError>)
        ensures
            begun(old(self)@, final(self)@, outcome_view(outcome)),
    {
        if self.built {
            Err(GraphError::AlreadyBuilt)
        } else {
            self.built = true;
            Ok(())
        }
    }
}

/// The values of the field that a builder may hold.
pub open spec fn slot_view(slot: Option<ValueCell<String>>) -> Option<TextView> {
    match slot {
        Some(cell) => Some(cell@),
        None => None,
    }
}

/// The text that a builder may hold.
pub open spec fn text_view(slot: Option<String>) -> Option<Seq<char>> {
    match slot {
        Some(text) => Some(text@),
        None => None,
    }
}

/// The cell of the required field `field`; fails with `MissingField` where
/// the field was never set.
pub fn required(slot: &Option<ValueCell<String>>, field: &str) -> (found: Result<
    ValueCell<String>,
    GraphError,
>)
    ensures
        match found {
            Ok(cell) => slot_view(*slot) == Some(cell@),
            Err(error) => slot_view(*slot) is None && error@ == (ErrorView::MissingField {
                field: field@,
            }),
        },
{
    match slot {
        Some(cell) => Ok(cell.clone()),
        None => Err(GraphError::missing(field)),
    }
}

/// The cell of a field that is set.
pub(crate) fn held(slot: &Option<ValueCell<String>>) -> (cell: ValueCell<String>)
    requires
        slot is Some,
    ensures
        slot_view(*slot) == Some(cell@),
{
    slot.as_ref().unwrap().clone()
}

/// The cell of a field that has a default: what was set, or else the known
/// text `default`.
pub fn defaulted(slot: &Option<ValueCell<String>>, default: &str) -> (cell: ValueCell<String>)
    ensures
        cell@ == or_literal(slot_view(*slot), default@),
{
    match slot {
        Some(cell) => cell.clone(),
        None => ValueCell::Literal(default.to_owned()),
    }
}

/// The text of a field that has a default: what was set, or else `default`.
pub fn defaulted_text(slot: &Option<String>, default: &str) -> (text: String)
    ensures
        text@ == or_text(text_view(*slot), default@),
{
    match slot {
        Some(text) => text.clone(),
        None => default.to_owned(),
    }
}

/// What a field with a default comes to.
pub open spec fn or_literal(slot: Option<TextView>, default: Seq<char>) -> TextView {
    match slot {
        Some(cell) => cell,
        None => CellView::Literal(default),
    }
}

/// What a text with a default comes to.
pub open spec fn or_text(slot: Option<Seq<char>>, default: Seq<char>) -> Seq<char> {
    match slot {
        Some(text) => text,
        None => default,
    }
}

/// Why a build is refused, if it is: in this order, because the builder was
/// built before, because a required field is missing (`missing` names the
/// first such field), because the scope to build under is no scope of the
/// tree, or because that scope already has a scope of the name.
pub open spec fn refusal(stage: StageView, missing: Option<Seq<char>>, tree: TreeView) -> Option<
    ErrorView,
> {
    if stage.built {
        Some(ErrorView::AlreadyBuilt)
    } else if missing is Some {
        Some(ErrorView::MissingField { field: missing->0 })
    } else if !is_scope(tree, stage.scope) {
        Some(ErrorView::UnknownNode)
    } else if has_child(tree, stage.scope, ClassView::Scope, stage.name) {
        Some(ErrorView::DuplicateName)
    } else {
        None
    }
}

/// What a build that succeeds does to the children of the nodes: the scope
/// that was built under has one more child, the scope of what was built;
/// every other node that was there before has the children that it had; and
/// below the new scope, created as node number `before.len()`, hangs no
/// scope.
pub open spec fn settled(before: TreeView, after: TreeView, stage: StageView) -> bool {
    &&& one_more_child(before, after, stage.scope, ClassView::Scope, stage.name)
    &&& scopeless(after, before.len() as int)
}

/// The first field of `fields`, from number `from` on, that is not set, if
/// there is one. A field is given by its name and by whether it is set.
pub open spec fn first_unset_from(fields: Seq<(Seq<char>, bool)>, from: int) -> Option<Seq<char>>
    decreases fields.len() - from,
{
    if from < 0 || from >= fields.len() {
        None
    } else if !fields[from].1 {
        Some(fields[from].0)
    } else {
        first_unset_from(fields, from + 1)
    }
}

/// The first field of `fields` that is not set, if there is one.
pub open spec fn first_unset(fields: Seq<(Seq<char>, bool)>) -> Option<Seq<char>> {
    first_unset_from(fields, 0)
}

/// A builder is built at most once: after any call of [`Stage::begin`] the
/// next one fails with `AlreadyBuilt`.
pub proof fn lemma_begins_once(
    before: StageView,
    between: StageView,
    after: StageView,
    first: Result<(), ErrorView>,
    second: Result<(), ErrorView>,
)
    requires
        begun(before, between, first),
        begun(between, after, second),
    ensures
        second == Err::<(), ErrorView>(ErrorView::AlreadyBuilt),
{
}

/// A build of a builder that was built before is refused with
/// `AlreadyBuilt`, whatever its fields and the tree.
pub proof fn lemma_built_is_refused(stage: StageView, missing: Option<Seq<char>>, tree: TreeView)
    requires
        stage.built,
    ensures
        refusal(stage, missing, tree) == Some(ErrorView::AlreadyBuilt),
{
}

/// A required field that is not set is named: where the field number
/// `field` is not set and every field before it is, it is the first unset
/// field, and the build of a builder that was not built before is refused
/// with `MissingField` for it.
pub proof fn lemma_unset_field_is_named(
    stage: StageView,
    fields: Seq<(Seq<char>, bool)>,
    field: int,
    tree: TreeView,
)
    requires
        !stage.built,
        0 <= field < fields.len(),
        !fields[field].1,
        forall|earlier: int| 0 <= earlier < field ==> (#[trigger] fields[earlier]).1,
    ensures
        first_unset(fields) == Some(fields[field].0),
        refusal(stage, first_unset(fields), tree) == Some(
            ErrorView::MissingField { field: fields[field].0 },
        ),
{
    lemma_first_unset_from(fields, 0, field);
}

/// From any field up to the first unset one, the first unset field is the
/// same.
proof fn lemma_first_unset_from(fields: Seq<(Seq<char>, bool)>, from: int, field: int)
    requires
        0 <= from <= field < fields.len(),
        !fields[field].1,
        forall|earlier: int| from <= earlier < field ==> (#[trigger] fields[earlier]).1,
    ensures
        first_unset_from(fields, from) == Some(fields[field].0),
    decreases field - from,
{
    if from < field {
        assert(fields[from].1);
        lemma_first_unset_from(fields, from + 1, field);
    }
}

/// Where every field is set, none is missing.
pub proof fn lemma_all_set_none_missing(fields: Seq<(Seq<char>, bool)>, from: int)
    requires
        0 <= from,
        forall|field: int| from <= field < fields.len() ==> (#[trigger] fields[field]).1,
    ensures
        first_unset_from(fields, from) is None,
    decreases fields.len() - from,
{
    if from < fields.len() {
        assert(fields[from].1);
        lemma_all_set_none_missing(fields, from + 1);
    }
}

/// Setting the one required field that was missing lets the build succeed,
/// all else being equal: where every other field is set, the builder was
/// not built before, and its scope is a scope of the tree that has no scope
/// of the builder's name, the build is not refused.
pub proof fn lemma_set_field_lets_build(
    stage: StageView,
    fields: Seq<(Seq<char>, bool)>,
    field: int,
    tree: TreeView,
)
    requires
        !stage.built,
        0 <= field < fields.len(),
        forall|other: int|
            0 <= other < fields.len() && other != field ==> (#[trigger] fields[other]).1,
        is_scope(tree, stage.scope),
        !has_child(tree, stage.scope, ClassView::Scope, stage.name),
    ensures
        refusal(stage, first_unset(fields.update(field, (fields[field].0, true))), tree) is None,
{
    let set = fields.update(field, (fields[field].0, true));
    assert forall|other: int| 0 <= other < set.len() implies (#[trigger] set[other]).1 by {
        if other != field {
            assert(fields[other].1);
        }
    }
    lemma_all_set_none_missing(set, 0);
}

} // verus!
