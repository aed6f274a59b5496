//! Cells: values that are known now, and references to attributes that
//! will only be known once the graph was applied.

use crate::ident::{identify, path_id};
use vstd::prelude::*;

verus! {

/// What a node of the scope tree stands for.
#[derive(Debug)]
pub enum Class {
    /// A scope: a node that may parent further nodes.
    Scope,
    /// The configuration of a provider.
    Provider,
    /// A managed resource of the given type.
    Resource(String),
}

/// The mathematical value of a [`Class`].
pub enum ClassView {
    Scope,
    Provider,
    Resource(Seq<char>),
}

impl View for Class {
    type V = ClassView;

    open spec fn view(&self) -> ClassView {
        match self {
            Class::Scope => ClassView::Scope,
            Class::Provider => ClassView::Provider,
            Class::Resource(kind) => ClassView::Resource(kind@),
        }
    }
}

impl Clone for Class {
    fn clone(&self) -> (copy: Class)
        ensures
            copy@ == self@,
    {
        match self {
            Class::Scope => Class::Scope,
            Class::Provider => Class::Provider,
            Class::Resource(kind) => Class::Resource(kind.clone()),
        }
    }
}

impl Class {
    /// Whether both classes are the same.
    pub fn same(&self, other: &Class) -> (equal: bool)
        ensures
            equal == (self@ == other@),
    {
        match self {
            Class::Scope => match other {
                Class::Scope => true,
                _ => false,
            },
            Class::Provider => match other {
                Class::Provider => true,
                _ => false,
            },
            Class::Resource(kind) => match other {
                Class::Resource(other_kind) => *kind == *other_kind,
                _ => false,
            },
        }
    }
}

/// A copy of a list of names.
pub fn copy_names(names: &Vec<String>) -> (copy: Vec<String>)
    ensures
        copy.deep_view() == names.deep_view(),
{
    let mut copy: Vec<String> = Vec::new();
    let mut i: usize = 0;
    while i < names.len()
        invariant
            i <= names.len(),
            copy.len() == i,
            forall|k: int| 0 <= k < i ==> copy[k]@ == names[k]@,
        decreases names.len() - i,
    {
        copy.push(names[i].clone());
        i += 1;
    }
    assert(copy.deep_view() =~= names.deep_view());
    copy
}

/// Whether two lists of names hold the same names in the same order.
pub fn same_names(left: &Vec<String>, right: &Vec<String>) -> (equal: bool)
    ensures
        equal == (left.deep_view() == right.deep_view()),
{
    if left.len() != right.len() {
        assert(left.deep_view().len() != right.deep_view().len());
        return false;
    }
    let mut i: usize = 0;
    while i < left.len()
        invariant
            i <= left.len(),
            left.len() == right.len(),
            forall|k: int| 0 <= k < i ==> left[k]@ == right[k]@,
        decreases left.len() - i,
    {
        if left[i] != right[i] {
            assert(left.deep_view()[i as int] != right.deep_view()[i as int]);
            return false;
        }
        i += 1;
    }
    assert(left.deep_view() =~= right.deep_view());
    true
}

/// Where a node stands in the scope tree: its class and the names on the way
/// from the root down to it, the root's name first and its own last.
#[derive(Debug)]
pub struct NodePath {
    class: Class,
    segments: Vec<String>,
}

/// The mathematical value of a [`NodePath`].
pub struct PathView {
    pub class: ClassView,
    pub segments: Seq<Seq<char>>,
}

impl View for NodePath {
    type V = PathView;

    closed spec fn view(&self) -> PathView {
        PathView { class: self.class@, segments: self.segments.deep_view() }
    }
}

impl NodePath {
    #[verifier::type_invariant]
    spec fn named(self) -> bool {
        self.segments.len() > 0
    }

    /// The path of the node of class `class` reached by `segments`.
    pub(crate) fn new(class: Class, segments: Vec<String>) -> (path: NodePath)
        requires
            segments.len() > 0,
        ensures
            path@ == (PathView { class: class@, segments: segments.deep_view() }),
    {
        NodePath { class, segments }
    }

    /// The class of the node.
    pub fn class(&self) -> (class: &Class)
        ensures
            class@ == self@.class,
    {
        &self.class
    }

    /// The names from the root down to the node; there is at least one.
    pub fn segments(&self) -> (segments: &Vec<String>)
        ensures
            segments.deep_view() == self@.segments,
            segments.len() > 0,
    {
        proof {
            use_type_invariant(self);
        }
        &self.segments
    }

    /// Whether the path leads to the node of the class `class` that is
    /// reached by the names `segments`.
    pub fn leads_to(&self, class: &Class, segments: &Vec<String>) -> (yes: bool)
        ensures
            yes == (self@ == (PathView { class: class@, segments: segments.deep_view() })),
    {
        self.class.same(class) && same_names(&self.segments, segments)
    }

    /// Whether both paths lead to the same node.
    pub fn same(&self, other: &NodePath) -> (equal: bool)
        ensures
            equal == (self@ == other@),
    {
        self.class.same(&other.class) && same_names(&self.segments, &other.segments)
    }
}

impl Clone for NodePath {
    fn clone(&self) -> (copy: NodePath)
        ensures
            copy@ == self@,
    {
        proof {
            use_type_invariant(self);
        }
        let segments = copy_names(&self.segments);
        assert(segments.len() == segments.deep_view().len());
        NodePath { class: self.class.clone(), segments }
    }
}

/// A value that is either known while the graph is built, or a pointer to an
/// attribute that a node of the graph will only have once it was applied.
///
/// A cell is never changed after it was made. A copy of a reference points
/// to the same attribute of the same node.
#[derive(Debug)]
pub enum ValueCell<T> {
    /// A value known now.
    Literal(T),
    /// The attribute, named by its dotted path, of the node at the given path.
    Reference(NodePath, String),
}

/// The mathematical value of a [`ValueCell`].
pub enum CellView<V> {
    Literal(V),
    Reference(PathView, Seq<char>),
}

impl<T: View> View for ValueCell<T> {
    type V = CellView<T::V>;

    open spec fn view(&self) -> CellView<T::V> {
        match self {
            ValueCell::Literal(value) => CellView::Literal(value@),
            ValueCell::Reference(node, attribute) => CellView::Reference(node@, attribute@),
        }
    }
}

impl<T: View> ValueCell<T> {
    /// The cell that holds the known value `value`.
    pub fn literal(value: T) -> (cell: ValueCell<T>)
        ensures
            cell@ == CellView::<T::V>::Literal(value@),
    {
        ValueCell::Literal(value)
    }

    /// The known value of the cell; a reference has none.
    pub fn resolve_literal(&self) -> (value: Option<&T>)
        ensures
            match self@ {
                CellView::Literal(known) => value matches Some(v) && v@ == known,
                CellView::Reference(_, _) => value is None,
            },
    {
        match self {
            ValueCell::Literal(value) => Some(value),
            ValueCell::Reference(_, _) => None,
        }
    }

    /// Whether the cell points to an attribute of a node.
    pub fn is_reference(&self) -> (yes: bool)
        ensures
            yes == (self@ is Reference),
    {
        match self {
            ValueCell::Literal(_) => false,
            ValueCell::Reference(_, _) => true,
        }
    }
}

/// How a node with the identifier `id` is addressed in an expression: a
/// resource by its type and its identifier, any other node by its
/// identifier alone.
pub open spec fn located_as(class: ClassView, id: Seq<char>) -> Seq<char> {
    match class {
        ClassView::Resource(kind) => kind + "."@ + id,
        _ => id,
    }
}

/// The expression that stands for `attribute` of the node of the class
/// `class` with the identifier `id`.
pub open spec fn expression_as(class: ClassView, id: Seq<char>, attribute: Seq<char>) -> Seq<char> {
    "${"@ + located_as(class, id) + "."@ + attribute + "}"@
}

/// The expression that stands for `attribute` of `node` until the graph is
/// applied.
pub open spec fn expression(node: PathView, attribute: Seq<char>) -> Seq<char> {
    expression_as(node.class, path_id(node.segments), attribute)
}

/// The text that stands for a cell in a declaration: the known text itself,
/// or the expression of the reference.
pub open spec fn rendered(cell: CellView<Seq<char>>) -> Seq<char> {
    match cell {
        CellView::Literal(text) => text,
        CellView::Reference(node, attribute) => expression(node, attribute),
    }
}

/// The expression that stands for `attribute` of the node of the class
/// `class` with the identifier `id`.
pub fn write_expression(class: &Class, id: &str, attribute: &str) -> (text: String)
    ensures
        text@ == expression_as(class@, id@, attribute@),
{
    let located = match class {
        Class::Resource(kind) => kind.clone().concat(".").concat(id),
        _ => id.to_owned(),
    };
    "${".to_owned().concat(located.as_str()).concat(".").concat(attribute).concat("}")
}

impl ValueCell<String> {
    /// The text that stands for the cell in a declaration. A reference is
    /// written out as it is, with nothing looked up.
    pub fn render(&self) -> (text: String)
        ensures
            text@ == rendered(self@),
    {
        match self {
            ValueCell::Literal(text) => text.clone(),
            ValueCell::Reference(node, attribute) => {
                let id = identify(node.segments());
                write_expression(node.class(), id.as_str(), attribute.as_str())
            },
        }
    }
}

impl Clone for ValueCell<String> {
    fn clone(&self) -> (copy: ValueCell<String>)
        ensures
            copy@ == self@,
    {
        match self {
            ValueCell::Literal(value) => ValueCell::Literal(value.clone()),
            ValueCell::Reference(node, attribute) => ValueCell::Reference(
                node.clone(),
                attribute.clone(),
            ),
        }
    }
}

/// What can be put into a text field: a text that is known now, or a cell.
pub trait IntoValue: Sized {
    /// The cell that the value becomes.
    spec fn cell(self) -> CellView<Seq<char>>;

    /// Wraps a known text into a cell, and hands a cell on as it is.
    fn into_value(self) -> (cell: ValueCell<String>)
        ensures
            cell@ == self.cell(),
    ;
}

impl IntoValue for &str {
    open spec fn cell(self) -> CellView<Seq<char>> {
        CellView::Literal(self@)
    }

    fn into_value(self) -> (cell: ValueCell<String>) {
        ValueCell::Literal(self.to_owned())
    }
}

impl IntoValue for String {
    open spec fn cell(self) -> CellView<Seq<char>> {
        CellView::Literal(self@)
    }

    fn into_value(self) -> (cell: ValueCell<String>) {
        ValueCell::Literal(self)
    }
}

impl IntoValue for &String {
    open spec fn cell(self) -> CellView<Seq<char>> {
        CellView::Literal(self@)
    }

    fn into_value(self) -> (cell: ValueCell<String>) {
        ValueCell::Literal(self.clone())
    }
}

impl IntoValue for ValueCell<String> {
    open spec fn cell(self) -> CellView<Seq<char>> {
        self@
    }

    fn into_value(self) -> (cell: ValueCell<String>) {
        self
    }
}

impl IntoValue for &ValueCell<String> {
    open spec fn cell(self) -> CellView<Seq<char>> {
        self@
    }

    fn into_value(self) -> (cell: ValueCell<String>) {
        self.clone()
    }
}

impl PartialEq for ValueCell<String> {
    fn eq(&self, other: &ValueCell<String>) -> (equal: bool) {
        match self {
            ValueCell::Literal(value) => match other {
                ValueCell::Literal(other_value) => *value == *other_value,
                _ => false,
            },
            ValueCell::Reference(node, attribute) => match other {
                ValueCell::Reference(other_node, other_attribute) => node.same(other_node)
                    && *attribute == *other_attribute,
                _ => false,
            },
        }
    }
}

impl vstd::std_specs::cmp::PartialEqSpecImpl for ValueCell<String> {
    open spec fn obeys_eq_spec() -> bool {
        true
    }

    open spec fn eq_spec(&self, other: &ValueCell<String>) -> bool {
        self@ == other@
    }
}

} // verus!
