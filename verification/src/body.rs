//! What a declaration holds: blocks of named attributes, which are texts,
//! numbers, truth values, lists, tables or further blocks.

use crate::value::{CellView, ValueCell};
use vstd::prelude::*;

verus! {

/// The mathematical value of a text cell.
pub type TextView = CellView<Seq<char>>;

/// A list of text cells, in order.
pub struct TextList {
    pub items: Vec<ValueCell<String>>,
}

/// The mathematical value of a [`TextList`].
pub struct TextsView {
    pub items: Seq<TextView>,
}

impl TextsView {
    /// The empty list.
    pub open spec fn empty() -> TextsView {
        TextsView { items: Seq::empty() }
    }

    /// The list with `value` added at its end.
    pub open spec fn cell(self, value: TextView) -> TextsView {
        TextsView { items: self.items.push(value) }
    }

    /// The list with the known text `value` added at its end.
    pub open spec fn literal(self, value: Seq<char>) -> TextsView {
        self.cell(CellView::Literal(value))
    }
}

impl View for TextList {
    type V = TextsView;

    open spec fn view(&self) -> TextsView {
        TextsView { items: Seq::new(self.items.len() as nat, |i: int| self.items[i]@) }
    }
}

impl TextList {
    /// The empty list.
    pub fn new() -> (list: TextList)
        ensures
            list@ == TextsView::empty(),
    {
        let list = TextList { items: Vec::new() };
        assert(list@.items =~= TextsView::empty().items);
        list
    }

    /// The list with `value` added at its end.
    pub fn cell(self, value: ValueCell<String>) -> (list: TextList)
        ensures
            list@ == self@.cell(value@),
    {
        let mut items = self.items;
        items.push(value);
        let list = TextList { items };
        assert(list@.items =~= self@.cell(value@).items);
        list
    }

    /// The list with the known text `value` added at its end.
    pub fn literal(self, value: &str) -> (list: TextList)
        ensures
            list@ == self@.literal(value@),
    {
        self.cell(ValueCell::literal(value.to_owned()))
    }
}

/// One key of a table with the text it maps to.
pub struct Pair {
    pub key: String,
    pub value: ValueCell<String>,
}

/// The mathematical value of a [`Pair`].
pub struct PairView {
    pub key: Seq<char>,
    pub value: TextView,
}

impl View for Pair {
    type V = PairView;

    open spec fn view(&self) -> PairView {
        PairView { key: self.key@, value: self.value@ }
    }
}

/// A table from keys to text cells, in the order in which it was written.
pub struct Table {
    pub pairs: Vec<Pair>,
}

/// The mathematical value of a [`Table`].
pub struct TableView {
    pub pairs: Seq<PairView>,
}

impl TableView {
    /// The empty table.
    pub open spec fn empty() -> TableView {
        TableView { pairs: Seq::empty() }
    }

    /// The table with `key` mapped to `value` added at its end.
    pub open spec fn cell(self, key: Seq<char>, value: TextView) -> TableView {
        TableView { pairs: self.pairs.push(PairView { key, value }) }
    }

    /// The table with `key` mapped to the known text `value` added at its
    /// end.
    pub open spec fn literal(self, key: Seq<char>, value: Seq<char>) -> TableView {
        self.cell(key, CellView::Literal(value))
    }
}

impl View for Table {
    type V = TableView;

    open spec fn view(&self) -> TableView {
        TableView { pairs: Seq::new(self.pairs.len() as nat, |i: int| self.pairs[i]@) }
    }
}

impl Table {
    /// The empty table.
    pub fn new() -> (table: Table)
        ensures
            table@ == TableView::empty(),
    {
        let table = Table { pairs: Vec::new() };
        assert(table@.pairs =~= TableView::empty().pairs);
        table
    }

    /// The table with `key` mapped to `value` added at its end.
    pub fn cell(self, key: &str, value: ValueCell<String>) -> (table: Table)
        ensures
            table@ == self@.cell(key@, value@),
    {
        let mut pairs = self.pairs;
        pairs.push(Pair { key: key.to_owned(), value });
        let table = Table { pairs };
        assert(table@.pairs =~= self@.cell(key@, value@).pairs);
        table
    }

    /// The table with `key` mapped to the known text `value` added at its end.
    pub fn literal(self, key: &str, value: &str) -> (table: Table)
        ensures
            table@ == self@.literal(key@, value@),
    {
        self.cell(key, ValueCell::literal(value.to_owned()))
    }
}

/// What an attribute of a declaration holds.
pub enum Attr {
    /// A text, known or referenced.
    Text(ValueCell<String>),
    /// A whole number.
    Number(i64),
    /// A truth value.
    Flag(bool),
    /// A list of texts.
    Texts(TextList),
    /// A table from keys to texts.
    Table(Table),
    /// The nested blocks of one name, in order.
    Blocks(Vec<Block>),
}

/// A named attribute of a block.
pub struct Entry {
    pub name: String,
    pub value: Attr,
}

/// A block of a declaration: its attributes in the order in which they were
/// written.
pub struct Block {
    pub entries: Vec<Entry>,
}

/// The mathematical value of an [`Attr`].
pub enum AttrView {
    Text(TextView),
    Number(int),
    Flag(bool),
    Texts(TextsView),
    Table(TableView),
    Blocks(Seq<BlockView>),
}

/// The mathematical value of an [`Entry`].
pub struct EntryView {
    pub name: Seq<char>,
    pub value: AttrView,
}

/// The mathematical value of a [`Block`].
pub struct BlockView {
    pub entries: Seq<EntryView>,
}

/// The value of an attribute.
pub open spec fn attr_view(attr: Attr) -> AttrView
    decreases attr,
{
    match attr {
        Attr::Text(cell) => AttrView::Text(cell@),
        Attr::Number(number) => AttrView::Number(number as int),
        Attr::Flag(flag) => AttrView::Flag(flag),
        Attr::Texts(list) => AttrView::Texts(list@),
        Attr::Table(table) => AttrView::Table(table@),
        Attr::Blocks(blocks) => AttrView::Blocks(
            Seq::new(
                blocks@.len(),
                |i: int|
                    if 0 <= i < blocks@.len() {
                        block_view(blocks@[i])
                    } else {
                        BlockView::empty()
                    },
            ),
        ),
    }
}

/// The value of a block.
pub open spec fn block_view(block: Block) -> BlockView
    decreases block,
{
    BlockView {
        entries: Seq::new(
            block.entries@.len(),
            |i: int|
                if 0 <= i < block.entries@.len() {
                    EntryView {
                        name: block.entries@[i].name@,
                        value: attr_view(block.entries@[i].value),
                    }
                } else {
                    EntryView { name: Seq::empty(), value: AttrView::Flag(false) }
                },
        ),
    }
}

impl View for Attr {
    type V = AttrView;

    open spec fn view(&self) -> AttrView {
        attr_view(*self)
    }
}

impl View for Entry {
    type V = EntryView;

    open spec fn view(&self) -> EntryView {
        EntryView { name: self.name@, value: self.value@ }
    }
}

impl View for Block {
    type V = BlockView;

    open spec fn view(&self) -> BlockView {
        block_view(*self)
    }
}

impl BlockView {
    /// The block without attributes.
    pub open spec fn empty() -> BlockView {
        BlockView { entries: Seq::empty() }
    }

    /// The block with one more attribute at its end.
    pub open spec fn with(self, name: Seq<char>, value: AttrView) -> BlockView {
        BlockView { entries: self.entries.push(EntryView { name, value }) }
    }

    /// The block with the text attribute `name` added.
    pub open spec fn text(self, name: Seq<char>, value: TextView) -> BlockView {
        self.with(name, AttrView::Text(value))
    }

    /// The block with the attribute `name` added, holding the known text
    /// `value`.
    pub open spec fn literal(self, name: Seq<char>, value: Seq<char>) -> BlockView {
        self.with(name, AttrView::Text(CellView::Literal(value)))
    }

    /// The block with the number attribute `name` added.
    pub open spec fn number(self, name: Seq<char>, value: int) -> BlockView {
        self.with(name, AttrView::Number(value))
    }

    /// The block with the truth attribute `name` added.
    pub open spec fn flag(self, name: Seq<char>, value: bool) -> BlockView {
        self.with(name, AttrView::Flag(value))
    }

    /// The block with the list attribute `name` added.
    pub open spec fn texts(self, name: Seq<char>, values: TextsView) -> BlockView {
        self.with(name, AttrView::Texts(values))
    }

    /// The block with the table attribute `name` added.
    pub open spec fn table(self, name: Seq<char>, pairs: TableView) -> BlockView {
        self.with(name, AttrView::Table(pairs))
    }

    /// Whether the last attribute is the list of nested blocks named `name`.
    pub open spec fn ends_with_blocks(self, name: Seq<char>) -> bool {
        self.entries.len() > 0 && self.entries.last().name == name
            && self.entries.last().value is Blocks
    }

    /// The block with the nested block `child` added under `name`: it joins
    /// the nested blocks of that name where these are the last attribute,
    /// and starts a new list of them otherwise.
    pub open spec fn block(self, name: Seq<char>, child: BlockView) -> BlockView {
        if self.ends_with_blocks(name) {
            BlockView {
                entries: self.entries.drop_last().push(
                    EntryView {
                        name,
                        value: AttrView::Blocks(self.entries.last().value->Blocks_0.push(child)),
                    },
                ),
            }
        } else {
            self.with(name, AttrView::Blocks(seq![child]))
        }
    }
}

impl BlockView {
    /// The number of the first attribute named `name`, from number `from`
    /// on; the number of attributes where there is none.
    pub open spec fn position_from(self, name: Seq<char>, from: int) -> int
        decreases self.entries.len() - from,
    {
        if from < 0 || from >= self.entries.len() {
            self.entries.len() as int
        } else if self.entries[from].name == name {
            from
        } else {
            self.position_from(name, from + 1)
        }
    }

    /// What the first attribute named `name` holds, if there is one.
    pub open spec fn find(self, name: Seq<char>) -> Option<AttrView> {
        let at = self.position_from(name, 0);
        if at < self.entries.len() {
            Some(self.entries[at].value)
        } else {
            None
        }
    }
}

impl Block {
    /// What the first attribute named `name` holds, if there is one.
    pub fn find(&self, name: &str) -> (found: Option<&Attr>)
        ensures
            match found {
                Some(attr) => self@.find(name@) == Some(attr@),
                None => self@.find(name@) is None,
            },
    {
        let wanted = name.to_owned();
        let mut i: usize = 0;
        while i < self.entries.len()
            invariant
                i <= self.entries.len(),
                wanted@ == name@,
                self@.position_from(name@, 0) == self@.position_from(name@, i as int),
            decreases self.entries.len() - i,
        {
            assert(self@.entries[i as int].name == self.entries[i as int].name@);
            if self.entries[i].name == wanted {
                assert(self@.entries[i as int].value == self.entries[i as int].value@);
                return Some(&self.entries[i].value);
            }
            i += 1;
        }
        None
    }

    /// The block without attributes.
    pub fn new() -> (block: Block)
        ensures
            block@ == BlockView::empty(),
    {
        let block = Block { entries: Vec::new() };
        assert(block@.entries =~= Seq::<EntryView>::empty());
        block
    }

    /// The block with one more attribute at its end.
    pub fn with(self, name: &str, value: Attr) -> (block: Block)
        ensures
            block@ == self@.with(name@, value@),
    {
        let mut entries = self.entries;
        entries.push(Entry { name: name.to_owned(), value });
        let block = Block { entries };
        assert(block@.entries =~= self@.with(name@, value@).entries);
        block
    }

    /// The block with the text attribute `name` added.
    pub fn text(self, name: &str, value: ValueCell<String>) -> (block: Block)
        ensures
            block@ == self@.text(name@, value@),
    {
        self.with(name, Attr::Text(value))
    }

    /// The block with the attribute `name` added, holding the known text
    /// `value`.
    pub fn literal(self, name: &str, value: &str) -> (block: Block)
        ensures
            block@ == self@.literal(name@, value@),
    {
        self.with(name, Attr::Text(ValueCell::literal(value.to_owned())))
    }

    /// The block with the number attribute `name` added.
    pub fn number(self, name: &str, value: i64) -> (block: Block)
        ensures
            block@ == self@.number(name@, value as int),
    {
        self.with(name, Attr::Number(value))
    }

    /// The block with the truth attribute `name` added.
    pub fn flag(self, name: &str, value: bool) -> (block: Block)
        ensures
            block@ == self@.flag(name@, value),
    {
        self.with(name, Attr::Flag(value))
    }

    /// The block with the list attribute `name` added.
    pub fn texts(self, name: &str, values: TextList) -> (block: Block)
        ensures
            block@ == self@.texts(name@, values@),
    {
        self.with(name, Attr::Texts(values))
    }

    /// The block with the table attribute `name` added.
    pub fn table(self, name: &str, pairs: Table) -> (block: Block)
        ensures
            block@ == self@.table(name@, pairs@),
    {
        self.with(name, Attr::Table(pairs))
    }

    /// The block with the nested block `child` added under `name`: it joins
    /// the nested blocks of that name where these are the last attribute,
    /// and starts a new list of them otherwise.
    pub fn block(self, name: &str, child: Block) -> (block: Block)
        ensures
            block@ == self@.block(name@, child@),
    {
        let mut entries = self.entries;
        let ghost before = self@;
        let count = entries.len();
        let joins = count > 0 && entries[count - 1].name == name.to_owned() && match &entries[count
            - 1].value {
            Attr::Blocks(_) => true,
            _ => false,
        };
        assert(joins == before.ends_with_blocks(name@));
        if joins {
            let last = entries.pop().unwrap();
            let mut siblings = match last.value {
                Attr::Blocks(siblings) => siblings,
                _ => Vec::new(),
            };
            siblings.push(child);
            entries.push(Entry { name: last.name, value: Attr::Blocks(siblings) });
            let block = Block { entries };
            assert(block@.entries.last().value->Blocks_0
                =~= before.entries.last().value->Blocks_0.push(child@));
            assert(block@.entries =~= before.block(name@, child@).entries);
            block
        } else {
            let mut siblings: Vec<Block> = Vec::new();
            siblings.push(child);
            let block = Block { entries };
            let value = Attr::Blocks(siblings);
            assert(value@->Blocks_0 =~= seq![child@]);
            block.with(name, value)
        }
    }
}

} // verus!
