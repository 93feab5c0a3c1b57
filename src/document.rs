//! The document that templates fill: an ordered sequence of layout blocks,
//! with the fixed presentation settings it is rendered with.

use vstd::prelude::*;

use crate::text::views;

verus! {

/// Font size of body text, in points.
pub const BODY_FONT_SIZE: u8 = 11;

/// Page margin on every side, in millimetres.
pub const PAGE_MARGIN: u8 = 12;

/// How a paragraph's text is set.
#[derive(Clone, Copy, Debug, PartialEq, Eq, Structural)]
pub enum Style {
    Plain,
    Bold,
    Italic,
    /// A section heading: bold, a little larger than the body.
    Heading,
    /// The person's name at the top: bold, larger than a heading.
    Title,
}

#[derive(Clone, Copy, Debug, PartialEq, Eq, Structural)]
pub enum Align {
    Left,
    Center,
    Right,
}

/// Vertical space: half a line or a whole line.
#[derive(Clone, Copy, Debug, PartialEq, Eq, Structural)]
pub enum Spacing {
    Half,
    Full,
}

/// A paragraph of text with its style and alignment.
#[derive(Clone, Debug, PartialEq, Eq)]
pub struct Text {
    pub content: String,
    pub style: Style,
    pub align: Align,
}

/// An element of a vertical stack.
#[derive(Clone, Debug, PartialEq, Eq)]
pub enum Item {
    Para(Text),
    Gap(Spacing),
    /// A bulleted list with one plain paragraph per entry.
    Bullets(Vec<String>),
}

/// A top-level layout block.
#[derive(Clone, Debug, PartialEq, Eq)]
pub enum Block {
    Para(Text),
    Gap(Spacing),
    /// A horizontal rule across the page.
    Rule,
    /// Elements stacked vertically.
    Stack(Vec<Item>),
    /// One bullet whose body is a vertical stack of elements.
    Bulleted(Vec<Item>),
}

pub struct TextView {
    pub content: Seq<char>,
    pub style: Style,
    pub align: Align,
}

pub enum ItemView {
    Para(TextView),
    Gap(Spacing),
    Bullets(Seq<Seq<char>>),
}

pub enum BlockView {
    Para(TextView),
    Gap(Spacing),
    Rule,
    Stack(Seq<ItemView>),
    Bulleted(Seq<ItemView>),
}

impl View for Text {
    type V = TextView;

    open spec fn view(&self) -> TextView {
        TextView { content: self.content@, style: self.style, align: self.align }
    }
}

/// The views of a sequence of stack elements.
pub open spec fn item_views(items: Seq<Item>) -> Seq<ItemView> {
    items.map_values(|i: Item| i@)
}

impl View for Item {
    type V = ItemView;

    open spec fn view(&self) -> ItemView {
        match self {
            Item::Para(t) => ItemView::Para(t@),
            Item::Gap(s) => ItemView::Gap(*s),
            Item::Bullets(v) => ItemView::Bullets(views(v@)),
        }
    }
}

impl View for Block {
    type V = BlockView;

    open spec fn view(&self) -> BlockView {
        match self {
            Block::Para(t) => BlockView::Para(t@),
            Block::Gap(s) => BlockView::Gap(*s),
            Block::Rule => BlockView::Rule,
            Block::Stack(v) => BlockView::Stack(item_views(v@)),
            Block::Bulleted(v) => BlockView::Bulleted(item_views(v@)),
        }
    }
}

/// A paragraph's view, spelled out.
pub open spec fn para(content: Seq<char>, style: Style, align: Align) -> TextView {
    TextView { content, style, align }
}

/// A paragraph's view inside a stack.
pub open spec fn item(content: Seq<char>, style: Style, align: Align) -> ItemView {
    ItemView::Para(para(content, style, align))
}

/// An empty stack, to be filled with `push_item` and `push_text`.
pub fn new_stack() -> (r: Vec<Item>)
    ensures
        item_views(r@) == Seq::<ItemView>::empty(),
{
    let r: Vec<Item> = Vec::new();
    assert(item_views(r@) =~= Seq::<ItemView>::empty());
    r
}

/// Appends an element to a stack under construction.
pub fn push_item(items: &mut Vec<Item>, it: Item)
    ensures
        item_views(final(items)@) == item_views(old(items)@).push(it@),
{
    let ghost before = items@;
    items.push(it);
    assert(item_views(items@) =~= item_views(before).push(it@));
}

/// Appends a paragraph to a stack under construction.
pub fn push_text(items: &mut Vec<Item>, content: String, style: Style, align: Align)
    ensures
        item_views(final(items)@) == item_views(old(items)@).push(
            ItemView::Para(para(content@, style, align)),
        ),
{
    push_item(items, Item::Para(Text { content, style, align }));
}

/// The layout document: presentation settings and the blocks appended so far.
#[derive(Clone, Debug, PartialEq, Eq)]
pub struct Document {
    pub title: String,
    pub font_size: u8,
    pub margins: u8,
    pub blocks: Vec<Block>,
}

impl View for Document {
    type V = Seq<BlockView>;

    open spec fn view(&self) -> Seq<BlockView> {
        self.blocks@.map_values(|b: Block| b@)
    }
}

impl Document {
    /// The fixed presentation settings every document starts with.
    pub open spec fn has_default_settings(&self) -> bool {
        &&& self.title@ == "Professional CV"@
        &&& self.font_size == BODY_FONT_SIZE
        &&& self.margins == PAGE_MARGIN
    }

    /// The settings of `self` and `other` agree.
    pub open spec fn same_settings(&self, other: &Document) -> bool {
        &&& self.title@ == other.title@
        &&& self.font_size == other.font_size
        &&& self.margins == other.margins
    }

    /// An empty document with the fixed presentation settings.
    pub fn new() -> (r: Document)
        ensures
            r@ == Seq::<BlockView>::empty(),
            r.has_default_settings(),
    {
        let r = Document {
            title: String::from_str("Professional CV"),
            font_size: BODY_FONT_SIZE,
            margins: PAGE_MARGIN,
            blocks: Vec::new(),
        };
        assert(r@ =~= Seq::<BlockView>::empty());
        r
    }

    /// Appends one block at the end.
    pub fn push(&mut self, b: Block)
        ensures
            final(self)@ == old(self)@.push(b@),
            final(self).same_settings(old(self)),
    {
        let ghost before = self.blocks@;
        self.blocks.push(b);
        assert(self.blocks@.map_values(|b: Block| b@) =~= before.map_values(|b: Block| b@).push(
            b@,
        ));
    }
}

} // verus!
