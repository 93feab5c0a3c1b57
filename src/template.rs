//! The template capability, and the pieces of layout that templates share.

use vstd::prelude::*;

use crate::document::{para, Align, Block, BlockView, Document, Spacing, Style, Text};
use crate::record::{entries, Person, Skills};
use crate::text::{join, joined, views};

verus! {

/// A named strategy that lays out a record as a sequence of blocks.
pub trait CVTemplate {
    /// The blocks this template appends for `person`.
    spec fn layout(&self, person: &Person) -> Seq<BlockView>;

    /// The identifier the template is registered and selected under.
    spec fn spec_name(&self) -> Seq<char>;

    /// Appends this template's blocks for `person` to `doc`; the rest of `doc`
    /// is left as it was.
    fn generate(&self, doc: &mut Document, person: &Person)
        ensures
            final(doc)@ == old(doc)@ + self.layout(person),
            final(doc).same_settings(old(doc)),
    ;

    /// The template's identifier.
    fn name(&self) -> (r: &'static str)
        ensures
            r@ == self.spec_name(),
    ;
}

/// A section heading.
pub open spec fn heading(label: Seq<char>) -> BlockView {
    BlockView::Para(para(label, Style::Heading, Align::Left))
}

/// A plain left-aligned paragraph.
pub open spec fn plain(content: Seq<char>) -> BlockView {
    BlockView::Para(para(content, Style::Plain, Align::Left))
}

pub open spec fn gap(s: Spacing) -> BlockView {
    BlockView::Gap(s)
}

/// A list written on one line, its items separated by a comma and a space.
pub open spec fn comma_list(items: Seq<String>) -> Seq<char> {
    joined(views(items), ", "@)
}

/// The line `label: a, b, c` for a present, non-empty list; nothing otherwise.
pub open spec fn labelled_line(label: Seq<char>, items: Option<Vec<String>>) -> Seq<BlockView> {
    if entries(items).len() == 0 {
        Seq::empty()
    } else {
        seq![plain(label + ": "@ + comma_list(entries(items)))]
    }
}

/// One line per present skill category, in a fixed order.
pub open spec fn skill_lines(s: Skills) -> Seq<BlockView> {
    labelled_line("Languages"@, s.languages) + labelled_line("Technicals"@, s.technical)
        + labelled_line("Certifications"@, s.certifications) + labelled_line("Tools"@, s.tools)
        + labelled_line("Version Control"@, s.version_control)
}

/// Appends a paragraph.
pub fn push_para(doc: &mut Document, content: String, style: Style, align: Align)
    ensures
        final(doc)@ == old(doc)@.push(BlockView::Para(para(content@, style, align))),
        final(doc).same_settings(old(doc)),
{
    doc.push(Block::Para(Text { content, style, align }));
}

/// Appends a section heading.
pub fn push_heading(doc: &mut Document, label: &str)
    ensures
        final(doc)@ == old(doc)@.push(heading(label@)),
        final(doc).same_settings(old(doc)),
{
    push_para(doc, String::from_str(label), Style::Heading, Align::Left);
}

/// Appends vertical space.
pub fn push_gap(doc: &mut Document, s: Spacing)
    ensures
        final(doc)@ == old(doc)@.push(gap(s)),
        final(doc).same_settings(old(doc)),
{
    doc.push(Block::Gap(s));
}

/// Appends a horizontal rule.
pub fn push_rule(doc: &mut Document)
    ensures
        final(doc)@ == old(doc)@.push(BlockView::Rule),
        final(doc).same_settings(old(doc)),
{
    doc.push(Block::Rule);
}

/// Appends the line `label: a, b, c` when `items` is present and not empty.
pub fn add_paragraph(doc: &mut Document, label: &str, items: &Option<Vec<String>>)
    ensures
        final(doc)@ == old(doc)@ + labelled_line(label@, *items),
        final(doc).same_settings(old(doc)),
{
    match items {
        Some(list) => {
            if list.len() > 0 {
                let mut line = String::from_str(label);
                line.append(": ");
                let all = join(list, ", ");
                line.append(all.as_str());
                push_para(doc, line, Style::Plain, Align::Left);
                assert(old(doc)@ + labelled_line(label@, *items) =~= old(doc)@.push(
                    plain(label@ + ": "@ + comma_list(list@)),
                ));
            } else {
                assert(old(doc)@ + labelled_line(label@, *items) =~= old(doc)@);
            }
        },
        None => {
            assert(old(doc)@ + labelled_line(label@, *items) =~= old(doc)@);
        },
    }
}

/// Appends one line per present skill category.
pub fn add_skill_lines(doc: &mut Document, s: &Skills)
    ensures
        final(doc)@ == old(doc)@ + skill_lines(*s),
        final(doc).same_settings(old(doc)),
{
    add_paragraph(doc, "Languages", &s.languages);
    add_paragraph(doc, "Technicals", &s.technical);
    add_paragraph(doc, "Certifications", &s.certifications);
    add_paragraph(doc, "Tools", &s.tools);
    add_paragraph(doc, "Version Control", &s.version_control);
    assert(doc@ =~= old(doc)@ + skill_lines(*s));
}

} // verus!
