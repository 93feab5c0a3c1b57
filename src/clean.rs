//! The clean template: no address, ruled section headings, work history
//! before education.

use vstd::prelude::*;

use crate::document::{
    item, item_views, new_stack, para, push_item, push_text, Align, Block, BlockView, Document,
    Item, ItemView, Spacing, Style,
};
use crate::record::{contact_line, entries, Edu, Person, Project, Work};
use crate::template::{
    add_skill_lines, comma_list, gap, heading, plain, push_gap, push_heading, push_para, push_rule,
    skill_lines, CVTemplate,
};
use crate::text::{copy_all, glue, glue3, join, views};

verus! {

pub struct CleanTemplate;

/// Name, a rule, then contact details; no address.
pub open spec fn clean_header(p: &Person) -> Seq<BlockView> {
    seq![
        BlockView::Para(para(p.name@, Style::Title, Align::Left)),
        gap(Spacing::Half),
        BlockView::Rule,
        plain(contact_line(p.contact)),
        gap(Spacing::Full),
    ]
}

/// A section heading followed by a rule between two half-line gaps.
pub open spec fn ruled_heading(label: Seq<char>) -> Seq<BlockView> {
    seq![heading(label), gap(Spacing::Half), BlockView::Rule, gap(Spacing::Half)]
}

pub open spec fn clean_summary(p: &Person) -> Seq<BlockView> {
    ruled_heading("Summary"@) + seq![plain(p.summary@), gap(Spacing::Full)]
}

/// One job: title at employer, dates, achievements as bullets.
pub open spec fn clean_work_entry(w: Work) -> Seq<BlockView> {
    seq![
        BlockView::Bulleted(
            seq![
                item(w.title@ + " at "@ + w.company@, Style::Bold, Align::Left),
                item(" "@ + w.start_date@ + " - "@ + w.end_date@, Style::Plain, Align::Right),
                ItemView::Bullets(views(w.achievements@)),
            ],
        ),
        gap(Spacing::Full),
    ]
}

pub open spec fn clean_work_entries(ws: Seq<Work>) -> Seq<BlockView>
    decreases ws.len(),
{
    if ws.len() == 0 {
        Seq::empty()
    } else {
        clean_work_entries(ws.drop_last()) + clean_work_entry(ws.last())
    }
}

/// The work section; left out when there is no work entry.
pub open spec fn clean_work(p: &Person) -> Seq<BlockView> {
    if entries(p.work_experience).len() == 0 {
        Seq::empty()
    } else {
        ruled_heading("Work History"@) + clean_work_entries(entries(p.work_experience))
    }
}

/// One project: name, description, link, technologies.
pub open spec fn clean_project_entry(pr: Project) -> Seq<BlockView> {
    seq![
        BlockView::Bulleted(
            seq![
                item(pr.name@, Style::Bold, Align::Left),
                item(pr.description@, Style::Plain, Align::Left),
                item(pr.url@, Style::Italic, Align::Left),
                item("Technologies: "@ + comma_list(pr.technologies@), Style::Plain, Align::Left),
            ],
        ),
        gap(Spacing::Full),
    ]
}

pub open spec fn clean_project_entries(ps: Seq<Project>) -> Seq<BlockView>
    decreases ps.len(),
{
    if ps.len() == 0 {
        Seq::empty()
    } else {
        clean_project_entries(ps.drop_last()) + clean_project_entry(ps.last())
    }
}

/// The projects section; left out when there is no project.
pub open spec fn clean_projects(p: &Person) -> Seq<BlockView> {
    if entries(p.projects).len() == 0 {
        Seq::empty()
    } else {
        ruled_heading("Projects"@) + clean_project_entries(entries(p.projects))
    }
}

/// One education entry: institution, degree, grade, courses, dates.
pub open spec fn clean_edu_entry(e: Edu) -> BlockView {
    BlockView::Stack(
        seq![
            item(e.institution@, Style::Plain, Align::Left),
            item(e.degree@, Style::Plain, Align::Left),
            item("GPA: "@ + e.gpa@, Style::Plain, Align::Left),
            item("Courses: "@ + comma_list(e.courses@), Style::Plain, Align::Left),
            item(e.start_date@ + " - "@ + e.end_date@, Style::Plain, Align::Right),
        ],
    )
}

pub open spec fn clean_edu_entries(es: Seq<Edu>) -> Seq<BlockView>
    decreases es.len(),
{
    if es.len() == 0 {
        Seq::empty()
    } else {
        clean_edu_entries(es.drop_last()).push(clean_edu_entry(es.last()))
    }
}

pub open spec fn clean_education(p: &Person) -> Seq<BlockView> {
    ruled_heading("Education"@) + clean_edu_entries(p.education@)
}

pub open spec fn clean_skills(p: &Person) -> Seq<BlockView> {
    seq![heading("Skills"@), gap(Spacing::Half), BlockView::Rule] + skill_lines(p.skills)
}

/// The whole clean layout: header, summary, work, projects, education, skills.
pub open spec fn clean_layout(p: &Person) -> Seq<BlockView> {
    clean_header(p) + clean_summary(p) + clean_work(p) + clean_projects(p) + clean_education(p)
        + clean_skills(p)
}

/// Appends a heading, a half-line gap, a rule and another half-line gap.
fn push_ruled_heading(doc: &mut Document, label: &str)
    ensures
        final(doc)@ == old(doc)@ + ruled_heading(label@),
        final(doc).same_settings(old(doc)),
{
    push_heading(doc, label);
    push_gap(doc, Spacing::Half);
    push_rule(doc);
    push_gap(doc, Spacing::Half);
    assert(doc@ =~= old(doc)@ + ruled_heading(label@));
}

impl CleanTemplate {
    pub fn new() -> (r: CleanTemplate) {
        CleanTemplate
    }

    fn ct_header(&self, doc: &mut Document, p: &Person)
        ensures
            final(doc)@ == old(doc)@ + clean_header(p),
            final(doc).same_settings(old(doc)),
    {
        push_para(doc, p.name.clone(), Style::Title, Align::Left);
        push_gap(doc, Spacing::Half);
        push_rule(doc);
        push_para(doc, p.contact.to_string(), Style::Plain, Align::Left);
        push_gap(doc, Spacing::Full);
        assert(doc@ =~= old(doc)@ + clean_header(p));
    }

    fn ct_summary(&self, doc: &mut Document, p: &Person)
        ensures
            final(doc)@ == old(doc)@ + clean_summary(p),
            final(doc).same_settings(old(doc)),
    {
        push_ruled_heading(doc, "Summary");
        push_para(doc, p.summary.clone(), Style::Plain, Align::Left);
        push_gap(doc, Spacing::Full);
        assert(doc@ =~= old(doc)@ + clean_summary(p));
    }

    fn ct_we(&self, doc: &mut Document, p: &Person)
        ensures
            final(doc)@ == old(doc)@ + clean_work(p),
            final(doc).same_settings(old(doc)),
    {
        match &p.work_experience {
            Some(exp) => {
                if exp.len() == 0 {
                    assert(old(doc)@ + clean_work(p) =~= old(doc)@);
                    return ;
                }
                push_ruled_heading(doc, "Work History");
                let ghost start = doc@;
                let mut i: usize = 0;
                while i < exp.len()
                    invariant
                        i <= exp@.len(),
                        doc@ == start + clean_work_entries(exp@.take(i as int)),
                        doc.same_settings(old(doc)),
                    decreases exp@.len() - i,
                {
                    let w = &exp[i];
                    let heading_line = glue3(w.title.as_str(), " at ", w.company.as_str());
                    let mut dates = glue3(" ", w.start_date.as_str(), " - ");
                    dates.append(w.end_date.as_str());
                    let mut body = new_stack();
                    push_text(&mut body, heading_line, Style::Bold, Align::Left);
                    push_text(&mut body, dates, Style::Plain, Align::Right);
                    push_item(&mut body, Item::Bullets(copy_all(&w.achievements)));
                    assert(item_views(body@) =~= seq![
                        item(w.title@ + " at "@ + w.company@, Style::Bold, Align::Left),
                        item(" "@ + w.start_date@ + " - "@ + w.end_date@, Style::Plain, Align::Right),
                        ItemView::Bullets(views(w.achievements@)),
                    ]);
                    doc.push(Block::Bulleted(body));
                    push_gap(doc, Spacing::Full);
                    proof {
                        assert(exp@.take(i as int + 1).drop_last() =~= exp@.take(i as int));
                        assert(doc@ =~= start + clean_work_entries(exp@.take(i as int + 1)));
                    }
                    i = i + 1;
                }
                assert(exp@.take(i as int) =~= exp@);
                assert(doc@ =~= old(doc)@ + clean_work(p));
            },
            None => {
                assert(old(doc)@ + clean_work(p) =~= old(doc)@);
            },
        }
    }

    fn ct_projs(&self, doc: &mut Document, p: &Person)
        ensures
            final(doc)@ == old(doc)@ + clean_projects(p),
            final(doc).same_settings(old(doc)),
    {
        match &p.projects {
            Some(projs) => {
                if projs.len() == 0 {
                    assert(old(doc)@ + clean_projects(p) =~= old(doc)@);
                    return ;
                }
                push_ruled_heading(doc, "Projects");
                let ghost start = doc@;
                let mut i: usize = 0;
                while i < projs.len()
                    invariant
                        i <= projs@.len(),
                        doc@ == start + clean_project_entries(projs@.take(i as int)),
                        doc.same_settings(old(doc)),
                    decreases projs@.len() - i,
                {
                    let pr = &projs[i];
                    let used_tech = join(&pr.technologies, ", ");
                    let mut body = new_stack();
                    push_text(&mut body, pr.name.clone(), Style::Bold, Align::Left);
                    push_text(&mut body, pr.description.clone(), Style::Plain, Align::Left);
                    push_text(&mut body, pr.url.clone(), Style::Italic, Align::Left);
                    push_text(
                        &mut body,
                        glue("Technologies: ", used_tech.as_str()),
                        Style::Plain,
                        Align::Left,
                    );
                    assert(item_views(body@) =~= seq![
                        item(pr.name@, Style::Bold, Align::Left),
                        item(pr.description@, Style::Plain, Align::Left),
                        item(pr.url@, Style::Italic, Align::Left),
                        item("Technologies: "@ + comma_list(pr.technologies@), Style::Plain, Align::Left),
                    ]);
                    doc.push(Block::Bulleted(body));
                    push_gap(doc, Spacing::Full);
                    proof {
                        assert(projs@.take(i as int + 1).drop_last() =~= projs@.take(i as int));
                        assert(doc@ =~= start + clean_project_entries(projs@.take(i as int + 1)));
                    }
                    i = i + 1;
                }
                assert(projs@.take(i as int) =~= projs@);
                assert(doc@ =~= old(doc)@ + clean_projects(p));
            },
            None => {
                assert(old(doc)@ + clean_projects(p) =~= old(doc)@);
            },
        }
    }

    fn ct_edu(&self, doc: &mut Document, p: &Person)
        ensures
            final(doc)@ == old(doc)@ + clean_education(p),
            final(doc).same_settings(old(doc)),
    {
        push_ruled_heading(doc, "Education");
        let ghost start = doc@;
        let mut i: usize = 0;
        while i < p.education.len()
            invariant
                i <= p.education@.len(),
                doc@ == start + clean_edu_entries(p.education@.take(i as int)),
                doc.same_settings(old(doc)),
                start == old(doc)@ + ruled_heading("Education"@),
            decreases p.education@.len() - i,
        {
            let e = &p.education[i];
            let courses = join(&e.courses, ", ");
            let mut body = new_stack();
            push_text(&mut body, e.institution.clone(), Style::Plain, Align::Left);
            push_text(&mut body, e.degree.clone(), Style::Plain, Align::Left);
            push_text(&mut body, glue("GPA: ", e.gpa.as_str()), Style::Plain, Align::Left);
            push_text(&mut body, glue("Courses: ", courses.as_str()), Style::Plain, Align::Left);
            push_text(
                &mut body,
                glue3(e.start_date.as_str(), " - ", e.end_date.as_str()),
                Style::Plain,
                Align::Right,
            );
            assert(item_views(body@) =~= seq![
                item(e.institution@, Style::Plain, Align::Left),
                item(e.degree@, Style::Plain, Align::Left),
                item("GPA: "@ + e.gpa@, Style::Plain, Align::Left),
                item("Courses: "@ + comma_list(e.courses@), Style::Plain, Align::Left),
                item(e.start_date@ + " - "@ + e.end_date@, Style::Plain, Align::Right),
            ]);
            doc.push(Block::Stack(body));
            proof {
                assert(p.education@.take(i as int + 1).drop_last() =~= p.education@.take(i as int));
            }
            i = i + 1;
        }
        assert(p.education@.take(i as int) =~= p.education@);
        assert(doc@ =~= old(doc)@ + clean_education(p));
    }

    fn ct_skills(&self, doc: &mut Document, p: &Person)
        ensures
            final(doc)@ == old(doc)@ + clean_skills(p),
            final(doc).same_settings(old(doc)),
    {
        push_heading(doc, "Skills");
        push_gap(doc, Spacing::Half);
        push_rule(doc);
        add_skill_lines(doc, &p.skills);
        assert(doc@ =~= old(doc)@ + clean_skills(p));
    }
}

impl CVTemplate for CleanTemplate {
    open spec fn layout(&self, person: &Person) -> Seq<BlockView> {
        clean_layout(person)
    }

    open spec fn spec_name(&self) -> Seq<char> {
        "clean"@
    }

    fn generate(&self, doc: &mut Document, p: &Person) {
        self.ct_header(doc, p);
        self.ct_summary(doc, p);
        self.ct_we(doc, p);
        self.ct_projs(doc, p);
        self.ct_edu(doc, p);
        self.ct_skills(doc, p);
        assert(doc@ =~= old(doc)@ + clean_layout(p));
    }

    fn name(&self) -> (r: &'static str) {
        "clean"
    }
}

} // verus!
