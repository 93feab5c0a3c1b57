//! The default template: a centred header, then education before work history.

use vstd::prelude::*;

use crate::document::{
    item, item_views, new_stack, push_item, push_text, Align, Block, BlockView, Document, Item,
    ItemView, Spacing, Style,
};
use crate::record::{contact_line, entries, Edu, Person, Project, Work};
use crate::template::{
    add_paragraph, add_skill_lines, comma_list, gap, heading, labelled_line, plain, push_gap,
    push_heading, push_para, push_rule, skill_lines, CVTemplate,
};
use crate::text::{copy_all, glue, glue3, join, views};

verus! {

pub struct DefaultTemplate;

/// Name, address and contact details, centred.
pub open spec fn default_header(p: &Person) -> Seq<BlockView> {
    seq![
        BlockView::Stack(
            seq![
                item(p.name@, Style::Title, Align::Center),
                item("Address: "@ + p.address@, Style::Italic, Align::Center),
                ItemView::Gap(Spacing::Full),
                item(contact_line(p.contact), Style::Plain, Align::Center),
            ],
        ),
        gap(Spacing::Full),
    ]
}

pub open spec fn default_summary(p: &Person) -> Seq<BlockView> {
    seq![heading("Summary"@), gap(Spacing::Half), plain(p.summary@), gap(Spacing::Full)]
}

/// One education entry: degree, dates, institution with grade, courses.
pub open spec fn default_edu_entry(e: Edu) -> BlockView {
    BlockView::Stack(
        seq![
            item(e.degree@, Style::Plain, Align::Left),
            item(e.start_date@ + " - "@ + e.end_date@, Style::Plain, Align::Right),
            item(
                "Graduated from "@ + e.institution@ + " with GPA "@ + e.gpa@,
                Style::Plain,
                Align::Left,
            ),
            item("Courses: "@ + comma_list(e.courses@), Style::Plain, Align::Left),
        ],
    )
}

pub open spec fn default_edu_entries(es: Seq<Edu>) -> Seq<BlockView>
    decreases es.len(),
{
    if es.len() == 0 {
        Seq::empty()
    } else {
        default_edu_entries(es.drop_last()).push(default_edu_entry(es.last()))
    }
}

pub open spec fn default_education(p: &Person) -> Seq<BlockView> {
    seq![heading("Education"@), gap(Spacing::Half)] + default_edu_entries(p.education@) + seq![
        gap(Spacing::Full),
    ]
}

/// One job: title, employer, achievements as bullets, dates.
pub open spec fn default_work_entry(w: Work) -> Seq<BlockView> {
    seq![
        BlockView::Bulleted(
            seq![
                item(w.title@, Style::Bold, Align::Left),
                item("At "@ + w.company@, Style::Plain, Align::Left),
                ItemView::Gap(Spacing::Full),
                ItemView::Bullets(views(w.achievements@)),
                item(w.start_date@ + " - "@ + w.end_date@, Style::Plain, Align::Right),
            ],
        ),
        gap(Spacing::Full),
    ]
}

pub open spec fn default_work_entries(ws: Seq<Work>) -> Seq<BlockView>
    decreases ws.len(),
{
    if ws.len() == 0 {
        Seq::empty()
    } else {
        default_work_entries(ws.drop_last()) + default_work_entry(ws.last())
    }
}

/// The work section; left out when there is no work entry.
pub open spec fn default_work(p: &Person) -> Seq<BlockView> {
    if entries(p.work_experience).len() == 0 {
        Seq::empty()
    } else {
        seq![heading("Work Experience"@), gap(Spacing::Half)] + default_work_entries(
            entries(p.work_experience),
        )
    }
}

/// One project: name, link, description, technologies.
pub open spec fn default_project_entry(pr: Project) -> Seq<BlockView> {
    seq![
        BlockView::Bulleted(
            seq![
                item(pr.name@, Style::Bold, Align::Left),
                item(pr.url@, Style::Italic, Align::Left),
                item(pr.description@, Style::Plain, Align::Left),
                item("Technologies: "@ + comma_list(pr.technologies@), Style::Plain, Align::Left),
            ],
        ),
        gap(Spacing::Full),
    ]
}

pub open spec fn default_project_entries(ps: Seq<Project>) -> Seq<BlockView>
    decreases ps.len(),
{
    if ps.len() == 0 {
        Seq::empty()
    } else {
        default_project_entries(ps.drop_last()) + default_project_entry(ps.last())
    }
}

/// The projects section; left out when there is no project.
pub open spec fn default_projects(p: &Person) -> Seq<BlockView> {
    if entries(p.projects).len() == 0 {
        Seq::empty()
    } else {
        seq![heading("Projects"@), gap(Spacing::Half)] + default_project_entries(
            entries(p.projects),
        )
    }
}

pub open spec fn default_skills(p: &Person) -> Seq<BlockView> {
    seq![heading("Skills"@), gap(Spacing::Half)] + skill_lines(p.skills)
}

/// The whole default layout: header, rule, summary, education, rule, work,
/// rule, projects, rule, skills.
pub open spec fn default_layout(p: &Person) -> Seq<BlockView> {
    default_header(p) + seq![BlockView::Rule] + default_summary(p) + default_education(p) + seq![
        BlockView::Rule,
    ] + default_work(p) + seq![BlockView::Rule] + default_projects(p) + seq![BlockView::Rule]
        + default_skills(p)
}

impl DefaultTemplate {
    pub fn new() -> (r: DefaultTemplate) {
        DefaultTemplate
    }

    fn dt_header(&self, doc: &mut Document, p: &Person)
        ensures
            final(doc)@ == old(doc)@ + default_header(p),
            final(doc).same_settings(old(doc)),
    {
        let mut header = new_stack();
        push_text(&mut header, p.name.clone(), Style::Title, Align::Center);
        push_text(&mut header, glue("Address: ", p.address.as_str()), Style::Italic, Align::Center);
        push_item(&mut header, Item::Gap(Spacing::Full));
        push_text(&mut header, p.contact.to_string(), Style::Plain, Align::Center);
        assert(item_views(header@) =~= seq![
            item(p.name@, Style::Title, Align::Center),
            item("Address: "@ + p.address@, Style::Italic, Align::Center),
            ItemView::Gap(Spacing::Full),
            item(contact_line(p.contact), Style::Plain, Align::Center),
        ]);
        doc.push(Block::Stack(header));
        push_gap(doc, Spacing::Full);
        assert(doc@ =~= old(doc)@ + default_header(p));
    }

    fn dt_summary(&self, doc: &mut Document, p: &Person)
        ensures
            final(doc)@ == old(doc)@ + default_summary(p),
            final(doc).same_settings(old(doc)),
    {
        push_heading(doc, "Summary");
        push_gap(doc, Spacing::Half);
        push_para(doc, p.summary.clone(), Style::Plain, Align::Left);
        push_gap(doc, Spacing::Full);
        assert(doc@ =~= old(doc)@ + default_summary(p));
    }

    fn dt_edu(&self, doc: &mut Document, p: &Person)
        ensures
            final(doc)@ == old(doc)@ + default_education(p),
            final(doc).same_settings(old(doc)),
    {
        push_heading(doc, "Education");
        push_gap(doc, Spacing::Half);
        let ghost start = doc@;
        let mut i: usize = 0;
        while i < p.education.len()
            invariant
                i <= p.education@.len(),
                doc@ == start + default_edu_entries(p.education@.take(i as int)),
                doc.same_settings(old(doc)),
                start == old(doc)@ + seq![heading("Education"@), gap(Spacing::Half)],
            decreases p.education@.len() - i,
        {
            let e = &p.education[i];
            let mut body = new_stack();
            push_text(&mut body, e.degree.clone(), Style::Plain, Align::Left);
            push_text(
                &mut body,
                glue3(e.start_date.as_str(), " - ", e.end_date.as_str()),
                Style::Plain,
                Align::Right,
            );
            let mut grad = glue3("Graduated from ", e.institution.as_str(), " with GPA ");
            grad.append(e.gpa.as_str());
            push_text(&mut body, grad, Style::Plain, Align::Left);
            let courses = join(&e.courses, ", ");
            push_text(&mut body, glue("Courses: ", courses.as_str()), Style::Plain, Align::Left);
            assert(item_views(body@) =~= seq![
                item(e.degree@, Style::Plain, Align::Left),
                item(e.start_date@ + " - "@ + e.end_date@, Style::Plain, Align::Right),
                item(
                    "Graduated from "@ + e.institution@ + " with GPA "@ + e.gpa@,
                    Style::Plain,
                    Align::Left,
                ),
                item("Courses: "@ + comma_list(e.courses@), Style::Plain, Align::Left),
            ]);
            doc.push(Block::Stack(body));
            proof {
                assert(p.education@.take(i as int + 1).drop_last() =~= p.education@.take(i as int));
            }
            i = i + 1;
        }
        assert(p.education@.take(i as int) =~= p.education@);
        push_gap(doc, Spacing::Full);
        assert(doc@ =~= old(doc)@ + default_education(p));
    }

    fn dt_we(&self, doc: &mut Document, p: &Person)
        ensures
            final(doc)@ == old(doc)@ + default_work(p),
            final(doc).same_settings(old(doc)),
    {
        match &p.work_experience {
            Some(exp) => {
                if exp.len() == 0 {
                    assert(old(doc)@ + default_work(p) =~= old(doc)@);
                    return ;
                }
                push_heading(doc, "Work Experience");
                push_gap(doc, Spacing::Half);
                let ghost start = doc@;
                let mut i: usize = 0;
                while i < exp.len()
                    invariant
                        i <= exp@.len(),
                        doc@ == start + default_work_entries(exp@.take(i as int)),
                        doc.same_settings(old(doc)),
                    decreases exp@.len() - i,
                {
                    let w = &exp[i];
                    let mut body = new_stack();
                    push_text(&mut body, w.title.clone(), Style::Bold, Align::Left);
                    push_text(&mut body, glue("At ", w.company.as_str()), Style::Plain, Align::Left);
                    push_item(&mut body, Item::Gap(Spacing::Full));
                    push_item(&mut body, Item::Bullets(copy_all(&w.achievements)));
                    push_text(
                        &mut body,
                        glue3(w.start_date.as_str(), " - ", w.end_date.as_str()),
                        Style::Plain,
                        Align::Right,
                    );
                    assert(item_views(body@) =~= seq![
                        item(w.title@, Style::Bold, Align::Left),
                        item("At "@ + w.company@, Style::Plain, Align::Left),
                        ItemView::Gap(Spacing::Full),
                        ItemView::Bullets(views(w.achievements@)),
                        item(w.start_date@ + " - "@ + w.end_date@, Style::Plain, Align::Right),
                    ]);
                    doc.push(Block::Bulleted(body));
                    push_gap(doc, Spacing::Full);
                    proof {
                        assert(exp@.take(i as int + 1).drop_last() =~= exp@.take(i as int));
                        assert(doc@ =~= start + default_work_entries(exp@.take(i as int + 1)));
                    }
                    i = i + 1;
                }
                assert(exp@.take(i as int) =~= exp@);
                assert(doc@ =~= old(doc)@ + default_work(p));
            },
            None => {
                assert(old(doc)@ + default_work(p) =~= old(doc)@);
            },
        }
    }

    fn dt_projs(&self, doc: &mut Document, p: &Person)
        ensures
            final(doc)@ == old(doc)@ + default_projects(p),
            final(doc).same_settings(old(doc)),
    {
        match &p.projects {
            Some(projs) => {
                if projs.len() == 0 {
                    assert(old(doc)@ + default_projects(p) =~= old(doc)@);
                    return ;
                }
                push_heading(doc, "Projects");
                push_gap(doc, Spacing::Half);
                let ghost start = doc@;
                let mut i: usize = 0;
                while i < projs.len()
                    invariant
                        i <= projs@.len(),
                        doc@ == start + default_project_entries(projs@.take(i as int)),
                        doc.same_settings(old(doc)),
                    decreases projs@.len() - i,
                {
                    let pr = &projs[i];
                    let used_tech = join(&pr.technologies, ", ");
                    let mut body = new_stack();
                    push_text(&mut body, pr.name.clone(), Style::Bold, Align::Left);
                    push_text(&mut body, pr.url.clone(), Style::Italic, Align::Left);
                    push_text(&mut body, pr.description.clone(), Style::Plain, Align::Left);
                    push_text(
                        &mut body,
                        glue("Technologies: ", used_tech.as_str()),
                        Style::Plain,
                        Align::Left,
                    );
                    assert(item_views(body@) =~= seq![
                        item(pr.name@, Style::Bold, Align::Left),
                        item(pr.url@, Style::Italic, Align::Left),
                        item(pr.description@, Style::Plain, Align::Left),
                        item("Technologies: "@ + comma_list(pr.technologies@), Style::Plain, Align::Left),
                    ]);
                    doc.push(Block::Bulleted(body));
                    push_gap(doc, Spacing::Full);
                    proof {
                        assert(projs@.take(i as int + 1).drop_last() =~= projs@.take(i as int));
                        assert(doc@ =~= start + default_project_entries(projs@.take(i as int + 1)));
                    }
                    i = i + 1;
                }
                assert(projs@.take(i as int) =~= projs@);
                assert(doc@ =~= old(doc)@ + default_projects(p));
            },
            None => {
                assert(old(doc)@ + default_projects(p) =~= old(doc)@);
            },
        }
    }

    fn dt_skills(&self, doc: &mut Document, p: &Person)
        ensures
            final(doc)@ == old(doc)@ + default_skills(p),
            final(doc).same_settings(old(doc)),
    {
        push_heading(doc, "Skills");
        push_gap(doc, Spacing::Half);
        add_skill_lines(doc, &p.skills);
        assert(doc@ =~= old(doc)@ + default_skills(p));
    }

    /// Appends the line `label: a, b, c` when `items` is present and not empty.
    pub fn add_paragraph(&self, doc: &mut Document, label: &str, items: &Option<Vec<String>>)
        ensures
            final(doc)@ == old(doc)@ + labelled_line(label@, *items),
            final(doc).same_settings(old(doc)),
    {
        add_paragraph(doc, label, items);
    }
}

impl CVTemplate for DefaultTemplate {
    open spec fn layout(&self, person: &Person) -> Seq<BlockView> {
        default_layout(person)
    }

    open spec fn spec_name(&self) -> Seq<char> {
        "default"@
    }

    fn generate(&self, doc: &mut Document, p: &Person) {
        self.dt_header(doc, p);
        push_rule(doc);
        self.dt_summary(doc, p);
        self.dt_edu(doc, p);
        push_rule(doc);
        self.dt_we(doc, p);
        push_rule(doc);
        self.dt_projs(doc, p);
        push_rule(doc);
        self.dt_skills(doc, p);
        assert(doc@ =~= old(doc)@ + default_layout(p));
    }

    fn name(&self) -> (r: &'static str) {
        "default"
    }
}

} // verus!
