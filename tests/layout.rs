use resgen::clean::CleanTemplate;
use resgen::default::DefaultTemplate;
use resgen::document::{Align, Block, Document, Item, Spacing, Style, Text};
use resgen::pipeline::CVGenerator;
use resgen::record::{Contact, Edu, Person, Project, Skills, Work};
use resgen::registry::{Template, TemplateRegistry};
use resgen::template::CVTemplate;

fn s(x: &str) -> String {
    x.to_string()
}

fn strings(xs: &[&str]) -> Vec<String> {
    xs.iter().map(|x| x.to_string()).collect()
}

fn no_skills() -> Skills {
    Skills {
        languages: None,
        version_control: None,
        certifications: None,
        technical: None,
        tools: None,
    }
}

fn contact() -> Contact {
    Contact {
        email: s("jane@example.com"),
        phone: s("555-0100"),
        linkedin: s("in/jane"),
        github: s("gh/jane"),
    }
}

fn edu() -> Edu {
    Edu {
        degree: s("BSc Computer Science"),
        institution: s("State University"),
        start_date: s("2015"),
        end_date: s("2019"),
        gpa: s("3.8"),
        courses: strings(&["Algorithms", "Compilers"]),
    }
}

fn jane() -> Person {
    Person {
        name: s("Jane Doe"),
        address: s("1 Main St"),
        contact: contact(),
        summary: s("Engineer."),
        work_experience: None,
        education: vec![edu()],
        skills: no_skills(),
        projects: None,
    }
}

fn full() -> Person {
    let mut p = jane();
    p.work_experience = Some(vec![Work {
        title: s("Developer"),
        company: s("Acme"),
        start_date: s("2019"),
        end_date: s("2023"),
        achievements: strings(&["Shipped v1", "Cut costs"]),
    }]);
    p.projects = Some(vec![Project {
        name: s("resgen"),
        description: s("CV generator"),
        technologies: strings(&["Rust", "Verus"]),
        url: s("https://example.com/resgen"),
    }]);
    p.skills = Skills {
        languages: Some(strings(&["Rust", "C"])),
        version_control: Some(strings(&["git"])),
        certifications: Some(Vec::new()),
        technical: None,
        tools: Some(strings(&["make"])),
    };
    p
}

fn para(content: &str, style: Style, align: Align) -> Block {
    Block::Para(Text { content: s(content), style, align })
}

fn item(content: &str, style: Style, align: Align) -> Item {
    Item::Para(Text { content: s(content), style, align })
}

fn build(p: &Person, name: &str) -> Document {
    let registry = TemplateRegistry::new();
    let mut doc = Document::new();
    registry.generate(name, &mut doc, p);
    doc
}

fn headings(doc: &Document) -> Vec<String> {
    doc.blocks
        .iter()
        .filter_map(|b| match b {
            Block::Para(t) if t.style == Style::Heading => Some(t.content.clone()),
            _ => None,
        })
        .collect()
}

#[test]
fn clean_scenario_without_work_or_projects() {
    let doc = build(&jane(), "clean");
    assert_eq!(doc.blocks[0], para("Jane Doe", Style::Title, Align::Left));
    assert_eq!(headings(&doc), vec![s("Summary"), s("Education"), s("Skills")]);
    assert!(doc.blocks.contains(&para("Engineer.", Style::Plain, Align::Left)));
    let hs = headings(&doc);
    assert!(!hs.contains(&s("Work History")));
    assert!(!hs.contains(&s("Projects")));
    let edu_block = Block::Stack(vec![
        item("State University", Style::Plain, Align::Left),
        item("BSc Computer Science", Style::Plain, Align::Left),
        item("GPA: 3.8", Style::Plain, Align::Left),
        item("Courses: Algorithms, Compilers", Style::Plain, Align::Left),
        item("2015 - 2019", Style::Plain, Align::Right),
    ]);
    assert!(doc.blocks.contains(&edu_block));
}

#[test]
fn clean_header_has_no_address() {
    let doc = build(&jane(), "clean");
    assert_eq!(
        &doc.blocks[0..5],
        &[
            para("Jane Doe", Style::Title, Align::Left),
            Block::Gap(Spacing::Half),
            Block::Rule,
            para(" jane@example.com | 555-0100 | in/jane | gh/jane ", Style::Plain, Align::Left),
            Block::Gap(Spacing::Full),
        ]
    );
    for b in &doc.blocks {
        if let Block::Para(t) = b {
            assert!(!t.content.contains("1 Main St"));
        }
    }
}

#[test]
fn misspelled_template_renders_as_default() {
    for p in [jane(), full()] {
        assert_eq!(build(&p, "weird-typo"), build(&p, "default"));
    }
}

#[test]
fn unknown_template_renders_as_default() {
    for p in [jane(), full()] {
        assert_eq!(build(&p, "__unknown__"), build(&p, "default"));
    }
}

#[test]
fn absent_and_empty_work_render_alike() {
    let absent = jane();
    let mut empty = jane();
    empty.work_experience = Some(Vec::new());
    for name in ["default", "clean"] {
        assert_eq!(build(&absent, name), build(&empty, name));
    }
}

#[test]
fn empty_projects_are_left_out() {
    let mut p = jane();
    p.projects = Some(Vec::new());
    for name in ["default", "clean"] {
        assert!(!headings(&build(&p, name)).contains(&s("Projects")));
    }
}

#[test]
fn building_twice_gives_the_same_document() {
    let g = CVGenerator::new();
    let p = full();
    for name in [Some("default"), Some("clean"), Some("other"), None] {
        assert_eq!(g.build_document(&p, name), g.build_document(&p, name));
    }
}

#[test]
fn build_without_template_uses_default() {
    let g = CVGenerator::new();
    let p = full();
    assert_eq!(g.build_document(&p, None), build(&p, "default"));
    assert_eq!(g.build_document(&p, Some("clean")), build(&p, "clean"));
}

#[test]
fn document_settings_are_fixed() {
    let doc = CVGenerator::new().build_document(&jane(), None);
    assert_eq!(doc.title, "Professional CV");
    assert_eq!(doc.font_size, 11);
    assert_eq!(doc.margins, 12);
}

#[test]
fn default_layout_of_full_record() {
    let doc = build(&full(), "default");
    let expected = vec![
        Block::Stack(vec![
            item("Jane Doe", Style::Title, Align::Center),
            item("Address: 1 Main St", Style::Italic, Align::Center),
            Item::Gap(Spacing::Full),
            item(" jane@example.com | 555-0100 | in/jane | gh/jane ", Style::Plain, Align::Center),
        ]),
        Block::Gap(Spacing::Full),
        Block::Rule,
        para("Summary", Style::Heading, Align::Left),
        Block::Gap(Spacing::Half),
        para("Engineer.", Style::Plain, Align::Left),
        Block::Gap(Spacing::Full),
        para("Education", Style::Heading, Align::Left),
        Block::Gap(Spacing::Half),
        Block::Stack(vec![
            item("BSc Computer Science", Style::Plain, Align::Left),
            item("2015 - 2019", Style::Plain, Align::Right),
            item("Graduated from State University with GPA 3.8", Style::Plain, Align::Left),
            item("Courses: Algorithms, Compilers", Style::Plain, Align::Left),
        ]),
        Block::Gap(Spacing::Full),
        Block::Rule,
        para("Work Experience", Style::Heading, Align::Left),
        Block::Gap(Spacing::Half),
        Block::Bulleted(vec![
            item("Developer", Style::Bold, Align::Left),
            item("At Acme", Style::Plain, Align::Left),
            Item::Gap(Spacing::Full),
            Item::Bullets(strings(&["Shipped v1", "Cut costs"])),
            item("2019 - 2023", Style::Plain, Align::Right),
        ]),
        Block::Gap(Spacing::Full),
        Block::Rule,
        para("Projects", Style::Heading, Align::Left),
        Block::Gap(Spacing::Half),
        Block::Bulleted(vec![
            item("resgen", Style::Bold, Align::Left),
            item("https://example.com/resgen", Style::Italic, Align::Left),
            item("CV generator", Style::Plain, Align::Left),
            item("Technologies: Rust, Verus", Style::Plain, Align::Left),
        ]),
        Block::Gap(Spacing::Full),
        Block::Rule,
        para("Skills", Style::Heading, Align::Left),
        Block::Gap(Spacing::Half),
        para("Languages: Rust, C", Style::Plain, Align::Left),
        para("Tools: make", Style::Plain, Align::Left),
        para("Version Control: git", Style::Plain, Align::Left),
    ];
    assert_eq!(doc.blocks, expected);
}

#[test]
fn clean_orders_work_before_education() {
    let doc = build(&full(), "clean");
    assert_eq!(
        headings(&doc),
        vec![s("Summary"), s("Work History"), s("Projects"), s("Education"), s("Skills")]
    );
    assert!(doc.blocks.contains(&Block::Bulleted(vec![
        item("Developer at Acme", Style::Bold, Align::Left),
        item(" 2019 - 2023", Style::Plain, Align::Right),
        Item::Bullets(strings(&["Shipped v1", "Cut costs"])),
    ])));
    assert!(doc.blocks.contains(&Block::Bulleted(vec![
        item("resgen", Style::Bold, Align::Left),
        item("CV generator", Style::Plain, Align::Left),
        item("https://example.com/resgen", Style::Italic, Align::Left),
        item("Technologies: Rust, Verus", Style::Plain, Align::Left),
    ])));
}

#[test]
fn templates_append_after_existing_blocks() {
    let mut doc = Document::new();
    doc.push(Block::Rule);
    DefaultTemplate::new().generate(&mut doc, &jane());
    assert_eq!(doc.blocks[0], Block::Rule);
    assert_eq!(doc.blocks[1..], build(&jane(), "default").blocks[..]);
}

#[test]
fn empty_education_keeps_heading() {
    let mut p = jane();
    p.education = Vec::new();
    let doc = build(&p, "default");
    assert_eq!(headings(&doc), vec![s("Summary"), s("Education"), s("Skills")]);
    // only the header is a stack: no education entry was laid out
    assert_eq!(doc.blocks.iter().filter(|b| matches!(b, Block::Stack(_))).count(), 1);
}

#[test]
fn add_paragraph_skips_absent_and_empty() {
    let t = DefaultTemplate::new();
    let mut doc = Document::new();
    t.add_paragraph(&mut doc, "Tools", &None);
    t.add_paragraph(&mut doc, "Tools", &Some(Vec::new()));
    assert!(doc.blocks.is_empty());
    t.add_paragraph(&mut doc, "Tools", &Some(strings(&["a", "b", "c"])));
    assert_eq!(doc.blocks, vec![para("Tools: a, b, c", Style::Plain, Align::Left)]);
}

#[test]
fn template_names() {
    assert_eq!(DefaultTemplate::new().name(), "default");
    assert_eq!(CleanTemplate::new().name(), "clean");
}

#[test]
fn registry_lookup_and_register() {
    let mut r = TemplateRegistry::new();
    assert!(matches!(r.get("default"), Some(Template::Default(_))));
    assert!(matches!(r.get("clean"), Some(Template::Clean(_))));
    assert!(r.get("fancy").is_none());
    assert!(r.get("").is_none());
    r.register(Template::Clean(CleanTemplate::new()));
    assert!(matches!(r.get("clean"), Some(Template::Clean(_))));
    assert!(matches!(r.get("default"), Some(Template::Default(_))));
    // registering a name again leaves lookups and output as they were
    r.register(Template::Default(DefaultTemplate::new()));
    let mut doc = Document::new();
    r.generate("default", &mut doc, &jane());
    assert_eq!(doc, build(&jane(), "default"));
}

#[test]
fn contact_and_education_lines() {
    assert_eq!(contact().to_string(), " jane@example.com | 555-0100 | in/jane | gh/jane ");
    assert_eq!(
        edu().to_string(),
        "State University, BSc Computer Science             from 2015 to  2019"
    );
    let mut p = jane();
    p.education.push(Edu { institution: s("College"), ..edu() });
    assert_eq!(
        p.to_string(),
        "State University, BSc Computer Science             from 2015 to  2019,College, BSc Computer Science             from 2015 to  2019"
    );
    p.education.clear();
    assert_eq!(p.to_string(), "");
}
