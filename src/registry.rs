//! Template selection by identifier, with a fallback to `"default"`.

use vstd::prelude::*;

use crate::clean::{clean_layout, clean_work, CleanTemplate};
use crate::default::{default_layout, default_work, DefaultTemplate};
use crate::document::{BlockView, Document};
use crate::record::Person;
use crate::template::CVTemplate;
use crate::text::same_text;

verus! {

/// One of the templates the library offers.
pub enum Template {
    Default(DefaultTemplate),
    Clean(CleanTemplate),
}

impl CVTemplate for Template {
    open spec fn layout(&self, person: &Person) -> Seq<BlockView> {
        match self {
            Template::Default(t) => t.layout(person),
            Template::Clean(t) => t.layout(person),
        }
    }

    open spec fn spec_name(&self) -> Seq<char> {
        match self {
            Template::Default(t) => t.spec_name(),
            Template::Clean(t) => t.spec_name(),
        }
    }

    fn generate(&self, doc: &mut Document, person: &Person) {
        match self {
            Template::Default(t) => t.generate(doc, person),
            Template::Clean(t) => t.generate(doc, person),
        }
    }

    fn name(&self) -> (r: &'static str) {
        match self {
            Template::Default(t) => t.name(),
            Template::Clean(t) => t.name(),
        }
    }
}

/// The template registered last under `name`, if any.
pub open spec fn lookup(entries: Seq<Template>, name: Seq<char>) -> Option<Template>
    decreases entries.len(),
{
    if entries.len() == 0 {
        None
    } else if entries.last().spec_name() == name {
        Some(entries.last())
    } else {
        lookup(entries.drop_last(), name)
    }
}

/// No two entries share a name.
pub open spec fn names_unique(entries: Seq<Template>) -> bool {
    forall|i: int, j: int|
        0 <= i < j < entries.len() ==> #[trigger] entries[i].spec_name()
            != #[trigger] entries[j].spec_name()
}

/// Replacing an entry by one of the same name changes what that name
/// selects, and nothing else.
proof fn lemma_lookup_update(entries: Seq<Template>, i: int, t: Template, name: Seq<char>)
    requires
        names_unique(entries),
        0 <= i < entries.len(),
        entries[i].spec_name() == t.spec_name(),
    ensures
        names_unique(entries.update(i, t)),
        lookup(entries.update(i, t), name) == if name == t.spec_name() {
            Some(t)
        } else {
            lookup(entries, name)
        },
    decreases entries.len(),
{
    let updated = entries.update(i, t);
    assert(names_unique(updated)) by {
        assert forall|a: int, b: int|
            0 <= a < b < updated.len() implies #[trigger] updated[a].spec_name()
            != #[trigger] updated[b].spec_name() by {
            assert(entries[a].spec_name() != entries[b].spec_name());
        }
    }
    let last = entries.len() - 1;
    if i == last {
        assert(updated.drop_last() =~= entries.drop_last());
    } else {
        assert(entries[last].spec_name() != entries[i].spec_name());
        assert(updated.drop_last() =~= entries.drop_last().update(i, t));
        lemma_lookup_update(entries.drop_last(), i, t, name);
    }
}

/// The identifier every registry holds and falls back to.
pub open spec fn fallback_name() -> Seq<char> {
    "default"@
}

/// Maps template identifiers to templates. A name registered twice selects
/// the template registered last, as a map would.
pub struct TemplateRegistry {
    templates: Vec<Template>,
}

impl TemplateRegistry {
    /// The template registered under `name`.
    pub closed spec fn entry(&self, name: Seq<char>) -> Option<Template> {
        lookup(self.templates@, name)
    }

    /// No two entries share a name.
    pub closed spec fn keys_unique(&self) -> bool {
        names_unique(self.templates@)
    }

    /// Names are unique and a template is registered under `"default"`.
    pub open spec fn wf(&self) -> bool {
        &&& self.keys_unique()
        &&& self.entry(fallback_name()) is Some
    }

    /// The template that `generate` uses for `name`: the one registered
    /// under it, else the one registered under `"default"`.
    pub open spec fn selected(&self, name: Seq<char>) -> Template {
        match self.entry(name) {
            Some(t) => t,
            None => self.entry(fallback_name())->Some_0,
        }
    }

    /// A registry holding the default and the clean template.
    pub fn new() -> (r: TemplateRegistry)
        ensures
            r.wf(),
            r.entry("default"@) == Some(Template::Default(DefaultTemplate)),
            r.entry("clean"@) == Some(Template::Clean(CleanTemplate)),
            forall|n: Seq<char>| n != "default"@ && n != "clean"@ ==> r.entry(n) is None,
    {
        let mut registry = TemplateRegistry { templates: Vec::new() };
        assert(forall|n: Seq<char>| registry.entry(n) is None);
        assert(registry.keys_unique());
        registry.register(Template::Default(DefaultTemplate::new()));
        registry.register(Template::Clean(CleanTemplate::new()));
        proof {
            reveal_strlit("default");
            reveal_strlit("clean");
            assert("default"@.len() != "clean"@.len());
        }
        registry
    }

    /// Registers `template` under its own name, replacing the template that
    /// name selected, if any.
    pub fn register(&mut self, template: Template)
        requires
            old(self).keys_unique(),
        ensures
            final(self).keys_unique(),
            forall|n: Seq<char>|
                #[trigger] final(self).entry(n) == if n == template.spec_name() {
                    Some(template)
                } else {
                    old(self).entry(n)
                },
    {
        let ghost before = self.templates@;
        let mut i: usize = 0;
        while i < self.templates.len()
            invariant
                self.templates@ == before,
                before == old(self).templates@,
                names_unique(before),
                i <= before.len(),
                forall|j: int| 0 <= j < i ==> (#[trigger] before[j]).spec_name() != template.spec_name(),
            decreases before.len() - i,
        {
            if same_text(self.templates[i].name(), template.name()) {
                self.templates.set(i, template);
                proof {
                    assert(self.templates@ == before.update(i as int, template));
                    assert forall|n: Seq<char>| #[trigger]
                        self.entry(n) == if n == template.spec_name() {
                            Some(template)
                        } else {
                            lookup(before, n)
                        } by {
                        lemma_lookup_update(before, i as int, template, n);
                    }
                }
                return ;
            }
            i = i + 1;
        }
        self.templates.push(template);
        assert(self.templates@.drop_last() =~= before);
        assert(names_unique(self.templates@)) by {
            assert forall|a: int, b: int|
                0 <= a < b < self.templates@.len() implies #[trigger] self.templates@[a].spec_name()
                != #[trigger] self.templates@[b].spec_name() by {
                if b == before.len() {
                    assert(before[a].spec_name() != template.spec_name());
                } else {
                    assert(before[a].spec_name() != before[b].spec_name());
                }
            }
        }
    }

    /// The template registered under `name`, if any.
    pub fn get(&self, name: &str) -> (r: Option<&Template>)
        ensures
            match r {
                Some(t) => self.entry(name@) == Some(*t),
                None => self.entry(name@) is None,
            },
    {
        let mut i: usize = self.templates.len();
        assert(self.templates@.take(i as int) =~= self.templates@);
        while i > 0
            invariant
                i <= self.templates@.len(),
                lookup(self.templates@, name@) == lookup(self.templates@.take(i as int), name@),
            decreases i,
        {
            let t = &self.templates[i - 1];
            assert(self.templates@.take(i as int).drop_last() =~= self.templates@.take(i - 1));
            if same_text(t.name(), name) {
                return Some(t);
            }
            i = i - 1;
        }
        None
    }

    /// Lays out `person` with the template registered under `name`, or with
    /// the one registered under `"default"` when `name` is not registered.
    pub fn generate(&self, name: &str, doc: &mut Document, person: &Person)
        requires
            self.wf(),
        ensures
            final(doc)@ == old(doc)@ + self.selected(name@).layout(person),
            final(doc).same_settings(old(doc)),
    {
        let template = match self.get(name) {
            Some(t) => t,
            None => {
                match self.get("default") {
                    Some(t) => t,
                    None => {
                        proof {
                            assert(false);
                        }
                        return ;
                    },
                }
            },
        };
        template.generate(doc, person);
    }
}

/// An identifier that is not registered selects exactly what `"default"`
/// selects, so both lay out every record alike.
pub proof fn unknown_name_falls_back(registry: &TemplateRegistry, name: Seq<char>, person: &Person)
    requires
        registry.wf(),
        registry.entry(name) is None,
    ensures
        registry.selected(name) == registry.selected(fallback_name()),
        registry.selected(name).layout(person) == registry.selected(fallback_name()).layout(
            person,
        ),
{
}

/// Whether two records agree on everything but their work history.
pub open spec fn same_but_work(a: &Person, b: &Person) -> bool {
    &&& a.name == b.name
    &&& a.address == b.address
    &&& a.contact == b.contact
    &&& a.summary == b.summary
    &&& a.education == b.education
    &&& a.skills == b.skills
    &&& a.projects == b.projects
}

/// Every template lays out a record without work history and the same record
/// with an empty one alike.
pub proof fn absent_and_empty_work_agree(template: Template, absent: &Person, empty: &Person)
    requires
        same_but_work(absent, empty),
        absent.work_experience is None,
        empty.work_experience is Some,
        empty.work_experience->Some_0@.len() == 0,
    ensures
        template.layout(absent) == template.layout(empty),
{
    assert(default_work(absent) =~= default_work(empty));
    assert(clean_work(absent) =~= clean_work(empty));
    assert(default_layout(absent) =~= default_layout(empty));
    assert(clean_layout(absent) =~= clean_layout(empty));
}

} // verus!
