//! Building a document from a record: fixed presentation settings, then the
//! blocks of the requested template.

use vstd::prelude::*;

use crate::document::Document;
use crate::record::Person;
use crate::clean::CleanTemplate;
use crate::default::DefaultTemplate;
use crate::registry::{fallback_name, Template, TemplateRegistry};
use crate::template::CVTemplate;

verus! {

/// The template identifier a build uses: the one asked for, else `"default"`.
pub open spec fn requested(template: Option<&str>) -> Seq<char> {
    match template {
        Some(name) => name@,
        None => fallback_name(),
    }
}

/// Builds documents with the library's registered templates.
pub struct CVGenerator {
    pub template_registry: TemplateRegistry,
}

impl CVGenerator {
    /// `doc` is what `build_document` gives for `person` and `template`.
    pub open spec fn built(&self, person: &Person, template: Option<&str>, doc: Document) -> bool {
        &&& doc.has_default_settings()
        &&& doc@ == self.template_registry.selected(requested(template)).layout(person)
    }

    /// A generator whose registry holds the default and the clean template.
    pub fn new() -> (r: CVGenerator)
        ensures
            r.template_registry.wf(),
            r.template_registry.entry("default"@) == Some(Template::Default(DefaultTemplate)),
            r.template_registry.entry("clean"@) == Some(Template::Clean(CleanTemplate)),
            forall|n: Seq<char>|
                n != "default"@ && n != "clean"@ ==> r.template_registry.entry(n) is None,
    {
        CVGenerator { template_registry: TemplateRegistry::new() }
    }

    /// A document with the fixed presentation settings, laid out by the
    /// template registered under `template` (`"default"` when none is given,
    /// and when the one given is not registered).
    pub fn build_document(&self, person: &Person, template: Option<&str>) -> (r: Document)
        requires
            self.template_registry.wf(),
        ensures
            self.built(person, template, r),
    {
        let mut doc = Document::new();
        let name = match template {
            Some(name) => name,
            None => "default",
        };
        self.template_registry.generate(name, &mut doc, person);
        assert(doc@ =~= self.template_registry.selected(requested(template)).layout(person));
        doc
    }
}

/// Building twice from the same generator, record and template identifier
/// gives the same blocks and the same settings.
pub proof fn build_is_deterministic(
    g: &CVGenerator,
    person: &Person,
    template: Option<&str>,
    first: Document,
    second: Document,
)
    requires
        g.built(person, template, first),
        g.built(person, template, second),
    ensures
        first@ == second@,
        first.same_settings(&second),
{
}

} // verus!
