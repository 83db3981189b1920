//! A library of reusable workflow templates, indexed by category and by tag.
use vstd::prelude::*;
use crate::text::{contains_seq, opt_view, strings_view};
use super::generator::{json_display, json_kind_of, JsonKind};

verus! {

/// The kinds of workflow template.
#[derive(Debug, Clone, Copy, PartialEq, Eq, Hash, Structural)]
pub enum TemplateCategory {
    ApprovalWorkflow,
    Orchestration,
    DataTransformation,
    HumanInTheLoop,
    ErrorHandling,
    Notification,
    BatchProcessing,
    DecisionLogic,
}

/// The display label of a category.
pub open spec fn category_label(c: TemplateCategory) -> Seq<char> {
    match c {
        TemplateCategory::ApprovalWorkflow => "Approval Workflows"@,
        TemplateCategory::Orchestration => "Orchestration Patterns"@,
        TemplateCategory::DataTransformation => "Data Transformation (ETL)"@,
        TemplateCategory::HumanInTheLoop => "Human-in-the-Loop"@,
        TemplateCategory::ErrorHandling => "Error Handling"@,
        TemplateCategory::Notification => "Notifications & Alerts"@,
        TemplateCategory::BatchProcessing => "Batch Processing"@,
        TemplateCategory::DecisionLogic => "Decision Logic"@,
    }
}

/// The description of a category.
pub open spec fn category_description(c: TemplateCategory) -> Seq<char> {
    match c {
        TemplateCategory::ApprovalWorkflow => "Templates for multi-level approval processes"@,
        TemplateCategory::Orchestration => "Patterns for orchestrating distributed services"@,
        TemplateCategory::DataTransformation => "Extract, transform, and load data workflows"@,
        TemplateCategory::HumanInTheLoop => "Workflows combining human and automated tasks"@,
        TemplateCategory::ErrorHandling => "Patterns for resilient error handling"@,
        TemplateCategory::Notification => "Notification and alert workflow patterns"@,
        TemplateCategory::BatchProcessing => "Scheduled and batch processing patterns"@,
        TemplateCategory::DecisionLogic => "Business rules and decision point patterns"@,
    }
}

/// The name of a category, as `Debug` writes it.
pub open spec fn category_name(c: TemplateCategory) -> Seq<char> {
    match c {
        TemplateCategory::ApprovalWorkflow => "ApprovalWorkflow"@,
        TemplateCategory::Orchestration => "Orchestration"@,
        TemplateCategory::DataTransformation => "DataTransformation"@,
        TemplateCategory::HumanInTheLoop => "HumanInTheLoop"@,
        TemplateCategory::ErrorHandling => "ErrorHandling"@,
        TemplateCategory::Notification => "Notification"@,
        TemplateCategory::BatchProcessing => "BatchProcessing"@,
        TemplateCategory::DecisionLogic => "DecisionLogic"@,
    }
}

impl TemplateCategory {
    /// The display label of the category.
    pub fn label(&self) -> (r: &'static str)
        ensures
            r@ == category_label(*self),
    {
        match self {
            TemplateCategory::ApprovalWorkflow => "Approval Workflows",
            TemplateCategory::Orchestration => "Orchestration Patterns",
            TemplateCategory::DataTransformation => "Data Transformation (ETL)",
            TemplateCategory::HumanInTheLoop => "Human-in-the-Loop",
            TemplateCategory::ErrorHandling => "Error Handling",
            TemplateCategory::Notification => "Notifications & Alerts",
            TemplateCategory::BatchProcessing => "Batch Processing",
            TemplateCategory::DecisionLogic => "Decision Logic",
        }
    }

    /// The description of the category.
    pub fn description(&self) -> (r: &'static str)
        ensures
            r@ == category_description(*self),
    {
        match self {
            TemplateCategory::ApprovalWorkflow => "Templates for multi-level approval processes",
            TemplateCategory::Orchestration => "Patterns for orchestrating distributed services",
            TemplateCategory::DataTransformation => "Extract, transform, and load data workflows",
            TemplateCategory::HumanInTheLoop => "Workflows combining human and automated tasks",
            TemplateCategory::ErrorHandling => "Patterns for resilient error handling",
            TemplateCategory::Notification => "Notification and alert workflow patterns",
            TemplateCategory::BatchProcessing => "Scheduled and batch processing patterns",
            TemplateCategory::DecisionLogic => "Business rules and decision point patterns",
        }
    }
}

fn category_name_text(c: TemplateCategory) -> (r: String)
    ensures
        r@ == category_name(c),
{
    match c {
        TemplateCategory::ApprovalWorkflow => crate::text::owned("ApprovalWorkflow"),
        TemplateCategory::Orchestration => crate::text::owned("Orchestration"),
        TemplateCategory::DataTransformation => crate::text::owned("DataTransformation"),
        TemplateCategory::HumanInTheLoop => crate::text::owned("HumanInTheLoop"),
        TemplateCategory::ErrorHandling => crate::text::owned("ErrorHandling"),
        TemplateCategory::Notification => crate::text::owned("Notification"),
        TemplateCategory::BatchProcessing => crate::text::owned("BatchProcessing"),
        TemplateCategory::DecisionLogic => crate::text::owned("DecisionLogic"),
    }
}

/// What describes a template. The times are RFC 3339 text.
#[derive(Debug, Clone)]
pub struct TemplateMetadata {
    pub id: String,
    pub name: String,
    pub description: String,
    pub category: TemplateCategory,
    pub version: String,
    pub author: Option<String>,
    pub created_at: String,
    pub modified_at: String,
    pub tags: Vec<String>,
    /// beginner, intermediate or advanced.
    pub complexity: String,
    pub use_cases: Vec<String>,
    pub related_templates: Vec<String>,
}

/// A configurable parameter of a template.
#[derive(Debug, Clone)]
pub struct ParameterConfig {
    pub name: String,
    pub param_type: String,
    pub default: Option<String>,
    pub description: String,
    pub required: bool,
}

/// A template: its metadata, BPMN definition, process definition,
/// documentation, example and parameters (by name, each name once).
#[derive(Debug)]
pub struct Template {
    pub metadata: TemplateMetadata,
    pub bpmn_definition: String,
    pub process_definition: serde_json::Value,
    pub documentation: String,
    pub example_usage: Option<String>,
    pub parameters: Vec<(String, ParameterConfig)>,
}

/// Counts of a library: templates, templates of each category that has an
/// entry (by the category's name), and categories.
#[derive(Debug, Clone)]
pub struct LibraryStatistics {
    pub total_templates: usize,
    pub templates_by_category: Vec<(String, usize)>,
    pub total_categories: usize,
}

/// A library of templates, with an index of template ids by category and
/// one by tag.
#[derive(Debug)]
pub struct TemplateLibrary {
    pub name: String,
    pub version: String,
    pub templates: Vec<Template>,
    pub categories: Vec<(TemplateCategory, Vec<String>)>,
    pub search_index: Vec<(String, Vec<String>)>,
    /// When the library last changed, as RFC 3339 text.
    pub updated_at: String,
}

/// An empty JSON object, from `serde_json::Map::new`: a value of the object
/// kind whose text is `{}`.
#[verifier::external_body]
fn empty_json_object() -> (r: serde_json::Value)
    ensures
        json_kind_of(r) == JsonKind::Object,
        json_display(r) == "{}"@,
{
    serde_json::Value::Object(serde_json::Map::new())
}

/// `s` in lower case, as `str::to_lowercase` makes it.
pub uninterp spec fn lowercase(s: Seq<char>) -> Seq<char>;

/// `s` in lower case, from `str::to_lowercase` (full Unicode case mapping).
/// Its value is named, not described.
#[verifier::external_body]
fn to_lowercase(s: &str) -> (r: String)
    ensures
        r@ == lowercase(s@),
{
    s.to_lowercase()
}

/// No two parameters share a name.
pub open spec fn parameter_names_distinct(ps: Seq<(String, ParameterConfig)>) -> bool {
    forall|i: int, j: int| 0 <= i < j < ps.len() ==> (#[trigger] ps[i]).0@ != (#[trigger] ps[j]).0@
}

/// The views of index entries.
pub open spec fn index_view(es: Seq<(String, Vec<String>)>) -> Seq<(Seq<char>, Seq<Seq<char>>)> {
    es.map_values(|e: (String, Vec<String>)| (e.0@, strings_view(e.1@)))
}

/// The views of category entries.
pub open spec fn category_view(es: Seq<(TemplateCategory, Vec<String>)>) -> Seq<(TemplateCategory, Seq<Seq<char>>)> {
    es.map_values(|e: (TemplateCategory, Vec<String>)| (e.0, strings_view(e.1@)))
}

/// `i` is the first entry of `idx` with key `key`.
pub open spec fn first_key(idx: Seq<(Seq<char>, Seq<Seq<char>>)>, key: Seq<char>, i: int) -> bool {
    &&& 0 <= i < idx.len()
    &&& idx[i].0 == key
    &&& forall|k: int| 0 <= k < i ==> (#[trigger] idx[k]).0 != key
}

/// `id` added under `key`: at the end of the first entry with that key, or
/// in a new entry at the end when there is none.
pub open spec fn index_add(idx: Seq<(Seq<char>, Seq<Seq<char>>)>, key: Seq<char>, id: Seq<char>) -> Seq<(Seq<char>, Seq<Seq<char>>)> {
    if exists|i: int| first_key(idx, key, i) {
        let i = choose|i: int| first_key(idx, key, i);
        idx.update(i, (key, idx[i].1.push(id)))
    } else {
        idx.push((key, seq![id]))
    }
}

/// `id` added under each of `keys` in turn.
pub open spec fn index_add_all(idx: Seq<(Seq<char>, Seq<Seq<char>>)>, keys: Seq<Seq<char>>, id: Seq<char>) -> Seq<(Seq<char>, Seq<Seq<char>>)>
    decreases keys.len(),
{
    if keys.len() == 0 {
        idx
    } else {
        index_add(index_add_all(idx, keys.drop_last(), id), keys.last(), id)
    }
}

/// `i` is the first entry of `cs` for category `c`.
pub open spec fn first_category(cs: Seq<(TemplateCategory, Seq<Seq<char>>)>, c: TemplateCategory, i: int) -> bool {
    &&& 0 <= i < cs.len()
    &&& cs[i].0 == c
    &&& forall|k: int| 0 <= k < i ==> (#[trigger] cs[k]).0 != c
}

/// `id` added under category `c`, as `index_add` does.
pub open spec fn category_add(cs: Seq<(TemplateCategory, Seq<Seq<char>>)>, c: TemplateCategory, id: Seq<char>) -> Seq<(TemplateCategory, Seq<Seq<char>>)> {
    if exists|i: int| first_category(cs, c, i) {
        let i = choose|i: int| first_category(cs, c, i);
        cs.update(i, (c, cs[i].1.push(id)))
    } else {
        cs.push((c, seq![id]))
    }
}

/// The ids listed under category `c`, if it has an entry.
pub open spec fn category_ids(cs: Seq<(TemplateCategory, Seq<Seq<char>>)>, c: TemplateCategory) -> Option<Seq<Seq<char>>> {
    if exists|i: int| first_category(cs, c, i) {
        let i = choose|i: int| first_category(cs, c, i);
        Some(cs[i].1)
    } else {
        None
    }
}

/// No two entries of an index share a key.
pub open spec fn keys_distinct(idx: Seq<(Seq<char>, Seq<Seq<char>>)>) -> bool {
    forall|i: int, j: int| 0 <= i < j < idx.len() ==> (#[trigger] idx[i]).0 != (#[trigger] idx[j]).0
}

/// No two category entries share a category.
pub open spec fn categories_distinct(cs: Seq<(TemplateCategory, Seq<Seq<char>>)>) -> bool {
    forall|i: int, j: int| 0 <= i < j < cs.len() ==> (#[trigger] cs[i]).0 != (#[trigger] cs[j]).0
}

/// No two templates share an id.
pub open spec fn ids_distinct(ts: Seq<Template>) -> bool {
    forall|i: int, j: int| 0 <= i < j < ts.len() ==> (#[trigger] ts[i]).metadata.id@ != (#[trigger] ts[j]).metadata.id@
}

/// `i` is the first place among `ts` holding a template with id `id`.
pub open spec fn first_with_id(ts: Seq<Template>, id: Seq<char>, i: int) -> bool {
    &&& 0 <= i < ts.len()
    &&& ts[i].metadata.id@ == id
    &&& forall|k: int| 0 <= k < i ==> (#[trigger] ts[k]).metadata.id@ != id
}

/// `t` stored among `ts`: in place of the first template with its id, or at
/// the end when there is none.
pub open spec fn templates_put(ts: Seq<Template>, t: Template) -> Seq<Template> {
    if exists|i: int| first_with_id(ts, t.metadata.id@, i) {
        let i = choose|i: int| first_with_id(ts, t.metadata.id@, i);
        ts.update(i, t)
    } else {
        ts.push(t)
    }
}

/// The first template with id `id` among `ts`, if there is one.
pub open spec fn template_with_id(ts: Seq<Template>, id: Seq<char>) -> Option<Template> {
    if exists|i: int| first_with_id(ts, id, i) {
        let i = choose|i: int| first_with_id(ts, id, i);
        Some(ts[i])
    } else {
        None
    }
}

/// The templates found for `ids` in turn, skipping ids with no template.
pub open spec fn templates_for(ts: Seq<Template>, ids: Seq<Seq<char>>) -> Seq<Template>
    decreases ids.len(),
{
    if ids.len() == 0 {
        Seq::empty()
    } else {
        templates_for(ts, ids.drop_last()) + match template_with_id(ts, ids.last()) {
            Some(t) => seq![t],
            None => Seq::empty(),
        }
    }
}

/// A template matches a lower-case query when its name, its description or
/// one of its tags contains it, compared in lower case.
pub open spec fn matches_query(t: Template, q: Seq<char>) -> bool {
    ||| contains_seq(lowercase(t.metadata.name@), q)
    ||| contains_seq(lowercase(t.metadata.description@), q)
    ||| exists|k: int| 0 <= k < t.metadata.tags@.len() && contains_seq(lowercase((#[trigger] t.metadata.tags@[k])@), q)
}

/// The templates of `ts` (in order) that satisfy `f`.
pub open spec fn templates_where(ts: Seq<Template>, f: spec_fn(Template) -> bool) -> Seq<Template>
    decreases ts.len(),
{
    if ts.len() == 0 {
        Seq::empty()
    } else {
        templates_where(ts.drop_last(), f) + (if f(ts.last()) { seq![ts.last()] } else { Seq::empty() })
    }
}

/// The ids of templates, in order.
pub open spec fn template_ids(ts: Seq<Template>) -> Seq<Seq<char>> {
    ts.map_values(|t: Template| t.metadata.id@)
}

/// The name and number of ids of each category entry.
pub open spec fn category_counts(cs: Seq<(TemplateCategory, Seq<Seq<char>>)>) -> Seq<(Seq<char>, nat)> {
    cs.map_values(|e: (TemplateCategory, Seq<Seq<char>>)| (category_name(e.0), e.1.len()))
}

/// The views of statistics' category counts.
pub open spec fn counts_view(es: Seq<(String, usize)>) -> Seq<(Seq<char>, nat)> {
    es.map_values(|e: (String, usize)| (e.0@, e.1 as nat))
}

/// The values behind a list of references.
pub open spec fn derefs(rs: Seq<&Template>) -> Seq<Template> {
    rs.map_values(|r: &Template| *r)
}

/// The library's indexes are sound: ids, categories and tags each appear once.
pub open spec fn library_wf(l: TemplateLibrary) -> bool {
    &&& ids_distinct(l.templates@)
    &&& categories_distinct(category_view(l.categories@))
    &&& keys_distinct(index_view(l.search_index@))
}

fn copy_string(s: &String) -> (r: String)
    ensures
        r@ == s@,
{
    s.clone()
}

fn copy_strings(v: &Vec<String>) -> (r: Vec<String>)
    ensures
        strings_view(r@) == strings_view(v@),
{
    let mut r: Vec<String> = Vec::new();
    let mut i: usize = 0;
    while i < v.len()
        invariant
            i <= v.len(),
            r@.len() == i,
            forall|j: int| 0 <= j < i ==> (#[trigger] r@[j])@ == v@[j]@,
        decreases v.len() - i,
    {
        r.push(copy_string(&v[i]));
        i = i + 1;
    }
    assert(strings_view(r@) =~= strings_view(v@));
    r
}

fn copy_opt(o: &Option<String>) -> (r: Option<String>)
    ensures
        opt_view(r) == opt_view(*o),
{
    match o {
        Some(s) => Some(copy_string(s)),
        None => None,
    }
}

/// The views of the parts of a parameter.
pub open spec fn parameter_config_view(p: ParameterConfig) -> (Seq<char>, Seq<char>, Option<Seq<char>>, Seq<char>, bool) {
    (p.name@, p.param_type@, opt_view(p.default), p.description@, p.required)
}

/// The views of a template's parameters.
pub open spec fn parameters_view(ps: Seq<(String, ParameterConfig)>) -> Seq<(Seq<char>, (Seq<char>, Seq<char>, Option<Seq<char>>, Seq<char>, bool))> {
    ps.map_values(|e: (String, ParameterConfig)| (e.0@, parameter_config_view(e.1)))
}

fn copy_parameters(ps: &Vec<(String, ParameterConfig)>) -> (r: Vec<(String, ParameterConfig)>)
    ensures
        parameters_view(r@) == parameters_view(ps@),
{
    let mut r: Vec<(String, ParameterConfig)> = Vec::new();
    let mut i: usize = 0;
    while i < ps.len()
        invariant
            i <= ps.len(),
            r@.len() == i,
            forall|j: int| 0 <= j < i ==> (#[trigger] r@[j]).0@ == ps@[j].0@
                && parameter_config_view(r@[j].1) == parameter_config_view(ps@[j].1),
        decreases ps.len() - i,
    {
        let p = &ps[i].1;
        let c = ParameterConfig {
            name: copy_string(&p.name),
            param_type: copy_string(&p.param_type),
            default: copy_opt(&p.default),
            description: copy_string(&p.description),
            required: p.required,
        };
        r.push((copy_string(&ps[i].0), c));
        i = i + 1;
    }
    assert(parameters_view(r@) =~= parameters_view(ps@));
    r
}

/// `a` is `b` but for the id and the two times: every other part holds the
/// same text, list or value.
pub open spec fn same_but_identity(a: Template, b: Template) -> bool {
    &&& a.metadata.name@ == b.metadata.name@
    &&& a.metadata.description@ == b.metadata.description@
    &&& a.metadata.category == b.metadata.category
    &&& a.metadata.version@ == b.metadata.version@
    &&& opt_view(a.metadata.author) == opt_view(b.metadata.author)
    &&& strings_view(a.metadata.tags@) == strings_view(b.metadata.tags@)
    &&& a.metadata.complexity@ == b.metadata.complexity@
    &&& strings_view(a.metadata.use_cases@) == strings_view(b.metadata.use_cases@)
    &&& strings_view(a.metadata.related_templates@) == strings_view(b.metadata.related_templates@)
    &&& a.bpmn_definition@ == b.bpmn_definition@
    &&& a.process_definition == b.process_definition
    &&& a.documentation@ == b.documentation@
    &&& opt_view(a.example_usage) == opt_view(b.example_usage)
    &&& parameters_view(a.parameters@) == parameters_view(b.parameters@)
}

/// `serde_json::Value` derives `Clone`: a clone is the same JSON value.
pub assume_specification[ <serde_json::Value as Clone>::clone ](v: &serde_json::Value) -> (r: serde_json::Value)
    ensures
        r == *v,
;

impl Template {
    /// A template with `metadata` and `bpmn_definition`, an empty JSON object
    /// as process definition, no documentation, example or parameters.
    pub fn new(metadata: TemplateMetadata, bpmn_definition: String) -> (r: Self)
        ensures
            r.metadata == metadata,
            json_kind_of(r.process_definition) == JsonKind::Object,
            json_display(r.process_definition) == "{}"@,
            r.bpmn_definition == bpmn_definition,
            r.documentation@.len() == 0,
            r.example_usage is None,
            r.parameters@.len() == 0,
    {
        Template {
            metadata,
            bpmn_definition,
            process_definition: empty_json_object(),
            documentation: String::new(),
            example_usage: None,
            parameters: Vec::new(),
        }
    }

    /// Set the parameter `name` to `config`: in place of the one with that
    /// name, or added at the end when there is none.
    pub fn add_parameter(&mut self, name: &str, config: ParameterConfig)
        requires
            parameter_names_distinct(old(self).parameters@),
        ensures
            parameter_names_distinct(final(self).parameters@),
            final(self).metadata == old(self).metadata,
            final(self).bpmn_definition == old(self).bpmn_definition,
            final(self).process_definition == old(self).process_definition,
            final(self).documentation == old(self).documentation,
            final(self).example_usage == old(self).example_usage,
            forall|i: int| 0 <= i < old(self).parameters@.len() && (#[trigger] old(self).parameters@[i]).0@ == name@
                ==> final(self).parameters@ == old(self).parameters@.update(i, (final(self).parameters@[i].0, config))
                    && final(self).parameters@[i].0@ == name@,
            (forall|i: int| 0 <= i < old(self).parameters@.len() ==> (#[trigger] old(self).parameters@[i]).0@ != name@)
                ==> final(self).parameters@.len() == old(self).parameters@.len() + 1
                    && final(self).parameters@.take(old(self).parameters@.len() as int) == old(self).parameters@
                    && final(self).parameters@.last().0@ == name@ && final(self).parameters@.last().1 == config,
    {
        let mut j: usize = 0;
        while j < self.parameters.len()
            invariant
                j <= self.parameters.len(),
                self.parameters@ == old(self).parameters@,
                self.metadata == old(self).metadata,
                self.bpmn_definition == old(self).bpmn_definition,
                self.process_definition == old(self).process_definition,
                self.documentation == old(self).documentation,
                self.example_usage == old(self).example_usage,
                parameter_names_distinct(self.parameters@),
                forall|k: int| 0 <= k < j ==> (#[trigger] self.parameters@[k]).0@ != name@,
            decreases self.parameters.len() - j,
        {
            if crate::text::str_eq(self.parameters[j].0.as_str(), name) {
                let key = crate::text::owned(name);
                self.parameters.set(j, (key, config));
                return;
            }
            j = j + 1;
        }
        self.parameters.push((crate::text::owned(name), config));
        assert(self.parameters@.take(old(self).parameters@.len() as int) =~= old(self).parameters@);
    }

    /// A copy of the template with a fresh random id and both times set to now.
    pub fn clone_with_new_id(&self) -> (r: Self)
        ensures
            same_but_identity(r, *self),
            r.metadata.id@.len() == 36,
    {
        let now = crate::outside::now_rfc3339();
        let metadata = TemplateMetadata {
            id: crate::outside::new_uuid_v4_text(),
            name: copy_string(&self.metadata.name),
            description: copy_string(&self.metadata.description),
            category: self.metadata.category,
            version: copy_string(&self.metadata.version),
            author: copy_opt(&self.metadata.author),
            created_at: copy_string(&now),
            modified_at: now,
            tags: copy_strings(&self.metadata.tags),
            complexity: copy_string(&self.metadata.complexity),
            use_cases: copy_strings(&self.metadata.use_cases),
            related_templates: copy_strings(&self.metadata.related_templates),
        };
        Template {
            metadata,
            bpmn_definition: copy_string(&self.bpmn_definition),
            process_definition: self.process_definition.clone(),
            documentation: copy_string(&self.documentation),
            example_usage: copy_opt(&self.example_usage),
            parameters: copy_parameters(&self.parameters),
        }
    }
}

fn find_template(ts: &Vec<Template>, id: &str) -> (r: Option<usize>)
    ensures
        match r {
            Some(i) => first_with_id(ts@, id@, i as int),
            None => forall|k: int| 0 <= k < ts@.len() ==> (#[trigger] ts@[k]).metadata.id@ != id@,
        },
{
    let mut j: usize = 0;
    while j < ts.len()
        invariant
            j <= ts.len(),
            forall|k: int| 0 <= k < j ==> (#[trigger] ts@[k]).metadata.id@ != id@,
        decreases ts.len() - j,
    {
        if crate::text::str_eq(ts[j].metadata.id.as_str(), id) {
            return Some(j);
        }
        j = j + 1;
    }
    None
}

proof fn lemma_first_with_id_unique(ts: Seq<Template>, id: Seq<char>, i: int, j: int)
    requires
        first_with_id(ts, id, i),
        first_with_id(ts, id, j),
    ensures
        i == j,
{
    if i < j {
        assert(ts[i].metadata.id@ != id);
    } else if j < i {
        assert(ts[j].metadata.id@ != id);
    }
}

proof fn lemma_first_key_unique(idx: Seq<(Seq<char>, Seq<Seq<char>>)>, key: Seq<char>, i: int, j: int)
    requires
        first_key(idx, key, i),
        first_key(idx, key, j),
    ensures
        i == j,
{
    if i < j {
        assert(idx[i].0 != key);
    } else if j < i {
        assert(idx[j].0 != key);
    }
}

proof fn lemma_first_category_unique(cs: Seq<(TemplateCategory, Seq<Seq<char>>)>, c: TemplateCategory, i: int, j: int)
    requires
        first_category(cs, c, i),
        first_category(cs, c, j),
    ensures
        i == j,
{
    if i < j {
        assert(cs[i].0 != c);
    } else if j < i {
        assert(cs[j].0 != c);
    }
}

proof fn lemma_first_exists(ts: Seq<Template>, id: Seq<char>, m: int)
    requires
        0 <= m < ts.len(),
        ts[m].metadata.id@ == id,
    ensures
        exists|i: int| first_with_id(ts, id, i),
    decreases m,
{
    if forall|k: int| 0 <= k < m ==> (#[trigger] ts[k]).metadata.id@ != id {
        assert(first_with_id(ts, id, m));
    } else {
        let k = choose|k: int| 0 <= k < m && (#[trigger] ts[k]).metadata.id@ == id;
        lemma_first_exists(ts, id, k);
    }
}

/// A template stored among others is the one then found under its id:
/// what `add_template` puts is what `get_template` gives back.
pub proof fn lemma_put_then_find(ts: Seq<Template>, t: Template)
    ensures
        template_with_id(templates_put(ts, t), t.metadata.id@) == Some(t),
{
    let id = t.metadata.id@;
    let us = templates_put(ts, t);
    if exists|i: int| first_with_id(ts, id, i) {
        let i = choose|i: int| first_with_id(ts, id, i);
        assert(us == ts.update(i, t));
        assert(first_with_id(us, id, i));
        let k = choose|k: int| first_with_id(us, id, k);
        lemma_first_with_id_unique(us, id, i, k);
    } else {
        let n = ts.len() as int;
        assert(us == ts.push(t));
        assert forall|k: int| 0 <= k < n implies (#[trigger] us[k]).metadata.id@ != id by {
            assert(us[k] == ts[k]);
            if ts[k].metadata.id@ == id {
                lemma_first_exists(ts, id, k);
            }
        }
        assert(first_with_id(us, id, n));
        let k = choose|k: int| first_with_id(us, id, k);
        lemma_first_with_id_unique(us, id, n, k);
    }
}

fn get_by_id<'a>(ts: &'a Vec<Template>, id: &str) -> (r: Option<&'a Template>)
    ensures
        match r {
            Some(t) => template_with_id(ts@, id@) == Some(*t),
            None => template_with_id(ts@, id@) is None,
        },
{
    match find_template(ts, id) {
        Some(i) => {
            proof {
                let k = choose|k: int| first_with_id(ts@, id@, k);
                lemma_first_with_id_unique(ts@, id@, i as int, k);
            }
            Some(&ts[i])
        },
        None => {
            assert(!exists|k: int| first_with_id(ts@, id@, k));
            None
        },
    }
}

fn index_add_exec(idx: &mut Vec<(String, Vec<String>)>, key: &String, id: &String)
    ensures
        index_view(final(idx)@) == index_add(index_view(old(idx)@), key@, id@),
        keys_distinct(index_view(old(idx)@)) ==> keys_distinct(index_view(final(idx)@)),
{
    let ghost v = index_view(idx@);
    let mut j: usize = 0;
    while j < idx.len()
        invariant
            j <= idx.len(),
            idx@ == old(idx)@,
            v == index_view(idx@),
            forall|k: int| 0 <= k < j ==> (#[trigger] v[k]).0 != key@,
        decreases idx.len() - j,
    {
        if crate::text::str_eq(idx[j].0.as_str(), key.as_str()) {
            assert(first_key(v, key@, j as int));
            proof {
                let k = choose|k: int| first_key(v, key@, k);
                lemma_first_key_unique(v, key@, j as int, k);
            }
            let mut ids = copy_strings(&idx[j].1);
            let ghost before = ids@;
            ids.push(copy_string(id));
            assert(strings_view(ids@) =~= strings_view(before).push(id@));
            idx.set(j, (copy_string(key), ids));
            assert(index_view(idx@) =~= index_add(v, key@, id@));
            return;
        }
        j = j + 1;
    }
    assert(!exists|k: int| first_key(v, key@, k));
    let mut ids: Vec<String> = Vec::new();
    ids.push(copy_string(id));
    assert(strings_view(ids@) =~= seq![id@]);
    idx.push((copy_string(key), ids));
    assert(index_view(idx@) =~= index_add(v, key@, id@));
}

fn category_add_exec(cs: &mut Vec<(TemplateCategory, Vec<String>)>, c: TemplateCategory, id: &String)
    ensures
        category_view(final(cs)@) == category_add(category_view(old(cs)@), c, id@),
        categories_distinct(category_view(old(cs)@)) ==> categories_distinct(category_view(final(cs)@)),
{
    let ghost v = category_view(cs@);
    let mut j: usize = 0;
    while j < cs.len()
        invariant
            j <= cs.len(),
            cs@ == old(cs)@,
            v == category_view(cs@),
            forall|k: int| 0 <= k < j ==> (#[trigger] v[k]).0 != c,
        decreases cs.len() - j,
    {
        if cs[j].0 == c {
            assert(first_category(v, c, j as int));
            proof {
                let k = choose|k: int| first_category(v, c, k);
                lemma_first_category_unique(v, c, j as int, k);
            }
            let mut ids = copy_strings(&cs[j].1);
            let ghost before = ids@;
            ids.push(copy_string(id));
            assert(strings_view(ids@) =~= strings_view(before).push(id@));
            cs.set(j, (c, ids));
            assert(category_view(cs@) =~= category_add(v, c, id@));
            return;
        }
        j = j + 1;
    }
    assert(!exists|k: int| first_category(v, c, k));
    let mut ids: Vec<String> = Vec::new();
    ids.push(copy_string(id));
    assert(strings_view(ids@) =~= seq![id@]);
    cs.push((c, ids));
    assert(category_view(cs@) =~= category_add(v, c, id@));
}

fn lowercase_contains(s: &str, q: &str) -> (r: bool)
    ensures
        r == contains_seq(lowercase(s@), q@),
{
    let l = to_lowercase(s);
    crate::text::contains_str(l.as_str(), q)
}

fn matches_query_exec(t: &Template, q: &str) -> (r: bool)
    ensures
        r == matches_query(*t, q@),
{
    if lowercase_contains(t.metadata.name.as_str(), q) {
        return true;
    }
    if lowercase_contains(t.metadata.description.as_str(), q) {
        return true;
    }
    let mut k: usize = 0;
    while k < t.metadata.tags.len()
        invariant
            k <= t.metadata.tags.len(),
            forall|m: int| 0 <= m < k ==> !contains_seq(lowercase((#[trigger] t.metadata.tags@[m])@), q@),
        decreases t.metadata.tags.len() - k,
    {
        if lowercase_contains(t.metadata.tags[k].as_str(), q) {
            return true;
        }
        k = k + 1;
    }
    false
}

impl TemplateLibrary {
    /// An empty library called `name`, at `version`, updated now.
    pub fn new(name: &str, version: &str) -> (r: Self)
        ensures
            r.name@ == name@,
            r.version@ == version@,
            r.templates@.len() == 0,
            r.categories@.len() == 0,
            r.search_index@.len() == 0,
            library_wf(r),
    {
        TemplateLibrary {
            name: crate::text::owned(name),
            version: crate::text::owned(version),
            templates: Vec::new(),
            categories: Vec::new(),
            search_index: Vec::new(),
            updated_at: crate::outside::now_rfc3339(),
        }
    }

    /// Add `template`: it takes the place of the template with its id, if
    /// any; its id is listed under its category and under each of its tags;
    /// the library is marked updated now.
    pub fn add_template(&mut self, template: Template) -> (r: Result<(), String>)
        ensures
            r is Ok,
            final(self).templates@ == templates_put(old(self).templates@, template),
            category_view(final(self).categories@) == category_add(
                category_view(old(self).categories@),
                template.metadata.category,
                template.metadata.id@,
            ),
            index_view(final(self).search_index@) == index_add_all(
                index_view(old(self).search_index@),
                strings_view(template.metadata.tags@),
                template.metadata.id@,
            ),
            final(self).name == old(self).name,
            final(self).version == old(self).version,
            library_wf(*old(self)) ==> library_wf(*final(self)),
    {
        let id = copy_string(&template.metadata.id);
        let category = template.metadata.category;
        let tags = copy_strings(&template.metadata.tags);
        let ghost tmpl = template;
        match find_template(&self.templates, id.as_str()) {
            Some(i) => {
                proof {
                    let k = choose|k: int| first_with_id(old(self).templates@, id@, k);
                    lemma_first_with_id_unique(old(self).templates@, id@, i as int, k);
                }
                self.templates.set(i, template);
                proof {
                    if ids_distinct(old(self).templates@) {
                        assert forall|a: int, b: int| 0 <= a < b < self.templates@.len() implies
                            (#[trigger] self.templates@[a]).metadata.id@ != (#[trigger] self.templates@[b]).metadata.id@ by {
                            if a == i as int {
                                assert(old(self).templates@[b].metadata.id@ != old(self).templates@[a].metadata.id@);
                            } else if b == i as int {
                                assert(old(self).templates@[a].metadata.id@ != old(self).templates@[b].metadata.id@);
                            }
                        }
                    }
                }
            },
            None => {
                assert(!exists|k: int| first_with_id(old(self).templates@, id@, k));
                self.templates.push(template);
            },
        }
        assert(self.templates@ == templates_put(old(self).templates@, tmpl));
        category_add_exec(&mut self.categories, category, &id);
        let ghost ts_now = self.templates@;
        let ghost cs_now = self.categories@;
        let mut k: usize = 0;
        while k < tags.len()
            invariant
                k <= tags.len(),
                self.templates@ == ts_now,
                self.categories@ == cs_now,
                self.name == old(self).name,
                self.version == old(self).version,
                index_view(self.search_index@) == index_add_all(
                    index_view(old(self).search_index@),
                    strings_view(tags@).take(k as int),
                    id@,
                ),
                keys_distinct(index_view(old(self).search_index@)) ==> keys_distinct(index_view(self.search_index@)),
            decreases tags.len() - k,
        {
            assert(strings_view(tags@).take(k + 1).drop_last() =~= strings_view(tags@).take(k as int));
            index_add_exec(&mut self.search_index, &tags[k], &id);
            k = k + 1;
        }
        assert(strings_view(tags@).take(tags.len() as int) =~= strings_view(tags@));
        self.updated_at = crate::outside::now_rfc3339();
        Ok(())
    }

    /// The first template with id `id`, if there is one.
    pub fn get_template(&self, id: &str) -> (r: Option<&Template>)
        ensures
            match r {
                Some(t) => template_with_id(self.templates@, id@) == Some(*t),
                None => template_with_id(self.templates@, id@) is None,
            },
    {
        get_by_id(&self.templates, id)
    }

    /// The templates listed under `category`, in the order they were listed,
    /// skipping ids with no template.
    pub fn get_by_category(&self, category: TemplateCategory) -> (r: Vec<&Template>)
        ensures
            derefs(r@) == match category_ids(category_view(self.categories@), category) {
                Some(ids) => templates_for(self.templates@, ids),
                None => Seq::empty(),
            },
    {
        let ghost v = category_view(self.categories@);
        let mut out: Vec<&Template> = Vec::new();
        let mut j: usize = 0;
        while j < self.categories.len()
            invariant
                j <= self.categories.len(),
                v == category_view(self.categories@),
                out@.len() == 0,
                forall|k: int| 0 <= k < j ==> (#[trigger] v[k]).0 != category,
            decreases self.categories.len() - j,
        {
            if self.categories[j].0 == category {
                assert(first_category(v, category, j as int));
                proof {
                    let k = choose|k: int| first_category(v, category, k);
                    lemma_first_category_unique(v, category, j as int, k);
                }
                let ids = &self.categories[j].1;
                let ghost sv = strings_view(ids@);
                assert(sv == v[j as int].1);
                assert(derefs(out@) =~= templates_for(self.templates@, sv.take(0)));
                let mut m: usize = 0;
                while m < ids.len()
                    invariant
                        m <= ids.len(),
                        sv == strings_view(ids@),
                        derefs(out@) == templates_for(self.templates@, sv.take(m as int)),
                    decreases ids.len() - m,
                {
                    assert(sv.take(m + 1).drop_last() =~= sv.take(m as int));
                    let ghost before = out@;
                    match get_by_id(&self.templates, ids[m].as_str()) {
                        Some(t) => {
                            out.push(t);
                            assert(derefs(out@) =~= derefs(before) + seq![*t]);
                        },
                        None => {},
                    }
                    m = m + 1;
                }
                assert(sv.take(ids.len() as int) =~= sv);
                return out;
            }
            j = j + 1;
        }
        assert(!exists|k: int| first_category(v, category, k));
        assert(derefs(out@) =~= Seq::<Template>::empty());
        out
    }

    /// The templates whose name, description or a tag contains `query`,
    /// compared in lower case, in library order.
    pub fn search(&self, query: &str) -> (r: Vec<&Template>)
        ensures
            derefs(r@) == templates_where(self.templates@, |t: Template| matches_query(t, lowercase(query@))),
    {
        let q = to_lowercase(query);
        let ghost f = |t: Template| matches_query(t, lowercase(query@));
        let mut out: Vec<&Template> = Vec::new();
        let mut i: usize = 0;
        while i < self.templates.len()
            invariant
                i <= self.templates.len(),
                q@ == lowercase(query@),
                f == (|t: Template| matches_query(t, lowercase(query@))),
                derefs(out@) == templates_where(self.templates@.take(i as int), f),
            decreases self.templates.len() - i,
        {
            assert(self.templates@.take(i + 1).drop_last() =~= self.templates@.take(i as int));
            let ghost before = out@;
            let t = &self.templates[i];
            if matches_query_exec(t, q.as_str()) {
                out.push(t);
                assert(derefs(out@) =~= derefs(before) + seq![*t]);
            }
            i = i + 1;
            assert(derefs(out@) =~= templates_where(self.templates@.take(i as int), f));
        }
        assert(self.templates@.take(self.templates.len() as int) =~= self.templates@);
        out
    }

    /// The templates of complexity `level`, in library order.
    pub fn get_by_complexity(&self, level: &str) -> (r: Vec<&Template>)
        ensures
            derefs(r@) == templates_where(self.templates@, |t: Template| t.metadata.complexity@ == level@),
    {
        let ghost f = |t: Template| t.metadata.complexity@ == level@;
        let mut out: Vec<&Template> = Vec::new();
        let mut i: usize = 0;
        while i < self.templates.len()
            invariant
                i <= self.templates.len(),
                f == (|t: Template| t.metadata.complexity@ == level@),
                derefs(out@) == templates_where(self.templates@.take(i as int), f),
            decreases self.templates.len() - i,
        {
            assert(self.templates@.take(i + 1).drop_last() =~= self.templates@.take(i as int));
            let ghost before = out@;
            let t = &self.templates[i];
            if crate::text::str_eq(t.metadata.complexity.as_str(), level) {
                out.push(t);
                assert(derefs(out@) =~= derefs(before) + seq![*t]);
            }
            i = i + 1;
            assert(derefs(out@) =~= templates_where(self.templates@.take(i as int), f));
        }
        assert(self.templates@.take(self.templates.len() as int) =~= self.templates@);
        out
    }

    /// The ids of the templates, in library order.
    pub fn list_ids(&self) -> (r: Vec<String>)
        ensures
            strings_view(r@) == template_ids(self.templates@),
    {
        let mut r: Vec<String> = Vec::new();
        let mut i: usize = 0;
        while i < self.templates.len()
            invariant
                i <= self.templates.len(),
                r@.len() == i,
                forall|j: int| 0 <= j < i ==> (#[trigger] r@[j])@ == self.templates@[j].metadata.id@,
            decreases self.templates.len() - i,
        {
            r.push(copy_string(&self.templates[i].metadata.id));
            i = i + 1;
        }
        assert(strings_view(r@) =~= template_ids(self.templates@));
        r
    }

    /// The number of templates, the number of ids listed under each category
    /// that has an entry, and the number of such categories.
    pub fn get_statistics(&self) -> (r: LibraryStatistics)
        ensures
            r.total_templates == self.templates@.len(),
            counts_view(r.templates_by_category@) == category_counts(category_view(self.categories@)),
            r.total_categories == self.categories@.len(),
    {
        let mut by: Vec<(String, usize)> = Vec::new();
        let mut i: usize = 0;
        while i < self.categories.len()
            invariant
                i <= self.categories.len(),
                by@.len() == i,
                forall|j: int| 0 <= j < i ==> (#[trigger] by@[j]).0@ == category_name(self.categories@[j].0)
                    && by@[j].1 == self.categories@[j].1@.len(),
            decreases self.categories.len() - i,
        {
            let e = &self.categories[i];
            by.push((category_name_text(e.0), e.1.len()));
            i = i + 1;
        }
        assert(counts_view(by@) =~= category_counts(category_view(self.categories@)));
        LibraryStatistics {
            total_templates: self.templates.len(),
            templates_by_category: by,
            total_categories: self.categories.len(),
        }
    }
}

} // verus!
