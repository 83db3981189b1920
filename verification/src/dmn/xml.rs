//! DMN document checks and JSON import.
use vstd::prelude::*;
use super::errors::{DmnError, DmnResult};
use super::decision_table::{HitPolicy, RuleEntry, policy_letter};
use crate::text::{concat2, contains_seq, contains_str, occurs_at, owned};

verus! {

/// The error text of `serde_json::from_str` on `s` when it is not a JSON
/// document, or none when it is one.
pub uninterp spec fn json_parse_error_text(s: Seq<char>) -> Option<Seq<char>>;

/// The JSON value that `serde_json::from_str` reads from the document `s`.
pub uninterp spec fn json_value_of(s: Seq<char>) -> serde_json::Value;

/// Parse `s` as JSON, from `serde_json::from_str`; a failure is turned into
/// its message. The value read is named, not described.
#[verifier::external_body]
fn parse_json_value(s: &str) -> (r: Result<serde_json::Value, String>)
    ensures
        match r {
            Ok(v) => json_parse_error_text(s@) is None && v == json_value_of(s@),
            Err(m) => json_parse_error_text(s@) == Some(m@),
        },
{
    match serde_json::from_str::<serde_json::Value>(s) {
        Ok(v) => Ok(v),
        Err(e) => Err(e.to_string()),
    }
}

/// The XML of an input column.
pub open spec fn input_column_xml(c: (String, String)) -> Seq<char> {
    "      <input id=\""@ + c.0@ + "\">\n"@ + "        <inputExpression>\n"@ + "          <text>"@ + c.1@
        + "</text>\n"@ + "        </inputExpression>\n"@ + "      </input>\n"@
}

/// The XML of an output column.
pub open spec fn output_column_xml(c: (String, String)) -> Seq<char> {
    "      <output id=\""@ + c.0@ + "\" label=\""@ + c.1@ + "\" />\n"@
}

/// The XML of a rule's input entry; an empty entry is written `-`.
pub open spec fn input_entry_xml(e: Option<String>) -> Seq<char> {
    "        <inputEntry>\n"@ + "          <text>"@ + match e {
        Some(t) => t@,
        None => "-"@,
    } + "</text>\n"@ + "        </inputEntry>\n"@
}

/// The XML of a rule's output entry.
pub open spec fn output_entry_xml(e: String) -> Seq<char> {
    "        <outputEntry>\n"@ + "          <text>"@ + e@ + "</text>\n"@ + "        </outputEntry>\n"@
}

/// The XML of the input columns, in order.
pub open spec fn input_columns_xml(cs: Seq<(String, String)>) -> Seq<char>
    decreases cs.len(),
{
    if cs.len() == 0 { Seq::empty() } else { input_columns_xml(cs.drop_last()) + input_column_xml(cs.last()) }
}

/// The XML of the output columns, in order.
pub open spec fn output_columns_xml(cs: Seq<(String, String)>) -> Seq<char>
    decreases cs.len(),
{
    if cs.len() == 0 { Seq::empty() } else { output_columns_xml(cs.drop_last()) + output_column_xml(cs.last()) }
}

/// The XML of input entries, in order.
pub open spec fn input_entries_xml(es: Seq<Option<String>>) -> Seq<char>
    decreases es.len(),
{
    if es.len() == 0 { Seq::empty() } else { input_entries_xml(es.drop_last()) + input_entry_xml(es.last()) }
}

/// The XML of output entries, in order.
pub open spec fn output_entries_xml(es: Seq<String>) -> Seq<char>
    decreases es.len(),
{
    if es.len() == 0 { Seq::empty() } else { output_entries_xml(es.drop_last()) + output_entry_xml(es.last()) }
}

/// The XML of a rule: its input entries, then its output entries.
pub open spec fn rule_xml(r: RuleEntry) -> Seq<char> {
    "      <rule>\n"@ + input_entries_xml(r.input_entries@) + output_entries_xml(r.output_entries@) + "      </rule>\n"@
}

/// The XML of the rules, in order.
pub open spec fn rules_xml(rs: Seq<RuleEntry>) -> Seq<char>
    decreases rs.len(),
{
    if rs.len() == 0 { Seq::empty() } else { rules_xml(rs.drop_last()) + rule_xml(rs.last()) }
}

/// The DMN XML of a decision table with id `id`: the declaration, a
/// definitions element holding one decision with the table, whose hit policy
/// is written by its letter, then its input columns (id and label), output
/// columns (id and label) and rules. Texts are written as they are.
pub open spec fn table_xml_text(
    id: Seq<char>,
    hit_policy: HitPolicy,
    inputs: Seq<(String, String)>,
    outputs: Seq<(String, String)>,
    rules: Seq<RuleEntry>,
) -> Seq<char> {
    "<?xml version=\"1.0\" encoding=\"UTF-8\"?>\n"@
        + "<definitions xmlns=\"http://www.omg.org/spec/DMN/20151101/dmn.xsd\">\n"@
        + "  <decision id=\""@ + id + "\">\n"@ + "    <decisionTable hitPolicy=\""@ + policy_letter(hit_policy)
        + "\">\n"@ + input_columns_xml(inputs) + output_columns_xml(outputs) + rules_xml(rules)
        + "    </decisionTable>\n"@ + "  </decision>\n"@ + "</definitions>\n"@
}

fn input_column_push(out: &mut String, c: &(String, String))
    ensures
        final(out)@ == old(out)@ + input_column_xml(*c),
{
    let ghost pre = out@;
    out.append("      <input id=\"");
    out.append(c.0.as_str());
    out.append("\">\n");
    out.append("        <inputExpression>\n");
    out.append("          <text>");
    out.append(c.1.as_str());
    out.append("</text>\n");
    out.append("        </inputExpression>\n");
    out.append("      </input>\n");
    assert(out@ =~= pre + input_column_xml(*c));
}

fn output_column_push(out: &mut String, c: &(String, String))
    ensures
        final(out)@ == old(out)@ + output_column_xml(*c),
{
    let ghost pre = out@;
    out.append("      <output id=\"");
    out.append(c.0.as_str());
    out.append("\" label=\"");
    out.append(c.1.as_str());
    out.append("\" />\n");
    assert(out@ =~= pre + output_column_xml(*c));
}

fn input_entry_push(out: &mut String, e: &Option<String>)
    ensures
        final(out)@ == old(out)@ + input_entry_xml(*e),
{
    let ghost pre = out@;
    out.append("        <inputEntry>\n");
    out.append("          <text>");
    match e {
        Some(t) => out.append(t.as_str()),
        None => out.append("-"),
    }
    out.append("</text>\n");
    out.append("        </inputEntry>\n");
    assert(out@ =~= pre + input_entry_xml(*e));
}

fn output_entry_push(out: &mut String, e: &String)
    ensures
        final(out)@ == old(out)@ + output_entry_xml(*e),
{
    let ghost pre = out@;
    out.append("        <outputEntry>\n");
    out.append("          <text>");
    out.append(e.as_str());
    out.append("</text>\n");
    out.append("        </outputEntry>\n");
    assert(out@ =~= pre + output_entry_xml(*e));
}

fn rule_push(out: &mut String, r: &RuleEntry)
    ensures
        final(out)@ == old(out)@ + rule_xml(*r),
{
    let ghost pre = out@;
    out.append("      <rule>\n");
    input_entries_append(out, &r.input_entries);
    output_entries_append(out, &r.output_entries);
    out.append("      </rule>\n");
    assert(out@ =~= pre + rule_xml(*r));
}

fn input_columns_append(out: &mut String, items: &Vec<(String, String)>)
    ensures
        final(out)@ == old(out)@ + input_columns_xml(items@),
{
    let ghost pre = out@;
    let mut i: usize = 0;
    while i < items.len()
        invariant
            i <= items.len(),
            out@ == pre + input_columns_xml(items@.take(i as int)),
        decreases items.len() - i,
    {
        assert(items@.take(i + 1).drop_last() =~= items@.take(i as int));
        input_column_push(out, &items[i]);
        assert(out@ =~= pre + input_columns_xml(items@.take(i + 1)));
        i = i + 1;
    }
    assert(items@.take(items.len() as int) =~= items@);
}

fn output_columns_append(out: &mut String, items: &Vec<(String, String)>)
    ensures
        final(out)@ == old(out)@ + output_columns_xml(items@),
{
    let ghost pre = out@;
    let mut i: usize = 0;
    while i < items.len()
        invariant
            i <= items.len(),
            out@ == pre + output_columns_xml(items@.take(i as int)),
        decreases items.len() - i,
    {
        assert(items@.take(i + 1).drop_last() =~= items@.take(i as int));
        output_column_push(out, &items[i]);
        assert(out@ =~= pre + output_columns_xml(items@.take(i + 1)));
        i = i + 1;
    }
    assert(items@.take(items.len() as int) =~= items@);
}

fn input_entries_append(out: &mut String, items: &Vec<Option<String>>)
    ensures
        final(out)@ == old(out)@ + input_entries_xml(items@),
{
    let ghost pre = out@;
    let mut i: usize = 0;
    while i < items.len()
        invariant
            i <= items.len(),
            out@ == pre + input_entries_xml(items@.take(i as int)),
        decreases items.len() - i,
    {
        assert(items@.take(i + 1).drop_last() =~= items@.take(i as int));
        input_entry_push(out, &items[i]);
        assert(out@ =~= pre + input_entries_xml(items@.take(i + 1)));
        i = i + 1;
    }
    assert(items@.take(items.len() as int) =~= items@);
}

fn output_entries_append(out: &mut String, items: &Vec<String>)
    ensures
        final(out)@ == old(out)@ + output_entries_xml(items@),
{
    let ghost pre = out@;
    let mut i: usize = 0;
    while i < items.len()
        invariant
            i <= items.len(),
            out@ == pre + output_entries_xml(items@.take(i as int)),
        decreases items.len() - i,
    {
        assert(items@.take(i + 1).drop_last() =~= items@.take(i as int));
        output_entry_push(out, &items[i]);
        assert(out@ =~= pre + output_entries_xml(items@.take(i + 1)));
        i = i + 1;
    }
    assert(items@.take(items.len() as int) =~= items@);
}

fn rules_append(out: &mut String, items: &Vec<RuleEntry>)
    ensures
        final(out)@ == old(out)@ + rules_xml(items@),
{
    let ghost pre = out@;
    let mut i: usize = 0;
    while i < items.len()
        invariant
            i <= items.len(),
            out@ == pre + rules_xml(items@.take(i as int)),
        decreases items.len() - i,
    {
        assert(items@.take(i + 1).drop_last() =~= items@.take(i as int));
        rule_push(out, &items[i]);
        assert(out@ =~= pre + rules_xml(items@.take(i + 1)));
        i = i + 1;
    }
    assert(items@.take(items.len() as int) =~= items@);
}

/// The DMN XML of a decision table given by its id, hit policy, input
/// columns and output columns (each as id and label) and rules.
pub fn table_xml(
    id: &str,
    hit_policy: HitPolicy,
    inputs: &Vec<(String, String)>,
    outputs: &Vec<(String, String)>,
    rules: &Vec<RuleEntry>,
) -> (r: String)
    ensures
        r@ == table_xml_text(id@, hit_policy, inputs@, outputs@, rules@),
{
    let mut out = owned("<?xml version=\"1.0\" encoding=\"UTF-8\"?>\n");
    out.append("<definitions xmlns=\"http://www.omg.org/spec/DMN/20151101/dmn.xsd\">\n");
    out.append("  <decision id=\"");
    out.append(id);
    out.append("\">\n");
    out.append("    <decisionTable hitPolicy=\"");
    out.append(hit_policy.name());
    out.append("\">\n");
    input_columns_append(&mut out, inputs);
    output_columns_append(&mut out, outputs);
    rules_append(&mut out, rules);
    out.append("    </decisionTable>\n");
    out.append("  </decision>\n");
    out.append("</definitions>\n");
    assert(out@ =~= table_xml_text(id@, hit_policy, inputs@, outputs@, rules@));
    out
}

/// Reading and checking DMN documents.
pub struct DmnXmlManager;

impl DmnXmlManager {
    /// A JSON document read from `json_str`; a parse failure is an XML
    /// parsing error quoting the parser's message.
    pub fn import_from_json(json_str: &str) -> (r: DmnResult<serde_json::Value>)
        ensures
            r is Ok <==> json_parse_error_text(json_str@) is None,
            r matches Ok(v) ==> v == json_value_of(json_str@),
            r is Err ==> (json_parse_error_text(json_str@) matches Some(m) && r matches Err(
                DmnError::XmlParsingError(t),
            ) && t@ == "JSON parse error: "@ + m),
    {
        match parse_json_value(json_str) {
            Ok(v) => Ok(v),
            Err(m) => Err(DmnError::XmlParsingError(concat2("JSON parse error: ", m.as_str()))),
        }
    }

    /// A light check of a DMN document: it must hold an XML declaration and
    /// a definitions element.
    pub fn validate_xml(xml: &str) -> (r: DmnResult<()>)
        ensures
            !contains_seq(xml@, "<?xml"@) ==> (r matches Err(DmnError::XmlParsingError(m)) && m@
                == "Invalid XML: missing XML declaration"@),
            contains_seq(xml@, "<?xml"@) && !contains_seq(xml@, "<definitions"@) ==> (r matches Err(
                DmnError::XmlParsingError(m),
            ) && m@ == "Invalid DMN: missing definitions element"@),
            contains_seq(xml@, "<?xml"@) && contains_seq(xml@, "<definitions"@) ==> r is Ok,
    {
        if !contains_str(xml, "<?xml") {
            return Err(DmnError::XmlParsingError(owned("Invalid XML: missing XML declaration")));
        }
        if !contains_str(xml, "<definitions") {
            return Err(DmnError::XmlParsingError(owned("Invalid DMN: missing definitions element")));
        }
        Ok(())
    }
}


proof fn lemma_contains_left(a: Seq<char>, s: Seq<char>, n: Seq<char>)
    requires
        contains_seq(s, n),
    ensures
        contains_seq(a + s, n),
{
    let i = choose|i: int| occurs_at(s, n, i);
    assert((a + s).subrange(a.len() + i, a.len() + i + n.len()) =~= s.subrange(i, i + n.len()));
    assert(occurs_at(a + s, n, a.len() + i));
}

proof fn lemma_contains_right(s: Seq<char>, b: Seq<char>, n: Seq<char>)
    requires
        contains_seq(s, n),
    ensures
        contains_seq(s + b, n),
{
    let i = choose|i: int| occurs_at(s, n, i);
    assert((s + b).subrange(i, i + n.len()) =~= s.subrange(i, i + n.len()));
    assert(occurs_at(s + b, n, i));
}

proof fn lemma_contains_prefix(p: Seq<char>, b: Seq<char>)
    ensures
        contains_seq(p + b, p),
{
    assert((p + b).subrange(0, p.len() as int) =~= p);
    assert(occurs_at(p + b, p, 0));
}

/// The text of an output entry's element, up to the end of its value.
pub open spec fn output_entry_text(e: Seq<char>) -> Seq<char> {
    "        <outputEntry>\n"@ + "          <text>"@ + e + "</text>\n"@
}

/// The text of an input entry's element, up to the end of its value (`-`
/// for an empty entry).
pub open spec fn input_entry_text(e: Option<String>) -> Seq<char> {
    "        <inputEntry>\n"@ + "          <text>"@ + match e {
        Some(t) => t@,
        None => "-"@,
    } + "</text>\n"@
}

proof fn lemma_output_entries_contain(es: Seq<String>, j: int)
    requires
        0 <= j < es.len(),
    ensures
        contains_seq(output_entries_xml(es), output_entry_text(es[j]@)),
    decreases es.len(),
{
    let n = output_entry_text(es[j]@);
    if j == es.len() - 1 {
        let e = output_entry_xml(es.last());
        assert(e =~= n + "        </outputEntry>\n"@);
        lemma_contains_prefix(n, "        </outputEntry>\n"@);
        lemma_contains_left(output_entries_xml(es.drop_last()), e, n);
    } else {
        assert(es.drop_last()[j] == es[j]);
        lemma_output_entries_contain(es.drop_last(), j);
        lemma_contains_right(output_entries_xml(es.drop_last()), output_entry_xml(es.last()), n);
    }
}

proof fn lemma_input_entries_contain(es: Seq<Option<String>>, j: int)
    requires
        0 <= j < es.len(),
    ensures
        contains_seq(input_entries_xml(es), input_entry_text(es[j])),
    decreases es.len(),
{
    let n = input_entry_text(es[j]);
    if j == es.len() - 1 {
        let e = input_entry_xml(es.last());
        assert(e =~= n + "        </inputEntry>\n"@);
        lemma_contains_prefix(n, "        </inputEntry>\n"@);
        lemma_contains_left(input_entries_xml(es.drop_last()), e, n);
    } else {
        assert(es.drop_last()[j] == es[j]);
        lemma_input_entries_contain(es.drop_last(), j);
        lemma_contains_right(input_entries_xml(es.drop_last()), input_entry_xml(es.last()), n);
    }
}

proof fn lemma_rules_contain(rs: Seq<RuleEntry>, k: int, n: Seq<char>)
    requires
        0 <= k < rs.len(),
        contains_seq(rule_xml(rs[k]), n),
    ensures
        contains_seq(rules_xml(rs), n),
    decreases rs.len(),
{
    if k == rs.len() - 1 {
        lemma_contains_left(rules_xml(rs.drop_last()), rule_xml(rs.last()), n);
    } else {
        assert(rs.drop_last()[k] == rs[k]);
        lemma_rules_contain(rs.drop_last(), k, n);
        lemma_contains_right(rules_xml(rs.drop_last()), rule_xml(rs.last()), n);
    }
}

/// Every value of every rule is in the exported table: for each rule `k`
/// and each of its output entries `j`, the document holds an
/// `<outputEntry>` whose text is that value, and likewise an `<inputEntry>`
/// for each input entry (`-` for an empty one).
pub proof fn lemma_table_xml_keeps_every_entry(
    id: Seq<char>,
    hit_policy: HitPolicy,
    inputs: Seq<(String, String)>,
    outputs: Seq<(String, String)>,
    rules: Seq<RuleEntry>,
    k: int,
)
    requires
        0 <= k < rules.len(),
    ensures
        forall|j: int| 0 <= j < rules[k].output_entries@.len() ==> contains_seq(
            table_xml_text(id, hit_policy, inputs, outputs, rules),
            "        <outputEntry>\n"@ + "          <text>"@ + (#[trigger] rules[k].output_entries@[j])@ + "</text>\n"@,
        ),
        forall|j: int| 0 <= j < rules[k].input_entries@.len() ==> contains_seq(
            table_xml_text(id, hit_policy, inputs, outputs, rules),
            input_entry_text(#[trigger] rules[k].input_entries@[j]),
        ),
{
    let r = rules[k];
    let head = "<?xml version=\"1.0\" encoding=\"UTF-8\"?>\n"@
        + "<definitions xmlns=\"http://www.omg.org/spec/DMN/20151101/dmn.xsd\">\n"@
        + "  <decision id=\""@ + id + "\">\n"@ + "    <decisionTable hitPolicy=\""@ + policy_letter(hit_policy)
        + "\">\n"@ + input_columns_xml(inputs) + output_columns_xml(outputs);
    let tail = "    </decisionTable>\n"@ + "  </decision>\n"@ + "</definitions>\n"@;
    let t = table_xml_text(id, hit_policy, inputs, outputs, rules);
    assert(t =~= head + rules_xml(rules) + tail);
    assert forall|j: int| 0 <= j < r.output_entries@.len() implies contains_seq(
        t,
        "        <outputEntry>\n"@ + "          <text>"@ + (#[trigger] rules[k].output_entries@[j])@ + "</text>\n"@,
    ) by {
        let n = output_entry_text(r.output_entries@[j]@);
        lemma_output_entries_contain(r.output_entries@, j);
        let pre = "      <rule>\n"@ + input_entries_xml(r.input_entries@);
        assert(rule_xml(r) =~= pre + output_entries_xml(r.output_entries@) + "      </rule>\n"@);
        lemma_contains_left(pre, output_entries_xml(r.output_entries@), n);
        lemma_contains_right(pre + output_entries_xml(r.output_entries@), "      </rule>\n"@, n);
        lemma_rules_contain(rules, k, n);
        lemma_contains_left(head, rules_xml(rules), n);
        lemma_contains_right(head + rules_xml(rules), tail, n);
    }
    assert forall|j: int| 0 <= j < r.input_entries@.len() implies contains_seq(
        t,
        input_entry_text(#[trigger] rules[k].input_entries@[j]),
    ) by {
        let n = input_entry_text(r.input_entries@[j]);
        lemma_input_entries_contain(r.input_entries@, j);
        let post = output_entries_xml(r.output_entries@) + "      </rule>\n"@;
        assert(rule_xml(r) =~= "      <rule>\n"@ + input_entries_xml(r.input_entries@) + post);
        lemma_contains_left("      <rule>\n"@, input_entries_xml(r.input_entries@), n);
        lemma_contains_right("      <rule>\n"@ + input_entries_xml(r.input_entries@), post, n);
        lemma_rules_contain(rules, k, n);
        lemma_contains_left(head, rules_xml(rules), n);
        lemma_contains_right(head + rules_xml(rules), tail, n);
    }
}

} // verus!
