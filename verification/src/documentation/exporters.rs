//! Export of process documentation as Markdown, HTML and plain text.
use vstd::prelude::*;
use super::{ErrorScenario, Parameter, Participant, ProcessDocumentation, shown_time, shown_time_text};
use crate::escape::html_escape_spec;

verus! {

/// Something that writes process documentation out as text.
pub trait Exporter {
    /// The documentation `doc` as text.
    fn export(&self, doc: &ProcessDocumentation) -> (r: Result<String, String>);
}

/// Writes documentation as Markdown.
pub struct MarkdownExporter;

/// Writes documentation as an HTML page, with an optional style sheet put in
/// its head.
pub struct HtmlExporter {
    pub stylesheet: Option<String>,
}

/// Writes documentation as plain text.
pub struct PlainTextExporter;

/// `pre`, the text and `post` when there is a text; nothing otherwise.
pub open spec fn opt_text(pre: Seq<char>, o: Option<String>, post: Seq<char>) -> Seq<char> {
    match o {
        Some(t) => pre + t@ + post,
        None => Seq::empty(),
    }
}

/// `pre`, the HTML-escaped text and `post` when there is a text; nothing otherwise.
pub open spec fn opt_html(pre: Seq<char>, o: Option<String>, post: Seq<char>) -> Seq<char> {
    match o {
        Some(t) => pre + html_escape_spec(t@) + post,
        None => Seq::empty(),
    }
}

/// The text, or nothing.
pub open spec fn opt_plain(o: Option<String>) -> Seq<char> {
    match o {
        Some(t) => t@,
        None => Seq::empty(),
    }
}

/// `t` when `b` holds; nothing otherwise.
pub open spec fn when(b: bool, t: Seq<char>) -> Seq<char> {
    if b { t } else { Seq::empty() }
}

// ---- Markdown ----

/// The Markdown item of an input: name, type and description, then whether it
/// is required, its default and its constraints where there are any.
pub open spec fn md_input(p: Parameter) -> Seq<char> {
    "- **"@ + p.name@ + "** ("@ + p.param_type@ + "): "@ + p.description@ + "\n"@
        + when(p.required, "  - Required: Yes\n"@)
        + opt_text("  - Default: "@, p.default, "\n"@)
        + opt_text("  - Constraints: "@, p.constraints, "\n"@)
}

/// The Markdown item of an output: name, type and description.
pub open spec fn md_output(p: Parameter) -> Seq<char> {
    "- **"@ + p.name@ + "** ("@ + p.param_type@ + "): "@ + p.description@ + "\n"@
}

/// The Markdown item of a responsibility.
pub open spec fn md_responsibility(r: String) -> Seq<char> {
    "  - "@ + r@ + "\n"@
}

/// The Markdown section of a participant.
pub open spec fn md_participant(p: Participant) -> Seq<char> {
    "### "@ + p.name@ + "\n\n"@ + "- Type: "@ + p.participant_type@ + "\n"@
        + opt_text("- Role: "@, p.role, "\n"@)
        + when(p.responsibilities@.len() > 0, "- Responsibilities:\n"@ + md_responsibilities(p.responsibilities@))
        + "\n"@
}

/// The Markdown item of a recovery step.
pub open spec fn md_step(s: String) -> Seq<char> {
    "1. "@ + s@ + "\n"@
}

/// The Markdown section of an error scenario.
pub open spec fn md_error(e: ErrorScenario) -> Seq<char> {
    "### "@ + e.condition@ + "\n\n"@ + "**Handling:** "@ + e.handling@ + "\n\n"@
        + when(e.recovery_steps@.len() > 0, "**Recovery Steps:**\n"@ + md_steps(e.recovery_steps@) + "\n"@)
        + opt_text("**Impact:** "@, e.impact, "\n\n"@)
}

/// The Markdown item of a DoDAF view.
pub open spec fn md_view(v: String) -> Seq<char> {
    "- "@ + v@ + "\n"@
}

/// The Markdown item of a metadata entry.
pub open spec fn md_entry(e: (String, String)) -> Seq<char> {
    "- **"@ + e.0@ + ":** "@ + e.1@ + "\n"@
}

/// The first part of the Markdown document: title, then description,
/// purpose, inputs, outputs and participants where there are any.
pub open spec fn markdown_front(doc: ProcessDocumentation) -> Seq<char> {
    "# "@ + doc.name@ + "\n\n"@
        + when(doc.description@.len() > 0, "## Description\n\n"@ + doc.description@ + "\n\n"@)
        + opt_text("## Purpose\n\n"@, doc.purpose, "\n\n"@)
        + when(doc.inputs@.len() > 0, "## Inputs\n\n"@ + md_inputs(doc.inputs@) + "\n"@)
        + when(doc.outputs@.len() > 0, "## Outputs\n\n"@ + md_outputs(doc.outputs@) + "\n"@)
        + when(doc.participants@.len() > 0, "## Participants\n\n"@ + md_participants(doc.participants@))
}

/// The rest of the Markdown document: the flow, error handling and DoDAF
/// views where there are any, and the metadata, with `generated` as the time
/// it was made.
pub open spec fn markdown_back(doc: ProcessDocumentation, generated: Seq<char>) -> Seq<char> {
    "## Process Flow\n\n"@ + doc.flow_description@ + "\n\n"@
        + when(doc.error_handling@.len() > 0, "## Error Handling\n\n"@ + md_errors(doc.error_handling@))
        + when(doc.dodaf_views@.len() > 0, "## DoDAF Views\n\n"@ + md_views(doc.dodaf_views@) + "\n"@)
        + "## Metadata\n\n"@ + "- **Process ID:** "@ + doc.process_id@ + "\n"@
        + "- **Generated:** "@ + generated + "\n"@ + md_entries(doc.metadata@)
}

/// The Markdown document.
pub open spec fn markdown_text(doc: ProcessDocumentation, generated: Seq<char>) -> Seq<char> {
    markdown_front(doc) + markdown_back(doc, generated)
}

// ---- HTML ----

/// The HTML list item of an input.
pub open spec fn html_input(p: Parameter) -> Seq<char> {
    "<li class=\"parameter\">\n"@ + "<strong>"@ + html_escape_spec(p.name@) + "</strong> ("@
        + html_escape_spec(p.param_type@) + "): "@ + html_escape_spec(p.description@) + "<br>\n"@
        + when(p.required, "<span class=\"required\">Required</span><br>\n"@)
        + opt_html("Default: <code>"@, p.default, "</code><br>\n"@) + "</li>\n"@
}

/// The HTML list item of an output.
pub open spec fn html_output(p: Parameter) -> Seq<char> {
    "<li>\n"@ + "<strong>"@ + html_escape_spec(p.name@) + "</strong> ("@
        + html_escape_spec(p.param_type@) + "): "@ + html_escape_spec(p.description@) + "\n"@
        + "</li>\n"@
}

/// An HTML list item holding a text.
pub open spec fn html_item(s: String) -> Seq<char> {
    "<li>"@ + html_escape_spec(s@) + "</li>\n"@
}

/// The HTML section of a participant.
pub open spec fn html_participant(p: Participant) -> Seq<char> {
    "<h3>"@ + html_escape_spec(p.name@) + "</h3>\n"@ + "<p>Type: <strong>"@
        + html_escape_spec(p.participant_type@) + "</strong></p>\n"@
        + opt_html("<p>Role: <strong>"@, p.role, "</strong></p>\n"@)
        + when(p.responsibilities@.len() > 0, "<p>Responsibilities:</p>\n<ul>\n"@ + html_items(p.responsibilities@) + "</ul>\n"@)
}

/// The HTML block of an error scenario.
pub open spec fn html_error(e: ErrorScenario) -> Seq<char> {
    "<div class=\"error-scenario\">\n"@ + "<h3>"@ + html_escape_spec(e.condition@) + "</h3>\n"@
        + "<p><strong>Handling:</strong> "@ + html_escape_spec(e.handling@) + "</p>\n"@
        + when(e.recovery_steps@.len() > 0, "<p><strong>Recovery Steps:</strong></p>\n<ol>\n"@ + html_items(e.recovery_steps@) + "</ol>\n"@)
        + "</div>\n"@
}

/// The HTML paragraph of a metadata entry.
pub open spec fn html_entry(e: (String, String)) -> Seq<char> {
    "<p><strong>"@ + html_escape_spec(e.0@) + ":</strong> "@ + html_escape_spec(e.1@) + "</p>\n"@
}

/// `s` with each line break written as `<br>`.
pub open spec fn breaks_as_br(s: Seq<char>) -> Seq<char>
    decreases s.len(),
{
    if s.len() == 0 {
        Seq::empty()
    } else {
        breaks_as_br(s.drop_last()) + (if s.last() == '\n' { "<br>"@ } else { seq![s.last()] })
    }
}

/// The style sheet an HTML exporter has unless told otherwise.
pub open spec fn default_stylesheet_text() -> Seq<char> {
    "\n<style>\n    body {\n        font-family: Arial, sans-serif;\n        line-height: 1.6;\n        color: #333;\n        max-width: 1200px;\n        margin: 0 auto;\n        padding: 20px;\n    }\n    h1 { color: #1a5490; border-bottom: 3px solid #1a5490; padding-bottom: 10px; }\n    h2 { color: #2a7ab0; margin-top: 30px; }\n    h3 { color: #3a8ac0; }\n    .metadata { background: #f5f5f5; padding: 15px; border-left: 4px solid #1a5490; }\n    .parameter, .error-scenario {\n        background: #f9f9f9;\n        padding: 10px;\n        margin: 10px 0;\n        border-left: 4px solid #2a7ab0;\n    }\n    .required { color: red; font-weight: bold; }\n    code { background: #f4f4f4; padding: 2px 5px; border-radius: 3px; }\n    table { border-collapse: collapse; width: 100%; margin: 20px 0; }\n    th, td { border: 1px solid #ddd; padding: 12px; text-align: left; }\n    th { background: #2a7ab0; color: white; }\n    tr:nth-child(even) { background: #f9f9f9; }\n</style>\n"@
}

/// The head of the HTML page: its title (as given), character set, viewport
/// and the style sheet if there is one.
pub open spec fn html_head_text(doc: ProcessDocumentation, stylesheet: Option<String>) -> Seq<char> {
    "<!DOCTYPE html>\n<html>\n<head>\n"@ + "<title>"@ + doc.name@ + "</title>\n"@
        + "<meta charset=\"UTF-8\">\n"@
        + "<meta name=\"viewport\" content=\"width=device-width, initial-scale=1.0\">\n"@
        + opt_plain(stylesheet) + "</head>\n<body>\n"@
}

/// The first part of the HTML body, every text HTML-escaped: heading, then
/// description, purpose, inputs, outputs and participants where there are any.
pub open spec fn html_body_front(doc: ProcessDocumentation) -> Seq<char> {
    "<h1>"@ + html_escape_spec(doc.name@) + "</h1>\n"@
        + when(doc.description@.len() > 0, "<h2>Description</h2>\n"@ + "<p>"@ + html_escape_spec(doc.description@) + "</p>\n"@)
        + opt_html("<h2>Purpose</h2>\n<p>"@, doc.purpose, "</p>\n"@)
        + when(doc.inputs@.len() > 0, "<h2>Inputs</h2>\n<ul>\n"@ + html_inputs(doc.inputs@) + "</ul>\n"@)
        + when(doc.outputs@.len() > 0, "<h2>Outputs</h2>\n<ul>\n"@ + html_outputs(doc.outputs@) + "</ul>\n"@)
        + when(doc.participants@.len() > 0, "<h2>Participants</h2>\n"@ + html_participants(doc.participants@))
}

/// The rest of the HTML body: the flow with its line breaks as `<br>`, error
/// handling and DoDAF views where there are any, and the metadata block, with
/// `generated` as the time it was made.
pub open spec fn html_body_back(doc: ProcessDocumentation, generated: Seq<char>) -> Seq<char> {
    "<h2>Process Flow</h2>\n"@ + "<p>"@ + breaks_as_br(html_escape_spec(doc.flow_description@)) + "</p>\n"@
        + when(doc.error_handling@.len() > 0, "<h2>Error Handling</h2>\n"@ + html_errors(doc.error_handling@))
        + when(doc.dodaf_views@.len() > 0, "<h2>DoDAF Views</h2>\n<ul>\n"@ + html_items(doc.dodaf_views@) + "</ul>\n"@)
        + "<div class=\"metadata\">\n"@ + "<h2>Metadata</h2>\n"@
        + "<p><strong>Process ID:</strong> "@ + html_escape_spec(doc.process_id@) + "</p>\n"@
        + "<p><strong>Generated:</strong> "@ + generated + "</p>\n"@
        + html_entries(doc.metadata@) + "</div>\n"@ + "</body>\n</html>\n"@
}

/// The body of the HTML page.
pub open spec fn html_body_text(doc: ProcessDocumentation, generated: Seq<char>) -> Seq<char> {
    html_body_front(doc) + html_body_back(doc, generated)
}

/// The HTML page.
pub open spec fn html_text(doc: ProcessDocumentation, stylesheet: Option<String>, generated: Seq<char>) -> Seq<char> {
    html_head_text(doc, stylesheet) + html_body_text(doc, generated)
}

// ---- Plain text ----

/// The plain text block of an input.
pub open spec fn plain_input(p: Parameter) -> Seq<char> {
    p.name@ + " ("@ + p.param_type@ + ")\n"@ + "  "@ + p.description@ + "\n"@
        + when(p.required, "  [REQUIRED]\n"@) + opt_text("  Default: "@, p.default, "\n"@) + "\n"@
}

/// The plain text block of an output.
pub open spec fn plain_output(p: Parameter) -> Seq<char> {
    p.name@ + " ("@ + p.param_type@ + ")\n"@ + "  "@ + p.description@ + "\n\n"@
}

/// The plain text line of a metadata entry.
pub open spec fn plain_entry(e: (String, String)) -> Seq<char> {
    e.0@ + ": "@ + e.1@ + "\n"@
}

/// As many `=` as the name has bytes in UTF-8.
pub open spec fn underline(name: Seq<char>) -> Seq<char> {
    Seq::new(vstd::utf8::encode_utf8(name).len(), |i: int| '=')
}

/// The plain text document: the name underlined, the description, purpose,
/// inputs and outputs where there are any, the flow and the metadata, with
/// `generated` as the time it was made.
pub open spec fn plain_text(doc: ProcessDocumentation, generated: Seq<char>) -> Seq<char> {
    doc.name@ + "\n"@ + underline(doc.name@) + "\n\n"@
        + when(doc.description@.len() > 0, "DESCRIPTION\n"@ + "-----------\n"@ + doc.description@ + "\n\n"@)
        + opt_text("PURPOSE\n-------\n"@, doc.purpose, "\n\n"@)
        + when(doc.inputs@.len() > 0, "INPUTS\n"@ + "------\n"@ + plain_inputs(doc.inputs@))
        + when(doc.outputs@.len() > 0, "OUTPUTS\n"@ + "-------\n"@ + plain_outputs(doc.outputs@))
        + "PROCESS FLOW\n"@ + "------------\n"@ + doc.flow_description@ + "\n\n"@
        + "METADATA\n"@ + "--------\n"@ + "Process ID: "@ + doc.process_id@ + "\n"@
        + "Generated: "@ + generated + "\n"@ + plain_entries(doc.metadata@)
}

/// Markdown items for the inputs.
pub open spec fn md_inputs(s: Seq<Parameter>) -> Seq<char>
    decreases s.len(),
{
    if s.len() == 0 {
        Seq::empty()
    } else {
        md_inputs(s.drop_last()) + md_input(s.last())
    }
}

/// Markdown items for the outputs.
pub open spec fn md_outputs(s: Seq<Parameter>) -> Seq<char>
    decreases s.len(),
{
    if s.len() == 0 {
        Seq::empty()
    } else {
        md_outputs(s.drop_last()) + md_output(s.last())
    }
}

/// Markdown items for a participant's responsibilities.
pub open spec fn md_responsibilities(s: Seq<String>) -> Seq<char>
    decreases s.len(),
{
    if s.len() == 0 {
        Seq::empty()
    } else {
        md_responsibilities(s.drop_last()) + md_responsibility(s.last())
    }
}

/// Markdown sections for the participants.
pub open spec fn md_participants(s: Seq<Participant>) -> Seq<char>
    decreases s.len(),
{
    if s.len() == 0 {
        Seq::empty()
    } else {
        md_participants(s.drop_last()) + md_participant(s.last())
    }
}

/// Numbered Markdown items for recovery steps.
pub open spec fn md_steps(s: Seq<String>) -> Seq<char>
    decreases s.len(),
{
    if s.len() == 0 {
        Seq::empty()
    } else {
        md_steps(s.drop_last()) + md_step(s.last())
    }
}

/// Markdown sections for the error scenarios.
pub open spec fn md_errors(s: Seq<ErrorScenario>) -> Seq<char>
    decreases s.len(),
{
    if s.len() == 0 {
        Seq::empty()
    } else {
        md_errors(s.drop_last()) + md_error(s.last())
    }
}

/// Markdown items for the DoDAF views.
pub open spec fn md_views(s: Seq<String>) -> Seq<char>
    decreases s.len(),
{
    if s.len() == 0 {
        Seq::empty()
    } else {
        md_views(s.drop_last()) + md_view(s.last())
    }
}

/// Markdown items for metadata entries.
pub open spec fn md_entries(s: Seq<(String, String)>) -> Seq<char>
    decreases s.len(),
{
    if s.len() == 0 {
        Seq::empty()
    } else {
        md_entries(s.drop_last()) + md_entry(s.last())
    }
}

/// HTML list items for the inputs.
pub open spec fn html_inputs(s: Seq<Parameter>) -> Seq<char>
    decreases s.len(),
{
    if s.len() == 0 {
        Seq::empty()
    } else {
        html_inputs(s.drop_last()) + html_input(s.last())
    }
}

/// HTML list items for the outputs.
pub open spec fn html_outputs(s: Seq<Parameter>) -> Seq<char>
    decreases s.len(),
{
    if s.len() == 0 {
        Seq::empty()
    } else {
        html_outputs(s.drop_last()) + html_output(s.last())
    }
}

/// HTML list items, one per text.
pub open spec fn html_items(s: Seq<String>) -> Seq<char>
    decreases s.len(),
{
    if s.len() == 0 {
        Seq::empty()
    } else {
        html_items(s.drop_last()) + html_item(s.last())
    }
}

/// HTML sections for the participants.
pub open spec fn html_participants(s: Seq<Participant>) -> Seq<char>
    decreases s.len(),
{
    if s.len() == 0 {
        Seq::empty()
    } else {
        html_participants(s.drop_last()) + html_participant(s.last())
    }
}

/// HTML blocks for the error scenarios.
pub open spec fn html_errors(s: Seq<ErrorScenario>) -> Seq<char>
    decreases s.len(),
{
    if s.len() == 0 {
        Seq::empty()
    } else {
        html_errors(s.drop_last()) + html_error(s.last())
    }
}

/// HTML paragraphs for metadata entries.
pub open spec fn html_entries(s: Seq<(String, String)>) -> Seq<char>
    decreases s.len(),
{
    if s.len() == 0 {
        Seq::empty()
    } else {
        html_entries(s.drop_last()) + html_entry(s.last())
    }
}

/// Plain text blocks for the inputs.
pub open spec fn plain_inputs(s: Seq<Parameter>) -> Seq<char>
    decreases s.len(),
{
    if s.len() == 0 {
        Seq::empty()
    } else {
        plain_inputs(s.drop_last()) + plain_input(s.last())
    }
}

/// Plain text blocks for the outputs.
pub open spec fn plain_outputs(s: Seq<Parameter>) -> Seq<char>
    decreases s.len(),
{
    if s.len() == 0 {
        Seq::empty()
    } else {
        plain_outputs(s.drop_last()) + plain_output(s.last())
    }
}

/// Plain text lines for metadata entries.
pub open spec fn plain_entries(s: Seq<(String, String)>) -> Seq<char>
    decreases s.len(),
{
    if s.len() == 0 {
        Seq::empty()
    } else {
        plain_entries(s.drop_last()) + plain_entry(s.last())
    }
}


// ---- building blocks ----

fn app_opt(out: &mut String, pre: &str, o: &Option<String>, post: &str)
    ensures
        final(out)@ == old(out)@ + opt_text(pre@, *o, post@),
{
    match o {
        Some(t) => {
            out.append(pre);
            out.append(t.as_str());
            out.append(post);
        },
        None => {},
    }
}

fn app_esc(out: &mut String, t: &str)
    ensures
        final(out)@ == old(out)@ + html_escape_spec(t@),
{
    let e = crate::escape::html_escape(t);
    out.append(e.as_str());
}

fn app_opt_html(out: &mut String, pre: &str, o: &Option<String>, post: &str)
    ensures
        final(out)@ == old(out)@ + opt_html(pre@, *o, post@),
{
    match o {
        Some(t) => {
            out.append(pre);
            app_esc(out, t.as_str());
            out.append(post);
        },
        None => {},
    }
}

fn md_input_push(out: &mut String, p: &Parameter)
    ensures
        final(out)@ == old(out)@ + md_input(*p),
{
    let ghost pre = out@;
    out.append("- **");
    out.append(p.name.as_str());
    out.append("** (");
    out.append(p.param_type.as_str());
    out.append("): ");
    out.append(p.description.as_str());
    out.append("\n");
    if p.required {
        out.append("  - Required: Yes\n");
    }
    app_opt(out, "  - Default: ", &p.default, "\n");
    app_opt(out, "  - Constraints: ", &p.constraints, "\n");
    assert(out@ =~= pre + md_input(*p));
}

fn md_output_push(out: &mut String, p: &Parameter)
    ensures
        final(out)@ == old(out)@ + md_output(*p),
{
    let ghost pre = out@;
    out.append("- **");
    out.append(p.name.as_str());
    out.append("** (");
    out.append(p.param_type.as_str());
    out.append("): ");
    out.append(p.description.as_str());
    out.append("\n");
    assert(out@ =~= pre + md_output(*p));
}

fn md_responsibility_push(out: &mut String, r: &String)
    ensures
        final(out)@ == old(out)@ + md_responsibility(*r),
{
    let ghost pre = out@;
    out.append("  - ");
    out.append(r.as_str());
    out.append("\n");
    assert(out@ =~= pre + md_responsibility(*r));
}

fn md_participant_push(out: &mut String, p: &Participant)
    ensures
        final(out)@ == old(out)@ + md_participant(*p),
{
    let ghost pre = out@;
    out.append("### ");
    out.append(p.name.as_str());
    out.append("\n\n");
    out.append("- Type: ");
    out.append(p.participant_type.as_str());
    out.append("\n");
    app_opt(out, "- Role: ", &p.role, "\n");
    if p.responsibilities.len() > 0 {
        out.append("- Responsibilities:\n");
        md_append_responsibilities(out, &p.responsibilities);
    }
    out.append("\n");
    assert(out@ =~= pre + md_participant(*p));
}

fn md_step_push(out: &mut String, s: &String)
    ensures
        final(out)@ == old(out)@ + md_step(*s),
{
    let ghost pre = out@;
    out.append("1. ");
    out.append(s.as_str());
    out.append("\n");
    assert(out@ =~= pre + md_step(*s));
}

fn md_error_push(out: &mut String, e: &ErrorScenario)
    ensures
        final(out)@ == old(out)@ + md_error(*e),
{
    let ghost pre = out@;
    out.append("### ");
    out.append(e.condition.as_str());
    out.append("\n\n");
    out.append("**Handling:** ");
    out.append(e.handling.as_str());
    out.append("\n\n");
    if e.recovery_steps.len() > 0 {
        out.append("**Recovery Steps:**\n");
        md_append_steps(out, &e.recovery_steps);
        out.append("\n");
    }
    app_opt(out, "**Impact:** ", &e.impact, "\n\n");
    assert(out@ =~= pre + md_error(*e));
}

fn md_view_push(out: &mut String, v: &String)
    ensures
        final(out)@ == old(out)@ + md_view(*v),
{
    let ghost pre = out@;
    out.append("- ");
    out.append(v.as_str());
    out.append("\n");
    assert(out@ =~= pre + md_view(*v));
}

fn md_entry_push(out: &mut String, e: &(String, String))
    ensures
        final(out)@ == old(out)@ + md_entry(*e),
{
    let ghost pre = out@;
    out.append("- **");
    out.append(e.0.as_str());
    out.append(":** ");
    out.append(e.1.as_str());
    out.append("\n");
    assert(out@ =~= pre + md_entry(*e));
}

fn html_input_push(out: &mut String, p: &Parameter)
    ensures
        final(out)@ == old(out)@ + html_input(*p),
{
    let ghost pre = out@;
    out.append("<li class=\"parameter\">\n");
    out.append("<strong>");
    app_esc(out, p.name.as_str());
    out.append("</strong> (");
    app_esc(out, p.param_type.as_str());
    out.append("): ");
    app_esc(out, p.description.as_str());
    out.append("<br>\n");
    if p.required {
        out.append("<span class=\"required\">Required</span><br>\n");
    }
    app_opt_html(out, "Default: <code>", &p.default, "</code><br>\n");
    out.append("</li>\n");
    assert(out@ =~= pre + html_input(*p));
}

fn html_output_push(out: &mut String, p: &Parameter)
    ensures
        final(out)@ == old(out)@ + html_output(*p),
{
    let ghost pre = out@;
    out.append("<li>\n");
    out.append("<strong>");
    app_esc(out, p.name.as_str());
    out.append("</strong> (");
    app_esc(out, p.param_type.as_str());
    out.append("): ");
    app_esc(out, p.description.as_str());
    out.append("\n");
    out.append("</li>\n");
    assert(out@ =~= pre + html_output(*p));
}

fn html_item_push(out: &mut String, s: &String)
    ensures
        final(out)@ == old(out)@ + html_item(*s),
{
    let ghost pre = out@;
    out.append("<li>");
    app_esc(out, s.as_str());
    out.append("</li>\n");
    assert(out@ =~= pre + html_item(*s));
}

fn html_participant_push(out: &mut String, p: &Participant)
    ensures
        final(out)@ == old(out)@ + html_participant(*p),
{
    let ghost pre = out@;
    out.append("<h3>");
    app_esc(out, p.name.as_str());
    out.append("</h3>\n");
    out.append("<p>Type: <strong>");
    app_esc(out, p.participant_type.as_str());
    out.append("</strong></p>\n");
    app_opt_html(out, "<p>Role: <strong>", &p.role, "</strong></p>\n");
    if p.responsibilities.len() > 0 {
        out.append("<p>Responsibilities:</p>\n<ul>\n");
        html_append_items(out, &p.responsibilities);
        out.append("</ul>\n");
    }
    assert(out@ =~= pre + html_participant(*p));
}

fn html_error_push(out: &mut String, e: &ErrorScenario)
    ensures
        final(out)@ == old(out)@ + html_error(*e),
{
    let ghost pre = out@;
    out.append("<div class=\"error-scenario\">\n");
    out.append("<h3>");
    app_esc(out, e.condition.as_str());
    out.append("</h3>\n");
    out.append("<p><strong>Handling:</strong> ");
    app_esc(out, e.handling.as_str());
    out.append("</p>\n");
    if e.recovery_steps.len() > 0 {
        out.append("<p><strong>Recovery Steps:</strong></p>\n<ol>\n");
        html_append_items(out, &e.recovery_steps);
        out.append("</ol>\n");
    }
    out.append("</div>\n");
    assert(out@ =~= pre + html_error(*e));
}

fn html_entry_push(out: &mut String, e: &(String, String))
    ensures
        final(out)@ == old(out)@ + html_entry(*e),
{
    let ghost pre = out@;
    out.append("<p><strong>");
    app_esc(out, e.0.as_str());
    out.append(":</strong> ");
    app_esc(out, e.1.as_str());
    out.append("</p>\n");
    assert(out@ =~= pre + html_entry(*e));
}

fn plain_input_push(out: &mut String, p: &Parameter)
    ensures
        final(out)@ == old(out)@ + plain_input(*p),
{
    let ghost pre = out@;
    out.append(p.name.as_str());
    out.append(" (");
    out.append(p.param_type.as_str());
    out.append(")\n");
    out.append("  ");
    out.append(p.description.as_str());
    out.append("\n");
    if p.required {
        out.append("  [REQUIRED]\n");
    }
    app_opt(out, "  Default: ", &p.default, "\n");
    out.append("\n");
    assert(out@ =~= pre + plain_input(*p));
}

fn plain_output_push(out: &mut String, p: &Parameter)
    ensures
        final(out)@ == old(out)@ + plain_output(*p),
{
    let ghost pre = out@;
    out.append(p.name.as_str());
    out.append(" (");
    out.append(p.param_type.as_str());
    out.append(")\n");
    out.append("  ");
    out.append(p.description.as_str());
    out.append("\n\n");
    assert(out@ =~= pre + plain_output(*p));
}

fn plain_entry_push(out: &mut String, e: &(String, String))
    ensures
        final(out)@ == old(out)@ + plain_entry(*e),
{
    let ghost pre = out@;
    out.append(e.0.as_str());
    out.append(": ");
    out.append(e.1.as_str());
    out.append("\n");
    assert(out@ =~= pre + plain_entry(*e));
}

fn md_append_inputs(out: &mut String, items: &Vec<Parameter>)
    ensures
        final(out)@ == old(out)@ + md_inputs(items@),
{
    let ghost pre = out@;
    let mut i: usize = 0;
    while i < items.len()
        invariant
            i <= items.len(),
            out@ == pre + md_inputs(items@.take(i as int)),
        decreases items.len() - i,
    {
        assert(items@.take(i + 1).drop_last() =~= items@.take(i as int));
        md_input_push(out, &items[i]);
        assert(out@ =~= pre + md_inputs(items@.take(i + 1)));
        i = i + 1;
    }
    assert(items@.take(items.len() as int) =~= items@);
}

fn md_append_outputs(out: &mut String, items: &Vec<Parameter>)
    ensures
        final(out)@ == old(out)@ + md_outputs(items@),
{
    let ghost pre = out@;
    let mut i: usize = 0;
    while i < items.len()
        invariant
            i <= items.len(),
            out@ == pre + md_outputs(items@.take(i as int)),
        decreases items.len() - i,
    {
        assert(items@.take(i + 1).drop_last() =~= items@.take(i as int));
        md_output_push(out, &items[i]);
        assert(out@ =~= pre + md_outputs(items@.take(i + 1)));
        i = i + 1;
    }
    assert(items@.take(items.len() as int) =~= items@);
}

fn md_append_responsibilities(out: &mut String, items: &Vec<String>)
    ensures
        final(out)@ == old(out)@ + md_responsibilities(items@),
{
    let ghost pre = out@;
    let mut i: usize = 0;
    while i < items.len()
        invariant
            i <= items.len(),
            out@ == pre + md_responsibilities(items@.take(i as int)),
        decreases items.len() - i,
    {
        assert(items@.take(i + 1).drop_last() =~= items@.take(i as int));
        md_responsibility_push(out, &items[i]);
        assert(out@ =~= pre + md_responsibilities(items@.take(i + 1)));
        i = i + 1;
    }
    assert(items@.take(items.len() as int) =~= items@);
}

fn md_append_participants(out: &mut String, items: &Vec<Participant>)
    ensures
        final(out)@ == old(out)@ + md_participants(items@),
{
    let ghost pre = out@;
    let mut i: usize = 0;
    while i < items.len()
        invariant
            i <= items.len(),
            out@ == pre + md_participants(items@.take(i as int)),
        decreases items.len() - i,
    {
        assert(items@.take(i + 1).drop_last() =~= items@.take(i as int));
        md_participant_push(out, &items[i]);
        assert(out@ =~= pre + md_participants(items@.take(i + 1)));
        i = i + 1;
    }
    assert(items@.take(items.len() as int) =~= items@);
}

fn md_append_steps(out: &mut String, items: &Vec<String>)
    ensures
        final(out)@ == old(out)@ + md_steps(items@),
{
    let ghost pre = out@;
    let mut i: usize = 0;
    while i < items.len()
        invariant
            i <= items.len(),
            out@ == pre + md_steps(items@.take(i as int)),
        decreases items.len() - i,
    {
        assert(items@.take(i + 1).drop_last() =~= items@.take(i as int));
        md_step_push(out, &items[i]);
        assert(out@ =~= pre + md_steps(items@.take(i + 1)));
        i = i + 1;
    }
    assert(items@.take(items.len() as int) =~= items@);
}

fn md_append_errors(out: &mut String, items: &Vec<ErrorScenario>)
    ensures
        final(out)@ == old(out)@ + md_errors(items@),
{
    let ghost pre = out@;
    let mut i: usize = 0;
    while i < items.len()
        invariant
            i <= items.len(),
            out@ == pre + md_errors(items@.take(i as int)),
        decreases items.len() - i,
    {
        assert(items@.take(i + 1).drop_last() =~= items@.take(i as int));
        md_error_push(out, &items[i]);
        assert(out@ =~= pre + md_errors(items@.take(i + 1)));
        i = i + 1;
    }
    assert(items@.take(items.len() as int) =~= items@);
}

fn md_append_views(out: &mut String, items: &Vec<String>)
    ensures
        final(out)@ == old(out)@ + md_views(items@),
{
    let ghost pre = out@;
    let mut i: usize = 0;
    while i < items.len()
        invariant
            i <= items.len(),
            out@ == pre + md_views(items@.take(i as int)),
        decreases items.len() - i,
    {
        assert(items@.take(i + 1).drop_last() =~= items@.take(i as int));
        md_view_push(out, &items[i]);
        assert(out@ =~= pre + md_views(items@.take(i + 1)));
        i = i + 1;
    }
    assert(items@.take(items.len() as int) =~= items@);
}

fn md_append_entries(out: &mut String, items: &Vec<(String, String)>)
    ensures
        final(out)@ == old(out)@ + md_entries(items@),
{
    let ghost pre = out@;
    let mut i: usize = 0;
    while i < items.len()
        invariant
            i <= items.len(),
            out@ == pre + md_entries(items@.take(i as int)),
        decreases items.len() - i,
    {
        assert(items@.take(i + 1).drop_last() =~= items@.take(i as int));
        md_entry_push(out, &items[i]);
        assert(out@ =~= pre + md_entries(items@.take(i + 1)));
        i = i + 1;
    }
    assert(items@.take(items.len() as int) =~= items@);
}

fn html_append_inputs(out: &mut String, items: &Vec<Parameter>)
    ensures
        final(out)@ == old(out)@ + html_inputs(items@),
{
    let ghost pre = out@;
    let mut i: usize = 0;
    while i < items.len()
        invariant
            i <= items.len(),
            out@ == pre + html_inputs(items@.take(i as int)),
        decreases items.len() - i,
    {
        assert(items@.take(i + 1).drop_last() =~= items@.take(i as int));
        html_input_push(out, &items[i]);
        assert(out@ =~= pre + html_inputs(items@.take(i + 1)));
        i = i + 1;
    }
    assert(items@.take(items.len() as int) =~= items@);
}

fn html_append_outputs(out: &mut String, items: &Vec<Parameter>)
    ensures
        final(out)@ == old(out)@ + html_outputs(items@),
{
    let ghost pre = out@;
    let mut i: usize = 0;
    while i < items.len()
        invariant
            i <= items.len(),
            out@ == pre + html_outputs(items@.take(i as int)),
        decreases items.len() - i,
    {
        assert(items@.take(i + 1).drop_last() =~= items@.take(i as int));
        html_output_push(out, &items[i]);
        assert(out@ =~= pre + html_outputs(items@.take(i + 1)));
        i = i + 1;
    }
    assert(items@.take(items.len() as int) =~= items@);
}

fn html_append_items(out: &mut String, items: &Vec<String>)
    ensures
        final(out)@ == old(out)@ + html_items(items@),
{
    let ghost pre = out@;
    let mut i: usize = 0;
    while i < items.len()
        invariant
            i <= items.len(),
            out@ == pre + html_items(items@.take(i as int)),
        decreases items.len() - i,
    {
        assert(items@.take(i + 1).drop_last() =~= items@.take(i as int));
        html_item_push(out, &items[i]);
        assert(out@ =~= pre + html_items(items@.take(i + 1)));
        i = i + 1;
    }
    assert(items@.take(items.len() as int) =~= items@);
}

fn html_append_participants(out: &mut String, items: &Vec<Participant>)
    ensures
        final(out)@ == old(out)@ + html_participants(items@),
{
    let ghost pre = out@;
    let mut i: usize = 0;
    while i < items.len()
        invariant
            i <= items.len(),
            out@ == pre + html_participants(items@.take(i as int)),
        decreases items.len() - i,
    {
        assert(items@.take(i + 1).drop_last() =~= items@.take(i as int));
        html_participant_push(out, &items[i]);
        assert(out@ =~= pre + html_participants(items@.take(i + 1)));
        i = i + 1;
    }
    assert(items@.take(items.len() as int) =~= items@);
}

fn html_append_errors(out: &mut String, items: &Vec<ErrorScenario>)
    ensures
        final(out)@ == old(out)@ + html_errors(items@),
{
    let ghost pre = out@;
    let mut i: usize = 0;
    while i < items.len()
        invariant
            i <= items.len(),
            out@ == pre + html_errors(items@.take(i as int)),
        decreases items.len() - i,
    {
        assert(items@.take(i + 1).drop_last() =~= items@.take(i as int));
        html_error_push(out, &items[i]);
        assert(out@ =~= pre + html_errors(items@.take(i + 1)));
        i = i + 1;
    }
    assert(items@.take(items.len() as int) =~= items@);
}

fn html_append_entries(out: &mut String, items: &Vec<(String, String)>)
    ensures
        final(out)@ == old(out)@ + html_entries(items@),
{
    let ghost pre = out@;
    let mut i: usize = 0;
    while i < items.len()
        invariant
            i <= items.len(),
            out@ == pre + html_entries(items@.take(i as int)),
        decreases items.len() - i,
    {
        assert(items@.take(i + 1).drop_last() =~= items@.take(i as int));
        html_entry_push(out, &items[i]);
        assert(out@ =~= pre + html_entries(items@.take(i + 1)));
        i = i + 1;
    }
    assert(items@.take(items.len() as int) =~= items@);
}

fn plain_append_inputs(out: &mut String, items: &Vec<Parameter>)
    ensures
        final(out)@ == old(out)@ + plain_inputs(items@),
{
    let ghost pre = out@;
    let mut i: usize = 0;
    while i < items.len()
        invariant
            i <= items.len(),
            out@ == pre + plain_inputs(items@.take(i as int)),
        decreases items.len() - i,
    {
        assert(items@.take(i + 1).drop_last() =~= items@.take(i as int));
        plain_input_push(out, &items[i]);
        assert(out@ =~= pre + plain_inputs(items@.take(i + 1)));
        i = i + 1;
    }
    assert(items@.take(items.len() as int) =~= items@);
}

fn plain_append_outputs(out: &mut String, items: &Vec<Parameter>)
    ensures
        final(out)@ == old(out)@ + plain_outputs(items@),
{
    let ghost pre = out@;
    let mut i: usize = 0;
    while i < items.len()
        invariant
            i <= items.len(),
            out@ == pre + plain_outputs(items@.take(i as int)),
        decreases items.len() - i,
    {
        assert(items@.take(i + 1).drop_last() =~= items@.take(i as int));
        plain_output_push(out, &items[i]);
        assert(out@ =~= pre + plain_outputs(items@.take(i + 1)));
        i = i + 1;
    }
    assert(items@.take(items.len() as int) =~= items@);
}

fn plain_append_entries(out: &mut String, items: &Vec<(String, String)>)
    ensures
        final(out)@ == old(out)@ + plain_entries(items@),
{
    let ghost pre = out@;
    let mut i: usize = 0;
    while i < items.len()
        invariant
            i <= items.len(),
            out@ == pre + plain_entries(items@.take(i as int)),
        decreases items.len() - i,
    {
        assert(items@.take(i + 1).drop_last() =~= items@.take(i as int));
        plain_entry_push(out, &items[i]);
        assert(out@ =~= pre + plain_entries(items@.take(i + 1)));
        i = i + 1;
    }
    assert(items@.take(items.len() as int) =~= items@);
}


fn breaks_to_br(s: &str) -> (r: String)
    ensures
        r@ == breaks_as_br(s@),
{
    let cs = crate::text::chars_of(s);
    let mut r = String::new();
    let mut i: usize = 0;
    while i < cs.len()
        invariant
            i <= cs.len(),
            cs@ == s@,
            r@ == breaks_as_br(s@.take(i as int)),
        decreases cs.len() - i,
    {
        assert(s@.take(i + 1).drop_last() =~= s@.take(i as int));
        let c = cs[i];
        if c == '\n' {
            r.append("<br>");
        } else {
            r.push(c);
        }
        i = i + 1;
        assert(r@ =~= breaks_as_br(s@.take(i as int)));
    }
    assert(s@.take(cs.len() as int) =~= s@);
    r
}

fn underline_text(name: &str) -> (r: String)
    ensures
        r@ == underline(name@),
{
    let n = name.as_bytes().len();
    let mut r = String::new();
    let mut i: usize = 0;
    while i < n
        invariant
            i <= n,
            n == vstd::utf8::encode_utf8(name@).len(),
            r@ == Seq::new(i as nat, |k: int| '='),
        decreases n - i,
    {
        r.push('=');
        assert(r@ =~= Seq::new((i + 1) as nat, |k: int| '='));
        i = i + 1;
    }
    r
}

/// The default style sheet of an HTML exporter.
fn default_stylesheet() -> (r: String)
    ensures
        r@ == default_stylesheet_text(),
{
    crate::text::owned("\n<style>\n    body {\n        font-family: Arial, sans-serif;\n        line-height: 1.6;\n        color: #333;\n        max-width: 1200px;\n        margin: 0 auto;\n        padding: 20px;\n    }\n    h1 { color: #1a5490; border-bottom: 3px solid #1a5490; padding-bottom: 10px; }\n    h2 { color: #2a7ab0; margin-top: 30px; }\n    h3 { color: #3a8ac0; }\n    .metadata { background: #f5f5f5; padding: 15px; border-left: 4px solid #1a5490; }\n    .parameter, .error-scenario {\n        background: #f9f9f9;\n        padding: 10px;\n        margin: 10px 0;\n        border-left: 4px solid #2a7ab0;\n    }\n    .required { color: red; font-weight: bold; }\n    code { background: #f4f4f4; padding: 2px 5px; border-radius: 3px; }\n    table { border-collapse: collapse; width: 100%; margin: 20px 0; }\n    th, td { border: 1px solid #ddd; padding: 12px; text-align: left; }\n    th { background: #2a7ab0; color: white; }\n    tr:nth-child(even) { background: #f9f9f9; }\n</style>\n")
}

/// `text` with `& < > " '` replaced by their HTML entities.
pub fn html_escape(text: &str) -> (r: String)
    ensures
        r@ == html_escape_spec(text@),
{
    crate::escape::html_escape(text)
}

fn markdown_front_text(doc: &ProcessDocumentation) -> (r: String)
    ensures
        r@ == markdown_front(*doc),
{
    let mut out = String::new();
    out.append("# ");
    out.append(doc.name.as_str());
    out.append("\n\n");
    let ghost a = out@;
    if !doc.description.as_str().is_empty() {
        out.append("## Description\n\n");
        out.append(doc.description.as_str());
        out.append("\n\n");
    }
    assert(out@ =~= a + when(doc.description@.len() > 0, "## Description\n\n"@ + doc.description@ + "\n\n"@));
    app_opt(&mut out, "## Purpose\n\n", &doc.purpose, "\n\n");
    let ghost b = out@;
    if doc.inputs.len() > 0 {
        out.append("## Inputs\n\n");
        md_append_inputs(&mut out, &doc.inputs);
        out.append("\n");
    }
    assert(out@ =~= b + when(doc.inputs@.len() > 0, "## Inputs\n\n"@ + md_inputs(doc.inputs@) + "\n"@));
    let ghost c = out@;
    if doc.outputs.len() > 0 {
        out.append("## Outputs\n\n");
        md_append_outputs(&mut out, &doc.outputs);
        out.append("\n");
    }
    assert(out@ =~= c + when(doc.outputs@.len() > 0, "## Outputs\n\n"@ + md_outputs(doc.outputs@) + "\n"@));
    let ghost d = out@;
    if doc.participants.len() > 0 {
        out.append("## Participants\n\n");
        md_append_participants(&mut out, &doc.participants);
    }
    assert(out@ =~= d + when(doc.participants@.len() > 0, "## Participants\n\n"@ + md_participants(doc.participants@)));
    assert(out@ =~= markdown_front(*doc));
    out
}

fn markdown_back_text(doc: &ProcessDocumentation, generated: &str) -> (r: String)
    ensures
        r@ == markdown_back(*doc, generated@),
{
    let mut out = String::new();
    out.append("## Process Flow\n\n");
    out.append(doc.flow_description.as_str());
    out.append("\n\n");
    let ghost e = out@;
    if doc.error_handling.len() > 0 {
        out.append("## Error Handling\n\n");
        md_append_errors(&mut out, &doc.error_handling);
    }
    assert(out@ =~= e + when(doc.error_handling@.len() > 0, "## Error Handling\n\n"@ + md_errors(doc.error_handling@)));
    let ghost f = out@;
    if doc.dodaf_views.len() > 0 {
        out.append("## DoDAF Views\n\n");
        md_append_views(&mut out, &doc.dodaf_views);
        out.append("\n");
    }
    assert(out@ =~= f + when(doc.dodaf_views@.len() > 0, "## DoDAF Views\n\n"@ + md_views(doc.dodaf_views@) + "\n"@));
    out.append("## Metadata\n\n");
    out.append("- **Process ID:** ");
    out.append(doc.process_id.as_str());
    out.append("\n");
    out.append("- **Generated:** ");
    out.append(generated);
    out.append("\n");
    md_append_entries(&mut out, &doc.metadata);
    assert(out@ =~= markdown_back(*doc, generated@));
    out
}

/// The Markdown document for `doc`, with `generated` shown as the time it was made.
pub fn render_markdown(doc: &ProcessDocumentation, generated: &str) -> (r: String)
    ensures
        r@ == markdown_text(*doc, generated@),
{
    let mut out = markdown_front_text(doc);
    let back = markdown_back_text(doc, generated);
    out.append(back.as_str());
    out
}

/// The head of the HTML page for `doc`, with `stylesheet` if there is one.
pub fn render_html_head(doc: &ProcessDocumentation, stylesheet: &Option<String>) -> (r: String)
    ensures
        r@ == html_head_text(*doc, *stylesheet),
{
    let mut out = String::new();
    out.append("<!DOCTYPE html>\n<html>\n<head>\n");
    out.append("<title>");
    out.append(doc.name.as_str());
    out.append("</title>\n");
    out.append("<meta charset=\"UTF-8\">\n");
    out.append("<meta name=\"viewport\" content=\"width=device-width, initial-scale=1.0\">\n");
    match stylesheet {
        Some(t) => out.append(t.as_str()),
        None => {},
    }
    out.append("</head>\n<body>\n");
    assert(out@ =~= html_head_text(*doc, *stylesheet));
    out
}

fn html_body_front_text(doc: &ProcessDocumentation) -> (r: String)
    ensures
        r@ == html_body_front(*doc),
{
    let mut out = String::new();
    out.append("<h1>");
    app_esc(&mut out, doc.name.as_str());
    out.append("</h1>\n");
    let ghost a = out@;
    if !doc.description.as_str().is_empty() {
        out.append("<h2>Description</h2>\n");
        out.append("<p>");
        app_esc(&mut out, doc.description.as_str());
        out.append("</p>\n");
    }
    assert(out@ =~= a + when(doc.description@.len() > 0, "<h2>Description</h2>\n"@ + "<p>"@ + html_escape_spec(doc.description@) + "</p>\n"@));
    app_opt_html(&mut out, "<h2>Purpose</h2>\n<p>", &doc.purpose, "</p>\n");
    let ghost b = out@;
    if doc.inputs.len() > 0 {
        out.append("<h2>Inputs</h2>\n<ul>\n");
        html_append_inputs(&mut out, &doc.inputs);
        out.append("</ul>\n");
    }
    assert(out@ =~= b + when(doc.inputs@.len() > 0, "<h2>Inputs</h2>\n<ul>\n"@ + html_inputs(doc.inputs@) + "</ul>\n"@));
    let ghost c = out@;
    if doc.outputs.len() > 0 {
        out.append("<h2>Outputs</h2>\n<ul>\n");
        html_append_outputs(&mut out, &doc.outputs);
        out.append("</ul>\n");
    }
    assert(out@ =~= c + when(doc.outputs@.len() > 0, "<h2>Outputs</h2>\n<ul>\n"@ + html_outputs(doc.outputs@) + "</ul>\n"@));
    let ghost d = out@;
    if doc.participants.len() > 0 {
        out.append("<h2>Participants</h2>\n");
        html_append_participants(&mut out, &doc.participants);
    }
    assert(out@ =~= d + when(doc.participants@.len() > 0, "<h2>Participants</h2>\n"@ + html_participants(doc.participants@)));
    assert(out@ =~= html_body_front(*doc));
    out
}

fn html_body_back_text(doc: &ProcessDocumentation, generated: &str) -> (r: String)
    ensures
        r@ == html_body_back(*doc, generated@),
{
    let mut out = String::new();
    out.append("<h2>Process Flow</h2>\n");
    out.append("<p>");
    let flow = crate::escape::html_escape(doc.flow_description.as_str());
    let flow_br = breaks_to_br(flow.as_str());
    out.append(flow_br.as_str());
    out.append("</p>\n");
    let ghost e = out@;
    if doc.error_handling.len() > 0 {
        out.append("<h2>Error Handling</h2>\n");
        html_append_errors(&mut out, &doc.error_handling);
    }
    assert(out@ =~= e + when(doc.error_handling@.len() > 0, "<h2>Error Handling</h2>\n"@ + html_errors(doc.error_handling@)));
    let ghost f = out@;
    if doc.dodaf_views.len() > 0 {
        out.append("<h2>DoDAF Views</h2>\n<ul>\n");
        html_append_items(&mut out, &doc.dodaf_views);
        out.append("</ul>\n");
    }
    assert(out@ =~= f + when(doc.dodaf_views@.len() > 0, "<h2>DoDAF Views</h2>\n<ul>\n"@ + html_items(doc.dodaf_views@) + "</ul>\n"@));
    out.append("<div class=\"metadata\">\n");
    out.append("<h2>Metadata</h2>\n");
    out.append("<p><strong>Process ID:</strong> ");
    app_esc(&mut out, doc.process_id.as_str());
    out.append("</p>\n");
    out.append("<p><strong>Generated:</strong> ");
    out.append(generated);
    out.append("</p>\n");
    html_append_entries(&mut out, &doc.metadata);
    out.append("</div>\n");
    out.append("</body>\n</html>\n");
    assert(out@ =~= html_body_back(*doc, generated@));
    out
}

/// The body of the HTML page for `doc`, with `generated` shown as the time it
/// was made.
pub fn render_html_body(doc: &ProcessDocumentation, generated: &str) -> (r: String)
    ensures
        r@ == html_body_text(*doc, generated@),
{
    let mut out = html_body_front_text(doc);
    let back = html_body_back_text(doc, generated);
    out.append(back.as_str());
    out
}

/// The plain text document for `doc`, with `generated` shown as the time it
/// was made.
pub fn render_plain_text(doc: &ProcessDocumentation, generated: &str) -> (r: String)
    ensures
        r@ == plain_text(*doc, generated@),
{
    let mut out = String::new();
    out.append(doc.name.as_str());
    out.append("\n");
    let line = underline_text(doc.name.as_str());
    out.append(line.as_str());
    out.append("\n\n");
    let ghost a = out@;
    if !doc.description.as_str().is_empty() {
        out.append("DESCRIPTION\n");
        out.append("-----------\n");
        out.append(doc.description.as_str());
        out.append("\n\n");
    }
    assert(out@ =~= a + when(doc.description@.len() > 0, "DESCRIPTION\n"@ + "-----------\n"@ + doc.description@ + "\n\n"@));
    app_opt(&mut out, "PURPOSE\n-------\n", &doc.purpose, "\n\n");
    let ghost b = out@;
    if doc.inputs.len() > 0 {
        out.append("INPUTS\n");
        out.append("------\n");
        plain_append_inputs(&mut out, &doc.inputs);
    }
    assert(out@ =~= b + when(doc.inputs@.len() > 0, "INPUTS\n"@ + "------\n"@ + plain_inputs(doc.inputs@)));
    let ghost c = out@;
    if doc.outputs.len() > 0 {
        out.append("OUTPUTS\n");
        out.append("-------\n");
        plain_append_outputs(&mut out, &doc.outputs);
    }
    assert(out@ =~= c + when(doc.outputs@.len() > 0, "OUTPUTS\n"@ + "-------\n"@ + plain_outputs(doc.outputs@)));
    out.append("PROCESS FLOW\n");
    out.append("------------\n");
    out.append(doc.flow_description.as_str());
    out.append("\n\n");
    out.append("METADATA\n");
    out.append("--------\n");
    out.append("Process ID: ");
    out.append(doc.process_id.as_str());
    out.append("\n");
    out.append("Generated: ");
    out.append(generated);
    out.append("\n");
    plain_append_entries(&mut out, &doc.metadata);
    assert(out@ =~= plain_text(*doc, generated@));
    out
}

impl Exporter for MarkdownExporter {
    /// The Markdown document, with the time it was made shown in UTC.
    fn export(&self, doc: &ProcessDocumentation) -> (r: Result<String, String>)
        ensures
            r matches Ok(s) && s@ == markdown_text(*doc, shown_time(doc.generated_at@)),
    {
        let t = shown_time_text(doc.generated_at.as_str());
        Ok(render_markdown(doc, t.as_str()))
    }
}

impl HtmlExporter {
    /// An HTML exporter with the default style sheet.
    pub fn new() -> (r: Self)
        ensures
            r.stylesheet matches Some(s) && s@ == default_stylesheet_text(),
    {
        HtmlExporter { stylesheet: Some(default_stylesheet()) }
    }
}

impl Default for HtmlExporter {
    fn default() -> (r: Self)
        ensures
            r.stylesheet matches Some(s) && s@ == default_stylesheet_text(),
    {
        HtmlExporter::new()
    }
}

impl Exporter for HtmlExporter {
    /// The HTML page, with this exporter's style sheet and the time it was
    /// made shown in UTC.
    fn export(&self, doc: &ProcessDocumentation) -> (r: Result<String, String>)
        ensures
            r matches Ok(s) && s@ == html_text(*doc, self.stylesheet, shown_time(doc.generated_at@)),
    {
        let t = shown_time_text(doc.generated_at.as_str());
        let mut out = render_html_head(doc, &self.stylesheet);
        let body = render_html_body(doc, t.as_str());
        out.append(body.as_str());
        Ok(out)
    }
}

impl Exporter for PlainTextExporter {
    /// The plain text document, with the time it was made shown in UTC.
    fn export(&self, doc: &ProcessDocumentation) -> (r: Result<String, String>)
        ensures
            r matches Ok(s) && s@ == plain_text(*doc, shown_time(doc.generated_at@)),
    {
        let t = shown_time_text(doc.generated_at.as_str());
        Ok(render_plain_text(doc, t.as_str()))
    }
}

} // verus!

