//! Reading the definitions element of a BPMN 2.0 document: the diagram's
//! id, name and documentation, in the form the writer gives them.
use vstd::prelude::*;
use super::elements::{BpmnDiagram, BpmnProcess, Collaboration, DataStore, Message, Signal};
use super::namespace::{BPMN2, BPMNDI, DC, DI};
use super::xml_io::{
    collaboration_xml, collaborations_xml, data_store_xml, data_stores_xml, definitions_xml,
    diagram_interchange_xml, message_xml, messages_xml, process_xml, processes_xml, signal_xml,
    signals_xml,
};
use crate::escape::{escape_xml_spec, has_prefix, lemma_escape_xml_has_no_markup, lemma_unescape_escape, prefix_at, unescape_xml_spec};
use crate::text::{chars_of, opt_view};

verus! {

/// The first place at or after `from` where `s` holds `c`, if any.
pub open spec fn first_at(s: Seq<char>, c: char, from: int) -> Option<int>
    decreases s.len() - from,
{
    if from < 0 || from >= s.len() {
        None
    } else if s[from] == c {
        Some(from)
    } else {
        first_at(s, c, from + 1)
    }
}

/// The text from `i` up to the next `"`, when that quote is followed by a
/// space, and the place after that space.
#[verifier::opaque]
pub open spec fn quoted_from(s: Seq<char>, i: int) -> Option<(Seq<char>, int)> {
    match first_at(s, '"', i) {
        Some(j) => if has_prefix(s.skip(j), "\" "@) {
            Some((s.subrange(i, j), j + 2))
        } else {
            None
        },
        None => None,
    }
}

/// The start of a definitions document, up to the opening quote of its id.
#[verifier::opaque]
pub open spec fn definitions_head() -> Seq<char> {
    "<?xml version=\"1.0\" encoding=\"UTF-8\"?>\n"@ + "<definitions "@ + "id"@ + "=\""@
}

/// The start of the name attribute, up to its opening quote.
#[verifier::opaque]
pub open spec fn name_head() -> Seq<char> {
    "name"@ + "=\""@
}

/// The namespace attributes that close the definitions start tag.
#[verifier::opaque]
pub open spec fn namespaces_text() -> Seq<char> {
    "xmlns=\""@ + BPMN2@ + "\" "@ + "xmlns:bpmndi=\""@ + BPMNDI@ + "\" "@ + "xmlns:dc=\""@ + DC@ + "\" "@
        + "xmlns:di=\""@ + DI@ + "\" "@ + "xmlns:xsi=\"http://www.w3.org/2001/XMLSchema-instance\" "@
        + "xsi:schemaLocation=\""@ + BPMN2@ + " BPMN20.xsd"@ + "\">\n"@
}

/// The start of the definitions' documentation element.
#[verifier::opaque]
pub open spec fn documentation_open() -> Seq<char> {
    "  "@ + "<documentation>"@
}

/// The (escaped) name text after the id, if there is a name attribute, and
/// the place where the namespaces start.
#[verifier::opaque]
pub open spec fn name_part(s: Seq<char>, i: int) -> Option<(Option<Seq<char>>, int)> {
    if has_prefix(s.skip(i), name_head()) {
        match quoted_from(s, i + name_head().len()) {
            Some((n, k)) => Some((Some(n), k)),
            None => None,
        }
    } else {
        Some((None, i))
    }
}

/// The (escaped) documentation text at `m`, if a documentation element
/// stands there.
#[verifier::opaque]
pub open spec fn documentation_part(s: Seq<char>, m: int) -> Option<Option<Seq<char>>> {
    if has_prefix(s.skip(m), documentation_open()) {
        let start = m + documentation_open().len();
        match first_at(s, '<', start) {
            Some(e) => if has_prefix(s.skip(e), "</documentation>\n"@) {
                Some(Some(s.subrange(start, e)))
            } else {
                None
            },
            None => None,
        }
    } else {
        Some(None)
    }
}

/// The escaped id, name and documentation texts of the definitions element
/// that `s` starts with, or none if `s` does not start with one in the form
/// the writer gives: the XML declaration, `<definitions id="…" `, an
/// optional `name="…" `, the namespaces, and an optional documentation
/// element.
pub open spec fn definitions_header(s: Seq<char>) -> Option<(Seq<char>, Option<Seq<char>>, Option<Seq<char>>)> {
    if !has_prefix(s, definitions_head()) {
        None
    } else {
        match quoted_from(s, definitions_head().len() as int) {
            None => None,
            Some((id, i)) => match name_part(s, i) {
                None => None,
                Some((name, k)) => if !has_prefix(s.skip(k), namespaces_text()) {
                    None
                } else {
                    match documentation_part(s, k + namespaces_text().len()) {
                        None => None,
                        Some(doc) => Some((id, name, doc)),
                    }
                },
            },
        }
    }
}

/// An optional text, decoded.
pub open spec fn opt_unescape(o: Option<Seq<char>>) -> Option<Seq<char>> {
    match o {
        Some(t) => Some(unescape_xml_spec(t)),
        None => None,
    }
}

/// An optional text, escaped.
pub open spec fn opt_escape(o: Option<String>) -> Option<Seq<char>> {
    match o {
        Some(t) => Some(escape_xml_spec(t@)),
        None => None,
    }
}

/// `t` cannot start a documentation element: it is long enough to tell and
/// differs from `  <do` in its first, fourth or fifth character.
pub open spec fn unlike_documentation(t: Seq<char>) -> bool {
    t.len() >= 5 && (t[0] != ' ' || t[3] != 'd' || t[4] != 'o')
}

proof fn lemma_first_at(s: Seq<char>, c: char, i: int, j: int)
    requires
        0 <= i <= j < s.len(),
        s[j] == c,
        forall|k: int| i <= k < j ==> s[k] != c,
    ensures
        first_at(s, c, i) == Some(j),
    decreases j - i,
{
    if i < j {
        lemma_first_at(s, c, i + 1, j);
    }
}

proof fn lemma_unlike_concat(a: Seq<char>, b: Seq<char>)
    requires
        a.len() == 0 ==> unlike_documentation(b),
        a.len() > 0 ==> unlike_documentation(a),
    ensures
        unlike_documentation(a + b),
{
    if a.len() > 0 {
        assert((a + b)[0] == a[0] && (a + b)[3] == a[3] && (a + b)[4] == a[4]);
    } else {
        assert(a + b =~= b);
    }
}

proof fn lemma_prefix_head(t: Seq<char>, head: Seq<char>, rest: Seq<char>)
    requires
        t == head + rest,
        unlike_documentation(head),
    ensures
        unlike_documentation(t),
{
    assert(t[0] == head[0] && t[3] == head[3] && t[4] == head[4]);
}

proof fn lemma_messages_head(s: Seq<Message>)
    ensures
        s.len() > 0 ==> unlike_documentation(messages_xml(s)),
        s.len() == 0 ==> messages_xml(s).len() == 0,
    decreases s.len(),
{
    if s.len() > 0 {
        lemma_messages_head(s.drop_last());
        let m = s.last();
        reveal_strlit("  <message ");
        assert(message_xml(m) =~= "  <message "@ + message_xml(m).skip(11));
        lemma_prefix_head(message_xml(m), "  <message "@, message_xml(m).skip(11));
        lemma_unlike_concat(messages_xml(s.drop_last()), message_xml(m));
    }
}

proof fn lemma_signals_head(s: Seq<Signal>)
    ensures
        s.len() > 0 ==> unlike_documentation(signals_xml(s)),
        s.len() == 0 ==> signals_xml(s).len() == 0,
    decreases s.len(),
{
    if s.len() > 0 {
        lemma_signals_head(s.drop_last());
        let m = s.last();
        reveal_strlit("  <signal ");
        assert(signal_xml(m) =~= "  <signal "@ + signal_xml(m).skip(10));
        lemma_prefix_head(signal_xml(m), "  <signal "@, signal_xml(m).skip(10));
        lemma_unlike_concat(signals_xml(s.drop_last()), signal_xml(m));
    }
}

proof fn lemma_data_stores_head(s: Seq<DataStore>)
    ensures
        s.len() > 0 ==> unlike_documentation(data_stores_xml(s)),
        s.len() == 0 ==> data_stores_xml(s).len() == 0,
    decreases s.len(),
{
    if s.len() > 0 {
        lemma_data_stores_head(s.drop_last());
        let m = s.last();
        reveal_strlit("  <dataStore ");
        assert(data_store_xml(m) =~= "  <dataStore "@ + data_store_xml(m).skip(13));
        lemma_prefix_head(data_store_xml(m), "  <dataStore "@, data_store_xml(m).skip(13));
        lemma_unlike_concat(data_stores_xml(s.drop_last()), data_store_xml(m));
    }
}

#[verifier::spinoff_prover]
#[verifier::rlimit(40)]
proof fn lemma_process_head(p: BpmnProcess)
    ensures
        unlike_documentation(process_xml(p)),
{
    reveal(process_xml);
    reveal_strlit("  <process ");
    let t = process_xml(p);
    assert(t[0] == ' ' && t[3] == 'p' && t.len() >= 11);
}

proof fn lemma_processes_head(s: Seq<BpmnProcess>)
    ensures
        s.len() > 0 ==> unlike_documentation(processes_xml(s)),
        s.len() == 0 ==> processes_xml(s).len() == 0,
    decreases s.len(),
{
    if s.len() > 0 {
        lemma_processes_head(s.drop_last());
        let m = s.last();
        lemma_process_head(m);
        lemma_unlike_concat(processes_xml(s.drop_last()), process_xml(m));
    }
}

proof fn lemma_collaborations_head(s: Seq<Collaboration>)
    ensures
        s.len() > 0 ==> unlike_documentation(collaborations_xml(s)),
        s.len() == 0 ==> collaborations_xml(s).len() == 0,
    decreases s.len(),
{
    if s.len() > 0 {
        lemma_collaborations_head(s.drop_last());
        let m = s.last();
        reveal_strlit("  <collaboration ");
        assert(collaboration_xml(m) =~= "  <collaboration "@ + collaboration_xml(m).skip(17));
        lemma_prefix_head(collaboration_xml(m), "  <collaboration "@, collaboration_xml(m).skip(17));
        lemma_unlike_concat(collaborations_xml(s.drop_last()), collaboration_xml(m));
    }
}

proof fn lemma_di_head(d: BpmnDiagram)
    ensures
        unlike_documentation(diagram_interchange_xml(d)),
{
    reveal_strlit("  <bpmndi:BPMNDiagram ");
    let t = diagram_interchange_xml(d);
    assert(t[0] == ' ' && t[3] == 'b' && t.len() >= 22);
}

proof fn lemma_ok_concat(a: Seq<char>, b: Seq<char>)
    requires
        a.len() == 0 || unlike_documentation(a),
        b.len() == 0 || unlike_documentation(b),
    ensures
        (a + b).len() == 0 || unlike_documentation(a + b),
{
    if a.len() > 0 {
        assert((a + b)[0] == a[0] && (a + b)[3] == a[3] && (a + b)[4] == a[4]);
    } else {
        assert(a + b =~= b);
    }
}

proof fn lemma_chain_unlike(m: Seq<char>, sg: Seq<char>, ds: Seq<char>, p: Seq<char>, c: Seq<char>, di: Seq<char>, end: Seq<char>)
    requires
        m.len() == 0 || unlike_documentation(m),
        sg.len() == 0 || unlike_documentation(sg),
        ds.len() == 0 || unlike_documentation(ds),
        p.len() == 0 || unlike_documentation(p),
        c.len() == 0 || unlike_documentation(c),
        di.len() == 0 || unlike_documentation(di),
        unlike_documentation(end),
    ensures
        unlike_documentation(m + sg + ds + p + c + di + end),
{
    lemma_ok_concat(m, sg);
    lemma_ok_concat(m + sg, ds);
    lemma_ok_concat(m + sg + ds, p);
    lemma_ok_concat(m + sg + ds + p, c);
    lemma_ok_concat(m + sg + ds + p + c, di);
    lemma_unlike_concat(m + sg + ds + p + c + di, end);
}

/// What follows the definitions' documentation in a written document.
pub open spec fn written_rest(d: BpmnDiagram) -> Seq<char> {
    messages_xml(d.messages@) + signals_xml(d.signals@) + data_stores_xml(d.data_stores@) + processes_xml(
        d.processes@,
    ) + collaborations_xml(d.collaborations@) + (if d.processes@.len() > 0 {
        diagram_interchange_xml(d)
    } else {
        Seq::empty()
    }) + "</definitions>\n"@
}

/// Whatever follows the definitions' documentation in a written document
/// cannot be taken for a documentation element.
proof fn lemma_rest_unlike(d: BpmnDiagram)
    ensures
        unlike_documentation(written_rest(d)),
{
    reveal_strlit("</definitions>\n");
    let end = "</definitions>\n"@;
    assert(end[0] == '<' && end.len() == 15);
    let di = if d.processes@.len() > 0 {
        diagram_interchange_xml(d)
    } else {
        Seq::empty()
    };
    if d.processes@.len() > 0 {
        lemma_di_head(d);
    }
    lemma_collaborations_head(d.collaborations@);
    lemma_processes_head(d.processes@);
    lemma_data_stores_head(d.data_stores@);
    lemma_signals_head(d.signals@);
    lemma_messages_head(d.messages@);
    lemma_chain_unlike(
        messages_xml(d.messages@),
        signals_xml(d.signals@),
        data_stores_xml(d.data_stores@),
        processes_xml(d.processes@),
        collaborations_xml(d.collaborations@),
        di,
        end,
    );
}

/// `t` holds no `c`.
pub open spec fn free_of(t: Seq<char>, c: char) -> bool {
    forall|k: int| 0 <= k < t.len() ==> t[k] != c
}

/// The start of a definitions document with the (escaped) texts `id`,
/// `name` and `doc`, in the form the writer gives it.
pub open spec fn header_text(id: Seq<char>, name: Option<Seq<char>>, doc: Option<Seq<char>>) -> Seq<char> {
    definitions_head() + id + "\" "@ + match name {
        Some(n) => name_head() + n + "\" "@,
        None => Seq::empty(),
    } + namespaces_text() + match doc {
        Some(x) => documentation_open() + x + "</documentation>\n"@,
        None => Seq::empty(),
    }
}

/// In `pre + t + post`, where `t` holds no `c` and `post` starts with it,
/// the first `c` after `pre` is where `post` starts.
proof fn lemma_first_after(pre: Seq<char>, t: Seq<char>, post: Seq<char>, c: char)
    requires
        post.len() > 0,
        post[0] == c,
        free_of(t, c),
    ensures
        first_at(pre + t + post, c, pre.len() as int) == Some(pre.len() as int + t.len() as int),
{
    let s = pre + t + post;
    assert forall|k: int| pre.len() <= k < pre.len() + t.len() implies s[k] != c by {
        assert(s[k] == t[k - pre.len()]);
    }
    let at: int = pre.len() as int + t.len() as int;
    assert(s[at] == post[0]);
    lemma_first_at(s, c, pre.len() as int, at);
}

proof fn lemma_escaped_free(t: Seq<char>)
    ensures
        free_of(escape_xml_spec(t), '"'),
        free_of(escape_xml_spec(t), '<'),
{
    lemma_escape_xml_has_no_markup(t);
}

/// The characters of the fixed pieces that reading tells apart.
proof fn lemma_pieces()
    ensures
        "\" "@.len() == 2 && "\" "@[0] == '"',
        name_head().len() == 6 && name_head()[0] == 'n',
        namespaces_text().len() > 0 && namespaces_text()[0] == 'x',
        documentation_open().len() == 17 && documentation_open()[0] == ' ' && documentation_open()[3] == 'd'
            && documentation_open()[4] == 'o',
        "</documentation>\n"@.len() == 17 && "</documentation>\n"@[0] == '<',
{
    reveal_strlit("\" ");
    reveal_strlit("name");
    reveal_strlit("=\"");
    reveal_strlit("xmlns=\"");
    reveal_strlit("  ");
    reveal_strlit("<documentation>");
    reveal_strlit("</documentation>\n");
    reveal(name_head);
    reveal(namespaces_text);
    reveal(documentation_open);
    assert(name_head()[0] == "name"@[0]);
    assert(namespaces_text()[0] == "xmlns=\""@[0]);
    assert(documentation_open()[0] == "  "@[0]);
    assert(documentation_open()[3] == "<documentation>"@[1]);
    assert(documentation_open()[4] == "<documentation>"@[2]);
}

proof fn lemma_quoted(pre: Seq<char>, t: Seq<char>, post: Seq<char>)
    requires
        free_of(t, '"'),
    ensures
        quoted_from(pre + t + ("\" "@ + post), pre.len() as int) == Some(
            (t, pre.len() as int + t.len() as int + 2),
        ),
        (pre + t + ("\" "@ + post)).skip(pre.len() as int + t.len() as int + 2) == post,
{
    reveal(quoted_from);
    lemma_pieces();
    let q = "\" "@;
    let s = pre + t + (q + post);
    lemma_first_after(pre, t, q + post, '"');
    let j: int = pre.len() as int + t.len() as int;
    assert(s.skip(j).subrange(0, 2) =~= q);
    assert(s.subrange(pre.len() as int, j) =~= t);
    assert(s.skip(j + 2) =~= post);
}

proof fn lemma_name_part(pre: Seq<char>, name: Option<Seq<char>>, post: Seq<char>)
    requires
        name matches Some(n) ==> free_of(n, '"'),
        name is None ==> post.len() > 0 && post[0] == 'x',
    ensures
        ({
            let name_t = match name {
                Some(n) => name_head() + n + "\" "@,
                None => Seq::empty(),
            };
            &&& name_part(pre + name_t + post, pre.len() as int) == Some((name, pre.len() as int + name_t.len() as int))
            &&& (pre + name_t + post).skip(pre.len() as int + name_t.len() as int) == post
        }),
{
    reveal(name_part);
    lemma_pieces();
    let q = "\" "@;
    match name {
        Some(n) => {
            let name_t = name_head() + n + q;
            let s = pre + name_t + post;
            let pre2 = pre + name_head();
            assert(s =~= pre2 + n + (q + post));
            assert(s.skip(pre.len() as int).subrange(0, name_head().len() as int) =~= name_head());
            lemma_quoted(pre2, n, post);
        },
        None => {
            let s = pre + Seq::<char>::empty() + post;
            assert(s.skip(pre.len() as int) =~= post);
            assert(!has_prefix(s.skip(pre.len() as int), name_head())) by {
                if has_prefix(s.skip(pre.len() as int), name_head()) {
                    assert(s.skip(pre.len() as int)[0] == name_head()[0]);
                }
            }
        },
    }
}

proof fn lemma_documentation_part(pre: Seq<char>, doc: Option<Seq<char>>, rest: Seq<char>)
    requires
        doc matches Some(x) ==> free_of(x, '<'),
        doc is None ==> unlike_documentation(rest),
    ensures
        ({
            let doc_t = match doc {
                Some(x) => documentation_open() + x + "</documentation>\n"@,
                None => Seq::empty(),
            };
            documentation_part(pre + doc_t + rest, pre.len() as int) == Some(doc)
        }),
{
    reveal(documentation_part);
    lemma_pieces();
    let close = "</documentation>\n"@;
    let m: int = pre.len() as int;
    match doc {
        Some(x) => {
            let s = pre + (documentation_open() + x + close) + rest;
            let start: int = m + documentation_open().len();
            assert(s.skip(m).subrange(0, documentation_open().len() as int) =~= documentation_open());
            let pre2 = pre + documentation_open();
            assert(s =~= pre2 + x + (close + rest));
            lemma_first_after(pre2, x, close + rest, '<');
            let x_end: int = start + x.len();
            assert(s.skip(x_end).subrange(0, close.len() as int) =~= close);
            assert(s.subrange(start, x_end) =~= x);
        },
        None => {
            let s = pre + Seq::<char>::empty() + rest;
            assert(s.skip(m) =~= rest);
            if has_prefix(s.skip(m), documentation_open()) {
                assert(s.skip(m)[0] == documentation_open()[0]);
                assert(s.skip(m)[3] == documentation_open()[3]);
                assert(s.skip(m)[4] == documentation_open()[4]);
            }
        },
    }
}

/// Reading a header the writer's way gives back its texts, provided the id
/// and name hold no `"`, the documentation no `<`, and, without
/// documentation, what follows cannot be taken for it.
#[verifier::spinoff_prover]
#[verifier::rlimit(40)]
proof fn lemma_header_of_parts(id: Seq<char>, name: Option<Seq<char>>, doc: Option<Seq<char>>, rest: Seq<char>)
    requires
        free_of(id, '"'),
        name matches Some(n) ==> free_of(n, '"'),
        doc matches Some(x) ==> free_of(x, '<'),
        doc is None ==> unlike_documentation(rest),
    ensures
        definitions_header(header_text(id, name, doc) + rest) == Some((id, name, doc)),
{
    lemma_pieces();
    let s = header_text(id, name, doc) + rest;
    let head = definitions_head();
    let q = "\" "@;
    let name_t = match name {
        Some(n) => name_head() + n + q,
        None => Seq::empty(),
    };
    let ns = namespaces_text();
    let doc_t = match doc {
        Some(x) => documentation_open() + x + "</documentation>\n"@,
        None => Seq::empty(),
    };
    let after_q = name_t + ns + doc_t + rest;
    assert(s =~= head + id + (q + after_q));
    assert(s.subrange(0, head.len() as int) =~= head);
    lemma_quoted(head, id, after_q);
    let i: int = head.len() as int + id.len() as int + 2;
    let pre_n = s.subrange(0, i);
    let after_n = ns + doc_t + rest;
    assert(s =~= pre_n + name_t + after_n);
    assert(after_n[0] == ns[0]);
    lemma_name_part(pre_n, name, after_n);
    let k: int = i + name_t.len();
    assert(s.skip(k).subrange(0, ns.len() as int) =~= ns);
    let m: int = k + ns.len();
    let pre_d = s.subrange(0, m);
    assert(s =~= pre_d + doc_t + rest);
    lemma_documentation_part(pre_d, doc, rest);
}

/// Reading the definitions element of a written document gives back the
/// escaped id, name and documentation of the diagram that was written.
pub proof fn lemma_header_of_written(d: BpmnDiagram)
    ensures
        definitions_header(definitions_xml(d)) == Some(
            (escape_xml_spec(d.id@), opt_escape(d.name), opt_escape(d.documentation)),
        ),
{
    lemma_rest_unlike(d);
    lemma_escaped_free(d.id@);
    match d.name {
        Some(n) => lemma_escaped_free(n@),
        None => {},
    }
    match d.documentation {
        Some(x) => lemma_escaped_free(x@),
        None => {},
    }
    lemma_header_of_parts(
        escape_xml_spec(d.id@),
        opt_escape(d.name),
        opt_escape(d.documentation),
        written_rest(d),
    );
}

/// A written document read back: the id, name and documentation of the
/// diagram that was written, decoded to exactly what they were.
pub proof fn lemma_read_back_written(d: BpmnDiagram)
    ensures
        definitions_header(definitions_xml(d)) matches Some((id, name, doc)) && unescape_xml_spec(id) == d.id@
            && opt_unescape(name) == crate::text::opt_view(d.name) && opt_unescape(doc)
            == crate::text::opt_view(d.documentation),
{
    lemma_header_of_written(d);
    lemma_unescape_escape(d.id@);
    match d.name {
        Some(n) => lemma_unescape_escape(n@),
        None => {},
    }
    match d.documentation {
        Some(x) => lemma_unescape_escape(x@),
        None => {},
    }
}

fn find_char(v: &Vec<char>, c: char, from: usize) -> (r: Option<usize>)
    requires
        from <= v.len(),
    ensures
        match r {
            Some(j) => first_at(v@, c, from as int) == Some(j as int) && from <= j < v.len(),
            None => first_at(v@, c, from as int) is None,
        },
{
    let mut i: usize = from;
    while i < v.len()
        invariant
            from <= i <= v.len(),
            first_at(v@, c, from as int) == first_at(v@, c, i as int),
        decreases v.len() - i,
    {
        if v[i] == c {
            return Some(i);
        }
        i = i + 1;
    }
    None
}

fn text_between(v: &Vec<char>, i: usize, j: usize) -> (r: String)
    requires
        i <= j <= v.len(),
    ensures
        r@ == v@.subrange(i as int, j as int),
{
    let mut r = String::new();
    let mut k: usize = i;
    while k < j
        invariant
            i <= k <= j,
            j <= v.len(),
            r@ == v@.subrange(i as int, k as int),
        decreases j - k,
    {
        r.push(v[k]);
        k = k + 1;
        assert(v@.subrange(i as int, k as int) =~= v@.subrange(i as int, k - 1).push(v@[k - 1]));
    }
    r
}

fn starts_at(v: &Vec<char>, i: usize, p: &Vec<char>) -> (r: bool)
    requires
        i <= v.len(),
    ensures
        r == has_prefix(v@.skip(i as int), p@),
{
    prefix_at(v, i, p.as_slice())
}

fn head_chars() -> (r: Vec<char>)
    ensures
        r@ == definitions_head(),
{
    let mut t = String::new();
    t.append("<?xml version=\"1.0\" encoding=\"UTF-8\"?>\n");
    t.append("<definitions ");
    t.append("id");
    t.append("=\"");
    proof {
        reveal(definitions_head);
        assert(t@ =~= definitions_head());
    }
    chars_of(t.as_str())
}

fn name_head_chars() -> (r: Vec<char>)
    ensures
        r@ == name_head(),
{
    let mut t = String::new();
    t.append("name");
    t.append("=\"");
    proof {
        reveal(name_head);
        assert(t@ =~= name_head());
    }
    chars_of(t.as_str())
}

fn namespaces_chars() -> (r: Vec<char>)
    ensures
        r@ == namespaces_text(),
{
    let mut t = String::new();
    t.append("xmlns=\"");
    t.append(BPMN2);
    t.append("\" ");
    t.append("xmlns:bpmndi=\"");
    t.append(BPMNDI);
    t.append("\" ");
    t.append("xmlns:dc=\"");
    t.append(DC);
    t.append("\" ");
    t.append("xmlns:di=\"");
    t.append(DI);
    t.append("\" ");
    t.append("xmlns:xsi=\"http://www.w3.org/2001/XMLSchema-instance\" ");
    t.append("xsi:schemaLocation=\"");
    t.append(BPMN2);
    t.append(" BPMN20.xsd");
    t.append("\">\n");
    proof {
        reveal(namespaces_text);
        assert(t@ =~= namespaces_text());
    }
    chars_of(t.as_str())
}

fn documentation_open_chars() -> (r: Vec<char>)
    ensures
        r@ == documentation_open(),
{
    let mut t = String::new();
    t.append("  ");
    t.append("<documentation>");
    proof {
        reveal(documentation_open);
        assert(t@ =~= documentation_open());
    }
    chars_of(t.as_str())
}

fn read_quoted(v: &Vec<char>, i: usize) -> (r: Option<(String, usize)>)
    requires
        i <= v.len(),
    ensures
        match quoted_from(v@, i as int) {
            Some((t, k)) => r matches Some((s, k2)) && s@ == t && k2 == k && k <= v@.len(),
            None => r is None,
        },
{
    proof {
        reveal(quoted_from);
    }
    match find_char(v, '"', i) {
        Some(j) => {
            let close = chars_of("\" ");
            if starts_at(v, j, &close) {
                proof {
                    reveal_strlit("\" ");
                }
                Some((text_between(v, i, j), j + 2))
            } else {
                None
            }
        },
        None => None,
    }
}

fn read_name(v: &Vec<char>, i: usize) -> (r: Option<(Option<String>, usize)>)
    requires
        i <= v.len(),
    ensures
        match name_part(v@, i as int) {
            Some((n, k)) => r matches Some((m, k2)) && opt_view(m) == n && k2 == k && k <= v@.len(),
            None => r is None,
        },
{
    proof {
        reveal(name_part);
    }
    let head = name_head_chars();
    if starts_at(v, i, &head) {
        match read_quoted(v, i + head.len()) {
            Some((n, k)) => Some((Some(n), k)),
            None => None,
        }
    } else {
        Some((None, i))
    }
}

fn read_documentation(v: &Vec<char>, m: usize) -> (r: Option<Option<String>>)
    requires
        m <= v.len(),
    ensures
        match documentation_part(v@, m as int) {
            Some(d) => r matches Some(e) && opt_view(e) == d,
            None => r is None,
        },
{
    proof {
        reveal(documentation_part);
    }
    let open = documentation_open_chars();
    if starts_at(v, m, &open) {
        let start = m + open.len();
        match find_char(v, '<', start) {
            Some(e) => {
                let close = chars_of("</documentation>\n");
                if starts_at(v, e, &close) {
                    Some(Some(text_between(v, start, e)))
                } else {
                    None
                }
            },
            None => None,
        }
    } else {
        Some(None)
    }
}

/// The escaped id, name and documentation texts of the definitions element
/// that `xml` starts with, as `definitions_header` reads them.
pub fn read_definitions_header(xml: &str) -> (r: Option<(String, Option<String>, Option<String>)>)
    ensures
        match definitions_header(xml@) {
            Some((id, name, doc)) => r matches Some((a, b, c)) && a@ == id && opt_view(b) == name && opt_view(c)
                == doc,
            None => r is None,
        },
{
    let v = chars_of(xml);
    let head = head_chars();
    if !starts_at(&v, 0, &head) {
        assert(v@.skip(0) =~= v@);
        return None;
    }
    assert(v@.skip(0) =~= v@);
    let (id, i) = match read_quoted(&v, head.len()) {
        Some(x) => x,
        None => return None,
    };
    let (name, k) = match read_name(&v, i) {
        Some(x) => x,
        None => return None,
    };
    let ns = namespaces_chars();
    if !starts_at(&v, k, &ns) {
        return None;
    }
    let doc = match read_documentation(&v, k + ns.len()) {
        Some(d) => d,
        None => return None,
    };
    Some((id, name, doc))
}

} // verus!
