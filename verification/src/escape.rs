//! XML and HTML escaping of text, and the inverse of XML escaping.
use vstd::prelude::*;
use crate::text::chars_of;

verus! {

/// The XML entity text that stands for `c` (or `c` itself).
pub open spec fn xml_entity(c: char) -> Seq<char> {
    if c == '&' {
        seq!['&', 'a', 'm', 'p', ';']
    } else if c == '<' {
        seq!['&', 'l', 't', ';']
    } else if c == '>' {
        seq!['&', 'g', 't', ';']
    } else if c == '"' {
        seq!['&', 'q', 'u', 'o', 't', ';']
    } else if c == '\'' {
        seq!['&', 'a', 'p', 'o', 's', ';']
    } else {
        seq![c]
    }
}

/// `s` with each of `& < > " '` replaced by its XML entity.
pub open spec fn escape_xml_spec(s: Seq<char>) -> Seq<char>
    decreases s.len(),
{
    if s.len() == 0 {
        Seq::empty()
    } else {
        xml_entity(s[0]) + escape_xml_spec(s.drop_first())
    }
}

/// The HTML entity text that stands for `c` (or `c` itself).
pub open spec fn html_entity(c: char) -> Seq<char> {
    if c == '\'' {
        seq!['&', '#', '3', '9', ';']
    } else {
        xml_entity(c)
    }
}

/// `s` with each of `& < > " '` replaced by its HTML entity.
pub open spec fn html_escape_spec(s: Seq<char>) -> Seq<char>
    decreases s.len(),
{
    if s.len() == 0 {
        Seq::empty()
    } else {
        html_entity(s[0]) + html_escape_spec(s.drop_first())
    }
}

/// `p` is a prefix of `s`.
pub open spec fn has_prefix(s: Seq<char>, p: Seq<char>) -> bool {
    p.len() <= s.len() && s.subrange(0, p.len() as int) == p
}

/// Decoding of the five predefined XML entities, scanning left to right.
pub open spec fn unescape_xml_spec(s: Seq<char>) -> Seq<char>
    decreases s.len(),
{
    if s.len() == 0 {
        Seq::empty()
    } else if has_prefix(s, seq!['&', 'q', 'u', 'o', 't', ';']) {
        seq!['"'] + unescape_xml_spec(s.skip(6))
    } else if has_prefix(s, seq!['&', 'a', 'p', 'o', 's', ';']) {
        seq!['\''] + unescape_xml_spec(s.skip(6))
    } else if has_prefix(s, seq!['&', 'l', 't', ';']) {
        seq!['<'] + unescape_xml_spec(s.skip(4))
    } else if has_prefix(s, seq!['&', 'g', 't', ';']) {
        seq!['>'] + unescape_xml_spec(s.skip(4))
    } else if has_prefix(s, seq!['&', 'a', 'm', 'p', ';']) {
        seq!['&'] + unescape_xml_spec(s.skip(5))
    } else {
        seq![s[0]] + unescape_xml_spec(s.skip(1))
    }
}

fn push_all(out: &mut String, v: &[char])
    ensures
        final(out)@ == old(out)@ + v@,
{
    let mut i: usize = 0;
    while i < v.len()
        invariant
            i <= v.len(),
            out@ == old(out)@ + v@.take(i as int),
        decreases v.len() - i,
    {
        out.push(v[i]);
        i = i + 1;
        assert(v@.take(i as int) == v@.take(i - 1).push(v@[i - 1]));
    }
    assert(v@.take(v.len() as int) == v@);
}

fn push_xml_entity(out: &mut String, c: char)
    ensures
        final(out)@ == old(out)@ + xml_entity(c),
{
    if c == '&' {
        push_all(out, &['&', 'a', 'm', 'p', ';']);
    } else if c == '<' {
        push_all(out, &['&', 'l', 't', ';']);
    } else if c == '>' {
        push_all(out, &['&', 'g', 't', ';']);
    } else if c == '"' {
        push_all(out, &['&', 'q', 'u', 'o', 't', ';']);
    } else if c == '\'' {
        push_all(out, &['&', 'a', 'p', 'o', 's', ';']);
    } else {
        out.push(c);
        assert(old(out)@.push(c) == old(out)@ + seq![c]);
    }
}

/// Escape the XML special characters `& < > " '` of `text`.
pub fn escape_xml(text: &str) -> (r: String)
    ensures
        r@ == escape_xml_spec(text@),
{
    let v = chars_of(text);
    let mut out = String::new();
    let mut i: usize = 0;
    assert(text@.skip(0) =~= text@);
    assert(out@ + escape_xml_spec(text@) =~= escape_xml_spec(text@));
    while i < v.len()
        invariant
            i <= v.len(),
            v@ == text@,
            escape_xml_spec(text@) == out@ + escape_xml_spec(text@.skip(i as int)),
        decreases v.len() - i,
    {
        let ghost before = out@;
        assert(text@.skip(i as int).drop_first() == text@.skip(i + 1));
        push_xml_entity(&mut out, v[i]);
        i = i + 1;
        assert(out@ + escape_xml_spec(text@.skip(i as int)) == before + (xml_entity(text@[i - 1])
            + escape_xml_spec(text@.skip(i as int))));
    }
    assert(text@.skip(v.len() as int).len() == 0);
    out
}

/// Escape the HTML special characters `& < > " '` of `text`.
pub fn html_escape(text: &str) -> (r: String)
    ensures
        r@ == html_escape_spec(text@),
{
    let v = chars_of(text);
    let mut out = String::new();
    let mut i: usize = 0;
    assert(text@.skip(0) =~= text@);
    assert(out@ + html_escape_spec(text@) =~= html_escape_spec(text@));
    while i < v.len()
        invariant
            i <= v.len(),
            v@ == text@,
            html_escape_spec(text@) == out@ + html_escape_spec(text@.skip(i as int)),
        decreases v.len() - i,
    {
        let ghost before = out@;
        assert(text@.skip(i as int).drop_first() == text@.skip(i + 1));
        let c = v[i];
        if c == '\'' {
            push_all(&mut out, &['&', '#', '3', '9', ';']);
        } else {
            push_xml_entity(&mut out, c);
        }
        i = i + 1;
        assert(out@ + html_escape_spec(text@.skip(i as int)) == before + (html_entity(text@[i - 1])
            + html_escape_spec(text@.skip(i as int))));
    }
    assert(text@.skip(v.len() as int).len() == 0);
    out
}

pub(crate) fn prefix_at(v: &Vec<char>, i: usize, p: &[char]) -> (r: bool)
    requires
        i <= v.len(),
    ensures
        r == has_prefix(v@.skip(i as int), p@),
{
    if p.len() > v.len() - i {
        return false;
    }
    let mut k: usize = 0;
    while k < p.len()
        invariant
            k <= p.len(),
            i + p.len() <= v.len(),
            forall|j: int| 0 <= j < k ==> v@[i + j] == p@[j],
        decreases p.len() - k,
    {
        if v[i + k] != p[k] {
            assert(v@.skip(i as int).subrange(0, p@.len() as int)[k as int] != p@[k as int]);
            return false;
        }
        k = k + 1;
    }
    assert(v@.skip(i as int).subrange(0, p@.len() as int) =~= p@);
    true
}

/// Decode the five predefined XML entities of `text`.
pub fn unescape_xml(text: &str) -> (r: String)
    ensures
        r@ == unescape_xml_spec(text@),
{
    let v = chars_of(text);
    let mut out = String::new();
    let mut i: usize = 0;
    assert(text@.skip(0) =~= text@);
    assert(out@ + unescape_xml_spec(text@) =~= unescape_xml_spec(text@));
    while i < v.len()
        invariant
            i <= v.len(),
            v@ == text@,
            unescape_xml_spec(text@) == out@ + unescape_xml_spec(text@.skip(i as int)),
        decreases v.len() - i,
    {
        let ghost rest = text@.skip(i as int);
        let ghost before = out@;
        let (ch, n): (char, usize) = if prefix_at(&v, i, &['&', 'q', 'u', 'o', 't', ';']) {
            ('"', 6)
        } else if prefix_at(&v, i, &['&', 'a', 'p', 'o', 's', ';']) {
            ('\'', 6)
        } else if prefix_at(&v, i, &['&', 'l', 't', ';']) {
            ('<', 4)
        } else if prefix_at(&v, i, &['&', 'g', 't', ';']) {
            ('>', 4)
        } else if prefix_at(&v, i, &['&', 'a', 'm', 'p', ';']) {
            ('&', 5)
        } else {
            (v[i], 1)
        };
        out.push(ch);
        assert(rest.skip(n as int) == text@.skip(i + n));
        assert(unescape_xml_spec(rest) == seq![ch] + unescape_xml_spec(rest.skip(n as int)));
        i = i + n;
        assert(before.push(ch) == before + seq![ch]);
    }
    assert(text@.skip(i as int).len() == 0);
    out
}

proof fn lemma_unescape_entity(c: char, rest: Seq<char>)
    ensures
        unescape_xml_spec(xml_entity(c) + rest) == seq![c] + unescape_xml_spec(rest),
{
    let s = xml_entity(c) + rest;
    let e = xml_entity(c);
    assert(s.skip(e.len() as int) == rest);
    assert(s[0] == e[0]);
    if e.len() > 1 {
        assert(s[1] == e[1]);
        assert(s[2] == e[2]);
        assert(s[3] == e[3]);
    }
    if e.len() > 4 {
        assert(s[4] == e[4]);
    }
    if e.len() > 5 {
        assert(s[5] == e[5]);
    }
    if c == '&' {
        assert(!has_prefix(s, seq!['&', 'q', 'u', 'o', 't', ';']));
        assert(!has_prefix(s, seq!['&', 'a', 'p', 'o', 's', ';']));
        assert(!has_prefix(s, seq!['&', 'l', 't', ';']));
        assert(!has_prefix(s, seq!['&', 'g', 't', ';']));
        assert(s.subrange(0, 5) =~= e);
    } else if c == '<' {
        assert(!has_prefix(s, seq!['&', 'q', 'u', 'o', 't', ';']));
        assert(!has_prefix(s, seq!['&', 'a', 'p', 'o', 's', ';']));
        assert(s.subrange(0, 4) =~= e);
    } else if c == '>' {
        assert(!has_prefix(s, seq!['&', 'q', 'u', 'o', 't', ';']));
        assert(!has_prefix(s, seq!['&', 'a', 'p', 'o', 's', ';']));
        assert(!has_prefix(s, seq!['&', 'l', 't', ';']));
        assert(s.subrange(0, 4) =~= e);
    } else if c == '"' {
        assert(s.subrange(0, 6) =~= e);
    } else if c == '\'' {
        assert(!has_prefix(s, seq!['&', 'q', 'u', 'o', 't', ';']));
        assert(s.subrange(0, 6) =~= e);
    } else {
        assert(!has_prefix(s, seq!['&', 'q', 'u', 'o', 't', ';']));
        assert(!has_prefix(s, seq!['&', 'a', 'p', 'o', 's', ';']));
        assert(!has_prefix(s, seq!['&', 'l', 't', ';']));
        assert(!has_prefix(s, seq!['&', 'g', 't', ';']));
        assert(!has_prefix(s, seq!['&', 'a', 'm', 'p', ';']));
    }
}

/// Decoding what XML escaping produced gives back the text that was escaped.
pub proof fn lemma_unescape_escape(s: Seq<char>)
    ensures
        unescape_xml_spec(escape_xml_spec(s)) == s,
    decreases s.len(),
{
    if s.len() > 0 {
        lemma_unescape_escape(s.drop_first());
        lemma_unescape_entity(s[0], escape_xml_spec(s.drop_first()));
        assert(seq![s[0]] + s.drop_first() == s);
    }
}

/// Escaped XML text holds no `<`, `>`, `"` or `'` character.
pub proof fn lemma_escape_xml_has_no_markup(s: Seq<char>)
    ensures
        forall|i: int|
            0 <= i < escape_xml_spec(s).len() ==> {
                let c = #[trigger] escape_xml_spec(s)[i];
                c != '<' && c != '>' && c != '"' && c != '\''
            },
    decreases s.len(),
{
    if s.len() > 0 {
        lemma_escape_xml_has_no_markup(s.drop_first());
        let e = xml_entity(s[0]);
        let r = escape_xml_spec(s.drop_first());
        assert forall|i: int| 0 <= i < (e + r).len() implies {
            let c = #[trigger] (e + r)[i];
            c != '<' && c != '>' && c != '"' && c != '\''
        } by {
            if i >= e.len() {
                assert((e + r)[i] == r[i - e.len()]);
            }
        }
    }
}

} // verus!
