//! Security classifications, caveats and the markings built from them.
use vstd::prelude::*;
use std::collections::HashMap;
use crate::text::{concat2, joined, join_strings, owned, strings_view};

verus! {

/// Security classification levels, from least to most restricted.
#[derive(Debug, Clone, PartialEq, Eq, PartialOrd, Ord)]
pub enum Classification {
    Unclassified,
    /// Controlled Unclassified Information.
    CUI,
    /// For Official Use Only.
    FOUO,
    Confidential,
    Secret,
    TopSecret,
    /// Special Access Program.
    SAP { program_name: String },
}

/// The marking text of a classification.
pub open spec fn classification_text(c: Classification) -> Seq<char> {
    match c {
        Classification::Unclassified => "UNCLASSIFIED"@,
        Classification::CUI => "CUI"@,
        Classification::FOUO => "FOUO"@,
        Classification::Confidential => "CONFIDENTIAL"@,
        Classification::Secret => "SECRET"@,
        Classification::TopSecret => "TOP SECRET"@,
        Classification::SAP { .. } => "TOP SECRET//SAP"@,
    }
}

impl Classification {
    /// The marking text of this classification.
    pub fn as_str(&self) -> (r: &str)
        ensures
            r@ == classification_text(*self),
    {
        match self {
            Classification::Unclassified => "UNCLASSIFIED",
            Classification::CUI => "CUI",
            Classification::FOUO => "FOUO",
            Classification::Confidential => "CONFIDENTIAL",
            Classification::Secret => "SECRET",
            Classification::TopSecret => "TOP SECRET",
            Classification::SAP { .. } => "TOP SECRET//SAP",
        }
    }

    /// Every level but Unclassified and FOUO must be encrypted.
    pub fn requires_encryption(&self) -> (r: bool)
        ensures
            r == !(*self is Unclassified || *self is FOUO),
    {
        match self {
            Classification::Unclassified | Classification::FOUO => false,
            _ => true,
        }
    }
}

/// Security caveats and compartments.
#[derive(Debug, Clone, PartialEq, Eq)]
pub enum Caveat {
    /// Not releasable to foreign nationals.
    NOFORN,
    /// Releasable to the listed countries.
    REL(Vec<String>),
    EYES,
    /// Originator controlled.
    ORCON,
    /// No contractor.
    NOCON,
    /// Proprietary information.
    PROPIN,
    /// Personally identifiable information.
    PII,
    /// Special access required.
    SAR(String),
    /// Sensitive compartmented information.
    SCI(String),
    Custom(String),
}

/// The marking text of a caveat.
pub open spec fn caveat_text(c: Caveat) -> Seq<char> {
    match c {
        Caveat::NOFORN => "NOFORN"@,
        Caveat::REL(countries) => "REL TO "@ + joined(strings_view(countries@), ", "@),
        Caveat::EYES => "EYES ONLY"@,
        Caveat::ORCON => "ORCON"@,
        Caveat::NOCON => "NOCON"@,
        Caveat::PROPIN => "PROPIN"@,
        Caveat::PII => "PII"@,
        Caveat::SAR(name) => "SAR-"@ + name@,
        Caveat::SCI(compartment) => "SCI/"@ + compartment@,
        Caveat::Custom(s) => s@,
    }
}

impl Caveat {
    /// The marking text of this caveat.
    pub fn as_str(&self) -> (r: String)
        ensures
            r@ == caveat_text(*self),
    {
        match self {
            Caveat::NOFORN => owned("NOFORN"),
            Caveat::REL(countries) => {
                let list = join_strings(countries, ", ");
                concat2("REL TO ", list.as_str())
            },
            Caveat::EYES => owned("EYES ONLY"),
            Caveat::ORCON => owned("ORCON"),
            Caveat::NOCON => owned("NOCON"),
            Caveat::PROPIN => owned("PROPIN"),
            Caveat::PII => owned("PII"),
            Caveat::SAR(name) => concat2("SAR-", name.as_str()),
            Caveat::SCI(compartment) => concat2("SCI/", compartment.as_str()),
            Caveat::Custom(s) => owned(s.as_str()),
        }
    }
}

/// Declassification instructions.
#[derive(Debug, Clone, PartialEq)]
pub struct DeclassificationInfo {
    pub declassify_on: Option<chrono::NaiveDate>,
    pub declassify_event: Option<String>,
    /// Exemption from automatic declassification.
    pub exemption: Option<String>,
    pub downgrade_to: Option<Classification>,
    pub downgrade_on: Option<chrono::NaiveDate>,
}

/// A security domain and its handling rules.
#[derive(Debug, Clone)]
pub struct SecurityDomain {
    pub id: String,
    pub name: String,
    pub classification: Classification,
    pub allowed_caveats: Vec<Caveat>,
    pub encryption_required: bool,
    pub access_control_policy: String,
}

/// The security marking of one workflow element.
#[derive(Debug, Clone, PartialEq)]
pub struct SecurityMarking {
    pub element_id: String,
    pub element_type: String,
    pub classification: Classification,
    pub caveats: Vec<Caveat>,
    pub handling_instructions: Vec<String>,
    pub declassification: Option<DeclassificationInfo>,
    pub metadata: HashMap<String, String>,
}

/// The caveat texts of a list of caveats.
pub open spec fn caveat_texts(cs: Seq<Caveat>) -> Seq<Seq<char>> {
    cs.map_values(|c: Caveat| caveat_text(c))
}

/// The full marking: the classification, then `//` and the caveats joined by `/` if there are any.
pub open spec fn marking_text(m: SecurityMarking) -> Seq<char> {
    if m.caveats@.len() == 0 {
        classification_text(m.classification)
    } else {
        classification_text(m.classification) + "//"@ + joined(caveat_texts(m.caveats@), "/"@)
    }
}

impl SecurityMarking {
    /// The full classification marking, such as `SECRET//NOFORN/ORCON`.
    pub fn marking_string(&self) -> (r: String)
        ensures
            r@ == marking_text(*self),
    {
        let mut r = owned(self.classification.as_str());
        if self.caveats.len() > 0 {
            r.append("//");
            let mut i: usize = 0;
            while i < self.caveats.len()
                invariant
                    i <= self.caveats.len(),
                    self.caveats.len() > 0,
                    r@ == classification_text(self.classification) + "//"@ + joined(
                        caveat_texts(self.caveats@).take(i as int),
                        "/"@,
                    ),
                decreases self.caveats.len() - i,
            {
                let ghost before = r@;
                assert(caveat_texts(self.caveats@).take(i + 1).drop_last() =~= caveat_texts(self.caveats@).take(
                    i as int,
                ));
                assert(caveat_texts(self.caveats@).take(i + 1).last() == caveat_text(self.caveats@[i as int]));
                if i > 0 {
                    r.append("/");
                } else {
                    assert(joined(caveat_texts(self.caveats@).take(0), "/"@) =~= Seq::<char>::empty());
                }
                let text = self.caveats[i].as_str();
                r.append(text.as_str());
                proof {
                    if i == 0 {
                        assert(r@ =~= classification_text(self.classification) + "//"@ + joined(
                            caveat_texts(self.caveats@).take(1),
                            "/"@,
                        ));
                    } else {
                        assert(r@ =~= classification_text(self.classification) + "//"@ + joined(
                            caveat_texts(self.caveats@).take(i + 1),
                            "/"@,
                        ));
                    }
                }
                i = i + 1;
            }
            assert(caveat_texts(self.caveats@).take(self.caveats.len() as int) =~= caveat_texts(self.caveats@));
        }
        r
    }

    /// Release to foreign nationals is allowed unless a caveat is NOFORN.
    pub fn allows_foreign_release(&self) -> (r: bool)
        ensures
            r == !(exists|i: int| 0 <= i < self.caveats@.len() && #[trigger] self.caveats@[i] is NOFORN),
    {
        let mut i: usize = 0;
        while i < self.caveats.len()
            invariant
                i <= self.caveats.len(),
                forall|k: int| 0 <= k < i ==> !(#[trigger] self.caveats@[k] is NOFORN),
            decreases self.caveats.len() - i,
        {
            if let Caveat::NOFORN = &self.caveats[i] {
                assert(self.caveats@[i as int] is NOFORN);
                return false;
            }
            i = i + 1;
        }
        true
    }

    /// Special access is needed when a caveat is SAR or SCI.
    pub fn requires_special_access(&self) -> (r: bool)
        ensures
            r == exists|i: int| 0 <= i < self.caveats@.len() && (#[trigger] self.caveats@[i] is SAR || self.caveats@[i] is SCI),
    {
        let mut i: usize = 0;
        while i < self.caveats.len()
            invariant
                i <= self.caveats.len(),
                forall|k: int| 0 <= k < i ==> !(#[trigger] self.caveats@[k] is SAR || self.caveats@[k] is SCI),
            decreases self.caveats.len() - i,
        {
            match &self.caveats[i] {
                Caveat::SAR(_) | Caveat::SCI(_) => {
                    assert(self.caveats@[i as int] is SAR || self.caveats@[i as int] is SCI);
                    return true;
                },
                _ => {},
            }
            i = i + 1;
        }
        false
    }
}

/// Builds a security marking step by step.
pub struct SecurityMarkingBuilder {
    marking: SecurityMarking,
}

impl SecurityMarkingBuilder {
    /// The marking being built.
    pub closed spec fn spec_marking(&self) -> SecurityMarking {
        self.marking
    }

    /// An unclassified marking of the element, with no caveats, instructions or metadata.
    pub fn new(element_id: &str, element_type: &str) -> (b: Self)
        ensures
            b.spec_marking().element_id@ == element_id@,
            b.spec_marking().element_type@ == element_type@,
            b.spec_marking().classification is Unclassified,
            b.spec_marking().caveats@.len() == 0,
            b.spec_marking().handling_instructions@.len() == 0,
            b.spec_marking().declassification is None,
            b.spec_marking().metadata@.len() == 0,
    {
        SecurityMarkingBuilder {
            marking: SecurityMarking {
                element_id: owned(element_id),
                element_type: owned(element_type),
                classification: Classification::Unclassified,
                caveats: Vec::new(),
                handling_instructions: Vec::new(),
                declassification: None,
                metadata: HashMap::new(),
            },
        }
    }

    /// Set the classification.
    pub fn classification(self, classification: Classification) -> (b: Self)
        ensures
            b.spec_marking() == (SecurityMarking { classification, ..self.spec_marking() }),
    {
        let mut m = self.marking;
        m.classification = classification;
        SecurityMarkingBuilder { marking: m }
    }

    /// Add a caveat after those already given.
    pub fn caveat(self, caveat: Caveat) -> (b: Self)
        ensures
            b.spec_marking().caveats@ == self.spec_marking().caveats@.push(caveat),
            b.spec_marking() == (SecurityMarking { caveats: b.spec_marking().caveats, ..self.spec_marking() }),
    {
        let mut m = self.marking;
        m.caveats.push(caveat);
        SecurityMarkingBuilder { marking: m }
    }

    /// Add a handling instruction.
    pub fn handling(self, instruction: &str) -> (b: Self)
        ensures
            strings_view(b.spec_marking().handling_instructions@) == strings_view(
                self.spec_marking().handling_instructions@,
            ).push(instruction@),
            b.spec_marking() == (SecurityMarking {
                handling_instructions: b.spec_marking().handling_instructions,
                ..self.spec_marking()
            }),
    {
        let mut m = self.marking;
        m.handling_instructions.push(owned(instruction));
        proof {
            assert(strings_view(m.handling_instructions@) =~= strings_view(
                self.spec_marking().handling_instructions@,
            ).push(instruction@));
        }
        SecurityMarkingBuilder { marking: m }
    }

    /// Set the declassification instructions.
    pub fn declassification(self, info: DeclassificationInfo) -> (b: Self)
        ensures
            b.spec_marking() == (SecurityMarking { declassification: Some(info), ..self.spec_marking() }),
    {
        let mut m = self.marking;
        m.declassification = Some(info);
        SecurityMarkingBuilder { marking: m }
    }

    /// The marking.
    pub fn build(self) -> (m: SecurityMarking)
        ensures
            m == self.spec_marking(),
    {
        self.marking
    }
}


/// The marking text of a classification names its level, in capitals:
/// `UNCLASSIFIED`, `CUI`, `FOUO`, `CONFIDENTIAL`, `SECRET`, `TOP SECRET`,
/// and a special access program is marked `TOP SECRET//SAP`.
pub proof fn lemma_classification_names_its_level(c: Classification)
    ensures
        c is Unclassified ==> classification_text(c) =~= seq!['U', 'N', 'C', 'L', 'A', 'S', 'S', 'I', 'F', 'I', 'E', 'D'],
        c is CUI ==> classification_text(c) =~= seq!['C', 'U', 'I'],
        c is FOUO ==> classification_text(c) =~= seq!['F', 'O', 'U', 'O'],
        c is Confidential ==> classification_text(c) =~= seq!['C', 'O', 'N', 'F', 'I', 'D', 'E', 'N', 'T', 'I', 'A', 'L'],
        c is Secret ==> classification_text(c) =~= seq!['S', 'E', 'C', 'R', 'E', 'T'],
        c is TopSecret ==> classification_text(c) =~= seq!['T', 'O', 'P', ' ', 'S', 'E', 'C', 'R', 'E', 'T'],
        c is SAP ==> classification_text(c) =~= seq![
            'T', 'O', 'P', ' ', 'S', 'E', 'C', 'R', 'E', 'T', '/', '/', 'S', 'A', 'P',
        ],
{
    reveal_strlit("UNCLASSIFIED");
    reveal_strlit("CUI");
    reveal_strlit("FOUO");
    reveal_strlit("CONFIDENTIAL");
    reveal_strlit("SECRET");
    reveal_strlit("TOP SECRET");
    reveal_strlit("TOP SECRET//SAP");
}

/// Different classification levels are never marked alike: two
/// classifications with the same marking text are the same level (only two
/// special access programs, whatever their names, share one).
pub proof fn lemma_classification_text_injective(a: Classification, b: Classification)
    requires
        classification_text(a) == classification_text(b),
    ensures
        a is Unclassified <==> b is Unclassified,
        a is CUI <==> b is CUI,
        a is FOUO <==> b is FOUO,
        a is Confidential <==> b is Confidential,
        a is Secret <==> b is Secret,
        a is TopSecret <==> b is TopSecret,
        a is SAP <==> b is SAP,
{
    lemma_classification_names_its_level(a);
    lemma_classification_names_its_level(b);
    let t = classification_text(a);
    if t.len() == 12 {
        assert(t[0] == 'U' || t[0] == 'C');
    }
    if t.len() == 3 || t.len() == 4 || t.len() == 6 || t.len() == 10 || t.len() == 15 {
        assert(t[0] == classification_text(b)[0]);
    }
}

/// Two markings with the same caveats but different classification levels
/// have different marking texts, and every marking text starts with the text
/// of its classification.
pub proof fn lemma_marking_distinguishes_levels(m1: SecurityMarking, m2: SecurityMarking)
    requires
        caveat_texts(m1.caveats@) == caveat_texts(m2.caveats@),
        m1.caveats@.len() == m2.caveats@.len(),
        !(m1.classification is SAP && m2.classification is SAP),
        m1.classification != m2.classification,
    ensures
        marking_text(m1) != marking_text(m2),
        marking_text(m1).subrange(0, classification_text(m1.classification).len() as int) == classification_text(
            m1.classification,
        ),
{
    let t1 = classification_text(m1.classification);
    let t2 = classification_text(m2.classification);
    assert(t1 != t2) by {
        if t1 == t2 {
            lemma_classification_text_injective(m1.classification, m2.classification);
        }
    }
    if m1.caveats@.len() == 0 {
        assert(marking_text(m1).subrange(0, t1.len() as int) =~= t1);
    } else {
        let rest = "//"@ + joined(caveat_texts(m1.caveats@), "/"@);
        assert(marking_text(m1) =~= t1 + rest);
        assert(marking_text(m2) =~= t2 + rest);
        assert(marking_text(m1).subrange(0, t1.len() as int) =~= t1);
        if marking_text(m1) == marking_text(m2) {
            assert(t1.len() == t2.len());
            assert(t1 =~= (t1 + rest).subrange(0, t1.len() as int));
            assert(t2 =~= (t2 + rest).subrange(0, t2.len() as int));
        }
    }
}

} // verus!
