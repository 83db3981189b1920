//! OV-3 information exchanges: the information elements exchanged and how.
use vstd::prelude::*;
use crate::text::{opt_view, owned};

verus! {

/// An information element exchanged between nodes.
#[derive(Debug, Clone)]
pub struct InformationElement {
    pub id: String,
    pub name: String,
    pub description: Option<String>,
    pub information_type: InformationType,
    pub creator: Option<String>,
    pub consumer: Option<String>,
}

/// The kind of an information element.
#[derive(Debug, Clone, PartialEq, Eq)]
pub enum InformationType {
    Data,
    Signal,
    Document,
    Message,
    Command,
    Report,
    Custom(String),
}

/// How critical an exchange is.
#[derive(Debug, Clone, Copy, PartialEq, Eq, Structural)]
pub enum Criticality {
    Critical,
    Essential,
    Important,
    Desirable,
}

/// The medium of an exchange.
#[derive(Debug, Clone, PartialEq, Eq)]
pub enum ExchangeMedia {
    Electronic,
    Voice,
    Physical,
    VisualContact,
    Automated,
    Custom(String),
}

/// Levels of information systems interoperability, from isolated to enterprise.
#[derive(Debug, Clone, Copy, PartialEq, Eq, PartialOrd, Ord, Structural)]
pub enum InteroperabilityLevel {
    /// Isolated: no interoperability.
    Level0,
    /// Connected: peer to peer.
    Level1,
    /// Functional: distributed.
    Level2,
    /// Domain: integrated.
    Level3,
    /// Enterprise: universal.
    Level4,
}

impl InformationElement {
    /// An information element with no description, creator or consumer.
    pub fn new(id: &str, name: &str, info_type: InformationType) -> (r: Self)
        ensures
            r.id@ == id@,
            r.name@ == name@,
            r.description is None,
            r.information_type == info_type,
            r.creator is None,
            r.consumer is None,
    {
        InformationElement {
            id: owned(id),
            name: owned(name),
            description: None,
            information_type: info_type,
            creator: None,
            consumer: None,
        }
    }

    /// Set the description.
    pub fn with_description(self, desc: &str) -> (r: Self)
        ensures
            opt_view(r.description) == Some(desc@),
            r == (InformationElement { description: r.description, ..self }),
    {
        let mut s = self;
        s.description = Some(owned(desc));
        s
    }

    /// Set the creator.
    pub fn with_creator(self, creator: &str) -> (r: Self)
        ensures
            opt_view(r.creator) == Some(creator@),
            r == (InformationElement { creator: r.creator, ..self }),
    {
        let mut s = self;
        s.creator = Some(owned(creator));
        s
    }

    /// Set the consumer.
    pub fn with_consumer(self, consumer: &str) -> (r: Self)
        ensures
            opt_view(r.consumer) == Some(consumer@),
            r == (InformationElement { consumer: r.consumer, ..self }),
    {
        let mut s = self;
        s.consumer = Some(owned(consumer));
        s
    }
}


/// Add `name` to the row or column headers of an exchange matrix, at the
/// end, unless a header with that text is there already.
pub fn add_header(headers: &mut Vec<String>, name: &str)
    ensures
        crate::text::strings_view(old(headers)@).contains(name@) ==> final(headers)@ == old(headers)@,
        !crate::text::strings_view(old(headers)@).contains(name@) ==> crate::text::strings_view(final(headers)@)
            == crate::text::strings_view(old(headers)@).push(name@),
{
    let mut i: usize = 0;
    while i < headers.len()
        invariant
            i <= headers@.len(),
            forall|k: int| 0 <= k < i ==> (#[trigger] headers@[k])@ != name@,
        decreases headers@.len() - i,
    {
        if crate::text::str_eq(headers[i].as_str(), name) {
            proof {
                assert(crate::text::strings_view(headers@)[i as int] == name@);
            }
            return;
        }
        i = i + 1;
    }
    let ghost before = headers@;
    headers.push(owned(name));
    proof {
        assert(!crate::text::strings_view(before).contains(name@)) by {
            if crate::text::strings_view(before).contains(name@) {
                let k = choose|k: int| 0 <= k < before.len() && crate::text::strings_view(before)[k] == name@;
                assert(before[k]@ == name@);
            }
        }
        assert(crate::text::strings_view(headers@) =~= crate::text::strings_view(before).push(name@));
    }
}

} // verus!
