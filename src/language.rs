//! Which counter an edit of a document goes to.
use vstd::prelude::*;
use vstd::string::StringExecFns;

verus! {

/// A document's language settings, as far as statistics need them.
#[derive(Debug)]
pub struct LanguageConfiguration {
    pub language_id: String,
    /// The name the statistics service knows the language by, if any.
    pub codestats_language: Option<String>,
}

/// A document, as far as statistics need it: its language, if it has one.
#[derive(Debug)]
pub struct Document {
    pub language: Option<LanguageConfiguration>,
}

/// The counter an edit goes to: the mapped name, nothing for a language the
/// service does not know, and "Plain text" for a document without a language.
pub open spec fn resolved(doc: &Document) -> Option<Seq<char>> {
    match &doc.language {
        Some(l) => match &l.codestats_language {
            Some(name) => Some(name@),
            None => None,
        },
        None => Some("Plain text"@),
    }
}

/// The counter name for an edit of `doc`.
pub fn resolve_language(doc: &Document) -> (r: Option<String>)
    ensures
        r is Some == resolved(doc) is Some,
        r is Some ==> resolved(doc) == Some(r->0@),
{
    match &doc.language {
        Some(raw_language) => match &raw_language.codestats_language {
            Some(language) => Some(language.clone()),
            None => None,
        },
        None => Some(String::from_str("Plain text")),
    }
}

} // verus!
