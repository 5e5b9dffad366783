//! Rule documents: parsing text into documents and reading the fields that decide
//! admission.

use vstd::prelude::*;
use yaml_rust::{Yaml, YamlLoader};

verus! {

/// `yaml_rust::Yaml`, one parsed document. The loader carries documents through as
/// they are; of what is inside one it knows only `document_strings`.
#[verifier::external_type_specification]
#[verifier::external_body]
pub struct ExYaml(Yaml);

/// The text entries at the top level of a document: each key that is a string and
/// whose value is a string, with that value. Empty for a document that is no mapping.
pub uninterp spec fn document_strings(doc: Yaml) -> Map<Seq<char>, Seq<char>>;

/// What parsing `text` gives: the documents in the order they stand in the text, or
/// the message of the error that stopped the parser.
pub uninterp spec fn parsed_documents(text: Seq<char>) -> Result<Seq<Yaml>, Seq<char>>;

/// `Yaml`'s index by `&str` followed by `Yaml::as_str`: the text under `key`, present
/// exactly if the document is a mapping that holds the string `key` with a string value.
#[verifier::external_body]
fn string_at(doc: &Yaml, key: &str) -> (found: Option<String>)
    ensures
        found is Some <==> document_strings(*doc).contains_key(key@),
        found matches Some(s) ==> s@ == document_strings(*doc)[key@],
{
    doc[key].as_str().map(String::from)
}

/// `YamlLoader::load_from_str`: the documents of `text`, or the scan error that
/// stopped the parser, as the text that its `Display` gives. The result depends on
/// `text` alone.
#[verifier::external_body]
fn load_from_str(text: &str) -> (res: Result<Vec<Yaml>, String>)
    ensures
        res is Ok <==> parsed_documents(text@) is Ok,
        res matches Ok(docs) ==> docs@ == parsed_documents(text@)->Ok_0,
        res matches Err(message) ==> message@ == parsed_documents(text@)->Err_0,
{
    YamlLoader::load_from_str(text).map_err(|e| e.to_string())
}

/// The characters of an optional string.
pub open spec fn text_of(s: Option<&str>) -> Option<Seq<char>> {
    match s {
        Some(t) => Some(t@),
        None => None,
    }
}

/// The characters of an optional owned string.
pub open spec fn owned_text_of(s: Option<String>) -> Option<Seq<char>> {
    match s {
        Some(t) => Some(t@),
        None => None,
    }
}

/// The entry of `strings` under `key`, if there is one.
pub open spec fn entry_at(strings: Map<Seq<char>, Seq<char>>, key: Seq<char>) -> Option<
    Seq<char>,
> {
    if strings.contains_key(key) {
        Some(strings[key])
    } else {
        None
    }
}

/// The fields of a rule that decide its admission, as mathematical values.
pub struct FieldsView {
    pub id: Option<Seq<char>>,
    pub status: Option<Seq<char>>,
    pub level: Option<Seq<char>>,
    pub ruletype: Option<Seq<char>>,
}

/// The fields of a rule that decide its admission.
#[derive(Debug)]
pub struct RuleFields {
    pub id: Option<String>,
    pub status: Option<String>,
    pub level: Option<String>,
    pub ruletype: Option<String>,
}

impl View for RuleFields {
    type V = FieldsView;

    open spec fn view(&self) -> FieldsView {
        FieldsView {
            id: owned_text_of(self.id),
            status: owned_text_of(self.status),
            level: owned_text_of(self.level),
            ruletype: owned_text_of(self.ruletype),
        }
    }
}

/// The deciding fields of a document.
pub open spec fn fields_of(doc: Yaml) -> FieldsView {
    let strings = document_strings(doc);
    FieldsView {
        id: entry_at(strings, "id"@),
        status: entry_at(strings, "status"@),
        level: entry_at(strings, "level"@),
        ruletype: entry_at(strings, "ruletype"@),
    }
}

/// `docs`, each paired with `path`.
pub open spec fn paired(path: Seq<char>, docs: Seq<Yaml>) -> Seq<(Seq<char>, Yaml)> {
    Seq::new(docs.len(), |i: int| (path, docs[i]))
}

/// The characters of each path with its document.
pub open spec fn pairs_view(pairs: Seq<(String, Yaml)>) -> Seq<(Seq<char>, Yaml)> {
    Seq::new(pairs.len(), |i: int| (pairs[i].0@, pairs[i].1))
}

/// What loading the text of the file at `path` gives: each document of the text paired
/// with the path, or the parser's message.
pub open spec fn loaded_documents(path: Seq<char>, text: Seq<char>) -> Result<
    Seq<(Seq<char>, Yaml)>,
    Seq<char>,
> {
    match parsed_documents(text) {
        Ok(docs) => Ok(paired(path, docs)),
        Err(message) => Err(message),
    }
}

impl RuleFields {
    /// Reads the deciding fields of `doc`.
    pub fn extract(doc: &Yaml) -> (fields: RuleFields)
        ensures
            fields@ == fields_of(*doc),
    {
        RuleFields {
            id: string_at(doc, "id"),
            status: string_at(doc, "status"),
            level: string_at(doc, "level"),
            ruletype: string_at(doc, "ruletype"),
        }
    }
}

/// Pairs each of `docs` with `path`.
pub fn pair_with_path(path: &str, docs: Vec<Yaml>) -> (pairs: Vec<(String, Yaml)>)
    ensures
        pairs_view(pairs@) == paired(path@, docs@),
{
    let mut pairs: Vec<(String, Yaml)> = Vec::new();
    for doc in it: docs
        invariant
            it.seq() == docs@,
            pairs.len() == it.index(),
            forall|i: int|
                #![trigger pairs@[i]]
                0 <= i < pairs.len() ==> pairs@[i].0@ == path@ && pairs@[i].1 == it.seq()[i],
    {
        pairs.push((path.to_owned(), doc));
    }
    assert(pairs_view(pairs@) =~= paired(path@, docs@));
    pairs
}

/// Parses the text of the file at `path` and pairs each of its documents with the path.
pub fn load_documents(path: &str, text: &str) -> (res: Result<Vec<(String, Yaml)>, String>)
    ensures
        res is Ok <==> loaded_documents(path@, text@) is Ok,
        res matches Ok(pairs) ==> pairs_view(pairs@) == loaded_documents(path@, text@)->Ok_0,
        res matches Err(message) ==> message@ == loaded_documents(path@, text@)->Err_0,
{
    match load_from_str(text) {
        Ok(docs) => Ok(pair_with_path(path, docs)),
        Err(message) => Err(message),
    }
}

} // verus!
