//! The settings document: sections of keys and values, as the INI parser
//! holds them.
//!
//! Reading a document from text and looking a value up or setting one are
//! the parser's work. This module gives those calls their contracts; nothing
//! here is proved.

use ini::Ini;
use ini::ParseError;
use vstd::prelude::*;

verus! {

/// The settings document of the `ini` crate. Verus sees nothing inside it.
#[verifier::external_type_specification]
#[verifier::external_body]
pub struct ExIni(Ini);

/// The error with which the `ini` crate refuses a text.
#[verifier::external_type_specification]
#[verifier::external_body]
pub struct ExParseError(ParseError);

/// Values by section name and key.
pub type IniValues = Map<(Seq<char>, Seq<char>), Seq<char>>;

/// What a settings document holds in its named sections: for a section name
/// and a key, the value that a lookup gives, which is the first value of
/// that key in the first section of that name.
pub uninterp spec fn ini_values(doc: Ini) -> Map<(Seq<char>, Seq<char>), Seq<char>>;

/// What `Ini::load_from_str` makes of a text: the values of the document it
/// returns, or nothing where it refuses the text.
pub uninterp spec fn ini_document(text: Seq<char>) -> Option<Map<(Seq<char>, Seq<char>), Seq<char>>>;

/// `Ini::load_from_str`: parses a text with the parser's default options.
/// The contract names the outcome [`ini_document`]; it claims only that the
/// outcome depends on the text alone.
#[verifier::external_body]
pub(crate) fn ini_parse(text: &str) -> (result: Result<Ini, ParseError>)
    ensures
        result matches Ok(doc) ==> ini_document(text@) == Some(ini_values(doc)),
        result is Err ==> ini_document(text@) is None,
{
    Ini::load_from_str(text)
}

/// `Ini::new`: a document without a named section.
#[verifier::external_body]
pub(crate) fn ini_new() -> (doc: Ini)
    ensures
        ini_values(doc) == IniValues::empty(),
{
    Ini::new()
}

/// `Ini::get_from` with a named section: the first value of `key` in the
/// first section called `section`, or nothing where the section or the key
/// is missing.
#[verifier::external_body]
pub(crate) fn ini_get(doc: &Ini, section: &str, key: &str) -> (value: Option<String>)
    ensures
        value matches Some(v) ==> ini_values(*doc).contains_key((section@, key@)) && ini_values(
            *doc,
        )[(section@, key@)] == v@,
        value is None ==> !ini_values(*doc).contains_key((section@, key@)),
{
    doc.get_from(Some(section), key).map(|v| v.to_string())
}

/// `Ini::set_to` with a named section: makes `value` the only value of `key`
/// in the first section called `section`, which is added where it is
/// missing. Every other key keeps its value.
#[verifier::external_body]
pub(crate) fn ini_set(doc: &mut Ini, section: &str, key: &str, value: &str)
    ensures
        ini_values(*final(doc)) == ini_values(*old(doc)).insert((section@, key@), value@),
{
    doc.set_to(Some(section), key.to_string(), value.to_string());
}

} // verus!
