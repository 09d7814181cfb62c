//! The participant's configuration: a YAML text that names the ledger's
//! address and the wallet's key file.

use crate::error::Error;
use vstd::prelude::*;

verus! {

/// `yaml_rust::Yaml`, a node of a YAML document, of which nothing is known
/// here but what the two names below say.
#[verifier::external_type_specification]
#[verifier::external_body]
pub struct ExYaml(yaml_rust::Yaml);

/// The documents that a text holds when read as YAML, or the complaint of
/// the scanner.
pub uninterp spec fn yaml_documents(
    text: Seq<char>,
) -> Result<Seq<yaml_rust::Yaml>, yaml_rust::ScanError>;

/// The strings that a YAML mapping holds under keys that are strings. Any
/// other node holds none.
pub uninterp spec fn yaml_strings(document: yaml_rust::Yaml) -> Map<Seq<char>, Seq<char>>;

/// `yaml_rust::YamlLoader::load_from_str`: the documents of a text or the
/// scanner's complaint, which the text alone decides. That is all that is
/// claimed of it, and that it returns: the parser descends once for every
/// level of block nesting, so a text nested some thousands deep can use up
/// the stack, as any call can use up the memory.
#[verifier::external_body]
fn load_from_str(text: &str) -> (result: Result<Vec<yaml_rust::Yaml>, yaml_rust::ScanError>)
    ensures
        match result {
            Ok(documents) => yaml_documents(text@) matches Ok(named) && named == documents@,
            Err(e) => yaml_documents(text@) matches Err(named) && named == e,
        },
{
    yaml_rust::YamlLoader::load_from_str(text)
}

/// The index of `yaml_rust::Yaml` by a string, then `Yaml::as_str`: the
/// string under `key` where the document is a mapping that holds one there,
/// and nothing for any other document, a missing key or another kind of value.
#[verifier::external_body]
fn string_at(document: &yaml_rust::Yaml, key: &str) -> (result: Option<String>)
    ensures
        match result {
            Some(text) => yaml_strings(*document).contains_key(key@) && yaml_strings(
                *document,
            )[key@] == text@,
            None => !yaml_strings(*document).contains_key(key@),
        },
{
    match document[key].as_str() {
        Some(text) => Some(text.to_owned()),
        None => None,
    }
}

/// The character of a decimal digit.
pub open spec fn digit(d: nat) -> char {
    if d == 0 {
        '0'
    } else if d == 1 {
        '1'
    } else if d == 2 {
        '2'
    } else if d == 3 {
        '3'
    } else if d == 4 {
        '4'
    } else if d == 5 {
        '5'
    } else if d == 6 {
        '6'
    } else if d == 7 {
        '7'
    } else if d == 8 {
        '8'
    } else {
        '9'
    }
}

/// A number in decimal digits, without leading zeros.
pub open spec fn decimal(n: nat) -> Seq<char>
    decreases n,
{
    if n < 10 {
        seq![digit(n)]
    } else {
        decimal(n / 10).push(digit(n % 10))
    }
}

/// What is said of a configuration with `count` documents where one is due.
pub open spec fn document_count_message(count: nat) -> Seq<char> {
    "expected one yaml document got ("@ + decimal(count) + ")"@
}

/// What is said of a configuration without the string `field`.
pub open spec fn missing_field_message(field: Seq<char>) -> Seq<char> {
    "missing `"@ + field + "` field"@
}

/// Whether `result` is what a configuration text gives when its one document
/// is asked for.
pub open spec fn is_config_of(text: Seq<char>, result: Result<yaml_rust::Yaml, Error>) -> bool {
    match yaml_documents(text) {
        Err(e) => result matches Err(Error::ConfigParseError(f)) && f == e,
        Ok(documents) => if documents.len() == 1 {
            result matches Ok(document) && document == documents[0]
        } else {
            result matches Err(Error::InvalidConfig(message)) && message@
                == document_count_message(documents.len())
        },
    }
}

/// Whether `result` is what a configuration text gives when the string
/// `field` of its one document is asked for.
pub open spec fn is_field_of(
    text: Seq<char>,
    field: Seq<char>,
    result: Result<String, Error>,
) -> bool {
    match yaml_documents(text) {
        Err(e) => result matches Err(Error::ConfigParseError(f)) && f == e,
        Ok(documents) => if documents.len() != 1 {
            result matches Err(Error::InvalidConfig(message)) && message@
                == document_count_message(documents.len())
        } else if yaml_strings(documents[0]).contains_key(field) {
            result matches Ok(value) && value@ == yaml_strings(documents[0])[field]
        } else {
            result matches Err(Error::InvalidConfig(message)) && message@
                == missing_field_message(field)
        },
    }
}

/// The text of one decimal digit.
fn digit_text(d: usize) -> (text: &'static str)
    requires
        d < 10,
    ensures
        text@ == seq![digit(d as nat)],
{
    proof {
        reveal_strlit("0");
        reveal_strlit("1");
        reveal_strlit("2");
        reveal_strlit("3");
        reveal_strlit("4");
        reveal_strlit("5");
        reveal_strlit("6");
        reveal_strlit("7");
        reveal_strlit("8");
        reveal_strlit("9");
    }
    let text = if d == 0 {
        "0"
    } else if d == 1 {
        "1"
    } else if d == 2 {
        "2"
    } else if d == 3 {
        "3"
    } else if d == 4 {
        "4"
    } else if d == 5 {
        "5"
    } else if d == 6 {
        "6"
    } else if d == 7 {
        "7"
    } else if d == 8 {
        "8"
    } else {
        "9"
    };
    assert(text@ =~= seq![digit(d as nat)]);
    text
}

/// Appends `n` in decimal digits.
fn push_decimal(out: &mut String, n: usize)
    ensures
        final(out)@ == old(out)@ + decimal(n as nat),
    decreases n,
{
    if n >= 10 {
        push_decimal(out, n / 10);
    }
    out.append(digit_text(n % 10));
    assert(out@ =~= old(out)@ + decimal(n as nat));
}

/// The one document of a configuration; any other number of documents is an
/// invalid configuration.
pub fn single_document(documents: Vec<yaml_rust::Yaml>) -> (result: Result<yaml_rust::Yaml, Error>)
    ensures
        documents@.len() == 1 ==> (result matches Ok(document) && document == documents@[0]),
        documents@.len() != 1 ==> (result matches Err(Error::InvalidConfig(message)) && message@
            == document_count_message(documents@.len())),
{
    let mut documents = documents;
    let count = documents.len();
    if count == 1 {
        Ok(documents.remove(0))
    } else {
        let mut message = String::from_str("expected one yaml document got (");
        push_decimal(&mut message, count);
        message.append(")");
        Err(Error::InvalidConfig(message))
    }
}

/// The string of a field that was looked up, or the complaint that the
/// configuration lacks the field `field`.
pub fn require_field(value: Option<String>, field: &str) -> (result: Result<String, Error>)
    ensures
        match value {
            Some(text) => result matches Ok(found) && found@ == text@,
            None => result matches Err(Error::InvalidConfig(message)) && message@
                == missing_field_message(field@),
        },
{
    match value {
        Some(text) => Ok(text),
        None => {
            let mut message = String::from_str("missing `");
            message.append(field);
            message.append("` field");
            Err(Error::InvalidConfig(message))
        },
    }
}

/// Parses the configuration text and returns its one document.
pub fn get_config(text: &str) -> (result: Result<yaml_rust::Yaml, Error>)
    ensures
        is_config_of(text@, result),
{
    match load_from_str(text) {
        Ok(documents) => single_document(documents),
        Err(e) => Err(Error::ConfigParseError(e)),
    }
}

/// The string that the configuration text holds in `field`.
pub fn get_field(text: &str, field: &str) -> (result: Result<String, Error>)
    ensures
        is_field_of(text@, field@, result),
{
    match get_config(text) {
        Ok(document) => require_field(string_at(&document, field), field),
        Err(e) => Err(e),
    }
}

/// Gets the address of the ledger's node that this machine is configured to
/// talk to: the field `json_rpc_url` of the configuration text.
pub fn get_rpc_url(config: &str) -> (result: Result<String, Error>)
    ensures
        is_field_of(config@, "json_rpc_url"@, result),
{
    get_field(config, "json_rpc_url")
}

/// Gets the path of the key file of the wallet that this machine is
/// configured with: the field `keypair_path` of the configuration text.
pub fn get_keypair_path(config: &str) -> (result: Result<String, Error>)
    ensures
        is_field_of(config@, "keypair_path"@, result),
{
    get_field(config, "keypair_path")
}

} // verus!
