//! Which registry file is used, and what a YAML document holds under one of
//! its top-level keys.

use crate::error::Error;
use vstd::prelude::*;

verus! {

/// Where the registry file is taken from.
#[derive(Clone, Copy, Debug, PartialEq, Eq)]
pub enum ConfigFile {
    /// The file under the configuration directory exists and is used.
    ConfigDir,
    /// Only the file in the home directory exists and is used.
    Home,
    /// Neither exists: an empty registry is to be created under the
    /// configuration directory, and that file is used.
    Create,
}

/// The registry file under the configuration directory, relative to it.
pub const CONFIG_DIR_FILE: &'static str = "colorscheme/themes.json";

/// The registry file in the home directory, relative to it.
pub const HOME_FILE: &'static str = ".colorscheme.json";

/// Chooses the registry file from what exists on disk: the file under the
/// configuration directory comes first, the one in the home directory
/// second, and a new file under the configuration directory last.
pub fn get_config_file(config_exists: bool, home_exists: bool) -> (r: ConfigFile)
    ensures
        config_exists ==> r == ConfigFile::ConfigDir,
        !config_exists && home_exists ==> r == ConfigFile::Home,
        !config_exists && !home_exists ==> r == ConfigFile::Create,
{
    if config_exists {
        ConfigFile::ConfigDir
    } else if home_exists {
        ConfigFile::Home
    } else {
        ConfigFile::Create
    }
}

/// What a YAML document holds under a top-level key, as far as a patch
/// reads it.
#[derive(Debug, Clone, PartialEq, Eq)]
pub enum YamlEntry {
    /// The document is no mapping, or the mapping has no such key.
    Missing,
    /// The key is there and its value is no sequence.
    Other,
    /// The key is there and its value is a sequence: for each element in
    /// order its text, or nothing where the element is no string.
    Sequence(Vec<Option<String>>),
}

/// The mathematical value of a [`YamlEntry`].
pub enum Entry {
    Missing,
    Other,
    Sequence(Seq<Option<Seq<char>>>),
}

/// The texts of the elements, each string by its characters.
pub open spec fn item_texts(items: Seq<Option<String>>) -> Seq<Option<Seq<char>>> {
    items.map_values(
        |item: Option<String>|
            match item {
                Some(text) => Some(text@),
                None => None,
            },
    )
}

impl View for YamlEntry {
    type V = Entry;

    open spec fn view(&self) -> Entry {
        match self {
            YamlEntry::Missing => Entry::Missing,
            YamlEntry::Other => Entry::Other,
            YamlEntry::Sequence(items) => Entry::Sequence(item_texts(items@)),
        }
    }
}

/// What parsing `text` as one YAML document and looking `key` up at its top
/// level gives: the entry, or the message with which the parser refuses the
/// text.
pub uninterp spec fn yaml_entry(text: Seq<u8>, key: Seq<char>) -> Result<Entry, Seq<char>>;

/// Parses `text` with `serde_yaml::from_slice` into a `serde_yaml::Value`,
/// looks `key` up in it with `Value::get`, and copies out what is found:
/// the elements of a sequence one for one, each by `Value::as_str`. Nothing
/// is claimed of the outcome but that it depends on the text and the key
/// alone; a text that the parser refuses gives the error's message.
#[verifier::external_body]
fn parse_entry(text: &[u8], key: &str) -> (r: Result<YamlEntry, String>)
    ensures
        match r {
            Ok(entry) => yaml_entry(text@, key@) == Ok::<Entry, Seq<char>>(entry@),
            Err(message) => yaml_entry(text@, key@) == Err::<Entry, Seq<char>>(message@),
        },
{
    let doc: serde_yaml::Value = serde_yaml::from_slice(text).map_err(|e| e.to_string())?;
    Ok(match doc.get(key) {
        None => YamlEntry::Missing,
        Some(serde_yaml::Value::Sequence(items)) => YamlEntry::Sequence(
            items.iter().map(|item| item.as_str().map(str::to_owned)).collect(),
        ),
        Some(_) => YamlEntry::Other,
    })
}

/// The message with which the parser refuses a document without content.
pub const END_OF_DOCUMENT: &'static str = "EOF while parsing a value";

/// The text without a byte-order mark at its start.
pub open spec fn without_bom(text: Seq<u8>) -> Seq<u8> {
    if text.len() >= 3 && text[0] == 0xEF && text[1] == 0xBB && text[2] == 0xBF {
        text.skip(3)
    } else {
        text
    }
}

/// What a document holds, given what the parser said of it: a document
/// without content counts as an empty mapping, in which every key is
/// missing.
pub open spec fn settled(parsed: Result<Entry, Seq<char>>) -> Result<Entry, Seq<char>> {
    match parsed {
        Ok(entry) => Ok(entry),
        Err(message) => if message == END_OF_DOCUMENT@ {
            Ok(Entry::Missing)
        } else {
            Err(message)
        },
    }
}

/// Takes what the parser said of a document: an entry stays as it is, a
/// document without content counts as an empty mapping, and any other
/// refusal is a `YAML` failure that carries the parser's message.
pub fn settle(parsed: Result<YamlEntry, String>) -> (r: Result<YamlEntry, Error>)
    ensures
        match r {
            Ok(entry) => match parsed {
                Ok(found) => entry == found,
                Err(message) => message@ == END_OF_DOCUMENT@ && entry == YamlEntry::Missing,
            },
            Err(Error::YAML(text)) => parsed == Err::<YamlEntry, String>(text) && text@
                != END_OF_DOCUMENT@,
            Err(_) => false,
        },
{
    match parsed {
        Ok(entry) => Ok(entry),
        Err(message) => {
            let end = END_OF_DOCUMENT.to_owned();
            if message == end {
                Ok(YamlEntry::Missing)
            } else {
                Err(Error::YAML(message))
            }
        },
    }
}

/// Strips a byte-order mark from `content`, parses the rest as one YAML
/// document and gives what it holds under the top-level `key`.
pub fn read_yaml(content: &[u8], key: &str) -> (r: Result<YamlEntry, Error>)
    ensures
        match r {
            Ok(entry) => settled(yaml_entry(without_bom(content@), key@)) == Ok::<
                Entry,
                Seq<char>,
            >(entry@),
            Err(Error::YAML(message)) => settled(yaml_entry(without_bom(content@), key@)) == Err::<
                Entry,
                Seq<char>,
            >(message@),
            Err(_) => false,
        },
{
    let has_bom = content.len() >= 3 && content[0] == 0xEF && content[1] == 0xBB && content[2]
        == 0xBF;
    let document = if has_bom {
        vstd::slice::slice_subrange(content, 3, content.len())
    } else {
        content
    };
    settle(parse_entry(document, key))
}

} // verus!
