//! The JSON text of a settings record, written and read with `serde_json`.
//!
//! `serde_json` parses and prints. Which members make up a record, and what
//! is wrong with an object that lacks one, is decided here.

use vstd::prelude::*;

use crate::error::{ErrorModel, SettingsError};
use crate::settings::{ProxySettings, SettingsModel};

verus! {

/// `serde_json::Error`, carried from the call that reports it to the one
/// that describes it. Nothing inside it is seen here.
#[verifier::external_type_specification]
#[verifier::external_body]
pub struct ExJsonError(serde_json::Error);

/// What a member of a JSON object holds, as far as a settings record cares:
/// a boolean and a string with their values, anything else by its kind.
#[derive(Debug, Clone, PartialEq, Eq)]
pub enum Member {
    Null,
    Flag(bool),
    Number,
    Text(String),
    List,
    Object,
}

/// The mathematical value of a [`Member`].
pub ghost enum MemberModel {
    Null,
    Flag(bool),
    Number,
    Text(Seq<char>),
    List,
    Object,
}

impl View for Member {
    type V = MemberModel;

    open spec fn view(&self) -> MemberModel {
        match *self {
            Member::Null => MemberModel::Null,
            Member::Flag(flag) => MemberModel::Flag(flag),
            Member::Number => MemberModel::Number,
            Member::Text(text) => MemberModel::Text(text@),
            Member::List => MemberModel::List,
            Member::Object => MemberModel::Object,
        }
    }
}

/// A member of a JSON object under its name.
#[derive(Debug, Clone, PartialEq, Eq)]
pub struct Entry {
    pub name: String,
    pub member: Member,
}

/// The mathematical value of an [`Entry`].
pub ghost struct EntryModel {
    pub name: Seq<char>,
    pub member: MemberModel,
}

impl View for Entry {
    type V = EntryModel;

    open spec fn view(&self) -> EntryModel {
        EntryModel { name: self.name@, member: self.member@ }
    }
}

/// The values of a run of entries.
pub open spec fn entry_models(entries: Seq<Entry>) -> Seq<EntryModel> {
    entries.map_values(|entry: Entry| entry@)
}

/// What `serde_json` says of an error when it is displayed.
pub uninterp spec fn error_text(error: serde_json::Error) -> Seq<char>;

/// What `serde_json::from_str` makes of a text that is read as a JSON
/// object: the object's members in the order in which the parsed map hands
/// them out, or the description of the parse error.
pub uninterp spec fn parsed_object(text: Seq<char>) -> Result<Seq<EntryModel>, Seq<char>>;

/// What `serde_json::to_string_pretty` prints for the object that holds a
/// boolean under one name and a string under another, or the description of
/// the error it reports.
pub uninterp spec fn pretty_object(
    flag_name: Seq<char>,
    flag: bool,
    text_name: Seq<char>,
    text: Seq<char>,
) -> Result<Seq<char>, Seq<char>>;

/// `serde_json::Error`'s `Display`, through `to_string`: the description of
/// the error. Nothing is claimed of the words.
#[verifier::external_body]
fn describe(error: &serde_json::Error) -> (text: String)
    ensures
        text@ == error_text(*error),
{
    error.to_string()
}

/// `serde_json::from_str` at the type `serde_json::Map<String, Value>`,
/// whose entries are then handed out by `into_iter`. Each value is kept by
/// its kind, a boolean and a string with what they hold. The contract names
/// the outcome and claims nothing else of it.
#[verifier::external_body]
fn parse_object(text: &str) -> (outcome: Result<Vec<Entry>, serde_json::Error>)
    ensures
        parse_model(outcome) == parsed_object(text@),
{
    match serde_json::from_str::<serde_json::Map<String, serde_json::Value>>(text) {
        Err(error) => Err(error),
        Ok(object) => Ok(object.into_iter().map(|(name, value)| Entry { name, member: match value {
            serde_json::Value::Null => Member::Null,
            serde_json::Value::Bool(flag) => Member::Flag(flag),
            serde_json::Value::Number(_) => Member::Number,
            serde_json::Value::String(text) => Member::Text(text),
            serde_json::Value::Array(_) => Member::List,
            serde_json::Value::Object(_) => Member::Object,
        } }).collect()),
    }
}

/// `serde_json::to_string_pretty` on a `serde_json::Map` that was filled
/// with a boolean under `flag_name` and then a string under `text_name`.
/// The contract names the outcome and claims nothing else of it.
#[verifier::external_body]
fn render_object(flag_name: &str, flag: bool, text_name: &str, text: &str) -> (outcome: Result<
    String,
    serde_json::Error,
>)
    ensures
        print_model(outcome) == pretty_object(flag_name@, flag, text_name@, text@),
{
    let mut object = serde_json::Map::new();
    object.insert(flag_name.to_owned(), serde_json::Value::Bool(flag));
    object.insert(text_name.to_owned(), serde_json::Value::String(text.to_owned()));
    serde_json::to_string_pretty(&object)
}

/// The first member of that name among the entries.
pub open spec fn first_member(entries: Seq<EntryModel>, name: Seq<char>) -> Option<MemberModel>
    decreases entries.len(),
{
    if entries.len() == 0 {
        None
    } else if entries[0].name == name {
        Some(entries[0].member)
    } else {
        first_member(entries.drop_first(), name)
    }
}

/// Looks a member up by its name.
pub fn find_member<'a>(entries: &'a Vec<Entry>, name: &str) -> (found: Option<&'a Member>)
    ensures
        match found {
            Some(member) => first_member(entry_models(entries@), name@) == Some(member@),
            None => first_member(entry_models(entries@), name@) is None,
        },
{
    let wanted = String::from_str(name);
    let mut index: usize = 0;
    assert(entry_models(entries@).skip(0) =~= entry_models(entries@));
    while index < entries.len()
        invariant
            index <= entries.len(),
            wanted@ == name@,
            first_member(entry_models(entries@), name@) == first_member(
                entry_models(entries@).skip(index as int),
                name@,
            ),
        decreases entries.len() - index,
    {
        let ghost rest = entry_models(entries@).skip(index as int);
        assert(rest[0] == entries@[index as int]@);
        assert(rest.drop_first() =~= entry_models(entries@).skip(index + 1));
        if entries[index].name == wanted {
            return Some(&entries[index].member);
        }
        index += 1;
    }
    None
}

/// The record that an object's members make up: a boolean under `enabled`
/// and a string under `url`. Members of other names are passed over. A
/// record that lacks one of the two, or holds something else under its
/// name, is a parse error; `enabled` is looked at first.
pub open spec fn settings_of(entries: Seq<EntryModel>) -> Result<SettingsModel, ErrorModel> {
    match first_member(entries, "enabled"@) {
        None => Err(ErrorModel::Parse { cause: "missing field `enabled`"@ }),
        Some(MemberModel::Flag(enabled)) => match first_member(entries, "url"@) {
            None => Err(ErrorModel::Parse { cause: "missing field `url`"@ }),
            Some(MemberModel::Text(url)) => Ok(SettingsModel { enabled, url }),
            Some(_) => Err(ErrorModel::Parse { cause: "field `url` is not a string"@ }),
        },
        Some(_) => Err(ErrorModel::Parse { cause: "field `enabled` is not a boolean"@ }),
    }
}

/// The value of a result that holds settings.
pub open spec fn settings_result(outcome: Result<ProxySettings, SettingsError>) -> Result<
    SettingsModel,
    ErrorModel,
> {
    match outcome {
        Ok(settings) => Ok(settings@),
        Err(error) => Err(error@),
    }
}

/// The value of a result that holds a text.
pub open spec fn text_result(outcome: Result<String, SettingsError>) -> Result<
    Seq<char>,
    ErrorModel,
> {
    match outcome {
        Ok(text) => Ok(text@),
        Err(error) => Err(error@),
    }
}

/// Builds the settings record from the members of a parsed object.
pub fn settings_from_entries(entries: &Vec<Entry>) -> (outcome: Result<
    ProxySettings,
    SettingsError,
>)
    ensures
        settings_result(outcome) == settings_of(entry_models(entries@)),
{
    let enabled = match find_member(entries, "enabled") {
        None => {
            return Err(SettingsError::Parse { cause: String::from_str("missing field `enabled`") });
        },
        Some(Member::Flag(flag)) => *flag,
        Some(_) => {
            return Err(
                SettingsError::Parse { cause: String::from_str("field `enabled` is not a boolean") },
            );
        },
    };
    match find_member(entries, "url") {
        None => Err(SettingsError::Parse { cause: String::from_str("missing field `url`") }),
        Some(Member::Text(url)) => Ok(ProxySettings { enabled, url: url.clone() }),
        Some(_) => Err(
            SettingsError::Parse { cause: String::from_str("field `url` is not a string") },
        ),
    }
}

/// What the parser's outcome comes to: the record that the members make
/// up, or a parse error with the parser's description.
pub open spec fn settings_of_parse(parsed: Result<Seq<EntryModel>, Seq<char>>) -> Result<
    SettingsModel,
    ErrorModel,
> {
    match parsed {
        Ok(entries) => settings_of(entries),
        Err(cause) => Err(ErrorModel::Parse { cause }),
    }
}

/// The value of what the parser handed back.
pub open spec fn parse_model(parsed: Result<Vec<Entry>, serde_json::Error>) -> Result<
    Seq<EntryModel>,
    Seq<char>,
> {
    match parsed {
        Ok(entries) => Ok(entry_models(entries@)),
        Err(error) => Err(error_text(error)),
    }
}

/// Turns what the parser handed back into settings or a parse error.
pub fn settings_from_parse(parsed: Result<Vec<Entry>, serde_json::Error>) -> (outcome: Result<
    ProxySettings,
    SettingsError,
>)
    ensures
        settings_result(outcome) == settings_of_parse(parse_model(parsed)),
{
    match parsed {
        Ok(entries) => settings_from_entries(&entries),
        Err(error) => Err(SettingsError::Parse { cause: describe(&error) }),
    }
}

/// What a text decodes to: the record that its members make up where
/// `serde_json` reads the text as an object, else a parse error with the
/// parser's description.
pub open spec fn decoded(text: Seq<char>) -> Result<SettingsModel, ErrorModel> {
    settings_of_parse(parsed_object(text))
}

/// Reads a settings record from its JSON text.
pub fn decode(text: &str) -> (outcome: Result<ProxySettings, SettingsError>)
    ensures
        settings_result(outcome) == decoded(text@),
{
    settings_from_parse(parse_object(text))
}

/// What the printer's outcome comes to: the text as printed, or an error
/// with the printer's description.
pub open spec fn text_of_print(printed: Result<Seq<char>, Seq<char>>) -> Result<
    Seq<char>,
    ErrorModel,
> {
    match printed {
        Ok(text) => Ok(text),
        Err(cause) => Err(ErrorModel::Serialize { cause }),
    }
}

/// The value of what the printer handed back.
pub open spec fn print_model(printed: Result<String, serde_json::Error>) -> Result<
    Seq<char>,
    Seq<char>,
> {
    match printed {
        Ok(text) => Ok(text@),
        Err(error) => Err(error_text(error)),
    }
}

/// Turns what the printer handed back into the text or an error.
pub fn text_from_print(printed: Result<String, serde_json::Error>) -> (outcome: Result<
    String,
    SettingsError,
>)
    ensures
        text_result(outcome) == text_of_print(print_model(printed)),
{
    match printed {
        Ok(text) => Ok(text),
        Err(error) => Err(SettingsError::Serialize { cause: describe(&error) }),
    }
}

/// What a record encodes to: the indented text that `serde_json` prints for
/// the object with `enabled` and `url`, else an error with the printer's
/// description.
pub open spec fn encoded(settings: SettingsModel) -> Result<Seq<char>, ErrorModel> {
    text_of_print(pretty_object("enabled"@, settings.enabled, "url"@, settings.url))
}

/// Writes a settings record as indented JSON text.
pub fn encode(settings: &ProxySettings) -> (outcome: Result<String, SettingsError>)
    ensures
        text_result(outcome) == encoded(settings@),
{
    text_from_print(render_object("enabled", settings.enabled, "url", settings.url.as_str()))
}

/// Each field of a decoded record is the member of its own name: the flag
/// is what stands under `enabled`, the URL what stands under `url`, and
/// neither depends on the other or on any further member.
pub proof fn lemma_fields_come_from_their_members(entries: Seq<EntryModel>)
    ensures
        settings_of(entries) matches Ok(settings) ==> {
            &&& first_member(entries, "enabled"@) == Some(MemberModel::Flag(settings.enabled))
            &&& first_member(entries, "url"@) == Some(MemberModel::Text(settings.url))
        },
{
}

/// Whatever a text holds, decoding it gives settings or a parse error.
pub proof fn lemma_decoding_fails_as_parse_error(text: Seq<char>)
    ensures
        decoded(text) matches Err(error) ==> error is Parse,
        parsed_object(text) matches Err(cause) ==> decoded(text) == Err::<
            SettingsModel,
            ErrorModel,
        >(ErrorModel::Parse { cause }),
{
}

} // verus!
