//! The structured record: a JSON object of which three keys are managed and
//! every other key passes through untouched.

use crate::backup::text_of;
use crate::identity::{IdentityModel, IdentitySet};
use crate::text::owned_text;
use vstd::prelude::*;

verus! {

#[verifier::external_type_specification]
#[verifier::external_body]
#[verifier::reject_recursive_types(K)]
#[verifier::reject_recursive_types(V)]
pub struct ExJsonMap<K, V>(serde_json::Map<K, V>);

#[verifier::external_type_specification]
#[verifier::external_body]
pub struct ExJsonValue(serde_json::Value);

/// What a key of the record holds.
pub enum Field {
    /// A JSON string, by its text.
    Text(Seq<char>),
    /// Any other JSON value, standing as its compact JSON text.
    Other(Seq<char>),
}

/// The key of the secondary hashed identifier.
pub const MAC_MACHINE_ID_KEY: &'static str = "telemetry.macMachineId";

/// The key of the tertiary hashed identifier.
pub const MACHINE_ID_KEY: &'static str = "telemetry.machineId";

/// The key of the primary identifier.
pub const DEV_DEVICE_ID_KEY: &'static str = "telemetry.devDeviceId";

/// What a JSON object holds: each of its keys with the key's value.
pub uninterp spec fn entries(object: serde_json::Map<String, serde_json::Value>) -> Map<
    Seq<char>,
    Field,
>;

/// The object that a text stands for, where the text is JSON and its value
/// is an object.
pub uninterp spec fn parsed_object(text: Seq<char>) -> Option<Map<Seq<char>, Field>>;

/// The indented JSON text of an object.
pub uninterp spec fn pretty_text(fields: Map<Seq<char>, Field>) -> Seq<char>;

/// The fields of an object without keys.
pub open spec fn no_fields() -> Map<Seq<char>, Field> {
    Map::empty()
}

/// Whether `key` is one of the three managed keys.
pub open spec fn is_managed_key(key: Seq<char>) -> bool {
    key == MAC_MACHINE_ID_KEY@ || key == MACHINE_ID_KEY@ || key == DEV_DEVICE_ID_KEY@
}

/// The fields after an update: the three managed keys hold the new
/// identifiers, every other key holds what it held.
pub open spec fn with_identity(fields: Map<Seq<char>, Field>, ids: IdentityModel) -> Map<
    Seq<char>,
    Field,
> {
    fields.insert(MAC_MACHINE_ID_KEY@, Field::Text(ids.secondary)).insert(
        MACHINE_ID_KEY@,
        Field::Text(ids.tertiary),
    ).insert(DEV_DEVICE_ID_KEY@, Field::Text(ids.primary))
}

/// The fields an update starts from: those of the present content where it
/// is a JSON object, none where the artifact is missing or holds anything
/// else.
pub open spec fn starting_fields(existing: Option<Seq<char>>) -> Map<Seq<char>, Field> {
    match existing {
        Some(text) => match parsed_object(text) {
            Some(fields) => fields,
            None => no_fields(),
        },
        None => no_fields(),
    }
}

/// The text under `key`, where the key is present and holds a string.
pub open spec fn field_text(fields: Map<Seq<char>, Field>, key: Seq<char>) -> Option<Seq<char>> {
    if fields.contains_key(key) {
        match fields[key] {
            Field::Text(text) => Some(text),
            Field::Other(_) => None,
        }
    } else {
        None
    }
}

/// `serde_json::Map::new`: an object without keys.
#[verifier::external_body]
fn empty_object() -> (object: serde_json::Map<String, serde_json::Value>)
    ensures
        entries(object) == no_fields(),
{
    serde_json::Map::new()
}

/// `serde_json::from_str` for a `Value`, kept where the value is an object.
/// A text that is not JSON, or whose value is not an object, gives nothing.
#[verifier::external_body]
fn parse_object(text: &str) -> (res: Option<serde_json::Map<String, serde_json::Value>>)
    ensures
        match res {
            Some(object) => parsed_object(text@) == Some(entries(object)),
            None => parsed_object(text@) is None,
        },
{
    match serde_json::from_str::<serde_json::Value>(text) {
        Ok(serde_json::Value::Object(object)) => Some(object),
        _ => None,
    }
}

/// `serde_json::Map::insert` with a string value: the key then holds the
/// text, whether or not it was present, and no other key changes.
#[verifier::external_body]
fn insert_text(object: &mut serde_json::Map<String, serde_json::Value>, key: &str, text: &str)
    ensures
        entries(*final(object)) == entries(*old(object)).insert(key@, Field::Text(text@)),
{
    object.insert(key.to_owned(), serde_json::Value::String(text.to_owned()));
}

/// `serde_json::Map::get` followed by `Value::as_str`: the text under the
/// key, where the key is present and holds a string.
#[verifier::external_body]
fn lookup_text(object: &serde_json::Map<String, serde_json::Value>, key: &str) -> (res: Option<
    String,
>)
    ensures
        match res {
            Some(text) => field_text(entries(*object), key@) == Some(text@),
            None => field_text(entries(*object), key@) is None,
        },
{
    object.get(key).and_then(serde_json::Value::as_str).map(String::from)
}

/// `serde_json::to_string_pretty` of the object; the empty text should
/// serde_json report an error.
#[verifier::external_body]
fn render_pretty(object: &serde_json::Map<String, serde_json::Value>) -> (out: String)
    ensures
        out@ == pretty_text(entries(*object)),
{
    serde_json::to_string_pretty(object).unwrap_or_default()
}

/// A structured record: a JSON object.
pub struct Record {
    fields: serde_json::Map<String, serde_json::Value>,
}

impl View for Record {
    type V = Map<Seq<char>, Field>;

    closed spec fn view(&self) -> Map<Seq<char>, Field> {
        entries(self.fields)
    }
}

/// The fields of an optional record.
pub open spec fn record_view(record: Option<Record>) -> Option<Map<Seq<char>, Field>> {
    match record {
        Some(record) => Some(record@),
        None => None,
    }
}

impl Record {
    /// A record without keys.
    pub fn new() -> (record: Record)
        ensures
            record@ == no_fields(),
    {
        Record { fields: empty_object() }
    }

    /// Reads a record from JSON text. A text that is not JSON, or is JSON
    /// but not an object, gives nothing.
    pub fn parse(text: &str) -> (res: Option<Record>)
        ensures
            record_view(res) == parsed_object(text@),
    {
        match parse_object(text) {
            Some(fields) => Some(Record { fields }),
            None => None,
        }
    }

    /// Sets `key` to the string `text`, leaving every other key as it is.
    pub fn set_text(&mut self, key: &str, text: &str)
        ensures
            final(self)@ == old(self)@.insert(key@, Field::Text(text@)),
    {
        insert_text(&mut self.fields, key, text);
    }

    /// The text under `key`, where the key is present and holds a string.
    pub fn text(&self, key: &str) -> (res: Option<String>)
        ensures
            owned_text(res) == field_text(self@, key@),
    {
        lookup_text(&self.fields, key)
    }

    /// Writes the three identifiers under the managed keys, replacing what
    /// those keys held and leaving every other key as it is.
    pub fn apply(&mut self, ids: &IdentitySet)
        ensures
            final(self)@ == with_identity(old(self)@, ids@),
    {
        self.set_text(MAC_MACHINE_ID_KEY, ids.secondary_hashed_id());
        self.set_text(MACHINE_ID_KEY, ids.tertiary_hashed_id());
        self.set_text(DEV_DEVICE_ID_KEY, ids.primary_id());
    }

    /// The record as indented JSON text.
    pub fn render(&self) -> (out: String)
        ensures
            out@ == pretty_text(self@),
    {
        render_pretty(&self.fields)
    }
}

/// The record that an update leaves: the present content's fields where that
/// content is a JSON object, else none, with the three identifiers written
/// over them. `existing` is absent where the artifact does not exist.
pub fn updated_record(existing: Option<&str>, ids: &IdentitySet) -> (record: Record)
    ensures
        record@ == with_identity(starting_fields(text_of(existing)), ids@),
{
    let mut record = match existing {
        Some(text) => match Record::parse(text) {
            Some(record) => record,
            None => Record::new(),
        },
        None => Record::new(),
    };
    record.apply(ids);
    record
}

/// The record's text after an update of the given content.
pub fn updated_storage_text(existing: Option<&str>, ids: &IdentitySet) -> (out: String)
    ensures
        out@ == pretty_text(with_identity(starting_fields(text_of(existing)), ids@)),
{
    updated_record(existing, ids).render()
}

/// The three managed keys are three different keys.
pub proof fn lemma_managed_keys_differ()
    ensures
        MAC_MACHINE_ID_KEY@ != MACHINE_ID_KEY@,
        MAC_MACHINE_ID_KEY@ != DEV_DEVICE_ID_KEY@,
        MACHINE_ID_KEY@ != DEV_DEVICE_ID_KEY@,
{
    reveal_strlit("telemetry.macMachineId");
    reveal_strlit("telemetry.machineId");
    reveal_strlit("telemetry.devDeviceId");
    assert(MAC_MACHINE_ID_KEY@.len() == 22);
    assert(MACHINE_ID_KEY@.len() == 19);
    assert(DEV_DEVICE_ID_KEY@.len() == 21);
}

/// After an update each managed key holds the text of its new identifier.
pub proof fn lemma_update_sets_managed_keys(fields: Map<Seq<char>, Field>, ids: IdentityModel)
    ensures
        field_text(with_identity(fields, ids), MAC_MACHINE_ID_KEY@) == Some(ids.secondary),
        field_text(with_identity(fields, ids), MACHINE_ID_KEY@) == Some(ids.tertiary),
        field_text(with_identity(fields, ids), DEV_DEVICE_ID_KEY@) == Some(ids.primary),
{
    lemma_managed_keys_differ();
}

/// An update leaves every key that is not managed as it was: present with
/// the same value, or absent.
pub proof fn lemma_update_keeps_other_keys(
    fields: Map<Seq<char>, Field>,
    ids: IdentityModel,
    key: Seq<char>,
)
    requires
        !is_managed_key(key),
    ensures
        with_identity(fields, ids).contains_key(key) == fields.contains_key(key),
        fields.contains_key(key) ==> with_identity(fields, ids)[key] == fields[key],
{
}

/// An update adds no key but the managed ones.
pub proof fn lemma_update_adds_only_managed_keys(fields: Map<Seq<char>, Field>, ids: IdentityModel)
    ensures
        forall|key: Seq<char>|
            #[trigger] with_identity(fields, ids).contains_key(key) <==> fields.contains_key(key)
                || is_managed_key(key),
{
}

/// Of two updates in a row only the second shows: the result is that of the
/// second update alone.
pub proof fn lemma_second_update_wins(
    fields: Map<Seq<char>, Field>,
    first: IdentityModel,
    second: IdentityModel,
)
    ensures
        with_identity(with_identity(fields, first), second) == with_identity(fields, second),
{
    lemma_managed_keys_differ();
    assert(with_identity(with_identity(fields, first), second) =~= with_identity(fields, second));
}

} // verus!
