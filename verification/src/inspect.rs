//! Reading the current identifiers without changing anything.

use crate::backup::text_of;
use crate::record::{
    field_text, parsed_object, record_view, Field, Record, DEV_DEVICE_ID_KEY, MACHINE_ID_KEY,
    MAC_MACHINE_ID_KEY,
};
use crate::text::{trim, trimmed};
use vstd::prelude::*;

verus! {

/// The marker that stands for an identifier that could not be read.
pub const NOT_FOUND: &'static str = "nie znaleziono";

/// The identifiers found, as text.
pub struct InspectionModel {
    pub machine_id: Seq<char>,
    pub mac_machine_id: Seq<char>,
    pub telemetry_machine_id: Seq<char>,
    pub dev_device_id: Seq<char>,
}

/// The identifiers found in the two artifacts. One that could not be read
/// is given as the marker `NOT_FOUND`.
#[derive(Debug, Clone, PartialEq, Eq)]
pub struct InspectionReport {
    /// The content of the plain-text file, without surrounding white space.
    pub machine_id: String,
    /// The record's secondary hashed identifier.
    pub mac_machine_id: String,
    /// The record's tertiary hashed identifier.
    pub telemetry_machine_id: String,
    /// The record's primary identifier.
    pub dev_device_id: String,
}

impl View for InspectionReport {
    type V = InspectionModel;

    open spec fn view(&self) -> InspectionModel {
        InspectionModel {
            machine_id: self.machine_id@,
            mac_machine_id: self.mac_machine_id@,
            telemetry_machine_id: self.telemetry_machine_id@,
            dev_device_id: self.dev_device_id@,
        }
    }
}

/// What is reported of the plain-text file: its content without surrounding
/// white space, or the marker where the file is missing.
pub open spec fn reported_id(content: Option<Seq<char>>) -> Seq<char> {
    match content {
        Some(text) => trimmed(text),
        None => NOT_FOUND@,
    }
}

/// What is reported of a key of the record: its text, or the marker where
/// the record is missing or no JSON object, or the key is absent or holds
/// no string.
pub open spec fn reported_field(record: Option<Map<Seq<char>, Field>>, key: Seq<char>) -> Seq<
    char,
> {
    match record {
        Some(fields) => match field_text(fields, key) {
            Some(text) => text,
            None => NOT_FOUND@,
        },
        None => NOT_FOUND@,
    }
}

/// The record that a content stands for, where there is content and it is a
/// JSON object.
pub open spec fn record_of(content: Option<Seq<char>>) -> Option<Map<Seq<char>, Field>> {
    match content {
        Some(text) => parsed_object(text),
        None => None,
    }
}

/// The report on the two artifacts' contents.
pub open spec fn inspection(
    machine_id: Option<Seq<char>>,
    storage: Option<Seq<char>>,
) -> InspectionModel {
    InspectionModel {
        machine_id: reported_id(machine_id),
        mac_machine_id: reported_field(record_of(storage), MAC_MACHINE_ID_KEY@),
        telemetry_machine_id: reported_field(record_of(storage), MACHINE_ID_KEY@),
        dev_device_id: reported_field(record_of(storage), DEV_DEVICE_ID_KEY@),
    }
}

/// What is reported of `key` in a record that may be missing.
pub fn report_field(record: &Option<Record>, key: &str) -> (out: String)
    ensures
        out@ == reported_field(record_view(*record), key@),
{
    match record {
        Some(record) => match record.text(key) {
            Some(text) => text,
            None => NOT_FOUND.to_owned(),
        },
        None => NOT_FOUND.to_owned(),
    }
}

/// Reports the identifiers that the two artifacts hold. Each content is
/// absent where the artifact is missing or could not be read. Nothing fails:
/// what cannot be read is reported as `NOT_FOUND`.
pub fn inspect(machine_id: Option<&str>, storage: Option<&str>) -> (report: InspectionReport)
    ensures
        report@ == inspection(text_of(machine_id), text_of(storage)),
{
    let id = match machine_id {
        Some(text) => trim(text).to_owned(),
        None => NOT_FOUND.to_owned(),
    };
    let record = match storage {
        Some(text) => Record::parse(text),
        None => None,
    };
    InspectionReport {
        machine_id: id,
        mac_machine_id: report_field(&record, MAC_MACHINE_ID_KEY),
        telemetry_machine_id: report_field(&record, MACHINE_ID_KEY),
        dev_device_id: report_field(&record, DEV_DEVICE_ID_KEY),
    }
}

} // verus!
