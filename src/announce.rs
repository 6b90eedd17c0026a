use vstd::prelude::*;
use vstd::utf8::{decode_utf8, valid_utf8};

use crate::device::{opt_text, present_not_empty, CncError};
use crate::text::{decimal_u16, decode_strict, parse_decimal_u16};

verus! {

/// Group that controllers announce themselves on.
pub const MULTICAST_GROUP: &'static str = "224.0.0.251";

/// Port of the announcement group.
pub const MULTICAST_PORT: u16 = 1234;

/// Size of the buffer a datagram is received into.
pub const DATAGRAM_BUFFER_LEN: usize = 1024;

/// The port controllers listen on when an announcement gives no usable one.
pub const DEFAULT_CONTROLLER_PORT: u16 = 10086;

/// A top-level member of a JSON document, as far as announcements read it.
#[derive(Debug, Clone, PartialEq, Eq)]
pub enum JsonField {
    /// The document is no JSON object, or has no such member.
    Missing,
    /// A string.
    Text(String),
    /// A non-negative integer.
    Number(u64),
    /// Any other value.
    Other,
}

/// A member of a JSON document as mathematical values.
pub enum FieldView {
    Missing,
    Text(Seq<char>),
    Number(u64),
    Other,
}

impl View for JsonField {
    type V = FieldView;

    open spec fn view(&self) -> FieldView {
        match self {
            JsonField::Missing => FieldView::Missing,
            JsonField::Text(s) => FieldView::Text(s@),
            JsonField::Number(n) => FieldView::Number(*n),
            JsonField::Other => FieldView::Other,
        }
    }
}

/// What serde_json reads as the member `key` of the JSON text `document`.
pub uninterp spec fn json_field_of(document: Seq<char>, key: Seq<char>) -> FieldView;

/// Relies on `serde_json::from_str` into `serde_json::Value`, `Value::get`
/// and `Number::as_u64`: reads one member of a JSON object; the result
/// depends on the two texts alone.
#[verifier::external_body]
fn json_field(document: &str, key: &str) -> (r: JsonField)
    ensures
        r@ == json_field_of(document@, key@),
{
    match serde_json::from_str::<serde_json::Value>(document) {
        Ok(value) => match value.get(key) {
            None => JsonField::Missing,
            Some(serde_json::Value::String(s)) => JsonField::Text(s.clone()),
            Some(serde_json::Value::Number(n)) => match n.as_u64() {
                Some(u) => JsonField::Number(u),
                None => JsonField::Other,
            },
            Some(_) => JsonField::Other,
        },
        Err(_) => JsonField::Missing,
    }
}

/// A controller's announcement of itself.
#[derive(Debug, Clone, PartialEq, Eq)]
pub struct Announcement {
    pub ip: String,
    pub port: u16,
    pub name: String,
    pub identifier: Option<String>,
}

/// An announcement as mathematical values.
pub struct AnnouncementView {
    pub ip: Seq<char>,
    pub port: u16,
    pub name: Seq<char>,
    pub identifier: Option<Seq<char>>,
}

impl View for Announcement {
    type V = AnnouncementView;

    open spec fn view(&self) -> AnnouncementView {
        AnnouncementView {
            ip: self.ip@,
            port: self.port,
            name: self.name@,
            identifier: opt_text(self.identifier),
        }
    }
}

impl Announcement {
    /// The identifier is either absent or holds some text.
    pub open spec fn well_formed(&self) -> bool {
        present_not_empty(self@.identifier)
    }
}

/// The port an announcement gives: a number or a decimal string; anything
/// else that is present stands for the default port.
pub open spec fn lenient_port(f: FieldView) -> Option<u16> {
    match f {
        FieldView::Missing => None,
        FieldView::Text(s) => match decimal_u16(s) {
            Some(p) => Some(p),
            None => Some(DEFAULT_CONTROLLER_PORT),
        },
        FieldView::Number(n) => if n <= 65535 {
            Some(n as u16)
        } else {
            Some(DEFAULT_CONTROLLER_PORT)
        },
        FieldView::Other => Some(DEFAULT_CONTROLLER_PORT),
    }
}

/// A member that holds a non-empty string.
pub open spec fn nonempty_text(f: FieldView) -> Option<Seq<char>> {
    match f {
        FieldView::Text(s) => if s.len() > 0 {
            Some(s)
        } else {
            None
        },
        _ => None,
    }
}

/// The identifier an announcement gives, under `uuid` or else under `mac`.
pub open spec fn identifier_from(uuid: FieldView, mac: FieldView) -> Option<Seq<char>> {
    match nonempty_text(uuid) {
        Some(u) => Some(u),
        None => nonempty_text(mac),
    }
}

/// The announcement that the members `ip`, `port`, `name`, `uuid` and
/// `mac` give: `ip` and `name` strings, a `port`, and an optional
/// identifier.
pub open spec fn announcement_from(
    ip: FieldView,
    port: FieldView,
    name: FieldView,
    uuid: FieldView,
    mac: FieldView,
) -> Option<AnnouncementView> {
    match (ip, name, lenient_port(port)) {
        (FieldView::Text(i), FieldView::Text(n), Some(p)) => Some(
            AnnouncementView { ip: i, port: p, name: n, identifier: identifier_from(uuid, mac) },
        ),
        _ => None,
    }
}

/// The announcement that a JSON text holds.
pub open spec fn announcement_of(document: Seq<char>) -> Option<AnnouncementView> {
    announcement_from(
        json_field_of(document, "ip"@),
        json_field_of(document, "port"@),
        json_field_of(document, "name"@),
        json_field_of(document, "uuid"@),
        json_field_of(document, "mac"@),
    )
}

/// The announcement that a datagram holds, if it is UTF-8 text that holds one.
pub open spec fn datagram_announcement(b: Seq<u8>) -> Option<AnnouncementView> {
    if valid_utf8(b) {
        announcement_of(decode_utf8(b))
    } else {
        None
    }
}

fn port_from(f: JsonField) -> (r: Option<u16>)
    ensures
        r == lenient_port(f@),
{
    match f {
        JsonField::Missing => None,
        JsonField::Text(s) => match parse_decimal_u16(s.as_str()) {
            Some(p) => Some(p),
            None => Some(DEFAULT_CONTROLLER_PORT),
        },
        JsonField::Number(n) => if n <= 65535 {
            Some(n as u16)
        } else {
            Some(DEFAULT_CONTROLLER_PORT)
        },
        JsonField::Other => Some(DEFAULT_CONTROLLER_PORT),
    }
}

fn text_from(f: JsonField) -> (r: Option<String>)
    ensures
        opt_text(r) == nonempty_text(f@),
{
    match f {
        JsonField::Text(s) => if s.unicode_len() > 0 {
            Some(s)
        } else {
            None
        },
        _ => None,
    }
}

/// Builds an announcement from the members `ip`, `port`, `name`, `uuid`
/// and `mac` of a JSON object.
pub fn announcement_from_fields(
    ip: JsonField,
    port: JsonField,
    name: JsonField,
    uuid: JsonField,
    mac: JsonField,
) -> (r: Result<Announcement, CncError>)
    ensures
        match announcement_from(ip@, port@, name@, uuid@, mac@) {
            Some(a) => r matches Ok(x) && x@ == a,
            None => r matches Err(CncError::MalformedAnnouncement),
        },
        r matches Ok(x) ==> x.well_formed(),
{
    let port = port_from(port);
    match (ip, name, port) {
        (JsonField::Text(i), JsonField::Text(n), Some(p)) => {
            let identifier = match text_from(uuid) {
                Some(u) => Some(u),
                None => text_from(mac),
            };
            Ok(Announcement { ip: i, port: p, name: n, identifier })
        },
        _ => Err(CncError::MalformedAnnouncement),
    }
}

/// Reads an announcement from a JSON text.
pub fn decode_announcement(payload: &str) -> (r: Result<Announcement, CncError>)
    ensures
        match announcement_of(payload@) {
            Some(a) => r matches Ok(x) && x@ == a,
            None => r matches Err(CncError::MalformedAnnouncement),
        },
        r matches Ok(x) ==> x.well_formed(),
{
    announcement_from_fields(
        json_field(payload, "ip"),
        json_field(payload, "port"),
        json_field(payload, "name"),
        json_field(payload, "uuid"),
        json_field(payload, "mac"),
    )
}

/// Reads an announcement from a received datagram.
pub fn decode_datagram(datagram: &[u8]) -> (r: Result<Announcement, CncError>)
    ensures
        match datagram_announcement(datagram@) {
            Some(a) => r matches Ok(x) && x@ == a,
            None => r matches Err(CncError::MalformedAnnouncement),
        },
        r matches Ok(x) ==> x.well_formed(),
{
    match decode_strict(datagram) {
        Some(text) => decode_announcement(text.as_str()),
        None => Err(CncError::MalformedAnnouncement),
    }
}

} // verus!
