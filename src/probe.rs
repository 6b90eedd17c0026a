use vstd::prelude::*;
use vstd::utf8::{decode_utf8, valid_utf8};

use crate::device::{opt_text, CncDevice, CncError, DeviceView};
use crate::text::{
    chars_of, contains, contains_chars, decode_lossy, find_from, first_from, lemma_first_from,
    lossy_text_of,
};

verus! {

/// The status query a probe sends.
pub const STATUS_QUERY: &'static str = "?\n";

/// The version query a probe sends when the first reply names a version.
pub const FIRMWARE_QUERY: &'static str = "$I\n";

/// Bound on opening a probe connection, in milliseconds.
pub const PROBE_CONNECT_TIMEOUT_MS: u64 = 2000;

/// Bound on each probe read, in milliseconds.
pub const PROBE_READ_TIMEOUT_MS: u64 = 2000;

/// Bound on each probe write, in milliseconds.
pub const PROBE_WRITE_TIMEOUT_MS: u64 = 1000;

/// Size of the buffer a probe reads a reply into.
pub const PROBE_BUFFER_LEN: usize = 512;

/// The reply holds one of the markers that a controller's status carries.
pub open spec fn is_controller_reply(t: Seq<char>) -> bool {
    contains(t, "Idle"@) || contains(t, "Alarm"@) || contains(t, "Run"@) || contains(t, "MPos"@)
        || contains(t, "VER:"@)
}

/// The reply names a firmware version, worth a second query.
pub open spec fn names_version(t: Seq<char>) -> bool {
    contains(t, "VER:"@)
}

/// The controller that a successful probe of `ip:port` reports.
pub open spec fn probed_device(ip: Seq<char>, port: u16) -> DeviceView {
    DeviceView { name: "CNC at "@ + ip, ip, port, mac: None, firmware: None }
}

/// The firmware text in a version reply: from the first `Grbl` up to the
/// next line break.
pub open spec fn firmware_of(t: Seq<char>) -> Option<Seq<char>> {
    match first_from(t, "Grbl"@, 0) {
        Some(a) => match first_from(t, "\n"@, a) {
            Some(b) => Some(t.subrange(a, b)),
            None => None,
        },
        None => None,
    }
}

fn has_marker(t: &Vec<char>) -> (r: bool)
    ensures
        r == is_controller_reply(t@),
{
    contains_chars(t, &chars_of("Idle")) || contains_chars(t, &chars_of("Alarm"))
        || contains_chars(t, &chars_of("Run")) || contains_chars(t, &chars_of("MPos"))
        || contains_chars(t, &chars_of("VER:"))
}

/// Decides whether the reply to a status query came from a controller.
/// A controller is reported under the probed address and port.
pub fn classify_reply(ip: &str, port: u16, reply: &[u8]) -> (r: Result<CncDevice, CncError>)
    ensures
        r is Ok <==> is_controller_reply(lossy_text_of(reply@)),
        r matches Ok(d) ==> d@ == probed_device(ip@, port) && d.well_formed(),
        !is_controller_reply(lossy_text_of(reply@)) ==> (r matches Err(CncError::NotACnc(t))
            && t@ == lossy_text_of(reply@)),
        valid_utf8(reply@) && !is_controller_reply(decode_utf8(reply@)) ==> (r matches Err(
            CncError::NotACnc(t),
        ) && t@ == decode_utf8(reply@)),
        valid_utf8(reply@) && is_controller_reply(decode_utf8(reply@)) ==> (r matches Ok(d)
            && d@ == probed_device(ip@, port)),
{
    let text = decode_lossy(reply);
    let cs = chars_of(text.as_str());
    if has_marker(&cs) {
        let mut name = String::from_str("CNC at ");
        name.append(ip);
        Ok(CncDevice { name, ip: String::from_str(ip), port, mac: None, firmware: None })
    } else {
        Err(CncError::NotACnc(text))
    }
}

/// Whether the reply to a status query calls for the version query: it
/// names a version, and `enrich` asks for firmware details at the cost of
/// one more exchange.
pub fn wants_firmware_query(reply: &[u8], enrich: bool) -> (r: bool)
    ensures
        r == (enrich && names_version(lossy_text_of(reply@))),
{
    if !enrich {
        return false;
    }
    let text = decode_lossy(reply);
    contains_chars(&chars_of(text.as_str()), &chars_of("VER:"))
}

/// The firmware text in a version reply, if it holds one.
pub fn extract_firmware_info(response: &str) -> (r: Option<String>)
    ensures
        opt_text(r) == firmware_of(response@),
{
    let cs = chars_of(response);
    match find_from(&cs, &chars_of("Grbl"), 0) {
        Some(a) => {
            proof {
                lemma_first_from(cs@, "Grbl"@, 0);
            }
            match find_from(&cs, &chars_of("\n"), a) {
                Some(b) => {
                    proof {
                        lemma_first_from(cs@, "\n"@, a as int);
                    }
                    Some(String::from_str(response.substring_char(a, b)))
                },
                None => None,
            }
        },
        None => None,
    }
}

/// Firmware text, when found, holds at least `Grbl`.
pub proof fn lemma_firmware_not_empty(t: Seq<char>)
    ensures
        firmware_of(t) matches Some(f) ==> f.len() >= 4,
{
    lemma_first_from(t, "Grbl"@, 0);
    if let Some(a) = first_from(t, "Grbl"@, 0) {
        lemma_first_from(t, "\n"@, a);
        if let Some(b) = first_from(t, "\n"@, a) {
            reveal_strlit("Grbl");
            reveal_strlit("\n");
            assert(t.subrange(a, a + 4)[0] == 'G');
            assert(t.subrange(b, b + 1)[0] == '\n');
            if b < a + 4 {
                assert(t.subrange(a, a + 4)[b - a] == '\n');
                assert("Grbl"@[b - a] != '\n');
            }
        }
    }
}

/// The controller with the firmware that its version reply names.
pub fn attach_firmware(device: CncDevice, version_reply: &[u8]) -> (r: CncDevice)
    ensures
        r@ == (DeviceView { firmware: firmware_of(lossy_text_of(version_reply@)), ..device@ }),
        device.well_formed() ==> r.well_formed(),
{
    proof {
        lemma_firmware_not_empty(lossy_text_of(version_reply@));
    }
    let text = decode_lossy(version_reply);
    let firmware = extract_firmware_info(text.as_str());
    CncDevice { firmware, ..device }
}

/// What the exchanges of one probe brought back.
#[derive(Debug, Clone, PartialEq, Eq)]
pub enum ProbeExchange {
    /// No link could be opened.
    Unreachable(CncError),
    /// The reply to the status query, and the reply to the version query
    /// when that was sent.
    Replied(Vec<u8>, Option<Vec<u8>>),
}

/// The controller a probe of `ip:port` finds from what its exchanges
/// brought back: one exactly when the status reply carries a marker.
pub open spec fn probe_outcome(ip: Seq<char>, port: u16, exchange: ProbeExchange) -> Option<
    DeviceView,
> {
    match exchange {
        ProbeExchange::Unreachable(_) => None,
        ProbeExchange::Replied(status, version) => if is_controller_reply(
            lossy_text_of(status@),
        ) {
            Some(
                DeviceView {
                    firmware: match version {
                        Some(v) => firmware_of(lossy_text_of(v@)),
                        None => None,
                    },
                    ..probed_device(ip, port)
                },
            )
        } else {
            None
        },
    }
}

/// The result of probing `ip:port`: the controller that answered, or why
/// none did.
pub fn probe_result(ip: &str, port: u16, exchange: ProbeExchange) -> (r: Result<
    CncDevice,
    CncError,
>)
    ensures
        match probe_outcome(ip@, port, exchange) {
            Some(d) => r matches Ok(x) && x@ == d && x.well_formed(),
            None => r is Err,
        },
        exchange matches ProbeExchange::Unreachable(e) ==> r == Err::<CncDevice, CncError>(e),
        match exchange {
            ProbeExchange::Replied(s, _) => !is_controller_reply(lossy_text_of(s@)) ==> (r matches Err(
                CncError::NotACnc(t),
            ) && t@ == lossy_text_of(s@)),
            ProbeExchange::Unreachable(_) => true,
        },
{
    match exchange {
        ProbeExchange::Unreachable(e) => Err(e),
        ProbeExchange::Replied(status, version) => match classify_reply(ip, port, status.as_slice()) {
            Ok(device) => match version {
                Some(v) => Ok(attach_firmware(device, v.as_slice())),
                None => Ok(device),
            },
            Err(e) => Err(e),
        },
    }
}

} // verus!
