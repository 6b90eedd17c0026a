use vstd::prelude::*;

use crate::text::{decimal_of, push_decimal};

verus! {

/// A controller found on the network.
#[derive(Debug, Clone, PartialEq, Eq)]
pub struct CncDevice {
    pub name: String,
    pub ip: String,
    pub port: u16,
    pub mac: Option<String>,
    pub firmware: Option<String>,
}

/// A controller as mathematical values.
pub struct DeviceView {
    pub name: Seq<char>,
    pub ip: Seq<char>,
    pub port: u16,
    pub mac: Option<Seq<char>>,
    pub firmware: Option<Seq<char>>,
}

/// The text of an optional string.
pub open spec fn opt_text(o: Option<String>) -> Option<Seq<char>> {
    match o {
        Some(s) => Some(s@),
        None => None,
    }
}

/// An optional text that is present is not empty.
pub open spec fn present_not_empty(o: Option<Seq<char>>) -> bool {
    o matches Some(t) ==> t.len() > 0
}

impl View for CncDevice {
    type V = DeviceView;

    open spec fn view(&self) -> DeviceView {
        DeviceView {
            name: self.name@,
            ip: self.ip@,
            port: self.port,
            mac: opt_text(self.mac),
            firmware: opt_text(self.firmware),
        }
    }
}

/// The text `ip:port` that names a controller's endpoint.
pub open spec fn endpoint_text(ip: Seq<char>, port: u16) -> Seq<char> {
    ip + seq![':'] + decimal_of(port as nat)
}

/// Copies an optional string.
pub fn copy_opt_text(o: &Option<String>) -> (r: Option<String>)
    ensures
        opt_text(r) == opt_text(*o),
{
    match o {
        Some(s) => Some(s.clone()),
        None => None,
    }
}

/// The text `ip:port` that names an endpoint.
pub fn endpoint(ip: &str, port: u16) -> (r: String)
    ensures
        r@ == endpoint_text(ip@, port),
{
    let mut r = String::from_str(ip);
    r.append(":");
    proof {
        reveal_strlit(":");
    }
    push_decimal(&mut r, port as u64);
    r
}

impl CncDevice {
    /// Identifier and firmware are either absent or hold some text.
    pub open spec fn well_formed(&self) -> bool {
        present_not_empty(self@.mac) && present_not_empty(self@.firmware)
    }

    /// A copy with the same fields.
    pub fn duplicate(&self) -> (r: CncDevice)
        ensures
            r@ == self@,
    {
        CncDevice {
            name: self.name.clone(),
            ip: self.ip.clone(),
            port: self.port,
            mac: copy_opt_text(&self.mac),
            firmware: copy_opt_text(&self.firmware),
        }
    }

    /// The endpoint `ip:port` of this controller.
    pub fn address(&self) -> (r: String)
        ensures
            r@ == endpoint_text(self@.ip, self@.port),
    {
        endpoint(self.ip.as_str(), self.port)
    }

    /// Whether both values stand for one controller: the same address and
    /// port, whatever their names.
    pub fn same_controller(&self, other: &CncDevice) -> (r: bool)
        ensures
            r == (self@.ip == other@.ip && self@.port == other@.port),
    {
        self.port == other.port && self.ip == other.ip
    }
}

/// The state of the session as reported to callers.
#[derive(Debug, Clone, PartialEq, Eq)]
pub struct CncConnection {
    pub device: CncDevice,
    pub connected: bool,
}

/// What can go wrong while finding or talking to a controller.
#[derive(Debug, Clone, PartialEq, Eq)]
pub enum CncError {
    /// The endpoint could not be reached, or the link was lost.
    ConnectionError(String),
    /// A connect, read or write bound ran out.
    Timeout(String),
    /// The peer answered with text that no controller sends.
    NotACnc(String),
    /// No session is open.
    NotConnected,
    /// A discovery datagram could not be read as an announcement.
    MalformedAnnouncement,
}

} // verus!
