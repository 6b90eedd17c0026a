use vstd::prelude::*;

use crate::announce::{datagram_announcement, decode_datagram, Announcement, AnnouncementView};
use crate::device::{copy_opt_text, present_not_empty, CncDevice, CncError, DeviceView};
use crate::probe::{probe_outcome, probe_result, ProbeExchange};

verus! {

/// The address tried when no announcement leads to a controller.
pub const FALLBACK_ADDRESS: &'static str = "192.168.86.23";

/// The port tried at the fallback address.
pub const FALLBACK_PORT: u16 = 10086;

/// The controllers of a vector, as mathematical values.
pub open spec fn devices_view(v: Seq<CncDevice>) -> Seq<DeviceView> {
    v.map_values(|d: CncDevice| d@)
}

/// The controller an announcement stands for once a probe of its address
/// has found a controller there: address, port, name and identifier as
/// announced, and the firmware the probe found.
pub open spec fn announced_device(a: AnnouncementView, probed: DeviceView) -> DeviceView {
    DeviceView {
        name: a.name,
        ip: a.ip,
        port: a.port,
        mac: a.identifier,
        firmware: probed.firmware,
    }
}

/// The state of one round of listening for announcements.
pub struct MulticastDiscovery {
    devices: Vec<CncDevice>,
    stop_on_first: bool,
    budget_ms: u64,
    discarded: u64,
}

/// The state of a round of listening, as mathematical values.
pub struct MulticastView {
    /// The controllers found so far, in the order they were found.
    pub devices: Seq<DeviceView>,
    /// Whether the round ends at the first controller found.
    pub stop_on_first: bool,
    /// How long the round may last, in milliseconds.
    pub budget_ms: u64,
    /// How many datagrams and probes led to no controller.
    pub discarded: u64,
}

/// Whether a round in state `s` goes on listening after `elapsed_ms`.
pub open spec fn listening(s: MulticastView, elapsed_ms: u64) -> bool {
    elapsed_ms < s.budget_ms && !(s.stop_on_first && s.devices.len() > 0)
}

/// One more discarded datagram or probe, counted up to the largest `u64`.
pub open spec fn count_up(n: u64) -> u64 {
    if n < u64::MAX {
        (n + 1) as u64
    } else {
        n
    }
}

impl View for MulticastDiscovery {
    type V = MulticastView;

    closed spec fn view(&self) -> MulticastView {
        MulticastView {
            devices: devices_view(self.devices@),
            stop_on_first: self.stop_on_first,
            budget_ms: self.budget_ms,
            discarded: self.discarded,
        }
    }
}

impl MulticastDiscovery {
    /// A round that may last `budget_ms`, and that ends at the first
    /// controller found when `stop_on_first` is set, else when time is up.
    pub fn new(budget_ms: u64, stop_on_first: bool) -> (r: MulticastDiscovery)
        ensures
            r@ == (MulticastView { devices: Seq::empty(), stop_on_first, budget_ms, discarded: 0 }),
    {
        let r = MulticastDiscovery { devices: Vec::new(), stop_on_first, budget_ms, discarded: 0 };
        assert(r@.devices =~= Seq::empty());
        r
    }

    /// Whether to go on listening after `elapsed_ms`.
    pub fn keep_listening(&self, elapsed_ms: u64) -> (r: bool)
        ensures
            r == listening(self@, elapsed_ms),
    {
        elapsed_ms < self.budget_ms && !(self.stop_on_first && self.devices.len() > 0)
    }

    /// Takes in a received datagram. An announcement in it is handed back,
    /// to be probed; anything else is counted and skipped, and the round
    /// goes on as before.
    pub fn on_datagram(&mut self, datagram: &[u8]) -> (r: Option<Announcement>)
        ensures
            match datagram_announcement(datagram@) {
                Some(a) => r matches Some(x) && x@ == a && final(self)@ == old(self)@,
                None => r is None && final(self)@ == (MulticastView {
                    discarded: count_up(old(self)@.discarded),
                    ..old(self)@
                }),
            },
            forall|e: u64| listening(final(self)@, e) == listening(old(self)@, e),
            r matches Some(x) ==> x.well_formed(),
    {
        match decode_datagram(datagram) {
            Ok(a) => Some(a),
            Err(_) => {
                if self.discarded < u64::MAX {
                    self.discarded = self.discarded + 1;
                }
                None
            },
        }
    }

    /// Takes in what probing an announced address brought back. The
    /// controller is kept, as announced, exactly when the status reply
    /// carries a marker; anything else is counted, and the round goes on.
    pub fn on_probe(&mut self, announcement: &Announcement, exchange: ProbeExchange)
        ensures
            match probe_outcome(announcement@.ip, announcement@.port, exchange) {
                Some(d) => final(self)@ == (MulticastView {
                    devices: old(self)@.devices.push(announced_device(announcement@, d)),
                    ..old(self)@
                }) && (announcement.well_formed() ==> present_not_empty(
                    final(self)@.devices.last().mac,
                ) && present_not_empty(final(self)@.devices.last().firmware)),
                None => final(self)@ == (MulticastView {
                    discarded: count_up(old(self)@.discarded),
                    ..old(self)@
                }),
            },
    {
        match probe_result(announcement.ip.as_str(), announcement.port, exchange) {
            Ok(d) => {
                let found = CncDevice {
                    name: announcement.name.clone(),
                    ip: announcement.ip.clone(),
                    port: announcement.port,
                    mac: copy_opt_text(&announcement.identifier),
                    firmware: d.firmware,
                };
                self.devices.push(found);
                assert(devices_view(self.devices@) =~= old(self)@.devices.push(
                    announced_device(announcement@, d@),
                ));
            },
            Err(_) => {
                if self.discarded < u64::MAX {
                    self.discarded = self.discarded + 1;
                }
            },
        }
    }

    /// How many datagrams and probes led to no controller.
    pub fn discarded(&self) -> (r: u64)
        ensures
            r == self@.discarded,
    {
        self.discarded
    }

    /// The controllers found, in the order they were found.
    pub fn into_devices(self) -> (r: Vec<CncDevice>)
        ensures
            devices_view(r@) == self@.devices,
    {
        self.devices
    }
}

/// Whether the fallback address must be tried after listening for
/// announcements: the round found nothing, or could not be held.
pub fn needs_fallback(multicast: &Result<MulticastDiscovery, CncError>) -> (r: bool)
    ensures
        r == !(multicast matches Ok(m) && m@.devices.len() > 0),
{
    match multicast {
        Ok(m) => m.devices.len() == 0,
        Err(_) => true,
    }
}

/// What probing the address `ip:port` directly yields: the controller
/// there, or nothing, which is no error.
pub fn direct_result(ip: &str, port: u16, exchange: ProbeExchange) -> (r: Option<CncDevice>)
    ensures
        match probe_outcome(ip@, port, exchange) {
            Some(d) => r matches Some(x) && x@ == d,
            None => r is None,
        },
{
    match probe_result(ip, port, exchange) {
        Ok(d) => Some(d),
        Err(_) => None,
    }
}

/// The controllers a discovery reports: those the round of listening
/// found if it found any, else what the fallback address gave. Finding
/// none is an empty list, never an error.
pub fn discovery_result(
    multicast: Result<MulticastDiscovery, CncError>,
    fallback: Option<CncDevice>,
) -> (r: Vec<CncDevice>)
    ensures
        (multicast matches Ok(m) && m@.devices.len() > 0) ==> (multicast matches Ok(m)
            && devices_view(r@) == m@.devices),
        !(multicast matches Ok(m) && m@.devices.len() > 0) ==> match fallback {
            Some(d) => r@ == seq![d],
            None => r@.len() == 0,
        },
{
    match multicast {
        Ok(m) => {
            if m.devices.len() > 0 {
                return m.into_devices();
            }
        },
        Err(_) => {},
    }
    let mut r: Vec<CncDevice> = Vec::new();
    match fallback {
        Some(d) => {
            r.push(d);
            assert(r@ =~= seq![d]);
        },
        None => {},
    }
    r
}

} // verus!
