use vstd::prelude::*;
use vstd::utf8::{decode_utf8, valid_utf8};

use crate::device::{CncConnection, CncDevice, CncError, DeviceView};
use crate::text::{
    chars_of, contains, contains_chars, decimal_of, decode_lossy, lossy_text_of, push_decimal,
    trim_text, trimmed,
};

verus! {

/// Bound on opening a session, in milliseconds.
pub const SESSION_CONNECT_TIMEOUT_MS: u64 = 5000;

/// Bound on each session read, in milliseconds.
pub const SESSION_READ_TIMEOUT_MS: u64 = 5000;

/// Bound on each session write, in milliseconds.
pub const SESSION_WRITE_TIMEOUT_MS: u64 = 1000;

/// Size of the buffer a command's reply is read into.
pub const COMMAND_BUFFER_LEN: usize = 1024;

/// A command as it goes on the wire: the text and one line break.
pub open spec fn command_line(command: Seq<char>) -> Seq<char> {
    command + seq!['\n']
}

/// `r` is what sending `command` in session state `state` hands back: the
/// line to write when a session is open, else `NotConnected`.
pub open spec fn sends(
    state: Option<DeviceView>,
    command: Seq<char>,
    r: Result<String, CncError>,
) -> bool {
    match state {
        Some(_) => r matches Ok(line) && line@ == command_line(command),
        None => r matches Err(CncError::NotConnected),
    }
}

/// The command for a relative jog of `axis` by `distance` at `feed_rate`.
pub open spec fn jog_command(axis: Seq<char>, distance: Seq<char>, feed_rate: u32) -> Seq<char> {
    "$J=G91"@ + axis + distance + "F"@ + decimal_of(feed_rate as nat)
}

/// The command that makes the current position the work zero of `axes`.
pub open spec fn work_zero_command(axes: Seq<char>) -> Seq<char> {
    "G10L20P1"@ + axes
}

/// The one session with a controller. It is either disconnected or bound
/// to the controller it was opened against; the link itself is held by the
/// caller, who writes the lines this hands out and reads the replies.
pub struct CncManager {
    device_info: Option<CncDevice>,
}

impl View for CncManager {
    type V = Option<DeviceView>;

    /// The controller of the open session, if one is open.
    closed spec fn view(&self) -> Option<DeviceView> {
        match self.device_info {
            Some(d) => Some(d@),
            None => None,
        }
    }
}

impl CncManager {
    /// A manager with no session open.
    pub fn new() -> (r: CncManager)
        ensures
            r@ is None,
    {
        CncManager { device_info: None }
    }

    /// Records the outcome of opening a link to `device`, which is allowed
    /// only while no session is open. An opened link makes `device` the
    /// controller of the session; a failure is handed back and leaves the
    /// manager disconnected.
    pub fn connect(&mut self, device: &CncDevice, opened: Result<(), CncError>) -> (r: Result<
        (),
        CncError,
    >)
        requires
            old(self)@ is None,
        ensures
            match opened {
                Ok(_) => r is Ok && final(self)@ == Some(device@),
                Err(e) => r == Err::<(), CncError>(e) && final(self)@ is None,
            },
    {
        match opened {
            Ok(_) => {
                self.device_info = Some(device.duplicate());
                Ok(())
            },
            Err(e) => Err(e),
        }
    }

    /// The line to write for `command`: the command and a line break. Fails
    /// with `NotConnected` exactly when no session is open.
    pub fn send_command(&self, command: &str) -> (r: Result<String, CncError>)
        ensures
            sends(self@, command@, r),
            r matches Err(CncError::NotConnected) <==> self@ is None,
    {
        match &self.device_info {
            Some(_) => {
                let mut line = String::from_str(command);
                line.append("\n");
                proof {
                    reveal_strlit("\n");
                }
                assert(line@ =~= command_line(command@));
                Ok(line)
            },
            None => Err(CncError::NotConnected),
        }
    }

    /// The session's controller, if a session is open.
    pub fn get_connection_status(&self) -> (r: Option<CncConnection>)
        ensures
            match self@ {
                Some(d) => r matches Some(c) && c.device@ == d && c.connected,
                None => r is None,
            },
    {
        match &self.device_info {
            Some(d) => Some(CncConnection { device: d.duplicate(), connected: true }),
            None => None,
        }
    }

    /// Ends the session, if one is open. Always succeeds and always leaves
    /// the manager disconnected, also when it was disconnected already.
    pub fn disconnect(&mut self)
        ensures
            final(self)@ is None,
    {
        self.device_info = None;
    }

    /// The line for a relative jog of `axis` by `distance` (its decimal
    /// text) at `feed_rate`.
    pub fn jog(&self, axis: &str, distance: &str, feed_rate: u32) -> (r: Result<String, CncError>)
        ensures
            sends(self@, jog_command(axis@, distance@, feed_rate), r),
    {
        let mut command = String::from_str("$J=G91");
        command.append(axis);
        command.append(distance);
        command.append("F");
        push_decimal(&mut command, feed_rate as u64);
        self.send_command(command.as_str())
    }

    /// The line for a status query.
    pub fn get_status(&self) -> (r: Result<String, CncError>)
        ensures
            sends(self@, "?"@, r),
    {
        self.send_command("?")
    }

    /// The line for the homing cycle.
    pub fn home(&self) -> (r: Result<String, CncError>)
        ensures
            sends(self@, "$H"@, r),
    {
        self.send_command("$H")
    }

    /// The line for a soft reset, the control byte 0x18.
    pub fn reset(&self) -> (r: Result<String, CncError>)
        ensures
            sends(self@, "\x18"@, r),
    {
        self.send_command("\x18")
    }

    /// The line that sets the work zero of `axes`.
    pub fn set_work_zero(&self, axes: &str) -> (r: Result<String, CncError>)
        ensures
            sends(self@, work_zero_command(axes@), r),
    {
        let mut command = String::from_str("G10L20P1");
        command.append(axes);
        self.send_command(command.as_str())
    }

    /// The line for the status query whose reply tells whether the
    /// controller is in alarm; `alarm_reported` reads that reply.
    pub fn check_alarm_status(&self) -> (r: Result<String, CncError>)
        ensures
            sends(self@, "?"@, r),
    {
        self.get_status()
    }
}

/// The text of a command's reply, decoded and trimmed.
pub fn response_text(reply: &[u8]) -> (r: String)
    ensures
        r@ == trimmed(lossy_text_of(reply@)),
        valid_utf8(reply@) ==> r@ == trimmed(decode_utf8(reply@)),
{
    let text = decode_lossy(reply);
    trim_text(text.as_str())
}

/// Whether a status reply reports an alarm.
pub fn alarm_reported(reply: &str) -> (r: bool)
    ensures
        r == contains(reply@, "Alarm"@),
{
    contains_chars(&chars_of(reply), &chars_of("Alarm"))
}

} // verus!
