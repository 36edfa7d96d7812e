//! The per-fixture connection state machine.
//!
//! A fixture starts Disconnected, moves to Connecting when a scan result
//! matches its configured hardware identifier, and to Connected when both
//! the connect and the service discovery succeed; any failure, a failed
//! write, a missing characteristic or a detected connection loss puts it
//! back to Disconnected, where its own loop retries indefinitely. The
//! transport holds a device handle exactly while the state is not
//! Disconnected; the transitions here decide, the caller performs the
//! slow calls and hands their outcomes back as plain events.

use vstd::prelude::*;

use crate::color::Color;
use crate::command::{command_bytes, encode_color};
use crate::dirty_details::{spec_is_dirty, DirtyDetails};

verus! {

/// Where a fixture stands with its physical device.
#[derive(Clone, Copy, Debug, PartialEq, Eq, Structural)]
pub enum ConnectionState {
    /// No device handle; scanning for the configured identifier.
    Disconnected,
    /// A handle is being established: connect, then service discovery.
    Connecting,
    /// The handle is open; writes are possible.
    Connected,
}

/// One configured fixture: its identity, its DMX window, the color the
/// bridge wants on it, the dirty tracker and the connection state.
#[derive(Clone, Copy, Debug, PartialEq, Eq, Structural)]
pub struct Light {
    pub id: u64,
    pub universe: u16,
    pub address: u16,
    pub color: Color,
    pub dirty_details: DirtyDetails,
    pub state: ConnectionState,
}

/// The fixture after a frame maps a new color onto it: identical values
/// change nothing, different values replace the color and set the dirty
/// flag.
pub open spec fn spec_set_color(l: Light, red: u8, green: u8, blue: u8) -> Light {
    if l.color.red == red && l.color.green == green && l.color.blue == blue {
        l
    } else {
        Light {
            color: Color { red, green, blue },
            dirty_details: DirtyDetails { dirty: true, ..l.dirty_details },
            ..l
        }
    }
}

/// The fixture after a scan result: a Disconnected fixture whose
/// identifier is seen begins connecting; anything else is unchanged.
pub open spec fn spec_on_device_seen(l: Light, seen_id: u64) -> Light {
    if l.state == ConnectionState::Disconnected && seen_id == l.id {
        Light { state: ConnectionState::Connecting, ..l }
    } else {
        l
    }
}

/// The fixture after the connect call returns: a failure while Connecting
/// drops back to Disconnected; success keeps it Connecting until service
/// discovery also succeeds.
pub open spec fn spec_on_connect_result(l: Light, success: bool) -> Light {
    if l.state == ConnectionState::Connecting && !success {
        Light { state: ConnectionState::Disconnected, ..l }
    } else {
        l
    }
}

/// The fixture after service discovery returns: success while Connecting
/// opens the connection, failure drops back to Disconnected.
pub open spec fn spec_on_discovery_result(l: Light, success: bool) -> Light {
    if l.state == ConnectionState::Connecting {
        if success {
            Light { state: ConnectionState::Connected, ..l }
        } else {
            Light { state: ConnectionState::Disconnected, ..l }
        }
    } else {
        l
    }
}

/// The fixture after a characteristic write returns: success records a
/// clean write at the given time; failure drops the connection so the
/// fixture's loop reconnects.
pub open spec fn spec_on_write_result(l: Light, success: bool, now_ms: u64) -> Light {
    if success {
        Light {
            dirty_details: DirtyDetails { dirty: false, last_clean_time: now_ms },
            ..l
        }
    } else {
        Light { state: ConnectionState::Disconnected, ..l }
    }
}

impl Light {
    /// A fixture as configured: black, dirty, Disconnected.
    pub fn new(id: u64, universe: u16, address: u16, now_ms: u64) -> (l: Self)
        ensures
            l.id == id,
            l.universe == universe,
            l.address == address,
            l.color == (Color { red: 0, green: 0, blue: 0 }),
            l.dirty_details == (DirtyDetails { dirty: true, last_clean_time: now_ms }),
            l.state == ConnectionState::Disconnected,
    {
        Self {
            id,
            universe,
            address,
            color: Color::new(0, 0, 0),
            dirty_details: DirtyDetails::new(now_ms),
            state: ConnectionState::Disconnected,
        }
    }

    /// Maps a new desired color onto the fixture. A value identical to the
    /// current one is a no-op, so the high-rate resends of the upstream
    /// protocol do not mark the fixture dirty again.
    pub fn set_color_rgb(&mut self, red: u8, green: u8, blue: u8)
        ensures
            *final(self) == spec_set_color(*old(self), red, green, blue),
            old(self).color == (Color { red, green, blue }) ==> *final(self) == *old(self),
            old(self).color != (Color { red, green, blue }) ==> final(self).color == (Color {
                red,
                green,
                blue,
            }) && final(self).dirty_details.dirty,
    {
        if self.color.red == red && self.color.green == green && self.color.blue == blue {
            return;
        }
        self.color = Color::new(red, green, blue);
        self.dirty_details.dirty();
    }

    /// Reacts to one scan result; true exactly when a connect attempt
    /// should begin.
    pub fn on_device_seen(&mut self, seen_id: u64) -> (begin_connect: bool)
        ensures
            *final(self) == spec_on_device_seen(*old(self), seen_id),
            begin_connect == (old(self).state == ConnectionState::Disconnected
                && seen_id == old(self).id),
    {
        if matches!(self.state, ConnectionState::Disconnected) && seen_id == self.id {
            self.state = ConnectionState::Connecting;
            true
        } else {
            false
        }
    }

    /// Reacts to the outcome of the connect call.
    pub fn on_connect_result(&mut self, success: bool)
        ensures
            *final(self) == spec_on_connect_result(*old(self), success),
    {
        if matches!(self.state, ConnectionState::Connecting) && !success {
            self.state = ConnectionState::Disconnected;
        }
    }

    /// Reacts to the outcome of service discovery.
    pub fn on_discovery_result(&mut self, success: bool)
        ensures
            *final(self) == spec_on_discovery_result(*old(self), success),
    {
        if matches!(self.state, ConnectionState::Connecting) {
            if success {
                self.state = ConnectionState::Connected;
            } else {
                self.state = ConnectionState::Disconnected;
            }
        }
    }

    /// Reacts to the outcome of a characteristic write.
    pub fn on_write_result(&mut self, success: bool, now_ms: u64)
        ensures
            *final(self) == spec_on_write_result(*old(self), success, now_ms),
    {
        if success {
            self.dirty_details.clean(now_ms);
        } else {
            self.state = ConnectionState::Disconnected;
        }
    }

    /// Reacts to a detected connection loss: the handle is gone, scan
    /// again.
    pub fn on_connection_lost(&mut self)
        ensures
            *final(self) == (Light { state: ConnectionState::Disconnected, ..*old(self) }),
    {
        self.state = ConnectionState::Disconnected;
    }

    /// Best-effort shutdown: the fixture no longer holds a device.
    pub fn disconnect(&mut self)
        ensures
            *final(self) == (Light { state: ConnectionState::Disconnected, ..*old(self) }),
    {
        self.state = ConnectionState::Disconnected;
    }

    /// Whether a write should be issued this tick: only on an open
    /// connection, and only when the fixture is dirty.
    pub fn needs_write(&self, now_ms: u64) -> (r: bool)
        ensures
            r == (self.state == ConnectionState::Connected
                && spec_is_dirty(self.dirty_details, now_ms)),
    {
        matches!(self.state, ConnectionState::Connected) && self.dirty_details.is_dirty(now_ms)
    }

    /// The command frame that would put the desired color on the device.
    pub fn current_command(&self) -> (cmd: Vec<u8>)
        ensures
            cmd@ == command_bytes(self.color),
    {
        encode_color(&self.color)
    }

    pub fn is_connected(&self) -> (r: bool)
        ensures
            r == (self.state == ConnectionState::Connected),
    {
        matches!(self.state, ConnectionState::Connected)
    }

    pub fn get_address(&self) -> (r: u16)
        ensures
            r == self.address,
    {
        self.address
    }

    pub fn get_universe(&self) -> (r: u16)
        ensures
            r == self.universe,
    {
        self.universe
    }

    pub fn get_id(&self) -> (r: u64)
        ensures
            r == self.id,
    {
        self.id
    }
}

/// One whole failed connect attempt from Disconnected: the fixture's
/// identifier is seen, the connect call fails.
pub open spec fn spec_failed_attempt(l: Light) -> Light {
    spec_on_connect_result(spec_on_device_seen(l, l.id), false)
}

/// Law: a fixture that keeps failing its connect attempts is back in
/// Disconnected after every attempt, holding no device and with its
/// identity, color and dirty tracking untouched; nothing caps the retries.
pub proof fn lemma_failed_connects_return_to_disconnected(l: Light)
    requires
        l.state == ConnectionState::Disconnected,
    ensures
        spec_failed_attempt(l) == l,
        spec_failed_attempt(spec_failed_attempt(l)) == l,
        spec_failed_attempt(spec_failed_attempt(spec_failed_attempt(l))) == l,
{
}

} // verus!
