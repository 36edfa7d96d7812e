//! Routing decoded DMX frames onto the configured fixtures.
//!
//! The controller owns one `Light` per configured fixture. For every frame
//! it maps, onto each fixture of the frame's universe, the three channel
//! bytes at the fixture's start address; a fixture whose window runs past
//! the frame's channel data is skipped without error, and the rest of the
//! fixtures still receive theirs. The socket work around it, receiving
//! datagrams and joining the multicast groups, happens outside and hands
//! in plain buffers.

use vstd::prelude::*;

use crate::light::Light;
use crate::sacn_packet::SacnDmxPacket;

verus! {

/// One fixture as configured: hardware identifier, universe and DMX start
/// address; the fixture consumes that address and the two after it.
#[derive(Clone, Copy, Debug, PartialEq, Eq, Structural)]
pub struct LightConfig {
    pub id: u64,
    pub universe: u16,
    pub address: u16,
}

/// The fixture list loaded once at startup.
pub struct Config {
    pub lights: Vec<LightConfig>,
}

impl Config {
    /// The distinct universes the fixtures reference, each once, in first
    /// appearance order.
    pub fn get_universes(&self) -> (r: Vec<u16>)
        ensures
            forall|i: int, j: int| 0 <= i < j < r@.len() ==> r@[i] != r@[j],
            forall|u: u16|
                r@.contains(u) <==> (exists|k: int|
                    0 <= k < self.lights@.len() && self.lights@[k].universe == u),
    {
        let mut universes: Vec<u16> = Vec::new();
        let mut i: usize = 0;
        while i < self.lights.len()
            invariant
                i <= self.lights@.len(),
                forall|a: int, b: int|
                    0 <= a < b < universes@.len() ==> universes@[a] != universes@[b],
                forall|u: u16|
                    universes@.contains(u) <==> (exists|k: int|
                        0 <= k < i && self.lights@[k].universe == u),
            decreases self.lights@.len() - i,
        {
            let u = self.lights[i].universe;
            let ghost pre = universes@;
            let seen = contains_u16(&universes, u);
            if !seen {
                universes.push(u);
            }
            proof {
                if !seen {
                    assert(universes@ == pre.push(u));
                    assert(universes@[pre.len() as int] == u);
                    assert forall|a: int, b: int|
                        0 <= a < b < universes@.len() implies universes@[a] != universes@[b] by {
                        if b == pre.len() {
                            assert(universes@[a] == pre[a]);
                            assert(pre.contains(pre[a]));
                        }
                    }
                }
                assert forall|v: u16| universes@.contains(v) implies (exists|k: int|
                    0 <= k < i + 1 && self.lights@[k].universe == v) by {
                    let idx = choose|idx: int|
                        0 <= idx < universes@.len() && universes@[idx] == v;
                    if idx < pre.len() {
                        assert(pre[idx] == v);
                        assert(pre.contains(v));
                    } else {
                        assert(v == u);
                        assert(self.lights@[i as int].universe == v);
                    }
                }
                assert forall|v: u16| (exists|k: int|
                    0 <= k < i + 1 && self.lights@[k].universe == v) implies universes@.contains(
                    v,
                ) by {
                    let k = choose|k: int| 0 <= k < i + 1 && self.lights@[k].universe == v;
                    if k < i {
                        assert(pre.contains(v));
                        let idx = choose|idx: int| 0 <= idx < pre.len() && pre[idx] == v;
                        assert(universes@[idx] == v);
                    } else {
                        assert(v == u);
                        if seen {
                            let idx = choose|idx: int| 0 <= idx < pre.len() && pre[idx] == u;
                            assert(universes@[idx] == u);
                        } else {
                            assert(universes@[pre.len() as int] == u);
                        }
                    }
                }
            }
            i += 1;
        }
        universes
    }
}

/// Whether the vector holds the value.
fn contains_u16(v: &Vec<u16>, x: u16) -> (r: bool)
    ensures
        r == v@.contains(x),
{
    let mut i: usize = 0;
    while i < v.len()
        invariant
            i <= v@.len(),
            forall|k: int| 0 <= k < i ==> v@[k] != x,
        decreases v@.len() - i,
    {
        if v[i] == x {
            return true;
        }
        i += 1;
    }
    false
}

/// The multicast group an sACN universe is carried on:
/// 239.255.(universe high byte).(universe low byte).
pub fn multicast_octets(universe: u16) -> (r: (u8, u8, u8, u8))
    ensures
        r.0 == 239u8,
        r.1 == 255u8,
        r.2 as int == universe as int / 256,
        r.3 as int == universe as int % 256,
{
    (239, 255, (universe / 256) as u8, (universe % 256) as u8)
}

/// A fixture after one frame is routed: it takes the three channel bytes
/// at its start address when the frame is for its universe and long
/// enough; otherwise it is left exactly as it was.
pub open spec fn spec_route_one(l: Light, universe: u16, data: Seq<u8>) -> Light {
    if l.universe == universe && l.address + 3 <= data.len() {
        crate::light::spec_set_color(
            l,
            data[l.address as int],
            data[l.address as int + 1],
            data[l.address as int + 2],
        )
    } else {
        l
    }
}

/// The set of fixtures and the routing of frames onto them.
pub struct LightController {
    pub lights: Vec<Light>,
}

impl LightController {
    /// One fixture per configured entry, created Disconnected and dirty.
    pub fn new(config: &Config, now_ms: u64) -> (c: Self)
        ensures
            c.lights@.len() == config.lights@.len(),
            forall|i: int|
                0 <= i < config.lights@.len() ==> c.lights@[i] == (Light {
                    id: config.lights@[i].id,
                    universe: config.lights@[i].universe,
                    address: config.lights@[i].address,
                    color: crate::color::Color { red: 0, green: 0, blue: 0 },
                    dirty_details: crate::dirty_details::DirtyDetails {
                        dirty: true,
                        last_clean_time: now_ms,
                    },
                    state: crate::light::ConnectionState::Disconnected,
                }),
    {
        let mut lights: Vec<Light> = Vec::new();
        let mut i: usize = 0;
        while i < config.lights.len()
            invariant
                i <= config.lights@.len(),
                lights@.len() == i,
                forall|k: int|
                    0 <= k < i ==> lights@[k] == (Light {
                        id: config.lights@[k].id,
                        universe: config.lights@[k].universe,
                        address: config.lights@[k].address,
                        color: crate::color::Color { red: 0, green: 0, blue: 0 },
                        dirty_details: crate::dirty_details::DirtyDetails {
                            dirty: true,
                            last_clean_time: now_ms,
                        },
                        state: crate::light::ConnectionState::Disconnected,
                    }),
            decreases config.lights@.len() - i,
        {
            let lc = config.lights[i];
            lights.push(Light::new(lc.id, lc.universe, lc.address, now_ms));
            i += 1;
        }
        Self { lights }
    }

    /// Routes one decoded frame: every fixture of the frame's universe
    /// whose channel window fits takes its three bytes; every other
    /// fixture, and every fixture whose window runs past the data, is
    /// untouched.
    pub fn handle_packet(&mut self, packet: &SacnDmxPacket)
        ensures
            final(self).lights@.len() == old(self).lights@.len(),
            forall|i: int|
                0 <= i < old(self).lights@.len() ==> final(self).lights@[i] == spec_route_one(
                    old(self).lights@[i],
                    packet.universe,
                    packet.dmx_data@,
                ),
    {
        let mut i: usize = 0;
        while i < self.lights.len()
            invariant
                i <= self.lights@.len(),
                self.lights@.len() == old(self).lights@.len(),
                forall|k: int|
                    0 <= k < i ==> self.lights@[k] == spec_route_one(
                        old(self).lights@[k],
                        packet.universe,
                        packet.dmx_data@,
                    ),
                forall|k: int|
                    i <= k < self.lights@.len() ==> self.lights@[k] == old(self).lights@[k],
            decreases self.lights@.len() - i,
        {
            let mut light = self.lights[i];
            let address = light.get_address() as usize;
            if light.get_universe() == packet.universe && address + 3 <= packet.dmx_data.len() {
                let red = packet.dmx_data[address];
                let green = packet.dmx_data[address + 1];
                let blue = packet.dmx_data[address + 2];
                light.set_color_rgb(red, green, blue);
            }
            self.lights.set(i, light);
            i += 1;
        }
    }

    /// Best-effort shutdown: every fixture releases its device.
    pub fn disconnect_all(&mut self)
        ensures
            final(self).lights@.len() == old(self).lights@.len(),
            forall|i: int|
                0 <= i < old(self).lights@.len() ==> final(self).lights@[i] == (Light {
                    state: crate::light::ConnectionState::Disconnected,
                    ..old(self).lights@[i]
                }),
    {
        let mut i: usize = 0;
        while i < self.lights.len()
            invariant
                i <= self.lights@.len(),
                self.lights@.len() == old(self).lights@.len(),
                forall|k: int|
                    0 <= k < i ==> self.lights@[k] == (Light {
                        state: crate::light::ConnectionState::Disconnected,
                        ..old(self).lights@[k]
                    }),
                forall|k: int|
                    i <= k < self.lights@.len() ==> self.lights@[k] == old(self).lights@[k],
            decreases self.lights@.len() - i,
        {
            let mut light = self.lights[i];
            light.disconnect();
            self.lights.set(i, light);
            i += 1;
        }
    }
}

/// Law: a frame for a universe a fixture is not configured on leaves that
/// fixture exactly as it was.
pub proof fn lemma_route_no_universe_match(l: Light, universe: u16, data: Seq<u8>)
    requires
        l.universe != universe,
    ensures
        spec_route_one(l, universe, data) == l,
{
}

/// Law: routing a frame whose universe no configured fixture references
/// is a no-op on the whole controller.
pub proof fn lemma_route_unmatched_frame_is_no_op(lights: Seq<Light>, universe: u16, data: Seq<u8>)
    requires
        forall|i: int| 0 <= i < lights.len() ==> lights[i].universe != universe,
    ensures
        forall|i: int| 0 <= i < lights.len() ==> spec_route_one(lights[i], universe, data)
            == lights[i],
{
}

/// Law: a fixture whose three-channel window runs past the frame's data
/// is skipped, left exactly as it was; the routing of any other fixture
/// never depends on it.
pub proof fn lemma_route_window_too_short(l: Light, universe: u16, data: Seq<u8>)
    requires
        l.address + 3 > data.len(),
    ensures
        spec_route_one(l, universe, data) == l,
{
}

} // verus!
