use vstd::prelude::*;

verus! {

/// The ports of the amplifier plugin, one variant per LV2 port.
#[derive(Clone, Copy, PartialEq, Eq, Debug, Structural)]
pub enum PluginPort {
    Gain,
    Enabled,
    InputLevel,
    OutputLevel,
    Control,
    Notify,
    Input,
    Output,
}

/// Number of ports of the plugin.
pub const PLUGIN_PORT_COUNT: u32 = 8;

impl PluginPort {
    /// The LV2 port index of each port, as the plugin's description declares it.
    pub open spec fn port_index(self) -> u32 {
        match self {
            PluginPort::Gain => 0,
            PluginPort::Enabled => 1,
            PluginPort::InputLevel => 2,
            PluginPort::OutputLevel => 3,
            PluginPort::Control => 4,
            PluginPort::Notify => 5,
            PluginPort::Input => 6,
            PluginPort::Output => 7,
        }
    }

    /// The LV2 port index of this port.
    pub fn index(self) -> (i: u32)
        ensures
            i == self.port_index(),
            i < PLUGIN_PORT_COUNT,
    {
        match self {
            PluginPort::Gain => 0,
            PluginPort::Enabled => 1,
            PluginPort::InputLevel => 2,
            PluginPort::OutputLevel => 3,
            PluginPort::Control => 4,
            PluginPort::Notify => 5,
            PluginPort::Input => 6,
            PluginPort::Output => 7,
        }
    }

    /// The port that has the given index, if there is one.
    pub fn from_index(index: u32) -> (p: Option<PluginPort>)
        ensures
            p is None <==> index >= PLUGIN_PORT_COUNT,
            forall|q: PluginPort| p == Some(q) <==> q.port_index() == index,
    {
        match index {
            0 => Some(PluginPort::Gain),
            1 => Some(PluginPort::Enabled),
            2 => Some(PluginPort::InputLevel),
            3 => Some(PluginPort::OutputLevel),
            4 => Some(PluginPort::Control),
            5 => Some(PluginPort::Notify),
            6 => Some(PluginPort::Input),
            7 => Some(PluginPort::Output),
            _ => None,
        }
    }
}


/// The connection addresses that the host has handed to the plugin, one per
/// port. Address 0 stands for a port that is not connected (a null pointer).
///
/// The host connects the ports one by one and in no fixed order, so the
/// addresses are collected here until the plugin runs.
pub struct PortConnections {
    gain: usize,
    enabled: usize,
    input_level: usize,
    output_level: usize,
    control: usize,
    notify: usize,
    input: usize,
    output: usize,
}

impl PortConnections {
    /// The address stored for a port.
    pub closed spec fn address(self, p: PluginPort) -> usize {
        match p {
            PluginPort::Gain => self.gain,
            PluginPort::Enabled => self.enabled,
            PluginPort::InputLevel => self.input_level,
            PluginPort::OutputLevel => self.output_level,
            PluginPort::Control => self.control,
            PluginPort::Notify => self.notify,
            PluginPort::Input => self.input,
            PluginPort::Output => self.output,
        }
    }

    /// The cache after the port with index `index` has been given `address`.
    pub closed spec fn with_connection(self, index: u32, address: usize) -> PortConnections {
        PortConnections {
            gain: if index == 0 { address } else { self.gain },
            enabled: if index == 1 { address } else { self.enabled },
            input_level: if index == 2 { address } else { self.input_level },
            output_level: if index == 3 { address } else { self.output_level },
            control: if index == 4 { address } else { self.control },
            notify: if index == 5 { address } else { self.notify },
            input: if index == 6 { address } else { self.input },
            output: if index == 7 { address } else { self.output },
        }
    }

    /// Every port has a non-null address.
    pub open spec fn is_complete(self) -> bool {
        forall|p: PluginPort| self.address(p) != 0
    }

    /// A cache in which no port is connected.
    pub fn new() -> (c: Self)
        ensures
            forall|p: PluginPort| c.address(p) == 0,
    {
        PortConnections {
            gain: 0,
            enabled: 0,
            input_level: 0,
            output_level: 0,
            control: 0,
            notify: 0,
            input: 0,
            output: 0,
        }
    }

    /// Stores `address` for the port with index `index`; an index that names
    /// no port is ignored.
    pub fn connect(&mut self, index: u32, address: usize)
        ensures
            *final(self) == old(self).with_connection(index, address),
            forall|p: PluginPort|
                #![trigger final(self).address(p)]
                final(self).address(p) == if p.port_index() == index {
                    address
                } else {
                    old(self).address(p)
                },
    {
        match index {
            0 => { self.gain = address; },
            1 => { self.enabled = address; },
            2 => { self.input_level = address; },
            3 => { self.output_level = address; },
            4 => { self.control = address; },
            5 => { self.notify = address; },
            6 => { self.input = address; },
            7 => { self.output = address; },
            _ => {},
        }
    }

    /// The address stored for port `p`.
    pub fn address_of(&self, p: PluginPort) -> (a: usize)
        ensures
            a == self.address(p),
    {
        match p {
            PluginPort::Gain => self.gain,
            PluginPort::Enabled => self.enabled,
            PluginPort::InputLevel => self.input_level,
            PluginPort::OutputLevel => self.output_level,
            PluginPort::Control => self.control,
            PluginPort::Notify => self.notify,
            PluginPort::Input => self.input,
            PluginPort::Output => self.output,
        }
    }

    /// Whether every port is connected, which is when a full set of ports can
    /// be built for a processing cycle.
    pub fn all_connected(&self) -> (b: bool)
        ensures
            b == self.is_complete(),
    {
        let b = self.gain != 0 && self.enabled != 0 && self.input_level != 0
            && self.output_level != 0 && self.control != 0 && self.notify != 0
            && self.input != 0 && self.output != 0;
        proof {
            if !b {
                assert(exists|p: PluginPort| self.address(p) == 0) by {
                    if self.gain == 0 { assert(self.address(PluginPort::Gain) == 0); }
                    else if self.enabled == 0 { assert(self.address(PluginPort::Enabled) == 0); }
                    else if self.input_level == 0 { assert(self.address(PluginPort::InputLevel) == 0); }
                    else if self.output_level == 0 { assert(self.address(PluginPort::OutputLevel) == 0); }
                    else if self.control == 0 { assert(self.address(PluginPort::Control) == 0); }
                    else if self.notify == 0 { assert(self.address(PluginPort::Notify) == 0); }
                    else if self.input == 0 { assert(self.address(PluginPort::Input) == 0); }
                    else { assert(self.address(PluginPort::Output) == 0); }
                }
            }
        }
        b
    }
}

/// The cache after the host has made the connections in `pairs`, in order;
/// each pair is a port index and an address.
pub open spec fn connect_all(c: PortConnections, pairs: Seq<(u32, usize)>) -> PortConnections
    decreases pairs.len(),
{
    if pairs.len() == 0 {
        c
    } else {
        connect_all(c, pairs.drop_last()).with_connection(pairs.last().0, pairs.last().1)
    }
}

/// Each port has its own index: two ports with the same index are the same port.
pub proof fn port_index_is_injective(p: PluginPort, q: PluginPort)
    requires
        p.port_index() == q.port_index(),
    ensures
        p == q,
{
}

/// Connecting a port changes the address of that port only, and an index
/// that names no port changes nothing.
pub proof fn connect_touches_one_port(c: PortConnections, index: u32, address: usize)
    ensures
        forall|p: PluginPort|
            #![trigger c.with_connection(index, address).address(p)]
            c.with_connection(index, address).address(p) == if p.port_index() == index {
                address
            } else {
                c.address(p)
            },
        index >= PLUGIN_PORT_COUNT ==> c.with_connection(index, address) == c,
{
}

/// The host may connect two different ports in either order.
pub proof fn connections_commute(c: PortConnections, i: u32, a: usize, j: u32, b: usize)
    requires
        i != j,
    ensures
        c.with_connection(i, a).with_connection(j, b) == c.with_connection(j, b).with_connection(
            i,
            a,
        ),
{
}

/// Connecting a port again replaces its earlier address.
pub proof fn last_connection_wins(c: PortConnections, i: u32, a: usize, b: usize)
    ensures
        c.with_connection(i, a).with_connection(i, b) == c.with_connection(i, b),
{
}

/// The address a port ends with is the one of the last connection made to
/// its index, or its earlier address when no connection names it.
proof fn address_after_connections(c: PortConnections, pairs: Seq<(u32, usize)>, p: PluginPort)
    ensures
        (forall|k: int| 0 <= k < pairs.len() ==> pairs[k].0 != p.port_index())
            ==> connect_all(c, pairs).address(p) == c.address(p),
        (forall|k: int| 0 <= k < pairs.len() ==> pairs[k].1 != 0) && (exists|k: int|
            0 <= k < pairs.len() && pairs[k].0 == p.port_index()) ==> connect_all(c, pairs).address(
            p,
        ) != 0,
    decreases pairs.len(),
{
    if pairs.len() > 0 {
        let rest = pairs.drop_last();
        address_after_connections(c, rest, p);
        if (exists|k: int| 0 <= k < pairs.len() && pairs[k].0 == p.port_index())
            && pairs.last().0 != p.port_index() {
            let k = choose|k: int| 0 <= k < pairs.len() && pairs[k].0 == p.port_index();
            assert(rest[k].0 == p.port_index());
        }
        if forall|k: int| 0 <= k < pairs.len() ==> pairs[k].0 != p.port_index() {
            assert(pairs.last().0 != p.port_index()) by {
                assert(pairs[pairs.len() - 1].0 != p.port_index());
            }
            assert forall|k: int| 0 <= k < rest.len() implies rest[k].0 != p.port_index() by {
                assert(pairs[k].0 != p.port_index());
            }
        }
        if forall|k: int| 0 <= k < pairs.len() ==> pairs[k].1 != 0 {
            assert forall|k: int| 0 <= k < rest.len() implies rest[k].1 != 0 by {
                assert(pairs[k].1 != 0);
            }
            assert(pairs[pairs.len() - 1].1 != 0);
        }
    }
}

/// Once the host has connected every port to a non-null address, in any
/// order and with any repetitions, a full set of ports can be built.
pub proof fn complete_once_every_port_connected(c: PortConnections, pairs: Seq<(u32, usize)>)
    requires
        forall|k: int| 0 <= k < pairs.len() ==> pairs[k].1 != 0,
        forall|p: PluginPort|
            #![trigger p.port_index()]
            exists|k: int| 0 <= k < pairs.len() && pairs[k].0 == p.port_index(),
    ensures
        connect_all(c, pairs).is_complete(),
{
    assert forall|p: PluginPort| connect_all(c, pairs).address(p) != 0 by {
        address_after_connections(c, pairs, p);
    }
}

impl Default for PortConnections {
    fn default() -> (c: Self)
        ensures
            forall|p: PluginPort| c.address(p) == 0,
    {
        PortConnections::new()
    }
}

} // verus!
