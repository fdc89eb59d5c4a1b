use vstd::prelude::*;
use crate::ports::PluginPort;

verus! {

/// The control ports that the user interface reads and writes.
#[derive(Clone, Copy, PartialEq, Eq, Debug, Structural)]
pub enum UiControlPort {
    Gain,
    Enabled,
    MeterIn,
    MeterOut,
}

/// The atom ports that the user interface reads and writes.
#[derive(Clone, Copy, PartialEq, Eq, Debug, Structural)]
pub enum UiAtomPort {
    Control,
    Notify,
}

impl UiControlPort {
    /// The LV2 port index of each control port.
    pub open spec fn port_index(self) -> u32 {
        match self {
            UiControlPort::Gain => 0,
            UiControlPort::Enabled => 1,
            UiControlPort::MeterIn => 2,
            UiControlPort::MeterOut => 3,
        }
    }

    /// The plugin port that this port of the user interface stands for.
    pub open spec fn plugin_port(self) -> PluginPort {
        match self {
            UiControlPort::Gain => PluginPort::Gain,
            UiControlPort::Enabled => PluginPort::Enabled,
            UiControlPort::MeterIn => PluginPort::InputLevel,
            UiControlPort::MeterOut => PluginPort::OutputLevel,
        }
    }

    /// The LV2 port index of this port.
    pub fn index(self) -> (i: u32)
        ensures
            i == self.port_index(),
    {
        match self {
            UiControlPort::Gain => 0,
            UiControlPort::Enabled => 1,
            UiControlPort::MeterIn => 2,
            UiControlPort::MeterOut => 3,
        }
    }

    /// The control port with the given index, if there is one.
    pub fn map_control_port(port_index: u32) -> (p: Option<UiControlPort>)
        ensures
            p is None <==> port_index >= 4,
            forall|q: UiControlPort| p == Some(q) <==> q.port_index() == port_index,
    {
        match port_index {
            0 => Some(UiControlPort::Gain),
            1 => Some(UiControlPort::Enabled),
            2 => Some(UiControlPort::MeterIn),
            3 => Some(UiControlPort::MeterOut),
            _ => None,
        }
    }
}

impl UiAtomPort {
    /// The LV2 port index of each atom port.
    pub open spec fn port_index(self) -> u32 {
        match self {
            UiAtomPort::Control => 4,
            UiAtomPort::Notify => 5,
        }
    }

    /// The plugin port that this port of the user interface stands for.
    pub open spec fn plugin_port(self) -> PluginPort {
        match self {
            UiAtomPort::Control => PluginPort::Control,
            UiAtomPort::Notify => PluginPort::Notify,
        }
    }

    /// The LV2 port index of this port.
    pub fn index(self) -> (i: u32)
        ensures
            i == self.port_index(),
    {
        match self {
            UiAtomPort::Control => 4,
            UiAtomPort::Notify => 5,
        }
    }

    /// The atom port with the given index, if there is one.
    pub fn map_atom_port(port_index: u32) -> (p: Option<UiAtomPort>)
        ensures
            p is None <==> (port_index < 4 || port_index > 5),
            forall|q: UiAtomPort| p == Some(q) <==> q.port_index() == port_index,
    {
        match port_index {
            4 => Some(UiAtomPort::Control),
            5 => Some(UiAtomPort::Notify),
            _ => None,
        }
    }
}

/// The user interface and the plugin agree on the port indices: every port
/// of the interface has the index of the plugin port it stands for.
pub proof fn ui_and_plugin_agree_on_indices(c: UiControlPort, a: UiAtomPort)
    ensures
        c.port_index() == c.plugin_port().port_index(),
        a.port_index() == a.plugin_port().port_index(),
{
}

/// No index names both a control port and an atom port of the interface, and
/// the audio ports of the plugin have no counterpart in the interface.
pub proof fn ui_ports_are_disjoint(c: UiControlPort, a: UiAtomPort)
    ensures
        c.port_index() != a.port_index(),
        c.plugin_port() != PluginPort::Input && c.plugin_port() != PluginPort::Output,
        a.plugin_port() != PluginPort::Input && a.plugin_port() != PluginPort::Output,
{
}

} // verus!
