//! The state of the two ports, and of both together.

use vstd::prelude::*;
#[allow(unused_imports)]
use vstd::string::*;

verus! {

/// A colour by its red, green and blue parts.
#[derive(Clone, Copy, Debug, PartialEq, Eq, Structural)]
pub struct Rgb {
    pub r: u8,
    pub g: u8,
    pub b: u8,
}

pub open spec fn rgb(r: u8, g: u8, b: u8) -> Rgb {
    Rgb { r, g, b }
}

#[derive(Clone, Copy, Debug, PartialEq, Eq, Structural)]
pub enum PortState {
    Disconnected,
    Connecting,
    Ready,
    LostCommunication,
    Disconnecting,
}

impl PortState {
    pub open spec fn spec_label(self) -> Seq<char> {
        match self {
            PortState::Disconnected => "Disconnected"@,
            PortState::Connecting => "Connecting"@,
            PortState::Ready => "Ready"@,
            PortState::LostCommunication => "Lost Communication"@,
            PortState::Disconnecting => "Disconnecting"@,
        }
    }

    pub fn label(self) -> (r: &'static str)
        ensures
            r@ == self.spec_label(),
    {
        match self {
            PortState::Disconnected => "Disconnected",
            PortState::Connecting => "Connecting",
            PortState::Ready => "Ready",
            PortState::LostCommunication => "Lost Communication",
            PortState::Disconnecting => "Disconnecting",
        }
    }

    pub open spec fn spec_color(self) -> Rgb {
        match self {
            PortState::Disconnected => rgb(180, 70, 70),
            PortState::Connecting => rgb(200, 160, 60),
            PortState::Disconnecting => rgb(200, 160, 60),
            PortState::Ready => rgb(70, 170, 100),
            PortState::LostCommunication => rgb(200, 90, 40),
        }
    }

    pub fn color(self) -> (c: Rgb)
        ensures
            c == self.spec_color(),
    {
        match self {
            PortState::Disconnected => Rgb { r: 180, g: 70, b: 70 },
            PortState::Connecting => Rgb { r: 200, g: 160, b: 60 },
            PortState::Disconnecting => Rgb { r: 200, g: 160, b: 60 },
            PortState::Ready => Rgb { r: 70, g: 170, b: 100 },
            PortState::LostCommunication => Rgb { r: 200, g: 90, b: 40 },
        }
    }

    pub fn is_ready(self) -> (r: bool)
        ensures
            r == (self is Ready),
    {
        match self {
            PortState::Ready => true,
            _ => false,
        }
    }

    /// Whether the port is not in use.
    pub fn is_idle(self) -> (r: bool)
        ensures
            r == (self is Disconnected),
    {
        match self {
            PortState::Disconnected => true,
            _ => false,
        }
    }
}

impl Default for PortState {
    fn default() -> (r: Self)
        ensures
            r is Disconnected,
    {
        PortState::Disconnected
    }
}

#[derive(Clone, Copy, Debug, PartialEq, Eq, Structural)]
pub enum OverallState {
    Ready,
    NotReady,
}

impl OverallState {
    /// Ready where both ports are.
    pub fn from_ports(vtx: PortState, meter: PortState) -> (r: Self)
        ensures
            r is Ready <==> vtx is Ready && meter is Ready,
    {
        if vtx.is_ready() && meter.is_ready() {
            OverallState::Ready
        } else {
            OverallState::NotReady
        }
    }

    pub fn label(self) -> (r: &'static str)
        ensures
            r@ == (match self {
                OverallState::Ready => "Ready"@,
                OverallState::NotReady => "Not Ready"@,
            }),
    {
        match self {
            OverallState::Ready => "Ready",
            OverallState::NotReady => "Not Ready",
        }
    }

    pub fn color(self) -> (c: Rgb)
        ensures
            c == (match self {
                OverallState::Ready => rgb(70, 170, 100),
                OverallState::NotReady => rgb(180, 70, 70),
            }),
    {
        match self {
            OverallState::Ready => Rgb { r: 70, g: 170, b: 100 },
            OverallState::NotReady => Rgb { r: 180, g: 70, b: 70 },
        }
    }
}

/// The states of a port are told apart by their names, and by their colours but for the two
/// that are on their way.
pub proof fn law_port_states_look_different(a: PortState, b: PortState)
    ensures
        a.spec_label() == b.spec_label() ==> a == b,
        a.spec_color() == b.spec_color() ==> a == b || a is Connecting && b is Disconnecting
            || a is Disconnecting && b is Connecting,
        a is Ready <==> a.spec_color().g > a.spec_color().r,
{
    reveal_strlit("Disconnected");
    reveal_strlit("Connecting");
    reveal_strlit("Ready");
    reveal_strlit("Lost Communication");
    reveal_strlit("Disconnecting");
    assert("Disconnected"@.len() == 12 && "Connecting"@.len() == 10 && "Ready"@.len() == 5);
    assert("Lost Communication"@.len() == 18 && "Disconnecting"@.len() == 13);
}

} // verus!
