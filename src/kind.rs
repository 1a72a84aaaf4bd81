use vstd::prelude::*;

verus! {

/// The two kinds of virtual interface: IP-layer tunnels and Ethernet-layer taps.
#[derive(Clone, Copy, Debug, PartialEq, Eq, Structural)]
pub enum VirtualInterfaceType {
    Tun,
    Tap,
}

impl VirtualInterfaceType {
    /// The device class of the kind, which names its clone device node.
    pub open spec fn class_spec(self) -> Seq<char> {
        match self {
            VirtualInterfaceType::Tun => seq!['t', 'u', 'n'],
            VirtualInterfaceType::Tap => seq!['t', 'a', 'p'],
        }
    }

    pub fn class_name(&self) -> (r: &'static str)
        ensures
            r@ == self.class_spec(),
    {
        match self {
            VirtualInterfaceType::Tun => {
                proof {
                    reveal_strlit("tun");
                }
                "tun"
            },
            VirtualInterfaceType::Tap => {
                proof {
                    reveal_strlit("tap");
                }
                "tap"
            },
        }
    }
}

/// Metadata shared by all queues of one interface: its kernel name and kind.
pub struct VirtualInterfaceInfo {
    pub name: String,
    pub iface_type: VirtualInterfaceType,
}

impl VirtualInterfaceInfo {
    /// Records the name the kernel assigned and the kind that was requested.
    pub fn new(name: String, iface_type: VirtualInterfaceType) -> (r: VirtualInterfaceInfo)
        ensures
            r.name@ == name@,
            r.iface_type == iface_type,
    {
        VirtualInterfaceInfo { name, iface_type }
    }
}

} // verus!
