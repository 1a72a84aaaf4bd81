//! What provisioning an interface asks of the kernel: which device node to open,
//! which device-control calls to make, and how the kernel's answer about the
//! device name is read.
use vstd::prelude::*;
use vstd::string::StringExecFns;
use vstd::utf8::{decode_utf8, valid_utf8};

use crate::error::TunTapError;
use crate::ioctl::{FIONBIO, IFF_BROADCAST, IFF_MULTICAST, TUNSIFHEAD, TUNSIFMODE, TUNSIFPID};
use crate::kind::VirtualInterfaceType;

verus! {

/// One device-control call made on a freshly opened device, with its argument.
#[derive(Clone, Copy, Debug, PartialEq, Eq, Structural)]
pub enum DeviceControl {
    /// Attach the device to the calling process (no argument).
    AttachToProcess,
    /// Enable or disable the link-layer header in front of each packet.
    EnableHeader(i32),
    /// Set the interface mode flags.
    SetMode(i32),
    /// Enable or disable non-blocking I/O on the descriptor.
    SetNonBlocking(i32),
}

impl DeviceControl {
    pub open spec fn request_spec(self) -> u64 {
        match self {
            DeviceControl::AttachToProcess => TUNSIFPID,
            DeviceControl::EnableHeader(_) => TUNSIFHEAD,
            DeviceControl::SetMode(_) => TUNSIFMODE,
            DeviceControl::SetNonBlocking(_) => FIONBIO,
        }
    }

    pub open spec fn argument_spec(self) -> Option<i32> {
        match self {
            DeviceControl::AttachToProcess => None,
            DeviceControl::EnableHeader(v) => Some(v),
            DeviceControl::SetMode(v) => Some(v),
            DeviceControl::SetNonBlocking(v) => Some(v),
        }
    }

    /// The request code of the call.
    pub fn request(&self) -> (r: u64)
        ensures
            r == self.request_spec(),
    {
        match self {
            DeviceControl::AttachToProcess => TUNSIFPID,
            DeviceControl::EnableHeader(_) => TUNSIFHEAD,
            DeviceControl::SetMode(_) => TUNSIFMODE,
            DeviceControl::SetNonBlocking(_) => FIONBIO,
        }
    }

    /// The integer passed by pointer to the call, if it takes one.
    pub fn argument(&self) -> (r: Option<i32>)
        ensures
            r == self.argument_spec(),
    {
        match self {
            DeviceControl::AttachToProcess => None,
            DeviceControl::EnableHeader(v) => Some(*v),
            DeviceControl::SetMode(v) => Some(*v),
            DeviceControl::SetNonBlocking(v) => Some(*v),
        }
    }
}

/// The mode flags given to a tun device: broadcast and multicast.
pub open spec fn tun_mode_spec() -> i32 {
    IFF_BROADCAST | IFF_MULTICAST
}

/// The device-control calls that make a freshly opened device usable, in order.
/// A tun device is attached to the process, gets the link-layer header and the
/// broadcast and multicast modes; a tap device needs nothing. An asynchronous
/// device is then switched to non-blocking I/O.
pub open spec fn configuration_spec(iface_type: VirtualInterfaceType, is_async: bool) -> Seq<
    DeviceControl,
> {
    let kind_calls = match iface_type {
        VirtualInterfaceType::Tun => seq![
            DeviceControl::AttachToProcess,
            DeviceControl::EnableHeader(1),
            DeviceControl::SetMode(tun_mode_spec()),
        ],
        VirtualInterfaceType::Tap => Seq::empty(),
    };
    if is_async {
        kind_calls.push(DeviceControl::SetNonBlocking(1))
    } else {
        kind_calls
    }
}

pub fn configuration(iface_type: VirtualInterfaceType, is_async: bool) -> (r: Vec<DeviceControl>)
    ensures
        r@ == configuration_spec(iface_type, is_async),
{
    let mut calls: Vec<DeviceControl> = Vec::new();
    match iface_type {
        VirtualInterfaceType::Tun => {
            calls.push(DeviceControl::AttachToProcess);
            calls.push(DeviceControl::EnableHeader(1));
            calls.push(DeviceControl::SetMode(IFF_BROADCAST | IFF_MULTICAST));
        },
        VirtualInterfaceType::Tap => {},
    }
    if is_async {
        calls.push(DeviceControl::SetNonBlocking(1));
    }
    assert(calls@ =~= configuration_spec(iface_type, is_async));
    calls
}

/// The directory that holds the device nodes.
pub open spec fn dev_dir_spec() -> Seq<char> {
    seq!['/', 'd', 'e', 'v', '/']
}

/// The path of the device node called `name`.
pub fn device_path(name: &str) -> (r: String)
    ensures
        r@ == dev_dir_spec() + name@,
{
    proof {
        reveal_strlit("/dev/");
    }
    let dir = <String as StringExecFns>::from_str("/dev/");
    dir.concat(name)
}

/// The path of the clone device that creates interfaces of the given kind.
pub fn clone_device_path(iface_type: VirtualInterfaceType) -> (r: String)
    ensures
        r@ == dev_dir_spec() + iface_type.class_spec(),
{
    device_path(iface_type.class_name())
}

/// Relies on `String::from_utf8`: it succeeds exactly on valid UTF-8 and then
/// holds the characters those bytes encode.
#[verifier::external_body]
fn string_from_utf8(bytes: Vec<u8>) -> (r: Option<String>)
    ensures
        r is Some <==> valid_utf8(bytes@),
        r is Some ==> r->0@ == decode_utf8(bytes@),
{
    String::from_utf8(bytes).ok()
}

/// The interface name read from the kernel's answer for a device: `None` when
/// the kernel knows no name for it, else the bytes of the name. A missing or
/// malformed name is bad data from the kernel.
pub fn name_from_kernel(raw: Option<Vec<u8>>) -> (r: Result<String, TunTapError>)
    ensures
        raw is None ==> r is Err && r->Err_0 is BadData,
        raw is Some ==> (r is Ok <==> valid_utf8(raw->0@)),
        raw is Some && r is Ok ==> r->Ok_0@ == decode_utf8(raw->0@),
        raw is Some && r is Err ==> r->Err_0 is BadData,
{
    match raw {
        None => Err(TunTapError::BadData { msg: "kernel gave no interface name".to_string() }),
        Some(bytes) => match string_from_utf8(bytes) {
            Some(name) => Ok(name),
            None => Err(TunTapError::BadData { msg: "bad interface name returned from kernel".to_string() }),
        },
    }
}

/// How far provisioning of one interface has come.
#[derive(Clone, Copy, Debug, PartialEq, Eq, Structural)]
pub enum ProvisionStep {
    /// The clone device is to be opened.
    OpenDevice,
    /// The kernel is to be asked for the name of the new device.
    DiscoverName,
    /// The configuration calls before the given index have been made.
    Configure(usize),
    /// The interface is up and ready for use.
    Ready,
    /// A step failed; nothing more is done.
    Failed,
}

/// Provisioning of one interface: the kind requested, whether it is driven
/// asynchronously, the configuration calls it needs, the name the kernel gave
/// it once known, and the step reached.
pub struct Provisioning {
    pub iface_type: VirtualInterfaceType,
    pub is_async: bool,
    pub calls: Vec<DeviceControl>,
    pub name: Option<String>,
    pub step: ProvisionStep,
}

impl Provisioning {
    pub open spec fn wf(&self) -> bool {
        &&& self.calls@ == configuration_spec(self.iface_type, self.is_async)
        &&& (self.step is Configure ==> self.step->Configure_0 <= self.calls@.len())
        &&& (self.step is Configure || self.step is Ready ==> self.name is Some)
    }

    /// Provisioning that has not started yet.
    pub fn new(iface_type: VirtualInterfaceType, is_async: bool) -> (r: Provisioning)
        ensures
            r.wf(),
            r.iface_type == iface_type,
            r.is_async == is_async,
            r.name is None,
            r.step == ProvisionStep::OpenDevice,
    {
        Provisioning {
            iface_type,
            is_async,
            calls: configuration(iface_type, is_async),
            name: None,
            step: ProvisionStep::OpenDevice,
        }
    }

    /// The clone device node to open first.
    pub fn clone_path(&self) -> (r: String)
        ensures
            r@ == dev_dir_spec() + self.iface_type.class_spec(),
    {
        clone_device_path(self.iface_type)
    }

    /// Records whether the clone device could be opened (with the native error
    /// code if not); a device that cannot be opened is reported as not found.
    pub fn opened(&mut self, outcome: Result<(), i32>) -> (r: Result<(), TunTapError>)
        requires
            old(self).wf(),
            old(self).step == ProvisionStep::OpenDevice,
        ensures
            final(self).wf(),
            final(self).iface_type == old(self).iface_type,
            final(self).is_async == old(self).is_async,
            final(self).name == old(self).name,
            r is Ok <==> outcome is Ok,
            r is Ok ==> final(self).step == ProvisionStep::DiscoverName,
            r is Err ==> r->Err_0 is NotFound && final(self).step == ProvisionStep::Failed,
    {
        match outcome {
            Ok(()) => {
                self.step = ProvisionStep::DiscoverName;
                Ok(())
            },
            Err(_) => {
                self.step = ProvisionStep::Failed;
                Err(TunTapError::NotFound { msg: "device node not found".to_string() })
            },
        }
    }

    /// Records the kernel's answer about the device's name (see
    /// `name_from_kernel`) and returns the name.
    pub fn named(&mut self, raw: Option<Vec<u8>>) -> (r: Result<String, TunTapError>)
        requires
            old(self).wf(),
            old(self).step == ProvisionStep::DiscoverName,
        ensures
            final(self).wf(),
            final(self).iface_type == old(self).iface_type,
            final(self).is_async == old(self).is_async,
            raw is None ==> r is Err && r->Err_0 is BadData,
            raw is Some ==> (r is Ok <==> valid_utf8(raw->0@)),
            raw is Some && r is Ok ==> r->Ok_0@ == decode_utf8(raw->0@),
            raw is Some && r is Err ==> r->Err_0 is BadData,
            r is Ok ==> final(self).step == ProvisionStep::Configure(0) && final(self).name is Some
                && final(self).name->0@ == r->Ok_0@,
            r is Err ==> final(self).step == ProvisionStep::Failed,
    {
        match name_from_kernel(raw) {
            Ok(name) => {
                self.name = Some(name.clone());
                self.step = ProvisionStep::Configure(0);
                Ok(name)
            },
            Err(e) => {
                self.step = ProvisionStep::Failed;
                Err(e)
            },
        }
    }

    /// The next configuration call to make, or `None` once all were made.
    pub fn next_control(&self) -> (r: Option<DeviceControl>)
        requires
            self.wf(),
        ensures
            self.step is Configure && self.step->Configure_0 < self.calls@.len() ==> r == Some(
                self.calls@[self.step->Configure_0 as int],
            ),
            !(self.step is Configure && self.step->Configure_0 < self.calls@.len()) ==> r is None,
    {
        match self.step {
            ProvisionStep::Configure(i) => {
                if i < self.calls.len() {
                    Some(self.calls[i])
                } else {
                    None
                }
            },
            _ => None,
        }
    }

    /// Records the outcome of the configuration call that `next_control` gave
    /// (with the native error code on failure).
    pub fn configured(&mut self, outcome: Result<(), i32>) -> (r: Result<(), TunTapError>)
        requires
            old(self).wf(),
            old(self).step is Configure,
            old(self).step->Configure_0 < old(self).calls@.len(),
        ensures
            final(self).wf(),
            final(self).iface_type == old(self).iface_type,
            final(self).is_async == old(self).is_async,
            final(self).name == old(self).name,
            outcome is Ok ==> r is Ok && final(self).step == ProvisionStep::Configure(
                (old(self).step->Configure_0 + 1) as usize,
            ),
            outcome is Err ==> r == Err::<(), TunTapError>(TunTapError::Io { code: outcome->Err_0 })
                && final(self).step == ProvisionStep::Failed,
    {
        match (outcome, self.step) {
            (Ok(()), ProvisionStep::Configure(i)) => {
                self.step = ProvisionStep::Configure(i + 1);
                Ok(())
            },
            (Err(code), _) => {
                self.step = ProvisionStep::Failed;
                Err(TunTapError::Io { code })
            },
            (Ok(()), _) => Ok(()),
        }
    }

    /// Records the outcome of bringing the interface up, which is done only
    /// once every configuration call was made; on success the interface is
    /// ready and its name is returned.
    pub fn brought_up(&mut self, outcome: Result<(), i32>) -> (r: Result<String, TunTapError>)
        requires
            old(self).wf(),
            old(self).step == ProvisionStep::Configure(old(self).calls@.len() as usize),
        ensures
            final(self).wf(),
            final(self).iface_type == old(self).iface_type,
            final(self).is_async == old(self).is_async,
            final(self).name == old(self).name,
            outcome is Ok ==> r is Ok && final(self).step == ProvisionStep::Ready
                && r->Ok_0@ == old(self).name->0@,
            outcome is Err ==> r == Err::<String, TunTapError>(TunTapError::Io { code: outcome->Err_0 })
                && final(self).step == ProvisionStep::Failed,
    {
        match outcome {
            Ok(()) => {
                self.step = ProvisionStep::Ready;
                match &self.name {
                    Some(n) => Ok(n.clone()),
                    None => {
                        proof {
                            assert(false);
                        }
                        Err(TunTapError::Closed)
                    },
                }
            },
            Err(code) => {
                self.step = ProvisionStep::Failed;
                Err(TunTapError::Io { code })
            },
        }
    }
}

} // verus!
