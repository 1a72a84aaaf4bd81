//! Lifecycle of an interface descriptor: open for I/O, then its handle released,
//! then the named interface destroyed. The handle must be released before the
//! interface is destroyed, and no I/O is accepted once it has been.
use vstd::prelude::*;
use vstd::utf8::encode_utf8;

use crate::error::TunTapError;

verus! {

/// Largest size of an interface name, its terminating NUL byte included.
pub const IFNAMSIZ: usize = 16;

/// Native error code: the resource is busy.
pub const EBUSY: i32 = 16;

/// The interface request record of `ifstructs`, carried through unopened.
#[verifier::external_type_specification]
#[verifier::external_body]
pub struct ExIfreq(ifstructs::ifreq);

/// Whether an interface name, as bytes, can be carried by an interface request:
/// it holds no NUL byte and fits `IFNAMSIZ` bytes with its terminator.
pub open spec fn fits_request_spec(bytes: Seq<u8>) -> bool {
    &&& !bytes.contains(0u8)
    &&& bytes.len() + 1 <= IFNAMSIZ
}

/// Relies on `ifstructs::ifreq::from_name`: it builds a request that names
/// `name`, and fails exactly when the name holds a NUL byte or its bytes and
/// terminator do not fit `IFNAMSIZ`.
#[verifier::external_body]
fn request_from_name(name: &str) -> (r: Option<ifstructs::ifreq>)
    ensures
        r is Some <==> fits_request_spec(encode_utf8(name@)),
{
    ifstructs::ifreq::from_name(name).ok()
}

/// Where a descriptor stands in its lifecycle.
#[derive(Clone, Copy, Debug, PartialEq, Eq, Structural)]
pub enum DescriptorState {
    /// The data handle is open and I/O is accepted.
    Open,
    /// The data handle was replaced by a placeholder; the interface still exists.
    Released,
    /// The interface was destroyed.
    Destroyed,
}

/// The lifecycle state of one descriptor and the name of its interface.
pub struct DescriptorLifecycle {
    pub state: DescriptorState,
    pub name: String,
}

/// The error with which a destroy request is refused before it is formed, if
/// it is: an open data handle keeps the interface busy, and a destroyed
/// interface is closed for good.
pub open spec fn destroy_refusal_spec(state: DescriptorState) -> Option<TunTapError> {
    match state {
        DescriptorState::Open => Some(TunTapError::Io { code: EBUSY }),
        DescriptorState::Released => None,
        DescriptorState::Destroyed => Some(TunTapError::Closed),
    }
}

/// Whether a read or write may be issued in a state: only while the data
/// handle is open.
pub open spec fn io_check_spec(state: DescriptorState) -> Result<(), TunTapError> {
    match state {
        DescriptorState::Open => Ok(()),
        _ => Err(TunTapError::Closed),
    }
}

/// The state and result after the destroy call of a released descriptor
/// returned `outcome`.
pub open spec fn destroy_step_spec(outcome: Result<(), i32>) -> (DescriptorState, Result<(), TunTapError>) {
    match outcome {
        Ok(()) => (DescriptorState::Destroyed, Ok(())),
        Err(code) => (DescriptorState::Released, Err(TunTapError::Io { code })),
    }
}

impl DescriptorLifecycle {
    /// A descriptor whose data handle was just opened for interface `name`.
    pub fn new(name: String) -> (r: DescriptorLifecycle)
        ensures
            r.state == DescriptorState::Open,
            r.name@ == name@,
    {
        DescriptorLifecycle { state: DescriptorState::Open, name }
    }

    /// Whether a read or write may be issued: only while the data handle is open.
    pub fn check_io(&self) -> (r: Result<(), TunTapError>)
        ensures
            r == io_check_spec(self.state),
    {
        match self.state {
            DescriptorState::Open => Ok(()),
            _ => Err(TunTapError::Closed),
        }
    }

    /// Records that the data handle was replaced by a placeholder and closed.
    pub fn release(&mut self)
        requires
            old(self).state == DescriptorState::Open,
        ensures
            final(self).state == DescriptorState::Released,
            final(self).name@ == old(self).name@,
    {
        self.state = DescriptorState::Released;
    }

    /// The request that destroys the interface, formed only once the data
    /// handle has been released.
    pub fn destroy_request(&self) -> (r: Result<ifstructs::ifreq, TunTapError>)
        ensures
            destroy_refusal_spec(self.state) is Some ==> r == Err::<ifstructs::ifreq, TunTapError>(
                destroy_refusal_spec(self.state)->0,
            ),
            destroy_refusal_spec(self.state) is None ==> (r is Ok <==> fits_request_spec(
                encode_utf8(self.name@),
            )),
            destroy_refusal_spec(self.state) is None && r is Err ==> r->Err_0 is BadData,
    {
        match self.state {
            DescriptorState::Open => Err(TunTapError::Io { code: EBUSY }),
            DescriptorState::Destroyed => Err(TunTapError::Closed),
            DescriptorState::Released => match request_from_name(self.name.as_str()) {
                Some(req) => Ok(req),
                None => Err(TunTapError::BadData { msg: "interface name does not fit a request".to_string() }),
            },
        }
    }

    /// Records the outcome of the destroy call: on success the interface is
    /// destroyed; on failure the native error is reported and nothing changes.
    pub fn finish_destroy(&mut self, outcome: Result<(), i32>) -> (r: Result<(), TunTapError>)
        requires
            old(self).state == DescriptorState::Released,
        ensures
            final(self).name@ == old(self).name@,
            (final(self).state, r) == destroy_step_spec(outcome),
    {
        match outcome {
            Ok(()) => {
                self.state = DescriptorState::Destroyed;
                Ok(())
            },
            Err(code) => Err(TunTapError::Io { code }),
        }
    }
}

/// Closing a descriptor right after it was created leaves no interface behind:
/// from the open state, releasing the data handle lets the destroy request be
/// formed for any name that fits one, and once the kernel's destroy call
/// succeeds the descriptor is destroyed, accepts no further I/O and refuses a
/// second destroy.
pub proof fn lemma_create_then_close_leaves_nothing(state: DescriptorState, name: Seq<char>)
    requires
        state == DescriptorState::Open,
        fits_request_spec(encode_utf8(name)),
    ensures
        io_check_spec(state) is Ok,
        destroy_refusal_spec(DescriptorState::Released) is None,
        destroy_step_spec(Ok(())).0 == DescriptorState::Destroyed,
        destroy_step_spec(Ok(())).1 is Ok,
        io_check_spec(destroy_step_spec(Ok(())).0) == Err::<(), TunTapError>(TunTapError::Closed),
        destroy_refusal_spec(destroy_step_spec(Ok(())).0) == Some(TunTapError::Closed),
{
}

/// Destroying an interface whose data handle is still open is refused with a
/// native error, and the descriptor stays open, with its interface in place.
pub proof fn lemma_destroy_before_release_fails(l: DescriptorLifecycle)
    requires
        l.state == DescriptorState::Open,
    ensures
        destroy_refusal_spec(l.state) == Some(TunTapError::Io { code: EBUSY }),
        io_check_spec(l.state) is Ok,
{
}

} // verus!
