//! Cross-process frame delivery for a virtual camera sink.
//!
//! A producer process hands video frames to a virtual-camera consumer through
//! OS-level shared memory and named synchronization primitives.  This crate
//! holds the protocol core: deriving the names of the per-channel resources,
//! locating a channel by device name, the shared-buffer layout and the
//! mutex/event send handshake, and the alternate triple-buffered ring layout.
//! The OS primitives themselves (named mutexes, events, file mappings, the
//! registry) live outside this crate; the protocol state they carry is
//! modelled here as plain values so that every decision the protocol makes is
//! verified.

use vstd::prelude::*;

pub mod capture;
pub mod layout;
pub mod locator;
pub mod names;

verus! {

/// Errors surfaced by channel discovery, opening, and the send handshake.
#[derive(Debug, Clone, Copy, PartialEq, Eq, Structural)]
pub enum Error {
    /// No channel id matches the requested device name.
    UnityCaptureNotFound,
    /// The consumer side of the channel is not running.
    UnityCaptureNotRunning,
    /// The channel is already owned by another producer.
    UnityCaptureAlreadyRunning,
    /// A required named OS primitive could not be created or opened yet.
    UnityCaptureNotInitialized,
    /// An opaque underlying OS-primitive failure.
    UnityCaptureUnknownError,
    /// The payload exceeds the negotiated capacity; the call was rejected
    /// with no partial mutation.
    SendresToolarge,
    /// Soft warning: the payload was delivered, but the consumer had not
    /// signaled demand before the probe.
    SendresWarnFrameskip,
    /// The channel id lies outside the range the resource-naming scheme
    /// supports.
    CapNumNotSupported,
}

/// A virtual-camera sink, dispatching to the backend that carries it.
pub enum Camera {
    UnityCapture(capture::UnityCapture),
}

impl Camera {
    /// The producer behind this camera.
    pub open spec fn producer(self) -> capture::UnityCapture {
        match self {
            Camera::UnityCapture(uc) => uc,
        }
    }

    /// Resolves `device` to a channel and binds a camera to it.
    ///
    /// `registry_names` holds, for each candidate channel id in order, the
    /// friendly name the external registry lookup returned for that id, or
    /// `None` where the lookup found nothing; the first matching id wins.
    pub fn new(
        width: i32,
        height: i32,
        device: &str,
        registry_names: &Vec<Option<String>>,
    ) -> (r: Result<Camera, Error>)
        requires
            registry_names@.len() == locator::MAX_CAPNUM as int,
        ensures
            (r matches Ok(c) ==> {
                &&& c.producer().width == width
                &&& c.producer().height == height
                &&& c.producer().device@ == device@
                &&& c.producer().shared_mem.cap_num < locator::MAX_CAPNUM
                &&& locator::name_matches(
                    registry_names@,
                    device@,
                    c.producer().shared_mem.cap_num as int,
                )
                &&& forall|j: int|
                    0 <= j < c.producer().shared_mem.cap_num ==> !locator::name_matches(
                        registry_names@,
                        device@,
                        j,
                    )
                &&& !c.producer().shared_mem.is_open()
                &&& !c.producer().shared_mem.want_signaled
                &&& !c.producer().shared_mem.sent_signaled
                &&& c.producer().shared_mem.inv()
            }),
            (r matches Err(e) ==> {
                &&& e == Error::UnityCaptureNotFound
                &&& forall|j: int|
                    0 <= j < locator::MAX_CAPNUM ==> !locator::name_matches(
                        registry_names@,
                        device@,
                        j,
                    )
            }),
    {
        let owned = device.to_owned();
        match capture::UnityCapture::new(width, height, owned, registry_names) {
            Ok(uc) => Ok(Camera::UnityCapture(uc)),
            Err(e) => Err(e),
        }
    }

    /// Sends one frame over the camera's channel: the backend's readiness
    /// check, admission, guarded write and skip classification apply
    /// unchanged.
    pub fn send(&mut self, data: Vec<u8>) -> (r: Result<(), Error>)
        requires
            old(self).producer().shared_mem.inv(),
            data@.len() <= u32::MAX as int,
        ensures
            final(self).producer().shared_mem.inv(),
            !old(self).producer().shared_mem.is_open() ==> (r == Err::<(), Error>(
                Error::UnityCaptureNotInitialized,
            ) && *final(self) == *old(self)),
            (old(self).producer().shared_mem.is_open() && (old(
                self,
            ).producer().shared_mem.header().max_size as int) < data@.len()) ==> (r
                == Err::<(), Error>(Error::SendresToolarge) && *final(self) == *old(self)),
            (old(self).producer().shared_mem.is_open() && data@.len() <= (old(
                self,
            ).producer().shared_mem.header().max_size as int)) ==> {
                &&& final(self).producer().width == old(self).producer().width
                &&& final(self).producer().height == old(self).producer().height
                &&& final(self).producer().device == old(self).producer().device
                &&& capture::delivered_frame(
                    old(self).producer().shared_mem,
                    final(self).producer().shared_mem,
                    old(self).producer().width,
                    old(self).producer().height,
                    old(self).producer().width,
                    data@.len() as u32,
                    0,
                    1,
                    1,
                    capture::SEND_TIMEOUT_MS,
                    data@,
                )
                &&& r == (if old(self).producer().shared_mem.want_signaled {
                    Ok::<(), Error>(())
                } else {
                    Err::<(), Error>(Error::SendresWarnFrameskip)
                })
            },
    {
        match self {
            Camera::UnityCapture(uc) => uc.send(data),
        }
    }
}

} // verus!
