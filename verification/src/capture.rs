//! The single-slot send handshake and the channel handle that carries it.
//!
//! One channel is a named bundle of OS primitives: a mutex, an auto-reset
//! "frame wanted" event, an auto-reset "frame sent" event and a shared-memory
//! segment holding a header and a payload region.  This module holds the
//! channel's protocol state as plain values — the segment contents and the
//! two event flags — and verifies every decision of the handshake: admission
//! against the negotiated capacity, the guarded write, the sent signal, the
//! non-blocking demand probe and the skip classification.  Acquiring the
//! named primitives themselves and blocking on the mutex is the platform
//! layer's work.

use vstd::prelude::*;

verus! {

use crate::Error;
use crate::locator::MAX_CAPNUM;
use crate::names::MAX_NAMED_CAP_NUM;
use crate::names::resource_names;
use crate::locator::name_matches;

/// Default payload capacity of a consumer-created segment: a 3840 by 2160
/// frame of four two-byte channels.
pub const MAX_SHARED_IMAGE_SIZE: usize = 3840 * 2160 * 4 * 2;

/// Timeout advertised to the consumer with every frame: how long it should
/// wait for the next one.  It is metadata, not a wait performed here.
pub const SEND_TIMEOUT_MS: i32 = 2147483647 - 200;

/// The shared segment's contents: the negotiated capacity, the metadata of
/// the most recent frame, and the payload region.
pub struct SharedMemHeader {
    pub max_size: u32,
    pub width: i32,
    pub height: i32,
    pub stride: i32,
    pub format: i32,
    pub resizemode: i32,
    pub mirrormode: i32,
    pub timeout: i32,
    pub data: Vec<u8>,
}

impl SharedMemHeader {
    /// The payload region spans exactly the negotiated capacity.
    pub open spec fn wf(self) -> bool {
        self.data@.len() == self.max_size as int
    }
}

/// A consumer-created segment before any frame was written: the capacity is
/// recorded, every other field and the payload region are zero.
pub open spec fn is_fresh_header(h: SharedMemHeader, max_size: u32) -> bool {
    &&& h.max_size == max_size
    &&& h.width == 0
    &&& h.height == 0
    &&& h.stride == 0
    &&& h.format == 0
    &&& h.resizemode == 0
    &&& h.mirrormode == 0
    &&& h.timeout == 0
    &&& h.data@.len() == max_size as int
    &&& forall|i: int| 0 <= i < h.data@.len() ==> h.data@[i] == 0
}

/// One side's handle on a channel: the channel id, the mapped segment once
/// `open` has succeeded, and the state of the two auto-reset events.
pub struct SharedImageMemory {
    pub cap_num: u32,
    pub shared: Option<SharedMemHeader>,
    pub want_signaled: bool,
    pub sent_signaled: bool,
}

impl SharedImageMemory {
    /// The segment is mapped.
    pub open spec fn is_open(self) -> bool {
        self.shared is Some
    }

    /// The mapped segment's contents.
    pub open spec fn header(self) -> SharedMemHeader
        recommends
            self.is_open(),
    {
        self.shared->Some_0
    }

    /// Handle invariant: a mapped segment is well formed, and mapping only
    /// ever succeeded for an id the naming scheme supports.
    pub open spec fn inv(self) -> bool {
        &&& (self.shared matches Some(h) ==> h.wf())
        &&& (self.is_open() ==> self.cap_num <= MAX_NAMED_CAP_NUM)
    }

    /// A fresh, unmapped handle for channel `cap_num`.
    pub fn new(cap_num: u32) -> (r: SharedImageMemory)
        ensures
            r == (SharedImageMemory {
                cap_num,
                shared: None::<SharedMemHeader>,
                want_signaled: false,
                sent_signaled: false,
            }),
    {
        SharedImageMemory { cap_num, shared: None, want_signaled: false, sent_signaled: false }
    }

    /// Consumer-role open: create the channel's primitives and a zeroed
    /// segment with payload capacity `max_size`.
    ///
    /// Idempotent — an already-mapped handle reports ready and is left
    /// untouched.  An id outside the naming scheme cannot name its
    /// primitives, so the handle stays unmapped and the result is "not
    /// ready".
    pub fn open_consumer(&mut self, max_size: u32) -> (ready: bool)
        requires
            old(self).inv(),
        ensures
            final(self).inv(),
            old(self).is_open() ==> ready && *final(self) == *old(self),
            (!old(self).is_open() && old(self).cap_num > MAX_NAMED_CAP_NUM) ==> (!ready
                && *final(self) == *old(self)),
            (!old(self).is_open() && old(self).cap_num <= MAX_NAMED_CAP_NUM) ==> {
                &&& ready
                &&& final(self).is_open()
                &&& is_fresh_header(final(self).header(), max_size)
                &&& final(self).cap_num == old(self).cap_num
                &&& final(self).want_signaled == old(self).want_signaled
                &&& final(self).sent_signaled == old(self).sent_signaled
            },
    {
        if self.shared.is_some() {
            return true;
        }
        match resource_names(self.cap_num) {
            Err(_) => false,
            Ok(_names) => {
                let data = zeroed(max_size as usize);
                self.shared = Some(SharedMemHeader {
                    max_size,
                    width: 0,
                    height: 0,
                    stride: 0,
                    format: 0,
                    resizemode: 0,
                    mirrormode: 0,
                    timeout: 0,
                    data,
                });
                true
            },
        }
    }

    /// Opens the channel in the requested role.
    ///
    /// Idempotent — an already-mapped handle reports ready at once.  The
    /// consumer role creates the primitives and a segment of the default
    /// capacity.  The producer role only opens what a consumer has created,
    /// so on a handle whose channel has no consumer-created segment yet it
    /// reports "not ready" and changes nothing, supporting the caller's
    /// poll/retry loop.
    pub fn open(&mut self, for_receiving: bool) -> (ready: bool)
        requires
            old(self).inv(),
        ensures
            final(self).inv(),
            old(self).is_open() ==> ready && *final(self) == *old(self),
            (!old(self).is_open() && old(self).cap_num > MAX_NAMED_CAP_NUM) ==> (!ready
                && *final(self) == *old(self)),
            (!old(self).is_open() && old(self).cap_num <= MAX_NAMED_CAP_NUM && for_receiving)
                ==> {
                &&& ready
                &&& final(self).is_open()
                &&& is_fresh_header(final(self).header(), MAX_SHARED_IMAGE_SIZE as u32)
                &&& final(self).cap_num == old(self).cap_num
                &&& final(self).want_signaled == old(self).want_signaled
                &&& final(self).sent_signaled == old(self).sent_signaled
            },
            (!old(self).is_open() && !for_receiving) ==> (!ready && *final(self) == *old(self)),
    {
        if for_receiving {
            self.open_consumer(MAX_SHARED_IMAGE_SIZE as u32)
        } else {
            if self.shared.is_some() {
                return true;
            }
            false
        }
    }

    /// Producer-side readiness: the send path is ready exactly when the
    /// segment is mapped.  Never blocks and never changes the handle.
    pub fn send_is_ready(&mut self) -> (r: bool)
        requires
            old(self).inv(),
        ensures
            final(self).inv(),
            *final(self) == *old(self),
            r == old(self).is_open(),
    {
        self.open(false)
    }

    /// One send over the single-slot handshake.
    ///
    /// A payload larger than the negotiated capacity is rejected with
    /// `Error::SendresToolarge` before anything is touched.  Otherwise the
    /// metadata and the payload prefix are written under the channel mutex,
    /// the "frame sent" event is signaled, and the "frame wanted" event is
    /// probed without blocking: if it was unsignaled the call reports
    /// `Error::SendresWarnFrameskip` — a classification, not a rollback; the
    /// frame was delivered either way.
    pub fn send(
        &mut self,
        width: i32,
        height: i32,
        stride: i32,
        data_size: u32,
        e_format: i32,
        resizemode: i32,
        mirrormode: i32,
        timeout: i32,
        buffer: Vec<u8>,
    ) -> (r: Result<(), Error>)
        requires
            old(self).inv(),
            old(self).is_open(),
            data_size as int <= buffer@.len(),
        ensures
            final(self).inv(),
            old(self).header().max_size < data_size ==> (r == Err::<(), Error>(
                Error::SendresToolarge,
            ) && *final(self) == *old(self)),
            data_size <= old(self).header().max_size ==> {
                &&& delivered_frame(
                    *old(self),
                    *final(self),
                    width,
                    height,
                    stride,
                    data_size,
                    e_format,
                    resizemode,
                    mirrormode,
                    timeout,
                    buffer@,
                )
                &&& r == (if old(self).want_signaled {
                    Ok::<(), Error>(())
                } else {
                    Err::<(), Error>(Error::SendresWarnFrameskip)
                })
            },
    {
        match &mut self.shared {
            Some(h) => {
                if h.max_size < data_size {
                    return Err(Error::SendresToolarge);
                }
                h.width = width;
                h.height = height;
                h.stride = stride;
                h.format = e_format;
                h.resizemode = resizemode;
                h.mirrormode = mirrormode;
                h.timeout = timeout;
                copy_prefix(&mut h.data, &buffer, data_size as usize);
            },
            None => {
                proof {
                    assert(false);
                }
                return Err(Error::UnityCaptureUnknownError);
            },
        }
        self.sent_signaled = true;
        let was_wanted = self.want_signaled;
        self.want_signaled = false;
        if was_wanted {
            Ok(())
        } else {
            Err(Error::SendresWarnFrameskip)
        }
    }

    /// The consumer's demand signal: sets the "frame wanted" event, asking
    /// the producer for the next frame.
    pub fn signal_want_frame(&mut self)
        ensures
            *final(self) == (SharedImageMemory { want_signaled: true, ..*old(self) }),
    {
        self.want_signaled = true;
    }

    /// The consumer's wait on the "frame sent" event: reports whether a
    /// frame arrived since the last wait and consumes the signal.
    pub fn take_sent_frame(&mut self) -> (r: bool)
        ensures
            r == old(self).sent_signaled,
            *final(self) == (SharedImageMemory { sent_signaled: false, ..*old(self) }),
    {
        let r = self.sent_signaled;
        self.sent_signaled = false;
        r
    }
}

/// The accepted-send transition from `pre` to `post`: every metadata field
/// equals the call's argument, the payload prefix of `data_size` bytes
/// equals the delivered bytes and the rest of the payload region is
/// untouched, the capacity and channel identity are unchanged, the "frame
/// sent" event is signaled, and the demand probe has consumed the "frame
/// wanted" event.
pub open spec fn delivered_frame(
    pre: SharedImageMemory,
    post: SharedImageMemory,
    width: i32,
    height: i32,
    stride: i32,
    data_size: u32,
    e_format: i32,
    resizemode: i32,
    mirrormode: i32,
    timeout: i32,
    payload: Seq<u8>,
) -> bool {
    &&& pre.is_open()
    &&& post.is_open()
    &&& post.header().max_size == pre.header().max_size
    &&& post.header().width == width
    &&& post.header().height == height
    &&& post.header().stride == stride
    &&& post.header().format == e_format
    &&& post.header().resizemode == resizemode
    &&& post.header().mirrormode == mirrormode
    &&& post.header().timeout == timeout
    &&& post.header().data@.len() == pre.header().data@.len()
    &&& forall|i: int| 0 <= i < data_size ==> post.header().data@[i] == payload[i]
    &&& forall|i: int|
        data_size <= i < post.header().data@.len() ==> post.header().data@[i]
            == pre.header().data@[i]
    &&& post.cap_num == pre.cap_num
    &&& post.sent_signaled == true
    &&& post.want_signaled == false
}

/// Non-interleaving law of the handshake: the channel mutex serializes the
/// guarded writes, so the states a consumer can observe between consecutive
/// "frame sent" signals are exactly the post-states of completed sends — and
/// a completed send determines every metadata field and the payload prefix
/// from its own arguments alone.  For two consecutive completed sends, the
/// segment after the first holds exactly the first call's arguments and the
/// segment after the second exactly the second call's: never a mixture of
/// the two calls, nor a remnant of an earlier frame's metadata.
pub proof fn lemma_sends_never_interleave(
    s0: SharedImageMemory,
    s1: SharedImageMemory,
    s2: SharedImageMemory,
    w1: i32,
    h1: i32,
    st1: i32,
    n1: u32,
    f1: i32,
    rm1: i32,
    mm1: i32,
    to1: i32,
    p1: Seq<u8>,
    w2: i32,
    h2: i32,
    st2: i32,
    n2: u32,
    f2: i32,
    rm2: i32,
    mm2: i32,
    to2: i32,
    p2: Seq<u8>,
)
    requires
        delivered_frame(s0, s1, w1, h1, st1, n1, f1, rm1, mm1, to1, p1),
        delivered_frame(s1, s2, w2, h2, st2, n2, f2, rm2, mm2, to2, p2),
    ensures
        s1.header().width == w1 && s1.header().height == h1 && s1.header().stride == st1,
        s1.header().format == f1 && s1.header().resizemode == rm1 && s1.header().mirrormode
            == mm1,
        s1.header().timeout == to1,
        forall|i: int| 0 <= i < n1 ==> s1.header().data@[i] == p1[i],
        s2.header().width == w2 && s2.header().height == h2 && s2.header().stride == st2,
        s2.header().format == f2 && s2.header().resizemode == rm2 && s2.header().mirrormode
            == mm2,
        s2.header().timeout == to2,
        forall|i: int| 0 <= i < n2 ==> s2.header().data@[i] == p2[i],
{
}

/// Capacity admission rule of the handshake: a payload is accepted exactly
/// when it fits the negotiated capacity, and rejected as
/// `Error::SendresToolarge` otherwise.
pub fn admit_payload(max_size: u32, data_size: u32) -> (r: Result<(), Error>)
    ensures
        r == (if data_size <= max_size {
            Ok::<(), Error>(())
        } else {
            Err::<(), Error>(Error::SendresToolarge)
        }),
{
    if max_size < data_size {
        Err(Error::SendresToolarge)
    } else {
        Ok(())
    }
}

/// Skip classification of the demand probe: an unsignaled "frame wanted"
/// event at probe time means the consumer had not asked for a frame, and the
/// completed send is reported as `Error::SendresWarnFrameskip`.
pub fn classify_probe(want_was_signaled: bool) -> (r: Result<(), Error>)
    ensures
        r == (if want_was_signaled {
            Ok::<(), Error>(())
        } else {
            Err::<(), Error>(Error::SendresWarnFrameskip)
        }),
{
    if want_was_signaled {
        Ok(())
    } else {
        Err(Error::SendresWarnFrameskip)
    }
}

/// A zero-filled payload region of `n` bytes.
fn zeroed(n: usize) -> (v: Vec<u8>)
    ensures
        v@.len() == n,
        forall|i: int| 0 <= i < n ==> v@[i] == 0,
{
    let mut v: Vec<u8> = Vec::with_capacity(n);
    let mut i: usize = 0;
    while i < n
        invariant
            i <= n,
            v@.len() == i,
            forall|j: int| 0 <= j < i ==> v@[j] == 0,
        decreases n - i,
    {
        v.push(0);
        i = i + 1;
    }
    v
}

/// Copies the first `n` bytes of `src` over the front of `dst`, leaving the
/// rest of `dst` untouched.
fn copy_prefix(dst: &mut Vec<u8>, src: &Vec<u8>, n: usize)
    requires
        n <= src@.len(),
        n <= old(dst)@.len(),
    ensures
        final(dst)@.len() == old(dst)@.len(),
        forall|i: int| 0 <= i < n ==> final(dst)@[i] == src@[i],
        forall|i: int| n <= i < final(dst)@.len() ==> final(dst)@[i] == old(dst)@[i],
{
    let mut i: usize = 0;
    while i < n
        invariant
            n <= src@.len(),
            dst@.len() == old(dst)@.len(),
            n <= dst@.len(),
            i <= n,
            forall|j: int| 0 <= j < i ==> dst@[j] == src@[j],
            forall|j: int| i <= j < dst@.len() ==> dst@[j] == old(dst)@[j],
        decreases n - i,
    {
        let b = src[i];
        dst[i] = b;
        i = i + 1;
    }
}

/// A producer bound to a located channel: the frame dimensions it sends,
/// the device name it was resolved from, and the channel handle.
pub struct UnityCapture {
    pub width: i32,
    pub height: i32,
    pub device: String,
    pub shared_mem: SharedImageMemory,
}

impl UnityCapture {
    /// Resolves `device` to a channel id and binds a producer to it.
    ///
    /// `registry_names` holds, for each candidate channel id in order, the
    /// friendly name the external registry lookup returned for that id, or
    /// `None` where the lookup found nothing.  The first id whose name
    /// equals `device` wins; when none matches, the result is
    /// `Error::UnityCaptureNotFound`.
    pub fn new(
        width: i32,
        height: i32,
        device: String,
        registry_names: &Vec<Option<String>>,
    ) -> (r: Result<UnityCapture, Error>)
        requires
            registry_names@.len() == MAX_CAPNUM as int,
        ensures
            (r matches Ok(uc) ==> {
                &&& uc.width == width
                &&& uc.height == height
                &&& uc.device == device
                &&& uc.shared_mem.cap_num < MAX_CAPNUM
                &&& name_matches(registry_names@, device@, uc.shared_mem.cap_num as int)
                &&& forall|j: int|
                    0 <= j < uc.shared_mem.cap_num ==> !name_matches(
                        registry_names@,
                        device@,
                        j,
                    )
                &&& !uc.shared_mem.is_open()
                &&& !uc.shared_mem.want_signaled
                &&& !uc.shared_mem.sent_signaled
                &&& uc.shared_mem.inv()
            }),
            (r matches Err(e) ==> {
                &&& e == Error::UnityCaptureNotFound
                &&& forall|j: int|
                    0 <= j < MAX_CAPNUM ==> !name_matches(registry_names@, device@, j)
            }),
    {
        match crate::locator::find_channel(&device, registry_names) {
            Ok(i) => Ok(
                UnityCapture { width, height, device, shared_mem: SharedImageMemory::new(i) },
            ),
            Err(e) => Err(e),
        }
    }

    /// Sends one frame of `data` bytes over the channel.
    ///
    /// Reports `Error::UnityCaptureNotInitialized` while the consumer has
    /// not created the channel yet.  Otherwise the handshake runs with this
    /// producer's dimensions, a stride equal to the width, the default
    /// format and modes, and the advertised consumer timeout; the result is
    /// the handshake's own admission and skip classification.
    pub fn send(&mut self, data: Vec<u8>) -> (r: Result<(), Error>)
        requires
            old(self).shared_mem.inv(),
            data@.len() <= u32::MAX as int,
        ensures
            final(self).shared_mem.inv(),
            final(self).width == old(self).width,
            final(self).height == old(self).height,
            final(self).device == old(self).device,
            !old(self).shared_mem.is_open() ==> (r == Err::<(), Error>(
                Error::UnityCaptureNotInitialized,
            ) && *final(self) == *old(self)),
            (old(self).shared_mem.is_open() && (old(self).shared_mem.header().max_size as int)
                < data@.len()) ==> (r == Err::<(), Error>(Error::SendresToolarge) && *final(self)
                == *old(self)),
            (old(self).shared_mem.is_open() && data@.len()
                <= old(self).shared_mem.header().max_size as int) ==> {
                &&& delivered_frame(
                    old(self).shared_mem,
                    final(self).shared_mem,
                    old(self).width,
                    old(self).height,
                    old(self).width,
                    data@.len() as u32,
                    0,
                    1,
                    1,
                    SEND_TIMEOUT_MS,
                    data@,
                )
                &&& r == (if old(self).shared_mem.want_signaled {
                    Ok::<(), Error>(())
                } else {
                    Err::<(), Error>(Error::SendresWarnFrameskip)
                })
            },
    {
        if !self.shared_mem.send_is_ready() {
            return Err(Error::UnityCaptureNotInitialized);
        }
        let timeout: i32 = SEND_TIMEOUT_MS;
        let len: u32 = data.len() as u32;
        self.shared_mem.send(self.width, self.height, self.width, len, 0, 1, 1, timeout, data)
    }
}

} // verus!
