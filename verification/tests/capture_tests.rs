use virtualcam_rs::capture::{
    admit_payload, classify_probe, SharedImageMemory, UnityCapture, MAX_SHARED_IMAGE_SIZE,
    SEND_TIMEOUT_MS,
};
use virtualcam_rs::locator::MAX_CAPNUM;
use virtualcam_rs::{Camera, Error};

fn open_channel(cap_num: u32, max_size: u32) -> SharedImageMemory {
    let mut m = SharedImageMemory::new(cap_num);
    assert!(m.open_consumer(max_size));
    m
}

#[test]
fn accepted_send_writes_every_field_and_the_payload() {
    let mut m = open_channel(0, 16);
    m.signal_want_frame();
    let payload = vec![9u8, 8, 7, 6];
    let r = m.send(4, 2, 4, 4, 5, 6, 7, 1234, payload.clone());
    assert!(r.is_ok());
    let h = m.shared.as_ref().unwrap();
    assert_eq!(h.width, 4);
    assert_eq!(h.height, 2);
    assert_eq!(h.stride, 4);
    assert_eq!(h.format, 5);
    assert_eq!(h.resizemode, 6);
    assert_eq!(h.mirrormode, 7);
    assert_eq!(h.timeout, 1234);
    assert_eq!(&h.data[..4], &payload[..]);
    assert_eq!(&h.data[4..], &[0u8; 12][..]);
    assert!(m.sent_signaled);
    assert!(!m.want_signaled);
}

#[test]
fn oversized_send_is_rejected_without_any_mutation() {
    let mut m = open_channel(0, 4);
    m.signal_want_frame();
    let payload = vec![1u8, 2, 3, 4, 5];
    let r = m.send(5, 1, 5, 5, 0, 0, 0, 10, payload);
    assert_eq!(r, Err(Error::SendresToolarge));
    let h = m.shared.as_ref().unwrap();
    assert_eq!(h.width, 0);
    assert_eq!(h.height, 0);
    assert_eq!(h.timeout, 0);
    assert_eq!(&h.data[..], &[0u8; 4][..]);
    assert!(m.want_signaled, "the rejected call must not touch the events");
    assert!(!m.sent_signaled);
}

#[test]
fn unsignaled_demand_is_a_skip_but_the_frame_is_still_delivered() {
    let mut m = open_channel(0, 8);
    let payload = vec![3u8, 1, 4, 1, 5];
    let r = m.send(5, 1, 5, 5, 0, 1, 1, 42, payload.clone());
    assert_eq!(r, Err(Error::SendresWarnFrameskip));
    let h = m.shared.as_ref().unwrap();
    assert_eq!(h.width, 5);
    assert_eq!(h.timeout, 42);
    assert_eq!(&h.data[..5], &payload[..]);
    assert!(m.sent_signaled, "a skipped frame was still delivered");
}

#[test]
fn open_is_idempotent_and_producer_open_needs_a_consumer() {
    let mut m = SharedImageMemory::new(1);
    assert!(!m.send_is_ready(), "no consumer has created the channel yet");
    assert!(!m.open(false));
    assert!(m.open(true));
    let capacity = m.shared.as_ref().unwrap().max_size;
    assert_eq!(capacity, MAX_SHARED_IMAGE_SIZE as u32);
    assert!(m.open(true), "a second open is a no-op");
    assert!(m.open(false));
    assert!(m.send_is_ready());
}

#[test]
fn open_rejects_ids_beyond_the_naming_scheme() {
    let mut m = SharedImageMemory::new(10);
    assert!(!m.open(true));
    assert!(!m.open(false));
    assert!(m.shared.is_none());
}

#[test]
fn consumer_takes_the_sent_signal_once() {
    let mut m = open_channel(2, 4);
    let r = m.send(1, 1, 1, 1, 0, 0, 0, 1, vec![1u8]);
    assert_eq!(r, Err(Error::SendresWarnFrameskip));
    assert!(m.take_sent_frame());
    assert!(!m.take_sent_frame(), "the sent event auto-resets");
}

#[test]
fn between_consecutive_sent_signals_the_header_is_one_calls() {
    let mut m = open_channel(0, 4);
    m.signal_want_frame();
    assert_eq!(m.send(1, 2, 3, 2, 4, 5, 6, 7, vec![0xAA, 0xBB]), Ok(()));
    assert!(m.take_sent_frame());
    {
        // observed between the first and the second sent signal: exactly the
        // first call's arguments
        let h = m.shared.as_ref().unwrap();
        assert_eq!(
            (h.width, h.height, h.stride, h.format, h.resizemode, h.mirrormode, h.timeout),
            (1, 2, 3, 4, 5, 6, 7)
        );
        assert_eq!(&h.data[..2], &[0xAA, 0xBB][..]);
    }
    assert_eq!(
        m.send(10, 20, 30, 1, 40, 50, 60, 70, vec![0xCC]),
        Err(Error::SendresWarnFrameskip)
    );
    assert!(m.take_sent_frame());
    // after the second signal: exactly the second call's arguments
    let h = m.shared.as_ref().unwrap();
    assert_eq!(
        (h.width, h.height, h.stride, h.format, h.resizemode, h.mirrormode, h.timeout),
        (10, 20, 30, 40, 50, 60, 70)
    );
    assert_eq!(h.data[0], 0xCC);
    assert_eq!(h.data[1], 0xBB);
}

#[test]
fn error_debug_names_are_the_variant_names() {
    assert_eq!(format!("{:?}", Error::UnityCaptureNotFound), "UnityCaptureNotFound");
    assert_eq!(format!("{:?}", Error::UnityCaptureNotInitialized), "UnityCaptureNotInitialized");
    assert_eq!(format!("{:?}", Error::SendresToolarge), "SendresToolarge");
    assert_eq!(format!("{:?}", Error::SendresWarnFrameskip), "SendresWarnFrameskip");
}

#[test]
fn admission_and_probe_classification() {
    assert_eq!(admit_payload(10, 10), Ok(()));
    assert_eq!(admit_payload(10, 11), Err(Error::SendresToolarge));
    assert_eq!(classify_probe(true), Ok(()));
    assert_eq!(classify_probe(false), Err(Error::SendresWarnFrameskip));
}

fn lookup_table(entries: &[(usize, &str)]) -> Vec<Option<String>> {
    let mut names: Vec<Option<String>> = (0..MAX_CAPNUM).map(|_| None).collect();
    for (i, n) in entries {
        names[*i] = Some((*n).to_string());
    }
    names
}

#[test]
fn capture_resolves_the_device_and_sends_through_it() {
    let names = lookup_table(&[(2, "TestCam")]);
    let mut uc = UnityCapture::new(320, 240, "TestCam".to_string(), &names).unwrap();
    assert_eq!(uc.width, 320);
    assert_eq!(uc.height, 240);
    assert_eq!(uc.device, "TestCam");

    let r = uc.send(vec![0u8; 16]);
    assert_eq!(r, Err(Error::UnityCaptureNotInitialized));

    assert!(uc.shared_mem.open_consumer(16));
    uc.shared_mem.signal_want_frame();
    let r = uc.send(vec![5u8; 16]);
    assert!(r.is_ok());
    let h = uc.shared_mem.shared.as_ref().unwrap();
    assert_eq!(h.width, 320);
    assert_eq!(h.height, 240);
    assert_eq!(h.stride, 320);
    assert_eq!(h.timeout, SEND_TIMEOUT_MS);
    assert_eq!(SEND_TIMEOUT_MS, 2147483647 - 200);
}

#[test]
fn unknown_device_reports_not_found() {
    let names = lookup_table(&[(0, "Other Cam")]);
    match UnityCapture::new(64, 64, "TestCam".to_string(), &names) {
        Err(Error::UnityCaptureNotFound) => {}
        _ => panic!("an absent device must report not-found"),
    }
}

#[test]
fn scenario_test_cam_full_frame() {
    // consumer-created capacity for a full 1920 by 1080 four-byte-per-pixel
    // frame; the producer sends a payload of exactly that length
    let capacity: u32 = 1920 * 1080 * 4;
    let names = lookup_table(&[(3, "TestCam")]);
    let mut uc = UnityCapture::new(1920, 1080, "TestCam".to_string(), &names).unwrap();
    assert!(uc.shared_mem.open_consumer(capacity));

    // demand pre-signaled: the send is accepted and classified as sent
    uc.shared_mem.signal_want_frame();
    let frame = vec![0xABu8; capacity as usize];
    assert_eq!(uc.send(frame), Ok(()));
    {
        let h = uc.shared_mem.shared.as_ref().unwrap();
        assert_eq!(h.width, 1920);
        assert_eq!(h.height, 1080);
        assert_eq!(h.stride, 1920);
        assert_eq!(h.format, 0);
        assert_eq!(h.resizemode, 1);
        assert_eq!(h.mirrormode, 1);
        assert_eq!(h.data[0], 0xAB);
        assert_eq!(h.data[capacity as usize - 1], 0xAB);
    }

    // demand unsignaled: the same call is a frame skip, yet the header
    // still reflects the just-written frame
    let frame = vec![0xCDu8; capacity as usize];
    assert_eq!(uc.send(frame), Err(Error::SendresWarnFrameskip));
    let h = uc.shared_mem.shared.as_ref().unwrap();
    assert_eq!(h.width, 1920);
    assert_eq!(h.data[0], 0xCD);
    assert_eq!(h.data[capacity as usize - 1], 0xCD);
}

#[test]
fn camera_wraps_the_capture_backend() {
    let names = lookup_table(&[(1, "TestCam")]);
    let mut cam = Camera::new(160, 120, "TestCam", &names).unwrap();
    let Camera::UnityCapture(uc) = &mut cam;
    assert!(uc.shared_mem.open_consumer(8));
    uc.shared_mem.signal_want_frame();
    assert_eq!(cam.send(vec![1u8, 2, 3]), Ok(()));
    let Camera::UnityCapture(uc) = &cam;
    let h = uc.shared_mem.shared.as_ref().unwrap();
    assert_eq!(h.width, 160);
    assert_eq!(&h.data[..3], &[1u8, 2, 3][..]);
}
