use virtualcam_rs::layout::{align_size, VideoQueue, FRAME_HEADER_SIZE, QUEUE_HEADER_BYTES};

#[test]
fn test_video_queue_create() {
    let interval = (10000000.0 / 25.0) as u64;
    let pvq = VideoQueue::video_queue_create(1280, 720, interval);
    println!("pvq: {:?}", pvq);
    let pvq = pvq.unwrap();
    let header = &pvq.header;
    println!("header: {:?}", header);
    assert_eq!(header.cx, 1280);
    assert_eq!(header.cy, 720);
    assert_eq!(header.interval, interval);
    assert_eq!(header.state, 1);
    let frame_size = 1280 * 720 * 3 / 2;
    assert_eq!(header.offsets[0], 96);
    assert_eq!(header.offsets[1], align32(96 + frame_size + FRAME_HEADER_SIZE));
    assert_eq!(
        header.offsets[2],
        align32(header.offsets[1] + frame_size + FRAME_HEADER_SIZE)
    );
}

fn align32(n: u32) -> u32 {
    (n + 31) / 32 * 32
}

#[test]
fn slot_offsets_are_aligned_increasing_and_clear_of_the_header() {
    for (cx, cy) in [(1u32, 1u32), (2, 3), (640, 480), (1280, 720), (1920, 1080), (33, 17)] {
        let vq = VideoQueue::video_queue_create(cx, cy, 1).unwrap();
        let offs = vq.header.offsets;
        for o in offs {
            assert_eq!(o % 32, 0, "offset {} of {}x{} not aligned", o, cx, cy);
        }
        assert!(offs[0] < offs[1] && offs[1] < offs[2]);
        assert!(offs[0] >= align32(QUEUE_HEADER_BYTES));
        let frame_size = cx * cy * 3 / 2;
        assert!(offs[1] >= offs[0] + frame_size + FRAME_HEADER_SIZE);
        assert!(offs[2] >= offs[1] + frame_size + FRAME_HEADER_SIZE);
        assert!(vq.total_size >= offs[2] + frame_size + FRAME_HEADER_SIZE);
        assert_eq!(vq.ts[0], offs[0]);
        assert_eq!(vq.frame[0], offs[0] + FRAME_HEADER_SIZE);
        assert!(vq.is_writer);
    }
}

#[test]
fn oversized_dimensions_are_refused() {
    assert!(VideoQueue::video_queue_create(u32::MAX, u32::MAX, 1).is_none());
    assert!(VideoQueue::video_queue_create(65536, 65536, 1).is_none());
}

#[test]
fn align_size_rounds_up_to_the_boundary() {
    assert_eq!(align_size(0, 32), 0);
    assert_eq!(align_size(1, 32), 32);
    assert_eq!(align_size(32, 32), 32);
    assert_eq!(align_size(33, 32), 64);
    assert_eq!(align_size(88, 32), 96);
    assert_eq!(align_size(100, 8), 104);
}
