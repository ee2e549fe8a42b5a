use qshot::{
    Capture, CaptureData, CaptureError, CaptureManager, PixelFormat, Reply, Request, Setup,
    SetupStage, Stage, Step,
};

/// A stand-in for the graphics subsystem: it hands out the handles and the
/// answers that a test gives it, and writes down what it was asked.
struct Script {
    asked: Vec<Request>,
    window_lives: bool,
    memory_left: bool,
    bitmaps_left: bool,
    copy_works: bool,
    short_by: usize,
    next_handle: isize,
}

impl Script {
    fn new() -> Script {
        Script {
            asked: Vec::new(),
            window_lives: true,
            memory_left: true,
            bitmaps_left: true,
            copy_works: true,
            short_by: 0,
            next_handle: 100,
        }
    }

    fn handle(&mut self) -> Reply {
        self.next_handle += 1;
        Reply::Handle(self.next_handle)
    }

    fn answer(&mut self, request: Request) -> Reply {
        self.asked.push(request);
        match request {
            Request::AcquireSurface { .. } => {
                if self.window_lives {
                    self.handle()
                } else {
                    Reply::Failed
                }
            }
            Request::CreateWorkSurface { .. } => {
                if self.memory_left {
                    self.handle()
                } else {
                    Reply::Failed
                }
            }
            Request::CreateBitmap { .. } => {
                if self.bitmaps_left {
                    self.handle()
                } else {
                    Reply::Failed
                }
            }
            Request::CopyRegion { .. } => {
                if self.copy_works && self.window_lives {
                    Reply::Done
                } else {
                    Reply::Failed
                }
            }
            Request::ReadPixels { len, .. } => {
                let mut bytes = Vec::new();
                for i in 0..len - self.short_by {
                    bytes.push((i % 251) as u8);
                }
                Reply::Pixels(bytes)
            }
            _ => Reply::Done,
        }
    }

    fn set_up(
        &mut self,
        target: isize,
        top_left: (i32, i32),
        region_size: (i32, i32),
    ) -> Result<CaptureManager, CaptureError> {
        let mut step = CaptureManager::new(target, top_left, region_size);
        loop {
            match step {
                Step::Next(state, request) => step = state.step(self.answer(request)),
                Step::Done(manager) => return Ok(manager),
                Step::Failed(error) => return Err(error),
            }
        }
    }

    fn capture(&mut self, manager: &CaptureManager) -> Result<CaptureData, CaptureError> {
        let mut step = manager.capture();
        loop {
            match step {
                Step::Next(state, request) => step = state.step(self.answer(request)),
                Step::Done(data) => return Ok(data),
                Step::Failed(error) => return Err(error),
            }
        }
    }
}

fn pending(stage: Stage) -> Capture {
    Capture { source: 1, work: 2, top_left: (3, 4), region_size: (2, 2), stage }
}

#[test]
fn desktop_capture_then_resized_capture() {
    let mut os = Script::new();
    let mut manager = os.set_up(0, (0, 0), (10, 10)).unwrap();
    let first = os.capture(&manager).unwrap();
    assert_eq!(first.get_bits().len(), 300);
    manager.change_size((5, 5), (20, 30));
    let second = os.capture(&manager).unwrap();
    assert_eq!(second.get_bits().len(), 1800);
}

#[test]
fn centre_square_then_narrow_strip() {
    let mut os = Script::new();
    let mut manager = os.set_up(0, (250, 250), (500, 500)).unwrap();
    let res = os.capture(&manager).unwrap();
    assert_eq!(res.get_bits().len(), 500 * 500 * 3);
    manager.change_size((100, 100), (100, 250));
    let res1 = os.capture(&manager).unwrap();
    assert_eq!(res1.get_bits().len(), 100 * 250 * 3);
}

#[test]
fn setup_asks_for_source_then_work_surface() {
    let mut os = Script::new();
    let manager = os.set_up(77, (1, 2), (3, 4)).unwrap();
    assert_eq!(
        os.asked,
        vec![
            Request::AcquireSurface { target: 77 },
            Request::CreateWorkSurface { source: 101 },
        ]
    );
    assert_eq!(manager.top_left(), (1, 2));
    assert_eq!(manager.region_size(), (3, 4));
}

#[test]
fn new_only_asks_for_the_source_surface() {
    match CaptureManager::new(9, (-5, 7), (0, -3)) {
        Step::Next(state, request) => {
            assert_eq!(request, Request::AcquireSurface { target: 9 });
            assert_eq!(
                state,
                Setup { target: 9, top_left: (-5, 7), region_size: (0, -3), stage: SetupStage::Source }
            );
        }
        _ => panic!("setting up ended before anything was asked"),
    }
}

#[test]
fn window_that_does_not_exist_fails_acquisition() {
    let mut os = Script::new();
    os.window_lives = false;
    let result = os.set_up(0x7fff_ffff, (0, 0), (10, 10));
    assert_eq!(result.err(), Some(CaptureError::Acquisition));
    assert_eq!(os.asked, vec![Request::AcquireSurface { target: 0x7fff_ffff }]);
}

#[test]
fn missing_work_surface_gives_the_source_back() {
    let mut os = Script::new();
    os.memory_left = false;
    let result = os.set_up(12, (0, 0), (10, 10));
    assert_eq!(result.err(), Some(CaptureError::Acquisition));
    assert_eq!(
        os.asked,
        vec![
            Request::AcquireSurface { target: 12 },
            Request::CreateWorkSurface { source: 101 },
            Request::ReleaseSurface { target: 12, source: 101 },
        ]
    );
}

#[test]
fn setup_takes_any_answer_but_a_handle_as_failure() {
    let begun = Setup { target: 1, top_left: (0, 0), region_size: (1, 1), stage: SetupStage::Source };
    assert!(matches!(begun.step(Reply::Done), Step::Failed(CaptureError::Acquisition)));
    assert!(matches!(begun.step(Reply::Pixels(vec![1])), Step::Failed(CaptureError::Acquisition)));
    let holding = Setup { stage: SetupStage::Work(5), ..begun };
    match holding.step(Reply::Done) {
        Step::Next(state, request) => {
            assert_eq!(state.stage, SetupStage::Unwind);
            assert_eq!(request, Request::ReleaseSurface { target: 1, source: 5 });
        }
        _ => panic!("the source surface was not given back"),
    }
    let unwinding = Setup { stage: SetupStage::Unwind, ..begun };
    assert!(matches!(unwinding.step(Reply::Handle(3)), Step::Failed(CaptureError::Acquisition)));
}

#[test]
fn capture_asks_in_order() {
    let mut os = Script::new();
    let manager = os.set_up(0, (7, 8), (4, 2)).unwrap();
    os.asked.clear();
    let data = os.capture(&manager).unwrap();
    assert_eq!(
        os.asked,
        vec![
            Request::CreateBitmap { source: 101, format: PixelFormat::for_region((4, 2)) },
            Request::SelectBitmap { work: 102, bitmap: 103 },
            Request::CopyRegion { work: 102, source: 101, top_left: (7, 8), region_size: (4, 2) },
            Request::ReadPixels { bitmap: 103, len: 24 },
        ]
    );
    assert_eq!(data.bitmap(), 103);
    let expected: Vec<u8> = (0..24).collect();
    assert_eq!(data.get_bits(), &expected[..]);
}

#[test]
fn capture_after_window_closed_fails_copy() {
    let mut os = Script::new();
    let manager = os.set_up(5, (0, 0), (10, 10)).unwrap();
    os.window_lives = false;
    os.asked.clear();
    let result = os.capture(&manager);
    assert_eq!(result.err(), Some(CaptureError::Copy));
    assert_eq!(os.asked.len(), 4);
    assert_eq!(os.asked[3], Request::DeleteBitmap { bitmap: 103 });
    assert!(!os.asked.iter().any(|r| matches!(r, Request::ReadPixels { .. })));
}

#[test]
fn capture_without_bitmap_fails_allocation() {
    let mut os = Script::new();
    let manager = os.set_up(5, (0, 0), (10, 10)).unwrap();
    os.bitmaps_left = false;
    os.asked.clear();
    let result = os.capture(&manager);
    assert_eq!(result.err(), Some(CaptureError::Allocation));
    assert_eq!(
        os.asked,
        vec![Request::CreateBitmap { source: 101, format: PixelFormat::for_region((10, 10)) }]
    );
}

#[test]
fn region_without_buffer_fails_allocation_unasked() {
    let mut os = Script::new();
    let manager = os.set_up(5, (0, 0), (-1, 1)).unwrap();
    os.asked.clear();
    assert_eq!(os.capture(&manager).err(), Some(CaptureError::Allocation));
    assert!(os.asked.is_empty());
    assert!(matches!(manager.capture(), Step::Failed(CaptureError::Allocation)));
}

#[test]
fn empty_region_gives_empty_buffer() {
    let mut os = Script::new();
    let manager = os.set_up(5, (0, 0), (0, 10)).unwrap();
    let data = os.capture(&manager).unwrap();
    assert_eq!(data.get_bits().len(), 0);
}

#[test]
fn two_negative_sides_still_have_a_length() {
    let mut os = Script::new();
    let manager = os.set_up(5, (0, 0), (-2, -3)).unwrap();
    let data = os.capture(&manager).unwrap();
    assert_eq!(data.get_bits().len(), 18);
}

#[test]
fn short_read_is_no_capture() {
    let mut os = Script::new();
    let manager = os.set_up(5, (0, 0), (10, 10)).unwrap();
    os.short_by = 1;
    os.asked.clear();
    assert_eq!(os.capture(&manager).err(), Some(CaptureError::Copy));
    assert_eq!(os.asked.last(), Some(&Request::DeleteBitmap { bitmap: 103 }));
}

#[test]
fn long_read_is_no_capture() {
    match pending(Stage::Read(8)).step(Reply::Pixels(vec![0; 13])) {
        Step::Next(state, request) => {
            assert_eq!(state.stage, Stage::Discard(CaptureError::Copy));
            assert_eq!(request, Request::DeleteBitmap { bitmap: 8 });
        }
        _ => panic!("thirteen bytes were taken for twelve"),
    }
    match pending(Stage::Read(8)).step(Reply::Pixels(vec![7; 12])) {
        Step::Done(data) => {
            assert_eq!(data.get_bits(), &[7u8; 12][..]);
            assert_eq!(data.bitmap(), 8);
        }
        _ => panic!("twelve bytes were refused"),
    }
}

#[test]
fn read_takes_only_pixels() {
    for reply in [Reply::Done, Reply::Failed, Reply::Handle(4)] {
        match pending(Stage::Read(8)).step(reply) {
            Step::Next(state, request) => {
                assert_eq!(state, pending(Stage::Discard(CaptureError::Copy)));
                assert_eq!(request, Request::DeleteBitmap { bitmap: 8 });
            }
            _ => panic!("a capture ended without its bytes"),
        }
    }
}

#[test]
fn selection_answer_is_not_looked_at() {
    for reply in [Reply::Done, Reply::Failed, Reply::Handle(4), Reply::Pixels(vec![1, 2])] {
        match pending(Stage::Select(8)).step(reply) {
            Step::Next(state, request) => {
                assert_eq!(state, pending(Stage::Copy(8)));
                assert_eq!(
                    request,
                    Request::CopyRegion { work: 2, source: 1, top_left: (3, 4), region_size: (2, 2) }
                );
            }
            _ => panic!("the capture stopped at the selection"),
        }
    }
}

#[test]
fn copy_stage_decides_by_the_answer() {
    match pending(Stage::Copy(8)).step(Reply::Done) {
        Step::Next(state, request) => {
            assert_eq!(state, pending(Stage::Read(8)));
            assert_eq!(request, Request::ReadPixels { bitmap: 8, len: 12 });
        }
        _ => panic!("no bytes were asked for"),
    }
    for reply in [Reply::Failed, Reply::Handle(1), Reply::Pixels(vec![0; 12])] {
        match pending(Stage::Copy(8)).step(reply) {
            Step::Next(state, request) => {
                assert_eq!(state, pending(Stage::Discard(CaptureError::Copy)));
                assert_eq!(request, Request::DeleteBitmap { bitmap: 8 });
            }
            _ => panic!("the bitmap was not destroyed"),
        }
    }
    let hopeless = Capture { region_size: (-1, 1), ..pending(Stage::Copy(8)) };
    match hopeless.step(Reply::Done) {
        Step::Next(state, request) => {
            assert_eq!(state.stage, Stage::Discard(CaptureError::Allocation));
            assert_eq!(request, Request::DeleteBitmap { bitmap: 8 });
        }
        _ => panic!("the bitmap was not destroyed"),
    }
}

#[test]
fn allocate_stage_decides_by_the_answer() {
    match pending(Stage::Allocate).step(Reply::Handle(8)) {
        Step::Next(state, request) => {
            assert_eq!(state, pending(Stage::Select(8)));
            assert_eq!(request, Request::SelectBitmap { work: 2, bitmap: 8 });
        }
        _ => panic!("the bitmap was not selected"),
    }
    for reply in [Reply::Failed, Reply::Done, Reply::Pixels(vec![])] {
        assert!(matches!(
            pending(Stage::Allocate).step(reply),
            Step::Failed(CaptureError::Allocation)
        ));
    }
}

#[test]
fn discard_stage_reports_its_error() {
    assert!(matches!(
        pending(Stage::Discard(CaptureError::Copy)).step(Reply::Done),
        Step::Failed(CaptureError::Copy)
    ));
    assert!(matches!(
        pending(Stage::Discard(CaptureError::Allocation)).step(Reply::Failed),
        Step::Failed(CaptureError::Allocation)
    ));
}

#[test]
fn repeated_captures_have_one_length() {
    let mut os = Script::new();
    let manager = os.set_up(0, (0, 0), (17, 3)).unwrap();
    let a = os.capture(&manager).unwrap();
    let b = os.capture(&manager).unwrap();
    let c = os.capture(&manager).unwrap();
    assert_eq!(a.get_bits().len(), 153);
    assert_eq!(b.get_bits().len(), 153);
    assert_eq!(c.get_bits().len(), 153);
    assert_eq!(manager.region_size(), (17, 3));
    assert_eq!(manager.top_left(), (0, 0));
}

#[test]
fn captures_are_released_one_by_one() {
    let mut os = Script::new();
    let manager = os.set_up(0, (0, 0), (2, 1)).unwrap();
    let a = os.capture(&manager).unwrap();
    let b = os.capture(&manager).unwrap();
    assert_ne!(a.bitmap(), b.bitmap());
    let kept = b.bitmap();
    assert_eq!(a.release(), Request::DeleteBitmap { bitmap: 103 });
    assert_eq!(b.get_bits(), &[0u8, 1, 2, 3, 4, 5][..]);
    assert_eq!(b.bitmap(), kept);
    assert_eq!(b.release(), Request::DeleteBitmap { bitmap: 104 });
}

#[test]
fn failed_capture_leaves_the_manager_usable() {
    let mut os = Script::new();
    let manager = os.set_up(0, (0, 0), (10, 10)).unwrap();
    os.copy_works = false;
    assert_eq!(os.capture(&manager).err(), Some(CaptureError::Copy));
    os.copy_works = true;
    assert_eq!(os.capture(&manager).unwrap().get_bits().len(), 300);
}

#[test]
fn unused_manager_releases_both_surfaces() {
    let mut os = Script::new();
    let manager = os.set_up(42, (0, 0), (10, 10)).unwrap();
    let (first, second) = manager.release();
    assert_eq!(first, Request::ReleaseSurface { target: 42, source: 101 });
    assert_eq!(second, Request::DeleteSurface { work: 102 });
}

#[test]
fn manager_releases_the_same_after_captures() {
    let mut os = Script::new();
    let mut manager = os.set_up(42, (0, 0), (10, 10)).unwrap();
    os.copy_works = false;
    assert!(os.capture(&manager).is_err());
    manager.change_size((1, 1), (2, 2));
    let (first, second) = manager.release();
    assert_eq!(first, Request::ReleaseSurface { target: 42, source: 101 });
    assert_eq!(second, Request::DeleteSurface { work: 102 });
}

#[test]
fn change_size_reaches_the_next_capture_only() {
    let mut os = Script::new();
    let mut manager = os.set_up(0, (0, 0), (10, 10)).unwrap();
    let begun = manager.capture();
    manager.change_size((5, 6), (20, 30));
    match begun {
        Step::Next(state, _) => {
            assert_eq!(state.region_size, (10, 10));
            assert_eq!(state.top_left, (0, 0));
        }
        _ => panic!("the capture did not begin"),
    }
    match manager.capture() {
        Step::Next(state, request) => {
            assert_eq!(state.region_size, (20, 30));
            assert_eq!(state.top_left, (5, 6));
            assert_eq!(state.stage, Stage::Allocate);
            assert_eq!(
                request,
                Request::CreateBitmap { source: 101, format: PixelFormat::for_region((20, 30)) }
            );
        }
        _ => panic!("the capture did not begin"),
    }
    assert_eq!(os.asked.len(), 2);
}

#[test]
fn change_size_moves_width_and_height_of_the_format() {
    let mut os = Script::new();
    let mut manager = os.set_up(0, (0, 0), (10, 10)).unwrap();
    assert_eq!(manager.pixel_format().width, 10);
    assert_eq!(manager.pixel_format().height, -10);
    manager.change_size((5, 5), (20, 30));
    assert_eq!(manager.pixel_format().width, 20);
    assert_eq!(manager.pixel_format().height, -30);
    assert_eq!(manager.pixel_format(), PixelFormat::for_region((20, 30)));
    assert_eq!(manager.top_left(), (5, 5));
    assert_eq!(manager.region_size(), (20, 30));
}
