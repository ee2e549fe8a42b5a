//! What holds of every setting up and every capture, whatever the graphics
//! subsystem answers. Each law is stated over the decisions that the
//! executable steps are proved to take.

use vstd::prelude::*;
use crate::capture::Capture;
use crate::data::Frame;
use crate::error::CaptureError;
use crate::format::{buffer_len, has_buffer, PixelFormat};
use crate::manager::ManagerState;
use crate::protocol::{Reply, Request, Step};
use crate::setup::Setup;

verus! {

/// The decision of a capture, as a function.
pub open spec fn capture_decision() -> spec_fn(Capture, Reply) -> Step<Capture, Frame> {
    |capture: Capture, reply: Reply| capture.after(reply)
}

/// The decision of a setting up, as a function.
pub open spec fn setup_decision() -> spec_fn(Setup, Reply) -> Step<Setup, ManagerState> {
    |setup: Setup, reply: Reply| setup.after(reply)
}

/// A capture in progress that completes, whatever it is answered, holds
/// exactly three bytes for each pixel of its region.
pub proof fn pending_capture_len(capture: Capture, request: Request, replies: Seq<Reply>)
    ensures
        Step::Next(capture, request).run(capture_decision(), replies) matches Step::Done(frame)
            ==> frame.pixels.len() == buffer_len(capture.region_size),
    decreases replies.len(),
{
    if replies.len() > 0 {
        let decided = capture.after(replies[0]);
        assert(Step::Next(capture, request).run(capture_decision(), replies) == decided.run(
            capture_decision(),
            replies.drop_first(),
        ));
        match decided {
            Step::Next(next, asked) => {
                pending_capture_len(next, asked, replies.drop_first());
            },
            _ => {},
        }
    }
}

/// Every capture of a manager that completes holds exactly
/// `width * height * 3` bytes, for the manager's region at the time the
/// capture was begun.
pub proof fn capture_len(manager: ManagerState, replies: Seq<Reply>)
    ensures
        manager.begin_capture().run(capture_decision(), replies) matches Step::Done(frame)
            ==> frame.pixels.len() == buffer_len(manager.region_size),
{
    match manager.begin_capture() {
        Step::Next(capture, request) => {
            pending_capture_len(capture, request, replies);
        },
        _ => {},
    }
}

/// Two captures of one manager whose region has not changed in between hold
/// buffers of the same length if both complete, whatever each was answered.
pub proof fn captures_agree(manager: ManagerState, first: Seq<Reply>, second: Seq<Reply>)
    ensures
        manager.begin_capture().run(capture_decision(), first) matches Step::Done(one) ==> (
        manager.begin_capture().run(capture_decision(), second) matches Step::Done(other)
            ==> one.pixels.len() == other.pixels.len()),
{
    capture_len(manager, first);
    capture_len(manager, second);
}

/// After a change of the region to `region_size`, a capture that completes
/// holds the bytes of the new region, whatever the region was before.
pub proof fn resized_capture_len(
    manager: ManagerState,
    top_left: (i32, i32),
    region_size: (i32, i32),
    replies: Seq<Reply>,
)
    ensures
        manager.resized(top_left, region_size).begin_capture().run(capture_decision(), replies)
            matches Step::Done(frame) ==> frame.pixels.len() == buffer_len(region_size),
{
    capture_len(manager.resized(top_left, region_size), replies);
}

/// Where the target yields no drawing surface, the setting up fails with
/// `Acquisition` and has asked for nothing else: no work surface was ever
/// created.
pub proof fn dead_target_fails(
    target: isize,
    top_left: (i32, i32),
    region_size: (i32, i32),
    replies: Seq<Reply>,
)
    requires
        replies.len() > 0,
        !(replies[0] is Handle),
    ensures
        Setup::begin(target, top_left, region_size).run(setup_decision(), replies) == Step::<
            Setup,
            ManagerState,
        >::Failed(CaptureError::Acquisition),
        Setup::begin(target, top_left, region_size).asked(setup_decision(), replies) == seq![
            Request::AcquireSurface { target },
        ],
{
    reveal_with_fuel(Step::run, 3);
    reveal_with_fuel(Step::asked, 3);
    let begun = Setup::begin(target, top_left, region_size);
    assert(begun.asked(setup_decision(), replies) =~= seq![Request::AcquireSurface { target }]);
}

/// A setting up that fails holds no surface: it fails with `Acquisition`,
/// and either no source surface came, or the one that came was given back as
/// the last thing asked.
pub proof fn failed_setup_holds_nothing(
    target: isize,
    top_left: (i32, i32),
    region_size: (i32, i32),
    replies: Seq<Reply>,
)
    requires
        Setup::begin(target, top_left, region_size).run(setup_decision(), replies) is Failed,
    ensures
        Setup::begin(target, top_left, region_size).run(setup_decision(), replies) == Step::<
            Setup,
            ManagerState,
        >::Failed(CaptureError::Acquisition),
        replies.len() > 0,
        match replies[0] {
            Reply::Handle(source) => Setup::begin(target, top_left, region_size).asked(
                setup_decision(),
                replies,
            ) == seq![
                Request::AcquireSurface { target },
                Request::CreateWorkSurface { source },
                Request::ReleaseSurface { target, source },
            ],
            _ => Setup::begin(target, top_left, region_size).asked(setup_decision(), replies)
                == seq![Request::AcquireSurface { target }],
        },
{
    reveal_with_fuel(Step::run, 4);
    reveal_with_fuel(Step::asked, 4);
    let begun = Setup::begin(target, top_left, region_size);
    let asked = begun.asked(setup_decision(), replies);
    match replies[0] {
        Reply::Handle(source) => {
            let rest = replies.drop_first();
            assert(rest.len() > 0);
            assert(rest.drop_first().len() > 0);
            assert(asked =~= seq![
                Request::AcquireSurface { target },
                Request::CreateWorkSurface { source },
                Request::ReleaseSurface { target, source },
            ]);
        },
        _ => {
            assert(asked =~= seq![Request::AcquireSurface { target }]);
        },
    }
}

/// A setting up is over after three answers at most.
pub proof fn setup_ends(
    target: isize,
    top_left: (i32, i32),
    region_size: (i32, i32),
    replies: Seq<Reply>,
)
    requires
        replies.len() >= 3,
    ensures
        !(Setup::begin(target, top_left, region_size).run(setup_decision(), replies) is Next),
{
    reveal_with_fuel(Step::run, 4);
    let rest = replies.drop_first();
    assert(rest.len() > 0);
    assert(rest.drop_first().len() > 0);
}

/// Where the bitmap was created and the block copy then fails, as it does
/// once the target window is gone, the capture fails with `Copy`: it has
/// asked for no bytes, and the last thing it asked was to destroy its bitmap.
pub proof fn lost_target_fails(manager: ManagerState, bitmap: isize, replies: Seq<Reply>)
    requires
        has_buffer(manager.region_size),
        replies.len() >= 4,
        replies[0] == Reply::Handle(bitmap),
        !(replies[2] is Done),
    ensures
        manager.begin_capture().run(capture_decision(), replies) == Step::<
            Capture,
            Frame,
        >::Failed(CaptureError::Copy),
        manager.begin_capture().asked(capture_decision(), replies) == seq![
            Request::CreateBitmap {
                source: manager.source,
                format: PixelFormat::of_region(manager.region_size),
            },
            Request::SelectBitmap { work: manager.work, bitmap },
            Request::CopyRegion {
                work: manager.work,
                source: manager.source,
                top_left: manager.top_left,
                region_size: manager.region_size,
            },
            Request::DeleteBitmap { bitmap },
        ],
{
    reveal_with_fuel(Step::run, 6);
    reveal_with_fuel(Step::asked, 6);
    let r1 = replies.drop_first();
    let r2 = r1.drop_first();
    let r3 = r2.drop_first();
    assert(r2[0] == replies[2]);
    assert(r3.len() > 0);
    assert(manager.begin_capture().asked(capture_decision(), replies) =~= seq![
        Request::CreateBitmap {
            source: manager.source,
            format: PixelFormat::of_region(manager.region_size),
        },
        Request::SelectBitmap { work: manager.work, bitmap },
        Request::CopyRegion {
            work: manager.work,
            source: manager.source,
            top_left: manager.top_left,
            region_size: manager.region_size,
        },
        Request::DeleteBitmap { bitmap },
    ]);
}

/// A capture that completes has asked for exactly four things, the copy
/// succeeded, and its frame holds the bitmap that came first and the very
/// bytes that came last, none from an earlier capture.
pub proof fn completed_capture_is_fresh(manager: ManagerState, replies: Seq<Reply>)
    requires
        manager.begin_capture().run(capture_decision(), replies) is Done,
    ensures
        replies.len() >= 4,
        replies[2] is Done,
        manager.begin_capture().run(capture_decision(), replies) matches Step::Done(frame) ==> {
            &&& replies[0] == Reply::Handle(frame.bitmap)
            &&& replies[3] matches Reply::Pixels(bytes) && bytes@ == frame.pixels
            &&& manager.begin_capture().asked(capture_decision(), replies.take(4)) == seq![
                Request::CreateBitmap {
                    source: manager.source,
                    format: PixelFormat::of_region(manager.region_size),
                },
                Request::SelectBitmap { work: manager.work, bitmap: frame.bitmap },
                Request::CopyRegion {
                    work: manager.work,
                    source: manager.source,
                    top_left: manager.top_left,
                    region_size: manager.region_size,
                },
                Request::ReadPixels {
                    bitmap: frame.bitmap,
                    len: buffer_len(manager.region_size) as usize,
                },
            ]
        },
{
    reveal_with_fuel(Step::run, 7);
    reveal_with_fuel(Step::asked, 7);
    let r1 = replies.drop_first();
    let r2 = r1.drop_first();
    let r3 = r2.drop_first();
    assert(r3.len() > 0);
    assert(r2[0] == replies[2]);
    assert(r3[0] == replies[3]);
    let four = replies.take(4);
    let f1 = four.drop_first();
    let f2 = f1.drop_first();
    let f3 = f2.drop_first();
    assert(four[0] == replies[0]);
    assert(f1[0] == replies[1]);
    assert(f2[0] == replies[2]);
    assert(f3[0] == replies[3]);
    assert(f3.drop_first().len() == 0);
    match manager.begin_capture().run(capture_decision(), replies) {
        Step::Done(frame) => {
            assert(manager.begin_capture().asked(capture_decision(), four) =~= seq![
                Request::CreateBitmap {
                    source: manager.source,
                    format: PixelFormat::of_region(manager.region_size),
                },
                Request::SelectBitmap { work: manager.work, bitmap: frame.bitmap },
                Request::CopyRegion {
                    work: manager.work,
                    source: manager.source,
                    top_left: manager.top_left,
                    region_size: manager.region_size,
                },
                Request::ReadPixels {
                    bitmap: frame.bitmap,
                    len: buffer_len(manager.region_size) as usize,
                },
            ]);
        },
        _ => {},
    }
}

/// A capture that fails keeps no bitmap. Where the region has no buffer it
/// fails with `Allocation` and has asked nothing; where no bitmap came it
/// fails with `Allocation` and has asked nothing else; where a bitmap came it
/// fails with `Copy`, and the last thing it asked was to destroy that bitmap.
pub proof fn failed_capture_keeps_no_bitmap(manager: ManagerState, replies: Seq<Reply>)
    requires
        manager.begin_capture().run(capture_decision(), replies) is Failed,
    ensures
        !has_buffer(manager.region_size) ==> {
            &&& manager.begin_capture().run(capture_decision(), replies) == Step::<
                Capture,
                Frame,
            >::Failed(CaptureError::Allocation)
            &&& manager.begin_capture().asked(capture_decision(), replies) == Seq::<
                Request,
            >::empty()
        },
        has_buffer(manager.region_size) ==> replies.len() > 0,
        has_buffer(manager.region_size) ==> match replies[0] {
            Reply::Handle(bitmap) => {
                &&& manager.begin_capture().run(capture_decision(), replies) == Step::<
                    Capture,
                    Frame,
                >::Failed(CaptureError::Copy)
                &&& manager.begin_capture().asked(capture_decision(), replies).last() == (
                Request::DeleteBitmap { bitmap })
            },
            _ => {
                &&& manager.begin_capture().run(capture_decision(), replies) == Step::<
                    Capture,
                    Frame,
                >::Failed(CaptureError::Allocation)
                &&& manager.begin_capture().asked(capture_decision(), replies) == seq![
                    Request::CreateBitmap {
                        source: manager.source,
                        format: PixelFormat::of_region(manager.region_size),
                    },
                ]
            },
        },
{
    reveal_with_fuel(Step::run, 7);
    reveal_with_fuel(Step::asked, 7);
    let asked = manager.begin_capture().asked(capture_decision(), replies);
    if has_buffer(manager.region_size) {
        match replies[0] {
            Reply::Handle(bitmap) => {
                let r1 = replies.drop_first();
                let r2 = r1.drop_first();
                let r3 = r2.drop_first();
                let r4 = r3.drop_first();
                assert(r3.len() > 0);
                if r2[0] is Done {
                    assert(r4.len() > 0);
                    assert(asked.len() == 5);
                } else {
                    assert(asked.len() == 4);
                }
            },
            _ => {
                assert(asked =~= seq![
                    Request::CreateBitmap {
                        source: manager.source,
                        format: PixelFormat::of_region(manager.region_size),
                    },
                ]);
            },
        }
    } else {
        assert(asked =~= Seq::<Request>::empty());
    }
}

/// A capture is over after five answers at most.
pub proof fn capture_ends(manager: ManagerState, replies: Seq<Reply>)
    requires
        replies.len() >= 5,
    ensures
        !(manager.begin_capture().run(capture_decision(), replies) is Next),
{
    reveal_with_fuel(Step::run, 6);
    let r1 = replies.drop_first();
    let r2 = r1.drop_first();
    let r3 = r2.drop_first();
    let r4 = r3.drop_first();
    assert(r4.len() > 0);
}

} // verus!
