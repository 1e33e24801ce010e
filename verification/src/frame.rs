//! The phases a frame passes through and the events that move it on.

use vstd::prelude::*;
use crate::surface::SurfaceError;

verus! {

/// Where a frame stands.
#[derive(Clone, Copy, Debug, PartialEq, Eq, Structural)]
pub enum FramePhase {
    /// Nothing has happened since the last frame ended.
    Idle,
    /// Input has arrived, the scene has not been updated yet.
    InputConsumed,
    /// The animators have been advanced and uploaded.
    Updated,
    /// The surface texture of this frame is at hand.
    Acquired,
    /// The scene pass has been recorded.
    MainPassRecorded,
    /// The overlay pass has been recorded after the scene pass.
    OverlayPassRecorded,
    /// The command buffer has been handed to the queue.
    Submitted,
    /// The surface texture has been presented.
    Presented,
}

/// What moves a frame from one phase to the next.
#[derive(Clone, Copy, Debug, PartialEq, Eq, Structural)]
pub enum FrameEvent {
    /// The host delivered an input event.
    Input,
    /// The host asked for an update.
    Update,
    /// The surface handed out its next texture.
    Acquire,
    /// The surface failed to hand out a texture.
    AcquireFailed(SurfaceError),
    /// The scene pass was recorded.
    RecordMainPass,
    /// The overlay pass was recorded.
    RecordOverlayPass,
    /// The command buffer was submitted.
    Submit,
    /// The surface texture was presented.
    Present,
    /// The frame is over.
    Finish,
}

impl FramePhase {
    /// Whether the frame is between two renders: only then does the host
    /// hold the scene.
    pub open spec fn at_rest(self) -> bool {
        self is Idle || self is InputConsumed || self is Updated
    }

    /// The phase that follows `self` on `event`, if the event may occur
    /// there.
    pub open spec fn next(self, event: FrameEvent) -> Option<FramePhase> {
        match (self, event) {
            (FramePhase::Idle, FrameEvent::Input) => Some(FramePhase::InputConsumed),
            (FramePhase::InputConsumed, FrameEvent::Input) => Some(FramePhase::InputConsumed),
            (FramePhase::Updated, FrameEvent::Input) => Some(FramePhase::Updated),
            (FramePhase::Idle, FrameEvent::Update) => Some(FramePhase::Updated),
            (FramePhase::InputConsumed, FrameEvent::Update) => Some(FramePhase::Updated),
            (FramePhase::Updated, FrameEvent::Update) => Some(FramePhase::Updated),
            (FramePhase::Idle, FrameEvent::Acquire) => Some(FramePhase::Acquired),
            (FramePhase::InputConsumed, FrameEvent::Acquire) => Some(FramePhase::Acquired),
            (FramePhase::Updated, FrameEvent::Acquire) => Some(FramePhase::Acquired),
            (FramePhase::Idle, FrameEvent::AcquireFailed(_)) => Some(FramePhase::Idle),
            (FramePhase::InputConsumed, FrameEvent::AcquireFailed(_)) => Some(FramePhase::Idle),
            (FramePhase::Updated, FrameEvent::AcquireFailed(_)) => Some(FramePhase::Idle),
            (FramePhase::Acquired, FrameEvent::RecordMainPass) => Some(
                FramePhase::MainPassRecorded,
            ),
            (FramePhase::MainPassRecorded, FrameEvent::RecordOverlayPass) => Some(
                FramePhase::OverlayPassRecorded,
            ),
            (FramePhase::MainPassRecorded, FrameEvent::Submit) => Some(FramePhase::Submitted),
            (FramePhase::OverlayPassRecorded, FrameEvent::Submit) => Some(FramePhase::Submitted),
            (FramePhase::Submitted, FrameEvent::Present) => Some(FramePhase::Presented),
            (FramePhase::Presented, FrameEvent::Finish) => Some(FramePhase::Idle),
            _ => None,
        }
    }

    /// Whether some event leads from `self` to `to`.
    pub open spec fn steps_to(self, to: FramePhase) -> bool {
        exists|event: FrameEvent| #[trigger] self.next(event) == Some(to)
    }

    /// Moves the frame on by one event.
    pub fn advance(self, event: FrameEvent) -> (out: Option<FramePhase>)
        ensures
            out == self.next(event),
            out matches Some(to) ==> self.steps_to(to),
    {
        let out = match (self, event) {
            (FramePhase::Idle, FrameEvent::Input) => Some(FramePhase::InputConsumed),
            (FramePhase::InputConsumed, FrameEvent::Input) => Some(FramePhase::InputConsumed),
            (FramePhase::Updated, FrameEvent::Input) => Some(FramePhase::Updated),
            (FramePhase::Idle, FrameEvent::Update) => Some(FramePhase::Updated),
            (FramePhase::InputConsumed, FrameEvent::Update) => Some(FramePhase::Updated),
            (FramePhase::Updated, FrameEvent::Update) => Some(FramePhase::Updated),
            (FramePhase::Idle, FrameEvent::Acquire) => Some(FramePhase::Acquired),
            (FramePhase::InputConsumed, FrameEvent::Acquire) => Some(FramePhase::Acquired),
            (FramePhase::Updated, FrameEvent::Acquire) => Some(FramePhase::Acquired),
            (FramePhase::Idle, FrameEvent::AcquireFailed(_)) => Some(FramePhase::Idle),
            (FramePhase::InputConsumed, FrameEvent::AcquireFailed(_)) => Some(FramePhase::Idle),
            (FramePhase::Updated, FrameEvent::AcquireFailed(_)) => Some(FramePhase::Idle),
            (FramePhase::Acquired, FrameEvent::RecordMainPass) => Some(
                FramePhase::MainPassRecorded,
            ),
            (FramePhase::MainPassRecorded, FrameEvent::RecordOverlayPass) => Some(
                FramePhase::OverlayPassRecorded,
            ),
            (FramePhase::MainPassRecorded, FrameEvent::Submit) => Some(FramePhase::Submitted),
            (FramePhase::OverlayPassRecorded, FrameEvent::Submit) => Some(FramePhase::Submitted),
            (FramePhase::Submitted, FrameEvent::Present) => Some(FramePhase::Presented),
            (FramePhase::Presented, FrameEvent::Finish) => Some(FramePhase::Idle),
            _ => None,
        };
        assert(out == self.next(event));
        out
    }
}

/// Whether each phase of `path` follows from the one before it, the first
/// from `start`.
pub open spec fn legal_path(start: FramePhase, path: Seq<FramePhase>) -> bool {
    forall|i: int|
        0 <= i < path.len() ==> (if i == 0 {
            start
        } else {
            path[i - 1]
        }).steps_to(#[trigger] path[i])
}

/// The phases of a frame that is drawn and presented.
pub open spec fn presented_path(overlay: bool) -> Seq<FramePhase> {
    if overlay {
        seq![
            FramePhase::Acquired,
            FramePhase::MainPassRecorded,
            FramePhase::OverlayPassRecorded,
            FramePhase::Submitted,
            FramePhase::Presented,
            FramePhase::Idle,
        ]
    } else {
        seq![
            FramePhase::Acquired,
            FramePhase::MainPassRecorded,
            FramePhase::Submitted,
            FramePhase::Presented,
            FramePhase::Idle,
        ]
    }
}

/// The phases of a frame whose surface texture could not be acquired.
pub open spec fn abandoned_path() -> Seq<FramePhase> {
    seq![FramePhase::Idle]
}

/// Input and update keep a frame at rest, and only a frame at rest can take
/// them or begin to render.
pub proof fn host_events_need_rest(phase: FramePhase, event: FrameEvent)
    requires
        event is Input || event is Update || event is Acquire || event is AcquireFailed,
    ensures
        phase.next(event).is_some() <==> phase.at_rest(),
        (event is Input || event is Update) ==> (phase.next(event) matches Some(to)
            ==> to.at_rest()),
{
}

/// From any phase at rest, a frame that is drawn passes through recording,
/// submission and presentation in that order and comes to rest at idle.
pub proof fn presented_path_is_legal(start: FramePhase, overlay: bool)
    requires
        start.at_rest(),
    ensures
        legal_path(start, presented_path(overlay)),
{
    let path = presented_path(overlay);
    assert(start.next(FrameEvent::Acquire) == Some(FramePhase::Acquired));
    assert(FramePhase::Acquired.next(FrameEvent::RecordMainPass) == Some(
        FramePhase::MainPassRecorded,
    ));
    assert(FramePhase::MainPassRecorded.next(FrameEvent::RecordOverlayPass) == Some(
        FramePhase::OverlayPassRecorded,
    ));
    assert(FramePhase::MainPassRecorded.next(FrameEvent::Submit) == Some(FramePhase::Submitted));
    assert(FramePhase::OverlayPassRecorded.next(FrameEvent::Submit) == Some(
        FramePhase::Submitted,
    ));
    assert(FramePhase::Submitted.next(FrameEvent::Present) == Some(FramePhase::Presented));
    assert(FramePhase::Presented.next(FrameEvent::Finish) == Some(FramePhase::Idle));
    assert forall|i: int| 0 <= i < path.len() implies (if i == 0 {
        start
    } else {
        path[i - 1]
    }).steps_to(#[trigger] path[i]) by {
        if overlay {
            assert(path[0] == FramePhase::Acquired);
            assert(path[1] == FramePhase::MainPassRecorded);
            assert(path[2] == FramePhase::OverlayPassRecorded);
            assert(path[3] == FramePhase::Submitted);
            assert(path[4] == FramePhase::Presented);
            assert(path[5] == FramePhase::Idle);
        } else {
            assert(path[0] == FramePhase::Acquired);
            assert(path[1] == FramePhase::MainPassRecorded);
            assert(path[2] == FramePhase::Submitted);
            assert(path[3] == FramePhase::Presented);
            assert(path[4] == FramePhase::Idle);
        }
    }
}

/// From any phase at rest, a frame that cannot be acquired goes straight
/// back to idle.
pub proof fn abandoned_path_is_legal(start: FramePhase, error: SurfaceError)
    requires
        start.at_rest(),
    ensures
        legal_path(start, abandoned_path()),
{
    assert(start.next(FrameEvent::AcquireFailed(error)) == Some(FramePhase::Idle));
}

} // verus!
