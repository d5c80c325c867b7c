//! Orchestrator: the per-frame sequence normalise, downsample, detect,
//! forward, as a state machine.
//!
//! The machine decides; the host works. Each step takes the stage a frame is
//! in and the event that came, and gives the next stage and one action for
//! the host. Two actions ask for work that the host does and answers with
//! the matching event: resampling an image, and running it through the
//! background model. The other three end the frame. The background model is
//! touched by the host only to carry out a `Detect` action.

use vstd::prelude::*;
use crate::config::Settings;
use crate::detect::{motion_in, score_mask, scored};
use crate::downsample::{
    accept_downsampled, accepted, nearest_height, plan_downsample, plannable, planned_size,
};
use crate::frame::{plane_size, Frame, FrameError, FrameView, GrayImage, ImageView};
use crate::normalize::{normalize, normalized, well_sized};

verus! {

/// Where a frame stands in the pipeline.
#[derive(Clone, Debug, PartialEq, Eq)]
pub enum Stage {
    /// No frame is in flight.
    Idle,
    /// The host was asked to scale the normalised frame to `width` by
    /// `height`.
    Resizing { frame: Frame, width: u32, height: u32 },
    /// The host was asked to run an image of `pixels` pixels through the
    /// background model.
    Detecting { frame: Frame, pixels: u64 },
}

/// What the host reports to the machine.
#[derive(Clone, Debug, PartialEq, Eq)]
pub enum Event {
    /// A frame came in.
    Arrived(Frame),
    /// The resampler finished: the scaled image, or `None` if it failed.
    Resized(Option<GrayImage>),
    /// The background model finished: the foreground mask, or `None` if it
    /// failed.
    Masked(Option<Vec<u8>>),
}

/// What the machine asks of the host.
#[derive(Clone, Debug, PartialEq, Eq)]
pub enum Action {
    /// Scale `image` to `width` by `height` with linear interpolation and
    /// answer with `Event::Resized`.
    Resize { image: GrayImage, width: u32, height: u32 },
    /// Update the background model with `image`, at the learning rate that
    /// the model picks itself, and answer with `Event::Masked`.
    Detect { image: GrayImage },
    /// Motion: hand this frame, the one that came in, to the downstream sink.
    Forward(Frame),
    /// No motion: nothing more is done with the frame.
    Skip,
    /// The frame is dropped: report the error once.
    Report(FrameError),
}

/// Mathematical content of a [`Stage`].
pub enum StageView {
    Idle,
    Resizing { frame: FrameView, width: u32, height: u32 },
    Detecting { frame: FrameView, pixels: u64 },
}

/// Mathematical content of an [`Event`].
pub enum EventView {
    Arrived(FrameView),
    Resized(Option<ImageView>),
    Masked(Option<Seq<u8>>),
}

/// Mathematical content of an [`Action`].
pub enum ActionView {
    Resize { image: ImageView, width: u32, height: u32 },
    Detect { image: ImageView },
    Forward(FrameView),
    Skip,
    Report(FrameError),
}

impl View for Stage {
    type V = StageView;

    open spec fn view(&self) -> StageView {
        match *self {
            Stage::Idle => StageView::Idle,
            Stage::Resizing { frame, width, height } => StageView::Resizing {
                frame: frame@,
                width,
                height,
            },
            Stage::Detecting { frame, pixels } => StageView::Detecting { frame: frame@, pixels },
        }
    }
}

/// View of an optional image.
pub open spec fn image_view(image: Option<GrayImage>) -> Option<ImageView> {
    match image {
        Some(image) => Some(image@),
        None => None,
    }
}

/// View of an optional mask.
pub open spec fn mask_view(mask: Option<Vec<u8>>) -> Option<Seq<u8>> {
    match mask {
        Some(bytes) => Some(bytes@),
        None => None,
    }
}

impl View for Event {
    type V = EventView;

    open spec fn view(&self) -> EventView {
        match *self {
            Event::Arrived(frame) => EventView::Arrived(frame@),
            Event::Resized(image) => EventView::Resized(image_view(image)),
            Event::Masked(mask) => EventView::Masked(mask_view(mask)),
        }
    }
}

impl View for Action {
    type V = ActionView;

    open spec fn view(&self) -> ActionView {
        match *self {
            Action::Resize { image, width, height } => ActionView::Resize {
                image: image@,
                width,
                height,
            },
            Action::Detect { image } => ActionView::Detect { image: image@ },
            Action::Forward(frame) => ActionView::Forward(frame@),
            Action::Skip => ActionView::Skip,
            Action::Report(error) => ActionView::Report(error),
        }
    }
}

impl ActionView {
    /// The action ends the frame: forward, skip or report.
    pub open spec fn is_final(self) -> bool {
        self is Forward || self is Skip || self is Report
    }
}

/// A frame comes in: it is normalised and the size to scale it to is
/// computed. If either fails the frame is dropped with that error;
/// otherwise the host is asked to resample the normalised image.
pub open spec fn received(settings: Settings, frame: FrameView) -> (StageView, ActionView) {
    match normalized(frame) {
        Err(error) => (StageView::Idle, ActionView::Report(error)),
        Ok(image) => match planned_size(frame.width, frame.height, settings.target_width) {
            Err(error) => (StageView::Idle, ActionView::Report(error)),
            Ok(size) => (
                StageView::Resizing { frame, width: size.0, height: size.1 },
                ActionView::Resize { image, width: size.0, height: size.1 },
            ),
        },
    }
}

/// The resampler answers: an image of exactly the size asked for goes on to
/// detection, anything else drops the frame.
pub open spec fn downsampled(
    frame: FrameView,
    width: u32,
    height: u32,
    resized: Option<ImageView>,
) -> (StageView, ActionView) {
    match accepted((width, height), resized) {
        Err(error) => (StageView::Idle, ActionView::Report(error)),
        Ok(image) => (
            StageView::Detecting { frame, pixels: (width * height) as u64 },
            ActionView::Detect { image },
        ),
    }
}

/// The background model answers: a mask of the right length decides between
/// forwarding the frame that came in and doing nothing; anything else drops
/// the frame.
pub open spec fn judged(settings: Settings, frame: FrameView, pixels: u64, mask: Option<Seq<u8>>) -> (
    StageView,
    ActionView,
) {
    match scored(pixels as int, mask, settings.motion_threshold) {
        Err(error) => (StageView::Idle, ActionView::Report(error)),
        Ok(true) => (StageView::Idle, ActionView::Forward(frame)),
        Ok(false) => (StageView::Idle, ActionView::Skip),
    }
}

/// The transition function of the machine.
///
/// A stage takes the answer to its own request. Any other event abandons
/// the frame in flight with the error of the stage that was pending; with
/// no frame in flight it is ignored.
pub open spec fn stepped(settings: Settings, stage: StageView, event: EventView) -> (
    StageView,
    ActionView,
) {
    match (stage, event) {
        (StageView::Idle, EventView::Arrived(frame)) => received(settings, frame),
        (StageView::Idle, _) => (StageView::Idle, ActionView::Skip),
        (StageView::Resizing { frame, width, height }, EventView::Resized(resized)) => downsampled(
            frame,
            width,
            height,
            resized,
        ),
        (StageView::Resizing { .. }, _) => (
            StageView::Idle,
            ActionView::Report(FrameError::Resize),
        ),
        (StageView::Detecting { frame, pixels }, EventView::Masked(mask)) => judged(
            settings,
            frame,
            pixels,
            mask,
        ),
        (StageView::Detecting { .. }, _) => (
            StageView::Idle,
            ActionView::Report(FrameError::Detection),
        ),
    }
}

/// Takes a frame into the pipeline.
pub fn on_arrived(settings: &Settings, frame: Frame) -> (next: (Stage, Action))
    ensures
        (next.0@, next.1@) == received(*settings, frame@),
        next.1 is Resize <==> normalized(frame@) is Ok && plannable(
            frame.width,
            frame.height,
            settings.target_width,
        ),
        next.1 matches Action::Resize { image, width, height } ==> {
            &&& next.0 == (Stage::Resizing { frame, width, height })
            &&& image.wf() && image.width == frame.width && image.height == frame.height
            &&& width == settings.target_width
            &&& nearest_height(frame.width, frame.height, settings.target_width, height as int)
        },
        !(next.1 is Resize) ==> next.1 is Report && next.0 is Idle,
{
    proof {
        crate::downsample::lemma_planned_size(frame.width, frame.height, settings.target_width);
    }
    match normalize(&frame) {
        Err(error) => (Stage::Idle, Action::Report(error)),
        Ok(image) => match plan_downsample(frame.width, frame.height, settings.target_width) {
            Err(error) => (Stage::Idle, Action::Report(error)),
            Ok(size) => (
                Stage::Resizing { frame, width: size.0, height: size.1 },
                Action::Resize { image, width: size.0, height: size.1 },
            ),
        },
    }
}

/// Takes the resampler's answer for a frame that waits for it.
pub fn on_resized(frame: Frame, width: u32, height: u32, resized: Option<GrayImage>) -> (next: (
    Stage,
    Action,
))
    ensures
        (next.0@, next.1@) == downsampled(frame@, width, height, image_view(resized)),
        next.1 matches Action::Detect { image } ==> {
            &&& resized == Some(image)
            &&& image.wf() && image.width == width && image.height == height
            &&& next.0 == (Stage::Detecting { frame, pixels: (width * height) as u64 })
        },
        !(next.1 is Detect) ==> next.1 == Action::Report(FrameError::Resize) && next.0 is Idle,
{
    match accept_downsampled((width, height), resized) {
        Err(error) => (Stage::Idle, Action::Report(error)),
        Ok(image) => (
            Stage::Detecting { frame, pixels: plane_size(width, height) },
            Action::Detect { image },
        ),
    }
}

/// Takes the background model's answer for a frame that waits for it.
pub fn on_masked(settings: &Settings, frame: Frame, pixels: u64, mask: Option<Vec<u8>>) -> (next: (
    Stage,
    Action,
))
    ensures
        (next.0@, next.1@) == judged(*settings, frame@, pixels, mask_view(mask)),
        next.0 is Idle,
        next.1 matches Action::Forward(forwarded) ==> forwarded == frame,
        next.1 is Forward || next.1 is Skip || next.1 == Action::Report(FrameError::Detection),
{
    match score_mask(pixels, &mask, settings.motion_threshold) {
        Err(error) => (Stage::Idle, Action::Report(error)),
        Ok(true) => (Stage::Idle, Action::Forward(frame)),
        Ok(false) => (Stage::Idle, Action::Skip),
    }
}

/// Advances the machine by one event.
pub fn step(settings: &Settings, stage: Stage, event: Event) -> (next: (Stage, Action))
    ensures
        (next.0@, next.1@) == stepped(*settings, stage@, event@),
        next.1 is Resize <==> stage is Idle && event is Arrived && normalized(event->Arrived_0@)
            is Ok && plannable(
            event->Arrived_0.width,
            event->Arrived_0.height,
            settings.target_width,
        ),
        next.1 matches Action::Resize { image, width, height } ==> {
            &&& event matches Event::Arrived(frame)
            &&& next.0 == (Stage::Resizing { frame, width, height })
            &&& image.wf() && image.width == frame.width && image.height == frame.height
            &&& width == settings.target_width
            &&& nearest_height(frame.width, frame.height, settings.target_width, height as int)
        },
        next.1 matches Action::Detect { image } ==> {
            &&& stage matches Stage::Resizing { frame, width, height }
            &&& event == Event::Resized(Some(image))
            &&& image.wf() && image.width == width && image.height == height
            &&& next.0 == (Stage::Detecting { frame, pixels: (width * height) as u64 })
        },
        next.1 matches Action::Forward(forwarded) ==> {
            &&& stage matches Stage::Detecting { frame, .. }
            &&& forwarded == frame
        },
        next.1 is Forward || next.1 is Skip || next.1 is Report <==> next.0 is Idle,
{
    match stage {
        Stage::Idle => match event {
            Event::Arrived(frame) => on_arrived(settings, frame),
            _ => (Stage::Idle, Action::Skip),
        },
        Stage::Resizing { frame, width, height } => match event {
            Event::Resized(resized) => on_resized(frame, width, height, resized),
            _ => (Stage::Idle, Action::Report(FrameError::Resize)),
        },
        Stage::Detecting { frame, pixels } => match event {
            Event::Masked(mask) => on_masked(settings, frame, pixels, mask),
            _ => (Stage::Idle, Action::Report(FrameError::Detection)),
        },
    }
}

/// The actions that one frame gives rise to, from arrival to its end, when
/// the host answers a resize request with `resized` and a detection request
/// with `mask`. An answer is looked at only if its request was made.
pub open spec fn run(
    settings: Settings,
    frame: FrameView,
    resized: Option<ImageView>,
    mask: Option<Seq<u8>>,
) -> Seq<ActionView> {
    let first = stepped(settings, StageView::Idle, EventView::Arrived(frame));
    if first.1.is_final() {
        seq![first.1]
    } else {
        let second = stepped(settings, first.0, EventView::Resized(resized));
        if second.1.is_final() {
            seq![first.1, second.1]
        } else {
            let third = stepped(settings, second.0, EventView::Masked(mask));
            seq![first.1, second.1, third.1]
        }
    }
}

/// Every step either ends the frame and leaves the machine idle, or asks
/// the host for work and waits for the answer to exactly that request, with
/// the frame that came in kept unchanged.
pub proof fn law_step_keeps_protocol(settings: Settings, stage: StageView, event: EventView)
    ensures
        ({
            let (next, action) = stepped(settings, stage, event);
            &&& action.is_final() <==> next is Idle
            &&& action matches ActionView::Resize { image, width, height } ==> {
                &&& stage is Idle
                &&& event matches EventView::Arrived(frame)
                &&& next == (StageView::Resizing { frame, width, height })
                &&& Ok::<ImageView, FrameError>(image) == normalized(frame)
                &&& Ok::<(u32, u32), FrameError>((width, height)) == planned_size(
                    frame.width,
                    frame.height,
                    settings.target_width,
                )
            }
            &&& action matches ActionView::Detect { image } ==> {
                &&& stage matches StageView::Resizing { frame, width, height }
                &&& event == EventView::Resized(Some(image))
                &&& image.width == width && image.height == height && image.wf()
                &&& next == (StageView::Detecting { frame, pixels: (width * height) as u64 })
            }
            &&& action matches ActionView::Forward(forwarded) ==> {
                &&& stage matches StageView::Detecting { frame, pixels }
                &&& forwarded == frame
                &&& event matches EventView::Masked(Some(bytes))
                &&& bytes.len() == pixels
                &&& motion_in(bytes, settings.motion_threshold)
            }
        }),
{
}

/// One outcome per frame: the actions of a frame are at most two requests
/// to the host followed by exactly one of forward, skip and report.
pub proof fn law_one_outcome_per_frame(
    settings: Settings,
    frame: FrameView,
    resized: Option<ImageView>,
    mask: Option<Seq<u8>>,
)
    ensures
        ({
            let actions = run(settings, frame, resized, mask);
            &&& 1 <= actions.len() <= 3
            &&& actions.last().is_final()
            &&& forall|i: int| 0 <= i < actions.len() - 1 ==> !(#[trigger] actions[i]).is_final()
            &&& actions.len() >= 2 ==> actions[0] is Resize
            &&& actions.len() == 3 ==> actions[1] is Detect
        }),
{
}

/// A dropped frame is inert: when the frame ends in a report, nothing was
/// forwarded, and unless the error is that of the detection step itself
/// the host was never asked to touch the background model.
pub proof fn law_dropped_frame_is_inert(
    settings: Settings,
    frame: FrameView,
    resized: Option<ImageView>,
    mask: Option<Seq<u8>>,
)
    requires
        run(settings, frame, resized, mask).last() is Report,
    ensures
        ({
            let actions = run(settings, frame, resized, mask);
            &&& forall|i: int| 0 <= i < actions.len() ==> !((#[trigger] actions[i]) is Forward)
            &&& actions.last() != ActionView::Report(FrameError::Detection) ==> forall|i: int|
                0 <= i < actions.len() ==> !((#[trigger] actions[i]) is Detect)
        }),
{
}

/// What is forwarded is the frame that came in, unchanged, and it is
/// forwarded exactly when every stage succeeded and the mask shows motion.
pub proof fn law_forwards_the_incoming_frame(
    settings: Settings,
    frame: FrameView,
    resized: Option<ImageView>,
    mask: Option<Seq<u8>>,
)
    ensures
        ({
            let actions = run(settings, frame, resized, mask);
            &&& forall|i: int|
                0 <= i < actions.len() && (#[trigger] actions[i]) is Forward ==> i == actions.len()
                    - 1 && actions[i] == ActionView::Forward(frame)
            &&& actions.last() is Forward <==> {
                &&& normalized(frame) is Ok
                &&& planned_size(frame.width, frame.height, settings.target_width) matches Ok(size)
                &&& accepted(size, resized) is Ok
                &&& scored(size.0 * size.1, mask, settings.motion_threshold) == Ok::<
                    bool,
                    FrameError,
                >(true)
            }
        }),
{
    match planned_size(frame.width, frame.height, settings.target_width) {
        Ok(size) => crate::frame::lemma_plane_fits(size.0, size.1),
        Err(_) => {},
    }
}

/// The host is asked for work exactly for the frames whose buffer fits its
/// declared size and for which a size to scale to can be planned; every
/// other frame ends with its first action, a report.
pub proof fn law_malformed_frame_stops_at_the_door(
    settings: Settings,
    frame: FrameView,
    resized: Option<ImageView>,
    mask: Option<Seq<u8>>,
)
    ensures
        ({
            let actions = run(settings, frame, resized, mask);
            let sound = well_sized(frame) && plannable(
                frame.width,
                frame.height,
                settings.target_width,
            );
            &&& actions[0] is Resize <==> sound
            &&& !sound ==> actions.len() == 1 && actions[0] is Report
        }),
{
    crate::normalize::law_normalized_iff_well_sized(frame);
    crate::downsample::lemma_planned_size(frame.width, frame.height, settings.target_width);
}

/// What goes to detection is the resampler's answer, and only when it has
/// the target width and the height that keeps the aspect ratio of the
/// frame, rounded to the nearest row.
pub proof fn law_detection_sees_planned_size(
    settings: Settings,
    frame: FrameView,
    resized: Option<ImageView>,
    mask: Option<Seq<u8>>,
)
    ensures
        ({
            let actions = run(settings, frame, resized, mask);
            forall|i: int|
                0 <= i < actions.len() ==> ((#[trigger] actions[i]) matches ActionView::Detect {
                    image,
                } ==> {
                    &&& resized == Some(image)
                    &&& image.wf()
                    &&& image.width == settings.target_width
                    &&& image.height == crate::downsample::rounded_height(
                        frame.width,
                        frame.height,
                        settings.target_width,
                    )
                    &&& nearest_height(
                        frame.width,
                        frame.height,
                        settings.target_width,
                        image.height as int,
                    )
                })
        }),
{
    crate::downsample::lemma_planned_size(frame.width, frame.height, settings.target_width);
}

/// A frame whose encoding is absent or unrecognised is dropped at once: its
/// only action is the report of an unsupported format.
pub proof fn law_unsupported_frame_is_reported_once(
    settings: Settings,
    frame: FrameView,
    resized: Option<ImageView>,
    mask: Option<Seq<u8>>,
)
    requires
        frame.encoding is None || frame.encoding == Some(crate::frame::Encoding::Unrecognized),
    ensures
        run(settings, frame, resized, mask) == seq![
            ActionView::Report(FrameError::UnsupportedFormat),
        ],
{
}

} // verus!
