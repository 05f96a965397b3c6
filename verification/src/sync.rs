//! The synchronization of the frames in flight.
//!
//! The synchronizer owns one pair of semaphores and one fence for each frame
//! that may be in flight, and remembers for each swap image the fence of the
//! frame that last drew to it. It says which requests acquire and submit a
//! frame, and keeps its books when the caller reports that they were made.

use vstd::prelude::*;
use crate::command::Command;
use crate::constants::{
    ERROR_OUT_OF_DATE_KHR,
    MAX_FRAMES_IN_FLIGHT,
    NO_TIMEOUT,
    PIPELINE_STAGE_COLOR_ATTACHMENT_OUTPUT,
};
use crate::device::ResultCode;
use crate::handles::{CommandBuffer, Fence, Semaphore, SwapchainKHR};
use crate::info::{PresentInfoKHR, SubmitInfo};
use crate::teardown::{destroy_fences, destroy_semaphores};

verus! {

/// Why an image could not be acquired or presented.
#[derive(Clone, Copy, PartialEq, Eq, Structural, Debug)]
pub enum PresentationError {
    /// The surface has changed and the swap chain no longer fits it.
    SurfaceOutOfDate,
    /// The platform failed in another way.
    Failed(ResultCode),
}

/// The error that stands for a failure code of the platform.
pub open spec fn spec_classify(code: ResultCode) -> PresentationError {
    if code.raw == ERROR_OUT_OF_DATE_KHR {
        PresentationError::SurfaceOutOfDate
    } else {
        PresentationError::Failed(code)
    }
}

#[verifier::when_used_as_spec(spec_classify)]
pub fn classify(code: ResultCode) -> (r: PresentationError)
    ensures
        r == spec_classify(code),
{
    if code.raw == ERROR_OUT_OF_DATE_KHR {
        PresentationError::SurfaceOutOfDate
    } else {
        PresentationError::Failed(code)
    }
}

/// The request to wait for a fence without limit.
pub open spec fn wait_for(fence: Fence) -> Command {
    Command::WaitForFence { fence, timeout: NO_TIMEOUT }
}

/// The state of a synchronizer as mathematical values.
pub struct FrameSynchronizerView {
    pub image_available_semaphores: Seq<Semaphore>,
    pub render_finished_semaphores: Seq<Semaphore>,
    pub in_flight_fences: Seq<Fence>,
    /// For each swap image the fence of the frame that last drew to it.
    pub images_in_flight: Seq<Option<Fence>>,
    /// The slot of the frame that is prepared now.
    pub current_frame: int,
    /// For each slot, whether work was submitted under its fence and the
    /// acquire requests of the slot, which wait for that fence, were not
    /// made since.
    pub pending: Seq<bool>,
}

impl FrameSynchronizerView {
    /// One semaphore pair, one fence and one pending mark for each slot, the
    /// current slot among them, and no image that waits for a fence of
    /// another synchronizer.
    pub open spec fn wf(self) -> bool {
        &&& self.image_available_semaphores.len() == MAX_FRAMES_IN_FLIGHT
        &&& self.render_finished_semaphores.len() == MAX_FRAMES_IN_FLIGHT
        &&& self.in_flight_fences.len() == MAX_FRAMES_IN_FLIGHT
        &&& self.pending.len() == MAX_FRAMES_IN_FLIGHT
        &&& 0 <= self.current_frame < MAX_FRAMES_IN_FLIGHT
        &&& forall|j: int|
            0 <= j < self.images_in_flight.len() && (#[trigger] self.images_in_flight[j]) is Some
                ==> self.in_flight_fences.contains(self.images_in_flight[j]->0)
    }

    /// A synchronizer without objects.
    pub open spec fn empty() -> FrameSynchronizerView {
        FrameSynchronizerView {
            image_available_semaphores: Seq::empty(),
            render_finished_semaphores: Seq::empty(),
            in_flight_fences: Seq::empty(),
            images_in_flight: Seq::empty(),
            current_frame: 0,
            pending: Seq::empty(),
        }
    }

    /// The requests that destroy the semaphores and the fences, slot by slot.
    pub open spec fn cleanup_commands(self) -> Seq<Command> {
        self.image_available_semaphores.map_values(
            |semaphore| Command::DestroySemaphore { semaphore },
        ) + self.render_finished_semaphores.map_values(
            |semaphore| Command::DestroySemaphore { semaphore },
        ) + self.in_flight_fences.map_values(|fence| Command::DestroyFence { fence })
    }

    /// The fence that guards the current slot.
    pub open spec fn current_fence(self) -> Fence {
        self.in_flight_fences[self.current_frame]
    }

    /// A fresh synchronizer for `image_count` swap images: the first slot is
    /// current, no image is in flight and no slot is pending.
    pub open spec fn fresh(
        image_available_semaphores: Seq<Semaphore>,
        render_finished_semaphores: Seq<Semaphore>,
        in_flight_fences: Seq<Fence>,
        image_count: nat,
    ) -> FrameSynchronizerView {
        FrameSynchronizerView {
            image_available_semaphores,
            render_finished_semaphores,
            in_flight_fences,
            images_in_flight: Seq::new(image_count, |j: int| None::<Fence>),
            current_frame: 0,
            pending: Seq::new(MAX_FRAMES_IN_FLIGHT as nat, |k: int| false),
        }
    }

    /// What acquiring an image takes: a wait without limit for the fence of
    /// the current slot, then the request for the next image, which signals
    /// the slot's first semaphore.
    pub open spec fn acquire_commands(self, swapchain: SwapchainKHR) -> Seq<Command> {
        seq![
            Command::WaitForFence { fence: self.current_fence(), timeout: NO_TIMEOUT },
            Command::AcquireNextImage {
                swapchain,
                timeout: NO_TIMEOUT,
                semaphore: self.image_available_semaphores[self.current_frame],
            },
        ]
    }

    /// The state after the acquire requests were made: the fence of the
    /// current slot was waited for.
    pub open spec fn acquired(self) -> FrameSynchronizerView {
        FrameSynchronizerView { pending: self.pending.update(self.current_frame, false), ..self }
    }

    /// The work of the current slot: it starts to write color once the image
    /// is available and signals the slot's second semaphore when done.
    pub open spec fn submit_info(self, buffer: CommandBuffer) -> SubmitInfo {
        SubmitInfo {
            wait_semaphore: self.image_available_semaphores[self.current_frame],
            wait_dst_stage_mask: PIPELINE_STAGE_COLOR_ATTACHMENT_OUTPUT,
            command_buffer: buffer,
            signal_semaphore: self.render_finished_semaphores[self.current_frame],
        }
    }

    /// The presentation of an image once the current slot has drawn it.
    pub open spec fn present_info(self, swapchain: SwapchainKHR, image_index: u32) -> PresentInfoKHR {
        PresentInfoKHR {
            wait_semaphore: self.render_finished_semaphores[self.current_frame],
            swapchain,
            image_index,
        }
    }

    /// What submitting and presenting a frame takes, in order: where a frame
    /// drew to the image before, a wait without limit for the fence of that
    /// frame; the reset of the current slot's fence; the submission under that
    /// fence; the presentation.
    pub open spec fn submit_commands(
        self,
        buffer: CommandBuffer,
        image_index: u32,
        swapchain: SwapchainKHR,
    ) -> Seq<Command> {
        let wait = match self.images_in_flight[image_index as int] {
            Some(fence) => seq![Command::WaitForFence { fence, timeout: NO_TIMEOUT }],
            None => Seq::<Command>::empty(),
        };
        wait + seq![
            Command::ResetFence { fence: self.current_fence() },
            Command::QueueSubmit { submit: self.submit_info(buffer), fence: self.current_fence() },
            Command::QueuePresent { present: self.present_info(swapchain, image_index) },
        ]
    }

    /// The state after a frame on the image was submitted: the image is in
    /// flight under the fence of the slot, the slot is pending, and the next
    /// slot is current.
    pub open spec fn submitted(self, image_index: u32) -> FrameSynchronizerView {
        FrameSynchronizerView {
            images_in_flight: self.images_in_flight.update(
                image_index as int,
                Some(self.current_fence()),
            ),
            pending: self.pending.update(self.current_frame, true),
            current_frame: (self.current_frame + 1) % (MAX_FRAMES_IN_FLIGHT as int),
            ..self
        }
    }

    /// The state after one frame was submitted on each image of `images`, in
    /// their order, each preceded by its acquire requests.
    pub open spec fn after_frames(self, images: Seq<u32>) -> FrameSynchronizerView
        decreases images.len(),
    {
        if images.len() == 0 {
            self
        } else {
            self.acquired().submitted(images[0]).after_frames(images.drop_first())
        }
    }
}

/// The semaphores and fences of the frames in flight.
pub struct FrameSynchronizer {
    image_available_semaphores: Vec<Semaphore>,
    render_finished_semaphores: Vec<Semaphore>,
    in_flight_fences: Vec<Fence>,
    images_in_flight: Vec<Option<Fence>>,
    current_frame: usize,
    pending: Ghost<Seq<bool>>,
}

impl View for FrameSynchronizer {
    type V = FrameSynchronizerView;

    closed spec fn view(&self) -> FrameSynchronizerView {
        FrameSynchronizerView {
            image_available_semaphores: self.image_available_semaphores@,
            render_finished_semaphores: self.render_finished_semaphores@,
            in_flight_fences: self.in_flight_fences@,
            images_in_flight: self.images_in_flight@,
            current_frame: self.current_frame as int,
            pending: self.pending@,
        }
    }
}

impl FrameSynchronizer {
    /// Whether the synchronizer has its objects and keeps its books in order.
    pub open spec fn wf(&self) -> bool {
        self@.wf()
    }

    /// A synchronizer without objects. It is not well formed: it only holds
    /// the place in a swap chain until the objects exist.
    pub(crate) fn empty() -> (r: FrameSynchronizer)
        ensures
            r@ == FrameSynchronizerView::empty(),
    {
        FrameSynchronizer {
            image_available_semaphores: Vec::new(),
            render_finished_semaphores: Vec::new(),
            in_flight_fences: Vec::new(),
            images_in_flight: Vec::new(),
            current_frame: 0,
            pending: Ghost(Seq::empty()),
        }
    }

    /// A synchronizer over objects that the platform has created, for a swap
    /// chain of `image_count` images. The fences must have been created
    /// signaled: no slot counts as pending.
    pub fn new(
        image_available_semaphores: Vec<Semaphore>,
        render_finished_semaphores: Vec<Semaphore>,
        in_flight_fences: Vec<Fence>,
        image_count: usize,
    ) -> (r: FrameSynchronizer)
        requires
            image_available_semaphores@.len() == MAX_FRAMES_IN_FLIGHT,
            render_finished_semaphores@.len() == MAX_FRAMES_IN_FLIGHT,
            in_flight_fences@.len() == MAX_FRAMES_IN_FLIGHT,
        ensures
            r@ == FrameSynchronizerView::fresh(
                image_available_semaphores@,
                render_finished_semaphores@,
                in_flight_fences@,
                image_count as nat,
            ),
            r.wf(),
    {
        let mut images_in_flight: Vec<Option<Fence>> = Vec::new();
        let mut j: usize = 0;
        while j < image_count
            invariant
                j <= image_count,
                images_in_flight@.len() == j,
                forall|i: int| 0 <= i < j ==> images_in_flight@[i] == None::<Fence>,
            decreases image_count - j,
        {
            images_in_flight.push(None);
            j += 1;
        }
        let r = FrameSynchronizer {
            image_available_semaphores,
            render_finished_semaphores,
            in_flight_fences,
            images_in_flight,
            current_frame: 0,
            pending: Ghost(Seq::new(MAX_FRAMES_IN_FLIGHT as nat, |k: int| false)),
        };
        assert(r@.images_in_flight =~= Seq::new(image_count as nat, |j: int| None::<Fence>));
        r
    }

    /// Gives up the semaphores and the fences: the requests that destroy
    /// them are appended to `commands`.
    pub fn cleanup(self, commands: &mut Vec<Command>)
        ensures
            final(commands)@ == old(commands)@ + self@.cleanup_commands(),
    {
        destroy_semaphores(commands, &self.image_available_semaphores);
        destroy_semaphores(commands, &self.render_finished_semaphores);
        destroy_fences(commands, &self.in_flight_fences);
    }

    /// The slot of the frame that is prepared now.
    pub fn current_frame(&self) -> (r: usize)
        ensures
            r == self@.current_frame,
    {
        self.current_frame
    }

    /// The number of swap images that the synchronizer keeps track of.
    pub fn image_count(&self) -> (r: usize)
        ensures
            r == self@.images_in_flight.len(),
    {
        self.images_in_flight.len()
    }

    /// The requests that acquire the next image of `swapchain` for the
    /// current slot.
    pub fn acquire_commands(&self, swapchain: SwapchainKHR) -> (r: Vec<Command>)
        requires
            self.wf(),
        ensures
            r@ == self@.acquire_commands(swapchain),
    {
        let mut commands: Vec<Command> = Vec::new();
        commands.push(
            Command::WaitForFence {
                fence: self.in_flight_fences[self.current_frame],
                timeout: NO_TIMEOUT,
            },
        );
        commands.push(
            Command::AcquireNextImage {
                swapchain,
                timeout: NO_TIMEOUT,
                semaphore: self.image_available_semaphores[self.current_frame],
            },
        );
        commands
    }

    /// Takes note that the acquire requests were made and says what came of
    /// them: the index of the image and whether the surface is served less
    /// than well, or the error that stands for the platform's failure code.
    pub fn acquire_next_image(&mut self, acquired: Result<(u32, bool), ResultCode>) -> (r: Result<
        (u32, bool),
        PresentationError,
    >)
        requires
            old(self).wf(),
        ensures
            final(self).wf(),
            final(self)@ == old(self)@.acquired(),
            match acquired {
                Ok(image) => r == Ok::<(u32, bool), PresentationError>(image),
                Err(code) => r == Err::<(u32, bool), PresentationError>(spec_classify(code)),
            },
    {
        self.pending = Ghost(self.pending@.update(self.current_frame as int, false));
        match acquired {
            Ok(image) => Ok(image),
            Err(code) => Err(classify(code)),
        }
    }

    /// The requests that submit `buffer` for the current slot and present the
    /// image at `image_index` of `swapchain`.
    pub fn submit_commands(
        &self,
        buffer: CommandBuffer,
        image_index: u32,
        swapchain: SwapchainKHR,
    ) -> (r: Vec<Command>)
        requires
            self.wf(),
            image_index < self@.images_in_flight.len(),
        ensures
            r@ == self@.submit_commands(buffer, image_index, swapchain),
    {
        let mut commands: Vec<Command> = Vec::new();
        match self.images_in_flight[image_index as usize] {
            Some(fence) => {
                commands.push(Command::WaitForFence { fence, timeout: NO_TIMEOUT });
            },
            None => {},
        }
        let fence = self.in_flight_fences[self.current_frame];
        commands.push(Command::ResetFence { fence });
        commands.push(
            Command::QueueSubmit {
                submit: SubmitInfo {
                    wait_semaphore: self.image_available_semaphores[self.current_frame],
                    wait_dst_stage_mask: PIPELINE_STAGE_COLOR_ATTACHMENT_OUTPUT,
                    command_buffer: buffer,
                    signal_semaphore: self.render_finished_semaphores[self.current_frame],
                },
                fence,
            },
        );
        commands.push(
            Command::QueuePresent {
                present: PresentInfoKHR {
                    wait_semaphore: self.render_finished_semaphores[self.current_frame],
                    swapchain,
                    image_index,
                },
            },
        );
        commands
    }

    /// Takes note that the submit requests for the image at `image_index`
    /// were made, moves on to the next slot, and says what came of the
    /// presentation: whether the surface is served less than well, or the
    /// error that stands for the platform's failure code.
    pub fn submit_command_buffers(&mut self, image_index: u32, presented: Result<bool, ResultCode>) -> (r:
        Result<bool, PresentationError>)
        requires
            old(self).wf(),
            image_index < old(self)@.images_in_flight.len(),
        ensures
            final(self).wf(),
            final(self)@ == old(self)@.submitted(image_index),
            match presented {
                Ok(suboptimal) => r == Ok::<bool, PresentationError>(suboptimal),
                Err(code) => r == Err::<bool, PresentationError>(spec_classify(code)),
            },
    {
        let fence = self.in_flight_fences[self.current_frame];
        self.images_in_flight.set(image_index as usize, Some(fence));
        self.pending = Ghost(self.pending@.update(self.current_frame as int, true));
        self.current_frame = (self.current_frame + 1) % MAX_FRAMES_IN_FLIGHT;
        proof {
            lemma_submitted_wf(old(self)@, image_index);
        }
        match presented {
            Ok(suboptimal) => Ok(suboptimal),
            Err(code) => Err(classify(code)),
        }
    }
}

/// Submitting a frame keeps a synchronizer well formed.
pub proof fn lemma_submitted_wf(s: FrameSynchronizerView, image_index: u32)
    requires
        s.wf(),
        image_index < s.images_in_flight.len(),
    ensures
        s.submitted(image_index).wf(),
{
    let t = s.submitted(image_index);
    assert forall|j: int|
        0 <= j < t.images_in_flight.len() && (#[trigger] t.images_in_flight[j]) is Some implies t.in_flight_fences.contains(
        t.images_in_flight[j]->0,
    ) by {
        if j == image_index as int {
            assert(t.images_in_flight[j]->0 == s.in_flight_fences[s.current_frame]);
        } else {
            assert(t.images_in_flight[j] == s.images_in_flight[j]);
        }
    }
}

/// Frames on other images leave the fence of an image in flight as it is, and
/// the synchronizer well formed.
pub proof fn lemma_after_frames_keeps(s: FrameSynchronizerView, images: Seq<u32>, j: int)
    requires
        s.wf(),
        0 <= j < s.images_in_flight.len(),
        forall|i: int| 0 <= i < images.len() ==> (#[trigger] images[i]) < s.images_in_flight.len(),
        forall|i: int| 0 <= i < images.len() ==> (#[trigger] images[i]) != j,
    ensures
        s.after_frames(images).wf(),
        s.after_frames(images).images_in_flight.len() == s.images_in_flight.len(),
        s.after_frames(images).images_in_flight[j] == s.images_in_flight[j],
        s.after_frames(images).in_flight_fences == s.in_flight_fences,
    decreases images.len(),
{
    if images.len() > 0 {
        let next = s.acquired().submitted(images[0]);
        lemma_submitted_wf(s.acquired(), images[0]);
        let rest = images.drop_first();
        assert forall|i: int| 0 <= i < rest.len() implies (#[trigger] rest[i])
            < next.images_in_flight.len() && rest[i] != j by {
            assert(rest[i] == images[i + 1]);
        }
        lemma_after_frames_keeps(next, rest, j);
    }
}

/// An image is not drawn to again before the frame that last drew to it is
/// done. Let a frame be submitted on image `j`, then any number of frames on
/// other images. The requests that submit the next frame on `j` start with a
/// wait for the fence under which the first frame was submitted, and the
/// submission comes after it.
pub proof fn law_image_reuse_waits_for_last_frame(
    s: FrameSynchronizerView,
    j: u32,
    between: Seq<u32>,
    buffer: CommandBuffer,
    swapchain: SwapchainKHR,
)
    requires
        s.wf(),
        j < s.images_in_flight.len(),
        forall|i: int| 0 <= i < between.len() ==> (#[trigger] between[i]) < s.images_in_flight.len(),
        forall|i: int| 0 <= i < between.len() ==> (#[trigger] between[i]) != j,
    ensures
        ({
            let first = s.acquired();
            let second = first.submitted(j).after_frames(between).acquired();
            let commands = second.submit_commands(buffer, j, swapchain);
            &&& commands.len() == 4
            &&& commands[0] == wait_for(first.current_fence())
            &&& commands[2] == (Command::QueueSubmit {
                submit: second.submit_info(buffer),
                fence: second.current_fence(),
            })
        }),
{
    let first = s.acquired();
    lemma_submitted_wf(first, j);
    lemma_after_frames_keeps(first.submitted(j), between, j as int);
}

/// A frame is prepared only after the fence of its slot was waited for: the
/// acquire requests start with that wait, and once they were made the slot is
/// not pending. Submitting the frame makes the slot pending again, under the
/// same fence.
pub proof fn law_slot_is_waited_for_before_reuse(
    s: FrameSynchronizerView,
    image_index: u32,
    buffer: CommandBuffer,
    swapchain: SwapchainKHR,
)
    requires
        s.wf(),
        image_index < s.images_in_flight.len(),
    ensures
        s.acquire_commands(swapchain)[0] == wait_for(s.in_flight_fences[s.current_frame]),
        s.acquired().current_frame == s.current_frame,
        !s.acquired().pending[s.current_frame],
        s.acquired().submitted(image_index).pending[s.current_frame],
        s.acquired().submit_commands(buffer, image_index, swapchain).last() == (Command::QueuePresent {
            present: s.present_info(swapchain, image_index),
        }),
{
}

/// An image is presented only after it was drawn. In the requests that
/// submit a frame, the submission comes right before the presentation, which
/// is the last request; the submission signals the semaphore that the
/// presentation waits for; and the fence under which the work is submitted
/// was reset right before.
pub proof fn law_presentation_waits_for_rendering(
    s: FrameSynchronizerView,
    image_index: u32,
    buffer: CommandBuffer,
    swapchain: SwapchainKHR,
)
    requires
        s.wf(),
        image_index < s.images_in_flight.len(),
    ensures
        ({
            let commands = s.submit_commands(buffer, image_index, swapchain);
            let n = commands.len() as int;
            &&& n == if s.images_in_flight[image_index as int] is Some {
                4int
            } else {
                3int
            }
            &&& commands[n - 3] == (Command::ResetFence { fence: s.current_fence() })
            &&& commands[n - 2] == (Command::QueueSubmit {
                submit: s.submit_info(buffer),
                fence: s.current_fence(),
            })
            &&& commands[n - 1] == (Command::QueuePresent {
                present: s.present_info(swapchain, image_index),
            })
            &&& s.present_info(swapchain, image_index).wait_semaphore == s.submit_info(
                buffer,
            ).signal_semaphore
            &&& s.present_info(swapchain, image_index).image_index == image_index
        }),
{
}

} // verus!
