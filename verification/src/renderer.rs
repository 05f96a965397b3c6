//! The begin-frame / end-frame protocol.
//!
//! A renderer is idle or has a frame in progress. Beginning a frame takes an
//! acquired image and hands out the command buffer of the current slot;
//! ending it submits that buffer and presents the image. Where the surface no
//! longer fits, the renderer asks for a new generation of its swap chain and
//! begins no frame until it has one.

use vstd::prelude::*;
use crate::command::Command;
use crate::constants::{
    MAX_FRAMES_IN_FLIGHT,
    NO_TIMEOUT,
    PIPELINE_STAGE_COLOR_ATTACHMENT_OUTPUT,
    SUBPASS_CONTENTS_INLINE,
};
use crate::describe::{
    blue,
    command_buffer_allocate_info,
    command_buffer_begin_info,
    dark_gray,
    full_area,
    full_viewport,
    renderpass_begin_info,
    spec_command_buffer_allocate_info,
    spec_command_buffer_begin_info,
    spec_full_area,
    spec_full_viewport,
    spec_renderpass_begin_info,
};
use crate::device::{DeviceInfo, ResultCode};
use crate::extent::Extent2D;
use crate::handles::{CommandBuffer, CommandPool, Framebuffer, RenderPass};
use crate::info::{ClearColorValue, CommandBufferAllocateInfo, PresentInfoKHR, SubmitInfo};
use crate::swapchain::{Swapchain, SwapchainStage, SwapchainView};
use crate::teardown::free_command_buffers;

verus! {

/// Whether a presentation calls for a new generation: the platform failed,
/// or it serves the surface less than well.
pub open spec fn degraded(presented: Result<bool, ResultCode>) -> bool {
    match presented {
        Ok(suboptimal) => suboptimal,
        Err(_) => true,
    }
}

/// The requests that begin a pass on `framebuffer` over the whole of
/// `extent`: the start of the pass, then the viewport, then the scissor
/// rectangle.
pub open spec fn renderpass_commands(
    command_buffer: CommandBuffer,
    render_pass: RenderPass,
    framebuffer: Framebuffer,
    extent: Extent2D,
    clear_color: ClearColorValue,
) -> Seq<Command> {
    seq![
        Command::BeginRenderPass {
            command_buffer,
            pass: spec_renderpass_begin_info(render_pass, framebuffer, extent, clear_color),
            contents: SUBPASS_CONTENTS_INLINE,
        },
        Command::SetViewport { command_buffer, viewport: spec_full_viewport(extent) },
        Command::SetScissor { command_buffer, scissor: spec_full_area(extent) },
    ]
}

/// The state of a renderer as mathematical values.
pub struct RendererView {
    pub swapchain: SwapchainView,
    pub command_buffers: Seq<CommandBuffer>,
    pub current_image_index: u32,
    pub is_frame_started: bool,
    pub needs_recreation: bool,
}

impl RendererView {
    /// Whether the renderer has given up its generation and waits for a new
    /// one.
    pub open spec fn is_retired(self) -> bool {
        self.swapchain.stage == SwapchainStage::Empty
    }

    /// Either the swap chain is ready and there is one command buffer for
    /// each frame in flight, or the renderer is retired: it holds no command
    /// buffer and asks for a new generation. While a frame is in progress its
    /// image is one of the chain, the fence of its slot has been waited for,
    /// and no new generation is asked for.
    pub open spec fn wf(self) -> bool {
        &&& self.swapchain.wf()
        &&& self.swapchain.stage == SwapchainStage::Ready || self.is_retired()
        &&& self.swapchain.stage == SwapchainStage::Ready ==> self.command_buffers.len()
            == MAX_FRAMES_IN_FLIGHT
        &&& self.is_retired() ==> self.command_buffers.len() == 0 && self.needs_recreation
        &&& self.is_frame_started ==> self.current_image_index < self.swapchain.images.len()
        &&& self.is_frame_started ==> !self.swapchain.sync.pending[self.frame_index()]
        &&& self.is_frame_started ==> !self.needs_recreation
    }

    /// The slot of the frame that is prepared now.
    pub open spec fn frame_index(self) -> int {
        self.swapchain.sync.current_frame
    }

    /// The command buffer of the current slot.
    pub open spec fn current_command_buffer(self) -> CommandBuffer {
        self.command_buffers[self.frame_index()]
    }

    /// A renderer that is idle on a swap chain.
    pub open spec fn idle(swapchain: SwapchainView, command_buffers: Seq<CommandBuffer>) -> RendererView {
        RendererView {
            swapchain,
            command_buffers,
            current_image_index: 0,
            is_frame_started: false,
            needs_recreation: false,
        }
    }

    /// The state after the acquire requests were made: with an image, a frame
    /// on it is in progress; without one, a new generation is asked for.
    pub open spec fn begun(self, acquired: Result<(u32, bool), ResultCode>) -> RendererView {
        let swapchain = SwapchainView { sync: self.swapchain.sync.acquired(), ..self.swapchain };
        match acquired {
            Ok(image) => RendererView {
                swapchain,
                current_image_index: image.0,
                is_frame_started: true,
                ..self
            },
            Err(_) => RendererView { swapchain, needs_recreation: true, ..self },
        }
    }

    /// The requests that end a frame: the end of the recording, then what
    /// submits the command buffer and presents the image.
    pub open spec fn end_frame_commands(self) -> Seq<Command> {
        seq![Command::EndCommandBuffer { command_buffer: self.current_command_buffer() }]
            + self.swapchain.sync.submit_commands(
            self.current_command_buffer(),
            self.current_image_index,
            self.swapchain.swapchain->0,
        )
    }

    /// The state after the requests that end a frame were made: no frame is
    /// in progress, and a new generation is asked for where the presentation
    /// was degraded or the window was resized.
    pub open spec fn ended(self, presented: Result<bool, ResultCode>, window_resized: bool) -> RendererView {
        RendererView {
            swapchain: SwapchainView {
                sync: self.swapchain.sync.submitted(self.current_image_index),
                ..self.swapchain
            },
            is_frame_started: false,
            needs_recreation: degraded(presented) || window_resized,
            ..self
        }
    }

    /// The state after the renderer gave up what it held: it is retired.
    pub open spec fn retired(self) -> RendererView {
        RendererView {
            swapchain: SwapchainView::empty(),
            command_buffers: Seq::empty(),
            needs_recreation: true,
            ..self
        }
    }

    /// The state after a new generation was put in place.
    pub open spec fn recreated(self, swapchain: SwapchainView, command_buffers: Seq<CommandBuffer>) -> RendererView {
        RendererView { swapchain, command_buffers, needs_recreation: false, ..self }
    }

    /// The requests that give back what the renderer holds: a wait for the
    /// device to be idle, then the command buffers, then the swap chain.
    pub open spec fn cleanup_commands(self, command_pool: CommandPool) -> Seq<Command> {
        seq![Command::DeviceWaitIdle] + self.command_buffers.map_values(
            |command_buffer| Command::FreeCommandBuffer { command_pool, command_buffer },
        ) + self.swapchain.cleanup_commands()
    }
}

/// The orchestrator of a frame: a swap chain, one command buffer for each
/// frame in flight, and the state of the protocol.
pub struct Renderer {
    swapchain: Swapchain,
    command_buffers: Vec<CommandBuffer>,
    current_image_index: u32,
    is_frame_started: bool,
    needs_recreation: bool,
}

impl View for Renderer {
    type V = RendererView;

    closed spec fn view(&self) -> RendererView {
        RendererView {
            swapchain: self.swapchain@,
            command_buffers: self.command_buffers@,
            current_image_index: self.current_image_index,
            is_frame_started: self.is_frame_started,
            needs_recreation: self.needs_recreation,
        }
    }
}

impl Renderer {
    /// Whether the renderer holds a ready generation or none, and its books
    /// on the frame in progress are in order.
    pub open spec fn wf(&self) -> bool {
        self@.wf()
    }

    /// Whether a swap chain can be built for a window of this extent: a
    /// window without area has to be waited for.
    pub fn can_create_swapchain(extent: Extent2D) -> (r: bool)
        ensures
            r == (extent.width != 0 && extent.height != 0),
    {
        !(extent.width == 0 || extent.height == 0)
    }

    /// The description of the command buffers that a renderer needs.
    pub fn create_command_buffers(device: &DeviceInfo) -> (r: CommandBufferAllocateInfo)
        ensures
            r == spec_command_buffer_allocate_info(device.command_pool),
    {
        command_buffer_allocate_info(device.command_pool)
    }

    /// An idle renderer on a ready swap chain, with the command buffers that
    /// the platform allocated.
    pub fn new(swapchain: Swapchain, command_buffers: Vec<CommandBuffer>) -> (r: Renderer)
        requires
            swapchain.wf(),
            swapchain.is_ready(),
            command_buffers@.len() == MAX_FRAMES_IN_FLIGHT,
        ensures
            r.wf(),
            r@ == RendererView::idle(swapchain@, command_buffers@),
    {
        Renderer {
            swapchain,
            command_buffers,
            current_image_index: 0,
            is_frame_started: false,
            needs_recreation: false,
        }
    }

    /// The swap chain of the current generation.
    pub fn swapchain(&self) -> (r: &Swapchain)
        ensures
            r@ == self@.swapchain,
    {
        &self.swapchain
    }

    /// The render pass of the current generation.
    pub fn get_swapchain_renderpass(&self) -> (r: RenderPass)
        requires
            self.wf(),
            !self.is_retired(),
        ensures
            Some(r) == self@.swapchain.renderpass,
    {
        self.swapchain.get_renderpass()
    }

    /// Whether a frame was begun and not yet ended.
    pub open spec fn spec_is_frame_in_progress(&self) -> bool {
        self@.is_frame_started
    }

    /// Whether a frame was begun and not yet ended.
    #[verifier::when_used_as_spec(spec_is_frame_in_progress)]
    pub fn is_frame_in_progress(&self) -> (r: bool)
        ensures
            r == self@.is_frame_started,
    {
        self.is_frame_started
    }

    /// Whether the renderer has given up its generation and holds nothing.
    pub open spec fn spec_is_retired(&self) -> bool {
        self@.is_retired()
    }

    /// Whether the renderer has given up its generation and holds nothing.
    #[verifier::when_used_as_spec(spec_is_retired)]
    pub fn is_retired(&self) -> (r: bool)
        ensures
            r == self@.is_retired(),
    {
        self.swapchain.stage().rank() == 0
    }

    /// Whether a new generation of the swap chain is asked for.
    pub open spec fn spec_needs_recreation(&self) -> bool {
        self@.needs_recreation
    }

    /// Whether a new generation of the swap chain is asked for. Until it is
    /// there, no frame can begin.
    #[verifier::when_used_as_spec(spec_needs_recreation)]
    pub fn needs_recreation(&self) -> (r: bool)
        ensures
            r == self@.needs_recreation,
    {
        self.needs_recreation
    }

    /// The number of command buffers that the renderer holds.
    pub fn command_buffer_count(&self) -> (r: usize)
        ensures
            r == self@.command_buffers.len(),
    {
        self.command_buffers.len()
    }

    /// The index of the image of the frame in progress.
    pub fn get_current_image_index(&self) -> (r: u32)
        requires
            self.is_frame_in_progress(),
        ensures
            r == self@.current_image_index,
    {
        self.current_image_index
    }

    /// The command buffer of the frame in progress.
    pub fn get_current_command_buffer(&self) -> (r: CommandBuffer)
        requires
            self.wf(),
            self.is_frame_in_progress(),
        ensures
            r == self@.current_command_buffer(),
    {
        self.command_buffers[self.swapchain.current_frame()]
    }

    /// The slot of the frame in progress.
    pub fn get_frame_index(&self) -> (r: i32)
        requires
            self.wf(),
            self.is_frame_in_progress(),
        ensures
            r == self@.frame_index(),
            0 <= r < MAX_FRAMES_IN_FLIGHT,
    {
        self.swapchain.current_frame() as i32
    }

    /// The requests that acquire the image of the next frame.
    pub fn acquire_commands(&self) -> (r: Vec<Command>)
        requires
            self.wf(),
            !self.is_frame_in_progress(),
            !self.needs_recreation(),
        ensures
            r@ == self@.swapchain.sync.acquire_commands(self@.swapchain.swapchain->0),
    {
        self.swapchain.acquire_commands()
    }

    /// Takes what came of the acquire requests. With an image, a frame on it
    /// is in progress and the command buffer of the current slot is returned.
    /// With a failure, whatever its code, no frame begins and a new
    /// generation is asked for.
    pub fn begin_swapchain_command_buffer(&mut self, acquired: Result<(u32, bool), ResultCode>) -> (r:
        Option<CommandBuffer>)
        requires
            old(self).wf(),
            !old(self).is_frame_in_progress(),
            !old(self).needs_recreation(),
            acquired is Ok ==> acquired->Ok_0.0 < old(self)@.swapchain.images.len(),
        ensures
            final(self).wf(),
            final(self)@ == old(self)@.begun(acquired),
            match acquired {
                Ok(_) => r == Some(old(self)@.current_command_buffer()),
                Err(_) => r is None,
            },
    {
        match self.swapchain.acquire_next_image(acquired) {
            Ok(image) => {
                self.current_image_index = image.0;
                self.is_frame_started = true;
                Some(self.command_buffers[self.swapchain.current_frame()])
            },
            Err(_) => {
                self.needs_recreation = true;
                None
            },
        }
    }

    /// Begins a frame as `begin_swapchain_command_buffer` does. Where a frame
    /// begins, its command buffer comes with the request that opens it for
    /// recording.
    pub fn begin_frame(&mut self, acquired: Result<(u32, bool), ResultCode>) -> (r: Option<
        (CommandBuffer, Command),
    >)
        requires
            old(self).wf(),
            !old(self).is_frame_in_progress(),
            !old(self).needs_recreation(),
            acquired is Ok ==> acquired->Ok_0.0 < old(self)@.swapchain.images.len(),
        ensures
            final(self).wf(),
            final(self)@ == old(self)@.begun(acquired),
            match acquired {
                Ok(_) => r == Some(
                    (
                        old(self)@.current_command_buffer(),
                        Command::BeginCommandBuffer {
                            command_buffer: old(self)@.current_command_buffer(),
                            info: spec_command_buffer_begin_info(),
                        },
                    ),
                ),
                Err(_) => r is None,
            },
    {
        match self.begin_swapchain_command_buffer(acquired) {
            Some(command_buffer) => Some(
                (
                    command_buffer,
                    Command::BeginCommandBuffer { command_buffer, info: command_buffer_begin_info() },
                ),
            ),
            None => None,
        }
    }

    /// The requests that end the frame in progress.
    pub fn end_frame_commands(&self) -> (r: Vec<Command>)
        requires
            self.wf(),
            self.is_frame_in_progress(),
        ensures
            r@ == self@.end_frame_commands(),
    {
        let command_buffer = self.get_current_command_buffer();
        let mut commands: Vec<Command> = Vec::new();
        commands.push(Command::EndCommandBuffer { command_buffer });
        let mut submit = self.swapchain.submit_commands(command_buffer, self.current_image_index);
        commands.append(&mut submit);
        commands
    }

    /// Takes what came of the requests that end the frame, and whether the
    /// window was resized since it was last asked. No frame is in progress
    /// afterwards. The result says whether a new generation is asked for; the
    /// caller then clears the window's mark.
    pub fn end_frame(&mut self, presented: Result<bool, ResultCode>, window_resized: bool) -> (r: bool)
        requires
            old(self).wf(),
            old(self).is_frame_in_progress(),
        ensures
            final(self).wf(),
            final(self)@ == old(self)@.ended(presented, window_resized),
            r == final(self)@.needs_recreation,
    {
        let result = self.swapchain.submit_command_buffers(self.current_image_index, presented);
        let is_degraded = match result {
            Ok(suboptimal) => suboptimal,
            Err(_) => true,
        };
        self.is_frame_started = false;
        self.needs_recreation = is_degraded || window_resized;
        self.needs_recreation
    }

    /// The requests that begin the pass on the image of the frame in
    /// progress, cleared to dark gray.
    pub fn begin_swapchain_renderpass(&self, command_buffer: CommandBuffer) -> (r: Vec<Command>)
        requires
            self.wf(),
            self.is_frame_in_progress(),
        ensures
            r@ == renderpass_commands(
                command_buffer,
                self@.swapchain.renderpass->0,
                self@.swapchain.framebuffers[self@.current_image_index as int],
                self@.swapchain.extent(),
                dark_gray(),
            ),
    {
        let extent = self.swapchain.get_swapchain_extent();
        let framebuffer = self.swapchain.get_framebuffer(self.current_image_index as usize);
        Self::begin_renderpass(
            command_buffer,
            self.swapchain.get_renderpass(),
            framebuffer,
            extent,
            dark_gray(),
        )
    }

    /// The requests that begin a pass of the swap chain's render pass on a
    /// framebuffer of the caller's, cleared to blue.
    pub fn begin_custom_renderpass(
        &self,
        command_buffer: CommandBuffer,
        extent: Extent2D,
        framebuffer: Framebuffer,
    ) -> (r: Vec<Command>)
        requires
            self.wf(),
            self.is_frame_in_progress(),
        ensures
            r@ == renderpass_commands(
                command_buffer,
                self@.swapchain.renderpass->0,
                framebuffer,
                extent,
                blue(),
            ),
    {
        Self::begin_renderpass(
            command_buffer,
            self.swapchain.get_renderpass(),
            framebuffer,
            extent,
            blue(),
        )
    }

    fn begin_renderpass(
        command_buffer: CommandBuffer,
        render_pass: RenderPass,
        framebuffer: Framebuffer,
        extent: Extent2D,
        clear_color: ClearColorValue,
    ) -> (r: Vec<Command>)
        ensures
            r@ == renderpass_commands(command_buffer, render_pass, framebuffer, extent, clear_color),
    {
        let mut commands: Vec<Command> = Vec::new();
        commands.push(
            Command::BeginRenderPass {
                command_buffer,
                pass: renderpass_begin_info(render_pass, framebuffer, extent, clear_color),
                contents: SUBPASS_CONTENTS_INLINE,
            },
        );
        commands.push(Command::SetViewport { command_buffer, viewport: full_viewport(extent) });
        commands.push(Command::SetScissor { command_buffer, scissor: full_area(extent) });
        commands
    }

    /// The request that ends the pass.
    pub fn end_swapchain_renderpass(&self, command_buffer: CommandBuffer) -> (r: Command)
        requires
            self.is_frame_in_progress(),
        ensures
            r == (Command::EndRenderPass { command_buffer }),
    {
        Command::EndRenderPass { command_buffer }
    }

    /// The requests that give the command buffers back to the pool of the
    /// device.
    pub fn free_command_buffers(&self, device: &DeviceInfo) -> (r: Vec<Command>)
        ensures
            r@ == self@.command_buffers.map_values(
                |command_buffer|
                    Command::FreeCommandBuffer { command_pool: device.command_pool, command_buffer },
            ),
    {
        let mut commands: Vec<Command> = Vec::new();
        free_command_buffers(&mut commands, device.command_pool, &self.command_buffers);
        commands
    }

    /// Gives up what the renderer holds, to make room for a new generation or
    /// to shut down. The result is the requests that give it back: a wait for
    /// the device to be idle, then the command buffers, then the swap chain.
    /// Afterwards the renderer is retired. No frame may be in progress.
    pub fn cleanup(&mut self, device: &DeviceInfo) -> (r: Vec<Command>)
        requires
            old(self).wf(),
            !old(self).is_frame_in_progress(),
        ensures
            r@ == old(self)@.cleanup_commands(device.command_pool),
            final(self)@ == old(self)@.retired(),
            final(self).wf(),
    {
        let mut commands: Vec<Command> = Vec::new();
        commands.push(Command::DeviceWaitIdle);
        free_command_buffers(&mut commands, device.command_pool, &self.command_buffers);
        let mut destroy = self.swapchain.cleanup();
        commands.append(&mut destroy);
        self.command_buffers = Vec::new();
        self.needs_recreation = true;
        commands
    }

    /// Puts a new generation in the place of the one that was given up: a
    /// ready swap chain and newly allocated command buffers. Frames can begin
    /// again afterwards.
    pub fn recreate_swapchain(&mut self, swapchain: Swapchain, command_buffers: Vec<CommandBuffer>)
        requires
            old(self).wf(),
            old(self).is_retired(),
            swapchain.wf(),
            swapchain.is_ready(),
            command_buffers@.len() == MAX_FRAMES_IN_FLIGHT,
        ensures
            final(self).wf(),
            final(self)@ == old(self)@.recreated(swapchain@, command_buffers@),
    {
        self.swapchain = swapchain;
        self.command_buffers = command_buffers;
        self.needs_recreation = false;
    }
}

/// What the platform and the window bring to one turn of the frame loop.
pub struct FrameOutcome {
    /// What came of the acquire requests.
    pub acquired: Result<(u32, bool), ResultCode>,
    /// What came of the presentation, where a frame began.
    pub presented: Result<bool, ResultCode>,
    /// Whether the window was resized during the turn.
    pub window_resized: bool,
    /// The generation that is built where a new one is asked for.
    pub next_swapchain: SwapchainView,
    /// The command buffers that are allocated with that generation.
    pub next_command_buffers: Seq<CommandBuffer>,
}

impl RendererView {
    /// Whether `outcome` can follow on this state: the acquired image is one
    /// of the chain, and the generation that stands by is ready and comes
    /// with one command buffer for each frame in flight.
    pub open spec fn admits(self, outcome: FrameOutcome) -> bool {
        &&& outcome.acquired is Ok ==> outcome.acquired->Ok_0.0 < self.swapchain.images.len()
        &&& outcome.next_swapchain.wf()
        &&& outcome.next_swapchain.stage == SwapchainStage::Ready
        &&& outcome.next_command_buffers.len() == MAX_FRAMES_IN_FLIGHT
    }

    /// The state after one turn of the frame loop: a frame is begun; where it
    /// did begin, it is ended; where a new generation is asked for after
    /// that, the old one is given up and the new one is put in place.
    pub open spec fn after_turn(self, outcome: FrameOutcome) -> RendererView {
        let begun = self.begun(outcome.acquired);
        let ended = if begun.is_frame_started {
            begun.ended(outcome.presented, outcome.window_resized)
        } else {
            begun
        };
        if ended.needs_recreation {
            ended.retired().recreated(outcome.next_swapchain, outcome.next_command_buffers)
        } else {
            ended
        }
    }

    /// Whether the outcomes can follow on this state one after the other.
    pub open spec fn admits_all(self, outcomes: Seq<FrameOutcome>) -> bool
        decreases outcomes.len(),
    {
        outcomes.len() == 0 || (self.admits(outcomes[0]) && self.after_turn(
            outcomes[0],
        ).admits_all(outcomes.drop_first()))
    }

    /// The state after as many turns of the frame loop as there are outcomes.
    pub open spec fn after_turns(self, outcomes: Seq<FrameOutcome>) -> RendererView
        decreases outcomes.len(),
    {
        if outcomes.len() == 0 {
            self
        } else {
            self.after_turn(outcomes[0]).after_turns(outcomes.drop_first())
        }
    }

    /// Every request of one frame on the image `acquired`, in order, with
    /// nothing drawn: what acquires the image, what opens the command buffer,
    /// and what ends the frame.
    pub open spec fn frame_commands(self, acquired: (u32, bool)) -> Seq<Command> {
        self.swapchain.sync.acquire_commands(self.swapchain.swapchain->0) + seq![
            Command::BeginCommandBuffer {
                command_buffer: self.current_command_buffer(),
                info: spec_command_buffer_begin_info(),
            },
        ] + self.begun(Ok(acquired)).end_frame_commands()
    }

    /// Whether the renderer is idle on a ready swap chain and asks for no new
    /// generation, so that a frame can begin.
    pub open spec fn can_begin(self) -> bool {
        self.wf() && !self.is_frame_started && !self.needs_recreation
    }
}

/// A command buffer is recorded only after the fence of its slot was waited
/// for. The requests that acquire an image start with the wait for the fence
/// of the current slot; the frame that begins on the image records into the
/// command buffer of that same slot; and as long as it is in progress, the
/// slot is not pending.
pub proof fn law_recording_follows_wait(renderer: RendererView, acquired: Result<(u32, bool), ResultCode>)
    requires
        renderer.can_begin(),
        acquired is Ok,
        acquired->Ok_0.0 < renderer.swapchain.images.len(),
    ensures
        ({
            let slot = renderer.frame_index();
            let sync = renderer.swapchain.sync;
            let begun = renderer.begun(acquired);
            &&& sync.acquire_commands(renderer.swapchain.swapchain->0)[0] == crate::sync::wait_for(
                sync.in_flight_fences[slot],
            )
            &&& begun.wf()
            &&& begun.is_frame_started
            &&& begun.frame_index() == slot
            &&& begun.current_command_buffer() == renderer.command_buffers[slot]
            &&& !begun.swapchain.sync.pending[slot]
        }),
{
}

/// The requests of one frame keep the order that the objects of its slot
/// need. First comes the wait for the fence of the slot, then the acquisition,
/// which signals the slot's first semaphore. Only then the command buffer of
/// the slot is opened, and closed again. Last come the reset of the fence, the
/// submission of the command buffer under that fence, which waits for the
/// first semaphore and signals the second, and the presentation of the
/// acquired image, which waits for the second. Between the closing and the
/// reset stands at most one wait: for the fence under which the image was
/// last drawn to.
pub proof fn law_frame_keeps_order(
    renderer: RendererView,
    acquired: (u32, bool),
)
    requires
        renderer.can_begin(),
        acquired.0 < renderer.swapchain.images.len(),
    ensures
        ({
            let slot = renderer.frame_index();
            let sync = renderer.swapchain.sync;
            let chain = renderer.swapchain.swapchain->0;
            let buffer = renderer.command_buffers[slot];
            let fence = sync.in_flight_fences[slot];
            let commands = renderer.frame_commands(acquired);
            let n = commands.len() as int;
            &&& 7 <= n <= 8
            &&& commands[0] == crate::sync::wait_for(fence)
            &&& commands[1] == (Command::AcquireNextImage {
                swapchain: chain,
                timeout: NO_TIMEOUT,
                semaphore: sync.image_available_semaphores[slot],
            })
            &&& commands[2] == (Command::BeginCommandBuffer {
                command_buffer: buffer,
                info: spec_command_buffer_begin_info(),
            })
            &&& commands[3] == (Command::EndCommandBuffer { command_buffer: buffer })
            &&& n == 8 <==> sync.images_in_flight[acquired.0 as int] is Some
            &&& n == 8 ==> commands[4] == crate::sync::wait_for(
                sync.images_in_flight[acquired.0 as int]->0,
            )
            &&& commands[n - 3] == (Command::ResetFence { fence })
            &&& commands[n - 2] == (Command::QueueSubmit {
                submit: SubmitInfo {
                    wait_semaphore: sync.image_available_semaphores[slot],
                    wait_dst_stage_mask: PIPELINE_STAGE_COLOR_ATTACHMENT_OUTPUT,
                    command_buffer: buffer,
                    signal_semaphore: sync.render_finished_semaphores[slot],
                },
                fence,
            })
            &&& commands[n - 1] == (Command::QueuePresent {
                present: PresentInfoKHR {
                    wait_semaphore: sync.render_finished_semaphores[slot],
                    swapchain: chain,
                    image_index: acquired.0,
                },
            })
        }),
{
}

/// While a frame is in progress, the fence of its slot has been waited for
/// since work was last submitted under it.
pub proof fn law_frame_in_progress_is_not_pending(renderer: RendererView)
    requires
        renderer.wf(),
        renderer.is_frame_started,
    ensures
        !renderer.swapchain.sync.pending[renderer.frame_index()],
        renderer.current_image_index < renderer.swapchain.images.len(),
{
}

/// Beginning a frame and ending it, with nothing drawn in between, leaves no
/// frame in progress and the command buffers as they were.
pub proof fn law_begin_then_end_is_idle(
    renderer: RendererView,
    acquired: Result<(u32, bool), ResultCode>,
    presented: Result<bool, ResultCode>,
    window_resized: bool,
)
    requires
        renderer.can_begin(),
        acquired is Ok,
        acquired->Ok_0.0 < renderer.swapchain.images.len(),
    ensures
        ({
            let after = renderer.begun(acquired).ended(presented, window_resized);
            &&& after.wf()
            &&& !after.is_frame_started
            &&& after.command_buffers == renderer.command_buffers
            &&& after.needs_recreation == (degraded(presented) || window_resized)
        }),
{
    let begun = renderer.begun(acquired);
    crate::sync::lemma_submitted_wf(begun.swapchain.sync, begun.current_image_index);
}

/// One turn of the frame loop leaves the renderer ready for the next one.
pub proof fn lemma_turn_keeps_ready(renderer: RendererView, outcome: FrameOutcome)
    requires
        renderer.can_begin(),
        renderer.admits(outcome),
    ensures
        renderer.after_turn(outcome).can_begin(),
        renderer.after_turn(outcome).command_buffers.len() == MAX_FRAMES_IN_FLIGHT,
{
    let begun = renderer.begun(outcome.acquired);
    if begun.is_frame_started {
        crate::sync::lemma_submitted_wf(begun.swapchain.sync, begun.current_image_index);
    }
}

/// However many turns the frame loop takes, and whatever the platform and
/// the window bring to each, the renderer ends up idle, with one command
/// buffer for each frame in flight: none is leaked and none is missing.
pub proof fn law_turns_keep_command_buffers(renderer: RendererView, outcomes: Seq<FrameOutcome>)
    requires
        renderer.can_begin(),
        renderer.admits_all(outcomes),
    ensures
        renderer.after_turns(outcomes).can_begin(),
        renderer.after_turns(outcomes).command_buffers.len() == renderer.command_buffers.len(),
    decreases outcomes.len(),
{
    if outcomes.len() > 0 {
        lemma_turn_keeps_ready(renderer, outcomes[0]);
        law_turns_keep_command_buffers(renderer.after_turn(outcomes[0]), outcomes.drop_first());
    }
}

/// Where the surface is out of date when a frame is to begin, no frame
/// begins; once the new generation is in place, the next frame begins on it
/// and records into the command buffer of its current slot.
pub proof fn law_frame_begins_after_recreation(
    renderer: RendererView,
    failure: ResultCode,
    swapchain: SwapchainView,
    command_buffers: Seq<CommandBuffer>,
    acquired: (u32, bool),
)
    requires
        renderer.can_begin(),
        swapchain.wf(),
        swapchain.stage == SwapchainStage::Ready,
        command_buffers.len() == MAX_FRAMES_IN_FLIGHT,
        acquired.0 < swapchain.images.len(),
    ensures
        ({
            let failed = renderer.begun(Err(failure));
            let recreated = failed.retired().recreated(swapchain, command_buffers);
            let begun = recreated.begun(Ok(acquired));
            &&& !failed.is_frame_started
            &&& failed.needs_recreation
            &&& failed.retired().wf()
            &&& failed.retired().command_buffers.len() == 0
            &&& recreated.can_begin()
            &&& begun.wf()
            &&& begun.is_frame_started
            &&& begun.current_image_index == acquired.0
            &&& begun.current_command_buffer() == command_buffers[swapchain.sync.current_frame]
        }),
{
}

/// Nothing is given back while the device may still use it: the requests
/// that give back what the renderer holds start with the wait for the device
/// to be idle, free the command buffers next, one by one, and destroy the
/// swap chain after that.
pub proof fn law_cleanup_waits_for_idle(renderer: RendererView, command_pool: CommandPool, k: int)
    requires
        renderer.wf(),
        !renderer.is_retired(),
        0 <= k < MAX_FRAMES_IN_FLIGHT,
    ensures
        ({
            let commands = renderer.cleanup_commands(command_pool);
            &&& commands.len() == 1 + MAX_FRAMES_IN_FLIGHT + renderer.swapchain.cleanup_commands().len()
            &&& commands[0] == Command::DeviceWaitIdle
            &&& commands[1 + k] == (Command::FreeCommandBuffer {
                command_pool,
                command_buffer: renderer.command_buffers[k],
            })
            &&& commands.subrange(1 + MAX_FRAMES_IN_FLIGHT as int, commands.len() as int)
                == renderer.swapchain.cleanup_commands()
        }),
{
}

} // verus!
