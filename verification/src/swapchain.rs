//! One generation of a swap chain and everything that hangs on its images.
//!
//! A generation is built in a fixed order of stages. At each stage the swap
//! chain describes what the platform is to create next, and the caller hands
//! back the handles of what it created. With its synchronization objects in
//! place a swap chain is ready, and frames can be acquired and submitted.

use vstd::prelude::*;
use crate::command::Command;
use crate::constants::{
    COMPOSITE_ALPHA_OPAQUE,
    FORMAT_FEATURE_DEPTH_STENCIL_ATTACHMENT,
    IMAGE_ASPECT_COLOR,
    IMAGE_ASPECT_DEPTH,
    IMAGE_TILING_OPTIMAL,
    IMAGE_USAGE_COLOR_ATTACHMENT,
    MAX_FRAMES_IN_FLIGHT,
};
use crate::describe::{
    color_view_info,
    depth_image_info,
    depth_view_info,
    framebuffer_info,
    renderpass_info,
    spec_depth_image_info,
    spec_framebuffer_info,
    spec_renderpass_info,
    view_info,
};
use crate::device::{DeviceInfo, Format, ResultCode};
use crate::extent::Extent2D;
use crate::handles::{
    CommandBuffer,
    DeviceMemory,
    Fence,
    Framebuffer,
    Image,
    ImageView,
    RenderPass,
    Semaphore,
    SwapchainKHR,
};
use crate::info::{
    FramebufferCreateInfo,
    ImageCreateInfo,
    ImageViewCreateInfo,
    RenderPassCreateInfo,
    SwapchainCreateInfoKHR,
};
use crate::selection::{
    choose_image_count,
    choose_image_sharing,
    choose_swap_extent,
    choose_swap_present_mode,
    choose_swap_surface_format,
    chosen_depth_format,
    depth_candidates,
    selection,
    ConstructionError,
    Selection,
};
use crate::sync::{spec_classify, FrameSynchronizer, FrameSynchronizerView, PresentationError};
use crate::teardown::{destroy_framebuffers, destroy_image_views, destroy_images, free_memories};

verus! {

/// How far a generation has been built.
#[derive(Clone, Copy, PartialEq, Eq, Structural, Debug)]
pub enum SwapchainStage {
    /// Nothing is chosen and nothing exists.
    Empty,
    /// The formats, the extent and the present mode are chosen.
    Selected,
    /// The chain exists and its images are known.
    SwapchainCreated,
    /// Each image has its view.
    ImageViewsCreated,
    /// The render pass exists.
    RenderPassCreated,
    /// Each image has its depth image.
    DepthImagesCreated,
    /// Each depth image has its view.
    DepthResourcesCreated,
    /// Each image has its framebuffer.
    FramebuffersCreated,
    /// The semaphores and fences exist: frames can be drawn.
    Ready,
}

impl SwapchainStage {
    /// The position of the stage in the order of building.
    pub open spec fn spec_rank(&self) -> u8 {
        match self {
            SwapchainStage::Empty => 0,
            SwapchainStage::Selected => 1,
            SwapchainStage::SwapchainCreated => 2,
            SwapchainStage::ImageViewsCreated => 3,
            SwapchainStage::RenderPassCreated => 4,
            SwapchainStage::DepthImagesCreated => 5,
            SwapchainStage::DepthResourcesCreated => 6,
            SwapchainStage::FramebuffersCreated => 7,
            SwapchainStage::Ready => 8,
        }
    }

    #[verifier::when_used_as_spec(spec_rank)]
    pub fn rank(&self) -> (r: u8)
        ensures
            r == self.spec_rank(),
    {
        match self {
            SwapchainStage::Empty => 0,
            SwapchainStage::Selected => 1,
            SwapchainStage::SwapchainCreated => 2,
            SwapchainStage::ImageViewsCreated => 3,
            SwapchainStage::RenderPassCreated => 4,
            SwapchainStage::DepthImagesCreated => 5,
            SwapchainStage::DepthResourcesCreated => 6,
            SwapchainStage::FramebuffersCreated => 7,
            SwapchainStage::Ready => 8,
        }
    }
}

/// The state of a swap chain as mathematical values.
pub struct SwapchainView {
    pub stage: SwapchainStage,
    pub window_extent: Option<Extent2D>,
    pub selection: Option<Selection>,
    pub swapchain: Option<SwapchainKHR>,
    pub images: Seq<Image>,
    pub image_views: Seq<ImageView>,
    pub renderpass: Option<RenderPass>,
    pub depth_images: Seq<Image>,
    pub depth_image_memories: Seq<DeviceMemory>,
    pub depth_image_views: Seq<ImageView>,
    pub framebuffers: Seq<Framebuffer>,
    pub sync: FrameSynchronizerView,
}

impl SwapchainView {
    /// What each stage has brought is there: one view, one depth image with
    /// its memory and its view, and one framebuffer for each image, and in
    /// the end a synchronizer that keeps track of as many images.
    pub open spec fn wf(self) -> bool {
        &&& self.stage.rank() >= 1 ==> self.window_extent is Some && self.selection is Some
        &&& self.stage.rank() >= 2 ==> self.swapchain is Some && self.images.len() <= u32::MAX
        &&& self.stage.rank() >= 3 ==> self.image_views.len() == self.images.len()
        &&& self.stage.rank() >= 4 ==> self.renderpass is Some
        &&& self.stage.rank() >= 5 ==> self.depth_images.len() == self.images.len()
            && self.depth_image_memories.len() == self.images.len()
        &&& self.stage.rank() >= 6 ==> self.depth_image_views.len() == self.images.len()
        &&& self.stage.rank() >= 7 ==> self.framebuffers.len() == self.images.len()
        &&& self.stage.rank() >= 8 ==> self.sync.wf() && self.sync.images_in_flight.len()
            == self.images.len()
    }

    /// A swap chain of which nothing is chosen and nothing exists.
    pub open spec fn empty() -> SwapchainView {
        SwapchainView {
            stage: SwapchainStage::Empty,
            window_extent: None,
            selection: None,
            swapchain: None,
            images: Seq::empty(),
            image_views: Seq::empty(),
            renderpass: None,
            depth_images: Seq::empty(),
            depth_image_memories: Seq::empty(),
            depth_image_views: Seq::empty(),
            framebuffers: Seq::empty(),
            sync: FrameSynchronizerView::empty(),
        }
    }

    /// A swap chain of which everything is chosen and nothing exists.
    pub open spec fn selected(window_extent: Extent2D, selection: Selection) -> SwapchainView {
        SwapchainView {
            stage: SwapchainStage::Selected,
            window_extent: Some(window_extent),
            selection: Some(selection),
            ..Self::empty()
        }
    }

    /// The description of the chain that was chosen.
    pub open spec fn create_info(self) -> SwapchainCreateInfoKHR {
        self.selection->0.create_info
    }

    /// The format of the swap images.
    pub open spec fn image_format(self) -> Format {
        self.create_info().image_format
    }

    /// The format of the depth images.
    pub open spec fn depth_format(self) -> Format {
        self.selection->0.depth_format
    }

    /// The extent of the swap images.
    pub open spec fn extent(self) -> Extent2D {
        self.create_info().image_extent
    }

    /// The view of the image at position `i`.
    pub open spec fn image_view_info(self, i: int) -> ImageViewCreateInfo {
        color_view_info(self.images[i], self.image_format())
    }

    /// The render pass of the generation.
    pub open spec fn renderpass_info(self) -> RenderPassCreateInfo {
        spec_renderpass_info(self.image_format(), self.depth_format())
    }

    /// Each depth image of the generation.
    pub open spec fn depth_image_info(self) -> ImageCreateInfo {
        spec_depth_image_info(self.depth_format(), self.extent())
    }

    /// The view of the depth image at position `i`.
    pub open spec fn depth_view_info(self, i: int) -> ImageViewCreateInfo {
        depth_view_info(self.depth_images[i], self.depth_format())
    }

    /// The framebuffer at position `i`: the view of the image and the view of
    /// the depth image at that position, under the render pass.
    pub open spec fn framebuffer_info(self, i: int) -> FramebufferCreateInfo {
        spec_framebuffer_info(
            self.renderpass->0,
            self.image_views[i],
            self.depth_image_views[i],
            self.extent(),
        )
    }

    /// The requests that destroy what the generation holds, the last created
    /// first.
    pub open spec fn cleanup_commands(self) -> Seq<Command> {
        self.framebuffers.map_values(|framebuffer| Command::DestroyFramebuffer { framebuffer })
            + self.depth_image_views.map_values(|view| Command::DestroyImageView { view })
            + self.depth_images.map_values(|image| Command::DestroyImage { image })
            + self.depth_image_memories.map_values(|memory| Command::FreeMemory { memory })
            + self.renderpass_cleanup() + self.image_views.map_values(
            |view| Command::DestroyImageView { view },
        ) + self.swapchain_cleanup() + self.sync.cleanup_commands()
    }

    /// The request that destroys the render pass, where there is one.
    pub open spec fn renderpass_cleanup(self) -> Seq<Command> {
        match self.renderpass {
            Some(renderpass) => seq![Command::DestroyRenderPass { renderpass }],
            None => Seq::empty(),
        }
    }

    /// The request that destroys the chain, where there is one.
    pub open spec fn swapchain_cleanup(self) -> Seq<Command> {
        match self.swapchain {
            Some(swapchain) => seq![Command::DestroySwapchain { swapchain }],
            None => Seq::empty(),
        }
    }
}

/// One generation of presentable images with their views, depth buffers,
/// render pass, framebuffers and synchronization objects.
pub struct Swapchain {
    stage: SwapchainStage,
    window_extent: Option<Extent2D>,
    selection: Option<Selection>,
    swapchain: Option<SwapchainKHR>,
    swapchain_images: Vec<Image>,
    swapchain_image_views: Vec<ImageView>,
    renderpass: Option<RenderPass>,
    depth_images: Vec<Image>,
    depth_image_memories: Vec<DeviceMemory>,
    depth_image_views: Vec<ImageView>,
    swapchain_framebuffers: Vec<Framebuffer>,
    sync: FrameSynchronizer,
}

impl View for Swapchain {
    type V = SwapchainView;

    closed spec fn view(&self) -> SwapchainView {
        SwapchainView {
            stage: self.stage,
            window_extent: self.window_extent,
            selection: self.selection,
            swapchain: self.swapchain,
            images: self.swapchain_images@,
            image_views: self.swapchain_image_views@,
            renderpass: self.renderpass,
            depth_images: self.depth_images@,
            depth_image_memories: self.depth_image_memories@,
            depth_image_views: self.depth_image_views@,
            framebuffers: self.swapchain_framebuffers@,
            sync: self.sync@,
        }
    }
}

impl Swapchain {
    /// Whether what each stage has brought is there.
    pub open spec fn wf(&self) -> bool {
        self@.wf()
    }

    /// A swap chain of which nothing is chosen and nothing exists.
    pub fn default() -> (r: Swapchain)
        ensures
            r@ == SwapchainView::empty(),
            r.wf(),
    {
        Swapchain {
            stage: SwapchainStage::Empty,
            window_extent: None,
            selection: None,
            swapchain: None,
            swapchain_images: Vec::new(),
            swapchain_image_views: Vec::new(),
            renderpass: None,
            depth_images: Vec::new(),
            depth_image_memories: Vec::new(),
            depth_image_views: Vec::new(),
            swapchain_framebuffers: Vec::new(),
            sync: FrameSynchronizer::empty(),
        }
    }

    /// Chooses a new generation for the device's surface and a window of the
    /// given extent. It fails exactly if the surface reported no format, or
    /// neither present mode in use, or the device can use none of the depth
    /// formats, in this order.
    pub fn new(device: &DeviceInfo, window_extent: Extent2D) -> (r: Result<Swapchain, ConstructionError>)
        requires
            device.swapchain_support.surface_capabilities.is_selectable(),
        ensures
            match r {
                Ok(swapchain) => selection(*device, window_extent, SwapchainKHR::null()) is Ok
                    && swapchain@ == SwapchainView::selected(
                    window_extent,
                    selection(*device, window_extent, SwapchainKHR::null())->Ok_0,
                ) && swapchain.wf(),
                Err(error) => selection(*device, window_extent, SwapchainKHR::null()) == Err::<
                    Selection,
                    ConstructionError,
                >(error),
            },
    {
        let mut swapchain = Swapchain::default();
        swapchain.window_extent = Some(window_extent);
        match swapchain.init(None, device) {
            Ok(()) => Ok(swapchain),
            Err(error) => Err(error),
        }
    }

    /// Chooses a new generation as `new` does, to take the place of
    /// `previous`: the chain of `previous`, where it has one, is named to the
    /// platform as the one that is replaced.
    pub fn renew(device: &DeviceInfo, window_extent: Extent2D, previous: &Swapchain) -> (r: Result<
        Swapchain,
        ConstructionError,
    >)
        requires
            device.swapchain_support.surface_capabilities.is_selectable(),
        ensures
            match r {
                Ok(swapchain) => selection(*device, window_extent, previous.replaced()) is Ok
                    && swapchain@ == SwapchainView::selected(
                    window_extent,
                    selection(*device, window_extent, previous.replaced())->Ok_0,
                ) && swapchain.wf(),
                Err(error) => selection(*device, window_extent, previous.replaced()) == Err::<
                    Selection,
                    ConstructionError,
                >(error),
            },
    {
        let mut swapchain = Swapchain::default();
        swapchain.window_extent = Some(window_extent);
        match swapchain.init(Some(previous), device) {
            Ok(()) => Ok(swapchain),
            Err(error) => Err(error),
        }
    }

    /// The handle by which a later generation names this one as replaced: the
    /// chain, or the null handle where there is none.
    pub open spec fn replaced(&self) -> SwapchainKHR {
        match self@.swapchain {
            Some(swapchain) => swapchain,
            None => SwapchainKHR::null(),
        }
    }

    /// Chooses everything that the generation needs, for the window extent
    /// that it holds, and describes the chain to create. It fails exactly if
    /// the surface reported no format, or neither present mode in use, or the
    /// device can use none of the depth formats, in this order.
    fn init(&mut self, old_swapchain: Option<&Swapchain>, device: &DeviceInfo) -> (r: Result<
        (),
        ConstructionError,
    >)
        requires
            old(self)@.stage == SwapchainStage::Empty,
            old(self)@.window_extent is Some,
            device.swapchain_support.surface_capabilities.is_selectable(),
        ensures
            ({
                let old_handle = match old_swapchain {
                    Some(previous) => previous.replaced(),
                    None => SwapchainKHR::null(),
                };
                let chosen = selection(*device, old(self)@.window_extent->0, old_handle);
                match r {
                    Ok(()) => chosen is Ok && final(self)@ == (SwapchainView {
                        stage: SwapchainStage::Selected,
                        selection: Some(chosen->Ok_0),
                        ..old(self)@
                    }),
                    Err(error) => chosen == Err::<Selection, ConstructionError>(error),
                }
            }),
    {
        let old_handle = match old_swapchain {
            Some(previous) => match previous.swapchain {
                Some(swapchain) => swapchain,
                None => SwapchainKHR::null(),
            },
            None => SwapchainKHR::null(),
        };
        let capabilities = &device.swapchain_support.surface_capabilities;
        let surface_format = match choose_swap_surface_format(
            &device.swapchain_support.surface_formats,
        ) {
            Some(surface_format) => surface_format,
            None => {
                return Err(ConstructionError::NoSurfaceFormat);
            },
        };
        let present_mode = match choose_swap_present_mode(&device.swapchain_support.present_modes) {
            Some(present_mode) => present_mode,
            None => {
                return Err(ConstructionError::NoPresentMode);
            },
        };
        let depth_format = match self.find_depth_format(device) {
            Some(depth_format) => depth_format,
            None => {
                return Err(ConstructionError::NoDepthFormat);
            },
        };
        let image_extent = choose_swap_extent(self.window_extent.unwrap(), capabilities);
        let min_image_count = choose_image_count(capabilities);
        self.selection = Some(
            Selection {
                create_info: SwapchainCreateInfoKHR {
                    surface: device.surface,
                    min_image_count,
                    image_format: surface_format.format,
                    image_color_space: surface_format.color_space,
                    image_extent,
                    image_array_layers: 1,
                    image_usage: IMAGE_USAGE_COLOR_ATTACHMENT,
                    image_sharing: choose_image_sharing(device.queue_families),
                    pre_transform: capabilities.current_transform,
                    composite_alpha: COMPOSITE_ALPHA_OPAQUE,
                    present_mode,
                    clipped: true,
                    old_swapchain: old_handle,
                },
                depth_format,
            },
        );
        self.stage = SwapchainStage::Selected;
        Ok(())
    }

    /// The first depth format candidate that the device can use; `None`
    /// exactly if it can use none of them.
    pub fn find_depth_format(&self, device: &DeviceInfo) -> (r: Option<Format>)
        ensures
            r == chosen_depth_format(*device),
    {
        let candidates = depth_candidates();
        let found = device.find_support_format(
            &candidates,
            IMAGE_TILING_OPTIMAL,
            FORMAT_FEATURE_DEPTH_STENCIL_ATTACHMENT,
        );
        found
    }

    /// How far this generation has been built.
    pub fn stage(&self) -> (r: SwapchainStage)
        ensures
            r == self@.stage,
    {
        self.stage
    }

    /// Whether frames can be drawn.
    pub open spec fn spec_is_ready(&self) -> bool {
        self@.stage == SwapchainStage::Ready
    }

    #[verifier::when_used_as_spec(spec_is_ready)]
    pub fn is_ready(&self) -> (r: bool)
        ensures
            r == self.spec_is_ready(),
    {
        self.stage.rank() == 8
    }

    /// The description of the chain that was chosen.
    pub fn swapchain_info(&self) -> (r: SwapchainCreateInfoKHR)
        requires
            self.wf(),
            self@.stage.rank() >= 1,
        ensures
            r == self@.create_info(),
    {
        self.selection.unwrap().create_info
    }

    /// Takes the chain that the platform created and its images.
    pub fn create_swapchain(&mut self, swapchain: SwapchainKHR, images: Vec<Image>)
        requires
            old(self).wf(),
            old(self)@.stage == SwapchainStage::Selected,
            images@.len() <= u32::MAX,
        ensures
            final(self).wf(),
            final(self)@ == (SwapchainView {
                stage: SwapchainStage::SwapchainCreated,
                swapchain: Some(swapchain),
                images: images@,
                ..old(self)@
            }),
    {
        self.swapchain = Some(swapchain);
        self.swapchain_images = images;
        self.stage = SwapchainStage::SwapchainCreated;
    }

    /// The descriptions of the views to create, one for each image and in
    /// the order of the images.
    pub fn image_view_infos(&self) -> (r: Vec<ImageViewCreateInfo>)
        requires
            self.wf(),
            self@.stage.rank() >= 2,
        ensures
            r@.len() == self@.images.len(),
            forall|i: int| 0 <= i < r@.len() ==> r@[i] == self@.image_view_info(i),
    {
        let format = self.selection.unwrap().create_info.image_format;
        let mut infos: Vec<ImageViewCreateInfo> = Vec::new();
        let mut i: usize = 0;
        while i < self.swapchain_images.len()
            invariant
                i <= self.swapchain_images@.len(),
                infos@.len() == i,
                self@.images == self.swapchain_images@,
                format == self@.image_format(),
                forall|j: int| 0 <= j < i ==> infos@[j] == self@.image_view_info(j),
            decreases self.swapchain_images@.len() - i,
        {
            infos.push(view_info(self.swapchain_images[i], format, IMAGE_ASPECT_COLOR));
            i += 1;
        }
        infos
    }

    /// Takes the views that the platform created, one for each image and in
    /// the order of the images.
    pub fn create_image_views(&mut self, views: Vec<ImageView>)
        requires
            old(self).wf(),
            old(self)@.stage == SwapchainStage::SwapchainCreated,
            views@.len() == old(self)@.images.len(),
        ensures
            final(self).wf(),
            final(self)@ == (SwapchainView {
                stage: SwapchainStage::ImageViewsCreated,
                image_views: views@,
                ..old(self)@
            }),
    {
        self.swapchain_image_views = views;
        self.stage = SwapchainStage::ImageViewsCreated;
    }

    /// The description of the render pass to create.
    pub fn renderpass_info(&self) -> (r: RenderPassCreateInfo)
        requires
            self.wf(),
            self@.stage.rank() >= 1,
        ensures
            r == self@.renderpass_info(),
    {
        let chosen = self.selection.unwrap();
        renderpass_info(chosen.create_info.image_format, chosen.depth_format)
    }

    /// Takes the render pass that the platform created.
    pub fn create_renderpass(&mut self, renderpass: RenderPass)
        requires
            old(self).wf(),
            old(self)@.stage == SwapchainStage::ImageViewsCreated,
        ensures
            final(self).wf(),
            final(self)@ == (SwapchainView {
                stage: SwapchainStage::RenderPassCreated,
                renderpass: Some(renderpass),
                ..old(self)@
            }),
    {
        self.renderpass = Some(renderpass);
        self.stage = SwapchainStage::RenderPassCreated;
    }

    /// The description of the depth images to create: one such image for each
    /// swap image.
    pub fn depth_image_info(&self) -> (r: ImageCreateInfo)
        requires
            self.wf(),
            self@.stage.rank() >= 1,
        ensures
            r == self@.depth_image_info(),
    {
        let chosen = self.selection.unwrap();
        depth_image_info(chosen.depth_format, chosen.create_info.image_extent)
    }

    /// Takes the depth images that the platform created and the memory that
    /// it bound to each, one for each swap image.
    pub fn create_depth_images(&mut self, images: Vec<Image>, memories: Vec<DeviceMemory>)
        requires
            old(self).wf(),
            old(self)@.stage == SwapchainStage::RenderPassCreated,
            images@.len() == old(self)@.images.len(),
            memories@.len() == old(self)@.images.len(),
        ensures
            final(self).wf(),
            final(self)@ == (SwapchainView {
                stage: SwapchainStage::DepthImagesCreated,
                depth_images: images@,
                depth_image_memories: memories@,
                ..old(self)@
            }),
    {
        self.depth_images = images;
        self.depth_image_memories = memories;
        self.stage = SwapchainStage::DepthImagesCreated;
    }

    /// The descriptions of the depth views to create, one for each depth
    /// image and in their order.
    pub fn depth_view_infos(&self) -> (r: Vec<ImageViewCreateInfo>)
        requires
            self.wf(),
            self@.stage.rank() >= 5,
        ensures
            r@.len() == self@.images.len(),
            forall|i: int| 0 <= i < r@.len() ==> r@[i] == self@.depth_view_info(i),
    {
        let format = self.selection.unwrap().depth_format;
        let mut infos: Vec<ImageViewCreateInfo> = Vec::new();
        let mut i: usize = 0;
        while i < self.depth_images.len()
            invariant
                i <= self.depth_images@.len(),
                infos@.len() == i,
                self@.depth_images == self.depth_images@,
                format == self@.depth_format(),
                forall|j: int| 0 <= j < i ==> infos@[j] == self@.depth_view_info(j),
            decreases self.depth_images@.len() - i,
        {
            infos.push(view_info(self.depth_images[i], format, IMAGE_ASPECT_DEPTH));
            i += 1;
        }
        infos
    }

    /// Takes the depth views that the platform created, one for each depth
    /// image and in their order.
    pub fn create_depth_resources(&mut self, views: Vec<ImageView>)
        requires
            old(self).wf(),
            old(self)@.stage == SwapchainStage::DepthImagesCreated,
            views@.len() == old(self)@.images.len(),
        ensures
            final(self).wf(),
            final(self)@ == (SwapchainView {
                stage: SwapchainStage::DepthResourcesCreated,
                depth_image_views: views@,
                ..old(self)@
            }),
    {
        self.depth_image_views = views;
        self.stage = SwapchainStage::DepthResourcesCreated;
    }

    /// The descriptions of the framebuffers to create, one for each image and
    /// in the order of the images.
    pub fn framebuffer_infos(&self) -> (r: Vec<FramebufferCreateInfo>)
        requires
            self.wf(),
            self@.stage.rank() >= 6,
        ensures
            r@.len() == self@.images.len(),
            forall|i: int| 0 <= i < r@.len() ==> r@[i] == self@.framebuffer_info(i),
    {
        let extent = self.selection.unwrap().create_info.image_extent;
        let renderpass = self.renderpass.unwrap();
        let mut infos: Vec<FramebufferCreateInfo> = Vec::new();
        let mut i: usize = 0;
        while i < self.swapchain_image_views.len()
            invariant
                i <= self.swapchain_image_views@.len(),
                self.swapchain_image_views@.len() == self.depth_image_views@.len(),
                infos@.len() == i,
                self@.image_views == self.swapchain_image_views@,
                self@.depth_image_views == self.depth_image_views@,
                self@.renderpass == Some(renderpass),
                extent == self@.extent(),
                forall|j: int| 0 <= j < i ==> infos@[j] == self@.framebuffer_info(j),
            decreases self.swapchain_image_views@.len() - i,
        {
            infos.push(
                framebuffer_info(
                    renderpass,
                    self.swapchain_image_views[i],
                    self.depth_image_views[i],
                    extent,
                ),
            );
            i += 1;
        }
        infos
    }

    /// Takes the framebuffers that the platform created, one for each image
    /// and in the order of the images.
    pub fn create_framebuffers(&mut self, framebuffers: Vec<Framebuffer>)
        requires
            old(self).wf(),
            old(self)@.stage == SwapchainStage::DepthResourcesCreated,
            framebuffers@.len() == old(self)@.images.len(),
        ensures
            final(self).wf(),
            final(self)@ == (SwapchainView {
                stage: SwapchainStage::FramebuffersCreated,
                framebuffers: framebuffers@,
                ..old(self)@
            }),
    {
        self.swapchain_framebuffers = framebuffers;
        self.stage = SwapchainStage::FramebuffersCreated;
    }

    /// Takes the semaphores and the fences that the platform created, one of
    /// each list for each frame in flight. The fences must have been created
    /// signaled. The swap chain is then ready: the first slot is current and
    /// no image is in flight.
    pub fn create_sync_objects(
        &mut self,
        image_available_semaphores: Vec<Semaphore>,
        render_finished_semaphores: Vec<Semaphore>,
        in_flight_fences: Vec<Fence>,
    )
        requires
            old(self).wf(),
            old(self)@.stage == SwapchainStage::FramebuffersCreated,
            image_available_semaphores@.len() == MAX_FRAMES_IN_FLIGHT,
            render_finished_semaphores@.len() == MAX_FRAMES_IN_FLIGHT,
            in_flight_fences@.len() == MAX_FRAMES_IN_FLIGHT,
        ensures
            final(self).wf(),
            final(self)@ == (SwapchainView {
                stage: SwapchainStage::Ready,
                sync: FrameSynchronizerView::fresh(
                    image_available_semaphores@,
                    render_finished_semaphores@,
                    in_flight_fences@,
                    old(self)@.images.len(),
                ),
                ..old(self)@
            }),
    {
        self.sync = FrameSynchronizer::new(
            image_available_semaphores,
            render_finished_semaphores,
            in_flight_fences,
            self.swapchain_images.len(),
        );
        self.stage = SwapchainStage::Ready;
    }

    /// The framebuffer of the image at position `index`.
    pub fn get_framebuffer(&self, index: usize) -> (r: Framebuffer)
        requires
            index < self@.framebuffers.len(),
        ensures
            r == self@.framebuffers[index as int],
    {
        self.swapchain_framebuffers[index]
    }

    /// The render pass, once it exists.
    pub fn get_renderpass(&self) -> (r: RenderPass)
        requires
            self@.renderpass is Some,
        ensures
            Some(r) == self@.renderpass,
    {
        self.renderpass.unwrap()
    }

    /// The view of the image at position `index`.
    pub fn get_image_view(&self, index: usize) -> (r: ImageView)
        requires
            index < self@.image_views.len(),
        ensures
            r == self@.image_views[index as int],
    {
        self.swapchain_image_views[index]
    }

    /// The number of images of the chain.
    pub fn image_count(&self) -> (r: usize)
        ensures
            r == self@.images.len(),
    {
        self.swapchain_images.len()
    }

    /// The number of image views that exist.
    pub fn image_view_count(&self) -> (r: usize)
        ensures
            r == self@.image_views.len(),
    {
        self.swapchain_image_views.len()
    }

    /// Whether the render pass exists.
    pub fn has_renderpass(&self) -> (r: bool)
        ensures
            r == self@.renderpass is Some,
    {
        self.renderpass.is_some()
    }

    /// The format of the swap images, once it is chosen.
    pub fn get_swapchain_image_format(&self) -> (r: Format)
        requires
            self@.selection is Some,
        ensures
            r == self@.image_format(),
    {
        self.selection.unwrap().create_info.image_format
    }

    /// The format of the depth images, once it is chosen.
    pub fn get_swapchain_depth_format(&self) -> (r: Format)
        requires
            self@.selection is Some,
        ensures
            r == self@.depth_format(),
    {
        self.selection.unwrap().depth_format
    }

    /// The extent of the swap images, once it is chosen.
    pub fn get_swapchain_extent(&self) -> (r: Extent2D)
        requires
            self@.selection is Some,
        ensures
            r == self@.extent(),
    {
        self.selection.unwrap().create_info.image_extent
    }

    /// The handle of the chain.
    pub fn get_swapchain(&self) -> (r: SwapchainKHR)
        requires
            self@.swapchain is Some,
        ensures
            Some(r) == self@.swapchain,
    {
        self.swapchain.unwrap()
    }

    /// Whether this generation and `swapchain` have the same color format and
    /// the same depth format, so that what was built for one render pass fits
    /// the other.
    pub fn compare_swap_formats(&self, swapchain: &Swapchain) -> (r: bool)
        requires
            self@.selection is Some,
            swapchain@.selection is Some,
        ensures
            r == (swapchain@.depth_format() == self@.depth_format() && swapchain@.image_format()
                == self@.image_format()),
    {
        let mine = self.selection.unwrap();
        let theirs = swapchain.selection.unwrap();
        theirs.depth_format == mine.depth_format && theirs.create_info.image_format
            == mine.create_info.image_format
    }

    /// Gives up what this generation holds. The result is the requests that
    /// destroy it, the last created first: the framebuffers, the depth views,
    /// the depth images and their memory, the render pass, the image views,
    /// the chain, and the semaphores and fences. The images of the chain go
    /// with the chain. Afterwards nothing is chosen and nothing is held.
    pub fn cleanup(&mut self) -> (r: Vec<Command>)
        ensures
            r@ == old(self)@.cleanup_commands(),
            final(self)@ == SwapchainView::empty(),
            final(self).wf(),
    {
        let mut commands: Vec<Command> = Vec::new();
        destroy_framebuffers(&mut commands, &self.swapchain_framebuffers);
        destroy_image_views(&mut commands, &self.depth_image_views);
        destroy_images(&mut commands, &self.depth_images);
        free_memories(&mut commands, &self.depth_image_memories);
        match self.renderpass {
            Some(renderpass) => {
                commands.push(Command::DestroyRenderPass { renderpass });
            },
            None => {},
        }
        destroy_image_views(&mut commands, &self.swapchain_image_views);
        match self.swapchain {
            Some(swapchain) => {
                commands.push(Command::DestroySwapchain { swapchain });
            },
            None => {},
        }
        let mut sync = FrameSynchronizer::empty();
        core::mem::swap(&mut self.sync, &mut sync);
        sync.cleanup(&mut commands);
        *self = Swapchain::default();
        commands
    }

    /// The slot of the frame that is prepared now.
    pub fn current_frame(&self) -> (r: usize)
        requires
            self.wf(),
            self.is_ready(),
        ensures
            r == self@.sync.current_frame,
            r < MAX_FRAMES_IN_FLIGHT,
    {
        self.sync.current_frame()
    }

    /// The requests that acquire the next image for the current slot.
    pub fn acquire_commands(&self) -> (r: Vec<Command>)
        requires
            self.wf(),
            self.is_ready(),
        ensures
            r@ == self@.sync.acquire_commands(self@.swapchain->0),
    {
        self.sync.acquire_commands(self.swapchain.unwrap())
    }

    /// Takes note that the acquire requests were made and says what came of
    /// them: the index of the image and whether the surface is served less
    /// than well, or the error that stands for the platform's failure code.
    pub fn acquire_next_image(&mut self, acquired: Result<(u32, bool), ResultCode>) -> (r: Result<
        (u32, bool),
        PresentationError,
    >)
        requires
            old(self).wf(),
            old(self).is_ready(),
        ensures
            final(self).wf(),
            final(self)@ == (SwapchainView { sync: old(self)@.sync.acquired(), ..old(self)@ }),
            match acquired {
                Ok(image) => r == Ok::<(u32, bool), PresentationError>(image),
                Err(code) => r == Err::<(u32, bool), PresentationError>(spec_classify(code)),
            },
    {
        self.sync.acquire_next_image(acquired)
    }

    /// The requests that submit `buffer` for the current slot and present the
    /// image at `image_index`.
    pub fn submit_commands(&self, buffer: CommandBuffer, image_index: u32) -> (r: Vec<Command>)
        requires
            self.wf(),
            self.is_ready(),
            image_index < self@.images.len(),
        ensures
            r@ == self@.sync.submit_commands(buffer, image_index, self@.swapchain->0),
    {
        self.sync.submit_commands(buffer, image_index, self.swapchain.unwrap())
    }

    /// Takes note that the submit requests for the image at `image_index`
    /// were made, moves on to the next slot, and says what came of the
    /// presentation: whether the surface is served less than well, or the
    /// error that stands for the platform's failure code.
    pub fn submit_command_buffers(&mut self, image_index: u32, presented: Result<bool, ResultCode>) -> (r:
        Result<bool, PresentationError>)
        requires
            old(self).wf(),
            old(self).is_ready(),
            image_index < old(self)@.images.len(),
        ensures
            final(self).wf(),
            final(self)@ == (SwapchainView {
                sync: old(self)@.sync.submitted(image_index),
                ..old(self)@
            }),
            match presented {
                Ok(suboptimal) => r == Ok::<bool, PresentationError>(suboptimal),
                Err(code) => r == Err::<bool, PresentationError>(spec_classify(code)),
            },
    {
        self.sync.submit_command_buffers(image_index, presented)
    }
}

/// The extent of a generation goes by the surface. Let a generation be chosen
/// for a window of some extent; whatever stage it has reached since, the
/// extent that it reports is the one of the surface where the surface has an
/// extent of its own, and else the window's, bounded by the limits of the
/// surface. Either way it lies within those limits, given that the limits are
/// in order and that the surface's own extent, where it has one, respects
/// them.
pub proof fn law_extent_round_trip(
    device: DeviceInfo,
    window_extent: Extent2D,
    old_swapchain: SwapchainKHR,
    swapchain: SwapchainView,
)
    requires
        selection(device, window_extent, old_swapchain) is Ok,
        swapchain.selection == Some(selection(device, window_extent, old_swapchain)->Ok_0),
        ({
            let capabilities = device.swapchain_support.surface_capabilities;
            &&& capabilities.min_image_extent.fits_in(capabilities.max_image_extent)
            &&& capabilities.has_definite_extent() ==> capabilities.min_image_extent.fits_in(
                capabilities.current_extent,
            ) && capabilities.current_extent.fits_in(capabilities.max_image_extent)
        }),
    ensures
        ({
            let capabilities = device.swapchain_support.surface_capabilities;
            &&& capabilities.min_image_extent.fits_in(swapchain.extent())
            &&& swapchain.extent().fits_in(capabilities.max_image_extent)
            &&& capabilities.has_definite_extent() ==> swapchain.extent()
                == capabilities.current_extent
            &&& !capabilities.has_definite_extent() ==> swapchain.extent()
                == window_extent.clamped_to(
                capabilities.min_image_extent,
                capabilities.max_image_extent,
            )
        }),
{
}

/// Within one generation everything has the same formats and the same extent:
/// every image view has the color format, every depth view the depth format,
/// and every framebuffer is as large as the depth images and the swap images,
/// under the one render pass, whose attachments have those two formats.
pub proof fn law_generation_is_uniform(swapchain: SwapchainView, i: int, j: int)
    requires
        swapchain.wf(),
        swapchain.stage.rank() >= 1,
        0 <= i < swapchain.images.len(),
        0 <= j < swapchain.images.len(),
    ensures
        swapchain.image_view_info(i).format == swapchain.image_format(),
        swapchain.depth_view_info(i).format == swapchain.depth_format(),
        swapchain.renderpass_info().color_attachment.format == swapchain.image_format(),
        swapchain.renderpass_info().depth_attachment.format == swapchain.depth_format(),
        swapchain.depth_image_info().format == swapchain.depth_format(),
        swapchain.depth_image_info().extent.width == swapchain.extent().width,
        swapchain.depth_image_info().extent.height == swapchain.extent().height,
        swapchain.framebuffer_info(i).width == swapchain.extent().width,
        swapchain.framebuffer_info(i).height == swapchain.extent().height,
        swapchain.framebuffer_info(i).render_pass == swapchain.framebuffer_info(j).render_pass,
        swapchain.framebuffer_info(i).width == swapchain.framebuffer_info(j).width,
        swapchain.framebuffer_info(i).height == swapchain.framebuffer_info(j).height,
        swapchain.framebuffer_info(i).layers == swapchain.framebuffer_info(j).layers,
        swapchain.framebuffer_info(i).color_view == swapchain.image_views[i],
        swapchain.framebuffer_info(i).depth_view == swapchain.depth_image_views[i],
{
}

} // verus!
