//! The preview surface of a window: its device, queue, fixed pipeline and
//! surface configuration; resized on window resizes and drawn once per idle tick.
use vstd::prelude::*;
use crate::graphics::gpu::{
    begin_pass, build_triangle_pipeline, configure_surface, draw, end_pass, finish_encoder,
    frame_view, new_encoder, next_frame, present, set_pipeline, submit, ClearColor, GpuDevice,
    PreviewSurface, SurfaceConfig, TrianglePipeline,
};
use crate::graphics::shader::{
    FRAGMENT_ENTRY, TRIANGLE_INSTANCE_COUNT, TRIANGLE_SHADER, TRIANGLE_VERTEX_COUNT, VERTEX_ENTRY,
};

verus! {

/// Frames that may be queued for presentation on the preview surface.
pub const FRAME_LATENCY: u32 = 2;

/// A size in physical pixels.
#[derive(Clone, Copy, PartialEq, Eq, Structural)]
pub struct PhysicalSize {
    pub width: u32,
    pub height: u32,
}

/// Failures of the preview surface.
pub enum GraphicsError {
    /// No surface could be made for the window.
    SurfaceUnavailable(wgpu::CreateSurfaceError),
    /// No adapter can present to the window's surface.
    NoAdapter,
    /// The adapter refused a device.
    NoDevice(wgpu::RequestDeviceError),
    /// The surface reports no texture format, alpha mode or present mode.
    NoSurfaceFormat,
    /// A width or height is zero or above the device's texture limit.
    InvalidSize,
    /// The next frame could not be acquired (timeout, outdated or lost surface).
    FrameUnavailable(wgpu::SurfaceError),
}

/// What a presented frame held: the colour its one render pass cleared it
/// to, and the pass's draws as vertex and instance counts.
pub type FrameModel = (ClearColor, Seq<(u32, u32)>);

/// The GPU state of one window's preview surface.
pub struct Context {
    surface: PreviewSurface,
    gpu: GpuDevice,
    render_pipeline: TrianglePipeline,
    config: SurfaceConfig,
    last_frame: Ghost<Option<FrameModel>>,
}

/// Whether a size is one the surface can be configured with.
pub open spec fn size_fits(size: PhysicalSize, max_dimension: u32) -> bool {
    0 < size.width <= max_dimension && 0 < size.height <= max_dimension
}

/// The configuration chosen for a surface: the first reported format, alpha
/// mode and present mode, at `size`.
pub open spec fn first_config(
    formats: Seq<wgpu::TextureFormat>,
    alpha_modes: Seq<wgpu::CompositeAlphaMode>,
    present_modes: Seq<wgpu::PresentMode>,
    size: PhysicalSize,
) -> SurfaceConfig {
    SurfaceConfig {
        format: formats[0],
        alpha_mode: alpha_modes[0],
        present_mode: present_modes[0],
        width: size.width,
        height: size.height,
        frame_latency: FRAME_LATENCY,
    }
}

/// `config` at another size.
pub open spec fn at_size(config: SurfaceConfig, size: PhysicalSize) -> SurfaceConfig {
    SurfaceConfig { width: size.width, height: size.height, ..config }
}

/// The frame that `render` draws: cleared to black, then one draw of the
/// triangle's vertices, once.
pub open spec fn triangle_frame() -> FrameModel {
    (ClearColor::Black, seq![(TRIANGLE_VERTEX_COUNT, TRIANGLE_INSTANCE_COUNT)])
}

/// A pipeline runs the fixed shader's vertex and fragment entry points and
/// draws into one colour target of `format`.
pub open spec fn runs_triangle(p: TrianglePipeline, format: wgpu::TextureFormat) -> bool {
    &&& p.spec_shader_source() == TRIANGLE_SHADER@
    &&& p.spec_vertex_entry() == VERTEX_ENTRY@
    &&& p.spec_fragment_entry() == FRAGMENT_ENTRY@
    &&& p.spec_format() == format
}

/// Chooses a surface configuration: `InvalidSize` where `size` does not fit
/// the device, else `NoSurfaceFormat` where a list is empty, else the first
/// format, alpha mode and present mode at `size`, with two frames queued at most.
pub fn choose_surface_config(
    formats: &Vec<wgpu::TextureFormat>,
    alpha_modes: &Vec<wgpu::CompositeAlphaMode>,
    present_modes: &Vec<wgpu::PresentMode>,
    size: PhysicalSize,
    max_dimension: u32,
) -> (r: Result<SurfaceConfig, GraphicsError>)
    ensures
        !size_fits(size, max_dimension) <==> (r is Err && r->Err_0 is InvalidSize),
        size_fits(size, max_dimension) && (formats@.len() == 0 || alpha_modes@.len() == 0
            || present_modes@.len() == 0) <==> (r is Err && r->Err_0 is NoSurfaceFormat),
        r is Ok ==> r->Ok_0 == first_config(formats@, alpha_modes@, present_modes@, size),
{
    if !(0 < size.width && size.width <= max_dimension && 0 < size.height && size.height
        <= max_dimension) {
        return Err(GraphicsError::InvalidSize);
    }
    if formats.len() == 0 || alpha_modes.len() == 0 || present_modes.len() == 0 {
        return Err(GraphicsError::NoSurfaceFormat);
    }
    Ok(
        SurfaceConfig {
            format: formats[0],
            alpha_mode: alpha_modes[0],
            present_mode: present_modes[0],
            width: size.width,
            height: size.height,
            frame_latency: FRAME_LATENCY,
        },
    )
}

impl Context {
    /// The configuration the surface holds.
    pub closed spec fn spec_config(&self) -> SurfaceConfig {
        self.config
    }

    /// The pipeline.
    pub closed spec fn spec_pipeline(&self) -> &TrianglePipeline {
        &self.render_pipeline
    }

    /// The frame presented last, if any.
    pub closed spec fn spec_last_frame(&self) -> Option<FrameModel> {
        self.last_frame@
    }

    /// How many frames the surface presented.
    pub closed spec fn spec_presented(&self) -> nat {
        self.surface.spec_presented()
    }

    /// How many command buffers were submitted to the device's queue.
    pub closed spec fn spec_submissions(&self) -> nat {
        self.gpu.spec_submissions()
    }

    /// The device the context draws with.
    pub closed spec fn spec_device(&self) -> wgpu::Device {
        self.gpu.spec_device()
    }

    /// The surface is configured with the stored configuration, which it
    /// accepts on the context's device; no frame of it is held; the pipeline
    /// is the triangle's, on the same device, drawing in the surface's format.
    pub closed spec fn wf(&self) -> bool {
        &&& self.surface.spec_configured() == Some(self.config)
        &&& !self.surface.spec_frame_held()
        &&& self.surface.accepts(&self.gpu, self.config)
        &&& runs_triangle(self.render_pipeline, self.config.format)
        &&& self.render_pipeline.spec_device() == self.gpu.spec_device()
    }

    /// The largest width or height the device accepts.
    pub closed spec fn spec_max_dimension(&self) -> u32 {
        self.gpu.spec_max_dimension()
    }

    /// Builds the preview surface over a negotiated device and queue: chooses
    /// the first reported format, alpha mode and present mode, compiles the
    /// fixed shader, builds its pipeline and configures the surface with `size`.
    pub fn new(gpu: GpuDevice, surface: PreviewSurface, size: PhysicalSize) -> (r: Result<
        Context,
        GraphicsError,
    >)
        requires
            surface.spec_device() == gpu.spec_device(),
            !surface.spec_frame_held(),
        ensures
            !size_fits(size, gpu.spec_max_dimension()) <==> (r is Err && r->Err_0 is InvalidSize),
            size_fits(size, gpu.spec_max_dimension()) && (surface.spec_formats().len() == 0
                || surface.spec_alpha_modes().len() == 0 || surface.spec_present_modes().len()
                == 0) <==> (r is Err && r->Err_0 is NoSurfaceFormat),
            r is Ok ==> r->Ok_0.wf() && r->Ok_0.spec_config() == first_config(
                surface.spec_formats(),
                surface.spec_alpha_modes(),
                surface.spec_present_modes(),
                size,
            ) && r->Ok_0.spec_max_dimension() == gpu.spec_max_dimension()
                && runs_triangle(*r->Ok_0.spec_pipeline(), r->Ok_0.spec_config().format)
                && r->Ok_0.spec_last_frame() is None,
    {
        let mut surface = surface;
        let max_dimension = gpu.max_dimension();
        let config = match choose_surface_config(
            surface.formats(),
            surface.alpha_modes(),
            surface.present_modes(),
            size,
            max_dimension,
        ) {
            Ok(config) => config,
            Err(e) => return Err(e),
        };
        proof {
            assert(surface.spec_formats()[0] == config.format);
            assert(surface.spec_alpha_modes()[0] == config.alpha_mode);
            assert(surface.spec_present_modes()[0] == config.present_mode);
        }
        let render_pipeline = build_triangle_pipeline(&gpu, &surface, config.format);
        configure_surface(&mut surface, &gpu, &config);
        Ok(Context { surface, gpu, render_pipeline, config, last_frame: Ghost(None) })
    }

    /// The size the surface is configured with.
    pub fn size(&self) -> (r: PhysicalSize)
        ensures
            r.width == self.spec_config().width,
            r.height == self.spec_config().height,
    {
        PhysicalSize { width: self.config.width, height: self.config.height }
    }

    /// The largest width or height the device accepts.
    pub fn max_dimension(&self) -> (r: u32)
        ensures
            r == self.spec_max_dimension(),
    {
        self.gpu.max_dimension()
    }

    /// Reconfigures the surface for a new window size; format, alpha mode,
    /// present mode, device and pipeline stay.
    pub fn resize(&mut self, size: &PhysicalSize)
        requires
            old(self).wf(),
            size_fits(*size, old(self).spec_max_dimension()),
        ensures
            resized(*old(self), *size, *final(self)),
    {
        let config = SurfaceConfig { width: size.width, height: size.height, ..self.config };
        configure_surface(&mut self.surface, &self.gpu, &config);
        self.config = config;
    }

    /// Draws one frame: clears it to black, draws the triangle with the fixed
    /// pipeline, submits the commands and presents the frame. Where no frame
    /// can be acquired it fails, drawing and presenting nothing.
    pub fn render(&mut self) -> (r: Result<(), GraphicsError>)
        requires
            old(self).wf(),
        ensures
            rendered(*old(self), r, *final(self)),
    {
        let frame = match next_frame(&mut self.surface) {
            Ok(frame) => frame,
            Err(e) => return Err(GraphicsError::FrameUnavailable(e)),
        };
        let view = frame_view(&frame);
        let mut encoder = new_encoder(&self.gpu);
        let mut pass = begin_pass(&mut encoder, &view, ClearColor::Black);
        set_pipeline(&mut pass, &self.render_pipeline);
        draw(&mut pass, TRIANGLE_VERTEX_COUNT, TRIANGLE_INSTANCE_COUNT);
        let drawn = end_pass(pass);
        let commands = finish_encoder(encoder);
        submit(&mut self.gpu, commands);
        present(frame, &mut self.surface);
        self.last_frame = Ghost(Some(drawn@));
        assert(drawn@.1 =~= triangle_frame().1);
        Ok(())
    }
}

/// A resize to `size` took `before` to `after`: the configuration is the old
/// one at the new size, the surface holds it, and the device, pipeline and
/// frame record are unchanged.
pub open spec fn resized(before: Context, size: PhysicalSize, after: Context) -> bool {
    &&& after.wf()
    &&& after.spec_config() == at_size(before.spec_config(), size)
    &&& after.spec_max_dimension() == before.spec_max_dimension()
    &&& after.spec_device() == before.spec_device()
    &&& after.spec_pipeline() == before.spec_pipeline()
    &&& after.spec_last_frame() == before.spec_last_frame()
    &&& after.spec_presented() == before.spec_presented()
    &&& after.spec_submissions() == before.spec_submissions()
}

/// A render of `before` returned `r` and left `after`: on success one render
/// pass cleared the frame to black and drew the triangle once, one command
/// buffer was submitted and one frame presented; on failure nothing was
/// drawn, submitted or presented. The configuration, device and pipeline stay.
pub open spec fn rendered(before: Context, r: Result<(), GraphicsError>, after: Context) -> bool {
    &&& after.wf()
    &&& after.spec_config() == before.spec_config()
    &&& after.spec_device() == before.spec_device()
    &&& after.spec_pipeline() == before.spec_pipeline()
    &&& after.spec_max_dimension() == before.spec_max_dimension()
    &&& r is Ok ==> after.spec_last_frame() == Some(triangle_frame())
        && after.spec_presented() == before.spec_presented() + 1
        && after.spec_submissions() == before.spec_submissions() + 1
    &&& r is Err ==> r->Err_0 is FrameUnavailable && after.spec_last_frame()
        == before.spec_last_frame() && after.spec_presented() == before.spec_presented()
        && after.spec_submissions() == before.spec_submissions()
}

/// After a resize to a size, a second resize to the same size is allowed,
/// and it leaves the configuration as the first left it.
pub proof fn lemma_resize_twice(c0: Context, c1: Context, size: PhysicalSize)
    requires
        c0.wf(),
        size_fits(size, c0.spec_max_dimension()),
        resized(c0, size, c1),
    ensures
        c1.wf(),
        size_fits(size, c1.spec_max_dimension()),
        c1.spec_config().width == size.width && c1.spec_config().height == size.height,
        forall|c2: Context| #[trigger]
            resized(c1, size, c2) ==> c2.spec_config() == c1.spec_config() && c2.spec_device()
                == c1.spec_device() && c2.spec_pipeline() == c1.spec_pipeline(),
{
}

/// Two successful renders in a row present the same frame.
pub proof fn lemma_render_deterministic(
    c0: Context,
    r1: Result<(), GraphicsError>,
    c1: Context,
    r2: Result<(), GraphicsError>,
    c2: Context,
)
    requires
        rendered(c0, r1, c1),
        rendered(c1, r2, c2),
        r1 is Ok,
        r2 is Ok,
    ensures
        c1.spec_last_frame() == c2.spec_last_frame(),
{
}

/// What a successful render draws does not depend on the surface's size:
/// contexts of any two sizes present the same frame, one draw of the
/// triangle's three vertices, and each vertex's clip-space position is a
/// function of its index alone.
pub proof fn lemma_frame_independent_of_size(
    c1: Context,
    r1: Result<(), GraphicsError>,
    d1: Context,
    c2: Context,
    r2: Result<(), GraphicsError>,
    d2: Context,
)
    requires
        rendered(c1, r1, d1),
        rendered(c2, r2, d2),
        r1 is Ok,
        r2 is Ok,
    ensures
        d1.spec_last_frame() == d2.spec_last_frame(),
        (d1.spec_last_frame()->0).1 == seq![(TRIANGLE_VERTEX_COUNT, TRIANGLE_INSTANCE_COUNT)],
        forall|i: int|
            0 <= i < TRIANGLE_VERTEX_COUNT ==> (
            crate::graphics::shader::clip_x(i),
            crate::graphics::shader::clip_y(i),
        ) == [(-1int, -1int), (0, 1), (1, -1)][i],
{
}

} // verus!
