//! The calls into `wgpu` that the preview surface and the texture loader make,
//! each behind a small function whose contract the library relies on.
//!
//! `wgpu` reports a validation failure to the device's error handler, which
//! panics, and treats some surface failures as fatal. The library's types
//! carry what the `requires` of these functions need to leave such inputs
//! out. A surface and its device are made together, the device from the
//! adapter the surface reported its capabilities for. Every object made on a
//! device (or of a surface) records that device (or surface) as ghost state,
//! set only by the constructors here, which hand that same device to the call
//! that makes the object; the functions that combine objects require the
//! records to agree. A surface also records its configuration and whether a
//! frame of it is held. A lost device is fatal in `wgpu` whatever the input,
//! and no `requires` can leave it out.
use vstd::prelude::*;
use wgpu::Texture as GpuTexture;
use crate::graphics::context::GraphicsError;
use crate::graphics::shader::{FRAGMENT_ENTRY, TRIANGLE_SHADER, VERTEX_ENTRY};

verus! {

#[verifier::external_type_specification]
#[verifier::external_body]
pub struct ExSurface<'window>(wgpu::Surface<'window>);

#[verifier::external_type_specification]
#[verifier::external_body]
pub struct ExInstance(wgpu::Instance);

#[verifier::external_type_specification]
#[verifier::external_body]
pub struct ExSurfaceTarget<'window>(wgpu::SurfaceTarget<'window>);

#[verifier::external_type_specification]
#[verifier::external_body]
pub struct ExCreateSurfaceError(wgpu::CreateSurfaceError);

#[verifier::external_type_specification]
#[verifier::external_body]
pub struct ExRequestDeviceError(wgpu::RequestDeviceError);

#[verifier::external_type_specification]
#[verifier::external_body]
pub struct ExAdapter(wgpu::Adapter);

#[verifier::external_type_specification]
#[verifier::external_body]
pub struct ExDevice(wgpu::Device);

#[verifier::external_type_specification]
#[verifier::external_body]
pub struct ExQueue(wgpu::Queue);

#[verifier::external_type_specification]
#[verifier::external_body]
pub struct ExShaderModule(wgpu::ShaderModule);

#[verifier::external_type_specification]
#[verifier::external_body]
pub struct ExPipelineLayout(wgpu::PipelineLayout);

#[verifier::external_type_specification]
#[verifier::external_body]
pub struct ExRenderPipeline(wgpu::RenderPipeline);

#[verifier::external_type_specification]
#[verifier::external_body]
pub struct ExTextureFormat(wgpu::TextureFormat);

#[verifier::external_type_specification]
#[verifier::external_body]
pub struct ExCompositeAlphaMode(wgpu::CompositeAlphaMode);

#[verifier::external_type_specification]
#[verifier::external_body]
pub struct ExPresentMode(wgpu::PresentMode);

#[verifier::external_type_specification]
#[verifier::external_body]
pub struct ExSurfaceTexture(wgpu::SurfaceTexture);

#[verifier::external_type_specification]
#[verifier::external_body]
pub struct ExSurfaceError(wgpu::SurfaceError);

#[verifier::external_type_specification]
#[verifier::external_body]
pub struct ExTextureView(wgpu::TextureView);

#[verifier::external_type_specification]
#[verifier::external_body]
pub struct ExCommandEncoder(wgpu::CommandEncoder);

#[verifier::external_type_specification]
#[verifier::external_body]
pub struct ExCommandBuffer(wgpu::CommandBuffer);

#[verifier::external_type_specification]
#[verifier::external_body]
pub struct ExRenderPass<'encoder>(wgpu::RenderPass<'encoder>);

#[verifier::external_type_specification]
#[verifier::external_body]
pub struct ExGpuTexture(GpuTexture);

#[verifier::external_type_specification]
#[verifier::external_body]
pub struct ExSampler(wgpu::Sampler);

/// How a render pass starts: the colour its target is cleared to.
#[derive(Clone, Copy, Debug, PartialEq, Eq, Structural)]
pub enum ClearColor {
    /// Opaque black.
    Black,
}

/// Formats of textures loaded from images.
#[derive(Clone, Copy, Debug, PartialEq, Eq, Structural)]
pub enum TexelFormat {
    /// Four 8-bit channels, red first, colour in sRGB: four bytes a texel.
    Rgba8UnormSrgb,
}

/// How a sampler addresses texels outside the texture.
#[derive(Clone, Copy, Debug, PartialEq, Eq, Structural)]
pub enum AddressMode {
    ClampToEdge,
    Repeat,
    MirrorRepeat,
}

/// How a sampler filters between texels.
#[derive(Clone, Copy, Debug, PartialEq, Eq, Structural)]
pub enum FilterMode {
    Nearest,
    Linear,
}

/// A logical device, its queue, and the largest width or height it accepts
/// for a 2D texture or a surface.
pub struct GpuDevice {
    device: wgpu::Device,
    queue: wgpu::Queue,
    max_dimension: u32,
    submissions: Ghost<nat>,
}

/// A surface configuration: format, alpha mode, present mode, size, and the
/// number of frames that may be queued for presentation.
#[derive(Clone, Copy)]
pub struct SurfaceConfig {
    pub format: wgpu::TextureFormat,
    pub alpha_mode: wgpu::CompositeAlphaMode,
    pub present_mode: wgpu::PresentMode,
    pub width: u32,
    pub height: u32,
    pub frame_latency: u32,
}

/// A window's surface, with the formats, alpha modes and present modes it
/// reported for the adapter of its device, the device, the configuration it
/// was last given, and whether one of its frames is held.
pub struct PreviewSurface {
    surface: wgpu::Surface<'static>,
    formats: Vec<wgpu::TextureFormat>,
    alpha_modes: Vec<wgpu::CompositeAlphaMode>,
    present_modes: Vec<wgpu::PresentMode>,
    device: Ghost<wgpu::Device>,
    configured: Ghost<Option<SurfaceConfig>>,
    frame_held: Ghost<bool>,
    presented: Ghost<nat>,
}

/// A compiled shader module, with its device and WGSL source.
pub struct TriangleShader {
    module: wgpu::ShaderModule,
    device: Ghost<wgpu::Device>,
    source: Ghost<Seq<char>>,
}

/// A pipeline layout with no bind groups and no push constants.
pub struct EmptyLayout {
    layout: wgpu::PipelineLayout,
    device: Ghost<wgpu::Device>,
}

/// A render pipeline, with its device, the source and entry points of its
/// shader, and the format of its one colour target.
pub struct TrianglePipeline {
    pipeline: wgpu::RenderPipeline,
    device: Ghost<wgpu::Device>,
    format: Ghost<wgpu::TextureFormat>,
    shader_source: Ghost<Seq<char>>,
    vertex_entry: Ghost<Seq<char>>,
    fragment_entry: Ghost<Seq<char>>,
}

/// A frame of a surface, in the surface's configured format.
pub struct Frame {
    texture: wgpu::SurfaceTexture,
    format: Ghost<wgpu::TextureFormat>,
    surface: Ghost<wgpu::Surface<'static>>,
    device: Ghost<wgpu::Device>,
}

/// A view of a frame.
pub struct FrameView {
    view: wgpu::TextureView,
    format: Ghost<wgpu::TextureFormat>,
    device: Ghost<wgpu::Device>,
}

/// A command encoder of a device.
pub struct Encoder {
    encoder: wgpu::CommandEncoder,
    device: Ghost<wgpu::Device>,
}

/// Recorded commands of a device.
pub struct Commands {
    buffer: wgpu::CommandBuffer,
    device: Ghost<wgpu::Device>,
}

/// A render pass recording into an encoder, which it borrows until it ends.
pub struct Pass<'encoder> {
    pass: wgpu::RenderPass<'encoder>,
    device: Ghost<wgpu::Device>,
    target: Ghost<wgpu::TextureFormat>,
    pipeline_set: Ghost<bool>,
    clear: Ghost<ClearColor>,
    draws: Ghost<Seq<(u32, u32)>>,
}

/// A 2D texture that can be sampled and copied into, with its device, size
/// and format, and the bytes uploaded into it (`None` before an upload).
pub struct RgbaTexture {
    texture: GpuTexture,
    width: u32,
    height: u32,
    format: TexelFormat,
    device: Ghost<wgpu::Device>,
    texels: Ghost<Option<Seq<u8>>>,
}

/// The default view of a texture.
pub struct RgbaTextureView {
    view: wgpu::TextureView,
    texture: Ghost<GpuTexture>,
}

/// A sampler, with the settings it was made with.
pub struct TextureSampler {
    sampler: wgpu::Sampler,
    address_mode: AddressMode,
    mag_filter: FilterMode,
    min_filter: FilterMode,
    mipmap_filter: FilterMode,
}

impl GpuDevice {
    pub closed spec fn spec_max_dimension(&self) -> u32 {
        self.max_dimension
    }

    pub closed spec fn spec_device(&self) -> wgpu::Device {
        self.device
    }

    /// How many command buffers were submitted to the queue.
    pub closed spec fn spec_submissions(&self) -> nat {
        self.submissions@
    }

    /// The largest width or height the device accepts.
    pub fn max_dimension(&self) -> (r: u32)
        ensures
            r == self.spec_max_dimension(),
    {
        self.max_dimension
    }
}

impl PreviewSurface {
    pub closed spec fn spec_formats(&self) -> Seq<wgpu::TextureFormat> {
        self.formats@
    }

    pub closed spec fn spec_alpha_modes(&self) -> Seq<wgpu::CompositeAlphaMode> {
        self.alpha_modes@
    }

    pub closed spec fn spec_present_modes(&self) -> Seq<wgpu::PresentMode> {
        self.present_modes@
    }

    pub closed spec fn spec_surface(&self) -> wgpu::Surface<'static> {
        self.surface
    }

    /// The device the surface's capabilities belong to.
    pub closed spec fn spec_device(&self) -> wgpu::Device {
        self.device@
    }

    /// The configuration the surface was last given, if any.
    pub closed spec fn spec_configured(&self) -> Option<SurfaceConfig> {
        self.configured@
    }

    /// Whether a frame of the surface is held.
    pub closed spec fn spec_frame_held(&self) -> bool {
        self.frame_held@
    }

    /// How many frames of the surface were presented.
    pub closed spec fn spec_presented(&self) -> nat {
        self.presented@
    }

    /// Whether `config` is one the surface accepts on `gpu`.
    pub open spec fn accepts(&self, gpu: &GpuDevice, config: SurfaceConfig) -> bool {
        &&& self.spec_device() == gpu.spec_device()
        &&& 0 < config.width <= gpu.spec_max_dimension()
        &&& 0 < config.height <= gpu.spec_max_dimension()
        &&& self.spec_formats().contains(config.format)
        &&& self.spec_alpha_modes().contains(config.alpha_mode)
        &&& self.spec_present_modes().contains(config.present_mode)
    }

    /// The formats the surface reported, the preferred first.
    pub fn formats(&self) -> (r: &Vec<wgpu::TextureFormat>)
        ensures
            r@ == self.spec_formats(),
    {
        &self.formats
    }

    /// The alpha modes the surface reported, the preferred first.
    pub fn alpha_modes(&self) -> (r: &Vec<wgpu::CompositeAlphaMode>)
        ensures
            r@ == self.spec_alpha_modes(),
    {
        &self.alpha_modes
    }

    /// The present modes the surface reported, the preferred first.
    pub fn present_modes(&self) -> (r: &Vec<wgpu::PresentMode>)
        ensures
            r@ == self.spec_present_modes(),
    {
        &self.present_modes
    }
}

impl TrianglePipeline {
    pub closed spec fn spec_device(&self) -> wgpu::Device {
        self.device@
    }

    pub closed spec fn spec_format(&self) -> wgpu::TextureFormat {
        self.format@
    }

    pub closed spec fn spec_shader_source(&self) -> Seq<char> {
        self.shader_source@
    }

    pub closed spec fn spec_vertex_entry(&self) -> Seq<char> {
        self.vertex_entry@
    }

    pub closed spec fn spec_fragment_entry(&self) -> Seq<char> {
        self.fragment_entry@
    }
}

impl TriangleShader {
    pub closed spec fn spec_device(&self) -> wgpu::Device {
        self.device@
    }

    pub closed spec fn spec_source(&self) -> Seq<char> {
        self.source@
    }
}

impl EmptyLayout {
    pub closed spec fn spec_device(&self) -> wgpu::Device {
        self.device@
    }
}

impl Frame {
    pub closed spec fn spec_format(&self) -> wgpu::TextureFormat {
        self.format@
    }

    pub closed spec fn spec_surface(&self) -> wgpu::Surface<'static> {
        self.surface@
    }

    pub closed spec fn spec_device(&self) -> wgpu::Device {
        self.device@
    }
}

impl FrameView {
    pub closed spec fn spec_format(&self) -> wgpu::TextureFormat {
        self.format@
    }

    pub closed spec fn spec_device(&self) -> wgpu::Device {
        self.device@
    }
}

impl Encoder {
    pub closed spec fn spec_device(&self) -> wgpu::Device {
        self.device@
    }
}

impl Commands {
    pub closed spec fn spec_device(&self) -> wgpu::Device {
        self.device@
    }
}

impl<'encoder> Pass<'encoder> {
    pub closed spec fn spec_device(&self) -> wgpu::Device {
        self.device@
    }

    pub closed spec fn spec_target(&self) -> wgpu::TextureFormat {
        self.target@
    }

    pub closed spec fn spec_pipeline_set(&self) -> bool {
        self.pipeline_set@
    }

    /// The colour the pass cleared its target to.
    pub closed spec fn spec_clear(&self) -> ClearColor {
        self.clear@
    }

    /// The draws recorded in the pass, as vertex and instance counts.
    pub closed spec fn spec_draws(&self) -> Seq<(u32, u32)> {
        self.draws@
    }
}

impl RgbaTexture {
    pub closed spec fn spec_raw(&self) -> GpuTexture {
        self.texture
    }

    pub closed spec fn spec_width(&self) -> u32 {
        self.width
    }

    pub closed spec fn spec_height(&self) -> u32 {
        self.height
    }

    pub closed spec fn spec_format(&self) -> TexelFormat {
        self.format
    }

    pub closed spec fn spec_device(&self) -> wgpu::Device {
        self.device@
    }

    /// The bytes uploaded into the texture, row by row, if any were.
    pub closed spec fn spec_texels(&self) -> Option<Seq<u8>> {
        self.texels@
    }
}

impl RgbaTextureView {
    /// The texture this is the default view of.
    pub closed spec fn spec_texture(&self) -> GpuTexture {
        self.texture@
    }
}

impl TextureSampler {
    pub closed spec fn spec_settings(&self) -> (AddressMode, FilterMode, FilterMode, FilterMode) {
        (self.address_mode, self.mag_filter, self.min_filter, self.mipmap_filter)
    }
}

/// Relies on `Instance::create_surface`: a new surface of a window, of which
/// no frame exists yet.
#[verifier::external_body]
fn create_surface(instance: &wgpu::Instance, target: wgpu::SurfaceTarget<'static>) -> (r: Result<
    wgpu::Surface<'static>,
    wgpu::CreateSurfaceError,
>) {
    instance.create_surface(target)
}

/// Relies on `Instance::request_adapter`: an adapter of the default power
/// preference that can present to `surface`, if there is one. On native
/// backends the request's future is ready when first polled; it is polled here
/// until it is.
#[verifier::external_body]
fn request_adapter(instance: &wgpu::Instance, surface: &wgpu::Surface<'static>) -> (r: Option<wgpu::Adapter>) {
    let options = wgpu::RequestAdapterOptions {
        power_preference: wgpu::PowerPreference::default(), force_fallback_adapter: false,
        compatible_surface: Some(surface),
    };
    let mut request = Box::pin(instance.request_adapter(&options));
    let mut cx = std::task::Context::from_waker(std::task::Waker::noop());
    loop {
        if let std::task::Poll::Ready(r) = std::future::Future::poll(request.as_mut(), &mut cx) {
            return r;
        }
    }
}

/// Relies on `Adapter::request_device`: a device of `adapter`, with no extra
/// features and the WebGL2 downlevel limits raised to the adapter's texture
/// resolution, tuned for performance, and its queue. On native backends the
/// request's future is ready when first polled; it is polled here until it is.
#[verifier::external_body]
fn request_device(adapter: &wgpu::Adapter) -> (r: Result<(wgpu::Device, wgpu::Queue), wgpu::RequestDeviceError>) {
    let desc = wgpu::DeviceDescriptor {
        label: None, required_features: wgpu::Features::empty(),
        required_limits: wgpu::Limits::downlevel_webgl2_defaults().using_resolution(adapter.limits()),
        memory_hints: wgpu::MemoryHints::Performance,
    };
    let mut request = Box::pin(adapter.request_device(&desc, None));
    let mut cx = std::task::Context::from_waker(std::task::Waker::noop());
    loop {
        if let std::task::Poll::Ready(r) = std::future::Future::poll(request.as_mut(), &mut cx) {
            return r;
        }
    }
}

/// Relies on `Device::limits`: the device's largest 2D texture width or height.
#[verifier::external_body]
fn max_texture_dimension(device: &wgpu::Device) -> (r: u32) {
    device.limits().max_texture_dimension_2d
}

/// Relies on `Surface::get_capabilities`: the texture formats, alpha modes and
/// present modes the surface supports with this adapter, the preferred first.
#[verifier::external_body]
fn surface_capabilities(surface: &wgpu::Surface<'static>, adapter: &wgpu::Adapter) -> (r: (
    Vec<wgpu::TextureFormat>,
    Vec<wgpu::CompositeAlphaMode>,
    Vec<wgpu::PresentMode>,
)) {
    let caps = surface.get_capabilities(adapter);
    (caps.formats, caps.alpha_modes, caps.present_modes)
}

/// Opens the preview surface of a window: makes its surface, asks for an
/// adapter that can present to it, reads the surface's capabilities for that
/// adapter, and requests a device and queue of the same adapter. The surface
/// is not configured yet and no frame of it is held.
pub fn open_preview(instance: &wgpu::Instance, target: wgpu::SurfaceTarget<'static>) -> (r: Result<
    (GpuDevice, PreviewSurface),
    GraphicsError,
>)
    ensures
        r is Ok ==> ({
            let (gpu, surface) = r->Ok_0;
            &&& surface.spec_device() == gpu.spec_device()
            &&& surface.spec_configured() is None
            &&& !surface.spec_frame_held()
        }),
        r is Err ==> r->Err_0 is SurfaceUnavailable || r->Err_0 is NoAdapter
            || r->Err_0 is NoDevice,
{
    let surface = match create_surface(instance, target) {
        Ok(surface) => surface,
        Err(e) => return Err(GraphicsError::SurfaceUnavailable(e)),
    };
    let adapter = match request_adapter(instance, &surface) {
        Some(adapter) => adapter,
        None => return Err(GraphicsError::NoAdapter),
    };
    let (formats, alpha_modes, present_modes) = surface_capabilities(&surface, &adapter);
    let (device, queue) = match request_device(&adapter) {
        Ok(pair) => pair,
        Err(e) => return Err(GraphicsError::NoDevice(e)),
    };
    let max_dimension = max_texture_dimension(&device);
    let ghost made_on = device;
    let gpu = GpuDevice { device, queue, max_dimension, submissions: Ghost(0) };
    let preview = PreviewSurface {
        surface,
        formats,
        alpha_modes,
        present_modes,
        device: Ghost(made_on),
        configured: Ghost(None),
        frame_held: Ghost(false),
        presented: Ghost(0),
    };
    Ok((gpu, preview))
}

/// Relies on `Surface::configure`: sets the surface up for rendering
/// attachments of `config`'s format and size, with its alpha and present
/// modes and frame latency. `wgpu` refuses a zero size, a size above the
/// device's limit, a device other than the one the capabilities belong to, a
/// format or mode the surface did not report, and a configuration while a
/// frame is held; the `requires` leave these out.
#[verifier::external_body]
pub(crate) fn configure_surface(surface: &mut PreviewSurface, gpu: &GpuDevice, config: &SurfaceConfig)
    requires
        old(surface).accepts(gpu, *config),
        !old(surface).spec_frame_held(),
    ensures
        final(surface).spec_configured() == Some(*config),
        !final(surface).spec_frame_held(),
        final(surface).spec_presented() == old(surface).spec_presented(),
        final(surface).spec_surface() == old(surface).spec_surface(),
        final(surface).spec_device() == old(surface).spec_device(),
        final(surface).spec_formats() == old(surface).spec_formats(),
        final(surface).spec_alpha_modes() == old(surface).spec_alpha_modes(),
        final(surface).spec_present_modes() == old(surface).spec_present_modes(),
{
    let c = wgpu::SurfaceConfiguration {
        usage: wgpu::TextureUsages::RENDER_ATTACHMENT, format: config.format,
        width: config.width, height: config.height, present_mode: config.present_mode,
        desired_maximum_frame_latency: config.frame_latency, alpha_mode: config.alpha_mode, view_formats: vec![],
    };
    surface.surface.configure(&gpu.device, &c);
    surface.configured = Ghost(Some(*config));
}

/// Relies on `Device::create_shader_module`: compiles WGSL source. Only the
/// library's own shader, which `wgpu` accepts, is handed to it.
#[verifier::external_body]
fn create_shader(device: &wgpu::Device, source: &'static str) -> (r: wgpu::ShaderModule)
    requires
        source@ == TRIANGLE_SHADER@,
{
    device.create_shader_module(wgpu::ShaderModuleDescriptor {
        label: None,
        source: wgpu::ShaderSource::Wgsl(std::borrow::Cow::Borrowed(source)),
    })
}

/// Relies on `Device::create_pipeline_layout`: a layout with no bind groups
/// and no push constants.
#[verifier::external_body]
fn create_empty_pipeline_layout(device: &wgpu::Device) -> (r: wgpu::PipelineLayout) {
    device.create_pipeline_layout(&wgpu::PipelineLayoutDescriptor {
        label: None,
        bind_group_layouts: &[],
        push_constant_ranges: &[],
    })
}

/// Relies on `Device::create_render_pipeline`: a pipeline with `layout` that
/// runs the shader's entry points `vertex_entry` and `fragment_entry`, with no
/// vertex buffers, the default primitive state (a triangle list), no depth or
/// stencil, one sample, and one colour target of `format`, a format the
/// surface reported for the device (and so a colour format it renders to).
/// Layout, shader and device belong together.
#[verifier::external_body]
fn create_pipeline(
    gpu: &GpuDevice,
    layout: &EmptyLayout,
    shader: &TriangleShader,
    vertex_entry: &str,
    fragment_entry: &str,
    format: wgpu::TextureFormat,
    surface: &PreviewSurface,
) -> (r: wgpu::RenderPipeline)
    requires
        layout.spec_device() == gpu.spec_device(),
        shader.spec_device() == gpu.spec_device(),
        shader.spec_source() == TRIANGLE_SHADER@,
        vertex_entry@ == VERTEX_ENTRY@,
        fragment_entry@ == FRAGMENT_ENTRY@,
        surface.spec_device() == gpu.spec_device(),
        surface.spec_formats().contains(format),
{
    let (module, targets) = (&shader.module, [Some(format.into())]);
    let vertex = wgpu::VertexState {
        module, entry_point: vertex_entry, compilation_options: Default::default(), buffers: &[],
    };
    let fragment = Some(wgpu::FragmentState {
        module, entry_point: fragment_entry, compilation_options: Default::default(),
        targets: &targets,
    });
    gpu.device.create_render_pipeline(&wgpu::RenderPipelineDescriptor {
        label: None, layout: Some(&layout.layout), vertex, fragment,
        primitive: Default::default(), depth_stencil: None, multisample: Default::default(),
        multiview: None, cache: None,
    })
}

/// Relies on `Surface::get_current_texture`: the next frame of a configured
/// surface of which no frame is held, or the reason there is none (timeout,
/// outdated or lost surface, no memory), in which case none is held.
#[verifier::external_body]
fn acquire_frame(surface: &mut PreviewSurface) -> (r: Result<wgpu::SurfaceTexture, wgpu::SurfaceError>)
    requires
        old(surface).spec_configured() is Some,
        !old(surface).spec_frame_held(),
    ensures
        final(surface).spec_frame_held() == r is Ok,
        final(surface).spec_presented() == old(surface).spec_presented(),
        final(surface).spec_configured() == old(surface).spec_configured(),
        final(surface).spec_surface() == old(surface).spec_surface(),
        final(surface).spec_device() == old(surface).spec_device(),
        final(surface).spec_formats() == old(surface).spec_formats(),
        final(surface).spec_alpha_modes() == old(surface).spec_alpha_modes(),
        final(surface).spec_present_modes() == old(surface).spec_present_modes(),
{
    let r = surface.surface.get_current_texture();
    surface.frame_held = Ghost(r.is_ok());
    r
}

/// Relies on `Texture::create_view`: a default view of a frame's texture.
#[verifier::external_body]
fn frame_texture_view(frame: &wgpu::SurfaceTexture) -> (r: wgpu::TextureView) {
    frame.texture.create_view(&wgpu::TextureViewDescriptor::default())
}

/// Relies on `Device::create_command_encoder`: an empty command encoder.
#[verifier::external_body]
fn create_encoder(device: &wgpu::Device) -> (r: wgpu::CommandEncoder) {
    device.create_command_encoder(&wgpu::CommandEncoderDescriptor { label: None })
}

/// Relies on `CommandEncoder::begin_render_pass`: a pass over a frame's view,
/// of the encoder's device, that first clears it to `clear` and stores what
/// is drawn. The pass borrows the encoder until it ends, so the encoder
/// cannot be finished before.
#[verifier::external_body]
pub(crate) fn begin_pass<'e>(encoder: &'e mut Encoder, view: &FrameView, clear: ClearColor) -> (r: Pass<'e>)
    requires
        view.spec_device() == old(encoder).spec_device(),
    ensures
        r.spec_device() == old(encoder).spec_device(),
        final(encoder).spec_device() == old(encoder).spec_device(),
        r.spec_target() == view.spec_format(),
        !r.spec_pipeline_set(),
        r.spec_clear() == clear,
        r.spec_draws().len() == 0,
{
    let color = match clear { ClearColor::Black => wgpu::Color::BLACK };
    let ops = wgpu::Operations { load: wgpu::LoadOp::Clear(color), store: wgpu::StoreOp::Store };
    let attachment = wgpu::RenderPassColorAttachment { view: &view.view, resolve_target: None, ops };
    let pass = encoder.encoder.begin_render_pass(&wgpu::RenderPassDescriptor {
        label: None, color_attachments: &[Some(attachment)], depth_stencil_attachment: None,
        timestamp_writes: None, occlusion_query_set: None,
    });
    Pass {
        pass, device: Ghost(encoder.spec_device()), target: Ghost(view.spec_format()),
        pipeline_set: Ghost(false), clear: Ghost(clear), draws: Ghost(Seq::empty()),
    }
}

/// Relies on `RenderPass::set_pipeline`: later draws of the pass use
/// `pipeline`, of the pass's device, whose colour target matches the pass's.
#[verifier::external_body]
pub(crate) fn set_pipeline<'e>(pass: &mut Pass<'e>, pipeline: &TrianglePipeline)
    requires
        pipeline.spec_device() == old(pass).spec_device(),
        pipeline.spec_format() == old(pass).spec_target(),
    ensures
        final(pass).spec_pipeline_set(),
        final(pass).spec_device() == old(pass).spec_device(),
        final(pass).spec_target() == old(pass).spec_target(),
        final(pass).spec_clear() == old(pass).spec_clear(),
        final(pass).spec_draws() == old(pass).spec_draws(),
{
    pass.pass.set_pipeline(&pipeline.pipeline);
    pass.pipeline_set = Ghost(true);
}

/// Relies on `RenderPass::draw`: a non-indexed draw of vertices
/// `0..vertex_count` and instances `0..instance_count`, after a pipeline is set.
#[verifier::external_body]
pub(crate) fn draw<'e>(pass: &mut Pass<'e>, vertex_count: u32, instance_count: u32)
    requires
        old(pass).spec_pipeline_set(),
    ensures
        final(pass).spec_pipeline_set(),
        final(pass).spec_device() == old(pass).spec_device(),
        final(pass).spec_target() == old(pass).spec_target(),
        final(pass).spec_clear() == old(pass).spec_clear(),
        final(pass).spec_draws() == old(pass).spec_draws().push((vertex_count, instance_count)),
{
    pass.pass.draw(0..vertex_count, 0..instance_count);
    pass.draws = Ghost(pass.draws@.push((vertex_count, instance_count)));
}

/// Relies on the `Drop` of `RenderPass`: ends the pass, which records in its
/// encoder a clear of its target and its draws, and releases the encoder.
#[verifier::external_body]
pub(crate) fn end_pass<'e>(pass: Pass<'e>) -> (r: Ghost<(ClearColor, Seq<(u32, u32)>)>)
    ensures
        r@ == (pass.spec_clear(), pass.spec_draws()),
{
    let record = Ghost((pass.clear@, pass.draws@));
    drop(pass);
    record
}

/// Relies on `CommandEncoder::finish`: the recorded commands. No pass of the
/// encoder is open, since a pass borrows its encoder.
#[verifier::external_body]
fn finish_raw(encoder: wgpu::CommandEncoder) -> (r: wgpu::CommandBuffer) {
    encoder.finish()
}

/// Relies on `Queue::submit`: hands one command buffer of the queue's device
/// to the queue.
#[verifier::external_body]
pub(crate) fn submit(gpu: &mut GpuDevice, commands: Commands)
    requires
        commands.spec_device() == old(gpu).spec_device(),
    ensures
        final(gpu).spec_submissions() == old(gpu).spec_submissions() + 1,
        final(gpu).spec_device() == old(gpu).spec_device(),
        final(gpu).spec_max_dimension() == old(gpu).spec_max_dimension(),
{
    gpu.queue.submit(std::iter::once(commands.buffer));
    gpu.submissions = Ghost(gpu.submissions@ + 1);
}

/// Relies on `SurfaceTexture::present`: shows a held frame on the surface it
/// came from, which then holds none.
#[verifier::external_body]
pub(crate) fn present(frame: Frame, surface: &mut PreviewSurface)
    requires
        frame.spec_surface() == old(surface).spec_surface(),
    ensures
        !final(surface).spec_frame_held(),
        final(surface).spec_presented() == old(surface).spec_presented() + 1,
        final(surface).spec_configured() == old(surface).spec_configured(),
        final(surface).spec_surface() == old(surface).spec_surface(),
        final(surface).spec_device() == old(surface).spec_device(),
        final(surface).spec_formats() == old(surface).spec_formats(),
        final(surface).spec_alpha_modes() == old(surface).spec_alpha_modes(),
        final(surface).spec_present_modes() == old(surface).spec_present_modes(),
{
    frame.texture.present();
    surface.frame_held = Ghost(false);
    surface.presented = Ghost(surface.presented@ + 1);
}

/// Relies on `Device::create_texture`: a 2D, single-mip, single-sample
/// texture of `format` and `width` by `height` texels that can be sampled and
/// copied into; `wgpu` refuses a zero size and one above the device's limit.
#[verifier::external_body]
fn create_texture(
    gpu: &GpuDevice,
    label: Option<&str>,
    width: u32,
    height: u32,
    format: TexelFormat,
) -> (r: GpuTexture)
    requires
        0 < width <= gpu.spec_max_dimension(),
        0 < height <= gpu.spec_max_dimension(),
{
    gpu.device.create_texture(&wgpu::TextureDescriptor {
        label, size: wgpu::Extent3d { width, height, depth_or_array_layers: 1 },
        mip_level_count: 1, sample_count: 1, dimension: wgpu::TextureDimension::D2,
        format: match format { TexelFormat::Rgba8UnormSrgb => wgpu::TextureFormat::Rgba8UnormSrgb },
        usage: wgpu::TextureUsages::TEXTURE_BINDING | wgpu::TextureUsages::COPY_DST,
        view_formats: &[],
    })
}

/// Relies on `Queue::write_texture`: uploads the first `bytes_per_row *
/// height` bytes of `rgba`, rows of `bytes_per_row` bytes, into the whole of
/// a texture of four bytes a texel made on the queue's device.
#[verifier::external_body]
pub(crate) fn write_rgba_texture(gpu: &GpuDevice, texture: &mut RgbaTexture, rgba: &[u8], bytes_per_row: u32)
    requires
        old(texture).spec_device() == gpu.spec_device(),
        old(texture).spec_format() == TexelFormat::Rgba8UnormSrgb,
        bytes_per_row == 4 * old(texture).spec_width(),
        rgba@.len() >= bytes_per_row * old(texture).spec_height(),
    ensures
        final(texture).spec_texels() == Some(
            rgba@.subrange(0, bytes_per_row * old(texture).spec_height()),
        ),
        final(texture).spec_raw() == old(texture).spec_raw(),
        final(texture).spec_width() == old(texture).spec_width(),
        final(texture).spec_height() == old(texture).spec_height(),
        final(texture).spec_format() == old(texture).spec_format(),
        final(texture).spec_device() == old(texture).spec_device(),
{
    let (width, height) = (texture.width, texture.height);
    let target = wgpu::ImageCopyTexture {
        aspect: wgpu::TextureAspect::All, texture: &texture.texture, mip_level: 0,
        origin: wgpu::Origin3d::ZERO,
    };
    let layout = wgpu::ImageDataLayout {
        offset: 0, bytes_per_row: Some(bytes_per_row), rows_per_image: Some(height),
    };
    let size = wgpu::Extent3d { width, height, depth_or_array_layers: 1 };
    gpu.queue.write_texture(target, rgba, layout, size);
}

/// Relies on `Texture::create_view`: a default view of the whole texture.
#[verifier::external_body]
fn raw_texture_view(texture: &GpuTexture) -> (r: wgpu::TextureView) {
    texture.create_view(&wgpu::TextureViewDescriptor::default())
}

/// Relies on `Device::create_sampler`: a sampler with `address` on all three
/// axes and the given magnification, minification and mipmap filters.
#[verifier::external_body]
fn create_sampler(
    gpu: &GpuDevice,
    address: AddressMode,
    mag: FilterMode,
    min: FilterMode,
    mipmap: FilterMode,
) -> (r: wgpu::Sampler) {
    let a = match address {
        AddressMode::ClampToEdge => wgpu::AddressMode::ClampToEdge,
        AddressMode::Repeat => wgpu::AddressMode::Repeat,
        AddressMode::MirrorRepeat => wgpu::AddressMode::MirrorRepeat,
    };
    let [mag, min, mip] = [mag, min, mipmap].map(|m| match m {
        FilterMode::Nearest => wgpu::FilterMode::Nearest,
        FilterMode::Linear => wgpu::FilterMode::Linear,
    });
    gpu.device.create_sampler(&wgpu::SamplerDescriptor {
        address_mode_u: a, address_mode_v: a, address_mode_w: a, mag_filter: mag,
        min_filter: min, mipmap_filter: mip, ..Default::default()
    })
}

/// The preview triangle's pipeline for colour targets of `format`, one of the
/// formats `surface` reported for `gpu`: the fixed shader's two entry points
/// with an empty layout.
pub(crate) fn build_triangle_pipeline(
    gpu: &GpuDevice,
    surface: &PreviewSurface,
    format: wgpu::TextureFormat,
) -> (r: TrianglePipeline)
    requires
        surface.spec_device() == gpu.spec_device(),
        surface.spec_formats().contains(format),
    ensures
        r.spec_format() == format,
        r.spec_device() == gpu.spec_device(),
        r.spec_shader_source() == TRIANGLE_SHADER@,
        r.spec_vertex_entry() == VERTEX_ENTRY@,
        r.spec_fragment_entry() == FRAGMENT_ENTRY@,
{
    let ghost made_on = gpu.device;
    let shader = TriangleShader {
        module: create_shader(&gpu.device, TRIANGLE_SHADER),
        device: Ghost(made_on),
        source: Ghost(TRIANGLE_SHADER@),
    };
    let layout = EmptyLayout { layout: create_empty_pipeline_layout(&gpu.device), device: Ghost(made_on) };
    let pipeline = create_pipeline(gpu, &layout, &shader, VERTEX_ENTRY, FRAGMENT_ENTRY, format, surface);
    TrianglePipeline {
        pipeline,
        device: Ghost(made_on),
        format: Ghost(format),
        shader_source: Ghost(TRIANGLE_SHADER@),
        vertex_entry: Ghost(VERTEX_ENTRY@),
        fragment_entry: Ghost(FRAGMENT_ENTRY@),
    }
}

/// The next frame of a configured surface of which no frame is held.
pub(crate) fn next_frame(surface: &mut PreviewSurface) -> (r: Result<Frame, wgpu::SurfaceError>)
    requires
        old(surface).spec_configured() is Some,
        !old(surface).spec_frame_held(),
    ensures
        final(surface).spec_frame_held() == r is Ok,
        r is Ok ==> r->Ok_0.spec_format() == old(surface).spec_configured()->0.format
            && r->Ok_0.spec_surface() == old(surface).spec_surface()
            && r->Ok_0.spec_device() == old(surface).spec_device(),
        final(surface).spec_presented() == old(surface).spec_presented(),
        final(surface).spec_configured() == old(surface).spec_configured(),
        final(surface).spec_surface() == old(surface).spec_surface(),
        final(surface).spec_device() == old(surface).spec_device(),
        final(surface).spec_formats() == old(surface).spec_formats(),
        final(surface).spec_alpha_modes() == old(surface).spec_alpha_modes(),
        final(surface).spec_present_modes() == old(surface).spec_present_modes(),
{
    let ghost format = surface.configured@->0.format;
    let ghost of = surface.surface;
    let ghost made_on = surface.device@;
    match acquire_frame(surface) {
        Ok(texture) => Ok(Frame { texture, format: Ghost(format), surface: Ghost(of), device: Ghost(made_on) }),
        Err(e) => Err(e),
    }
}

/// A view of a frame, in the frame's format.
pub(crate) fn frame_view(frame: &Frame) -> (r: FrameView)
    ensures
        r.spec_format() == frame.spec_format(),
        r.spec_device() == frame.spec_device(),
{
    FrameView { view: frame_texture_view(&frame.texture), format: Ghost(frame.spec_format()), device: Ghost(frame.spec_device()) }
}

/// An empty command encoder of `gpu`.
pub(crate) fn new_encoder(gpu: &GpuDevice) -> (r: Encoder)
    ensures
        r.spec_device() == gpu.spec_device(),
{
    let ghost made_on = gpu.device;
    Encoder { encoder: create_encoder(&gpu.device), device: Ghost(made_on) }
}

/// The commands an encoder recorded.
pub(crate) fn finish_encoder(encoder: Encoder) -> (r: Commands)
    ensures
        r.spec_device() == encoder.spec_device(),
{
    Commands { buffer: finish_raw(encoder.encoder), device: Ghost(encoder.spec_device()) }
}

/// A new texture of `gpu`, of `format` and `width` by `height` texels, with
/// nothing uploaded yet.
pub(crate) fn new_rgba_texture(
    gpu: &GpuDevice,
    label: Option<&str>,
    width: u32,
    height: u32,
    format: TexelFormat,
) -> (r: RgbaTexture)
    requires
        0 < width <= gpu.spec_max_dimension(),
        0 < height <= gpu.spec_max_dimension(),
    ensures
        r.spec_width() == width,
        r.spec_height() == height,
        r.spec_format() == format,
        r.spec_device() == gpu.spec_device(),
        r.spec_texels() is None,
{
    let ghost made_on = gpu.device;
    RgbaTexture {
        texture: create_texture(gpu, label, width, height, format),
        width,
        height,
        format,
        device: Ghost(made_on),
        texels: Ghost(None),
    }
}

/// The default view of a texture.
pub(crate) fn texture_view(texture: &RgbaTexture) -> (r: RgbaTextureView)
    ensures
        r.spec_texture() == texture.spec_raw(),
{
    let ghost of = texture.texture;
    RgbaTextureView { view: raw_texture_view(&texture.texture), texture: Ghost(of) }
}

/// A sampler of `gpu` made with the given settings.
pub(crate) fn new_sampler(
    gpu: &GpuDevice,
    address_mode: AddressMode,
    mag_filter: FilterMode,
    min_filter: FilterMode,
    mipmap_filter: FilterMode,
) -> (r: TextureSampler)
    ensures
        r.spec_settings() == (address_mode, mag_filter, min_filter, mipmap_filter),
{
    let sampler = create_sampler(gpu, address_mode, mag_filter, min_filter, mipmap_filter);
    TextureSampler { sampler, address_mode, mag_filter, min_filter, mipmap_filter }
}

} // verus!
