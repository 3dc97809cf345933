//! The engine: the state that decides what is configured, uploaded and
//! drawn. It owns no GPU object; it says what the owner of the GPU objects
//! has to do with them.

use crate::bytes::{is_memory_of_indices, is_memory_of_words};
use crate::camera::{AspectRatio, CameraUniform};
use crate::challenge::{successor, Challenge, ChallengeEnum};
use crate::err::{Error, SurfaceError};
use crate::event::{ElementState, KeyboardInput, PhysicalSize, VirtualKeyCode, WindowEvent};
use crate::frame::{encode_pass, frame_commands, RenderCommand};
use crate::mat4x4_uniform::{identity_words, words_of};
use crate::model::ModelUniform;
use crate::resources::{
    buffer_label, buffer_size, buffer_usage, Buffer, BufferInitDescriptor,
};
use crate::texture::TextureUsages;
use crate::vertex::{
    challenge2_indices, flattened, index_buffer_contents, indices, indices_challenge2,
    primary_indices, vertex_buffer_contents, vertex_table,
};
use vstd::prelude::*;

verus! {

/// When frames are shown.
#[derive(Copy, Clone, Debug, PartialEq, Eq, Structural)]
pub enum PresentMode {
    AutoVsync,
    AutoNoVsync,
    Fifo,
    FifoRelaxed,
    Immediate,
    Mailbox,
}

/// How the surface is configured. Its pixel format is the first one that
/// the adapter supports.
#[derive(Copy, Clone, Debug, PartialEq, Eq, Structural)]
pub struct SurfaceConfiguration {
    pub usage: TextureUsages,
    pub width: u32,
    pub height: u32,
    pub present_mode: PresentMode,
}

/// A write into a buffer that exists: `data` replaces the bytes from
/// `offset` on.
#[derive(Debug)]
pub struct BufferWrite {
    pub buffer: Buffer,
    pub offset: u64,
    pub data: Vec<u8>,
}

/// The engine.
#[derive(Debug)]
pub struct State {
    config: SurfaceConfiguration,
    size: PhysicalSize,
    challenge: Challenge,
    num_indices: u32,
    num_indices_challenge2: u32,
    aspect: AspectRatio,
    camera_uniform: CameraUniform,
    model_uniform: ModelUniform,
}

/// The engine as a value.
pub struct StateView {
    /// The configuration of the surface.
    pub config: SurfaceConfiguration,
    /// The size of the window as it was last reported and accepted.
    pub size: PhysicalSize,
    /// The render mode.
    pub challenge: Option<ChallengeEnum>,
    /// The number of indices of the primary triangulation.
    pub num_indices: u32,
    /// The number of indices of the alternative triangulation.
    pub num_indices_challenge2: u32,
    /// The aspect ratio of the camera.
    pub aspect: AspectRatio,
    /// The words of the camera uniform.
    pub camera_uniform: Seq<u32>,
    /// The words of the model uniform.
    pub model_uniform: Seq<u32>,
}

impl BufferWrite {
    /// A write that replaces a whole uniform buffer with the given words,
    /// as they lie in memory: it starts at the start of the buffer, ends at
    /// its end, and goes to a buffer that takes writes.
    pub open spec fn replaces(self, buffer: Buffer, words: Seq<u32>) -> bool {
        &&& self.buffer == buffer
        &&& self.offset == 0
        &&& self.data@.len() == buffer_size(buffer)
        &&& buffer_usage(buffer).copy_dst
        &&& is_memory_of_words(self.data@, words)
    }
}

/// Whether the bytes are what a buffer of the engine holds at first: the
/// geometry as it lies in memory, or the current words of a uniform.
pub open spec fn is_initial_contents(state: StateView, buffer: Buffer, bytes: Seq<u8>) -> bool {
    match buffer {
        Buffer::Vertex => is_memory_of_words(bytes, flattened(vertex_table())),
        Buffer::Index => is_memory_of_indices(bytes, primary_indices()),
        Buffer::IndexChallenge2 => is_memory_of_indices(bytes, challenge2_indices()),
        Buffer::Camera => is_memory_of_words(bytes, state.camera_uniform),
        Buffer::Model => is_memory_of_words(bytes, state.model_uniform),
    }
}

/// The usage of the surface texture: it is rendered to, and nothing else.
pub open spec fn surface_usage() -> TextureUsages {
    TextureUsages {
        copy_src: false,
        copy_dst: false,
        texture_binding: false,
        storage_binding: false,
        render_attachment: true,
    }
}

/// A dimension that a surface can be configured with: the dimension itself,
/// or one where it is zero.
pub open spec fn clamped(x: u32) -> u32 {
    if x == 0 {
        1
    } else {
        x
    }
}

impl StateView {
    /// What holds of the engine at all times: the surface has an area, the
    /// camera has the aspect ratio of the surface, frames are shown in step
    /// with the display, and the index counts are those of the two
    /// triangulations.
    pub open spec fn valid(self) -> bool {
        &&& self.config.width >= 1
        &&& self.config.height >= 1
        &&& self.config.usage == surface_usage()
        &&& self.config.present_mode == PresentMode::AutoVsync
        &&& self.aspect == (AspectRatio { width: self.config.width, height: self.config.height })
        &&& self.num_indices == primary_indices().len()
        &&& self.num_indices_challenge2 == challenge2_indices().len()
        &&& self.camera_uniform.len() == 16
        &&& self.model_uniform.len() == 16
    }

    /// The engine at its start, for a window of the given size: the surface
    /// has the size of the window, with each dimension raised to one where
    /// the window reports zero; the render mode is the default scene; both
    /// uniforms hold the identity.
    pub open spec fn initial(size: PhysicalSize) -> StateView {
        StateView {
            config: SurfaceConfiguration {
                usage: surface_usage(),
                width: clamped(size.width),
                height: clamped(size.height),
                present_mode: PresentMode::AutoVsync,
            },
            size,
            challenge: None,
            num_indices: primary_indices().len() as u32,
            num_indices_challenge2: challenge2_indices().len() as u32,
            aspect: AspectRatio { width: clamped(size.width), height: clamped(size.height) },
            camera_uniform: identity_words(),
            model_uniform: identity_words(),
        }
    }

    /// The engine after the window reported a new size. A size without area
    /// changes nothing. Any other size becomes the size of the window and
    /// of the surface, and its ratio the aspect ratio of the camera.
    pub open spec fn resized(self, new_size: PhysicalSize) -> StateView {
        if new_size.width == 0 || new_size.height == 0 {
            self
        } else {
            StateView {
                config: SurfaceConfiguration {
                    width: new_size.width,
                    height: new_size.height,
                    ..self.config
                },
                size: new_size,
                aspect: AspectRatio { width: new_size.width, height: new_size.height },
                ..self
            }
        }
    }

    /// The engine after an event of the window: the toggle event advances
    /// the render mode by one, every other event changes nothing.
    pub open spec fn after_input(self, event: WindowEvent) -> StateView {
        if event.is_toggle() {
            StateView { challenge: successor(self.challenge), ..self }
        } else {
            self
        }
    }
}

impl View for State {
    type V = StateView;

    closed spec fn view(&self) -> StateView {
        StateView {
            config: self.config,
            size: self.size,
            challenge: self.challenge@,
            num_indices: self.num_indices,
            num_indices_challenge2: self.num_indices_challenge2,
            aspect: self.aspect,
            camera_uniform: self.camera_uniform@,
            model_uniform: self.model_uniform@,
        }
    }
}

impl State {
    #[verifier::type_invariant]
    spec fn well_formed(self) -> bool {
        self@.valid()
    }

    /// The engine for a window of the given size: see
    /// [`StateView::initial`].
    pub fn new(size: PhysicalSize) -> (state: Self)
        ensures
            state@ == StateView::initial(size),
            state@.valid(),
    {
        let config = SurfaceConfiguration {
            usage: TextureUsages {
                copy_src: false,
                copy_dst: false,
                texture_binding: false,
                storage_binding: false,
                render_attachment: true,
            },
            width: Self::valid_dim(size.width),
            height: Self::valid_dim(size.height),
            present_mode: PresentMode::AutoVsync,
        };

        let num_indices: u32 = 9;
        let num_indices_challenge2: u32 = 15;

        let aspect = AspectRatio { width: config.width, height: config.height };

        let camera_uniform = CameraUniform::default();
        let model_uniform = ModelUniform::default();
        let challenge = Challenge::default();

        Self {
            config,
            size,
            challenge,
            num_indices,
            num_indices_challenge2,
            aspect,
            camera_uniform,
            model_uniform,
        }
    }

    /// Takes a new size of the window: see [`StateView::resized`]. Returns
    /// the configuration that the surface has to be given, or nothing where
    /// the size has no area and nothing changed. After a change the camera
    /// has a new aspect ratio, so its uniform is due for an update before
    /// the surface is configured.
    pub fn resize(&mut self, new_size: PhysicalSize) -> (configure: Option<SurfaceConfiguration>)
        ensures
            final(self)@ == old(self)@.resized(new_size),
            final(self)@.valid(),
            configure == if new_size.width == 0 || new_size.height == 0 {
                None
            } else {
                Some(final(self)@.config)
            },
    {
        proof {
            use_type_invariant(&*self);
        }
        if new_size.width == 0 || new_size.height == 0 {
            return None;
        }
        let mut config = self.config;
        config.width = new_size.width;
        config.height = new_size.height;
        *self = State {
            config,
            size: new_size,
            challenge: self.challenge,
            num_indices: self.num_indices,
            num_indices_challenge2: self.num_indices_challenge2,
            aspect: AspectRatio { width: new_size.width, height: new_size.height },
            camera_uniform: self.camera_uniform,
            model_uniform: self.model_uniform,
        };
        Some(config)
    }

    /// Takes an event of the window: see [`StateView::after_input`]. Returns
    /// whether the event was the toggle event and so was used up. Any other
    /// event is left to whoever steers the camera.
    pub fn input(&mut self, event: &WindowEvent) -> (handled: bool)
        ensures
            final(self)@ == old(self)@.after_input(*event),
            final(self)@.valid(),
            handled == event.is_toggle(),
    {
        proof {
            use_type_invariant(&*self);
        }
        match event {
            WindowEvent::KeyboardInput {
                input:
                    KeyboardInput {
                        state: ElementState::Pressed,
                        virtual_keycode: Some(VirtualKeyCode::Space),
                    },
            } => {
                self.challenge = self.challenge.rotate();
                true
            },
            _ => false,
        }
    }

    /// Takes the view-projection transform that the camera has now, and
    /// returns the write that brings the camera buffer up to date.
    pub fn update(&mut self, view_proj: [[u32; 4]; 4]) -> (write: BufferWrite)
        ensures
            final(self)@ == (StateView { camera_uniform: words_of(view_proj), ..old(self)@ }),
            final(self)@.valid(),
            write.replaces(Buffer::Camera, words_of(view_proj)),
    {
        self.update_camera_uniform(view_proj)
    }

    fn update_camera_uniform(&mut self, view_proj: [[u32; 4]; 4]) -> (write: BufferWrite)
        ensures
            final(self)@ == (StateView { camera_uniform: words_of(view_proj), ..old(self)@ }),
            final(self)@.valid(),
            write.replaces(Buffer::Camera, words_of(view_proj)),
    {
        proof {
            use_type_invariant(&*self);
        }
        let mut uniform = self.camera_uniform;
        uniform.update_view_proj(view_proj);
        self.camera_uniform = uniform;
        BufferWrite { buffer: Buffer::Camera, offset: 0, data: uniform.contents() }
    }

    /// Takes the transform that the model has now, and returns the write
    /// that brings the model buffer up to date.
    pub fn update_model(&mut self, model: [[u32; 4]; 4]) -> (write: BufferWrite)
        ensures
            final(self)@ == (StateView { model_uniform: words_of(model), ..old(self)@ }),
            final(self)@.valid(),
            write.replaces(Buffer::Model, words_of(model)),
    {
        proof {
            use_type_invariant(&*self);
        }
        let mut uniform = self.model_uniform;
        uniform.update_model(model);
        self.model_uniform = uniform;
        BufferWrite { buffer: Buffer::Model, offset: 0, data: uniform.contents() }
    }

    /// The commands of the next frame. Where no surface texture could be
    /// acquired, the failure is handed on and nothing is drawn, submitted
    /// or presented. Otherwise the frame of the render mode is drawn: see
    /// [`frame_commands`].
    pub fn render(&self, acquired: Result<(), SurfaceError>) -> (frame: Result<
        Vec<RenderCommand>,
        Error,
    >)
        ensures
            self@.valid(),
            match acquired {
                Ok(_) => frame matches Ok(commands) && commands@ == frame_commands(
                    self@.challenge,
                    self@.num_indices,
                    self@.num_indices_challenge2,
                ),
                Err(err) => frame == Err::<Vec<RenderCommand>, Error>(Error::WgpuSurfaceError(err)),
            },
    {
        proof {
            use_type_invariant(self);
        }
        if let Err(err) = acquired {
            return Err(Error::from(err));
        }
        let mut commands: Vec<RenderCommand> = Vec::new();
        commands.push(RenderCommand::BeginRenderPass);
        encode_pass(
            self.challenge.into(),
            self.num_indices,
            self.num_indices_challenge2,
            &mut commands,
        );
        commands.push(RenderCommand::EndRenderPass);
        commands.push(RenderCommand::Submit);
        commands.push(RenderCommand::Present);
        proof {
            assert(commands@ =~= frame_commands(
                self@.challenge,
                self@.num_indices,
                self@.num_indices_challenge2,
            ));
        }
        Ok(commands)
    }

    /// What a buffer of the engine is made from: its label, its usage, and
    /// as contents the geometry or the words that the uniform holds now.
    pub fn buffer(&self, buffer: Buffer) -> (descriptor: BufferInitDescriptor)
        ensures
            descriptor.label@ == buffer_label(buffer),
            descriptor.usage == buffer_usage(buffer),
            descriptor.contents@.len() == buffer_size(buffer),
            is_initial_contents(self@, buffer, descriptor.contents@),
    {
        let contents = match buffer {
            Buffer::Vertex => vertex_buffer_contents(),
            Buffer::Index => index_buffer_contents(indices().as_slice()),
            Buffer::IndexChallenge2 => index_buffer_contents(indices_challenge2().as_slice()),
            Buffer::Camera => self.camera_uniform.contents(),
            Buffer::Model => self.model_uniform.contents(),
        };
        BufferInitDescriptor { label: buffer.label(), contents, usage: buffer.usage() }
    }

    /// The size of the window as it was last reported and accepted.
    #[inline]
    pub fn get_size(&self) -> (size: PhysicalSize)
        ensures
            size == self@.size,
            self@.valid(),
    {
        proof {
            use_type_invariant(self);
        }
        self.size
    }

    /// The configuration of the surface. It always has an area.
    pub fn config(&self) -> (config: SurfaceConfiguration)
        ensures
            config == self@.config,
            config.width >= 1,
            config.height >= 1,
    {
        proof {
            use_type_invariant(self);
        }
        self.config
    }

    /// The render mode.
    pub fn challenge(&self) -> (challenge: Challenge)
        ensures
            challenge@ == self@.challenge,
    {
        self.challenge
    }

    /// The aspect ratio of the camera: that of the surface, and so positive.
    pub fn aspect(&self) -> (aspect: AspectRatio)
        ensures
            aspect == self@.aspect,
            aspect.is_positive(),
    {
        proof {
            use_type_invariant(self);
        }
        self.aspect
    }

    /// The camera uniform.
    pub fn camera_uniform(&self) -> (uniform: CameraUniform)
        ensures
            uniform@ == self@.camera_uniform,
    {
        self.camera_uniform
    }

    /// The model uniform.
    pub fn model_uniform(&self) -> (uniform: ModelUniform)
        ensures
            uniform@ == self@.model_uniform,
    {
        self.model_uniform
    }

    /// The number of indices of the primary triangulation.
    pub fn num_indices(&self) -> (n: u32)
        ensures
            n == self@.num_indices,
            n == primary_indices().len(),
    {
        proof {
            use_type_invariant(self);
        }
        self.num_indices
    }

    /// The number of indices of the alternative triangulation.
    pub fn num_indices_challenge2(&self) -> (n: u32)
        ensures
            n == self@.num_indices_challenge2,
            n == challenge2_indices().len(),
    {
        proof {
            use_type_invariant(self);
        }
        self.num_indices_challenge2
    }

    /// A dimension that a surface can be configured with: the dimension
    /// itself, or one where it is zero.
    #[inline]
    pub fn valid_dim(x: u32) -> (dim: u32)
        ensures
            dim == clamped(x),
            dim >= 1,
    {
        if x < 1 {
            1
        } else {
            x
        }
    }
}

/// The adapter that was found, or the error that says that none is
/// compatible with the surface.
pub fn require_adapter<A>(adapter: Option<A>) -> (found: Result<A, Error>)
    ensures
        found == match adapter {
            Some(adapter) => Ok::<A, Error>(adapter),
            None => Err::<A, Error>(Error::RequestAdapterError),
        },
{
    match adapter {
        Some(adapter) => Ok(adapter),
        None => Err(Error::RequestAdapterError),
    }
}

/// The pixel format of the surface: the first of those that the adapter
/// supports for it.
pub fn choose_format<F: Copy>(supported: &[F]) -> (format: F)
    requires
        supported@.len() > 0,
    ensures
        format == supported@[0],
{
    supported[0]
}

/// A size without area changes nothing at all: neither the size of the
/// window, nor the surface, nor the camera, nor the render mode.
pub proof fn lemma_resize_without_area(state: StateView, new_size: PhysicalSize)
    requires
        new_size.width == 0 || new_size.height == 0,
    ensures
        state.resized(new_size) == state,
{
}

/// A size with an area becomes the size of the window and of the surface,
/// and its ratio the aspect ratio of the camera; the render mode, the index
/// counts and the uniforms stay.
pub proof fn lemma_resize_with_area(state: StateView, new_size: PhysicalSize)
    requires
        new_size.width >= 1,
        new_size.height >= 1,
    ensures
        state.resized(new_size).size == new_size,
        state.resized(new_size).config.width == new_size.width,
        state.resized(new_size).config.height == new_size.height,
        state.resized(new_size).aspect == (AspectRatio {
            width: new_size.width,
            height: new_size.height,
        }),
        state.resized(new_size).challenge == state.challenge,
        state.resized(new_size).camera_uniform == state.camera_uniform,
        state.resized(new_size).model_uniform == state.model_uniform,
        state.resized(new_size).resized(new_size) == state.resized(new_size),
{
}

/// The engine is valid from its start, and stays valid whatever size is
/// reported and whatever event comes in: the surface never loses its area.
pub proof fn lemma_engine_stays_valid(
    state: StateView,
    size: PhysicalSize,
    new_size: PhysicalSize,
    event: WindowEvent,
)
    requires
        state.valid(),
    ensures
        StateView::initial(size).valid(),
        state.resized(new_size).valid(),
        state.after_input(event).valid(),
        state.resized(new_size).config.width >= 1,
        state.resized(new_size).config.height >= 1,
        state.resized(new_size).aspect.is_positive(),
{
}

/// Events touch the render mode only; sizes touch everything but the render
/// mode. So the two can come in any order.
pub proof fn lemma_input_and_resize_commute(
    state: StateView,
    new_size: PhysicalSize,
    event: WindowEvent,
)
    ensures
        state.resized(new_size).after_input(event) == state.after_input(event).resized(new_size),
{
}

} // verus!
