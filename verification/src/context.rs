//! The device context: the capability descriptor, the mirrored device
//! state, the command log, the fence registry and the query-use registry.
//!
//! The mirror holds the last value applied to every tracked axis of device
//! state, grouped by axis.  It is mutated only by the state synchronizer and
//! the uniform binder, and always together with the command that changes the
//! real state, so that it never falls out of step with the device.

use vstd::prelude::*;
use crate::commands::DeviceCommand;
use crate::fences::FenceRegistry;
use crate::params::{ComparisonFunction, ConditionMode, Face, PolygonMode, StencilOperation};
use crate::params::BlendEquation;
use crate::params::LinearBlendingFactor;

verus! {

/// The limits and optional features of the active device.
#[derive(Clone, Copy, Debug, PartialEq, Eq)]
pub struct Capabilities {
    /// Largest allowed number of vertices per tessellation patch, or `None`
    /// when the device has no tessellation stage.
    pub max_patch_vertices: Option<u16>,
    /// Number of texture units that can be bound at once.
    pub max_combined_texture_image_units: u32,
    /// Number of indexed uniform-buffer binding points.
    pub max_uniform_buffer_bindings: u32,
    /// Largest allowed viewport width and height.
    pub max_viewport_dims: (u32, u32),
    /// Whether the device speaks the third major revision of the command
    /// set (core conditional rendering, rasterizer discard, sRGB framebuffers).
    pub gl_version_3: bool,
    /// Whether it also speaks the revision that introduced sampler objects.
    pub gl_version_3_3: bool,
    /// Extension: sRGB framebuffer toggle on older devices.
    pub extension_framebuffer_srgb: bool,
    /// Extension: sampler objects on older devices.
    pub extension_sampler_objects: bool,
    /// Extension: transform feedback, whose rasterizer-discard toggle is
    /// the fallback on older devices.
    pub extension_transform_feedback: bool,
    /// Extension: conditional rendering on older devices.
    pub extension_conditional_render: bool,
    /// Whether fence synchronization objects can be created.
    pub fence_sync: bool,
}

impl Capabilities {
    /// Whether sampler objects can be bound at all.
    pub open spec fn supports_samplers(self) -> bool {
        self.gl_version_3_3 || self.extension_sampler_objects
    }

    /// Whether conditional rendering is available, through either entry point.
    pub open spec fn supports_conditional_render(self) -> bool {
        self.gl_version_3 || self.extension_conditional_render
    }

    /// Whether rasterizer discard is available, through either entry point.
    pub open spec fn supports_rasterizer_discard(self) -> bool {
        self.gl_version_3 || self.extension_transform_feedback
    }

    /// Whether the sRGB framebuffer toggle is available.
    pub open spec fn supports_framebuffer_srgb(self) -> bool {
        self.gl_version_3 || self.extension_framebuffer_srgb
    }
}

/// The mirrored depth axis.
#[derive(Clone, Copy, Debug, PartialEq, Eq)]
pub struct DepthMirror {
    /// Whether the depth test is enabled.
    pub test_enabled: bool,
    /// The depth comparison function.
    pub func: ComparisonFunction,
    /// Whether the depth buffer is written.
    pub write: bool,
    /// The depth range, as two device-encoded scalar patterns.
    pub range: (u32, u32),
}

/// The mirrored stencil state of one face.
#[derive(Clone, Copy, Debug, PartialEq, Eq)]
pub struct StencilFaceMirror {
    /// Comparison function, reference value and read mask.
    pub func: (ComparisonFunction, i32, u32),
    /// The write mask.
    pub write_mask: u32,
    /// The operations on fail, pass-depth-fail and pass.
    pub op: (StencilOperation, StencilOperation, StencilOperation),
}

/// The mirrored stencil axis: clockwise (back) and counter-clockwise
/// (front) faces tracked independently.
#[derive(Clone, Copy, Debug, PartialEq, Eq)]
pub struct StencilMirror {
    /// The back face (clockwise triangles).
    pub back: StencilFaceMirror,
    /// The front face (counter-clockwise triangles).
    pub front: StencilFaceMirror,
    /// Whether the stencil test is enabled.
    pub test_enabled: bool,
}

/// The mirrored blending axis.
#[derive(Clone, Copy, Debug, PartialEq, Eq)]
pub struct BlendMirror {
    /// Whether blending is enabled.
    pub enabled: bool,
    /// The blending equation.
    pub equation: BlendEquation,
    /// The source and destination factors.
    pub func: (LinearBlendingFactor, LinearBlendingFactor),
}

/// The mirrored face-culling axis.
#[derive(Clone, Copy, Debug, PartialEq, Eq)]
pub struct CullingMirror {
    /// Whether face culling is enabled.
    pub enabled: bool,
    /// Which face is culled.
    pub face: Face,
}

/// The mirrored viewport and scissor axis.
#[derive(Clone, Copy, Debug, PartialEq, Eq)]
pub struct ViewportMirror {
    /// The viewport rectangle, or `None` when not yet applied.
    pub viewport: Option<(u32, u32, u32, u32)>,
    /// The scissor rectangle, or `None` when not yet applied.
    pub scissor: Option<(u32, u32, u32, u32)>,
    /// Whether the scissor test is enabled.
    pub scissor_test_enabled: bool,
}

/// The mirrored query slots: the query object running in each, or 0.
#[derive(Clone, Copy, Debug, PartialEq, Eq)]
pub struct QueryMirror {
    /// The running exact samples query.
    pub samples_passed: u32,
    /// The running any-samples query.
    pub any_samples_passed: u32,
    /// The running conservative any-samples query.
    pub any_samples_passed_conservative: u32,
    /// The running time-elapsed query.
    pub time_elapsed: u32,
    /// The running primitives-generated query.
    pub primitives_generated: u32,
    /// The running transform-feedback-primitives-written query.
    pub transform_feedback_primitives_written: u32,
}

/// The mirrored object bindings.
#[derive(Clone, Copy, Debug, PartialEq, Eq)]
pub struct BindingMirror {
    /// The program in use, or 0 for none.
    pub program: u32,
    /// The framebuffer bound for drawing, or 0 for the default.
    pub draw_framebuffer: u32,
    /// The buffer bound as the indirect draw source, or 0 for none.
    pub draw_indirect_buffer: u32,
    /// Whether sRGB conversion on framebuffer writes is enabled.
    pub framebuffer_srgb_enabled: bool,
}

/// What one texture unit currently holds.
#[derive(Clone, Copy, Debug, PartialEq, Eq, Structural)]
pub struct TextureUnit {
    /// The bound texture, or 0 for none.
    pub texture: u32,
    /// The bound sampler object, or 0 for none.
    pub sampler: u32,
}

/// The mirrored texture units.
#[derive(Debug, PartialEq, Eq)]
pub struct TextureMirror {
    /// The active texture unit.
    pub active_unit: u32,
    /// What each unit holds; units beyond the end have never been touched
    /// and hold nothing.
    pub units: Vec<TextureUnit>,
}

/// The mirrored device state: the last value applied to every tracked axis.
#[derive(Debug, PartialEq, Eq)]
pub struct DeviceState {
    /// The depth axis.
    pub depth: DepthMirror,
    /// The stencil axis.
    pub stencil: StencilMirror,
    /// The blending axis.
    pub blend: BlendMirror,
    /// Which color channels are written.
    pub color_mask: (bool, bool, bool, bool),
    /// The line width, as a device-encoded scalar pattern.
    pub line_width: u32,
    /// The point size, as a device-encoded scalar pattern.
    pub point_size: u32,
    /// The face-culling axis.
    pub culling: CullingMirror,
    /// How polygons are rasterized.
    pub polygon_mode: PolygonMode,
    /// Whether multisample anti-aliasing is enabled.
    pub multisample_enabled: bool,
    /// Whether dithering is enabled.
    pub dither_enabled: bool,
    /// The viewport and scissor axis.
    pub viewport: ViewportMirror,
    /// Whether rasterizer discard is enabled.
    pub rasterizer_discard_enabled: bool,
    /// The number of vertices per tessellation patch.
    pub patch_vertices: u16,
    /// The query slots.
    pub queries: QueryMirror,
    /// The conditional-rendering predicate: the query and the requested
    /// mode, or `None` when conditional rendering is off.
    pub conditional_render: Option<(u32, ConditionMode)>,
    /// The object bindings.
    pub bindings: BindingMirror,
    /// The texture units.
    pub textures: TextureMirror,
}

impl DeviceState {
    /// The value `fresh` returns, up to the (empty) texture-unit vector,
    /// which spec code cannot construct and therefore takes as an argument.
    pub open spec fn fresh_spec(
        encoded_zero: u32,
        encoded_one: u32,
        units: Vec<TextureUnit>,
    ) -> DeviceState {
        DeviceState {
            depth: DepthMirror {
                test_enabled: false,
                func: ComparisonFunction::Less,
                write: true,
                range: (encoded_zero, encoded_one),
            },
            stencil: StencilMirror {
                back: StencilFaceMirror {
                    func: (ComparisonFunction::Always, 0i32, 0xffff_ffffu32),
                    write_mask: 0xffff_ffffu32,
                    op: (StencilOperation::Keep, StencilOperation::Keep, StencilOperation::Keep),
                },
                front: StencilFaceMirror {
                    func: (ComparisonFunction::Always, 0i32, 0xffff_ffffu32),
                    write_mask: 0xffff_ffffu32,
                    op: (StencilOperation::Keep, StencilOperation::Keep, StencilOperation::Keep),
                },
                test_enabled: false,
            },
            blend: BlendMirror {
                enabled: false,
                equation: BlendEquation::Addition,
                func: (LinearBlendingFactor::One, LinearBlendingFactor::Zero),
            },
            color_mask: (true, true, true, true),
            line_width: encoded_one,
            point_size: encoded_one,
            culling: CullingMirror { enabled: false, face: Face::Back },
            polygon_mode: PolygonMode::Fill,
            multisample_enabled: true,
            dither_enabled: true,
            viewport: ViewportMirror { viewport: None, scissor: None, scissor_test_enabled: false },
            rasterizer_discard_enabled: false,
            patch_vertices: 3u16,
            queries: QueryMirror {
                samples_passed: 0u32,
                any_samples_passed: 0u32,
                any_samples_passed_conservative: 0u32,
                time_elapsed: 0u32,
                primitives_generated: 0u32,
                transform_feedback_primitives_written: 0u32,
            },
            conditional_render: None,
            bindings: BindingMirror {
                program: 0u32,
                draw_framebuffer: 0u32,
                draw_indirect_buffer: 0u32,
                framebuffer_srgb_enabled: false,
            },
            textures: TextureMirror { active_unit: 0u32, units },
        }
    }

    /// The mirror of a freshly created context, matching the device's own
    /// initial state.  The caller supplies the device encodings of the
    /// scalars 0 and 1, with which the device initializes its depth range,
    /// line width and point size.
    pub fn fresh(encoded_zero: u32, encoded_one: u32) -> (r: DeviceState)
        ensures
            r == DeviceState::fresh_spec(encoded_zero, encoded_one, r.textures.units),
            r.textures.units@ == Seq::<TextureUnit>::empty(),
    {
        DeviceState {
            depth: DepthMirror {
                test_enabled: false,
                func: ComparisonFunction::Less,
                write: true,
                range: (encoded_zero, encoded_one),
            },
            stencil: StencilMirror {
                back: StencilFaceMirror {
                    func: (ComparisonFunction::Always, 0, 0xffff_ffff),
                    write_mask: 0xffff_ffff,
                    op: (StencilOperation::Keep, StencilOperation::Keep, StencilOperation::Keep),
                },
                front: StencilFaceMirror {
                    func: (ComparisonFunction::Always, 0, 0xffff_ffff),
                    write_mask: 0xffff_ffff,
                    op: (StencilOperation::Keep, StencilOperation::Keep, StencilOperation::Keep),
                },
                test_enabled: false,
            },
            blend: BlendMirror {
                enabled: false,
                equation: BlendEquation::Addition,
                func: (LinearBlendingFactor::One, LinearBlendingFactor::Zero),
            },
            color_mask: (true, true, true, true),
            line_width: encoded_one,
            point_size: encoded_one,
            culling: CullingMirror { enabled: false, face: Face::Back },
            polygon_mode: PolygonMode::Fill,
            multisample_enabled: true,
            dither_enabled: true,
            viewport: ViewportMirror { viewport: None, scissor: None, scissor_test_enabled: false },
            rasterizer_discard_enabled: false,
            patch_vertices: 3,
            queries: QueryMirror {
                samples_passed: 0,
                any_samples_passed: 0,
                any_samples_passed_conservative: 0,
                time_elapsed: 0,
                primitives_generated: 0,
                transform_feedback_primitives_written: 0,
            },
            conditional_render: None,
            bindings: BindingMirror {
                program: 0,
                draw_framebuffer: 0,
                draw_indirect_buffer: 0,
                framebuffer_srgb_enabled: false,
            },
            textures: TextureMirror { active_unit: 0, units: Vec::new() },
        }
    }
}

/// One device context: the capability descriptor, the state mirror, the
/// command log and the synchronization registries.
pub struct Context {
    /// The device's limits and optional features.
    pub capabilities: Capabilities,
    /// The mirrored device state.
    pub state: DeviceState,
    /// The commands issued so far, in issue order.
    pub commands: Vec<DeviceCommand>,
    /// The live fences, one at most per resource.
    pub fences: FenceRegistry,
    /// Names of query objects that have ever been started; a query can only
    /// be started when it has not been used before.
    pub used_queries: Vec<u32>,
    /// The next fence token to hand out.
    pub next_fence: u64,
}

impl Context {
    /// Everything but the mirror and the command log is as it was: the
    /// capability descriptor, the fences and the query registry.
    pub open spec fn same_registries(self, other: Context) -> bool {
        &&& self.capabilities == other.capabilities
        &&& self.fences == other.fences
        &&& self.used_queries == other.used_queries
        &&& self.next_fence == other.next_fence
    }

    /// Whether a query object has been started before.
    pub open spec fn query_used(self, id: u32) -> bool {
        self.used_queries@.contains(id)
    }

    /// Well-formed: the mirror does not exceed the device's limits, the
    /// capability flags are consistent, and the fence registry holds at
    /// most one fence per resource.
    pub open spec fn wf(self) -> bool {
        &&& self.state.textures.units@.len() <= self.capabilities.max_combined_texture_image_units
        &&& (self.capabilities.gl_version_3_3 ==> self.capabilities.gl_version_3)
        &&& self.fences.wf()
        &&& (!self.capabilities.supports_samplers() ==> forall|i: int|
            0 <= i < self.state.textures.units@.len() ==> (
            #[trigger] self.state.textures.units@[i]).sampler == 0)
    }

    /// A fresh context over a device with the given capabilities, with an
    /// empty command log and no live fences.  The two encodings are those of
    /// the scalars 0 and 1, as `DeviceState::fresh` takes them.
    pub fn new(capabilities: Capabilities, encoded_zero: u32, encoded_one: u32) -> (r: Context)
        requires
            capabilities.gl_version_3_3 ==> capabilities.gl_version_3,
        ensures
            r.wf(),
            r.capabilities == capabilities,
            r.state == DeviceState::fresh_spec(encoded_zero, encoded_one, r.state.textures.units),
            r.state.textures.units@ == Seq::<TextureUnit>::empty(),
            r.commands@ == Seq::<DeviceCommand>::empty(),
            forall|b: u32| r.fences.fence_of(b) == None::<u64>,
            forall|q: u32| !r.query_used(q),
            r.next_fence == 1u64,
    {
        let r = Context {
            capabilities,
            state: DeviceState::fresh(encoded_zero, encoded_one),
            commands: Vec::new(),
            fences: FenceRegistry::new(),
            used_queries: Vec::new(),
            next_fence: 1,
        };
        proof {
            assert(r.commands@ =~= Seq::<DeviceCommand>::empty());
            assert forall|q: u32| !r.query_used(q) by {
                assert(r.used_queries@.len() == 0);
            }
        }
        r
    }

    /// Appends one command to the log; nothing else changes.
    pub fn emit(&mut self, command: DeviceCommand)
        ensures
            final(self).commands@ == old(self).commands@.push(command),
            final(self).state == old(self).state,
            final(self).same_registries(*old(self)),
    {
        self.commands.push(command);
    }

    /// Checks whether a query object has been started before.
    pub fn is_query_used(&self, id: u32) -> (r: bool)
        ensures
            r == self.query_used(id),
    {
        let n = self.used_queries.len();
        let mut i: usize = 0;
        while i < n
            invariant
                n == self.used_queries@.len(),
                i <= n,
                forall|j: int| 0 <= j < i ==> self.used_queries@[j] != id,
            decreases n - i,
        {
            if self.used_queries[i] == id {
                return true;
            }
            i += 1;
        }
        false
    }

    /// Records that a query object has been started.
    pub fn mark_query_used(&mut self, id: u32)
        requires
            old(self).used_queries@.len() < usize::MAX,
        ensures
            final(self).used_queries@ == old(self).used_queries@.push(id),
            final(self).query_used(id),
            final(self).state == old(self).state,
            final(self).commands@ == old(self).commands@,
            final(self).capabilities == old(self).capabilities,
            final(self).fences == old(self).fences,
            final(self).next_fence == old(self).next_fence,
    {
        self.used_queries.push(id);
        proof {
            assert(self.used_queries@.last() == id);
        }
    }
}

} // verus!
