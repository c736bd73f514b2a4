//! Uniform values: what a draw request supplies for the program's global
//! variables, and the types against which they are checked.

use vstd::prelude::*;
use crate::buffer::BufferRef;

verus! {

/// Dimensionality of a texture bound through a sampler uniform.
#[derive(Clone, Copy, Debug, PartialEq, Eq, Structural)]
pub enum TextureDimension {
    Texture1d,
    Texture2d,
    Texture3d,
    Texture1dArray,
    Texture2dArray,
    Texture2dMultisample,
    Texture2dMultisampleArray,
}

/// The sample kind of a texture: how its texels are stored and read.
#[derive(Clone, Copy, Debug, PartialEq, Eq, Structural)]
pub enum SampleKind {
    /// Normalized color texels.
    Regular,
    /// Block-compressed color texels.
    Compressed,
    /// Color texels in the sRGB color space.
    Srgb,
    /// Block-compressed sRGB texels.
    CompressedSrgb,
    /// Signed integer texels.
    Integral,
    /// Unsigned integer texels.
    Unsigned,
    /// Depth texels.
    Depth,
}

/// The class of sampler a shader declares; what a texture's sample kind must
/// agree with.
#[derive(Clone, Copy, Debug, PartialEq, Eq, Structural)]
pub enum SamplerClass {
    /// Floating-point samplers, including depth and compressed textures.
    Float,
    /// Signed integer samplers.
    Integral,
    /// Unsigned integer samplers.
    Unsigned,
}

impl SampleKind {
    /// The sampler class textures of this kind are read through.
    pub open spec fn sampler_class(self) -> SamplerClass {
        match self {
            SampleKind::Integral => SamplerClass::Integral,
            SampleKind::Unsigned => SamplerClass::Unsigned,
            _ => SamplerClass::Float,
        }
    }
}

/// A plain numeric uniform value, uploaded to the program directly.  Scalars,
/// vectors and matrices that the device takes as floating point are carried
/// as the 32-bit patterns it will receive, never interpreted by the core.
#[derive(Clone, Copy, Debug, PartialEq, Eq)]
pub enum NumericValue {
    SignedInt(i32),
    UnsignedInt(u32),
    Scalar(u32),
    Vec2([u32; 2]),
    Vec3([u32; 3]),
    Vec4([u32; 4]),
    Mat2([u32; 4]),
    Mat3([u32; 9]),
    Mat4([u32; 16]),
}

/// The type of a uniform as the program declares it.
#[derive(Clone, Copy, Debug, PartialEq, Eq, Structural)]
pub enum UniformType {
    SignedInt,
    UnsignedInt,
    Scalar,
    Vec2,
    Vec3,
    Vec4,
    Mat2,
    Mat3,
    Mat4,
    /// A sampler of the given dimensionality and class.
    Sampler(TextureDimension, SamplerClass),
}

/// The memory layout of a uniform block, as either side declares it: the
/// block's total size and a signature standing for its member list (names,
/// offsets and types in declaration order).  Two layouts describe the same
/// memory exactly when both fields agree.
#[derive(Clone, Copy, Debug, PartialEq, Eq, Structural)]
pub struct BlockLayout {
    /// Total size of the block in bytes.
    pub size: u32,
    /// Signature of the member list.
    pub signature: u64,
}

impl BlockLayout {
    /// Checks whether this CPU-side layout matches a declared block layout.
    pub fn matches(&self, other: &BlockLayout) -> (r: bool)
        ensures
            r == (*self == *other),
    {
        self.size == other.size && self.signature == other.signature
    }
}

/// The value of a uniform as supplied with a draw request.
#[derive(Clone, Copy, Debug, PartialEq, Eq)]
pub enum UniformValue {
    /// A plain numeric value, copied to the uniform's location.
    Numeric(NumericValue),
    /// A texture sampled through a unit that the core allocates for the call.
    Texture {
        /// Dimensionality of the texture.
        dimension: TextureDimension,
        /// Sample kind of the texture.
        kind: SampleKind,
        /// The texture's name on the device.
        texture: u32,
        /// The sampler object to read it through, or 0 for none.
        sampler: u32,
    },
    /// A buffer bound to a uniform block, with the CPU-side layout of its
    /// contents.
    Block {
        /// The buffer holding the block's values.
        buffer: BufferRef,
        /// The layout of the CPU-side value in the buffer.
        layout: BlockLayout,
    },
}

impl UniformValue {
    /// Whether this value can be bound to a uniform the program declares
    /// with type `ty`.  Block values are never usable as plain uniforms.
    pub open spec fn usable_with(self, ty: UniformType) -> bool {
        match self {
            UniformValue::Numeric(v) => match v {
                NumericValue::SignedInt(..) => ty == UniformType::SignedInt,
                NumericValue::UnsignedInt(..) => ty == UniformType::UnsignedInt,
                NumericValue::Scalar(..) => ty == UniformType::Scalar,
                NumericValue::Vec2(..) => ty == UniformType::Vec2,
                NumericValue::Vec3(..) => ty == UniformType::Vec3,
                NumericValue::Vec4(..) => ty == UniformType::Vec4,
                NumericValue::Mat2(..) => ty == UniformType::Mat2,
                NumericValue::Mat3(..) => ty == UniformType::Mat3,
                NumericValue::Mat4(..) => ty == UniformType::Mat4,
            },
            UniformValue::Texture { dimension, kind, .. } => ty == UniformType::Sampler(
                dimension,
                kind.sampler_class(),
            ),
            UniformValue::Block { .. } => false,
        }
    }

    /// Checks whether this value can be bound to a uniform of type `ty`.
    pub fn is_usable_with(&self, ty: &UniformType) -> (r: bool)
        ensures
            r == self.usable_with(*ty),
    {
        match self {
            UniformValue::Numeric(v) => match v {
                NumericValue::SignedInt(..) => matches!(ty, UniformType::SignedInt),
                NumericValue::UnsignedInt(..) => matches!(ty, UniformType::UnsignedInt),
                NumericValue::Scalar(..) => matches!(ty, UniformType::Scalar),
                NumericValue::Vec2(..) => matches!(ty, UniformType::Vec2),
                NumericValue::Vec3(..) => matches!(ty, UniformType::Vec3),
                NumericValue::Vec4(..) => matches!(ty, UniformType::Vec4),
                NumericValue::Mat2(..) => matches!(ty, UniformType::Mat2),
                NumericValue::Mat3(..) => matches!(ty, UniformType::Mat3),
                NumericValue::Mat4(..) => matches!(ty, UniformType::Mat4),
            },
            UniformValue::Texture { dimension, kind, .. } => {
                let class = match kind {
                    SampleKind::Integral => SamplerClass::Integral,
                    SampleKind::Unsigned => SamplerClass::Unsigned,
                    _ => SamplerClass::Float,
                };
                match ty {
                    UniformType::Sampler(d, c) => *d == *dimension && *c == class,
                    _ => false,
                }
            },
            UniformValue::Block { .. } => false,
        }
    }
}

/// One named uniform value of a draw request.
#[derive(Clone, Debug, PartialEq, Eq)]
pub struct UniformEntry {
    /// The uniform's name in the program.
    pub name: String,
    /// The supplied value.
    pub value: UniformValue,
}

impl UniformEntry {
    /// A copy of the entry, equal to it.
    pub fn duplicate(&self) -> (r: UniformEntry)
        ensures
            r == *self,
    {
        UniformEntry { name: self.name.clone(), value: self.value }
    }
}

/// Object that contains the values of all the uniforms to bind to a program.
pub trait Uniforms {
    /// The uniforms as a sequence of named values, in visiting order.
    spec fn uniforms_seq(&self) -> Seq<UniformEntry>;

    /// Returns the name and value of each uniform, in visiting order.
    fn visit_values(&self) -> (r: Vec<UniformEntry>)
        ensures
            r@ == self.uniforms_seq(),
    ;
}

/// An object with no uniforms at all.
#[derive(Clone, Copy, Debug, PartialEq, Eq, Structural)]
pub struct EmptyUniforms;

impl Uniforms for EmptyUniforms {
    open spec fn uniforms_seq(&self) -> Seq<UniformEntry> {
        Seq::empty()
    }

    fn visit_values(&self) -> (r: Vec<UniformEntry>) {
        let r: Vec<UniformEntry> = Vec::new();
        assert(r@ =~= Seq::<UniformEntry>::empty());
        r
    }
}

/// A list of named uniform values, visited in order.
#[derive(Clone, Debug, PartialEq, Eq)]
pub struct UniformsStorage {
    /// The entries, in visiting order.
    pub entries: Vec<UniformEntry>,
}

impl Uniforms for UniformsStorage {
    open spec fn uniforms_seq(&self) -> Seq<UniformEntry> {
        self.entries@
    }

    fn visit_values(&self) -> (r: Vec<UniformEntry>) {
        let mut r: Vec<UniformEntry> = Vec::new();
        let mut i: usize = 0;
        while i < self.entries.len()
            invariant
                i <= self.entries.len(),
                r@ == self.entries@.take(i as int),
            decreases self.entries.len() - i,
        {
            r.push(self.entries[i].duplicate());
            proof {
                assert(r@ =~= self.entries@.take(i + 1));
            }
            i += 1;
        }
        proof {
            assert(r@ =~= self.entries@);
        }
        r
    }
}

/// Objects that are suitable for being bound to a uniform block.
pub trait UniformBlock: Copy {
    /// The memory layout values of this type occupy in a buffer.
    fn layout() -> BlockLayout;

    /// Checks whether this type's layout matches the given declared block
    /// layout.
    fn matches(block: &BlockLayout) -> bool;
}

} // verus!
