//! The compiled-program descriptor the core consumes: the uniforms and
//! uniform blocks the program declares, by name.  Compiling and linking are
//! collaborators' work; the core only reads the result.

use vstd::prelude::*;
use crate::uniforms::{BlockLayout, UniformType};

verus! {

/// One uniform the program declares.
#[derive(Clone, Copy, Debug, PartialEq, Eq)]
pub struct Uniform {
    /// The uniform's location in the program.
    pub location: u32,
    /// The declared type.
    pub ty: UniformType,
    /// The element count for an array uniform, or `None` for a plain one.
    pub size: Option<u32>,
}

/// One uniform block the program declares.
#[derive(Clone, Copy, Debug, PartialEq, Eq)]
pub struct UniformBlock {
    /// The block's binding index in the program.
    pub binding: u32,
    /// The declared memory layout.
    pub layout: BlockLayout,
}

/// The first uniform in a declaration list with a given name.
pub open spec fn seq_lookup_uniform(s: Seq<(String, Uniform)>, name: Seq<char>) -> Option<Uniform>
    decreases s.len(),
{
    if s.len() == 0 {
        None
    } else if s[0].0@ == name {
        Some(s[0].1)
    } else {
        seq_lookup_uniform(s.drop_first(), name)
    }
}

/// The first uniform block in a declaration list with a given name.
pub open spec fn seq_lookup_block(s: Seq<(String, UniformBlock)>, name: Seq<char>) -> Option<
    UniformBlock,
>
    decreases s.len(),
{
    if s.len() == 0 {
        None
    } else if s[0].0@ == name {
        Some(s[0].1)
    } else {
        seq_lookup_block(s.drop_first(), name)
    }
}

/// The compiled program, as the core sees it.
pub struct Program {
    /// The program's name on the device.
    pub id: u32,
    /// The uniforms it declares, by name.
    pub uniforms: Vec<(String, Uniform)>,
    /// The uniform blocks it declares, by name.
    pub uniform_blocks: Vec<(String, UniformBlock)>,
    /// Whether the program writes sRGB-encoded output itself, so that the
    /// framebuffer must not convert again.
    pub has_srgb_output: bool,
}

impl Program {
    /// The uniform declared under a name, if any.
    pub open spec fn uniform_spec(&self, name: Seq<char>) -> Option<Uniform> {
        seq_lookup_uniform(self.uniforms@, name)
    }

    /// The uniform block declared under a name, if any.
    pub open spec fn block_spec(&self, name: Seq<char>) -> Option<UniformBlock> {
        seq_lookup_block(self.uniform_blocks@, name)
    }

    /// Returns the uniform declared under `name`, if any.
    pub fn get_uniform(&self, name: &String) -> (r: Option<Uniform>)
        ensures
            r == self.uniform_spec(name@),
    {
        let n = self.uniforms.len();
        let mut i: usize = 0;
        proof {
            assert(self.uniforms@.skip(0) =~= self.uniforms@);
        }
        while i < n
            invariant
                n == self.uniforms@.len(),
                i <= n,
                seq_lookup_uniform(self.uniforms@, name@) == seq_lookup_uniform(
                    self.uniforms@.skip(i as int),
                    name@,
                ),
            decreases n - i,
        {
            proof {
                assert(self.uniforms@.skip(i as int)[0] == self.uniforms@[i as int]);
                assert(self.uniforms@.skip(i as int).drop_first() =~= self.uniforms@.skip(i + 1));
            }
            if self.uniforms[i].0 == *name {
                return Some(self.uniforms[i].1);
            }
            i += 1;
        }
        proof {
            assert(self.uniforms@.skip(n as int).len() == 0);
        }
        None
    }

    /// Returns the uniform block declared under `name`, if any.
    pub fn get_uniform_block(&self, name: &String) -> (r: Option<UniformBlock>)
        ensures
            r == self.block_spec(name@),
    {
        let n = self.uniform_blocks.len();
        let mut i: usize = 0;
        proof {
            assert(self.uniform_blocks@.skip(0) =~= self.uniform_blocks@);
        }
        while i < n
            invariant
                n == self.uniform_blocks@.len(),
                i <= n,
                seq_lookup_block(self.uniform_blocks@, name@) == seq_lookup_block(
                    self.uniform_blocks@.skip(i as int),
                    name@,
                ),
            decreases n - i,
        {
            proof {
                assert(self.uniform_blocks@.skip(i as int)[0] == self.uniform_blocks@[i as int]);
                assert(self.uniform_blocks@.skip(i as int).drop_first() =~= self.uniform_blocks@.skip(
                    i + 1,
                ));
            }
            if self.uniform_blocks[i].0 == *name {
                return Some(self.uniform_blocks[i].1);
            }
            i += 1;
        }
        proof {
            assert(self.uniform_blocks@.skip(n as int).len() == 0);
        }
        None
    }
}

} // verus!
