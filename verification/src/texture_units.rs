//! Texture-unit allocation for one draw call.
//!
//! Given a texture, an optional sampler object and the set of units already
//! claimed this call, the allocator prefers a unit already holding the
//! exact (texture, sampler) pair even if claimed (reuse is free); then an
//! unclaimed unit already holding the texture with another sampler (only a
//! sampler rebind is needed); then a fresh unit if the device has capacity;
//! and only then any unclaimed unit, evicting its contents.  The device
//! binding is updated only where the winning unit's mirrored contents
//! differ from the target — texture switches are often the costliest calls
//! of the whole draw.

use vstd::prelude::*;
use crate::bitsfield::Bitsfield;
use crate::commands::DeviceCommand;
use crate::context::{Context, DeviceState, TextureMirror, TextureUnit};
use crate::sync::emit_step;
use crate::uniforms::{NumericValue, TextureDimension};

verus! {

/// The first unit from position `i` on that already holds the exact
/// (texture, sampler) pair; such a unit is reused even if claimed this
/// call, since reuse is free.
pub open spec fn first_exact_unit_from(
    units: Seq<TextureUnit>,
    texture: u32,
    sampler: u32,
    i: int,
) -> Option<int>
    decreases units.len() - i,
{
    if i < 0 || i >= units.len() {
        None
    } else if units[i] == (TextureUnit { texture, sampler }) {
        Some(i)
    } else {
        first_exact_unit_from(units, texture, sampler, i + 1)
    }
}

/// The first unclaimed unit from position `i` on that already holds the
/// texture, so that only a sampler rebind is needed.
pub open spec fn first_rebindable_unit_from(
    units: Seq<TextureUnit>,
    claimed: Seq<bool>,
    texture: u32,
    i: int,
) -> Option<int>
    decreases units.len() - i,
{
    if i < 0 || i >= units.len() {
        None
    } else if units[i].texture == texture && !Bitsfield::used_at(claimed, i) {
        Some(i)
    } else {
        first_rebindable_unit_from(units, claimed, texture, i + 1)
    }
}

/// The unit the allocator picks, in the fixed preference order: a unit
/// already holding the exact pair, even if claimed; else an unclaimed unit
/// already holding the texture; else a fresh unit if the device has one;
/// else the first unclaimed unit, evicted.
pub open spec fn chosen_unit(
    units: Seq<TextureUnit>,
    claimed: Seq<bool>,
    texture: u32,
    sampler: u32,
    max_units: int,
) -> int {
    match first_exact_unit_from(units, texture, sampler, 0) {
        Some(u) => u,
        None => match first_rebindable_unit_from(units, claimed, texture, 0) {
            Some(u) => u,
            None => if units.len() < max_units {
                units.len() as int
            } else {
                Bitsfield::first_unused_at(claimed, 0)
            },
        },
    }
}

/// A unit already holding the exact (texture, sampler) pair is always
/// chosen, even if claimed this call, so nothing grows, nothing is evicted
/// and not even the sampler is rebound.
pub proof fn lemma_exact_pair_preferred(
    units: Seq<TextureUnit>,
    claimed: Seq<bool>,
    texture: u32,
    sampler: u32,
    max_units: int,
)
    requires
        exists|i: int|
            0 <= i < units.len() && units[i] == (TextureUnit { texture, sampler }),
    ensures
        0 <= chosen_unit(units, claimed, texture, sampler, max_units) < units.len(),
        units[chosen_unit(units, claimed, texture, sampler, max_units)] == (TextureUnit {
            texture,
            sampler,
        }),
{
    let w = choose|i: int| 0 <= i < units.len() && units[i] == (TextureUnit { texture, sampler });
    lemma_exact_exists(units, texture, sampler, 0, w);
    lemma_exact_sound(units, texture, sampler, 0);
}

/// Where an exact unit exists at or after `i`, the search from `i` finds
/// one.
proof fn lemma_exact_exists(units: Seq<TextureUnit>, texture: u32, sampler: u32, i: int, w: int)
    requires
        0 <= i <= w < units.len(),
        units[w] == (TextureUnit { texture, sampler }),
    ensures
        first_exact_unit_from(units, texture, sampler, i) is Some,
    decreases w - i,
{
    if units[i] != (TextureUnit { texture, sampler }) {
        lemma_exact_exists(units, texture, sampler, i + 1, w);
    }
}

/// Whatever the exact search finds is in range, holds the pair, and
/// nothing before it does.
proof fn lemma_exact_sound(units: Seq<TextureUnit>, texture: u32, sampler: u32, i: int)
    requires
        0 <= i,
    ensures
        match first_exact_unit_from(units, texture, sampler, i) {
            Some(u) => i <= u < units.len() && units[u] == (TextureUnit { texture, sampler })
                && forall|j: int|
                i <= j < u ==> (#[trigger] units[j]) != (TextureUnit { texture, sampler }),
            None => forall|j: int|
                i <= j < units.len() ==> (#[trigger] units[j]) != (TextureUnit {
                    texture,
                    sampler,
                }),
        },
    decreases units.len() - i,
{
    if i < units.len() && units[i] != (TextureUnit { texture, sampler }) {
        lemma_exact_sound(units, texture, sampler, i + 1);
    }
}

/// The texture-unit mirror after binding: grown with empty units up to the
/// chosen one if needed, with the chosen unit holding the pair.
pub open spec fn units_after_bind(
    units: Seq<TextureUnit>,
    unit: int,
    texture: u32,
    sampler: u32,
) -> Seq<TextureUnit> {
    let grown = if units.len() > unit {
        units
    } else {
        units + Seq::new((unit + 1 - units.len()) as nat, |k: int| TextureUnit { texture: 0, sampler: 0 })
    };
    grown.update(unit, TextureUnit { texture, sampler })
}

/// What the chosen unit held before the bind; a unit beyond the mirror's
/// length held nothing.
pub open spec fn unit_before_bind(units: Seq<TextureUnit>, unit: int) -> TextureUnit {
    if 0 <= unit < units.len() {
        units[unit]
    } else {
        TextureUnit { texture: 0, sampler: 0 }
    }
}

/// The log after one texture bind: the sampler uniform always points at the
/// chosen unit; the unit switch, the texture bind and the sampler bind are
/// emitted only where the unit's mirrored contents differ from the target.
pub open spec fn texture_bind_emitted(
    c: Seq<DeviceCommand>,
    units: Seq<TextureUnit>,
    active: u32,
    unit: int,
    texture: u32,
    sampler: u32,
    location: u32,
    program: u32,
    dimension: TextureDimension,
) -> Seq<DeviceCommand> {
    let cur = unit_before_bind(units, unit);
    let differs = cur != (TextureUnit { texture, sampler });
    let c1 = c.push(DeviceCommand::Uniform(program, location, NumericValue::SignedInt(unit as i32)));
    let c2 = emit_step(c1, differs && active != unit as u32, DeviceCommand::ActiveTexture(unit as u32));
    let c3 = emit_step(c2, cur.texture != texture, DeviceCommand::BindTexture(dimension, texture));
    emit_step(c3, cur.sampler != sampler, DeviceCommand::BindSampler(unit as u32, sampler))
}

/// Picks the texture unit for a (texture, sampler) pair, following the
/// allocation policy, without touching anything.
fn choose_texture_unit(
    ctxt: &Context,
    texture_bind_points: &Bitsfield,
    texture: u32,
    sampler: u32,
) -> (unit: usize)
    requires
        ctxt.wf(),
        ctxt.capabilities.max_combined_texture_image_units <= 0x7fff_ffffu32,
        texture_bind_points.count_spec() < ctxt.capabilities.max_combined_texture_image_units,
        texture_bind_points.used@.len() < usize::MAX,
    ensures
        unit as int == chosen_unit(
            ctxt.state.textures.units@,
            texture_bind_points.used@,
            texture,
            sampler,
            ctxt.capabilities.max_combined_texture_image_units as int,
        ),
        unit < ctxt.capabilities.max_combined_texture_image_units,
{
    let len = ctxt.state.textures.units.len();

    // first tier: a unit already holding the exact pair, claimed or not
    let mut exact: Option<usize> = None;
    let mut i: usize = 0;
    while i < len
        invariant
            i <= len,
            len == ctxt.state.textures.units@.len(),
            match exact {
                Some(u) => first_exact_unit_from(ctxt.state.textures.units@, texture, sampler, 0)
                    == Some(u as int) && u < len,
                None => first_exact_unit_from(ctxt.state.textures.units@, texture, sampler, 0)
                    == first_exact_unit_from(
                    ctxt.state.textures.units@,
                    texture,
                    sampler,
                    i as int,
                ),
            },
        decreases len - i,
    {
        if exact.is_none() {
            let u = ctxt.state.textures.units[i];
            if u.texture == texture && u.sampler == sampler {
                exact = Some(i);
            }
        }
        i += 1;
    }
    if let Some(u) = exact {
        proof {
            assert(ctxt.state.textures.units@.len()
                <= ctxt.capabilities.max_combined_texture_image_units);
        }
        return u;
    }

    // second tier: an unclaimed unit already holding the texture
    let mut rebindable: Option<usize> = None;
    let mut i: usize = 0;
    while i < len
        invariant
            i <= len,
            len == ctxt.state.textures.units@.len(),
            match rebindable {
                Some(u) => first_rebindable_unit_from(
                    ctxt.state.textures.units@,
                    texture_bind_points.used@,
                    texture,
                    0,
                ) == Some(u as int) && u < len,
                None => first_rebindable_unit_from(
                    ctxt.state.textures.units@,
                    texture_bind_points.used@,
                    texture,
                    0,
                ) == first_rebindable_unit_from(
                    ctxt.state.textures.units@,
                    texture_bind_points.used@,
                    texture,
                    i as int,
                ),
            },
        decreases len - i,
    {
        if rebindable.is_none() {
            let u = ctxt.state.textures.units[i];
            let claimed = texture_bind_points.is_used(i);
            if u.texture == texture && !claimed {
                rebindable = Some(i);
            }
        }
        i += 1;
    }
    if let Some(u) = rebindable {
        proof {
            assert(ctxt.state.textures.units@.len()
                <= ctxt.capabilities.max_combined_texture_image_units);
        }
        return u;
    }

    // third tier: a fresh unit if the device has one; else evict the first
    // unclaimed unit
    if len < ctxt.capabilities.max_combined_texture_image_units as usize {
        len
    } else {
        let r = texture_bind_points.get_unused();
        proof {
            Bitsfield::lemma_count_at_most_len(texture_bind_points.used@);
        }
        r
    }
}

/// Makes the mirror cover the unit and applies the (texture, sampler) pair
/// to it, emitting the unit switch and binds only where the mirrored
/// contents differ.
#[verifier::rlimit(60)]
fn apply_texture_unit(
    ctxt: &mut Context,
    unit: usize,
    texture: u32,
    sampler: u32,
    location: u32,
    program: u32,
    dimension: TextureDimension,
)
    requires
        old(ctxt).wf(),
        old(ctxt).capabilities.max_combined_texture_image_units <= 0x7fff_ffffu32,
        unit < old(ctxt).capabilities.max_combined_texture_image_units,
        sampler != 0 ==> old(ctxt).capabilities.supports_samplers(),
    ensures
        final(ctxt).commands@ == texture_bind_emitted(
            old(ctxt).commands@,
            old(ctxt).state.textures.units@,
            old(ctxt).state.textures.active_unit,
            unit as int,
            texture,
            sampler,
            location,
            program,
            dimension,
        ),
        final(ctxt).state == (DeviceState {
            textures: final(ctxt).state.textures,
            ..old(ctxt).state
        }),
        final(ctxt).state.textures.units@ == units_after_bind(
            old(ctxt).state.textures.units@,
            unit as int,
            texture,
            sampler,
        ),
        final(ctxt).state.textures.active_unit == (if unit_before_bind(
            old(ctxt).state.textures.units@,
            unit as int,
        ) != (TextureUnit { texture, sampler }) {
            unit as u32
        } else {
            old(ctxt).state.textures.active_unit
        }),
        final(ctxt).same_registries(*old(ctxt)),
        final(ctxt).wf(),
{
    ctxt.emit(DeviceCommand::Uniform(program, location, NumericValue::SignedInt(unit as i32)));

    let ghost pre_growth = ctxt.state.textures.units@;
    if ctxt.state.textures.units.len() <= unit {
        while ctxt.state.textures.units.len() <= unit
            invariant
                pre_growth.len() <= ctxt.state.textures.units@.len() <= unit + 1,
                unit < usize::MAX,
                ctxt.state.textures.units@ == pre_growth + Seq::new(
                    (ctxt.state.textures.units@.len() - pre_growth.len()) as nat,
                    |k: int| TextureUnit { texture: 0u32, sampler: 0u32 },
                ),
                ctxt.commands@ == old(ctxt).commands@.push(
                    DeviceCommand::Uniform(
                        program,
                        location,
                        NumericValue::SignedInt(unit as i32),
                    ),
                ),
                ctxt.state == (DeviceState {
                    textures: (TextureMirror {
                        active_unit: old(ctxt).state.textures.active_unit,
                        units: ctxt.state.textures.units,
                    }),
                    ..old(ctxt).state
                }),
                ctxt.same_registries(*old(ctxt)),
                pre_growth == old(ctxt).state.textures.units@,
            decreases unit + 1 - ctxt.state.textures.units@.len(),
        {
            ctxt.state.textures.units.push(TextureUnit { texture: 0, sampler: 0 });
            proof {
                assert(ctxt.state.textures.units@ =~= pre_growth + Seq::new(
                    (ctxt.state.textures.units@.len() - pre_growth.len()) as nat,
                    |k: int| TextureUnit { texture: 0u32, sampler: 0u32 },
                ));
            }
        }
    } else {
        proof {
            assert(ctxt.state.textures.units@ =~= pre_growth + Seq::new(
                0,
                |k: int| TextureUnit { texture: 0u32, sampler: 0u32 },
            ));
        }
    }

    let cur = ctxt.state.textures.units[unit];
    proof {
        assert(cur == unit_before_bind(pre_growth, unit as int));
    }
    if cur.texture != texture || cur.sampler != sampler {
        if ctxt.state.textures.active_unit != unit as u32 {
            ctxt.emit(DeviceCommand::ActiveTexture(unit as u32));
            ctxt.state.textures.active_unit = unit as u32;
        }
        if cur.texture != texture {
            ctxt.emit(DeviceCommand::BindTexture(dimension, texture));
            let s = ctxt.state.textures.units[unit].sampler;
            ctxt.state.textures.units.set(unit, TextureUnit { texture, sampler: s });
        }
        let cur_sampler = ctxt.state.textures.units[unit].sampler;
        if cur_sampler != sampler {
            ctxt.emit(DeviceCommand::BindSampler(unit as u32, sampler));
            let t = ctxt.state.textures.units[unit].texture;
            ctxt.state.textures.units.set(unit, TextureUnit { texture: t, sampler });
        }
    }
    proof {
        assert(ctxt.state.textures.units@ =~= units_after_bind(
            pre_growth,
            unit as int,
            texture,
            sampler,
        ));
    }
}

/// Binds a texture and sampler to a unit for this draw call, following the
/// allocation policy, claims the unit, and points the program\'s sampler
/// uniform at it.  Returns the chosen unit.
pub fn bind_texture_uniform(
    ctxt: &mut Context,
    texture: u32,
    sampler: u32,
    location: u32,
    program: u32,
    texture_bind_points: &mut Bitsfield,
    dimension: TextureDimension,
) -> (unit: usize)
    requires
        old(ctxt).wf(),
        old(ctxt).capabilities.max_combined_texture_image_units <= 0x7fff_ffffu32,
        old(texture_bind_points).count_spec() < old(
            ctxt,
        ).capabilities.max_combined_texture_image_units,
        old(texture_bind_points).used@.len() < usize::MAX - 1,
        sampler != 0 ==> old(ctxt).capabilities.supports_samplers(),
    ensures
        unit as int == chosen_unit(
            old(ctxt).state.textures.units@,
            old(texture_bind_points).used@,
            texture,
            sampler,
            old(ctxt).capabilities.max_combined_texture_image_units as int,
        ),
        unit < old(ctxt).capabilities.max_combined_texture_image_units,
        final(texture_bind_points).used_spec(unit as int),
        forall|j: int|
            j != unit ==> final(texture_bind_points).used_spec(j) == old(
                texture_bind_points,
            ).used_spec(j),
        final(texture_bind_points).count_spec() <= old(texture_bind_points).count_spec() + 1,
        old(texture_bind_points).count_spec() <= final(texture_bind_points).count_spec(),
        final(texture_bind_points).used@.len() <= old(texture_bind_points).used@.len()
            || final(texture_bind_points).used@.len() <= old(
            ctxt,
        ).capabilities.max_combined_texture_image_units,
        final(texture_bind_points).used@ == Bitsfield::set_used_seq(
            old(texture_bind_points).used@,
            unit as int,
        ),
        final(ctxt).commands@ == texture_bind_emitted(
            old(ctxt).commands@,
            old(ctxt).state.textures.units@,
            old(ctxt).state.textures.active_unit,
            unit as int,
            texture,
            sampler,
            location,
            program,
            dimension,
        ),
        final(ctxt).state == (DeviceState {
            textures: final(ctxt).state.textures,
            ..old(ctxt).state
        }),
        final(ctxt).state.textures.units@ == units_after_bind(
            old(ctxt).state.textures.units@,
            unit as int,
            texture,
            sampler,
        ),
        final(ctxt).state.textures.active_unit == (if unit_before_bind(
            old(ctxt).state.textures.units@,
            unit as int,
        ) != (TextureUnit { texture, sampler }) {
            unit as u32
        } else {
            old(ctxt).state.textures.active_unit
        }),
        final(ctxt).same_registries(*old(ctxt)),
        final(ctxt).wf(),
{
    let unit = choose_texture_unit(ctxt, texture_bind_points, texture, sampler);
    texture_bind_points.set_used(unit);
    apply_texture_unit(ctxt, unit, texture, sampler, location, program, dimension);
    unit
}

} // verus!
