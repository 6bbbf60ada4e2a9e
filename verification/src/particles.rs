use crate::random::random_in;
use crate::world::BlockType;
use vstd::prelude::*;

verus! {

/// Number of columns of the particle sprite sheet. The sheet itself is an
/// asset outside this library; this value is assumed.
pub const PARTICLE_COLUMNS: usize = 100;

/// Kinds of particle.
#[derive(Clone, Copy, PartialEq, Eq, Debug, Structural)]
pub enum Particle {
    Dirt,
    Stone,
    Grass,
    Wood,
}

/// The particle that a block of each kind gives off.
pub open spec fn particle_of(block_type: BlockType) -> Particle {
    match block_type {
        BlockType::Dirt => Particle::Dirt,
        BlockType::Stone => Particle::Stone,
        BlockType::Grass => Particle::Grass,
        BlockType::Tree(_) => Particle::Wood,
    }
}

impl Particle {
    /// The particle that a block of kind `block_type` gives off.
    pub fn get_by_block(block_type: BlockType) -> (r: Option<Self>)
        ensures
            r == Some(particle_of(block_type)),
    {
        match block_type {
            BlockType::Dirt => Some(Particle::Dirt),
            BlockType::Stone => Some(Particle::Stone),
            BlockType::Grass => Some(Particle::Grass),
            BlockType::Tree(_) => Some(Particle::Wood),
        }
    }
}

/// Place of a particle's first look in the sheet.
pub open spec fn particle_base(particle: Particle) -> nat {
    match particle {
        Particle::Dirt => 0,
        Particle::Stone => 1,
        Particle::Grass => 2,
        Particle::Wood => 7,
    }
}

/// Index in the sheet of look `variant` of `particle`: the looks of a
/// particle stand in the same column, three rows per particle row.
pub open spec fn particle_index(particle: Particle, variant: nat) -> nat {
    let index = particle_base(particle);
    let y = index / (PARTICLE_COLUMNS as nat);
    let x = index % (PARTICLE_COLUMNS as nat);
    (y * 3 + variant) * (PARTICLE_COLUMNS as nat) + x
}

/// Different particles, or different looks of one particle, never share a
/// place in the sheet.
pub proof fn law_particle_index_distinct(a: Particle, va: nat, b: Particle, vb: nat)
    requires
        va < 3,
        vb < 3,
        a != b || va != vb,
    ensures
        particle_index(a, va) != particle_index(b, vb),
{
    assert(particle_index(a, va) == va * 100 + particle_base(a));
    assert(particle_index(b, vb) == vb * 100 + particle_base(b));
    assert(particle_base(a) < 100 && particle_base(b) < 100);
    assert(a != b ==> particle_base(a) != particle_base(b));
    if va != vb {
        assert(va * 100 + particle_base(a) != vb * 100 + particle_base(b)) by (nonlinear_arith)
            requires
                va != vb,
                particle_base(a) < 100,
                particle_base(b) < 100,
        ;
    }
}

/// Index in the sheet of look `variant` of `particle`.
pub fn get_particle_index(particle: Particle, variant: u8) -> (r: usize)
    ensures
        r == particle_index(particle, variant as nat),
{
    let index: usize = match particle {
        Particle::Dirt => 0,
        Particle::Stone => 1,
        Particle::Grass => 2,
        Particle::Wood => 7,
    };
    let variant = variant as usize;

    let y = index / PARTICLE_COLUMNS;
    let x = index % PARTICLE_COLUMNS;

    (y * 3 + variant) * PARTICLE_COLUMNS + x
}

/// Index in the sheet of one of the three looks of `particle`, drawn at
/// random.
pub fn random_particle_index(particle: Particle) -> (r: usize)
    ensures
        exists|v: nat| v < 3 && r == particle_index(particle, v),
{
    let variant = random_in(0, 3) as u8;
    let r = get_particle_index(particle, variant);
    assert(variant < 3 && r == particle_index(particle, variant as nat));
    r
}

/// Each particle's three looks stand in its own column of the sheet, one
/// row apart: dirt in column 0, stone in 1, grass in 2 and wood in 7.
pub proof fn law_particle_columns(v: nat)
    requires
        v < 3,
    ensures
        particle_index(Particle::Dirt, v) == 100 * v,
        particle_index(Particle::Stone, v) == 100 * v + 1,
        particle_index(Particle::Grass, v) == 100 * v + 2,
        particle_index(Particle::Wood, v) == 100 * v + 7,
{
}

} // verus!
