//! The player: initial components and facing-derived geometry.
//!
//! The player starts idle at top speed 300 units per second, facing +X,
//! with a purse of 2000 experience points and a skill tree where only the
//! melee slash is unlocked.  The two eye sprites and the interaction
//! sensor sit at fixed offsets from the body along the facing direction
//! and its perpendicular, and follow the facing as it turns.

use vstd::prelude::*;

verus! {

use crate::geom::Vec2i;
use crate::living_entity::ACCEL_WINDOW_MS;
use crate::living_entity::EntityController;
use crate::living_entity::EntityState;
use crate::living_entity::EntityStats;
use crate::living_entity::FacingDirection;
use crate::skills::Skill;
use crate::skills::SkillTree;
use crate::world::World;
use crate::xp::XpInventory;

/// Marker for the player entity.
#[derive(Debug, Clone, Copy)]
pub struct Player;

/// Which of the player's two eye sprites.
#[derive(Clone, Copy, PartialEq, Eq, Structural, Debug)]
pub enum Eye {
    Left,
    Right,
}

/// Marker for the player's forward interaction sensor.
pub struct PlayerInteractor;

/// Player top speed, milli-units per second.
pub const PLAYER_MAX_SPEED: u32 = 300000;

/// Initial experience purse.
pub const PLAYER_START_XP: i32 = 2000;

/// The player's starting skills: only the melee slash comes unlocked;
/// every reload timer starts cold.
pub fn player_skill_tree() -> (tree: SkillTree)
    ensures
        tree.wf(),
        tree@.len() == 4,
        tree@[0] == (Skill {
            name: tree@[0].name,
            mana_cost: 0,
            reload_elapsed_ms: 0,
            reload_duration_ms: 200,
            unlocked: true,
        }),
        tree@[0].name@ == "Slash"@,
        tree@[1] == (Skill {
            name: tree@[1].name,
            mana_cost: 20,
            reload_elapsed_ms: 0,
            reload_duration_ms: 1000,
            unlocked: false,
        }),
        tree@[1].name@ == "Bullets"@,
        tree@[2] == (Skill {
            name: tree@[2].name,
            mana_cost: 50,
            reload_elapsed_ms: 0,
            reload_duration_ms: 2000,
            unlocked: false,
        }),
        tree@[2].name@ == "Fire ball"@,
        tree@[3] == (Skill {
            name: tree@[3].name,
            mana_cost: 10,
            reload_elapsed_ms: 0,
            reload_duration_ms: 3000,
            unlocked: false,
        }),
        tree@[3].name@ == "Beam"@,
{
    proof {
        reveal_strlit("Slash");
        reveal_strlit("Bullets");
        reveal_strlit("Fire ball");
        reveal_strlit("Beam");
    }
    let mut tree = SkillTree::new();
    tree.add_skill(
        Skill {
            name: "Slash".to_owned(),
            mana_cost: 0,
            reload_elapsed_ms: 0,
            reload_duration_ms: 200,
            unlocked: true,
        },
    );
    proof {
        assert(tree@.len() == 1 && tree@[0].name@ == "Slash"@);
        assert(!tree.has_skill("Bullets"@)) by {
            assert(tree@[0].name@.len() != "Bullets"@.len());
        }
    }
    tree.add_skill(
        Skill {
            name: "Bullets".to_owned(),
            mana_cost: 20,
            reload_elapsed_ms: 0,
            reload_duration_ms: 1000,
            unlocked: false,
        },
    );
    proof {
        assert(tree@.len() == 2 && tree@[0].name@ == "Slash"@ && tree@[1].name@ == "Bullets"@);
        assert(!tree.has_skill("Fire ball"@)) by {
            assert(tree@[0].name@.len() != "Fire ball"@.len());
            assert(tree@[1].name@.len() != "Fire ball"@.len());
        }
    }
    tree.add_skill(
        Skill {
            name: "Fire ball".to_owned(),
            mana_cost: 50,
            reload_elapsed_ms: 0,
            reload_duration_ms: 2000,
            unlocked: false,
        },
    );
    proof {
        assert(tree@.len() == 3 && tree@[0].name@ == "Slash"@ && tree@[1].name@ == "Bullets"@
            && tree@[2].name@ == "Fire ball"@);
        assert(!tree.has_skill("Beam"@)) by {
            assert(tree@[0].name@.len() != "Beam"@.len());
            assert(tree@[1].name@.len() != "Beam"@.len());
            assert(tree@[2].name@.len() != "Beam"@.len());
        }
    }
    tree.add_skill(
        Skill {
            name: "Beam".to_owned(),
            mana_cost: 10,
            reload_elapsed_ms: 0,
            reload_duration_ms: 3000,
            unlocked: false,
        },
    );
    tree
}

/// Spawn the player into the world: idle controller at player speed,
/// facing +X, the starting skill tree, no health bar of its own here;
/// returns the entity and the starting purse.
pub fn spawn_player(w: &mut World) -> (r: (u64, XpInventory))
    requires
        old(w).wf(),
        old(w).can_alloc(1),
    ensures
        final(w).wf(),
        final(w).has_entity(r.0),
        r.0 == old(w).next_id,
        final(w).entities@.len() == old(w).entities@.len() + 1,
        forall|j: int|
            0 <= j < old(w).entities@.len() ==> final(w).entities@[j] == old(w).entities@[j],
        ({
            let nr = final(w).entities@.last();
            &&& nr.id == r.0
            &&& nr.parent is None
            &&& nr.controller == Some(
                EntityController {
                    state: EntityState::Idle,
                    stats: EntityStats { max_speed: PLAYER_MAX_SPEED },
                    accel_elapsed_ms: 0,
                },
            )
            &&& nr.facing == Some(FacingDirection(Vec2i { x: 1000, y: 0 }))
            &&& nr.health is None
            &&& !nr.is_enemy
            &&& nr.skills is Some
            &&& nr.effect is None
        }),
        r.1.spec_amount() == PLAYER_START_XP,
{
    let tree = player_skill_tree();
    let controller = EntityController {
        state: EntityState::Idle,
        stats: EntityStats { max_speed: PLAYER_MAX_SPEED },
        accel_elapsed_ms: 0,
    };
    let facing = FacingDirection(Vec2i { x: 1000, y: 0 });
    let id = w.spawn_entity(
        None,
        Some(controller),
        Some(facing),
        None,
        false,
        Some(tree),
        None,
        Vec2i::zero(),
    );
    let mut xp = XpInventory::new();
    xp.collect_xp(PLAYER_START_XP);
    (id, xp)
}

/// Where the two eye sprites sit: one swing of the facing ahead, three
/// units to either side along the perpendicular.
pub fn eye_offsets(facing: FacingDirection) -> (r: (Vec2i, Vec2i))
    requires
        facing.0.is_dir(),
    ensures
        r.0.x == 8 * facing.0.x - 3 * facing.0.y,
        r.0.y == 8 * facing.0.y + 3 * facing.0.x,
        r.1.x == 8 * facing.0.x + 3 * facing.0.y,
        r.1.y == 8 * facing.0.y - 3 * facing.0.x,
{
    let ahead = facing.0.times(8);
    let side = facing.0.perp().times(3);
    let left = ahead.plus(side);
    let right = ahead.plus(Vec2i { x: -side.x, y: -side.y });
    (left, right)
}

/// Where the player's forward interaction sensor sits: twenty units along
/// the facing.
pub fn interactor_offset(facing: FacingDirection) -> (r: Vec2i)
    requires
        facing.0.is_dir(),
    ensures
        r.x == 20 * facing.0.x,
        r.y == 20 * facing.0.y,
{
    facing.0.times(20)
}

} // verus!
