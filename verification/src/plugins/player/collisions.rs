//! What the player runs into: walls, monsters and potions.
//!
//! Whether two rectangles overlap is measured by the engine; the rules start from
//! the answers and decide what follows.

use vstd::prelude::*;
use crate::resources::dungeon::BlockType;
use crate::resources::effect::EffectType;
use crate::resources::player::PlayerAvailableMovement;
use crate::resources::potion::PotionType;

verus! {

/// A block of the room and whether the player overlaps it.
#[derive(Clone, Copy, Debug, PartialEq, Eq, Structural)]
pub struct BlockContact {
    pub block_type: BlockType,
    pub touching: bool,
}

/// Whether the player overlaps some block of the given wall.
pub open spec fn touches_wall(blocks: Seq<BlockContact>, wall: BlockType) -> bool {
    exists|i: int| 0 <= i < blocks.len() && (#[trigger] blocks[i]).block_type == wall && blocks[i].touching
}

/// Finds the directions in which the player may move.
///
/// A direction is closed exactly when the player overlaps a block of the wall on
/// that side: the top wall closes the way up, the bottom wall the way down, and
/// so on. Blocks that are no wall close nothing.
pub fn wall_collision_check(blocks: &Vec<BlockContact>) -> (movement: PlayerAvailableMovement)
    ensures
        movement.can_move_up == !touches_wall(blocks@, BlockType::WallTop),
        movement.can_move_down == !touches_wall(blocks@, BlockType::WallBottom),
        movement.can_move_left == !touches_wall(blocks@, BlockType::WallLeft),
        movement.can_move_right == !touches_wall(blocks@, BlockType::WallRight),
{
    let mut player_available_movement = PlayerAvailableMovement {
        can_move_up: true,
        can_move_down: true,
        can_move_left: true,
        can_move_right: true,
    };
    let mut index: usize = 0;
    while index < blocks.len()
        invariant
            index <= blocks@.len(),
            player_available_movement.can_move_up == !touches_wall(
                blocks@.take(index as int),
                BlockType::WallTop,
            ),
            player_available_movement.can_move_down == !touches_wall(
                blocks@.take(index as int),
                BlockType::WallBottom,
            ),
            player_available_movement.can_move_left == !touches_wall(
                blocks@.take(index as int),
                BlockType::WallLeft,
            ),
            player_available_movement.can_move_right == !touches_wall(
                blocks@.take(index as int),
                BlockType::WallRight,
            ),
        decreases blocks@.len() - index,
    {
        let block = blocks[index];
        proof {
            lemma_touches_wall_step(blocks@, index as int, BlockType::WallTop);
            lemma_touches_wall_step(blocks@, index as int, BlockType::WallBottom);
            lemma_touches_wall_step(blocks@, index as int, BlockType::WallLeft);
            lemma_touches_wall_step(blocks@, index as int, BlockType::WallRight);
        }
        if block.block_type != BlockType::NoWall && block.touching {
            match block.block_type {
                BlockType::WallTop => {
                    player_available_movement.can_move_up = false;
                },
                BlockType::WallBottom => {
                    player_available_movement.can_move_down = false;
                },
                BlockType::WallLeft => {
                    player_available_movement.can_move_left = false;
                },
                BlockType::WallRight => {
                    player_available_movement.can_move_right = false;
                },
                BlockType::NoWall => {},
            }
        }
        index += 1;
    }
    assert(blocks@.take(index as int) =~= blocks@);
    player_available_movement
}

proof fn lemma_touches_wall_step(blocks: Seq<BlockContact>, index: int, wall: BlockType)
    requires
        0 <= index < blocks.len(),
    ensures
        touches_wall(blocks.take(index + 1), wall) == (touches_wall(blocks.take(index), wall) || (
        blocks[index].block_type == wall && blocks[index].touching)),
{
    let shorter = blocks.take(index);
    let longer = blocks.take(index + 1);
    if touches_wall(longer, wall) {
        let i = choose|i: int| 0 <= i < longer.len() && (#[trigger] longer[i]).block_type == wall && longer[i].touching;
        if i < index {
            assert(shorter[i] == longer[i]);
        }
    }
    if touches_wall(shorter, wall) {
        let i = choose|i: int| 0 <= i < shorter.len() && (#[trigger] shorter[i]).block_type == wall && shorter[i].touching;
        assert(longer[i] == shorter[i]);
    }
    if blocks[index].block_type == wall && blocks[index].touching {
        assert(longer[index] == blocks[index]);
    }
}

/// Whether a way is open does not depend on the order of the blocks, and one
/// more block can close a way but never open one.
pub proof fn lemma_more_blocks_close_more(blocks: Seq<BlockContact>, block: BlockContact, wall: BlockType)
    ensures
        touches_wall(blocks.push(block), wall) == (touches_wall(blocks, wall) || (block.block_type
            == wall && block.touching)),
        touches_wall(seq![block] + blocks, wall) == touches_wall(blocks.push(block), wall),
{
    let longer = blocks.push(block);
    assert(longer.take(blocks.len() as int) =~= blocks);
    assert(longer.take(longer.len() as int) =~= longer);
    lemma_touches_wall_step(longer, blocks.len() as int, wall);
    let front = seq![block] + blocks;
    if touches_wall(front, wall) {
        let i = choose|i: int| 0 <= i < front.len() && (#[trigger] front[i]).block_type == wall && front[i].touching;
        if i == 0 {
            assert(longer[blocks.len() as int] == block);
        } else {
            assert(longer[i - 1] == front[i]);
        }
    }
    if touches_wall(longer, wall) {
        let i = choose|i: int| 0 <= i < longer.len() && (#[trigger] longer[i]).block_type == wall && longer[i].touching;
        if i == blocks.len() {
            assert(front[0] == block);
        } else {
            assert(front[i + 1] == longer[i]);
        }
    }
}

/// Whether `index` is the first monster that the player overlaps.
pub open spec fn is_first_contact(touching: Seq<bool>, index: int) -> bool {
    &&& 0 <= index < touching.len()
    &&& touching[index]
    &&& forall|j: int| 0 <= j < index ==> !touching[j]
}

/// Finds the monster that hurts the player this frame.
///
/// `touching[i]` tells whether the player overlaps monster `i`. While the player
/// is still invincible from the last hit nobody hurts them. Otherwise the first
/// monster they overlap does, and no other.
pub fn monsters_collision_check(invincible_cooldown_finished: bool, touching: &Vec<bool>) -> (hit: Option<usize>)
    ensures
        match hit {
            Some(index) => invincible_cooldown_finished && is_first_contact(touching@, index as int),
            None => !invincible_cooldown_finished || forall|j: int| 0 <= j < touching@.len() ==> !touching@[j],
        },
{
    if !invincible_cooldown_finished {
        return None;
    }
    let mut index: usize = 0;
    while index < touching.len()
        invariant
            invincible_cooldown_finished,
            index <= touching@.len(),
            forall|j: int| 0 <= j < index ==> !touching@[j],
        decreases touching@.len() - index,
    {
        if touching[index] {
            return Some(index);
        }
        index += 1;
    }
    None
}

/// In survival mode monsters hurt the player exactly as in the dungeon.
pub fn monsters_collision_check_survival(invincible_cooldown_finished: bool, touching: &Vec<bool>) -> (hit: Option<usize>)
    ensures
        match hit {
            Some(index) => invincible_cooldown_finished && is_first_contact(touching@, index as int),
            None => !invincible_cooldown_finished || forall|j: int| 0 <= j < touching@.len() ==> !touching@[j],
        },
{
    monsters_collision_check(invincible_cooldown_finished, touching)
}

/// What picking up a potion does.
#[derive(Clone, Copy, Debug, PartialEq, Eq, Structural)]
pub enum PotionAction {
    /// Gives back one health point, up to the maximum.
    Heal,
    /// Starts a timed effect.
    Activate(EffectType),
}

/// A potion in the room and whether the player overlaps it.
#[derive(Clone, Copy, Debug, PartialEq, Eq, Structural)]
pub struct PotionContact {
    pub potion_type: PotionType,
    pub touching: bool,
}

/// A potion picked up: its place in the list of potions and what it does.
#[derive(Clone, Copy, Debug, PartialEq, Eq, Structural)]
pub struct Pickup {
    pub potion: usize,
    pub action: PotionAction,
}

/// What each kind of potion does.
pub open spec fn potion_action(potion_type: PotionType) -> PotionAction {
    match potion_type {
        PotionType::Heal => PotionAction::Heal,
        PotionType::SpeedUp => PotionAction::Activate(EffectType::SpeedUp),
        PotionType::EvasionUp => PotionAction::Activate(EffectType::EvasionUp),
        PotionType::Focus => PotionAction::Activate(EffectType::Focus),
    }
}

/// The potions picked up among the first `n`, in the order in which they lie.
pub open spec fn pickups(potions: Seq<PotionContact>, n: int) -> Seq<Pickup>
    decreases n,
{
    if n <= 0 {
        Seq::empty()
    } else if potions[n - 1].touching {
        pickups(potions, n - 1).push(
            Pickup { potion: (n - 1) as usize, action: potion_action(potions[n - 1].potion_type) },
        )
    } else {
        pickups(potions, n - 1)
    }
}

/// Finds the potions the player picks up this frame.
///
/// Every potion the player overlaps is picked up, in list order, and leaves the
/// room; the others stay.
pub fn potions_collision(potions: &Vec<PotionContact>) -> (picked: Vec<Pickup>)
    ensures
        picked@ == pickups(potions@, potions@.len() as int),
{
    let mut picked: Vec<Pickup> = Vec::new();
    let mut index: usize = 0;
    while index < potions.len()
        invariant
            index <= potions@.len(),
            picked@ == pickups(potions@, index as int),
        decreases potions@.len() - index,
    {
        let potion = potions[index];
        if potion.touching {
            let action = match potion.potion_type {
                PotionType::Heal => PotionAction::Heal,
                PotionType::SpeedUp => PotionAction::Activate(EffectType::SpeedUp),
                PotionType::EvasionUp => PotionAction::Activate(EffectType::EvasionUp),
                PotionType::Focus => PotionAction::Activate(EffectType::Focus),
            };
            picked.push(Pickup { potion: index, action });
        }
        index += 1;
    }
    picked
}

/// Whether a pickup names a potion among the first `n` that the player overlaps,
/// together with what that potion does.
pub open spec fn is_pickup_of(potions: Seq<PotionContact>, n: int, pickup: Pickup) -> bool {
    &&& pickup.potion < n
    &&& potions[pickup.potion as int].touching
    &&& pickup.action == potion_action(potions[pickup.potion as int].potion_type)
}

/// Only overlapped potions are picked up, each with the action of its kind, and
/// they are listed in the order in which they lie.
pub proof fn lemma_pickups_sound(potions: Seq<PotionContact>, n: int)
    requires
        0 <= n <= potions.len(),
        potions.len() <= usize::MAX,
    ensures
        forall|k: int| 0 <= k < pickups(potions, n).len() ==> is_pickup_of(potions, n, #[trigger] pickups(potions, n)[k]),
        forall|j: int, k: int| 0 <= j < k < pickups(potions, n).len() ==> (#[trigger] pickups(potions, n)[j]).potion < (#[trigger] pickups(potions, n)[k]).potion,
    decreases n,
{
    if n > 0 {
        lemma_pickups_sound(potions, n - 1);
        let before = pickups(potions, n - 1);
        let after = pickups(potions, n);
        assert forall|k: int| 0 <= k < after.len() implies is_pickup_of(potions, n, #[trigger] after[k]) by {
            if k < before.len() {
                assert(after[k] == before[k]);
                assert(is_pickup_of(potions, n - 1, before[k]));
            }
        }
        assert forall|j: int, k: int| 0 <= j < k < after.len() implies (#[trigger] after[j]).potion < (#[trigger] after[k]).potion by {
            assert(after[j] == before[j]);
            assert(is_pickup_of(potions, n - 1, before[j]));
            if k < before.len() {
                assert(after[k] == before[k]);
            }
        }
    }
}

/// Every overlapped potion is picked up.
pub proof fn lemma_pickups_complete(potions: Seq<PotionContact>, n: int, i: int)
    requires
        0 <= i < n <= potions.len(),
        potions.len() <= usize::MAX,
        potions[i].touching,
    ensures
        exists|k: int| 0 <= k < pickups(potions, n).len() && (#[trigger] pickups(potions, n)[k]).potion == i,
    decreases n,
{
    let after = pickups(potions, n);
    if i == n - 1 {
        assert(after[after.len() - 1].potion == i);
    } else {
        lemma_pickups_complete(potions, n - 1, i);
        let before = pickups(potions, n - 1);
        let k = choose|k: int| 0 <= k < before.len() && (#[trigger] before[k]).potion == i;
        assert(after[k] == before[k]);
    }
}

} // verus!
