//! Arena of spawned entities, keyed by the screen that owns them. Exiting a
//! screen removes every entity tagged for it, so no entity outlives the
//! screen that spawned it.

use vstd::prelude::*;

verus! {

/// The screen scope an entity is tagged for.
#[derive(Clone, Copy, PartialEq, Eq, Structural, Debug)]
pub enum ScreenTag {
    /// The main menu page.
    MainMenuScreen,
    /// The game-selection page.
    GameMenuScreen,
    /// The pong game screen.
    PongScreen,
    /// The letter-grid game screen.
    BoogleScreen,
    /// The splash screen.
    LoadingScreen,
}

/// What a spawned entity stands for.
#[derive(Clone, Copy, PartialEq, Eq, Structural, Debug)]
pub enum EntityKind {
    /// The root node of a screen's widgets.
    UiRoot,
    /// A static wall collider or the exit surface.
    Wall,
    /// The player's paddle.
    Paddle,
    /// The ball.
    Ball,
}

/// One spawned entity: its owning screen and what it stands for.
#[derive(Clone, Copy, PartialEq, Eq, Structural, Debug)]
pub struct Entity {
    /// The screen that owns the entity.
    pub tag: ScreenTag,
    /// What the entity stands for.
    pub kind: EntityKind,
}

/// The arena with every entity of the given screen removed; the others keep
/// their order.
pub open spec fn without_screen(s: Seq<Entity>, tag: ScreenTag) -> Seq<Entity>
    decreases s.len(),
{
    if s.len() == 0 {
        Seq::empty()
    } else {
        let rest = without_screen(s.drop_last(), tag);
        if s.last().tag != tag {
            rest.push(s.last())
        } else {
            rest
        }
    }
}

/// Remove every entity tagged for the given screen; all others stay, in
/// order.
pub fn despawn_screen(entities: &mut Vec<Entity>, tag: ScreenTag)
    ensures
        final(entities)@ == without_screen(old(entities)@, tag),
{
    let ghost all = entities@;
    let mut kept: Vec<Entity> = Vec::new();
    let mut i: usize = 0;
    while i < entities.len()
        invariant
            entities@ == all,
            i <= all.len(),
            kept@ == without_screen(all.take(i as int), tag),
        decreases all.len() - i,
    {
        let e = entities[i];
        if !(e.tag == tag) {
            kept.push(e);
        }
        proof {
            let t1 = all.take(i + 1);
            assert(t1.last() == e);
            assert(t1.drop_last() =~= all.take(i as int));
        }
        i = i + 1;
    }
    proof {
        assert(all.take(all.len() as int) =~= all);
    }
    *entities = kept;
}

} // verus!
