//! The curse level: a session-wide counter that combat drives upward, and the
//! one-shot reconciliation that turns its changes into presentation.

use vstd::prelude::*;
use crate::gun::Gun;
use crate::timer::{Timer, TimerMode};

verus! {

/// Curse gained when an enemy dies.
pub const ENEMY_CURSE: u32 = 1;

/// Curse gained when the boss dies.
pub const BOSS_CURSE: u32 = 100;

/// Curse level from which every gun fires fast.
pub const FAST_FIRE_LEVEL: u32 = 2;

/// Curse level above which the session has reached its end.
pub const TERMINAL_LEVEL: u32 = 100;

/// Cooldown of a fast-firing gun, in nanoseconds.
pub const FAST_FIRE_COOLDOWN: u64 = 100_000_000;

/// The curse level and whether it changed since the last reconciliation.
#[derive(Clone, Copy, PartialEq, Eq, Debug, Structural)]
pub struct CurseLevel {
    pub value: u32,
    pub needs_change: bool,
}

/// Something that happened in the world and moves the curse level.
#[derive(Clone, Copy, PartialEq, Eq, Debug, Structural)]
pub enum LevelEvent {
    /// The player picked the gun up: the level is set to one.
    GunPickedUp,
    /// An enemy died: the level rises by `ENEMY_CURSE`.
    EnemyDied,
    /// The boss died: the level rises by `BOSS_CURSE`.
    BossDied,
}

/// Presentation tier of the terrain.
#[derive(Clone, Copy, PartialEq, Eq, Debug, Structural)]
pub enum Tier {
    Tier0,
    Tier1,
    Tier2,
    Tier3,
}

/// What a reconciliation asks of the presentation.
#[derive(Clone, Copy, PartialEq, Eq, Debug, Structural)]
pub struct TierChange {
    /// Tier that the terrain is to show.
    pub tier: Tier,
    /// Whether every gun has been switched to the fast cooldown.
    pub fast_fire: bool,
    /// Whether the end marker is to be shown.
    pub terminal: bool,
}

/// Tier of a curse level: `0`, `1`, `2` to `6`, and `7` or more.
pub open spec fn tier_of(value: u32) -> Tier {
    if value == 0 {
        Tier::Tier0
    } else if value == 1 {
        Tier::Tier1
    } else if value < 7 {
        Tier::Tier2
    } else {
        Tier::Tier3
    }
}

/// Computes `tier_of`.
pub fn tier(value: u32) -> (t: Tier)
    ensures
        t == tier_of(value),
{
    if value == 0 {
        Tier::Tier0
    } else if value == 1 {
        Tier::Tier1
    } else if value < 7 {
        Tier::Tier2
    } else {
        Tier::Tier3
    }
}

impl CurseLevel {
    /// The level at the start of a session.
    pub open spec fn initial() -> CurseLevel {
        CurseLevel { value: 0, needs_change: false }
    }

    /// Value of the level after an event, as an unbounded number.
    pub open spec fn value_after(self, event: LevelEvent) -> int {
        match event {
            LevelEvent::GunPickedUp => 1,
            LevelEvent::EnemyDied => self.value + ENEMY_CURSE,
            LevelEvent::BossDied => self.value + BOSS_CURSE,
        }
    }

    /// The level after an event: the new value, marked as changed.
    pub open spec fn after(self, event: LevelEvent) -> CurseLevel {
        CurseLevel { value: self.value_after(event) as u32, needs_change: true }
    }

    /// What a reconciliation reports: nothing unless the level is marked as
    /// changed; otherwise the tier of the value, whether guns fire fast, and
    /// whether the end has been reached.
    pub open spec fn report(self) -> Option<TierChange> {
        if self.needs_change {
            Some(
                TierChange {
                    tier: tier_of(self.value),
                    fast_fire: self.value >= FAST_FIRE_LEVEL,
                    terminal: self.value > TERMINAL_LEVEL,
                },
            )
        } else {
            None
        }
    }

    /// The level after a reconciliation: the same value, no longer marked.
    pub open spec fn reconciled(self) -> CurseLevel {
        CurseLevel { value: self.value, needs_change: false }
    }

    /// The level at the start of a session.
    pub fn new() -> (level: CurseLevel)
        ensures
            level == CurseLevel::initial(),
    {
        CurseLevel { value: 0, needs_change: false }
    }

    /// Whether `event` can be recorded without the value leaving `u32`.
    pub fn can_record(&self, event: LevelEvent) -> (ok: bool)
        ensures
            ok == (self.value_after(event) <= u32::MAX),
    {
        match event {
            LevelEvent::GunPickedUp => true,
            LevelEvent::EnemyDied => self.value <= u32::MAX - ENEMY_CURSE,
            LevelEvent::BossDied => self.value <= u32::MAX - BOSS_CURSE,
        }
    }

    /// Records an event. Only the pickup of the gun can lower the value.
    pub fn record(&mut self, event: LevelEvent)
        requires
            old(self).value_after(event) <= u32::MAX,
        ensures
            *final(self) == old(self).after(event),
            final(self).value == old(self).value_after(event),
            final(self).needs_change,
            event != LevelEvent::GunPickedUp ==> final(self).value >= old(self).value,
    {
        match event {
            LevelEvent::GunPickedUp => {
                self.value = 1;
            },
            LevelEvent::EnemyDied => {
                self.value = self.value + ENEMY_CURSE;
            },
            LevelEvent::BossDied => {
                self.value = self.value + BOSS_CURSE;
            },
        }
        self.needs_change = true;
    }

    /// Reconciles the presentation with the level, once per change: reports
    /// what is to be shown if the level is marked as changed, and clears the
    /// mark. The value is never touched.
    pub fn reconcile(&mut self) -> (change: Option<TierChange>)
        ensures
            change == old(self).report(),
            *final(self) == old(self).reconciled(),
    {
        if !self.needs_change {
            return None;
        }
        self.needs_change = false;
        Some(
            TierChange {
                tier: tier(self.value),
                fast_fire: self.value >= FAST_FIRE_LEVEL,
                terminal: self.value > TERMINAL_LEVEL,
            },
        )
    }
}

/// The guns after a reconciliation that reported `change`: each has the fast
/// repeating cooldown if the report says so, and is untouched otherwise.
pub open spec fn guns_after(guns: Seq<Gun>, change: Option<TierChange>) -> Seq<Gun> {
    if change is Some && change->Some_0.fast_fire {
        Seq::new(
            guns.len(),
            |i: int|
                Gun {
                    shooting_cooldown: Timer::fresh(FAST_FIRE_COOLDOWN, TimerMode::Repeating),
                    ..guns[i]
                },
        )
    } else {
        guns
    }
}

/// Reconciles the level and applies the fast cooldown to every gun when the
/// report calls for it. A gun that fires fast stays so: nothing here ever
/// gives a slow cooldown back.
pub fn curse_level_change(level: &mut CurseLevel, guns: &mut Vec<Gun>) -> (change: Option<
    TierChange,
>)
    ensures
        change == old(level).report(),
        *final(level) == old(level).reconciled(),
        final(guns)@ == guns_after(old(guns)@, change),
{
    let change = level.reconcile();
    let fast: bool = match change {
        Some(c) => c.fast_fire,
        None => false,
    };
    if fast {
        let n: usize = guns.len();
        let mut i: usize = 0;
        while i < n
            invariant
                i <= n,
                n == guns.len(),
                n == old(guns).len(),
                forall|k: int|
                    0 <= k < i ==> #[trigger] guns[k] == (Gun {
                        shooting_cooldown: Timer::fresh(FAST_FIRE_COOLDOWN, TimerMode::Repeating),
                        ..old(guns)[k]
                    }),
                forall|k: int| i <= k < n ==> #[trigger] guns[k] == old(guns)[k],
            decreases n - i,
        {
            guns[i].shooting_cooldown = Timer::new(FAST_FIRE_COOLDOWN, TimerMode::Repeating);
            i = i + 1;
        }
        assert(guns@ =~= guns_after(old(guns)@, change));
    }
    change
}

/// Only the pickup of the gun can lower the curse level: after any other
/// event the value is at least what it was.
pub proof fn lemma_value_never_falls_without_pickup(level: CurseLevel, event: LevelEvent)
    requires
        event != LevelEvent::GunPickedUp,
    ensures
        level.value_after(event) >= level.value,
        level.value_after(event) <= u32::MAX ==> level.after(event).value >= level.value,
        level.reconciled().value == level.value,
{
}

/// A pickup sets the level to exactly one, whatever it was.
pub proof fn lemma_pickup_resets_to_one(level: CurseLevel)
    ensures
        level.after(LevelEvent::GunPickedUp) == (CurseLevel { value: 1, needs_change: true }),
{
}

/// Reconciling twice in a row is reconciling once: the second run reports
/// nothing and changes nothing.
pub proof fn lemma_reconcile_is_idempotent(level: CurseLevel)
    ensures
        level.reconciled().report() is None,
        level.reconciled().reconciled() == level.reconciled(),
        forall|guns: Seq<Gun>| guns_after(guns, level.reconciled().report()) == guns,
{
}

} // verus!
