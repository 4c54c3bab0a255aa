//! Sound events emitted while typing.

use vstd::prelude::*;

verus! {

/// Kind of sound event.
#[derive(Debug, Clone, Copy, PartialEq, Eq, Structural)]
pub enum SoundEvent {
    KeyPress,
    Error,
    LessonComplete,
    AchievementUnlocked,
}

/// Stable snake-case name of an event.
pub open spec fn sound_event_name(e: SoundEvent) -> Seq<char> {
    match e {
        SoundEvent::KeyPress => "key_press"@,
        SoundEvent::Error => "error"@,
        SoundEvent::LessonComplete => "lesson_complete"@,
        SoundEvent::AchievementUnlocked => "achievement_unlocked"@,
    }
}

/// Tone length of an event in milliseconds.
pub open spec fn sound_event_duration(e: SoundEvent) -> u64 {
    match e {
        SoundEvent::KeyPress => 20,
        SoundEvent::Error => 80,
        SoundEvent::LessonComplete => 300,
        SoundEvent::AchievementUnlocked => 500,
    }
}

impl SoundEvent {
    /// Snake-case name of the event.
    pub fn as_str(&self) -> (s: &'static str)
        ensures
            s@ == sound_event_name(*self),
    {
        match self {
            SoundEvent::KeyPress => "key_press",
            SoundEvent::Error => "error",
            SoundEvent::LessonComplete => "lesson_complete",
            SoundEvent::AchievementUnlocked => "achievement_unlocked",
        }
    }

    /// Tone length in milliseconds.
    pub fn duration_ms(&self) -> (d: u64)
        ensures
            d == sound_event_duration(*self),
    {
        match self {
            SoundEvent::KeyPress => 20,
            SoundEvent::Error => 80,
            SoundEvent::LessonComplete => 300,
            SoundEvent::AchievementUnlocked => 500,
        }
    }
}

/// What decides whether a sound plays: whether sound is on, when each event
/// last played, and the cooldown between two plays of one event.
pub struct SoundEngineView {
    pub enabled: bool,
    pub last_played: Map<SoundEvent, u64>,
    pub cooldown_ms: u64,
}

/// Plays sound events, at most once per cooldown for each event. The tone
/// and the volume are the caller's.
pub struct SoundEngine {
    enabled: bool,
    last_played: [Option<u64>; 4],
    cooldown_ms: u64,
}

/// Position of an event's slot.
pub open spec fn event_slot(e: SoundEvent) -> int {
    match e {
        SoundEvent::KeyPress => 0,
        SoundEvent::Error => 1,
        SoundEvent::LessonComplete => 2,
        SoundEvent::AchievementUnlocked => 3,
    }
}

fn slot_of(e: SoundEvent) -> (i: usize)
    ensures
        i == event_slot(e),
{
    match e {
        SoundEvent::KeyPress => 0,
        SoundEvent::Error => 1,
        SoundEvent::LessonComplete => 2,
        SoundEvent::AchievementUnlocked => 3,
    }
}

impl View for SoundEngine {
    type V = SoundEngineView;

    closed spec fn view(&self) -> SoundEngineView {
        SoundEngineView {
            enabled: self.enabled,
            last_played: Map::new(
                |e: SoundEvent| self.last_played[event_slot(e)] is Some,
                |e: SoundEvent| self.last_played[event_slot(e)]->Some_0,
            ),
            cooldown_ms: self.cooldown_ms,
        }
    }
}

/// Whether `event` plays at `now_ms`: sound is on, and the event never
/// played or its cooldown has passed (time running backwards counts as no
/// time passed).
pub open spec fn plays(v: SoundEngineView, event: SoundEvent, now_ms: u64) -> bool {
    v.enabled && (!v.last_played.contains_key(event) || (if now_ms >= v.last_played[event] {
        now_ms - v.last_played[event]
    } else {
        0
    }) >= v.cooldown_ms)
}

impl SoundEngine {
    /// An engine with sound on or off, nothing played yet and a 50 ms
    /// cooldown.
    pub fn new(enabled: bool) -> (e: SoundEngine)
        ensures
            e@.enabled == enabled,
            e@.last_played == Map::<SoundEvent, u64>::empty(),
            e@.cooldown_ms == 50,
    {
        let e = SoundEngine { enabled, last_played: [None, None, None, None], cooldown_ms: 50 };
        assert(e@.last_played =~= Map::<SoundEvent, u64>::empty());
        e
    }

    /// Whether sound is on.
    pub fn is_enabled(&self) -> (b: bool)
        ensures
            b == self@.enabled,
    {
        self.enabled
    }

    /// Turns sound on or off.
    pub fn set_enabled(&mut self, enabled: bool)
        ensures
            final(self)@.enabled == enabled,
            final(self)@.last_played == old(self)@.last_played,
            final(self)@.cooldown_ms == old(self)@.cooldown_ms,
    {
        self.enabled = enabled;
        assert(self@.last_played =~= old(self)@.last_played);
    }

    /// Whether `event` would play at `now_ms`.
    pub fn should_play(&self, event: SoundEvent, now_ms: u64) -> (b: bool)
        ensures
            b == plays(self@, event, now_ms),
    {
        if !self.enabled {
            return false;
        }
        match self.last_played[slot_of(event)] {
            Some(last) => now_ms.saturating_sub(last) >= self.cooldown_ms,
            None => true,
        }
    }

    /// Plays `event` at `now_ms` when it may: then records the time.
    /// Returns whether it played.
    pub fn try_play(&mut self, event: SoundEvent, now_ms: u64) -> (played: bool)
        ensures
            played == plays(old(self)@, event, now_ms),
            final(self)@.enabled == old(self)@.enabled,
            final(self)@.cooldown_ms == old(self)@.cooldown_ms,
            final(self)@.last_played == if played {
                old(self)@.last_played.insert(event, now_ms)
            } else {
                old(self)@.last_played
            },
    {
        if !self.should_play(event, now_ms) {
            assert(self@.last_played =~= old(self)@.last_played);
            return false;
        }
        let i = slot_of(event);
        self.last_played[i] = Some(now_ms);
        assert(self@.last_played =~= old(self)@.last_played.insert(event, now_ms));
        true
    }

    /// Forgets when events last played.
    pub fn reset_cooldown(&mut self)
        ensures
            final(self)@.enabled == old(self)@.enabled,
            final(self)@.cooldown_ms == old(self)@.cooldown_ms,
            final(self)@.last_played == Map::<SoundEvent, u64>::empty(),
    {
        self.last_played = [None, None, None, None];
        assert(self@.last_played =~= Map::<SoundEvent, u64>::empty());
    }
}

/// An event that just played does not play again within its cooldown,
/// and plays again once the cooldown has passed; other events are not held
/// back by it.
pub proof fn cooldown_holds_back_only_the_played_event(
    v: SoundEngineView,
    event: SoundEvent,
    other: SoundEvent,
    t: u64,
    later: u64,
)
    requires
        plays(v, event, t),
        other != event,
        t <= later,
    ensures
        plays(
            SoundEngineView { last_played: v.last_played.insert(event, t), ..v },
            event,
            later,
        ) == (later - t >= v.cooldown_ms),
        plays(SoundEngineView { last_played: v.last_played.insert(event, t), ..v }, other, later)
            == plays(v, other, later),
{
}

} // verus!
