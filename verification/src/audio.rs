//! One-shot sound cues the simulation emits, and the music situation it implies.
//!
//! The core does not know what a sound *is*. It reports that something happened
//! and what the fight currently looks like; a frontend maps that onto whatever
//! the sound pack provides.
use vstd::prelude::*;

verus! {

/// Most cues one tick may queue. A tick is 1/60 s; more than a handful of
/// identical cues in one tick would only phase against each other anyway.
pub const MAX_QUEUED_EVENTS: usize = 16;

/// A thing that just happened and wants a sound.
#[derive(Clone, Copy, Debug, PartialEq, Eq, Structural)]
pub enum AudioEvent {
    /// A player swung. Not "a hit landed" - the swing is what the player feels.
    Hit,
    Jump,
    /// The slam landed and put up the wall. Not every landing: an ordinary
    /// touchdown is silent, only the wall effect is heard.
    Slam,
}

/// Which of the mutually exclusive background themes belongs to this moment.
#[derive(Clone, Copy, Debug, PartialEq, Eq, Structural)]
pub enum Situation {
    /// Menus and the lull between waves.
    Calm,
    Combat,
    Paused,
}

/// Everything the music needs to pick its layer volumes this tick.
#[derive(Clone, Copy, Debug, PartialEq, Eq, Structural)]
pub struct MusicState {
    pub situation: Situation,
    pub zombies: usize,
    pub flyers: usize,
    pub boss: bool,
}

/// Where an effect sits in a pack's list of three: hit, jump, then the slam.
pub open spec fn spec_sfx_index(event: AudioEvent) -> usize {
    match event {
        AudioEvent::Hit => 0,
        AudioEvent::Jump => 1,
        AudioEvent::Slam => 2,
    }
}

/// The three effects, in the order the pack lists them.
pub fn sfx_index(event: AudioEvent) -> (i: usize)
    ensures
        i == spec_sfx_index(event),
        i < 3,
{
    match event {
        AudioEvent::Hit => 0,
        AudioEvent::Jump => 1,
        AudioEvent::Slam => 2,
    }
}

/// Collected during a tick, drained by the frontend afterwards.
#[derive(Debug)]
pub struct AudioQueue {
    events: Vec<AudioEvent>,
}

impl View for AudioQueue {
    type V = Seq<AudioEvent>;

    closed spec fn view(&self) -> Seq<AudioEvent> {
        self.events@
    }
}

impl Default for AudioQueue {
    fn default() -> (q: Self)
        ensures
            q@ == Seq::<AudioEvent>::empty(),
    {
        AudioQueue { events: Vec::new() }
    }
}

impl Clone for AudioQueue {
    fn clone(&self) -> (q: Self)
        ensures
            q@ == self@,
    {
        proof {
            use_type_invariant(self);
        }
        let mut events: Vec<AudioEvent> = Vec::new();
        let mut i: usize = 0;
        while i < self.events.len()
            invariant
                i <= self.events@.len(),
                self.events@.len() <= MAX_QUEUED_EVENTS,
                events@ == self.events@.subrange(0, i as int),
            decreases self.events@.len() - i,
        {
            events.push(self.events[i]);
            i += 1;
        }
        AudioQueue { events }
    }
}

impl AudioQueue {
    /// The queue holds at most [`MAX_QUEUED_EVENTS`] cues.
    #[verifier::type_invariant]
    closed spec fn bounded(&self) -> bool {
        self.events@.len() <= MAX_QUEUED_EVENTS
    }

    pub fn new() -> (q: Self)
        ensures
            q@ == Seq::<AudioEvent>::empty(),
    {
        AudioQueue { events: Vec::new() }
    }

    /// Queues a cue unless the tick's queue is already full, in which case the
    /// cue is dropped.
    pub fn push(&mut self, event: AudioEvent)
        ensures
            old(self)@.len() < MAX_QUEUED_EVENTS ==> final(self)@ == old(self)@.push(event),
            old(self)@.len() >= MAX_QUEUED_EVENTS ==> final(self)@ == old(self)@,
            final(self)@.len() <= MAX_QUEUED_EVENTS,
    {
        proof {
            use_type_invariant(&*self);
        }
        if self.events.len() < MAX_QUEUED_EVENTS {
            let mut events = Vec::new();
            std::mem::swap(&mut events, &mut self.events);
            events.push(event);
            self.events = events;
        }
    }

    /// Hands over every queued cue, oldest first, and empties the queue.
    pub fn drain(&mut self) -> (events: Vec<AudioEvent>)
        ensures
            events@ == old(self)@,
            final(self)@ == Seq::<AudioEvent>::empty(),
    {
        let mut taken = Vec::new();
        std::mem::swap(&mut taken, &mut self.events);
        taken
    }

    pub fn clear(&mut self)
        ensures
            final(self)@ == Seq::<AudioEvent>::empty(),
    {
        self.events = Vec::new();
    }

    pub fn len(&self) -> (n: usize)
        ensures
            n == self@.len(),
            n <= MAX_QUEUED_EVENTS,
    {
        proof {
            use_type_invariant(self);
        }
        self.events.len()
    }
}

/// Which live count a music layer follows.
#[derive(Clone, Copy, Debug, PartialEq, Eq, Structural)]
pub enum CountOf {
    Zombie,
    Flyer,
}

pub open spec fn spec_count_of(of: CountOf, state: MusicState) -> usize {
    match of {
        CountOf::Zombie => state.zombies,
        CountOf::Flyer => state.flyers,
    }
}

/// The live count a layer rises with.
pub fn count_of(of: CountOf, state: &MusicState) -> (n: usize)
    ensures
        n == spec_count_of(of, *state),
{
    match of {
        CountOf::Zombie => state.zombies,
        CountOf::Flyer => state.flyers,
    }
}

/// The last step among the first `upto` whose threshold `n` has reached.
pub open spec fn reached_step(n: usize, thresholds: Seq<usize>, upto: int) -> Option<usize>
    decreases upto,
{
    if upto <= 0 {
        None
    } else if n >= thresholds[upto - 1] {
        Some((upto - 1) as usize)
    } else {
        reached_step(n, thresholds, upto - 1)
    }
}

/// Which of a layer's volume steps a count has reached: the last one in the
/// list whose threshold is at most the count, or none at all.
pub fn highest_step(n: usize, thresholds: &[usize]) -> (step: Option<usize>)
    ensures
        step == reached_step(n, thresholds@, thresholds@.len() as int),
        step matches Some(i) ==> i < thresholds@.len() && n >= thresholds@[i as int],
        step matches Some(i) ==> forall|j: int| i < j < thresholds@.len() ==> n < thresholds@[j],
        step is None ==> forall|j: int| 0 <= j < thresholds@.len() ==> n < thresholds@[j],
{
    let mut found: Option<usize> = None;
    let mut i: usize = 0;
    while i < thresholds.len()
        invariant
            i <= thresholds@.len(),
            found == reached_step(n, thresholds@, i as int),
            found matches Some(k) ==> k < i && n >= thresholds@[k as int],
            found matches Some(k) ==> forall|j: int| k < j < i ==> n < thresholds@[j],
            found is None ==> forall|j: int| 0 <= j < i ==> n < thresholds@[j],
        decreases thresholds@.len() - i,
    {
        if n >= thresholds[i] {
            found = Some(i);
        }
        i += 1;
    }
    found
}

/// Whether a situation is among those a layer lists.
pub fn situation_listed(situation: Situation, listed: &[Situation]) -> (b: bool)
    ensures
        b == listed@.contains(situation),
{
    let mut i: usize = 0;
    while i < listed.len()
        invariant
            i <= listed@.len(),
            forall|j: int| 0 <= j < i ==> listed@[j] != situation,
        decreases listed@.len() - i,
    {
        if listed[i] == situation {
            return true;
        }
        i += 1;
    }
    false
}

} // verus!
