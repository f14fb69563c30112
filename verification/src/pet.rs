//! The pet's state and the rules that change it.
//!
//! A pet has three needs. Food and happiness are counters from 0 to 4
//! that the player raises by feeding and playing. Weight runs from 0 to
//! 100 and rises whenever a feed fills the pet up. On every tick the
//! frame of the animation flips, the mood is derived from the needs, and
//! then chance may wear each need down a little.

use vstd::prelude::*;

verus! {

/// Highest value of the food counter.
pub const MAX_FOOD: u8 = 4;

/// Highest value of the happiness counter.
pub const MAX_HAPPINESS: u8 = 4;

/// Highest value of the weight. A pet that is found at it on a tick dies.
pub const MAX_WEIGHT: u8 = 100;

/// Weight of a new pet. Chance wears the weight down only while it is above this.
pub const BASE_WEIGHT: u8 = 5;

/// What the feed that fills the pet up adds to the weight.
pub const FEED_GAIN: u8 = 2;

/// What one decay takes off the weight.
pub const WEIGHT_LOSS: u8 = 2;

/// Least food, and least happiness, of a happy pet.
pub const CONTENT_LEVEL: u8 = 2;

/// Number of outcomes of one decay roll: a roll is one of `0 .. ROLL_SIDES`.
pub const ROLL_SIDES: u8 = 100;

/// Food decays on a roll below this, which is 5 outcomes in 100.
pub const FOOD_DECAY_BELOW: u8 = 5;

/// Happiness decays on a roll below this, which is 5 outcomes in 100.
pub const HAPPINESS_DECAY_BELOW: u8 = 5;

/// Weight decays on a roll below this, which is 1 outcome in 100.
pub const WEIGHT_DECAY_BELOW: u8 = 1;

/// How the pet feels. The mood is derived from the needs on every tick
/// and is never set by an action of the player.
#[derive(Clone, Copy, Debug, PartialEq, Eq, Structural)]
pub enum Mood {
    Happy,
    Sad,
    Hungry,
    Dead,
}

/// The frame of the animation. It flips on every tick and only decides
/// which drawing is shown.
#[derive(Clone, Copy, Debug, PartialEq, Eq, Structural)]
pub enum Position {
    Pos1,
    Pos2,
}

/// The pet.
#[derive(Clone, Copy, Debug, PartialEq, Eq, Structural)]
pub struct Pet {
    /// The mood as the last tick derived it.
    pub mood: Mood,
    /// How well fed the pet is, from 0 to `MAX_FOOD`.
    pub food: u8,
    /// How much it has been played with, from 0 to `MAX_HAPPINESS`.
    pub happiness: u8,
    /// Its weight, from 0 to `MAX_WEIGHT`.
    pub weight: u8,
    /// The frame of the animation.
    pub position: Position,
}

/// The three rolls of one tick, one for each need. A need decays when its
/// roll is below the need's threshold, so a roll of 0 always wears the
/// need down and a roll of `ROLL_SIDES - 1` never does.
#[derive(Clone, Copy, Debug, PartialEq, Eq, Structural)]
pub struct DecayRolls {
    pub food: u8,
    pub happiness: u8,
    pub weight: u8,
}

/// One thing that happens to a pet.
#[derive(Clone, Copy, Debug, PartialEq, Eq, Structural)]
pub enum Event {
    /// The player feeds it.
    Feed,
    /// The player plays with it.
    Play,
    /// A tick passes, with these rolls.
    Tick(DecayRolls),
}

/// Draws a number with `rand::random_range` over the half-open range from
/// 0 to `bound`, on the generator of the current thread.
///
/// Trusted: the number is below `bound`. `rand` panics on an empty range,
/// so `bound` must not be 0. Which number comes is left open, and two
/// calls need not agree. (`rand` also panics when the operating system
/// cannot seed the generator.)
#[verifier::external_body]
fn roll_below(bound: u8) -> (roll: u8)
    requires
        bound > 0,
    ensures
        roll < bound,
{
    rand::random_range(0..bound)
}

impl DecayRolls {
    /// Every roll is one of the `ROLL_SIDES` outcomes.
    pub open spec fn in_range(self) -> bool {
        &&& self.food < ROLL_SIDES
        &&& self.happiness < ROLL_SIDES
        &&& self.weight < ROLL_SIDES
    }

    /// Rolls at random for food, happiness and weight, in that order.
    /// Each roll is drawn on its own, evenly from the `ROLL_SIDES`
    /// outcomes as far as `rand` makes it so.
    pub fn draw() -> (rolls: DecayRolls)
        ensures
            rolls.in_range(),
    {
        let food: u8 = roll_below(ROLL_SIDES);
        let happiness: u8 = roll_below(ROLL_SIDES);
        let weight: u8 = roll_below(ROLL_SIDES);
        DecayRolls { food, happiness, weight }
    }
}

impl Mood {
    /// The mood that food and happiness alone call for: happy when both
    /// reach `CONTENT_LEVEL`; sad when happiness falls short, whatever the
    /// food; hungry when only the food falls short.
    pub open spec fn of_needs(food: u8, happiness: u8) -> Mood {
        if happiness >= CONTENT_LEVEL && food >= CONTENT_LEVEL {
            Mood::Happy
        } else if happiness < CONTENT_LEVEL {
            Mood::Sad
        } else {
            Mood::Hungry
        }
    }

    /// This mood, unless the weight is at `MAX_WEIGHT`: then the pet is dead.
    pub open spec fn unless_overweight(self, weight: u8) -> Mood {
        if weight == MAX_WEIGHT {
            Mood::Dead
        } else {
            self
        }
    }

    /// The mood of a pet with these needs: first what food and happiness
    /// call for, then the override by weight.
    pub open spec fn derived(food: u8, happiness: u8, weight: u8) -> Mood {
        Mood::of_needs(food, happiness).unless_overweight(weight)
    }

    /// First stage of the derivation: the mood by food and happiness.
    pub fn from_needs(food: u8, happiness: u8) -> (mood: Mood)
        ensures
            mood == Mood::of_needs(food, happiness),
    {
        if happiness >= CONTENT_LEVEL && food >= CONTENT_LEVEL {
            Mood::Happy
        } else if happiness < CONTENT_LEVEL {
            Mood::Sad
        } else {
            Mood::Hungry
        }
    }

    /// Second stage of the derivation: death by weight overrides any mood.
    pub fn or_dead(self, weight: u8) -> (mood: Mood)
        ensures
            mood == self.unless_overweight(weight),
            mood == Mood::Dead <==> weight == MAX_WEIGHT || self == Mood::Dead,
    {
        if weight == MAX_WEIGHT {
            Mood::Dead
        } else {
            self
        }
    }
}

impl Position {
    /// The other frame.
    pub open spec fn flipped(self) -> Position {
        match self {
            Position::Pos1 => Position::Pos2,
            Position::Pos2 => Position::Pos1,
        }
    }

    /// Gives the other frame.
    pub fn toggled(self) -> (next: Position)
        ensures
            next == self.flipped(),
            next != self,
    {
        match self {
            Position::Pos1 => Position::Pos2,
            Position::Pos2 => Position::Pos1,
        }
    }
}

impl Pet {
    /// The needs are within their ranges.
    pub open spec fn wf(self) -> bool {
        &&& self.food <= MAX_FOOD
        &&& self.happiness <= MAX_HAPPINESS
        &&& self.weight <= MAX_WEIGHT
    }

    /// A pet at the start of its life: happy, with no food and no
    /// happiness yet, at `BASE_WEIGHT`, in the first frame.
    pub open spec fn initial() -> Pet {
        Pet {
            mood: Mood::Happy,
            food: 0,
            happiness: 0,
            weight: BASE_WEIGHT,
            position: Position::Pos1,
        }
    }

    /// A weight after the gain of a filling feed: `FEED_GAIN` more, but
    /// not above `MAX_WEIGHT`.
    pub open spec fn gained(weight: u8) -> u8 {
        if weight + FEED_GAIN >= MAX_WEIGHT {
            MAX_WEIGHT
        } else {
            (weight + FEED_GAIN) as u8
        }
    }

    /// The pet after one feed. Food below `MAX_FOOD` rises by 1, and the
    /// feed that brings it to `MAX_FOOD` makes the pet gain weight. A pet
    /// that is full already is left as it is.
    pub open spec fn fed(self) -> Pet {
        if self.food >= MAX_FOOD {
            self
        } else if self.food + 1 == MAX_FOOD {
            Pet { food: MAX_FOOD, weight: Pet::gained(self.weight), ..self }
        } else {
            Pet { food: (self.food + 1) as u8, ..self }
        }
    }

    /// The pet after one play. Happiness below `MAX_HAPPINESS` rises by 1.
    pub open spec fn played(self) -> Pet {
        if self.happiness >= MAX_HAPPINESS {
            self
        } else {
            Pet { happiness: (self.happiness + 1) as u8, ..self }
        }
    }

    /// The pet after chance has worn its needs down. Each need whose roll
    /// is below its threshold drops: food and happiness by 1 unless they
    /// are 0, weight by `WEIGHT_LOSS` unless it is at `BASE_WEIGHT` or
    /// below.
    pub open spec fn decayed(self, rolls: DecayRolls) -> Pet {
        Pet {
            food: if rolls.food < FOOD_DECAY_BELOW && self.food > 0 {
                (self.food - 1) as u8
            } else {
                self.food
            },
            happiness: if rolls.happiness < HAPPINESS_DECAY_BELOW && self.happiness > 0 {
                (self.happiness - 1) as u8
            } else {
                self.happiness
            },
            weight: if rolls.weight < WEIGHT_DECAY_BELOW && self.weight > BASE_WEIGHT {
                (self.weight - WEIGHT_LOSS) as u8
            } else {
                self.weight
            },
            ..self
        }
    }

    /// The pet one tick later: the frame flips, the mood is derived from
    /// the needs as they are, and only then do the needs decay.
    pub open spec fn ticked(self, rolls: DecayRolls) -> Pet {
        Pet {
            position: self.position.flipped(),
            mood: Mood::derived(self.food, self.happiness, self.weight),
            ..self
        }.decayed(rolls)
    }

    /// The pet after one event.
    pub open spec fn after_event(self, event: Event) -> Pet {
        match event {
            Event::Feed => self.fed(),
            Event::Play => self.played(),
            Event::Tick(rolls) => self.ticked(rolls),
        }
    }

    /// The pet after a history of events, the earliest first.
    pub open spec fn after(self, events: Seq<Event>) -> Pet
        decreases events.len(),
    {
        if events.len() == 0 {
            self
        } else {
            self.after(events.drop_last()).after_event(events.last())
        }
    }

    /// A new pet.
    pub fn new() -> (pet: Pet)
        ensures
            pet == Pet::initial(),
            pet.wf(),
    {
        Pet {
            mood: Mood::Happy,
            food: 0,
            happiness: 0,
            weight: BASE_WEIGHT,
            position: Position::Pos1,
        }
    }

    /// Feeds the pet. The mood plays no part: a dead pet is fed like any
    /// other.
    pub fn feed(&mut self)
        ensures
            *final(self) == old(self).fed(),
            old(self).food < MAX_FOOD - 1 ==> final(self).food == old(self).food + 1
                && final(self).weight == old(self).weight,
            old(self).food == MAX_FOOD - 1 ==> final(self).food == MAX_FOOD
                && final(self).weight == Pet::gained(old(self).weight),
            old(self).food >= MAX_FOOD ==> *final(self) == *old(self),
            old(self).wf() ==> final(self).wf(),
    {
        if self.food < MAX_FOOD {
            self.food = self.food + 1;
            if self.food == MAX_FOOD {
                self.weight = if self.weight >= MAX_WEIGHT - FEED_GAIN {
                    MAX_WEIGHT
                } else {
                    self.weight + FEED_GAIN
                };
            }
        }
    }

    /// Plays with the pet. The mood plays no part here either.
    pub fn play(&mut self)
        ensures
            *final(self) == old(self).played(),
            old(self).happiness < MAX_HAPPINESS ==> final(self).happiness == old(self).happiness
                + 1,
            old(self).happiness >= MAX_HAPPINESS ==> *final(self) == *old(self),
            old(self).wf() ==> final(self).wf(),
    {
        if self.happiness < MAX_HAPPINESS {
            self.happiness = self.happiness + 1;
        }
    }

    /// Flips the frame of the animation.
    pub fn change_position(&mut self)
        ensures
            *final(self) == (Pet { position: old(self).position.flipped(), ..*old(self) }),
            final(self).position != old(self).position,
    {
        self.position = self.position.toggled();
    }

    /// Advances the pet by one tick with the given rolls.
    pub fn tick_with(&mut self, rolls: DecayRolls)
        ensures
            *final(self) == old(self).ticked(rolls),
            final(self).position != old(self).position,
            final(self).mood == Mood::Dead <==> old(self).weight == MAX_WEIGHT,
            old(self).wf() ==> final(self).wf(),
    {
        self.change_position();
        self.mood = Mood::from_needs(self.food, self.happiness);
        self.mood = self.mood.or_dead(self.weight);
        if rolls.food < FOOD_DECAY_BELOW && self.food > 0 {
            self.food = self.food.saturating_sub(1);
        }
        if rolls.happiness < HAPPINESS_DECAY_BELOW && self.happiness > 0 {
            self.happiness = self.happiness.saturating_sub(1);
        }
        if rolls.weight < WEIGHT_DECAY_BELOW && self.weight > BASE_WEIGHT {
            self.weight = self.weight.saturating_sub(WEIGHT_LOSS);
        }
    }

    /// Advances the pet by one tick, with rolls drawn at random. The pet
    /// comes out as `tick_with` would leave it for some rolls in range;
    /// frame and mood are the same for all of them.
    pub fn tick(&mut self)
        ensures
            exists|rolls: DecayRolls| rolls.in_range() && *final(self) == old(self).ticked(rolls),
            final(self).position == old(self).position.flipped(),
            final(self).position != old(self).position,
            final(self).mood == Mood::derived(old(self).food, old(self).happiness, old(self).weight),
            final(self).mood == Mood::Dead <==> old(self).weight == MAX_WEIGHT,
            old(self).wf() ==> final(self).wf(),
    {
        let rolls = DecayRolls::draw();
        self.tick_with(rolls);
    }
}

/// Saturation. Whatever happens to a pet whose needs are within their
/// ranges, in whatever order and with whatever rolls, its needs stay
/// within their ranges.
pub proof fn lemma_needs_stay_in_range(pet: Pet, events: Seq<Event>)
    requires
        pet.wf(),
    ensures
        pet.after(events).wf(),
        pet.after(events).food <= MAX_FOOD,
        pet.after(events).happiness <= MAX_HAPPINESS,
        pet.after(events).weight <= MAX_WEIGHT,
    decreases events.len(),
{
    if events.len() > 0 {
        lemma_needs_stay_in_range(pet, events.drop_last());
    }
}

/// The needs of a new pet are within their ranges, and stay there through
/// every history.
pub proof fn lemma_new_pet_stays_in_range(events: Seq<Event>)
    ensures
        Pet::initial().wf(),
        Pet::initial().after(events).wf(),
{
    lemma_needs_stay_in_range(Pet::initial(), events);
}

/// Death and weight. A derived mood is `Dead` exactly when the weight it
/// was derived from is `MAX_WEIGHT`, whatever food and happiness are. So
/// after a tick the pet is dead exactly when its weight was `MAX_WEIGHT`
/// as the tick began, whatever the rolls did to the weight afterwards;
/// and since feeding and playing leave the mood alone, the mood of a pet
/// always tells of its weight at the last tick.
pub proof fn lemma_dead_iff_overweight(pet: Pet, events: Seq<Event>, rolls: DecayRolls)
    ensures
        Mood::derived(pet.food, pet.happiness, pet.weight) == Mood::Dead <==> pet.weight
            == MAX_WEIGHT,
        pet.ticked(rolls).mood == Mood::Dead <==> pet.weight == MAX_WEIGHT,
        pet.after(events.push(Event::Tick(rolls))).mood == Mood::Dead <==> pet.after(events).weight
            == MAX_WEIGHT,
        pet.fed().mood == pet.mood,
        pet.played().mood == pet.mood,
{
    let longer = events.push(Event::Tick(rolls));
    assert(longer.drop_last() =~= events);
    assert(longer.last() == Event::Tick(rolls));
}

/// Feeding and weight. A feed that leaves the food below `MAX_FOOD` does
/// not touch the weight. The feed that brings the food to `MAX_FOOD` adds
/// exactly `FEED_GAIN` to the weight, or as much of it as `MAX_WEIGHT`
/// allows. A feed at `MAX_FOOD` changes neither food nor weight.
pub proof fn lemma_feed_and_weight(pet: Pet)
    ensures
        pet.food < MAX_FOOD - 1 ==> pet.fed().food == pet.food + 1 && pet.fed().weight
            == pet.weight,
        pet.food == MAX_FOOD - 1 ==> pet.fed().food == MAX_FOOD,
        pet.food == MAX_FOOD - 1 && pet.weight + FEED_GAIN <= MAX_WEIGHT ==> pet.fed().weight
            == pet.weight + FEED_GAIN,
        pet.food == MAX_FOOD - 1 && pet.weight + FEED_GAIN > MAX_WEIGHT ==> pet.fed().weight
            == MAX_WEIGHT,
        pet.food == MAX_FOOD ==> pet.fed() == pet,
{
}

/// The frame alternates. One tick always shows the other frame, whatever
/// the rolls, so after any history one more tick changes the frame.
/// Feeding and playing leave the frame alone.
pub proof fn lemma_position_alternates(pet: Pet, events: Seq<Event>, rolls: DecayRolls)
    ensures
        pet.ticked(rolls).position == pet.position.flipped(),
        pet.ticked(rolls).position != pet.position,
        pet.after(events.push(Event::Tick(rolls))).position != pet.after(events).position,
        pet.fed().position == pet.position,
        pet.played().position == pet.position,
{
    let longer = events.push(Event::Tick(rolls));
    assert(longer.drop_last() =~= events);
    assert(longer.last() == Event::Tick(rolls));
}

/// The mood after a tick is a function of food, happiness and weight as
/// the tick began. The rolls have no part in it, nor have the mood and
/// the frame that the pet had before.
pub proof fn lemma_mood_ignores_rolls(a: Pet, b: Pet, rolls_a: DecayRolls, rolls_b: DecayRolls)
    requires
        a.food == b.food,
        a.happiness == b.happiness,
        a.weight == b.weight,
    ensures
        a.ticked(rolls_a).mood == b.ticked(rolls_b).mood,
        a.ticked(rolls_a).mood == Mood::derived(a.food, a.happiness, a.weight),
{
}

} // verus!
