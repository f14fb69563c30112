use tamagotchi::pet::{
    DecayRolls, Mood, Pet, Position, BASE_WEIGHT, MAX_FOOD, MAX_HAPPINESS, MAX_WEIGHT,
};

const NO_DECAY: DecayRolls = DecayRolls { food: 99, happiness: 99, weight: 99 };
const FULL_DECAY: DecayRolls = DecayRolls { food: 0, happiness: 0, weight: 0 };

fn pet(food: u8, happiness: u8, weight: u8) -> Pet {
    Pet { mood: Mood::Happy, food, happiness, weight, position: Position::Pos1 }
}

#[test]
fn new_pet_starts_happy_unfed_at_base_weight() {
    let p = Pet::new();
    assert_eq!(p.mood, Mood::Happy);
    assert_eq!(p.food, 0);
    assert_eq!(p.happiness, 0);
    assert_eq!(p.weight, 5);
    assert_eq!(p.position, Position::Pos1);
    assert_eq!(p, Pet::new());
}

#[test]
fn limits_have_their_values() {
    assert_eq!(MAX_FOOD, 4);
    assert_eq!(MAX_HAPPINESS, 4);
    assert_eq!(MAX_WEIGHT, 100);
    assert_eq!(BASE_WEIGHT, 5);
}

#[test]
fn feed_below_three_leaves_weight_alone() {
    for food in 0..3u8 {
        let mut p = pet(food, 0, 41);
        p.feed();
        assert_eq!(p.food, food + 1);
        assert_eq!(p.weight, 41);
    }
}

#[test]
fn feed_at_three_fills_and_adds_two_to_weight() {
    let mut p = pet(3, 0, 41);
    p.feed();
    assert_eq!(p.food, 4);
    assert_eq!(p.weight, 43);
}

#[test]
fn feed_at_three_caps_weight_at_hundred() {
    let mut p = pet(3, 0, 99);
    p.feed();
    assert_eq!(p.weight, 100);
    let mut q = pet(3, 0, 98);
    q.feed();
    assert_eq!(q.weight, 100);
    let mut r = pet(3, 0, 100);
    r.feed();
    assert_eq!(r.weight, 100);
    let mut s = pet(3, 0, 97);
    s.feed();
    assert_eq!(s.weight, 99);
}

#[test]
fn feed_when_full_changes_nothing() {
    let mut p = pet(4, 2, 41);
    let before = p;
    p.feed();
    assert_eq!(p, before);
    p.feed();
    assert_eq!(p, before);
}

#[test]
fn feed_does_not_touch_mood_happiness_or_frame() {
    let mut p = Pet { mood: Mood::Dead, food: 3, happiness: 2, weight: 100, position: Position::Pos2 };
    p.feed();
    assert_eq!(p.mood, Mood::Dead);
    assert_eq!(p.happiness, 2);
    assert_eq!(p.position, Position::Pos2);
    assert_eq!(p.food, 4);
}

#[test]
fn four_feeds_from_new_give_food_four_and_weight_seven() {
    let mut p = Pet::new();
    for _ in 0..4 {
        p.feed();
    }
    assert_eq!(p.food, 4);
    assert_eq!(p.weight, 7);
}

#[test]
fn play_adds_one_and_stops_at_four() {
    let mut p = Pet::new();
    for expected in 1..=4u8 {
        p.play();
        assert_eq!(p.happiness, expected);
    }
    p.play();
    assert_eq!(p.happiness, 4);
    assert_eq!(p.food, 0);
    assert_eq!(p.weight, 5);
    assert_eq!(p.mood, Mood::Happy);
}

#[test]
fn change_position_flips_the_frame() {
    let mut p = Pet::new();
    p.change_position();
    assert_eq!(p.position, Position::Pos2);
    p.change_position();
    assert_eq!(p.position, Position::Pos1);
    assert_eq!(Position::Pos1.toggled(), Position::Pos2);
    assert_eq!(Position::Pos2.toggled(), Position::Pos1);
}

#[test]
fn mood_by_needs_examples() {
    assert_eq!(Mood::from_needs(3, 3).or_dead(5), Mood::Happy);
    assert_eq!(Mood::from_needs(1, 3).or_dead(5), Mood::Hungry);
    assert_eq!(Mood::from_needs(3, 1).or_dead(5), Mood::Sad);
    assert_eq!(Mood::from_needs(2, 2), Mood::Happy);
    assert_eq!(Mood::from_needs(0, 0), Mood::Sad);
    assert_eq!(Mood::from_needs(1, 1), Mood::Sad);
    assert_eq!(Mood::from_needs(1, 2), Mood::Hungry);
    assert_eq!(Mood::from_needs(2, 1), Mood::Sad);
}

#[test]
fn weight_hundred_is_dead_with_any_needs() {
    for food in 0..=4u8 {
        for happiness in 0..=4u8 {
            assert_eq!(Mood::from_needs(food, happiness).or_dead(100), Mood::Dead);
            assert_ne!(Mood::from_needs(food, happiness).or_dead(99), Mood::Dead);
        }
    }
}

#[test]
fn tick_derives_mood_from_needs_before_decay() {
    let mut happy = pet(3, 3, 5);
    happy.tick_with(NO_DECAY);
    assert_eq!(happy.mood, Mood::Happy);

    let mut hungry = pet(1, 3, 5);
    hungry.tick_with(NO_DECAY);
    assert_eq!(hungry.mood, Mood::Hungry);

    let mut sad = pet(3, 1, 5);
    sad.tick_with(NO_DECAY);
    assert_eq!(sad.mood, Mood::Sad);

    let mut dead = pet(4, 4, 100);
    dead.tick_with(NO_DECAY);
    assert_eq!(dead.mood, Mood::Dead);

    let mut on_the_edge = pet(2, 2, 5);
    on_the_edge.tick_with(FULL_DECAY);
    assert_eq!(on_the_edge.mood, Mood::Happy);
    assert_eq!(on_the_edge.food, 1);
    assert_eq!(on_the_edge.happiness, 1);
}

#[test]
fn tick_mood_does_not_depend_on_rolls() {
    for food in 0..=4u8 {
        for happiness in 0..=4u8 {
            for weight in [5u8, 6, 50, 99, 100] {
                let mut a = pet(food, happiness, weight);
                let mut b = pet(food, happiness, weight);
                a.tick_with(NO_DECAY);
                b.tick_with(FULL_DECAY);
                assert_eq!(a.mood, b.mood);
                assert_eq!(a.mood == Mood::Dead, weight == 100);
            }
        }
    }
}

#[test]
fn dead_mood_stays_when_weight_decays_in_the_same_tick() {
    let mut p = pet(4, 4, 100);
    p.tick_with(FULL_DECAY);
    assert_eq!(p.mood, Mood::Dead);
    assert_eq!(p.weight, 98);
    p.tick_with(NO_DECAY);
    assert_eq!(p.mood, Mood::Happy);
}

#[test]
fn tick_flips_the_frame_every_time() {
    let mut p = Pet::new();
    let mut last = p.position;
    for i in 0..10u8 {
        p.tick_with(DecayRolls { food: i, happiness: 99 - i, weight: i });
        assert_ne!(p.position, last);
        last = p.position;
    }
    assert_eq!(p.position, Position::Pos1);
}

#[test]
fn decay_thresholds_are_five_five_and_one_in_hundred() {
    let mut p = pet(4, 4, 50);
    p.tick_with(DecayRolls { food: 4, happiness: 5, weight: 1 });
    assert_eq!((p.food, p.happiness, p.weight), (3, 4, 50));
    p.tick_with(DecayRolls { food: 5, happiness: 4, weight: 0 });
    assert_eq!((p.food, p.happiness, p.weight), (3, 3, 48));
    p.tick_with(DecayRolls { food: 0, happiness: 0, weight: 99 });
    assert_eq!((p.food, p.happiness, p.weight), (2, 2, 48));
    p.tick_with(DecayRolls { food: 255, happiness: 100, weight: 2 });
    assert_eq!((p.food, p.happiness, p.weight), (2, 2, 48));
}

#[test]
fn decay_stops_at_the_floors() {
    let mut p = pet(1, 1, 7);
    p.tick_with(FULL_DECAY);
    assert_eq!((p.food, p.happiness, p.weight), (0, 0, 5));
    p.tick_with(FULL_DECAY);
    assert_eq!((p.food, p.happiness, p.weight), (0, 0, 5));
    let mut q = pet(0, 0, 6);
    q.tick_with(FULL_DECAY);
    assert_eq!(q.weight, 4);
    q.tick_with(FULL_DECAY);
    assert_eq!(q.weight, 4);
}

#[test]
fn needs_stay_in_range_through_a_long_history() {
    let mut p = Pet::new();
    let mut seed: u32 = 12345;
    for _ in 0..5000 {
        seed = seed.wrapping_mul(1664525).wrapping_add(1013904223);
        match (seed >> 16) % 4 {
            0 => p.feed(),
            1 => p.play(),
            2 => p.tick_with(DecayRolls {
                food: ((seed >> 8) % 100) as u8,
                happiness: ((seed >> 12) % 100) as u8,
                weight: ((seed >> 20) % 100) as u8,
            }),
            _ => p.tick_with(DecayRolls { food: 0, happiness: 50, weight: 50 }),
        }
        assert!(p.food <= 4);
        assert!(p.happiness <= 4);
        assert!(p.weight <= 100);
    }
}

#[test]
fn overfeeding_cycles_bring_the_weight_to_exactly_hundred() {
    let mut p = Pet::new();
    for _ in 0..4 {
        p.feed();
    }
    assert_eq!(p.weight, 7);
    let hungry_again = DecayRolls { food: 0, happiness: 99, weight: 99 };
    let mut expected: u8 = 7;
    for _ in 0..60 {
        p.tick_with(hungry_again);
        assert_eq!(p.food, 3);
        assert_eq!(p.mood == Mood::Dead, expected == 100);
        p.feed();
        expected = if expected + 2 > 100 { 100 } else { expected + 2 };
        assert_eq!(p.weight, expected);
    }
    assert_eq!(p.weight, 100);
    p.tick_with(NO_DECAY);
    assert_eq!(p.mood, Mood::Dead);
}

#[test]
fn random_rolls_are_below_hundred() {
    for _ in 0..2000 {
        let rolls = DecayRolls::draw();
        assert!(rolls.food < 100);
        assert!(rolls.happiness < 100);
        assert!(rolls.weight < 100);
    }
}

#[test]
fn random_rolls_vary() {
    let first = DecayRolls::draw();
    let mut differs = false;
    for _ in 0..200 {
        if DecayRolls::draw() != first {
            differs = true;
        }
    }
    assert!(differs);
}

#[test]
fn random_tick_is_a_tick_with_some_rolls() {
    for _ in 0..500 {
        let before = Pet { mood: Mood::Sad, food: 3, happiness: 2, weight: 51, position: Position::Pos2 };
        let mut p = before;
        p.tick();
        assert_eq!(p.position, Position::Pos1);
        assert_eq!(p.mood, Mood::Happy);
        assert!(p.food == 3 || p.food == 2);
        assert!(p.happiness == 2 || p.happiness == 1);
        assert!(p.weight == 51 || p.weight == 49);
    }
}

#[test]
fn random_tick_of_a_new_pet_has_nothing_to_wear_down() {
    let mut p = Pet::new();
    p.tick();
    assert_eq!(p, Pet { mood: Mood::Sad, food: 0, happiness: 0, weight: 5, position: Position::Pos2 });
}
