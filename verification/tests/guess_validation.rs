use guessing_game::guess::Guess;
use guessing_game::guess::MAX_GUESS;
use guessing_game::guess::MIN_GUESS;

#[test]
fn every_in_range_value_constructs() {
    let mut v: i32 = MIN_GUESS;
    while v <= MAX_GUESS {
        let g = Guess::new(v);
        assert_eq!(g.value(), v);
        let checked = Guess::try_new(v);
        assert!(matches!(checked, Some(h) if h.value() == v));
        v += 1;
    }
}

#[test]
fn out_of_range_values_are_rejected() {
    assert!(Guess::try_new(0).is_none());
    assert!(Guess::try_new(101).is_none());
    assert!(Guess::try_new(-1).is_none());
    assert!(Guess::try_new(-100).is_none());
    assert!(Guess::try_new(i32::MIN).is_none());
    assert!(Guess::try_new(i32::MAX).is_none());
}

#[test]
fn boundary_values_construct() {
    assert_eq!(Guess::new(MIN_GUESS).value(), MIN_GUESS);
    assert_eq!(Guess::new(MAX_GUESS).value(), MAX_GUESS);
}
