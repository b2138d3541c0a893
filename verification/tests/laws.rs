use prae::{Bound, Bounded, Extended, Extension};

#[derive(Debug)]
pub struct Percent;

impl Bound for Percent {
    type Target = i64;
    type Error = &'static str;
    const TYPE_NAME: &'static str = "Percent";

    fn adjusted(mut value: i64) -> i64 {
        Self::adjust(&mut value);
        value
    }

    fn rejection(value: i64) -> Option<&'static str> {
        Self::validate(&value)
    }

    fn adjusted_is_stable(_value: i64) {}

    fn adjust(value: &mut i64) {
        if *value < 0 {
            *value = 0;
        }
    }

    fn validate(value: &i64) -> Option<&'static str> {
        if *value > 100 {
            Some("more than all")
        } else {
            None
        }
    }
}

#[derive(Debug)]
pub struct Decile;

impl Bound for Decile {
    type Target = i64;
    type Error = String;
    const TYPE_NAME: &'static str = "Decile";

    fn adjusted(mut value: i64) -> i64 {
        Self::adjust(&mut value);
        value
    }

    fn rejection(value: i64) -> Option<String> {
        Self::validate(&value)
    }

    fn adjusted_is_stable(_value: i64) {}

    fn adjust(value: &mut i64) {
        *value -= *value % 10;
    }

    fn validate(value: &i64) -> Option<String> {
        if *value == 0 {
            Some("nothing".to_owned())
        } else {
            None
        }
    }
}

impl Extension for Decile {
    type Base = Percent;

    fn inherited(reason: &'static str) -> String {
        format!("base: {}", reason)
    }

    fn adjusted_keeps_base(_value: i64) {}

    fn inherit(reason: &'static str) -> String {
        format!("base: {}", reason)
    }
}

type Share = Bounded<i64, Percent>;
type Tenth = Bounded<i64, Extended<Decile>>;

#[test]
fn adjusting_twice_is_adjusting_once() {
    for raw in [-7i64, -1, 0, 1, 55, 100, 101, 4000] {
        let mut once = raw;
        Percent::adjust(&mut once);
        let mut twice = once;
        Percent::adjust(&mut twice);
        assert_eq!(once, twice);

        let mut once = raw;
        <Extended<Decile> as Bound>::adjust(&mut once);
        let mut twice = once;
        <Extended<Decile> as Bound>::adjust(&mut twice);
        assert_eq!(once, twice);
    }
}

#[test]
fn what_new_hands_out_passes_validation() {
    for raw in [-7i64, -1, 0, 1, 55, 100, 101, 4000] {
        match Share::new(raw) {
            Ok(share) => {
                assert_eq!(Percent::validate(share.get()), None);
                assert_eq!(share.verify(), Ok(()));
                assert!(raw <= 100);
            }
            Err(failure) => {
                assert!(raw > 100);
                assert_eq!(failure.value, raw);
                assert_eq!(failure.inner, "more than all");
            }
        }
    }
}

#[test]
fn failed_mutation_changes_nothing() {
    let mut share = Share::new(40).unwrap();
    let before = *share.get();
    let failure = share.try_mutate(|value| *value += 100).unwrap_err();
    assert_eq!(*share.get(), before);
    assert_eq!(failure.old_value, 40);
    assert_eq!(failure.new_value, 140);
    assert_eq!(failure.inner, "more than all");
}

#[test]
fn both_mutations_commit_the_same_value() {
    let mut direct = Share::new(40).unwrap();
    let mut careful = Share::new(40).unwrap();
    direct.mutate(|value| *value -= 90);
    assert_eq!(careful.try_mutate(|value| *value -= 90).map_err(|e| e.inner), Ok(()));
    assert_eq!(*direct.get(), 0);
    assert_eq!(direct.get(), careful.get());

    direct.mutate(|value| *value += 100);
    careful.try_mutate(|value| *value += 100).unwrap();
    assert_eq!(*direct.get(), 100);
    assert_eq!(direct.get(), careful.get());
}

#[test]
fn base_refuses_before_the_link_is_asked() {
    let failure = Tenth::new(257).unwrap_err();
    assert_eq!(failure.inner, "base: more than all");
    assert_eq!(failure.value, 257);
}

#[test]
fn link_decides_where_the_base_accepts() {
    let tenth = Tenth::new(57).unwrap();
    assert_eq!(*tenth.get(), 50);

    let failure = Tenth::new(7).unwrap_err();
    assert_eq!(failure.inner, "nothing");
    assert_eq!(failure.value, 0);

    let failure = Tenth::new(-30).unwrap_err();
    assert_eq!(failure.inner, "nothing");
    assert_eq!(failure.value, 0);
}

#[test]
fn accepted_value_is_accepted_again_unchanged() {
    let tenth = Tenth::new(99).unwrap();
    let again = Tenth::new(*tenth.get()).unwrap();
    assert_eq!(again.get(), tenth.get());
    assert_eq!(*again.get(), 90);
}
