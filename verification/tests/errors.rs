use prae::error::{construction_message, mutation_message};
use prae::{Bound, Bounded, ConstructionError, MapInnerError, MutationError};

#[derive(Debug, PartialEq, Eq)]
pub enum Trouble {
    TooLong(usize),
}

impl std::fmt::Display for Trouble {
    fn fmt(&self, f: &mut std::fmt::Formatter<'_>) -> std::fmt::Result {
        match self {
            Trouble::TooLong(by) => f.write_str(&format!("too long by {}", by)),
        }
    }
}

#[derive(Debug)]
pub struct Short;

impl Bound for Short {
    type Target = Vec<u8>;
    type Error = Trouble;
    const TYPE_NAME: &'static str = "Short";

    fn adjusted(mut value: Vec<u8>) -> Vec<u8> {
        Self::adjust(&mut value);
        value
    }

    fn rejection(value: Vec<u8>) -> Option<Trouble> {
        Self::validate(&value)
    }

    fn adjusted_is_stable(_value: Vec<u8>) {}

    fn adjust(value: &mut Vec<u8>) {
        value.retain(|byte| *byte != 0);
    }

    fn validate(value: &Vec<u8>) -> Option<Trouble> {
        if value.len() > 2 {
            Some(Trouble::TooLong(value.len() - 2))
        } else {
            None
        }
    }
}

type Bytes = Bounded<Vec<u8>, Short>;

#[test]
fn construction_error_holds_reason_and_adjusted_value() {
    let failure: ConstructionError<Short> = Bytes::new(vec![1, 0, 2, 0, 3]).unwrap_err();
    assert_eq!(failure.value, vec![1, 2, 3]);
    assert_eq!(failure.inner, Trouble::TooLong(1));
    assert_eq!(
        failure.to_string(),
        "failed to construct type Short from value [1, 2, 3]: too long by 1"
    );
    assert_eq!(failure.into_inner(), Trouble::TooLong(1));
}

#[test]
fn mutation_error_holds_reason_and_both_values() {
    let mut bytes = Bytes::new(vec![0, 7]).unwrap();
    let failure: MutationError<Short> = bytes
        .try_mutate(|value| value.extend_from_slice(&[0, 8, 9, 10]))
        .unwrap_err();
    assert_eq!(failure.old_value, vec![7]);
    assert_eq!(failure.new_value, vec![7, 8, 9, 10]);
    assert_eq!(failure.inner, Trouble::TooLong(2));
    assert_eq!(
        failure.to_string(),
        "failed to mutate type Short from value [7] to value [7, 8, 9, 10]: too long by 2"
    );
    assert_eq!(failure.into_inner(), Trouble::TooLong(2));
    assert_eq!(bytes.get(), &vec![7]);
}

#[test]
fn map_inner_keeps_success_and_unwraps_the_reason() {
    let made = Bytes::new(vec![1]).map_inner();
    assert_eq!(made.map(|bytes| bytes.into_inner()), Ok(vec![1]));

    let refused = Bytes::new(vec![1, 2, 3, 4]).map_inner();
    assert_eq!(refused.map(|bytes| bytes.into_inner()), Err(Trouble::TooLong(2)));

    let mut bytes = Bytes::new(vec![1]).unwrap();
    assert_eq!(bytes.try_mutate(|value| value.push(2)).map_inner(), Ok(()));
    assert_eq!(
        bytes.try_mutate(|value| value.push(3)).map_inner(),
        Err(Trouble::TooLong(1))
    );
}

#[test]
fn messages_are_composed_from_their_parts() {
    assert_eq!(
        construction_message("Port", "70000", "out of range"),
        "failed to construct type Port from value 70000: out of range"
    );
    assert_eq!(construction_message("", "", ""), "failed to construct type  from value : ");
    assert_eq!(
        mutation_message("Port", "80", "70000", "out of range"),
        "failed to mutate type Port from value 80 to value 70000: out of range"
    );
    assert_eq!(
        mutation_message("", "", "", ""),
        "failed to mutate type  from value  to value : "
    );
}
