use prae::{Bound, Bounded, ConstructionError, MutationError};

#[derive(Debug)]
pub struct UsernameError;

#[derive(Debug)]
pub struct UsernameBound;

impl Bound for UsernameBound {
    type Target = String;
    type Error = UsernameError;
    const TYPE_NAME: &'static str = "Username";

    fn adjusted(mut value: String) -> String {
        Self::adjust(&mut value);
        value
    }

    fn rejection(value: String) -> Option<UsernameError> {
        Self::validate(&value)
    }

    fn adjusted_is_stable(_value: String) {}

    fn adjust(value: &mut String) {
        *value = value.trim().to_owned();
    }

    fn validate(value: &String) -> Option<UsernameError> {
        if value.is_empty() {
            Some(UsernameError)
        } else {
            None
        }
    }
}

type Username = Bounded<String, UsernameBound>;

#[test]
fn adjust_validate_construction_fails_for_invalid_data() {
    assert!(matches!(Username::new("  "), Err(ConstructionError { .. })));
}

#[test]
fn adjust_validate_construction_succeeds_for_valid_data() {
    let un = Username::new(" user ").unwrap();
    assert_eq!(un.get(), "user");
}

#[test]
fn adjust_validate_mutation_fails_for_invalid_data() {
    let mut un = Username::new("user").unwrap();
    assert!(matches!(
        un.try_mutate(|u| *u = "  ".to_owned()),
        Err(MutationError { .. })
    ));
}

#[test]
fn adjust_validate_mutation_succeeds_for_valid_data() {
    let mut un = Username::new("user").unwrap();
    un.try_mutate(|u| *u = "  new user  ".to_owned()).unwrap();
    assert_eq!(un.get(), "new user");
}
