use jamfrs::args::{u32_to_string_validator, Id};

#[test]
fn test_explicit_ids_preserved() {
    // A non-empty explicit list comes back verbatim: same order, duplicates
    // kept, and the range bounds are ignored.
    let id = Id { id: vec![30, 1, 7, 7, 2], range: vec![] };
    assert_eq!(id.get_ids().unwrap(), vec![30, 1, 7, 7, 2]);

    let id = Id { id: vec![5], range: vec![1, 2] };
    assert_eq!(id.get_ids().unwrap(), vec![5]);
}

#[test]
fn test_range_expansion() {
    // A two-bound range expands to the full inclusive sequence, ascending,
    // with no gaps or duplicates.
    let id = Id { id: vec![], range: vec![5, 9] };
    assert_eq!(id.get_ids().unwrap(), vec![5, 6, 7, 8, 9]);

    let id = Id { id: vec![], range: vec![3, 3] };
    assert_eq!(id.get_ids().unwrap(), vec![3]);
}

#[test]
fn test_range_requires_two_bounds() {
    let id = Id { id: vec![], range: vec![] };
    assert!(id.get_ids().is_err());

    let id = Id { id: vec![], range: vec![5] };
    assert!(id.get_ids().is_err());

    let id = Id { id: vec![], range: vec![1, 2, 3] };
    assert!(id.get_ids().is_err());
}

#[test]
fn test_range_reversed_bounds_is_empty() {
    let id = Id { id: vec![], range: vec![9, 5] };
    assert_eq!(id.get_ids().unwrap(), Vec::<u32>::new());
}

#[test]
fn test_generate_ids_direct() {
    let id = Id { id: vec![], range: vec![10, 12] };
    assert_eq!(id.generate_ids().unwrap(), vec![10, 11, 12]);
}

#[test]
fn test_u32_to_string_validator() {
    assert_eq!(u32_to_string_validator("123").unwrap(), "123");
    assert_eq!(u32_to_string_validator("+42").unwrap(), "+42");
    assert_eq!(u32_to_string_validator("0").unwrap(), "0");
    assert_eq!(u32_to_string_validator("4294967295").unwrap(), "4294967295");
    assert!(u32_to_string_validator("").is_err());
    assert!(u32_to_string_validator("+").is_err());
    assert!(u32_to_string_validator("12a").is_err());
    assert!(u32_to_string_validator("-3").is_err());
    assert!(u32_to_string_validator("4294967296").is_err());
}
