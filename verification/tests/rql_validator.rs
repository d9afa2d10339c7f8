use xyz_validator::{RqlValidator, ValidatorInterface};

#[test]
fn check_is_broken() {
    let rql_validator: Box<dyn ValidatorInterface> =
        Box::new(RqlValidator::<fn(String)>::new(None));

    let invalid_rql_statement = "))".to_owned();
    assert!(!rql_validator.is_valid(invalid_rql_statement));
}

#[test]
fn check_is_error_message_exist() {
    let handle_error = |error_message: String| {
        assert!(!error_message.is_empty());
    };

    let rql_validator: Box<dyn ValidatorInterface> =
        Box::new(RqlValidator::new(Some(handle_error)));

    let invalid_rql_statement = "))".to_owned();
    rql_validator.is_valid(invalid_rql_statement);
}

#[test]
fn check_valid() {
    let print_error = |error_message: String| {
        println!("Error: -------------------------------- {}", error_message);
    };

    let rql_validator: Box<dyn ValidatorInterface> =
        Box::new(RqlValidator::new(Some(print_error)));

    let rql_statement = "exists(product.status)".to_owned();
    assert!(rql_validator.is_valid(rql_statement));

    let rql_statement = "eq(product.status,new)".to_owned();
    assert!(rql_validator.is_valid(rql_statement));

    let rql_statement = "lt(product.createdAt,2022-11-25)".to_owned();
    assert!(rql_validator.is_valid(rql_statement));

    let rql_statement = "like(product.name,*str*)".to_owned();
    assert!(rql_validator.is_valid(rql_statement));

    let rql_statement = "in(status,(new,processing))".to_owned();
    assert!(rql_validator.is_valid(rql_statement));

    let rql_statement = "in(status,(new))".to_owned();
    assert!(rql_validator.is_valid(rql_statement));

    let rql_statement = "and(eq(id,12),like(name,*str*))".to_owned();
    assert!(rql_validator.is_valid(rql_statement));

    let rql_statement = "and(eq(id,12),like(name,*str*),eq(name, John))".to_owned();
    assert!(rql_validator.is_valid(rql_statement));

    let rql_statement = "not(eq(product.name,astra))".to_owned();
    assert!(rql_validator.is_valid(rql_statement));

    let rql_statement = "status,new".to_owned();
    assert!(rql_validator.is_valid(rql_statement));
}

#[test]
fn check_invalid() {
    let print_error = |error_message: String| {
        println!("Error: -------------------------------- {}", error_message);
    };

    let rql_validator: Box<dyn ValidatorInterface> =
        Box::new(RqlValidator::new(Some(print_error)));

    let rql_statement = "exists(eq(product.status,new))".to_owned();
    assert!(!rql_validator.is_valid(rql_statement));

    let rql_statement = "eq(product.status)".to_owned();
    assert!(!rql_validator.is_valid(rql_statement));

    let rql_statement = "lt(product.createdAt,2022-11-25,20:38)".to_owned();
    assert!(!rql_validator.is_valid(rql_statement));

    let rql_statement = "like(product.name)".to_owned();
    assert!(!rql_validator.is_valid(rql_statement));

    let rql_statement = "in(status)".to_owned();
    assert!(!rql_validator.is_valid(rql_statement));

    let rql_statement = "in(status,(active),(new))".to_owned();
    assert!(!rql_validator.is_valid(rql_statement));

    let rql_statement = "and(eq(id,12))".to_owned();
    assert!(!rql_validator.is_valid(rql_statement));

    let rql_statement = "and(name, John)".to_owned();
    assert!(!rql_validator.is_valid(rql_statement));

    let rql_statement = "not(product.name,astra)".to_owned();
    assert!(!rql_validator.is_valid(rql_statement));

    let rql_statement = "unknown.operator(value)".to_owned();
    assert!(!rql_validator.is_valid(rql_statement));
}

#[test]
fn get_operators() {
    let rql_validator = RqlValidator::<fn(String)>::new(None);

    let rql_statement = "eq(name,John)".to_owned();
    let expected = vec![("eq".to_owned(), Some("name,John".to_owned()), 1)];
    assert_eq!(expected, rql_validator.get_operators(rql_statement).unwrap());

    let rql_statement = "or(and(eq(name,John),eq(surname,Smith)),eq(surname,Doe))".to_owned();
    let expected = vec![
        ("or".to_owned(), None, 1),
        ("and".to_owned(), None, 2),
        ("eq".to_owned(), Some("name,John".to_owned()), 3),
        ("eq".to_owned(), Some("surname,Smith".to_owned()), 3),
        ("eq".to_owned(), Some("surname,Doe".to_owned()), 2),
    ];
    assert_eq!(expected, rql_validator.get_operators(rql_statement).unwrap());

    let rql_statement = "not(in(name,(John,Jackson,Liam)))".to_owned();
    let expected = vec![
        ("not".to_owned(), None, 1),
        ("in".to_owned(), None, 2),
        ("name".to_owned(), Some("John,Jackson,Liam".to_owned()), 3),
    ];
    assert_eq!(expected, rql_validator.get_operators(rql_statement).unwrap());
}

#[test]
fn add_nested_quantity() {
    let rql_validator = RqlValidator::<fn(String)>::new(None);

    let rql_statement = "eq(name,John)".to_owned();
    let expected = vec![("eq".to_owned(), Some("name,John".to_owned()), 1, 0)];
    assert_eq!(
        expected,
        rql_validator
            .add_nested_nodes_quantity(rql_validator.get_operators(rql_statement).unwrap())
    );

    let rql_statement = "or(and(eq(name,John),eq(surname,Smith)),eq(surname,Doe))".to_owned();
    let expected = vec![
        ("or".to_owned(), None, 1, 2),
        ("and".to_owned(), None, 2, 2),
        ("eq".to_owned(), Some("name,John".to_owned()), 3, 0),
        ("eq".to_owned(), Some("surname,Smith".to_owned()), 3, 0),
        ("eq".to_owned(), Some("surname,Doe".to_owned()), 2, 0),
    ];
    assert_eq!(
        expected,
        rql_validator
            .add_nested_nodes_quantity(rql_validator.get_operators(rql_statement).unwrap())
    );

    let rql_statement = "not(in(name,(John,Jackson,Liam)))".to_owned();
    let expected = vec![
        ("not".to_owned(), None, 1, 1),
        ("in".to_owned(), None, 2, 1),
        (
            "name".to_owned(),
            Some("John,Jackson,Liam".to_owned()),
            3,
            0,
        ),
    ];
    assert_eq!(
        expected,
        rql_validator
            .add_nested_nodes_quantity(rql_validator.get_operators(rql_statement).unwrap())
    );
}
