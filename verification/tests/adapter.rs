use boundary_adapter::{greeting, hello_world, BoundaryError, BoundaryString};

#[test]
fn sum_small_values() {
    assert_eq!(boundary_adapter::add(2, 2), 4);
    assert_eq!(boundary_adapter::add(0, 0), 0);
    assert_eq!(boundary_adapter::add(40, 2), 42);
}

#[test]
fn sum_wraps_at_the_top() {
    assert_eq!(boundary_adapter::add(18446744073709551615, 1), 0);
    assert_eq!(boundary_adapter::add(18446744073709551615, 2), 1);
    assert_eq!(
        boundary_adapter::add(18446744073709551615, 18446744073709551615),
        18446744073709551614
    );
}

#[test]
fn sum_zero_is_identity() {
    assert_eq!(boundary_adapter::add(0, 7321), 7321);
    assert_eq!(boundary_adapter::add(7321, 0), 7321);
}

#[test]
fn greeting_string_is_hello_world() {
    assert_eq!(hello_world(), "Hello, world!");
}

#[test]
fn greeting_bytes_and_terminator() {
    let g = greeting();
    assert_eq!(g.into_bytes(), b"Hello, world!\0".to_vec());
}

#[test]
fn greeting_content_length() {
    let g = greeting();
    assert_eq!(g.content_len(), 13);
}

#[test]
fn construction_keeps_the_contents() {
    let b = BoundaryString::new(vec![1, 2, 3]).unwrap();
    assert_eq!(b.into_bytes(), vec![1, 2, 3, 0]);
}

#[test]
fn construction_of_empty_contents() {
    let b = BoundaryString::new(Vec::new()).unwrap();
    assert_eq!(b.into_bytes(), vec![0]);
}

#[test]
fn construction_refuses_embedded_terminator() {
    match BoundaryString::new(vec![1, 0, 2]) {
        Ok(_) => panic!("a zero byte must be refused"),
        Err(e) => assert_eq!(e, BoundaryError::EmbeddedTerminator { offset: 1 }),
    }
}

#[test]
fn construction_reports_the_first_zero() {
    match BoundaryString::new(vec![7, 7, 0, 0, 7]) {
        Ok(_) => panic!("a zero byte must be refused"),
        Err(e) => assert_eq!(e, BoundaryError::EmbeddedTerminator { offset: 2 }),
    }
}

#[test]
fn repeated_greetings_are_identical() {
    for _ in 0..100 {
        let g = greeting();
        assert_eq!(g.into_bytes(), b"Hello, world!\0".to_vec());
    }
}
