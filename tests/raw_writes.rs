use mock_oracles::region::{load_account_as_mut, OracleError};

#[test]
fn raw_write_copies_at_offset() {
    let mut region = vec![0u8; 6];
    mock_oracles::region::write(&mut region, 2, &vec![1, 2, 3]).unwrap();
    assert_eq!(region, vec![0, 0, 1, 2, 3, 0]);
}

#[test]
fn raw_write_up_to_the_end() {
    let mut region = vec![0u8; 4];
    mock_oracles::region::write(&mut region, 1, &vec![9, 9, 9]).unwrap();
    assert_eq!(region, vec![0, 9, 9, 9]);
    mock_oracles::region::write(&mut region, 4, &Vec::new()).unwrap();
    assert_eq!(region, vec![0, 9, 9, 9]);
}

#[test]
fn raw_write_past_the_end_is_refused() {
    let mut region = vec![5u8; 4];
    assert_eq!(mock_oracles::region::write(&mut region, 2, &vec![1, 2, 3]), Err(OracleError::OutOfBounds));
    assert_eq!(mock_oracles::region::write(&mut region, usize::MAX, &vec![1]), Err(OracleError::OutOfBounds));
    assert_eq!(region, vec![5u8; 4]);
}

#[test]
fn layout_gate() {
    let region = vec![0u8; 16];
    assert_eq!(load_account_as_mut(&region, 0, 16), Ok(()));
    assert_eq!(load_account_as_mut(&region, 8, 8), Ok(()));
    assert_eq!(load_account_as_mut(&region, 8, 9), Err(OracleError::SizeMismatch));
    assert_eq!(load_account_as_mut(&region, usize::MAX, 2), Err(OracleError::SizeMismatch));
}
