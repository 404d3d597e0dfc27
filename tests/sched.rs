use ralloc_shim::sched::yield_status;

#[test]
fn yield_status_passes_value_through() {
    assert_eq!(yield_status(Ok(0)), 0);
    assert_eq!(yield_status(Ok(17)), 17);
}

#[test]
fn yield_status_negates_error_number() {
    assert_eq!(yield_status(Err(syscall::Error::new(5))), usize::MAX - 4);
    assert_eq!(yield_status(Err(syscall::Error::new(1))), usize::MAX);
}
