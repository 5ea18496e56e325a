//! Plain smoke tests of the test harness itself: one unit-valued case and
//! one returning a result.

#[test]
fn test_catalogue_simple() {
    println!("ok");
}

#[test]
fn test_catalogue_with_result() -> Result<(), ()> {
    println!("ok");
    Ok(())
}
