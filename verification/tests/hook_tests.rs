use imbdmlive::hook::try_out_ptr;

#[test]
fn out_parameter_is_returned_on_success() {
    let r: Result<u32, String> = try_out_ptr(|slot: &mut Option<u32>| {
        *slot = Some(7);
        Ok::<(), String>(())
    });
    assert_eq!(r, Ok(7));
}

#[test]
fn error_is_passed_through() {
    let r: Result<u32, String> =
        try_out_ptr(|_slot: &mut Option<u32>| Err::<(), String>("CreateDevice".to_string()));
    assert_eq!(r, Err("CreateDevice".to_string()));
}
