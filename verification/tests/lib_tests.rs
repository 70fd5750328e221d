#[test]
fn it_works() {
    let result = adw_bridge::add(2, 2);
    assert_eq!(result, 4);
}

#[test]
fn add_zero() {
    assert_eq!(adw_bridge::add(0, 0), 0);
    assert_eq!(adw_bridge::add(7, 0), 7);
}
