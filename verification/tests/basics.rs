use ygame::rules::UserRole;

#[test]
fn it_works() {
    assert_eq!(2 + 2, 4);
}

#[test]
fn lib_it_works() {
    assert_eq!(2 + 2, 4);
}

#[test]
fn role_labels() {
    assert_eq!(UserRole::Seat1.label(), "Player 1");
    assert_eq!(UserRole::Seat2.label(), "Player 2");
    assert_eq!(UserRole::Observer.label(), "Observer");
}
