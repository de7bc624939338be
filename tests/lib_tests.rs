#[test]
fn it_works() {
    assert_eq!(2 + 2, 4);
    let u: u32 = 5;
    u.to_string();
}
