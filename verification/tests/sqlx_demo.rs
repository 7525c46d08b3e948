use demokit::life;

#[test]
fn pp() {
    println!("hello world");
}

#[test]
fn life_gives_world_for_any_input() {
    assert_eq!(life("hello"), "world");
    assert_eq!(life(""), "world");
}
