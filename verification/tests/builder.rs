use command_group::builder::CommandGroupBuilder;

#[test]
fn new_builder_has_every_option_off() {
    let mut command = String::from("ls");
    let builder = CommandGroupBuilder::new(&mut command);
    assert!(!builder.kill_on_drop);
    assert_eq!(builder.creation_flags, 0);
    assert_eq!(builder.command.as_str(), "ls");
}

#[test]
fn options_are_set_and_chained() {
    let mut command = 7u8;
    let mut builder = CommandGroupBuilder::new(&mut command);
    builder.kill_on_drop(true).creation_flags(0x0800_0000);
    assert!(builder.kill_on_drop);
    assert_eq!(builder.creation_flags, 0x0800_0000);
    builder.kill_on_drop(false);
    assert!(!builder.kill_on_drop);
    assert_eq!(builder.creation_flags, 0x0800_0000);
    builder.creation_flags(0).kill_on_drop(true);
    assert!(builder.kill_on_drop);
    assert_eq!(builder.creation_flags, 0);
}

#[test]
fn builder_hands_the_command_through() {
    let mut command = vec![1, 2];
    {
        let mut builder = CommandGroupBuilder::new(&mut command);
        builder.kill_on_drop(true);
        builder.command.push(3);
    }
    assert_eq!(command, vec![1, 2, 3]);
}
