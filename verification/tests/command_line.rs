use gitserver::cli::{react, Cli, Command, Reaction, Sighting, LOOK_EVERY};

#[test]
fn command_line_gives_its_command() {
    assert_eq!(Cli::new(Command::Init).command(), &Command::Init);
    assert_eq!(Cli::new(Command::Apply).command(), &Command::Apply);
    assert_eq!(Cli::new(Command::Destroy).command(), &Command::Destroy);
}

#[test]
fn signal_kills_the_backend() {
    assert_eq!(react(Sighting::Interrupted), Reaction::Kill);
}

#[test]
fn exit_code_is_passed_on() {
    assert_eq!(react(Sighting::Ended(Some(0))), Reaction::Exit(0));
    assert_eq!(react(Sighting::Ended(Some(3))), Reaction::Exit(3));
    assert_eq!(react(Sighting::Ended(Some(-1))), Reaction::Exit(-1));
}

#[test]
fn missing_exit_code_counts_as_success() {
    assert_eq!(react(Sighting::Ended(None)), Reaction::Exit(0));
}

#[test]
fn running_backend_is_looked_at_again() {
    assert_eq!(LOOK_EVERY, 200);
    assert_eq!(react(Sighting::Running), Reaction::Wait(200));
}
