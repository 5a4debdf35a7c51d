use remo::config::{Config, ConfigError};
use remo::protocol::{Command, Level, Notice, Outcome, Reply, Request, Step};
use remo::transfer::{direct_copy, first_hop, scp_put, second_hop, PutState};

fn shell(script: &str) -> Command {
    Command {
        program: "sh".to_string(),
        args: vec!["-c".to_string(), script.to_string()],
    }
}

fn run_attached(command: Command) -> Request {
    Request::Run { command, capture: false }
}

fn put_info(text: &str) -> Notice {
    Notice { level: Level::Info, text: text.to_string() }
}

fn put_error(text: &str) -> Notice {
    Notice { level: Level::Error, text: text.to_string() }
}

fn report(outcome: Outcome) -> Reply {
    Reply::Ran { outcome, stderr: String::new() }
}

fn direct_config() -> Result<Config, ConfigError> {
    Ok(Config::direct("10.0.0.5".to_string(), "alice".to_string()))
}

fn relayed_config() -> Result<Config, ConfigError> {
    Ok(Config::relayed(
        "192.168.1.20".to_string(),
        "bob".to_string(),
        "203.0.113.7".to_string(),
        "carol".to_string(),
    ))
}

/// Follows a transfer as a driver would and returns the requests performed
/// and the lines logged.
fn drive_put(
    loaded: &Result<Config, ConfigError>,
    filepath: &str,
    replies: &[Reply],
) -> (Vec<Request>, Vec<Notice>) {
    let (mut state, mut step) = scp_put(loaded, filepath);
    let mut performed = Vec::new();
    let mut logged = Vec::new();
    let mut replies = replies.iter();
    loop {
        logged.extend(step.notices.iter().cloned());
        if step.request == Request::Done {
            break;
        }
        performed.push(step.request.clone());
        match replies.next() {
            Some(reply) => {
                let turn = state.next(reply);
                state = turn.0;
                step = turn.1;
            }
            None => break,
        }
    }
    (performed, logged)
}

#[test]
fn direct_copy_is_scp_to_the_home_of_the_target() {
    assert_eq!(
        direct_copy("alice", "10.0.0.5", "notes.txt"),
        Command {
            program: "scp".to_string(),
            args: vec!["notes.txt".to_string(), "alice@10.0.0.5:~/".to_string()],
        }
    );
}

#[test]
fn first_hop_copies_to_the_relay() {
    assert_eq!(
        first_hop("carol", "203.0.113.7", "notes.txt"),
        shell("scp notes.txt carol@203.0.113.7:~/")
    );
}

#[test]
fn second_hop_has_the_target_fetch_from_the_relay() {
    assert_eq!(
        second_hop("bob", "192.168.1.20", "carol", "203.0.113.7", "notes.txt"),
        shell("ssh bob@192.168.1.20 'scp carol@203.0.113.7:~/notes.txt ~/'")
    );
}

#[test]
fn direct_put_issues_exactly_one_scp() {
    let (state, step) = scp_put(&direct_config(), "notes.txt");
    assert_eq!(state, PutState::Direct { filepath: "notes.txt".to_string() });
    assert_eq!(
        step,
        Step {
            notices: vec![put_info("SCP transferring `notes.txt` directly to homelab...")],
            request: run_attached(direct_copy("alice", "10.0.0.5", "notes.txt")),
        }
    );
    for outcome in [Outcome::Success, Outcome::Failure, Outcome::SpawnFailed] {
        let (performed, _) =
            drive_put(&direct_config(), "notes.txt", &[report(outcome), report(outcome)]);
        assert_eq!(performed, vec![run_attached(direct_copy("alice", "10.0.0.5", "notes.txt"))]);
    }
}

#[test]
fn direct_put_reports_how_the_copy_ended() {
    let (_, logged) = drive_put(&direct_config(), "notes.txt", &[report(Outcome::Success)]);
    assert_eq!(logged[1], put_info("File `notes.txt` successfully copied to homelab."));
    let (_, logged) = drive_put(&direct_config(), "notes.txt", &[report(Outcome::Failure)]);
    assert_eq!(logged[1], put_error("SCP to homelab failed."));
    let (_, logged) = drive_put(&direct_config(), "notes.txt", &[report(Outcome::SpawnFailed)]);
    assert_eq!(logged[1], put_error("SCP process failed."));
}

#[test]
fn relayed_put_runs_both_hops_when_the_first_succeeds() {
    let replies = [report(Outcome::Success), report(Outcome::Success)];
    let (performed, logged) = drive_put(&relayed_config(), "notes.txt", &replies);
    assert_eq!(
        performed,
        vec![
            run_attached(shell("scp notes.txt carol@203.0.113.7:~/")),
            run_attached(shell("ssh bob@192.168.1.20 'scp carol@203.0.113.7:~/notes.txt ~/'")),
        ]
    );
    assert_eq!(
        logged,
        vec![
            put_info("SCP transferring `notes.txt` via VPS (203.0.113.7)..."),
            put_info("File `notes.txt` successfully copied to VPS."),
            put_info("File `notes.txt` successfully relayed to homelab."),
        ]
    );
}

#[test]
fn relayed_put_skips_the_second_hop_when_the_first_fails() {
    let replies = [report(Outcome::Failure), report(Outcome::Success)];
    let (performed, logged) = drive_put(&relayed_config(), "notes.txt", &replies);
    assert_eq!(performed, vec![run_attached(shell("scp notes.txt carol@203.0.113.7:~/"))]);
    assert_eq!(logged[1], put_error("Intermediate SCP to VPS failed."));
    assert_eq!(logged.len(), 2);
}

#[test]
fn relayed_put_skips_the_second_hop_when_the_first_cannot_start() {
    let replies = [report(Outcome::SpawnFailed), report(Outcome::Success)];
    let (performed, logged) = drive_put(&relayed_config(), "notes.txt", &replies);
    assert_eq!(performed.len(), 1);
    assert_eq!(logged[1], put_error("Intermediate SCP process failed."));
}

#[test]
fn relayed_put_reports_how_the_second_hop_ended() {
    let replies = [report(Outcome::Success), report(Outcome::Failure)];
    let (performed, logged) = drive_put(&relayed_config(), "notes.txt", &replies);
    assert_eq!(performed.len(), 2);
    assert_eq!(logged[2], put_error("Final SCP to homelab failed."));
    let replies = [report(Outcome::Success), report(Outcome::SpawnFailed)];
    let (_, logged) = drive_put(&relayed_config(), "notes.txt", &replies);
    assert_eq!(logged[2], put_error("Final SCP process failed."));
}

#[test]
fn relayed_put_never_runs_more_than_two_commands() {
    let outcomes = [Outcome::Success, Outcome::Failure, Outcome::SpawnFailed];
    for first in outcomes {
        for second in outcomes {
            let replies = [report(first), report(second), report(Outcome::Success)];
            let (performed, _) = drive_put(&relayed_config(), "notes.txt", &replies);
            let expected = if first == Outcome::Success { 2 } else { 1 };
            assert_eq!(performed.len(), expected);
        }
    }
}

#[test]
fn relayed_put_keeps_the_second_hop_in_its_state() {
    let (state, _) = scp_put(&relayed_config(), "notes.txt");
    assert_eq!(
        state,
        PutState::FirstHop {
            filepath: "notes.txt".to_string(),
            relay: second_hop("bob", "192.168.1.20", "carol", "203.0.113.7", "notes.txt"),
        }
    );
    let (state, step) = state.next(&report(Outcome::Success));
    assert_eq!(state, PutState::SecondHop { filepath: "notes.txt".to_string() });
    assert_eq!(
        step.request,
        run_attached(second_hop("bob", "192.168.1.20", "carol", "203.0.113.7", "notes.txt"))
    );
}

#[test]
fn put_without_configuration_runs_nothing() {
    let loaded: Result<Config, ConfigError> =
        Err(ConfigError::Unreadable { reason: "syntax error".to_string() });
    let (state, step) = scp_put(&loaded, "notes.txt");
    assert_eq!(state, PutState::Finished);
    assert_eq!(
        step,
        Step {
            notices: vec![put_error("Failed to load configuration: syntax error")],
            request: Request::Done,
        }
    );
}

#[test]
fn put_with_incomplete_relay_runs_nothing() {
    let loaded: Result<Config, ConfigError> = Ok(Config {
        direct_connection: false,
        target_host: "192.168.1.20".to_string(),
        username: "bob".to_string(),
        vps_host: None,
        vps_username: Some("carol".to_string()),
    });
    let (state, step) = scp_put(&loaded, "notes.txt");
    assert_eq!(state, PutState::Finished);
    assert_eq!(
        step,
        Step { notices: vec![put_error("VPS information missing.")], request: Request::Done }
    );
}

#[test]
fn put_stops_on_a_reply_that_is_no_run_report() {
    let (state, _) = scp_put(&relayed_config(), "notes.txt");
    let (state, step) = state.next(&Reply::Line("yes".to_string()));
    assert_eq!(state, PutState::Finished);
    assert_eq!(
        step,
        Step {
            notices: vec![put_error("Stopped: the reply does not answer the request.")],
            request: Request::Done,
        }
    );
}

#[test]
fn finished_put_stays_finished() {
    assert_eq!(
        PutState::Finished.next(&report(Outcome::Success)),
        (PutState::Finished, Step { notices: vec![], request: Request::Done })
    );
}

#[test]
fn put_does_not_check_that_the_file_exists() {
    let (_, step) = scp_put(&direct_config(), "/no/such/file");
    assert_eq!(
        step.request,
        run_attached(direct_copy("alice", "10.0.0.5", "/no/such/file"))
    );
}
