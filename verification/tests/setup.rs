use remo::protocol::{Command, Level, Notice, Outcome, Reply, Request, Step};
use remo::setup::{
    add_key_to_agent, copy_key, copy_key_via_vps, generate_key, install_key, key_added,
    key_copied, key_generated, key_path, key_relayed, prompt, prompt_bool, run_setup,
    ssh_config_path, write_ssh_config, yes_no, SetupStage, SetupState,
};

fn command(program: &str, args: &[&str]) -> Command {
    Command {
        program: program.to_string(),
        args: args.iter().map(|arg| arg.to_string()).collect(),
    }
}

fn sh(script: &str) -> Command {
    command("sh", &["-c", script])
}

fn captured(command: Command) -> Request {
    Request::Run { command, capture: true }
}

fn shared(command: Command) -> Request {
    Request::Run { command, capture: false }
}

fn ask(prompt: &str) -> Request {
    Request::Ask { prompt: prompt.to_string() }
}

fn note(text: &str) -> Notice {
    Notice { level: Level::Info, text: text.to_string() }
}

fn complaint(text: &str) -> Notice {
    Notice { level: Level::Error, text: text.to_string() }
}

fn typed(text: &str) -> Reply {
    Reply::Line(text.to_string())
}

fn exit(outcome: Outcome) -> Reply {
    Reply::Ran { outcome, stderr: String::new() }
}

fn exit_with(outcome: Outcome, stderr: &str) -> Reply {
    Reply::Ran { outcome, stderr: stderr.to_string() }
}

fn state(stage: SetupStage, direct_connection: bool) -> SetupState {
    SetupState {
        stage,
        home: "/home/me".to_string(),
        direct_connection,
        username: "bob".to_string(),
        ip: "192.168.1.20".to_string(),
        vps_username: if direct_connection { None } else { Some("carol".to_string()) },
        vps_ip: if direct_connection { None } else { Some("203.0.113.7".to_string()) },
    }
}

/// Follows a setup as a driver would and returns the requests performed and
/// the lines logged.
fn drive_setup(start: (SetupState, Step), replies: &[Reply]) -> (Vec<Request>, Vec<Notice>) {
    let (mut state, mut step) = start;
    let mut performed = Vec::new();
    let mut logged = Vec::new();
    let mut replies = replies.iter();
    loop {
        logged.extend(step.notices.iter().cloned());
        if step.request == Request::Done {
            break;
        }
        performed.push(step.request.clone());
        match replies.next() {
            Some(reply) => {
                let turn = state.next(reply);
                state = turn.0;
                step = turn.1;
            }
            None => break,
        }
    }
    (performed, logged)
}

const DIRECT_ENTRY: &str = "Host bob\n    HostName 192.168.1.20\n    User bob\n    IdentityFile /home/me/.ssh/id_server\n\n";
const RELAYED_ENTRY: &str = "Host bob\n    HostName 192.168.1.20\n    User bob\n    IdentityFile /home/me/.ssh/id_vps\n    ProxyJump carol@203.0.113.7\n\n";

#[test]
fn prompt_strips_the_white_space_around_an_answer() {
    assert_eq!(prompt("  alice \n"), "alice");
    assert_eq!(prompt("10.0.0.5\r\n"), "10.0.0.5");
    assert_eq!(prompt("two words\n"), "two words");
    assert_eq!(prompt("\n"), "");
    assert_eq!(prompt(""), "");
}

#[test]
fn yes_no_knows_four_words() {
    assert_eq!(yes_no("y"), Some(true));
    assert_eq!(yes_no("yes"), Some(true));
    assert_eq!(yes_no("n"), Some(false));
    assert_eq!(yes_no("no"), Some(false));
    assert_eq!(yes_no(""), None);
    assert_eq!(yes_no("ye"), None);
    assert_eq!(yes_no("yes "), None);
    assert_eq!(yes_no("Y"), None);
    assert_eq!(yes_no("maybe"), None);
}

#[test]
fn prompt_bool_accepts_any_case_and_surrounding_space() {
    assert_eq!(prompt_bool("y\n"), Some(true));
    assert_eq!(prompt_bool("YES\n"), Some(true));
    assert_eq!(prompt_bool("  Yes  "), Some(true));
    assert_eq!(prompt_bool("n\n"), Some(false));
    assert_eq!(prompt_bool("No\n"), Some(false));
    assert_eq!(prompt_bool("NO"), Some(false));
}

#[test]
fn prompt_bool_rejects_everything_else() {
    assert_eq!(prompt_bool("\n"), None);
    assert_eq!(prompt_bool("yep\n"), None);
    assert_eq!(prompt_bool("y e s\n"), None);
    assert_eq!(prompt_bool("true\n"), None);
    assert_eq!(prompt_bool("0\n"), None);
}

#[test]
fn key_path_is_tagged_by_topology() {
    assert_eq!(key_path("/home/me", true), "/home/me/.ssh/id_server");
    assert_eq!(key_path("/home/me", false), "/home/me/.ssh/id_vps");
}

#[test]
fn ssh_config_path_is_under_the_home_directory() {
    assert_eq!(ssh_config_path("/home/me"), "/home/me/.ssh/config");
}

#[test]
fn generate_key_asks_for_ed25519_without_passphrase() {
    assert_eq!(
        generate_key("/home/me/.ssh/id_server"),
        command("ssh-keygen", &["-t", "ed25519", "-f", "/home/me/.ssh/id_server", "-N", ""])
    );
}

#[test]
fn add_key_to_agent_is_ssh_add() {
    assert_eq!(
        add_key_to_agent("/home/me/.ssh/id_vps"),
        command("ssh-add", &["/home/me/.ssh/id_vps"])
    );
}

#[test]
fn copy_key_sends_the_public_key_to_the_target() {
    assert_eq!(
        copy_key("/home/me/.ssh/id_server", "bob", "192.168.1.20"),
        command("ssh-copy-id", &["-i", "/home/me/.ssh/id_server.pub", "bob@192.168.1.20"])
    );
}

#[test]
fn copy_key_via_vps_cleans_up_on_the_target() {
    let (first, second) =
        copy_key_via_vps("/home/me/.ssh/id_vps", "bob", "192.168.1.20", "carol", "203.0.113.7");
    assert_eq!(
        first,
        sh("scp /home/me/.ssh/id_vps.pub carol@203.0.113.7:~/.ssh/temp_key.pub")
    );
    assert_eq!(
        second,
        sh("ssh bob@192.168.1.20 'cat ~/.ssh/temp_key.pub >> ~/.ssh/authorized_keys && rm ~/.ssh/temp_key.pub'")
    );
    assert_eq!(second, install_key("bob", "192.168.1.20"));
}

#[test]
fn write_ssh_config_names_the_jump_host_only_with_both_credentials() {
    let carol = Some("carol".to_string());
    let relay = Some("203.0.113.7".to_string());
    assert_eq!(
        write_ssh_config("/home/me/.ssh/id_server", "bob", "192.168.1.20", &None, &None),
        DIRECT_ENTRY
    );
    assert_eq!(
        write_ssh_config("/home/me/.ssh/id_vps", "bob", "192.168.1.20", &carol, &relay),
        RELAYED_ENTRY
    );
    assert_eq!(
        write_ssh_config("/home/me/.ssh/id_server", "bob", "192.168.1.20", &carol, &None),
        DIRECT_ENTRY
    );
    assert_eq!(
        write_ssh_config("/home/me/.ssh/id_server", "bob", "192.168.1.20", &None, &relay),
        DIRECT_ENTRY
    );
}

#[test]
fn reports_carry_what_the_command_wrote_to_standard_error() {
    assert_eq!(
        key_generated("/k", Outcome::Success, ""),
        note("✅ Key generated at /k")
    );
    assert_eq!(
        key_generated("/k", Outcome::Failure, "disk full"),
        complaint("❌ Failed to generate key: disk full")
    );
    assert_eq!(
        key_generated("/k", Outcome::SpawnFailed, ""),
        complaint("Failed to generate SSH key")
    );
    assert_eq!(key_added(Outcome::Success, ""), note("✅ Key added to SSH agent."));
    assert_eq!(
        key_added(Outcome::Failure, "no agent"),
        complaint("❌ Failed to add key: no agent")
    );
    assert_eq!(key_added(Outcome::SpawnFailed, ""), complaint("Failed to add key to agent"));
    assert_eq!(key_copied(Outcome::Success, ""), note("✅ Key copied to target server."));
    assert_eq!(
        key_copied(Outcome::Failure, "denied"),
        complaint("❌ Failed to copy key: denied")
    );
    assert_eq!(key_copied(Outcome::SpawnFailed, ""), complaint("Failed to copy key"));
    assert_eq!(key_relayed(Outcome::Success), note("✅ Key copied to homelab through VPS."));
    assert_eq!(key_relayed(Outcome::Failure), complaint("❌ Failed to copy key to homelab."));
    assert_eq!(key_relayed(Outcome::SpawnFailed), complaint("❌ Failed to copy key to homelab."));
}

#[test]
fn setup_starts_by_asking_for_the_topology() {
    let (state, step) = run_setup("/home/me");
    assert_eq!(
        state,
        SetupState {
            stage: SetupStage::AskingTopology,
            home: "/home/me".to_string(),
            direct_connection: false,
            username: String::new(),
            ip: String::new(),
            vps_username: None,
            vps_ip: None,
        }
    );
    assert_eq!(
        step,
        Step {
            notices: vec![note("🚀 Welcome to Remote Governor Setup")],
            request: ask("Are you setting up a direct connection (y/n)? "),
        }
    );
}

#[test]
fn setup_asks_again_until_the_topology_is_answered() {
    let (state, _) = run_setup("/home/me");
    let (state, step) = state.next(&typed("perhaps\n"));
    assert_eq!(state.stage, SetupStage::AskingTopology);
    assert_eq!(
        step,
        Step {
            notices: vec![complaint("Invalid input, please enter y/n.")],
            request: ask("Are you setting up a direct connection (y/n)? "),
        }
    );
    let (state, step) = state.next(&typed("\n"));
    assert_eq!(state.stage, SetupStage::AskingTopology);
    assert_eq!(step.request, ask("Are you setting up a direct connection (y/n)? "));
    let (state, step) = state.next(&typed("Y\n"));
    assert_eq!(state.stage, SetupStage::AskingUsername);
    assert!(state.direct_connection);
    assert_eq!(step, Step { notices: vec![], request: ask("Enter the server username: ") });
}

#[test]
fn direct_setup_with_a_new_key_runs_the_whole_sequence() {
    let replies = [
        typed("y\n"),
        typed(" bob \n"),
        typed("192.168.1.20\n"),
        Reply::Exists(false),
        exit(Outcome::Success),
        exit(Outcome::Success),
        exit(Outcome::Success),
        Reply::Written,
    ];
    let (performed, logged) = drive_setup(run_setup("/home/me"), &replies);
    assert_eq!(
        performed,
        vec![
            ask("Are you setting up a direct connection (y/n)? "),
            ask("Enter the server username: "),
            ask("Enter the server IP address: "),
            Request::Probe { path: "/home/me/.ssh/id_server".to_string() },
            captured(generate_key("/home/me/.ssh/id_server")),
            captured(add_key_to_agent("/home/me/.ssh/id_server")),
            captured(copy_key("/home/me/.ssh/id_server", "bob", "192.168.1.20")),
            Request::Append {
                path: "/home/me/.ssh/config".to_string(),
                text: DIRECT_ENTRY.to_string(),
            },
        ]
    );
    assert_eq!(
        logged,
        vec![
            note("🚀 Welcome to Remote Governor Setup"),
            note("🔑 Checking for existing SSH keys..."),
            note("➡️ No key found, generating a new one..."),
            note("✅ Key generated at /home/me/.ssh/id_server"),
            note("➡️ Adding key to SSH agent..."),
            note("✅ Key added to SSH agent."),
            note("➡️ Copying key to target server..."),
            note("✅ Key copied to target server."),
            note("✅ SSH config updated."),
            note("✅ Setup complete! Try `ssh bob` to test the connection."),
        ]
    );
}

#[test]
fn relayed_setup_with_a_new_key_runs_the_whole_sequence() {
    let replies = [
        typed("no\n"),
        typed("bob\n"),
        typed("192.168.1.20\n"),
        typed("carol\n"),
        typed("203.0.113.7\n"),
        Reply::Exists(false),
        exit(Outcome::Success),
        exit(Outcome::Success),
        exit(Outcome::Success),
        exit(Outcome::Success),
        Reply::Written,
    ];
    let (performed, logged) = drive_setup(run_setup("/home/me"), &replies);
    let (first, second) =
        copy_key_via_vps("/home/me/.ssh/id_vps", "bob", "192.168.1.20", "carol", "203.0.113.7");
    assert_eq!(
        performed,
        vec![
            ask("Are you setting up a direct connection (y/n)? "),
            ask("Enter the server username: "),
            ask("Enter the server IP address: "),
            ask("Enter the VPS username: "),
            ask("Enter the VPS IP address: "),
            Request::Probe { path: "/home/me/.ssh/id_vps".to_string() },
            captured(generate_key("/home/me/.ssh/id_vps")),
            captured(add_key_to_agent("/home/me/.ssh/id_vps")),
            shared(first),
            shared(second),
            Request::Append {
                path: "/home/me/.ssh/config".to_string(),
                text: RELAYED_ENTRY.to_string(),
            },
        ]
    );
    assert_eq!(
        logged,
        vec![
            note("🚀 Welcome to Remote Governor Setup"),
            note("🔑 Checking for existing SSH keys..."),
            note("➡️ No key found, generating a new one..."),
            note("✅ Key generated at /home/me/.ssh/id_vps"),
            note("➡️ Adding key to SSH agent..."),
            note("✅ Key added to SSH agent."),
            note("➡️ Copying key through VPS..."),
            note("✅ Key copied to homelab through VPS."),
            note("✅ SSH config updated."),
            note("✅ Setup complete! Try `ssh bob` to test the connection."),
        ]
    );
}

#[test]
fn existing_key_is_reused_and_the_setup_goes_on() {
    let replies =
        [Reply::Exists(true), exit(Outcome::Success), exit(Outcome::Success), Reply::Written];
    let start = state(SetupStage::AskingIp, true).next(&typed("192.168.1.20\n"));
    let (performed, logged) = drive_setup(start, &replies);
    assert_eq!(
        performed,
        vec![
            Request::Probe { path: "/home/me/.ssh/id_server".to_string() },
            captured(add_key_to_agent("/home/me/.ssh/id_server")),
            captured(copy_key("/home/me/.ssh/id_server", "bob", "192.168.1.20")),
            Request::Append {
                path: "/home/me/.ssh/config".to_string(),
                text: DIRECT_ENTRY.to_string(),
            },
        ]
    );
    assert_eq!(logged[1], note("✅ Key found at /home/me/.ssh/id_server — reusing it."));
    assert_eq!(logged[2], note("➡️ Adding key to SSH agent..."));
    assert!(performed.iter().all(|request| match request {
        Request::Run { command, .. } => command.program != "ssh-keygen",
        _ => true,
    }));
}

#[test]
fn failed_key_generation_does_not_stop_the_setup() {
    for outcome in [Outcome::Failure, Outcome::SpawnFailed] {
        let start = state(SetupStage::ProbingKey, true).next(&Reply::Exists(false));
        let replies = [
            exit_with(outcome, "boom"),
            exit_with(outcome, "bang"),
            exit_with(outcome, "crash"),
            Reply::Written,
        ];
        let (performed, logged) = drive_setup(start, &replies);
        assert_eq!(
            performed,
            vec![
                captured(generate_key("/home/me/.ssh/id_server")),
                captured(add_key_to_agent("/home/me/.ssh/id_server")),
                captured(copy_key("/home/me/.ssh/id_server", "bob", "192.168.1.20")),
                Request::Append {
                    path: "/home/me/.ssh/config".to_string(),
                    text: DIRECT_ENTRY.to_string(),
                },
            ]
        );
        assert_eq!(logged.iter().filter(|notice| notice.level == Level::Error).count(), 3);
        assert_eq!(logged.last(), Some(&note("✅ Setup complete! Try `ssh bob` to test the connection.")));
    }
    let (_, step) = state(SetupStage::GeneratingKey, true).next(&exit_with(Outcome::Failure, "boom"));
    assert_eq!(
        step.notices,
        vec![complaint("❌ Failed to generate key: boom"), note("➡️ Adding key to SSH agent...")]
    );
}

#[test]
fn relayed_setup_without_credentials_stops_before_distribution() {
    let mut missing = state(SetupStage::AddingKey, false);
    missing.vps_ip = None;
    let (after, step) = missing.clone().next(&exit(Outcome::Success));
    assert_eq!(after.stage, SetupStage::Finished);
    assert_eq!(
        step,
        Step {
            notices: vec![
                note("✅ Key added to SSH agent."),
                complaint("VPS information missing."),
            ],
            request: Request::Done,
        }
    );
    let replies = [exit(Outcome::Success), exit(Outcome::Success), Reply::Written];
    let (performed, _) = drive_setup(missing.next(&exit(Outcome::Success)), &replies);
    assert!(performed.is_empty());

    let mut missing = state(SetupStage::AddingKey, false);
    missing.vps_username = None;
    let (after, step) = missing.next(&exit(Outcome::Failure));
    assert_eq!(after.stage, SetupStage::Finished);
    assert_eq!(step.request, Request::Done);
}

#[test]
fn relayed_setup_skips_the_second_command_when_the_first_fails() {
    for outcome in [Outcome::Failure, Outcome::SpawnFailed] {
        let (after, step) = state(SetupStage::CopyingToVps, false).next(&exit(outcome));
        assert_eq!(after.stage, SetupStage::WritingConfig);
        assert_eq!(
            step,
            Step {
                notices: vec![complaint("❌ Failed to copy key to homelab.")],
                request: Request::Append {
                    path: "/home/me/.ssh/config".to_string(),
                    text: RELAYED_ENTRY.to_string(),
                },
            }
        );
    }
    let (after, step) = state(SetupStage::CopyingToVps, false).next(&exit(Outcome::Success));
    assert_eq!(after.stage, SetupStage::RelayingKey);
    assert_eq!(step, Step { notices: vec![], request: shared(install_key("bob", "192.168.1.20")) });
    let (after, step) = state(SetupStage::RelayingKey, false).next(&exit(Outcome::Failure));
    assert_eq!(after.stage, SetupStage::WritingConfig);
    assert_eq!(step.notices, vec![complaint("❌ Failed to copy key to homelab.")]);
}

#[test]
fn repeated_setup_appends_the_same_entry_again() {
    let first = state(SetupStage::CopyingKey, true).next(&exit(Outcome::Success)).1.request;
    let second = state(SetupStage::CopyingKey, true).next(&exit(Outcome::Success)).1.request;
    assert_eq!(first, second);
    assert_eq!(
        first,
        Request::Append { path: "/home/me/.ssh/config".to_string(), text: DIRECT_ENTRY.to_string() }
    );
}

#[test]
fn setup_stops_on_a_reply_that_does_not_answer_its_request() {
    let cases = [
        (SetupStage::AskingTopology, exit(Outcome::Success)),
        (SetupStage::AskingUsername, Reply::Exists(true)),
        (SetupStage::ProbingKey, typed("y\n")),
        (SetupStage::ProbingKey, Reply::Written),
        (SetupStage::GeneratingKey, Reply::Exists(false)),
        (SetupStage::AddingKey, typed("bob\n")),
        (SetupStage::CopyingKey, Reply::Written),
        (SetupStage::WritingConfig, exit(Outcome::Success)),
        (SetupStage::WritingConfig, Reply::Exists(true)),
    ];
    for (stage, reply) in cases {
        let (after, step) = state(stage, true).next(&reply);
        assert_eq!(after.stage, SetupStage::Finished);
        assert_eq!(
            step,
            Step {
                notices: vec![complaint("Stopped: the reply does not answer the request.")],
                request: Request::Done,
            }
        );
    }
}

#[test]
fn finished_setup_stays_finished() {
    for reply in [typed("y\n"), exit(Outcome::Success), Reply::Exists(true), Reply::Written] {
        let (after, step) = state(SetupStage::Finished, true).next(&reply);
        assert_eq!(after, state(SetupStage::Finished, true));
        assert_eq!(step, Step { notices: vec![], request: Request::Done });
    }
}
