//! Provisioning key-based authentication for the target host.
//!
//! Setup is a fixed sequence: an interview (topology, then the credentials of
//! each host), a look for an existing private key, key generation if there is
//! none, registration of the key with the agent, distribution of the public
//! key to the target, and an entry appended to the SSH client configuration.
//!
//! A command that fails, or cannot even be started, is logged and the sequence
//! goes on. Only a relayed setup that lacks its relay credentials stops
//! before distribution.

use crate::protocol::{
    Command, CommandView, Notice, NoticeView, Outcome, Reply, ReplyView, Request, RequestView,
    Step, StepView,
};
use crate::text::{around, is_word, lowercased, spec_around, trimmed};
use vstd::prelude::*;
use vstd::string::StringExecFns;

verus! {

/// The answer that was typed on a line: the line without the white space
/// around it.
pub fn prompt(line: &str) -> (answer: String)
    ensures
        answer@ == trimmed(line@),
{
    line.trim().to_owned()
}

/// What a lowercase word answers to a yes-or-no question: `y` and `yes` mean
/// yes, `n` and `no` mean no, and anything else is no answer.
pub open spec fn spec_yes_no(word: Seq<char>) -> Option<bool> {
    if word == "y"@ || word == "yes"@ {
        Some(true)
    } else if word == "n"@ || word == "no"@ {
        Some(false)
    } else {
        None
    }
}

/// What a lowercase word answers to a yes-or-no question: see
/// [`spec_yes_no`].
pub fn yes_no(word: &str) -> (answer: Option<bool>)
    ensures
        answer == spec_yes_no(word@),
{
    if is_word(word, "y") || is_word(word, "yes") {
        Some(true)
    } else if is_word(word, "n") || is_word(word, "no") {
        Some(false)
    } else {
        None
    }
}

/// What a typed line answers to a yes-or-no question: the line is trimmed and
/// lowercased, and the word that is left decides.
pub open spec fn spec_prompt_bool(line: Seq<char>) -> Option<bool> {
    spec_yes_no(lowercased(trimmed(line)))
}

/// What a typed line answers to a yes-or-no question, in any mix of upper and
/// lower case: see [`spec_prompt_bool`]. `None` means that the question has to
/// be asked again.
pub fn prompt_bool(line: &str) -> (answer: Option<bool>)
    ensures
        answer == spec_prompt_bool(line@),
{
    let lowered = line.trim().to_lowercase();
    yes_no(lowered.as_str())
}

/// Where the private key lives: `<home>/.ssh/id_server` for a direct setup,
/// `<home>/.ssh/id_vps` for a relayed one.
pub open spec fn spec_key_path(home: Seq<char>, direct_connection: bool) -> Seq<char> {
    home + "/.ssh/id_"@ + if direct_connection {
        "server"@
    } else {
        "vps"@
    }
}

/// Where the private key lives: see [`spec_key_path`].
pub fn key_path(home: &str, direct_connection: bool) -> (path: String)
    ensures
        path@ == spec_key_path(home@, direct_connection),
{
    let mut path = home.to_owned();
    path.append("/.ssh/id_");
    path.append(
        if direct_connection {
            "server"
        } else {
            "vps"
        },
    );
    path
}

/// The SSH client configuration of the user: `<home>/.ssh/config`.
pub open spec fn spec_ssh_config_path(home: Seq<char>) -> Seq<char> {
    home + "/.ssh/config"@
}

/// The SSH client configuration of the user: `<home>/.ssh/config`.
pub fn ssh_config_path(home: &str) -> (path: String)
    ensures
        path@ == spec_ssh_config_path(home@),
{
    let mut path = home.to_owned();
    path.append("/.ssh/config");
    path
}

/// A line that ends in what the command wrote to standard error.
pub open spec fn spec_with_stderr(before: Seq<char>, stderr: Seq<char>) -> NoticeView {
    NoticeView::error(before + stderr)
}

/// A line that ends in what the command wrote to standard error.
pub fn with_stderr(before: &str, stderr: &str) -> (notice: Notice)
    ensures
        notice@ == spec_with_stderr(before@, stderr@),
{
    let mut line = before.to_owned();
    line.append(stderr);
    Notice::error(line)
}

/// `ssh-keygen -t ed25519 -f <key> -N ""`: a new ed25519 key pair without a
/// passphrase.
pub open spec fn spec_generate_key(key_path: Seq<char>) -> CommandView {
    CommandView::new("ssh-keygen"@).arg("-t"@).arg("ed25519"@).arg("-f"@).arg(key_path).arg(
        "-N"@,
    ).arg(""@)
}

/// How key generation went, for the log.
pub open spec fn spec_key_generated(
    key_path: Seq<char>,
    outcome: Outcome,
    stderr: Seq<char>,
) -> NoticeView {
    match outcome {
        Outcome::Success => NoticeView::info("✅ Key generated at "@ + key_path),
        Outcome::Failure => spec_with_stderr("❌ Failed to generate key: "@, stderr),
        Outcome::SpawnFailed => NoticeView::error("Failed to generate SSH key"@),
    }
}

/// `ssh-keygen -t ed25519 -f <key> -N ""`: a new ed25519 key pair without a
/// passphrase.
pub fn generate_key(key_path: &str) -> (command: Command)
    ensures
        command@ == spec_generate_key(key_path@),
{
    Command::new("ssh-keygen").arg("-t".to_owned()).arg("ed25519".to_owned()).arg(
        "-f".to_owned(),
    ).arg(key_path.to_owned()).arg("-N".to_owned()).arg("".to_owned())
}

/// How key generation went, for the log.
pub fn key_generated(key_path: &str, outcome: Outcome, stderr: &str) -> (notice: Notice)
    ensures
        notice@ == spec_key_generated(key_path@, outcome, stderr@),
{
    match outcome {
        Outcome::Success => {
            let mut line = "✅ Key generated at ".to_owned();
            line.append(key_path);
            Notice::info(line)
        },
        Outcome::Failure => with_stderr("❌ Failed to generate key: ", stderr),
        Outcome::SpawnFailed => Notice::error("Failed to generate SSH key".to_owned()),
    }
}

/// `ssh-add <key>`: the key is registered with the agent.
pub open spec fn spec_add_key_to_agent(key_path: Seq<char>) -> CommandView {
    CommandView::new("ssh-add"@).arg(key_path)
}

/// How registration with the agent went, for the log.
pub open spec fn spec_key_added(outcome: Outcome, stderr: Seq<char>) -> NoticeView {
    match outcome {
        Outcome::Success => NoticeView::info("✅ Key added to SSH agent."@),
        Outcome::Failure => spec_with_stderr("❌ Failed to add key: "@, stderr),
        Outcome::SpawnFailed => NoticeView::error("Failed to add key to agent"@),
    }
}

/// `ssh-add <key>`: the key is registered with the agent.
pub fn add_key_to_agent(key_path: &str) -> (command: Command)
    ensures
        command@ == spec_add_key_to_agent(key_path@),
{
    Command::new("ssh-add").arg(key_path.to_owned())
}

/// How registration with the agent went, for the log.
pub fn key_added(outcome: Outcome, stderr: &str) -> (notice: Notice)
    ensures
        notice@ == spec_key_added(outcome, stderr@),
{
    match outcome {
        Outcome::Success => Notice::info("✅ Key added to SSH agent.".to_owned()),
        Outcome::Failure => with_stderr("❌ Failed to add key: ", stderr),
        Outcome::SpawnFailed => Notice::error("Failed to add key to agent".to_owned()),
    }
}

/// `ssh-copy-id -i <key>.pub <user>@<ip>`: the public key goes straight to
/// the target.
pub open spec fn spec_copy_key(
    key_path: Seq<char>,
    username: Seq<char>,
    ip: Seq<char>,
) -> CommandView {
    CommandView::new("ssh-copy-id"@).arg("-i"@).arg(key_path + ".pub"@).arg(username + "@"@ + ip)
}

/// How the direct distribution went, for the log.
pub open spec fn spec_key_copied(outcome: Outcome, stderr: Seq<char>) -> NoticeView {
    match outcome {
        Outcome::Success => NoticeView::info("✅ Key copied to target server."@),
        Outcome::Failure => spec_with_stderr("❌ Failed to copy key: "@, stderr),
        Outcome::SpawnFailed => NoticeView::error("Failed to copy key"@),
    }
}

/// `ssh-copy-id -i <key>.pub <user>@<ip>`: the public key goes straight to
/// the target.
pub fn copy_key(key_path: &str, username: &str, ip: &str) -> (command: Command)
    ensures
        command@ == spec_copy_key(key_path@, username@, ip@),
{
    let mut public_key = key_path.to_owned();
    public_key.append(".pub");
    let mut destination = username.to_owned();
    destination.append("@");
    destination.append(ip);
    Command::new("ssh-copy-id").arg("-i".to_owned()).arg(public_key).arg(destination)
}

/// How the direct distribution went, for the log.
pub fn key_copied(outcome: Outcome, stderr: &str) -> (notice: Notice)
    ensures
        notice@ == spec_key_copied(outcome, stderr@),
{
    match outcome {
        Outcome::Success => Notice::info("✅ Key copied to target server.".to_owned()),
        Outcome::Failure => with_stderr("❌ Failed to copy key: ", stderr),
        Outcome::SpawnFailed => Notice::error("Failed to copy key".to_owned()),
    }
}

/// The two commands that distribute the public key through the relay.
///
/// The first is a shell that copies the public key to a temporary file on
/// the relay. The second is a shell that logs into the target, and there
/// appends the temporary file to the authorized keys and removes it: the
/// clean-up is part of what the target is told to run.
pub open spec fn spec_copy_key_via_vps(
    key_path: Seq<char>,
    username: Seq<char>,
    ip: Seq<char>,
    vps_username: Seq<char>,
    vps_ip: Seq<char>,
) -> (CommandView, CommandView) {
    (
        CommandView::shell(
            "scp "@ + key_path + ".pub "@ + vps_username + "@"@ + vps_ip
                + ":~/.ssh/temp_key.pub"@,
        ),
        spec_install_key(username, ip),
    )
}

/// The second of the two commands of [`spec_copy_key_via_vps`].
pub open spec fn spec_install_key(username: Seq<char>, ip: Seq<char>) -> CommandView {
    CommandView::shell(
        "ssh "@ + username + "@"@ + ip
            + " 'cat ~/.ssh/temp_key.pub >> ~/.ssh/authorized_keys && rm ~/.ssh/temp_key.pub'"@,
    )
}

/// How the distribution through the relay ended, for the log: it worked only
/// if both commands did.
pub open spec fn spec_key_relayed(outcome: Outcome) -> NoticeView {
    if outcome == Outcome::Success {
        NoticeView::info("✅ Key copied to homelab through VPS."@)
    } else {
        NoticeView::error("❌ Failed to copy key to homelab."@)
    }
}

/// The second of the two commands of [`copy_key_via_vps`].
pub fn install_key(username: &str, ip: &str) -> (command: Command)
    ensures
        command@ == spec_install_key(username@, ip@),
{
    let mut script = "ssh ".to_owned();
    script.append(username);
    script.append("@");
    script.append(ip);
    script.append(
        " 'cat ~/.ssh/temp_key.pub >> ~/.ssh/authorized_keys && rm ~/.ssh/temp_key.pub'",
    );
    Command::shell(script)
}

/// The two commands that distribute the public key through the relay: see
/// [`spec_copy_key_via_vps`].
pub fn copy_key_via_vps(
    key_path: &str,
    username: &str,
    ip: &str,
    vps_username: &str,
    vps_ip: &str,
) -> (commands: (Command, Command))
    ensures
        (commands.0@, commands.1@) == spec_copy_key_via_vps(
            key_path@,
            username@,
            ip@,
            vps_username@,
            vps_ip@,
        ),
{
    let mut script = "scp ".to_owned();
    script.append(key_path);
    script.append(".pub ");
    script.append(vps_username);
    script.append("@");
    script.append(vps_ip);
    script.append(":~/.ssh/temp_key.pub");
    (Command::shell(script), install_key(username, ip))
}

/// How the distribution through the relay ended, for the log.
pub fn key_relayed(outcome: Outcome) -> (notice: Notice)
    ensures
        notice@ == spec_key_relayed(outcome),
{
    match outcome {
        Outcome::Success => Notice::info("✅ Key copied to homelab through VPS.".to_owned()),
        _ => Notice::error("❌ Failed to copy key to homelab.".to_owned()),
    }
}

/// The entry for the SSH client configuration.
///
/// The host is named after the user, and the entry points at the key. With
/// both relay credentials it also names the relay as the jump host.
pub open spec fn spec_write_ssh_config(
    key_path: Seq<char>,
    username: Seq<char>,
    ip: Seq<char>,
    vps_username: Option<Seq<char>>,
    vps_ip: Option<Seq<char>>,
) -> Seq<char> {
    let entry = "Host "@ + username + "\n    HostName "@ + ip + "\n    User "@ + username
        + "\n    IdentityFile "@ + key_path;
    if vps_username is Some && vps_ip is Some {
        entry + "\n    ProxyJump "@ + vps_username->0 + "@"@ + vps_ip->0 + "\n\n"@
    } else {
        entry + "\n\n"@
    }
}

/// The entry for the SSH client configuration: see
/// [`spec_write_ssh_config`].
pub fn write_ssh_config(
    key_path: &str,
    username: &str,
    ip: &str,
    vps_username: &Option<String>,
    vps_ip: &Option<String>,
) -> (entry: String)
    ensures
        entry@ == spec_write_ssh_config(
            key_path@,
            username@,
            ip@,
            vps_username.deep_view(),
            vps_ip.deep_view(),
        ),
{
    let mut entry = "Host ".to_owned();
    entry.append(username);
    entry.append("\n    HostName ");
    entry.append(ip);
    entry.append("\n    User ");
    entry.append(username);
    entry.append("\n    IdentityFile ");
    entry.append(key_path);
    match (vps_username, vps_ip) {
        (Some(vps_username), Some(vps_ip)) => {
            entry.append("\n    ProxyJump ");
            entry.append(vps_username.as_str());
            entry.append("@");
            entry.append(vps_ip.as_str());
            entry.append("\n\n");
        },
        _ => {
            entry.append("\n\n");
        },
    }
    entry
}

/// Which request a setup is waiting on.
#[derive(Clone, Copy, Debug, PartialEq, Eq, Structural)]
pub enum SetupStage {
    /// Asked whether the connection is direct.
    AskingTopology,
    /// Asked for the user name on the target.
    AskingUsername,
    /// Asked for the address of the target.
    AskingIp,
    /// Asked for the user name on the relay.
    AskingVpsUsername,
    /// Asked for the address of the relay.
    AskingVpsIp,
    /// Looking for the private key.
    ProbingKey,
    /// Generating a key pair.
    GeneratingKey,
    /// Registering the key with the agent.
    AddingKey,
    /// Copying the public key straight to the target.
    CopyingKey,
    /// Copying the public key to the relay.
    CopyingToVps,
    /// Having the target install the public key.
    RelayingKey,
    /// Appending to the SSH client configuration.
    WritingConfig,
    /// Over: nothing more will be asked.
    Finished,
}

/// A setup in progress: the request it waits on and what it has learnt.
#[derive(Clone, Debug, PartialEq, Eq)]
pub struct SetupState {
    pub stage: SetupStage,
    /// The home directory of the user.
    pub home: String,
    pub direct_connection: bool,
    pub username: String,
    pub ip: String,
    pub vps_username: Option<String>,
    pub vps_ip: Option<String>,
}

/// Mathematical form of a [`SetupState`].
pub struct SetupStateView {
    pub stage: SetupStage,
    pub home: Seq<char>,
    pub direct_connection: bool,
    pub username: Seq<char>,
    pub ip: Seq<char>,
    pub vps_username: Option<Seq<char>>,
    pub vps_ip: Option<Seq<char>>,
}

impl View for SetupState {
    type V = SetupStateView;

    open spec fn view(&self) -> SetupStateView {
        SetupStateView {
            stage: self.stage,
            home: self.home@,
            direct_connection: self.direct_connection,
            username: self.username@,
            ip: self.ip@,
            vps_username: self.vps_username.deep_view(),
            vps_ip: self.vps_ip.deep_view(),
        }
    }
}

/// The question about the topology.
pub open spec fn spec_topology_question() -> RequestView {
    RequestView::Ask { prompt: "Are you setting up a direct connection (y/n)? "@ }
}

/// The question about the topology.
pub fn topology_question() -> (request: Request)
    ensures
        request@ == spec_topology_question(),
{
    Request::Ask { prompt: "Are you setting up a direct connection (y/n)? ".to_owned() }
}

/// A question with the given prompt.
pub fn ask(prompt: &str) -> (request: Request)
    ensures
        request@ == (RequestView::Ask { prompt: prompt@ }),
{
    Request::Ask { prompt: prompt.to_owned() }
}

/// The first turn of a setup for the user whose home directory is `home`:
/// nothing is known yet, a welcome is logged and the topology is asked for.
pub open spec fn spec_run_setup(home: Seq<char>) -> (SetupStateView, StepView) {
    (
        SetupStateView {
            stage: SetupStage::AskingTopology,
            home,
            direct_connection: false,
            username: Seq::empty(),
            ip: Seq::empty(),
            vps_username: None,
            vps_ip: None,
        },
        StepView::quiet(spec_topology_question()).say(
            NoticeView::info("🚀 Welcome to Remote Governor Setup"@),
        ),
    )
}

/// The first turn of a setup for the user whose home directory is `home`:
/// see [`spec_run_setup`].
pub fn run_setup(home: &str) -> (turn: (SetupState, Step))
    ensures
        (turn.0@, turn.1@) == spec_run_setup(home@),
{
    (
        SetupState {
            stage: SetupStage::AskingTopology,
            home: home.to_owned(),
            direct_connection: false,
            username: String::new(),
            ip: String::new(),
            vps_username: None,
            vps_ip: None,
        },
        Step::quiet(topology_question()).say(
            Notice::info("🚀 Welcome to Remote Governor Setup".to_owned()),
        ),
    )
}

impl SetupStateView {
    /// The same setup, waiting on another request.
    pub open spec fn at(self, stage: SetupStage) -> SetupStateView {
        SetupStateView { stage, ..self }
    }

    /// Where the private key of this setup lives.
    pub open spec fn key_path(self) -> Seq<char> {
        spec_key_path(self.home, self.direct_connection)
    }

    /// The relay is needed and at least one of its credentials is absent.
    pub open spec fn relay_missing(self) -> bool {
        !self.direct_connection && (self.vps_username is None || self.vps_ip is None)
    }

    /// The command that distributes the public key first: the direct copy,
    /// or the copy to the relay.
    pub open spec fn distribution(self) -> CommandView
        recommends
            !self.relay_missing(),
    {
        if self.direct_connection {
            spec_copy_key(self.key_path(), self.username, self.ip)
        } else {
            spec_copy_key_via_vps(
                self.key_path(),
                self.username,
                self.ip,
                self.vps_username->0,
                self.vps_ip->0,
            ).0
        }
    }

    /// The entry that this setup appends to the SSH client configuration.
    pub open spec fn entry(self) -> Seq<char> {
        spec_write_ssh_config(
            self.key_path(),
            self.username,
            self.ip,
            self.vps_username,
            self.vps_ip,
        )
    }

    /// The interview is over: the private key is looked for.
    pub open spec fn then_probe(self) -> (SetupStateView, StepView) {
        (
            self.at(SetupStage::ProbingKey),
            StepView::quiet(RequestView::Probe { path: self.key_path() }).say(
                NoticeView::info("🔑 Checking for existing SSH keys..."@),
            ),
        )
    }

    /// There is a key, old or new: it is registered with the agent.
    pub open spec fn then_add_key(self) -> (SetupStateView, StepView) {
        (
            self.at(SetupStage::AddingKey),
            StepView::quiet(RequestView::captured(spec_add_key_to_agent(self.key_path()))).say(
                NoticeView::info("➡️ Adding key to SSH agent..."@),
            ),
        )
    }

    /// The agent has been dealt with: the public key is distributed, unless
    /// the relay is needed and its credentials are missing. In that case the
    /// setup stops here.
    pub open spec fn then_distribute(self) -> (SetupStateView, StepView) {
        if self.direct_connection {
            (
                self.at(SetupStage::CopyingKey),
                StepView::quiet(RequestView::captured(self.distribution())).say(
                    NoticeView::info("➡️ Copying key to target server..."@),
                ),
            )
        } else if self.relay_missing() {
            (
                self.at(SetupStage::Finished),
                StepView::finished().say(NoticeView::error("VPS information missing."@)),
            )
        } else {
            (
                self.at(SetupStage::CopyingToVps),
                StepView::quiet(RequestView::attached(self.distribution())).say(
                    NoticeView::info("➡️ Copying key through VPS..."@),
                ),
            )
        }
    }

    /// Distribution is over, however it went: the entry is appended to the
    /// SSH client configuration.
    pub open spec fn then_write_config(self) -> (SetupStateView, StepView) {
        (
            self.at(SetupStage::WritingConfig),
            StepView::quiet(
                RequestView::Append { path: spec_ssh_config_path(self.home), text: self.entry() },
            ),
        )
    }

    /// The setup stops because the reply does not answer its request.
    pub open spec fn stop(self) -> (SetupStateView, StepView) {
        (self.at(SetupStage::Finished), StepView::misfit())
    }

    /// The turn that follows a typed line.
    ///
    /// The topology is asked for until the line answers yes or no. Every
    /// other answer is taken as typed, without the white space around it.
    /// The relay is asked about only if the connection is not direct.
    pub open spec fn next_line(self, line: Seq<char>) -> (SetupStateView, StepView) {
        match self.stage {
            SetupStage::AskingTopology => match spec_prompt_bool(line) {
                Some(direct_connection) => (
                    SetupStateView {
                        stage: SetupStage::AskingUsername,
                        direct_connection,
                        ..self
                    },
                    StepView::quiet(RequestView::Ask { prompt: "Enter the server username: "@ }),
                ),
                None => (
                    self,
                    StepView::quiet(spec_topology_question()).say(
                        NoticeView::error("Invalid input, please enter y/n."@),
                    ),
                ),
            },
            SetupStage::AskingUsername => (
                SetupStateView { stage: SetupStage::AskingIp, username: trimmed(line), ..self },
                StepView::quiet(RequestView::Ask { prompt: "Enter the server IP address: "@ }),
            ),
            SetupStage::AskingIp => {
                let known = SetupStateView { ip: trimmed(line), ..self };
                if known.direct_connection {
                    known.then_probe()
                } else {
                    (
                        known.at(SetupStage::AskingVpsUsername),
                        StepView::quiet(RequestView::Ask { prompt: "Enter the VPS username: "@ }),
                    )
                }
            },
            SetupStage::AskingVpsUsername => (
                SetupStateView {
                    stage: SetupStage::AskingVpsIp,
                    vps_username: Some(trimmed(line)),
                    ..self
                },
                StepView::quiet(RequestView::Ask { prompt: "Enter the VPS IP address: "@ }),
            ),
            SetupStage::AskingVpsIp => SetupStateView {
                vps_ip: Some(trimmed(line)),
                ..self
            }.then_probe(),
            _ => self.stop(),
        }
    }

    /// The turn that follows the end of a command.
    ///
    /// How the command went is logged first, and then the sequence goes on
    /// whatever it was. The one exception is the copy to the relay: the
    /// target is told to install the key only if that copy succeeded, and
    /// one line reports on the two commands together.
    pub open spec fn next_ran(self, outcome: Outcome, stderr: Seq<char>) -> (
        SetupStateView,
        StepView,
    ) {
        match self.stage {
            SetupStage::GeneratingKey => spec_after(
                spec_key_generated(self.key_path(), outcome, stderr),
                self.then_add_key(),
            ),
            SetupStage::AddingKey => spec_after(
                spec_key_added(outcome, stderr),
                self.then_distribute(),
            ),
            SetupStage::CopyingKey => spec_after(
                spec_key_copied(outcome, stderr),
                self.then_write_config(),
            ),
            SetupStage::CopyingToVps => if outcome == Outcome::Success {
                (
                    self.at(SetupStage::RelayingKey),
                    StepView::quiet(
                        RequestView::attached(spec_install_key(self.username, self.ip)),
                    ),
                )
            } else {
                spec_after(spec_key_relayed(outcome), self.then_write_config())
            },
            SetupStage::RelayingKey => spec_after(
                spec_key_relayed(outcome),
                self.then_write_config(),
            ),
            _ => self.stop(),
        }
    }

    /// The turn that follows the search for the private key: a key that is
    /// there is used as it is, and one is generated only if there is none.
    pub open spec fn next_exists(self, found: bool) -> (SetupStateView, StepView) {
        if self.stage != SetupStage::ProbingKey {
            self.stop()
        } else if found {
            spec_after(
                NoticeView::info(
                    spec_around("✅ Key found at "@, self.key_path(), " — reusing it."@),
                ),
                self.then_add_key(),
            )
        } else {
            (
                self.at(SetupStage::GeneratingKey),
                StepView::quiet(RequestView::captured(spec_generate_key(self.key_path()))).say(
                    NoticeView::info("➡️ No key found, generating a new one..."@),
                ),
            )
        }
    }

    /// The turn that follows the writing of the SSH client configuration:
    /// the setup is over.
    pub open spec fn next_written(self) -> (SetupStateView, StepView) {
        if self.stage != SetupStage::WritingConfig {
            self.stop()
        } else {
            (
                self.at(SetupStage::Finished),
                StepView::finished().say(NoticeView::info("✅ SSH config updated."@)).say(
                    NoticeView::info(
                        spec_around(
                            "✅ Setup complete! Try `ssh "@,
                            self.username,
                            "` to test the connection."@,
                        ),
                    ),
                ),
            )
        }
    }

    /// The turn that follows `reply`.
    ///
    /// Each stage goes on with the reply that answers its request, and stops
    /// with an error line on any other. A setup that is over stays over.
    pub open spec fn next(self, reply: ReplyView) -> (SetupStateView, StepView) {
        if self.stage == SetupStage::Finished {
            (self, StepView::finished())
        } else {
            match reply {
                ReplyView::Line(line) => self.next_line(line),
                ReplyView::Ran { outcome, stderr } => self.next_ran(outcome, stderr),
                ReplyView::Exists(found) => self.next_exists(found),
                ReplyView::Written => self.next_written(),
            }
        }
    }
}

/// The same turn with one more line logged before all others.
pub open spec fn spec_after(notice: NoticeView, turn: (SetupStateView, StepView)) -> (
    SetupStateView,
    StepView,
) {
    (turn.0, turn.1.after(notice))
}

/// The same turn with one more line logged before all others.
pub fn after(notice: Notice, turn: (SetupState, Step)) -> (led: (SetupState, Step))
    ensures
        (led.0@, led.1@) == spec_after(notice@, (turn.0@, turn.1@)),
{
    (turn.0, turn.1.after(notice))
}

impl SetupState {
    /// Where the private key of this setup lives.
    pub fn key_path(&self) -> (path: String)
        ensures
            path@ == self@.key_path(),
    {
        key_path(self.home.as_str(), self.direct_connection)
    }

    /// The same setup, waiting on another request.
    pub fn at(self, stage: SetupStage) -> (state: SetupState)
        ensures
            state@ == self@.at(stage),
    {
        let mut state = self;
        state.stage = stage;
        state
    }

    /// The interview is over: see [`SetupStateView::then_probe`].
    pub fn then_probe(self) -> (turn: (SetupState, Step))
        ensures
            (turn.0@, turn.1@) == self@.then_probe(),
    {
        let path = self.key_path();
        let step = Step::quiet(Request::Probe { path }).say(
            Notice::info("🔑 Checking for existing SSH keys...".to_owned()),
        );
        (self.at(SetupStage::ProbingKey), step)
    }

    /// There is a key: see [`SetupStateView::then_add_key`].
    pub fn then_add_key(self) -> (turn: (SetupState, Step))
        ensures
            (turn.0@, turn.1@) == self@.then_add_key(),
    {
        let command = add_key_to_agent(self.key_path().as_str());
        let step = Step::quiet(Request::captured(command)).say(
            Notice::info("➡️ Adding key to SSH agent...".to_owned()),
        );
        (self.at(SetupStage::AddingKey), step)
    }

    /// The agent has been dealt with: see
    /// [`SetupStateView::then_distribute`].
    pub fn then_distribute(self) -> (turn: (SetupState, Step))
        ensures
            (turn.0@, turn.1@) == self@.then_distribute(),
    {
        let key = self.key_path();
        if self.direct_connection {
            let command = copy_key(key.as_str(), self.username.as_str(), self.ip.as_str());
            let step = Step::quiet(Request::captured(command)).say(
                Notice::info("➡️ Copying key to target server...".to_owned()),
            );
            (self.at(SetupStage::CopyingKey), step)
        } else {
            let first = match (&self.vps_username, &self.vps_ip) {
                (Some(vps_username), Some(vps_ip)) => Some(
                    copy_key_via_vps(
                        key.as_str(),
                        self.username.as_str(),
                        self.ip.as_str(),
                        vps_username.as_str(),
                        vps_ip.as_str(),
                    ).0,
                ),
                _ => None,
            };
            match first {
                Some(command) => {
                    let step = Step::quiet(Request::attached(command)).say(
                        Notice::info("➡️ Copying key through VPS...".to_owned()),
                    );
                    (self.at(SetupStage::CopyingToVps), step)
                },
                None => {
                    let step = Step::finished().say(
                        Notice::error("VPS information missing.".to_owned()),
                    );
                    (self.at(SetupStage::Finished), step)
                },
            }
        }
    }

    /// Distribution is over: see [`SetupStateView::then_write_config`].
    pub fn then_write_config(self) -> (turn: (SetupState, Step))
        ensures
            (turn.0@, turn.1@) == self@.then_write_config(),
    {
        let text = write_ssh_config(
            self.key_path().as_str(),
            self.username.as_str(),
            self.ip.as_str(),
            &self.vps_username,
            &self.vps_ip,
        );
        let path = ssh_config_path(self.home.as_str());
        (self.at(SetupStage::WritingConfig), Step::quiet(Request::Append { path, text }))
    }

    /// The setup stops because the reply does not answer its request.
    pub fn stop(self) -> (turn: (SetupState, Step))
        ensures
            (turn.0@, turn.1@) == self@.stop(),
    {
        (self.at(SetupStage::Finished), Step::misfit())
    }

    /// The turn that follows a typed line: see
    /// [`SetupStateView::next_line`].
    pub fn next_line(self, line: &str) -> (turn: (SetupState, Step))
        ensures
            (turn.0@, turn.1@) == self@.next_line(line@),
    {
        match self.stage {
            SetupStage::AskingTopology => match prompt_bool(line) {
                Some(direct_connection) => {
                    let mut state = self;
                    state.direct_connection = direct_connection;
                    (
                        state.at(SetupStage::AskingUsername),
                        Step::quiet(ask("Enter the server username: ")),
                    )
                },
                None => (
                    self,
                    Step::quiet(topology_question()).say(
                        Notice::error("Invalid input, please enter y/n.".to_owned()),
                    ),
                ),
            },
            SetupStage::AskingUsername => {
                let mut state = self;
                state.username = prompt(line);
                (state.at(SetupStage::AskingIp), Step::quiet(ask("Enter the server IP address: ")))
            },
            SetupStage::AskingIp => {
                let mut state = self;
                state.ip = prompt(line);
                if state.direct_connection {
                    state.then_probe()
                } else {
                    (
                        state.at(SetupStage::AskingVpsUsername),
                        Step::quiet(ask("Enter the VPS username: ")),
                    )
                }
            },
            SetupStage::AskingVpsUsername => {
                let mut state = self;
                state.vps_username = Some(prompt(line));
                (state.at(SetupStage::AskingVpsIp), Step::quiet(ask("Enter the VPS IP address: ")))
            },
            SetupStage::AskingVpsIp => {
                let mut state = self;
                state.vps_ip = Some(prompt(line));
                state.then_probe()
            },
            _ => self.stop(),
        }
    }

    /// The turn that follows the end of a command: see
    /// [`SetupStateView::next_ran`].
    pub fn next_ran(self, outcome: Outcome, stderr: &str) -> (turn: (SetupState, Step))
        ensures
            (turn.0@, turn.1@) == self@.next_ran(outcome, stderr@),
    {
        match self.stage {
            SetupStage::GeneratingKey => {
                let report = key_generated(self.key_path().as_str(), outcome, stderr);
                after(report, self.then_add_key())
            },
            SetupStage::AddingKey => after(key_added(outcome, stderr), self.then_distribute()),
            SetupStage::CopyingKey => after(key_copied(outcome, stderr), self.then_write_config()),
            SetupStage::CopyingToVps => match outcome {
                Outcome::Success => {
                    let command = install_key(self.username.as_str(), self.ip.as_str());
                    (self.at(SetupStage::RelayingKey), Step::quiet(Request::attached(command)))
                },
                _ => after(key_relayed(outcome), self.then_write_config()),
            },
            SetupStage::RelayingKey => after(key_relayed(outcome), self.then_write_config()),
            _ => self.stop(),
        }
    }

    /// The turn that follows the search for the private key: see
    /// [`SetupStateView::next_exists`].
    pub fn next_exists(self, found: bool) -> (turn: (SetupState, Step))
        ensures
            (turn.0@, turn.1@) == self@.next_exists(found),
    {
        match self.stage {
            SetupStage::ProbingKey => {
                if found {
                    let reused = around(
                        "✅ Key found at ",
                        self.key_path().as_str(),
                        " — reusing it.",
                    );
                    after(Notice::info(reused), self.then_add_key())
                } else {
                    let command = generate_key(self.key_path().as_str());
                    (
                        self.at(SetupStage::GeneratingKey),
                        Step::quiet(Request::captured(command)).say(
                            Notice::info("➡️ No key found, generating a new one...".to_owned()),
                        ),
                    )
                }
            },
            _ => self.stop(),
        }
    }

    /// The turn that follows the writing of the SSH client configuration:
    /// see [`SetupStateView::next_written`].
    pub fn next_written(self) -> (turn: (SetupState, Step))
        ensures
            (turn.0@, turn.1@) == self@.next_written(),
    {
        match self.stage {
            SetupStage::WritingConfig => {
                let complete = around(
                    "✅ Setup complete! Try `ssh ",
                    self.username.as_str(),
                    "` to test the connection.",
                );
                (
                    self.at(SetupStage::Finished),
                    Step::finished().say(Notice::info("✅ SSH config updated.".to_owned())).say(
                        Notice::info(complete),
                    ),
                )
            },
            _ => self.stop(),
        }
    }

    /// The turn that follows `reply`: see [`SetupStateView::next`].
    pub fn next(self, reply: &Reply) -> (turn: (SetupState, Step))
        ensures
            (turn.0@, turn.1@) == self@.next(reply@),
    {
        match self.stage {
            SetupStage::Finished => (self, Step::finished()),
            _ => match reply {
                Reply::Line(typed) => self.next_line(typed.as_str()),
                Reply::Ran { outcome, stderr } => self.next_ran(*outcome, stderr.as_str()),
                Reply::Exists(found) => self.next_exists(*found),
                Reply::Written => self.next_written(),
            },
        }
    }
}

} // verus!
