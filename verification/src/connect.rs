//! Opening an interactive session on the target host.
//!
//! With a direct configuration one `ssh` logs into the target. With a relayed
//! one a single shell command nests two logins: into the relay first, and
//! from there into the target.

use crate::config::{loaded_view, Config, ConfigError, ConfigErrorView, ConfigView};
use crate::protocol::{
    Command, CommandView, Notice, NoticeView, Outcome, Reply, ReplyView, Request, RequestView,
    Step, StepView,
};
use crate::text::{around, spec_around};
use vstd::prelude::*;
use vstd::string::StringExecFns;

verus! {

/// The words `ssh <user>@<host>`, as a shell reads them.
pub open spec fn spec_login_words(username: Seq<char>, host: Seq<char>) -> Seq<char> {
    "ssh "@ + username + "@"@ + host
}

/// `ssh <user>@<host>`.
pub open spec fn spec_direct_login(username: Seq<char>, target_host: Seq<char>) -> CommandView {
    CommandView::new("ssh"@).arg(username + "@"@ + target_host)
}

/// A shell that logs into the relay with a terminal and, on the relay, logs
/// into the target: the words of the login into the relay, then `-t`, then
/// between quotes the words of the login into the target.
pub open spec fn spec_relayed_login(
    username: Seq<char>,
    target_host: Seq<char>,
    vps_username: Seq<char>,
    vps_host: Seq<char>,
) -> CommandView {
    CommandView::shell(
        spec_login_words(vps_username, vps_host) + " -t '"@ + spec_login_words(
            username,
            target_host,
        ) + "'"@,
    )
}

/// The words `ssh <user>@<host>`, as a shell reads them.
pub fn login_words(username: &str, host: &str) -> (words: String)
    ensures
        words@ == spec_login_words(username@, host@),
{
    let mut words = "ssh ".to_owned();
    words.append(username);
    words.append("@");
    words.append(host);
    words
}

/// `ssh <user>@<host>`.
pub fn direct_login(username: &str, target_host: &str) -> (command: Command)
    ensures
        command@ == spec_direct_login(username@, target_host@),
{
    let mut destination = username.to_owned();
    destination.append("@");
    destination.append(target_host);
    Command::new("ssh").arg(destination)
}

/// A shell that logs into the relay with a terminal and, on the relay, logs
/// into the target: see [`spec_relayed_login`].
pub fn relayed_login(username: &str, target_host: &str, vps_username: &str, vps_host: &str) -> (command:
    Command)
    ensures
        command@ == spec_relayed_login(username@, target_host@, vps_username@, vps_host@),
{
    let inner = login_words(username, target_host);
    let mut script = login_words(vps_username, vps_host);
    script.append(" -t '");
    script.append(inner.as_str());
    script.append("'");
    Command::shell(script)
}

/// Where a connection attempt stands.
#[derive(Clone, Copy, Debug, PartialEq, Eq, Structural)]
pub enum ConnectState {
    /// Waiting for the direct login to end.
    Direct,
    /// Waiting for the login through the relay to end.
    Relayed,
    /// Over: nothing more will be asked.
    Finished,
}

/// The first turn of a connection under the configuration that was loaded.
///
/// * No configuration: the error is logged and the attempt is over; nothing
///   is run.
/// * Direct: one login into the target.
/// * Relayed: one shell command that logs into the relay and from there into
///   the target. A relayed configuration without its relay fields is an
///   error: it is logged and nothing is run.
pub open spec fn spec_connect(loaded: Result<ConfigView, ConfigErrorView>) -> (
    ConnectState,
    StepView,
) {
    match loaded {
        Err(error) => (
            ConnectState::Finished,
            StepView::finished().say(
                NoticeView::error("Failed to load configuration: "@ + error.message()),
            ),
        ),
        Ok(config) => if config.direct_connection {
            (
                ConnectState::Direct,
                StepView::quiet(
                    RequestView::attached(spec_direct_login(config.username, config.target_host)),
                ).say(
                    NoticeView::info(
                        spec_around("Using direct SSH connection to "@, config.target_host, "..."@),
                    ),
                ),
            )
        } else if config.relay_missing() {
            (
                ConnectState::Finished,
                StepView::finished().say(NoticeView::error("VPS information missing."@)),
            )
        } else {
            (
                ConnectState::Relayed,
                StepView::quiet(
                    RequestView::attached(
                        spec_relayed_login(
                            config.username,
                            config.target_host,
                            config.vps_username->0,
                            config.vps_host->0,
                        ),
                    ),
                ).say(
                    NoticeView::info(
                        spec_around(
                            "Using two-step connection via VPS ("@,
                            config.vps_host->0,
                            ")..."@,
                        ),
                    ),
                ),
            )
        },
    }
}

impl ConnectState {
    /// The line that reports how the login ended.
    pub open spec fn spec_report(self, outcome: Outcome) -> NoticeView {
        match outcome {
            Outcome::Success => NoticeView::info(
                if self == ConnectState::Relayed {
                    "Connected to homelab via VPS."@
                } else {
                    "Connected to homelab."@
                },
            ),
            Outcome::Failure => NoticeView::error(
                if self == ConnectState::Relayed {
                    "Failed to connect to homelab via VPS."@
                } else {
                    "Failed to connect to homelab."@
                },
            ),
            Outcome::SpawnFailed => NoticeView::error("SSH process failed."@),
        }
    }

    /// The turn that follows `reply`: the attempt is over, and how the login
    /// ended is logged. A reply that does not report a run is an error of the
    /// driver, logged as such.
    pub open spec fn spec_next(self, reply: ReplyView) -> (ConnectState, StepView) {
        match self {
            ConnectState::Finished => (ConnectState::Finished, StepView::finished()),
            _ => match reply {
                ReplyView::Ran { outcome, stderr } => (
                    ConnectState::Finished,
                    StepView::finished().say(self.spec_report(outcome)),
                ),
                _ => (ConnectState::Finished, StepView::misfit()),
            },
        }
    }

    /// The line that reports how the login ended.
    pub fn report(self, outcome: Outcome) -> (notice: Notice)
        ensures
            notice@ == self.spec_report(outcome),
    {
        let relayed = match self {
            ConnectState::Relayed => true,
            _ => false,
        };
        match outcome {
            Outcome::Success => Notice::info(
                if relayed {
                    "Connected to homelab via VPS.".to_owned()
                } else {
                    "Connected to homelab.".to_owned()
                },
            ),
            Outcome::Failure => Notice::error(
                if relayed {
                    "Failed to connect to homelab via VPS.".to_owned()
                } else {
                    "Failed to connect to homelab.".to_owned()
                },
            ),
            Outcome::SpawnFailed => Notice::error("SSH process failed.".to_owned()),
        }
    }

    /// The turn that follows `reply`: see [`ConnectState::spec_next`].
    pub fn next(self, reply: &Reply) -> (turn: (ConnectState, Step))
        ensures
            turn.0 == self.spec_next(reply@).0,
            turn.1@ == self.spec_next(reply@).1,
    {
        match self {
            ConnectState::Finished => (ConnectState::Finished, Step::finished()),
            _ => match reply {
                Reply::Ran { outcome, .. } => (
                    ConnectState::Finished,
                    Step::finished().say(self.report(*outcome)),
                ),
                _ => (ConnectState::Finished, Step::misfit()),
            },
        }
    }
}

/// The first turn of a connection under the configuration that was loaded:
/// see [`spec_connect`].
pub fn connect(loaded: &Result<Config, ConfigError>) -> (turn: (ConnectState, Step))
    ensures
        turn.0 == spec_connect(loaded_view(*loaded)).0,
        turn.1@ == spec_connect(loaded_view(*loaded)).1,
{
    match loaded {
        Err(error) => {
            let mut line = "Failed to load configuration: ".to_owned();
            line.append(error.message().as_str());
            (ConnectState::Finished, Step::finished().say(Notice::error(line)))
        },
        Ok(config) => {
            if config.direct_connection {
                let command = direct_login(config.username.as_str(), config.target_host.as_str());
                let line = around(
                    "Using direct SSH connection to ",
                    config.target_host.as_str(),
                    "...",
                );
                (
                    ConnectState::Direct,
                    Step::quiet(Request::attached(command)).say(Notice::info(line)),
                )
            } else {
                match (&config.vps_username, &config.vps_host) {
                    (Some(vps_username), Some(vps_host)) => {
                        let command = relayed_login(
                            config.username.as_str(),
                            config.target_host.as_str(),
                            vps_username.as_str(),
                            vps_host.as_str(),
                        );
                        let line = around(
                            "Using two-step connection via VPS (",
                            vps_host.as_str(),
                            ")...",
                        );
                        (
                            ConnectState::Relayed,
                            Step::quiet(Request::attached(command)).say(Notice::info(line)),
                        )
                    },
                    _ => (
                        ConnectState::Finished,
                        Step::finished().say(Notice::error("VPS information missing.".to_owned())),
                    ),
                }
            }
        },
    }
}

} // verus!
