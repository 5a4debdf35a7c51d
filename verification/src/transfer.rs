//! Copying a local file to the target host.
//!
//! With a direct configuration one `scp` carries the file to the target. With
//! a relayed one the file travels in two hops: it is first copied to the
//! relay, and only if that worked is the target told to fetch it from there.

use crate::config::{loaded_view, Config, ConfigError, ConfigErrorView, ConfigView};
use crate::protocol::{
    Command, CommandView, Notice, NoticeView, Outcome, Reply, ReplyView, Request, RequestView,
    Step, StepView,
};
use crate::text::{around, spec_around};
use vstd::prelude::*;
use vstd::string::StringExecFns;

verus! {

/// `scp <file> <user>@<host>:~/`, run from here.
pub open spec fn spec_direct_copy(
    username: Seq<char>,
    target_host: Seq<char>,
    filepath: Seq<char>,
) -> CommandView {
    CommandView::new("scp"@).arg(filepath).arg(username + "@"@ + target_host + ":~/"@)
}

/// The first hop: a shell that copies the file into the relay's home
/// directory.
pub open spec fn spec_first_hop(
    vps_username: Seq<char>,
    vps_host: Seq<char>,
    filepath: Seq<char>,
) -> CommandView {
    CommandView::shell("scp "@ + filepath + " "@ + vps_username + "@"@ + vps_host + ":~/"@)
}

/// The second hop: a shell that logs into the target and has it fetch the
/// file from the relay's home directory into its own.
pub open spec fn spec_second_hop(
    username: Seq<char>,
    target_host: Seq<char>,
    vps_username: Seq<char>,
    vps_host: Seq<char>,
    filepath: Seq<char>,
) -> CommandView {
    CommandView::shell(
        "ssh "@ + username + "@"@ + target_host + " 'scp "@ + vps_username + "@"@ + vps_host
            + ":~/"@ + filepath + " ~/'"@,
    )
}

/// `scp <file> <user>@<host>:~/`, run from here.
pub fn direct_copy(username: &str, target_host: &str, filepath: &str) -> (command: Command)
    ensures
        command@ == spec_direct_copy(username@, target_host@, filepath@),
{
    let mut destination = username.to_owned();
    destination.append("@");
    destination.append(target_host);
    destination.append(":~/");
    Command::new("scp").arg(filepath.to_owned()).arg(destination)
}

/// The first hop: a shell that copies the file into the relay's home
/// directory.
pub fn first_hop(vps_username: &str, vps_host: &str, filepath: &str) -> (command: Command)
    ensures
        command@ == spec_first_hop(vps_username@, vps_host@, filepath@),
{
    let mut script = "scp ".to_owned();
    script.append(filepath);
    script.append(" ");
    script.append(vps_username);
    script.append("@");
    script.append(vps_host);
    script.append(":~/");
    Command::shell(script)
}

/// The second hop: a shell that logs into the target and has it fetch the
/// file from the relay's home directory into its own.
pub fn second_hop(
    username: &str,
    target_host: &str,
    vps_username: &str,
    vps_host: &str,
    filepath: &str,
) -> (command: Command)
    ensures
        command@ == spec_second_hop(username@, target_host@, vps_username@, vps_host@, filepath@),
{
    let mut script = "ssh ".to_owned();
    script.append(username);
    script.append("@");
    script.append(target_host);
    script.append(" 'scp ");
    script.append(vps_username);
    script.append("@");
    script.append(vps_host);
    script.append(":~/");
    script.append(filepath);
    script.append(" ~/'");
    Command::shell(script)
}

/// Where a transfer stands: which command it is waiting for.
#[derive(Clone, Debug, PartialEq, Eq)]
pub enum PutState {
    /// Waiting for the single copy of a direct transfer.
    Direct { filepath: String },
    /// Waiting for the copy to the relay; `relay` is the second hop, to be
    /// run if this one succeeds.
    FirstHop { filepath: String, relay: Command },
    /// Waiting for the target to fetch the file from the relay.
    SecondHop { filepath: String },
    /// Over: nothing more will be asked.
    Finished,
}

/// Mathematical form of a [`PutState`].
pub enum PutStateView {
    Direct { filepath: Seq<char> },
    FirstHop { filepath: Seq<char>, relay: CommandView },
    SecondHop { filepath: Seq<char> },
    Finished,
}

impl View for PutState {
    type V = PutStateView;

    open spec fn view(&self) -> PutStateView {
        match self {
            PutState::Direct { filepath } => PutStateView::Direct { filepath: filepath@ },
            PutState::FirstHop { filepath, relay } => PutStateView::FirstHop {
                filepath: filepath@,
                relay: relay@,
            },
            PutState::SecondHop { filepath } => PutStateView::SecondHop { filepath: filepath@ },
            PutState::Finished => PutStateView::Finished,
        }
    }
}

/// The first turn of a transfer of `filepath` under the configuration that
/// was loaded.
///
/// * No configuration: the error is logged and the transfer is over; nothing
///   is run.
/// * Direct: the file is copied straight to the target.
/// * Relayed: the file is copied to the relay; the second hop waits in the
///   state. A relayed configuration without its relay fields is an error:
///   it is logged and nothing is run.
pub open spec fn spec_scp_put(loaded: Result<ConfigView, ConfigErrorView>, filepath: Seq<char>) -> (
    PutStateView,
    StepView,
) {
    match loaded {
        Err(error) => (
            PutStateView::Finished,
            StepView::finished().say(
                NoticeView::error("Failed to load configuration: "@ + error.message()),
            ),
        ),
        Ok(config) => if config.direct_connection {
            (
                PutStateView::Direct { filepath },
                StepView::quiet(
                    RequestView::attached(
                        spec_direct_copy(config.username, config.target_host, filepath),
                    ),
                ).say(
                    NoticeView::info(
                        spec_around("SCP transferring `"@, filepath, "` directly to homelab..."@),
                    ),
                ),
            )
        } else if config.relay_missing() {
            (
                PutStateView::Finished,
                StepView::finished().say(NoticeView::error("VPS information missing."@)),
            )
        } else {
            (
                PutStateView::FirstHop {
                    filepath,
                    relay: spec_second_hop(
                        config.username,
                        config.target_host,
                        config.vps_username->0,
                        config.vps_host->0,
                        filepath,
                    ),
                },
                StepView::quiet(
                    RequestView::attached(
                        spec_first_hop(config.vps_username->0, config.vps_host->0, filepath),
                    ),
                ).say(
                    NoticeView::info(
                        "SCP transferring `"@ + filepath + "` via VPS ("@ + config.vps_host->0
                            + ")..."@,
                    ),
                ),
            )
        },
    }
}

impl PutStateView {
    /// The turn that follows `reply`.
    ///
    /// A reply that does not report a run is an error of the driver: it is
    /// logged and the transfer is over. Otherwise each hop logs how it went,
    /// and only a successful first hop is followed by the second.
    pub open spec fn next(self, reply: ReplyView) -> (PutStateView, StepView) {
        match self {
            PutStateView::Finished => (PutStateView::Finished, StepView::finished()),
            _ => match reply {
                ReplyView::Ran { outcome, stderr } => match self {
                    PutStateView::Direct { filepath } => (
                        PutStateView::Finished,
                        StepView::finished().say(
                            match outcome {
                                Outcome::Success => NoticeView::info(
                                    spec_around(
                                        "File `"@,
                                        filepath,
                                        "` successfully copied to homelab."@,
                                    ),
                                ),
                                Outcome::Failure => NoticeView::error("SCP to homelab failed."@),
                                Outcome::SpawnFailed => NoticeView::error("SCP process failed."@),
                            },
                        ),
                    ),
                    PutStateView::FirstHop { filepath, relay } => match outcome {
                        Outcome::Success => (
                            PutStateView::SecondHop { filepath },
                            StepView::quiet(RequestView::attached(relay)).say(
                                NoticeView::info(
                                    spec_around(
                                        "File `"@,
                                        filepath,
                                        "` successfully copied to VPS."@,
                                    ),
                                ),
                            ),
                        ),
                        Outcome::Failure => (
                            PutStateView::Finished,
                            StepView::finished().say(
                                NoticeView::error("Intermediate SCP to VPS failed."@),
                            ),
                        ),
                        Outcome::SpawnFailed => (
                            PutStateView::Finished,
                            StepView::finished().say(
                                NoticeView::error("Intermediate SCP process failed."@),
                            ),
                        ),
                    },
                    PutStateView::SecondHop { filepath } => (
                        PutStateView::Finished,
                        StepView::finished().say(
                            match outcome {
                                Outcome::Success => NoticeView::info(
                                    spec_around(
                                        "File `"@,
                                        filepath,
                                        "` successfully relayed to homelab."@,
                                    ),
                                ),
                                Outcome::Failure => NoticeView::error(
                                    "Final SCP to homelab failed."@,
                                ),
                                Outcome::SpawnFailed => NoticeView::error(
                                    "Final SCP process failed."@,
                                ),
                            },
                        ),
                    ),
                    PutStateView::Finished => (PutStateView::Finished, StepView::finished()),
                },
                _ => (PutStateView::Finished, StepView::misfit()),
            },
        }
    }
}

/// The first turn of a transfer of `filepath` under the configuration that
/// was loaded: see [`spec_scp_put`].
pub fn scp_put(loaded: &Result<Config, ConfigError>, filepath: &str) -> (turn: (PutState, Step))
    ensures
        (turn.0@, turn.1@) == spec_scp_put(loaded_view(*loaded), filepath@),
{
    match loaded {
        Err(error) => {
            let mut line = "Failed to load configuration: ".to_owned();
            line.append(error.message().as_str());
            (PutState::Finished, Step::finished().say(Notice::error(line)))
        },
        Ok(config) => {
            if config.direct_connection {
                let command = direct_copy(
                    config.username.as_str(),
                    config.target_host.as_str(),
                    filepath,
                );
                let line = around("SCP transferring `", filepath, "` directly to homelab...");
                (
                    PutState::Direct { filepath: filepath.to_owned() },
                    Step::quiet(Request::attached(command)).say(Notice::info(line)),
                )
            } else {
                match (&config.vps_username, &config.vps_host) {
                    (Some(vps_username), Some(vps_host)) => {
                        let first = first_hop(vps_username.as_str(), vps_host.as_str(), filepath);
                        let relay = second_hop(
                            config.username.as_str(),
                            config.target_host.as_str(),
                            vps_username.as_str(),
                            vps_host.as_str(),
                            filepath,
                        );
                        let mut line = "SCP transferring `".to_owned();
                        line.append(filepath);
                        line.append("` via VPS (");
                        line.append(vps_host.as_str());
                        line.append(")...");
                        (
                            PutState::FirstHop { filepath: filepath.to_owned(), relay },
                            Step::quiet(Request::attached(first)).say(Notice::info(line)),
                        )
                    },
                    _ => (
                        PutState::Finished,
                        Step::finished().say(Notice::error("VPS information missing.".to_owned())),
                    ),
                }
            }
        },
    }
}

impl PutState {
    /// The turn that follows `reply`: see [`PutStateView::next`].
    pub fn next(self, reply: &Reply) -> (turn: (PutState, Step))
        ensures
            (turn.0@, turn.1@) == self@.next(reply@),
    {
        match self {
            PutState::Finished => (PutState::Finished, Step::finished()),
            PutState::Direct { filepath } => match reply {
                Reply::Ran { outcome, .. } => {
                    let notice = match outcome {
                        Outcome::Success => Notice::info(
                            around("File `", filepath.as_str(), "` successfully copied to homelab."),
                        ),
                        Outcome::Failure => Notice::error("SCP to homelab failed.".to_owned()),
                        Outcome::SpawnFailed => Notice::error("SCP process failed.".to_owned()),
                    };
                    (PutState::Finished, Step::finished().say(notice))
                },
                _ => (PutState::Finished, Step::misfit()),
            },
            PutState::FirstHop { filepath, relay } => match reply {
                Reply::Ran { outcome, .. } => match outcome {
                    Outcome::Success => {
                        let line = around(
                            "File `",
                            filepath.as_str(),
                            "` successfully copied to VPS.",
                        );
                        (
                            PutState::SecondHop { filepath },
                            Step::quiet(Request::attached(relay)).say(Notice::info(line)),
                        )
                    },
                    Outcome::Failure => (
                        PutState::Finished,
                        Step::finished().say(
                            Notice::error("Intermediate SCP to VPS failed.".to_owned()),
                        ),
                    ),
                    Outcome::SpawnFailed => (
                        PutState::Finished,
                        Step::finished().say(
                            Notice::error("Intermediate SCP process failed.".to_owned()),
                        ),
                    ),
                },
                _ => (PutState::Finished, Step::misfit()),
            },
            PutState::SecondHop { filepath } => match reply {
                Reply::Ran { outcome, .. } => {
                    let notice = match outcome {
                        Outcome::Success => Notice::info(
                            around(
                                "File `",
                                filepath.as_str(),
                                "` successfully relayed to homelab.",
                            ),
                        ),
                        Outcome::Failure => Notice::error("Final SCP to homelab failed.".to_owned()),
                        Outcome::SpawnFailed => Notice::error(
                            "Final SCP process failed.".to_owned(),
                        ),
                    };
                    (PutState::Finished, Step::finished().say(notice))
                },
                _ => (PutState::Finished, Step::misfit()),
            },
        }
    }
}

} // verus!
