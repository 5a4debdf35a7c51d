//! What holds of every session, whatever the driver reports.
//!
//! Most laws speak of [`performed`]: the requests that a driver carries out
//! when it follows an operation from its first turn and answers each request
//! with the next of an arbitrary sequence of replies.

use crate::config::{ConfigErrorView, ConfigView, SourceView};
use crate::connect::{
    spec_connect, spec_direct_login, spec_login_words, spec_relayed_login, ConnectState,
};
use crate::protocol::{
    performed, CommandView, Level, Outcome, ReplyView, RequestView, StepView,
};
use crate::setup::{
    spec_add_key_to_agent, spec_copy_key, spec_copy_key_via_vps, spec_generate_key,
    spec_key_path, spec_prompt_bool, spec_run_setup, spec_ssh_config_path,
    spec_topology_question, SetupStage, SetupStateView,
};
use crate::transfer::{
    spec_direct_copy, spec_first_hop, spec_scp_put, spec_second_hop, PutStateView,
};
use vstd::prelude::*;

verus! {

/// How a connection attempt moves from one turn to the next.
pub open spec fn connect_next() -> spec_fn(ConnectState, ReplyView) -> (ConnectState, StepView) {
    |state: ConnectState, reply: ReplyView| state.spec_next(reply)
}

/// How a transfer moves from one turn to the next.
pub open spec fn put_next() -> spec_fn(PutStateView, ReplyView) -> (PutStateView, StepView) {
    |state: PutStateView, reply: ReplyView| state.next(reply)
}

/// How a setup moves from one turn to the next.
pub open spec fn setup_next() -> spec_fn(SetupStateView, ReplyView) -> (SetupStateView, StepView) {
    |state: SetupStateView, reply: ReplyView| state.next(reply)
}

/// The reply reports a command that ran and exited with status zero.
pub open spec fn succeeded(reply: ReplyView) -> bool {
    reply matches ReplyView::Ran { outcome, .. } && outcome == Outcome::Success
}

/// An operation asks for nothing exactly when it is over, and once over it
/// stays over and silent: a driver that stops at the first turn without a
/// request has missed nothing.
pub proof fn law_over_means_over(
    connecting: ConnectState,
    putting: PutStateView,
    setting_up: SetupStateView,
    reply: ReplyView,
)
    ensures
        connecting.spec_next(reply).1.request is Done <==> connecting.spec_next(reply).0
            == ConnectState::Finished,
        putting.next(reply).1.request is Done <==> putting.next(reply).0 is Finished,
        setting_up.next(reply).1.request is Done <==> setting_up.next(reply).0.stage
            == SetupStage::Finished,
        ConnectState::Finished.spec_next(reply) == (ConnectState::Finished, StepView::finished()),
        PutStateView::Finished.next(reply) == (PutStateView::Finished, StepView::finished()),
        setting_up.stage == SetupStage::Finished ==> setting_up.next(reply) == (
            setting_up,
            StepView::finished(),
        ),
{
}

/// A source resolves to exactly one topology: a direct configuration carries
/// no relay field, a relayed one carries both, and which of the two it is
/// follows the flag of the source.
pub proof fn law_resolved_topology_is_exclusive(source: SourceView)
    ensures
        source.resolve() matches Ok(config) ==> config.wf() && config.direct_connection
            == source.direct_connection,
{
}

/// A direct source that does not define `username` has no configuration, and
/// neither connecting nor transferring under it performs anything: the
/// failure comes before any command.
pub proof fn law_direct_source_without_username_runs_nothing(
    source: SourceView,
    filepath: Seq<char>,
    replies: Seq<ReplyView>,
)
    requires
        source.direct_connection,
        source.username is None,
    ensures
        source.resolve() matches Err(error) && error is Missing,
        performed(connect_next(), spec_connect(source.resolve()), replies) == Seq::<
            RequestView,
        >::empty(),
        performed(put_next(), spec_scp_put(source.resolve(), filepath), replies) == Seq::<
            RequestView,
        >::empty(),
{
    law_no_configuration_runs_nothing(source.resolve()->Err_0, filepath, replies);
}

/// Without a configuration, neither connecting nor transferring performs
/// anything: the error is logged and that is all.
pub proof fn law_no_configuration_runs_nothing(
    error: ConfigErrorView,
    filepath: Seq<char>,
    replies: Seq<ReplyView>,
)
    ensures
        performed(connect_next(), spec_connect(Err(error)), replies) == Seq::<
            RequestView,
        >::empty(),
        performed(put_next(), spec_scp_put(Err(error), filepath), replies) == Seq::<
            RequestView,
        >::empty(),
        spec_connect(Err(error)).1.notices.len() == 1,
        spec_connect(Err(error)).1.notices[0].level == Level::Error,
        spec_scp_put(Err(error), filepath).1.notices.len() == 1,
        spec_scp_put(Err(error), filepath).1.notices[0].level == Level::Error,
{
}

/// With a direct configuration, connecting performs exactly one request,
/// whatever the driver replies: it runs `ssh <user>@<host>`.
pub proof fn law_direct_connect_runs_one_login(config: ConfigView, replies: Seq<ReplyView>)
    requires
        config.direct_connection,
    ensures
        performed(connect_next(), spec_connect(Ok(config)), replies) == seq![
            RequestView::attached(spec_direct_login(config.username, config.target_host)),
        ],
        spec_direct_login(config.username, config.target_host) == (CommandView {
            program: "ssh"@,
            args: seq![config.username + "@"@ + config.target_host],
        }),
{
    reveal_with_fuel(performed, 3);
    assert(spec_direct_login(config.username, config.target_host).args =~= seq![
        config.username + "@"@ + config.target_host,
    ]);
}

/// With a relayed configuration, connecting performs exactly one request,
/// whatever the driver replies: it runs one shell command that holds two
/// logins, the login into the relay first and, nested in it, the login into
/// the target.
pub proof fn law_relayed_connect_runs_one_nested_login(config: ConfigView, replies: Seq<ReplyView>)
    requires
        !config.direct_connection,
        config.wf(),
    ensures
        performed(connect_next(), spec_connect(Ok(config)), replies) == seq![
            RequestView::attached(
                spec_relayed_login(
                    config.username,
                    config.target_host,
                    config.vps_username->0,
                    config.vps_host->0,
                ),
            ),
        ],
        spec_relayed_login(
            config.username,
            config.target_host,
            config.vps_username->0,
            config.vps_host->0,
        ) == (CommandView {
            program: "sh"@,
            args: seq![
                "-c"@,
                spec_login_words(config.vps_username->0, config.vps_host->0) + " -t '"@
                    + spec_login_words(config.username, config.target_host) + "'"@,
            ],
        }),
{
    reveal_with_fuel(performed, 3);
    let command = spec_relayed_login(
        config.username,
        config.target_host,
        config.vps_username->0,
        config.vps_host->0,
    );
    assert(command.args =~= seq![
        "-c"@,
        spec_login_words(config.vps_username->0, config.vps_host->0) + " -t '"@
            + spec_login_words(config.username, config.target_host) + "'"@,
    ]);
}

/// A connection attempt logs one line when its login ends, and that line is
/// at info severity exactly when the login exited with status zero: success
/// is never reported of anything else.
pub proof fn law_connect_reports_success_only_of_success(state: ConnectState, reply: ReplyView)
    requires
        state != ConnectState::Finished,
    ensures
        state.spec_next(reply).0 == ConnectState::Finished,
        state.spec_next(reply).1.request == RequestView::Done,
        state.spec_next(reply).1.notices.len() == 1,
        state.spec_next(reply).1.notices[0].level == Level::Info <==> succeeded(reply),
{
}

/// With a direct configuration, a transfer performs exactly one request,
/// whatever the driver replies: it runs one `scp` from here to the target.
pub proof fn law_direct_put_runs_one_copy(
    config: ConfigView,
    filepath: Seq<char>,
    replies: Seq<ReplyView>,
)
    requires
        config.direct_connection,
    ensures
        performed(put_next(), spec_scp_put(Ok(config), filepath), replies) == seq![
            RequestView::attached(spec_direct_copy(config.username, config.target_host, filepath)),
        ],
        spec_direct_copy(config.username, config.target_host, filepath) == (CommandView {
            program: "scp"@,
            args: seq![filepath, config.username + "@"@ + config.target_host + ":~/"@],
        }),
{
    reveal_with_fuel(performed, 3);
    assert(spec_direct_copy(config.username, config.target_host, filepath).args =~= seq![
        filepath,
        config.username + "@"@ + config.target_host + ":~/"@,
    ]);
}

/// With a relayed configuration, a transfer runs its first hop, and its
/// second hop only after the first has succeeded: at most two commands, and
/// one alone if the first fails or cannot be started.
pub proof fn law_relayed_put_runs_second_hop_only_after_first(
    config: ConfigView,
    filepath: Seq<char>,
    replies: Seq<ReplyView>,
)
    requires
        !config.direct_connection,
        config.wf(),
    ensures
        performed(put_next(), spec_scp_put(Ok(config), filepath), replies).len() <= 2,
        performed(put_next(), spec_scp_put(Ok(config), filepath), replies) == if replies.len() > 0
            && succeeded(replies[0]) {
            seq![
                RequestView::attached(
                    spec_first_hop(config.vps_username->0, config.vps_host->0, filepath),
                ),
                RequestView::attached(
                    spec_second_hop(
                        config.username,
                        config.target_host,
                        config.vps_username->0,
                        config.vps_host->0,
                        filepath,
                    ),
                ),
            ]
        } else {
            seq![
                RequestView::attached(
                    spec_first_hop(config.vps_username->0, config.vps_host->0, filepath),
                ),
            ]
        },
{
    reveal_with_fuel(performed, 4);
}

/// A transfer logs at info severity only what succeeded: a turn that follows
/// anything but a command that exited with status zero logs no such line.
pub proof fn law_put_reports_success_only_of_success(state: PutStateView, reply: ReplyView)
    requires
        !succeeded(reply),
    ensures
        forall|i: int|
            0 <= i < state.next(reply).1.notices.len() ==> (#[trigger] state.next(
                reply,
            ).1.notices[i]).level == Level::Error,
{
}

/// When the private key is found, it is not generated again, yet the setup
/// goes on: the key is registered with the agent and, whatever the agent
/// says, the public key is distributed if the credentials for it are there.
/// No request of the rest of the session runs `ssh-keygen`.
pub proof fn law_existing_key_is_reused(state: SetupStateView, replies: Seq<ReplyView>)
    requires
        state.stage == SetupStage::ProbingKey,
    ensures
        ({
            let turn = state.next(ReplyView::Exists(true));
            let rest = performed(setup_next(), turn, replies);
            &&& rest.len() >= 1
            &&& rest[0] == RequestView::captured(spec_add_key_to_agent(state.key_path()))
            &&& !state.relay_missing() && replies.len() >= 1 && replies[0] is Ran ==> rest.len()
                >= 2 && rest[1] == (RequestView::Run {
                command: state.distribution(),
                capture: state.direct_connection,
            })
            &&& forall|i: int|
                0 <= i < rest.len() ==> !(#[trigger] rest[i] matches RequestView::Run {
                    command,
                    ..
                } && command.program == "ssh-keygen"@)
        }),
{
    reveal_with_fuel(performed, 6);
    reveal_strlit("ssh-keygen");
    reveal_strlit("ssh-add");
    reveal_strlit("ssh-copy-id");
    reveal_strlit("sh");
    assert("ssh-keygen"@.len() == 10);
    assert("ssh-add"@.len() == 7);
    assert("ssh-copy-id"@.len() == 11);
    assert("sh"@.len() == 2);
    let rest = performed(setup_next(), state.next(ReplyView::Exists(true)), replies);
    assert(rest.len() <= 4);
}

/// A relayed setup that lacks a relay credential stops when it comes to
/// distribution: the error is logged, the key is not distributed, the SSH
/// client configuration is not written, and nothing more is asked.
pub proof fn law_missing_relay_stops_setup(
    state: SetupStateView,
    reply: ReplyView,
    replies: Seq<ReplyView>,
)
    requires
        state.stage == SetupStage::AddingKey,
        state.relay_missing(),
    ensures
        state.next(reply).0.stage == SetupStage::Finished,
        state.next(reply).1.request == RequestView::Done,
        state.next(reply).1.notices.last().level == Level::Error,
        performed(setup_next(), state.next(reply), replies) == Seq::<RequestView>::empty(),
{
}

/// In a relayed setup that lacks a relay credential, whatever the driver
/// replies from the search for the key on, nothing is performed but key
/// generation and registration with the agent: the public key is never
/// distributed and the SSH client configuration is never written.
pub proof fn law_missing_relay_never_distributes(
    state: SetupStateView,
    reply: ReplyView,
    replies: Seq<ReplyView>,
)
    requires
        state.relay_missing(),
        state.stage == SetupStage::ProbingKey || state.stage == SetupStage::GeneratingKey
            || state.stage == SetupStage::AddingKey,
    ensures
        ({
            let rest = performed(setup_next(), state.next(reply), replies);
            forall|i: int|
                0 <= i < rest.len() ==> (#[trigger] rest[i]) == RequestView::captured(
                    spec_generate_key(state.key_path()),
                ) || rest[i] == RequestView::captured(spec_add_key_to_agent(state.key_path()))
        }),
{
    reveal_with_fuel(performed, 4);
    let rest = performed(setup_next(), state.next(reply), replies);
    assert(rest.len() <= 2);
}

/// A setup that is told the connection is direct asks three questions and
/// then looks for the key of a direct setup: the relay is never asked about.
pub proof fn law_direct_interview_asks_three_questions(
    home: Seq<char>,
    topology: Seq<char>,
    username: Seq<char>,
    ip: Seq<char>,
)
    requires
        spec_prompt_bool(topology) == Some(true),
    ensures
        performed(
            setup_next(),
            spec_run_setup(home),
            seq![ReplyView::Line(topology), ReplyView::Line(username), ReplyView::Line(ip)],
        ) == seq![
            spec_topology_question(),
            RequestView::Ask { prompt: "Enter the server username: "@ },
            RequestView::Ask { prompt: "Enter the server IP address: "@ },
            RequestView::Probe { path: spec_key_path(home, true) },
        ],
{
    reveal_with_fuel(performed, 5);
    let replies = seq![ReplyView::Line(topology), ReplyView::Line(username), ReplyView::Line(ip)];
    assert(replies.drop_first() =~= seq![ReplyView::Line(username), ReplyView::Line(ip)]);
    assert(replies.drop_first().drop_first() =~= seq![ReplyView::Line(ip)]);
    assert(replies.drop_first().drop_first().drop_first() =~= Seq::<ReplyView>::empty());
}

/// A setup that is told the connection is not direct asks five questions,
/// the last two about the relay, and then looks for the key of a relayed
/// setup. By then it holds both relay credentials.
pub proof fn law_relayed_interview_asks_five_questions(
    home: Seq<char>,
    topology: Seq<char>,
    username: Seq<char>,
    ip: Seq<char>,
    vps_username: Seq<char>,
    vps_ip: Seq<char>,
)
    requires
        spec_prompt_bool(topology) == Some(false),
    ensures
        performed(
            setup_next(),
            spec_run_setup(home),
            seq![
                ReplyView::Line(topology),
                ReplyView::Line(username),
                ReplyView::Line(ip),
                ReplyView::Line(vps_username),
                ReplyView::Line(vps_ip),
            ],
        ) == seq![
            spec_topology_question(),
            RequestView::Ask { prompt: "Enter the server username: "@ },
            RequestView::Ask { prompt: "Enter the server IP address: "@ },
            RequestView::Ask { prompt: "Enter the VPS username: "@ },
            RequestView::Ask { prompt: "Enter the VPS IP address: "@ },
            RequestView::Probe { path: spec_key_path(home, false) },
        ],
        !spec_run_setup(home).0.next(ReplyView::Line(topology)).0.next(
            ReplyView::Line(username),
        ).0.next(ReplyView::Line(ip)).0.next(ReplyView::Line(vps_username)).0.next(
            ReplyView::Line(vps_ip),
        ).0.relay_missing(),
{
    reveal_with_fuel(performed, 7);
    let replies = seq![
        ReplyView::Line(topology),
        ReplyView::Line(username),
        ReplyView::Line(ip),
        ReplyView::Line(vps_username),
        ReplyView::Line(vps_ip),
    ];
    let second = replies.drop_first();
    let third = second.drop_first();
    let fourth = third.drop_first();
    let fifth = fourth.drop_first();
    assert(second =~= seq![
        ReplyView::Line(username),
        ReplyView::Line(ip),
        ReplyView::Line(vps_username),
        ReplyView::Line(vps_ip),
    ]);
    assert(third =~= seq![
        ReplyView::Line(ip),
        ReplyView::Line(vps_username),
        ReplyView::Line(vps_ip),
    ]);
    assert(fourth =~= seq![ReplyView::Line(vps_username), ReplyView::Line(vps_ip)]);
    assert(fifth =~= seq![ReplyView::Line(vps_ip)]);
    assert(fifth.drop_first() =~= Seq::<ReplyView>::empty());
}

/// A line that answers neither yes nor no leaves the setup where it is: the
/// mistake is logged and the topology is asked for again.
pub proof fn law_unanswered_topology_is_asked_again(state: SetupStateView, line: Seq<char>)
    requires
        state.stage == SetupStage::AskingTopology,
        spec_prompt_bool(line) is None,
    ensures
        state.next(ReplyView::Line(line)).0 == state,
        state.next(ReplyView::Line(line)).1.request == spec_topology_question(),
        state.next(ReplyView::Line(line)).1.notices.len() == 1,
        state.next(ReplyView::Line(line)).1.notices[0].level == Level::Error,
{
}

/// A direct setup does not stop at a command that fails or cannot be
/// started. From key generation on, whatever the three commands report, the
/// driver is asked to register the key, to copy it to the target and to
/// append the entry to the SSH client configuration, in that order.
pub proof fn law_direct_setup_goes_on_after_failures(
    state: SetupStateView,
    generated: ReplyView,
    added: ReplyView,
    copied: ReplyView,
)
    requires
        state.stage == SetupStage::GeneratingKey,
        state.direct_connection,
        generated is Ran,
        added is Ran,
        copied is Ran,
    ensures
        performed(setup_next(), state.next(generated), seq![added, copied]) == seq![
            RequestView::captured(spec_add_key_to_agent(state.key_path())),
            RequestView::captured(spec_copy_key(state.key_path(), state.username, state.ip)),
            RequestView::Append { path: spec_ssh_config_path(state.home), text: state.entry() },
        ],
{
    reveal_with_fuel(performed, 4);
    let replies = seq![added, copied];
    assert(replies.drop_first() =~= seq![copied]);
    assert(seq![copied].drop_first() =~= Seq::<ReplyView>::empty());
}

/// A relayed setup with its credentials does not stop at a command that
/// fails or cannot be started either. From key generation on, the driver is
/// asked to register the key and to copy it to the relay; the target is told
/// to install it only if that copy succeeded; and the entry is appended to
/// the SSH client configuration in every case.
pub proof fn law_relayed_setup_goes_on_after_failures(
    state: SetupStateView,
    generated: ReplyView,
    added: ReplyView,
    copied: ReplyView,
    installed: ReplyView,
)
    requires
        state.stage == SetupStage::GeneratingKey,
        !state.direct_connection,
        !state.relay_missing(),
        generated is Ran,
        added is Ran,
        copied is Ran,
        installed is Ran,
    ensures
        ({
            let commands = spec_copy_key_via_vps(
                state.key_path(),
                state.username,
                state.ip,
                state.vps_username->0,
                state.vps_ip->0,
            );
            let append = RequestView::Append {
                path: spec_ssh_config_path(state.home),
                text: state.entry(),
            };
            performed(setup_next(), state.next(generated), seq![added, copied, installed])
                == if succeeded(copied) {
                seq![
                    RequestView::captured(spec_add_key_to_agent(state.key_path())),
                    RequestView::attached(commands.0),
                    RequestView::attached(commands.1),
                    append,
                ]
            } else {
                seq![
                    RequestView::captured(spec_add_key_to_agent(state.key_path())),
                    RequestView::attached(commands.0),
                    append,
                ]
            }
        }),
{
    reveal_with_fuel(performed, 5);
    let replies = seq![added, copied, installed];
    assert(replies.drop_first() =~= seq![copied, installed]);
    assert(seq![copied, installed].drop_first() =~= seq![installed]);
    assert(seq![installed].drop_first() =~= Seq::<ReplyView>::empty());
}

} // verus!
