//! What holds of every launch.

use crate::clock::Timestamp;
use crate::launch::data::{
    ActionView, EndView, EventView, LaunchView, NextView, PlanView, ProbeView, StageView, StepView,
};
use crate::launch::model::{
    dns_name, export_texts, launch_next, launch_wants, tunnel_name, NAME_LIMIT,
};
use crate::number::decimal;
use crate::output::{lines_on, NoticeView, Stream};
use crate::shell::{quoted, shell_reads, shell_reads_quoted, Quotes};
use crate::state::{removing_undoes_registering, StateView};
use crate::text::{dashed, is_ascii_alphanumeric};
use crate::types::{url_of, LocalProtocol, RecordView, TunnelStatus};
use vstd::prelude::*;
use vstd::string::*;

verus! {

/// The name of a tunnel is short, and made of letters, digits and dashes alone.
pub proof fn tunnel_names_are_safe(domain: Seq<char>)
    ensures
        tunnel_name(domain).len() <= NAME_LIMIT,
        forall|i: int|
            0 <= i < tunnel_name(domain).len() ==> is_ascii_alphanumeric(
                #[trigger] tunnel_name(domain)[i],
            ) || tunnel_name(domain)[i] == '-',
{
    reveal_strlit("punch-");
    let name = "punch-"@ + dashed(domain);
    assert forall|i: int| 0 <= i < name.len() implies is_ascii_alphanumeric(#[trigger] name[i])
        || name[i] == '-' by {
        if i < 6 {
            assert(name[i] == "punch-"@[i]);
        } else {
            assert(name[i] == dashed(domain)[i - 6]);
        }
    }
}

/// How many steps a stage is from the end of the launch, at most.
pub open spec fn launch_distance(stage: StageView) -> nat {
    match stage {
        StageView::Detecting => 19,
        StageView::Credentials => 18,
        StageView::Prompting => 17,
        StageView::Authenticating(_) => 16,
        StageView::Opening(_) => 15,
        StageView::ProbingPort => 14,
        StageView::ProbingHttps => 13,
        StageView::ProbingHttp => 12,
        StageView::FindingZone(_) => 11,
        StageView::SettingUp(_, _) => 10,
        StageView::Configuring(_, _, _) => 9,
        StageView::Pointing(_, _, _) => 8,
        StageView::Spawning(_) => 7,
        StageView::RegisteringDetached(_, _) => 6,
        StageView::RegisteringForeground(_) => 6,
        StageView::Attaching(_) => 5,
        StageView::Waiting(_) => 4,
        StageView::Killing(_) => 3,
        StageView::Draining(_, _) => 2,
        StageView::Forgetting(_, _, _) => 1,
    }
}

/// `event` is of the kind that `launch` waits for.
pub open spec fn launch_awaits(launch: LaunchView, event: EventView) -> bool {
    match launch.stage {
        StageView::Detecting => event is Detected,
        StageView::Credentials => event is Token,
        StageView::Prompting => event is Typed,
        StageView::Authenticating(_) => event is Authenticated,
        StageView::Opening(_) => event is Opened,
        StageView::ProbingPort => event is Port,
        StageView::ProbingHttps => event is Https,
        StageView::ProbingHttp => event is Http,
        StageView::FindingZone(_) => event is Zone,
        StageView::SettingUp(_, _) => event is Tunnel,
        StageView::Configuring(_, _, _) => event is Configured,
        StageView::Pointing(_, _, _) => event is Dns,
        StageView::Spawning(_) => if launch.plan.options.detach {
            event is SpawnedDetached
        } else {
            event is SpawnedForeground
        },
        StageView::RegisteringDetached(_, _) => event is Registered,
        StageView::RegisteringForeground(_) => event is Registered,
        StageView::Attaching(_) => event is Attached,
        StageView::Waiting(_) => event is Ended,
        StageView::Killing(_) => event is Killed,
        StageView::Draining(_, _) => event is LogsJoined,
        StageView::Forgetting(_, _, _) => event is Forgotten,
    }
}

/// A launch comes to an end: what is waited for brings it nearer.
pub proof fn launch_ends(launch: LaunchView, event: EventView, now: Timestamp)
    requires
        launch_awaits(launch, event),
    ensures
        launch_next(launch, event, now).next matches NextView::Continue(after) ==> launch_distance(
            after.stage,
        ) < launch_distance(launch.stage),
{
}

/// What is not waited for changes nothing, and the user is told nothing.
pub proof fn unexpected_changes_nothing(launch: LaunchView, event: EventView, now: Timestamp)
    requires
        !launch_awaits(launch, event),
    ensures
        launch_next(launch, event, now) == (StepView {
            notices: Seq::empty(),
            next: NextView::Continue(launch),
        }),
{
    assert(lines_on(launch.plan.stream(), seq![]) =~= Seq::<NoticeView>::empty());
}

/// `record` is of the tunnel that `plan` brings online.
pub open spec fn belongs(record: RecordView, plan: PlanView) -> bool {
    &&& record.domain == plan.target.domain
    &&& record.local_port == plan.target.port
    &&& record.detached == plan.options.detach
    &&& record.share == plan.options.share
    &&& record.log_file == plan.log_file
    &&& plan.options.protocol matches Some(protocol) ==> record.local_protocol == protocol
    &&& record.dns_target == dns_name(record.tunnel_id)
}

/// `record` is of a tunnel that was started.
pub open spec fn started(record: RecordView) -> bool {
    record.status == TunnelStatus::Running && record.started_at is Some
}

/// What a launch has gathered is of the tunnel that it brings online.
pub open spec fn launch_valid(launch: LaunchView) -> bool {
    let plan = launch.plan;
    let protocol_fits = |protocol: LocalProtocol|
        plan.options.protocol matches Some(wanted) ==> protocol == wanted;
    match launch.stage {
        StageView::ProbingHttps => plan.options.protocol is None,
        StageView::ProbingHttp => plan.options.protocol is None,
        StageView::FindingZone(protocol) => protocol_fits(protocol),
        StageView::SettingUp(protocol, _) => protocol_fits(protocol),
        StageView::Configuring(protocol, _, _) => protocol_fits(protocol),
        StageView::Pointing(protocol, _, _) => protocol_fits(protocol),
        StageView::Spawning(record) => belongs(record, plan),
        StageView::RegisteringDetached(record, pid) => belongs(record, plan) && started(record)
            && plan.options.detach && record.pid == Some(pid),
        StageView::RegisteringForeground(record) => belongs(record, plan) && started(record)
            && !plan.options.detach,
        StageView::Attaching(record) => belongs(record, plan) && started(record)
            && !plan.options.detach,
        StageView::Waiting(record) => belongs(record, plan) && started(record)
            && !plan.options.detach,
        StageView::Killing(record) => belongs(record, plan) && started(record)
            && !plan.options.detach,
        StageView::Draining(record, _) => belongs(record, plan) && started(record)
            && !plan.options.detach,
        StageView::Forgetting(domain, _, _) => domain == plan.target.domain
            && !plan.options.detach,
        _ => true,
    }
}

/// A launch that begins has gathered nothing yet.
pub proof fn launch_begins_valid(plan: PlanView)
    ensures
        launch_valid(LaunchView { plan, stage: StageView::Detecting }),
{
}

/// Every step of a launch keeps to its plan, and gathers only what is of its tunnel.
pub proof fn launch_keeps_to_plan(launch: LaunchView, event: EventView, now: Timestamp)
    requires
        launch_valid(launch),
    ensures
        launch_next(launch, event, now).next matches NextView::Continue(after) ==> launch_valid(
            after,
        ) && after.plan == launch.plan,
{
}

/// What is registered is a tunnel that was started, for the domain and the port of the target.
pub proof fn registered_tunnel_runs(launch: LaunchView, record: RecordView)
    requires
        launch_valid(launch),
        launch_wants(launch) == ActionView::Register(record),
    ensures
        started(record),
        belongs(record, launch.plan),
{
}

/// A tunnel that runs behind the scenes stays registered: its launch never takes it out.
pub proof fn detached_stays_registered(launch: LaunchView)
    requires
        launch_valid(launch),
        launch.plan.options.detach,
    ensures
        launch_wants(launch) !is Forget,
{
}

/// A session in the foreground that is over has yet to take its tunnel out of the register.
pub open spec fn session_over(launch: LaunchView) -> bool {
    launch.stage is Killing || launch.stage is Draining || launch.stage is Forgetting
}

/// When `cloudflared` has ended or the user has interrupted it, the session is over.
pub proof fn ended_session_is_over(launch: LaunchView, end: EndView, now: Timestamp)
    requires
        launch.stage is Waiting,
        end !is WaitFailed,
    ensures
        launch_next(launch, EventView::Ended(end), now).next matches NextView::Continue(after)
            && session_over(after),
{
}

/// A session in the foreground that is over takes its tunnel out of the register, whatever else
/// happens: no step ends it before it asked for that, and it asks for it by the right domain.
pub proof fn foreground_session_is_forgotten(launch: LaunchView, event: EventView, now: Timestamp)
    requires
        launch_valid(launch),
        session_over(launch),
    ensures
        match launch_next(launch, event, now).next {
            NextView::Continue(after) => session_over(after),
            NextView::Finished(_) => launch_wants(launch) == ActionView::Forget(
                launch.plan.target.domain,
            ) && event is Forgotten,
        },
{
}

/// A session in the foreground leaves no trace: where no tunnel was registered for its domain,
/// the tunnels that are registered after what it registers was taken out again, by the domain
/// that it asks for, are those from before.
pub proof fn foreground_session_leaves_no_trace(
    state: StateView,
    start: LaunchView,
    end: LaunchView,
    record: RecordView,
    domain: Seq<char>,
)
    requires
        launch_valid(start),
        launch_valid(end),
        end.plan == start.plan,
        launch_wants(start) == ActionView::Register(record),
        launch_wants(end) == ActionView::Forget(domain),
        state.find(record.domain) is None,
    ensures
        state.upserted(record).removed(domain).tunnels == state.tunnels,
{
    removing_undoes_registering(state, record);
}

/// Where the address is written for a shell, the standard output holds nothing else: a step
/// either tells the user on the standard error alone, or is the last one and writes the address.
pub proof fn export_keeps_output_clean(launch: LaunchView, event: EventView, now: Timestamp)
    requires
        launch.plan.options.export,
    ensures
        (forall|i: int|
            0 <= i < launch_next(launch, event, now).notices.len() ==> (
            #[trigger] launch_next(launch, event, now).notices[i]).stream == Stream::Errors) || (
        launch.stage matches StageView::RegisteringDetached(record, _) && launch_next(
            launch,
            event,
            now,
        ) == (StepView {
            notices: lines_on(Stream::Output, export_texts(record)),
            next: NextView::Finished(Ok(())),
        })),
{
}

/// A shell that reads the address takes the URL, the domain and the port for what they are.
pub proof fn exports_are_read_back(record: RecordView)
    ensures
        export_texts(record)[0] == "export PUNCH_URL="@ + quoted(url_of(record.domain)),
        shell_reads(quoted(url_of(record.domain)), Quotes::Outside) == Some(
            url_of(record.domain),
        ),
        export_texts(record)[1] == "export PUNCH_DOMAIN="@ + quoted(record.domain),
        shell_reads(quoted(record.domain), Quotes::Outside) == Some(record.domain),
        export_texts(record)[2] == "export PUNCH_PORT="@ + quoted(
            decimal(record.local_port as nat),
        ),
        shell_reads(quoted(decimal(record.local_port as nat)), Quotes::Outside) == Some(
            decimal(record.local_port as nat),
        ),
{
    shell_reads_quoted(url_of(record.domain));
    shell_reads_quoted(record.domain);
    shell_reads_quoted(decimal(record.local_port as nat));
}

/// Nothing is asked of the API for a port on which nothing listens.
pub proof fn closed_port_ends_launch(launch: LaunchView, probe: ProbeView, now: Timestamp)
    requires
        launch.stage is ProbingPort,
        probe !is Open,
    ensures
        launch_next(launch, EventView::Port(probe), now).next matches NextView::Finished(Err(_)),
{
}

} // verus!
