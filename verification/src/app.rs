//! The commands: what each one does, and what it tells the user.

use crate::cli::{Cli, Commands};
use crate::clock::{
    expires_at, format_runtime_at, has_unit_byte, in_calendar, parse_expiry_at, runtime_text,
    same_instant, span_of, utc_now, whole_seconds, Timestamp,
};
use crate::cloudflare::VERSION;
use crate::config::{PunchConfig, PunchTunnelConfig};
use crate::error::{failure, ErrorKind, Failure, Fault, PunchError};
use crate::launch::{LaunchOptions, OptionsView};
use crate::number::{decimal, show};
use crate::output::{tick, ticked};
use crate::state::{
    is_started_after, latest_was_started_last, registered_in_turn, running_process, started_after,
    state_after, stopped_record, Deed, PersistedState, StateStore, StateView,
};
use crate::storage::{chosen_home, CredentialStore, PunchDirs};
use crate::style::{
    dimmed, green, in_faint, in_green, in_red, in_yellow, red, yellow,
};
use crate::text::{
    chars_of, concat2, concat3, concat4, is_whitespace, outcome, pad, padded, repeat,
};
use crate::types::{
    target_of, target_reads_back, url_of, LocalProtocol, RecordView, ShareSettings, ShareView,
    TargetView, TunnelRecord, TunnelStatus,
};
use std::path::PathBuf;
use vstd::prelude::*;
use vstd::string::*;

verus! {

/// What the commands work on: the directories, the credential and the state.
#[derive(Debug)]
pub struct App {
    pub dirs: PunchDirs,
    pub credentials: CredentialStore,
    pub state: StateStore,
}

impl App {
    /// `self` keeps the credential and the state in its directories.
    pub open spec fn in_order(self) -> bool {
        &&& self.credentials.place() == self.dirs
        &&& self.credentials.account() == ("dev.xinggao.punch"@, "cloudflare_api_token"@)
        &&& self.state.place() == self.dirs
    }

    /// What the commands work on, in `home_override`, else in the directory `environment` that
    /// `PUNCH_HOME` names, else where the system keeps the data of programs.
    pub fn new(home_override: Option<PathBuf>, environment: Option<PathBuf>) -> (app: Result<
        App,
        PunchError,
    >)
        ensures
            exists|data_dir: Option<PathBuf>|
                match #[trigger] chosen_home(home_override, environment, data_dir) {
                    Some(home) => app matches Ok(a) && a.dirs.root() == home && a.in_order(),
                    None => app matches Err(e) && e@ == failure(Fault::NoDataDir),
                },
    {
        match PunchDirs::discover(home_override, environment) {
            Ok(dirs) => {
                let credentials = CredentialStore::new(dirs.clone());
                let state = StateStore::new(dirs.clone());
                Ok(App { dirs, credentials, state })
            },
            Err(error) => Err(error),
        }
    }
}

/// What the command line asks for.
#[derive(Debug)]
pub enum Plan {
    /// The versions of the program and of `cloudflared`.
    Version,
    /// Signing in.
    Auth(Option<String>),
    /// The list of the tunnels.
    List,
    /// The end of a tunnel.
    Stop(String),
    /// The removal of a tunnel.
    Remove(String),
    /// A log.
    Logs { domain: Option<String>, follow: bool, lines: usize },
    /// A look at what is wrong.
    Doctor,
    /// The tunnels of a configuration file.
    Up { file: PathBuf, protocol: Option<LocalProtocol>, insecure: bool },
    /// A tunnel that is shared.
    Share {
        target: String,
        expires: String,
        password: String,
        protocol: Option<LocalProtocol>,
        insecure: bool,
    },
    /// The metrics on a port.
    Metrics(u16),
    /// A tunnel.
    Launch(String, LaunchOptions),
}

/// What `cli` asks for. A question for the version goes first; where there is no command, there
/// has to be a target, and a tunnel whose address is exported runs behind the scenes.
pub open spec fn plan_of(cli: Cli) -> Result<Plan, Failure> {
    if cli.version {
        Ok(Plan::Version)
    } else {
        match cli.command {
            Some(Commands::Auth { token }) => Ok(Plan::Auth(token)),
            Some(Commands::Ls) => Ok(Plan::List),
            Some(Commands::Stop { domain }) => Ok(Plan::Stop(domain)),
            Some(Commands::Rm { domain }) => Ok(Plan::Remove(domain)),
            Some(Commands::Logs { domain, follow, lines }) => Ok(
                Plan::Logs { domain, follow, lines },
            ),
            Some(Commands::Doctor) => Ok(Plan::Doctor),
            Some(Commands::Up { file }) => Ok(
                Plan::Up { file, protocol: cli.wanted_protocol(), insecure: cli.insecure },
            ),
            Some(Commands::Share { target, expires, password }) => Ok(
                Plan::Share {
                    target,
                    expires,
                    password,
                    protocol: cli.wanted_protocol(),
                    insecure: cli.insecure,
                },
            ),
            Some(Commands::Metrics { port }) => Ok(Plan::Metrics(port)),
            None => match cli.target {
                Some(target) => Ok(
                    Plan::Launch(
                        target,
                        LaunchOptions {
                            protocol: cli.wanted_protocol(),
                            insecure: cli.insecure,
                            detach: cli.detach || cli.export,
                            export: cli.export,
                            share: None,
                        },
                    ),
                ),
                None => Err(failure(Fault::MissingTarget)),
            },
        }
    }
}

/// What `cli` asks for.
pub fn run(cli: Cli) -> (plan: Result<Plan, PunchError>)
    ensures
        match plan_of(cli) {
            Ok(wanted) => plan matches Ok(p) && p == wanted,
            Err(error) => plan matches Err(e) && e@ == error,
        },
{
    let protocol = cli.selected_protocol();
    let insecure = cli.insecure;
    if cli.version {
        return Ok(Plan::Version);
    }
    match cli.command {
        Some(Commands::Auth { token }) => Ok(Plan::Auth(token)),
        Some(Commands::Ls) => Ok(Plan::List),
        Some(Commands::Stop { domain }) => Ok(Plan::Stop(domain)),
        Some(Commands::Rm { domain }) => Ok(Plan::Remove(domain)),
        Some(Commands::Logs { domain, follow, lines }) => Ok(Plan::Logs { domain, follow, lines }),
        Some(Commands::Doctor) => Ok(Plan::Doctor),
        Some(Commands::Up { file }) => Ok(Plan::Up { file, protocol, insecure }),
        Some(Commands::Share { target, expires, password }) => Ok(
            Plan::Share { target, expires, password, protocol, insecure },
        ),
        Some(Commands::Metrics { port }) => Ok(Plan::Metrics(port)),
        None => match cli.target {
            Some(target) => Ok(
                Plan::Launch(
                    target,
                    LaunchOptions {
                        protocol,
                        insecure,
                        detach: cli.detach || cli.export,
                        export: cli.export,
                        share: None,
                    },
                ),
            ),
            None => Err(PunchError::new(ErrorKind::MissingTarget)),
        },
    }
}

/// The versions, where `cloudflared` gave `version` as its own.
pub open spec fn version_texts(version: Result<Seq<char>, Failure>) -> Seq<Seq<char>> {
    seq![
        "punch "@ + VERSION@,
        match version {
            Ok(text) => "cloudflared "@ + text,
            Err(_) => "cloudflared 未安装"@,
        },
    ]
}

/// The versions, where `cloudflared` gave `version` as its own.
pub fn print_version(version: Result<String, PunchError>) -> (texts: Vec<String>)
    ensures
        texts.deep_view() == version_texts(outcome(version)),
{
    let mut texts: Vec<String> = Vec::new();
    texts.push(concat2("punch ", VERSION));
    texts.push(
        match &version {
            Ok(text) => concat2("cloudflared ", text.as_str()),
            Err(_) => "cloudflared 未安装".to_owned(),
        },
    );
    proof {
        assert(texts.deep_view() =~= version_texts(outcome(version)));
    }
    texts
}

/// `order` lists the positions of `records` from the tunnel that was started last to the one
/// that was started first, and those that were not started at the end. Of two that were started
/// at the same time the one that stood first stays first.
pub open spec fn newest_first(records: Seq<RecordView>, order: Seq<int>) -> bool {
    &&& order.len() == records.len()
    &&& forall|i: int| 0 <= i < order.len() ==> 0 <= #[trigger] order[i] < records.len()
    &&& forall|i: int, j: int|
        0 <= i < j < order.len() ==> {
            let a = #[trigger] order[i];
            let b = #[trigger] order[j];
            started_after(records[a], records[b]) || (!started_after(records[b], records[a]) && a
                < b)
        }
}

/// The order of a list is transitive, and so is standing level in it.
proof fn lemma_listed(a: RecordView, b: RecordView, c: RecordView)
    ensures
        started_after(a, b) && started_after(b, c) ==> started_after(a, c),
        started_after(a, b) && !started_after(c, b) ==> started_after(a, c),
        !started_after(b, a) && started_after(b, c) ==> started_after(a, c),
        !started_after(b, a) && !started_after(c, b) ==> !started_after(c, a),
        !(started_after(a, b) && started_after(b, a)),
{
}

/// The positions of `records` from the tunnel that was started last to the one that was started
/// first.
fn sorted_positions(records: &Vec<TunnelRecord>) -> (order: Vec<usize>)
    ensures
        newest_first(records.deep_view(), order@.map_values(|i: usize| i as int)),
{
    let ghost all = records.deep_view();
    let mut order: Vec<usize> = Vec::new();
    let mut n: usize = 0;
    while n < records.len()
        invariant
            all == records.deep_view(),
            n <= records@.len(),
            order@.len() == n,
            forall|i: int| 0 <= i < n ==> #[trigger] order@[i] < n,
            sorted_part(all, order@),
        decreases records@.len() - n,
    {
        let mut k: usize = order.len();
        while k > 0 && is_started_after(&records[n], &records[order[k - 1]])
            invariant
                all == records.deep_view(),
                n < records@.len(),
                k <= order@.len(),
                order@.len() == n,
                forall|i: int| 0 <= i < n ==> #[trigger] order@[i] < n,
                forall|i: int| k <= i < n ==> started_after(all[n as int], all[#[trigger] order@[i] as int]),
            decreases k,
        {
            k = k - 1;
        }
        let ghost before = order@;
        order.insert(k, n);
        proof {
            assert(order@ =~= before.insert(k as int, n));
            assert forall|i: int, j: int| 0 <= i < j < order@.len() implies goes_first(
                all,
                #[trigger] order@[i] as int,
                #[trigger] order@[j] as int,
            ) by {
                if i < k && j > k {
                    assert(goes_first(all, before[i] as int, before[j - 1] as int));
                } else if i > k {
                    assert(goes_first(all, before[i - 1] as int, before[j - 1] as int));
                } else if j < k {
                    assert(goes_first(all, before[i] as int, before[j] as int));
                } else if i == k {
                    assert(started_after(all[n as int], all[before[j - 1] as int]));
                } else {
                    assert(j == k && i < k);
                    let last = before[k - 1] as int;
                    assert(!started_after(all[n as int], all[last]));
                    if i < k - 1 {
                        assert(goes_first(all, before[i] as int, last));
                        lemma_listed(all[before[i] as int], all[last], all[n as int]);
                    }
                }
            }
        }
        n = n + 1;
    }
    proof {
        let positions = order@.map_values(|i: usize| i as int);
        assert forall|i: int, j: int| 0 <= i < j < positions.len() implies ({
            let a = #[trigger] positions[i];
            let b = #[trigger] positions[j];
            started_after(all[a], all[b]) || (!started_after(all[b], all[a]) && a < b)
        }) by {
            assert(goes_first(all, order@[i] as int, order@[j] as int));
        }
    }
    order
}

/// The tunnel at `a` stands before the one at `b`, or level with it and at a lower position.
spec fn goes_first(records: Seq<RecordView>, a: int, b: int) -> bool {
    started_after(records[a], records[b]) || (!started_after(records[b], records[a]) && a < b)
}

/// The positions `order` stand in the order of a list.
spec fn sorted_part(records: Seq<RecordView>, order: Seq<usize>) -> bool {
    forall|i: int, j: int|
        0 <= i < j < order.len() ==> goes_first(
            records,
            #[trigger] order[i] as int,
            #[trigger] order[j] as int,
        )
}

/// The sign of a status in a list.
pub open spec fn indicator(status: TunnelStatus) -> Seq<char> {
    match status {
        TunnelStatus::Running => in_green("●"@),
        TunnelStatus::Stopped => in_faint("○"@),
        TunnelStatus::Failed => in_red("!"@),
        TunnelStatus::Unknown => in_yellow("?"@),
    }
}

/// A tunnel in a list at `now`.
pub open spec fn list_row(record: RecordView, now: Timestamp) -> Seq<char> {
    let runtime = match record.started_at {
        Some(start) => runtime_text(whole_seconds(now.nanos_since(start))),
        None => "-"@,
    };
    let pid = match record.pid {
        Some(pid) => decimal(pid as nat),
        None => "-"@,
    };
    indicator(record.status) + " "@ + padded(record.domain, 24) + " "@ + padded(
        url_of(record.domain) + " → :"@ + decimal(record.local_port as nat),
        36,
    ) + " "@ + padded(runtime, 8) + " pid="@ + pid
}

/// A tunnel in a list at `now`.
fn show_row(record: &TunnelRecord, now: &Timestamp) -> (row: String)
    ensures
        row@ == list_row(record@, *now),
{
    let sign = match record.status {
        TunnelStatus::Running => green("●"),
        TunnelStatus::Stopped => dimmed("○"),
        TunnelStatus::Failed => red("!"),
        TunnelStatus::Unknown => yellow("?"),
    };
    let runtime = match &record.started_at {
        Some(start) => format_runtime_at(start, now),
        None => "-".to_owned(),
    };
    let pid = match record.pid {
        Some(pid) => show(pid as u64),
        None => "-".to_owned(),
    };
    let mapping = concat3(
        record.public_url().as_str(),
        " → :",
        show(record.local_port as u64).as_str(),
    );
    let left = concat4(sign.as_str(), " ", pad(record.domain.as_str(), 24).as_str(), " ");
    let middle = concat4(
        left.as_str(),
        pad(mapping.as_str(), 36).as_str(),
        " ",
        pad(runtime.as_str(), 8).as_str(),
    );
    concat3(middle.as_str(), " pid=", pid.as_str())
}

/// The list of `records` in the order `order` at `now`.
pub open spec fn list_texts(
    records: Seq<RecordView>,
    order: Seq<int>,
    now: Timestamp,
) -> Seq<Seq<char>> {
    if records.len() == 0 {
        seq!["没有已登记的隧道。"@]
    } else {
        seq!["ACTIVE TUNNELS"@, "──────────────"@] + order.map_values(
            |i: int| list_row(records[i], now),
        )
    }
}

/// The list of `records` at `now`, from the tunnel that was started last to the one that was
/// started first.
pub fn list_tunnels_at(records: &Vec<TunnelRecord>, now: &Timestamp) -> (texts: Vec<String>)
    ensures
        exists|order: Seq<int>| #[trigger]
            newest_first(records.deep_view(), order) && texts.deep_view() == list_texts(
                records.deep_view(),
                order,
                *now,
            ),
{
    let mut texts: Vec<String> = Vec::new();
    let ghost all = records.deep_view();
    let order = sorted_positions(records);
    let ghost positions = order@.map_values(|i: usize| i as int);
    if records.len() == 0 {
        texts.push("没有已登记的隧道。".to_owned());
        proof {
            assert(texts.deep_view() =~= list_texts(all, positions, *now));
        }
        return texts;
    }
    texts.push("ACTIVE TUNNELS".to_owned());
    texts.push("──────────────".to_owned());
    let mut i: usize = 0;
    while i < order.len()
        invariant
            all == records.deep_view(),
            positions == order@.map_values(|i: usize| i as int),
            newest_first(all, positions),
            i <= order@.len(),
            texts@.len() == 2 + i,
            texts@[0]@ == "ACTIVE TUNNELS"@,
            texts@[1]@ == "──────────────"@,
            forall|j: int|
                0 <= j < i ==> (#[trigger] texts@[2 + j])@ == list_row(all[positions[j]], *now),
        decreases order@.len() - i,
    {
        proof {
            assert(0 <= positions[i as int] < all.len());
        }
        texts.push(show_row(&records[order[i]], now));
        i = i + 1;
    }
    proof {
        let rows = positions.map_values(|i: int| list_row(all[i], *now));
        assert forall|j: int| 2 <= j < texts@.len() implies (#[trigger] texts@[j])@ == rows[j - 2] by {
            assert(texts@[2 + (j - 2)]@ == list_row(all[positions[j - 2]], *now));
        }
        assert(texts.deep_view() =~= list_texts(all, positions, *now));
    }
    texts
}

/// The list of `records` now.
pub fn list_tunnels(records: &Vec<TunnelRecord>) -> (texts: Vec<String>)
    ensures
        exists|order: Seq<int>, now: Timestamp|
            #![trigger list_texts(records.deep_view(), order, now)]
            in_calendar(now.sec(), now.nano()) && newest_first(records.deep_view(), order)
                && texts.deep_view() == list_texts(records.deep_view(), order, now),
{
    let now = utc_now();
    list_tunnels_at(records, &now)
}

/// There is one order in which a list can stand.
pub proof fn list_order_is_unique(records: Seq<RecordView>, a: Seq<int>, b: Seq<int>)
    requires
        newest_first(records, a),
        newest_first(records, b),
    ensures
        a == b,
{
    lemma_order_distinct(records, a);
    lemma_order_distinct(records, b);
    assert forall|i: int| 0 <= i < a.len() implies a[i] == b[i] by {
        lemma_same_rank(records, a, b, i);
    }
    assert(a =~= b);
}

/// No position occurs twice in the order of a list.
proof fn lemma_order_distinct(records: Seq<RecordView>, order: Seq<int>)
    requires
        newest_first(records, order),
    ensures
        order.no_duplicates(),
        order.to_set() == set_range(records.len() as int),
{
    assert forall|i: int, j: int|
        0 <= i < order.len() && 0 <= j < order.len() && i != j implies order[i] != order[j] by {
        if i < j {
            lemma_listed(records[order[i]], records[order[j]], records[order[j]]);
        } else {
            lemma_listed(records[order[j]], records[order[i]], records[order[i]]);
        }
    }
    order.unique_seq_to_set();
    lemma_range(records.len());
    assert(order.to_set().subset_of(set_range(records.len() as int)));
    vstd::set_lib::lemma_set_subset_finite(set_range(records.len() as int), order.to_set());
    vstd::set_lib::lemma_subset_equality(order.to_set(), set_range(records.len() as int));
}

/// The numbers from 0 to `n`, without `n`.
spec fn set_range(n: int) -> Set<int> {
    Set::new(|i: int| 0 <= i < n)
}

/// There are `n` numbers below `n`.
proof fn lemma_range(n: nat)
    ensures
        set_range(n as int).finite(),
        set_range(n as int).len() == n,
    decreases n,
{
    if n == 0 {
        assert(set_range(0) =~= Set::empty());
    } else {
        lemma_range((n - 1) as nat);
        assert(set_range(n as int) =~= set_range(n - 1).insert(n - 1));
    }
}

/// Two orders of the same list agree at each place.
proof fn lemma_same_rank(records: Seq<RecordView>, a: Seq<int>, b: Seq<int>, i: int)
    requires
        newest_first(records, a),
        newest_first(records, b),
        a.no_duplicates(),
        b.no_duplicates(),
        a.to_set() == b.to_set(),
        0 <= i < a.len(),
    ensures
        a[i] == b[i],
    decreases i,
{
    assert forall|k: int| 0 <= k < i implies a[k] == b[k] by {
        lemma_same_rank(records, a, b, k);
    }
    if a[i] != b[i] {
        assert(b.to_set().contains(a[i]));
        assert(a.to_set().contains(b[i]));
        let p = b.index_of(a[i]);
        let q = a.index_of(b[i]);
        assert(b[p] == a[i] && a[q] == b[i]);
        if p < i {
            assert(a[p] == b[p]);
        }
        if q < i {
            assert(b[q] == a[q]);
        }
        assert(p > i && q > i);
        assert(goes_first(records, a[i], a[q]));
        assert(goes_first(records, b[i], b[p]));
        lemma_listed(records[a[i]], records[b[i]], records[a[i]]);
    }
}

/// The state after the tunnel for `domain` was stopped at `now`, and what is then known of it. A
/// tunnel that ran in the foreground is not kept.
pub open spec fn stopped_state(state: StateView, domain: Seq<char>, now: Timestamp) -> StateView {
    match state.find(domain) {
        Some(record) => if record.detached {
            state.stopped(domain, now)
        } else {
            state.stopped(domain, now).removed(domain)
        },
        None => state,
    }
}

/// Stops the tunnel for `domain` at `now`, when the processes `live` are running: the process to
/// signal, and what the user is told.
pub fn stop_tunnel_at(
    state: &mut PersistedState,
    domain: &str,
    live: &Vec<u32>,
    now: Timestamp,
) -> (stopped: Result<(Option<u32>, String), PunchError>)
    ensures
        final(state)@ == stopped_state(old(state)@, domain@, now),
        match old(state)@.find(domain@) {
            Some(record) => stopped matches Ok((signal, text)) && signal == running_process(
                record,
                live@.to_set(),
            ) && text@ == ticked("已停止 "@ + record.domain),
            None => stopped matches Err(e) && e@ == failure(Fault::UnknownTunnel(domain@)),
        },
{
    match StateStore::stop_process_at(state, domain, live, now) {
        Some((record, signal)) => {
            if !record.detached {
                let _ = StateStore::remove(state, domain);
            }
            Ok((signal, tick(concat2("已停止 ", record.domain.as_str()).as_str())))
        },
        None => Err(PunchError::new(ErrorKind::UnknownTunnel(domain.to_owned()))),
    }
}

/// Stops the tunnel for `domain` now, when the processes `live` are running: the process to
/// signal, and what the user is told.
pub fn stop_tunnel(state: &mut PersistedState, domain: &str, live: &Vec<u32>) -> (stopped: Result<
    (Option<u32>, String),
    PunchError,
>)
    ensures
        exists|now: Timestamp|
            in_calendar(now.sec(), now.nano()) && final(state)@ == #[trigger] stopped_state(
                old(state)@,
                domain@,
                now,
            ),
        match old(state)@.find(domain@) {
            Some(record) => stopped matches Ok((signal, text)) && signal == running_process(
                record,
                live@.to_set(),
            ) && text@ == ticked("已停止 "@ + record.domain),
            None => stopped matches Err(e) && e@ == failure(Fault::UnknownTunnel(domain@)),
        },
{
    let now = utc_now();
    stop_tunnel_at(state, domain, live, now)
}

/// A tunnel that runs behind the scenes stays registered when it is stopped, and one that ran in
/// the foreground does not. No other tunnel is touched.
pub proof fn stopping_keeps_detached(
    state: StateView,
    domain: Seq<char>,
    other: Seq<char>,
    now: Timestamp,
)
    requires
        state.find(domain) is Some,
    ensures
        state.tunnels[domain].detached ==> stopped_state(state, domain, now).find(domain) == Some(
            stopped_record(state.tunnels[domain], now),
        ),
        !state.tunnels[domain].detached ==> stopped_state(state, domain, now).find(domain) is None,
        other != domain ==> stopped_state(state, domain, now).find(other) == state.find(other),
{
}

/// The log to show: that of the tunnel for `domain`, or of the one that is remembered as started
/// last.
pub open spec fn log_of(state: StateView, domain: Option<Seq<char>>) -> Result<
    Seq<char>,
    Failure,
> {
    let record = match domain {
        Some(domain) => state.find(domain),
        None => state.latest(),
    };
    match record {
        Some(record) => Ok(record.log_file),
        None => Err(failure(Fault::NoLog)),
    }
}

/// The log to show: that of the tunnel for `domain`, or of the one that is remembered as started
/// last.
pub fn show_logs(state: &PersistedState, domain: &Option<String>) -> (file: Result<
    String,
    PunchError,
>)
    ensures
        outcome(file) == log_of(state@, domain.deep_view()),
{
    let record = match domain {
        Some(domain) => StateStore::find(state, domain.as_str()),
        None => StateStore::recent(state),
    };
    match record {
        Some(record) => Ok(record.log_file),
        None => Err(PunchError::new(ErrorKind::NoLog)),
    }
}

/// Whatever was done to the state, from nothing on, the log that is shown without a domain is that
/// of the registered tunnel that was started last, as long as the tunnels are registered in the
/// order in which they are started. There is none only where no tunnel is registered.
pub proof fn default_log_is_of_latest(deeds: Seq<Deed>)
    requires
        registered_in_turn(deeds),
    ensures
        match log_of(state_after(deeds), None) {
            Ok(log) => exists|domain: Seq<char>| #[trigger]
                state_after(deeds).started_last(domain) && log
                    == state_after(deeds).tunnels[domain].log_file,
            Err(error) => state_after(deeds).tunnels.dom().is_empty() && error == failure(
                Fault::NoLog,
            ),
        },
{
    latest_was_started_last(deeds);
    let state = state_after(deeds);
    if let Some(domain) = state.recent {
        assert(state.started_last(domain));
    }
}

/// How the tunnel `tunnel` of a configuration file is brought online.
pub open spec fn configured_options(
    tunnel: PunchTunnelConfig,
    protocol: Option<LocalProtocol>,
    insecure: bool,
) -> OptionsView {
    OptionsView {
        protocol: if tunnel.https == Some(true) {
            Some(LocalProtocol::Https)
        } else {
            protocol
        },
        insecure,
        detach: true,
        export: false,
        share: None,
    }
}

/// The target that the tunnel `tunnel` of a configuration file leads to.
pub open spec fn configured_target(tunnel: PunchTunnelConfig) -> Seq<char> {
    tunnel.domain@ + ":"@ + decimal(tunnel.port as nat)
}

/// What is brought online for a configuration file, one after the other.
pub fn up(
    config: &PunchConfig,
    selected_protocol: Option<LocalProtocol>,
    insecure: bool,
) -> (launches: Result<Vec<(String, LaunchOptions)>, PunchError>)
    ensures
        config.tunnels@.len() == 0 ==> (launches matches Err(e) && e@ == failure(
            Fault::NothingConfigured,
        )),
        config.tunnels@.len() > 0 ==> (launches matches Ok(list) && list@.len()
            == config.tunnels@.len() && forall|i: int|
            0 <= i < list@.len() ==> (#[trigger] list@[i]).0@ == configured_target(
                config.tunnels@[i],
            ) && list@[i].1@ == configured_options(
                config.tunnels@[i],
                selected_protocol,
                insecure,
            )),
        launches matches Ok(list) ==> forall|i: int|
            0 <= i < list@.len() ==> (#[trigger] list@[i]).1.protocol == (
            if config.tunnels@[i].https == Some(true) {
                Some(LocalProtocol::Https)
            } else {
                selected_protocol
            }) && list@[i].1.insecure == insecure && list@[i].1.detach && !list@[i].1.export
                && list@[i].1.share is None,
{
    if config.tunnels.len() == 0 {
        return Err(PunchError::new(ErrorKind::NothingConfigured));
    }
    let mut launches: Vec<(String, LaunchOptions)> = Vec::new();
    let mut i: usize = 0;
    while i < config.tunnels.len()
        invariant
            i <= config.tunnels@.len(),
            launches@.len() == i,
            forall|j: int|
                0 <= j < i ==> (#[trigger] launches@[j]).0@ == configured_target(
                    config.tunnels@[j],
                ) && launches@[j].1@ == configured_options(
                    config.tunnels@[j],
                    selected_protocol,
                    insecure,
                ),
        decreases config.tunnels@.len() - i,
    {
        let tunnel = &config.tunnels[i];
        let protocol = match tunnel.https {
            Some(https) => if https {
                Some(LocalProtocol::Https)
            } else {
                selected_protocol
            },
            None => selected_protocol,
        };
        let options = LaunchOptions { protocol, insecure, detach: true, export: false, share: None };
        let target = concat3(tunnel.domain.as_str(), ":", show(tunnel.port as u64).as_str());
        launches.push((target, options));
        i = i + 1;
    }
    Ok(launches)
}

/// How the tunnels of a configuration file go on being brought online.
#[derive(Debug)]
pub enum UpNext {
    /// The next one is brought online, and these are left after it.
    Launch(String, LaunchOptions, Vec<(String, LaunchOptions)>),
    /// It is over.
    Finished(Result<(), PunchError>),
}

/// The model of [`UpNext`].
pub enum UpView {
    Launch(Seq<char>, OptionsView, Seq<(Seq<char>, OptionsView)>),
    Finished(Result<(), Failure>),
}

impl View for UpNext {
    type V = UpView;

    open spec fn view(&self) -> UpView {
        match *self {
            UpNext::Launch(target, options, rest) => UpView::Launch(
                target@,
                options@,
                rest.deep_view(),
            ),
            UpNext::Finished(result) => UpView::Finished(outcome(result)),
        }
    }
}

/// How it goes on when `left` are left and what was tried last came to `last`: a failure ends it,
/// and else the first of those that are left is next.
pub open spec fn up_next_of(
    left: Seq<(Seq<char>, OptionsView)>,
    last: Result<(), Failure>,
) -> UpView {
    match last {
        Err(error) => UpView::Finished(Err(error)),
        Ok(_) => if left.len() == 0 {
            UpView::Finished(Ok(()))
        } else {
            UpView::Launch(left[0].0, left[0].1, left.skip(1))
        },
    }
}

/// How it goes on when `left` are left and what was tried last came to `last`. Before the first
/// one that is a success.
pub fn up_next(left: Vec<(String, LaunchOptions)>, last: Result<(), PunchError>) -> (next: UpNext)
    ensures
        next@ == up_next_of(left.deep_view(), outcome(last)),
{
    let ghost all = left.deep_view();
    match last {
        Err(error) => UpNext::Finished(Err(error)),
        Ok(_) => {
            let mut rest = left;
            if rest.len() == 0 {
                UpNext::Finished(Ok(()))
            } else {
                let (target, options) = rest.remove(0);
                proof {
                    assert(rest.deep_view() =~= all.skip(1));
                }
                UpNext::Launch(target, options, rest)
            }
        },
    }
}

/// Which of `left` are brought online after what came to `last`, and what it all comes to, when
/// the ones that are tried come to `outcomes`.
pub open spec fn up_run(
    left: Seq<(Seq<char>, OptionsView)>,
    last: Result<(), Failure>,
    outcomes: Seq<Result<(), Failure>>,
) -> (Seq<(Seq<char>, OptionsView)>, Result<(), Failure>)
    decreases left.len(),
{
    match up_next_of(left, last) {
        UpView::Finished(result) => (Seq::empty(), result),
        UpView::Launch(target, options, _) => {
            let (more, result) = up_run(left.skip(1), outcomes[0], outcomes.skip(1));
            (seq![(target, options)] + more, result)
        },
    }
}

/// The first tunnel that cannot be brought online ends the run with its error: those before it
/// were tried in their order, and none after it is.
pub proof fn first_failure_ends_the_run(
    left: Seq<(Seq<char>, OptionsView)>,
    last: Result<(), Failure>,
    outcomes: Seq<Result<(), Failure>>,
    failed: int,
)
    requires
        last is Ok,
        outcomes.len() == left.len(),
        0 <= failed < left.len(),
        forall|i: int| 0 <= i < failed ==> #[trigger] outcomes[i] is Ok,
        outcomes[failed] is Err,
    ensures
        up_run(left, last, outcomes) == (left.take(failed + 1), outcomes[failed]),
    decreases left.len(),
{
    let rest = left.skip(1);
    let later = outcomes.skip(1);
    let (more, result) = up_run(rest, outcomes[0], later);
    if failed == 0 {
        assert(more =~= Seq::<(Seq<char>, OptionsView)>::empty());
    } else {
        assert(outcomes[0] is Ok);
        assert forall|i: int| 0 <= i < failed - 1 implies #[trigger] later[i] is Ok by {
            assert(later[i] == outcomes[i + 1]);
        }
        first_failure_ends_the_run(rest, outcomes[0], later, failed - 1);
    }
    assert(seq![left[0]] + more =~= left.take(failed + 1));
}

/// Where each tunnel can be brought online all of them are, in their order, and the run succeeds.
pub proof fn every_success_is_a_success(
    left: Seq<(Seq<char>, OptionsView)>,
    last: Result<(), Failure>,
    outcomes: Seq<Result<(), Failure>>,
)
    requires
        last is Ok,
        outcomes.len() == left.len(),
        forall|i: int| 0 <= i < left.len() ==> #[trigger] outcomes[i] is Ok,
    ensures
        up_run(left, last, outcomes).0 == left,
        up_run(left, last, outcomes).1 is Ok,
    decreases left.len(),
{
    if left.len() > 0 {
        let rest = left.skip(1);
        let later = outcomes.skip(1);
        let (more, result) = up_run(rest, outcomes[0], later);
        assert(outcomes[0] is Ok);
        assert forall|i: int| 0 <= i < rest.len() implies #[trigger] later[i] is Ok by {
            assert(later[i] == outcomes[i + 1]);
        }
        every_success_is_a_success(rest, outcomes[0], later);
        assert(seq![left[0]] + more =~= left);
    } else {
        assert(left =~= Seq::empty());
    }
}

/// A tunnel of a configuration file leads to the domain and the port that it names.
pub proof fn configured_target_is_read(tunnel: PunchTunnelConfig)
    requires
        tunnel.domain@.contains('.'),
        !is_whitespace(tunnel.domain@.first()),
    ensures
        target_of(configured_target(tunnel)) == Ok::<TargetView, Failure>(
            TargetView { domain: tunnel.domain@, port: tunnel.port },
        ),
{
    target_reads_back(tunnel.domain@, tunnel.port);
}

/// What is kept of a password: a star for each character, and eight at most.
pub open spec fn password_hint(password: Seq<char>) -> Seq<char> {
    Seq::new(
        if password.len() < 8 {
            password.len()
        } else {
            8
        },
        |i: int| '*',
    )
}

/// How a tunnel is shared until `expiry`.
pub open spec fn shared_options(
    password: Seq<char>,
    protocol: Option<LocalProtocol>,
    insecure: bool,
    expiry: Timestamp,
) -> OptionsView {
    OptionsView {
        protocol,
        insecure,
        detach: true,
        export: false,
        share: Some(ShareView { expires_at: expiry, password_hint: password_hint(password) }),
    }
}

/// `options` are those of a tunnel that is shared from `now` on for as long as `expires` says. They
/// are `None` where the calendar ends before the share does.
pub open spec fn shares_from(
    expires: Seq<char>,
    password: Seq<char>,
    protocol: Option<LocalProtocol>,
    insecure: bool,
    now: Timestamp,
    options: Result<Option<OptionsView>, Failure>,
) -> bool {
    match span_of(expires) {
        Err(error) => options == Err::<Option<OptionsView>, Failure>(error),
        Ok(span) => match options {
            Ok(Some(terms)) => exists|expiry: Timestamp| #[trigger]
                expires_at(now, span, Some(expiry)) && terms == shared_options(
                    password,
                    protocol,
                    insecure,
                    expiry,
                ),
            Ok(None) => expires_at(now, span, None),
            Err(_) => false,
        },
    }
}

/// How a tunnel is shared from `now` on. It is `None` where the calendar ends before the share
/// does.
pub fn share_at(
    expires: &str,
    password: &str,
    selected_protocol: Option<LocalProtocol>,
    insecure: bool,
    now: &Timestamp,
) -> (options: Result<Option<LaunchOptions>, PunchError>)
    requires
        has_unit_byte(expires@),
    ensures
        shares_from(
            expires@,
            password@,
            selected_protocol,
            insecure,
            *now,
            outcome(options),
        ),
{
    match parse_expiry_at(expires, now) {
        Err(error) => Err(error),
        Ok(None) => Ok(None),
        Ok(Some(expiry)) => {
            let chars = chars_of(password);
            let count: usize = if chars.len() < 8 {
                chars.len()
            } else {
                8
            };
            let hint = repeat('*', count);
            proof {
                assert(hint@ =~= password_hint(password@));
            }
            Ok(
                Some(
                    LaunchOptions {
                        protocol: selected_protocol,
                        insecure,
                        detach: true,
                        export: false,
                        share: Some(ShareSettings { expires_at: expiry, password_hint: hint }),
                    },
                ),
            )
        },
    }
}

/// How a tunnel is shared from now on. It is `None` where the calendar ends before the share
/// does.
pub fn share(
    expires: &str,
    password: &str,
    selected_protocol: Option<LocalProtocol>,
    insecure: bool,
) -> (options: Result<Option<LaunchOptions>, PunchError>)
    requires
        has_unit_byte(expires@),
    ensures
        exists|now: Timestamp|
            in_calendar(now.sec(), now.nano()) && #[trigger] shares_from(
                expires@,
                password@,
                selected_protocol,
                insecure,
                now,
                outcome(options),
            ),
{
    let now = utc_now();
    share_at(expires, password, selected_protocol, insecure, &now)
}

/// Of a password nothing is kept but how long it is, up to eight characters.
pub proof fn hint_hides_password(a: Seq<char>, b: Seq<char>)
    requires
        a.len() == b.len() || (a.len() >= 8 && b.len() >= 8),
    ensures
        password_hint(a) == password_hint(b),
{
    assert(password_hint(a) =~= password_hint(b));
}

/// The password of a share changes nothing but how long the hint is: two that are equally long,
/// up to eight characters, make the same of the same share at the same time.
pub proof fn share_hides_password(
    expires: Seq<char>,
    a: Seq<char>,
    b: Seq<char>,
    protocol: Option<LocalProtocol>,
    insecure: bool,
    now: Timestamp,
    first: Result<Option<OptionsView>, Failure>,
    second: Result<Option<OptionsView>, Failure>,
)
    requires
        a.len() == b.len() || (a.len() >= 8 && b.len() >= 8),
        shares_from(expires, a, protocol, insecure, now, first),
        shares_from(expires, b, protocol, insecure, now, second),
    ensures
        first == second,
{
    hint_hides_password(a, b);
    if let Ok(span) = span_of(expires) {
        if let (Ok(Some(one)), Ok(Some(other))) = (first, second) {
            let x = choose|expiry: Timestamp| #[trigger]
                expires_at(now, span, Some(expiry)) && one == shared_options(
                    a,
                    protocol,
                    insecure,
                    expiry,
                );
            let y = choose|expiry: Timestamp| #[trigger]
                expires_at(now, span, Some(expiry)) && other == shared_options(
                    b,
                    protocol,
                    insecure,
                    expiry,
                );
            same_instant(x, y);
        }
    }
}

/// A question for the version is answered before all else.
pub proof fn version_goes_first(cli: Cli)
    requires
        cli.version,
    ensures
        plan_of(cli) == Ok::<Plan, Failure>(Plan::Version),
{
}

/// A command is done with what stands behind it on the command line.
pub proof fn commands_are_done(
    cli: Cli,
    domain: String,
    place: Option<String>,
    token: Option<String>,
    follow: bool,
    lines: usize,
    port: u16,
)
    requires
        !cli.version,
    ensures
        cli.command == Some(Commands::Auth { token }) ==> plan_of(cli) == Ok::<Plan, Failure>(
            Plan::Auth(token),
        ),
        cli.command == Some(Commands::Ls) ==> plan_of(cli) == Ok::<Plan, Failure>(Plan::List),
        cli.command == Some(Commands::Stop { domain }) ==> plan_of(cli) == Ok::<Plan, Failure>(
            Plan::Stop(domain),
        ),
        cli.command == Some(Commands::Rm { domain }) ==> plan_of(cli) == Ok::<Plan, Failure>(
            Plan::Remove(domain),
        ),
        cli.command == Some(Commands::Logs { domain: place, follow, lines }) ==> (plan_of(
            cli,
        ) matches Ok(Plan::Logs { domain: d, follow: f, lines: n }) && d == place && f == follow
            && n == lines),
        cli.command == Some(Commands::Doctor) ==> plan_of(cli) == Ok::<Plan, Failure>(
            Plan::Doctor,
        ),
        cli.command == Some(Commands::Metrics { port }) ==> plan_of(cli) == Ok::<Plan, Failure>(
            Plan::Metrics(port),
        ),
{
}

/// The tunnels of a file, and a tunnel that is shared, are brought online with the protocol that
/// the command line asks for, and with bad certificates exactly where it allows them.
pub proof fn settings_are_handed_on(
    cli: Cli,
    path: PathBuf,
    to: String,
    life: String,
    secret: String,
)
    requires
        !cli.version,
    ensures
        cli.command == Some(Commands::Up { file: path }) ==> (plan_of(cli) matches Ok(
            Plan::Up { file, protocol, insecure },
        ) && file == path && protocol == cli.wanted_protocol() && insecure == cli.insecure),
        cli.command == Some(
            Commands::Share { target: to, expires: life, password: secret },
        ) ==> (plan_of(cli) matches Ok(
            Plan::Share { target, expires, password, protocol, insecure },
        ) && target == to && expires == life && password == secret && protocol
            == cli.wanted_protocol() && insecure == cli.insecure),
{
}

/// Without a command the target is brought online as the command line says: behind the scenes
/// where it says so or where the address is exported. Without a target there is nothing to do.
pub proof fn target_is_brought_online(cli: Cli)
    requires
        !cli.version,
        cli.command is None,
    ensures
        match cli.target {
            Some(target) => plan_of(cli) matches Ok(Plan::Launch(wanted, options)) && wanted
                == target && options.protocol == cli.wanted_protocol() && options.insecure
                == cli.insecure && options.detach == (cli.detach || cli.export) && options.export
                == cli.export && options.share is None,
            None => plan_of(cli) matches Err(error) && error == (Failure {
                kind: Fault::MissingTarget,
                causes: Seq::empty(),
            }),
        },
{
}

/// The version of the program is told, and that of `cloudflared` where it is installed.
pub proof fn versions_are_told(text: Seq<char>, error: Failure)
    ensures
        version_texts(Ok(text)) == seq!["punch "@ + VERSION@, "cloudflared "@ + text],
        version_texts(Err(error)) == seq!["punch "@ + VERSION@, "cloudflared 未安装"@],
{
}

/// A list has a row for each tunnel below its head, and each tunnel has one row; the order is that
/// of the starts, the latest first. Without a tunnel the list says so.
pub proof fn list_shows_each_tunnel_once(
    records: Seq<RecordView>,
    order: Seq<int>,
    now: Timestamp,
    i: int,
)
    requires
        newest_first(records, order),
    ensures
        records.len() == 0 ==> list_texts(records, order, now) == seq!["没有已登记的隧道。"@],
        records.len() > 0 ==> list_texts(records, order, now).len() == records.len() + 2,
        0 <= i < records.len() ==> exists|j: int|
            0 <= j < records.len() && #[trigger] order[j] == i && list_texts(
                records,
                order,
                now,
            )[j + 2] == list_row(records[i], now) && forall|k: int|
                0 <= k < records.len() && k != j ==> #[trigger] order[k] != i,
        forall|a: int, b: int|
            0 <= a < b < order.len() ==> !started_after(
                records[#[trigger] order[b]],
                records[#[trigger] order[a]],
            ),
{
    if 0 <= i < records.len() {
        lemma_order_distinct(records, order);
        assert(set_range(records.len() as int).contains(i));
        assert(order.to_set().contains(i));
        let j = choose|j: int| 0 <= j < order.len() && order[j] == i;
        assert(order[j] == i);
        let head = seq!["ACTIVE TUNNELS"@, "──────────────"@];
        let rows = order.map_values(|i: int| list_row(records[i], now));
        assert((head + rows)[j + 2] == rows[j]);
    }
    assert forall|a: int, b: int| 0 <= a < b < order.len() implies !started_after(
        records[#[trigger] order[b]],
        records[#[trigger] order[a]],
    ) by {
        lemma_listed(records[order[a]], records[order[b]], records[order[a]]);
    }
}

/// The row of a tunnel: the sign of its status, its domain, its address and local port, how long
/// it has run, if it was started, and its process, if it has one.
pub proof fn row_tells_the_tunnel(record: RecordView, now: Timestamp)
    ensures
        list_row(record, now) == (match record.status {
            TunnelStatus::Running => in_green("●"@),
            TunnelStatus::Stopped => in_faint("○"@),
            TunnelStatus::Failed => in_red("!"@),
            TunnelStatus::Unknown => in_yellow("?"@),
        }) + " "@ + padded(record.domain, 24) + " "@ + padded(
            ("https://"@ + record.domain) + " → :"@ + decimal(record.local_port as nat),
            36,
        ) + " "@ + padded(
            match record.started_at {
                Some(start) => runtime_text(whole_seconds(now.nanos_since(start))),
                None => "-"@,
            },
            8,
        ) + " pid="@ + (match record.pid {
            Some(pid) => decimal(pid as nat),
            None => "-"@,
        }),
{
}

/// A domain without a tunnel cannot be stopped, and nothing changes then.
pub proof fn stopping_nothing_changes_nothing(
    state: StateView,
    domain: Seq<char>,
    now: Timestamp,
)
    requires
        state.find(domain) is None,
    ensures
        stopped_state(state, domain, now) == state,
{
}

/// The log of a domain that is named is that of its tunnel, and without a tunnel there is none.
pub proof fn named_log_is_shown(state: StateView, domain: Seq<char>)
    ensures
        state.find(domain) matches Some(record) ==> log_of(state, Some(domain)) == Ok::<
            Seq<char>,
            Failure,
        >(record.log_file),
        state.find(domain) is None ==> log_of(state, Some(domain)) == Err::<Seq<char>, Failure>(
            Failure { kind: Fault::NoLog, causes: Seq::empty() },
        ),
{
}

/// A tunnel of a configuration file that is marked as HTTPS is brought online as that, whatever
/// the command line asks for.
pub proof fn marked_tunnel_is_https(
    tunnel: PunchTunnelConfig,
    selected: Option<LocalProtocol>,
    insecure: bool,
)
    requires
        tunnel.https == Some(true),
    ensures
        configured_options(tunnel, selected, insecure).protocol == Some(LocalProtocol::Https),
{
}

/// A tunnel of a configuration file that is not marked as HTTPS, or is marked as none, is brought
/// online with the protocol that the command line asks for; where that asks for none, none is
/// chosen, and the service is looked at.
pub proof fn unmarked_tunnel_follows_command_line(
    tunnel: PunchTunnelConfig,
    selected: Option<LocalProtocol>,
    insecure: bool,
)
    requires
        tunnel.https is None || tunnel.https == Some(false),
    ensures
        configured_options(tunnel, selected, insecure).protocol == selected,
        selected is None ==> configured_options(tunnel, selected, insecure).protocol is None,
{
}

/// Every tunnel of a configuration file runs behind the scenes, exports nothing and is not shared,
/// and may have a bad certificate exactly where the command line allows it.
pub proof fn configured_tunnels_run_behind_the_scenes(
    tunnel: PunchTunnelConfig,
    selected: Option<LocalProtocol>,
    insecure: bool,
)
    ensures
        configured_options(tunnel, selected, insecure).detach,
        !configured_options(tunnel, selected, insecure).export,
        configured_options(tunnel, selected, insecure).share is None,
        configured_options(tunnel, selected, insecure).insecure == insecure,
        configured_target(tunnel) == tunnel.domain@ + ":"@ + decimal(tunnel.port as nat),
{
}

/// What is kept of a password is a star for each of its characters, and eight at most.
pub proof fn hint_is_made_of_stars(password: Seq<char>)
    ensures
        password_hint(password).len() == (if password.len() <= 8 {
            password.len()
        } else {
            8
        }),
        forall|i: int| 0 <= i < password_hint(password).len() ==> #[trigger] password_hint(
            password,
        )[i] == '*',
{
}

/// A share is brought online behind the scenes, as the command line says, with the hint and with
/// the end that its life gives; a life that is no time to live is refused with its own error.
pub proof fn share_holds_its_terms(
    expires: Seq<char>,
    password: Seq<char>,
    protocol: Option<LocalProtocol>,
    insecure: bool,
    now: Timestamp,
    options: Result<Option<OptionsView>, Failure>,
)
    requires
        shares_from(expires, password, protocol, insecure, now, options),
    ensures
        match span_of(expires) {
            Err(error) => options == Err::<Option<OptionsView>, Failure>(error),
            Ok(span) => options matches Ok(terms) && match terms {
                Some(wanted) => wanted.detach && !wanted.export && wanted.protocol == protocol
                    && wanted.insecure == insecure && (wanted.share matches Some(share)
                    && expires_at(now, span, Some(share.expires_at)) && share.password_hint.len()
                    == (if password.len() <= 8 {
                    password.len()
                } else {
                    8
                })),
                None => expires_at(now, span, None),
            },
        },
{
}

/// The credential and the state are kept in the directories of the program, and the credential
/// under the names of the program in the keyring.
pub proof fn all_is_kept_in_one_place(app: App)
    requires
        app.in_order(),
    ensures
        app.credentials.place() == app.dirs,
        app.state.place() == app.dirs,
        app.credentials.account().0 == "dev.xinggao.punch"@,
        app.credentials.account().1 == "cloudflare_api_token"@,
{
}

} // verus!
