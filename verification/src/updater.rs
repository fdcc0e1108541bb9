//! The updater as a state machine. Each step takes the phase that the run is
//! in and the event that the driver brings, and gives the next phase, what
//! to tell the operator, and what the driver is to do next.

use crate::cf_api::{
    exactly_one, get_dns_record, get_zone_by_name, record_lookup, record_request, record_update,
    update_dns_record, update_request, updated, zone_lookup, zone_request, ApiRequest,
    ApiRequestView, CFDnsRecord, CFRecordType, CFResponse, CFZone, DnsRecordView, ProviderError,
    ProviderErrorView, ResponseView, ZoneView,
};
use crate::trace::{find_ip, trace_ip, trace_url, DiscoveryError, IPProto};
use vstd::prelude::*;

verus! {

/// What the operator asks for.
#[derive(Debug, PartialEq, Eq)]
pub struct Config {
    /// The bearer token for the provider's API.
    pub cf_token: String,
    /// The name of the zone that holds the record.
    pub zone: String,
    /// The fully qualified name whose address record is kept.
    pub domain: String,
    /// Work out the change and do not apply it.
    pub dry_run: bool,
}

/// A [`Config`] as a mathematical value.
pub struct ConfigView {
    pub cf_token: Seq<char>,
    pub zone: Seq<char>,
    pub domain: Seq<char>,
    pub dry_run: bool,
}

impl View for Config {
    type V = ConfigView;

    open spec fn view(&self) -> ConfigView {
        ConfigView {
            cf_token: self.cf_token@,
            zone: self.zone@,
            domain: self.domain@,
            dry_run: self.dry_run,
        }
    }
}

/// How far a run has come.
#[derive(Debug, PartialEq, Eq)]
pub enum Phase {
    /// Nothing is done yet.
    Start,
    /// The trace endpoint is asked for the caller's address.
    Discovering,
    /// The address is `ip`; the provider is asked for the zone.
    ResolvingZone { ip: String },
    /// The zone is `zone_id`; the provider is asked for the record.
    ResolvingRecord { ip: String, zone_id: String },
    /// The provider is asked to replace the record.
    Updating,
    /// The run is over.
    Finished,
}

/// A [`Phase`] as a mathematical value.
pub enum PhaseView {
    Start,
    Discovering,
    ResolvingZone { ip: Seq<char> },
    ResolvingRecord { ip: Seq<char>, zone_id: Seq<char> },
    Updating,
    Finished,
}

impl View for Phase {
    type V = PhaseView;

    open spec fn view(&self) -> PhaseView {
        match self {
            Phase::Start => PhaseView::Start,
            Phase::Discovering => PhaseView::Discovering,
            Phase::ResolvingZone { ip } => PhaseView::ResolvingZone { ip: ip@ },
            Phase::ResolvingRecord { ip, zone_id } => PhaseView::ResolvingRecord {
                ip: ip@,
                zone_id: zone_id@,
            },
            Phase::Updating => PhaseView::Updating,
            Phase::Finished => PhaseView::Finished,
        }
    }
}

/// What the driver brings to a step.
#[derive(Debug, PartialEq, Eq)]
pub enum Event {
    /// The run begins.
    Begin,
    /// The body of the trace endpoint's answer.
    Trace(String),
    /// The provider's answer to the zone lookup.
    Zones(CFResponse<Vec<CFZone>>),
    /// The provider's answer to the record lookup.
    Records(CFResponse<Vec<CFDnsRecord>>),
    /// The provider's answer to the update.
    Updated(CFResponse<CFDnsRecord>),
}

/// An [`Event`] as a mathematical value.
pub enum EventView {
    Begin,
    Trace(Seq<char>),
    Zones(ResponseView<Seq<ZoneView>>),
    Records(ResponseView<Seq<DnsRecordView>>),
    Updated(ResponseView<DnsRecordView>),
}

impl View for Event {
    type V = EventView;

    open spec fn view(&self) -> EventView {
        match self {
            Event::Begin => EventView::Begin,
            Event::Trace(body) => EventView::Trace(body@),
            Event::Zones(resp) => EventView::Zones(resp@),
            Event::Records(resp) => EventView::Records(resp@),
            Event::Updated(resp) => EventView::Updated(resp@),
        }
    }
}

/// Why a run was given up.
#[derive(Debug, PartialEq, Eq)]
pub enum RunError {
    /// The trace gave no address.
    Discovery(DiscoveryError),
    /// The zone was not found.
    Zone(ProviderError<CFZone>),
    /// The record was not found.
    Record(ProviderError<CFDnsRecord>),
    /// The record was not updated.
    Update(ProviderError<CFDnsRecord>),
    /// The driver brought an event that the phase does not await.
    OutOfTurn,
}

/// A [`RunError`] as a mathematical value.
pub enum RunErrorView {
    Discovery(DiscoveryError),
    Zone(ProviderErrorView<ZoneView>),
    Record(ProviderErrorView<DnsRecordView>),
    Update(ProviderErrorView<DnsRecordView>),
    OutOfTurn,
}

impl View for RunError {
    type V = RunErrorView;

    open spec fn view(&self) -> RunErrorView {
        match self {
            RunError::Discovery(e) => RunErrorView::Discovery(*e),
            RunError::Zone(e) => RunErrorView::Zone(e@),
            RunError::Record(e) => RunErrorView::Record(e@),
            RunError::Update(e) => RunErrorView::Update(e@),
            RunError::OutOfTurn => RunErrorView::OutOfTurn,
        }
    }
}

/// How a run ended well.
#[derive(Debug, PartialEq, Eq)]
pub enum Outcome {
    /// The record holds the caller's address already.
    UpToDate,
    /// The record would change from `old` to `new`; nothing was sent.
    DryRun { old: CFDnsRecord, new: CFDnsRecord },
    /// The record was replaced; this is what the provider holds now.
    Updated(CFDnsRecord),
}

/// An [`Outcome`] as a mathematical value.
pub enum OutcomeView {
    UpToDate,
    DryRun { old: DnsRecordView, new: DnsRecordView },
    Updated(DnsRecordView),
}

impl View for Outcome {
    type V = OutcomeView;

    open spec fn view(&self) -> OutcomeView {
        match self {
            Outcome::UpToDate => OutcomeView::UpToDate,
            Outcome::DryRun { old, new } => OutcomeView::DryRun { old: old@, new: new@ },
            Outcome::Updated(record) => OutcomeView::Updated(record@),
        }
    }
}

/// What a step has learnt, for the operator to read.
#[derive(Debug, PartialEq, Eq)]
pub enum Progress {
    /// The caller's public address.
    CurrentIp(String),
    /// The id of the zone.
    ZoneId(String),
    /// The record as the provider holds it.
    ExistingRecord(CFDnsRecord),
}

/// A [`Progress`] as a mathematical value.
pub enum ProgressView {
    CurrentIp(Seq<char>),
    ZoneId(Seq<char>),
    ExistingRecord(DnsRecordView),
}

impl View for Progress {
    type V = ProgressView;

    open spec fn view(&self) -> ProgressView {
        match self {
            Progress::CurrentIp(ip) => ProgressView::CurrentIp(ip@),
            Progress::ZoneId(id) => ProgressView::ZoneId(id@),
            Progress::ExistingRecord(record) => ProgressView::ExistingRecord(record@),
        }
    }
}

/// What the driver is to do after a step.
#[derive(Debug, PartialEq, Eq)]
pub enum Action {
    /// Fetch `url` over a connection bound to the wildcard address of
    /// `proto`, and bring the body as [`Event::Trace`].
    Discover { url: String, proto: IPProto },
    /// Send the request and bring the answer as [`Event::Zones`].
    LookupZone(ApiRequest),
    /// Send the request and bring the answer as [`Event::Records`].
    LookupRecord(ApiRequest),
    /// Send the request and bring the answer as [`Event::Updated`].
    UpdateRecord(ApiRequest),
    /// Report the outcome and end the run.
    Finish(Outcome),
    /// Report the failure and end the run.
    Fail(RunError),
}

/// An [`Action`] as a mathematical value.
pub enum ActionView {
    Discover { url: Seq<char>, proto: IPProto },
    LookupZone(ApiRequestView),
    LookupRecord(ApiRequestView),
    UpdateRecord(ApiRequestView),
    Finish(OutcomeView),
    Fail(RunErrorView),
}

impl ActionView {
    /// Whether the action goes out to the network.
    pub open spec fn is_call(self) -> bool {
        !(self is Finish || self is Fail)
    }
}

impl View for Action {
    type V = ActionView;

    open spec fn view(&self) -> ActionView {
        match self {
            Action::Discover { url, proto } => ActionView::Discover { url: url@, proto: *proto },
            Action::LookupZone(request) => ActionView::LookupZone(request@),
            Action::LookupRecord(request) => ActionView::LookupRecord(request@),
            Action::UpdateRecord(request) => ActionView::UpdateRecord(request@),
            Action::Finish(outcome) => ActionView::Finish(outcome@),
            Action::Fail(failure) => ActionView::Fail(failure@),
        }
    }
}

/// The result of a step.
#[derive(Debug, PartialEq, Eq)]
pub struct Step {
    /// The phase that the run is in now.
    pub next: Phase,
    /// What to tell the operator, before the action.
    pub progress: Option<Progress>,
    /// What to do next.
    pub action: Action,
}

/// A [`Step`] as a mathematical value.
pub struct StepView {
    pub next: PhaseView,
    pub progress: Option<ProgressView>,
    pub action: ActionView,
}

impl View for Step {
    type V = StepView;

    open spec fn view(&self) -> StepView {
        StepView {
            next: self.next@,
            progress: match self.progress {
                Some(progress) => Some(progress@),
                None => None,
            },
            action: self.action@,
        }
    }
}

/// The step that gives a run up.
pub open spec fn give_up(failure: RunErrorView) -> StepView {
    StepView { next: PhaseView::Finished, progress: None, action: ActionView::Fail(failure) }
}

/// What is done about a record once the caller's address is known: nothing
/// where the record holds that address; else the record with the address
/// in place of its content is shown, on a dry run, or sent.
pub open spec fn settle(
    config: ConfigView,
    zone_id: Seq<char>,
    ip: Seq<char>,
    record: DnsRecordView,
) -> StepView {
    let progress = Some(ProgressView::ExistingRecord(record));
    if record.content == ip {
        StepView {
            next: PhaseView::Finished,
            progress,
            action: ActionView::Finish(OutcomeView::UpToDate),
        }
    } else if config.dry_run {
        StepView {
            next: PhaseView::Finished,
            progress,
            action: ActionView::Finish(
                OutcomeView::DryRun { old: record, new: record.with_content(ip) },
            ),
        }
    } else {
        StepView {
            next: PhaseView::Updating,
            progress,
            action: ActionView::UpdateRecord(
                record_update(config.cf_token, zone_id, record.with_content(ip)),
            ),
        }
    }
}

/// The step that a run takes in `phase` on `event`.
pub open spec fn next_step(config: ConfigView, phase: PhaseView, event: EventView) -> StepView {
    match (phase, event) {
        (PhaseView::Start, EventView::Begin) => StepView {
            next: PhaseView::Discovering,
            progress: None,
            action: ActionView::Discover { url: trace_url(), proto: IPProto::V4 },
        },
        (PhaseView::Discovering, EventView::Trace(body)) => match trace_ip(body) {
            Some(ip) => StepView {
                next: PhaseView::ResolvingZone { ip },
                progress: Some(ProgressView::CurrentIp(ip)),
                action: ActionView::LookupZone(zone_lookup(config.cf_token, config.zone)),
            },
            None => give_up(RunErrorView::Discovery(DiscoveryError::NoIpLine)),
        },
        (PhaseView::ResolvingZone { ip }, EventView::Zones(resp)) => match exactly_one(resp) {
            Ok(zone) => StepView {
                next: PhaseView::ResolvingRecord { ip, zone_id: zone.id },
                progress: Some(ProgressView::ZoneId(zone.id)),
                action: ActionView::LookupRecord(
                    record_lookup(config.cf_token, zone.id, config.domain, CFRecordType::A),
                ),
            },
            Err(e) => give_up(RunErrorView::Zone(e)),
        },
        (PhaseView::ResolvingRecord { ip, zone_id }, EventView::Records(resp)) => match exactly_one(
            resp,
        ) {
            Ok(record) => settle(config, zone_id, ip, record),
            Err(e) => give_up(RunErrorView::Record(e)),
        },
        (PhaseView::Updating, EventView::Updated(resp)) => if resp.success && resp.result is None {
            give_up(RunErrorView::Update(ProviderErrorView::NoResult))
        } else {
            match updated(resp) {
                Ok(record) => StepView {
                    next: PhaseView::Finished,
                    progress: None,
                    action: ActionView::Finish(OutcomeView::Updated(record)),
                },
                Err(e) => give_up(RunErrorView::Update(e)),
            }
        },
        _ => give_up(RunErrorView::OutOfTurn),
    }
}

/// The step that gives a run up.
fn fail(failure: RunError) -> (r: Step)
    ensures
        r@ == give_up(failure@),
{
    Step { next: Phase::Finished, progress: None, action: Action::Fail(failure) }
}

/// Takes one step of a run: in `phase`, on `event`, it says which phase
/// comes next, what to tell the operator and what to do.
pub fn step(config: &Config, phase: Phase, event: Event) -> (r: Step)
    ensures
        r@ == next_step(config@, phase@, event@),
{
    match (phase, event) {
        (Phase::Start, Event::Begin) => Step {
            next: Phase::Discovering,
            progress: None,
            action: Action::Discover {
                url: String::from_str("https://cloudflare.com/cdn-cgi/trace"),
                proto: IPProto::V4,
            },
        },
        (Phase::Discovering, Event::Trace(body)) => match find_ip(body.as_str()) {
            Ok(ip) => Step {
                next: Phase::ResolvingZone { ip: ip.clone() },
                progress: Some(Progress::CurrentIp(ip)),
                action: Action::LookupZone(
                    zone_request(config.cf_token.as_str(), config.zone.as_str()),
                ),
            },
            Err(e) => fail(RunError::Discovery(e)),
        },
        (Phase::ResolvingZone { ip }, Event::Zones(resp)) => match get_zone_by_name(resp) {
            Ok(zone) => {
                let request = record_request(
                    config.cf_token.as_str(),
                    zone.id.as_str(),
                    config.domain.as_str(),
                    CFRecordType::A,
                );
                Step {
                    next: Phase::ResolvingRecord { ip, zone_id: zone.id.clone() },
                    progress: Some(Progress::ZoneId(zone.id)),
                    action: Action::LookupRecord(request),
                }
            },
            Err(e) => fail(RunError::Zone(e)),
        },
        (Phase::ResolvingRecord { ip, zone_id }, Event::Records(resp)) => match get_dns_record(
            resp,
        ) {
            Ok(record) => {
                let progress = Some(Progress::ExistingRecord(record.clone()));
                if record.content == ip {
                    Step {
                        next: Phase::Finished,
                        progress,
                        action: Action::Finish(Outcome::UpToDate),
                    }
                } else {
                    let new = record.clone().with_content(ip);
                    if config.dry_run {
                        Step {
                            next: Phase::Finished,
                            progress,
                            action: Action::Finish(Outcome::DryRun { old: record, new }),
                        }
                    } else {
                        Step {
                            next: Phase::Updating,
                            progress,
                            action: Action::UpdateRecord(
                                update_request(config.cf_token.as_str(), zone_id.as_str(), &new),
                            ),
                        }
                    }
                }
            },
            Err(e) => fail(RunError::Record(e)),
        },
        (Phase::Updating, Event::Updated(resp)) => {
            if resp.success && resp.result.is_none() {
                fail(RunError::Update(ProviderError::NoResult))
            } else {
                match update_dns_record(resp) {
                    Ok(record) => Step {
                        next: Phase::Finished,
                        progress: None,
                        action: Action::Finish(Outcome::Updated(record)),
                    },
                    Err(e) => fail(RunError::Update(e)),
                }
            }
        },
        _ => fail(RunError::OutOfTurn),
    }
}

/// The steps of a run that is in `phase` and is brought `events` in turn.
pub open spec fn run(config: ConfigView, phase: PhaseView, events: Seq<EventView>) -> Seq<StepView>
    decreases events.len(),
{
    if events.len() == 0 {
        Seq::empty()
    } else {
        let first = next_step(config, phase, events[0]);
        seq![first] + run(config, first.next, events.drop_first())
    }
}

/// A step asks for an update only where it has just read the one record
/// that matched, the record's content is not the caller's address, and the
/// run is no dry run. What it sends is that record with the address for its
/// content and nothing else changed, as a partial update of the record's own
/// place in the zone.
pub proof fn lemma_update_only_where_due(config: ConfigView, phase: PhaseView, event: EventView)
    ensures
        next_step(config, phase, event).action matches ActionView::UpdateRecord(request) ==> {
            &&& !config.dry_run
            &&& phase matches PhaseView::ResolvingRecord { ip, zone_id }
            &&& event matches EventView::Records(resp)
            &&& exactly_one(resp) matches Ok(record)
            &&& record.content != ip
            &&& request == record_update(config.cf_token, zone_id, record.with_content(ip))
            &&& request.body matches Some(sent)
            &&& sent.content == ip
            &&& sent.id == record.id
            &&& sent.name == record.name
            &&& sent.type_ == record.type_
            &&& sent.ttl == record.ttl
        },
        next_step(config, phase, event).next is Updating <==> next_step(
            config,
            phase,
            event,
        ).action is UpdateRecord,
{
}

/// Where the record holds the caller's address already, the run ends
/// without a call: nothing is sent to the provider.
pub proof fn lemma_same_address_sends_nothing(
    config: ConfigView,
    ip: Seq<char>,
    zone_id: Seq<char>,
    resp: ResponseView<Seq<DnsRecordView>>,
)
    requires
        exactly_one(resp) matches Ok(record) && record.content == ip,
    ensures
        next_step(config, PhaseView::ResolvingRecord { ip, zone_id }, EventView::Records(resp))
            == (StepView {
            next: PhaseView::Finished,
            progress: Some(ProgressView::ExistingRecord(exactly_one(resp)->Ok_0)),
            action: ActionView::Finish(OutcomeView::UpToDate),
        }),
{
}

/// On a dry run, where the record does not hold the caller's address, the
/// run ends without a call, and its outcome shows the record as it is and as
/// it would be sent.
pub proof fn lemma_dry_run_shows_both(
    config: ConfigView,
    ip: Seq<char>,
    zone_id: Seq<char>,
    resp: ResponseView<Seq<DnsRecordView>>,
)
    requires
        config.dry_run,
        exactly_one(resp) matches Ok(record) && record.content != ip,
    ensures
        next_step(config, PhaseView::ResolvingRecord { ip, zone_id }, EventView::Records(resp))
            == (StepView {
            next: PhaseView::Finished,
            progress: Some(ProgressView::ExistingRecord(exactly_one(resp)->Ok_0)),
            action: ActionView::Finish(
                OutcomeView::DryRun {
                    old: exactly_one(resp)->Ok_0,
                    new: exactly_one(resp)->Ok_0.with_content(ip),
                },
            ),
        }),
{
}

/// Where the provider answers an update with the record that it was sent,
/// the run ends with that record: it holds the caller's address, and the id,
/// name, type and time to live of the record that was there before.
pub proof fn lemma_update_comes_back(
    config: ConfigView,
    ip: Seq<char>,
    zone_id: Seq<char>,
    resp: ResponseView<Seq<DnsRecordView>>,
    answer: ResponseView<DnsRecordView>,
)
    requires
        !config.dry_run,
        exactly_one(resp) matches Ok(record) && record.content != ip,
        answer.success,
        next_step(
            config,
            PhaseView::ResolvingRecord { ip, zone_id },
            EventView::Records(resp),
        ).action matches ActionView::UpdateRecord(request) && answer.result == request.body,
    ensures
        next_step(config, PhaseView::Updating, EventView::Updated(answer)) == (StepView {
            next: PhaseView::Finished,
            progress: None,
            action: ActionView::Finish(
                OutcomeView::Updated(exactly_one(resp)->Ok_0.with_content(ip)),
            ),
        }),
        exactly_one(resp)->Ok_0.with_content(ip) == (DnsRecordView {
            content: ip,
            ..exactly_one(resp)->Ok_0
        }),
{
}

/// A step that ends the run, well or not, leaves it finished, and only such
/// a step does.
pub proof fn lemma_end_is_finished(config: ConfigView, phase: PhaseView, event: EventView)
    ensures
        next_step(config, phase, event).next is Finished <==> !next_step(
            config,
            phase,
            event,
        ).action.is_call(),
{
}

/// A run has as many steps as it is brought events.
pub proof fn lemma_run_len(config: ConfigView, phase: PhaseView, events: Seq<EventView>)
    ensures
        run(config, phase, events).len() == events.len(),
    decreases events.len(),
{
    if events.len() > 0 {
        lemma_run_len(config, next_step(config, phase, events[0]).next, events.drop_first());
    }
}

/// The first step of a run is the step on its first event, and its later
/// steps are those of the run that goes on from where the first step leaves
/// it.
pub proof fn lemma_run_unfolds(
    config: ConfigView,
    phase: PhaseView,
    events: Seq<EventView>,
    i: int,
)
    requires
        0 <= i < events.len(),
    ensures
        run(config, phase, events).len() == events.len(),
        run(config, phase, events)[0] == next_step(config, phase, events[0]),
        i > 0 ==> run(config, phase, events)[i] == run(
            config,
            next_step(config, phase, events[0]).next,
            events.drop_first(),
        )[i - 1],
{
    lemma_run_len(config, phase, events);
}

/// A dry run never asks for an update, whatever it is brought.
pub proof fn lemma_dry_run_never_updates(
    config: ConfigView,
    phase: PhaseView,
    events: Seq<EventView>,
    i: int,
)
    requires
        config.dry_run,
        0 <= i < events.len(),
    ensures
        !(run(config, phase, events)[i].action is UpdateRecord),
    decreases events.len(),
{
    lemma_run_unfolds(config, phase, events, i);
    if i > 0 {
        lemma_dry_run_never_updates(
            config,
            next_step(config, phase, events[0]).next,
            events.drop_first(),
            i - 1,
        );
    }
}

/// Once a run is finished nothing more is sent: every further event is
/// answered with a failure, and the run stays finished.
pub proof fn lemma_nothing_after_the_end(
    config: ConfigView,
    phase: PhaseView,
    events: Seq<EventView>,
    i: int,
    j: int,
)
    requires
        0 <= i < j < events.len(),
        !run(config, phase, events)[i].action.is_call(),
    ensures
        run(config, phase, events)[j] == give_up(RunErrorView::OutOfTurn),
    decreases events.len(),
{
    lemma_run_unfolds(config, phase, events, i);
    let first = next_step(config, phase, events[0]);
    let rest = events.drop_first();
    if i > 0 {
        lemma_nothing_after_the_end(config, first.next, rest, i - 1, j - 1);
    } else {
        lemma_finished_run(config, rest, j - 1);
    }
}

/// Every step of a run that is finished is a failure, and leaves it
/// finished.
pub proof fn lemma_finished_run(config: ConfigView, events: Seq<EventView>, i: int)
    requires
        0 <= i < events.len(),
    ensures
        run(config, PhaseView::Finished, events)[i] == give_up(RunErrorView::OutOfTurn),
    decreases events.len(),
{
    lemma_run_unfolds(config, PhaseView::Finished, events, i);
    if i > 0 {
        lemma_finished_run(config, events.drop_first(), i - 1);
    }
}

/// A run asks for an update at most once. The step after the one that does
/// ends the run, with the record as the provider holds it or with a failure,
/// and nothing is sent from then on.
pub proof fn lemma_one_update_at_most(
    config: ConfigView,
    phase: PhaseView,
    events: Seq<EventView>,
    i: int,
    j: int,
)
    requires
        0 <= i < j < events.len(),
        run(config, phase, events)[i].action is UpdateRecord,
    ensures
        run(config, phase, events)[j].action matches ActionView::Finish(outcome)
            ==> outcome is Updated,
        !run(config, phase, events)[j].action.is_call(),
    decreases events.len(),
{
    lemma_run_unfolds(config, phase, events, i);
    let first = next_step(config, phase, events[0]);
    let rest = events.drop_first();
    if i > 0 {
        lemma_one_update_at_most(config, first.next, rest, i - 1, j - 1);
    } else {
        // The run awaits the provider's answer to the update, and ends on it.
        if j > 1 {
            lemma_nothing_after_the_end(config, PhaseView::Updating, rest, 0, j - 1);
        }
    }
}

/// A run that ends with the record up to date, or as a dry run, has not
/// asked for an update, and asks for none afterwards.
pub proof fn lemma_no_update_unless_updated(
    config: ConfigView,
    phase: PhaseView,
    events: Seq<EventView>,
    i: int,
    j: int,
)
    requires
        0 <= i < events.len(),
        0 <= j < events.len(),
        run(config, phase, events)[i].action matches ActionView::Finish(outcome)
            && outcome !is Updated,
    ensures
        !(run(config, phase, events)[j].action is UpdateRecord),
{
    if j < i {
        if run(config, phase, events)[j].action is UpdateRecord {
            lemma_one_update_at_most(config, phase, events, j, i);
        }
    } else if i < j {
        lemma_nothing_after_the_end(config, phase, events, i, j);
    }
}

} // verus!
