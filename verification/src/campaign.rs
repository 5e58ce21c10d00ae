//! The campaign: one run of sending a rendered message to each contact of a
//! list, in order.
//!
//! The orchestrator decides and a worker acts. The worker asks for its next
//! step, does what the step says on the channel, and reports how it went.
//! A stop request is honoured whenever the worker asks for its next step,
//! and never while a message is on its way. A send that fails is recorded
//! and the run goes on; a channel that fails to come up ends the campaign.

use vstd::prelude::*;
use crate::text::{decimal, push_text, push_decimal};
use crate::contacts::{Contact, ContactView, contact_views};
use crate::template::{MessageHandler, ValidationError, personalized};
use crate::phone::{PhoneNormalizer, normalized, has_digit, holds_digit};

verus! {

/// The message shown before any campaign has begun.
pub const MESSAGE_IDLE: &'static str = "Pronto para iniciar.";

/// The message shown while the channel is brought up.
pub const MESSAGE_INITIALIZING: &'static str = "Iniciando o navegador...";

/// The message shown while the channel waits for a logged-in session.
pub const MESSAGE_AWAITING: &'static str =
    "Aguardando login no WhatsApp Web...\nPor favor, escaneie o código QR.";

/// The message shown once every contact has been attempted.
pub const MESSAGE_COMPLETED: &'static str = "Envio concluído com sucesso!";

/// The message shown once a stop request has been honoured.
pub const MESSAGE_STOPPED: &'static str = "Envio interrompido pelo usuário.";

/// Where a campaign stands.
#[derive(Clone, Copy, Debug, PartialEq, Eq, Structural)]
pub enum CampaignStatus {
    Idle,
    Initializing,
    AwaitingChannelReady,
    Sending,
    Completed,
    Stopped,
    Failed,
}

impl CampaignStatus {
    /// Whether a campaign is under way.
    pub fn is_active(&self) -> (active: bool)
        ensures
            active == CampaignState::is_active(*self),
    {
        match self {
            CampaignStatus::Initializing | CampaignStatus::AwaitingChannelReady
            | CampaignStatus::Sending => true,
            _ => false,
        }
    }

    /// Whether the campaign has ended.
    pub fn is_terminal(&self) -> (ended: bool)
        ensures
            ended == CampaignState::is_terminal(*self),
    {
        match self {
            CampaignStatus::Completed | CampaignStatus::Stopped | CampaignStatus::Failed => true,
            _ => false,
        }
    }
}

/// Why a call was refused.
#[derive(Clone, Copy, Debug, PartialEq, Eq, Structural)]
pub enum CampaignError {
    /// The campaign is not in the state that the call is for.
    InvalidState,
    /// The input was refused before the campaign began.
    Validation(ValidationError),
}

/// The record of a campaign that observers read.
#[derive(Debug)]
pub struct CampaignState {
    pub status: CampaignStatus,
    /// The number of contacts attempted so far.
    pub current_index: usize,
    /// The number of contacts of the campaign.
    pub total: usize,
    pub status_message: String,
    pub last_error: Option<String>,
}

/// What a [`CampaignState`] holds, as plain values.
pub struct CampaignStateView {
    pub status: CampaignStatus,
    pub current_index: usize,
    pub total: usize,
    pub status_message: Seq<char>,
    pub last_error: Option<Seq<char>>,
}

impl View for CampaignState {
    type V = CampaignStateView;

    open spec fn view(&self) -> CampaignStateView {
        CampaignStateView {
            status: self.status,
            current_index: self.current_index,
            total: self.total,
            status_message: self.status_message@,
            last_error: self.last_error.deep_view(),
        }
    }
}

impl Clone for CampaignState {
    fn clone(&self) -> (out: Self)
        ensures
            out@ == self@,
    {
        CampaignState {
            status: self.status,
            current_index: self.current_index,
            total: self.total,
            status_message: self.status_message.clone(),
            last_error: match &self.last_error {
                Some(e) => Some(e.clone()),
                None => None,
            },
        }
    }
}

impl CampaignState {
    /// The share of the contacts attempted so far, as a numerator and a
    /// denominator. Before a campaign has contacts the share is zero.
    pub open spec fn progress_of(state: CampaignStateView) -> (nat, nat) {
        if state.total == 0 {
            (0, 1)
        } else {
            (state.current_index as nat, state.total as nat)
        }
    }

    /// The progress as a fraction: the first number over the second.
    pub fn progress(&self) -> (parts: (usize, usize))
        ensures
            (parts.0 as nat, parts.1 as nat) == Self::progress_of(self@),
            parts.1 > 0,
    {
        if self.total == 0 {
            (0, 1)
        } else {
            (self.current_index, self.total)
        }
    }

    /// Whether the campaign has ended.
    pub open spec fn is_terminal(status: CampaignStatus) -> bool {
        status == CampaignStatus::Completed || status == CampaignStatus::Stopped || status
            == CampaignStatus::Failed
    }

    /// Whether a campaign is under way.
    pub open spec fn is_active(status: CampaignStatus) -> bool {
        status == CampaignStatus::Initializing || status == CampaignStatus::AwaitingChannelReady
            || status == CampaignStatus::Sending
    }
}

/// How the attempt to reach one contact went.
#[derive(Debug)]
pub enum SendResult {
    Sent,
    Skipped,
    Failed(String),
}

/// What a [`SendResult`] holds, as plain values.
pub enum SendResultView {
    Sent,
    Skipped,
    Failed(Seq<char>),
}

impl View for SendResult {
    type V = SendResultView;

    open spec fn view(&self) -> SendResultView {
        match self {
            SendResult::Sent => SendResultView::Sent,
            SendResult::Skipped => SendResultView::Skipped,
            SendResult::Failed(reason) => SendResultView::Failed(reason@),
        }
    }
}

/// The record of the attempt to reach one contact.
#[derive(Debug)]
pub struct SendOutcome {
    pub contact: Contact,
    pub rendered_message: String,
    pub result: SendResult,
}

/// What a [`SendOutcome`] holds, as plain values.
pub struct SendOutcomeView {
    pub contact: ContactView,
    pub rendered_message: Seq<char>,
    pub result: SendResultView,
}

impl View for SendOutcome {
    type V = SendOutcomeView;

    open spec fn view(&self) -> SendOutcomeView {
        SendOutcomeView {
            contact: self.contact@,
            rendered_message: self.rendered_message@,
            result: self.result@,
        }
    }
}

/// The views of a run of outcomes, in order.
pub open spec fn outcome_views(outcomes: Seq<SendOutcome>) -> Seq<SendOutcomeView> {
    outcomes.map_values(|o: SendOutcome| o@)
}

/// What the worker does next.
#[derive(Debug)]
pub enum Step {
    /// Bring the channel up and load the messaging surface.
    InitializeChannel,
    /// Wait until the channel is ready, for the given time at most.
    AwaitReady { timeout_seconds: u64 },
    /// Send `message` to `phone`, for the contact at `index`.
    Send { index: usize, phone: String, message: String },
    /// Nothing: no campaign is under way.
    Finished,
}

/// What a [`Step`] holds, as plain values.
pub enum StepView {
    InitializeChannel,
    AwaitReady { timeout_seconds: u64 },
    Send { index: usize, phone: Seq<char>, message: Seq<char> },
    Finished,
}

impl View for Step {
    type V = StepView;

    open spec fn view(&self) -> StepView {
        match self {
            Step::InitializeChannel => StepView::InitializeChannel,
            Step::AwaitReady { timeout_seconds } => StepView::AwaitReady {
                timeout_seconds: *timeout_seconds,
            },
            Step::Send { index, phone, message } => StepView::Send {
                index: *index,
                phone: phone@,
                message: message@,
            },
            Step::Finished => StepView::Finished,
        }
    }
}

/// The whole of a campaign, as plain values.
pub struct CampaignView {
    pub state: CampaignStateView,
    pub contacts: Seq<ContactView>,
    pub template: Seq<char>,
    pub delay_seconds: u64,
    pub readiness_timeout_seconds: u64,
    pub country_code: Seq<char>,
    pub national_digits: usize,
    pub stop_requested: bool,
    /// The message of the send that is on its way, if one is.
    pub pending: Option<Seq<char>>,
    pub outcomes: Seq<SendOutcomeView>,
}

/// The message rendered for the contact at `i`.
pub open spec fn rendered(v: CampaignView, i: int) -> Seq<char> {
    personalized(v.template, Contact::field_map(v.contacts[i]))
}

/// The number dialled for the contact at `i`.
pub open spec fn dialled(v: CampaignView, i: int) -> Seq<char> {
    normalized(v.contacts[i].phone, v.country_code, v.national_digits)
}

/// The message shown when the sending begins.
pub open spec fn sending_begins_message(total: usize) -> Seq<char> {
    "Enviando mensagens para "@ + decimal(total as nat) + " contatos..."@
}

/// The message shown while the contact number `position` of `total` is
/// written to.
pub open spec fn sending_message(name: Seq<char>, position: nat, total: usize) -> Seq<char> {
    "Enviando para "@ + name + " ("@ + decimal(position) + "/"@ + decimal(total as nat) + ")"@
}

/// What holds of every campaign that the library hands out.
pub open spec fn well_formed(v: CampaignView) -> bool {
    let s = v.state;
    &&& s.total == v.contacts.len()
    &&& s.current_index == v.outcomes.len()
    &&& s.current_index <= s.total
    &&& s.status == CampaignStatus::Idle ==> s.total == 0 && !v.stop_requested
    &&& s.status != CampaignStatus::Idle ==> s.total > 0 && v.template.len() > 0
    &&& s.status == CampaignStatus::Sending ==> s.current_index < s.total
    &&& s.status == CampaignStatus::Completed ==> s.current_index == s.total
    &&& (s.status == CampaignStatus::Initializing || s.status
        == CampaignStatus::AwaitingChannelReady) ==> s.current_index == 0
    &&& (s.status == CampaignStatus::Failed <==> s.last_error is Some)
    &&& s.status == CampaignStatus::Failed ==> s.current_index == 0
    &&& v.pending is Some ==> s.status == CampaignStatus::Sending && v.pending == Some(
        rendered(v, s.current_index as int),
    )
    &&& forall|i: int|
        0 <= i < v.outcomes.len() ==> (#[trigger] v.outcomes[i]).contact == v.contacts[i]
            && v.outcomes[i].rendered_message == rendered(v, i)
}

/// The first contact at or after `i` whose phone holds no digit.
pub open spec fn malformed_from(contacts: Seq<ContactView>, i: int) -> Option<usize>
    decreases contacts.len() - i,
{
    if i < 0 || i >= contacts.len() {
        None
    } else if !has_digit(contacts[i].phone) {
        Some(i as usize)
    } else {
        malformed_from(contacts, i + 1)
    }
}

/// Why a start is refused, if it is: a campaign that has left `Idle` takes
/// no second start, and a start needs a contact, a template, and a digit
/// in every phone.
pub open spec fn start_error(v: CampaignView, contacts: Seq<ContactView>, template: Seq<char>)
    -> Option<CampaignError> {
    if v.state.status != CampaignStatus::Idle {
        Some(CampaignError::InvalidState)
    } else if contacts.len() == 0 {
        Some(CampaignError::Validation(ValidationError::EmptyCampaign))
    } else if template.len() == 0 {
        Some(CampaignError::Validation(ValidationError::EmptyTemplate))
    } else {
        match malformed_from(contacts, 0) {
            Some(i) => Some(CampaignError::Validation(ValidationError::MalformedPhone(i))),
            None => None,
        }
    }
}

/// The campaign after a start that is not refused.
pub open spec fn started(
    v: CampaignView,
    contacts: Seq<ContactView>,
    template: Seq<char>,
    delay_seconds: u64,
) -> CampaignView {
    CampaignView {
        state: CampaignStateView {
            status: CampaignStatus::Initializing,
            current_index: 0,
            total: contacts.len() as usize,
            status_message: MESSAGE_INITIALIZING@,
            last_error: None,
        },
        contacts,
        template,
        delay_seconds,
        stop_requested: false,
        pending: None,
        outcomes: Seq::empty(),
        ..v
    }
}

/// The campaign after the channel has failed for the given reason.
pub open spec fn failed(v: CampaignView, reason: Seq<char>) -> CampaignView {
    CampaignView {
        state: CampaignStateView {
            status: CampaignStatus::Failed,
            status_message: reason,
            last_error: Some(reason),
            ..v.state
        },
        pending: None,
        ..v
    }
}

/// The campaign after a stop request has been honoured.
pub open spec fn stopped(v: CampaignView) -> CampaignView {
    CampaignView {
        state: CampaignStateView {
            status: CampaignStatus::Stopped,
            status_message: MESSAGE_STOPPED@,
            ..v.state
        },
        pending: None,
        ..v
    }
}

/// The campaign after the worker has reported how bringing the channel up
/// went. The report counts only while the campaign is `Initializing`.
pub open spec fn initialized(v: CampaignView, outcome: Result<(), Seq<char>>) -> CampaignView {
    if v.state.status != CampaignStatus::Initializing {
        v
    } else {
        match outcome {
            Ok(_) => CampaignView {
                state: CampaignStateView {
                    status: CampaignStatus::AwaitingChannelReady,
                    status_message: MESSAGE_AWAITING@,
                    ..v.state
                },
                ..v
            },
            Err(reason) => failed(v, reason),
        }
    }
}

/// The campaign after the worker has reported how the wait for readiness
/// went. The report counts only while the campaign is
/// `AwaitingChannelReady`.
pub open spec fn readied(v: CampaignView, outcome: Result<(), Seq<char>>) -> CampaignView {
    if v.state.status != CampaignStatus::AwaitingChannelReady {
        v
    } else {
        match outcome {
            Ok(_) => CampaignView {
                state: CampaignStateView {
                    status: CampaignStatus::Sending,
                    status_message: sending_begins_message(v.state.total),
                    ..v.state
                },
                ..v
            },
            Err(reason) => failed(v, reason),
        }
    }
}

/// The campaign after the worker has asked for its next step.
pub open spec fn stepped(v: CampaignView) -> CampaignView {
    if !CampaignState::is_active(v.state.status) {
        v
    } else if v.stop_requested {
        stopped(v)
    } else if v.state.status == CampaignStatus::Sending {
        CampaignView {
            state: CampaignStateView {
                status_message: sending_message(
                    v.contacts[v.state.current_index as int].name,
                    (v.state.current_index + 1) as nat,
                    v.state.total,
                ),
                ..v.state
            },
            pending: Some(rendered(v, v.state.current_index as int)),
            ..v
        }
    } else {
        v
    }
}

/// The step that the worker is given.
pub open spec fn step_of(v: CampaignView) -> StepView {
    if !CampaignState::is_active(v.state.status) || v.stop_requested {
        StepView::Finished
    } else if v.state.status == CampaignStatus::Initializing {
        StepView::InitializeChannel
    } else if v.state.status == CampaignStatus::AwaitingChannelReady {
        StepView::AwaitReady { timeout_seconds: v.readiness_timeout_seconds }
    } else {
        StepView::Send {
            index: v.state.current_index,
            phone: dialled(v, v.state.current_index as int),
            message: rendered(v, v.state.current_index as int),
        }
    }
}

/// Whether a send is on its way, so that its result can be recorded.
pub open spec fn awaits_result(v: CampaignView) -> bool {
    v.state.status == CampaignStatus::Sending && v.pending is Some
}

/// The campaign after the result of the send on its way has been recorded:
/// the outcome joins the list, the index moves on, and behind the last
/// contact the campaign is `Completed`.
pub open spec fn recorded(v: CampaignView, result: SendResultView) -> CampaignView {
    if !awaits_result(v) {
        v
    } else {
        let i = v.state.current_index;
        let outcome = SendOutcomeView {
            contact: v.contacts[i as int],
            rendered_message: v.pending->0,
            result,
        };
        let last = i + 1 == v.state.total;
        CampaignView {
            state: CampaignStateView {
                status: if last {
                    CampaignStatus::Completed
                } else {
                    CampaignStatus::Sending
                },
                current_index: (i + 1) as usize,
                status_message: if last {
                    MESSAGE_COMPLETED@
                } else {
                    v.state.status_message
                },
                ..v.state
            },
            pending: None,
            outcomes: v.outcomes.push(outcome),
            ..v
        }
    }
}

/// The pause before the next contact, in seconds: the delay of the
/// campaign, or none behind the last contact.
pub open spec fn pause_after(v: CampaignView) -> Option<u64> {
    if v.state.current_index + 1 == v.state.total {
        None
    } else {
        Some(v.delay_seconds)
    }
}

/// The campaign after a stop has been asked for. Only a campaign under way
/// takes note.
pub open spec fn stop_noted(v: CampaignView) -> CampaignView {
    if CampaignState::is_active(v.state.status) {
        CampaignView { stop_requested: true, ..v }
    } else {
        v
    }
}

/// A report of the worker on the channel, with its reason as plain text.
pub open spec fn report_view(outcome: Result<(), String>) -> Result<(), Seq<char>> {
    match outcome {
        Ok(_) => Ok(()),
        Err(reason) => Err(reason@),
    }
}

/// Finds the first contact whose phone holds no digit.
pub fn first_malformed(contacts: &Vec<Contact>) -> (found: Option<usize>)
    ensures
        found == malformed_from(contact_views(contacts@), 0),
{
    let mut i: usize = 0;
    while i < contacts.len()
        invariant
            i <= contacts.len(),
            malformed_from(contact_views(contacts@), 0) == malformed_from(
                contact_views(contacts@),
                i as int,
            ),
        decreases contacts.len() - i,
    {
        if !holds_digit(contacts[i].phone.as_str()) {
            return Some(i);
        }
        i += 1;
    }
    None
}

/// The options of a campaign.
pub struct CampaignConfig {
    /// The pause between two contacts, in seconds.
    pub delay_seconds: u64,
    /// The prefix for national phone numbers, plus sign included.
    pub default_country_code: String,
    /// The most digits that a national phone number has.
    pub national_digits: usize,
    /// The longest wait for the channel to be ready, in seconds.
    pub readiness_timeout_seconds: u64,
}

impl CampaignConfig {
    /// Whether both times are at least one second.
    pub fn is_valid(&self) -> (valid: bool)
        ensures
            valid == (self.delay_seconds >= 1 && self.readiness_timeout_seconds >= 1),
    {
        self.delay_seconds >= 1 && self.readiness_timeout_seconds >= 1
    }
}

/// The campaign engine: it owns the state of one campaign and decides each
/// step of it.
pub struct SendOrchestrator {
    state: CampaignState,
    contacts: Vec<Contact>,
    handler: MessageHandler,
    normalizer: PhoneNormalizer,
    delay_seconds: u64,
    readiness_timeout_seconds: u64,
    stop_requested: bool,
    pending: Option<String>,
    outcomes: Vec<SendOutcome>,
}

impl View for SendOrchestrator {
    type V = CampaignView;

    closed spec fn view(&self) -> CampaignView {
        CampaignView {
            state: self.state@,
            contacts: contact_views(self.contacts@),
            template: self.handler@.template,
            delay_seconds: self.delay_seconds,
            readiness_timeout_seconds: self.readiness_timeout_seconds,
            country_code: self.normalizer.default_country_code@,
            national_digits: self.normalizer.national_digits,
            stop_requested: self.stop_requested,
            pending: self.pending.deep_view(),
            outcomes: outcome_views(self.outcomes@),
        }
    }
}

impl SendOrchestrator {
    /// Whether the campaign is well-formed. Every orchestrator is, from its
    /// making on.
    pub open spec fn wf(&self) -> bool {
        well_formed(self@)
    }

    /// An orchestrator with no campaign yet.
    pub fn new(config: &CampaignConfig) -> (orchestrator: Self)
        ensures
            orchestrator.wf(),
            orchestrator@.state == (CampaignStateView {
                status: CampaignStatus::Idle,
                current_index: 0,
                total: 0,
                status_message: MESSAGE_IDLE@,
                last_error: None,
            }),
            orchestrator@.contacts.len() == 0,
            orchestrator@.outcomes.len() == 0,
            orchestrator@.pending is None,
            !orchestrator@.stop_requested,
            orchestrator@.delay_seconds == config.delay_seconds,
            orchestrator@.readiness_timeout_seconds == config.readiness_timeout_seconds,
            orchestrator@.country_code == config.default_country_code@,
            orchestrator@.national_digits == config.national_digits,
    {
        SendOrchestrator {
            state: CampaignState {
                status: CampaignStatus::Idle,
                current_index: 0,
                total: 0,
                status_message: MESSAGE_IDLE.to_owned(),
                last_error: None,
            },
            contacts: Vec::new(),
            handler: MessageHandler::new(),
            normalizer: PhoneNormalizer::new(
                config.default_country_code.as_str(),
                config.national_digits,
            ),
            delay_seconds: config.delay_seconds,
            readiness_timeout_seconds: config.readiness_timeout_seconds,
            stop_requested: false,
            pending: None,
            outcomes: Vec::new(),
        }
    }

    /// Begins a campaign. Only an idle orchestrator takes a start, and only
    /// with at least one contact, a template that is not empty and a digit
    /// in every phone; a start that is refused changes nothing.
    pub fn start(&mut self, contacts: Vec<Contact>, template: &str, delay_seconds: u64) -> (result:
        Result<(), CampaignError>)
        requires
            old(self).wf(),
        ensures
            final(self).wf(),
            match result {
                Ok(_) => start_error(old(self)@, contact_views(contacts@), template@) is None
                    && final(self)@ == started(
                    old(self)@,
                    contact_views(contacts@),
                    template@,
                    delay_seconds,
                ),
                Err(e) => start_error(old(self)@, contact_views(contacts@), template@) == Some(e)
                    && final(self)@ == old(self)@,
            },
    {
        match self.state.status {
            CampaignStatus::Idle => {},
            _ => {
                return Err(CampaignError::InvalidState);
            },
        }
        if contacts.len() == 0 {
            return Err(CampaignError::Validation(ValidationError::EmptyCampaign));
        }
        if template.is_empty() {
            return Err(CampaignError::Validation(ValidationError::EmptyTemplate));
        }
        match first_malformed(&contacts) {
            Some(i) => {
                return Err(CampaignError::Validation(ValidationError::MalformedPhone(i)));
            },
            None => {},
        }
        match self.handler.set_template(template) {
            Ok(_) => {},
            Err(e) => {
                return Err(CampaignError::Validation(e));
            },
        }
        self.state = CampaignState {
            status: CampaignStatus::Initializing,
            current_index: 0,
            total: contacts.len(),
            status_message: MESSAGE_INITIALIZING.to_owned(),
            last_error: None,
        };
        self.contacts = contacts;
        self.delay_seconds = delay_seconds;
        self.stop_requested = false;
        self.pending = None;
        self.outcomes = Vec::new();
        assert(final(self)@.outcomes =~= Seq::<SendOutcomeView>::empty());
        Ok(())
    }

    fn fail(&mut self, reason: String)
        requires
            old(self).wf(),
            old(self)@.state.status == CampaignStatus::Initializing || old(self)@.state.status
                == CampaignStatus::AwaitingChannelReady,
        ensures
            final(self).wf(),
            final(self)@ == failed(old(self)@, reason@),
    {
        self.state.status = CampaignStatus::Failed;
        self.state.status_message = reason.clone();
        self.state.last_error = Some(reason);
        self.pending = None;
    }

    /// Takes the worker's report on bringing the channel up and loading the
    /// messaging surface. A failure ends the campaign as `Failed`, with the
    /// reason as its last error.
    pub fn channel_initialized(&mut self, outcome: Result<(), String>) -> (result: Result<
        (),
        CampaignError,
    >)
        requires
            old(self).wf(),
        ensures
            final(self).wf(),
            final(self)@ == initialized(old(self)@, report_view(outcome)),
            result is Ok <==> old(self)@.state.status == CampaignStatus::Initializing,
            result is Err ==> result == Err::<(), CampaignError>(CampaignError::InvalidState),
    {
        match self.state.status {
            CampaignStatus::Initializing => {},
            _ => {
                return Err(CampaignError::InvalidState);
            },
        }
        match outcome {
            Ok(_) => {
                self.state.status = CampaignStatus::AwaitingChannelReady;
                self.state.status_message = MESSAGE_AWAITING.to_owned();
            },
            Err(reason) => {
                self.fail(reason);
            },
        }
        Ok(())
    }

    /// Takes the worker's report on the wait for the channel to be ready. A
    /// failure, a timeout among them, ends the campaign as `Failed`.
    pub fn channel_ready(&mut self, outcome: Result<(), String>) -> (result: Result<
        (),
        CampaignError,
    >)
        requires
            old(self).wf(),
        ensures
            final(self).wf(),
            final(self)@ == readied(old(self)@, report_view(outcome)),
            result is Ok <==> old(self)@.state.status == CampaignStatus::AwaitingChannelReady,
            result is Err ==> result == Err::<(), CampaignError>(CampaignError::InvalidState),
    {
        match self.state.status {
            CampaignStatus::AwaitingChannelReady => {},
            _ => {
                return Err(CampaignError::InvalidState);
            },
        }
        match outcome {
            Ok(_) => {
                let mut message = "Enviando mensagens para ".to_owned();
                push_decimal(&mut message, self.state.total);
                push_text(&mut message, " contatos...");
                self.state.status = CampaignStatus::Sending;
                self.state.status_message = message;
            },
            Err(reason) => {
                self.fail(reason);
            },
        }
        Ok(())
    }

    /// Says what the worker does next. This is the point at which a stop
    /// request takes effect: a campaign under way then ends as `Stopped`.
    /// While sending, the step is the send for the next contact, with the
    /// phone number normalized and the message rendered.
    pub fn next_step(&mut self) -> (step: Step)
        requires
            old(self).wf(),
        ensures
            final(self).wf(),
            final(self)@ == stepped(old(self)@),
            step@ == step_of(old(self)@),
    {
        if !self.state.status.is_active() {
            return Step::Finished;
        }
        if self.stop_requested {
            self.state.status = CampaignStatus::Stopped;
            self.state.status_message = MESSAGE_STOPPED.to_owned();
            self.pending = None;
            return Step::Finished;
        }
        match self.state.status {
            CampaignStatus::Initializing => Step::InitializeChannel,
            CampaignStatus::AwaitingChannelReady => Step::AwaitReady {
                timeout_seconds: self.readiness_timeout_seconds,
            },
            _ => {
                let index = self.state.current_index;
                let contact = &self.contacts[index];
                let fields = contact.fields();
                let message = self.handler.personalize_message(&fields);
                let phone = self.normalizer.normalize(contact.phone.as_str());
                let mut status_message = "Enviando para ".to_owned();
                push_text(&mut status_message, contact.name.as_str());
                push_text(&mut status_message, " (");
                push_decimal(&mut status_message, index + 1);
                push_text(&mut status_message, "/");
                push_decimal(&mut status_message, self.state.total);
                push_text(&mut status_message, ")");
                self.state.status_message = status_message;
                self.pending = Some(message.clone());
                Step::Send { index, phone, message }
            },
        }
    }

    /// Records how the send on its way went and moves on to the next
    /// contact. Returns the pause to keep before the next step, or `None`
    /// behind the last contact, where the campaign is `Completed`. A failed
    /// send is recorded like any other and does not end the campaign.
    pub fn record_send(&mut self, result: SendResult) -> (pause: Result<
        Option<u64>,
        CampaignError,
    >)
        requires
            old(self).wf(),
        ensures
            final(self).wf(),
            final(self)@ == recorded(old(self)@, result@),
            match pause {
                Ok(p) => awaits_result(old(self)@) && p == pause_after(old(self)@),
                Err(e) => !awaits_result(old(self)@) && e == CampaignError::InvalidState,
            },
    {
        match self.state.status {
            CampaignStatus::Sending => {},
            _ => {
                return Err(CampaignError::InvalidState);
            },
        }
        let rendered_message = match &self.pending {
            Some(m) => m.clone(),
            None => {
                return Err(CampaignError::InvalidState);
            },
        };
        let index = self.state.current_index;
        let contact = self.contacts[index].clone();
        let ghost before = self.outcomes@;
        let ghost outcome = SendOutcomeView {
            contact: contact@,
            rendered_message: rendered_message@,
            result: result@,
        };
        self.outcomes.push(SendOutcome { contact, rendered_message, result });
        assert(outcome_views(self.outcomes@) =~= outcome_views(before).push(outcome));
        self.pending = None;
        self.state.current_index = index + 1;
        if index + 1 == self.state.total {
            self.state.status = CampaignStatus::Completed;
            self.state.status_message = MESSAGE_COMPLETED.to_owned();
            Ok(None)
        } else {
            Ok(Some(self.delay_seconds))
        }
    }

    /// Asks the campaign to stop. The call only sets a flag, and only while
    /// a campaign is under way; calling it again, or after the end, changes
    /// nothing.
    pub fn stop(&mut self)
        requires
            old(self).wf(),
        ensures
            final(self).wf(),
            final(self)@ == stop_noted(old(self)@),
    {
        if self.state.status.is_active() {
            self.stop_requested = true;
        }
    }

    /// Whether a stop has been asked for and not yet honoured or overtaken.
    pub fn is_stop_requested(&self) -> (requested: bool)
        ensures
            requested == self@.stop_requested,
    {
        self.stop_requested
    }

    /// The state of the campaign, by value. What the caller does to the copy
    /// does not reach the campaign.
    pub fn get_snapshot(&self) -> (state: CampaignState)
        ensures
            state@ == self@.state,
            self.wf() ==> state.current_index <= state.total,
    {
        self.state.clone()
    }

    /// The outcomes recorded so far, in the order of the contacts.
    pub fn outcomes(&self) -> (outcomes: &[SendOutcome])
        ensures
            outcome_views(outcomes@) == self@.outcomes,
    {
        self.outcomes.as_slice()
    }
}

/// The campaign after the worker has served one contact for each of
/// `results`: it asks for its step and records the result, time after time.
pub open spec fn served(v: CampaignView, results: Seq<SendResultView>) -> CampaignView
    decreases results.len(),
{
    if results.len() == 0 {
        v
    } else {
        served(recorded(stepped(v), results[0]), results.drop_first())
    }
}

/// The outcome that the contact at `i` gets for the given result.
pub open spec fn outcome_for(v: CampaignView, i: int, result: SendResultView) -> SendOutcomeView {
    SendOutcomeView { contact: v.contacts[i], rendered_message: rendered(v, i), result }
}

/// Whether `after` can follow `before` within one campaign: the contacts,
/// the template and the total stay, the index does not fall, and the
/// outcomes recorded stay as they are.
pub open spec fn continues(before: CampaignView, after: CampaignView) -> bool {
    &&& after.contacts == before.contacts
    &&& after.template == before.template
    &&& after.state.total == before.state.total
    &&& after.state.current_index >= before.state.current_index
    &&& before.outcomes.is_prefix_of(after.outcomes)
    &&& after.state.status != CampaignStatus::Idle
}

/// The progress of a campaign is a share between nothing and all.
pub proof fn lemma_progress_is_a_share(v: CampaignView)
    requires
        well_formed(v),
    ensures
        CampaignState::progress_of(v.state).0 <= CampaignState::progress_of(v.state).1,
        CampaignState::progress_of(v.state).1 > 0,
        v.state.status == CampaignStatus::Completed ==> CampaignState::progress_of(v.state).0
            == CampaignState::progress_of(v.state).1,
{
}

/// Every report, step and stop request keeps a campaign well-formed.
pub proof fn lemma_well_formed_kept(
    v: CampaignView,
    outcome: Result<(), Seq<char>>,
    result: SendResultView,
)
    requires
        well_formed(v),
    ensures
        well_formed(initialized(v, outcome)),
        well_formed(readied(v, outcome)),
        well_formed(stepped(v)),
        well_formed(recorded(v, result)),
        well_formed(stop_noted(v)),
{
}

/// Progress never falls, and a campaign never returns to `Idle`: once
/// begun, every report, step and stop request leaves the contacts and the
/// total alone, keeps what was recorded, and moves the index forward if at
/// all.
pub proof fn lemma_progress_monotonic(
    v: CampaignView,
    outcome: Result<(), Seq<char>>,
    result: SendResultView,
)
    requires
        well_formed(v),
        v.state.status != CampaignStatus::Idle,
    ensures
        continues(v, initialized(v, outcome)),
        continues(v, readied(v, outcome)),
        continues(v, stepped(v)),
        continues(v, recorded(v, result)),
        continues(v, stop_noted(v)),
{
}

/// Only one campaign at a time: from its start on, whatever is reported,
/// a campaign refuses every further start with `InvalidState`.
pub proof fn lemma_second_start_refused(
    v: CampaignView,
    after: CampaignView,
    contacts: Seq<ContactView>,
    template: Seq<char>,
)
    requires
        v.state.status != CampaignStatus::Idle,
        continues(v, after),
    ensures
        start_error(v, contacts, template) == Some(CampaignError::InvalidState),
        start_error(after, contacts, template) == Some(CampaignError::InvalidState),
{
}

/// Serving contacts without a stop request visits them in order: each
/// result lands on the next contact, whether the send went well or not,
/// and behind the last contact the campaign is `Completed`.
pub proof fn lemma_served_in_order(v: CampaignView, results: Seq<SendResultView>)
    requires
        well_formed(v),
        v.state.status == CampaignStatus::Sending,
        !v.stop_requested,
        v.state.current_index + results.len() <= v.state.total,
    ensures
        well_formed(served(v, results)),
        continues(v, served(v, results)),
        !served(v, results).stop_requested,
        served(v, results).state.current_index == v.state.current_index + results.len(),
        served(v, results).outcomes.len() == v.outcomes.len() + results.len(),
        forall|j: int|
            0 <= j < results.len() ==> #[trigger] served(v, results).outcomes[v.outcomes.len() + j]
                == outcome_for(v, v.state.current_index + j, results[j]),
        served(v, results).state.status == if v.state.current_index + results.len()
            == v.state.total {
            CampaignStatus::Completed
        } else {
            CampaignStatus::Sending
        },
    decreases results.len(),
{
    if results.len() > 0 {
        let next = recorded(stepped(v), results[0]);
        let rest = results.drop_first();
        if rest.len() > 0 {
            lemma_served_in_order(next, rest);
            let end = served(v, results);
            assert forall|j: int| 0 <= j < results.len() implies #[trigger] end.outcomes[v.outcomes.len()
                + j] == outcome_for(v, v.state.current_index + j, results[j]) by {
                if j == 0 {
                    assert(end.outcomes[v.outcomes.len() as int] == next.outcomes[v.outcomes.len() as int]);
                } else {
                    assert(end.outcomes[next.outcomes.len() + (j - 1)] == outcome_for(
                        next,
                        next.state.current_index + (j - 1),
                        rest[j - 1],
                    ));
                }
            }
        } else {
            assert(served(next, rest) == next);
        }
    }
}

/// A full run: a campaign that is begun, whose channel comes up and is
/// ready, and whose worker serves every contact without a stop request,
/// ends `Completed` with all of its progress made and one outcome for each
/// contact, in the order of the list.
pub proof fn lemma_full_run_completes(
    v: CampaignView,
    contacts: Seq<ContactView>,
    template: Seq<char>,
    delay_seconds: u64,
    results: Seq<SendResultView>,
)
    requires
        well_formed(v),
        start_error(v, contacts, template) is None,
        contacts.len() <= usize::MAX,
        results.len() == contacts.len(),
    ensures
        ({
            let begun = started(v, contacts, template, delay_seconds);
            let sending = readied(initialized(begun, Ok(())), Ok(()));
            let end = served(sending, results);
            &&& begun.state.status == CampaignStatus::Initializing
            &&& initialized(begun, Ok(())).state.status == CampaignStatus::AwaitingChannelReady
            &&& sending.state.status == CampaignStatus::Sending
            &&& end.state.status == CampaignStatus::Completed
            &&& CampaignState::progress_of(end.state) == (contacts.len(), contacts.len())
            &&& end.outcomes.len() == contacts.len()
            &&& forall|i: int|
                0 <= i < contacts.len() ==> #[trigger] end.outcomes[i] == outcome_for(
                    begun,
                    i,
                    results[i],
                )
        }),
{
    let begun = started(v, contacts, template, delay_seconds);
    let sending = readied(initialized(begun, Ok(())), Ok(()));
    lemma_served_in_order(sending, results);
    let end = served(sending, results);
    assert forall|i: int| 0 <= i < contacts.len() implies #[trigger] end.outcomes[i] == outcome_for(
        begun,
        i,
        results[i],
    ) by {
        assert(end.outcomes[sending.outcomes.len() + i] == outcome_for(
            sending,
            sending.state.current_index + i,
            results[i],
        ));
    }
}

/// A stop between two contacts: where the worker has served some contacts
/// and a stop is asked for before it takes its next step, the campaign
/// ends `Stopped` at the index it had reached, and no further contact is
/// attempted.
pub proof fn lemma_stop_takes_effect(v: CampaignView, results: Seq<SendResultView>)
    requires
        well_formed(v),
        v.state.status == CampaignStatus::Sending,
        !v.stop_requested,
        v.state.current_index + results.len() < v.state.total,
    ensures
        ({
            let end = stepped(stop_noted(served(v, results)));
            &&& end.state.status == CampaignStatus::Stopped
            &&& end.state.current_index == v.state.current_index + results.len()
            &&& end.outcomes == served(v, results).outcomes
            &&& step_of(stop_noted(served(v, results))) == StepView::Finished
            &&& stepped(end) == end
            &&& step_of(end) == StepView::Finished
        }),
{
    lemma_served_in_order(v, results);
}

/// Asking to stop is idempotent, and changes nothing once the campaign has
/// ended or before it has begun.
pub proof fn lemma_stop_idempotent(v: CampaignView)
    ensures
        stop_noted(stop_noted(v)) == stop_noted(v),
        !CampaignState::is_active(v.state.status) ==> stop_noted(v) == v,
        stop_noted(v).state == v.state,
{
}

/// A stop request never cuts into a send: the result of the send on its way
/// is recorded as ever, and the request is still there for the next step to
/// honour.
pub proof fn lemma_stop_waits_for_the_send(v: CampaignView, result: SendResultView)
    requires
        well_formed(v),
        awaits_result(v),
    ensures
        recorded(stop_noted(v), result).state == recorded(v, result).state,
        recorded(stop_noted(v), result).outcomes == recorded(v, result).outcomes,
        recorded(stop_noted(v), result).state.status != CampaignStatus::Stopped,
        recorded(stop_noted(v), result).stop_requested,
{
}

} // verus!
