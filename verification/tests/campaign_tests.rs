use whatsapp_sender::campaign::{
    first_malformed, CampaignConfig, CampaignError, CampaignState, CampaignStatus,
    SendOrchestrator, SendResult, Step,
};
use whatsapp_sender::contacts::Contact;
use whatsapp_sender::template::ValidationError;

fn contact(name: &str, phone: &str) -> Contact {
    Contact { name: name.to_string(), phone: phone.to_string(), email: None, company: None }
}

fn three_contacts() -> Vec<Contact> {
    vec![
        contact("Ana", "(11) 98888-7777"),
        contact("Bia", "+1 415 555 0100"),
        contact("Cid", "5511977776666"),
    ]
}

fn config() -> CampaignConfig {
    CampaignConfig {
        delay_seconds: 0,
        default_country_code: "+55".to_string(),
        national_digits: 11,
        readiness_timeout_seconds: 60,
    }
}

fn orchestrator() -> SendOrchestrator {
    SendOrchestrator::new(&config())
}

fn sending(contacts: Vec<Contact>, delay_seconds: u64) -> SendOrchestrator {
    let mut campaign = orchestrator();
    assert_eq!(campaign.start(contacts, "Hi {name}", delay_seconds), Ok(()));
    assert!(matches!(campaign.next_step(), Step::InitializeChannel));
    assert_eq!(campaign.channel_initialized(Ok(())), Ok(()));
    assert!(matches!(campaign.next_step(), Step::AwaitReady { timeout_seconds: 60 }));
    assert_eq!(campaign.channel_ready(Ok(())), Ok(()));
    campaign
}

fn expect_send(step: Step) -> (usize, String, String) {
    match step {
        Step::Send { index, phone, message } => (index, phone, message),
        other => panic!("expected a send, got {:?}", other),
    }
}

fn summary(state: &CampaignState) -> (CampaignStatus, usize, usize, String, Option<String>) {
    (
        state.status,
        state.current_index,
        state.total,
        state.status_message.clone(),
        state.last_error.clone(),
    )
}

fn fraction(state: &CampaignState) -> f64 {
    let (done, of) = state.progress();
    done as f64 / of as f64
}

#[test]
fn new_orchestrator_is_idle() {
    let campaign = orchestrator();
    let state = campaign.get_snapshot();
    assert_eq!(
        summary(&state),
        (CampaignStatus::Idle, 0, 0, "Pronto para iniciar.".to_string(), None)
    );
    assert_eq!(state.progress(), (0, 1));
    assert!(campaign.outcomes().is_empty());
    assert!(!campaign.is_stop_requested());
}

#[test]
fn full_run_visits_every_contact_in_order() {
    let mut campaign = orchestrator();
    let mut statuses = vec![campaign.get_snapshot().status];
    assert_eq!(campaign.start(three_contacts(), "Hi {name}", 0), Ok(()));
    statuses.push(campaign.get_snapshot().status);
    assert!(matches!(campaign.next_step(), Step::InitializeChannel));
    assert_eq!(campaign.channel_initialized(Ok(())), Ok(()));
    statuses.push(campaign.get_snapshot().status);
    assert!(matches!(campaign.next_step(), Step::AwaitReady { timeout_seconds: 60 }));
    assert_eq!(campaign.channel_ready(Ok(())), Ok(()));
    statuses.push(campaign.get_snapshot().status);

    let mut visited = Vec::new();
    let mut last_fraction = 0.0;
    loop {
        match campaign.next_step() {
            Step::Send { index, phone, message } => {
                visited.push((index, phone, message));
                let pause = campaign.record_send(SendResult::Sent).unwrap();
                let state = campaign.get_snapshot();
                assert!(fraction(&state) >= last_fraction);
                last_fraction = fraction(&state);
                assert_eq!(pause.is_none(), state.status == CampaignStatus::Completed);
            }
            Step::Finished => break,
            other => panic!("unexpected step {:?}", other),
        }
    }
    statuses.push(campaign.get_snapshot().status);

    assert_eq!(
        statuses,
        vec![
            CampaignStatus::Idle,
            CampaignStatus::Initializing,
            CampaignStatus::AwaitingChannelReady,
            CampaignStatus::Sending,
            CampaignStatus::Completed,
        ]
    );
    assert_eq!(
        visited,
        vec![
            (0, "+5511988887777".to_string(), "Hi Ana".to_string()),
            (1, "+14155550100".to_string(), "Hi Bia".to_string()),
            (2, "+5511977776666".to_string(), "Hi Cid".to_string()),
        ]
    );
    let state = campaign.get_snapshot();
    assert_eq!(
        summary(&state),
        (CampaignStatus::Completed, 3, 3, "Envio concluído com sucesso!".to_string(), None)
    );
    assert_eq!(state.progress(), (3, 3));
    assert_eq!(fraction(&state), 1.0);
    let names: Vec<_> = campaign.outcomes().iter().map(|o| o.contact.name.clone()).collect();
    assert_eq!(names, vec!["Ana", "Bia", "Cid"]);
    assert!(campaign.outcomes().iter().all(|o| matches!(o.result, SendResult::Sent)));
}

#[test]
fn stop_between_two_contacts_ends_the_campaign_there() {
    let mut campaign = sending(three_contacts(), 0);
    let (index, _, _) = expect_send(campaign.next_step());
    assert_eq!(index, 0);
    assert_eq!(campaign.record_send(SendResult::Sent), Ok(Some(0)));
    campaign.stop();
    assert!(campaign.is_stop_requested());
    assert!(matches!(campaign.next_step(), Step::Finished));
    let state = campaign.get_snapshot();
    assert_eq!(
        summary(&state),
        (CampaignStatus::Stopped, 1, 3, "Envio interrompido pelo usuário.".to_string(), None)
    );
    assert_eq!(campaign.outcomes().len(), 1);
    assert_eq!(campaign.outcomes()[0].contact.name, "Ana");
    assert!(matches!(campaign.next_step(), Step::Finished));
    assert_eq!(campaign.record_send(SendResult::Sent), Err(CampaignError::InvalidState));
    assert_eq!(campaign.outcomes().len(), 1);
    assert_eq!(campaign.get_snapshot().current_index, 1);
}

#[test]
fn stop_during_a_send_takes_effect_behind_it() {
    let mut campaign = sending(three_contacts(), 5);
    let _ = expect_send(campaign.next_step());
    campaign.stop();
    assert_eq!(campaign.get_snapshot().status, CampaignStatus::Sending);
    assert_eq!(campaign.record_send(SendResult::Sent), Ok(Some(5)));
    assert_eq!(campaign.get_snapshot().status, CampaignStatus::Sending);
    assert!(matches!(campaign.next_step(), Step::Finished));
    let state = campaign.get_snapshot();
    assert_eq!(state.status, CampaignStatus::Stopped);
    assert_eq!(state.current_index, 1);
}

#[test]
fn stop_behind_the_last_contact_changes_nothing() {
    let mut campaign = sending(vec![contact("Ana", "1")], 0);
    let _ = expect_send(campaign.next_step());
    assert_eq!(campaign.record_send(SendResult::Sent), Ok(None));
    campaign.stop();
    campaign.stop();
    assert!(!campaign.is_stop_requested());
    assert!(matches!(campaign.next_step(), Step::Finished));
    assert_eq!(campaign.get_snapshot().status, CampaignStatus::Completed);
}

#[test]
fn stop_before_a_campaign_changes_nothing() {
    let mut campaign = orchestrator();
    campaign.stop();
    assert!(!campaign.is_stop_requested());
    assert_eq!(campaign.get_snapshot().status, CampaignStatus::Idle);
    assert_eq!(campaign.start(three_contacts(), "Hi", 0), Ok(()));
    assert!(matches!(campaign.next_step(), Step::InitializeChannel));
}

#[test]
fn stop_while_the_channel_comes_up() {
    let mut campaign = orchestrator();
    assert_eq!(campaign.start(three_contacts(), "Hi", 0), Ok(()));
    campaign.stop();
    assert!(matches!(campaign.next_step(), Step::Finished));
    let state = campaign.get_snapshot();
    assert_eq!(state.status, CampaignStatus::Stopped);
    assert_eq!(state.current_index, 0);
    assert!(campaign.outcomes().is_empty());
}

#[test]
fn stop_is_idempotent() {
    let mut campaign = sending(three_contacts(), 0);
    campaign.stop();
    campaign.stop();
    assert!(campaign.is_stop_requested());
    assert!(matches!(campaign.next_step(), Step::Finished));
    campaign.stop();
    assert_eq!(campaign.get_snapshot().status, CampaignStatus::Stopped);
}

#[test]
fn second_start_is_refused_and_changes_nothing() {
    let mut campaign = orchestrator();
    assert_eq!(campaign.start(three_contacts(), "Hi {name}", 3), Ok(()));
    let before = summary(&campaign.get_snapshot());
    assert_eq!(
        campaign.start(vec![contact("Zed", "9")], "Other {name}", 7),
        Err(CampaignError::InvalidState)
    );
    assert_eq!(summary(&campaign.get_snapshot()), before);
    assert_eq!(campaign.channel_initialized(Ok(())), Ok(()));
    assert_eq!(campaign.channel_ready(Ok(())), Ok(()));
    assert_eq!(
        campaign.start(vec![contact("Zed", "9")], "Other {name}", 7),
        Err(CampaignError::InvalidState)
    );
    let (index, phone, message) = expect_send(campaign.next_step());
    assert_eq!((index, phone.as_str(), message.as_str()), (0, "+5511988887777", "Hi Ana"));
    assert_eq!(campaign.record_send(SendResult::Sent), Ok(Some(3)));
    assert_eq!(campaign.get_snapshot().total, 3);
}

#[test]
fn start_is_refused_behind_the_end_too() {
    let mut campaign = sending(vec![contact("Ana", "1")], 0);
    let _ = expect_send(campaign.next_step());
    assert_eq!(campaign.record_send(SendResult::Sent), Ok(None));
    assert_eq!(campaign.start(three_contacts(), "Hi", 0), Err(CampaignError::InvalidState));
    assert_eq!(campaign.start(Vec::new(), "", 0), Err(CampaignError::InvalidState));
}

#[test]
fn start_needs_a_contact() {
    let mut campaign = orchestrator();
    assert_eq!(
        campaign.start(Vec::new(), "Hi {name}", 0),
        Err(CampaignError::Validation(ValidationError::EmptyCampaign))
    );
    assert_eq!(campaign.get_snapshot().status, CampaignStatus::Idle);
    assert_eq!(campaign.start(three_contacts(), "Hi {name}", 0), Ok(()));
}

#[test]
fn start_needs_a_template() {
    let mut campaign = orchestrator();
    assert_eq!(
        campaign.start(three_contacts(), "", 0),
        Err(CampaignError::Validation(ValidationError::EmptyTemplate))
    );
    assert_eq!(
        campaign.start(Vec::new(), "", 0),
        Err(CampaignError::Validation(ValidationError::EmptyCampaign))
    );
    assert_eq!(
        summary(&campaign.get_snapshot()),
        (CampaignStatus::Idle, 0, 0, "Pronto para iniciar.".to_string(), None)
    );
}

#[test]
fn failed_send_is_recorded_and_the_run_goes_on() {
    let mut campaign = sending(three_contacts(), 0);
    let mut attempted = Vec::new();
    loop {
        match campaign.next_step() {
            Step::Send { index, .. } => {
                attempted.push(index);
                let result = if index == 1 {
                    SendResult::Failed("no such number".to_string())
                } else {
                    SendResult::Sent
                };
                assert!(campaign.record_send(result).is_ok());
            }
            Step::Finished => break,
            other => panic!("unexpected step {:?}", other),
        }
    }
    assert_eq!(attempted, vec![0, 1, 2]);
    let state = campaign.get_snapshot();
    assert_eq!(state.status, CampaignStatus::Completed);
    assert_eq!(state.last_error, None);
    let outcomes = campaign.outcomes();
    assert_eq!(outcomes.len(), 3);
    assert!(matches!(outcomes[0].result, SendResult::Sent));
    assert!(matches!(&outcomes[1].result, SendResult::Failed(reason) if reason == "no such number"));
    assert!(matches!(outcomes[2].result, SendResult::Sent));
    assert_eq!(outcomes[1].contact.name, "Bia");
    assert_eq!(outcomes[1].rendered_message, "Hi Bia");
}

#[test]
fn skipped_send_is_recorded_as_skipped() {
    let mut campaign = sending(vec![contact("Ana", "1"), contact("Bia", "2")], 4);
    let _ = expect_send(campaign.next_step());
    assert_eq!(campaign.record_send(SendResult::Skipped), Ok(Some(4)));
    assert!(matches!(campaign.outcomes()[0].result, SendResult::Skipped));
    assert_eq!(campaign.get_snapshot().current_index, 1);
}

#[test]
fn channel_that_does_not_come_up_fails_the_campaign() {
    let mut campaign = orchestrator();
    assert_eq!(campaign.start(three_contacts(), "Hi", 0), Ok(()));
    assert_eq!(campaign.channel_initialized(Err("no driver".to_string())), Ok(()));
    assert_eq!(
        summary(&campaign.get_snapshot()),
        (CampaignStatus::Failed, 0, 3, "no driver".to_string(), Some("no driver".to_string()))
    );
    assert!(matches!(campaign.next_step(), Step::Finished));
    assert_eq!(campaign.channel_ready(Ok(())), Err(CampaignError::InvalidState));
    assert_eq!(campaign.channel_initialized(Ok(())), Err(CampaignError::InvalidState));
    assert_eq!(campaign.get_snapshot().status, CampaignStatus::Failed);
    assert!(campaign.outcomes().is_empty());
}

#[test]
fn readiness_timeout_fails_the_campaign() {
    let mut campaign = orchestrator();
    assert_eq!(campaign.start(three_contacts(), "Hi", 0), Ok(()));
    assert_eq!(campaign.channel_initialized(Ok(())), Ok(()));
    assert_eq!(
        campaign.get_snapshot().status_message,
        "Aguardando login no WhatsApp Web...\nPor favor, escaneie o código QR."
    );
    assert_eq!(campaign.channel_ready(Err("timed out".to_string())), Ok(()));
    let state = campaign.get_snapshot();
    assert_eq!(state.status, CampaignStatus::Failed);
    assert_eq!(state.last_error, Some("timed out".to_string()));
    assert_eq!(state.progress(), (0, 3));
    campaign.stop();
    assert!(!campaign.is_stop_requested());
}

#[test]
fn reports_out_of_turn_are_refused() {
    let mut campaign = orchestrator();
    assert_eq!(campaign.channel_initialized(Ok(())), Err(CampaignError::InvalidState));
    assert_eq!(campaign.channel_ready(Ok(())), Err(CampaignError::InvalidState));
    assert_eq!(campaign.record_send(SendResult::Sent), Err(CampaignError::InvalidState));
    assert!(matches!(campaign.next_step(), Step::Finished));
    assert_eq!(campaign.get_snapshot().status, CampaignStatus::Idle);
    assert_eq!(campaign.start(three_contacts(), "Hi", 0), Ok(()));
    assert_eq!(campaign.channel_ready(Ok(())), Err(CampaignError::InvalidState));
    assert_eq!(campaign.record_send(SendResult::Sent), Err(CampaignError::InvalidState));
    assert_eq!(campaign.get_snapshot().status, CampaignStatus::Initializing);
}

#[test]
fn result_without_a_send_on_its_way_is_refused() {
    let mut campaign = sending(three_contacts(), 0);
    assert_eq!(campaign.record_send(SendResult::Sent), Err(CampaignError::InvalidState));
    assert_eq!(campaign.get_snapshot().current_index, 0);
    let _ = expect_send(campaign.next_step());
    assert_eq!(campaign.record_send(SendResult::Sent), Ok(Some(0)));
    assert_eq!(campaign.record_send(SendResult::Sent), Err(CampaignError::InvalidState));
    assert_eq!(campaign.get_snapshot().current_index, 1);
}

#[test]
fn status_message_follows_the_campaign() {
    let mut campaign = orchestrator();
    assert_eq!(campaign.start(three_contacts(), "Hi", 2), Ok(()));
    assert_eq!(campaign.get_snapshot().status_message, "Iniciando o navegador...");
    assert_eq!(campaign.channel_initialized(Ok(())), Ok(()));
    assert_eq!(campaign.channel_ready(Ok(())), Ok(()));
    assert_eq!(campaign.get_snapshot().status_message, "Enviando mensagens para 3 contatos...");
    let _ = expect_send(campaign.next_step());
    assert_eq!(campaign.get_snapshot().status_message, "Enviando para Ana (1/3)");
    assert_eq!(campaign.record_send(SendResult::Sent), Ok(Some(2)));
    let _ = expect_send(campaign.next_step());
    assert_eq!(campaign.get_snapshot().status_message, "Enviando para Bia (2/3)");
}

#[test]
fn progress_is_the_share_of_contacts_attempted() {
    let mut campaign = sending(three_contacts(), 0);
    assert_eq!(campaign.get_snapshot().progress(), (0, 3));
    let _ = expect_send(campaign.next_step());
    assert_eq!(campaign.get_snapshot().progress(), (0, 3));
    assert!(campaign.record_send(SendResult::Sent).is_ok());
    assert_eq!(campaign.get_snapshot().progress(), (1, 3));
    let _ = expect_send(campaign.next_step());
    assert!(campaign.record_send(SendResult::Sent).is_ok());
    assert_eq!(campaign.get_snapshot().progress(), (2, 3));
}

#[test]
fn snapshot_is_a_copy() {
    let mut campaign = sending(three_contacts(), 0);
    let mut snapshot = campaign.get_snapshot();
    snapshot.current_index = 99;
    snapshot.status = CampaignStatus::Failed;
    snapshot.status_message.push_str("!");
    assert_eq!(campaign.get_snapshot().current_index, 0);
    assert_eq!(campaign.get_snapshot().status, CampaignStatus::Sending);
    let (index, _, _) = expect_send(campaign.next_step());
    assert_eq!(index, 0);
    let copy = snapshot.clone();
    assert_eq!(summary(&copy), summary(&snapshot));
}

#[test]
fn orchestrator_uses_the_configured_phone_rules() {
    let mut campaign = SendOrchestrator::new(&CampaignConfig {
        delay_seconds: 1,
        default_country_code: "+351".to_string(),
        national_digits: 9,
        readiness_timeout_seconds: 15,
    });
    assert_eq!(campaign.start(vec![contact("Ana", "912 345 678")], "Olá {nome}!", 1), Ok(()));
    assert_eq!(campaign.channel_initialized(Ok(())), Ok(()));
    assert!(matches!(campaign.next_step(), Step::AwaitReady { timeout_seconds: 15 }));
    assert_eq!(campaign.channel_ready(Ok(())), Ok(()));
    let (_, phone, message) = expect_send(campaign.next_step());
    assert_eq!(phone, "+351912345678");
    assert_eq!(message, "Olá Ana!");
}

#[test]
fn config_is_valid_from_one_second_on() {
    let mut options = config();
    assert!(!options.is_valid());
    options.delay_seconds = 1;
    assert!(options.is_valid());
    options.readiness_timeout_seconds = 0;
    assert!(!options.is_valid());
}

#[test]
fn start_refuses_a_phone_without_a_digit() {
    let mut campaign = orchestrator();
    let contacts = vec![contact("Ana", "1"), contact("Bia", "abc"), contact("Cid", "+-()")];
    assert_eq!(
        campaign.start(contacts, "Hi {name}", 0),
        Err(CampaignError::Validation(ValidationError::MalformedPhone(1)))
    );
    assert_eq!(
        summary(&campaign.get_snapshot()),
        (CampaignStatus::Idle, 0, 0, "Pronto para iniciar.".to_string(), None)
    );
    assert_eq!(
        campaign.start(vec![contact("Ana", "")], "", 0),
        Err(CampaignError::Validation(ValidationError::EmptyTemplate))
    );
    assert_eq!(
        campaign.start(vec![contact("Ana", "")], "Hi", 0),
        Err(CampaignError::Validation(ValidationError::MalformedPhone(0)))
    );
    assert_eq!(campaign.start(three_contacts(), "Hi {name}", 0), Ok(()));
}

#[test]
fn first_malformed_finds_the_first_phone_without_a_digit() {
    assert_eq!(first_malformed(&Vec::new()), None);
    assert_eq!(first_malformed(&three_contacts()), None);
    assert_eq!(
        first_malformed(&vec![contact("a", "x1"), contact("b", "+"), contact("c", "")]),
        Some(1)
    );
    assert_eq!(first_malformed(&vec![contact("a", "١٢٣")]), Some(0));
}

#[test]
fn status_is_active_between_start_and_end() {
    let active = [
        CampaignStatus::Initializing,
        CampaignStatus::AwaitingChannelReady,
        CampaignStatus::Sending,
    ];
    let ended = [CampaignStatus::Completed, CampaignStatus::Stopped, CampaignStatus::Failed];
    for status in active {
        assert!(status.is_active());
        assert!(!status.is_terminal());
    }
    for status in ended {
        assert!(!status.is_active());
        assert!(status.is_terminal());
    }
    assert!(!CampaignStatus::Idle.is_active());
    assert!(!CampaignStatus::Idle.is_terminal());
}
