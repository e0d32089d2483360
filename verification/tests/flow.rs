use authflow::{Config, FlowEvent, FlowState, Session, Store};
use url::Url;

fn test_config() -> Config {
    Config::new(
        String::from("http://rpc.example.com"),
        String::from("http://broker.example.com"),
        String::from("rpc.example.com"),
        String::from("id"),
        String::from("cookies.json"),
    )
}

#[test]
fn cached_session_goes_straight_to_whoami() {
    let s = authflow::flow::step(
        FlowState::Start,
        FlowEvent::SessionChecked { found: true, token: String::from("sess42") },
    )
    .unwrap();
    assert!(matches!(s, FlowState::ReadyToWhoami { cached: true }));
}

#[test]
fn whoami_state_refuses_login_events() {
    let s = authflow::flow::step(
        FlowState::ReadyToWhoami { cached: true },
        FlowEvent::LoggedIn { resp: authflow::AuthResponse { session: String::from("x") } },
    );
    assert!(s.is_none());
}

#[test]
fn events_out_of_order_are_refused() {
    let confirmed = FlowEvent::Confirmed {
        resp: authflow::VerifyResponse { id_token: String::from("tok") },
    };
    assert!(authflow::flow::step(FlowState::Start, confirmed).is_none());
    let saved = FlowEvent::Saved;
    assert!(authflow::flow::step(FlowState::NeedsEmail, saved).is_none());
    let checked = FlowEvent::SessionChecked { found: false, token: String::new() };
    assert!(authflow::flow::step(FlowState::NeedsEmail, checked).is_none());
}

#[test]
fn finished_flow_accepts_nothing() {
    let s = authflow::flow::step(
        FlowState::Finished { email: Some(String::from("a@b.com")) },
        FlowEvent::Saved,
    );
    assert!(s.is_none());
}

#[test]
fn fresh_flow_threads_each_output_into_the_next_step() {
    let cfg = test_config();
    let rpc_url = Url::parse("http://rpc.example.com/").unwrap();

    // First run: nothing persisted yet.
    let mut jar = Store::load(None).unwrap();
    let (found, token) = Session::load(&jar, &cfg);
    assert!(!found);

    let mut state = authflow::flow::step(
        FlowState::Start,
        FlowEvent::SessionChecked { found, token },
    )
    .unwrap();
    assert!(matches!(state, FlowState::NeedsEmail));

    // Login: the stub's body decodes to the pending session.
    let auth = Session::login_response("{\"session\":\"abc123\"}").unwrap();
    state = authflow::flow::step(state, FlowEvent::LoggedIn { resp: auth }).unwrap();
    let pending = match &state {
        FlowState::AwaitCode { pending } => pending.clone(),
        other => panic!("expected AwaitCode, got {other:?}"),
    };
    assert_eq!(pending, "abc123");

    // Confirm: the broker's body decodes to the bearer credential.
    let confirm_req = Session::confirm_request(&cfg, &pending, "000000");
    assert_eq!(confirm_req.form[0].value, "abc123");
    let verify = Session::confirm_response("{\"id_token\":\"tok\"}").unwrap();
    state = authflow::flow::step(state, FlowEvent::Confirmed { resp: verify }).unwrap();
    let id_token = match &state {
        FlowState::ReadyToClaim { id_token } => id_token.clone(),
        other => panic!("expected ReadyToClaim, got {other:?}"),
    };
    assert_eq!(id_token, "tok");

    // Claim: the stub sets the session cookie and answers with plain text.
    let claim_req = Session::claim_request(&cfg, &id_token);
    assert_eq!(claim_req.form[0].value, "tok");
    jar.parse("id=sess42; Path=/", &rpc_url).unwrap();
    state = authflow::flow::step(
        state,
        FlowEvent::Claimed { body: String::from("sess42") },
    )
    .unwrap();
    assert!(matches!(state, FlowState::ReadyToSave { .. }));

    // Save before whoami.
    let bytes = Session::save(&jar).unwrap();
    state = authflow::flow::step(state, FlowEvent::Saved).unwrap();
    assert!(matches!(state, FlowState::ReadyToWhoami { cached: false }));

    // Whoami ends the run with the reported identity.
    let user = Session::whoami_response("{\"email\":\"a@b.com\"}").unwrap();
    state = authflow::flow::step(state, FlowEvent::Identified { user }).unwrap();
    match &state {
        FlowState::Finished { email } => assert_eq!(email.as_deref(), Some("a@b.com")),
        other => panic!("expected Finished, got {other:?}"),
    }

    // Second run: the saved file restores the session and short-circuits.
    let jar2 = Store::load(Some(&bytes)).unwrap();
    let (found2, token2) = Session::load(&jar2, &cfg);
    assert!(found2);
    assert_eq!(token2, "sess42");
    let s2 = authflow::flow::step(
        FlowState::Start,
        FlowEvent::SessionChecked { found: found2, token: token2 },
    )
    .unwrap();
    assert!(matches!(s2, FlowState::ReadyToWhoami { cached: true }));
}
