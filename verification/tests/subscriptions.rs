use event_relay::event::AppState;
use event_relay::subscription::{advance, delivery_of, Action, Delivery, Phase, Subscription};
use tokio::sync::broadcast::error::RecvError;

fn fresh() -> Subscription<String> {
    let state: AppState<String> = AppState::new();
    state.subscribe()
}

fn forwarded(action: Action<String>) -> Option<String> {
    match action {
        Action::Forward(event) => Some(event),
        Action::Finish => None,
    }
}

#[test]
fn a_new_subscription_is_connected() {
    let subscription = fresh();
    assert_eq!(subscription.phase(), Phase::Connected);
    assert!(!subscription.phase().is_terminal());
}

#[test]
fn ends_are_closed_and_lagged() {
    assert!(!Phase::Connected.is_terminal());
    assert!(!Phase::Streaming.is_terminal());
    assert!(Phase::Closed.is_terminal());
    assert!(Phase::Lagged.is_terminal());
}

#[test]
fn an_event_is_forwarded_and_the_stream_goes_on() {
    for phase in [Phase::Connected, Phase::Streaming] {
        let (next, action) = advance(phase, Delivery::Event("a".to_string()));
        assert_eq!(next, Phase::Streaming);
        assert_eq!(forwarded(action), Some("a".to_string()));
    }
}

#[test]
fn a_lag_ends_the_stream() {
    for phase in [Phase::Connected, Phase::Streaming] {
        let (next, action) = advance(phase, Delivery::<String>::Lagged(3));
        assert_eq!(next, Phase::Lagged);
        assert_eq!(forwarded(action), None);
    }
}

#[test]
fn a_closed_topic_ends_the_stream() {
    for phase in [Phase::Connected, Phase::Streaming] {
        let (next, action) = advance(phase, Delivery::<String>::Closed);
        assert_eq!(next, Phase::Closed);
        assert_eq!(forwarded(action), None);
    }
}

#[test]
fn an_ended_stream_stays_ended() {
    for phase in [Phase::Closed, Phase::Lagged] {
        let (next, action) = advance(phase, Delivery::Event("a".to_string()));
        assert_eq!(next, phase);
        assert_eq!(forwarded(action), None);
        let (next, action) = advance(phase, Delivery::<String>::Lagged(1));
        assert_eq!(next, phase);
        assert_eq!(forwarded(action), None);
        let (next, action) = advance(phase, Delivery::<String>::Closed);
        assert_eq!(next, phase);
        assert_eq!(forwarded(action), None);
    }
}

#[test]
fn results_of_the_channel_are_read_as_deliveries() {
    assert!(matches!(
        delivery_of(Ok::<String, RecvError>("a".to_string())),
        Delivery::Event(event) if event == "a"
    ));
    assert!(matches!(delivery_of::<String>(Err(RecvError::Lagged(7))), Delivery::Lagged(7)));
    assert!(matches!(delivery_of::<String>(Err(RecvError::Closed)), Delivery::Closed));
}

#[test]
fn events_are_forwarded_in_order_until_the_first_failure() {
    let mut subscription = fresh();
    assert_eq!(
        forwarded(subscription.on_delivery(Delivery::Event("a".to_string()))),
        Some("a".to_string())
    );
    assert_eq!(subscription.phase(), Phase::Streaming);
    assert_eq!(
        forwarded(subscription.on_delivery(Delivery::Event("b".to_string()))),
        Some("b".to_string())
    );
    assert_eq!(subscription.phase(), Phase::Streaming);
    assert_eq!(forwarded(subscription.on_delivery(Delivery::Lagged(2))), None);
    assert_eq!(subscription.phase(), Phase::Lagged);
    assert_eq!(forwarded(subscription.on_delivery(Delivery::Event("c".to_string()))), None);
    assert_eq!(subscription.phase(), Phase::Lagged);
    assert_eq!(forwarded(subscription.on_delivery(Delivery::Closed)), None);
    assert_eq!(subscription.phase(), Phase::Lagged);
}

#[test]
fn an_error_of_the_channel_ends_the_stream() {
    let mut lagged = fresh();
    assert_eq!(forwarded(lagged.on_recv(Err(RecvError::Lagged(9)))), None);
    assert_eq!(lagged.phase(), Phase::Lagged);
    assert_eq!(forwarded(lagged.on_recv(Ok("late".to_string()))), None);
    assert_eq!(lagged.phase(), Phase::Lagged);

    let mut closed = fresh();
    assert_eq!(forwarded(closed.on_recv(Ok("first".to_string()))), Some("first".to_string()));
    assert_eq!(forwarded(closed.on_recv(Err(RecvError::Closed))), None);
    assert_eq!(closed.phase(), Phase::Closed);
    assert_eq!(forwarded(closed.on_recv(Ok("late".to_string()))), None);
    assert_eq!(closed.phase(), Phase::Closed);
}

#[test]
fn a_client_that_goes_away_closes_its_subscription() {
    let mut subscription = fresh();
    subscription.disconnect();
    assert_eq!(subscription.phase(), Phase::Closed);
    assert_eq!(forwarded(subscription.on_delivery(Delivery::Event("a".to_string()))), None);

    let mut streaming = fresh();
    streaming.on_delivery(Delivery::Event("a".to_string()));
    streaming.disconnect();
    assert_eq!(streaming.phase(), Phase::Closed);
}

#[test]
fn going_away_after_a_lag_leaves_the_lag() {
    let mut subscription = fresh();
    subscription.on_delivery(Delivery::Lagged(1));
    subscription.disconnect();
    assert_eq!(subscription.phase(), Phase::Lagged);
}
