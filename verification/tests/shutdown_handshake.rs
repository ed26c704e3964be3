use asset_service::shutdown::ShutdownToken;

#[test]
fn fresh_token_is_not_cancelled() {
    let token = ShutdownToken::new();
    assert!(!token.is_cancelled());
    let observer = token.observer();
    assert!(!observer.is_resolved(&token));
}

#[test]
fn cancel_resolves_every_observer() {
    let mut token = ShutdownToken::new();
    let early = token.observer();
    token.cancel();
    assert!(token.is_cancelled());
    assert!(early.is_resolved(&token));
    let late = token.observer();
    assert!(late.is_resolved(&token));
}

#[test]
fn second_cancel_is_a_noop() {
    let mut token = ShutdownToken::new();
    token.cancel();
    token.cancel();
    assert!(token.is_cancelled());
    let observer = token.observer();
    assert!(observer.is_resolved(&token));
}

#[test]
fn cancel_fires_the_runtime_signal_of_an_existing_observer() {
    let mut token = ShutdownToken::new();
    let observer = token.observer();
    let signal = observer.into_signal();
    assert!(!signal.is_cancelled());
    token.cancel();
    assert!(signal.is_cancelled());
}

#[test]
fn cancel_wakes_a_task_waiting_on_an_observer() {
    let rt = tokio::runtime::Runtime::new().unwrap();
    rt.block_on(async {
        let mut token = ShutdownToken::new();
        let observer = token.observer();
        let waiter = tokio::spawn(async move {
            observer.into_signal().cancelled_owned().await;
            true
        });
        tokio::task::yield_now().await;
        token.cancel();
        assert!(waiter.await.unwrap());
    });
}

#[test]
fn observer_taken_after_cancel_is_already_fired() {
    let mut token = ShutdownToken::new();
    token.cancel();
    let signal = token.observer().into_signal();
    assert!(signal.is_cancelled());
}
