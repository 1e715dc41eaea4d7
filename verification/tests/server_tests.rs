use lilap::server::{Action, Event, Phase, ServerFactory, ServerState, POLL_INTERVAL_MS};

#[test]
fn loop_circles_through_its_phases() {
    let mut phase = Phase::start();
    assert_eq!(phase, Phase::Checking);
    assert_eq!(phase.action(), Action::Check);
    phase = phase.advance(Event::Checked { token: false });
    assert_eq!(phase, Phase::Serving);
    assert_eq!(phase.action(), Action::Serve);
    phase = phase.advance(Event::Served);
    assert_eq!(phase, Phase::Pausing);
    assert_eq!(phase.action(), Action::Sleep(10));
    phase = phase.advance(Event::Slept);
    assert_eq!(phase, Phase::Checking);
}

#[test]
fn poll_interval_is_ten_milliseconds() {
    assert_eq!(POLL_INTERVAL_MS, 10);
}

#[test]
fn token_stops_the_loop_within_one_interval() {
    for start in [Phase::Checking, Phase::Serving, Phase::Pausing] {
        let mut phase = start;
        let mut slept = 0;
        let mut steps = 0;
        while phase != Phase::Stopped {
            let event = match phase.action() {
                Action::Check => Event::Checked { token: true },
                Action::Serve => Event::Served,
                Action::Sleep(ms) => {
                    slept += ms;
                    Event::Slept
                }
                Action::Exit => unreachable!(),
            };
            phase = phase.advance(event);
            steps += 1;
            assert!(steps <= 3);
        }
        assert!(slept <= POLL_INTERVAL_MS);
        assert_eq!(phase.action(), Action::Exit);
    }
}

#[test]
fn only_a_token_stops_the_loop() {
    for phase in [Phase::Checking, Phase::Serving, Phase::Pausing] {
        for event in [Event::Checked { token: false }, Event::Served, Event::Slept] {
            assert_ne!(phase.advance(event), Phase::Stopped);
        }
    }
    assert_eq!(Phase::Serving.advance(Event::Checked { token: true }), Phase::Serving);
    assert_eq!(Phase::Pausing.advance(Event::Checked { token: true }), Phase::Pausing);
    assert_eq!(Phase::Checking.advance(Event::Checked { token: true }), Phase::Stopped);
}

#[test]
fn second_stop_changes_nothing() {
    let stopped = Phase::Checking.advance(Event::Checked { token: true });
    for event in [
        Event::Checked { token: true },
        Event::Checked { token: false },
        Event::Served,
        Event::Slept,
    ] {
        assert_eq!(stopped.advance(event), Phase::Stopped);
    }
    assert_eq!(stopped.action(), Action::Exit);
}

#[test]
fn events_out_of_turn_are_ignored() {
    assert_eq!(Phase::Checking.advance(Event::Served), Phase::Checking);
    assert_eq!(Phase::Checking.advance(Event::Slept), Phase::Checking);
    assert_eq!(Phase::Serving.advance(Event::Slept), Phase::Serving);
    assert_eq!(Phase::Pausing.advance(Event::Served), Phase::Pausing);
}

#[test]
fn registry_hands_out_each_handle_once() {
    let mut factory: ServerFactory<u32> = ServerFactory::new();
    assert_eq!(factory.len(), 0);
    factory.register(11);
    factory.register(22);
    factory.register(33);
    assert_eq!(factory.len(), 3);
    assert_eq!(factory.drain(), vec![11, 22, 33]);
    assert_eq!(factory.len(), 0);
    assert_eq!(factory.drain(), Vec::<u32>::new());
    factory.register(44);
    assert_eq!(factory.drain(), vec![44]);
}

#[test]
fn state_carries_its_label() {
    assert_eq!(ServerState::labelled("dhcp").prefix, "dhcp");
}
