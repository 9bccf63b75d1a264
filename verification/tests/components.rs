use livedraw::{plot_update_body, Input, PenTravelMetadata, PlotUpdateAction, RetryDecision,
    RetryPolicy};
use livedraw::plotdata::plot_make_new_plotdata;

#[test]
fn input_compared_by_value() {
    let a = Input::new(String::from("{\"value\":1}"));
    let b = Input::new(String::from("{\"value\":1}"));
    let c = Input::new(String::from("{\"value\":2}"));
    assert!(a.same_as(&b));
    assert!(b.same_as(&a));
    assert!(!a.same_as(&c));
}

#[test]
fn body_of_plain_events() {
    assert_eq!(plot_update_body(&PlotUpdateAction::PlotArtStart), "{\"type\":\"art-start\"}");
    assert_eq!(plot_update_body(&PlotUpdateAction::PlotArtStop), "{\"type\":\"art-stop\"}");
    assert_eq!(
        plot_update_body(&PlotUpdateAction::PlotPredictiveWritten),
        "{\"type\":\"predictive\"}"
    );
}

#[test]
fn body_of_indexed_events() {
    assert_eq!(
        plot_update_body(&PlotUpdateAction::PlotIncrPrepare(3, 10)),
        "{\"type\":\"incr-prepare\",\"index\":3,\"total\":10}"
    );
    assert_eq!(
        plot_update_body(&PlotUpdateAction::PlotIncrStart(0)),
        "{\"type\":\"incr-start\",\"index\":0}"
    );
    assert_eq!(
        plot_update_body(&PlotUpdateAction::PlotIncrEnd(12)),
        "{\"type\":\"incr-end\",\"index\":12}"
    );
}

#[test]
fn body_of_countdown_pause() {
    // a whole number of seconds carries no fraction
    assert_eq!(
        plot_update_body(&PlotUpdateAction::PlotArtCountdownPause(String::from("Get ready"),
            10_000)),
        "{\"type\":\"art-countdown-pause\",\"text\":\"Get ready\",\"duration\":10}"
    );
    // fractional milliseconds are rendered with trailing zeros trimmed
    assert_eq!(
        plot_update_body(&PlotUpdateAction::PlotArtCountdownPause(String::from("t"), 1_500)),
        "{\"type\":\"art-countdown-pause\",\"text\":\"t\",\"duration\":1.5}"
    );
    assert_eq!(
        plot_update_body(&PlotUpdateAction::PlotArtCountdownPause(String::from("t"), 2_050)),
        "{\"type\":\"art-countdown-pause\",\"text\":\"t\",\"duration\":2.05}"
    );
    assert_eq!(
        plot_update_body(&PlotUpdateAction::PlotArtCountdownPause(String::from("t"), 125)),
        "{\"type\":\"art-countdown-pause\",\"text\":\"t\",\"duration\":0.125}"
    );
}

#[test]
fn body_escapes_message_text() {
    assert_eq!(
        plot_update_body(&PlotUpdateAction::PlotArtChatMessage(String::from("he said \"hi\\\"\n"))),
        "{\"type\":\"chat-message\",\"text\":\"he said \\\"hi\\\\\\\"\\n\"}"
    );
    // a bare control character is escaped numerically
    assert_eq!(
        plot_update_body(&PlotUpdateAction::PlotArtChatMessage(String::from("a\u{1f}b"))),
        "{\"type\":\"chat-message\",\"text\":\"a\\u001fb\"}"
    );
}

#[test]
fn plotdata_reset_for_fresh_artifact() {
    let carried = PenTravelMetadata {
        attrs: vec![
            (String::from("layer"), String::from("3")),
            (String::from("pause_dist"), String::from("120.5")),
            (String::from("speed"), String::from("fast")),
            (String::from("pause_ref"), String::from("7")),
        ],
    };
    let fresh = plot_make_new_plotdata(&carried);
    assert_eq!(
        fresh.attrs,
        vec![
            (String::from("speed"), String::from("fast")),
            (String::from("layer"), String::from("-1")),
            (String::from("pause_dist"), String::from("0")),
            (String::from("pause_ref"), String::from("0")),
        ]
    );
}

#[test]
fn retry_policy_decisions() {
    let forever = RetryPolicy::forever();
    assert_eq!(forever.decide(true, 0), RetryDecision::Accept);
    assert_eq!(forever.decide(false, 0), RetryDecision::RetryAfter(500));
    assert_eq!(forever.decide(false, 1_000_000), RetryDecision::RetryAfter(500));

    let bounded = RetryPolicy { interval_ms: 100, max_attempts: Some(3) };
    assert_eq!(bounded.decide(false, 1), RetryDecision::RetryAfter(100));
    assert_eq!(bounded.decide(false, 3), RetryDecision::GiveUp);
    assert_eq!(bounded.decide(true, 3), RetryDecision::Accept);
}
