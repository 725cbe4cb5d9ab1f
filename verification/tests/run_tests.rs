use loadgen::config::Config;
use loadgen::run::{
    build_runner_label, error_events, error_sleep_ms, runner_specs, span_tree, txn_events,
    txn_sleep_us, Role,
};
use loadgen::text::u64_dec;

#[test]
fn decimal_rendering_exact() {
    assert_eq!(u64_dec(0), "0");
    assert_eq!(u64_dec(7), "7");
    assert_eq!(u64_dec(10), "10");
    assert_eq!(u64_dec(40302), "40302");
    assert_eq!(u64_dec(u64::MAX), "18446744073709551615");
}

#[test]
fn three_errors_zero_delay() {
    let events = error_events("err_0_1", 3, 0);
    assert_eq!(events.len(), 3);
    for (i, ev) in events.iter().enumerate() {
        assert_eq!(ev.seq as usize, i);
        assert_eq!(ev.sleep_ms, 0);
    }
    assert_eq!(
        events[0].message,
        "Sentry error testing: name = err_0_1, seq = seq_0, sleep = 0"
    );
    assert_eq!(
        events[1].message,
        "Sentry error testing: name = err_0_1, seq = seq_1, sleep = 0"
    );
    assert_eq!(
        events[2].message,
        "Sentry error testing: name = err_0_1, seq = seq_2, sleep = 0"
    );
}

#[test]
fn zero_transactions_zero_delay() {
    let events = txn_events("txn_0_1", 0, 0);
    assert!(events.is_empty());
}

#[test]
fn error_sleeps_stay_under_bound() {
    for _ in 0..100 {
        let ms = error_sleep_ms(1);
        assert!(ms < 1000);
    }
    assert_eq!(error_sleep_ms(0), 0);
}

#[test]
fn txn_sleeps_stay_under_bound() {
    for _ in 0..100 {
        let us = txn_sleep_us(1);
        assert!(us < 100000);
    }
    assert_eq!(txn_sleep_us(0), 0);
}

#[test]
fn error_events_sleeps_bounded() {
    let events = error_events("err_0_1", 50, 3);
    assert_eq!(events.len(), 50);
    for ev in &events {
        assert!(ev.sleep_ms < 3000);
    }
}

#[test]
fn txn_events_fixed_span_shape() {
    let events = txn_events("txn_0_1", 2, 0);
    assert_eq!(events.len(), 2);
    for (i, ev) in events.iter().enumerate() {
        assert_eq!(ev.seq as usize, i);
        assert_eq!(ev.sleep_us, 0);
        assert!(ev.depth < 2);
        assert_eq!(ev.spans.len(), 3);
        assert_eq!(ev.spans[0].level, 0);
        assert_eq!(ev.spans[1].level, 1);
        assert_eq!(ev.spans[1].label, "tx level = 1");
        assert_eq!(ev.spans[2].level, 2);
        assert_eq!(ev.spans[2].label, "tx level = 2");
    }
    assert_eq!(
        events[0].spans[0].label,
        "tx: name = txn_0_1, seq = seq_0, sleep = 0, level = 0"
    );
    assert_eq!(
        events[1].spans[0].label,
        "tx: name = txn_0_1, seq = seq_1, sleep = 0, level = 0"
    );
}

#[test]
fn txn_events_sleeps_bounded() {
    let events = txn_events("txn_0_1", 50, 2);
    assert_eq!(events.len(), 50);
    for ev in &events {
        assert!(ev.sleep_us < 200000);
        assert!(ev.depth < 2);
        assert_eq!(ev.spans.len(), 3);
    }
}

#[test]
fn span_tree_shapes_by_depth() {
    let t0 = span_tree("root".to_string(), 0);
    assert_eq!(t0.len(), 3);
    assert_eq!(t0[0].label, "root");
    let t1 = span_tree("root".to_string(), 1);
    assert_eq!(t1.len(), 3);
    let t2 = span_tree("root".to_string(), 2);
    assert_eq!(t2.len(), 4);
    assert_eq!(t2[3].level, 3);
    assert_eq!(t2[3].label, "tx level = 3");
}

#[test]
fn runner_labels() {
    assert_eq!(build_runner_label(Role::Error, 0, 1), "err_0_1");
    assert_eq!(build_runner_label(Role::Transaction, 5, 12345), "txn_5_12345");
}

#[test]
fn two_runners_make_four_units() {
    let cfg = Config {
        dsn: "dsn".to_string(),
        runners: 2,
        errors: 7,
        transactions: 9,
        delay: 3,
    };
    let specs = runner_specs(&cfg, 77);
    assert_eq!(specs.len(), 4);

    assert!(matches!(specs[0].role, Role::Error));
    assert_eq!(specs[0].index, 0);
    assert_eq!(specs[0].label, "err_0_77");
    assert_eq!(specs[0].count, 7);
    assert_eq!(specs[0].delay, 3);

    assert!(matches!(specs[1].role, Role::Transaction));
    assert_eq!(specs[1].index, 0);
    assert_eq!(specs[1].label, "txn_0_77");
    assert_eq!(specs[1].count, 9);
    assert_eq!(specs[1].delay, 3);

    assert!(matches!(specs[2].role, Role::Error));
    assert_eq!(specs[2].index, 1);
    assert_eq!(specs[2].label, "err_1_77");

    assert!(matches!(specs[3].role, Role::Transaction));
    assert_eq!(specs[3].index, 1);
    assert_eq!(specs[3].label, "txn_1_77");
}

#[test]
fn unit_count_is_twice_runner_count() {
    for runners in [0u32, 1, 3, 10] {
        let cfg = Config {
            dsn: "dsn".to_string(),
            runners,
            errors: 1,
            transactions: 1,
            delay: 0,
        };
        let specs = runner_specs(&cfg, 1);
        assert_eq!(specs.len(), 2 * runners as usize);
    }
}

#[test]
fn zero_runners_make_no_units() {
    let cfg = Config {
        dsn: "dsn".to_string(),
        runners: 0,
        errors: 2,
        transactions: 5,
        delay: 2,
    };
    assert!(runner_specs(&cfg, 1).is_empty());
}
