use std::time::Duration;

use actix_send::builder::{Builder, Config, SpawnPlan};

#[test]
fn default_config() {
    let c = Config::default();
    assert_eq!(c.num, 1);
    assert!(!c.restart_on_err);
    assert!(!c.handle_delayed_on_shutdown);
    assert!(!c.allow_broadcast);
    assert!(!c.allow_subscribe);
    assert_eq!(c.timeout, Duration::from_secs(10));
}

#[test]
fn builder_settings() {
    let b = Builder::new(7u8)
        .num(8)
        .handle_delayed_on_shutdown()
        .restart_on_err()
        .timeout(Duration::from_millis(250))
        .allow_broadcast()
        .allow_subscribe();
    assert_eq!(b.actor_builder, 7);
    assert_eq!(b.config.num, 8);
    assert!(b.config.restart_on_err);
    assert!(b.config.handle_delayed_on_shutdown);
    assert!(b.config.allow_broadcast);
    assert!(b.config.allow_subscribe);
    assert_eq!(b.config.timeout, Duration::from_millis(250));
}

#[test]
fn start_plans() {
    let b = Builder::new(()).num(3).allow_broadcast();
    let plan = b.start_plan();
    assert_eq!(
        plan,
        vec![
            SpawnPlan { id: 0, arbiter: 0, broadcast: Some(3) },
            SpawnPlan { id: 1, arbiter: 0, broadcast: Some(3) },
            SpawnPlan { id: 2, arbiter: 0, broadcast: Some(3) },
        ]
    );
    let single = Builder::new(()).start_plan();
    assert_eq!(single, vec![SpawnPlan { id: 0, arbiter: 0, broadcast: None }]);
}

#[test]
fn arbiter_plans() {
    let b = Builder::new(()).num(5);
    let plan = b.arbiter_plan(2, None);
    let arbiters: Vec<usize> = plan.iter().map(|p| p.arbiter).collect();
    assert_eq!(arbiters, vec![0, 1, 0, 1, 0]);
    assert!(plan.iter().all(|p| p.broadcast.is_none()));

    let b = Builder::new(()).allow_broadcast();
    let plan = b.arbiter_plan(4, Some(3));
    assert_eq!(plan, vec![SpawnPlan { id: 0, arbiter: 3, broadcast: Some(1) }]);

    let b = Builder::new(()).num(3).allow_broadcast();
    let plan = b.arbiter_plan(2, None);
    assert!(plan.iter().all(|p| p.broadcast == Some(3)));
}
