use devstudio::agents_plugin::{can_claim, consensus_met, task_priority_score, AgentRoleId, AgentsPluginLifecycle};
use devstudio::economy::{budget_sufficient, default_monthly_budget, estimate_cost_milli, throttle_delay_ms, EconomyPluginLifecycle, ModelTier};
use devstudio::gm::{intervention_score, recommend_action, scenario_seed, GmEventKind};
use devstudio::plugin::{agents_metadata, economy_metadata, gm_metadata, llm_free_metadata, world_metadata, FfPluginCtx};
use devstudio::world_plugin::{coords_for_path, voxel_kind_for_ext, VoxelPoint, WorldPluginLifecycle};

#[test]
fn cost_per_tier() {
    assert_eq!(estimate_cost_milli(0, 1000, 1000), 4);
    assert_eq!(estimate_cost_milli(1, 1000, 2000), 33);
    assert_eq!(estimate_cost_milli(2, 1000, 1000), 90);
    assert_eq!(estimate_cost_milli(7, 1000, 1000), 90);
    assert_eq!(estimate_cost_milli(0, 999, 0), 0);
}

#[test]
fn cost_saturates() {
    assert_eq!(estimate_cost_milli(2, u64::MAX, 0), u64::MAX / 1000);
    assert_eq!(estimate_cost_milli(2, u64::MAX, u64::MAX), (u64::MAX / 1000) * 2);
}

#[test]
fn cost_grows_with_tokens() {
    let small = estimate_cost_milli(1, 5_000, 1_000);
    let large = estimate_cost_milli(1, 50_000, 10_000);
    assert!(small <= large);
    assert_eq!(small, 15 + 15);
    assert_eq!(large, 150 + 150);
}

#[test]
fn budget_check() {
    assert_eq!(budget_sufficient(100, 100), 1);
    assert_eq!(budget_sufficient(99, 100), 0);
    assert_eq!(budget_sufficient(0, 0), 1);
}

#[test]
fn throttle_below_and_above_limit() {
    assert_eq!(throttle_delay_ms(5, 10), 0);
    assert_eq!(throttle_delay_ms(10, 10), 6_000);
    assert_eq!(throttle_delay_ms(12, 10), 24_000);
    assert_eq!(throttle_delay_ms(100, 10), 6_000 * 1024);
    assert_eq!(throttle_delay_ms(0, 0), 60_000);
    assert_eq!(throttle_delay_ms(70_000, 70_000), 0);
}

#[test]
fn throttle_grows_with_calls() {
    let mut last = 0;
    for calls in 0..40u32 {
        let d = throttle_delay_ms(calls, 20);
        assert!(d >= last);
        last = d;
    }
}

#[test]
fn monthly_budgets() {
    assert_eq!(default_monthly_budget(0), 10_000);
    assert_eq!(default_monthly_budget(1), 100_000);
    assert_eq!(default_monthly_budget(2), 500_000);
    assert_eq!(default_monthly_budget(9), 500_000);
}

#[test]
fn tier_codes() {
    assert_eq!(ModelTier::Small.code(), 0);
    assert_eq!(ModelTier::Medium.code(), 1);
    assert_eq!(ModelTier::Large.code(), 2);
    assert_eq!(ModelTier::Unknown.code(), 0xFF);
}

#[test]
fn intervention_scores() {
    assert_eq!(intervention_score(0, 0, 0), 0);
    assert_eq!(intervention_score(1, 1, 1), 60);
    assert_eq!(intervention_score(5, 3, 2), 100);
    assert_eq!(intervention_score(1, 0, 0), 10);
}

#[test]
fn recommended_actions() {
    assert_eq!(recommend_action(0), 0);
    assert_eq!(recommend_action(19), 0);
    assert_eq!(recommend_action(20), 1);
    assert_eq!(recommend_action(39), 1);
    assert_eq!(recommend_action(40), 2);
    assert_eq!(recommend_action(59), 2);
    assert_eq!(recommend_action(60), 3);
    assert_eq!(recommend_action(79), 3);
    assert_eq!(recommend_action(80), 4);
    assert_eq!(recommend_action(255), 4);
}

#[test]
fn actions_never_milder_for_higher_scores() {
    for a in 0..=255u8 {
        for b in a..=255u8 {
            assert!(recommend_action(a) <= recommend_action(b));
        }
    }
}

#[test]
fn seeds_are_fnv1a() {
    assert_eq!(scenario_seed(0, 0), 9808874869469701221);
    assert_eq!(scenario_seed(42, 7), 16532379192158078952);
    assert_eq!(scenario_seed(u64::MAX, 123456789), 540722964355187537);
    assert_eq!(scenario_seed(42, 7), scenario_seed(42, 7));
}

#[test]
fn gm_event_codes() {
    assert_eq!(GmEventKind::TaskCreated.code(), 0);
    assert_eq!(GmEventKind::Milestone.code(), 5);
    assert_eq!(GmEventKind::Unknown.code(), 0xFF);
}

#[test]
fn role_codes_roundtrip() {
    for code in 0..=5u8 {
        assert_eq!(AgentRoleId::from_u8(code).code(), code);
    }
    assert_eq!(AgentRoleId::from_u8(6), AgentRoleId::Unknown);
    assert_eq!(AgentRoleId::from_u8(0xFF), AgentRoleId::Unknown);
    assert_eq!(AgentRoleId::from_u8(2), AgentRoleId::Coding);
}

#[test]
fn claims() {
    assert_eq!(can_claim(0xFF, 3), 1);
    assert_eq!(can_claim(2, 2), 1);
    assert_eq!(can_claim(2, 3), 0);
    assert_eq!(can_claim(9, 200), 1);
    assert_eq!(can_claim(9, 1), 0);
}

#[test]
fn consensus_and_priority() {
    assert_eq!(consensus_met(3, 3), 1);
    assert_eq!(consensus_met(2, 3), 0);
    assert_eq!(task_priority_score(2, 100), u64::MAX - 220);
    assert_eq!(task_priority_score(0, 0), u64::MAX);
    assert_eq!(task_priority_score(u32::MAX, u64::MAX), 0);
    assert!(task_priority_score(1, 0) < task_priority_score(0, 0));
    assert!(task_priority_score(0, 10) < task_priority_score(0, 9));
}

#[test]
fn voxel_kinds() {
    assert_eq!(voxel_kind_for_ext("rs"), 1);
    assert_eq!(voxel_kind_for_ext("tsx"), 2);
    assert_eq!(voxel_kind_for_ext("jsx"), 2);
    assert_eq!(voxel_kind_for_ext("py"), 3);
    assert_eq!(voxel_kind_for_ext("md"), 4);
    assert_eq!(voxel_kind_for_ext("yml"), 5);
    assert_eq!(voxel_kind_for_ext("json"), 5);
    assert_eq!(voxel_kind_for_ext("zsh"), 6);
    assert_eq!(voxel_kind_for_ext("txt"), 0);
    assert_eq!(voxel_kind_for_ext("RS"), 0);
    assert_eq!(voxel_kind_for_ext(""), 0);
}

#[test]
fn path_coordinates() {
    assert_eq!(coords_for_path("src/main.rs"), (20, 18));
    assert_eq!(coords_for_path(""), (5, 21));
    assert_eq!(coords_for_path("README.md"), (114, 92));
    assert_eq!(coords_for_path("docs/über.md"), (180, 228));
}

#[test]
fn voxel_point_holds_coordinates() {
    let p = VoxelPoint { x: 1, y: -2, z: 3 };
    let q = p.clone();
    assert_eq!((q.x, q.y, q.z), (1, -2, 3));
}

#[test]
fn lifecycles_always_succeed() {
    let ctx = FfPluginCtx { loaded_at_tick: 0 };
    let mut w = WorldPluginLifecycle::new();
    assert!(w.init(&ctx).is_ok() && w.tick(1).is_ok() && w.shutdown().is_ok());
    let mut a = AgentsPluginLifecycle::new();
    assert!(a.init(&ctx).is_ok() && a.tick(1).is_ok() && a.shutdown().is_ok());
    let mut e = EconomyPluginLifecycle::new();
    assert!(e.init(&ctx).is_ok() && e.tick(1).is_ok() && e.shutdown().is_ok());
}

#[test]
fn plugin_metadata() {
    assert_eq!(world_metadata().id, "forgefabrik.world");
    assert_eq!(agents_metadata().id, "forgefabrik.agents");
    assert_eq!(gm_metadata().id, "forgefabrik.gm");
    assert_eq!(economy_metadata().id, "forgefabrik.economy");
    let m = llm_free_metadata();
    assert_eq!((m.id, m.version, m.kind), ("forgefabrik.llm-free", "0.1.0", "runtime-plugin"));
}
