use portfolio_agent::{Address, AgentError, PortfolioAgent};

// The earliest moment at which a new strategy may be refined. Its last
// refinement is taken to lie at time zero, so this is one cooldown period
// after zero.
const START: u64 = 3600;

fn admin_address() -> Address {
    Address::new("GBZXN7PIRZGNMHGA7MUUUF4GWPY5AYPV6LY4UV2GL6VJGIQRXFDNMADI")
}

fn hacker_address() -> Address {
    Address::new("GDQNY3PBOJOKYZSRMK2S7LHHGWZIUISD4QORETLMXEWXBI7KFZZMKTL3")
}

#[test]
fn test_initialize() {
    let mut agent = PortfolioAgent::new();
    let admin = admin_address();

    // Initialize with score 870 (8.7/10) and 1247 trades
    agent.initialize(admin.clone(), true, 870, 1247).unwrap();

    let (score, trades, last_ref, stored_admin) = agent.get_metrics().unwrap();

    assert_eq!(score, 870);
    assert_eq!(trades, 1247);
    assert_eq!(last_ref, 0);
    assert_eq!(stored_admin, admin);
}

#[test]
fn test_cannot_reinitialize() {
    let mut agent = PortfolioAgent::new();
    let admin = admin_address();

    agent.initialize(admin.clone(), true, 870, 1247).unwrap();
    let second = agent.initialize(admin.clone(), true, 900, 2000);

    assert_eq!(second.unwrap_err(), AgentError::AlreadyInitialized);
    let (score, trades, last_ref, stored_admin) = agent.get_metrics().unwrap();
    assert_eq!(score, 870);
    assert_eq!(trades, 1247);
    assert_eq!(last_ref, 0);
    assert_eq!(stored_admin, admin);
}

#[test]
fn test_refine_strategy_positive() {
    let mut agent = PortfolioAgent::new();
    let admin = admin_address();

    agent.initialize(admin.clone(), true, 870, 1247).unwrap();

    // Positive performance metric should increase score
    let (new_score, _) = agent.refine_strategy(admin, true, START, 100).unwrap();

    // 870 + (100 * 5 / 1000) = 870 + 0 = 870: integer division swallows
    // small metrics
    assert!(new_score >= 870);
    assert_eq!(new_score, 870);
}

#[test]
fn test_refine_strategy_large_positive() {
    let mut agent = PortfolioAgent::new();
    let admin = admin_address();

    agent.initialize(admin.clone(), true, 870, 1247).unwrap();

    // Large positive metric
    let (new_score, _) = agent.refine_strategy(admin, true, START, 10000).unwrap();

    // 870 + (10000 * 5 / 1000) = 870 + 50 = 920
    assert_eq!(new_score, 920);

    let (score, trades, _, _) = agent.get_metrics().unwrap();
    assert_eq!(score, 920);
    assert_eq!(trades, 1248); // Incremented
}

#[test]
fn test_refine_strategy_negative() {
    let mut agent = PortfolioAgent::new();
    let admin = admin_address();

    agent.initialize(admin.clone(), true, 870, 1247).unwrap();

    // Large negative metric
    let (new_score, _) = agent.refine_strategy(admin, true, START, -10000).unwrap();

    // 870 - (10000 * 3 / 1000) = 870 - 30 = 840
    assert_eq!(new_score, 840);
}

#[test]
fn test_cooldown_enforcement() {
    let mut agent = PortfolioAgent::new();
    let admin = admin_address();

    agent.initialize(admin.clone(), true, 870, 1247).unwrap();

    // First refinement should succeed
    agent.refine_strategy(admin.clone(), true, START, 1000).unwrap();

    // Second refinement without time passing should fail
    let second = agent.refine_strategy(admin, true, START, 1000);
    assert_eq!(second.unwrap_err(), AgentError::CooldownActive { remaining: 3600 });
}

#[test]
fn test_cooldown_passes() {
    let mut agent = PortfolioAgent::new();
    let admin = admin_address();

    agent.initialize(admin.clone(), true, 870, 1247).unwrap();

    // First refinement
    agent.refine_strategy(admin.clone(), true, START, 1000).unwrap();

    // Advance time by 1 hour
    let now = START + 3600;

    // Second refinement should now succeed
    let (new_score, _) = agent.refine_strategy(admin, true, now, 1000).unwrap();
    assert!(new_score > 870);
    assert_eq!(new_score, 880);
}

#[test]
fn test_non_admin_cannot_refine() {
    let mut agent = PortfolioAgent::new();
    let admin = admin_address();
    let hacker = hacker_address();

    agent.initialize(admin.clone(), true, 870, 1247).unwrap();

    // Non-admin trying to refine should be refused
    let attempt = agent.refine_strategy(hacker, true, START, 1000);
    assert_eq!(attempt.unwrap_err(), AgentError::Unauthorized);

    let (score, trades, last_ref, stored_admin) = agent.get_metrics().unwrap();
    assert_eq!(score, 870);
    assert_eq!(trades, 1247);
    assert_eq!(last_ref, 0);
    assert_eq!(stored_admin, admin);
}

#[test]
fn test_get_cooldown_remaining() {
    let mut agent = PortfolioAgent::new();
    let admin = admin_address();

    agent.initialize(admin.clone(), true, 870, 1247).unwrap();

    // Initially, no cooldown
    assert_eq!(agent.get_cooldown_remaining(START), 0);

    // After refinement, cooldown should be active
    agent.refine_strategy(admin, true, START, 1000).unwrap();
    let remaining = agent.get_cooldown_remaining(START);
    assert!(remaining > 0 && remaining <= 3600);

    // After time passes, cooldown should decrease
    let remaining_half = agent.get_cooldown_remaining(START + 1800); // 30 minutes
    assert!(remaining_half < remaining);
    assert!(remaining_half > 0);

    // After full hour, no cooldown
    assert_eq!(agent.get_cooldown_remaining(START + 3600), 0);
}

#[test]
fn test_score_clamping() {
    let mut agent = PortfolioAgent::new();
    let admin = admin_address();

    // Start with high score
    agent.initialize(admin.clone(), true, 990, 1247).unwrap();

    // Massive positive metric should clamp at 1000
    agent.refine_strategy(admin.clone(), true, START, 100000).unwrap();
    assert_eq!(agent.get_score(), 1000);

    // Advance time
    let now = START + 3600;

    // Massive negative metric should not go below 0
    agent.refine_strategy(admin, true, now, -1000000).unwrap();
    assert_eq!(agent.get_score(), 0);
}
