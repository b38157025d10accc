use lime::address::Address;
use lime::market::{
    activate_market, cancel_market, close_market, create_market, force_activate_market,
    increment_participants, initialize_protocol, initialize_protocol_for, mark_resolved,
    mark_settled, pause_market, pause_protocol, resume_market, resume_protocol,
    update_protocol_admin, AdminMarketAction, CreateMarket, InitializeProtocol, MarkResolved, Market,
    MarketError, MarketStatus, PayoffType, ProtocolConfig, UpdateProtocolConfig,
};
use lime::settlement::Resolution;

fn key(n: u8) -> Address {
    Address { bytes: [n; 32] }
}

fn zero_config() -> ProtocolConfig {
    ProtocolConfig { admin: key(0), fee_bps: 0, paused: false, bump: 0 }
}

fn config(admin: u8) -> ProtocolConfig {
    ProtocolConfig { admin: key(admin), fee_bps: 30, paused: false, bump: 254 }
}

fn empty_market() -> Market {
    Market {
        market_id: 0,
        admin: key(0),
        lower_bound: 0,
        upper_bound: 0,
        resolution_ts: 0,
        settlement_source: String::new(),
        payoff_type: PayoffType::Linear,
        status: MarketStatus::Preliminary,
        min_participants: 0,
        participant_count: 0,
        total_long: 0,
        total_short: 0,
        bump: 0,
    }
}

fn market_in(status: MarketStatus) -> Market {
    Market {
        market_id: 42,
        admin: key(1),
        lower_bound: 0,
        upper_bound: 1_000_000,
        resolution_ts: 2_000_000_000,
        settlement_source: String::from("MVP smoke test observed value"),
        status,
        min_participants: 2,
        participant_count: 2,
        ..empty_market()
    }
}

fn action(signer: u8, status: MarketStatus) -> AdminMarketAction {
    AdminMarketAction { admin: key(signer), protocol_config: config(1), market: market_in(status) }
}

fn resolution(market_id: u64, resolver: u8) -> Resolution {
    Resolution {
        market_id,
        observed_value: 500_000,
        lower_bound: 0,
        upper_bound: 1_000_000,
        payoff_ratio: 500_000,
        resolver: key(resolver),
        resolved_at: 1_900_000_000,
        vault_authority: key(11),
        bump: 250,
    }
}

/// Marks the Market of `ctx` Resolved with the given Resolution account, and writes the Market
/// back.
fn resolve(ctx: &mut AdminMarketAction, resolution: Resolution) -> Result<(), MarketError> {
    let mut accounts = MarkResolved {
        admin: ctx.admin,
        protocol_config: ctx.protocol_config,
        market: ctx.market.clone(),
        resolution,
    };
    let r = mark_resolved(&mut accounts);
    ctx.market = accounts.market;
    r
}

fn create_ctx(signer: u8, paused: bool) -> CreateMarket {
    CreateMarket {
        admin: key(signer),
        protocol_config: ProtocolConfig { paused, ..config(1) },
        market: empty_market(),
        market_key: key(9),
        market_bump: 253,
    }
}

#[test]
fn initialize_protocol_sets_signer_as_admin() {
    let mut ctx = InitializeProtocol { admin: key(7), protocol_config: zero_config(), protocol_config_bump: 250 };
    assert_eq!(initialize_protocol(&mut ctx, 10_000), Ok(()));
    assert_eq!(
        ctx.protocol_config,
        ProtocolConfig { admin: key(7), fee_bps: 10_000, paused: false, bump: 250 }
    );
}

#[test]
fn initialize_protocol_rejects_fee_above_ten_thousand_bps() {
    let mut ctx = InitializeProtocol { admin: key(7), protocol_config: zero_config(), protocol_config_bump: 250 };
    let before = ctx.clone();
    assert_eq!(initialize_protocol(&mut ctx, 10_001), Err(MarketError::InvalidFeeBps));
    assert_eq!(ctx, before);
}

#[test]
fn initialize_protocol_for_sets_given_admin() {
    let mut ctx = InitializeProtocol { admin: key(7), protocol_config: zero_config(), protocol_config_bump: 1 };
    assert_eq!(initialize_protocol_for(&mut ctx, 25, key(3)), Ok(()));
    assert_eq!(ctx.protocol_config, ProtocolConfig { admin: key(3), fee_bps: 25, paused: false, bump: 1 });
    let mut bad = InitializeProtocol { admin: key(7), protocol_config: zero_config(), protocol_config_bump: 1 };
    assert_eq!(initialize_protocol_for(&mut bad, u16::MAX, key(3)), Err(MarketError::InvalidFeeBps));
    assert_eq!(bad.protocol_config, zero_config());
}

#[test]
fn update_protocol_admin_only_by_admin() {
    let mut ctx = UpdateProtocolConfig { admin: key(1), protocol_config: config(1) };
    assert_eq!(update_protocol_admin(&mut ctx, key(5)), Ok(()));
    assert_eq!(ctx.protocol_config.admin, key(5));
    // The former admin has lost the role.
    assert_eq!(update_protocol_admin(&mut ctx, key(1)), Err(MarketError::Unauthorized));
    assert_eq!(ctx.protocol_config.admin, key(5));
}

#[test]
fn pause_and_resume_protocol() {
    let mut ctx = UpdateProtocolConfig { admin: key(1), protocol_config: config(1) };
    assert_eq!(pause_protocol(&mut ctx), Ok(()));
    assert!(ctx.protocol_config.paused);
    assert_eq!(resume_protocol(&mut ctx), Ok(()));
    assert_eq!(ctx.protocol_config, config(1));
    let mut intruder = UpdateProtocolConfig { admin: key(2), protocol_config: config(1) };
    assert_eq!(pause_protocol(&mut intruder), Err(MarketError::Unauthorized));
    assert_eq!(resume_protocol(&mut intruder), Err(MarketError::Unauthorized));
    assert!(!intruder.protocol_config.paused);
}

#[test]
fn create_market_starts_preliminary() {
    let mut ctx = create_ctx(1, false);
    let event = create_market(
        &mut ctx,
        42,
        0,
        1_000_000,
        1_800_000_000,
        String::from("MVP smoke test observed value"),
        PayoffType::Linear,
        3,
        1_700_000_000,
    );
    let event = event.unwrap();
    assert_eq!(event.market, key(9));
    assert_eq!(event.market_id, 42);
    assert_eq!(
        ctx.market,
        Market {
            market_id: 42,
            admin: key(1),
            lower_bound: 0,
            upper_bound: 1_000_000,
            resolution_ts: 1_800_000_000,
            settlement_source: String::from("MVP smoke test observed value"),
            payoff_type: PayoffType::Linear,
            status: MarketStatus::Preliminary,
            min_participants: 3,
            participant_count: 0,
            total_long: 0,
            total_short: 0,
            bump: 253,
        }
    );
}

fn try_create(
    ctx: &mut CreateMarket,
    lower: u64,
    upper: u64,
    resolution_ts: i64,
    source: String,
    payoff: PayoffType,
) -> Result<(), MarketError> {
    create_market(ctx, 1, lower, upper, resolution_ts, source, payoff, 0, 100).map(|_| ())
}

#[test]
fn create_market_errors() {
    let ok_source = || String::from("source");
    let mut paused = create_ctx(1, true);
    assert_eq!(try_create(&mut paused, 0, 10, 200, ok_source(), PayoffType::Linear), Err(MarketError::ProtocolPaused));
    assert_eq!(paused.market, empty_market());
    let mut stranger = create_ctx(2, false);
    assert_eq!(try_create(&mut stranger, 0, 10, 200, ok_source(), PayoffType::Linear), Err(MarketError::Unauthorized));
    let mut ctx = create_ctx(1, false);
    assert_eq!(try_create(&mut ctx, 0, 10, 100, ok_source(), PayoffType::Linear), Err(MarketError::InvalidResolutionTs));
    assert_eq!(try_create(&mut ctx, 10, 10, 200, ok_source(), PayoffType::Linear), Err(MarketError::InvalidBounds));
    assert_eq!(try_create(&mut ctx, 11, 10, 200, ok_source(), PayoffType::Linear), Err(MarketError::InvalidBounds));
    assert_eq!(try_create(&mut ctx, 0, 10, 200, ok_source(), PayoffType::Sigmoid), Err(MarketError::UnsupportedPayoffType));
    assert_eq!(try_create(&mut ctx, 0, 10, 200, ok_source(), PayoffType::Concave), Err(MarketError::UnsupportedPayoffType));
    assert_eq!(try_create(&mut ctx, 0, 10, 200, "x".repeat(129), PayoffType::Linear), Err(MarketError::SettlementSourceTooLong));
    // 43 three-byte characters are 129 bytes: the limit counts bytes, not characters.
    assert_eq!(try_create(&mut ctx, 0, 10, 200, "€".repeat(43), PayoffType::Linear), Err(MarketError::SettlementSourceTooLong));
    assert_eq!(ctx.market, empty_market());
    assert_eq!(try_create(&mut ctx, 0, 10, 200, "x".repeat(128), PayoffType::Linear), Ok(()));
    assert_eq!(ctx.market.settlement_source.len(), 128);
}

#[test]
fn create_market_paused_check_comes_before_admin_check() {
    let mut ctx = create_ctx(2, true);
    assert_eq!(try_create(&mut ctx, 10, 1, 0, String::new(), PayoffType::Step), Err(MarketError::ProtocolPaused));
}

#[test]
fn full_lifecycle_to_settled() {
    let mut ctx = action(1, MarketStatus::Preliminary);
    assert_eq!(activate_market(&mut ctx), Ok(()));
    assert_eq!(ctx.market.status, MarketStatus::Active);
    assert_eq!(pause_market(&mut ctx), Ok(()));
    assert_eq!(ctx.market.status, MarketStatus::Paused);
    assert_eq!(resume_market(&mut ctx), Ok(()));
    assert_eq!(ctx.market.status, MarketStatus::Active);
    assert_eq!(close_market(&mut ctx), Ok(()));
    assert_eq!(ctx.market.status, MarketStatus::PendingResolution);
    assert_eq!(resolve(&mut ctx, resolution(42, 2)), Ok(()));
    assert_eq!(ctx.market.status, MarketStatus::Resolved);
    assert_eq!(cancel_market(&mut ctx), Err(MarketError::InvalidStatusTransition));
    assert_eq!(mark_settled(&mut ctx), Ok(()));
    assert_eq!(ctx.market.status, MarketStatus::Settled);
    assert_eq!(ctx.market, market_in(MarketStatus::Settled));
}

#[test]
fn settled_market_accepts_no_lifecycle_action() {
    type Op = fn(&mut AdminMarketAction) -> Result<(), MarketError>;
    let ops: [Op; 7] = [
        activate_market,
        force_activate_market,
        pause_market,
        resume_market,
        close_market,
        mark_settled,
        cancel_market,
    ];
    for op in ops {
        let mut ctx = action(1, MarketStatus::Settled);
        assert_eq!(op(&mut ctx), Err(MarketError::InvalidStatusTransition));
        assert_eq!(ctx.market.status, MarketStatus::Settled);
    }
    let mut ctx = action(1, MarketStatus::Settled);
    assert_eq!(resolve(&mut ctx, resolution(42, 2)), Err(MarketError::InvalidStatusTransition));
}

#[test]
fn non_admin_is_unauthorized_for_every_action() {
    type Op = fn(&mut AdminMarketAction) -> Result<(), MarketError>;
    let ops: [Op; 8] = [
        activate_market,
        force_activate_market,
        pause_market,
        resume_market,
        close_market,
        mark_settled,
        cancel_market,
        increment_participants,
    ];
    for op in ops {
        let mut ctx = action(2, MarketStatus::Active);
        let before = ctx.clone();
        assert_eq!(op(&mut ctx), Err(MarketError::Unauthorized));
        assert_eq!(ctx, before);
    }
    let mut ctx = action(2, MarketStatus::PendingResolution);
    assert_eq!(resolve(&mut ctx, resolution(42, 2)), Err(MarketError::Unauthorized));
}

#[test]
fn mark_resolved_needs_a_recorded_resolution() {
    let mut ctx = action(1, MarketStatus::PendingResolution);
    // An all-zero Resolution account: nothing was recorded.
    let none = Resolution { market_id: 0, resolver: Address { bytes: [0; 32] }, ..resolution(0, 0) };
    assert_eq!(resolve(&mut ctx, none), Err(MarketError::ResolutionMissing));
    assert_eq!(resolve(&mut ctx, resolution(7, 2)), Err(MarketError::ResolutionMissing));
    assert_eq!(resolve(&mut ctx, resolution(42, 0)), Err(MarketError::ResolutionMissing));
    assert_eq!(ctx.market.status, MarketStatus::PendingResolution);
    assert_eq!(resolve(&mut ctx, resolution(42, 2)), Ok(()));
    assert_eq!(ctx.market.status, MarketStatus::Resolved);
    let mut active = action(1, MarketStatus::Active);
    assert_eq!(resolve(&mut active, resolution(42, 2)), Err(MarketError::InvalidStatusTransition));
}

#[test]
fn activate_needs_minimum_participants_but_force_activate_does_not() {
    let mut ctx = action(1, MarketStatus::Preliminary);
    ctx.market.participant_count = 1;
    assert_eq!(activate_market(&mut ctx), Err(MarketError::InsufficientParticipants));
    assert_eq!(ctx.market.status, MarketStatus::Preliminary);
    assert_eq!(force_activate_market(&mut ctx), Ok(()));
    assert_eq!(ctx.market.status, MarketStatus::Active);
    assert_eq!(force_activate_market(&mut ctx), Err(MarketError::InvalidStatusTransition));
    let mut active = action(1, MarketStatus::Active);
    assert_eq!(activate_market(&mut active), Err(MarketError::InvalidStatusTransition));
}

#[test]
fn invalid_transitions_are_refused() {
    let cases: [(fn(&mut AdminMarketAction) -> Result<(), MarketError>, MarketStatus); 5] = [
        (pause_market, MarketStatus::Paused),
        (resume_market, MarketStatus::Active),
        (close_market, MarketStatus::Preliminary),
        (mark_settled, MarketStatus::PendingResolution),
        (cancel_market, MarketStatus::Settled),
    ];
    for (op, status) in cases {
        let mut ctx = action(1, status);
        assert_eq!(op(&mut ctx), Err(MarketError::InvalidStatusTransition));
        assert_eq!(ctx.market.status, status);
    }
}

#[test]
fn cancel_and_settle_a_cancelled_market() {
    for status in [
        MarketStatus::Preliminary,
        MarketStatus::Active,
        MarketStatus::Paused,
        MarketStatus::PendingResolution,
        MarketStatus::Cancelled,
    ] {
        let mut ctx = action(1, status);
        assert_eq!(cancel_market(&mut ctx), Ok(()));
        assert_eq!(ctx.market.status, MarketStatus::Cancelled);
        assert_eq!(mark_settled(&mut ctx), Ok(()));
        assert_eq!(ctx.market.status, MarketStatus::Settled);
    }
}

#[test]
fn close_from_paused_and_pause_resume_round_trip() {
    let mut ctx = action(1, MarketStatus::Active);
    let before = ctx.clone();
    assert_eq!(pause_market(&mut ctx), Ok(()));
    assert_eq!(resume_market(&mut ctx), Ok(()));
    assert_eq!(ctx, before);
    assert_eq!(pause_market(&mut ctx), Ok(()));
    assert_eq!(close_market(&mut ctx), Ok(()));
    assert_eq!(ctx.market.status, MarketStatus::PendingResolution);
}

#[test]
fn increment_participants_counts_and_overflows() {
    let mut ctx = action(1, MarketStatus::Preliminary);
    assert_eq!(increment_participants(&mut ctx), Ok(()));
    assert_eq!(ctx.market.participant_count, 3);
    ctx.market.participant_count = u16::MAX;
    assert_eq!(increment_participants(&mut ctx), Err(MarketError::ParticipantOverflow));
    assert_eq!(ctx.market.participant_count, u16::MAX);
}

#[test]
fn protocol_and_markets_are_created_once() {
    let mut ctx = InitializeProtocol { admin: key(7), protocol_config: zero_config(), protocol_config_bump: 250 };
    assert_eq!(initialize_protocol(&mut ctx, 30), Ok(()));
    let initialized = ctx.clone();
    ctx.admin = key(8);
    assert_eq!(initialize_protocol(&mut ctx, 30), Err(MarketError::AlreadyInitialized));
    assert_eq!(initialize_protocol_for(&mut ctx, 30, key(8)), Err(MarketError::AlreadyInitialized));
    assert_eq!(ctx.protocol_config, initialized.protocol_config);

    let mut create = create_ctx(1, false);
    let source = || String::from("observed value");
    assert!(create_market(&mut create, 42, 0, 1_000_000, 1_800_000_000, source(), PayoffType::Linear, 0, 1_700_000_000).is_ok());
    let created = create.market.clone();
    assert_eq!(
        create_market(&mut create, 42, 5, 6, 1_800_000_000, source(), PayoffType::Linear, 0, 1_700_000_000),
        Err(MarketError::AlreadyInitialized)
    );
    assert_eq!(create.market, created);
}
