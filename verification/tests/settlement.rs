use lime::address::Address;
use lime::market::{Market, MarketStatus, PayoffType};
use lime::settlement::{
    payoff_computable, calculate_payoff, calculate_position_payout, claim_payout, init_market_settlement,
    initialize_protocol, refund, submit_resolution, update_resolver, ClaimPayout, ClaimReceipt,
    InitMarketSettlement, InitializeProtocol, ProtocolConfig, Refund, RefundReceipt, Resolution,
    SettlementError, SubmitResolution, UpdateProtocolConfig, VaultAuthority,
};
use lime::token::{MintInfo, TokenAccountInfo};
use lime::vault::{MarketVault, PositionSide, UserPosition, SCALE};

const MARKET_ID: u64 = 42;
const ADMIN: u8 = 1;
const RESOLVER: u8 = 2;
const USDC: u8 = 10;
const AUTHORITY: u8 = 11;
const VAULT_TOKENS: u8 = 12;
const MARKET_KEY: u8 = 13;
const ALICE: u8 = 21;

fn key(n: u8) -> Address {
    Address { bytes: [n; 32] }
}

fn zero() -> Address {
    Address { bytes: [0; 32] }
}

fn config() -> ProtocolConfig {
    ProtocolConfig { admin: key(ADMIN), resolver: key(RESOLVER), bump: 200 }
}

fn market(status: MarketStatus) -> Market {
    Market {
        market_id: MARKET_ID,
        admin: key(ADMIN),
        lower_bound: 0,
        upper_bound: 1_000_000,
        resolution_ts: 2_000_000_000,
        settlement_source: String::from("MVP smoke test observed value"),
        payoff_type: PayoffType::Linear,
        status,
        min_participants: 0,
        participant_count: 0,
        total_long: 0,
        total_short: 0,
        bump: 255,
    }
}

fn market_vault() -> MarketVault {
    MarketVault {
        market_id: MARKET_ID,
        market: key(MARKET_KEY),
        token_mint: key(USDC),
        vault_token_account: key(VAULT_TOKENS),
        vault_authority: key(30),
        settlement_authority: key(AUTHORITY),
        total_collateral: 10_000,
        bump: 250,
        vault_authority_bump: 249,
    }
}

fn authority() -> VaultAuthority {
    VaultAuthority { market_id: MARKET_ID, token_mint: key(USDC), vault_token_account: key(VAULT_TOKENS), bump: 248 }
}

fn empty_authority() -> VaultAuthority {
    VaultAuthority { market_id: 0, token_mint: zero(), vault_token_account: zero(), bump: 0 }
}

fn empty_resolution() -> Resolution {
    Resolution {
        market_id: 0,
        observed_value: 0,
        lower_bound: 0,
        upper_bound: 0,
        payoff_ratio: 0,
        resolver: zero(),
        resolved_at: 0,
        vault_authority: zero(),
        bump: 0,
    }
}

fn resolution(ratio: u64) -> Resolution {
    Resolution {
        market_id: MARKET_ID,
        observed_value: ratio,
        lower_bound: 0,
        upper_bound: 1_000_000,
        payoff_ratio: ratio,
        resolver: key(RESOLVER),
        resolved_at: 1_900_000_000,
        vault_authority: key(AUTHORITY),
        bump: 247,
    }
}

fn position(side: PositionSide, quantity: u64, cost_basis: u64) -> UserPosition {
    UserPosition { market_id: MARKET_ID, owner: key(ALICE), side, quantity, cost_basis, bump: 5 }
}

fn mint() -> MintInfo {
    MintInfo { key: key(USDC), decimals: 6 }
}

fn user_ata() -> TokenAccountInfo {
    TokenAccountInfo { key: key(31), mint: key(USDC), owner: key(ALICE) }
}

fn vault_tokens() -> TokenAccountInfo {
    TokenAccountInfo { key: key(VAULT_TOKENS), mint: key(USDC), owner: key(AUTHORITY) }
}

fn init_ctx(signer: u8) -> InitMarketSettlement {
    InitMarketSettlement {
        admin: key(signer),
        protocol_config: config(),
        market: market(MarketStatus::Active),
        market_key: key(MARKET_KEY),
        market_vault: market_vault(),
        vault_authority: empty_authority(),
        vault_authority_key: key(AUTHORITY),
        vault_authority_bump: 248,
    }
}

fn submit_ctx(signer: u8, status: MarketStatus) -> SubmitResolution {
    SubmitResolution {
        resolver: key(signer),
        protocol_config: config(),
        market: market(status),
        vault_authority: authority(),
        vault_authority_key: key(AUTHORITY),
        resolution: empty_resolution(),
        resolution_bump: 247,
    }
}

fn claim_ctx(side: PositionSide, quantity: u64, ratio: u64) -> ClaimPayout {
    ClaimPayout {
        user: key(ALICE),
        usdc_mint: mint(),
        user_ata: user_ata(),
        market: market(MarketStatus::Resolved),
        resolution: resolution(ratio),
        user_position: position(side, quantity, 1),
        claim_receipt: fresh_claim_receipt(),
        claim_receipt_bump: 246,
        vault_authority: authority(),
        vault_authority_key: key(AUTHORITY),
        vault_token_account: vault_tokens(),
    }
}

fn fresh_claim_receipt() -> ClaimReceipt {
    ClaimReceipt { market_id: 0, user: zero(), side: PositionSide::Long, amount: 0, claimed: false, bump: 0 }
}

fn refund_ctx(signer: u8, status: MarketStatus) -> Refund {
    Refund {
        admin: key(signer),
        protocol_config: config(),
        market: market(status),
        usdc_mint: mint(),
        user_ata: user_ata(),
        user_position: position(PositionSide::Short, 5_000_000, 1_900_000),
        refund_receipt: RefundReceipt { market_id: 0, user: zero(), side: PositionSide::Long, amount: 0, refunded: false, bump: 0 },
        refund_receipt_bump: 245,
        vault_authority: authority(),
        vault_authority_key: key(AUTHORITY),
        vault_token_account: vault_tokens(),
    }
}

#[test]
fn payoff_is_linear_between_the_bounds() {
    // The MVP smoke-test Market: bounds 0 and 1,000,000, observed 500,000.
    assert_eq!(calculate_payoff(500_000, 0, 1_000_000), 500_000);
    assert_eq!(calculate_payoff(250, 100, 400), 500_000);
    assert_eq!(calculate_payoff(101, 100, 400), 3_333);
    assert_eq!(calculate_payoff(100, 100, 400), 0);
    assert_eq!(calculate_payoff(0, 100, 400), 0);
    assert_eq!(calculate_payoff(400, 100, 400), SCALE);
    assert_eq!(calculate_payoff(u64::MAX, 100, 400), SCALE);
}

#[test]
fn payoff_computable_tells_when_the_ratio_fits() {
    assert!(payoff_computable(0, 100, 400));
    assert!(payoff_computable(u64::MAX, 0, 10));
    assert!(payoff_computable(u64::MAX / 1_000_000, 0, u64::MAX));
    assert!(!payoff_computable(u64::MAX / 1_000_000 + 1, 0, u64::MAX));
}

#[test]
fn payoff_is_monotonic_in_the_observed_value() {
    let mut last = 0;
    for observed in (0..=1_200u64).step_by(7) {
        let ratio = calculate_payoff(observed, 100, 1_100);
        assert!(ratio >= last);
        assert!(ratio <= SCALE);
        last = ratio;
    }
}

#[test]
fn position_payouts() {
    assert_eq!(calculate_position_payout(5_000_000, PositionSide::Long, 500_000), Ok(2_500_000));
    assert_eq!(calculate_position_payout(5_000_000, PositionSide::Short, 500_000), Ok(2_500_000));
    assert_eq!(calculate_position_payout(5_000_000, PositionSide::Long, 620_000), Ok(3_100_000));
    assert_eq!(calculate_position_payout(5_000_000, PositionSide::Short, 620_000), Ok(1_900_000));
    assert_eq!(calculate_position_payout(7, PositionSide::Short, SCALE + 5), Ok(0));
    assert_eq!(calculate_position_payout(u64::MAX, PositionSide::Long, SCALE), Ok(u64::MAX));
    assert_eq!(calculate_position_payout(u64::MAX, PositionSide::Long, SCALE + 1), Err(SettlementError::MathOverflow));
}

#[test]
fn long_and_short_payouts_add_up_to_quantity() {
    for (q, r) in [(5_000_000u64, 500_000u64), (1_000_000, 123_457), (10, 0), (10, SCALE), (3, 500_000), (1, 333_333), (u64::MAX, 999_999)] {
        let l = calculate_position_payout(q, PositionSide::Long, r).unwrap();
        let s = calculate_position_payout(q, PositionSide::Short, r).unwrap();
        assert_eq!(l as u128 + s as u128, q as u128);
    }
    // Quantity 3 at one half: the Long side gets 1, the Short side the other 2.
    assert_eq!(calculate_position_payout(3, PositionSide::Long, 500_000), Ok(1));
    assert_eq!(calculate_position_payout(3, PositionSide::Short, 500_000), Ok(2));
}

#[test]
fn initialize_and_update_resolver() {
    let mut ctx = InitializeProtocol {
        admin: key(ADMIN),
        protocol_config: ProtocolConfig { admin: zero(), resolver: zero(), bump: 0 },
        protocol_config_bump: 200,
    };
    assert_eq!(initialize_protocol(&mut ctx, key(RESOLVER)), Ok(()));
    assert_eq!(ctx.protocol_config, config());
    let mut update = UpdateProtocolConfig { admin: key(ADMIN), protocol_config: config() };
    assert_eq!(update_resolver(&mut update, key(3)), Ok(()));
    assert_eq!(update.protocol_config.resolver, key(3));
    let mut intruder = UpdateProtocolConfig { admin: key(RESOLVER), protocol_config: config() };
    assert_eq!(update_resolver(&mut intruder, key(3)), Err(SettlementError::Unauthorized));
    assert_eq!(intruder.protocol_config, config());
}

#[test]
fn init_market_settlement_records_vault_accounts() {
    let mut ctx = init_ctx(ADMIN);
    assert_eq!(init_market_settlement(&mut ctx, MARKET_ID), Ok(()));
    assert_eq!(ctx.vault_authority, authority());
}

#[test]
fn init_market_settlement_errors() {
    let mut c = init_ctx(RESOLVER);
    assert_eq!(init_market_settlement(&mut c, MARKET_ID), Err(SettlementError::Unauthorized));
    let mut c = init_ctx(ADMIN);
    assert_eq!(init_market_settlement(&mut c, MARKET_ID + 1), Err(SettlementError::MarketMismatch));
    let mut c = init_ctx(ADMIN);
    c.market_vault.market_id = 7;
    assert_eq!(init_market_settlement(&mut c, MARKET_ID), Err(SettlementError::MarketMismatch));
    let mut c = init_ctx(ADMIN);
    c.market_vault.market = key(77);
    assert_eq!(init_market_settlement(&mut c, MARKET_ID), Err(SettlementError::MarketMismatch));
    let mut c = init_ctx(ADMIN);
    c.vault_authority_key = key(77);
    assert_eq!(init_market_settlement(&mut c, MARKET_ID), Err(SettlementError::InvalidVaultAuthority));
    assert_eq!(c.vault_authority, empty_authority());
}

#[test]
fn resolver_or_admin_submits_the_resolution() {
    let mut ctx = submit_ctx(RESOLVER, MarketStatus::PendingResolution);
    assert_eq!(submit_resolution(&mut ctx, MARKET_ID, 500_000, 1_900_000_000), Ok(()));
    assert_eq!(
        ctx.resolution,
        Resolution {
            market_id: MARKET_ID,
            observed_value: 500_000,
            lower_bound: 0,
            upper_bound: 1_000_000,
            payoff_ratio: 500_000,
            resolver: key(RESOLVER),
            resolved_at: 1_900_000_000,
            vault_authority: key(AUTHORITY),
            bump: 247,
        }
    );
    let mut by_admin = submit_ctx(ADMIN, MarketStatus::PendingResolution);
    assert_eq!(submit_resolution(&mut by_admin, MARKET_ID, 2_000_000, 5), Ok(()));
    assert_eq!(by_admin.resolution.payoff_ratio, SCALE);
    assert_eq!(by_admin.resolution.resolver, key(ADMIN));
}

#[test]
fn submit_resolution_errors() {
    let mut c = submit_ctx(ALICE, MarketStatus::PendingResolution);
    assert_eq!(submit_resolution(&mut c, MARKET_ID, 1, 1), Err(SettlementError::Unauthorized));
    let mut c = submit_ctx(RESOLVER, MarketStatus::PendingResolution);
    assert_eq!(submit_resolution(&mut c, MARKET_ID + 1, 1, 1), Err(SettlementError::MarketMismatch));
    for status in [MarketStatus::Active, MarketStatus::Resolved, MarketStatus::Cancelled] {
        let mut c = submit_ctx(RESOLVER, status);
        assert_eq!(submit_resolution(&mut c, MARKET_ID, 1, 1), Err(SettlementError::InvalidMarketStatus));
        assert_eq!(c.resolution, empty_resolution());
    }
    let mut c = submit_ctx(RESOLVER, MarketStatus::PendingResolution);
    c.vault_authority.market_id = 7;
    assert_eq!(submit_resolution(&mut c, MARKET_ID, 1, 1), Err(SettlementError::MarketMismatch));
}

#[test]
fn claim_pays_quantity_times_ratio_once() {
    let mut ctx = claim_ctx(PositionSide::Long, 5_000_000, 500_000);
    assert_eq!(claim_payout(&mut ctx, MARKET_ID), Ok(2_500_000));
    assert_eq!(
        ctx.claim_receipt,
        ClaimReceipt { market_id: MARKET_ID, user: key(ALICE), side: PositionSide::Long, amount: 2_500_000, claimed: true, bump: 246 }
    );
    assert_eq!(claim_payout(&mut ctx, MARKET_ID), Err(SettlementError::AlreadyClaimed));
    assert_eq!(ctx.claim_receipt.amount, 2_500_000);
    let mut short = claim_ctx(PositionSide::Short, 5_000_000, 620_000);
    assert_eq!(claim_payout(&mut short, MARKET_ID), Ok(1_900_000));
    assert_eq!(short.claim_receipt.side, PositionSide::Short);
}

#[test]
fn each_position_of_a_user_is_claimed_on_its_own() {
    let mut long = claim_ctx(PositionSide::Long, 3, 500_000);
    assert_eq!(claim_payout(&mut long, MARKET_ID), Ok(1));
    // The Short Position has its own receipt.
    let mut short = ClaimPayout { user_position: position(PositionSide::Short, 3, 1), claim_receipt: fresh_claim_receipt(), ..long.clone() };
    assert_eq!(claim_payout(&mut short, MARKET_ID), Ok(2));
    assert_eq!(claim_payout(&mut short, MARKET_ID), Err(SettlementError::AlreadyClaimed));
}

#[test]
fn claims_need_a_resolved_or_settled_market() {
    let mut settled = claim_ctx(PositionSide::Long, 10, 500_000);
    settled.market.status = MarketStatus::Settled;
    assert_eq!(claim_payout(&mut settled, MARKET_ID), Ok(5));
    for status in [MarketStatus::Cancelled, MarketStatus::PendingResolution, MarketStatus::Active] {
        let mut c = claim_ctx(PositionSide::Long, 10, 500_000);
        c.market.status = status;
        let before = c.clone();
        assert_eq!(claim_payout(&mut c, MARKET_ID), Err(SettlementError::InvalidMarketStatus));
        assert_eq!(c, before);
    }
    let mut c = claim_ctx(PositionSide::Long, 10, 500_000);
    c.market.market_id = 7;
    assert_eq!(claim_payout(&mut c, MARKET_ID), Err(SettlementError::MarketMismatch));
}

#[test]
fn claim_errors() {
    let mut c = claim_ctx(PositionSide::Long, 10, 1);
    c.user_ata.owner = key(77);
    assert_eq!(claim_payout(&mut c, MARKET_ID), Err(SettlementError::Unauthorized));
    let mut c = claim_ctx(PositionSide::Long, 10, 1);
    c.user_ata.mint = key(77);
    assert_eq!(claim_payout(&mut c, MARKET_ID), Err(SettlementError::InvalidMint));
    let mut c = claim_ctx(PositionSide::Long, 10, 1);
    c.user_position.owner = key(77);
    assert_eq!(claim_payout(&mut c, MARKET_ID), Err(SettlementError::Unauthorized));
    let mut c = claim_ctx(PositionSide::Long, 10, 1);
    assert_eq!(claim_payout(&mut c, MARKET_ID + 1), Err(SettlementError::MarketMismatch));
    let mut c = claim_ctx(PositionSide::Long, 10, 1);
    c.resolution.vault_authority = key(77);
    assert_eq!(claim_payout(&mut c, MARKET_ID), Err(SettlementError::InvalidVaultAuthority));
    let mut c = claim_ctx(PositionSide::Long, 10, 1);
    c.vault_authority.token_mint = key(77);
    assert_eq!(claim_payout(&mut c, MARKET_ID), Err(SettlementError::InvalidMint));
    let mut c = claim_ctx(PositionSide::Long, 10, 1);
    c.vault_token_account.owner = key(77);
    assert_eq!(claim_payout(&mut c, MARKET_ID), Err(SettlementError::InvalidVaultAuthority));
    let mut c = claim_ctx(PositionSide::Long, 10, 1);
    c.resolution.market_id = 7;
    assert_eq!(claim_payout(&mut c, MARKET_ID), Err(SettlementError::MarketMismatch));
    let mut c = claim_ctx(PositionSide::Long, u64::MAX, u64::MAX);
    let before = c.clone();
    assert_eq!(claim_payout(&mut c, MARKET_ID), Err(SettlementError::MathOverflow));
    assert_eq!(c, before);
}

#[test]
fn refund_returns_cost_basis_once_for_cancelled_market() {
    let mut ctx = refund_ctx(ADMIN, MarketStatus::Cancelled);
    assert_eq!(refund(&mut ctx, MARKET_ID), Ok(1_900_000));
    assert_eq!(
        ctx.refund_receipt,
        RefundReceipt { market_id: MARKET_ID, user: key(ALICE), side: PositionSide::Short, amount: 1_900_000, refunded: true, bump: 245 }
    );
    assert_eq!(refund(&mut ctx, MARKET_ID), Err(SettlementError::AlreadyRefunded));
}

#[test]
fn refund_errors() {
    let mut c = refund_ctx(ADMIN, MarketStatus::Cancelled);
    c.user_ata.owner = key(77);
    assert_eq!(refund(&mut c, MARKET_ID), Err(SettlementError::Unauthorized));
    let mut c = refund_ctx(ADMIN, MarketStatus::Cancelled);
    c.user_ata.mint = key(77);
    assert_eq!(refund(&mut c, MARKET_ID), Err(SettlementError::InvalidMint));
    let mut c = refund_ctx(ADMIN, MarketStatus::Cancelled);
    assert_eq!(refund(&mut c, MARKET_ID + 1), Err(SettlementError::MarketMismatch));
    let mut c = refund_ctx(ADMIN, MarketStatus::Cancelled);
    c.vault_token_account.mint = key(77);
    assert_eq!(refund(&mut c, MARKET_ID), Err(SettlementError::InvalidMint));
    let mut c = refund_ctx(RESOLVER, MarketStatus::Cancelled);
    assert_eq!(refund(&mut c, MARKET_ID), Err(SettlementError::Unauthorized));
    let mut c = refund_ctx(ADMIN, MarketStatus::Cancelled);
    c.market.market_id = 7;
    assert_eq!(refund(&mut c, MARKET_ID), Err(SettlementError::MarketMismatch));
    let mut c = refund_ctx(ADMIN, MarketStatus::Resolved);
    let before = c.clone();
    assert_eq!(refund(&mut c, MARKET_ID), Err(SettlementError::InvalidMarketStatus));
    assert_eq!(c, before);
}

#[test]
fn a_recorded_resolution_is_final() {
    let mut ctx = submit_ctx(RESOLVER, MarketStatus::PendingResolution);
    assert_eq!(submit_resolution(&mut ctx, MARKET_ID, 500_000, 1_900_000_000), Ok(()));
    let recorded = ctx.resolution;
    assert_eq!(submit_resolution(&mut ctx, MARKET_ID, 900_000, 1_900_000_100), Err(SettlementError::AlreadyInitialized));
    assert_eq!(ctx.resolution, recorded);
    // The admin cannot overwrite it either.
    ctx.resolver = key(ADMIN);
    assert_eq!(submit_resolution(&mut ctx, MARKET_ID, 0, 1_900_000_200), Err(SettlementError::AlreadyInitialized));
    assert_eq!(ctx.resolution, recorded);
}

#[test]
fn settlement_accounts_are_created_once() {
    let mut ctx = InitializeProtocol {
        admin: key(ADMIN),
        protocol_config: ProtocolConfig { admin: zero(), resolver: zero(), bump: 0 },
        protocol_config_bump: 200,
    };
    assert_eq!(initialize_protocol(&mut ctx, key(RESOLVER)), Ok(()));
    ctx.admin = key(ALICE);
    assert_eq!(initialize_protocol(&mut ctx, key(ALICE)), Err(SettlementError::AlreadyInitialized));
    assert_eq!(ctx.protocol_config, config());
    let mut setup = init_ctx(ADMIN);
    assert_eq!(init_market_settlement(&mut setup, MARKET_ID), Ok(()));
    assert_eq!(init_market_settlement(&mut setup, MARKET_ID), Err(SettlementError::AlreadyInitialized));
    assert_eq!(setup.vault_authority, authority());
}
