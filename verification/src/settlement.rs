//! Resolution of Markets, Claims of Payouts and Refunds.
use vstd::prelude::*;

use crate::address::{zero_view, Address};
use crate::market::{Market, MarketStatus};
use crate::token::{MintInfo, TokenAccountInfo};
use crate::vault::{long_notional, short_notional, MarketVault, PositionSide, UserPosition, SCALE};

verus! {

/// Protocol-wide configuration of the settlement program.
#[derive(Clone, Copy, Debug, PartialEq, Eq)]
pub struct ProtocolConfig {
    pub admin: Address,
    pub resolver: Address,
    pub bump: u8,
}

/// The recorded Resolution of one Market.
#[derive(Clone, Copy, Debug, PartialEq, Eq)]
pub struct Resolution {
    pub market_id: u64,
    pub observed_value: u64,
    pub lower_bound: u64,
    pub upper_bound: u64,
    pub payoff_ratio: u64,
    pub resolver: Address,
    pub resolved_at: i64,
    pub vault_authority: Address,
    pub bump: u8,
}

/// Record of the Claim of one Position: a user's Long or Short Position in one Market.
#[derive(Clone, Copy, Debug, PartialEq, Eq)]
pub struct ClaimReceipt {
    pub market_id: u64,
    pub user: Address,
    pub side: PositionSide,
    pub amount: u64,
    pub claimed: bool,
    pub bump: u8,
}

/// Record of the Refund of one Position: a user's Long or Short Position in one Market.
#[derive(Clone, Copy, Debug, PartialEq, Eq)]
pub struct RefundReceipt {
    pub market_id: u64,
    pub user: Address,
    pub side: PositionSide,
    pub amount: u64,
    pub refunded: bool,
    pub bump: u8,
}

/// The settlement program's authority over one Market Vault.
#[derive(Clone, Copy, Debug, PartialEq, Eq)]
pub struct VaultAuthority {
    pub market_id: u64,
    pub token_mint: Address,
    pub vault_token_account: Address,
    pub bump: u8,
}

/// Errors of the settlement program.
#[derive(Clone, Copy, Debug, PartialEq, Eq, Structural)]
pub enum SettlementError {
    InvalidBounds,
    MathOverflow,
    AlreadyClaimed,
    Unauthorized,
    MarketMismatch,
    InvalidMarketStatus,
    InvalidVaultAuthority,
    InvalidMint,
    AlreadyRefunded,
    AlreadyInitialized,
}

/// Accounts of `initialize_protocol`.
#[derive(Clone, Copy, Debug, PartialEq, Eq)]
pub struct InitializeProtocol {
    pub admin: Address,
    pub protocol_config: ProtocolConfig,
    /// Bump of the configuration's program address.
    pub protocol_config_bump: u8,
}

/// Accounts of `update_resolver`.
#[derive(Clone, Copy, Debug, PartialEq, Eq)]
pub struct UpdateProtocolConfig {
    /// The signer, who must be the settlement admin.
    pub admin: Address,
    pub protocol_config: ProtocolConfig,
}

/// Accounts of `init_market_settlement`.
#[derive(Clone, Debug, PartialEq, Eq)]
pub struct InitMarketSettlement {
    pub admin: Address,
    pub protocol_config: ProtocolConfig,
    pub market: Market,
    /// Address of the Market account.
    pub market_key: Address,
    pub market_vault: MarketVault,
    /// The vault authority account being created.
    pub vault_authority: VaultAuthority,
    /// Address of the vault authority account.
    pub vault_authority_key: Address,
    /// Bump of the vault authority's program address.
    pub vault_authority_bump: u8,
}

/// Accounts of `submit_resolution`.
#[derive(Clone, Debug, PartialEq, Eq)]
pub struct SubmitResolution {
    /// The signer, who must be the resolver or the settlement admin.
    pub resolver: Address,
    pub protocol_config: ProtocolConfig,
    pub market: Market,
    pub vault_authority: VaultAuthority,
    /// Address of the vault authority account.
    pub vault_authority_key: Address,
    /// The Resolution account being created.
    pub resolution: Resolution,
    /// Bump of the Resolution's program address.
    pub resolution_bump: u8,
}

/// Accounts of `claim_payout`.
#[derive(Clone, Debug, PartialEq, Eq)]
pub struct ClaimPayout {
    pub user: Address,
    pub usdc_mint: MintInfo,
    pub user_ata: TokenAccountInfo,
    pub market: Market,
    pub resolution: Resolution,
    pub user_position: UserPosition,
    /// The receipt of this Position's Claim; all zero when it is created by this Claim.
    pub claim_receipt: ClaimReceipt,
    /// Bump of the receipt's program address.
    pub claim_receipt_bump: u8,
    pub vault_authority: VaultAuthority,
    /// Address of the vault authority account.
    pub vault_authority_key: Address,
    pub vault_token_account: TokenAccountInfo,
}

/// Accounts of `refund`.
#[derive(Clone, Debug, PartialEq, Eq)]
pub struct Refund {
    /// The signer, who must be the settlement admin.
    pub admin: Address,
    pub protocol_config: ProtocolConfig,
    pub market: Market,
    pub usdc_mint: MintInfo,
    pub user_ata: TokenAccountInfo,
    pub user_position: UserPosition,
    /// The receipt of this Position's Refund; all zero when it is created by this Refund.
    pub refund_receipt: RefundReceipt,
    /// Bump of the receipt's program address.
    pub refund_receipt_bump: u8,
    pub vault_authority: VaultAuthority,
    /// Address of the vault authority account.
    pub vault_authority_key: Address,
    pub vault_token_account: TokenAccountInfo,
}

/// The payoff ratio of a linear payoff between `lower` and `upper`, scaled by `SCALE`: 0 at or
/// below the lower bound, `SCALE` at or above the upper bound, and linear in between, rounded
/// down.
pub open spec fn payoff_ratio(observed: u64, lower: u64, upper: u64) -> int {
    if observed <= lower {
        0
    } else if observed >= upper {
        SCALE as int
    } else {
        ((observed - lower) * SCALE) / ((upper - lower) as int)
    }
}

/// Whether computing the payoff ratio stays within `u64`: it does unless the observed value lies
/// strictly between the bounds and `(observed - lower) * SCALE` exceeds `u64::MAX`.
pub open spec fn payoff_fits(observed: u64, lower: u64, upper: u64) -> bool {
    observed <= lower || observed >= upper || (observed - lower) * SCALE <= u64::MAX
}

/// The Payout owed to `quantity` of a Position on `side` for a payoff ratio: Long gets
/// `quantity * ratio` rounded down, Short gets the rest of the quantity, so that the two Payouts of
/// the same quantity add up to it; a ratio of `SCALE` or more gives the Short side nothing.
pub open spec fn position_payout(quantity: u64, side: PositionSide, payoff_ratio: u64) -> int {
    let long: int = (quantity * payoff_ratio) / (SCALE as int);
    match side {
        PositionSide::Long => long,
        PositionSide::Short => if payoff_ratio >= SCALE {
            0
        } else {
            quantity - long
        },
    }
}

/// What `calculate_position_payout` returns: the Payout, or an overflow error when it exceeds
/// `u64::MAX`.
pub open spec fn position_payout_result(quantity: u64, side: PositionSide, payoff_ratio: u64) -> Result<
    u64,
    SettlementError,
> {
    if position_payout(quantity, side, payoff_ratio) <= u64::MAX {
        Ok(position_payout(quantity, side, payoff_ratio) as u64)
    } else {
        Err(SettlementError::MathOverflow)
    }
}

/// Whether computing the payoff ratio of `observed` between `lower` and `upper` stays within
/// `u64`, which `calculate_payoff` and `submit_resolution` need.
pub fn payoff_computable(observed: u64, lower: u64, upper: u64) -> (r: bool)
    ensures
        r == payoff_fits(observed, lower, upper),
{
    if observed <= lower || observed >= upper {
        return true;
    }
    (observed - lower).checked_mul(SCALE).is_some()
}

/// The payoff ratio, scaled by `SCALE`, of an observed value on the linear payoff curve between
/// `lower` and `upper`.
pub fn calculate_payoff(observed: u64, lower: u64, upper: u64) -> (r: u64)
    requires
        payoff_fits(observed, lower, upper),
    ensures
        r == payoff_ratio(observed, lower, upper),
        r <= SCALE,
{
    if observed <= lower {
        return 0;
    }
    if observed >= upper {
        return SCALE;
    }
    let r = (observed - lower) * SCALE / (upper - lower);
    proof {
        let d: int = observed - lower;
        let w: int = upper - lower;
        assert(d * SCALE / w <= SCALE) by (nonlinear_arith)
            requires
                0 < d < w,
                SCALE == 1_000_000u64,
        ;
    }
    r
}

/// The Payout owed to a Position of `quantity` on `side` for the given payoff ratio.
pub fn calculate_position_payout(quantity: u64, side: PositionSide, payoff_ratio: u64) -> (r: Result<
    u64,
    SettlementError,
>)
    ensures
        r == position_payout_result(quantity, side, payoff_ratio),
{
    if side == PositionSide::Short && payoff_ratio >= SCALE {
        return Ok(0);
    }
    let q: u128 = quantity as u128;
    let f: u128 = payoff_ratio as u128;
    proof {
        assert(q * f <= u64::MAX * u64::MAX) by (nonlinear_arith)
            requires
                q <= u64::MAX,
                f <= u64::MAX,
        ;
    }
    let numerator = match q.checked_mul(f) {
        Some(v) => v,
        None => return Err(SettlementError::MathOverflow),
    };
    let long = numerator / (SCALE as u128);
    match side {
        PositionSide::Long => {
            if long > u64::MAX as u128 {
                return Err(SettlementError::MathOverflow);
            }
            Ok(long as u64)
        },
        PositionSide::Short => {
            proof {
                assert(long <= quantity) by (nonlinear_arith)
                    requires
                        long == (numerator as int) / 1_000_000int,
                        numerator == q * f,
                        f < 1_000_000,
                        q == quantity,
                ;
            }
            Ok(quantity - long as u64)
        },
    }
}

/// Whether the settlement configuration account has not been initialized yet: it has no admin.
pub open spec fn settlement_config_is_fresh(config: ProtocolConfig) -> bool {
    config.admin@ == zero_view()
}

/// Whether a vault authority account has not been created yet: it names no vault token account.
pub open spec fn vault_authority_is_fresh(authority: VaultAuthority) -> bool {
    authority.vault_token_account@ == zero_view()
}

/// Whether a Resolution account holds no recorded Resolution: it names no resolver.
pub open spec fn resolution_is_fresh(resolution: Resolution) -> bool {
    resolution.resolver@ == zero_view()
}

/// The result of `init_market_settlement` on the given accounts.
pub open spec fn init_market_settlement_outcome(ctx: InitMarketSettlement, market_id: u64) -> Result<
    InitMarketSettlement,
    SettlementError,
> {
    if !vault_authority_is_fresh(ctx.vault_authority) {
        Err(SettlementError::AlreadyInitialized)
    } else if ctx.admin@ != ctx.protocol_config.admin@ {
        Err(SettlementError::Unauthorized)
    } else if ctx.market.market_id != market_id {
        Err(SettlementError::MarketMismatch)
    } else if ctx.market_vault.market_id != market_id {
        Err(SettlementError::MarketMismatch)
    } else if ctx.market_vault.market@ != ctx.market_key@ {
        Err(SettlementError::MarketMismatch)
    } else if ctx.market_vault.settlement_authority@ != ctx.vault_authority_key@ {
        Err(SettlementError::InvalidVaultAuthority)
    } else {
        Ok(
            InitMarketSettlement {
                vault_authority: VaultAuthority {
                    market_id,
                    token_mint: ctx.market_vault.token_mint,
                    vault_token_account: ctx.market_vault.vault_token_account,
                    bump: ctx.vault_authority_bump,
                },
                ..ctx
            },
        )
    }
}

/// The error `submit_resolution` fails with, if any.
pub open spec fn submit_resolution_error(ctx: SubmitResolution, market_id: u64) -> Option<
    SettlementError,
> {
    if !resolution_is_fresh(ctx.resolution) {
        Some(SettlementError::AlreadyInitialized)
    } else if ctx.resolver@ != ctx.protocol_config.resolver@ && ctx.resolver@
        != ctx.protocol_config.admin@ {
        Some(SettlementError::Unauthorized)
    } else if ctx.market.market_id != market_id {
        Some(SettlementError::MarketMismatch)
    } else if ctx.market.status != MarketStatus::PendingResolution {
        Some(SettlementError::InvalidMarketStatus)
    } else if ctx.vault_authority.market_id != market_id {
        Some(SettlementError::MarketMismatch)
    } else {
        None
    }
}

/// The Resolution that `submit_resolution` records, `now` being the cluster time.
pub open spec fn recorded_resolution(
    ctx: SubmitResolution,
    market_id: u64,
    observed_value: u64,
    now: i64,
) -> Resolution {
    Resolution {
        market_id,
        observed_value,
        lower_bound: ctx.market.lower_bound,
        upper_bound: ctx.market.upper_bound,
        payoff_ratio: payoff_ratio(observed_value, ctx.market.lower_bound, ctx.market.upper_bound)
            as u64,
        resolver: ctx.resolver,
        resolved_at: now,
        vault_authority: ctx.vault_authority_key,
        bump: ctx.resolution_bump,
    }
}

/// Whether a Market pays out Claims: it is Resolved or Settled. A Cancelled Market returns
/// Collateral through Refunds only.
pub open spec fn pays_out(status: MarketStatus) -> bool {
    status == MarketStatus::Resolved || status == MarketStatus::Settled
}

/// The result of `claim_payout` on the given accounts: the accounts after it and the amount to
/// pay out, or the error it fails with.
pub open spec fn claim_outcome(ctx: ClaimPayout, market_id: u64) -> Result<
    (ClaimPayout, u64),
    SettlementError,
> {
    if ctx.user_ata.owner@ != ctx.user@ {
        Err(SettlementError::Unauthorized)
    } else if ctx.user_ata.mint@ != ctx.usdc_mint.key@ {
        Err(SettlementError::InvalidMint)
    } else if ctx.user_position.owner@ != ctx.user@ {
        Err(SettlementError::Unauthorized)
    } else if ctx.user_position.market_id != market_id {
        Err(SettlementError::MarketMismatch)
    } else if ctx.resolution.vault_authority@ != ctx.vault_authority_key@ {
        Err(SettlementError::InvalidVaultAuthority)
    } else if ctx.vault_authority.token_mint@ != ctx.usdc_mint.key@ {
        Err(SettlementError::InvalidMint)
    } else if ctx.vault_token_account.owner@ != ctx.vault_authority_key@ {
        Err(SettlementError::InvalidVaultAuthority)
    } else if ctx.vault_token_account.mint@ != ctx.usdc_mint.key@ {
        Err(SettlementError::InvalidMint)
    } else if ctx.resolution.market_id != market_id {
        Err(SettlementError::MarketMismatch)
    } else if ctx.market.market_id != market_id {
        Err(SettlementError::MarketMismatch)
    } else if !pays_out(ctx.market.status) {
        Err(SettlementError::InvalidMarketStatus)
    } else if ctx.claim_receipt.claimed {
        Err(SettlementError::AlreadyClaimed)
    } else {
        match position_payout_result(
            ctx.user_position.quantity,
            ctx.user_position.side,
            ctx.resolution.payoff_ratio,
        ) {
            Err(e) => Err(e),
            Ok(amount) => Ok(
                (
                    ClaimPayout {
                        claim_receipt: ClaimReceipt {
                            market_id,
                            user: ctx.user,
                            side: ctx.user_position.side,
                            amount,
                            claimed: true,
                            bump: ctx.claim_receipt_bump,
                        },
                        ..ctx
                    },
                    amount,
                ),
            ),
        }
    }
}

/// The result of `refund` on the given accounts: the accounts after it and the amount to pay
/// back, or the error it fails with.
pub open spec fn refund_outcome(ctx: Refund, market_id: u64) -> Result<(Refund, u64), SettlementError> {
    if ctx.user_ata.owner@ != ctx.user_position.owner@ {
        Err(SettlementError::Unauthorized)
    } else if ctx.user_ata.mint@ != ctx.usdc_mint.key@ {
        Err(SettlementError::InvalidMint)
    } else if ctx.user_position.market_id != market_id {
        Err(SettlementError::MarketMismatch)
    } else if ctx.vault_authority.token_mint@ != ctx.usdc_mint.key@ {
        Err(SettlementError::InvalidMint)
    } else if ctx.vault_token_account.owner@ != ctx.vault_authority_key@ {
        Err(SettlementError::InvalidVaultAuthority)
    } else if ctx.vault_token_account.mint@ != ctx.usdc_mint.key@ {
        Err(SettlementError::InvalidMint)
    } else if ctx.admin@ != ctx.protocol_config.admin@ {
        Err(SettlementError::Unauthorized)
    } else if ctx.market.market_id != market_id {
        Err(SettlementError::MarketMismatch)
    } else if ctx.market.status != MarketStatus::Cancelled {
        Err(SettlementError::InvalidMarketStatus)
    } else if ctx.refund_receipt.refunded {
        Err(SettlementError::AlreadyRefunded)
    } else {
        let amount = ctx.user_position.cost_basis;
        Ok(
            (
                Refund {
                    refund_receipt: RefundReceipt {
                        market_id,
                        user: ctx.user_position.owner,
                        side: ctx.user_position.side,
                        amount,
                        refunded: true,
                        bump: ctx.refund_receipt_bump,
                    },
                    ..ctx
                },
                amount,
            ),
        )
    }
}

/// Initializes the settlement configuration with the signer as admin and the given resolver.
pub fn initialize_protocol(ctx: &mut InitializeProtocol, resolver: Address) -> (r: Result<
    (),
    SettlementError,
>)
    ensures
        settlement_config_is_fresh(old(ctx).protocol_config) ==> r is Ok && *final(ctx) == (
        InitializeProtocol {
            protocol_config: ProtocolConfig {
                admin: old(ctx).admin,
                resolver,
                bump: old(ctx).protocol_config_bump,
            },
            ..*old(ctx)
        }),
        !settlement_config_is_fresh(old(ctx).protocol_config) ==> r == Err::<(), SettlementError>(
            SettlementError::AlreadyInitialized,
        ) && *final(ctx) == *old(ctx),
{
    if !ctx.protocol_config.admin.is_default() {
        return Err(SettlementError::AlreadyInitialized);
    }
    ctx.protocol_config = ProtocolConfig {
        admin: ctx.admin,
        resolver,
        bump: ctx.protocol_config_bump,
    };
    Ok(())
}

/// Replaces the resolver; only the settlement admin may do so.
pub fn update_resolver(ctx: &mut UpdateProtocolConfig, resolver: Address) -> (r: Result<
    (),
    SettlementError,
>)
    ensures
        old(ctx).admin@ == old(ctx).protocol_config.admin@ ==> r is Ok && *final(ctx) == (
        UpdateProtocolConfig {
            protocol_config: ProtocolConfig { resolver, ..old(ctx).protocol_config },
            ..*old(ctx)
        }),
        old(ctx).admin@ != old(ctx).protocol_config.admin@ ==> r == Err::<(), SettlementError>(
            SettlementError::Unauthorized,
        ) && *final(ctx) == *old(ctx),
{
    if !ctx.admin.same(&ctx.protocol_config.admin) {
        return Err(SettlementError::Unauthorized);
    }
    ctx.protocol_config.resolver = resolver;
    Ok(())
}

/// Creates the settlement program's authority over the Vault of a Market; only the settlement
/// admin may do so, and the Vault must name that authority as its settlement authority.
pub fn init_market_settlement(ctx: &mut InitMarketSettlement, market_id: u64) -> (r: Result<
    (),
    SettlementError,
>)
    ensures
        match init_market_settlement_outcome(*old(ctx), market_id) {
            Ok(post) => r is Ok && *final(ctx) == post,
            Err(e) => r == Err::<(), SettlementError>(e) && *final(ctx) == *old(ctx),
        },
{
    if !ctx.vault_authority.vault_token_account.is_default() {
        return Err(SettlementError::AlreadyInitialized);
    }
    if !ctx.admin.same(&ctx.protocol_config.admin) {
        return Err(SettlementError::Unauthorized);
    }
    if ctx.market.market_id != market_id {
        return Err(SettlementError::MarketMismatch);
    }
    if ctx.market_vault.market_id != market_id {
        return Err(SettlementError::MarketMismatch);
    }
    if !ctx.market_vault.market.same(&ctx.market_key) {
        return Err(SettlementError::MarketMismatch);
    }
    if !ctx.market_vault.settlement_authority.same(&ctx.vault_authority_key) {
        return Err(SettlementError::InvalidVaultAuthority);
    }
    ctx.vault_authority = VaultAuthority {
        market_id,
        token_mint: ctx.market_vault.token_mint,
        vault_token_account: ctx.market_vault.vault_token_account,
        bump: ctx.vault_authority_bump,
    };
    Ok(())
}

/// The checks `submit_resolution` makes before computing the payoff ratio: the signer is the
/// resolver or the settlement admin, and the Market and vault authority are those of
/// `market_id`, with the Market pending Resolution.
pub fn check_submit_resolution(ctx: &SubmitResolution, market_id: u64) -> (r: Result<
    (),
    SettlementError,
>)
    ensures
        match submit_resolution_error(*ctx, market_id) {
            Some(e) => r == Err::<(), SettlementError>(e),
            None => r is Ok,
        },
{
    if !ctx.resolution.resolver.is_default() {
        return Err(SettlementError::AlreadyInitialized);
    }
    if !ctx.resolver.same(&ctx.protocol_config.resolver) && !ctx.resolver.same(
        &ctx.protocol_config.admin,
    ) {
        return Err(SettlementError::Unauthorized);
    }
    if ctx.market.market_id != market_id {
        return Err(SettlementError::MarketMismatch);
    }
    if ctx.market.status != MarketStatus::PendingResolution {
        return Err(SettlementError::InvalidMarketStatus);
    }
    if ctx.vault_authority.market_id != market_id {
        return Err(SettlementError::MarketMismatch);
    }
    Ok(())
}

/// Records the Resolution of a Market pending Resolution: the observed value and its payoff
/// ratio. Only the resolver or the settlement admin may do so; `now` is the cluster's current
/// Unix timestamp.
pub fn submit_resolution(
    ctx: &mut SubmitResolution,
    market_id: u64,
    observed_value: u64,
    now: i64,
) -> (r: Result<(), SettlementError>)
    requires
        submit_resolution_error(*old(ctx), market_id) is None ==> payoff_fits(
            observed_value,
            old(ctx).market.lower_bound,
            old(ctx).market.upper_bound,
        ),
    ensures
        match submit_resolution_error(*old(ctx), market_id) {
            Some(e) => r == Err::<(), SettlementError>(e) && *final(ctx) == *old(ctx),
            None => r is Ok && *final(ctx) == (SubmitResolution {
                resolution: recorded_resolution(*old(ctx), market_id, observed_value, now),
                ..*old(ctx)
            }),
        },
{
    check_submit_resolution(ctx, market_id)?;
    let ratio = calculate_payoff(observed_value, ctx.market.lower_bound, ctx.market.upper_bound);
    ctx.resolution = Resolution {
        market_id,
        observed_value,
        lower_bound: ctx.market.lower_bound,
        upper_bound: ctx.market.upper_bound,
        payoff_ratio: ratio,
        resolver: ctx.resolver,
        resolved_at: now,
        vault_authority: ctx.vault_authority_key,
        bump: ctx.resolution_bump,
    };
    Ok(())
}

/// Claims the Payout of the user's Position in a Resolved or Settled Market from the Market's
/// Resolution, once per Position: it returns the
/// amount, which the caller transfers from the Market Vault to the user, and marks the receipt
/// as claimed.
pub fn claim_payout(ctx: &mut ClaimPayout, market_id: u64) -> (r: Result<u64, SettlementError>)
    ensures
        match claim_outcome(*old(ctx), market_id) {
            Ok((post, amount)) => r == Ok::<u64, SettlementError>(amount) && *final(ctx) == post,
            Err(e) => r == Err::<u64, SettlementError>(e) && *final(ctx) == *old(ctx),
        },
{
    if !ctx.user_ata.owner.same(&ctx.user) {
        return Err(SettlementError::Unauthorized);
    }
    if !ctx.user_ata.mint.same(&ctx.usdc_mint.key) {
        return Err(SettlementError::InvalidMint);
    }
    if !ctx.user_position.owner.same(&ctx.user) {
        return Err(SettlementError::Unauthorized);
    }
    if ctx.user_position.market_id != market_id {
        return Err(SettlementError::MarketMismatch);
    }
    if !ctx.resolution.vault_authority.same(&ctx.vault_authority_key) {
        return Err(SettlementError::InvalidVaultAuthority);
    }
    if !ctx.vault_authority.token_mint.same(&ctx.usdc_mint.key) {
        return Err(SettlementError::InvalidMint);
    }
    if !ctx.vault_token_account.owner.same(&ctx.vault_authority_key) {
        return Err(SettlementError::InvalidVaultAuthority);
    }
    if !ctx.vault_token_account.mint.same(&ctx.usdc_mint.key) {
        return Err(SettlementError::InvalidMint);
    }
    if ctx.resolution.market_id != market_id {
        return Err(SettlementError::MarketMismatch);
    }
    if ctx.market.market_id != market_id {
        return Err(SettlementError::MarketMismatch);
    }
    if ctx.market.status != MarketStatus::Resolved && ctx.market.status != MarketStatus::Settled {
        return Err(SettlementError::InvalidMarketStatus);
    }
    if ctx.claim_receipt.claimed {
        return Err(SettlementError::AlreadyClaimed);
    }
    let amount = match calculate_position_payout(
        ctx.user_position.quantity,
        ctx.user_position.side,
        ctx.resolution.payoff_ratio,
    ) {
        Ok(v) => v,
        Err(e) => return Err(e),
    };
    ctx.claim_receipt = ClaimReceipt {
        market_id,
        user: ctx.user,
        side: ctx.user_position.side,
        amount,
        claimed: true,
        bump: ctx.claim_receipt_bump,
    };
    Ok(amount)
}

/// Refunds the Collateral a user put into a Position of a Cancelled Market, once per Position: it returns the
/// Position's Cost Basis, which the caller transfers from the Market Vault to the user, and
/// marks the receipt as refunded. Only the settlement admin may do so.
pub fn refund(ctx: &mut Refund, market_id: u64) -> (r: Result<u64, SettlementError>)
    ensures
        match refund_outcome(*old(ctx), market_id) {
            Ok((post, amount)) => r == Ok::<u64, SettlementError>(amount) && *final(ctx) == post,
            Err(e) => r == Err::<u64, SettlementError>(e) && *final(ctx) == *old(ctx),
        },
{
    if !ctx.user_ata.owner.same(&ctx.user_position.owner) {
        return Err(SettlementError::Unauthorized);
    }
    if !ctx.user_ata.mint.same(&ctx.usdc_mint.key) {
        return Err(SettlementError::InvalidMint);
    }
    if ctx.user_position.market_id != market_id {
        return Err(SettlementError::MarketMismatch);
    }
    if !ctx.vault_authority.token_mint.same(&ctx.usdc_mint.key) {
        return Err(SettlementError::InvalidMint);
    }
    if !ctx.vault_token_account.owner.same(&ctx.vault_authority_key) {
        return Err(SettlementError::InvalidVaultAuthority);
    }
    if !ctx.vault_token_account.mint.same(&ctx.usdc_mint.key) {
        return Err(SettlementError::InvalidMint);
    }
    if !ctx.admin.same(&ctx.protocol_config.admin) {
        return Err(SettlementError::Unauthorized);
    }
    if ctx.market.market_id != market_id {
        return Err(SettlementError::MarketMismatch);
    }
    if ctx.market.status != MarketStatus::Cancelled {
        return Err(SettlementError::InvalidMarketStatus);
    }
    if ctx.refund_receipt.refunded {
        return Err(SettlementError::AlreadyRefunded);
    }
    let amount = ctx.user_position.cost_basis;
    ctx.refund_receipt = RefundReceipt {
        market_id,
        user: ctx.user_position.owner,
        side: ctx.user_position.side,
        amount,
        refunded: true,
        bump: ctx.refund_receipt_bump,
    };
    Ok(amount)
}

/// The payoff ratio lies in `[0, SCALE]`; it is 0 at or below the lower bound and `SCALE` at or
/// above the upper bound.
pub proof fn lemma_payoff_bounds(observed: u64, lower: u64, upper: u64)
    ensures
        0 <= payoff_ratio(observed, lower, upper) <= SCALE,
        observed <= lower ==> payoff_ratio(observed, lower, upper) == 0,
        observed >= upper && observed > lower ==> payoff_ratio(observed, lower, upper) == SCALE,
{
    if lower < observed < upper {
        let d: int = observed - lower;
        let w: int = upper - lower;
        assert(0 <= d * SCALE / w <= SCALE) by (nonlinear_arith)
            requires
                0 < d < w,
                SCALE == 1_000_000u64,
        ;
    }
}

/// The payoff ratio never decreases as the observed value grows.
pub proof fn lemma_payoff_monotonic(a: u64, b: u64, lower: u64, upper: u64)
    requires
        a <= b,
    ensures
        payoff_ratio(a, lower, upper) <= payoff_ratio(b, lower, upper),
{
    lemma_payoff_bounds(a, lower, upper);
    lemma_payoff_bounds(b, lower, upper);
    if lower < a && b < upper {
        let da: int = a - lower;
        let db: int = b - lower;
        let w: int = upper - lower;
        assert(da * SCALE / w <= db * SCALE / w) by (nonlinear_arith)
            requires
                0 < da <= db,
                0 < w,
                SCALE == 1_000_000u64,
        ;
    }
}

/// The Long and Short Payouts of the same Quantity add up to exactly the Quantity, for any payoff
/// ratio in `[0, SCALE]`; each lies between nothing and the Quantity.
pub proof fn lemma_long_short_payouts_sum(quantity: u64, payoff_ratio: u64)
    requires
        payoff_ratio <= SCALE,
    ensures
        position_payout(quantity, PositionSide::Long, payoff_ratio) + position_payout(
            quantity,
            PositionSide::Short,
            payoff_ratio,
        ) == quantity,
        0 <= position_payout(quantity, PositionSide::Long, payoff_ratio) <= quantity,
        0 <= position_payout(quantity, PositionSide::Short, payoff_ratio) <= quantity,
{
    assert(0 <= (quantity * payoff_ratio) / 1_000_000int <= quantity) by (nonlinear_arith)
        requires
            payoff_ratio <= 1_000_000,
            0 <= quantity,
            0 <= payoff_ratio,
    ;
    if payoff_ratio == SCALE {
        assert((quantity * payoff_ratio) / 1_000_000int == quantity) by (nonlinear_arith)
            requires
                payoff_ratio == 1_000_000,
        ;
    }
}

/// Solvency of a Trade: whatever the Resolution, the Payouts of the Long and Short Positions a
/// Trade opens add up to exactly the Collateral that Trade Execution locked for them.
pub proof fn lemma_trade_collateral_covers_payouts(
    quantity: u64,
    price_scaled: u64,
    payoff_ratio: u64,
)
    requires
        price_scaled <= SCALE,
        payoff_ratio <= SCALE,
    ensures
        position_payout(quantity, PositionSide::Long, payoff_ratio) + position_payout(
            quantity,
            PositionSide::Short,
            payoff_ratio,
        ) == long_notional(quantity, price_scaled) + short_notional(quantity, price_scaled),
{
    crate::vault::lemma_notional_split(quantity, price_scaled);
    lemma_long_short_payouts_sum(quantity, payoff_ratio);
}

/// A Payout is never negative, whatever the payoff ratio.
pub proof fn lemma_payout_nonnegative(quantity: u64, side: PositionSide, payoff_ratio: u64)
    ensures
        0 <= position_payout(quantity, side, payoff_ratio),
{
    if payoff_ratio < SCALE {
        lemma_long_short_payouts_sum(quantity, payoff_ratio);
    } else {
        assert(0 <= (quantity * payoff_ratio) / 1_000_000int) by (nonlinear_arith)
            requires
                0 <= quantity,
                0 <= payoff_ratio,
        ;
    }
}

/// A Payout for a ratio within `[0, SCALE]` fits in `u64`, so claiming it never overflows.
pub proof fn lemma_payout_fits(quantity: u64, side: PositionSide, payoff_ratio: u64)
    requires
        payoff_ratio <= SCALE,
    ensures
        position_payout_result(quantity, side, payoff_ratio) is Ok,
        position_payout(quantity, side, payoff_ratio) <= quantity,
{
    lemma_long_short_payouts_sum(quantity, payoff_ratio);
}

/// A Payout is claimed at most once: the accounts a successful Claim leaves behind refuse a
/// second Claim.
pub proof fn lemma_claim_once(ctx: ClaimPayout, market_id: u64)
    requires
        claim_outcome(ctx, market_id) is Ok,
    ensures
        claim_outcome(claim_outcome(ctx, market_id)->Ok_0.0, market_id) == Err::<
            (ClaimPayout, u64),
            SettlementError,
        >(SettlementError::AlreadyClaimed),
{
}

/// A Refund is paid at most once: the accounts a successful Refund leaves behind refuse a second
/// Refund.
pub proof fn lemma_refund_once(ctx: Refund, market_id: u64)
    requires
        refund_outcome(ctx, market_id) is Ok,
    ensures
        refund_outcome(refund_outcome(ctx, market_id)->Ok_0.0, market_id) == Err::<
            (Refund, u64),
            SettlementError,
        >(SettlementError::AlreadyRefunded),
{
}

/// A Claim pays the Position's Payout for the recorded payoff ratio, which depends on the
/// Position's Quantity and side only, not on its Cost Basis; a Refund pays back the Cost Basis
/// and happens only for a Cancelled Market.
pub proof fn lemma_payout_and_refund_basis(claim: ClaimPayout, refund: Refund, market_id: u64)
    ensures
        claim_outcome(claim, market_id) matches Ok((_, amount)) ==> amount == position_payout(
            claim.user_position.quantity,
            claim.user_position.side,
            claim.resolution.payoff_ratio,
        ),
        refund_outcome(refund, market_id) matches Ok((_, amount)) ==> amount
            == refund.user_position.cost_basis && refund.market.status == MarketStatus::Cancelled,
{
    lemma_payout_nonnegative(
        claim.user_position.quantity,
        claim.user_position.side,
        claim.resolution.payoff_ratio,
    );
}

/// Only the resolver or the settlement admin records a Resolution, and only for a Market pending
/// Resolution; the recorded payoff ratio lies in `[0, SCALE]`.
pub proof fn lemma_resolution_guarded(
    ctx: SubmitResolution,
    market_id: u64,
    observed_value: u64,
    now: i64,
)
    requires
        submit_resolution_error(ctx, market_id) is None,
    ensures
        ctx.resolver@ == ctx.protocol_config.resolver@ || ctx.resolver@
            == ctx.protocol_config.admin@,
        ctx.market.status == MarketStatus::PendingResolution,
        recorded_resolution(ctx, market_id, observed_value, now).payoff_ratio <= SCALE,
{
    lemma_payoff_bounds(observed_value, ctx.market.lower_bound, ctx.market.upper_bound);
}

/// A Market either pays Payouts or returns Refunds, never both: a Claim succeeds only for a
/// Resolved or Settled Market and a Refund only for a Cancelled one.
pub proof fn lemma_claims_and_refunds_exclusive(claim: ClaimPayout, refund: Refund, market_id: u64)
    requires
        claim.market.status == refund.market.status,
    ensures
        !(claim_outcome(claim, market_id) is Ok && refund_outcome(refund, market_id) is Ok),
        claim.market.status == MarketStatus::Cancelled ==> claim_outcome(claim, market_id) is Err,
{
}

/// Each Position is claimed on its own: after a user has claimed the Payout of one Position, the
/// Position of the other side in the same Market, with its own receipt, can still be claimed.
pub proof fn lemma_each_position_claims_once(
    ctx: ClaimPayout,
    other: UserPosition,
    fresh: ClaimReceipt,
    market_id: u64,
)
    requires
        claim_outcome(ctx, market_id) is Ok,
        other.owner == ctx.user_position.owner,
        other.market_id == market_id,
        other.side != ctx.user_position.side,
        !fresh.claimed,
        ctx.resolution.payoff_ratio <= SCALE,
    ensures
        claim_outcome(ctx, market_id)->Ok_0.0.claim_receipt.side == ctx.user_position.side,
        claim_outcome(
            ClaimPayout {
                user_position: other,
                claim_receipt: fresh,
                ..claim_outcome(ctx, market_id)->Ok_0.0
            },
            market_id,
        ) is Ok,
{
    lemma_payout_fits(other.quantity, other.side, ctx.resolution.payoff_ratio);
}

/// A recorded Resolution is final: once `submit_resolution` has recorded one, every later
/// submission on that Resolution account fails, whoever signs, for whatever Market and value, and
/// so leaves the recorded Resolution as it is.
pub proof fn lemma_resolution_is_final(
    first: SubmitResolution,
    market_id: u64,
    observed_value: u64,
    now: i64,
    later: SubmitResolution,
    later_market_id: u64,
)
    requires
        submit_resolution_error(first, market_id) is None,
        first.resolver@ != zero_view(),
        later.resolution == recorded_resolution(first, market_id, observed_value, now),
    ensures
        submit_resolution_error(later, later_market_id) == Some(SettlementError::AlreadyInitialized),
{
}

/// Settlement accounts are created once: a configuration or a vault authority that has been
/// initialized cannot be initialized again.
pub proof fn lemma_settlement_accounts_created_once(
    init: InitializeProtocol,
    resolver: Address,
    later_init: InitializeProtocol,
    setup: InitMarketSettlement,
    market_id: u64,
    later_setup: InitMarketSettlement,
    later_market_id: u64,
)
    requires
        init.admin@ != zero_view(),
        later_init.protocol_config == (ProtocolConfig {
            admin: init.admin,
            resolver,
            bump: init.protocol_config_bump,
        }),
        init_market_settlement_outcome(setup, market_id) is Ok,
        setup.market_vault.vault_token_account@ != zero_view(),
        later_setup.vault_authority == init_market_settlement_outcome(
            setup,
            market_id,
        )->Ok_0.vault_authority,
    ensures
        !settlement_config_is_fresh(later_init.protocol_config),
        init_market_settlement_outcome(later_setup, later_market_id) == Err::<
            InitMarketSettlement,
            SettlementError,
        >(SettlementError::AlreadyInitialized),
{
}

/// The settlement authority of a Market can be set up whatever the Market's status: changing only
/// the status of the Market account changes neither whether `init_market_settlement` succeeds,
/// nor its error, nor the vault authority it records.
pub proof fn lemma_settlement_setup_ignores_market_status(
    ctx: InitMarketSettlement,
    market_id: u64,
    status: MarketStatus,
)
    ensures
        ({
            let other = InitMarketSettlement { market: Market { status, ..ctx.market }, ..ctx };
            &&& (init_market_settlement_outcome(other, market_id) is Ok)
                == (init_market_settlement_outcome(ctx, market_id) is Ok)
            &&& init_market_settlement_outcome(ctx, market_id) is Err
                ==> init_market_settlement_outcome(other, market_id) == init_market_settlement_outcome(
                ctx,
                market_id,
            )
            &&& init_market_settlement_outcome(ctx, market_id) is Ok
                ==> init_market_settlement_outcome(other, market_id)->Ok_0.vault_authority
                == init_market_settlement_outcome(ctx, market_id)->Ok_0.vault_authority
        }),
{
}

/// The settlement admin sets up the settlement authority of a Market whose Vault names it: with a
/// new vault authority account and accounts that belong to `market_id`, the setup goes through
/// for a Market in any status and records the Market id, the Vault's mint and token account.
pub proof fn lemma_settlement_setup_accepted(ctx: InitMarketSettlement, market_id: u64)
    requires
        ctx.vault_authority.vault_token_account@ == zero_view(),
        ctx.admin@ == ctx.protocol_config.admin@,
        ctx.market.market_id == market_id,
        ctx.market_vault.market_id == market_id,
        ctx.market_vault.market@ == ctx.market_key@,
        ctx.market_vault.settlement_authority@ == ctx.vault_authority_key@,
    ensures
        init_market_settlement_outcome(ctx, market_id) matches Ok(post) && post.vault_authority == (
        VaultAuthority {
            market_id,
            token_mint: ctx.market_vault.token_mint,
            vault_token_account: ctx.market_vault.vault_token_account,
            bump: ctx.vault_authority_bump,
        }),
{
}

} // verus!
