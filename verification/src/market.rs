//! Protocol administration and the Market lifecycle.
use vstd::prelude::*;
use vstd::utf8::encode_utf8;

use crate::address::{zero_view, Address};
use crate::settlement::Resolution;

verus! {

/// Longest Resolution Source, in UTF-8 bytes, that a Market may carry.
pub const SETTLEMENT_SOURCE_MAX_LEN: usize = 128;

/// Largest protocol fee, in basis points.
pub const MAX_FEE_BPS: u16 = 10_000;

/// Protocol-wide configuration of the market program.
#[derive(Clone, Copy, Debug, PartialEq, Eq)]
pub struct ProtocolConfig {
    pub admin: Address,
    pub fee_bps: u16,
    pub paused: bool,
    pub bump: u8,
}

/// The payoff curve of a Market.
#[derive(Clone, Copy, Debug, PartialEq, Eq, Structural)]
pub enum PayoffType {
    Linear,
    Sigmoid,
    Step,
    Convex,
    Concave,
}

/// Lifecycle state of a Market.
#[derive(Clone, Copy, Debug, PartialEq, Eq, Structural)]
pub enum MarketStatus {
    Preliminary,
    Active,
    Paused,
    PendingResolution,
    Resolved,
    Settled,
    Cancelled,
}

/// A capped continuous payoff Market.
#[derive(Clone, Debug, PartialEq, Eq)]
pub struct Market {
    pub market_id: u64,
    pub admin: Address,
    pub lower_bound: u64,
    pub upper_bound: u64,
    pub resolution_ts: i64,
    pub settlement_source: String,
    pub payoff_type: PayoffType,
    pub status: MarketStatus,
    pub min_participants: u16,
    pub participant_count: u16,
    pub total_long: u64,
    pub total_short: u64,
    pub bump: u8,
}

/// Event recorded when a Market is created.
#[derive(Clone, Copy, Debug, PartialEq, Eq)]
pub struct MarketCreated {
    pub market: Address,
    pub market_id: u64,
}

/// Errors of the market program.
#[derive(Clone, Copy, Debug, PartialEq, Eq, Structural)]
pub enum MarketError {
    Unauthorized,
    InvalidBounds,
    InvalidStatusTransition,
    ProtocolPaused,
    SettlementSourceTooLong,
    InsufficientParticipants,
    InvalidFeeBps,
    InvalidResolutionTs,
    UnsupportedPayoffType,
    ParticipantOverflow,
    ResolutionMissing,
    AlreadyInitialized,
}

/// Accounts of `initialize_protocol` and `initialize_protocol_for`.
#[derive(Clone, Copy, Debug, PartialEq, Eq)]
pub struct InitializeProtocol {
    /// The signer that pays for and initializes the configuration.
    pub admin: Address,
    pub protocol_config: ProtocolConfig,
    /// Bump of the configuration's program address.
    pub protocol_config_bump: u8,
}

/// Accounts of the instructions that change the protocol configuration.
#[derive(Clone, Copy, Debug, PartialEq, Eq)]
pub struct UpdateProtocolConfig {
    /// The signer, who must be the protocol admin.
    pub admin: Address,
    pub protocol_config: ProtocolConfig,
}

/// Accounts of `create_market`.
#[derive(Clone, Debug, PartialEq, Eq)]
pub struct CreateMarket {
    /// The signer, who must be the protocol admin.
    pub admin: Address,
    pub protocol_config: ProtocolConfig,
    /// The Market account being created.
    pub market: Market,
    /// Address of the Market account.
    pub market_key: Address,
    /// Bump of the Market's program address.
    pub market_bump: u8,
}

/// Accounts of the admin actions on one Market.
#[derive(Clone, Debug, PartialEq, Eq)]
pub struct AdminMarketAction {
    /// The signer, who must be the protocol admin.
    pub admin: Address,
    pub protocol_config: ProtocolConfig,
    pub market: Market,
}

/// Accounts of `mark_resolved`.
#[derive(Clone, Debug, PartialEq, Eq)]
pub struct MarkResolved {
    /// The signer, who must be the protocol admin.
    pub admin: Address,
    pub protocol_config: ProtocolConfig,
    pub market: Market,
    /// The Resolution account of the Market, all zero when none has been recorded.
    pub resolution: Resolution,
}

/// The admin actions, other than marking a Market Resolved, that move a Market through its
/// lifecycle.
#[derive(Clone, Copy, Debug, PartialEq, Eq, Structural)]
pub enum LifecycleAction {
    Activate,
    ForceActivate,
    Pause,
    Resume,
    Close,
    MarkSettled,
    Cancel,
}

/// Whether the protocol configuration account has not been initialized yet: it has no admin.
pub open spec fn config_is_fresh(config: ProtocolConfig) -> bool {
    config.admin@ == zero_view()
}

/// Whether a Market account has not been created yet: it has no admin.
pub open spec fn market_is_fresh(market: Market) -> bool {
    market.admin@ == zero_view()
}

/// The configuration that protocol initialization writes.
pub open spec fn initialized_config(admin: Address, fee_bps: u16, bump: u8) -> ProtocolConfig {
    ProtocolConfig { admin, fee_bps, paused: false, bump }
}

/// Whether the signer of a Market action is the protocol admin.
pub open spec fn is_admin_of(signer: Address, config: ProtocolConfig) -> bool {
    signer@ == config.admin@
}

/// The status a lifecycle action leads to from the given accounts, or the error it fails with.
pub open spec fn lifecycle_outcome(action: LifecycleAction, ctx: AdminMarketAction) -> Result<
    MarketStatus,
    MarketError,
> {
    let status = ctx.market.status;
    if !is_admin_of(ctx.admin, ctx.protocol_config) {
        Err(MarketError::Unauthorized)
    } else {
        match action {
            LifecycleAction::Activate => {
                if status != MarketStatus::Preliminary {
                    Err(MarketError::InvalidStatusTransition)
                } else if ctx.market.participant_count < ctx.market.min_participants {
                    Err(MarketError::InsufficientParticipants)
                } else {
                    Ok(MarketStatus::Active)
                }
            },
            LifecycleAction::ForceActivate => {
                if status == MarketStatus::Preliminary {
                    Ok(MarketStatus::Active)
                } else {
                    Err(MarketError::InvalidStatusTransition)
                }
            },
            LifecycleAction::Pause => {
                if status == MarketStatus::Active {
                    Ok(MarketStatus::Paused)
                } else {
                    Err(MarketError::InvalidStatusTransition)
                }
            },
            LifecycleAction::Resume => {
                if status == MarketStatus::Paused {
                    Ok(MarketStatus::Active)
                } else {
                    Err(MarketError::InvalidStatusTransition)
                }
            },
            LifecycleAction::Close => {
                if status == MarketStatus::Active || status == MarketStatus::Paused {
                    Ok(MarketStatus::PendingResolution)
                } else {
                    Err(MarketError::InvalidStatusTransition)
                }
            },
            LifecycleAction::MarkSettled => {
                if status == MarketStatus::Resolved || status == MarketStatus::Cancelled {
                    Ok(MarketStatus::Settled)
                } else {
                    Err(MarketError::InvalidStatusTransition)
                }
            },
            LifecycleAction::Cancel => {
                if status != MarketStatus::Settled && status != MarketStatus::Resolved {
                    Ok(MarketStatus::Cancelled)
                } else {
                    Err(MarketError::InvalidStatusTransition)
                }
            },
        }
    }
}

/// Whether `resolution` is a Resolution recorded for `market`: it names the Market and the
/// resolver who submitted it.
pub open spec fn resolution_recorded(market: Market, resolution: Resolution) -> bool {
    resolution.market_id == market.market_id && resolution.resolver@ != zero_view()
}

/// The status `mark_resolved` leads to from the given accounts, or the error it fails with.
pub open spec fn mark_resolved_outcome(ctx: MarkResolved) -> Result<MarketStatus, MarketError> {
    if !is_admin_of(ctx.admin, ctx.protocol_config) {
        Err(MarketError::Unauthorized)
    } else if ctx.market.status != MarketStatus::PendingResolution {
        Err(MarketError::InvalidStatusTransition)
    } else if !resolution_recorded(ctx.market, ctx.resolution) {
        Err(MarketError::ResolutionMissing)
    } else {
        Ok(MarketStatus::Resolved)
    }
}

/// The accounts after a lifecycle action moved the Market to `status`.
pub open spec fn with_status(ctx: AdminMarketAction, status: MarketStatus) -> AdminMarketAction {
    AdminMarketAction { market: Market { status, ..ctx.market }, ..ctx }
}

/// The status changes that the Market lifecycle allows.
pub open spec fn allowed_transition(from: MarketStatus, to: MarketStatus) -> bool {
    ||| from == MarketStatus::Preliminary && to == MarketStatus::Active
    ||| from == MarketStatus::Active && to == MarketStatus::Paused
    ||| from == MarketStatus::Paused && to == MarketStatus::Active
    ||| (from == MarketStatus::Active || from == MarketStatus::Paused) && to
        == MarketStatus::PendingResolution
    ||| from == MarketStatus::PendingResolution && to == MarketStatus::Resolved
    ||| (from == MarketStatus::Resolved || from == MarketStatus::Cancelled) && to
        == MarketStatus::Settled
    ||| from != MarketStatus::Settled && from != MarketStatus::Resolved && to
        == MarketStatus::Cancelled
}

/// Number of UTF-8 bytes of a string, as `str::len` reports it.
pub open spec fn utf8_len(s: String) -> usize {
    encode_utf8(s@).len() as usize
}

/// The error `create_market` fails with, if any.
pub open spec fn create_market_error(
    ctx: CreateMarket,
    lower_bound: u64,
    upper_bound: u64,
    resolution_ts: i64,
    settlement_source: String,
    payoff_type: PayoffType,
    now: i64,
) -> Option<MarketError> {
    if !market_is_fresh(ctx.market) {
        Some(MarketError::AlreadyInitialized)
    } else if ctx.protocol_config.paused {
        Some(MarketError::ProtocolPaused)
    } else if !is_admin_of(ctx.admin, ctx.protocol_config) {
        Some(MarketError::Unauthorized)
    } else if resolution_ts <= now {
        Some(MarketError::InvalidResolutionTs)
    } else if lower_bound >= upper_bound {
        Some(MarketError::InvalidBounds)
    } else if payoff_type != PayoffType::Linear {
        Some(MarketError::UnsupportedPayoffType)
    } else if utf8_len(settlement_source) > SETTLEMENT_SOURCE_MAX_LEN {
        Some(MarketError::SettlementSourceTooLong)
    } else {
        None
    }
}

/// The Market that `create_market` writes.
pub open spec fn created_market(
    ctx: CreateMarket,
    market_id: u64,
    lower_bound: u64,
    upper_bound: u64,
    resolution_ts: i64,
    settlement_source: String,
    payoff_type: PayoffType,
    min_participants: u16,
) -> Market {
    Market {
        market_id,
        admin: ctx.admin,
        lower_bound,
        upper_bound,
        resolution_ts,
        settlement_source,
        payoff_type,
        status: MarketStatus::Preliminary,
        min_participants,
        participant_count: 0,
        total_long: 0,
        total_short: 0,
        bump: ctx.market_bump,
    }
}

/// Initializes the protocol configuration with the signer as admin.
pub fn initialize_protocol(ctx: &mut InitializeProtocol, fee_bps: u16) -> (r: Result<(), MarketError>)
    ensures
        !config_is_fresh(old(ctx).protocol_config) ==> r == Err::<(), MarketError>(
            MarketError::AlreadyInitialized,
        ) && *final(ctx) == *old(ctx),
        config_is_fresh(old(ctx).protocol_config) && fee_bps <= MAX_FEE_BPS ==> r is Ok
            && *final(ctx) == (InitializeProtocol {
            protocol_config: initialized_config(old(ctx).admin, fee_bps, old(ctx).protocol_config_bump),
            ..*old(ctx)
        }),
        config_is_fresh(old(ctx).protocol_config) && fee_bps > MAX_FEE_BPS ==> r == Err::<
            (),
            MarketError,
        >(MarketError::InvalidFeeBps) && *final(ctx) == *old(ctx),
{
    if !ctx.protocol_config.admin.is_default() {
        return Err(MarketError::AlreadyInitialized);
    }
    if fee_bps > MAX_FEE_BPS {
        return Err(MarketError::InvalidFeeBps);
    }
    ctx.protocol_config = ProtocolConfig {
        admin: ctx.admin,
        fee_bps,
        paused: false,
        bump: ctx.protocol_config_bump,
    };
    Ok(())
}

/// Initializes the protocol configuration with `protocol_admin` as admin.
pub fn initialize_protocol_for(
    ctx: &mut InitializeProtocol,
    fee_bps: u16,
    protocol_admin: Address,
) -> (r: Result<(), MarketError>)
    ensures
        !config_is_fresh(old(ctx).protocol_config) ==> r == Err::<(), MarketError>(
            MarketError::AlreadyInitialized,
        ) && *final(ctx) == *old(ctx),
        config_is_fresh(old(ctx).protocol_config) && fee_bps <= MAX_FEE_BPS ==> r is Ok
            && *final(ctx) == (InitializeProtocol {
            protocol_config: initialized_config(protocol_admin, fee_bps, old(ctx).protocol_config_bump),
            ..*old(ctx)
        }),
        config_is_fresh(old(ctx).protocol_config) && fee_bps > MAX_FEE_BPS ==> r == Err::<
            (),
            MarketError,
        >(MarketError::InvalidFeeBps) && *final(ctx) == *old(ctx),
{
    if !ctx.protocol_config.admin.is_default() {
        return Err(MarketError::AlreadyInitialized);
    }
    if fee_bps > MAX_FEE_BPS {
        return Err(MarketError::InvalidFeeBps);
    }
    ctx.protocol_config = ProtocolConfig {
        admin: protocol_admin,
        fee_bps,
        paused: false,
        bump: ctx.protocol_config_bump,
    };
    Ok(())
}

/// Hands the protocol admin role to `new_admin`; only the current admin may do so.
pub fn update_protocol_admin(ctx: &mut UpdateProtocolConfig, new_admin: Address) -> (r: Result<
    (),
    MarketError,
>)
    ensures
        is_admin_of(old(ctx).admin, old(ctx).protocol_config) ==> r is Ok && *final(ctx) == (
        UpdateProtocolConfig {
            protocol_config: ProtocolConfig { admin: new_admin, ..old(ctx).protocol_config },
            ..*old(ctx)
        }),
        !is_admin_of(old(ctx).admin, old(ctx).protocol_config) ==> r == Err::<(), MarketError>(
            MarketError::Unauthorized,
        ) && *final(ctx) == *old(ctx),
{
    if !ctx.admin.same(&ctx.protocol_config.admin) {
        return Err(MarketError::Unauthorized);
    }
    ctx.protocol_config.admin = new_admin;
    Ok(())
}

/// Sets the protocol-wide pause flag to `paused`, for the admin only.
fn set_protocol_paused(ctx: &mut UpdateProtocolConfig, paused: bool) -> (r: Result<(), MarketError>)
    ensures
        is_admin_of(old(ctx).admin, old(ctx).protocol_config) ==> r is Ok && *final(ctx) == (
        UpdateProtocolConfig {
            protocol_config: ProtocolConfig { paused, ..old(ctx).protocol_config },
            ..*old(ctx)
        }),
        !is_admin_of(old(ctx).admin, old(ctx).protocol_config) ==> r == Err::<(), MarketError>(
            MarketError::Unauthorized,
        ) && *final(ctx) == *old(ctx),
{
    if !ctx.admin.same(&ctx.protocol_config.admin) {
        return Err(MarketError::Unauthorized);
    }
    ctx.protocol_config.paused = paused;
    Ok(())
}

/// Pauses the protocol, which stops Market creation; only the admin may do so.
pub fn pause_protocol(ctx: &mut UpdateProtocolConfig) -> (r: Result<(), MarketError>)
    ensures
        is_admin_of(old(ctx).admin, old(ctx).protocol_config) ==> r is Ok && *final(ctx) == (
        UpdateProtocolConfig {
            protocol_config: ProtocolConfig { paused: true, ..old(ctx).protocol_config },
            ..*old(ctx)
        }),
        !is_admin_of(old(ctx).admin, old(ctx).protocol_config) ==> r == Err::<(), MarketError>(
            MarketError::Unauthorized,
        ) && *final(ctx) == *old(ctx),
{
    set_protocol_paused(ctx, true)
}

/// Resumes the protocol; only the admin may do so.
pub fn resume_protocol(ctx: &mut UpdateProtocolConfig) -> (r: Result<(), MarketError>)
    ensures
        is_admin_of(old(ctx).admin, old(ctx).protocol_config) ==> r is Ok && *final(ctx) == (
        UpdateProtocolConfig {
            protocol_config: ProtocolConfig { paused: false, ..old(ctx).protocol_config },
            ..*old(ctx)
        }),
        !is_admin_of(old(ctx).admin, old(ctx).protocol_config) ==> r == Err::<(), MarketError>(
            MarketError::Unauthorized,
        ) && *final(ctx) == *old(ctx),
{
    set_protocol_paused(ctx, false)
}


/// Creates a Preliminary Market; only the admin of an unpaused protocol may do so. `now` is the
/// cluster's current Unix timestamp, which the Resolution time must lie after.
#[allow(clippy::too_many_arguments)]
pub fn create_market(
    ctx: &mut CreateMarket,
    market_id: u64,
    lower_bound: u64,
    upper_bound: u64,
    resolution_ts: i64,
    settlement_source: String,
    payoff_type: PayoffType,
    min_participants: u16,
    now: i64,
) -> (r: Result<MarketCreated, MarketError>)
    ensures
        match create_market_error(
            *old(ctx),
            lower_bound,
            upper_bound,
            resolution_ts,
            settlement_source,
            payoff_type,
            now,
        ) {
            Some(e) => r == Err::<MarketCreated, MarketError>(e) && *final(ctx) == *old(ctx),
            None => r == Ok::<MarketCreated, MarketError>(
                MarketCreated { market: old(ctx).market_key, market_id },
            ) && *final(ctx) == (CreateMarket {
                market: created_market(
                    *old(ctx),
                    market_id,
                    lower_bound,
                    upper_bound,
                    resolution_ts,
                    settlement_source,
                    payoff_type,
                    min_participants,
                ),
                ..*old(ctx)
            }),
        },
{
    if !ctx.market.admin.is_default() {
        return Err(MarketError::AlreadyInitialized);
    }
    if ctx.protocol_config.paused {
        return Err(MarketError::ProtocolPaused);
    }
    if !ctx.admin.same(&ctx.protocol_config.admin) {
        return Err(MarketError::Unauthorized);
    }
    if resolution_ts <= now {
        return Err(MarketError::InvalidResolutionTs);
    }
    if lower_bound >= upper_bound {
        return Err(MarketError::InvalidBounds);
    }
    if payoff_type != PayoffType::Linear {
        return Err(MarketError::UnsupportedPayoffType);
    }
    if settlement_source.as_str().len() > SETTLEMENT_SOURCE_MAX_LEN {
        return Err(MarketError::SettlementSourceTooLong);
    }
    ctx.market = Market {
        market_id,
        admin: ctx.admin,
        lower_bound,
        upper_bound,
        resolution_ts,
        settlement_source,
        payoff_type,
        status: MarketStatus::Preliminary,
        min_participants,
        participant_count: 0,
        total_long: 0,
        total_short: 0,
        bump: ctx.market_bump,
    };
    Ok(MarketCreated { market: ctx.market_key, market_id })
}

/// Applies one lifecycle action to the Market.
fn apply_lifecycle(ctx: &mut AdminMarketAction, action: LifecycleAction) -> (r: Result<(), MarketError>)
    ensures
        match lifecycle_outcome(action, *old(ctx)) {
            Ok(status) => r is Ok && *final(ctx) == with_status(*old(ctx), status),
            Err(e) => r == Err::<(), MarketError>(e) && *final(ctx) == *old(ctx),
        },
{
    if !ctx.admin.same(&ctx.protocol_config.admin) {
        return Err(MarketError::Unauthorized);
    }
    let status = ctx.market.status;
    let next = match action {
        LifecycleAction::Activate => {
            if status != MarketStatus::Preliminary {
                return Err(MarketError::InvalidStatusTransition);
            }
            if ctx.market.participant_count < ctx.market.min_participants {
                return Err(MarketError::InsufficientParticipants);
            }
            MarketStatus::Active
        },
        LifecycleAction::ForceActivate => {
            if status != MarketStatus::Preliminary {
                return Err(MarketError::InvalidStatusTransition);
            }
            MarketStatus::Active
        },
        LifecycleAction::Pause => {
            if status != MarketStatus::Active {
                return Err(MarketError::InvalidStatusTransition);
            }
            MarketStatus::Paused
        },
        LifecycleAction::Resume => {
            if status != MarketStatus::Paused {
                return Err(MarketError::InvalidStatusTransition);
            }
            MarketStatus::Active
        },
        LifecycleAction::Close => {
            if status != MarketStatus::Active && status != MarketStatus::Paused {
                return Err(MarketError::InvalidStatusTransition);
            }
            MarketStatus::PendingResolution
        },
        LifecycleAction::MarkSettled => {
            if status != MarketStatus::Resolved && status != MarketStatus::Cancelled {
                return Err(MarketError::InvalidStatusTransition);
            }
            MarketStatus::Settled
        },
        LifecycleAction::Cancel => {
            if status == MarketStatus::Settled || status == MarketStatus::Resolved {
                return Err(MarketError::InvalidStatusTransition);
            }
            MarketStatus::Cancelled
        },
    };
    ctx.market.status = next;
    Ok(())
}

/// Opens a Preliminary Market for trading once it has its minimum number of participants.
/// Only the protocol admin may do so.
pub fn activate_market(ctx: &mut AdminMarketAction) -> (r: Result<(), MarketError>)
    ensures
        match lifecycle_outcome(LifecycleAction::Activate, *old(ctx)) {
            Ok(status) => r is Ok && *final(ctx) == with_status(*old(ctx), status),
            Err(e) => r == Err::<(), MarketError>(e) && *final(ctx) == *old(ctx),
        },
{
    apply_lifecycle(ctx, LifecycleAction::Activate)
}

/// Opens a Preliminary Market for trading whatever its number of participants.
/// Only the protocol admin may do so.
pub fn force_activate_market(ctx: &mut AdminMarketAction) -> (r: Result<(), MarketError>)
    ensures
        match lifecycle_outcome(LifecycleAction::ForceActivate, *old(ctx)) {
            Ok(status) => r is Ok && *final(ctx) == with_status(*old(ctx), status),
            Err(e) => r == Err::<(), MarketError>(e) && *final(ctx) == *old(ctx),
        },
{
    apply_lifecycle(ctx, LifecycleAction::ForceActivate)
}

/// Suspends trading in an Active Market.
/// Only the protocol admin may do so.
pub fn pause_market(ctx: &mut AdminMarketAction) -> (r: Result<(), MarketError>)
    ensures
        match lifecycle_outcome(LifecycleAction::Pause, *old(ctx)) {
            Ok(status) => r is Ok && *final(ctx) == with_status(*old(ctx), status),
            Err(e) => r == Err::<(), MarketError>(e) && *final(ctx) == *old(ctx),
        },
{
    apply_lifecycle(ctx, LifecycleAction::Pause)
}

/// Reopens a Paused Market for trading.
/// Only the protocol admin may do so.
pub fn resume_market(ctx: &mut AdminMarketAction) -> (r: Result<(), MarketError>)
    ensures
        match lifecycle_outcome(LifecycleAction::Resume, *old(ctx)) {
            Ok(status) => r is Ok && *final(ctx) == with_status(*old(ctx), status),
            Err(e) => r == Err::<(), MarketError>(e) && *final(ctx) == *old(ctx),
        },
{
    apply_lifecycle(ctx, LifecycleAction::Resume)
}

/// Ends trading in an Active or Paused Market, which then waits for its Resolution.
/// Only the protocol admin may do so.
pub fn close_market(ctx: &mut AdminMarketAction) -> (r: Result<(), MarketError>)
    ensures
        match lifecycle_outcome(LifecycleAction::Close, *old(ctx)) {
            Ok(status) => r is Ok && *final(ctx) == with_status(*old(ctx), status),
            Err(e) => r == Err::<(), MarketError>(e) && *final(ctx) == *old(ctx),
        },
{
    apply_lifecycle(ctx, LifecycleAction::Close)
}

/// Records that a Market pending Resolution is Resolved, once its Resolution has been recorded.
/// Only the protocol admin may do so.
pub fn mark_resolved(ctx: &mut MarkResolved) -> (r: Result<(), MarketError>)
    ensures
        match mark_resolved_outcome(*old(ctx)) {
            Ok(status) => r is Ok && *final(ctx) == (MarkResolved {
                market: Market { status, ..old(ctx).market },
                ..*old(ctx)
            }),
            Err(e) => r == Err::<(), MarketError>(e) && *final(ctx) == *old(ctx),
        },
{
    if !ctx.admin.same(&ctx.protocol_config.admin) {
        return Err(MarketError::Unauthorized);
    }
    if ctx.market.status != MarketStatus::PendingResolution {
        return Err(MarketError::InvalidStatusTransition);
    }
    if ctx.resolution.market_id != ctx.market.market_id || ctx.resolution.resolver.is_default() {
        return Err(MarketError::ResolutionMissing);
    }
    ctx.market.status = MarketStatus::Resolved;
    Ok(())
}

/// Finalizes a Resolved or Cancelled Market as Settled.
/// Only the protocol admin may do so.
pub fn mark_settled(ctx: &mut AdminMarketAction) -> (r: Result<(), MarketError>)
    ensures
        match lifecycle_outcome(LifecycleAction::MarkSettled, *old(ctx)) {
            Ok(status) => r is Ok && *final(ctx) == with_status(*old(ctx), status),
            Err(e) => r == Err::<(), MarketError>(e) && *final(ctx) == *old(ctx),
        },
{
    apply_lifecycle(ctx, LifecycleAction::MarkSettled)
}

/// Cancels a Market that is neither Resolved nor Settled.
/// Only the protocol admin may do so.
pub fn cancel_market(ctx: &mut AdminMarketAction) -> (r: Result<(), MarketError>)
    ensures
        match lifecycle_outcome(LifecycleAction::Cancel, *old(ctx)) {
            Ok(status) => r is Ok && *final(ctx) == with_status(*old(ctx), status),
            Err(e) => r == Err::<(), MarketError>(e) && *final(ctx) == *old(ctx),
        },
{
    apply_lifecycle(ctx, LifecycleAction::Cancel)
}

/// Counts one more participant in the Market; only the protocol admin may do so.
pub fn increment_participants(ctx: &mut AdminMarketAction) -> (r: Result<(), MarketError>)
    ensures
        !is_admin_of(old(ctx).admin, old(ctx).protocol_config) ==> r == Err::<(), MarketError>(
            MarketError::Unauthorized,
        ) && *final(ctx) == *old(ctx),
        is_admin_of(old(ctx).admin, old(ctx).protocol_config) && old(ctx).market.participant_count
            == u16::MAX ==> r == Err::<(), MarketError>(MarketError::ParticipantOverflow) && *final(
            ctx) == *old(ctx),
        is_admin_of(old(ctx).admin, old(ctx).protocol_config) && old(ctx).market.participant_count
            < u16::MAX ==> r is Ok && *final(ctx) == (AdminMarketAction {
            market: Market {
                participant_count: (old(ctx).market.participant_count + 1) as u16,
                ..old(ctx).market
            },
            ..*old(ctx)
        }),
{
    if !ctx.admin.same(&ctx.protocol_config.admin) {
        return Err(MarketError::Unauthorized);
    }
    match ctx.market.participant_count.checked_add(1) {
        Some(count) => {
            ctx.market.participant_count = count;
            Ok(())
        },
        None => Err(MarketError::ParticipantOverflow),
    }
}

/// Every lifecycle action that succeeds moves the Market along an allowed transition.
pub proof fn lemma_lifecycle_follows_allowed_transitions(
    action: LifecycleAction,
    ctx: AdminMarketAction,
)
    ensures
        lifecycle_outcome(action, ctx) matches Ok(next) ==> allowed_transition(
            ctx.market.status,
            next,
        ),
{
}

/// A Settled Market is final: no lifecycle action succeeds on it.
pub proof fn lemma_settled_is_terminal(
    action: LifecycleAction,
    ctx: AdminMarketAction,
    resolve: MarkResolved,
)
    requires
        ctx.market.status == MarketStatus::Settled,
        resolve.market.status == MarketStatus::Settled,
    ensures
        lifecycle_outcome(action, ctx) is Err,
        mark_resolved_outcome(resolve) is Err,
{
}

/// A Market becomes Resolved only from Pending Resolution, by the protocol admin, and only once
/// its Resolution has been recorded.
pub proof fn lemma_resolved_needs_recorded_resolution(ctx: MarkResolved)
    requires
        mark_resolved_outcome(ctx) is Ok,
    ensures
        resolution_recorded(ctx.market, ctx.resolution),
        is_admin_of(ctx.admin, ctx.protocol_config),
        allowed_transition(ctx.market.status, MarketStatus::Resolved),
{
}

/// A Resolved Market can only become Settled; in particular it can no longer be cancelled.
pub proof fn lemma_resolved_only_settles(action: LifecycleAction, ctx: AdminMarketAction)
    requires
        ctx.market.status == MarketStatus::Resolved,
    ensures
        lifecycle_outcome(action, ctx) matches Ok(next) ==> next == MarketStatus::Settled,
        action == LifecycleAction::Cancel ==> lifecycle_outcome(action, ctx) is Err,
{
}

/// Only the protocol admin changes a Market's status: any other signer is refused as unauthorized.
pub proof fn lemma_only_admin_changes_status(
    action: LifecycleAction,
    ctx: AdminMarketAction,
    resolve: MarkResolved,
)
    requires
        !is_admin_of(ctx.admin, ctx.protocol_config),
        !is_admin_of(resolve.admin, resolve.protocol_config),
    ensures
        lifecycle_outcome(action, ctx) == Err::<MarketStatus, MarketError>(MarketError::Unauthorized),
        mark_resolved_outcome(resolve) == Err::<MarketStatus, MarketError>(MarketError::Unauthorized),
{
}

/// Resuming a Market that the admin has just paused gives back the accounts as they were.
pub proof fn lemma_resume_undoes_pause(ctx: AdminMarketAction)
    requires
        lifecycle_outcome(LifecycleAction::Pause, ctx) is Ok,
    ensures
        lifecycle_outcome(LifecycleAction::Resume, with_status(ctx, MarketStatus::Paused))
            == Ok::<MarketStatus, MarketError>(MarketStatus::Active),
        with_status(with_status(ctx, MarketStatus::Paused), MarketStatus::Active) == ctx,
{
}

/// Trading can only be opened from Preliminary or Paused: the actions that lead to Active start
/// from one of those two states.
pub proof fn lemma_active_only_from_preliminary_or_paused(
    action: LifecycleAction,
    ctx: AdminMarketAction,
)
    requires
        lifecycle_outcome(action, ctx) == Ok::<MarketStatus, MarketError>(MarketStatus::Active),
    ensures
        ctx.market.status == MarketStatus::Preliminary || ctx.market.status == MarketStatus::Paused,
{
}

/// While the protocol is paused no Market can be created, whoever asks and whatever the
/// Market's parameters.
pub proof fn lemma_paused_protocol_refuses_creation(
    ctx: CreateMarket,
    lower_bound: u64,
    upper_bound: u64,
    resolution_ts: i64,
    settlement_source: String,
    payoff_type: PayoffType,
    now: i64,
)
    requires
        ctx.protocol_config.paused,
    ensures
        create_market_error(
            ctx,
            lower_bound,
            upper_bound,
            resolution_ts,
            settlement_source,
            payoff_type,
            now,
        ) is Some,
        market_is_fresh(ctx.market) ==> create_market_error(
            ctx,
            lower_bound,
            upper_bound,
            resolution_ts,
            settlement_source,
            payoff_type,
            now,
        ) == Some(MarketError::ProtocolPaused),
{
}

/// The protocol is initialized once and a Market is created once: a configuration that protocol
/// initialization wrote for a non-zero admin, or a Market that `create_market` wrote for a
/// non-zero signer, makes any later initialization or creation on that account fail, whatever
/// its arguments.
pub proof fn lemma_accounts_created_once(
    admin: Address,
    fee_bps: u16,
    bump: u8,
    create: CreateMarket,
    market_id: u64,
    lower_bound: u64,
    upper_bound: u64,
    resolution_ts: i64,
    settlement_source: String,
    payoff_type: PayoffType,
    min_participants: u16,
    later: CreateMarket,
    later_lower_bound: u64,
    later_upper_bound: u64,
    later_resolution_ts: i64,
    later_settlement_source: String,
    later_payoff_type: PayoffType,
    later_now: i64,
)
    requires
        admin@ != zero_view(),
        create.admin@ != zero_view(),
        later.market == created_market(
            create,
            market_id,
            lower_bound,
            upper_bound,
            resolution_ts,
            settlement_source,
            payoff_type,
            min_participants,
        ),
    ensures
        !config_is_fresh(initialized_config(admin, fee_bps, bump)),
        create_market_error(
            later,
            later_lower_bound,
            later_upper_bound,
            later_resolution_ts,
            later_settlement_source,
            later_payoff_type,
            later_now,
        ) == Some(MarketError::AlreadyInitialized),
{
}

} // verus!
