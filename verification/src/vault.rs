//! Collateral custody, Position accounting and Trade Execution.
use vstd::prelude::*;

use crate::address::{zero_view, Address};
use crate::market::{created_market, CreateMarket, Market, MarketStatus, PayoffType};
use crate::signed_order::{
    check_order_signature, encode_signed_order, order_error, order_message, signature_error,
    signature_status, signed_by, validate_signed_order, OrderScope, SignatureCheck,
    TransactionInstruction,
};
use crate::token::{MintInfo, TokenAccountInfo};

verus! {

/// Fixed-point scale of a Price: `SCALE` stands for a Price of 1.
pub const SCALE: u64 = 1_000_000;

/// The Vault of one Market.
#[derive(Clone, Copy, Debug, PartialEq, Eq)]
pub struct MarketVault {
    pub market_id: u64,
    pub market: Address,
    pub token_mint: Address,
    pub vault_token_account: Address,
    pub vault_authority: Address,
    pub settlement_authority: Address,
    pub total_collateral: u64,
    pub bump: u8,
    pub vault_authority_bump: u8,
}

/// A user's Collateral in one Market.
#[derive(Clone, Copy, Debug, PartialEq, Eq)]
pub struct UserCollateral {
    pub market_id: u64,
    pub owner: Address,
    pub available_collateral: u64,
    pub total_deposited: u64,
    pub bump: u8,
}

/// A user's Long or Short Position in one Market.
#[derive(Clone, Copy, Debug, PartialEq, Eq)]
pub struct UserPosition {
    pub market_id: u64,
    pub owner: Address,
    pub side: PositionSide,
    pub quantity: u64,
    pub cost_basis: u64,
    pub bump: u8,
}

/// How much of one Order, identified by owner and nonce, has been filled.
#[derive(Clone, Copy, Debug, PartialEq, Eq)]
pub struct FillState {
    pub market_id: u64,
    pub owner: Address,
    pub nonce: u128,
    pub quantity: u64,
    pub filled_quantity: u64,
    pub bump: u8,
}

/// Event that publishes the layout of a fill account.
#[derive(Clone, Copy, Debug, PartialEq, Eq)]
pub struct FillStateSchema {
    pub state: FillState,
}

/// The side of a Position.
#[derive(Clone, Copy, Debug, PartialEq, Eq, Structural)]
pub enum PositionSide {
    Long,
    Short,
}

/// The direction of an Order.
#[derive(Clone, Copy, Debug, PartialEq, Eq, Structural)]
pub enum OrderSide {
    Buy,
    Sell,
}

/// The cluster an Order is signed for.
#[derive(Clone, Copy, Debug, PartialEq, Eq, Structural)]
pub enum OrderNetwork {
    MainnetBeta,
    Devnet,
    Localnet,
}

/// An Order as its owner signs it.
#[derive(Clone, Copy, Debug, PartialEq, Eq)]
pub struct SignedOrder {
    pub version: u8,
    pub network: OrderNetwork,
    pub market_program_id: Address,
    pub vault_program_id: Address,
    pub market_id: u64,
    pub owner: Address,
    pub side: OrderSide,
    pub price_scaled: u64,
    pub quantity: u64,
    pub expiration_ts: i64,
    pub nonce: u128,
}

/// Event that publishes the layout of a Signed Order.
#[derive(Clone, Copy, Debug, PartialEq, Eq)]
pub struct SignedOrderSchema {
    pub order: SignedOrder,
}

/// Event recorded by Trade Execution.
#[derive(Clone, Copy, Debug, PartialEq, Eq)]
pub struct TradeSettled {
    pub market_vault: Address,
    pub buyer: Address,
    pub seller: Address,
    pub quantity: u64,
    pub price_scaled: u64,
}

/// Errors of the vault program.
#[derive(Clone, Copy, Debug, PartialEq, Eq, Structural)]
pub enum VaultError {
    InvalidAmount,
    MathOverflow,
    InvalidPrice,
    MixedSidePosition,
    MarketMismatch,
    MarketNotTradable,
    UnauthorizedBackend,
    FillNonceMismatch,
    InvalidMint,
    InvalidTokenOwner,
    InvalidVaultAuthority,
    InvalidSideForTrade,
    WithdrawDisabledUseSettlement,
    InsufficientAvailableCollateral,
    PositionOwnerMismatch,
    SelfTradeDisabled,
    UnauthorizedSettlement,
    InvalidOrderVersion,
    OrderNetworkMismatch,
    OrderProgramMismatch,
    OrderSideMismatch,
    OrderExpired,
    OrderPriceNotCrossed,
    OrderOverfill,
    SignedOrderSignatureMissing,
    SignedOrderSignatureMismatch,
    FillQuantityMismatch,
    AlreadyInitialized,
}

impl PositionSide {
    /// The seed that tells a Position account of this side apart: the bytes of `long` or
    /// `short`.
    pub fn seed(&self) -> (r: &'static [u8])
        ensures
            *self == PositionSide::Long ==> r@ == seq![108u8, 111, 110, 103],
            *self == PositionSide::Short ==> r@ == seq![115u8, 104, 111, 114, 116],
    {
        match self {
            PositionSide::Long => {
                let r: &'static [u8] = &LONG_SEED;
                assert(r@ =~= seq![108u8, 111, 110, 103]);
                r
            },
            PositionSide::Short => {
                let r: &'static [u8] = &SHORT_SEED;
                assert(r@ =~= seq![115u8, 104, 111, 114, 116]);
                r
            },
        }
    }
}

/// Seed of Long Position accounts: the bytes of `long`.
pub const LONG_SEED: [u8; 4] = [108, 111, 110, 103];

/// Seed of Short Position accounts: the bytes of `short`.
pub const SHORT_SEED: [u8; 5] = [115, 104, 111, 114, 116];

/// Accounts of `init_market_vault`.
#[derive(Clone, Debug, PartialEq, Eq)]
pub struct InitMarketVault {
    pub payer: Address,
    pub usdc_mint: MintInfo,
    pub market: Market,
    /// Address of the Market account.
    pub market_key: Address,
    /// The program address that will own the vault's tokens.
    pub vault_authority: Address,
    /// The vault account being created.
    pub market_vault: MarketVault,
    pub vault_token_account: TokenAccountInfo,
    /// Bump of the vault's program address.
    pub market_vault_bump: u8,
    /// Bump of the vault authority's program address.
    pub vault_authority_bump: u8,
}

/// Accounts of `deposit_collateral`.
#[derive(Clone, Debug, PartialEq, Eq)]
pub struct DepositCollateral {
    pub user: Address,
    pub usdc_mint: MintInfo,
    pub market: Market,
    /// Address of the Market account.
    pub market_key: Address,
    pub user_ata: TokenAccountInfo,
    pub market_vault: MarketVault,
    pub vault_token_account: TokenAccountInfo,
    /// The user's Collateral account; all zero when it is created by this deposit.
    pub user_collateral: UserCollateral,
    /// Bump of the Collateral account's program address.
    pub user_collateral_bump: u8,
}

/// Accounts of `withdraw_available_collateral`.
#[derive(Clone, Debug, PartialEq, Eq)]
pub struct WithdrawAvailableCollateral {
    pub user: Address,
    pub market: Market,
    /// Address of the Market account.
    pub market_key: Address,
    pub usdc_mint: MintInfo,
    pub market_vault: MarketVault,
    /// The vault authority account passed in.
    pub vault_authority: Address,
    pub vault_token_account: TokenAccountInfo,
    pub user_ata: TokenAccountInfo,
    pub user_collateral: UserCollateral,
}

/// Accounts of `transfer_for_settlement`.
#[derive(Clone, Copy, Debug, PartialEq, Eq)]
pub struct TransferForSettlement {
    /// The signer, who must be the vault's settlement authority.
    pub settlement_authority: Address,
    pub usdc_mint: MintInfo,
    pub market_vault: MarketVault,
    /// The vault authority account passed in.
    pub vault_authority: Address,
    pub vault_token_account: TokenAccountInfo,
    pub recipient_ata: TokenAccountInfo,
}

/// Accounts of `settle_trade`, the Trade Execution instruction.
#[derive(Clone, Debug, PartialEq, Eq)]
pub struct SettleTrade {
    pub submitter: Address,
    pub market: Market,
    pub market_vault: MarketVault,
    /// Address of the vault account.
    pub market_vault_key: Address,
    pub buyer_collateral: UserCollateral,
    pub seller_collateral: UserCollateral,
    /// The buyer's fill account; all zero when it is created by this Trade.
    pub buyer_fill: FillState,
    /// The seller's fill account; all zero when it is created by this Trade.
    pub seller_fill: FillState,
    /// The buyer's Long Position; all zero when it is created by this Trade.
    pub buyer_position: UserPosition,
    /// The seller's Short Position; all zero when it is created by this Trade.
    pub seller_position: UserPosition,
    pub buyer_fill_bump: u8,
    pub seller_fill_bump: u8,
    pub buyer_position_bump: u8,
    pub seller_position_bump: u8,
}

/// Whether an account's owner field is still the all-zero address, that is, the account has
/// just been created.
pub open spec fn is_unset(a: Address) -> bool {
    a@ == zero_view()
}

/// Whether a Market accepts Collateral: it is Preliminary or Active.
pub open spec fn accepts_collateral(status: MarketStatus) -> bool {
    status == MarketStatus::Preliminary || status == MarketStatus::Active
}

/// Whether a Market Vault account has not been created yet: it names no vault token account.
pub open spec fn vault_is_fresh(vault: MarketVault) -> bool {
    vault.vault_token_account@ == zero_view()
}

/// The result of `init_market_vault` on the given accounts.
pub open spec fn init_market_vault_outcome(
    ctx: InitMarketVault,
    market_id: u64,
    settlement_authority: Address,
) -> Result<InitMarketVault, VaultError> {
    if !vault_is_fresh(ctx.market_vault) {
        Err(VaultError::AlreadyInitialized)
    } else if ctx.vault_token_account.mint@ != ctx.usdc_mint.key@ {
        Err(VaultError::InvalidMint)
    } else if ctx.vault_token_account.owner@ != ctx.vault_authority@ {
        Err(VaultError::InvalidVaultAuthority)
    } else if ctx.market.market_id != market_id {
        Err(VaultError::MarketMismatch)
    } else if !accepts_collateral(ctx.market.status) {
        Err(VaultError::MarketNotTradable)
    } else {
        Ok(
            InitMarketVault {
                market_vault: MarketVault {
                    market_id,
                    market: ctx.market_key,
                    token_mint: ctx.usdc_mint.key,
                    vault_token_account: ctx.vault_token_account.key,
                    vault_authority: ctx.vault_authority,
                    settlement_authority,
                    total_collateral: 0,
                    bump: ctx.market_vault_bump,
                    vault_authority_bump: ctx.vault_authority_bump,
                },
                ..ctx
            },
        )
    }
}

/// The user's Collateral account after a deposit has opened it if it was new.
pub open spec fn opened_collateral(ctx: DepositCollateral, market_id: u64) -> UserCollateral {
    if is_unset(ctx.user_collateral.owner) {
        UserCollateral {
            market_id,
            owner: ctx.user,
            bump: ctx.user_collateral_bump,
            ..ctx.user_collateral
        }
    } else {
        ctx.user_collateral
    }
}

/// The result of `deposit_collateral` on the given accounts.
pub open spec fn deposit_outcome(ctx: DepositCollateral, market_id: u64, amount: u64) -> Result<
    DepositCollateral,
    VaultError,
> {
    let c = opened_collateral(ctx, market_id);
    if ctx.user_ata.owner@ != ctx.user@ {
        Err(VaultError::InvalidTokenOwner)
    } else if ctx.user_ata.mint@ != ctx.usdc_mint.key@ {
        Err(VaultError::InvalidMint)
    } else if ctx.market_vault.market_id != market_id {
        Err(VaultError::MarketMismatch)
    } else if ctx.market_vault.market@ != ctx.market_key@ {
        Err(VaultError::MarketMismatch)
    } else if ctx.vault_token_account.mint@ != ctx.usdc_mint.key@ {
        Err(VaultError::InvalidMint)
    } else if ctx.vault_token_account.owner@ != ctx.market_vault.vault_authority@ {
        Err(VaultError::InvalidVaultAuthority)
    } else if amount == 0 {
        Err(VaultError::InvalidAmount)
    } else if ctx.market.market_id != market_id {
        Err(VaultError::MarketMismatch)
    } else if !accepts_collateral(ctx.market.status) {
        Err(VaultError::MarketNotTradable)
    } else if c.available_collateral + amount > u64::MAX {
        Err(VaultError::MathOverflow)
    } else if c.total_deposited + amount > u64::MAX {
        Err(VaultError::MathOverflow)
    } else if ctx.market_vault.total_collateral + amount > u64::MAX {
        Err(VaultError::MathOverflow)
    } else {
        Ok(
            DepositCollateral {
                user_collateral: UserCollateral {
                    available_collateral: (c.available_collateral + amount) as u64,
                    total_deposited: (c.total_deposited + amount) as u64,
                    ..c
                },
                market_vault: MarketVault {
                    total_collateral: (ctx.market_vault.total_collateral + amount) as u64,
                    ..ctx.market_vault
                },
                ..ctx
            },
        )
    }
}

/// The result of `withdraw_available_collateral` on the given accounts.
pub open spec fn withdraw_outcome(
    ctx: WithdrawAvailableCollateral,
    market_id: u64,
    amount: u64,
) -> Result<WithdrawAvailableCollateral, VaultError> {
    if ctx.market_vault.market_id != market_id {
        Err(VaultError::MarketMismatch)
    } else if ctx.market_vault.market@ != ctx.market_key@ {
        Err(VaultError::MarketMismatch)
    } else if ctx.market_vault.token_mint@ != ctx.usdc_mint.key@ {
        Err(VaultError::InvalidMint)
    } else if ctx.vault_token_account.mint@ != ctx.usdc_mint.key@ {
        Err(VaultError::InvalidMint)
    } else if ctx.vault_token_account.owner@ != ctx.vault_authority@ {
        Err(VaultError::InvalidVaultAuthority)
    } else if ctx.user_ata.owner@ != ctx.user@ {
        Err(VaultError::InvalidTokenOwner)
    } else if ctx.user_ata.mint@ != ctx.usdc_mint.key@ {
        Err(VaultError::InvalidMint)
    } else if amount == 0 {
        Err(VaultError::InvalidAmount)
    } else if ctx.user_collateral.market_id != market_id {
        Err(VaultError::MarketMismatch)
    } else if ctx.user_collateral.available_collateral < amount {
        Err(VaultError::InsufficientAvailableCollateral)
    } else if ctx.market_vault.total_collateral < amount {
        Err(VaultError::MathOverflow)
    } else {
        Ok(
            WithdrawAvailableCollateral {
                user_collateral: UserCollateral {
                    available_collateral: (ctx.user_collateral.available_collateral
                        - amount) as u64,
                    ..ctx.user_collateral
                },
                market_vault: MarketVault {
                    total_collateral: (ctx.market_vault.total_collateral - amount) as u64,
                    ..ctx.market_vault
                },
                ..ctx
            },
        )
    }
}

/// The result of `transfer_for_settlement` on the given accounts.
pub open spec fn transfer_for_settlement_outcome(
    ctx: TransferForSettlement,
    market_id: u64,
    amount: u64,
) -> Result<TransferForSettlement, VaultError> {
    if ctx.market_vault.market_id != market_id {
        Err(VaultError::MarketMismatch)
    } else if ctx.market_vault.token_mint@ != ctx.usdc_mint.key@ {
        Err(VaultError::InvalidMint)
    } else if ctx.vault_token_account.mint@ != ctx.usdc_mint.key@ {
        Err(VaultError::InvalidMint)
    } else if ctx.vault_token_account.owner@ != ctx.vault_authority@ {
        Err(VaultError::InvalidVaultAuthority)
    } else if ctx.recipient_ata.mint@ != ctx.usdc_mint.key@ {
        Err(VaultError::InvalidMint)
    } else if amount == 0 {
        Err(VaultError::InvalidAmount)
    } else if ctx.settlement_authority@ != ctx.market_vault.settlement_authority@ {
        Err(VaultError::UnauthorizedSettlement)
    } else if ctx.market_vault.total_collateral < amount {
        Err(VaultError::MathOverflow)
    } else {
        Ok(
            TransferForSettlement {
                market_vault: MarketVault {
                    total_collateral: (ctx.market_vault.total_collateral - amount) as u64,
                    ..ctx.market_vault
                },
                ..ctx
            },
        )
    }
}

/// Creates the Vault of a Market that is Preliminary or Active.
pub fn init_market_vault(
    ctx: &mut InitMarketVault,
    market_id: u64,
    settlement_authority: Address,
) -> (r: Result<(), VaultError>)
    ensures
        match init_market_vault_outcome(*old(ctx), market_id, settlement_authority) {
            Ok(post) => r is Ok && *final(ctx) == post,
            Err(e) => r == Err::<(), VaultError>(e) && *final(ctx) == *old(ctx),
        },
{
    if !ctx.market_vault.vault_token_account.is_default() {
        return Err(VaultError::AlreadyInitialized);
    }
    if !ctx.vault_token_account.mint.same(&ctx.usdc_mint.key) {
        return Err(VaultError::InvalidMint);
    }
    if !ctx.vault_token_account.owner.same(&ctx.vault_authority) {
        return Err(VaultError::InvalidVaultAuthority);
    }
    if ctx.market.market_id != market_id {
        return Err(VaultError::MarketMismatch);
    }
    if ctx.market.status != MarketStatus::Preliminary && ctx.market.status != MarketStatus::Active {
        return Err(VaultError::MarketNotTradable);
    }
    ctx.market_vault = MarketVault {
        market_id,
        market: ctx.market_key,
        token_mint: ctx.usdc_mint.key,
        vault_token_account: ctx.vault_token_account.key,
        vault_authority: ctx.vault_authority,
        settlement_authority,
        total_collateral: 0,
        bump: ctx.market_vault_bump,
        vault_authority_bump: ctx.vault_authority_bump,
    };
    Ok(())
}

/// Records a deposit of `amount` into the Market Vault: it becomes the user's Available
/// Collateral. The token transfer itself is made by the caller, for the same amount.
pub fn deposit_collateral(ctx: &mut DepositCollateral, market_id: u64, amount: u64) -> (r: Result<
    (),
    VaultError,
>)
    ensures
        match deposit_outcome(*old(ctx), market_id, amount) {
            Ok(post) => r is Ok && *final(ctx) == post,
            Err(e) => r == Err::<(), VaultError>(e) && *final(ctx) == *old(ctx),
        },
{
    if !ctx.user_ata.owner.same(&ctx.user) {
        return Err(VaultError::InvalidTokenOwner);
    }
    if !ctx.user_ata.mint.same(&ctx.usdc_mint.key) {
        return Err(VaultError::InvalidMint);
    }
    if ctx.market_vault.market_id != market_id {
        return Err(VaultError::MarketMismatch);
    }
    if !ctx.market_vault.market.same(&ctx.market_key) {
        return Err(VaultError::MarketMismatch);
    }
    if !ctx.vault_token_account.mint.same(&ctx.usdc_mint.key) {
        return Err(VaultError::InvalidMint);
    }
    if !ctx.vault_token_account.owner.same(&ctx.market_vault.vault_authority) {
        return Err(VaultError::InvalidVaultAuthority);
    }
    if amount == 0 {
        return Err(VaultError::InvalidAmount);
    }
    if ctx.market.market_id != market_id {
        return Err(VaultError::MarketMismatch);
    }
    if ctx.market.status != MarketStatus::Preliminary && ctx.market.status != MarketStatus::Active {
        return Err(VaultError::MarketNotTradable);
    }
    let mut collateral = ctx.user_collateral;
    if collateral.owner.is_default() {
        collateral.market_id = market_id;
        collateral.owner = ctx.user;
        collateral.bump = ctx.user_collateral_bump;
    }
    let available = match collateral.available_collateral.checked_add(amount) {
        Some(v) => v,
        None => return Err(VaultError::MathOverflow),
    };
    let deposited = match collateral.total_deposited.checked_add(amount) {
        Some(v) => v,
        None => return Err(VaultError::MathOverflow),
    };
    let total = match ctx.market_vault.total_collateral.checked_add(amount) {
        Some(v) => v,
        None => return Err(VaultError::MathOverflow),
    };
    collateral.available_collateral = available;
    collateral.total_deposited = deposited;
    ctx.user_collateral = collateral;
    ctx.market_vault.total_collateral = total;
    Ok(())
}

/// Takes `amount` out of the user's Available Collateral and out of the Vault's total. The token
/// transfer to the user is made by the caller, for the same amount.
pub fn withdraw_available_collateral(
    ctx: &mut WithdrawAvailableCollateral,
    market_id: u64,
    amount: u64,
) -> (r: Result<(), VaultError>)
    ensures
        match withdraw_outcome(*old(ctx), market_id, amount) {
            Ok(post) => r is Ok && *final(ctx) == post,
            Err(e) => r == Err::<(), VaultError>(e) && *final(ctx) == *old(ctx),
        },
{
    if ctx.market_vault.market_id != market_id {
        return Err(VaultError::MarketMismatch);
    }
    if !ctx.market_vault.market.same(&ctx.market_key) {
        return Err(VaultError::MarketMismatch);
    }
    if !ctx.market_vault.token_mint.same(&ctx.usdc_mint.key) {
        return Err(VaultError::InvalidMint);
    }
    if !ctx.vault_token_account.mint.same(&ctx.usdc_mint.key) {
        return Err(VaultError::InvalidMint);
    }
    if !ctx.vault_token_account.owner.same(&ctx.vault_authority) {
        return Err(VaultError::InvalidVaultAuthority);
    }
    if !ctx.user_ata.owner.same(&ctx.user) {
        return Err(VaultError::InvalidTokenOwner);
    }
    if !ctx.user_ata.mint.same(&ctx.usdc_mint.key) {
        return Err(VaultError::InvalidMint);
    }
    if amount == 0 {
        return Err(VaultError::InvalidAmount);
    }
    if ctx.user_collateral.market_id != market_id {
        return Err(VaultError::MarketMismatch);
    }
    if ctx.user_collateral.available_collateral < amount {
        return Err(VaultError::InsufficientAvailableCollateral);
    }
    let total = match ctx.market_vault.total_collateral.checked_sub(amount) {
        Some(v) => v,
        None => return Err(VaultError::MathOverflow),
    };
    ctx.user_collateral.available_collateral = ctx.user_collateral.available_collateral - amount;
    ctx.market_vault.total_collateral = total;
    Ok(())
}

/// Takes `amount` out of the Vault's total for a transfer that the settlement authority
/// requests. The token transfer to the recipient is made by the caller, for the same amount.
pub fn transfer_for_settlement(
    ctx: &mut TransferForSettlement,
    market_id: u64,
    amount: u64,
) -> (r: Result<(), VaultError>)
    ensures
        match transfer_for_settlement_outcome(*old(ctx), market_id, amount) {
            Ok(post) => r is Ok && *final(ctx) == post,
            Err(e) => r == Err::<(), VaultError>(e) && *final(ctx) == *old(ctx),
        },
{
    if ctx.market_vault.market_id != market_id {
        return Err(VaultError::MarketMismatch);
    }
    if !ctx.market_vault.token_mint.same(&ctx.usdc_mint.key) {
        return Err(VaultError::InvalidMint);
    }
    if !ctx.vault_token_account.mint.same(&ctx.usdc_mint.key) {
        return Err(VaultError::InvalidMint);
    }
    if !ctx.vault_token_account.owner.same(&ctx.vault_authority) {
        return Err(VaultError::InvalidVaultAuthority);
    }
    if !ctx.recipient_ata.mint.same(&ctx.usdc_mint.key) {
        return Err(VaultError::InvalidMint);
    }
    if amount == 0 {
        return Err(VaultError::InvalidAmount);
    }
    if !ctx.settlement_authority.same(&ctx.market_vault.settlement_authority) {
        return Err(VaultError::UnauthorizedSettlement);
    }
    let total = match ctx.market_vault.total_collateral.checked_sub(amount) {
        Some(v) => v,
        None => return Err(VaultError::MathOverflow),
    };
    ctx.market_vault.total_collateral = total;
    Ok(())
}

/// A fill account after Trade Execution has opened it if it was new.
pub open spec fn opened_fill(
    fill: FillState,
    market_id: u64,
    owner: Address,
    nonce: u128,
    quantity: u64,
    bump: u8,
) -> FillState {
    if is_unset(fill.owner) {
        FillState { market_id, owner, nonce, quantity, filled_quantity: 0, bump }
    } else {
        fill
    }
}

/// A Position account after Trade Execution has opened it if it was new.
pub open spec fn opened_position(
    position: UserPosition,
    market_id: u64,
    owner: Address,
    side: PositionSide,
    bump: u8,
) -> UserPosition {
    if is_unset(position.owner) {
        UserPosition { market_id, owner, side, bump, ..position }
    } else {
        position
    }
}

/// The Collateral the Long side locks for `quantity` at `price_scaled`: Quantity times Price,
/// rounded down.
pub open spec fn long_notional(quantity: u64, price_scaled: u64) -> int {
    (quantity * price_scaled) / (SCALE as int)
}

/// The Collateral the Short side locks: the rest of `quantity`.
pub open spec fn short_notional(quantity: u64, price_scaled: u64) -> int {
    quantity - long_notional(quantity, price_scaled)
}

/// The buyer's fill account as Trade Execution sees it: opened for the buy order if it was new.
pub open spec fn trade_buyer_fill(ctx: SettleTrade, market_id: u64, buyer_order: SignedOrder) -> FillState {
    opened_fill(
        ctx.buyer_fill,
        market_id,
        buyer_order.owner,
        buyer_order.nonce,
        buyer_order.quantity,
        ctx.buyer_fill_bump,
    )
}

/// The seller's fill account as Trade Execution sees it: opened for the sell order if it was new.
pub open spec fn trade_seller_fill(ctx: SettleTrade, market_id: u64, seller_order: SignedOrder) -> FillState {
    opened_fill(
        ctx.seller_fill,
        market_id,
        seller_order.owner,
        seller_order.nonce,
        seller_order.quantity,
        ctx.seller_fill_bump,
    )
}

/// The buyer's Position as Trade Execution sees it.
pub open spec fn trade_buyer_position(ctx: SettleTrade, market_id: u64, buyer: Address) -> UserPosition
{
    opened_position(ctx.buyer_position, market_id, buyer, PositionSide::Long, ctx.buyer_position_bump)
}

/// The seller's Position as Trade Execution sees it.
pub open spec fn trade_seller_position(ctx: SettleTrade, market_id: u64, seller: Address) -> UserPosition
{
    opened_position(ctx.seller_position, market_id, seller, PositionSide::Short, ctx.seller_position_bump)
}

/// The error Trade Execution fails with on its two Signed Orders, if any: a zero Quantity, an
/// order that does not fit the Trade, a self-trade, prices that do not cross, or an order its
/// owner has not signed in the transaction.
pub open spec fn trade_orders_error(
    market_id: u64,
    buyer_order: SignedOrder,
    seller_order: SignedOrder,
    quantity: u64,
    scope: OrderScope,
    now: i64,
    instructions: Seq<TransactionInstruction>,
) -> Option<VaultError> {
    let buy_error = order_error(buyer_order, OrderSide::Buy, scope, market_id, now);
    let sell_error = order_error(seller_order, OrderSide::Sell, scope, market_id, now);
    let buy_signature = signature_error(
        signature_status(instructions, buyer_order.owner@, order_message(buyer_order)),
    );
    let sell_signature = signature_error(
        signature_status(instructions, seller_order.owner@, order_message(seller_order)),
    );
    if quantity == 0 {
        Some(VaultError::InvalidAmount)
    } else if buy_error is Some {
        buy_error
    } else if sell_error is Some {
        sell_error
    } else if buyer_order.owner@ == seller_order.owner@ {
        Some(VaultError::SelfTradeDisabled)
    } else if buyer_order.price_scaled < seller_order.price_scaled {
        Some(VaultError::OrderPriceNotCrossed)
    } else if buy_signature is Some {
        buy_signature
    } else {
        sell_signature
    }
}

/// The error Trade Execution fails with on its accounts, if any: the Market, Vault, Collateral,
/// fill and Position accounts must belong to the Market and the two owners, each fill account
/// must have been opened for its order's nonce and Quantity, and neither order may be filled past
/// its Quantity.
pub open spec fn trade_accounts_error(
    ctx: SettleTrade,
    market_id: u64,
    buyer_order: SignedOrder,
    seller_order: SignedOrder,
    quantity: u64,
) -> Option<VaultError> {
    let buyer = buyer_order.owner;
    let seller = seller_order.owner;
    let bf = trade_buyer_fill(ctx, market_id, buyer_order);
    let sf = trade_seller_fill(ctx, market_id, seller_order);
    let bp = trade_buyer_position(ctx, market_id, buyer);
    let sp = trade_seller_position(ctx, market_id, seller);
    if ctx.market.market_id != market_id {
        Some(VaultError::MarketMismatch)
    } else if ctx.market.status != MarketStatus::Active {
        Some(VaultError::MarketNotTradable)
    } else if ctx.market_vault.market_id != market_id {
        Some(VaultError::MarketMismatch)
    } else if ctx.buyer_collateral.market_id != market_id || ctx.seller_collateral.market_id
        != market_id {
        Some(VaultError::MarketMismatch)
    } else if ctx.buyer_collateral.owner@ != buyer@ || ctx.seller_collateral.owner@ != seller@ {
        Some(VaultError::PositionOwnerMismatch)
    } else if bf.market_id != market_id || sf.market_id != market_id {
        Some(VaultError::MarketMismatch)
    } else if bf.owner@ != buyer@ || sf.owner@ != seller@ {
        Some(VaultError::PositionOwnerMismatch)
    } else if bf.nonce != buyer_order.nonce || sf.nonce != seller_order.nonce {
        Some(VaultError::FillNonceMismatch)
    } else if bf.quantity != buyer_order.quantity || sf.quantity != seller_order.quantity {
        Some(VaultError::FillQuantityMismatch)
    } else if bf.filled_quantity + quantity > bf.quantity || sf.filled_quantity + quantity
        > sf.quantity {
        Some(VaultError::OrderOverfill)
    } else if bp.market_id != market_id || sp.market_id != market_id {
        Some(VaultError::MarketMismatch)
    } else if bp.owner@ != buyer@ || sp.owner@ != seller@ {
        Some(VaultError::PositionOwnerMismatch)
    } else if bp.side != PositionSide::Long || sp.side != PositionSide::Short {
        Some(VaultError::InvalidSideForTrade)
    } else {
        None
    }
}

/// The error Trade Execution fails with once its checks have passed, if any: an overflow, or too
/// little Available Collateral on either side, at the Execution Price `price_scaled`.
pub open spec fn trade_amount_error(
    ctx: SettleTrade,
    market_id: u64,
    buyer: Address,
    seller: Address,
    quantity: u64,
    price_scaled: u64,
) -> Option<VaultError> {
    let bp = trade_buyer_position(ctx, market_id, buyer);
    let sp = trade_seller_position(ctx, market_id, seller);
    let bn = long_notional(quantity, price_scaled);
    let sn = short_notional(quantity, price_scaled);
    if quantity * price_scaled > u64::MAX {
        Some(VaultError::MathOverflow)
    } else if ctx.buyer_collateral.available_collateral < bn {
        Some(VaultError::InsufficientAvailableCollateral)
    } else if ctx.seller_collateral.available_collateral < sn {
        Some(VaultError::InsufficientAvailableCollateral)
    } else if bp.quantity + quantity > u64::MAX || bp.cost_basis + bn > u64::MAX {
        Some(VaultError::MathOverflow)
    } else if sp.quantity + quantity > u64::MAX || sp.cost_basis + sn > u64::MAX {
        Some(VaultError::MathOverflow)
    } else {
        None
    }
}

/// The accounts after a Trade Execution that succeeds, at the seller's price.
pub open spec fn settled_trade(
    ctx: SettleTrade,
    market_id: u64,
    buyer_order: SignedOrder,
    seller_order: SignedOrder,
    quantity: u64,
) -> SettleTrade {
    let bf = trade_buyer_fill(ctx, market_id, buyer_order);
    let sf = trade_seller_fill(ctx, market_id, seller_order);
    let bp = trade_buyer_position(ctx, market_id, buyer_order.owner);
    let sp = trade_seller_position(ctx, market_id, seller_order.owner);
    let bn = long_notional(quantity, seller_order.price_scaled);
    let sn = short_notional(quantity, seller_order.price_scaled);
    SettleTrade {
        buyer_collateral: UserCollateral {
            available_collateral: (ctx.buyer_collateral.available_collateral - bn) as u64,
            ..ctx.buyer_collateral
        },
        seller_collateral: UserCollateral {
            available_collateral: (ctx.seller_collateral.available_collateral - sn) as u64,
            ..ctx.seller_collateral
        },
        buyer_position: UserPosition {
            quantity: (bp.quantity + quantity) as u64,
            cost_basis: (bp.cost_basis + bn) as u64,
            ..bp
        },
        seller_position: UserPosition {
            quantity: (sp.quantity + quantity) as u64,
            cost_basis: (sp.cost_basis + sn) as u64,
            ..sp
        },
        buyer_fill: FillState { filled_quantity: (bf.filled_quantity + quantity) as u64, ..bf },
        seller_fill: FillState { filled_quantity: (sf.filled_quantity + quantity) as u64, ..sf },
        ..ctx
    }
}

/// The result of Trade Execution: the accounts after it and the event it records, or the error it
/// fails with. The Execution Price is the seller's price.
pub open spec fn settle_trade_outcome(
    ctx: SettleTrade,
    market_id: u64,
    buyer_order: SignedOrder,
    seller_order: SignedOrder,
    quantity: u64,
    scope: OrderScope,
    now: i64,
    instructions: Seq<TransactionInstruction>,
) -> Result<(SettleTrade, TradeSettled), VaultError> {
    let orders_error = trade_orders_error(
        market_id,
        buyer_order,
        seller_order,
        quantity,
        scope,
        now,
        instructions,
    );
    let accounts_error = trade_accounts_error(ctx, market_id, buyer_order, seller_order, quantity);
    let amount_error = trade_amount_error(
        ctx,
        market_id,
        buyer_order.owner,
        seller_order.owner,
        quantity,
        seller_order.price_scaled,
    );
    if orders_error is Some {
        Err(orders_error->Some_0)
    } else if accounts_error is Some {
        Err(accounts_error->Some_0)
    } else if amount_error is Some {
        Err(amount_error->Some_0)
    } else {
        Ok(
            (
                settled_trade(ctx, market_id, buyer_order, seller_order, quantity),
                TradeSettled {
                    market_vault: ctx.market_vault_key,
                    buyer: buyer_order.owner,
                    seller: seller_order.owner,
                    quantity,
                    price_scaled: seller_order.price_scaled,
                },
            ),
        )
    }
}

/// Opens a fill account that has just been created.
fn open_fill(fill: &mut FillState, market_id: u64, owner: Address, nonce: u128, quantity: u64, bump: u8)
    ensures
        *final(fill) == opened_fill(*old(fill), market_id, owner, nonce, quantity, bump),
{
    if fill.owner.is_default() {
        *fill = FillState { market_id, owner, nonce, quantity, filled_quantity: 0, bump };
    }
}

/// Opens a Position account that has just been created.
fn open_position(position: &mut UserPosition, market_id: u64, owner: Address, side: PositionSide, bump: u8)
    ensures
        *final(position) == opened_position(*old(position), market_id, owner, side, bump),
{
    if position.owner.is_default() {
        position.market_id = market_id;
        position.owner = owner;
        position.side = side;
        position.bump = bump;
    }
}

/// Maps a signature status to the error it gives.
fn require_signature(status: SignatureCheck) -> (r: Result<(), VaultError>)
    ensures
        match signature_error(status) {
            Some(e) => r == Err::<(), VaultError>(e),
            None => r is Ok,
        },
{
    match status {
        SignatureCheck::Verified => Ok(()),
        SignatureCheck::Mismatch => Err(VaultError::SignedOrderSignatureMismatch),
        SignatureCheck::Missing => Err(VaultError::SignedOrderSignatureMissing),
    }
}

/// Checks the two Signed Orders of a Trade: both fit the Trade, their owners differ, the buy
/// price is at least the sell price, and each owner has signed their order in the transaction.
fn check_trade_orders(
    market_id: u64,
    buyer_order: &SignedOrder,
    seller_order: &SignedOrder,
    quantity: u64,
    scope: &OrderScope,
    now: i64,
    instructions: &Vec<TransactionInstruction>,
) -> (r: Result<(), VaultError>)
    ensures
        match trade_orders_error(market_id, *buyer_order, *seller_order, quantity, *scope, now, instructions@) {
            Some(e) => r == Err::<(), VaultError>(e),
            None => r is Ok,
        },
{
    if quantity == 0 {
        return Err(VaultError::InvalidAmount);
    }
    validate_signed_order(buyer_order, OrderSide::Buy, scope, market_id, now)?;
    validate_signed_order(seller_order, OrderSide::Sell, scope, market_id, now)?;
    if buyer_order.owner.same(&seller_order.owner) {
        return Err(VaultError::SelfTradeDisabled);
    }
    if buyer_order.price_scaled < seller_order.price_scaled {
        return Err(VaultError::OrderPriceNotCrossed);
    }
    let buy_message = encode_signed_order(buyer_order);
    require_signature(check_order_signature(instructions, &buyer_order.owner, &buy_message))?;
    let sell_message = encode_signed_order(seller_order);
    require_signature(check_order_signature(instructions, &seller_order.owner, &sell_message))?;
    Ok(())
}

/// Trade Execution of two Signed Orders: the buy order's owner gains Long exposure and locks
/// Quantity times the Execution Price of Available Collateral, the sell order's owner gains Short
/// exposure and locks the rest of the Quantity. The Execution Price is the sell order's price.
/// Both orders must fit the Market, cross, and be signed by their owners in Ed25519 verification
/// instructions among `instructions`, the transaction's instructions; the Quantity is counted into
/// both orders' fill accounts, which it may not take past the orders' Quantities. Returns the
/// event to record.
#[allow(clippy::too_many_arguments)]
pub fn settle_trade(
    ctx: &mut SettleTrade,
    market_id: u64,
    buyer_order: &SignedOrder,
    seller_order: &SignedOrder,
    quantity: u64,
    scope: &OrderScope,
    now: i64,
    instructions: &Vec<TransactionInstruction>,
) -> (r: Result<TradeSettled, VaultError>)
    ensures
        match settle_trade_outcome(
            *old(ctx),
            market_id,
            *buyer_order,
            *seller_order,
            quantity,
            *scope,
            now,
            instructions@,
        ) {
            Ok((post, event)) => r == Ok::<TradeSettled, VaultError>(event) && *final(ctx) == post,
            Err(e) => r == Err::<TradeSettled, VaultError>(e) && *final(ctx) == *old(ctx),
        },
{
    check_trade_orders(market_id, buyer_order, seller_order, quantity, scope, now, instructions)?;
    let buyer = buyer_order.owner;
    let seller = seller_order.owner;
    let price_scaled = seller_order.price_scaled;
    if ctx.market.market_id != market_id {
        return Err(VaultError::MarketMismatch);
    }
    if ctx.market.status != MarketStatus::Active {
        return Err(VaultError::MarketNotTradable);
    }
    if ctx.market_vault.market_id != market_id {
        return Err(VaultError::MarketMismatch);
    }
    let mut buyer_collateral = ctx.buyer_collateral;
    let mut seller_collateral = ctx.seller_collateral;
    if buyer_collateral.market_id != market_id || seller_collateral.market_id != market_id {
        return Err(VaultError::MarketMismatch);
    }
    if !buyer_collateral.owner.same(&buyer) || !seller_collateral.owner.same(&seller) {
        return Err(VaultError::PositionOwnerMismatch);
    }
    let mut buyer_fill = ctx.buyer_fill;
    let mut seller_fill = ctx.seller_fill;
    open_fill(&mut buyer_fill, market_id, buyer, buyer_order.nonce, buyer_order.quantity, ctx.buyer_fill_bump);
    open_fill(&mut seller_fill, market_id, seller, seller_order.nonce, seller_order.quantity, ctx.seller_fill_bump);
    if buyer_fill.market_id != market_id || seller_fill.market_id != market_id {
        return Err(VaultError::MarketMismatch);
    }
    if !buyer_fill.owner.same(&buyer) || !seller_fill.owner.same(&seller) {
        return Err(VaultError::PositionOwnerMismatch);
    }
    if buyer_fill.nonce != buyer_order.nonce || seller_fill.nonce != seller_order.nonce {
        return Err(VaultError::FillNonceMismatch);
    }
    if buyer_fill.quantity != buyer_order.quantity || seller_fill.quantity != seller_order.quantity {
        return Err(VaultError::FillQuantityMismatch);
    }
    if buyer_fill.filled_quantity > buyer_fill.quantity || quantity > buyer_fill.quantity
        - buyer_fill.filled_quantity || seller_fill.filled_quantity > seller_fill.quantity
        || quantity > seller_fill.quantity - seller_fill.filled_quantity {
        return Err(VaultError::OrderOverfill);
    }
    let mut buyer_position = ctx.buyer_position;
    let mut seller_position = ctx.seller_position;
    open_position(&mut buyer_position, market_id, buyer, PositionSide::Long, ctx.buyer_position_bump);
    open_position(&mut seller_position, market_id, seller, PositionSide::Short, ctx.seller_position_bump);
    if buyer_position.market_id != market_id || seller_position.market_id != market_id {
        return Err(VaultError::MarketMismatch);
    }
    if !buyer_position.owner.same(&buyer) || !seller_position.owner.same(&seller) {
        return Err(VaultError::PositionOwnerMismatch);
    }
    if buyer_position.side != PositionSide::Long || seller_position.side != PositionSide::Short {
        return Err(VaultError::InvalidSideForTrade);
    }
    let gross = match quantity.checked_mul(price_scaled) {
        Some(v) => v,
        None => return Err(VaultError::MathOverflow),
    };
    let buyer_notional = gross / SCALE;
    proof {
        assert(buyer_notional <= quantity) by (nonlinear_arith)
            requires
                gross == quantity * price_scaled,
                price_scaled <= SCALE,
                buyer_notional == gross / SCALE,
                SCALE == 1_000_000u64,
        ;
    }
    let seller_notional = quantity - buyer_notional;
    if buyer_collateral.available_collateral < buyer_notional {
        return Err(VaultError::InsufficientAvailableCollateral);
    }
    if seller_collateral.available_collateral < seller_notional {
        return Err(VaultError::InsufficientAvailableCollateral);
    }
    let buyer_quantity = match buyer_position.quantity.checked_add(quantity) {
        Some(v) => v,
        None => return Err(VaultError::MathOverflow),
    };
    let buyer_cost = match buyer_position.cost_basis.checked_add(buyer_notional) {
        Some(v) => v,
        None => return Err(VaultError::MathOverflow),
    };
    let seller_quantity = match seller_position.quantity.checked_add(quantity) {
        Some(v) => v,
        None => return Err(VaultError::MathOverflow),
    };
    let seller_cost = match seller_position.cost_basis.checked_add(seller_notional) {
        Some(v) => v,
        None => return Err(VaultError::MathOverflow),
    };
    buyer_collateral.available_collateral = buyer_collateral.available_collateral - buyer_notional;
    seller_collateral.available_collateral = seller_collateral.available_collateral - seller_notional;
    buyer_position.quantity = buyer_quantity;
    buyer_position.cost_basis = buyer_cost;
    seller_position.quantity = seller_quantity;
    seller_position.cost_basis = seller_cost;
    buyer_fill.filled_quantity = buyer_fill.filled_quantity + quantity;
    seller_fill.filled_quantity = seller_fill.filled_quantity + quantity;
    ctx.buyer_collateral = buyer_collateral;
    ctx.seller_collateral = seller_collateral;
    ctx.buyer_position = buyer_position;
    ctx.seller_position = seller_position;
    ctx.buyer_fill = buyer_fill;
    ctx.seller_fill = seller_fill;
    Ok(TradeSettled { market_vault: ctx.market_vault_key, buyer, seller, quantity, price_scaled })
}

/// Price split of a Trade: for a Price in `[0, SCALE]`, the Long side locks between nothing and
/// the whole Quantity, and the two sides together lock exactly the Quantity.
pub proof fn lemma_notional_split(quantity: u64, price_scaled: u64)
    requires
        price_scaled <= SCALE,
    ensures
        0 <= long_notional(quantity, price_scaled) <= quantity,
        0 <= short_notional(quantity, price_scaled) <= quantity,
        long_notional(quantity, price_scaled) + short_notional(quantity, price_scaled) == quantity,
{
    assert(0 <= (quantity * price_scaled) / (SCALE as int) <= quantity) by (nonlinear_arith)
        requires
            price_scaled <= SCALE,
            SCALE == 1_000_000u64,
    ;
}

/// Trade Execution moves exactly the traded Quantity of Collateral out of the two users'
/// Available Collateral into their Positions' Cost Basis, the buyer's share being the Quantity
/// times the seller's price; it adds the Quantity to both Positions and to both fill accounts,
/// and leaves the Vault's total untouched.
pub proof fn lemma_trade_locks_exactly_quantity(
    ctx: SettleTrade,
    market_id: u64,
    buyer_order: SignedOrder,
    seller_order: SignedOrder,
    quantity: u64,
    scope: OrderScope,
    now: i64,
    instructions: Seq<TransactionInstruction>,
)
    requires
        settle_trade_outcome(
            ctx,
            market_id,
            buyer_order,
            seller_order,
            quantity,
            scope,
            now,
            instructions,
        ) is Ok,
    ensures
        ({
            let post = settled_trade(ctx, market_id, buyer_order, seller_order, quantity);
            let bp = trade_buyer_position(ctx, market_id, buyer_order.owner);
            let sp = trade_seller_position(ctx, market_id, seller_order.owner);
            let bf = trade_buyer_fill(ctx, market_id, buyer_order);
            let sf = trade_seller_fill(ctx, market_id, seller_order);
            &&& post.buyer_collateral.available_collateral + post.seller_collateral.available_collateral
                + quantity == ctx.buyer_collateral.available_collateral
                + ctx.seller_collateral.available_collateral
            &&& (post.buyer_position.cost_basis - bp.cost_basis) + (post.seller_position.cost_basis
                - sp.cost_basis) == quantity
            &&& post.buyer_position.cost_basis - bp.cost_basis == long_notional(
                quantity,
                seller_order.price_scaled,
            )
            &&& post.buyer_position.quantity == bp.quantity + quantity
            &&& post.seller_position.quantity == sp.quantity + quantity
            &&& post.buyer_position.side == PositionSide::Long
            &&& post.seller_position.side == PositionSide::Short
            &&& post.buyer_fill.filled_quantity == bf.filled_quantity + quantity
            &&& post.seller_fill.filled_quantity == sf.filled_quantity + quantity
            &&& post.market_vault == ctx.market_vault
        }),
{
    lemma_notional_split(quantity, seller_order.price_scaled);
}

/// Only Trades both users signed move their Collateral: a Trade succeeds only if each owner has
/// signed their order's canonical encoding in the transaction, the orders fit the Market, the
/// cluster and the programs, are unexpired, of opposite sides and of distinct owners, and the buy
/// price is at least the sell price; the Trade then executes at the sell price, within the
/// buyer's and seller's Available Collateral, in an Active Market.
pub proof fn lemma_trade_needs_signed_crossing_orders(
    ctx: SettleTrade,
    market_id: u64,
    buyer_order: SignedOrder,
    seller_order: SignedOrder,
    quantity: u64,
    scope: OrderScope,
    now: i64,
    instructions: Seq<TransactionInstruction>,
)
    requires
        settle_trade_outcome(
            ctx,
            market_id,
            buyer_order,
            seller_order,
            quantity,
            scope,
            now,
            instructions,
        ) is Ok,
    ensures
        signed_by(instructions, buyer_order.owner@, order_message(buyer_order)),
        signed_by(instructions, seller_order.owner@, order_message(seller_order)),
        order_error(buyer_order, OrderSide::Buy, scope, market_id, now) is None,
        order_error(seller_order, OrderSide::Sell, scope, market_id, now) is None,
        now <= buyer_order.expiration_ts && now <= seller_order.expiration_ts,
        buyer_order.side == OrderSide::Buy && seller_order.side == OrderSide::Sell,
        buyer_order.owner@ != seller_order.owner@,
        seller_order.price_scaled <= buyer_order.price_scaled <= SCALE,
        settle_trade_outcome(
            ctx,
            market_id,
            buyer_order,
            seller_order,
            quantity,
            scope,
            now,
            instructions,
        )->Ok_0.1.price_scaled == seller_order.price_scaled,
        ctx.market.status == MarketStatus::Active,
        0 < quantity,
        long_notional(quantity, seller_order.price_scaled)
            <= ctx.buyer_collateral.available_collateral,
        short_notional(quantity, seller_order.price_scaled)
            <= ctx.seller_collateral.available_collateral,
{
}

/// No order is filled past its own Quantity: a Trade adds its Quantity to the filled Quantity of
/// each order's fill account, which stays at most that order's Quantity, and the fill account
/// holds that Quantity.
pub proof fn lemma_fills_never_overfilled(
    ctx: SettleTrade,
    market_id: u64,
    buyer_order: SignedOrder,
    seller_order: SignedOrder,
    quantity: u64,
    scope: OrderScope,
    now: i64,
    instructions: Seq<TransactionInstruction>,
)
    requires
        settle_trade_outcome(
            ctx,
            market_id,
            buyer_order,
            seller_order,
            quantity,
            scope,
            now,
            instructions,
        ) is Ok,
    ensures
        ({
            let post = settled_trade(ctx, market_id, buyer_order, seller_order, quantity);
            let bf = trade_buyer_fill(ctx, market_id, buyer_order);
            let sf = trade_seller_fill(ctx, market_id, seller_order);
            &&& post.buyer_fill.quantity == buyer_order.quantity
            &&& post.seller_fill.quantity == seller_order.quantity
            &&& post.buyer_fill.filled_quantity == bf.filled_quantity + quantity
            &&& post.seller_fill.filled_quantity == sf.filled_quantity + quantity
            &&& bf.filled_quantity + quantity <= buyer_order.quantity
            &&& sf.filled_quantity + quantity <= seller_order.quantity
        }),
{
}

/// Overfill is refused: a Trade whose Quantity would take what is filled of an order past that
/// order's own Quantity fails, and so leaves every account as it was.
pub proof fn lemma_overfill_refused(
    ctx: SettleTrade,
    market_id: u64,
    buyer_order: SignedOrder,
    seller_order: SignedOrder,
    quantity: u64,
    scope: OrderScope,
    now: i64,
    instructions: Seq<TransactionInstruction>,
)
    requires
        trade_buyer_fill(ctx, market_id, buyer_order).filled_quantity + quantity
            > buyer_order.quantity || trade_seller_fill(ctx, market_id, seller_order).filled_quantity
            + quantity > seller_order.quantity,
    ensures
        settle_trade_outcome(
            ctx,
            market_id,
            buyer_order,
            seller_order,
            quantity,
            scope,
            now,
            instructions,
        ) is Err,
{
}

/// A fill account that already exists belongs to one order: a Trade whose order names another
/// nonce or another Quantity for it is refused, so a reused nonce cannot stretch an order.
pub proof fn lemma_fill_bound_to_order(
    ctx: SettleTrade,
    market_id: u64,
    buyer_order: SignedOrder,
    seller_order: SignedOrder,
    quantity: u64,
    scope: OrderScope,
    now: i64,
    instructions: Seq<TransactionInstruction>,
)
    requires
        !is_unset(ctx.buyer_fill.owner) && (ctx.buyer_fill.nonce != buyer_order.nonce
            || ctx.buyer_fill.quantity != buyer_order.quantity) || !is_unset(ctx.seller_fill.owner)
            && (ctx.seller_fill.nonce != seller_order.nonce || ctx.seller_fill.quantity
            != seller_order.quantity),
    ensures
        settle_trade_outcome(
            ctx,
            market_id,
            buyer_order,
            seller_order,
            quantity,
            scope,
            now,
            instructions,
        ) is Err,
{
}

/// Withdrawing what was just deposited gives back the user's Available Collateral and the
/// Vault's total as they were before the deposit.
pub proof fn lemma_withdraw_undoes_deposit(
    deposit: DepositCollateral,
    withdraw: WithdrawAvailableCollateral,
    market_id: u64,
    amount: u64,
)
    requires
        deposit_outcome(deposit, market_id, amount) is Ok,
        opened_collateral(deposit, market_id).market_id == market_id,
        withdraw.market_key@ == deposit.market_key@,
        withdraw.market_vault == deposit_outcome(deposit, market_id, amount)->Ok_0.market_vault,
        withdraw.user_collateral == deposit_outcome(deposit, market_id, amount)->Ok_0.user_collateral,
        withdraw.usdc_mint.key@ == withdraw.market_vault.token_mint@,
        withdraw.vault_token_account.mint@ == withdraw.usdc_mint.key@,
        withdraw.vault_token_account.owner@ == withdraw.vault_authority@,
        withdraw.user_ata.owner@ == withdraw.user@,
        withdraw.user_ata.mint@ == withdraw.usdc_mint.key@,
    ensures
        withdraw_outcome(withdraw, market_id, amount) is Ok,
        withdraw_outcome(withdraw, market_id, amount)->Ok_0.user_collateral.available_collateral
            == opened_collateral(deposit, market_id).available_collateral,
        withdraw_outcome(withdraw, market_id, amount)->Ok_0.market_vault.total_collateral
            == deposit.market_vault.total_collateral,
{
}

/// The Vault's total Collateral moves with the tokens: a deposit adds the deposited amount, a
/// withdrawal and a settlement transfer take away the transferred amount.
pub proof fn lemma_vault_total_follows_transfers(
    deposit: DepositCollateral,
    withdraw: WithdrawAvailableCollateral,
    transfer: TransferForSettlement,
    market_id: u64,
    amount: u64,
)
    ensures
        deposit_outcome(deposit, market_id, amount) matches Ok(post) ==> post.market_vault.total_collateral
            == deposit.market_vault.total_collateral + amount,
        withdraw_outcome(withdraw, market_id, amount) matches Ok(post) ==> post.market_vault.total_collateral
            == withdraw.market_vault.total_collateral - amount && amount
            <= withdraw.user_collateral.available_collateral,
        transfer_for_settlement_outcome(transfer, market_id, amount) matches Ok(post)
            ==> post.market_vault.total_collateral == transfer.market_vault.total_collateral - amount
            && transfer.settlement_authority@ == transfer.market_vault.settlement_authority@,
{
}

/// A newly created Market is Preliminary and accepts no Trade until the admin activates it,
/// whatever the Trade.
pub proof fn lemma_new_market_not_tradable(
    create: CreateMarket,
    ctx: SettleTrade,
    market_id: u64,
    lower_bound: u64,
    upper_bound: u64,
    resolution_ts: i64,
    settlement_source: String,
    payoff_type: PayoffType,
    min_participants: u16,
    buyer_order: SignedOrder,
    seller_order: SignedOrder,
    quantity: u64,
    scope: OrderScope,
    now: i64,
    instructions: Seq<TransactionInstruction>,
)
    requires
        ctx.market == created_market(
            create,
            market_id,
            lower_bound,
            upper_bound,
            resolution_ts,
            settlement_source,
            payoff_type,
            min_participants,
        ),
    ensures
        settle_trade_outcome(
            ctx,
            market_id,
            buyer_order,
            seller_order,
            quantity,
            scope,
            now,
            instructions,
        ) is Err,
{
}

/// A Market Vault is created once: a Vault that `init_market_vault` wrote for a vault token
/// account makes any later initialization of that Vault fail, whatever its arguments.
pub proof fn lemma_vault_created_once(
    init: InitMarketVault,
    market_id: u64,
    settlement_authority: Address,
    later: InitMarketVault,
    later_market_id: u64,
    later_settlement_authority: Address,
)
    requires
        init_market_vault_outcome(init, market_id, settlement_authority) is Ok,
        init.vault_token_account.key@ != zero_view(),
        later.market_vault == init_market_vault_outcome(
            init,
            market_id,
            settlement_authority,
        )->Ok_0.market_vault,
    ensures
        init_market_vault_outcome(later, later_market_id, later_settlement_authority) == Err::<
            InitMarketVault,
            VaultError,
        >(VaultError::AlreadyInitialized),
{
}

/// The Vault's total Collateral is what its users hold in it: if the total equals the Available
/// Collateral of the accounts an instruction touches, plus the Cost Basis of the Positions it
/// touches, plus `rest` for all other accounts, then it still does after a deposit, a withdrawal
/// or a Trade.
pub proof fn lemma_vault_total_backs_collateral(
    deposit: DepositCollateral,
    withdraw: WithdrawAvailableCollateral,
    trade: SettleTrade,
    market_id: u64,
    amount: u64,
    buyer_order: SignedOrder,
    seller_order: SignedOrder,
    quantity: u64,
    scope: OrderScope,
    now: i64,
    instructions: Seq<TransactionInstruction>,
    rest: int,
)
    ensures
        deposit_outcome(deposit, market_id, amount) is Ok && deposit.market_vault.total_collateral
            == opened_collateral(deposit, market_id).available_collateral + rest ==> ({
            let post = deposit_outcome(deposit, market_id, amount)->Ok_0;
            post.market_vault.total_collateral == post.user_collateral.available_collateral + rest
        }),
        withdraw_outcome(withdraw, market_id, amount) is Ok && withdraw.market_vault.total_collateral
            == withdraw.user_collateral.available_collateral + rest ==> ({
            let post = withdraw_outcome(withdraw, market_id, amount)->Ok_0;
            post.market_vault.total_collateral == post.user_collateral.available_collateral + rest
        }),
        settle_trade_outcome(
            trade,
            market_id,
            buyer_order,
            seller_order,
            quantity,
            scope,
            now,
            instructions,
        ) is Ok && trade.market_vault.total_collateral == trade.buyer_collateral.available_collateral
            + trade.seller_collateral.available_collateral + trade_buyer_position(
            trade,
            market_id,
            buyer_order.owner,
        ).cost_basis + trade_seller_position(trade, market_id, seller_order.owner).cost_basis
            + rest ==> ({
            let post = settled_trade(trade, market_id, buyer_order, seller_order, quantity);
            post.market_vault.total_collateral == post.buyer_collateral.available_collateral
                + post.seller_collateral.available_collateral + post.buyer_position.cost_basis
                + post.seller_position.cost_basis + rest
        }),
{
    if settle_trade_outcome(
        trade,
        market_id,
        buyer_order,
        seller_order,
        quantity,
        scope,
        now,
        instructions,
    ) is Ok {
        lemma_trade_locks_exactly_quantity(
            trade,
            market_id,
            buyer_order,
            seller_order,
            quantity,
            scope,
            now,
            instructions,
        );
    }
}

/// Collateral can be deposited into a Market that is Preliminary or Active: when the accounts
/// belong together, the amount is not zero and no total overflows, the deposit goes through and
/// adds the amount to the user's Available Collateral, to what the user has deposited, and to the
/// Vault's total. Into a Market in any other status nothing is deposited.
pub proof fn lemma_deposit_accepted_while_open(ctx: DepositCollateral, market_id: u64, amount: u64)
    requires
        ctx.user_ata.owner@ == ctx.user@,
        ctx.user_ata.mint@ == ctx.usdc_mint.key@,
        ctx.market_vault.market_id == market_id,
        ctx.market_vault.market@ == ctx.market_key@,
        ctx.vault_token_account.mint@ == ctx.usdc_mint.key@,
        ctx.vault_token_account.owner@ == ctx.market_vault.vault_authority@,
        ctx.market.market_id == market_id,
        0 < amount,
        ctx.user_collateral.available_collateral + amount <= u64::MAX,
        ctx.user_collateral.total_deposited + amount <= u64::MAX,
        ctx.market_vault.total_collateral + amount <= u64::MAX,
    ensures
        ctx.market.status == MarketStatus::Preliminary || ctx.market.status == MarketStatus::Active
            ==> deposit_outcome(ctx, market_id, amount) is Ok && ({
            let post = deposit_outcome(ctx, market_id, amount)->Ok_0;
            &&& post.user_collateral.available_collateral == ctx.user_collateral.available_collateral
                + amount
            &&& post.user_collateral.total_deposited == ctx.user_collateral.total_deposited + amount
            &&& post.market_vault.total_collateral == ctx.market_vault.total_collateral + amount
        }),
        !(ctx.market.status == MarketStatus::Preliminary || ctx.market.status
            == MarketStatus::Active) ==> deposit_outcome(ctx, market_id, amount) is Err,
{
}

/// A settlement transfer by the Vault's settlement authority goes through, with accounts that
/// belong together, for every amount from one unit up to the whole of the Vault's total, and
/// takes exactly that amount from the total; the last Payout may empty the Vault. More than the
/// total is never paid out.
pub proof fn lemma_settlement_transfer_up_to_total(
    ctx: TransferForSettlement,
    market_id: u64,
    amount: u64,
)
    requires
        ctx.market_vault.market_id == market_id,
        ctx.market_vault.token_mint@ == ctx.usdc_mint.key@,
        ctx.vault_token_account.mint@ == ctx.usdc_mint.key@,
        ctx.vault_token_account.owner@ == ctx.vault_authority@,
        ctx.recipient_ata.mint@ == ctx.usdc_mint.key@,
        ctx.settlement_authority@ == ctx.market_vault.settlement_authority@,
        0 < amount,
    ensures
        amount <= ctx.market_vault.total_collateral ==> transfer_for_settlement_outcome(
            ctx,
            market_id,
            amount,
        ) is Ok && transfer_for_settlement_outcome(ctx, market_id, amount)->Ok_0.market_vault.total_collateral
            == ctx.market_vault.total_collateral - amount,
        amount > ctx.market_vault.total_collateral ==> transfer_for_settlement_outcome(
            ctx,
            market_id,
            amount,
        ) is Err,
{
}

} // verus!
