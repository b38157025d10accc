//! Signed Orders: their canonical byte encoding, the checks that bind an Order to a Trade, and
//! the matching of an Order to the Ed25519 signature verification that signs it.
use vstd::prelude::*;

use crate::address::Address;
use crate::vault::{OrderNetwork, OrderSide, SignedOrder, VaultError, SCALE};

verus! {

/// The only Signed Order message version.
pub const SIGNED_ORDER_VERSION: u8 = 1;

/// Length in bytes of an encoded Signed Order.
pub const SIGNED_ORDER_MESSAGE_LEN: usize = 165;

/// Id of Solana's native Ed25519 signature verification program,
/// `Ed25519SigVerify111111111111111111111111111`.
pub const ED25519_PROGRAM_ID: [u8; 32] = [
    3, 125, 70, 214, 124, 147, 251, 190, 18, 249, 66, 143, 131, 141, 64, 255, 5, 112, 116, 73, 39,
    244, 138, 100, 252, 202, 112, 68, 128, 0, 0, 0,
];

/// One instruction of the transaction that carries a Trade: the program it calls and its data.
#[derive(Clone, Debug, PartialEq, Eq)]
pub struct TransactionInstruction {
    pub program_id: Address,
    pub data: Vec<u8>,
}

/// What a Trade binds its Signed Orders to: the cluster and the two program ids.
#[derive(Clone, Copy, Debug, PartialEq, Eq)]
pub struct OrderScope {
    pub network: OrderNetwork,
    pub market_program_id: Address,
    pub vault_program_id: Address,
}

/// Whether an order's owner has signed it in the transaction, as the Ed25519 verification
/// instructions of the transaction show.
#[derive(Clone, Copy, Debug, PartialEq, Eq, Structural)]
pub enum SignatureCheck {
    /// An instruction verifies the owner's signature over the order's encoding.
    Verified,
    /// Instructions verify the owner's signatures, but none over the order's encoding.
    Mismatch,
    /// No instruction verifies a signature of the owner.
    Missing,
}

/// The domain prefix of every encoded Signed Order: its length, then the bytes of
/// `LIME_SIGNED_ORDER`.
pub open spec fn order_domain() -> Seq<u8> {
    seq![17u8, 76, 73, 77, 69, 95, 83, 73, 71, 78, 69, 68, 95, 79, 82, 68, 69, 82]
}

/// The byte of a network: mainnet-beta 0, devnet 1, localnet 2.
pub open spec fn network_byte(network: OrderNetwork) -> u8 {
    match network {
        OrderNetwork::MainnetBeta => 0,
        OrderNetwork::Devnet => 1,
        OrderNetwork::Localnet => 2,
    }
}

/// The byte of an order side: buy 0, sell 1.
pub open spec fn side_byte(side: OrderSide) -> u8 {
    match side {
        OrderSide::Buy => 0,
        OrderSide::Sell => 1,
    }
}

/// The little-endian bytes of a `u64`.
pub open spec fn u64_le(x: u64) -> Seq<u8> {
    seq![
        x as u8,
        (x >> 8u64) as u8,
        (x >> 16u64) as u8,
        (x >> 24u64) as u8,
        (x >> 32u64) as u8,
        (x >> 40u64) as u8,
        (x >> 48u64) as u8,
        (x >> 56u64) as u8,
    ]
}

/// The little-endian bytes of a `u128`: its low `u64` half, then its high half.
pub open spec fn u128_le(x: u128) -> Seq<u8> {
    u64_le(x as u64) + u64_le((x >> 64u128) as u64)
}

/// The canonical encoding of a Signed Order, which its owner signs: the domain, version,
/// network, market and vault program ids, Market id, owner, side, Price, Quantity, expiration
/// (as the two's complement `u64`) and nonce, integers little-endian.
pub open spec fn order_message(order: SignedOrder) -> Seq<u8> {
    order_domain() + seq![order.version, network_byte(order.network)] + order.market_program_id@
        + order.vault_program_id@ + u64_le(order.market_id) + order.owner@ + seq![
        side_byte(order.side),
    ] + u64_le(order.price_scaled) + u64_le(order.quantity) + u64_le(order.expiration_ts as u64)
        + u128_le(order.nonce)
}

/// The error an Order fails with when it does not fit a Trade as the order of `side` in the
/// Market `market_id`, at time `now`.
pub open spec fn order_error(
    order: SignedOrder,
    side: OrderSide,
    scope: OrderScope,
    market_id: u64,
    now: i64,
) -> Option<VaultError> {
    if order.version != SIGNED_ORDER_VERSION {
        Some(VaultError::InvalidOrderVersion)
    } else if order.network != scope.network {
        Some(VaultError::OrderNetworkMismatch)
    } else if order.market_program_id@ != scope.market_program_id@ || order.vault_program_id@
        != scope.vault_program_id@ {
        Some(VaultError::OrderProgramMismatch)
    } else if order.market_id != market_id {
        Some(VaultError::MarketMismatch)
    } else if order.side != side {
        Some(VaultError::OrderSideMismatch)
    } else if order.price_scaled > SCALE {
        Some(VaultError::InvalidPrice)
    } else if now > order.expiration_ts {
        Some(VaultError::OrderExpired)
    } else {
        None
    }
}

/// The `u16` stored little-endian at byte `i`.
pub open spec fn u16_le_at(data: Seq<u8>, i: int) -> int {
    data[i] as int + 256 * (data[i + 1] as int)
}

/// Offset of the public key in an Ed25519 verification instruction with one signature.
pub open spec fn ed25519_key_offset(data: Seq<u8>) -> int {
    u16_le_at(data, 6)
}

/// Offset of the message in an Ed25519 verification instruction with one signature.
pub open spec fn ed25519_message_offset(data: Seq<u8>) -> int {
    u16_le_at(data, 10)
}

/// Size of the message in an Ed25519 verification instruction with one signature.
pub open spec fn ed25519_message_size(data: Seq<u8>) -> int {
    u16_le_at(data, 12)
}

/// Whether the data of an Ed25519 verification instruction has the shape the vault accepts: one
/// signature, no padding, signature, public key and message all in this instruction (index
/// `u16::MAX`) and within its data.
pub open spec fn ed25519_well_formed(data: Seq<u8>) -> bool {
    &&& data.len() >= 16
    &&& data[0] == 1
    &&& data[1] == 0
    &&& u16_le_at(data, 4) == 0xFFFF
    &&& u16_le_at(data, 8) == 0xFFFF
    &&& u16_le_at(data, 14) == 0xFFFF
    &&& u16_le_at(data, 2) + 64 <= data.len()
    &&& ed25519_key_offset(data) + 32 <= data.len()
    &&& ed25519_message_offset(data) + ed25519_message_size(data) <= data.len()
}

/// The public key an Ed25519 verification instruction checks a signature of.
pub open spec fn ed25519_public_key(data: Seq<u8>) -> Seq<u8> {
    data.subrange(ed25519_key_offset(data), ed25519_key_offset(data) + 32)
}

/// The message an Ed25519 verification instruction checks a signature over.
pub open spec fn ed25519_message(data: Seq<u8>) -> Seq<u8> {
    data.subrange(
        ed25519_message_offset(data),
        ed25519_message_offset(data) + ed25519_message_size(data),
    )
}

/// Whether an instruction is a well-formed call of the Ed25519 verification program for
/// `owner`'s key.
pub open spec fn verifies_key_of(instruction: TransactionInstruction, owner: Seq<u8>) -> bool {
    &&& instruction.program_id@ == ED25519_PROGRAM_ID@
    &&& ed25519_well_formed(instruction.data@)
    &&& ed25519_public_key(instruction.data@) == owner
}

/// Whether one of the transaction's instructions has the Ed25519 verification program check
/// `owner`'s signature over `message`.
pub open spec fn signed_by(
    instructions: Seq<TransactionInstruction>,
    owner: Seq<u8>,
    message: Seq<u8>,
) -> bool {
    exists|i: int|
        0 <= i < instructions.len() && verifies_key_of(#[trigger] instructions[i], owner)
            && ed25519_message(instructions[i].data@) == message
}

/// Whether one of the transaction's instructions has the Ed25519 verification program check a
/// signature of `owner`.
pub open spec fn any_signature_of(instructions: Seq<TransactionInstruction>, owner: Seq<u8>) -> bool {
    exists|i: int| 0 <= i < instructions.len() && verifies_key_of(#[trigger] instructions[i], owner)
}

/// What the transaction's Ed25519 verification instructions show of `owner`'s signature over
/// `message`.
pub open spec fn signature_status(
    instructions: Seq<TransactionInstruction>,
    owner: Seq<u8>,
    message: Seq<u8>,
) -> SignatureCheck {
    if signed_by(instructions, owner, message) {
        SignatureCheck::Verified
    } else if any_signature_of(instructions, owner) {
        SignatureCheck::Mismatch
    } else {
        SignatureCheck::Missing
    }
}

/// The error a signature status gives, if any.
pub open spec fn signature_error(status: SignatureCheck) -> Option<VaultError> {
    match status {
        SignatureCheck::Verified => None,
        SignatureCheck::Mismatch => Some(VaultError::SignedOrderSignatureMismatch),
        SignatureCheck::Missing => Some(VaultError::SignedOrderSignatureMissing),
    }
}

/// Appends the little-endian bytes of `x`.
fn push_u64_le(out: &mut Vec<u8>, x: u64)
    ensures
        final(out)@ == old(out)@ + u64_le(x),
{
    out.push(x as u8);
    out.push((x >> 8u64) as u8);
    out.push((x >> 16u64) as u8);
    out.push((x >> 24u64) as u8);
    out.push((x >> 32u64) as u8);
    out.push((x >> 40u64) as u8);
    out.push((x >> 48u64) as u8);
    out.push((x >> 56u64) as u8);
    assert(out@ =~= old(out)@ + u64_le(x));
}

/// Appends the bytes of an address.
fn push_address(out: &mut Vec<u8>, address: &Address)
    ensures
        final(out)@ == old(out)@ + address@,
{
    let mut i: usize = 0;
    while i < 32
        invariant
            i <= 32,
            address@.len() == 32,
            out@ == old(out)@ + address@.subrange(0, i as int),
        decreases 32 - i,
    {
        out.push(address.bytes[i]);
        assert(address@.subrange(0, i + 1) =~= address@.subrange(0, i as int).push(address@[i as int]));
        i = i + 1;
    }
    assert(address@.subrange(0, 32) =~= address@);
}

/// The canonical encoding of a Signed Order, which its owner signs.
pub fn encode_signed_order(order: &SignedOrder) -> (r: Vec<u8>)
    ensures
        r@ == order_message(*order),
        r@.len() == SIGNED_ORDER_MESSAGE_LEN,
{
    let mut out: Vec<u8> = vec![17u8, 76, 73, 77, 69, 95, 83, 73, 71, 78, 69, 68, 95, 79, 82, 68, 69, 82];
    assert(out@ =~= order_domain());
    out.push(order.version);
    let network: u8 = match order.network {
        OrderNetwork::MainnetBeta => 0,
        OrderNetwork::Devnet => 1,
        OrderNetwork::Localnet => 2,
    };
    out.push(network);
    assert(out@ =~= order_domain() + seq![order.version, network_byte(order.network)]);
    push_address(&mut out, &order.market_program_id);
    push_address(&mut out, &order.vault_program_id);
    push_u64_le(&mut out, order.market_id);
    push_address(&mut out, &order.owner);
    let side: u8 = match order.side {
        OrderSide::Buy => 0,
        OrderSide::Sell => 1,
    };
    let ghost before_side = out@;
    out.push(side);
    assert(out@ =~= before_side + seq![side_byte(order.side)]);
    push_u64_le(&mut out, order.price_scaled);
    push_u64_le(&mut out, order.quantity);
    push_u64_le(&mut out, order.expiration_ts as u64);
    let ghost before_nonce = out@;
    push_u64_le(&mut out, order.nonce as u64);
    push_u64_le(&mut out, (order.nonce >> 64u128) as u64);
    assert(out@ =~= before_nonce + u128_le(order.nonce));
    out
}

/// Reads the `u16` stored little-endian at byte `i`.
fn read_u16_le(data: &Vec<u8>, i: usize) -> (r: usize)
    requires
        i + 1 < data@.len(),
    ensures
        r == u16_le_at(data@, i as int),
{
    let _len = data.len();
    data[i] as usize + 256 * (data[i + 1] as usize)
}

/// Whether `data[start..start + expected.len()]` equals `expected`.
fn bytes_at(data: &Vec<u8>, start: usize, expected: &Vec<u8>) -> (r: bool)
    requires
        start + expected@.len() <= data@.len(),
    ensures
        r == (data@.subrange(start as int, start + expected@.len()) == expected@),
{
    let n = expected.len();
    let len = data.len();
    let mut i: usize = 0;
    while i < n
        invariant
            i <= n,
            n == expected@.len(),
            start + n <= data@.len(),
            len == data@.len(),
            forall|j: int| 0 <= j < i ==> data@[start + j] == expected@[j],
        decreases n - i,
    {
        if data[start + i] != expected[i] {
            assert(data@.subrange(start as int, start + n)[i as int] != expected@[i as int]);
            return false;
        }
        i = i + 1;
    }
    assert(data@.subrange(start as int, start + n) =~= expected@);
    true
}

/// Reads the data of one Ed25519 verification instruction: whether it is well formed and for
/// `owner`'s key, and whether, being so, it is over `message`.
fn read_ed25519(data: &Vec<u8>, owner: &Vec<u8>, message: &Vec<u8>) -> (r: (bool, bool))
    requires
        owner@.len() == 32,
    ensures
        r.0 == (ed25519_well_formed(data@) && ed25519_public_key(data@) == owner@),
        r.1 == (ed25519_well_formed(data@) && ed25519_public_key(data@) == owner@
            && ed25519_message(data@) == message@),
{
    let len = data.len();
    if len < 16 || data[0] != 1 || data[1] != 0 {
        return (false, false);
    }
    let signature_offset = read_u16_le(data, 2);
    let signature_index = read_u16_le(data, 4);
    let key_offset = read_u16_le(data, 6);
    let key_index = read_u16_le(data, 8);
    let message_offset = read_u16_le(data, 10);
    let message_size = read_u16_le(data, 12);
    let message_index = read_u16_le(data, 14);
    if signature_index != 0xFFFF || key_index != 0xFFFF || message_index != 0xFFFF {
        return (false, false);
    }
    if signature_offset + 64 > len || key_offset + 32 > len || message_offset + message_size > len {
        return (false, false);
    }
    if !bytes_at(data, key_offset, owner) {
        return (false, false);
    }
    if message_size != message.len() {
        return (true, false);
    }
    (true, bytes_at(data, message_offset, message))
}

/// Whether the instructions of a transaction have the Ed25519 verification program check a
/// signature of `owner`'s key over `message`; instructions to other programs do not count.
pub fn check_order_signature(
    instructions: &Vec<TransactionInstruction>,
    owner: &Address,
    message: &Vec<u8>,
) -> (r: SignatureCheck)
    ensures
        r == signature_status(instructions@, owner@, message@),
{
    let mut key: Vec<u8> = Vec::new();
    push_address(&mut key, owner);
    assert(key@ =~= owner@);
    let verifier = Address { bytes: ED25519_PROGRAM_ID };
    let mut seen_key = false;
    let mut i: usize = 0;
    while i < instructions.len()
        invariant
            i <= instructions@.len(),
            key@ == owner@,
            key@.len() == 32,
            verifier@ == ED25519_PROGRAM_ID@,
            seen_key == exists|j: int| 0 <= j < i && verifies_key_of(#[trigger] instructions@[j], owner@),
            forall|j: int|
                0 <= j < i ==> !(verifies_key_of(#[trigger] instructions@[j], owner@)
                    && ed25519_message(instructions@[j].data@) == message@),
        decreases instructions@.len() - i,
    {
        let instruction = &instructions[i];
        if instruction.program_id.same(&verifier) {
            let (for_key, signs) = read_ed25519(&instruction.data, &key, message);
            if signs {
                assert(verifies_key_of(instructions@[i as int], owner@));
                assert(signed_by(instructions@, owner@, message@));
                return SignatureCheck::Verified;
            }
            if for_key {
                seen_key = true;
            }
        }
        i = i + 1;
    }
    if seen_key {
        SignatureCheck::Mismatch
    } else {
        SignatureCheck::Missing
    }
}

/// Checks that an Order fits a Trade as the order of `side` in the Market `market_id` at time
/// `now`: its version, network, program ids, Market, side, Price and expiration.
pub fn validate_signed_order(
    order: &SignedOrder,
    side: OrderSide,
    scope: &OrderScope,
    market_id: u64,
    now: i64,
) -> (r: Result<(), VaultError>)
    ensures
        match order_error(*order, side, *scope, market_id, now) {
            Some(e) => r == Err::<(), VaultError>(e),
            None => r is Ok,
        },
{
    if order.version != SIGNED_ORDER_VERSION {
        return Err(VaultError::InvalidOrderVersion);
    }
    if order.network != scope.network {
        return Err(VaultError::OrderNetworkMismatch);
    }
    if !order.market_program_id.same(&scope.market_program_id) || !order.vault_program_id.same(
        &scope.vault_program_id,
    ) {
        return Err(VaultError::OrderProgramMismatch);
    }
    if order.market_id != market_id {
        return Err(VaultError::MarketMismatch);
    }
    if order.side != side {
        return Err(VaultError::OrderSideMismatch);
    }
    if order.price_scaled > SCALE {
        return Err(VaultError::InvalidPrice);
    }
    if now > order.expiration_ts {
        return Err(VaultError::OrderExpired);
    }
    Ok(())
}

/// A signature verification counts wherever it stands in the transaction: if any instruction
/// calls the Ed25519 verification program, well formed, on `owner`'s key over `message`, the
/// order is signed, whatever instructions of any program come before or after it.
pub proof fn lemma_signature_found_anywhere(
    instructions: Seq<TransactionInstruction>,
    i: int,
    owner: Seq<u8>,
    message: Seq<u8>,
)
    requires
        0 <= i < instructions.len(),
        instructions[i].program_id@ == ED25519_PROGRAM_ID@,
        ed25519_well_formed(instructions[i].data@),
        ed25519_public_key(instructions[i].data@) == owner,
        ed25519_message(instructions[i].data@) == message,
    ensures
        signature_status(instructions, owner, message) == SignatureCheck::Verified,
{
    assert(verifies_key_of(instructions[i], owner));
}

/// Instructions of other programs do not matter: putting any number of them before and after
/// the instructions of a transaction changes nothing in what they show of a signature.
pub proof fn lemma_other_programs_ignored(
    before: Seq<TransactionInstruction>,
    instructions: Seq<TransactionInstruction>,
    after: Seq<TransactionInstruction>,
    owner: Seq<u8>,
    message: Seq<u8>,
)
    requires
        forall|j: int| 0 <= j < before.len() ==> (#[trigger] before[j]).program_id@ != ED25519_PROGRAM_ID@,
        forall|j: int| 0 <= j < after.len() ==> (#[trigger] after[j]).program_id@ != ED25519_PROGRAM_ID@,
    ensures
        signature_status(before + instructions + after, owner, message) == signature_status(
            instructions,
            owner,
            message,
        ),
{
    let all = before + instructions + after;
    let n = before.len() as int;
    assert forall|k: int| 0 <= k < all.len() && verifies_key_of(#[trigger] all[k], owner) implies n
        <= k < n + instructions.len() && all[k] == instructions[k - n] by {
        if k < n {
            assert(all[k] == before[k]);
        } else if k >= n + instructions.len() {
            assert(all[k] == after[k - n - instructions.len()]);
        }
    }
    if signed_by(all, owner, message) {
        let k = choose|k: int|
            0 <= k < all.len() && verifies_key_of(#[trigger] all[k], owner) && ed25519_message(
                all[k].data@,
            ) == message;
        assert(verifies_key_of(instructions[k - n], owner));
    }
    if signed_by(instructions, owner, message) {
        let k = choose|k: int|
            0 <= k < instructions.len() && verifies_key_of(#[trigger] instructions[k], owner)
                && ed25519_message(instructions[k].data@) == message;
        assert(all[k + n] == instructions[k]);
        assert(verifies_key_of(all[k + n], owner));
    }
    if any_signature_of(all, owner) {
        let k = choose|k: int| 0 <= k < all.len() && verifies_key_of(#[trigger] all[k], owner);
        assert(verifies_key_of(instructions[k - n], owner));
    }
    if any_signature_of(instructions, owner) {
        let k = choose|k: int| 0 <= k < instructions.len() && verifies_key_of(#[trigger] instructions[k], owner);
        assert(all[k + n] == instructions[k]);
        assert(verifies_key_of(all[k + n], owner));
    }
}

} // verus!
