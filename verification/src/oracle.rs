use vstd::prelude::*;
use vstd::string::is_ascii;

use anchor_lang::prelude::{Clock, Pubkey};
use pyth_solana_receiver_sdk::error::GetPriceError::{
    FeedIdMustBe32Bytes, FeedIdNonHexCharacter, InsufficientVerificationLevel, InvalidWindowSize,
    MismatchedFeedId, PriceTooOld,
};
use pyth_solana_receiver_sdk::price_update::{
    get_feed_id_from_hex, PriceFeedMessage, PriceUpdateV2, VerificationLevel as Level,
};

use crate::error::PriceFeedError;

verus! {

/// How many guardian signatures of a price update were checked.
#[derive(Debug, Clone, Copy, PartialEq, Eq, Structural)]
pub enum VerificationLevel {
    Partial { num_signatures: u8 },
    Full,
}

/// The content of a price-update account that a price read depends on.
#[derive(Debug, Clone, Copy, PartialEq, Eq)]
pub struct PriceUpdate {
    pub verification_level: VerificationLevel,
    pub feed_id: [u8; 32],
    pub price: i64,
    pub publish_time: i64,
}

/// Value of one hex digit, upper or lower case.
pub open spec fn hex_digit(c: char) -> Option<int> {
    if '0' <= c && c <= '9' {
        Some(c as int - '0' as int)
    } else if 'a' <= c && c <= 'f' {
        Some(c as int - 'a' as int + 10)
    } else if 'A' <= c && c <= 'F' {
        Some(c as int - 'A' as int + 10)
    } else {
        None
    }
}

/// Bytes spelled by an even-length string of hex digits, two digits a byte.
pub open spec fn hex_bytes(s: Seq<char>) -> Option<Seq<u8>> {
    if forall|i: int| 0 <= i < s.len() ==> (#[trigger] hex_digit(s[i])) is Some {
        Some(
            Seq::new(
                s.len() / 2,
                |i: int| (hex_digit(s[2 * i])->0 * 16 + hex_digit(s[2 * i + 1])->0) as u8,
            ),
        )
    } else {
        None
    }
}

/// The feed id that a hex string names: 64 hex digits, or 66 characters of
/// which the first two are skipped.
pub open spec fn feed_id_of_hex(s: Seq<char>) -> Result<Seq<u8>, PriceFeedError> {
    let digits = if s.len() == 66 { s.skip(2) } else { s };
    if s.len() == 64 || s.len() == 66 {
        match hex_bytes(digits) {
            Some(bytes) => Ok(bytes),
            None => Err(PriceFeedError::FeedIdNonHexCharacter),
        }
    } else {
        Err(PriceFeedError::FeedIdMustBe32Bytes)
    }
}

/// `a + b`, held at `i64::MAX` where it would exceed it (`b` is never negative here).
pub open spec fn saturating_add_i64(a: i64, b: u64) -> int {
    if a + b > i64::MAX { i64::MAX as int } else { a + b }
}

/// The price that a fully verified update for `feed_id` gives at time `now`,
/// provided it was published at most `maximum_age` seconds before.
pub open spec fn price_no_older_than(
    update: PriceUpdate,
    now: i64,
    maximum_age: u64,
    feed_id: Seq<u8>,
) -> Result<i64, PriceFeedError> {
    if !(update.verification_level is Full) {
        Err(PriceFeedError::InsufficientVerificationLevel)
    } else if update.feed_id@ != feed_id {
        Err(PriceFeedError::MismatchedFeedId)
    } else if saturating_add_i64(update.publish_time, maximum_age) < now {
        Err(PriceFeedError::PriceTooOld)
    } else {
        Ok(update.price)
    }
}

/// Calls `pyth_solana_receiver_sdk::price_update::get_feed_id_from_hex`.
/// Trusted: it returns the bytes that the string spells in hex (after
/// skipping two characters where it has 66), `FeedIdMustBe32Bytes` where the
/// string has neither 64 nor 66 characters, and `FeedIdNonHexCharacter` where
/// a digit is not hex. The string is ASCII, so characters and bytes agree and
/// the slice after the prefix cannot split a character. Each error of the
/// crate maps to the error of the same name; the call raises no other error
/// than these two.
#[verifier::external_body]
pub(crate) fn feed_id_from_hex(input: &str) -> (r: Result<[u8; 32], PriceFeedError>)
    requires
        is_ascii(input),
    ensures
        match r {
            Ok(id) => feed_id_of_hex(input@) == Ok::<Seq<u8>, PriceFeedError>(id@),
            Err(e) => feed_id_of_hex(input@) == Err::<Seq<u8>, PriceFeedError>(e),
        },
{
    match get_feed_id_from_hex(input) {
        Ok(id) => Ok(id),
        Err(e) => Err(match e {
            PriceTooOld => PriceFeedError::PriceTooOld,
            InvalidWindowSize => PriceFeedError::InvalidWindowSize,
            MismatchedFeedId => PriceFeedError::MismatchedFeedId,
            InsufficientVerificationLevel => PriceFeedError::InsufficientVerificationLevel,
            FeedIdMustBe32Bytes => PriceFeedError::FeedIdMustBe32Bytes,
            FeedIdNonHexCharacter => PriceFeedError::FeedIdNonHexCharacter,
        }),
    }
}

/// Calls `PriceUpdateV2::get_price_no_older_than` on an update that holds the
/// given content, at a clock that reads `now`. Trusted: it refuses an update
/// that is not fully verified, then one for another feed, then one whose
/// publish time plus `maximum_age` (saturating) is before `now`, and otherwise
/// returns the update's price. The fields that the call does not read or
/// whose copies are dropped (the update's writer, slot, confidence, exponent
/// and moving averages, the clock's slots and epochs) are zero. Each error of
/// the crate maps to the error of the same name; the call raises no other
/// error than these three.
#[verifier::external_body]
pub(crate) fn get_price_no_older_than(
    update: &PriceUpdate,
    now: i64,
    maximum_age: u64,
    feed_id: &[u8; 32],
) -> (r: Result<i64, PriceFeedError>)
    requires
        maximum_age <= i64::MAX,
    ensures
        r == price_no_older_than(*update, now, maximum_age, feed_id@),
{
    let level = match update.verification_level {
        VerificationLevel::Partial { num_signatures } => Level::Partial { num_signatures }, VerificationLevel::Full => Level::Full,
    };
    let message = PriceFeedMessage { feed_id: update.feed_id, price: update.price, conf: 0, exponent: 0,
        publish_time: update.publish_time, prev_publish_time: 0, ema_price: 0, ema_conf: 0 };
    let account = PriceUpdateV2 { write_authority: Pubkey::default(), verification_level: level, price_message: message, posted_slot: 0 };
    match account.get_price_no_older_than(&Clock { unix_timestamp: now, ..Clock::default() }, maximum_age, feed_id) {
        Ok(price) => Ok(price.price),
        Err(e) => Err(match e {
            PriceTooOld => PriceFeedError::PriceTooOld, InvalidWindowSize => PriceFeedError::InvalidWindowSize,
            MismatchedFeedId => PriceFeedError::MismatchedFeedId, InsufficientVerificationLevel => PriceFeedError::InsufficientVerificationLevel,
            FeedIdMustBe32Bytes => PriceFeedError::FeedIdMustBe32Bytes,
            FeedIdNonHexCharacter => PriceFeedError::FeedIdNonHexCharacter,
        }),
    }
}

} // verus!
