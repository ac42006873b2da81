//! Maker and taker order preferences as plain structured records with
//! named fields, together with the query helpers over them.

use vstd::prelude::*;

use crate::terms::AccountId;

verus! {

/// A maker's preferences for an order.
#[derive(Clone, Copy, Debug, PartialEq, Eq, Structural)]
pub struct MakerTraits {
    pub no_partial_fills: bool,
    pub allow_multiple_fills: bool,
    pub pre_interaction_call: bool,
    pub post_interaction_call: bool,
    pub need_check_epoch_manager: bool,
    pub has_extension: bool,
    pub use_permit2: bool,
    pub unwrap_weth: bool,
    /// `None` if any sender is allowed, `Some` if restricted to one.
    pub allowed_sender: Option<AccountId>,
    /// `None` if the order never expires, `Some` if it has a deadline.
    pub expiration: Option<u64>,
    pub nonce_or_epoch: u64,
    pub series: u64,
}

impl MakerTraits {
    /// A maker-preference record with every flag cleared.
    pub fn new() -> (r: Self)
        ensures
            r == (MakerTraits {
                no_partial_fills: false,
                allow_multiple_fills: false,
                pre_interaction_call: false,
                post_interaction_call: false,
                need_check_epoch_manager: false,
                has_extension: false,
                use_permit2: false,
                unwrap_weth: false,
                allowed_sender: None::<AccountId>,
                expiration: None::<u64>,
                nonce_or_epoch: 0u64,
                series: 0u64,
            }),
    {
        MakerTraits {
            no_partial_fills: false,
            allow_multiple_fills: false,
            pre_interaction_call: false,
            post_interaction_call: false,
            need_check_epoch_manager: false,
            has_extension: false,
            use_permit2: false,
            unwrap_weth: false,
            allowed_sender: None,
            expiration: None,
            nonce_or_epoch: 0,
            series: 0,
        }
    }

    /// Sets whether partial fills are allowed.
    pub fn set_allow_partial_fills(&mut self, allow: bool)
        ensures
            *final(self) == (MakerTraits { no_partial_fills: !allow, ..*old(self) }),
    {
        self.no_partial_fills = !allow;
    }

    /// Sets whether multiple fills are allowed.
    pub fn set_allow_multiple_fills(&mut self, allow: bool)
        ensures
            *final(self) == (MakerTraits { allow_multiple_fills: allow, ..*old(self) }),
    {
        self.allow_multiple_fills = allow;
    }

    /// Sets the pre-interaction call requirement.
    pub fn set_pre_interaction_call(&mut self, need: bool)
        ensures
            *final(self) == (MakerTraits { pre_interaction_call: need, ..*old(self) }),
    {
        self.pre_interaction_call = need;
    }

    /// Sets the post-interaction call requirement.
    pub fn set_post_interaction_call(&mut self, need: bool)
        ensures
            *final(self) == (MakerTraits { post_interaction_call: need, ..*old(self) }),
    {
        self.post_interaction_call = need;
    }

    /// Sets the epoch-manager check requirement.
    pub fn set_need_check_epoch_manager(&mut self, need: bool)
        ensures
            *final(self) == (MakerTraits { need_check_epoch_manager: need, ..*old(self) }),
    {
        self.need_check_epoch_manager = need;
    }

    /// Sets the extension flag.
    pub fn set_has_extension(&mut self, has: bool)
        ensures
            *final(self) == (MakerTraits { has_extension: has, ..*old(self) }),
    {
        self.has_extension = has;
    }

    /// Sets permit2 usage.
    pub fn set_use_permit2(&mut self, use_permit: bool)
        ensures
            *final(self) == (MakerTraits { use_permit2: use_permit, ..*old(self) }),
    {
        self.use_permit2 = use_permit;
    }

    /// Sets the WETH unwrapping requirement.
    pub fn set_unwrap_weth(&mut self, unwrap: bool)
        ensures
            *final(self) == (MakerTraits { unwrap_weth: unwrap, ..*old(self) }),
    {
        self.unwrap_weth = unwrap;
    }

    /// Sets the allowed sender.
    pub fn set_allowed_sender(&mut self, sender: Option<AccountId>)
        ensures
            *final(self) == (MakerTraits { allowed_sender: sender, ..*old(self) }),
    {
        self.allowed_sender = sender;
    }

    /// Sets the expiration timestamp.
    pub fn set_expiration(&mut self, expiration: Option<u64>)
        ensures
            *final(self) == (MakerTraits { expiration, ..*old(self) }),
    {
        self.expiration = expiration;
    }

    /// Sets the nonce or epoch.
    pub fn set_nonce_or_epoch(&mut self, nonce_or_epoch: u64)
        ensures
            *final(self) == (MakerTraits { nonce_or_epoch, ..*old(self) }),
    {
        self.nonce_or_epoch = nonce_or_epoch;
    }

    /// Sets the series.
    pub fn set_series(&mut self, series: u64)
        ensures
            *final(self) == (MakerTraits { series, ..*old(self) }),
    {
        self.series = series;
    }
}

/// Query helpers over `MakerTraits`.
pub struct MakerTraitsLib;

impl MakerTraitsLib {
    /// Whether the order carries extensions.
    pub fn has_extension(maker_traits: &MakerTraits) -> (r: bool)
        ensures
            r == maker_traits.has_extension,
    {
        maker_traits.has_extension
    }

    /// Whether the maker allows `sender` to fill the order: any sender
    /// when no restriction is set, else exactly the restricted one.
    pub fn is_allowed_sender(maker_traits: &MakerTraits, sender: &AccountId) -> (r: bool)
        ensures
            r == match maker_traits.allowed_sender {
                None => true,
                Some(allowed) => allowed == *sender,
            },
    {
        match &maker_traits.allowed_sender {
            None => true,
            Some(allowed) => *allowed == *sender,
        }
    }

    /// Whether the order has expired at `now`: never without a deadline,
    /// else exactly when the deadline lies strictly before `now`.
    pub fn is_expired(maker_traits: &MakerTraits, now: u64) -> (r: bool)
        ensures
            r == match maker_traits.expiration {
                None => false,
                Some(expiration) => expiration < now,
            },
    {
        match maker_traits.expiration {
            None => false,
            Some(expiration) => expiration < now,
        }
    }

    /// The nonce or epoch of the order.
    pub fn nonce_or_epoch(maker_traits: &MakerTraits) -> (r: u64)
        ensures
            r == maker_traits.nonce_or_epoch,
    {
        maker_traits.nonce_or_epoch
    }

    /// The series of the order.
    pub fn series(maker_traits: &MakerTraits) -> (r: u64)
        ensures
            r == maker_traits.series,
    {
        maker_traits.series
    }

    /// Whether the order allows partial fills.
    pub fn allow_partial_fills(maker_traits: &MakerTraits) -> (r: bool)
        ensures
            r == !maker_traits.no_partial_fills,
    {
        !maker_traits.no_partial_fills
    }

    /// Whether the maker needs a pre-interaction call.
    pub fn need_pre_interaction_call(maker_traits: &MakerTraits) -> (r: bool)
        ensures
            r == maker_traits.pre_interaction_call,
    {
        maker_traits.pre_interaction_call
    }

    /// Whether the maker needs a post-interaction call.
    pub fn need_post_interaction_call(maker_traits: &MakerTraits) -> (r: bool)
        ensures
            r == maker_traits.post_interaction_call,
    {
        maker_traits.post_interaction_call
    }

    /// Whether the order allows multiple fills.
    pub fn allow_multiple_fills(maker_traits: &MakerTraits) -> (r: bool)
        ensures
            r == maker_traits.allow_multiple_fills,
    {
        maker_traits.allow_multiple_fills
    }

    /// Whether the order must use the bit invalidator: exactly when it
    /// does not allow both partial and multiple fills.
    pub fn use_bit_invalidator(maker_traits: &MakerTraits) -> (r: bool)
        ensures
            r == (maker_traits.no_partial_fills || !maker_traits.allow_multiple_fills),
    {
        !Self::allow_partial_fills(maker_traits) || !Self::allow_multiple_fills(maker_traits)
    }

    /// Whether the maker needs the epoch manager checked.
    pub fn need_check_epoch_manager(maker_traits: &MakerTraits) -> (r: bool)
        ensures
            r == maker_traits.need_check_epoch_manager,
    {
        maker_traits.need_check_epoch_manager
    }

    /// Whether the maker uses permit2.
    pub fn use_permit2(maker_traits: &MakerTraits) -> (r: bool)
        ensures
            r == maker_traits.use_permit2,
    {
        maker_traits.use_permit2
    }

    /// Whether the maker needs WETH unwrapped.
    pub fn unwrap_weth(maker_traits: &MakerTraits) -> (r: bool)
        ensures
            r == maker_traits.unwrap_weth,
    {
        maker_traits.unwrap_weth
    }
}

/// A taker's preferences for an order.
#[derive(Clone, Copy, Debug, PartialEq, Eq, Structural)]
pub struct TakerTraits {
    pub is_making_amount: bool,
    pub unwrap_weth: bool,
    pub skip_maker_permit: bool,
    pub use_permit2: bool,
    pub args_has_target: bool,
    pub args_extension_length: u32,
    pub args_interaction_length: u32,
    /// The maximum amount the taker agrees to give for a making amount.
    pub threshold: u128,
}

impl TakerTraits {
    /// A taker-preference record with every flag cleared.
    pub fn new() -> (r: Self)
        ensures
            r == (TakerTraits {
                is_making_amount: false,
                unwrap_weth: false,
                skip_maker_permit: false,
                use_permit2: false,
                args_has_target: false,
                args_extension_length: 0u32,
                args_interaction_length: 0u32,
                threshold: 0u128,
            }),
    {
        TakerTraits {
            is_making_amount: false,
            unwrap_weth: false,
            skip_maker_permit: false,
            use_permit2: false,
            args_has_target: false,
            args_extension_length: 0,
            args_interaction_length: 0,
            threshold: 0,
        }
    }

    /// Sets whether the taking amount is computed from the making
    /// amount.
    pub fn set_is_making_amount(&mut self, is_making: bool)
        ensures
            *final(self) == (TakerTraits { is_making_amount: is_making, ..*old(self) }),
    {
        self.is_making_amount = is_making;
    }

    /// Sets the WETH unwrapping requirement.
    pub fn set_unwrap_weth(&mut self, unwrap: bool)
        ensures
            *final(self) == (TakerTraits { unwrap_weth: unwrap, ..*old(self) }),
    {
        self.unwrap_weth = unwrap;
    }

    /// Sets maker-permit skipping.
    pub fn set_skip_maker_permit(&mut self, skip: bool)
        ensures
            *final(self) == (TakerTraits { skip_maker_permit: skip, ..*old(self) }),
    {
        self.skip_maker_permit = skip;
    }

    /// Sets permit2 usage.
    pub fn set_use_permit2(&mut self, use_permit: bool)
        ensures
            *final(self) == (TakerTraits { use_permit2: use_permit, ..*old(self) }),
    {
        self.use_permit2 = use_permit;
    }

    /// Sets whether the args carry a target address.
    pub fn set_args_has_target(&mut self, has_target: bool)
        ensures
            *final(self) == (TakerTraits { args_has_target: has_target, ..*old(self) }),
    {
        self.args_has_target = has_target;
    }

    /// Sets the extension calldata length.
    pub fn set_args_extension_length(&mut self, length: u32)
        ensures
            *final(self) == (TakerTraits { args_extension_length: length, ..*old(self) }),
    {
        self.args_extension_length = length;
    }

    /// Sets the interaction calldata length.
    pub fn set_args_interaction_length(&mut self, length: u32)
        ensures
            *final(self) == (TakerTraits { args_interaction_length: length, ..*old(self) }),
    {
        self.args_interaction_length = length;
    }

    /// Sets the threshold amount.
    pub fn set_threshold(&mut self, threshold: u128)
        ensures
            *final(self) == (TakerTraits { threshold, ..*old(self) }),
    {
        self.threshold = threshold;
    }
}

/// Query helpers over `TakerTraits`.
pub struct TakerTraitsLib;

impl TakerTraitsLib {
    /// Whether the args carry a target address.
    pub fn args_has_target(taker_traits: &TakerTraits) -> (r: bool)
        ensures
            r == taker_traits.args_has_target,
    {
        taker_traits.args_has_target
    }

    /// The length of the extension calldata.
    pub fn args_extension_length(taker_traits: &TakerTraits) -> (r: u32)
        ensures
            r == taker_traits.args_extension_length,
    {
        taker_traits.args_extension_length
    }

    /// The length of the interaction calldata.
    pub fn args_interaction_length(taker_traits: &TakerTraits) -> (r: u32)
        ensures
            r == taker_traits.args_interaction_length,
    {
        taker_traits.args_interaction_length
    }

    /// Whether the taking amount is computed from the making amount.
    pub fn is_making_amount(taker_traits: &TakerTraits) -> (r: bool)
        ensures
            r == taker_traits.is_making_amount,
    {
        taker_traits.is_making_amount
    }

    /// Whether the order unwraps WETH toward the taker.
    pub fn unwrap_weth(taker_traits: &TakerTraits) -> (r: bool)
        ensures
            r == taker_traits.unwrap_weth,
    {
        taker_traits.unwrap_weth
    }

    /// Whether the order skips the maker's permit.
    pub fn skip_maker_permit(taker_traits: &TakerTraits) -> (r: bool)
        ensures
            r == taker_traits.skip_maker_permit,
    {
        taker_traits.skip_maker_permit
    }

    /// Whether the order uses permit2 instead of permit.
    pub fn use_permit2(taker_traits: &TakerTraits) -> (r: bool)
        ensures
            r == taker_traits.use_permit2,
    {
        taker_traits.use_permit2
    }

    /// The threshold amount.
    pub fn threshold(taker_traits: &TakerTraits) -> (r: u128)
        ensures
            r == taker_traits.threshold,
    {
        taker_traits.threshold
    }
}

} // verus!
