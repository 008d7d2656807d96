//! The link record, its lifecycle states and its well-formedness.
use vstd::prelude::*;
use crate::error::CashError;
use crate::fees::{platform_fee_total, redemption_fee_budget};

verus! {

/// A 32-byte account identity.
#[derive(Debug, Clone, Copy)]
pub struct Address {
    pub bytes: [u8; 32],
}

impl Address {
    pub fn new(bytes: [u8; 32]) -> (r: Address)
        ensures
            r.bytes@ == bytes@,
    {
        Address { bytes }
    }
}

impl View for Address {
    type V = Seq<u8>;

    open spec fn view(&self) -> Seq<u8> {
        self.bytes@
    }
}

impl PartialEq for Address {
    fn eq(&self, other: &Address) -> (r: bool) {
        let mut i: usize = 0;
        while i < 32
            invariant
                0 <= i <= 32,
                self.bytes@.len() == 32,
                other.bytes@.len() == 32,
                forall|j: int| 0 <= j < i ==> self.bytes@[j] == other.bytes@[j],
            decreases 32 - i,
        {
            if self.bytes[i] != other.bytes[i] {
                return false;
            }
            i = i + 1;
        }
        proof {
            assert(self.bytes@ =~= other.bytes@);
        }
        true
    }
}

impl vstd::std_specs::cmp::PartialEqSpecImpl for Address {
    open spec fn obeys_eq_spec() -> bool {
        true
    }

    open spec fn eq_spec(&self, other: &Address) -> bool {
        self.bytes@ == other.bytes@
    }
}

impl Eq for Address {
}

/// What a stored record holds.
#[derive(Debug, Clone, Copy, PartialEq, Eq, Structural)]
pub enum AccountType {
    /// Storage that no link has been written to yet.
    Uninitialized,
    /// A link.
    Cash,
}

impl Default for AccountType {
    fn default() -> (r: AccountType)
        ensures
            r == AccountType::Uninitialized,
    {
        AccountType::Uninitialized
    }
}

/// Where a link stands in its lifecycle.
#[derive(Debug, Clone, Copy, PartialEq, Eq, Structural)]
pub enum CashState {
    Initialized,
    Redeemed,
    Redeeming,
    Canceled,
    Expired,
    Closed,
}

/// How a link's amount is split over its redemptions.
#[derive(Debug, Clone, Copy, PartialEq, Eq, Structural)]
pub enum DistributionType {
    /// `amount / max_num_redemptions` each time; the amount must divide evenly.
    Fixed,
    /// A draw between a floor and twice the average of what is left.
    Random,
    /// A share of the amount, in parts per million, named by each redeemer.
    Weighted,
    /// `amount / max_num_redemptions` each time, without the divisibility rule.
    Equal,
}

/// Parts per million that make up a whole link.
pub const WEIGHT_BUDGET_PPM: u32 = 1_000_000;

/// A link: value locked by a sender and released over its redemptions.
#[derive(Debug, Clone, Copy)]
pub struct Cash {
    pub account_type: AccountType,
    pub authority: Address,
    pub state: CashState,
    /// Total value committed, fees excluded.
    pub amount: u64,
    /// Platform fee rate, in basis points of `amount`.
    pub fee_bps: u16,
    /// Fixed fee charged once, with the first redemption.
    pub network_fee: u64,
    /// Fixed fee charged with every redemption.
    pub base_fee_to_redeem: u64,
    /// Fixed fee charged with every redemption.
    pub rent_fee_to_redeem: u64,
    pub remaining_amount: u64,
    pub distribution_type: DistributionType,
    /// The sender, to whom refunds and leftovers go.
    pub owner: Address,
    pub mint: Address,
    pub total_redemptions: u16,
    pub max_num_redemptions: u16,
    /// Floor of a random payout; 1 where none was given.
    pub min_amount: u64,
    pub fingerprint_enabled: bool,
    /// A second authorizer that must sign each redemption.
    pub pass_key: Option<Address>,
    /// Weights handed out so far, in parts per million.
    pub total_weight_ppm: u32,
    pub created_at: u64,
    pub expires_at: Option<u64>,
    pub canceled_at: Option<u64>,
    pub last_redeemed_at: Option<u64>,
    /// Whether a link that paid out already may still be canceled.
    pub cancel_after_redemption: bool,
    /// Whether a canceled link may be closed only if it never paid out.
    pub close_requires_no_redemptions: bool,
}

impl Default for Cash {
    /// An empty record, before any link is written to it.
    fn default() -> (r: Cash)
        ensures
            r.account_type == AccountType::Uninitialized,
            r.amount == 0,
            r.remaining_amount == 0,
            r.total_redemptions == 0,
            r.max_num_redemptions == 0,
    {
        let zero = Address { bytes: [0u8; 32] };
        Cash {
            account_type: AccountType::Uninitialized,
            authority: zero,
            state: CashState::Initialized,
            amount: 0,
            fee_bps: 0,
            network_fee: 0,
            base_fee_to_redeem: 0,
            rent_fee_to_redeem: 0,
            remaining_amount: 0,
            distribution_type: DistributionType::Fixed,
            owner: zero,
            mint: zero,
            total_redemptions: 0,
            max_num_redemptions: 0,
            min_amount: 0,
            fingerprint_enabled: false,
            pass_key: None,
            total_weight_ppm: 0,
            created_at: 0,
            expires_at: None,
            canceled_at: None,
            last_redeemed_at: None,
            cancel_after_redemption: false,
            close_requires_no_redemptions: false,
        }
    }
}

/// The value a sender locks when creating a link: the amount, the
/// platform fee and the fee budget of every redemption.
pub open spec fn locked_total(c: Cash) -> int {
    c.amount + platform_fee_total(c.amount as int, c.fee_bps as int, c.network_fee as int)
        + redemption_fee_budget(
        c.base_fee_to_redeem as int,
        c.rent_fee_to_redeem as int,
        c.max_num_redemptions as int,
    )
}

/// What a link pays per redemption under Fixed and Equal distribution.
pub open spec fn even_share(c: Cash) -> int {
    c.amount as int / c.max_num_redemptions as int
}

/// Whether a link is done paying out: every redemption is used, nothing is
/// left, or what is left cannot cover the floor of each redemption to come.
pub open spec fn fully_redeemed(c: Cash) -> bool {
    ||| c.total_redemptions == c.max_num_redemptions
    ||| c.remaining_amount == 0
    ||| c.remaining_amount < c.min_amount * (c.max_num_redemptions - c.total_redemptions)
}

impl Cash {
    /// The invariant of every stored link.
    pub open spec fn wf(&self) -> bool {
        &&& self.account_type == AccountType::Cash
        &&& self.amount > 0
        &&& self.max_num_redemptions > 0
        &&& self.remaining_amount <= self.amount
        &&& self.total_redemptions <= self.max_num_redemptions
        &&& self.total_weight_ppm <= WEIGHT_BUDGET_PPM
        &&& self.min_amount <= self.amount
        &&& self.amount * self.fee_bps <= u64::MAX
        &&& locked_total(*self) <= u64::MAX
        &&& (self.distribution_type == DistributionType::Fixed ==> self.amount as int
            % self.max_num_redemptions as int == 0)
        &&& (self.distribution_type == DistributionType::Fixed || self.distribution_type
            == DistributionType::Equal) ==> self.remaining_amount == self.amount
            - self.total_redemptions * even_share(*self)
    }

    /// Tests the invariant, for records read from storage.
    pub fn is_valid(&self) -> (r: bool)
        ensures
            r == self.wf(),
    {
        if self.account_type != AccountType::Cash || self.amount == 0 || self.max_num_redemptions
            == 0 || self.remaining_amount > self.amount || self.total_redemptions
            > self.max_num_redemptions || self.total_weight_ppm > WEIGHT_BUDGET_PPM
            || self.min_amount > self.amount {
            return false;
        }
        let bps_fee = match self.amount.checked_mul(self.fee_bps as u64) {
            Some(product) => product / 10000,
            None => return false,
        };
        let per_redemption = match self.base_fee_to_redeem.checked_add(self.rent_fee_to_redeem) {
            Some(v) => v,
            None => {
                proof {
                    assert(locked_total(*self) > u64::MAX) by (nonlinear_arith)
                        requires
                            self.base_fee_to_redeem + self.rent_fee_to_redeem > u64::MAX,
                            self.max_num_redemptions >= 1,
                            self.amount * self.fee_bps >= 0,
                            locked_total(*self) == self.amount + (self.amount * self.fee_bps / 10000)
                                + self.network_fee + (self.base_fee_to_redeem
                                + self.rent_fee_to_redeem) * self.max_num_redemptions,
                    ;
                }
                return false;
            },
        };
        let budget = match per_redemption.checked_mul(self.max_num_redemptions as u64) {
            Some(v) => v,
            None => return false,
        };
        let locked = match self.amount.checked_add(bps_fee) {
            Some(a) => match a.checked_add(self.network_fee) {
                Some(b) => b.checked_add(budget),
                None => None,
            },
            None => None,
        };
        if locked.is_none() {
            return false;
        }
        let share = self.amount / self.max_num_redemptions as u64;
        if self.distribution_type == DistributionType::Fixed && self.amount % self.max_num_redemptions as u64 != 0 {
            return false;
        }
        if self.distribution_type == DistributionType::Fixed || self.distribution_type
            == DistributionType::Equal {
            // total * share <= max * share <= amount, so the product fits
            proof {
                assert(self.total_redemptions * share <= self.amount) by (nonlinear_arith)
                    requires
                        self.total_redemptions <= self.max_num_redemptions,
                        share == self.amount as int / self.max_num_redemptions as int,
                        self.max_num_redemptions > 0,
                ;
            }
            let paid = self.total_redemptions as u64 * share;
            if self.remaining_amount != self.amount - paid {
                return false;
            }
        }
        true
    }

    pub fn redeemed(&self) -> (r: bool)
        ensures
            r == (self.state == CashState::Redeemed),
    {
        self.state == CashState::Redeemed
    }

    pub fn redeeming(&self) -> (r: bool)
        ensures
            r == (self.state == CashState::Redeeming),
    {
        self.state == CashState::Redeeming
    }

    pub fn canceled(&self) -> (r: bool)
        ensures
            r == (self.state == CashState::Canceled),
    {
        self.state == CashState::Canceled
    }

    pub fn initialized(&self) -> (r: bool)
        ensures
            r == (self.state == CashState::Initialized),
    {
        self.state == CashState::Initialized
    }

    /// Whether the record holds a link.
    pub fn is_initialized(&self) -> (r: bool)
        ensures
            r == (self.account_type == AccountType::Cash),
    {
        self.account_type == AccountType::Cash
    }

    /// The fixed fees charged with every redemption.
    pub fn max_fee_to_redeem(&self) -> (r: Result<u64, CashError>)
        ensures
            r is Ok <==> self.base_fee_to_redeem + self.rent_fee_to_redeem <= u64::MAX,
            r matches Ok(v) ==> v == self.base_fee_to_redeem + self.rent_fee_to_redeem,
            r matches Err(e) ==> e == CashError::Overflow,
    {
        match self.base_fee_to_redeem.checked_add(self.rent_fee_to_redeem) {
            Some(v) => Ok(v),
            None => Err(CashError::Overflow),
        }
    }

    /// How many redemptions the link still allows.
    pub fn max_num_redemptions_remaining(&self) -> (r: Result<u16, CashError>)
        ensures
            r is Ok <==> self.total_redemptions <= self.max_num_redemptions,
            r matches Ok(v) ==> v == self.max_num_redemptions - self.total_redemptions,
            r matches Err(e) ==> e == CashError::Overflow,
    {
        match self.max_num_redemptions.checked_sub(self.total_redemptions) {
            Some(v) => Ok(v),
            None => Err(CashError::Overflow),
        }
    }

    /// The least value the redemptions still to come must be able to pay.
    pub fn min_total_required(&self) -> (r: Result<u64, CashError>)
        ensures
            r is Ok <==> self.total_redemptions <= self.max_num_redemptions && self.min_amount * (
            self.max_num_redemptions - self.total_redemptions) <= u64::MAX,
            r matches Ok(v) ==> v == self.min_amount * (self.max_num_redemptions
                - self.total_redemptions),
            r matches Err(e) ==> e == CashError::Overflow,
    {
        let left = self.max_num_redemptions_remaining()?;
        match self.min_amount.checked_mul(left as u64) {
            Some(v) => Ok(v),
            None => Err(CashError::Overflow),
        }
    }

    /// Whether the link is done paying out; see `fully_redeemed`.
    pub fn is_fully_redeemed(&self) -> (r: bool)
        ensures
            r == fully_redeemed(*self),
    {
        if self.total_redemptions == self.max_num_redemptions || self.remaining_amount == 0 {
            return true;
        }
        if self.total_redemptions > self.max_num_redemptions {
            proof {
                assert(self.min_amount * (self.max_num_redemptions - self.total_redemptions) <= 0)
                    by (nonlinear_arith)
                    requires
                        self.total_redemptions > self.max_num_redemptions,
                        self.min_amount >= 0,
                ;
            }
            return false;
        }
        let left = self.max_num_redemptions - self.total_redemptions;
        match self.min_amount.checked_mul(left as u64) {
            Some(required) => self.remaining_amount < required,
            None => true,
        }
    }
}

} // verus!
