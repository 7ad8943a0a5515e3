//! Payment for a number of images at a fixed cost each.

use vstd::prelude::*;
use crate::error::RegistryError;

verus! {

/// Holds what one image costs.
pub struct ImagePaymentContract {
    image_cost: u128,
}

impl ImagePaymentContract {
    /// What one image costs.
    pub closed spec fn view(&self) -> u128 {
        self.image_cost
    }

    /// Sets the cost up, once: where the state exists already, this is
    /// refused.
    pub fn new(state_exists: bool, image_cost: u128) -> (out: Result<Self, RegistryError>)
        ensures
            match out {
                Ok(c) => !state_exists && c@ == image_cost,
                Err(e) => state_exists && e == RegistryError::AlreadyInitialized,
            },
    {
        if state_exists {
            Err(RegistryError::AlreadyInitialized)
        } else {
            Ok(ImagePaymentContract { image_cost })
        }
    }

    /// What one image costs.
    pub fn image_cost(&self) -> (out: u128)
        ensures
            out == self@,
    {
        self.image_cost
    }

    /// Decides whether `amount_paid` pays for `num_images` images: it does
    /// where it is no less than the cost of one times their number.
    pub fn pay_for_images(&self, num_images: u64, amount_paid: u128) -> (out: Result<
        (),
        RegistryError,
    >)
        ensures
            out is Ok <==> self@ * num_images <= amount_paid,
            out is Err ==> out == Err::<(), RegistryError>(RegistryError::InsufficientAttachment),
    {
        let count: u128 = num_images as u128;
        match self.image_cost.checked_mul(count) {
            Some(expected_amount) => if amount_paid >= expected_amount {
                Ok(())
            } else {
                Err(RegistryError::InsufficientAttachment)
            },
            None => Err(RegistryError::InsufficientAttachment),
        }
    }

    /// Replaces the cost of one image.
    pub fn update_image_cost(&mut self, new_cost: u128)
        ensures
            final(self)@ == new_cost,
    {
        self.image_cost = new_cost;
    }
}

} // verus!
