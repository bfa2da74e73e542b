use vstd::prelude::*;
use crate::text::{decimal, decimal_text};

verus! {

/// A named amount that can grow and shrink.
pub trait Resource: Sized {
    /// A resource with a name and a starting value.
    fn new(name: String, value: u64) -> Self;

    /// The name.
    fn name(&self) -> String;

    /// The current value.
    fn value(&self) -> u64;

    /// Adds `amount` and returns the value before.
    fn add(&mut self, amount: u64) -> u64;

    /// Takes `amount` away and returns the value before; an error when the
    /// value is smaller than `amount`.
    fn remove(&mut self, amount: u64) -> Result<u64, &str>;
}

/// The value after adding `amount` to `value`, wrapping past the largest `u64`.
pub open spec fn wrapped_sum(value: u64, amount: u64) -> u64 {
    if value + amount > u64::MAX {
        (value + amount - u64::MAX - 1) as u64
    } else {
        (value + amount) as u64
    }
}

/// A game resource, such as money or wood.
#[derive(Debug, Clone)]
pub struct GameResource {
    pub resource_name: String,
    pub resource_value: u64,
}

impl Resource for GameResource {
    fn new(name: String, value: u64) -> (r: Self)
        ensures
            r.resource_name@ == name@,
            r.resource_value == value,
    {
        GameResource { resource_name: name, resource_value: value }
    }

    fn name(&self) -> (r: String)
        ensures
            r@ == self.resource_name@,
    {
        self.resource_name.clone()
    }

    fn value(&self) -> (r: u64)
        ensures
            r == self.resource_value,
    {
        self.resource_value
    }

    fn add(&mut self, amount: u64) -> (r: u64)
        ensures
            r == old(self).resource_value,
            final(self).resource_value == wrapped_sum(old(self).resource_value, amount),
            final(self).resource_name == old(self).resource_name,
    {
        let before = self.resource_value;
        self.resource_value = before.wrapping_add(amount);
        before
    }

    fn remove(&mut self, amount: u64) -> (r: Result<u64, &str>)
        ensures
            old(self).resource_value < amount ==> r.is_err() && *final(self) == *old(self),
            old(self).resource_value >= amount ==> {
                &&& r == Ok::<u64, &str>(old(self).resource_value)
                &&& final(self).resource_value == old(self).resource_value - amount
                &&& final(self).resource_name == old(self).resource_name
            },
    {
        if self.resource_value < amount {
            return Err("Cannot remove more than the current value of the resource.");
        }
        let before = self.resource_value;
        self.resource_value = before - amount;
        Ok(before)
    }
}

impl GameResource {
    /// The resource written as `name (value)`.
    pub fn to_string(&self) -> (r: String)
        ensures
            r@ == self.resource_name@ + " ("@ + decimal(self.resource_value as nat) + ")"@,
    {
        let mut s = self.resource_name.clone();
        s.append(" (");
        let digits = decimal_text(self.resource_value);
        s.append(digits.as_str());
        s.append(")");
        s
    }
}

} // verus!
