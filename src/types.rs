//! The values that the ledger stores and hands out.
use vstd::prelude::*;

verus! {

/// The amount of a payment.
pub type Balance = u128;

/// A point in time, as the host gives it.
pub type Timestamp = u64;

/// An opaque identity of a caller or a recipient: 32 bytes, equal exactly
/// when the bytes are equal.
#[derive(Clone, Copy, Debug, Eq, Hash)]
pub struct AccountId(pub [u8; 32]);

impl AccountId {
    /// The identity made of the given bytes.
    pub fn new(bytes: [u8; 32]) -> (r: AccountId)
        ensures
            r.0 == bytes,
    {
        AccountId(bytes)
    }

    /// The bytes of this identity.
    pub fn bytes(&self) -> (r: [u8; 32])
        ensures
            r == self.0,
    {
        self.0
    }
}

impl PartialEq for AccountId {
    fn eq(&self, other: &AccountId) -> (r: bool)
        ensures
            r == (*self == *other),
    {
        let mut i: usize = 0;
        while i < 32
            invariant
                0 <= i <= 32,
                forall|k: int| 0 <= k < i ==> self.0@[k] == other.0@[k],
            decreases 32 - i,
        {
            if self.0[i] != other.0[i] {
                return false;
            }
            i = i + 1;
        }
        assert(self.0 =~= other.0);
        true
    }
}

impl vstd::std_specs::cmp::PartialEqSpecImpl for AccountId {
    open spec fn obeys_eq_spec() -> bool {
        true
    }

    open spec fn eq_spec(&self, other: &AccountId) -> bool {
        *self == *other
    }
}

/// One payment that a caller claims to have made: to whom, how much, and
/// when the call that recorded it ran. A record is never changed once made.
#[derive(Clone, Copy, Debug, Eq)]
pub struct PaymentRecord {
    pub recipient: AccountId,
    pub amount: Balance,
    pub timestamp: Timestamp,
}

impl PartialEq for PaymentRecord {
    fn eq(&self, other: &PaymentRecord) -> (r: bool)
        ensures
            r == (*self == *other),
    {
        self.recipient == other.recipient && self.amount == other.amount && self.timestamp
            == other.timestamp
    }
}

impl vstd::std_specs::cmp::PartialEqSpecImpl for PaymentRecord {
    open spec fn obeys_eq_spec() -> bool {
        true
    }

    open spec fn eq_spec(&self, other: &PaymentRecord) -> bool {
        *self == *other
    }
}

/// The notification that one recorded payment produces: the record together
/// with the identity that made the call.
#[derive(Clone, Copy, Debug, Eq)]
pub struct PaymentRecorded {
    pub sender: AccountId,
    pub recipient: AccountId,
    pub amount: Balance,
    pub timestamp: Timestamp,
}

impl PaymentRecorded {
    /// The record that this notification announces.
    pub open spec fn spec_record(self) -> PaymentRecord {
        PaymentRecord { recipient: self.recipient, amount: self.amount, timestamp: self.timestamp }
    }

    /// The record that this notification announces.
    pub fn record(&self) -> (r: PaymentRecord)
        ensures
            r == self.spec_record(),
    {
        PaymentRecord { recipient: self.recipient, amount: self.amount, timestamp: self.timestamp }
    }
}

impl PartialEq for PaymentRecorded {
    fn eq(&self, other: &PaymentRecorded) -> (r: bool)
        ensures
            r == (*self == *other),
    {
        self.sender == other.sender && self.recipient == other.recipient && self.amount
            == other.amount && self.timestamp == other.timestamp
    }
}

impl vstd::std_specs::cmp::PartialEqSpecImpl for PaymentRecorded {
    open spec fn obeys_eq_spec() -> bool {
        true
    }

    open spec fn eq_spec(&self, other: &PaymentRecorded) -> bool {
        *self == *other
    }
}

/// What the host tells the ledger about the call in progress: the
/// authenticated caller and the time of the call.
#[derive(Clone, Copy, Debug)]
pub struct CallContext {
    pub caller: AccountId,
    pub timestamp: Timestamp,
}

impl CallContext {
    /// The context of a call made by `caller` at `timestamp`.
    pub fn new(caller: AccountId, timestamp: Timestamp) -> (r: CallContext)
        ensures
            r.caller == caller,
            r.timestamp == timestamp,
    {
        CallContext { caller, timestamp }
    }
}

} // verus!
