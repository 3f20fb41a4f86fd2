//! The persisted data model of one escrow agreement.

use vstd::prelude::*;

verus! {

broadcast use vstd::array::group_array_axioms;

/// An opaque party identifier, the size of a public key.
#[derive(Clone, Copy, Debug)]
#[verifier::ext_equal]
pub struct Identity {
    pub bytes: [u8; 32],
}

impl View for Identity {
    type V = Seq<u8>;

    open spec fn view(&self) -> Seq<u8> {
        self.bytes@
    }
}

impl PartialEq for Identity {
    fn eq(&self, other: &Identity) -> (r: bool) {
        let mut i: usize = 0;
        while i < 32
            invariant
                i <= 32,
                forall|j: int| 0 <= j < i ==> self.bytes@[j] == other.bytes@[j],
            decreases 32 - i,
        {
            if self.bytes[i] != other.bytes[i] {
                return false;
            }
            i = i + 1;
        }
        proof {
            assert(self.bytes@ =~= other.bytes@);
            assert(self.bytes == other.bytes);
            assert(*self =~= *other);
        }
        true
    }
}

impl Eq for Identity {
}

impl vstd::std_specs::cmp::PartialEqSpecImpl for Identity {
    open spec fn obeys_eq_spec() -> bool {
        true
    }

    open spec fn eq_spec(&self, other: &Identity) -> bool {
        *self == *other
    }
}

impl Identity {
    /// Builds an identity from its raw bytes.
    pub fn new(bytes: [u8; 32]) -> (r: Identity)
        ensures
            r.bytes == bytes,
    {
        Identity { bytes }
    }
}

/// The closed set of supported stablecoin variants.
#[derive(Clone, Copy, Debug, PartialEq, Eq, Structural)]
pub enum Stablecoin {
    Usdt,
    Usdc,
}

/// Where an escrow stands: still open, or in one of the two terminal
/// states. Both terminal states reject every further mutating instruction;
/// they are deliberately distinct so that a completed exchange can never be
/// mistaken for a refund or the other way round.
#[derive(Clone, Copy, Debug, PartialEq, Eq, Structural)]
pub enum Outcome {
    /// No terminal transition has happened yet.
    Pending,
    /// Both legs of the exchange transferred; the swap is done.
    Exchanged,
    /// Deposits were returned to their depositors after the deadline.
    Refunded,
}

/// The persisted record of one escrow agreement. The identities, amounts,
/// stablecoin kind and deadline are fixed at creation; only the two
/// deposited flags and the outcome ever change, and only through the
/// handlers.
#[derive(Clone, Copy, Debug, PartialEq)]
#[verifier::ext_equal]
pub struct ContractRecord {
    /// The party owed the stablecoin amount; deposits the native asset.
    pub seller_identity: Identity,
    /// The party owed the native amount; deposits the stablecoin.
    pub buyer_identity: Identity,
    /// The stablecoin amount the seller is owed.
    pub stablecoin_price: u64,
    /// The native-asset amount the buyer is owed.
    pub settlement_amount: u64,
    /// Which stablecoin variant this escrow settles in.
    pub stablecoin_kind: Stablecoin,
    /// The point in logical time after which refund becomes eligible.
    pub deadline: u64,
    /// Whether the seller's native deposit has been received.
    pub seller_deposited: bool,
    /// Whether the buyer's stablecoin deposit has been received.
    pub buyer_deposited: bool,
    /// Pending, or one of the two terminal states.
    pub outcome: Outcome,
}

impl ContractRecord {
    /// The exchange has completed; the record is terminal.
    pub open spec fn spec_exchange_completed(self) -> bool {
        self.outcome is Exchanged
    }

    /// The deposits were refunded; the record is terminal.
    pub open spec fn spec_refunded(self) -> bool {
        self.outcome is Refunded
    }

    /// A terminal record accepts no further mutating instruction.
    pub open spec fn spec_is_terminal(self) -> bool {
        !(self.outcome is Pending)
    }

    /// The record's invariant, holding at every observable boundary: an
    /// exchange only ever completes once both parties have deposited, and a
    /// refund only ever happens once at least one of them has.
    pub open spec fn wf(self) -> bool {
        &&& self.spec_exchange_completed() ==> self.seller_deposited && self.buyer_deposited
        &&& self.spec_refunded() ==> self.seller_deposited || self.buyer_deposited
    }

    /// The fields fixed at creation: everything but the deposited flags and
    /// the outcome. Handlers never change these.
    pub open spec fn same_immutable_fields(self, other: ContractRecord) -> bool {
        &&& self.seller_identity == other.seller_identity
        &&& self.buyer_identity == other.buyer_identity
        &&& self.stablecoin_price == other.stablecoin_price
        &&& self.settlement_amount == other.settlement_amount
        &&& self.stablecoin_kind == other.stablecoin_kind
        &&& self.deadline == other.deadline
    }

    /// Creates a fresh record: both deposited flags false, outcome pending.
    pub fn new(
        seller_identity: Identity,
        buyer_identity: Identity,
        stablecoin_price: u64,
        settlement_amount: u64,
        stablecoin_kind: Stablecoin,
        deadline: u64,
    ) -> (r: ContractRecord)
        ensures
            r.seller_identity == seller_identity,
            r.buyer_identity == buyer_identity,
            r.stablecoin_price == stablecoin_price,
            r.settlement_amount == settlement_amount,
            r.stablecoin_kind == stablecoin_kind,
            r.deadline == deadline,
            !r.seller_deposited,
            !r.buyer_deposited,
            r.outcome == Outcome::Pending,
            r.wf(),
    {
        ContractRecord {
            seller_identity,
            buyer_identity,
            stablecoin_price,
            settlement_amount,
            stablecoin_kind,
            deadline,
            seller_deposited: false,
            buyer_deposited: false,
            outcome: Outcome::Pending,
        }
    }

    /// The exchange has completed; the record is terminal.
    pub fn exchange_completed(&self) -> (r: bool)
        ensures
            r == self.spec_exchange_completed(),
    {
        matches!(self.outcome, Outcome::Exchanged)
    }

    /// The deposits were refunded; the record is terminal.
    pub fn refunded(&self) -> (r: bool)
        ensures
            r == self.spec_refunded(),
    {
        matches!(self.outcome, Outcome::Refunded)
    }

    /// Whether the record is in a terminal state.
    pub fn is_terminal(&self) -> (r: bool)
        ensures
            r == self.spec_is_terminal(),
    {
        !matches!(self.outcome, Outcome::Pending)
    }
}

} // verus!
