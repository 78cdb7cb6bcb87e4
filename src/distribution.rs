use vstd::prelude::*;

use crate::account::{check_arity, check_recipient, is_token_account};
use crate::error::{ErrorCode, SendError};

verus! {

/// One checked transfer out of the source account: `amount` base units to
/// the recipient account at position `recipient`, with the mint's `decimals`.
#[derive(Clone, Copy, Debug, PartialEq, Eq, Structural)]
pub struct TransferOrder {
    pub recipient: usize,
    pub amount: u64,
    pub decimals: u8,
}

/// What a distribution waits for.
#[derive(Clone, Copy, Debug, PartialEq, Eq, Structural)]
pub enum Stage {
    /// The data of the recipient at the cursor.
    ReadRecipient,
    /// The outcome of the transfer to the recipient at the cursor.
    Transfer,
    /// Nothing: the invocation is over.
    Finished,
}

/// What the caller is to do next.
#[derive(Debug, PartialEq, Eq)]
pub enum Action {
    /// Read the data of the recipient account at this position and hand it
    /// to [`Distribution::recipient_data`].
    ReadRecipient(usize),
    /// Issue this checked transfer and hand its outcome to
    /// [`Distribution::transfer_result`].
    Transfer(TransferOrder),
    /// Return this result from the instruction.
    Finish(Result<(), SendError>),
}

/// The transfer that the entry at position `i` asks for.
pub open spec fn order_at(amounts: Seq<u64>, decimals: u8, i: int) -> TransferOrder {
    (TransferOrder { recipient: i as usize, amount: amounts[i], decimals })
}

/// The transfers for the first `k` entries, in list order.
pub open spec fn orders_before(amounts: Seq<u64>, decimals: u8, k: nat) -> Seq<TransferOrder> {
    Seq::new(k, |i: int| order_at(amounts, decimals, i))
}

/// The transfers of an invocation in which every step succeeds.
pub open spec fn all_orders(amounts: Seq<u64>, decimals: u8) -> Seq<TransferOrder> {
    orders_before(amounts, decimals, amounts.len())
}

/// The state of a distribution as the contracts see it.
pub struct DistributionView {
    pub amounts: Seq<u64>,
    pub recipients: nat,
    pub decimals: u8,
    /// The position of the entry being worked on.
    pub cursor: nat,
    pub stage: Stage,
    /// Every transfer issued so far, in the order issued.
    pub issued: Seq<TransferOrder>,
}

impl DistributionView {
    /// The transfers issued are those of the first entries, in list order;
    /// while the invocation runs, the lists have one length and the cursor
    /// stands on an entry.
    pub open spec fn consistent(self) -> bool {
        &&& self.amounts.len() <= usize::MAX
        &&& self.issued.len() <= self.amounts.len()
        &&& self.issued == orders_before(self.amounts, self.decimals, self.issued.len())
        &&& self.stage != Stage::Finished ==> {
            &&& self.amounts.len() == self.recipients
            &&& self.cursor < self.recipients
        }
        &&& self.stage == Stage::ReadRecipient ==> self.issued.len() == self.cursor
        &&& self.stage == Stage::Transfer ==> self.issued.len() == self.cursor + 1
    }

    /// The two states belong to one invocation: same lists, same mint.
    pub open spec fn same_invocation(self, other: DistributionView) -> bool {
        &&& self.amounts == other.amounts
        &&& self.recipients == other.recipients
        &&& self.decimals == other.decimals
    }
}

/// One invocation: pays `amounts[i]` to the recipient at position `i`, in
/// list order, stopping at the first failure.
pub struct Distribution {
    amounts: Vec<u64>,
    recipients: usize,
    decimals: u8,
    cursor: usize,
    stage: Stage,
    issued: Ghost<Seq<TransferOrder>>,
}

impl View for Distribution {
    type V = DistributionView;

    closed spec fn view(&self) -> DistributionView {
        DistributionView {
            amounts: self.amounts@,
            recipients: self.recipients as nat,
            decimals: self.decimals,
            cursor: self.cursor as nat,
            stage: self.stage,
            issued: self.issued@,
        }
    }
}

impl Distribution {
    /// Starts an invocation over `amounts` and `recipients` recipient
    /// accounts of a mint with `decimals`. The lists must have one length:
    /// else it fails at once and issues nothing.
    pub fn start(amounts: Vec<u64>, recipients: usize, decimals: u8) -> (r: (Distribution, Action))
        ensures
            r.0@.consistent(),
            r.0@.amounts == amounts@,
            r.0@.recipients == recipients,
            r.0@.decimals == decimals,
            r.0@.cursor == 0,
            r.0@.issued.len() == 0,
            amounts@.len() != recipients ==> {
                &&& r.0@.stage == Stage::Finished
                &&& r.1 == Action::Finish(
                    Err(SendError::Program(ErrorCode::MismatchedRecipientAmounts)),
                )
            },
            amounts@.len() == recipients && recipients == 0 ==> {
                &&& r.0@.stage == Stage::Finished
                &&& r.1 == Action::Finish(Ok(()))
            },
            amounts@.len() == recipients && recipients > 0 ==> {
                &&& r.0@.stage == Stage::ReadRecipient
                &&& r.1 == Action::ReadRecipient(0)
            },
    {
        let n = amounts.len();
        let mut d = Distribution {
            amounts,
            recipients,
            decimals,
            cursor: 0,
            stage: Stage::Finished,
            issued: Ghost(Seq::empty()),
        };
        assert(d.issued@ =~= orders_before(d.amounts@, decimals, 0));
        if let Err(code) = check_arity(recipients, n) {
            (d, Action::Finish(Err(SendError::Program(code))))
        } else if recipients == 0 {
            (d, Action::Finish(Ok(())))
        } else {
            d.stage = Stage::ReadRecipient;
            (d, Action::ReadRecipient(0))
        }
    }

    /// What the distribution waits for.
    pub fn stage(&self) -> (r: Stage)
        ensures
            r == self@.stage,
    {
        self.stage
    }

    /// Goes on once the recipient at the cursor has been read and checked:
    /// on `Ok` it issues that entry's transfer, on `Err` (the data did not
    /// hold a token account, or could not be read at all) the invocation
    /// ends with that error and nothing more is issued.
    pub fn recipient_checked(&mut self, check: Result<(), SendError>) -> (r: Action)
        requires
            old(self)@.consistent(),
            old(self)@.stage == Stage::ReadRecipient,
        ensures
            final(self)@.consistent(),
            final(self)@.same_invocation(old(self)@),
            final(self)@.cursor == old(self)@.cursor,
            match check {
                Ok(()) => {
                    let order = order_at(old(self)@.amounts, old(self)@.decimals, old(self)@.cursor as int);
                    &&& final(self)@.stage == Stage::Transfer
                    &&& final(self)@.issued == old(self)@.issued.push(order)
                    &&& r == Action::Transfer(order)
                },
                Err(e) => {
                    &&& final(self)@.stage == Stage::Finished
                    &&& final(self)@.issued == old(self)@.issued
                    &&& r == Action::Finish(Err(e))
                },
            },
    {
        match check {
            Ok(()) => {
                let order = TransferOrder {
                    recipient: self.cursor,
                    amount: self.amounts[self.cursor],
                    decimals: self.decimals,
                };
                self.issued = Ghost(self.issued@.push(order));
                self.stage = Stage::Transfer;
                assert(self.issued@ =~= orders_before(
                    self.amounts@,
                    self.decimals,
                    self.issued@.len(),
                ));
                Action::Transfer(order)
            },
            Err(e) => {
                self.stage = Stage::Finished;
                Action::Finish(Err(e))
            },
        }
    }

    /// Goes on with the data of the recipient at the cursor: if it holds a
    /// token account, that entry's transfer is issued; else the invocation
    /// fails with `InvalidTokenAccount` and the entries after it are never
    /// tried.
    pub fn recipient_data(&mut self, data: &[u8]) -> (r: Action)
        requires
            old(self)@.consistent(),
            old(self)@.stage == Stage::ReadRecipient,
        ensures
            final(self)@.consistent(),
            final(self)@.same_invocation(old(self)@),
            final(self)@.cursor == old(self)@.cursor,
            is_token_account(data@) ==> {
                let order = order_at(old(self)@.amounts, old(self)@.decimals, old(self)@.cursor as int);
                &&& final(self)@.stage == Stage::Transfer
                &&& final(self)@.issued == old(self)@.issued.push(order)
                &&& r == Action::Transfer(order)
            },
            !is_token_account(data@) ==> {
                &&& final(self)@.stage == Stage::Finished
                &&& final(self)@.issued == orders_before(
                    old(self)@.amounts,
                    old(self)@.decimals,
                    old(self)@.cursor,
                )
                &&& r == Action::Finish(Err(SendError::Program(ErrorCode::InvalidTokenAccount)))
            },
    {
        let check = match check_recipient(data) {
            Ok(()) => Ok(()),
            Err(code) => Err(SendError::Program(code)),
        };
        self.recipient_checked(check)
    }

    /// Goes on with the outcome of the transfer at the cursor. A refusal is
    /// passed on as it came and ends the invocation; after a success the
    /// next entry is read, or, after the last, the invocation succeeds.
    pub fn transfer_result(&mut self, result: Result<(), anchor_lang::error::Error>) -> (r: Action)
        requires
            old(self)@.consistent(),
            old(self)@.stage == Stage::Transfer,
        ensures
            final(self)@.consistent(),
            final(self)@.same_invocation(old(self)@),
            final(self)@.issued == old(self)@.issued,
            match result {
                Ok(()) => {
                    &&& final(self)@.cursor == old(self)@.cursor + 1
                    &&& if final(self)@.cursor == final(self)@.recipients {
                        &&& final(self)@.stage == Stage::Finished
                        &&& final(self)@.issued == all_orders(
                            final(self)@.amounts,
                            final(self)@.decimals,
                        )
                        &&& r == Action::Finish(Ok(()))
                    } else {
                        &&& final(self)@.stage == Stage::ReadRecipient
                        &&& r == Action::ReadRecipient(final(self)@.cursor as usize)
                    }
                },
                Err(e) => {
                    &&& final(self)@.cursor == old(self)@.cursor
                    &&& final(self)@.stage == Stage::Finished
                    &&& r == Action::Finish(Err(SendError::External(e)))
                },
            },
    {
        match result {
            Ok(()) => {
                self.cursor = self.cursor + 1;
                if self.cursor == self.recipients {
                    self.stage = Stage::Finished;
                    Action::Finish(Ok(()))
                } else {
                    self.stage = Stage::ReadRecipient;
                    Action::ReadRecipient(self.cursor)
                }
            },
            Err(e) => {
                self.stage = Stage::Finished;
                Action::Finish(Err(SendError::External(e)))
            },
        }
    }
}

/// Each transfer issued pays the recipient at its own position exactly the
/// amount at that position, with the mint's decimals; no other transfer of
/// the invocation goes to that recipient.
pub proof fn lemma_positional_pairing(d: DistributionView, i: int)
    requires
        d.consistent(),
        0 <= i < d.issued.len(),
    ensures
        d.issued[i].recipient == i,
        d.issued[i].amount == d.amounts[i],
        d.issued[i].decimals == d.decimals,
        forall|j: int| 0 <= j < d.issued.len() && j != i ==> d.issued[j].recipient != i,
{
    assert forall|j: int| 0 <= j < d.issued.len() && j != i implies d.issued[j].recipient != i by {
        assert(d.issued[j] == order_at(d.amounts, d.decimals, j));
    }
}

/// Two runs of the same invocation issue their transfers in the same order:
/// as far as both got, they issued the same transfers, and two runs that
/// both succeeded issued the same sequence.
pub proof fn lemma_order_determinism(a: DistributionView, b: DistributionView)
    requires
        a.consistent(),
        b.consistent(),
        a.same_invocation(b),
    ensures
        forall|i: int| 0 <= i < a.issued.len() && i < b.issued.len() ==> a.issued[i] == b.issued[i],
        a.issued.len() == b.issued.len() ==> a.issued == b.issued,
{
    assert forall|i: int| 0 <= i < a.issued.len() && i < b.issued.len() implies a.issued[i]
        == b.issued[i] by {
        assert(a.issued[i] == order_at(a.amounts, a.decimals, i));
        assert(b.issued[i] == order_at(b.amounts, b.decimals, i));
    }
    if a.issued.len() == b.issued.len() {
        assert(a.issued =~= b.issued);
    }
}

} // verus!
