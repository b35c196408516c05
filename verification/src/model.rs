//! The mathematical model of the ledger: its state, its well-formedness
//! invariant, and one transition function (with its error function) per
//! mutating operation. The executable methods promise exactly these
//! transitions, and the laws in `laws` are proved over them.

use vstd::prelude::*;

verus! {

use crate::MAX_SUPPLY;

/// An opaque principal of the external identity system, modelled as a plain
/// integer identifier. Two principals are the same exactly when their
/// identifiers are equal.
///
/// The all-zero principal is reserved as the null-owner sentinel returned by
/// `owner_of` for tokens that were never minted; no real caller authenticates
/// as it.
#[derive(Clone, Copy, PartialEq, Eq, Structural, Debug)]
pub struct Address {
    pub id: u64,
}

impl Address {
    /// The reserved null-owner sentinel.
    pub fn zero() -> (a: Address)
        ensures
            a == Address::zero_spec(),
    {
        Address { id: 0 }
    }

    /// The reserved null-owner sentinel, as a specification value.
    pub open spec fn zero_spec() -> Address {
        Address { id: 0 }
    }
}

/// The named precondition violations. Every operation reports its first
/// failed precondition as one of these and leaves the ledger unchanged.
#[derive(Clone, Copy, PartialEq, Eq, Structural, Debug)]
pub enum Error {
    AlreadyWhitelisted,
    NotAuthorized,
    NotWhitelisted,
    AlreadyMinted,
    SupplyExhausted,
    NotTokenOwner,
    FromNotOwner,
    SpenderNotApproved,
    TokenNotFound,
}

/// The abstract value of one minted token's record: the principal the token
/// was minted to, the token's identifier, and the token's metadata and image
/// URIs.
#[verifier::ext_equal]
pub ghost struct RecordView {
    pub address: Address,
    pub token_id: int,
    pub metadata: Seq<char>,
    pub image: Seq<char>,
}

/// The abstract state of the whole ledger.
///
/// Token identifiers are dense: token `i + 1` is described by index `i` of
/// `owners`, `approvals` and `records`, and `token_count` equals their common
/// length. An address has minted exactly when some record carries it.
#[verifier::ext_equal]
pub ghost struct LedgerView {
    /// The principal recorded at construction; it alone may remove
    /// whitelist entries.
    pub admin: Address,
    /// The principals permitted to mint, in insertion order, without
    /// duplicates.
    pub whitelist: Seq<Address>,
    /// The number of tokens minted so far; doubles as the last assigned
    /// token identifier.
    pub token_count: int,
    /// `owners[i]` is the current owner of token `i + 1`.
    pub owners: Seq<Address>,
    /// `approvals[i]` is the set of principals approved to transfer token
    /// `i + 1`, in insertion order, without duplicates.
    pub approvals: Seq<Seq<Address>>,
    /// `records[i]` is the mint record of token `i + 1`.
    pub records: Seq<RecordView>,
}

/// Whether `s` holds no element twice.
pub open spec fn distinct<A>(s: Seq<A>) -> bool {
    forall|i: int, j: int| 0 <= i < j < s.len() ==> s[i] != s[j]
}

impl LedgerView {
    /// The well-formedness invariant: construction establishes it and every
    /// operation preserves it.
    pub open spec fn wf(self) -> bool {
        &&& 0 <= self.token_count <= MAX_SUPPLY as int
        &&& self.owners.len() == self.token_count
        &&& self.approvals.len() == self.token_count
        &&& self.records.len() == self.token_count
        &&& forall|i: int|
            0 <= i < self.records.len() ==> (#[trigger] self.records[i]).token_id == i + 1
        &&& distinct(self.whitelist)
        &&& distinct(self.record_addresses())
        &&& forall|i: int| 0 <= i < self.approvals.len() ==> distinct(#[trigger] self.approvals[i])
    }

    /// The state of a ledger just constructed with `admin`: nothing
    /// whitelisted, nothing minted.
    pub open spec fn initial(admin: Address) -> LedgerView {
        LedgerView {
            admin,
            whitelist: Seq::empty(),
            token_count: 0,
            owners: Seq::empty(),
            approvals: Seq::empty(),
            records: Seq::empty(),
        }
    }

    /// The addresses the tokens were minted to, token by token.
    pub open spec fn record_addresses(self) -> Seq<Address> {
        self.records.map_values(|r: RecordView| r.address)
    }

    /// Whether `address` has successfully minted.
    pub open spec fn has_minted(self, address: Address) -> bool {
        exists|i: int| 0 <= i < self.records.len() && (#[trigger] self.records[i]).address == address
    }

    /// The owner of `token_id`, or the null sentinel for an identifier that
    /// was never assigned.
    pub open spec fn owner_of(self, token_id: int) -> Address {
        if 1 <= token_id <= self.token_count {
            self.owners[token_id - 1]
        } else {
            Address::zero_spec()
        }
    }

    /// The approval set of `token_id`, empty for an identifier that was
    /// never assigned.
    pub open spec fn approvals_of(self, token_id: int) -> Seq<Address> {
        if 1 <= token_id <= self.token_count {
            self.approvals[token_id - 1]
        } else {
            Seq::empty()
        }
    }

    /// The mint record matching `address`, if any. Record addresses are
    /// distinct in a well-formed ledger, so the match is unique.
    pub open spec fn record_for(self, address: Address) -> Option<RecordView> {
        if self.has_minted(address) {
            let i = choose|i: int|
                0 <= i < self.records.len() && (#[trigger] self.records[i]).address == address;
            Some(self.records[i])
        } else {
            None
        }
    }

    /// The first failed precondition of `add_to_whitelist`, if any.
    pub open spec fn add_whitelist_err(self, address: Address) -> Option<Error> {
        if self.whitelist.contains(address) {
            Some(Error::AlreadyWhitelisted)
        } else {
            None
        }
    }

    /// The state after a successful `add_to_whitelist`: `address` is appended,
    /// everything else is untouched.
    pub open spec fn add_whitelist_step(self, address: Address) -> LedgerView {
        LedgerView { whitelist: self.whitelist.push(address), ..self }
    }

    /// The first failed precondition of `remove_from_whitelist`, if any:
    /// only the recorded admin may remove, and only a present entry can go.
    pub open spec fn remove_whitelist_err(self, admin: Address, address: Address) -> Option<Error> {
        if admin != self.admin {
            Some(Error::NotAuthorized)
        } else if !self.whitelist.contains(address) {
            Some(Error::NotWhitelisted)
        } else {
            None
        }
    }

    /// The state after a successful `remove_from_whitelist`: the one entry
    /// holding `address` is gone, the order of the rest is kept.
    pub open spec fn remove_whitelist_step(self, address: Address) -> LedgerView {
        LedgerView { whitelist: self.whitelist.remove(self.whitelist.index_of(address)), ..self }
    }

    /// The first failed precondition of `mint`, checked in this order:
    /// whitelist membership, then the one-mint-per-address rule, then the
    /// supply cap.
    pub open spec fn mint_err(self, to: Address) -> Option<Error> {
        if !self.whitelist.contains(to) {
            Some(Error::NotWhitelisted)
        } else if self.has_minted(to) {
            Some(Error::AlreadyMinted)
        } else if self.token_count >= MAX_SUPPLY as int {
            Some(Error::SupplyExhausted)
        } else {
            None
        }
    }

    /// The state after a successful `mint`: the count rises by one and the
    /// fresh token identifier equals it; `to` owns the new token, which
    /// starts with no approvals and a record carrying the constant URIs.
    pub open spec fn mint_step(self, to: Address) -> LedgerView {
        LedgerView {
            token_count: self.token_count + 1,
            owners: self.owners.push(to),
            approvals: self.approvals.push(Seq::empty()),
            records: self.records.push(
                RecordView {
                    address: to,
                    token_id: self.token_count + 1,
                    metadata: metadata_uri(),
                    image: image_uri(),
                },
            ),
            ..self
        }
    }

    /// The first failed precondition of `approve`: the caller must be the
    /// token's current owner.
    pub open spec fn approve_err(self, owner: Address, token_id: int) -> Option<Error> {
        if owner != self.owner_of(token_id) {
            Some(Error::NotTokenOwner)
        } else {
            None
        }
    }

    /// Whether a successful `approve` changes the ledger (and so emits an
    /// event): only a principal not yet approved is added.
    pub open spec fn approve_adds(self, to: Address, token_id: int) -> bool {
        1 <= token_id <= self.token_count && !self.approvals_of(token_id).contains(to)
    }

    /// The state after a successful `approve`: `to` joins the token's
    /// approval set if absent; an `approve` of a present principal is a
    /// no-op.
    pub open spec fn approve_step(self, to: Address, token_id: int) -> LedgerView {
        if self.approve_adds(to, token_id) {
            LedgerView {
                approvals: self.approvals.update(
                    token_id - 1,
                    self.approvals[token_id - 1].push(to),
                ),
                ..self
            }
        } else {
            self
        }
    }

    /// The first failed precondition of `transfer`: the caller must be the
    /// token's current owner.
    pub open spec fn transfer_err(self, owner: Address, token_id: int) -> Option<Error> {
        if owner != self.owner_of(token_id) {
            Some(Error::NotTokenOwner)
        } else {
            None
        }
    }

    /// The state after a successful `transfer` or `transfer_from`: `to`
    /// becomes the owner and the token's approval set is cleared entirely.
    pub open spec fn transfer_step(self, to: Address, token_id: int) -> LedgerView {
        LedgerView {
            owners: self.owners.update(token_id - 1, to),
            approvals: self.approvals.update(token_id - 1, Seq::empty()),
            ..self
        }
    }

    /// The first failed precondition of `transfer_from`, checked in this
    /// order: `from` must be the current owner, then `spender` must be
    /// approved for the token.
    pub open spec fn transfer_from_err(
        self,
        spender: Address,
        from: Address,
        token_id: int,
    ) -> Option<Error> {
        if from != self.owner_of(token_id) {
            Some(Error::FromNotOwner)
        } else if !self.approvals_of(token_id).contains(spender) {
            Some(Error::SpenderNotApproved)
        } else {
            None
        }
    }
}

/// The collection's constant name.
pub open spec fn token_name() -> Seq<char> {
    "StallionNFT"@
}

/// The collection's constant ticker symbol.
pub open spec fn token_symbol() -> Seq<char> {
    "SNFT"@
}

/// The constant metadata URI every mint record carries.
pub open spec fn metadata_uri() -> Seq<char> {
    "https://ipfs.io/ipfs/bafkreibzw25uz3cxnpd4ditc2s7ngyea2hpq45s7psbs27dm3z6r57rzbe"@
}

/// The constant image URI every mint record carries.
pub open spec fn image_uri() -> Seq<char> {
    "https://ipfs.io/ipfs/bafybeichocyvocmrrixgunzlrcnj4u7sbg3cst54mp3e3begu4qiphe3jq"@
}

} // verus!
