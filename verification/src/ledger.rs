//! The executable ledger. Every method promises exactly the transition (or
//! the error and an unchanged state) that its `model` counterpart describes.

use vstd::prelude::*;

verus! {

use crate::MAX_SUPPLY;
use crate::model::{Address, Error, LedgerView, RecordView};

broadcast use vstd::string::group_string_axioms;

/// One minted token's record: the principal it was minted to, its
/// identifier, and the constant metadata and image URIs.
pub struct MintTo {
    pub address: Address,
    pub token_id: i128,
    pub metadata: String,
    pub image: String,
}

impl View for MintTo {
    type V = RecordView;

    open spec fn view(&self) -> RecordView {
        RecordView {
            address: self.address,
            token_id: self.token_id as int,
            metadata: self.metadata@,
            image: self.image@,
        }
    }
}

/// The token ledger: whitelisting, one-mint-per-address issuance up to
/// `MAX_SUPPLY`, ownership, per-token approvals, and transfers.
///
/// Token identifiers are dense, starting at 1: index `i` of `owners`,
/// `approvals` and `records` describes token `i + 1`.
pub struct StallionNFT {
    pub admin: Address,
    pub whitelist: Vec<Address>,
    pub token_count: i128,
    pub owners: Vec<Address>,
    pub approvals: Vec<Vec<Address>>,
    pub records: Vec<MintTo>,
}

impl View for StallionNFT {
    type V = LedgerView;

    open spec fn view(&self) -> LedgerView {
        LedgerView {
            admin: self.admin,
            whitelist: self.whitelist@,
            token_count: self.token_count as int,
            owners: self.owners@,
            approvals: self.approvals@.map_values(|v: Vec<Address>| v@),
            records: self.records@.map_values(|m: MintTo| m@),
        }
    }
}

/// Whether `v` holds `a`.
fn contains_address(v: &Vec<Address>, a: Address) -> (r: bool)
    ensures
        r == v@.contains(a),
{
    let mut i: usize = 0;
    while i < v.len()
        invariant
            i <= v.len(),
            forall|j: int| 0 <= j < i ==> v@[j] != a,
        decreases v.len() - i,
    {
        if v[i] == a {
            proof {
                assert(v@[i as int] == a);
            }
            return true;
        }
        i += 1;
    }
    false
}

/// The position of the first occurrence of `a` in `v`, if any.
fn find_address(v: &Vec<Address>, a: Address) -> (r: Option<usize>)
    ensures
        match r {
            Some(i) => i < v@.len() && v@[i as int] == a && forall|j: int| 0 <= j < i ==> v@[j] != a,
            None => !v@.contains(a),
        },
{
    let mut i: usize = 0;
    while i < v.len()
        invariant
            i <= v.len(),
            forall|j: int| 0 <= j < i ==> v@[j] != a,
        decreases v.len() - i,
    {
        if v[i] == a {
            return Some(i);
        }
        i += 1;
    }
    None
}

/// A copy of `v`, element for element.
fn clone_addresses(v: &Vec<Address>) -> (r: Vec<Address>)
    ensures
        r@ == v@,
{
    let mut r: Vec<Address> = Vec::new();
    let mut i: usize = 0;
    while i < v.len()
        invariant
            i <= v.len(),
            r@ == v@.subrange(0, i as int),
        decreases v.len() - i,
    {
        r.push(v[i]);
        i += 1;
        proof {
            assert(r@ =~= v@.subrange(0, i as int));
        }
    }
    proof {
        assert(r@ =~= v@);
    }
    r
}

impl StallionNFT {
    /// The well-formedness invariant of the ledger, stated on its model.
    pub open spec fn wf(&self) -> bool {
        self@.wf()
    }

    /// Records `admin` as the one principal allowed to remove whitelist
    /// entries, and starts with nothing whitelisted and nothing minted.
    pub fn construct(admin: Address) -> (ledger: StallionNFT)
        ensures
            ledger@ == LedgerView::initial(admin),
            ledger.wf(),
    {
        let ledger = StallionNFT {
            admin,
            whitelist: Vec::new(),
            token_count: 0,
            owners: Vec::new(),
            approvals: Vec::new(),
            records: Vec::new(),
        };
        proof {
            assert(ledger@ =~~= LedgerView::initial(admin));
        }
        ledger
    }

    /// The collection's name.
    pub fn name() -> (r: String)
        ensures
            r@ == crate::model::token_name(),
    {
        String::from_str("StallionNFT")
    }

    /// The collection's ticker symbol.
    pub fn symbol() -> (r: String)
        ensures
            r@ == crate::model::token_symbol(),
    {
        String::from_str("SNFT")
    }

    /// The constant metadata URI shared by every token.
    pub fn token_uri() -> (r: String)
        ensures
            r@ == crate::model::metadata_uri(),
    {
        String::from_str("https://ipfs.io/ipfs/bafkreibzw25uz3cxnpd4ditc2s7ngyea2hpq45s7psbs27dm3z6r57rzbe")
    }

    /// The constant image URI shared by every token.
    pub fn token_image() -> (r: String)
        ensures
            r@ == crate::model::image_uri(),
    {
        String::from_str("https://ipfs.io/ipfs/bafybeichocyvocmrrixgunzlrcnj4u7sbg3cst54mp3e3begu4qiphe3jq")
    }

    /// The current whitelist, in insertion order.
    pub fn get_whitelist(&self) -> (r: Vec<Address>)
        ensures
            r@ == self@.whitelist,
    {
        clone_addresses(&self.whitelist)
    }

    /// The owner of `token_id`, or the null sentinel if that identifier was
    /// never assigned.
    pub fn owner_of(&self, token_id: i128) -> (r: Address)
        requires
            self.wf(),
        ensures
            r == self@.owner_of(token_id as int),
    {
        if 1 <= token_id && token_id <= self.token_count {
            let idx: usize = (token_id - 1) as usize;
            self.owners[idx]
        } else {
            Address::zero()
        }
    }

    /// Whether `operator` is approved to transfer `token_id` on its owner's
    /// behalf.
    pub fn is_approved(&self, operator: Address, token_id: i128) -> (r: bool)
        requires
            self.wf(),
        ensures
            r == self@.approvals_of(token_id as int).contains(operator),
    {
        if 1 <= token_id && token_id <= self.token_count {
            let idx: usize = (token_id - 1) as usize;
            contains_address(&self.approvals[idx], operator)
        } else {
            false
        }
    }

    /// The image URI stored for `token_id`, or `TokenNotFound` if no token
    /// with that identifier was minted.
    pub fn get_token_image(&self, token_id: i128) -> (r: Result<String, Error>)
        requires
            self.wf(),
        ensures
            match r {
                Ok(s) => 1 <= token_id as int <= self@.token_count && s@ == self@.records[
                    token_id as int - 1].image,
                Err(e) => e == Error::TokenNotFound && !(1 <= token_id as int
                    <= self@.token_count),
            },
    {
        if 1 <= token_id && token_id <= self.token_count {
            let idx: usize = (token_id - 1) as usize;
            Ok(self.records[idx].image.as_str().to_string())
        } else {
            Err(Error::TokenNotFound)
        }
    }

    /// Whether `address` has already minted a token.
    fn minted(&self, address: Address) -> (r: bool)
        ensures
            r == self@.has_minted(address),
    {
        let mut i: usize = 0;
        while i < self.records.len()
            invariant
                i <= self.records.len(),
                forall|j: int| 0 <= j < i ==> self.records@[j].address != address,
            decreases self.records.len() - i,
        {
            if self.records[i].address == address {
                proof {
                    assert(self@.records[i as int].address == address);
                }
                return true;
            }
            i += 1;
        }
        false
    }

    /// Appends `address` to the whitelist; any caller may do so. Fails with
    /// `AlreadyWhitelisted` if it is already there, leaving the ledger
    /// unchanged.
    pub fn add_to_whitelist(&mut self, address: Address) -> (r: Result<(), Error>)
        requires
            old(self).wf(),
        ensures
            final(self).wf(),
            match r {
                Ok(()) => old(self)@.add_whitelist_err(address) is None && final(self)@ == old(self)@.add_whitelist_step(address),
                Err(e) => old(self)@.add_whitelist_err(address) == Some(e) && final(self)@ == old(self)@,
            },
    {
        if contains_address(&self.whitelist, address) {
            return Err(Error::AlreadyWhitelisted);
        }
        self.whitelist.push(address);
        proof {
            assert(self@ =~~= old(self)@.add_whitelist_step(address));
            crate::laws::lemma_add_whitelist_wf(old(self)@, address);
        }
        Ok(())
    }

    /// Removes `address` from the whitelist. Only the recorded admin may do
    /// so (`NotAuthorized` otherwise), and only a present entry can go
    /// (`NotWhitelisted` otherwise); the order of the remaining entries is
    /// kept. The caller must have authenticated `admin` as the actual
    /// caller; the sentinel cannot authenticate.
    pub fn remove_from_whitelist(&mut self, admin: Address, address: Address) -> (r: Result<
        (),
        Error,
    >)
        requires
            old(self).wf(),
        ensures
            final(self).wf(),
            match r {
                Ok(()) => old(self)@.remove_whitelist_err(admin, address) is None && final(self)@
                    == old(self)@.remove_whitelist_step(address),
                Err(e) => old(self)@.remove_whitelist_err(admin, address) == Some(e) && final(self)@ == old(self)@,
            },
    {
        if admin != self.admin {
            return Err(Error::NotAuthorized);
        }
        match find_address(&self.whitelist, address) {
            None => Err(Error::NotWhitelisted),
            Some(pos) => {
                proof {
                    let wl = old(self)@.whitelist;
                    assert(wl[pos as int] == address);
                    assert(wl.contains(address));
                    let i = wl.index_of(address);
                    assert(0 <= i < wl.len() && wl[i] == address);
                    assert(i == pos as int) by {
                        if i != pos as int {
                            assert(wl[i] != wl[pos as int]);
                        }
                    }
                }
                self.whitelist.remove(pos);
                proof {
                    assert(self@ =~~= old(self)@.remove_whitelist_step(address));
                    crate::laws::lemma_remove_whitelist_wf(old(self)@, admin, address);
                }
                Ok(())
            },
        }
    }

    /// Mints the next token to `to`. The preconditions are checked in
    /// order: `to` must be whitelisted (`NotWhitelisted`), must not have
    /// minted before (`AlreadyMinted`), and the supply cap must not be
    /// reached (`SupplyExhausted`). On success the returned identifier is
    /// the new token count; a failed mint leaves the ledger unchanged.
    pub fn mint(&mut self, to: Address) -> (r: Result<i128, Error>)
        requires
            old(self).wf(),
        ensures
            final(self).wf(),
            match r {
                Ok(token_id) => old(self)@.mint_err(to) is None && final(self)@ == old(self)@.mint_step(to) && token_id == old(self)@.token_count + 1,
                Err(e) => old(self)@.mint_err(to) == Some(e) && final(self)@ == old(self)@,
            },
    {
        if !contains_address(&self.whitelist, to) {
            return Err(Error::NotWhitelisted);
        }
        if self.minted(to) {
            return Err(Error::AlreadyMinted);
        }
        if self.token_count >= MAX_SUPPLY {
            return Err(Error::SupplyExhausted);
        }
        let token_id = self.token_count + 1;
        self.token_count = token_id;
        self.owners.push(to);
        self.approvals.push(Vec::new());
        self.records.push(
            MintTo {
                address: to,
                token_id,
                metadata: Self::token_uri(),
                image: Self::token_image(),
            },
        );
        proof {
            assert(self@ =~~= old(self)@.mint_step(to));
            crate::laws::lemma_mint_wf(old(self)@, to);
        }
        Ok(token_id)
    }

    /// Approves `to` to transfer `token_id` on `owner`'s behalf. `owner`
    /// must be the token's current owner (`NotTokenOwner` otherwise).
    /// Adding an already-approved principal is a no-op; the returned flag
    /// says whether a new approval was added (and so whether an event is
    /// owed). The caller must have authenticated `owner`; the sentinel
    /// cannot authenticate.
    pub fn approve(&mut self, owner: Address, to: Address, token_id: i128) -> (r: Result<
        bool,
        Error,
    >)
        requires
            old(self).wf(),
            owner != Address::zero_spec(),
        ensures
            final(self).wf(),
            match r {
                Ok(added) => old(self)@.approve_err(owner, token_id as int) is None && added == old(self)@.approve_adds(to, token_id as int) && final(self)@ == old(self)@.approve_step(
                    to,
                    token_id as int,
                ),
                Err(e) => old(self)@.approve_err(owner, token_id as int) == Some(e) && final(self)@
                    == old(self)@,
            },
    {
        let actual = self.owner_of(token_id);
        if owner != actual {
            return Err(Error::NotTokenOwner);
        }
        proof {
            assert(1 <= token_id as int <= self@.token_count);
        }
        let idx: usize = (token_id - 1) as usize;
        if contains_address(&self.approvals[idx], to) {
            proof {
                assert(self@ == old(self)@.approve_step(to, token_id as int));
            }
            Ok(false)
        } else {
            let mut updated = clone_addresses(&self.approvals[idx]);
            updated.push(to);
            self.approvals.set(idx, updated);
            proof {
                assert(self@ =~~= old(self)@.approve_step(to, token_id as int));
                crate::laws::lemma_approve_wf(old(self)@, to, token_id as int);
            }
            Ok(true)
        }
    }

    /// Transfers `token_id` from its owner to `to`, clearing the token's
    /// approval set entirely. `owner` must be the token's current owner
    /// (`NotTokenOwner` otherwise). The caller must have authenticated
    /// `owner`; the sentinel cannot authenticate.
    pub fn transfer(&mut self, owner: Address, to: Address, token_id: i128) -> (r: Result<
        (),
        Error,
    >)
        requires
            old(self).wf(),
            owner != Address::zero_spec(),
        ensures
            final(self).wf(),
            match r {
                Ok(()) => old(self)@.transfer_err(owner, token_id as int) is None && final(self)@
                    == old(self)@.transfer_step(to, token_id as int),
                Err(e) => old(self)@.transfer_err(owner, token_id as int) == Some(e) && final(self)@ == old(self)@,
            },
    {
        let actual = self.owner_of(token_id);
        if owner != actual {
            return Err(Error::NotTokenOwner);
        }
        proof {
            assert(1 <= token_id as int <= self@.token_count);
        }
        let idx: usize = (token_id - 1) as usize;
        self.owners.set(idx, to);
        self.approvals.set(idx, Vec::new());
        proof {
            assert(self@ =~~= old(self)@.transfer_step(to, token_id as int));
            crate::laws::lemma_transfer_wf(old(self)@, to, token_id as int);
        }
        Ok(())
    }

    /// Delegated transfer: `spender`, previously approved for `token_id`,
    /// moves it from `from` to `to`, clearing the token's approval set.
    /// `from` must be the current owner (`FromNotOwner` otherwise) and
    /// `spender` must be approved (`SpenderNotApproved` otherwise). The
    /// caller must have authenticated `spender`; the sentinel cannot
    /// authenticate.
    pub fn transfer_from(
        &mut self,
        spender: Address,
        from: Address,
        to: Address,
        token_id: i128,
    ) -> (r: Result<(), Error>)
        requires
            old(self).wf(),
            spender != Address::zero_spec(),
        ensures
            final(self).wf(),
            match r {
                Ok(()) => old(self)@.transfer_from_err(spender, from, token_id as int) is None
                    && final(self)@ == old(self)@.transfer_step(to, token_id as int),
                Err(e) => old(self)@.transfer_from_err(spender, from, token_id as int) == Some(e)
                    && final(self)@ == old(self)@,
            },
    {
        let actual = self.owner_of(token_id);
        if from != actual {
            return Err(Error::FromNotOwner);
        }
        if !self.is_approved(spender, token_id) {
            return Err(Error::SpenderNotApproved);
        }
        proof {
            assert(1 <= token_id as int <= self@.token_count) by {
                if !(1 <= token_id as int <= self@.token_count) {
                    assert(self@.approvals_of(token_id as int) =~= Seq::empty());
                }
            }
        }
        let idx: usize = (token_id - 1) as usize;
        self.owners.set(idx, to);
        self.approvals.set(idx, Vec::new());
        proof {
            assert(self@ =~~= old(self)@.transfer_step(to, token_id as int));
            crate::laws::lemma_transfer_wf(old(self)@, to, token_id as int);
        }
        Ok(())
    }

    /// The mint record of `address`, if it has minted: record addresses are
    /// distinct, so an address with one minted token gets exactly its own
    /// record, and an address that never minted gets nothing.
    pub fn get_nft_by_address(&self, address: Address) -> (r: Option<MintTo>)
        requires
            self.wf(),
        ensures
            match r {
                Some(rec) => self@.record_for(address) == Some(rec@),
                None => self@.record_for(address) is None && !self@.has_minted(address),
            },
    {
        let mut i: usize = 0;
        while i < self.records.len()
            invariant
                self.wf(),
                i <= self.records.len(),
                forall|j: int| 0 <= j < i ==> self.records@[j].address != address,
            decreases self.records.len() - i,
        {
            if self.records[i].address == address {
                let rec = &self.records[i];
                let found = MintTo {
                    address: rec.address,
                    token_id: rec.token_id,
                    metadata: rec.metadata.as_str().to_string(),
                    image: rec.image.as_str().to_string(),
                };
                proof {
                    assert(found@ =~= self@.records[i as int]);
                    assert(self@.records[i as int].address == address);
                    assert(self@.has_minted(address));
                    let k = choose|k: int|
                        0 <= k < self@.records.len() && (#[trigger] self@.records[k]).address
                            == address;
                    assert(k == i as int) by {
                        if k != i as int {
                            let m = self@.record_addresses();
                            assert(crate::model::distinct(m));
                            assert(m.len() == self@.records.len());
                            assert(m[k] == address && m[i as int] == address);
                            if k < i as int {
                                assert(m[k] != m[i as int]);
                            } else {
                                assert(m[i as int] != m[k]);
                            }
                            assert(false);
                        }
                    }
                }
                return Some(found);
            }
            i += 1;
        }
        None
    }

    /// The metadata URI stored for `token_id`, or `TokenNotFound` if no
    /// token with that identifier was minted.
    pub fn get_token_metadata(&self, token_id: i128) -> (r: Result<String, Error>)
        requires
            self.wf(),
        ensures
            match r {
                Ok(s) => 1 <= token_id as int <= self@.token_count && s@ == self@.records[
                    token_id as int - 1].metadata,
                Err(e) => e == Error::TokenNotFound && !(1 <= token_id as int
                    <= self@.token_count),
            },
    {
        if 1 <= token_id && token_id <= self.token_count {
            let idx: usize = (token_id - 1) as usize;
            Ok(self.records[idx].metadata.as_str().to_string())
        } else {
            Err(Error::TokenNotFound)
        }
    }
}

} // verus!
