//! The ledger model: a finite store of accounts keyed by address.
//!
//! Three record shapes live in it: a Mint Record (one token class), a
//! Holder Asset Account (one owner's balance for one class) and a
//! Metadata Record (descriptive data attached to one class). The store
//! is modelled as a sequence of (address, account) pairs whose addresses
//! are unique; `lookup` reads it as a partial map.

use vstd::prelude::*;

use crate::addr::Address;
use crate::addr::addr_eq;

verus! {

/// Mathematical view of a Mint Record.
pub struct MintV {
    pub decimals: u8,
    pub supply: u64,
    pub authority: Seq<u8>,
}

/// Mathematical view of a Holder Asset Account.
pub struct HolderV {
    pub mint: Seq<u8>,
    pub owner: Seq<u8>,
    pub balance: u64,
}

/// Mathematical view of a Metadata Record.
pub struct MetadataV {
    pub mint: Seq<u8>,
    pub name: Seq<u8>,
    pub symbol: Seq<u8>,
    pub uri: Seq<u8>,
    pub seller_fee_basis_points: u16,
    pub update_authority: Seq<u8>,
}

/// Mathematical view of any account in the store.
pub enum AccountV {
    Mint(MintV),
    Holder(HolderV),
    Metadata(MetadataV),
}

/// A token class: decimal precision, running supply counter, and the
/// address allowed to mint further units.
pub struct MintRecord {
    pub decimals: u8,
    pub supply: u64,
    pub authority: Address,
}

/// One owner's balance for one token class.
pub struct HolderRecord {
    pub mint: Address,
    pub owner: Address,
    pub balance: u64,
}

/// Descriptive data attached to one token class.
pub struct MetadataRecord {
    pub mint: Address,
    pub name: Vec<u8>,
    pub symbol: Vec<u8>,
    pub uri: Vec<u8>,
    pub seller_fee_basis_points: u16,
    pub update_authority: Address,
}

/// Any account in the store.
pub enum AccountRecord {
    Mint(MintRecord),
    Holder(HolderRecord),
    Metadata(MetadataRecord),
}

impl View for MintRecord {
    type V = MintV;

    open spec fn view(&self) -> MintV {
        MintV { decimals: self.decimals, supply: self.supply, authority: self.authority@ }
    }
}

impl View for HolderRecord {
    type V = HolderV;

    open spec fn view(&self) -> HolderV {
        HolderV { mint: self.mint@, owner: self.owner@, balance: self.balance }
    }
}

impl View for MetadataRecord {
    type V = MetadataV;

    open spec fn view(&self) -> MetadataV {
        MetadataV {
            mint: self.mint@,
            name: self.name@,
            symbol: self.symbol@,
            uri: self.uri@,
            seller_fee_basis_points: self.seller_fee_basis_points,
            update_authority: self.update_authority@,
        }
    }
}

impl View for AccountRecord {
    type V = AccountV;

    open spec fn view(&self) -> AccountV {
        match self {
            AccountRecord::Mint(m) => AccountV::Mint(m@),
            AccountRecord::Holder(h) => AccountV::Holder(h@),
            AccountRecord::Metadata(d) => AccountV::Metadata(d@),
        }
    }
}

/// The mathematical shape of the store: address/account pairs in the
/// order the accounts were created.
pub type LedgerView = Seq<(Seq<u8>, AccountV)>;

/// Read the store as a partial map: the account at the first entry
/// carrying the address, if any.
pub open spec fn lookup(l: LedgerView, a: Seq<u8>) -> Option<AccountV>
    decreases l.len(),
{
    if l.len() == 0 {
        None
    } else if l[0].0 == a {
        Some(l[0].1)
    } else {
        lookup(l.drop_first(), a)
    }
}

/// No two entries share an address.
pub open spec fn unique_addrs(l: LedgerView) -> bool {
    forall|i: int, j: int| 0 <= i < j < l.len() ==> l[i].0 != l[j].0
}

/// Every Holder Asset Account is bound to a class whose Mint Record is
/// in the store.
pub open spec fn holders_bound(l: LedgerView) -> bool {
    forall|i: int| 0 <= i < l.len() ==> match #[trigger] l[i].1 {
        AccountV::Holder(h) => lookup(l, h.mint) matches Some(AccountV::Mint(_)),
        _ => true,
    }
}

/// Well-formedness of the store.
pub open spec fn ledger_wf(l: LedgerView) -> bool {
    unique_addrs(l) && holders_bound(l)
}

/// An absent address is one no entry carries, and conversely.
pub proof fn lemma_lookup_absent(l: LedgerView, a: Seq<u8>)
    ensures
        (lookup(l, a) is None) <==> (forall|i: int| 0 <= i < l.len() ==> l[i].0 != a),
    decreases l.len(),
{
    if l.len() > 0 {
        let lt = l.drop_first();
        lemma_lookup_absent(lt, a);
        assert(forall|i: int| 0 <= i < lt.len() ==> lt[i] == l[i + 1]);
        if forall|i: int| 0 <= i < l.len() ==> (#[trigger] l[i]).0 != a {
            assert(l[0].0 != a);
            assert forall|i: int| 0 <= i < lt.len() implies (#[trigger] lt[i]).0 != a by {
                assert(l[i + 1].0 != a);
            }
            assert(lookup(lt, a) is None);
        }
        if lookup(l, a) is None {
            assert(l[0].0 != a);
            assert forall|i: int| 0 <= i < l.len() implies (#[trigger] l[i]).0 != a by {
                if i > 0 {
                    assert(lt[i - 1].0 != a);
                }
            }
        }
    }
}

/// The first entry carrying an address decides what `lookup` answers.
pub proof fn lemma_lookup_first_match(l: LedgerView, a: Seq<u8>, i: int)
    requires
        0 <= i < l.len(),
        l[i].0 == a,
        forall|j: int| 0 <= j < i ==> l[j].0 != a,
    ensures
        lookup(l, a) == Some(l[i].1),
    decreases l.len(),
{
    if i > 0 {
        assert(forall|j: int| 0 <= j < l.drop_first().len() ==> l.drop_first()[j] == l[j + 1]);
        lemma_lookup_first_match(l.drop_first(), a, i - 1);
    }
}

/// With unique addresses, any entry carrying an address decides `lookup`.
pub proof fn lemma_lookup_present(l: LedgerView, i: int)
    requires
        unique_addrs(l),
        0 <= i < l.len(),
    ensures
        lookup(l, l[i].0) == Some(l[i].1),
{
    lemma_lookup_first_match(l, l[i].0, i);
}

proof fn lemma_lookup_push_at(l: LedgerView, e: (Seq<u8>, AccountV), x: Seq<u8>)
    ensures
        lookup(l.push(e), x) == (if lookup(l, x) is Some {
            lookup(l, x)
        } else if x == e.0 {
            Some(e.1)
        } else {
            None::<AccountV>
        }),
    decreases l.len(),
{
    if l.len() == 0 {
        assert(l.push(e)[0] == e);
        assert(l.push(e).drop_first() =~= Seq::<(Seq<u8>, AccountV)>::empty());
    } else {
        assert(l.push(e)[0] == l[0]);
        assert(l.push(e).drop_first() =~= l.drop_first().push(e));
        lemma_lookup_push_at(l.drop_first(), e, x);
    }
}

/// Appending an entry leaves every other address's answer alone and
/// makes the new address answer the new account (when it was absent).
pub proof fn lemma_lookup_push(l: LedgerView, a0: Seq<u8>, v0: AccountV)
    requires
        lookup(l, a0) is None,
    ensures
        lookup(l.push((a0, v0)), a0) == Some(v0),
        forall|x: Seq<u8>| x != a0 ==> #[trigger] lookup(l.push((a0, v0)), x) == lookup(l, x),
{
    lemma_lookup_push_at(l, (a0, v0), a0);
    assert forall|x: Seq<u8>| x != a0 implies #[trigger] lookup(l.push((a0, v0)), x) == lookup(
        l,
        x,
    ) by {
        lemma_lookup_push_at(l, (a0, v0), x);
    }
}

proof fn lemma_lookup_update_at(l: LedgerView, i: int, v: AccountV, x: Seq<u8>)
    requires
        unique_addrs(l),
        0 <= i < l.len(),
    ensures
        lookup(l.update(i, (l[i].0, v)), x) == (if x == l[i].0 {
            Some(v)
        } else {
            lookup(l, x)
        }),
    decreases l.len(),
{
    let lu = l.update(i, (l[i].0, v));
    let lt = l.drop_first();
    assert(forall|k: int| 0 <= k < lt.len() ==> lt[k] == l[k + 1]);
    if i == 0 {
        assert(lu[0] == (l[0].0, v));
        assert(lu.drop_first() =~= lt);
    } else {
        assert(lu[0] == l[0]);
        assert(lu.drop_first() =~= lt.update(i - 1, (l[i].0, v)));
        assert(lt[i - 1] == l[i]);
        lemma_lookup_update_at(lt, i - 1, v, x);
        assert(l[0].0 != l[i].0);
    }
}

/// Replacing the account at one entry changes only that address's
/// answer (under unique addresses).
pub proof fn lemma_lookup_update(l: LedgerView, i: int, v: AccountV)
    requires
        unique_addrs(l),
        0 <= i < l.len(),
    ensures
        lookup(l.update(i, (l[i].0, v)), l[i].0) == Some(v),
        forall|x: Seq<u8>| x != l[i].0 ==> #[trigger] lookup(l.update(i, (l[i].0, v)), x)
            == lookup(l, x),
        unique_addrs(l.update(i, (l[i].0, v))),
{
    let lu = l.update(i, (l[i].0, v));
    assert(forall|k: int| 0 <= k < l.len() ==> lu[k].0 == l[k].0);
    assert(unique_addrs(lu));
    lemma_lookup_update_at(l, i, v, l[i].0);
    assert forall|x: Seq<u8>| x != l[i].0 implies #[trigger] lookup(lu, x) == lookup(l, x) by {
        lemma_lookup_update_at(l, i, v, x);
    }
}

/// Appending a non-holder account at an absent address keeps the store
/// well-formed.
pub proof fn lemma_wf_push_nonholder(l: LedgerView, a0: Seq<u8>, v0: AccountV)
    requires
        ledger_wf(l),
        lookup(l, a0) is None,
        !(v0 matches AccountV::Holder(_)),
    ensures
        ledger_wf(l.push((a0, v0))),
{
    let lp = l.push((a0, v0));
    lemma_lookup_absent(l, a0);
    lemma_lookup_push(l, a0, v0);
    assert(forall|i: int| 0 <= i < l.len() ==> lp[i] == l[i]);
    assert(unique_addrs(lp));
    assert forall|i: int| 0 <= i < lp.len() implies match #[trigger] lp[i].1 {
        AccountV::Holder(h) => lookup(lp, h.mint) matches Some(AccountV::Mint(_)),
        _ => true,
    } by {
        if i < l.len() {
            match lp[i].1 {
                AccountV::Holder(h) => {
                    assert(lookup(l, h.mint) matches Some(AccountV::Mint(_)));
                    assert(h.mint != a0);
                },
                _ => {},
            }
        }
    }
}

/// Appending a holder bound to a present class at an absent address
/// keeps the store well-formed.
pub proof fn lemma_wf_push_holder(l: LedgerView, a0: Seq<u8>, h0: HolderV)
    requires
        ledger_wf(l),
        lookup(l, a0) is None,
        lookup(l, h0.mint) matches Some(AccountV::Mint(_)),
    ensures
        ledger_wf(l.push((a0, AccountV::Holder(h0)))),
{
    let v0 = AccountV::Holder(h0);
    let lp = l.push((a0, v0));
    lemma_lookup_absent(l, a0);
    lemma_lookup_push(l, a0, v0);
    assert(forall|i: int| 0 <= i < l.len() ==> lp[i] == l[i]);
    assert(unique_addrs(lp));
    assert forall|i: int| 0 <= i < lp.len() implies match #[trigger] lp[i].1 {
        AccountV::Holder(h) => lookup(lp, h.mint) matches Some(AccountV::Mint(_)),
        _ => true,
    } by {
        if i < l.len() {
            match lp[i].1 {
                AccountV::Holder(h) => {
                    assert(lookup(l, h.mint) matches Some(AccountV::Mint(_)));
                    assert(h.mint != a0);
                },
                _ => {},
            }
        } else {
            assert(h0.mint != a0);
        }
    }
}

/// Replacing an account by one of the same shape (a class by a class,
/// a holder by a holder bound to a present class) keeps the store
/// well-formed.
pub proof fn lemma_wf_update(l: LedgerView, i: int, v: AccountV)
    requires
        ledger_wf(l),
        0 <= i < l.len(),
        match v {
            AccountV::Mint(_) => l[i].1 matches AccountV::Mint(_),
            AccountV::Holder(h) => l[i].1 matches AccountV::Holder(_) && (lookup(l, h.mint)
                matches Some(AccountV::Mint(_))),
            AccountV::Metadata(_) => l[i].1 matches AccountV::Metadata(_),
        },
    ensures
        ledger_wf(l.update(i, (l[i].0, v))),
{
    let lu = l.update(i, (l[i].0, v));
    lemma_lookup_update(l, i, v);
    assert forall|k: int| 0 <= k < lu.len() implies match #[trigger] lu[k].1 {
        AccountV::Holder(h) => lookup(lu, h.mint) matches Some(AccountV::Mint(_)),
        _ => true,
    } by {
        lemma_lookup_present(l, i);
        if k == i {
            match v {
                AccountV::Holder(h) => {
                    assert(lookup(l, h.mint) matches Some(AccountV::Mint(_)));
                    assert(h.mint != l[i].0);
                },
                _ => {},
            }
        } else {
            assert(lu[k] == l[k]);
            match l[k].1 {
                AccountV::Holder(h) => {
                    assert(lookup(l, h.mint) matches Some(AccountV::Mint(_)));
                    if h.mint == l[i].0 {
                        assert(v matches AccountV::Mint(_));
                    }
                },
                _ => {},
            }
        }
    }
}

/// One entry of the store.
struct LedgerEntry {
    addr: Address,
    account: AccountRecord,
}

/// The account store.
pub struct Ledger {
    entries: Vec<LedgerEntry>,
}

impl View for Ledger {
    type V = LedgerView;

    closed spec fn view(&self) -> LedgerView {
        Seq::new(self.entries@.len(), |i: int| (self.entries@[i].addr@, self.entries@[i].account@))
    }
}

impl Ledger {
    /// An empty store.
    pub fn new() -> (r: Ledger)
        ensures
            r@.len() == 0,
            ledger_wf(r@),
    {
        let r = Ledger { entries: Vec::new() };
        proof {
            assert(r@ =~= Seq::<(Seq<u8>, AccountV)>::empty());
        }
        r
    }

    /// How many accounts the store holds.
    pub fn len(&self) -> (r: usize)
        ensures
            r == self@.len(),
    {
        self.entries.len()
    }

    /// The position of the first entry carrying `a`, if any.
    fn find_index(&self, a: &Address) -> (r: Option<usize>)
        ensures
            match r {
                Some(i) => i < self@.len() && self@[i as int].0 == a@ && lookup(self@, a@)
                    == Some(self@[i as int].1),
                None => lookup(self@, a@) is None,
            },
    {
        let mut i: usize = 0;
        while i < self.entries.len()
            invariant
                i <= self.entries.len(),
                self@.len() == self.entries@.len(),
                forall|j: int| 0 <= j < i ==> self@[j].0 != a@,
            decreases self.entries.len() - i,
        {
            if addr_eq(&self.entries[i].addr, a) {
                proof {
                    lemma_lookup_first_match(self@, a@, i as int);
                }
                return Some(i);
            }
            i = i + 1;
        }
        proof {
            lemma_lookup_absent(self@, a@);
        }
        None
    }

    /// The account stored at `a`, if any.
    pub fn get(&self, a: &Address) -> (r: Option<&AccountRecord>)
        ensures
            match r {
                Some(rec) => lookup(self@, a@) == Some(rec@),
                None => lookup(self@, a@) is None,
            },
    {
        match self.find_index(a) {
            Some(i) => Some(&self.entries[i].account),
            None => None,
        }
    }

    /// Whether an account exists at `a`.
    pub fn occupied(&self, a: &Address) -> (r: bool)
        ensures
            r == (lookup(self@, a@) is Some),
    {
        self.find_index(a).is_some()
    }

    /// Append a fresh account at an absent address.
    pub(crate) fn insert_new(&mut self, a: Address, rec: AccountRecord)
        requires
            lookup(old(self)@, a@) is None,
        ensures
            final(self)@ == old(self)@.push((a@, rec@)),
    {
        let ghost a_view = a@;
        let ghost rec_view = rec@;
        self.entries.push(LedgerEntry { addr: a, account: rec });
        proof {
            assert(self@ =~= old(self)@.push((a_view, rec_view)));
        }
    }

    /// Replace the account at position `i`, keeping its address.
    pub(crate) fn set_account(&mut self, i: usize, rec: AccountRecord)
        requires
            i < old(self)@.len(),
        ensures
            final(self)@ == old(self)@.update(i as int, (old(self)@[i as int].0, rec@)),
    {
        let a = self.entries[i].addr.dup();
        let ghost rec_view = rec@;
        self.entries.set(i, LedgerEntry { addr: a, account: rec });
        proof {
            assert(self@ =~= old(self)@.update(i as int, (old(self)@[i as int].0, rec_view)));
        }
    }

    /// The position of the first entry carrying `a`, for callers that
    /// must re-read or replace it.
    pub(crate) fn position(&self, a: &Address) -> (r: Option<usize>)
        ensures
            match r {
                Some(i) => i < self@.len() && self@[i as int].0 == a@ && lookup(self@, a@)
                    == Some(self@[i as int].1),
                None => lookup(self@, a@) is None,
            },
    {
        self.find_index(a)
    }

    /// Read the account at a known position.
    pub(crate) fn account_at(&self, i: usize) -> (r: &AccountRecord)
        requires
            i < self@.len(),
        ensures
            r@ == self@[i as int].1,
    {
        &self.entries[i].account
    }
}

} // verus!
