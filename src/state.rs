//! The persistent data of an auction and the primitive reads and writes on it.
use vstd::prelude::*;

use crate::commission::RATE_SCALE;
use crate::model::{credit, lemma_position, parties_unique, position, stored, AuctionState, Payout};

verus! {

/// Whether the auction still takes bids.
#[derive(Debug, Clone, Copy, PartialEq, Eq, Structural)]
pub enum BidStatus {
    Opened,
    Closed,
}

/// An amount of one denomination.
#[derive(Debug, Clone)]
pub struct Coin {
    pub denom: String,
    pub amount: u128,
}

impl View for Coin {
    type V = (Seq<char>, nat);

    open spec fn view(&self) -> (Seq<char>, nat) {
        (self.denom@, self.amount as nat)
    }
}

/// The coins attached to a call, as the model sees them.
pub open spec fn coins_view(funds: Seq<Coin>) -> Seq<(Seq<char>, nat)> {
    funds.map_values(|c: Coin| c@)
}

/// Who acts, and the coins they attach.
#[derive(Debug, Clone)]
pub struct MessageInfo {
    pub sender: String,
    pub funds: Vec<Coin>,
}

/// An instruction for the host to send `amount` of `denom` out of escrow to
/// `to_address`. The auction never moves funds itself.
#[derive(Debug, Clone)]
pub struct Transfer {
    pub to_address: String,
    pub denom: String,
    pub amount: u128,
}

impl Transfer {
    /// This transfer is `p` in the denomination `denom`.
    pub open spec fn pays(&self, p: Payout, denom: Seq<char>) -> bool {
        &&& self.to_address@ == p.recipient
        &&& self.amount == p.amount
        &&& self.denom@ == denom
    }
}

/// The settings fixed at creation; only `status` ever changes.
#[derive(Debug, Clone)]
pub struct Config {
    pub commodity: String,
    pub contract_owner: String,
    pub commission: u128,
    pub denom: String,
    pub status: BidStatus,
}

/// One auction: its settings, the current winner with its net total, and
/// every party's escrowed net total.
#[derive(Debug)]
pub struct Ledger {
    config: Config,
    winner: (String, u128),
    bids: Vec<(String, u128)>,
}

/// An entry of the ledger, as the model sees it.
pub open spec fn entry_view(e: (String, u128)) -> (Seq<char>, nat) {
    (e.0@, e.1 as nat)
}

/// The auction that a configuration, a winner and a list of entries describe.
pub open spec fn parts_view(config: Config, winner: (String, u128), bids: Seq<(String, u128)>) -> AuctionState {
    AuctionState {
        commodity: config.commodity@,
        owner: config.contract_owner@,
        rate: config.commission as nat,
        denom: config.denom@,
        closed: config.status == BidStatus::Closed,
        winner: winner.0@,
        winning_total: winner.1 as nat,
        bids: bids.map_values(|e: (String, u128)| entry_view(e)),
    }
}

impl View for Ledger {
    type V = AuctionState;

    closed spec fn view(&self) -> AuctionState {
        parts_view(self.config, self.winner, self.bids@)
    }
}

impl Ledger {
    /// A new ledger for `config`, in which the configured owner is the winner
    /// and holds `deposit`.
    pub(crate) fn new(config: Config, deposit: u128) -> (r: Ledger)
        requires
            config.status == BidStatus::Opened,
        ensures
            r@ == (AuctionState {
                commodity: config.commodity@,
                owner: config.contract_owner@,
                rate: config.commission as nat,
                denom: config.denom@,
                closed: false,
                winner: config.contract_owner@,
                winning_total: deposit as nat,
                bids: seq![(config.contract_owner@, deposit as nat)],
            }),
    {
        let owner = config.contract_owner.clone();
        let mut bids: Vec<(String, u128)> = Vec::new();
        bids.push((owner.clone(), deposit));
        let r = Ledger { config, winner: (owner, deposit), bids };
        assert(r@.bids =~= seq![(r.config.contract_owner@, deposit as nat)]);
        r
    }

    /// Rebuilds a ledger from its stored parts, provided they describe a
    /// consistent auction (see `AuctionState::wf`); `None` otherwise.
    pub fn restore(config: Config, winner: (String, u128), bids: Vec<(String, u128)>) -> (r: Option<
        Ledger,
    >)
        ensures
            r is Some <==> parts_view(config, winner, bids@).wf(),
            r matches Some(l) ==> l@ == parts_view(config, winner, bids@),
    {
        let l = Ledger { config, winner, bids };
        if l.config.commission > RATE_SCALE {
            return None;
        }
        if !l.has_unique_parties() {
            return None;
        }
        match l.find(&l.winner.0) {
            Some(i) => {
                assert(l@.bids[i as int] == entry_view(l.bids@[i as int]));
                if l.bids[i].1 != l.winner.1 {
                    return None;
                }
            },
            None => {
                return None;
            },
        }
        if !l.entries_at_most(l.winner.1) {
            return None;
        }
        Some(l)
    }

    /// Whether no party holds two entries.
    fn has_unique_parties(&self) -> (r: bool)
        ensures
            r == parties_unique(self@.bids),
    {
        let ghost all = self@.bids;
        let n = self.bids.len();
        assert(all.len() == n);
        let mut i: usize = 0;
        while i < n
            invariant
                i <= n,
                n == self.bids.len(),
                all == self@.bids,
                all.len() == n,
                forall|a: int, b: int| 0 <= a < b < i ==> all[a].0 != all[b].0,
            decreases n - i,
        {
            let mut j: usize = 0;
            while j < i
                invariant
                    j <= i < n,
                    n == self.bids.len(),
                    all == self@.bids,
                    all.len() == n,
                    forall|a: int, b: int| 0 <= a < b < i ==> all[a].0 != all[b].0,
                    forall|a: int| 0 <= a < j ==> all[a].0 != all[i as int].0,
                decreases i - j,
            {
                assert(all[j as int] == entry_view(self.bids@[j as int]));
                assert(all[i as int] == entry_view(self.bids@[i as int]));
                if self.bids[j].0 == self.bids[i].0 {
                    assert(all[j as int].0 == all[i as int].0);
                    return false;
                }
                j = j + 1;
            }
            i = i + 1;
        }
        true
    }

    /// Whether every entry is at most `bound`.
    fn entries_at_most(&self, bound: u128) -> (r: bool)
        ensures
            r == forall|i: int| 0 <= i < self@.bids.len() ==> self@.bids[i].1 <= bound,
    {
        let ghost all = self@.bids;
        let n = self.bids.len();
        assert(all.len() == n);
        let mut i: usize = 0;
        while i < n
            invariant
                i <= n,
                n == self.bids.len(),
                all == self@.bids,
                all.len() == n,
                forall|a: int| 0 <= a < i ==> all[a].1 <= bound,
            decreases n - i,
        {
            assert(all[i as int] == entry_view(self.bids@[i as int]));
            if self.bids[i].1 > bound {
                return false;
            }
            i = i + 1;
        }
        true
    }

    /// Every party's entry, for storing.
    pub fn entries(&self) -> (r: &Vec<(String, u128)>)
        ensures
            r@.map_values(|e: (String, u128)| entry_view(e)) == self@.bids,
    {
        &self.bids
    }

    /// The auction's settings.
    pub fn config(&self) -> (r: &Config)
        ensures
            r.commodity@ == self@.commodity,
            r.contract_owner@ == self@.owner,
            r.commission == self@.rate,
            r.denom@ == self@.denom,
            (r.status == BidStatus::Closed) == self@.closed,
    {
        &self.config
    }

    /// The current winner and its net total.
    pub fn winner(&self) -> (r: &(String, u128))
        ensures
            r.0@ == self@.winner,
            r.1 == self@.winning_total,
    {
        &self.winner
    }

    /// Where `party`'s entry stands, if it has one.
    fn find(&self, party: &String) -> (r: Option<usize>)
        ensures
            r matches Some(i) ==> i == position(self@.bids, party@) && i < self.bids.len(),
            r is None ==> position(self@.bids, party@) < 0,
            self@.bids.len() == self.bids.len(),
    {
        let ghost all = self@.bids;
        let mut i: usize = self.bids.len();
        assert(all.take(i as int) =~= all);
        proof {
            lemma_position(all, party@);
        }
        while i > 0
            invariant
                i <= self.bids.len(),
                all == self@.bids,
                all.len() == self.bids.len(),
                position(all, party@) == position(all.take(i as int), party@),
            decreases i,
        {
            assert(all.take(i as int).drop_last() =~= all.take(i - 1));
            assert(all[i - 1] == entry_view(self.bids@[i - 1]));
            if self.bids[i - 1].0 == *party {
                return Some(i - 1);
            }
            i = i - 1;
        }
        None
    }

    /// The net total escrowed by `party`; zero when it never bid.
    pub fn total_of(&self, party: &String) -> (r: u128)
        ensures
            r == stored(self@.bids, party@),
    {
        match self.find(party) {
            Some(i) => {
                assert(self@.bids[i as int] == entry_view(self.bids@[i as int]));
                self.bids[i].1
            },
            None => 0,
        }
    }

    /// Sets `party`'s escrowed total to `total`.
    fn set_total(&mut self, party: &String, total: u128)
        ensures
            final(self)@ == (AuctionState { bids: credit(old(self)@.bids, party@, total as nat), ..old(self)@ }),
    {
        let ghost before = self.bids@;
        match self.find(party) {
            Some(i) => {
                self.bids[i].1 = total;
                assert(self.bids@ == before.update(i as int, (before[i as int].0, total)));
            },
            None => {
                self.bids.push((party.clone(), total));
            },
        }
        proof {
            lemma_position(old(self)@.bids, party@);
        }
        assert(self@.bids =~= credit(old(self)@.bids, party@, total as nat));
    }

    /// Records `party` as the winner with `total`, which becomes its escrowed total.
    pub(crate) fn record_bid(&mut self, party: &String, total: u128)
        ensures
            final(self)@ == (AuctionState {
                winner: party@,
                winning_total: total as nat,
                bids: credit(old(self)@.bids, party@, total as nat),
                ..old(self)@
            }),
    {
        self.set_total(party, total);
        self.winner = (party.clone(), total);
    }

    /// Zeroes `party`'s escrowed total once it is paid out.
    pub(crate) fn clear_total(&mut self, party: &String)
        ensures
            final(self)@ == (AuctionState { bids: credit(old(self)@.bids, party@, 0), ..old(self)@ }),
    {
        self.set_total(party, 0);
    }

    /// Closes the auction for good.
    pub(crate) fn mark_closed(&mut self)
        ensures
            final(self)@ == (AuctionState { closed: true, ..old(self)@ }),
    {
        self.config.status = BidStatus::Closed;
    }
}

} // verus!
