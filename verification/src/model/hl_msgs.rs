//! Order-book messages as the market-data feed delivers them.

use crate::utils::text::{digits_of, quoted, quoted_text, u64_to_text};
use vstd::prelude::*;
use vstd::string::StringExecFns;

verus! {

/// One price level of the feed: price and size in text, and the number of
/// orders resting there.
#[derive(Debug)]
pub struct PriceLevel {
    pub px: String,
    pub sz: String,
    pub n: u32,
}

impl Clone for PriceLevel {
    fn clone(&self) -> (r: Self)
        ensures
            r == *self,
    {
        PriceLevel { px: self.px.clone(), sz: self.sz.clone(), n: self.n }
    }
}

/// A snapshot of one symbol's book: `levels[0]` holds the bids and
/// `levels[1]` the asks, best first.
#[derive(Debug)]
pub struct OrderBookData {
    pub coin: String,
    pub time: u64,
    pub levels: Vec<Vec<PriceLevel>>,
}

#[derive(Debug)]
pub struct TobMsg {
    pub channel: String,
    pub data: OrderBookData,
}

/// A copy of a list of levels.
pub fn clone_levels(levels: &Vec<PriceLevel>) -> (r: Vec<PriceLevel>)
    ensures
        r@ == levels@,
{
    let mut out: Vec<PriceLevel> = Vec::new();
    let mut i: usize = 0;
    while i < levels.len()
        invariant
            i <= levels.len(),
            out@ == levels@.subrange(0, i as int),
        decreases levels.len() - i,
    {
        out.push(levels[i].clone());
        assert(out@ =~= levels@.subrange(0, i + 1));
        i = i + 1;
    }
    assert(out@ =~= levels@);
    out
}

impl Clone for OrderBookData {
    fn clone(&self) -> (r: Self)
        ensures
            r.coin == self.coin,
            r.time == self.time,
            r.levels@.len() == self.levels@.len(),
            forall|i: int| 0 <= i < self.levels@.len() ==> (#[trigger] r.levels@[i])@ == self.levels@[i]@,
    {
        let mut out: Vec<Vec<PriceLevel>> = Vec::new();
        let mut i: usize = 0;
        while i < self.levels.len()
            invariant
                i <= self.levels.len(),
                out@.len() == i,
                forall|j: int| 0 <= j < i ==> (#[trigger] out@[j])@ == self.levels@[j]@,
            decreases self.levels.len() - i,
        {
            out.push(clone_levels(&self.levels[i]));
            i = i + 1;
        }
        OrderBookData { coin: self.coin.clone(), time: self.time, levels: out }
    }
}

impl Clone for TobMsg {
    fn clone(&self) -> (r: Self)
        ensures
            r.channel == self.channel,
            r.data.coin == self.data.coin,
            r.data.time == self.data.time,
            r.data.spec_top_of_book() == self.data.spec_top_of_book(),
    {
        TobMsg { channel: self.channel.clone(), data: self.data.clone() }
    }
}

impl OrderBookData {
    /// The best bid and the best ask, where the snapshot holds both.
    pub open spec fn spec_top_of_book(&self) -> Option<(PriceLevel, PriceLevel)> {
        if self.levels@.len() >= 2 && self.levels@[0]@.len() >= 1 && self.levels@[1]@.len() >= 1 {
            Some((self.levels@[0]@[0], self.levels@[1]@[0]))
        } else {
            None
        }
    }

    /// The best bid and the best ask of the snapshot, where it has both.
    #[verifier::when_used_as_spec(spec_top_of_book)]
    pub fn top_of_book(&self) -> (r: Option<(PriceLevel, PriceLevel)>)
        ensures
            r == self.spec_top_of_book(),
    {
        if self.levels.len() < 2 {
            return None;
        }
        let bids = &self.levels[0];
        let asks = &self.levels[1];
        if bids.len() < 1 || asks.len() < 1 {
            return None;
        }
        Some((bids[0].clone(), asks[0].clone()))
    }

    /// The text that identifies a snapshot: its time in digits, then its
    /// top of book as it is written for debugging. Two snapshots with one
    /// time and one top of book share their identity, whatever their coin
    /// and their deeper levels.
    pub open spec fn spec_generate_id(&self) -> Seq<char> {
        digits_of(self.time as nat) + top_text(self.spec_top_of_book())
    }

    /// The identity of the snapshot: its time, then its top of book as it
    /// is written for debugging.
    pub fn generate_id(&self) -> (r: String)
        ensures
            r@ == self.spec_generate_id(),
    {
        let mut id = u64_to_text(self.time);
        match self.top_of_book() {
            Some((bid, ask)) => {
                id.append("Some((");
                append_level(&mut id, &bid);
                id.append(", ");
                append_level(&mut id, &ask);
                id.append("))");
                assert(id@ =~= digits_of(self.time as nat) + top_text(Some((bid, ask))));
            },
            None => {
                id.append("None");
            },
        }
        id
    }
}

/// A level as it is written for debugging: the name of its type, then its
/// fields by name between braces, the texts quoted.
pub open spec fn level_text(level: PriceLevel) -> Seq<char> {
    "PriceLevel { px: "@ + quoted_text(level.px@) + ", sz: "@ + quoted_text(level.sz@) + ", n: "@
        + digits_of(level.n as nat) + " }"@
}

/// A top of book as it is written for debugging: `None`, or the two
/// levels as a pair within `Some`.
pub open spec fn top_text(top: Option<(PriceLevel, PriceLevel)>) -> Seq<char> {
    match top {
        Some((bid, ask)) => "Some(("@ + level_text(bid) + ", "@ + level_text(ask) + "))"@,
        None => "None"@,
    }
}

fn append_level(id: &mut String, level: &PriceLevel)
    ensures
        final(id)@ == old(id)@ + level_text(*level),
{
    let px = quoted(level.px.as_str());
    let sz = quoted(level.sz.as_str());
    let count = u64_to_text(level.n as u64);
    id.append("PriceLevel { px: ");
    id.append(px.as_str());
    id.append(", sz: ");
    id.append(sz.as_str());
    id.append(", n: ");
    id.append(count.as_str());
    id.append(" }");
    assert(id@ =~= old(id)@ + level_text(*level));
}

} // verus!
