//! The price updates an instruction was given, by feed, with the prices
//! already read from them.
use vstd::prelude::*;

use crate::errors::{BumpErrorCode, BumpResult};
use crate::pubkey::{key_eq, zero_key};
use crate::state::oracle::{
    get_oracle_price, price_usable, scaled_price_spec, OraclePriceData, PythPriceUpdate,
};

verus! {

/// The update of `feed` among the first `n`: the last one given, as a
/// later update of a feed replaces an earlier one.
pub open spec fn last_update(os: Seq<PythPriceUpdate>, feed: Seq<u8>, n: int) -> Option<
    PythPriceUpdate,
>
    decreases n,
{
    if n <= 0 || n > os.len() {
        None
    } else if os[n - 1].feed_id@ == feed {
        Some(os[n - 1])
    } else {
        last_update(os, feed, n - 1)
    }
}

/// The price of `feed` at time `now` given the updates `os`.
pub open spec fn oracle_price_spec(os: Seq<PythPriceUpdate>, feed: Seq<u8>, now: int) -> BumpResult<
    OraclePriceData,
> {
    match last_update(os, feed, os.len() as int) {
        None => Err(BumpErrorCode::OracleNotFound),
        Some(u) => if !price_usable(u, feed, now) {
            Err(BumpErrorCode::PythOffline)
        } else {
            scaled_price_spec(u.price as int, u.conf as int, u.exponent as int, 1)
        },
    }
}

/// Price updates by feed, read at one point in time, with the prices read
/// so far.
pub struct OracleMap {
    oracles: Vec<PythPriceUpdate>,
    price_data: Vec<([u8; 32], OraclePriceData)>,
    now: i64,
}

impl OracleMap {
    /// Every price kept is the price its feed gives.
    #[verifier::type_invariant]
    spec fn prices_agree(self) -> bool {
        forall|i: int|
            0 <= i < self.price_data@.len() ==> oracle_price_spec(
                self.oracles@,
                (#[trigger] self.price_data@[i]).0@,
                self.now as int,
            ) == Ok::<OraclePriceData, BumpErrorCode>(self.price_data@[i].1)
    }

    /// The updates, in the order given.
    pub closed spec fn updates(self) -> Seq<PythPriceUpdate> {
        self.oracles@
    }

    /// The time prices are read at.
    pub closed spec fn read_time(self) -> int {
        self.now as int
    }

    /// No updates.
    pub fn empty() -> (r: OracleMap)
        ensures
            r.updates() == Seq::<PythPriceUpdate>::empty(),
            r.read_time() == 0,
    {
        OracleMap { oracles: Vec::new(), price_data: Vec::new(), now: 0 }
    }

    /// The updates an instruction was given, read at time `now`.
    pub fn load(updates: Vec<PythPriceUpdate>, now: i64) -> (r: BumpResult<OracleMap>)
        ensures
            r matches Ok(m) && m.updates() == updates@ && m.read_time() == now,
    {
        Ok(OracleMap { oracles: updates, price_data: Vec::new(), now })
    }

    /// The feed has an update, or is the all-zero feed.
    pub fn contains(&self, feed: &[u8; 32]) -> (r: bool)
        ensures
            r == (last_update(self.updates(), feed@, self.updates().len() as int) is Some || feed@
                == zero_key()),
    {
        let found = self.find_update(feed).is_some();
        let mut zero = true;
        let mut i: usize = 0;
        while i < 32
            invariant
                i <= 32,
                feed@.len() == 32,
                zero == (forall|j: int| 0 <= j < i ==> feed@[j] == 0u8),
            decreases 32 - i,
        {
            if feed[i] != 0u8 {
                zero = false;
            }
            i = i + 1;
        }
        assert(zero == (feed@ == zero_key())) by {
            if zero {
                assert(feed@ =~= zero_key());
            }
        }
        found || zero
    }

    /// The last update of `feed`.
    fn find_update(&self, feed: &[u8; 32]) -> (r: Option<PythPriceUpdate>)
        ensures
            r == last_update(self.oracles@, feed@, self.oracles@.len() as int),
    {
        let mut n: usize = self.oracles.len();
        while n > 0
            invariant
                n <= self.oracles.len(),
                last_update(self.oracles@, feed@, self.oracles@.len() as int) == last_update(
                    self.oracles@,
                    feed@,
                    n as int,
                ),
            decreases n,
        {
            if key_eq(&self.oracles[n - 1].feed_id, feed) {
                return Some(self.oracles[n - 1]);
            }
            n = n - 1;
        }
        None
    }

    /// The price of `feed` (see `oracle_price_spec`); a price read once is
    /// kept and given again. The updates and the time do not change.
    pub fn get_price_data(&mut self, feed: &[u8; 32]) -> (r: BumpResult<OraclePriceData>)
        ensures
            r == oracle_price_spec(old(self).updates(), feed@, old(self).read_time()),
            final(self).updates() == old(self).updates(),
            final(self).read_time() == old(self).read_time(),
    {
        proof {
            use_type_invariant(&*self);
        }
        let mut i: usize = 0;
        while i < self.price_data.len()
            invariant
                i <= self.price_data.len(),
                forall|j: int|
                    0 <= j < self.price_data@.len() ==> oracle_price_spec(
                        self.oracles@,
                        (#[trigger] self.price_data@[j]).0@,
                        self.now as int,
                    ) == Ok::<OraclePriceData, BumpErrorCode>(self.price_data@[j].1),
            decreases self.price_data.len() - i,
        {
            if key_eq(&self.price_data[i].0, feed) {
                return Ok(self.price_data[i].1);
            }
            i = i + 1;
        }
        let update = match self.find_update(feed) {
            Some(u) => u,
            None => {
                return Err(BumpErrorCode::OracleNotFound);
            },
        };
        let price = get_oracle_price(feed, &update, self.now)?;
        let mut kept: Vec<([u8; 32], OraclePriceData)> = Vec::new();
        std::mem::swap(&mut kept, &mut self.price_data);
        kept.push((*feed, price));
        self.price_data = kept;
        Ok(price)
    }
}

} // verus!
