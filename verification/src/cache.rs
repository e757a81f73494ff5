//! Meal plans and the per-menu cache that keeps each canteen's plan once it
//! has been fetched.

use std::collections::HashMap;
use vstd::prelude::*;
use vstd::std_specs::hash::group_hash_axioms;
use crate::error::Error;
use crate::error::ErrorKind;
use crate::error::ErrorView;
use crate::place::lemma_number_tells_apart;
use crate::place::MensaPlace;
use crate::weekday::Weekday;

verus! {

/// One dish on offer.
#[derive(Debug, PartialEq, Eq)]
pub struct Dish {
    /// The line of the counter, such as "Essen 1".
    pub title: String,
    /// What is served.
    pub description: String,
}

/// What a canteen serves on one day.
#[derive(Debug, PartialEq, Eq)]
pub struct DayPlan {
    pub weekday: Weekday,
    pub dishes: Vec<Dish>,
}

/// What a canteen serves over the days the provider knows of.
#[derive(Debug, PartialEq, Eq)]
pub struct Plan {
    pub days: Vec<DayPlan>,
}

impl Plan {
    /// Whether the entry at `index` is the first one for `weekday`.
    pub open spec fn first_on(self, weekday: Weekday, index: int) -> bool {
        &&& 0 <= index < self.days@.len()
        &&& self.days@[index].weekday == weekday
        &&& forall|j: int| 0 <= j < index ==> self.days@[j].weekday != weekday
    }

    /// The first entry for `weekday`, if the plan has one.
    pub open spec fn on(self, weekday: Weekday) -> Option<DayPlan> {
        if exists|index: int| self.first_on(weekday, index) {
            Some(self.days@[choose|index: int| self.first_on(weekday, index)])
        } else {
            None
        }
    }

    /// The first entry for `weekday`, if the plan has one.
    pub fn day(&self, weekday: Weekday) -> (day: Option<&DayPlan>)
        ensures
            match day {
                Some(d) => self.on(weekday) == Some(*d),
                None => self.on(weekday) is None,
            },
    {
        let mut i: usize = 0;
        while i < self.days.len()
            invariant
                i <= self.days.len(),
                forall|j: int| 0 <= j < i ==> self.days@[j].weekday != weekday,
            decreases self.days.len() - i,
        {
            if self.days[i].weekday == weekday {
                proof {
                    assert(self.first_on(weekday, i as int));
                    let k = choose|index: int| self.first_on(weekday, index);
                    assert(k == i) by {
                        if k < i {
                            assert(self.days@[k].weekday != weekday);
                        }
                        if i < k {
                            assert(self.days@[i as int].weekday != weekday);
                        }
                    }
                }
                return Some(&self.days[i]);
            }
            i += 1;
        }
        None
    }
}

/// The plans kept so far, by canteen.
pub type Plans = Map<MensaPlace, Plan>;

/// Whether the plan of `place` has to be fetched before it can be shown.
pub open spec fn must_fetch(plans: Plans, place: MensaPlace) -> bool {
    !place.closed_down() && !plans.contains_key(place)
}

/// The plans after `plan` came in for `place`: the first plan that came
/// in for a canteen is the one that stays.
pub open spec fn kept(plans: Plans, place: MensaPlace, plan: Plan) -> Plans {
    if must_fetch(plans, place) {
        plans.insert(place, plan)
    } else {
        plans
    }
}

/// What the user is told who asks for a canteen that is closed down.
pub open spec fn closed_down_notice() -> ErrorView {
    ErrorView {
        kind: ErrorKind::Input,
        message: "the flugplatz mensa is currently under construction"@,
    }
}

/// The plans fetched during one menu's life, and the token with which they
/// are asked for.
pub struct MensaCache {
    mensa_token: String,
    cache_map: HashMap<u16, Plan>,
}

impl MensaCache {
    /// The plans kept so far.
    pub closed spec fn plans(&self) -> Plans {
        Map::new(
            |place: MensaPlace| self.cache_map@.contains_key(place.number()),
            |place: MensaPlace| self.cache_map@[place.number()],
        )
    }

    /// The token with which the provider is asked.
    pub closed spec fn token(&self) -> Seq<char> {
        self.mensa_token@
    }

    /// A cache without plans.
    pub fn new(mensa_token: &str) -> (cache: MensaCache)
        ensures
            cache.plans() == Map::<MensaPlace, Plan>::empty(),
            cache.token() == mensa_token@,
    {
        let cache = MensaCache { mensa_token: mensa_token.to_owned(), cache_map: HashMap::new() };
        assert(cache.plans() =~= Map::<MensaPlace, Plan>::empty());
        cache
    }

    /// The token with which the provider is asked.
    pub fn mensa_token(&self) -> (token: &str)
        ensures
            token@ == self.token(),
    {
        self.mensa_token.as_str()
    }

    /// The plan of `place`, as far as it can be had without asking the
    /// provider: `Ok(None)` says that it has to be fetched and handed to
    /// [`MensaCache::keep`]. A canteen that is closed down is turned down
    /// whatever the cache holds.
    pub fn mensa_plan(&self, place: &MensaPlace) -> (result: Result<Option<&Plan>, Error>)
        ensures
            match result {
                Err(e) => place.closed_down() && e@ == closed_down_notice(),
                Ok(None) => must_fetch(self.plans(), *place),
                Ok(Some(plan)) => !place.closed_down() && self.plans().contains_key(*place)
                    && self.plans()[*place] == *plan,
            },
    {
        broadcast use group_hash_axioms;

        if place.is_closed_down() {
            return Err(Error::input("the flugplatz mensa is currently under construction"));
        }
        let key = place.code();
        Ok(self.cache_map.get(&key))
    }

    /// Takes in what came of fetching the plan of `place`, and hands out the
    /// plan that the cache holds for it from then on. A plan that the cache
    /// already holds stays; a failed fetch leaves the cache as it was and is
    /// passed on as a failure of the provider.
    pub fn keep(&mut self, place: &MensaPlace, fetched: Result<Plan, String>) -> (result: Result<
        &Plan,
        Error,
    >)
        ensures
            final(self).token() == old(self).token(),
            match result {
                Ok(plan) => !place.closed_down() && fetched is Ok && final(self).plans() == kept(
                    old(self).plans(),
                    *place,
                    fetched->Ok_0,
                ) && final(self).plans().contains_key(*place) && final(self).plans()[*place]
                    == *plan,
                Err(e) => final(self).plans() == old(self).plans() && (if place.closed_down() {
                    e@ == closed_down_notice()
                } else {
                    fetched is Err && e@ == (ErrorView {
                        kind: ErrorKind::Upstream,
                        message: fetched->Err_0@,
                    })
                }),
            },
    {
        broadcast use group_hash_axioms;

        if place.is_closed_down() {
            return Err(Error::input("the flugplatz mensa is currently under construction"));
        }
        match fetched {
            Err(message) => Err(Error { kind: ErrorKind::Upstream, message }),
            Ok(plan) => {
                let key = place.code();
                let stored: &Plan = self.cache_map.entry(key).or_insert(plan);
                proof {
                    assert forall|other: MensaPlace| other.number() == key implies other
                        == *place by {
                        lemma_number_tells_apart(other, *place);
                    }
                }
                Ok(stored)
            },
        }
    }
}

/// Requests in the order in which a menu makes them: the canteen asked for,
/// and the plan the provider delivers if it is asked.
pub type Requests = Seq<(MensaPlace, Plan)>;

/// The plans kept after a run of requests.
pub open spec fn plans_after(plans: Plans, requests: Requests) -> Plans
    decreases requests.len(),
{
    if requests.len() == 0 {
        plans
    } else {
        kept(plans_after(plans, requests.drop_last()), requests.last().0, requests.last().1)
    }
}

/// How often the provider is asked for the plan of `place` in a run of
/// requests.
pub open spec fn fetches(plans: Plans, requests: Requests, place: MensaPlace) -> nat
    decreases requests.len(),
{
    if requests.len() == 0 {
        0
    } else {
        fetches(plans, requests.drop_last(), place) + if requests.last().0 == place && must_fetch(
            plans_after(plans, requests.drop_last()),
            place,
        ) {
            1nat
        } else {
            0nat
        }
    }
}

/// Whether some request of the run asks for `place`.
pub open spec fn asked_for(requests: Requests, place: MensaPlace) -> bool {
    exists|k: int| 0 <= k < requests.len() && requests[k].0 == place
}

/// A plan that has come in is not fetched again.
pub proof fn lemma_kept_plan_is_not_fetched_again(plans: Plans, place: MensaPlace, plan: Plan)
    ensures
        !must_fetch(kept(plans, place, plan), place),
{
}

/// However often a canteen is asked for, and whatever is asked for in
/// between, its plan is fetched once if the cache did not hold it and the
/// canteen is not closed down, and never otherwise.
pub proof fn lemma_one_fetch_per_place(plans: Plans, requests: Requests, place: MensaPlace)
    ensures
        fetches(plans, requests, place) == (if must_fetch(plans, place) && asked_for(
            requests,
            place,
        ) {
            1nat
        } else {
            0nat
        }),
        plans_after(plans, requests).contains_key(place) <==> plans.contains_key(place) || (
        must_fetch(plans, place) && asked_for(requests, place)),
    decreases requests.len(),
{
    if requests.len() > 0 {
        let front = requests.drop_last();
        let last = requests.len() - 1;
        lemma_one_fetch_per_place(plans, front, place);
        assert(requests[last] == requests.last());
        if asked_for(front, place) {
            let k = choose|k: int| 0 <= k < front.len() && front[k].0 == place;
            assert(requests[k].0 == place);
        }
        if asked_for(requests, place) && !asked_for(front, place) {
            let k = choose|k: int| 0 <= k < requests.len() && requests[k].0 == place;
            if k < front.len() {
                assert(front[k].0 == place);
            }
        }
    }
}

/// A canteen that is closed down is never fetched and never kept.
pub proof fn lemma_closed_down_is_never_fetched(plans: Plans, requests: Requests)
    requires
        !plans.contains_key(MensaPlace::Flugplatz),
    ensures
        fetches(plans, requests, MensaPlace::Flugplatz) == 0,
        !plans_after(plans, requests).contains_key(MensaPlace::Flugplatz),
{
    lemma_one_fetch_per_place(plans, requests, MensaPlace::Flugplatz);
}

} // verus!
