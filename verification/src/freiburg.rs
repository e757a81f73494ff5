//! The canteen menu: a day selector and a canteen selector over one
//! session, and what is shown for each pair of choices.

use vstd::pervasive::unreached;
use vstd::prelude::*;
use crate::cache::closed_down_notice;
use crate::cache::kept;
use crate::cache::must_fetch;
use crate::cache::DayPlan;
pub use crate::cache::MensaCache;
use crate::cache::Plan;
use crate::cache::Plans;
use crate::error::Error;
use crate::error::ErrorKind;
use crate::error::ErrorView;
use crate::layout::options_view;
use crate::layout::row_view;
use crate::layout::well_formed;
use crate::layout::Control;
use crate::layout::ControlView;
use crate::layout::Layout;
use crate::layout::RenderSpecView;
use crate::layout::Rows;
use crate::layout::SelectOption;
use crate::layout::SelectOptionView;
use crate::menu::Menu;
use crate::menu::Model;
pub use crate::place::from_id;
use crate::place::place_of_id;
use crate::place::places;
use crate::place::MensaPlace;
use crate::place::DEFAULT_PLACE;
use crate::weekday::named_weekday;
use crate::weekday::week;
use crate::weekday::Weekday;

verus! {

/// The identifier of the day selector.
pub const WEEKDAY_SELECT: &'static str = "weekday";

/// The identifier of the canteen selector.
pub const MENSA_SELECT: &'static str = "mensa";

/// What the message says before anything is chosen.
pub const PROMPT_BOTH: &'static str = "Select a Mensa and a day!";

/// What the message says once a day is chosen.
pub const PROMPT_MENSA: &'static str = "Select a Mensa!";

/// What stands in place of a plan on a day on which nothing is served.
pub const NO_PLAN_TODAY: &'static str = "no mensa today";

/// What one menu remembers between interactions.
pub struct MensaSession {
    /// The day chosen, if one is.
    pub day: Option<Weekday>,
    /// The canteen chosen, if one is.
    pub place: Option<MensaPlace>,
    /// The plans fetched so far.
    pub cache: MensaCache,
}

/// What is to happen after a choice.
#[derive(Clone, Copy, Debug, PartialEq, Eq, Structural, Hash)]
pub enum Reply {
    /// Leave the message as it is.
    Keep,
    /// Show the message anew from the session.
    Redraw,
    /// Fetch the plan of this canteen, hand it to [`plan_arrived`], then
    /// show the message anew.
    Fetch(MensaPlace),
}

/// The entry of the day selector for `day`.
pub open spec fn day_option(day: Weekday, selected: Option<Weekday>) -> SelectOptionView {
    SelectOptionView {
        label: day.full_name(),
        value: day.short_name(),
        default_selection: selected == Some(day),
    }
}

/// The entries of the day selector: every day of the week, the chosen one
/// marked.
pub open spec fn day_options(selected: Option<Weekday>) -> Seq<SelectOptionView> {
    Seq::new(week().len(), |i: int| day_option(week()[i], selected))
}

/// The entry of the canteen selector for `place`.
pub open spec fn mensa_option(place: MensaPlace, selected: Option<MensaPlace>) -> SelectOptionView {
    SelectOptionView {
        label: place.full_name(),
        value: place.id_text(),
        default_selection: selected == Some(place),
    }
}

/// Whether a canteen is on offer.
pub open spec fn on_offer() -> spec_fn(MensaPlace) -> bool {
    |place: MensaPlace| !place.closed_down()
}

/// The entries of a canteen selector over `among`: those on offer, the
/// chosen one marked.
pub open spec fn mensa_options_among(among: Seq<MensaPlace>, selected: Option<MensaPlace>) -> Seq<
    SelectOptionView,
> {
    let offered = among.filter(on_offer());
    Seq::new(offered.len(), |i: int| mensa_option(offered[i], selected))
}

/// The entries of the canteen selector.
pub open spec fn mensa_options(selected: Option<MensaPlace>) -> Seq<SelectOptionView> {
    mensa_options_among(places(), selected)
}

/// The canteens on offer are all but the one that is closed down, in their
/// order.
pub proof fn lemma_canteens_on_offer()
    ensures
        places().filter(on_offer()) == seq![
            MensaPlace::Rempartstrasse,
            MensaPlace::Institutsviertel,
            MensaPlace::Littenweiler,
        ],
        forall|selected: Option<MensaPlace>| #[trigger] mensa_options(selected).len() == 3,
{
    reveal_with_fuel(Seq::filter, 5);
    let three = seq![
        MensaPlace::Rempartstrasse,
        MensaPlace::Institutsviertel,
        MensaPlace::Littenweiler,
    ];
    let all = places();
    assert(all.drop_last() =~= three);
    assert(three.drop_last() =~= seq![MensaPlace::Rempartstrasse, MensaPlace::Institutsviertel]);
    assert(three.drop_last().drop_last() =~= seq![MensaPlace::Rempartstrasse]);
    assert(three.drop_last().drop_last().drop_last() =~= Seq::<MensaPlace>::empty());
    assert(all.filter(on_offer()) =~= three);
}

/// The controls of the menu: the day selector above the canteen selector.
pub open spec fn mensa_rows(day: Option<Weekday>, place: Option<MensaPlace>) -> Rows {
    seq![
        seq![
            ControlView {
                identifier: WEEKDAY_SELECT@,
                render: RenderSpecView::Select { options: day_options(day) },
            },
        ],
        seq![
            ControlView {
                identifier: MENSA_SELECT@,
                render: RenderSpecView::Select { options: mensa_options(place) },
            },
        ],
    ]
}

/// The day a use of the day selector names: the first value, or today where
/// there is none.
pub open spec fn picked_day(values: Seq<String>, today: Weekday) -> Option<Weekday> {
    if values.len() == 0 {
        Some(today)
    } else {
        named_weekday(values[0]@)
    }
}

/// The canteen a use of the canteen selector names: the first value, or the
/// default canteen where there is none.
pub open spec fn picked_place(values: Seq<String>) -> MensaPlace {
    if values.len() == 0 {
        DEFAULT_PLACE
    } else {
        place_of_id(values[0]@)
    }
}

/// What the user is told whose choice of a day cannot be read.
pub open spec fn unreadable_day_notice() -> ErrorView {
    ErrorView { kind: ErrorKind::Input, message: "the selected day is not a weekday"@ }
}

/// What is to happen once the choices are `day` and `place`; `otherwise`
/// where there is no plan to show yet.
pub open spec fn reply_for(
    day: Option<Weekday>,
    place: Option<MensaPlace>,
    plans: Plans,
    otherwise: Reply,
) -> Result<Reply, ErrorView> {
    match (day, place) {
        (Some(_), Some(p)) => if p.closed_down() {
            Err(closed_down_notice())
        } else if plans.contains_key(p) {
            Ok(Reply::Redraw)
        } else {
            Ok(Reply::Fetch(p))
        },
        _ => Ok(otherwise),
    }
}

/// Whether a handler's result is the reply, or is the failure, that was
/// called for.
pub open spec fn answers_with(result: Result<Reply, Error>, wanted: Result<Reply, ErrorView>) -> bool {
    match result {
        Ok(reply) => wanted == Ok::<Reply, ErrorView>(reply),
        Err(e) => wanted == Err::<Reply, ErrorView>(e@),
    }
}

/// The plan part of what is shown.
pub enum Shown {
    /// No plan: the choices are not complete.
    Nothing,
    /// The canteen serves nothing on the day chosen.
    NoPlanToday,
    /// What the canteen serves on the day chosen.
    Day(DayPlan),
}

/// What the message says above the plan.
pub open spec fn content_for(day: Option<Weekday>, place: Option<MensaPlace>) -> Seq<char> {
    match (day, place) {
        (Some(_), Some(_)) => ""@,
        (Some(_), None) => PROMPT_MENSA@,
        (None, _) => PROMPT_BOTH@,
    }
}

/// The plan part of what is shown for the choices, or `None` where both
/// choices are made and the plan is not at hand: nothing is shown for a pair
/// of choices before its plan has been fetched.
pub open spec fn shown_for(day: Option<Weekday>, place: Option<MensaPlace>, plans: Plans) -> Option<
    Shown,
> {
    match (day, place) {
        (Some(d), Some(p)) => if !p.closed_down() && plans.contains_key(p) {
            match plans[p].on(d) {
                Some(day_plan) => Some(Shown::Day(day_plan)),
                None => Some(Shown::NoPlanToday),
            }
        } else {
            None
        },
        _ => Some(Shown::Nothing),
    }
}

/// Once both choices are made, the message is shown anew only with the
/// plan of the canteen at hand: a handler either finds the plan kept, or
/// asks for exactly the fetch after which it is kept, or fails.
pub proof fn lemma_choices_are_shown_with_their_plan(
    day: Weekday,
    place: MensaPlace,
    plans: Plans,
    otherwise: Reply,
    fetched: Plan,
)
    ensures
        match reply_for(Some(day), Some(place), plans, otherwise) {
            Ok(Reply::Redraw) => shown_for(Some(day), Some(place), plans) is Some && shown_for(
                Some(day),
                Some(place),
                plans,
            ) != Some(Shown::Nothing),
            Ok(Reply::Fetch(p)) => p == place && must_fetch(plans, place) && shown_for(
                Some(day),
                Some(place),
                kept(plans, place, fetched),
            ) is Some,
            Ok(Reply::Keep) => false,
            Err(e) => place.closed_down() && e == closed_down_notice(),
        },
{
}

/// The plan part of a message.
#[derive(Debug, PartialEq, Eq)]
pub enum Body<'a> {
    /// No plan: the choices are not complete.
    Nothing,
    /// The placeholder for a day on which the canteen serves nothing.
    NoPlanToday,
    /// What the canteen serves on the day chosen.
    Day(&'a DayPlan),
}

impl<'a> Body<'a> {
    /// The plan part by value.
    pub open spec fn shown(self) -> Shown {
        match self {
            Body::Nothing => Shown::Nothing,
            Body::NoPlanToday => Shown::NoPlanToday,
            Body::Day(day_plan) => Shown::Day(*day_plan),
        }
    }
}

/// A message as it is to be shown.
#[derive(Debug, PartialEq, Eq)]
pub struct MensaView<'a> {
    /// The text of the message.
    pub content: &'static str,
    /// The plan part.
    pub body: Body<'a>,
    /// The controls.
    pub layout: Layout,
}

/// The entries of the day selector: every day of the week, the chosen one
/// marked.
pub fn create_day_options(selected: Option<Weekday>) -> (options: Vec<SelectOption>)
    ensures
        options_view(options@) == day_options(selected),
{
    let days = Weekday::all();
    let mut options: Vec<SelectOption> = Vec::new();
    let mut i: usize = 0;
    while i < days.len()
        invariant
            i <= days.len(),
            days@ == week(),
            options@.len() == i,
            forall|k: int| 0 <= k < i ==> (#[trigger] options@[k])@ == day_option(week()[k], selected),
        decreases days.len() - i,
    {
        let day = days[i];
        let chosen = match selected {
            Some(s) => s == day,
            None => false,
        };
        options.push(
            SelectOption {
                label: day.label().to_owned(),
                value: day.code(),
                default_selection: chosen,
            },
        );
        i += 1;
    }
    assert(options_view(options@) =~= day_options(selected));
    options
}

/// The entries of the canteen selector: every canteen on offer, the chosen
/// one marked.
pub fn create_mensa_options(selected: Option<MensaPlace>) -> (options: Vec<SelectOption>)
    ensures
        options_view(options@) == mensa_options(selected),
{
    let all = MensaPlace::all();
    let mut options: Vec<SelectOption> = Vec::new();
    let mut i: usize = 0;
    assert(all@.take(0).filter(on_offer()) =~= Seq::<MensaPlace>::empty()) by {
        reveal(Seq::filter);
    }
    while i < all.len()
        invariant
            i <= all.len(),
            all@ == places(),
            options_view(options@) =~= mensa_options_among(all@.take(i as int), selected),
        decreases all.len() - i,
    {
        let place = all[i];
        let ghost before = all@.take(i as int);
        let ghost upto = all@.take(i + 1);
        let ghost held = options@;
        proof {
            reveal(Seq::filter);
            assert(upto.drop_last() =~= before);
            assert(upto.last() == place);
            assert(upto.filter(on_offer()) == if on_offer()(place) {
                before.filter(on_offer()).push(place)
            } else {
                before.filter(on_offer())
            });
        }
        if !place.is_closed_down() {
            let chosen = match selected {
                Some(s) => s == place,
                None => false,
            };
            options.push(
                SelectOption {
                    label: place.label().to_owned(),
                    value: place.id().to_owned(),
                    default_selection: chosen,
                },
            );
            assert(options_view(options@) =~= options_view(held).push(
                mensa_option(place, selected),
            ));
        }
        i += 1;
    }
    assert(all@.take(all.len() as int) =~= all@);
    options
}

/// The controls of the menu for the choices made so far.
pub fn mensa_layout(day: Option<Weekday>, place: Option<MensaPlace>) -> (layout: Layout)
    ensures
        layout@ == mensa_rows(day, place),
        well_formed(layout@),
{
    let mut first: Vec<Control> = Vec::new();
    first.push(Control::select(WEEKDAY_SELECT, create_day_options(day)));
    let mut second: Vec<Control> = Vec::new();
    second.push(Control::select(MENSA_SELECT, create_mensa_options(place)));
    let ghost rows = mensa_rows(day, place);
    proof {
        reveal_strlit("weekday");
        reveal_strlit("mensa");
        assert(WEEKDAY_SELECT@.len() != MENSA_SELECT@.len());
        assert(row_view(first@) =~= rows[0]);
        assert(row_view(second@) =~= rows[1]);
        assert(Seq::<Seq<ControlView>>::empty().push(rows[0]).push(rows[1]) =~= rows);
        assert(well_formed(rows));
        assert(well_formed(Seq::<Seq<ControlView>>::empty().push(rows[0]))) by {
            let one = Seq::<Seq<ControlView>>::empty().push(rows[0]);
            assert(one.len() == 1);
            assert(one[0].len() == 1);
        }
    }
    match Layout::new().add_row(first) {
        Ok(layout) => match layout.add_row(second) {
            Ok(layout) => layout,
            Err(_) => unreached(),
        },
        Err(_) => unreached(),
    }
}

impl MensaSession {
    /// A session with the choices given and no plan fetched.
    pub fn new(day: Option<Weekday>, place: Option<MensaPlace>, mensa_token: &str) -> (session:
        MensaSession)
        ensures
            session.day == day,
            session.place == place,
            session.cache.plans() == Map::<MensaPlace, Plan>::empty(),
            session.cache.token() == mensa_token@,
    {
        MensaSession { day, place, cache: MensaCache::new(mensa_token) }
    }

    /// The message for the session as it stands: the same session always
    /// gives the same message. `None` where both choices are made and the
    /// plan of the canteen has not been fetched.
    pub fn view(&self) -> (view: Option<MensaView<'_>>)
        ensures
            match view {
                None => shown_for(self.day, self.place, self.cache.plans()) is None,
                Some(v) => shown_for(self.day, self.place, self.cache.plans()) == Some(
                    v.body.shown(),
                ) && v.content@ == content_for(self.day, self.place) && v.layout@ == mensa_rows(
                    self.day,
                    self.place,
                ),
            },
    {
        let layout = mensa_layout(self.day, self.place);
        match (self.day, self.place) {
            (Some(day), Some(place)) => match self.cache.mensa_plan(&place) {
                Ok(Some(plan)) => {
                    let body = match plan.day(day) {
                        Some(day_plan) => Body::Day(day_plan),
                        None => Body::NoPlanToday,
                    };
                    Some(MensaView { content: "", body, layout })
                },
                _ => None,
            },
            (Some(_), None) => Some(MensaView { content: PROMPT_MENSA, body: Body::Nothing, layout }),
            (None, _) => Some(MensaView { content: PROMPT_BOTH, body: Body::Nothing, layout }),
        }
    }

    /// What is to happen for the choices as they stand.
    fn reply(&self, otherwise: Reply) -> (result: Result<Reply, Error>)
        ensures
            answers_with(
                result,
                reply_for(self.day, self.place, self.cache.plans(), otherwise),
            ),
    {
        match (self.day, self.place) {
            (Some(_), Some(place)) => match self.cache.mensa_plan(&place) {
                Err(e) => Err(e),
                Ok(Some(_)) => Ok(Reply::Redraw),
                Ok(None) => Ok(Reply::Fetch(place)),
            },
            _ => Ok(otherwise),
        }
    }
}

/// The handler of the day selector. A value that names no day is turned down
/// and leaves the session as it was. Otherwise the day is taken, and the
/// message is to be shown anew: with the plan, once a canteen is chosen too.
pub fn select_weekday(session: &mut MensaSession, values: &Vec<String>, today: Weekday) -> (result:
    Result<Reply, Error>)
    ensures
        final(session).place == old(session).place,
        final(session).cache == old(session).cache,
        match picked_day(values@, today) {
            None => final(session).day == old(session).day && (result matches Err(e) && e@
                == unreadable_day_notice()),
            Some(day) => final(session).day == Some(day) && answers_with(
                result,
                reply_for(Some(day), old(session).place, old(session).cache.plans(), Reply::Redraw),
            ),
        },
{
    let day = if values.len() == 0 {
        today
    } else {
        match Weekday::parse(values[0].as_str()) {
            Some(day) => day,
            None => {
                return Err(Error::input("the selected day is not a weekday"));
            },
        }
    };
    session.day = Some(day);
    session.reply(Reply::Redraw)
}

/// The handler of the canteen selector. The canteen is taken; while no day
/// is chosen nothing else happens, and nothing is fetched.
pub fn select_mensa(session: &mut MensaSession, values: &Vec<String>) -> (result: Result<
    Reply,
    Error,
>)
    ensures
        final(session).day == old(session).day,
        final(session).cache == old(session).cache,
        final(session).place == Some(picked_place(values@)),
        answers_with(
            result,
            reply_for(
                old(session).day,
                Some(picked_place(values@)),
                old(session).cache.plans(),
                Reply::Keep,
            ),
        ),
{
    let place = if values.len() == 0 {
        DEFAULT_PLACE
    } else {
        from_id(values[0].as_str())
    };
    session.place = Some(place);
    session.reply(Reply::Keep)
}

/// Takes in what came of the fetch that a handler asked for. A plan is kept
/// and the message is to be shown anew; a failure is passed on and changes
/// nothing.
pub fn plan_arrived(session: &mut MensaSession, place: MensaPlace, fetched: Result<Plan, String>) -> (result:
    Result<Reply, Error>)
    ensures
        final(session).day == old(session).day,
        final(session).place == old(session).place,
        final(session).cache.token() == old(session).cache.token(),
        match result {
            Ok(reply) => reply == Reply::Redraw && !place.closed_down() && fetched is Ok
                && final(session).cache.plans() == kept(
                old(session).cache.plans(),
                place,
                fetched->Ok_0,
            ),
            Err(e) => final(session).cache.plans() == old(session).cache.plans() && (
            if place.closed_down() {
                e@ == closed_down_notice()
            } else {
                fetched is Err && e@ == (ErrorView {
                    kind: ErrorKind::Upstream,
                    message: fetched->Err_0@,
                })
            }),
        },
{
    match session.cache.keep(&place, fetched) {
        Ok(_) => Ok(Reply::Redraw),
        Err(e) => Err(e),
    }
}

/// What the user is told where no token for the provider is configured.
pub open spec fn missing_token_notice() -> ErrorView {
    ErrorView { kind: ErrorKind::Input, message: "no mensa swfr token in config"@ }
}

/// The canteen menu as the command starts it: today chosen, no canteen
/// yet, and nothing fetched. Without a token for the provider there is no
/// menu.
pub fn mensa(token: Option<String>, today: Weekday, idle_window: u64) -> (result: Result<
    Menu<MensaSession>,
    Error,
>)
    ensures
        match result {
            Err(e) => token is None && e@ == missing_token_notice(),
            Ok(menu) => token is Some && menu.model() == Model::initial(
                mensa_rows(Some(today), None),
                idle_window,
            ) && menu.session().day == Some(today) && menu.session().place == None::<MensaPlace>
                && menu.session().cache.plans() == Map::<MensaPlace, Plan>::empty()
                && menu.session().cache.token() == token->Some_0@,
        },
{
    match token {
        None => Err(Error::input("no mensa swfr token in config")),
        Some(token) => {
            let session = MensaSession::new(Some(today), None, token.as_str());
            Ok(Menu::new(session, mensa_layout(Some(today), None), idle_window))
        },
    }
}

} // verus!
