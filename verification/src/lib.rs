//! Weather lookup for a launcher: a query that starts with the configured
//! trigger is answered with the current conditions at a fixed or a looked-up
//! place, rendered as one entry to show.
//!
//! The crate holds the decisions and the text: it says which request to make
//! next and what to show for each answer; the caller performs the requests.

pub mod catalog;
pub mod client;
pub mod config;
pub mod decimal;
pub mod format;
pub mod location;
pub mod text;
pub mod weather;

use crate::catalog::Catalog;
use crate::client::{
    classify, outcome_of, request_url, request_url_text, FetchReply, OutcomeView, WeatherOutcome,
};
use crate::config::Config;
use crate::decimal::{int_text, push_int};
use crate::format::{entry_for, error_icon, Entry, EntryView};
use crate::location::{resolve, resolved, GeoLocation};
use crate::text::{strip_trigger, triggers};
use crate::weather::WeatherUnits;
use vstd::prelude::*;
use vstd::string::*;

verus! {

/// How far the query in hand has come. Matching a query against the trigger
/// and presenting its entries take no waiting, so a query is never left in
/// either: they are part of the steps that lead here.
#[derive(Clone, Copy, Debug, PartialEq, Eq, Structural)]
pub enum Phase {
    /// No query is in hand.
    Idle,
    /// The place is being looked up by network address.
    Resolving,
    /// The weather service has been asked.
    Fetching,
}

/// What the caller does next for the query in hand.
#[derive(Debug)]
pub enum Action {
    /// Show these entries: the query is done.
    Present(Vec<Entry>),
    /// Look the place up by network address and report what came of it.
    Locate,
    /// Ask the weather service at this address and report its reply.
    Fetch(String),
}

/// An action as plain values.
pub enum ActionView {
    Present(Seq<EntryView>),
    Locate,
    Fetch(Seq<char>),
}

impl View for Action {
    type V = ActionView;

    open spec fn view(&self) -> ActionView {
        match self {
            Action::Present(entries) => ActionView::Present(
                Seq::new(entries@.len(), |i: int| entries@[i]@),
            ),
            Action::Locate => ActionView::Locate,
            Action::Fetch(url) => ActionView::Fetch(url@),
        }
    }
}

/// The settings if they can be used, nothing otherwise.
pub open spec fn usable(config: Option<Config>) -> Option<Config> {
    match config {
        Some(settings) => if settings.wf() {
            Some(settings)
        } else {
            None
        },
        None => None,
    }
}

/// The language that is spoken: the one found, or American English where
/// none was.
pub open spec fn locale_text(found: Option<String>) -> Seq<char> {
    match found {
        Some(tag) => tag@,
        None => "en-US"@,
    }
}

/// The page that tells more of the place that the weather service knows
/// under the number `city_id`.
pub open spec fn details_url_text(city_id: i32) -> Seq<char> {
    "https://openweathermap.org/city/"@ + int_text(city_id as int)
}

/// The entry that is shown while there are no usable settings.
pub open spec fn config_error_entry(catalog: Map<Seq<char>, Seq<char>>) -> EntryView {
    entry_for(OutcomeView::ConfigUnavailable, WeatherUnits::Metric, catalog)
}

/// What is kept between queries, as plain values.
pub struct StateView {
    /// The settings; `None` where none could be loaded.
    pub config: Option<Config>,
    /// The number of the place that the last successful query told of.
    pub city_id: Option<i32>,
    /// The language that is spoken, as a language tag.
    pub lang: Seq<char>,
    pub phase: Phase,
}

/// A state after a step, and what the caller is to do for it.
pub struct Step {
    pub next: StateView,
    pub action: ActionView,
}

impl StateView {
    /// Settings that are held can be used, and a query is only under way
    /// where there are settings.
    pub open spec fn wf(self) -> bool {
        &&& self.config is Some ==> self.config.unwrap().wf()
        &&& self.phase != Phase::Idle ==> self.config is Some
    }

    /// The trigger in force: that of the settings, or `wttr` without
    /// settings.
    pub open spec fn trigger(self) -> Seq<char> {
        match self.config {
            Some(settings) => settings.prefix@,
            None => "wttr"@,
        }
    }

    /// The address that the weather at `place` is asked from under the
    /// settings.
    pub open spec fn url_for(self, place: GeoLocation) -> Seq<char>
        recommends
            self.config is Some,
    {
        request_url_text(
            place,
            self.config.unwrap().openweatherapi_key@,
            self.config.unwrap().units,
            self.lang,
        )
    }

    /// The step that a query starts with. Text that does not begin with the
    /// trigger is not for this component: nothing is shown and nothing
    /// changes. Without settings the one entry that says so is shown. With
    /// settings the place is looked up where they ask for it, and the
    /// weather at the fixed place is asked for where they do not.
    pub open spec fn on_query(self, text: Seq<char>, catalog: Map<Seq<char>, Seq<char>>) -> Step {
        if !triggers(text, self.trigger()) {
            Step { next: self, action: ActionView::Present(Seq::empty()) }
        } else {
            match self.config {
                None => Step {
                    next: self,
                    action: ActionView::Present(seq![config_error_entry(catalog)]),
                },
                Some(settings) => if settings.use_ip_location {
                    Step {
                        next: StateView { phase: Phase::Resolving, ..self },
                        action: ActionView::Locate,
                    }
                } else {
                    Step {
                        next: StateView { phase: Phase::Fetching, ..self },
                        action: ActionView::Fetch(self.url_for(settings.weather_location)),
                    }
                },
            }
        }
    }

    /// The step after the lookup of the place: the weather is asked for at
    /// the place that the lookup resolves to.
    pub open spec fn on_location(self, lookup: Option<GeoLocation>) -> Step
        recommends
            self.config is Some,
    {
        Step {
            next: StateView { phase: Phase::Fetching, ..self },
            action: ActionView::Fetch(self.url_for(resolved(self.config.unwrap(), lookup))),
        }
    }

    /// The step after the weather service's reply: the one entry for its
    /// outcome is shown, and a report's place is kept.
    pub open spec fn on_reply(self, reply: FetchReply, catalog: Map<Seq<char>, Seq<char>>) -> Step
        recommends
            self.config is Some,
    {
        let outcome = outcome_of(reply);
        Step {
            next: StateView {
                phase: Phase::Idle,
                city_id: match outcome {
                    OutcomeView::Success(snapshot) => Some(snapshot.id),
                    _ => self.city_id,
                },
                ..self
            },
            action: ActionView::Present(
                seq![entry_for(outcome, self.config.unwrap().units, catalog)],
            ),
        }
    }

    /// A whole query, from its text to what is shown: the steps in turn,
    /// where `lookup` is what a lookup of the place gives and `reply` what
    /// the weather service answers, should they be asked.
    pub open spec fn run(
        self,
        text: Seq<char>,
        lookup: Option<GeoLocation>,
        reply: FetchReply,
        catalog: Map<Seq<char>, Seq<char>>,
    ) -> Step {
        let first = self.on_query(text, catalog);
        match first.action {
            ActionView::Present(_) => first,
            ActionView::Locate => first.next.on_location(lookup).next.on_reply(reply, catalog),
            ActionView::Fetch(_) => first.next.on_reply(reply, catalog),
        }
    }
}

/// What is kept between queries: the settings, the place that the last
/// report told of, the language, and how far the query in hand has come.
#[derive(Debug)]
pub struct State {
    config: Option<Config>,
    city_id: Option<i32>,
    lang: String,
    phase: Phase,
}

impl View for State {
    type V = StateView;

    closed spec fn view(&self) -> StateView {
        StateView {
            config: self.config,
            city_id: self.city_id,
            lang: self.lang@,
            phase: self.phase,
        }
    }
}

/// `sys_locale::get_locale`: the language that the system prefers, if it
/// tells. Nothing is known of the answer beforehand.
#[verifier::external_body]
fn system_locale() -> (found: Option<String>) {
    sys_locale::get_locale()
}

/// What the launcher lists the component under.
#[derive(Debug)]
pub struct PluginInfo {
    pub name: String,
    /// The name of an icon of the icon theme.
    pub icon: String,
}

/// Tells the launcher the component's name and icon.
pub fn info() -> (about: PluginInfo)
    ensures
        about.name@ == "Weather"@,
        about.icon@ == "weather"@,
{
    PluginInfo { name: String::from_str("Weather"), icon: String::from_str("weather") }
}

/// What the caller does once an entry was picked.
#[derive(Debug)]
pub struct SideEffect {
    /// The page to open.
    pub open_url: String,
    /// Whether the launcher closes afterwards.
    pub close_session: bool,
}

/// Starts up with the settings that were loaded, if any were, and with the
/// language that the system prefers. Settings that cannot be used count as
/// none.
pub fn init(config: Option<Config>) -> (state: State)
    ensures
        state@.wf(),
        state@.config == usable(config),
        state@.city_id is None,
        state@.phase == Phase::Idle,
{
    State::new(config, system_locale())
}

impl State {
    #[verifier::type_invariant]
    spec fn inv(self) -> bool {
        self@.wf()
    }

    /// Starts up with the settings that were loaded, if any were, and with
    /// the language that was found, if one was. Settings that cannot be used
    /// count as none.
    pub fn new(config: Option<Config>, found_locale: Option<String>) -> (state: State)
        ensures
            state@.wf(),
            state@ == (StateView {
                config: usable(config),
                city_id: None,
                lang: locale_text(found_locale),
                phase: Phase::Idle,
            }),
    {
        let lang = match found_locale {
            Some(tag) => tag,
            None => String::from_str("en-US"),
        };
        let config = match config {
            Some(settings) => if settings.is_valid() {
                Some(settings)
            } else {
                None
            },
            None => None,
        };
        State { config, city_id: None, lang, phase: Phase::Idle }
    }

    /// How far the query in hand has come.
    pub fn phase(&self) -> (phase: Phase)
        ensures
            phase == self@.phase,
    {
        self.phase
    }

    /// The number of the place that the last successful query told of.
    pub fn city_id(&self) -> (city_id: Option<i32>)
        ensures
            city_id == self@.city_id,
    {
        self.city_id
    }

    /// The language that is spoken, as a language tag.
    pub fn lang(&self) -> (lang: &str)
        ensures
            lang@ == self@.lang,
    {
        self.lang.as_str()
    }

    /// Whether there are settings.
    pub fn has_config(&self) -> (held: bool)
        ensures
            held == self@.config is Some,
    {
        self.config.is_some()
    }

    /// The trigger in force.
    pub fn trigger(&self) -> (prefix: &str)
        ensures
            prefix@ == self@.trigger(),
    {
        match &self.config {
            Some(settings) => settings.prefix.as_str(),
            None => "wttr",
        }
    }

    /// Takes a query. The caller shows what a `Present` holds; for any other
    /// action it does what the action says and reports the result, to
    /// `handle_location` after `Locate` and to `handle_reply` after `Fetch`.
    ///
    /// Text that does not begin with the trigger gives an empty list, with
    /// or without settings. Text that does, without settings, gives the one
    /// entry that says so.
    pub fn handle_query(&mut self, text: &str, catalog: &Catalog) -> (action: Action)
        requires
            old(self)@.phase == Phase::Idle,
        ensures
            final(self)@ == old(self)@.on_query(text@, catalog@).next,
            action@ == old(self)@.on_query(text@, catalog@).action,
            !triggers(text@, old(self)@.trigger()) ==> action@ == ActionView::Present(Seq::empty())
                && final(self)@ == old(self)@,
            triggers(text@, old(self)@.trigger()) && old(self)@.config is None ==> action@
                == ActionView::Present(seq![config_error_entry(catalog@)]),
            action@ is Locate ==> old(self)@.config.unwrap().use_ip_location,
    {
        proof {
            use_type_invariant(&*self);
        }
        // What follows the trigger is not looked at yet.
        if strip_trigger(text, self.trigger()).is_none() {
            let nothing: Vec<Entry> = Vec::new();
            let action = Action::Present(nothing);
            assert(action@ =~= ActionView::Present(Seq::empty())) by {
                assert(action@->Present_0 =~= Seq::empty());
            }
            return action;
        }
        match &self.config {
            None => {
                let entries = crate::format::format(
                    &WeatherOutcome::ConfigUnavailable,
                    &WeatherUnits::Metric,
                    catalog,
                );
                let action = Action::Present(entries);
                assert(action@->Present_0 =~= seq![config_error_entry(catalog@)]);
                action
            },
            Some(settings) => {
                if settings.use_ip_location {
                    self.phase = Phase::Resolving;
                    Action::Locate
                } else {
                    let url = request_url(
                        &settings.weather_location,
                        settings.openweatherapi_key.as_str(),
                        &settings.units,
                        self.lang.as_str(),
                    );
                    self.phase = Phase::Fetching;
                    Action::Fetch(url)
                }
            },
        }
    }

    /// Takes what the lookup of the place gave, `None` where it failed, and
    /// says where to ask for the weather. A failed lookup is no error: the
    /// fixed place is asked for.
    pub fn handle_location(&mut self, lookup: Option<GeoLocation>) -> (action: Action)
        requires
            old(self)@.phase == Phase::Resolving,
        ensures
            final(self)@ == old(self)@.on_location(lookup).next,
            action@ == old(self)@.on_location(lookup).action,
            action@ is Fetch,
    {
        proof {
            use_type_invariant(&*self);
        }
        match &self.config {
            Some(settings) => {
                let place = resolve(settings, lookup);
                let url = request_url(
                    &place,
                    settings.openweatherapi_key.as_str(),
                    &settings.units,
                    self.lang.as_str(),
                );
                self.phase = Phase::Fetching;
                Action::Fetch(url)
            },
            None => {
                proof {
                    assert(false);
                }
                Action::Locate
            },
        }
    }

    /// Takes the weather service's reply and says what to show: one entry,
    /// whatever the reply. The place of a report is kept for
    /// `handle_selection`; after a failure the place kept before stays.
    pub fn handle_reply(&mut self, reply: FetchReply, catalog: &Catalog) -> (action: Action)
        requires
            old(self)@.phase == Phase::Fetching,
        ensures
            final(self)@ == old(self)@.on_reply(reply, catalog@).next,
            action@ == old(self)@.on_reply(reply, catalog@).action,
            action@ is Present && action@->Present_0.len() == 1,
    {
        proof {
            use_type_invariant(&*self);
        }
        let outcome = classify(reply);
        let entries = match &self.config {
            Some(settings) => crate::format::format(&outcome, &settings.units, catalog),
            None => {
                proof {
                    assert(false);
                }
                Vec::new()
            },
        };
        match &outcome {
            WeatherOutcome::Success(snapshot) => {
                self.city_id = Some(snapshot.id);
            },
            _ => {},
        }
        self.phase = Phase::Idle;
        let action = Action::Present(entries);
        assert(action@->Present_0 =~= old(self)@.on_reply(reply, catalog@).action->Present_0);
        action
    }

    /// Answers the pick of an entry: the page of the place that the last
    /// report told of is to be opened, and the launcher closes. There must
    /// have been a report.
    pub fn handle_selection(&self) -> (effect: SideEffect)
        requires
            self@.city_id is Some,
        ensures
            effect.open_url@ == details_url_text(self@.city_id.unwrap()),
            effect.close_session,
    {
        match self.city_id {
            Some(city_id) => SideEffect { open_url: details_url(city_id), close_session: true },
            None => {
                proof {
                    assert(false);
                }
                SideEffect { open_url: String::new(), close_session: true }
            },
        }
    }
}

/// Writes the address of the page that tells more of a place.
pub fn details_url(city_id: i32) -> (url: String)
    ensures
        url@ == details_url_text(city_id),
{
    let mut url = String::from_str("https://openweathermap.org/city/");
    push_int(&mut url, city_id);
    url
}

/// A query whose text does not begin with the trigger shows nothing and
/// changes nothing, whatever the settings and whatever a lookup or the
/// weather service would have answered.
pub proof fn lemma_other_text_shows_nothing(
    state: StateView,
    text: Seq<char>,
    lookup: Option<GeoLocation>,
    reply: FetchReply,
    catalog: Map<Seq<char>, Seq<char>>,
)
    requires
        !triggers(text, state.trigger()),
    ensures
        state.run(text, lookup, reply, catalog).action == ActionView::Present(Seq::empty()),
        state.run(text, lookup, reply, catalog).next == state,
{
}

/// A query whose text begins with the trigger shows exactly one entry,
/// whatever a lookup or the weather service answers, and leaves no query in
/// hand. Without settings that entry is the one that says so, under the
/// error icon, and nothing changes.
pub proof fn lemma_trigger_shows_one_entry(
    state: StateView,
    text: Seq<char>,
    lookup: Option<GeoLocation>,
    reply: FetchReply,
    catalog: Map<Seq<char>, Seq<char>>,
)
    requires
        state.phase == Phase::Idle,
        triggers(text, state.trigger()),
    ensures
        state.run(text, lookup, reply, catalog).action is Present,
        state.run(text, lookup, reply, catalog).action->Present_0.len() == 1,
        state.run(text, lookup, reply, catalog).next.phase == Phase::Idle,
        state.config is None ==> {
            &&& state.run(text, lookup, reply, catalog).action->Present_0[0] == config_error_entry(
                catalog,
            )
            &&& config_error_entry(catalog).icon == error_icon()
            &&& state.run(text, lookup, reply, catalog).next == state
        },
{
}

/// Every step keeps a state in order: from a state whose settings can be
/// used, a query in the phase that the step starts from leads to another
/// such state.
pub proof fn lemma_steps_keep_order(
    state: StateView,
    text: Seq<char>,
    lookup: Option<GeoLocation>,
    reply: FetchReply,
    catalog: Map<Seq<char>, Seq<char>>,
)
    requires
        state.wf(),
    ensures
        state.on_query(text, catalog).next.wf(),
        state.phase == Phase::Resolving ==> state.on_location(lookup).next.wf(),
        state.phase == Phase::Fetching ==> state.on_reply(reply, catalog).next.wf(),
        state.phase == Phase::Idle ==> state.run(text, lookup, reply, catalog).next.wf(),
{
}

/// A query that ends in a report keeps the report's place, and the page
/// that a pick then opens is the page of that place. A query that ends in a
/// failure keeps the place that was kept before.
pub proof fn lemma_report_keeps_its_place(
    state: StateView,
    text: Seq<char>,
    lookup: Option<GeoLocation>,
    reply: FetchReply,
    catalog: Map<Seq<char>, Seq<char>>,
)
    requires
        state.config is Some,
        triggers(text, state.trigger()),
    ensures
        match outcome_of(reply) {
            OutcomeView::Success(snapshot) => {
                &&& state.run(text, lookup, reply, catalog).next.city_id == Some(snapshot.id)
                &&& details_url_text(snapshot.id) == "https://openweathermap.org/city/"@ + int_text(
                    snapshot.id as int,
                )
            },
            _ => state.run(text, lookup, reply, catalog).next.city_id == state.city_id,
        },
{
}

/// With lookup switched off the place is never looked up: the weather is
/// asked for at the fixed place straight away.
pub proof fn lemma_fixed_place_without_lookup(
    state: StateView,
    text: Seq<char>,
    catalog: Map<Seq<char>, Seq<char>>,
)
    requires
        state.config is Some,
        !state.config.unwrap().use_ip_location,
        triggers(text, state.trigger()),
    ensures
        state.on_query(text, catalog).action == ActionView::Fetch(
            state.url_for(state.config.unwrap().weather_location),
        ),
        forall|lookup: Option<GeoLocation>| #[trigger]
            resolved(state.config.unwrap(), lookup) == state.config.unwrap().weather_location,
{
}

/// A lookup that failed, or that gave a place off the globe, leaves the
/// weather to be asked for at the fixed place, as if there had been no
/// lookup.
pub proof fn lemma_failed_lookup_falls_back(state: StateView, lookup: Option<GeoLocation>)
    requires
        state.config is Some,
        lookup is None || !lookup.unwrap().in_range(),
    ensures
        state.on_location(lookup).action == ActionView::Fetch(
            state.url_for(state.config.unwrap().weather_location),
        ),
{
}

} // verus!
