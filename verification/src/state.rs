//! The application state machine: the current screen, the entered
//! credentials and location, the last display text, and the theme flag,
//! together with the transitions the view layer drives.

use vstd::prelude::*;
use crate::weather::{
    ErrorModel, FetchError, RecordModel, WeatherResponse, display_weather_info,
    lemma_describe_nonempty, lemma_display_nonempty, spec_describe, spec_display,
};

verus! {

/// The three screens, exactly one of which is current at any time.
#[derive(Clone, Copy, Debug, PartialEq, Eq, Structural)]
pub enum Screen {
    CredentialsEntry,
    LocationEntry,
    ResultDisplay,
}

/// The whole client state. It is owned by the caller and mutated only by the
/// transition methods below; the view layer reads it back after each event.
#[derive(Debug)]
pub struct AppState {
    pub screen: Screen,
    pub api_key: String,
    pub city: String,
    pub country: String,
    pub display_text: String,
    pub dark_theme: bool,
}

/// Mathematical model of the client state.
#[verifier::ext_equal]
pub ghost struct StateModel {
    pub screen: Screen,
    pub api_key: Seq<char>,
    pub city: Seq<char>,
    pub country: Seq<char>,
    pub display_text: Seq<char>,
    pub dark_theme: bool,
}

impl View for AppState {
    type V = StateModel;

    open spec fn view(&self) -> StateModel {
        StateModel {
            screen: self.screen,
            api_key: self.api_key@,
            city: self.city@,
            country: self.country@,
            display_text: self.display_text@,
            dark_theme: self.dark_theme,
        }
    }
}

/// The startup state: credentials entry, every field empty, dark theme.
pub open spec fn spec_init() -> StateModel {
    StateModel {
        screen: Screen::CredentialsEntry,
        api_key: Seq::<char>::empty(),
        city: Seq::<char>::empty(),
        country: Seq::<char>::empty(),
        display_text: Seq::<char>::empty(),
        dark_theme: true,
    }
}

/// Navigation: only the screen changes. No guard is enforced: navigating to
/// the result screen before a lookup simply shows stale or empty text.
pub open spec fn spec_advance(m: StateModel, target: Screen) -> StateModel {
    StateModel { screen: target, ..m }
}

/// Credentials entry: only the stored key changes.
pub open spec fn spec_set_credentials(m: StateModel, api_key: Seq<char>) -> StateModel {
    StateModel { api_key: api_key, ..m }
}

/// Location entry: both fields are rewritten together; nothing else changes.
pub open spec fn spec_set_location(m: StateModel, city: Seq<char>, country: Seq<char>) -> StateModel {
    StateModel { city: city, country: country, ..m }
}

/// Theme toggle: only the presentation flag flips.
pub open spec fn spec_toggle_theme(m: StateModel) -> StateModel {
    StateModel { dark_theme: !m.dark_theme, ..m }
}

/// A completed lookup: the display text becomes the rendered record on
/// success or the failure description on failure, the screen becomes the
/// result screen, and nothing else changes.
pub open spec fn spec_submit(m: StateModel, outcome: Result<RecordModel, ErrorModel>) -> StateModel {
    match outcome {
        Ok(r) => StateModel { screen: Screen::ResultDisplay, display_text: spec_display(r), ..m },
        Err(e) => StateModel {
            screen: Screen::ResultDisplay,
            display_text: spec_describe(e),
            ..m
        },
    }
}

/// The model of a lookup outcome as the transition sees it.
pub open spec fn outcome_view(outcome: Result<WeatherResponse, FetchError>) -> Result<
    RecordModel,
    ErrorModel,
> {
    match outcome {
        Ok(w) => Ok(w@),
        Err(e) => Err(e@),
    }
}

impl AppState {
    /// The startup state.
    pub fn new() -> (s: AppState)
        ensures
            s@ == spec_init(),
    {
        AppState {
            screen: Screen::CredentialsEntry,
            api_key: String::new(),
            city: String::new(),
            country: String::new(),
            display_text: String::new(),
            dark_theme: true,
        }
    }

    /// Stores the entered API key; the screen does not change.
    pub fn set_credentials(&mut self, api_key: String)
        ensures
            final(self)@ == spec_set_credentials(old(self)@, api_key@),
    {
        self.api_key = api_key;
    }

    /// Stores city and country code together: after the call the pair reads
    /// back exactly as given, and no partial update is ever observable.
    pub fn set_location(&mut self, city: String, country: String)
        ensures
            final(self)@ == spec_set_location(old(self)@, city@, country@),
    {
        self.city = city;
        self.country = country;
    }

    /// Navigates to `target`. Total: every target is accepted from every
    /// screen, and nothing but the screen changes.
    pub fn advance(&mut self, target: Screen)
        ensures
            final(self)@ == spec_advance(old(self)@, target),
    {
        self.screen = target;
    }

    /// Flips the presentation theme flag.
    pub fn toggle_theme(&mut self)
        ensures
            final(self)@ == spec_toggle_theme(old(self)@),
    {
        self.dark_theme = !self.dark_theme;
    }

    /// Applies the outcome of one completed lookup: success and failure both
    /// land on the result screen with non-empty display text.
    pub fn submit_lookup(&mut self, outcome: Result<WeatherResponse, FetchError>)
        ensures
            final(self)@ == spec_submit(old(self)@, outcome_view(outcome)),
            final(self)@.screen == Screen::ResultDisplay,
            final(self)@.display_text.len() > 0,
    {
        match outcome {
            Ok(w) => {
                proof {
                    lemma_display_nonempty(w@);
                }
                let text = display_weather_info(&w);
                self.display_text = text;
                self.screen = Screen::ResultDisplay;
            },
            Err(e) => {
                proof {
                    lemma_describe_nonempty(e@);
                }
                let text = e.describe();
                self.display_text = text;
                self.screen = Screen::ResultDisplay;
            },
        }
    }
}

/// Navigation is idempotent: navigating twice to the same target leaves the
/// state exactly where one navigation does — the screen is `target` and no
/// other field has changed.
pub proof fn lemma_advance_idempotent(m: StateModel, target: Screen)
    ensures
        spec_advance(spec_advance(m, target), target) == spec_advance(m, target),
        spec_advance(m, target).screen == target,
        spec_advance(m, target).api_key == m.api_key,
        spec_advance(m, target).city == m.city,
        spec_advance(m, target).country == m.country,
        spec_advance(m, target).display_text == m.display_text,
        spec_advance(m, target).dark_theme == m.dark_theme,
{
}

/// Failure uniformity: a failed lookup, whether the transport failed or the
/// body could not be decoded, lands on the result screen with non-empty
/// display text, and touches no other field.
pub proof fn lemma_failure_uniformity(m: StateModel, e: ErrorModel)
    ensures
        spec_submit(m, Err(e)).screen == Screen::ResultDisplay,
        spec_submit(m, Err(e)).display_text.len() > 0,
        spec_submit(m, Err(e)).api_key == m.api_key,
        spec_submit(m, Err(e)).city == m.city,
        spec_submit(m, Err(e)).country == m.country,
        spec_submit(m, Err(e)).dark_theme == m.dark_theme,
{
    lemma_describe_nonempty(e);
}

} // verus!
