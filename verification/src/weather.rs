//! Forecast data types and the two-stage lookup against the
//! [accuweather api](https://accuweather.com): place to location, location to
//! one-day forecast.
//!
//! The library never touches the network. A lookup is a short chain of values:
//! [`begin`] hands out the first address to fetch, each pending stage takes the
//! decoded reply and hands out the next address or the final outcome. Whoever
//! drives the chain performs the requests.

use vstd::prelude::*;

verus! {

/// City search endpoint; the key and the place are passed as query parameters.
pub const LOCATION_REQUEST: &'static str = "http://dataservice.accuweather.com/locations/v1/cities/search";

/// One-day forecast endpoint; the location key is appended to the path.
pub const DAILY_FORECAST_REQUEST: &'static str =
    "http://dataservice.accuweather.com/forecasts/v1/daily/1day/";

/// Seconds after which a request to the provider is given up. The requests
/// are made by the caller, who is to bound each of them by this.
pub const REQUEST_TIMEOUT_SECONDS: u64 = 10;

/// Country of a location, by its code.
#[derive(Debug, Clone, PartialEq, Eq)]
pub struct Country {
    pub id: String,
}

impl View for Country {
    type V = Seq<char>;

    open spec fn view(&self) -> Seq<char> {
        self.id@
    }
}

/// What a [`Location`] stands for.
pub struct LocationView {
    pub key: Seq<char>,
    pub localized_name: Seq<char>,
    pub country_id: Seq<char>,
}

impl LocationView {
    /// The display form: name, comma, space, country code.
    pub open spec fn display(self) -> Seq<char> {
        self.localized_name + ", "@ + self.country_id
    }

    /// A usable location has a key to ask the forecast with.
    pub open spec fn has_key(self) -> bool {
        self.key.len() > 0
    }
}

/// A place as the provider knows it.
#[derive(Debug, Clone, PartialEq, Eq)]
pub struct Location {
    key: String,
    localized_name: String,
    country: Country,
}

impl View for Location {
    type V = LocationView;

    closed spec fn view(&self) -> LocationView {
        LocationView {
            key: self.key@,
            localized_name: self.localized_name@,
            country_id: self.country@,
        }
    }
}

impl Location {
    pub fn new(key: String, localized_name: String, country: Country) -> (location: Location)
        ensures
            location@ == (LocationView {
                key: key@,
                localized_name: localized_name@,
                country_id: country@,
            }),
    {
        Location { key, localized_name, country }
    }

    /// The provider's identifier of this location.
    pub fn key(&self) -> (key: &str)
        ensures
            key@ == self@.key,
    {
        self.key.as_str()
    }

    pub fn localized_name(&self) -> (name: &str)
        ensures
            name@ == self@.localized_name,
    {
        self.localized_name.as_str()
    }

    pub fn country(&self) -> (country: &Country)
        ensures
            country@ == self@.country_id,
    {
        &self.country
    }

    /// `"<name>, <country code>"`.
    pub fn to_string(&self) -> (shown: String)
        ensures
            shown@ == self@.display(),
    {
        let mut shown = String::from_str(self.localized_name.as_str());
        shown.append(", ");
        shown.append(self.country.id.as_str());
        shown
    }
}

/// The headline of a forecast.
#[derive(Debug, Clone, PartialEq, Eq)]
pub struct Headline {
    pub overview: String,
}

impl View for Headline {
    type V = Seq<char>;

    open spec fn view(&self) -> Seq<char> {
        self.overview@
    }
}

/// A one-day forecast, reduced to its headline.
#[derive(Debug, Clone, PartialEq, Eq)]
pub struct Forecast {
    pub headline: Headline,
}

impl View for Forecast {
    type V = Seq<char>;

    open spec fn view(&self) -> Seq<char> {
        self.headline@
    }
}

/// The search knew no location for the place asked.
#[derive(Debug, Clone, PartialEq, Eq)]
pub struct CouldNotFindLocation {
    place: String,
}

impl View for CouldNotFindLocation {
    type V = Seq<char>;

    closed spec fn view(&self) -> Seq<char> {
        self.place@
    }
}

/// The text of a failed search for `place`.
pub open spec fn not_found_message(place: Seq<char>) -> Seq<char> {
    "Could not find location '"@ + place + "'"@
}

impl CouldNotFindLocation {
    pub fn new(place: String) -> (failure: CouldNotFindLocation)
        ensures
            failure@ == place@,
    {
        CouldNotFindLocation { place }
    }

    /// The place that was asked for.
    pub fn place(&self) -> (place: &str)
        ensures
            place@ == self@,
    {
        self.place.as_str()
    }

    /// `"Could not find location '<place>'"`.
    pub fn to_string(&self) -> (shown: String)
        ensures
            shown@ == not_found_message(self@),
    {
        let mut shown = String::from_str("Could not find location '");
        shown.append(self.place.as_str());
        shown.append("'");
        shown
    }
}

/// Why a request brought no usable payload.
#[derive(Debug, Clone, PartialEq, Eq)]
pub enum FetchFailure {
    /// The request failed or was answered with a non-success status.
    Transport(String),
    /// The answer did not have the expected shape.
    Parse(String),
}

/// What a [`FetchFailure`] stands for in contracts.
pub enum FetchFailureView {
    Transport(Seq<char>),
    Parse(Seq<char>),
}

impl FetchFailureView {
    /// The same failure as the outcome of a lookup.
    pub open spec fn unconverted(self) -> ResolveErrorView {
        match self {
            FetchFailureView::Transport(message) => ResolveErrorView::Transport(message),
            FetchFailureView::Parse(message) => ResolveErrorView::Parse(message),
        }
    }
}

impl View for FetchFailure {
    type V = FetchFailureView;

    open spec fn view(&self) -> FetchFailureView {
        match self {
            FetchFailure::Transport(message) => FetchFailureView::Transport(message@),
            FetchFailure::Parse(message) => FetchFailureView::Parse(message@),
        }
    }
}

/// Why a lookup ended without a forecast.
#[derive(Debug, Clone, PartialEq, Eq)]
pub enum ResolveError {
    /// The search knew no location for the place: there is no such place.
    NotFound(CouldNotFindLocation),
    /// The service could not be reached or refused the request.
    Transport(String),
    /// The service answered with something else than expected.
    Parse(String),
}

/// What a [`ResolveError`] stands for in contracts.
pub enum ResolveErrorView {
    NotFound(Seq<char>),
    Transport(Seq<char>),
    Parse(Seq<char>),
}

impl ResolveErrorView {
    /// The text shown for this error.
    pub open spec fn message(self) -> Seq<char> {
        match self {
            ResolveErrorView::NotFound(place) => not_found_message(place),
            ResolveErrorView::Transport(message) => message,
            ResolveErrorView::Parse(message) => message,
        }
    }
}

impl View for ResolveError {
    type V = ResolveErrorView;

    open spec fn view(&self) -> ResolveErrorView {
        match self {
            ResolveError::NotFound(failure) => ResolveErrorView::NotFound(failure@),
            ResolveError::Transport(message) => ResolveErrorView::Transport(message@),
            ResolveError::Parse(message) => ResolveErrorView::Parse(message@),
        }
    }
}

impl ResolveError {
    /// The same failure as the outcome of a lookup.
    pub fn from_fetch(failure: FetchFailure) -> (error: ResolveError)
        ensures
            error@ == failure@.unconverted(),
    {
        match failure {
            FetchFailure::Transport(message) => ResolveError::Transport(message),
            FetchFailure::Parse(message) => ResolveError::Parse(message),
        }
    }

    /// The text shown for this error: the not-found sentence, or the message
    /// that the failed request came with.
    pub fn to_string(&self) -> (shown: String)
        ensures
            shown@ == self@.message(),
    {
        match self {
            ResolveError::NotFound(failure) => failure.to_string(),
            ResolveError::Transport(message) => message.clone(),
            ResolveError::Parse(message) => message.clone(),
        }
    }
}

/// Message of the error for a first candidate that carries no key.
pub const MISSING_KEY: &'static str = "the location found carries no key";

/// Address of the search for `place`.
pub open spec fn search_url(api_key: Seq<char>, place: Seq<char>) -> Seq<char> {
    LOCATION_REQUEST@ + "?apikey="@ + api_key + "&q="@ + place
}

/// Address of the one-day forecast for the location with `location_key`.
pub open spec fn forecast_url(location_key: Seq<char>, api_key: Seq<char>) -> Seq<char> {
    DAILY_FORECAST_REQUEST@ + location_key + "?apikey="@ + api_key
}

/// The decoded answer to a search, as the lookup reads it.
pub open spec fn search_reply_view(reply: Result<Vec<Location>, FetchFailure>) -> Result<
    Seq<LocationView>,
    FetchFailureView,
> {
    match reply {
        Ok(candidates) => Ok(candidates@.map_values(|candidate: Location| candidate@)),
        Err(failure) => Err(failure@),
    }
}

/// The decoded answer to a forecast request, as the lookup reads it.
pub open spec fn forecast_reply_view(reply: Result<Forecast, FetchFailure>) -> Result<
    Seq<char>,
    FetchFailureView,
> {
    match reply {
        Ok(forecast) => Ok(forecast@),
        Err(failure) => Err(failure@),
    }
}

/// The outcome of a lookup, as its callers read it.
pub open spec fn outcome_view(outcome: Result<(Location, Forecast), ResolveError>) -> Result<
    (LocationView, Seq<char>),
    ResolveErrorView,
> {
    match outcome {
        Ok((location, forecast)) => Ok((location@, forecast@)),
        Err(error) => Err(error@),
    }
}

/// The location that a search for `place` settles on: the first candidate, in
/// the provider's order. No candidate at all means that there is no such place;
/// a failed request passes on unconverted.
pub open spec fn chosen_location(
    place: Seq<char>,
    reply: Result<Seq<LocationView>, FetchFailureView>,
) -> Result<LocationView, ResolveErrorView> {
    match reply {
        Err(failure) => Err(failure.unconverted()),
        Ok(candidates) => if candidates.len() == 0 {
            Err(ResolveErrorView::NotFound(place))
        } else if !candidates[0].has_key() {
            Err(ResolveErrorView::Parse(MISSING_KEY@))
        } else {
            Ok(candidates[0])
        },
    }
}

/// The outcome of a lookup of `place` whose two requests were answered with
/// `search` and, where it came to that, `forecast`.
pub open spec fn resolve_spec(
    place: Seq<char>,
    search: Result<Seq<LocationView>, FetchFailureView>,
    forecast: Result<Seq<char>, FetchFailureView>,
) -> Result<(LocationView, Seq<char>), ResolveErrorView> {
    match chosen_location(place, search) {
        Err(error) => Err(error),
        Ok(location) => match forecast {
            Err(failure) => Err(failure.unconverted()),
            Ok(overview) => Ok((location, overview)),
        },
    }
}

/// A lookup whose search request is under way.
pub struct SearchPending {
    place: String,
    api_key: String,
}

/// A lookup that has its location and whose forecast request is under way.
#[derive(Debug)]
pub struct ForecastPending {
    location: Location,
}

impl SearchPending {
    /// The place that is looked up.
    pub closed spec fn place(&self) -> Seq<char> {
        self.place@
    }

    /// The key that the requests are made with.
    pub closed spec fn api_key(&self) -> Seq<char> {
        self.api_key@
    }

    /// Takes the decoded answer to the search. Where it settles on a location,
    /// the lookup goes on with the address of that location's forecast, which
    /// the caller is to fetch next.
    pub fn candidates(self, reply: Result<Vec<Location>, FetchFailure>) -> (next: Result<
        (ForecastPending, String),
        ResolveError,
    >)
        ensures
            match next {
                Ok((pending, url)) => {
                    &&& chosen_location(self.place(), search_reply_view(reply)) == Ok::<
                        LocationView,
                        ResolveErrorView,
                    >(pending.location())
                    &&& pending.location().has_key()
                    &&& url@ == forecast_url(pending.location().key, self.api_key())
                },
                Err(error) => chosen_location(self.place(), search_reply_view(reply)) == Err::<
                    LocationView,
                    ResolveErrorView,
                >(error@),
            },
    {
        match reply {
            Err(failure) => Err(ResolveError::from_fetch(failure)),
            Ok(candidates) => {
                let mut candidates = candidates;
                if candidates.len() == 0 {
                    Err(ResolveError::NotFound(CouldNotFindLocation::new(self.place)))
                } else {
                    let location = candidates.swap_remove(0);
                    if location.key().is_empty() {
                        Err(ResolveError::Parse(String::from_str(MISSING_KEY)))
                    } else {
                        let mut url = String::from_str(DAILY_FORECAST_REQUEST);
                        url.append(location.key());
                        url.append("?apikey=");
                        url.append(self.api_key.as_str());
                        Ok((ForecastPending { location }, url))
                    }
                }
            },
        }
    }
}

impl ForecastPending {
    /// The location that the search settled on.
    pub closed spec fn location(&self) -> LocationView {
        self.location@
    }

    /// Takes the decoded answer to the forecast request and ends the lookup.
    pub fn forecast(self, reply: Result<Forecast, FetchFailure>) -> (outcome: Result<
        (Location, Forecast),
        ResolveError,
    >)
        ensures
            outcome_view(outcome) == match forecast_reply_view(reply) {
                Ok(overview) => Ok((self.location(), overview)),
                Err(failure) => Err(failure.unconverted()),
            },
    {
        match reply {
            Ok(forecast) => Ok((self.location, forecast)),
            Err(failure) => Err(ResolveError::from_fetch(failure)),
        }
    }
}

/// Starts a lookup of `place`: the address of the search, which the caller is
/// to fetch, and the lookup that waits for its answer.
pub fn begin(place: &str, api_key: &str) -> (started: (SearchPending, String))
    ensures
        started.0.place() == place@,
        started.0.api_key() == api_key@,
        started.1@ == search_url(api_key@, place@),
{
    let mut url = String::from_str(LOCATION_REQUEST);
    url.append("?apikey=");
    url.append(api_key);
    url.append("&q=");
    url.append(place);
    (SearchPending { place: String::from_str(place), api_key: String::from_str(api_key) }, url)
}

/// The whole lookup against answers that are already at hand: what a lookup of
/// `place` comes to when its search is answered with `search` and its forecast
/// request with `forecast`. The second answer is read only where the search
/// settled on a location.
pub fn resolve_with(
    place: &str,
    api_key: &str,
    search: Result<Vec<Location>, FetchFailure>,
    forecast: Result<Forecast, FetchFailure>,
) -> (outcome: Result<(Location, Forecast), ResolveError>)
    ensures
        outcome_view(outcome) == resolve_spec(
            place@,
            search_reply_view(search),
            forecast_reply_view(forecast),
        ),
{
    let (pending, _) = begin(place, api_key);
    match pending.candidates(search) {
        Err(error) => Err(error),
        Ok((pending, _)) => pending.forecast(forecast),
    }
}

/// Whether `needle` occurs in `text`.
pub open spec fn occurs_in(needle: Seq<char>, text: Seq<char>) -> bool {
    exists|at: int|
        0 <= at && at + needle.len() <= text.len() && #[trigger] text.subrange(
            at,
            at + needle.len(),
        ) == needle
}

/// A search that finds candidates, followed by a forecast that arrives, gives
/// the first candidate and the forecast's headline, and the location is shown
/// as its name, a comma, a space and its country code.
pub proof fn lemma_resolve_success(
    place: Seq<char>,
    candidates: Seq<LocationView>,
    overview: Seq<char>,
)
    requires
        candidates.len() > 0,
        candidates[0].has_key(),
    ensures
        resolve_spec(place, Ok(candidates), Ok(overview)) == Ok::<
            (LocationView, Seq<char>),
            ResolveErrorView,
        >((candidates[0], overview)),
        candidates[0].display() == candidates[0].localized_name + ", "@
            + candidates[0].country_id,
{
}

/// A lookup that succeeds gives a location that has its key.
pub proof fn lemma_resolved_location_has_key(
    place: Seq<char>,
    search: Result<Seq<LocationView>, FetchFailureView>,
    forecast: Result<Seq<char>, FetchFailureView>,
)
    requires
        resolve_spec(place, search, forecast) is Ok,
    ensures
        resolve_spec(place, search, forecast)->Ok_0.0.has_key(),
        search is Ok,
        search->Ok_0.len() > 0,
        resolve_spec(place, search, forecast)->Ok_0.0 == search->Ok_0[0],
        forecast == Ok::<Seq<char>, FetchFailureView>(resolve_spec(place, search, forecast)->Ok_0.1),
{
}

/// A search that finds no candidate fails with the not-found error, whatever
/// the forecast request would have brought, and the error's text names the
/// place that was asked for.
pub proof fn lemma_resolve_not_found(
    place: Seq<char>,
    forecast: Result<Seq<char>, FetchFailureView>,
)
    ensures
        resolve_spec(place, Ok(Seq::empty()), forecast) == Err::<
            (LocationView, Seq<char>),
            ResolveErrorView,
        >(ResolveErrorView::NotFound(place)),
        ResolveErrorView::NotFound(place).message() == "Could not find location '"@ + place
            + "'"@,
        occurs_in(place, ResolveErrorView::NotFound(place).message()),
{
    let prefix = "Could not find location '"@;
    let message = ResolveErrorView::NotFound(place).message();
    assert(message.subrange(prefix.len() as int, (prefix.len() + place.len()) as int) == place);
}

/// A lookup keeps nothing from one run to the next: two outcomes of lookups of
/// the same place that were given the same answers read the same.
pub proof fn lemma_resolve_repeatable(
    place: Seq<char>,
    first_search: Result<Vec<Location>, FetchFailure>,
    first_forecast: Result<Forecast, FetchFailure>,
    first: Result<(Location, Forecast), ResolveError>,
    second_search: Result<Vec<Location>, FetchFailure>,
    second_forecast: Result<Forecast, FetchFailure>,
    second: Result<(Location, Forecast), ResolveError>,
)
    requires
        search_reply_view(first_search) == search_reply_view(second_search),
        forecast_reply_view(first_forecast) == forecast_reply_view(second_forecast),
        outcome_view(first) == resolve_spec(
            place,
            search_reply_view(first_search),
            forecast_reply_view(first_forecast),
        ),
        outcome_view(second) == resolve_spec(
            place,
            search_reply_view(second_search),
            forecast_reply_view(second_forecast),
        ),
    ensures
        outcome_view(first) == outcome_view(second),
{
}

} // verus!
