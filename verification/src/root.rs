//! The root view component: which request is selected for the
//! request/response pane, and how the component answers the events that it
//! handles itself.
//!
//! Work on the request database is not done here: where the component needs
//! the database, it answers with an [`Effect`] that names the query, and the
//! caller hands the query's result back through the matching `finish_`
//! method. The caller finishes one effect before it hands over the next
//! event, as the component's own handling would have done it in one step.
use vstd::prelude::*;
use std::collections::HashMap;

verus! {

broadcast use vstd::std_specs::hash::group_hash_axioms;

/// Unique ID of an HTTP request
#[derive(Clone, Copy, Debug, PartialEq, Eq, Structural, Hash)]
pub struct RequestId(pub u128);

/// ID of a profile in the collection
#[derive(Debug, PartialEq, Eq)]
pub struct ProfileId(pub String);

/// ID of a recipe in the collection
#[derive(Debug, PartialEq, Eq)]
pub struct RecipeId(pub String);

impl View for ProfileId {
    type V = Seq<char>;

    open spec fn view(&self) -> Seq<char> {
        self.0@
    }
}

impl View for RecipeId {
    type V = Seq<char>;

    open spec fn view(&self) -> Seq<char> {
        self.0@
    }
}

impl Clone for ProfileId {
    fn clone(&self) -> (id: Self)
        ensures
            id@ == self@,
    {
        ProfileId(self.0.clone())
    }
}

impl Clone for RecipeId {
    fn clone(&self) -> (id: Self)
        ensures
            id@ == self@,
    {
        RecipeId(self.0.clone())
    }
}

/// The text of an optional profile ID.
pub open spec fn profile_text(id: Option<ProfileId>) -> Option<Seq<char>> {
    match id {
        Some(p) => Some(p@),
        None => None,
    }
}

/// The text of an optional recipe ID.
pub open spec fn recipe_text(id: Option<RecipeId>) -> Option<Seq<char>> {
    match id {
        Some(r) => Some(r@),
        None => None,
    }
}


/// `anyhow::Error`, the error of a failed query on the request database.
/// The component hands it on to be reported and never reads it.
#[verifier::external_type_specification]
#[verifier::external_body]
pub struct ExQueryError(anyhow::Error);

/// Where an HTTP request is in its life
#[derive(Clone, Copy, Debug, PartialEq, Eq, Structural)]
pub enum RequestStatus {
    /// The request is being built
    Building,
    /// Building the request failed
    BuildError,
    /// The request was sent and no response has come yet
    Loading,
    /// The request was cancelled before a response came
    Cancelled,
    /// A response came, with this HTTP status code
    Response { status: u16 },
    /// Sending the request failed
    RequestError,
}

/// The state of an HTTP request
#[derive(Debug, PartialEq, Eq)]
pub struct RequestState {
    pub id: RequestId,
    /// Profile the request was built with, if any
    pub profile_id: Option<ProfileId>,
    /// Recipe the request was built from
    pub recipe_id: RecipeId,
    pub status: RequestStatus,
}

impl RequestState {
    /// ID of the request
    pub fn id(&self) -> (id: RequestId)
        ensures
            id == self.id,
    {
        self.id
    }
}

/// What the history list shows of a request
#[derive(Clone, Copy, Debug, PartialEq, Eq, Structural)]
pub struct RequestStateSummary {
    pub id: RequestId,
    pub status: RequestStatus,
}

/// The summary of a request's state.
pub open spec fn summary_of(state: RequestState) -> RequestStateSummary {
    RequestStateSummary { id: state.id, status: state.status }
}

impl RequestStateSummary {
    /// The summary of a request's state.
    pub fn from_state(state: &RequestState) -> (summary: Self)
        ensures
            summary == summary_of(*state),
            summary.id == state.id,
            summary.status == state.status,
    {
        RequestStateSummary { id: state.id, status: state.status }
    }
}

/// Requests that are held in memory, by ID. Each request is held under its
/// own ID.
pub struct RequestStore {
    requests: HashMap<u128, RequestState>,
}

impl View for RequestStore {
    type V = Map<u128, RequestState>;

    closed spec fn view(&self) -> Map<u128, RequestState> {
        self.requests@
    }
}

impl RequestStore {
    /// Each request is held under its own ID.
    pub open spec fn wf(&self) -> bool {
        forall|k: u128| #[trigger] self@.contains_key(k) ==> self@[k].id.0 == k
    }

    /// An empty store
    pub fn new() -> (store: Self)
        ensures
            store@ == Map::<u128, RequestState>::empty(),
            store.wf(),
    {
        RequestStore { requests: HashMap::new() }
    }

    /// The request with the given ID, if the store holds it
    pub fn get(&self, id: RequestId) -> (state: Option<&RequestState>)
        ensures
            match state {
                Some(s) => self@.contains_key(id.0) && *s == self@[id.0],
                None => !self@.contains_key(id.0),
            },
    {
        self.requests.get(&id.0)
    }

    /// Insert or replace a request. Returns whether the store did not hold a
    /// request with its ID before.
    pub fn update(&mut self, state: RequestState) -> (is_new: bool)
        requires
            old(self).wf(),
        ensures
            final(self).wf(),
            final(self)@ == old(self)@.insert(state.id.0, state),
            is_new == !old(self)@.contains_key(state.id.0),
    {
        let key = state.id.0;
        let previous = self.requests.insert(key, state);
        previous.is_none()
    }
}


/// The profiles and recipes of a request collection, in collection order
pub struct Collection {
    pub profiles: Vec<ProfileId>,
    pub recipes: Vec<RecipeId>,
}

/// The first element of a sequence, if there is one.
pub open spec fn first_of<T>(s: Seq<T>) -> Option<T> {
    if s.len() > 0 {
        Some(s[0])
    } else {
        None
    }
}

/// The text of the first ID of a list of profile IDs.
pub open spec fn first_profile(profiles: Seq<ProfileId>) -> Option<Seq<char>> {
    profile_text(first_of(profiles))
}

/// The text of the first ID of a list of recipe IDs.
pub open spec fn first_recipe(recipes: Seq<RecipeId>) -> Option<Seq<char>> {
    recipe_text(first_of(recipes))
}

/// The view holding the profile and recipe lists, reduced to what is
/// selected in them
pub struct PrimaryView {
    selected_profile_id: Option<ProfileId>,
    selected_recipe_id: Option<RecipeId>,
}

impl PrimaryView {
    /// Text of the selected profile's ID, if any
    pub closed spec fn profile(&self) -> Option<Seq<char>> {
        profile_text(self.selected_profile_id)
    }

    /// Text of the selected recipe's ID, if any
    pub closed spec fn recipe(&self) -> Option<Seq<char>> {
        recipe_text(self.selected_recipe_id)
    }

    /// The view for a collection: its first profile and its first recipe are
    /// selected
    pub fn new(collection: &Collection) -> (view: Self)
        ensures
            view.profile() == first_profile(collection.profiles@),
            view.recipe() == first_recipe(collection.recipes@),
    {
        let selected_profile_id = if collection.profiles.len() > 0 {
            Some(collection.profiles[0].clone())
        } else {
            None
        };
        let selected_recipe_id = if collection.recipes.len() > 0 {
            Some(collection.recipes[0].clone())
        } else {
            None
        };
        PrimaryView { selected_profile_id, selected_recipe_id }
    }

    /// ID of the selected profile. `None` iff the list is empty
    pub fn selected_profile_id(&self) -> (id: Option<&ProfileId>)
        ensures
            match id {
                Some(p) => self.profile() == Some(p@),
                None => self.profile() is None,
            },
    {
        match &self.selected_profile_id {
            Some(p) => Some(p),
            None => None,
        }
    }

    /// ID of the selected recipe, if any
    pub fn selected_recipe_id(&self) -> (id: Option<&RecipeId>)
        ensures
            match id {
                Some(r) => self.recipe() == Some(r@),
                None => self.recipe() is None,
            },
    {
        match &self.selected_recipe_id {
            Some(r) => Some(r),
            None => None,
        }
    }
}

/// The selected request ID, as it is persisted between sessions. Restoring a
/// persisted value does not set it: the request has to be loaded first, so
/// restoring asks for an event that selects it.
#[derive(Debug)]
pub struct SelectedRequestId(pub Option<RequestId>);

impl SelectedRequestId {
    /// Nothing selected
    pub fn new() -> (id: Self)
        ensures
            id.0 is None,
    {
        SelectedRequestId(None)
    }

    /// The value to persist: the selected request ID
    pub fn get_to_persist(&self) -> (value: Option<RequestId>)
        ensures
            value == self.0,
    {
        self.0
    }

    /// Restore a persisted value. The value is left as it is; the returned
    /// event, once handled, loads the request and selects it.
    pub fn restore_persisted<I, E>(&mut self, request_id: Option<RequestId>) -> (event: Event<
        I,
        E,
    >)
        ensures
            final(self).0 == old(self).0,
            event == Event::<I, E>::HttpSelectRequest(request_id),
    {
        Event::HttpSelectRequest(request_id)
    }
}

impl From<Option<RequestId>> for SelectedRequestId {
    fn from(request_id: Option<RequestId>) -> (id: Self) {
        SelectedRequestId(request_id)
    }
}

impl vstd::std_specs::convert::FromSpecImpl<Option<RequestId>> for SelectedRequestId {
    open spec fn obeys_from_spec() -> bool {
        true
    }

    open spec fn from_spec(request_id: Option<RequestId>) -> Self {
        SelectedRequestId(request_id)
    }
}

/// A user action, bound to an input
#[derive(Clone, Copy, Debug, PartialEq, Eq, Structural)]
pub enum Action {
    ForceQuit,
    Quit,
    ScrollUp,
    ScrollDown,
    ScrollLeft,
    ScrollRight,
    PreviousPane,
    NextPane,
    Up,
    Down,
    Left,
    Right,
    PageUp,
    PageDown,
    Home,
    End,
    Submit,
    Toggle,
    Cancel,
    Delete,
    Edit,
    Reset,
    View,
    History,
    Search,
    Export,
    ReloadCollection,
    Fullscreen,
    OpenActions,
    OpenHelp,
    SelectProfileList,
    SelectRecipeList,
    SelectRecipe,
    SelectResponse,
    SelectRequest,
}

/// An event for the view to handle. `I` is the terminal input event that an
/// input carries; `E` is any event that this component does not handle,
/// which is handed on as it came.
#[derive(Debug)]
pub enum Event<I, E> {
    /// Select a request, loading it if needed. `None` selects the most
    /// recent request for the selected profile and recipe.
    HttpSelectRequest(Option<RequestId>),
    /// The state of a request changed
    HttpSetState(RequestState),
    /// Show a notification
    Notify(String),
    /// User input, with the action bound to it, if any
    Input { event: I, action: Option<Action> },
    /// Any other event
    Other(E),
}

/// Whether an event was handled, or is passed on to the parent
#[derive(Debug)]
pub enum Update<I, E> {
    Consumed,
    Propagate(Event<I, E>),
}

/// A message to the application's main loop
#[derive(Clone, Copy, Debug, PartialEq, Eq, Structural)]
pub enum Message {
    Quit,
    CollectionStartReload,
}

/// Work that the component asks of its caller
#[derive(Debug)]
pub enum Effect {
    /// Nothing to do
    Nothing,
    /// Load this request from the database; hand the result to
    /// [`Root::finish_load_request`]
    LoadRequest(RequestId),
    /// Load the most recent request for this profile and recipe from the
    /// database; hand the result to [`Root::finish_load_latest`]
    LoadLatest { profile_id: Option<ProfileId>, recipe_id: RecipeId },
    /// Load the requests for this profile and recipe; hand the result to
    /// [`Root::finish_open_history`]
    LoadSummaries { profile_id: Option<ProfileId>, recipe_id: RecipeId },
    /// Open the history modal for a recipe
    OpenHistory {
        recipe_id: RecipeId,
        requests: Vec<RequestStateSummary>,
        selected_request: Option<RequestId>,
    },
    /// Send a message to the main loop
    SendMessage(Message),
    /// Report an error to the user
    Report(anyhow::Error),
}

/// Whether `effect` asks for the most recent request for `profile` and
/// `recipe`.
pub open spec fn asks_latest(effect: Effect, profile: Option<Seq<char>>, recipe: Seq<char>) -> bool {
    effect matches Effect::LoadLatest { profile_id, recipe_id } && profile_text(profile_id)
        == profile && recipe_id@ == recipe
}

/// Whether `effect` asks for the requests for `profile` and `recipe`.
pub open spec fn asks_summaries(effect: Effect, profile: Option<Seq<char>>, recipe: Seq<char>) -> bool {
    effect matches Effect::LoadSummaries { profile_id, recipe_id } && profile_text(profile_id)
        == profile && recipe_id@ == recipe
}


/// The root view component
pub struct Root {
    /// Track and cache in-progress and completed requests
    request_store: RequestStore,
    /// Which request are we showing in the request/response panel?
    selected_request: SelectedRequestId,
    primary_view: PrimaryView,
    notification_text: Option<String>,
}

/// `new` differs from `old` at most in the selected request.
pub open spec fn same_but_selection(old: Root, new: Root) -> bool {
    &&& new.requests() == old.requests()
    &&& new.profile() == old.profile()
    &&& new.recipe() == old.recipe()
    &&& new.notification() == old.notification()
}

/// Where no request is named, or the named one is not in the database:
/// with a recipe selected, the most recent request for the selected profile
/// and recipe is asked for; with none, nothing is selected.
pub open spec fn falls_back(old: Root, new: Root, effect: Effect) -> bool {
    match old.recipe() {
        Some(r) => new.selected() == old.selected() && asks_latest(effect, old.profile(), r),
        None => new.selected() is None && effect is Nothing,
    }
}

/// What selecting `request_id` does: a request that the store holds is
/// selected at once; one that it does not hold is asked for; `None` falls
/// back to the most recent request.
pub open spec fn selects(old: Root, new: Root, request_id: Option<RequestId>, effect: Effect) -> bool {
    &&& same_but_selection(old, new)
    &&& match request_id {
        Some(id) => if old.requests().contains_key(id.0) {
            new.selected() == Some(id) && effect is Nothing
        } else {
            new.selected() == old.selected() && effect == Effect::LoadRequest(id)
        },
        None => falls_back(old, new, effect),
    }
}

/// A loaded request is put in the store and selected.
pub open spec fn takes_loaded(old: Root, new: Root, state: RequestState) -> bool {
    &&& new.requests() == old.requests().insert(state.id.0, state)
    &&& new.selected() == Some(state.id)
    &&& new.profile() == old.profile()
    &&& new.recipe() == old.recipe()
    &&& new.notification() == old.notification()
}

/// Taking the result of loading a named request: a found request is stored
/// and selected; a missing one falls back to the most recent request; an
/// error is reported and changes nothing.
pub open spec fn finishes_load(
    old: Root,
    new: Root,
    result: Result<Option<RequestState>, anyhow::Error>,
    effect: Effect,
) -> bool {
    match result {
        Ok(Some(state)) => takes_loaded(old, new, state) && effect is Nothing,
        Ok(None) => same_but_selection(old, new) && falls_back(old, new, effect),
        Err(e) => new == old && effect == Effect::Report(e),
    }
}

/// Taking the result of loading the most recent request: a found request is
/// stored and selected; none selects nothing; an error is reported and
/// changes nothing.
pub open spec fn finishes_latest(
    old: Root,
    new: Root,
    result: Result<Option<RequestState>, anyhow::Error>,
    effect: Effect,
) -> bool {
    match result {
        Ok(Some(state)) => takes_loaded(old, new, state) && effect is Nothing,
        Ok(None) => same_but_selection(old, new) && new.selected() is None && effect is Nothing,
        Err(e) => new == old && effect == Effect::Report(e),
    }
}

impl Root {
    /// The requests held in memory, by ID
    pub closed spec fn requests(&self) -> Map<u128, RequestState> {
        self.request_store@
    }

    /// The selected request ID
    pub closed spec fn selected(&self) -> Option<RequestId> {
        self.selected_request.0
    }

    /// Text of the selected profile's ID
    pub closed spec fn profile(&self) -> Option<Seq<char>> {
        self.primary_view.profile()
    }

    /// Text of the selected recipe's ID
    pub closed spec fn recipe(&self) -> Option<Seq<char>> {
        self.primary_view.recipe()
    }

    /// Text of the notification shown, if any
    pub closed spec fn notification(&self) -> Option<Seq<char>> {
        match self.notification_text {
            Some(t) => Some(t@),
            None => None,
        }
    }

    /// Each request is held under its own ID, and the selected request is
    /// held.
    pub closed spec fn wf(&self) -> bool {
        &&& self.request_store.wf()
        &&& self.selected_request.0 matches Some(id) ==> self.request_store@.contains_key(id.0)
    }

    /// The component for a collection: nothing is loaded or selected yet,
    /// and the first profile and recipe of the collection are selected.
    pub fn new(collection: &Collection) -> (root: Self)
        ensures
            root.wf(),
            root.requests() == Map::<u128, RequestState>::empty(),
            root.selected() is None,
            root.profile() == first_profile(collection.profiles@),
            root.recipe() == first_recipe(collection.recipes@),
            root.notification() is None,
            root.profile() is None <==> collection.profiles@.len() == 0,
    {
        let primary_view = PrimaryView::new(collection);
        let selected_request = SelectedRequestId::new();
        Root {
            request_store: RequestStore::new(),
            selected_request,
            primary_view,
            notification_text: None,
        }
    }

    /// ID of the selected profile. `None` iff the list is empty
    pub fn selected_profile_id(&self) -> (id: Option<&ProfileId>)
        ensures
            match id {
                Some(p) => self.profile() == Some(p@),
                None => self.profile() is None,
            },
    {
        self.primary_view.selected_profile_id()
    }

    /// ID of the selected recipe, if any
    pub fn selected_recipe_id(&self) -> (id: Option<&RecipeId>)
        ensures
            match id {
                Some(r) => self.recipe() == Some(r@),
                None => self.recipe() is None,
            },
    {
        self.primary_view.selected_recipe_id()
    }

    /// The query for the most recent request for the selected profile and
    /// recipe, or `None` where no recipe is selected.
    fn latest_query(&self) -> (effect: Option<Effect>)
        ensures
            match self.recipe() {
                Some(r) => effect matches Some(e) && asks_latest(e, self.profile(), r),
                None => effect is None,
            },
    {
        match self.primary_view.selected_recipe_id() {
            Some(recipe_id) => {
                let profile_id = match self.primary_view.selected_profile_id() {
                    Some(p) => Some(p.clone()),
                    None => None,
                };
                Some(Effect::LoadLatest { profile_id, recipe_id: recipe_id.clone() })
            },
            None => None,
        }
    }

    /// Select nothing, or ask for the most recent request.
    fn fall_back(&mut self) -> (effect: Effect)
        requires
            old(self).wf(),
        ensures
            final(self).wf(),
            same_but_selection(*old(self), *final(self)),
            falls_back(*old(self), *final(self), effect),
    {
        match self.latest_query() {
            Some(effect) => effect,
            None => {
                self.selected_request = SelectedRequestId(None);
                Effect::Nothing
            },
        }
    }

    /// Select the given request. A request that is already in memory is
    /// selected at once; otherwise it is asked for from the database. With no
    /// ID, the most recent request for the current recipe and profile is
    /// asked for.
    pub fn select_request(&mut self, request_id: Option<RequestId>) -> (effect: Effect)
        requires
            old(self).wf(),
        ensures
            final(self).wf(),
            selects(*old(self), *final(self), request_id, effect),
            request_id matches Some(id) ==> (old(self).requests().contains_key(id.0)
                ==> final(self).selected() == Some(id) && effect is Nothing),
    {
        if let Some(id) = request_id {
            if let Some(request_state) = self.request_store.get(id) {
                let selected = request_state.id();
                self.selected_request = SelectedRequestId(Some(selected));
                return Effect::Nothing;
            }
            return Effect::LoadRequest(id);
        }
        self.fall_back()
    }

    /// Take the result of loading a request from the database: a found
    /// request is stored and selected; a missing one falls back to the most
    /// recent request; an error is reported and changes nothing.
    pub fn finish_load_request(
        &mut self,
        result: Result<Option<RequestState>, anyhow::Error>,
    ) -> (effect: Effect)
        requires
            old(self).wf(),
        ensures
            final(self).wf(),
            finishes_load(*old(self), *final(self), result, effect),
    {
        match result {
            Ok(Some(state)) => {
                self.store_and_select(state);
                Effect::Nothing
            },
            Ok(None) => self.fall_back(),
            Err(e) => Effect::Report(e),
        }
    }

    /// Take the result of loading the most recent request from the
    /// database: a found request is stored and selected; none selects
    /// nothing; an error is reported and changes nothing.
    pub fn finish_load_latest(
        &mut self,
        result: Result<Option<RequestState>, anyhow::Error>,
    ) -> (effect: Effect)
        requires
            old(self).wf(),
        ensures
            final(self).wf(),
            finishes_latest(*old(self), *final(self), result, effect),
    {
        match result {
            Ok(Some(state)) => {
                self.store_and_select(state);
                Effect::Nothing
            },
            Ok(None) => {
                self.selected_request = SelectedRequestId(None);
                Effect::Nothing
            },
            Err(e) => Effect::Report(e),
        }
    }

    /// Store a request and select it.
    fn store_and_select(&mut self, state: RequestState)
        requires
            old(self).wf(),
        ensures
            final(self).wf(),
            takes_loaded(*old(self), *final(self), state),
    {
        let id = state.id();
        self.request_store.update(state);
        self.selected_request = SelectedRequestId(Some(id));
    }

    /// What request should be shown in the request/response pane right now?
    pub fn selected_request(&self) -> (state: Option<&RequestState>)
        requires
            self.wf(),
        ensures
            match self.selected() {
                Some(id) => state == Some(&self.requests()[id.0]),
                None => state is None,
            },
            state matches Some(s) ==> Some(s.id) == self.selected(),
    {
        match self.selected_request.0 {
            Some(id) => self.request_store.get(id),
            None => None,
        }
    }
}


/// Opening the history asks for the requests for the selected profile and
/// recipe; with no recipe selected it does nothing.
pub open spec fn opens_history(root: Root, effect: Effect) -> bool {
    match root.recipe() {
        Some(r) => asks_summaries(effect, root.profile(), r),
        None => effect is Nothing,
    }
}

/// A request's new state is stored; a request that was not held before is
/// selected.
pub open spec fn sets_state(old: Root, new: Root, state: RequestState) -> bool {
    &&& new.requests() == old.requests().insert(state.id.0, state)
    &&& new.selected() == if old.requests().contains_key(state.id.0) {
        old.selected()
    } else {
        Some(state.id)
    }
    &&& new.profile() == old.profile()
    &&& new.recipe() == old.recipe()
    &&& new.notification() == old.notification()
}

/// How the component handles an event: the next state, whether the event is
/// passed on, and the work asked of the caller.
pub open spec fn handles<I, E>(
    old: Root,
    new: Root,
    event: Event<I, E>,
    update: Update<I, E>,
    effect: Effect,
) -> bool {
    match event {
        Event::HttpSelectRequest(request_id) => update is Consumed && selects(
            old,
            new,
            request_id,
            effect,
        ),
        Event::HttpSetState(state) => update is Consumed && effect is Nothing && sets_state(
            old,
            new,
            state,
        ),
        Event::Notify(text) => {
            &&& update is Consumed
            &&& effect is Nothing
            &&& new.notification() == Some(text@)
            &&& new.requests() == old.requests()
            &&& new.selected() == old.selected()
            &&& new.profile() == old.profile()
            &&& new.recipe() == old.recipe()
        },
        Event::Input { action: Some(Action::History), .. } => update is Consumed && new == old
            && opens_history(old, effect),
        Event::Input { action: Some(Action::Quit), .. } => update is Consumed && new == old && effect
            == Effect::SendMessage(Message::Quit),
        Event::Input { action: Some(Action::ReloadCollection), .. } => update is Consumed && new == old
            && effect == Effect::SendMessage(Message::CollectionStartReload),
        Event::Input { action: Some(_), .. } => update == Update::Propagate(event) && new == old
            && effect is Nothing,
        Event::Input { action: None, .. } => update is Consumed && new == old && effect is Nothing,
        Event::Other(_) => update == Update::Propagate(event) && new == old && effect is Nothing,
    }
}

impl Root {
    /// Open the history modal for the current recipe and profile: the
    /// requests for them are asked for first. Nothing happens where no recipe
    /// is selected.
    pub fn open_history(&self) -> (effect: Effect)
        ensures
            opens_history(*self, effect),
    {
        match self.primary_view.selected_recipe_id() {
            Some(recipe_id) => {
                let profile_id = match self.primary_view.selected_profile_id() {
                    Some(p) => Some(p.clone()),
                    None => None,
                };
                Effect::LoadSummaries { profile_id, recipe_id: recipe_id.clone() }
            },
            None => Effect::Nothing,
        }
    }

    /// Take the requests loaded for the history modal: the modal is opened
    /// for the recipe, listing their summaries and marking the selected
    /// request. A failed load is reported.
    pub fn finish_open_history(
        &self,
        recipe_id: RecipeId,
        result: Result<Vec<RequestState>, anyhow::Error>,
    ) -> (effect: Effect)
        ensures
            match result {
                Ok(states) => effect matches Effect::OpenHistory {
                    recipe_id: r,
                    requests,
                    selected_request,
                } && r@ == recipe_id@ && requests@ == states@.map_values(
                    |s: RequestState| summary_of(s),
                ) && selected_request == self.selected(),
                Err(e) => effect == Effect::Report(e),
            },
            result matches Ok(states) ==> effect matches Effect::OpenHistory { requests, .. } && (
            requests@.len() == states@.len() && forall|i: int|
                0 <= i < states@.len() ==> #[trigger] requests@[i].id == states@[i].id
                    && requests@[i].status == states@[i].status),
    {
        match result {
            Ok(states) => {
                let mut requests: Vec<RequestStateSummary> = Vec::new();
                let n = states.len();
                for i in 0..n
                    invariant
                        n == states@.len(),
                        requests@ == states@.subrange(0, i as int).map_values(
                            |s: RequestState| summary_of(s),
                        ),
                {
                    requests.push(RequestStateSummary::from_state(&states[i]));
                    assert(states@.subrange(0, i + 1) =~= states@.subrange(0, i as int).push(
                        states@[i as int],
                    ));
                }
                assert(states@.subrange(0, n as int) =~= states@);
                Effect::OpenHistory { recipe_id, requests, selected_request: self.selected_request.0 }
            },
            Err(e) => Effect::Report(e),
        }
    }

    /// Handle an event: select a request (loading it if needed), take a
    /// request's new state, show a notification, or act on the history, quit
    /// and reload actions. Other input actions and other events are passed
    /// on; input without an action is dropped.
    pub fn update<I, E>(&mut self, event: Event<I, E>) -> (outcome: (Update<I, E>, Effect))
        requires
            old(self).wf(),
        ensures
            final(self).wf(),
            handles(*old(self), *final(self), event, outcome.0, outcome.1),
            event matches Event::Notify(text) ==> final(self).notification() == Some(text@),
            event matches Event::HttpSelectRequest(Some(id)) ==> (old(self).requests().contains_key(
                id.0,
            ) ==> final(self).selected() == Some(id) && outcome.1 is Nothing),
    {
        match event {
            Event::HttpSelectRequest(request_id) => {
                let effect = self.select_request(request_id);
                (Update::Consumed, effect)
            },
            Event::HttpSetState(state) => {
                let id = state.id();
                if self.request_store.update(state) {
                    self.selected_request = SelectedRequestId(Some(id));
                }
                (Update::Consumed, Effect::Nothing)
            },
            Event::Notify(text) => {
                self.notification_text = Some(text);
                (Update::Consumed, Effect::Nothing)
            },
            Event::Input { event: input, action: Some(action) } => match action {
                Action::History => (Update::Consumed, self.open_history()),
                Action::Quit => (Update::Consumed, Effect::SendMessage(Message::Quit)),
                Action::ReloadCollection => (
                    Update::Consumed,
                    Effect::SendMessage(Message::CollectionStartReload),
                ),
                _ => (
                    Update::Propagate(Event::Input { event: input, action: Some(action) }),
                    Effect::Nothing,
                ),
            },
            Event::Input { action: None, .. } => (Update::Consumed, Effect::Nothing),
            Event::Other(other) => (Update::Propagate(Event::Other(other)), Effect::Nothing),
        }
    }

    /// The notification shown, if any
    pub fn notification_text(&self) -> (text: Option<&str>)
        ensures
            match text {
                Some(t) => self.notification() == Some(t@),
                None => self.notification() is None,
            },
    {
        match &self.notification_text {
            Some(t) => Some(t.as_str()),
            None => None,
        }
    }

    /// The events that starting the view queues, in the order in which they
    /// are to be handled: first the primary view's request for the most
    /// recent request of its recipe, then, where a selection was persisted,
    /// the restoring of that selection. Restoring comes second so that the
    /// persisted selection takes precedence. `persisted` is what the store
    /// holds for the selected request, if it holds anything.
    pub fn startup_events<I, E>(&mut self, persisted: Option<Option<RequestId>>) -> (events: Vec<
        Event<I, E>,
    >)
        requires
            old(self).wf(),
        ensures
            final(self).wf(),
            *final(self) == *old(self),
            events@.len() == if persisted is Some { 2int } else { 1int },
            events@[0] == Event::<I, E>::HttpSelectRequest(None),
            persisted matches Some(v) ==> events@[1] == Event::<I, E>::HttpSelectRequest(v),
    {
        let mut events: Vec<Event<I, E>> = Vec::new();
        events.push(Event::HttpSelectRequest(None));
        if let Some(request_id) = persisted {
            let restore = self.restore_persisted_request(request_id);
            events.push(restore);
        }
        events
    }

    /// The selected request ID, as it is persisted
    pub fn persisted_request_id(&self) -> (value: Option<RequestId>)
        ensures
            value == self.selected(),
    {
        self.selected_request.get_to_persist()
    }

    /// Restore a persisted selection: nothing changes yet; the returned
    /// event, once handled, loads the request and selects it.
    pub fn restore_persisted_request<I, E>(&mut self, request_id: Option<RequestId>) -> (event:
        Event<I, E>)
        requires
            old(self).wf(),
        ensures
            final(self).wf(),
            *final(self) == *old(self),
            event == Event::<I, E>::HttpSelectRequest(request_id),
    {
        self.selected_request.restore_persisted(request_id)
    }
}


/// Handling the event that restores a persisted selection re-selects the
/// request that was selected when the value was persisted, with nothing left
/// to load: a persisted selection survives a save and a restore.
pub proof fn restored_selection_is_kept<I, E>(
    old: Root,
    new: Root,
    update: Update<I, E>,
    effect: Effect,
    request_id: RequestId,
)
    requires
        old.wf(),
        old.selected() == Some(request_id),
        handles(old, new, Event::<I, E>::HttpSelectRequest(old.selected()), update, effect),
    ensures
        new.selected() == old.selected(),
        new.requests() == old.requests(),
        update is Consumed,
        effect is Nothing,
{
}

/// Once a request's state has been set, the component shows that state
/// whenever it is the selected request, and a request that was new to the
/// component is the one selected.
pub proof fn set_state_is_shown<I, E>(
    old: Root,
    new: Root,
    update: Update<I, E>,
    effect: Effect,
    state: RequestState,
)
    requires
        old.wf(),
        new.wf(),
        handles(old, new, Event::<I, E>::HttpSetState(state), update, effect),
    ensures
        new.requests().contains_key(state.id.0),
        new.requests()[state.id.0] == state,
        !old.requests().contains_key(state.id.0) ==> new.selected() == Some(state.id),
{
}


/// A request selected by ID ends up selected whatever was selected before:
/// at once where it is held, or once the database has given it back. This is
/// why a persisted selection, restored after the view asked for the most
/// recent request, takes precedence over it.
pub proof fn named_selection_takes_precedence(
    old: Root,
    mid: Root,
    new: Root,
    id: RequestId,
    effect: Effect,
    loaded: RequestState,
    last_effect: Effect,
)
    requires
        old.wf(),
        selects(old, mid, Some(id), effect),
        effect is LoadRequest ==> loaded.id == id && finishes_load(
            mid,
            new,
            Ok(Some(loaded)),
            last_effect,
        ),
    ensures
        effect is Nothing ==> mid.selected() == Some(id),
        effect is LoadRequest ==> new.selected() == Some(id) && last_effect is Nothing,
        effect is Nothing || effect is LoadRequest,
{
}


/// The history lists each loaded request under its own ID and with its own
/// status, in the order in which they were loaded.
pub proof fn history_keeps_each_request(
    states: Seq<RequestState>,
    requests: Seq<RequestStateSummary>,
)
    requires
        requests == states.map_values(|s: RequestState| summary_of(s)),
    ensures
        requests.len() == states.len(),
        forall|i: int|
            0 <= i < states.len() ==> #[trigger] requests[i].id == states[i].id && requests[i].status
                == states[i].status,
{
}

/// A notification replaces whatever notification was shown before, and
/// changes nothing else the component holds.
pub proof fn latest_notification_is_shown<I, E>(
    old: Root,
    new: Root,
    text: String,
    update: Update<I, E>,
    effect: Effect,
)
    requires
        handles(old, new, Event::<I, E>::Notify(text), update, effect),
    ensures
        new.notification() == Some(text@),
        new.selected() == old.selected(),
        new.requests() == old.requests(),
        update is Consumed,
        effect is Nothing,
{
}

/// A request that the component holds in memory is selected at once when
/// it is asked for by ID, whatever its status and whatever was selected
/// before, with nothing to load.
pub proof fn held_request_is_selected_at_once(
    old: Root,
    new: Root,
    id: RequestId,
    effect: Effect,
)
    requires
        selects(old, new, Some(id), effect),
        old.requests().contains_key(id.0),
    ensures
        new.selected() == Some(id),
        effect is Nothing,
        new.requests() == old.requests(),
{
}

} // verus!
