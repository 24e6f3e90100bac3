use slumber::root::{
    Action, Collection, Effect, Event, Message, ProfileId, RecipeId, RequestId, RequestState,
    RequestStateSummary, RequestStatus, RequestStore, Root, SelectedRequestId, Update,
};

/// Events whose input is a key character and whose other events are names
type Ev = Event<char, &'static str>;

fn collection() -> Collection {
    Collection {
        profiles: vec![ProfileId("profile1".into()), ProfileId("profile2".into())],
        recipes: vec![RecipeId("recipe1".into()), RecipeId("recipe2".into())],
    }
}

fn state(id: u128, status: RequestStatus) -> RequestState {
    RequestState {
        id: RequestId(id),
        profile_id: Some(ProfileId("profile1".into())),
        recipe_id: RecipeId("recipe1".into()),
        status,
    }
}

fn response(id: u128) -> RequestState {
    state(id, RequestStatus::Response { status: 200 })
}

fn selected_id(root: &Root) -> Option<u128> {
    root.selected_request().map(|s| s.id.0)
}

/// On first render, the most recent historical request for the first
/// recipe+profile is loaded and selected.
#[test]
fn test_preload_request() {
    let mut root = Root::new(&collection());
    assert_eq!(root.selected_profile_id().map(|p| p.0.as_str()), Some("profile1"));
    assert_eq!(root.selected_recipe_id().map(|r| r.0.as_str()), Some("recipe1"));
    let (update, effect) = root.update(Ev::HttpSelectRequest(None));
    assert!(matches!(update, Update::Consumed));
    match effect {
        Effect::LoadLatest { profile_id, recipe_id } => {
            assert_eq!(profile_id.unwrap().0, "profile1");
            assert_eq!(recipe_id.0, "recipe1");
        }
        other => panic!("unexpected {other:?}"),
    }
    assert!(matches!(root.finish_load_latest(Ok(Some(response(7)))), Effect::Nothing));
    assert_eq!(root.selected_request(), Some(&response(7)));
    assert_eq!(root.persisted_request_id(), Some(RequestId(7)));
}

/// A persisted request ID is loaded instead of the first in the list.
#[test]
fn test_load_persisted_request() {
    let mut root = Root::new(&collection());
    let event: Ev = root.restore_persisted_request(Some(RequestId(1)));
    assert_eq!(root.persisted_request_id(), None);
    let (update, effect) = root.update(event);
    assert!(matches!(update, Update::Consumed));
    assert!(matches!(effect, Effect::LoadRequest(RequestId(1))));
    assert!(matches!(root.finish_load_request(Ok(Some(response(1)))), Effect::Nothing));
    assert_eq!(selected_id(&root), Some(1));
}

/// A persisted request ID that is not in the database falls back to the most
/// recent request.
#[test]
fn test_persisted_request_missing() {
    let mut root = Root::new(&collection());
    let (_, effect) = root.update(Ev::HttpSelectRequest(Some(RequestId(99))));
    assert!(matches!(effect, Effect::LoadRequest(RequestId(99))));
    match root.finish_load_request(Ok(None)) {
        Effect::LoadLatest { recipe_id, .. } => assert_eq!(recipe_id.0, "recipe1"),
        other => panic!("unexpected {other:?}"),
    }
    root.finish_load_latest(Ok(Some(response(2))));
    assert_eq!(selected_id(&root), Some(2));
}

#[test]
fn select_held_request_needs_no_load() {
    let mut root = Root::new(&collection());
    root.update(Ev::HttpSetState(response(3)));
    root.update(Ev::HttpSetState(response(4)));
    assert_eq!(selected_id(&root), Some(4));
    let (_, effect) = root.update(Ev::HttpSelectRequest(Some(RequestId(3))));
    assert!(matches!(effect, Effect::Nothing));
    assert_eq!(selected_id(&root), Some(3));
}

#[test]
fn set_state_selects_only_new_requests() {
    let mut root = Root::new(&collection());
    let (update, effect) = root.update(Ev::HttpSetState(state(5, RequestStatus::Loading)));
    assert!(matches!(update, Update::Consumed));
    assert!(matches!(effect, Effect::Nothing));
    assert_eq!(selected_id(&root), Some(5));
    root.update(Ev::HttpSetState(response(6)));
    assert_eq!(selected_id(&root), Some(6));
    // An update to a known request is stored but does not change the selection
    root.update(Ev::HttpSetState(response(5)));
    assert_eq!(selected_id(&root), Some(6));
    root.update(Ev::HttpSelectRequest(Some(RequestId(5))));
    assert_eq!(root.selected_request().unwrap().status, RequestStatus::Response { status: 200 });
}

#[test]
fn no_recipe_selects_nothing() {
    let empty = Collection { profiles: vec![], recipes: vec![] };
    let mut root = Root::new(&empty);
    assert!(root.selected_profile_id().is_none());
    root.update(Ev::HttpSetState(response(1)));
    assert_eq!(selected_id(&root), Some(1));
    let (_, effect) = root.update(Ev::HttpSelectRequest(None));
    assert!(matches!(effect, Effect::Nothing));
    assert_eq!(selected_id(&root), None);
    assert!(matches!(root.open_history(), Effect::Nothing));
}

#[test]
fn latest_missing_selects_nothing() {
    let mut root = Root::new(&collection());
    root.update(Ev::HttpSetState(response(1)));
    root.update(Ev::HttpSelectRequest(None));
    assert!(matches!(root.finish_load_latest(Ok(None)), Effect::Nothing));
    assert!(root.selected_request().is_none());
}

#[test]
fn load_errors_are_reported_and_change_nothing() {
    let mut root = Root::new(&collection());
    root.update(Ev::HttpSetState(response(1)));
    match root.finish_load_request(Err(anyhow::Error::msg("db locked"))) {
        Effect::Report(e) => assert_eq!(e.to_string(), "db locked"),
        other => panic!("unexpected {other:?}"),
    }
    assert_eq!(selected_id(&root), Some(1));
    match root.finish_load_latest(Err(anyhow::Error::msg("gone"))) {
        Effect::Report(e) => assert_eq!(e.to_string(), "gone"),
        other => panic!("unexpected {other:?}"),
    }
    assert_eq!(selected_id(&root), Some(1));
    match root.finish_open_history(RecipeId("recipe1".into()), Err(anyhow::Error::msg("x"))) {
        Effect::Report(e) => assert_eq!(e.to_string(), "x"),
        other => panic!("unexpected {other:?}"),
    }
}

#[test]
fn history_action_opens_history() {
    let mut root = Root::new(&collection());
    root.update(Ev::HttpSetState(response(2)));
    let (update, effect) = root.update(Ev::Input { event: 'h', action: Some(Action::History) });
    assert!(matches!(update, Update::Consumed));
    let recipe = match effect {
        Effect::LoadSummaries { profile_id, recipe_id } => {
            assert_eq!(profile_id.unwrap().0, "profile1");
            recipe_id
        }
        other => panic!("unexpected {other:?}"),
    };
    let loaded = vec![response(1), state(2, RequestStatus::Loading)];
    match root.finish_open_history(recipe, Ok(loaded)) {
        Effect::OpenHistory { recipe_id, requests, selected_request } => {
            assert_eq!(recipe_id.0, "recipe1");
            assert_eq!(
                requests,
                vec![
                    RequestStateSummary { id: RequestId(1), status: RequestStatus::Response { status: 200 } },
                    RequestStateSummary { id: RequestId(2), status: RequestStatus::Loading },
                ]
            );
            assert_eq!(selected_request, Some(RequestId(2)));
        }
        other => panic!("unexpected {other:?}"),
    }
}

#[test]
fn actions_and_other_events() {
    let mut root = Root::new(&collection());
    let (update, effect) = root.update(Ev::Input { event: 'q', action: Some(Action::Quit) });
    assert!(matches!(update, Update::Consumed));
    assert!(matches!(effect, Effect::SendMessage(Message::Quit)));
    let (_, effect) = root.update(Ev::Input { event: 'r', action: Some(Action::ReloadCollection) });
    assert!(matches!(effect, Effect::SendMessage(Message::CollectionStartReload)));
    let (update, effect) = root.update(Ev::Input { event: 's', action: Some(Action::Submit) });
    assert!(matches!(update, Update::Propagate(Event::Input { event: 's', action: Some(Action::Submit) })));
    assert!(matches!(effect, Effect::Nothing));
    let (update, effect) = root.update(Ev::Input { event: 'x', action: None });
    assert!(matches!(update, Update::Consumed));
    assert!(matches!(effect, Effect::Nothing));
    let (update, _) = root.update(Ev::Other("tick"));
    assert!(matches!(update, Update::Propagate(Event::Other("tick"))));
}

#[test]
fn notify_sets_notification() {
    let mut root = Root::new(&collection());
    let (update, effect) = root.update(Ev::Notify("saved".to_string()));
    assert!(matches!(update, Update::Consumed));
    assert!(matches!(effect, Effect::Nothing));
    assert_eq!(root.notification_text(), Some("saved"));
}

#[test]
fn restored_selection_survives_round_trip() {
    let mut root = Root::new(&collection());
    root.update(Ev::HttpSetState(response(8)));
    let persisted = root.persisted_request_id();
    let event: Ev = root.restore_persisted_request(persisted);
    let (_, effect) = root.update(event);
    assert!(matches!(effect, Effect::Nothing));
    assert_eq!(root.persisted_request_id(), Some(RequestId(8)));
}

#[test]
fn selected_request_id_container() {
    let mut id = SelectedRequestId::from(Some(RequestId(4)));
    assert_eq!(id.get_to_persist(), Some(RequestId(4)));
    let event: Ev = id.restore_persisted(Some(RequestId(9)));
    assert!(matches!(event, Event::HttpSelectRequest(Some(RequestId(9)))));
    assert_eq!(id.get_to_persist(), Some(RequestId(4)));
    assert_eq!(SelectedRequestId::new().get_to_persist(), None);
}

#[test]
fn request_store_update_and_get() {
    let mut store = RequestStore::new();
    assert!(store.get(RequestId(1)).is_none());
    assert!(store.update(response(1)));
    assert!(!store.update(state(1, RequestStatus::Cancelled)));
    assert_eq!(store.get(RequestId(1)).unwrap().status, RequestStatus::Cancelled);
    assert_eq!(response(3).id(), RequestId(3));
}

/// At startup the primary view's fallback comes first and the restored
/// selection second, so an older persisted request wins over a newer one.
#[test]
fn persisted_request_wins_over_newer_latest() {
    let mut root = Root::new(&collection());
    let events: Vec<Ev> = root.startup_events(Some(Some(RequestId(1))));
    assert_eq!(events.len(), 2);
    let mut events = events.into_iter();
    let (_, effect) = root.update(events.next().unwrap());
    assert!(matches!(effect, Effect::LoadLatest { .. }));
    // The most recent request for the recipe is the newer one
    root.finish_load_latest(Ok(Some(response(2))));
    assert_eq!(selected_id(&root), Some(2));
    let (_, effect) = root.update(events.next().unwrap());
    assert!(matches!(effect, Effect::LoadRequest(RequestId(1))));
    root.finish_load_request(Ok(Some(response(1))));
    assert_eq!(root.selected_request(), Some(&response(1)));
    assert_eq!(root.persisted_request_id(), Some(RequestId(1)));
}

#[test]
fn startup_without_persisted_value() {
    let mut root = Root::new(&collection());
    let events: Vec<Ev> = root.startup_events(None);
    assert_eq!(events.len(), 1);
    assert!(matches!(events[0], Event::HttpSelectRequest(None)));
    let events: Vec<Ev> = root.startup_events(Some(None));
    assert_eq!(events.len(), 2);
    assert!(matches!(events[1], Event::HttpSelectRequest(None)));
}
