use manga_search::events::{
    CoverImageAttributes, MangaData, PipelineTask, Relationship, SearchMangaResponse,
    SearchPageEvents,
};
use manga_search::page::{InputMode, Key, KeyRoute, PageState, SearchPage, SearchPageActions};

type Ev = SearchPageEvents<Vec<u8>, String>;
type Task = PipelineTask<Vec<u8>, String>;

fn manga(id: &str, title: &str, cover: Option<&str>) -> MangaData {
    MangaData {
        id: id.to_string(),
        title: title.to_string(),
        description: format!("About {}", title),
        tags: vec!["action".to_string()],
        relationships: match cover {
            Some(f) => vec![
                Relationship { attributes: None },
                Relationship {
                    attributes: Some(CoverImageAttributes { file_name: f.to_string() }),
                },
            ],
            None => vec![Relationship { attributes: None }],
        },
    }
}

fn page_with(data: Vec<MangaData>) -> (SearchPage<u64>, Vec<Task>) {
    let mut p: SearchPage<u64> = SearchPage::init();
    let tasks = p.tick(Some(Ev::LoadMangasFound(Some(SearchMangaResponse { data }))));
    (p, tasks)
}

#[test]
fn scroll_down_clamps_at_last_item() {
    let (mut p, _) = page_with(vec![
        manga("a1", "One", None),
        manga("a2", "Two", None),
        manga("a3", "Three", None),
    ]);
    assert_eq!(p.mangas_found_list.selected, None);
    p.scroll_down();
    assert_eq!(p.mangas_found_list.selected, Some(0));
    p.scroll_down();
    p.scroll_down();
    assert_eq!(p.mangas_found_list.selected, Some(2));
    p.scroll_down();
    assert_eq!(p.mangas_found_list.selected, Some(2));
}

#[test]
fn scroll_up_clamps_at_first_item() {
    let (mut p, _) = page_with(vec![manga("a1", "One", None), manga("a2", "Two", None)]);
    p.scroll_up();
    assert_eq!(p.mangas_found_list.selected, Some(1));
    p.scroll_up();
    assert_eq!(p.mangas_found_list.selected, Some(0));
    p.scroll_up();
    assert_eq!(p.mangas_found_list.selected, Some(0));
}

#[test]
fn scroll_on_empty_list_keeps_cursor_absent() {
    let mut p: SearchPage<u64> = SearchPage::init();
    p.scroll_down();
    assert_eq!(p.mangas_found_list.selected, None);
    p.scroll_up();
    assert_eq!(p.mangas_found_list.selected, None);
    p.update(SearchPageActions::ScrollDown);
    assert_eq!(p.mangas_found_list.selected, None);
}

#[test]
fn search_is_a_no_op_while_searching() {
    let (mut p, _) = page_with(vec![manga("a1", "One", None)]);
    p.update(SearchPageActions::Search);
    assert_eq!(p.state, PageState::Searching);
    assert_eq!(p.mangas_found_list.mangas.len(), 0);
    let before = p.clone();
    let started = p.update(SearchPageActions::Search);
    assert!(!started);
    assert_eq!(p, before);
}

#[test]
fn search_clears_results_and_cursor() {
    let (mut p, _) = page_with(vec![manga("a1", "One", None), manga("a2", "Two", None)]);
    p.scroll_down();
    assert_eq!(p.mangas_found_list.selected, Some(0));
    let started = p.update(SearchPageActions::Search);
    assert!(started);
    assert_eq!(p.state, PageState::Searching);
    assert_eq!(p.mangas_found_list.mangas.len(), 0);
    assert_eq!(p.mangas_found_list.selected, None);
}

#[test]
fn empty_completion_displays_an_empty_list() {
    let (mut p, _) = page_with(vec![manga("a1", "One", None), manga("a2", "Two", None)]);
    let tasks = p.tick(Some(Ev::LoadMangasFound(None)));
    assert_eq!(p.state, PageState::DisplayingResults);
    assert_eq!(p.mangas_found_list.mangas.len(), 0);
    assert_eq!(p.mangas_found_list.selected, None);
    assert!(tasks.is_empty());
}

#[test]
fn failed_fetch_spawns_no_decode() {
    let (mut p, _) = page_with(vec![manga("a1", "One", Some("c1.png"))]);
    let before = p.clone();
    let tasks = p.tick(Some(Ev::DecodeImage(None, "a1".to_string())));
    assert!(tasks.is_empty());
    assert_eq!(p, before);
}

#[test]
fn fetched_bytes_are_handed_to_the_decoder() {
    let (mut p, _) = page_with(vec![manga("a1", "One", Some("c1.png"))]);
    let before = p.clone();
    let tasks = p.tick(Some(Ev::DecodeImage(Some(vec![9, 8, 7]), "a1".to_string())));
    assert_eq!(
        tasks,
        vec![Task::DecodeCover { manga_id: "a1".to_string(), bytes: vec![9, 8, 7] }]
    );
    assert_eq!(p, before);
}

#[test]
fn events_for_unknown_ids_change_nothing() {
    let (mut p, _) = page_with(vec![manga("a1", "One", Some("c1.png"))]);
    let before = p.clone();
    let tasks = p.tick(Some(Ev::LoadCover(Some("raster".to_string()), "gone".to_string())));
    assert!(tasks.is_empty());
    assert_eq!(p, before);
    p.apply_redraw(7, &"gone".to_string());
    assert_eq!(p, before);
    assert_eq!(p.take_cover_protocol(&"gone".to_string()), None);
    assert_eq!(p, before);
}

#[test]
fn naruto_query_lists_both_results_in_order() {
    let (p, tasks) = page_with(vec![
        manga("a1", "Naruto", None),
        manga("a2", "Naruto: Shippuden", None),
    ]);
    assert_eq!(p.state, PageState::DisplayingResults);
    assert_eq!(p.mangas_found_list.mangas.len(), 2);
    assert_eq!(p.mangas_found_list.mangas[0].id, "a1");
    assert_eq!(p.mangas_found_list.mangas[0].title, "Naruto");
    assert_eq!(p.mangas_found_list.mangas[1].id, "a2");
    assert_eq!(p.mangas_found_list.mangas[1].title, "Naruto: Shippuden");
    assert_eq!(p.mangas_found_list.selected, None);
    assert_eq!(tasks.len(), 2);
}

#[test]
fn no_results_query_yields_an_empty_display() {
    let mut p: SearchPage<u64> = SearchPage::init();
    p.update(SearchPageActions::Search);
    let event: Ev =
        manga_search::events::search_event(Some(SearchMangaResponse { data: vec![] }));
    assert_eq!(event, Ev::LoadMangasFound(None));
    let tasks = p.tick(Some(event));
    assert_eq!(p.state, PageState::DisplayingResults);
    assert_eq!(p.mangas_found_list.mangas.len(), 0);
    assert!(tasks.is_empty());
}

#[test]
fn failed_search_collapses_to_the_empty_event() {
    let event: Ev = manga_search::events::search_event(None);
    assert_eq!(event, Ev::LoadMangasFound(None));
}

#[test]
fn successful_search_passes_the_response_through() {
    let resp = SearchMangaResponse { data: vec![manga("a1", "One", None)] };
    let event: Ev = manga_search::events::search_event(Some(resp.clone()));
    assert_eq!(event, Ev::LoadMangasFound(Some(resp)));
}

#[test]
fn cover_pipeline_populates_the_protocol_handle() {
    let (mut p, tasks) = page_with(vec![manga("a1", "One", Some("c1.png"))]);
    assert_eq!(
        tasks,
        vec![Task::FetchCover { manga_id: "a1".to_string(), file_name: "c1.png".to_string() }]
    );

    let tasks = p.tick(Some(Ev::DecodeImage(Some(vec![1, 2]), "a1".to_string())));
    assert_eq!(
        tasks,
        vec![Task::DecodeCover { manga_id: "a1".to_string(), bytes: vec![1, 2] }]
    );

    let tasks = p.tick(Some(Ev::LoadCover(Some("raster".to_string()), "a1".to_string())));
    assert_eq!(
        tasks,
        vec![Task::PrepareCover { manga_id: "a1".to_string(), image: "raster".to_string() }]
    );
    let state = p.mangas_found_list.mangas[0].image_state.as_ref().expect("image state");
    assert_eq!(state.protocol, None);

    p.apply_redraw(42, &"a1".to_string());
    let state = p.mangas_found_list.mangas[0].image_state.as_ref().expect("image state");
    assert_eq!(state.protocol, Some(42));
}

#[test]
fn failed_decode_leaves_the_item_without_image_state() {
    let (mut p, _) = page_with(vec![manga("a1", "One", Some("c1.png"))]);
    let before = p.clone();
    let tasks = p.tick(Some(Ev::LoadCover(None, "a1".to_string())));
    assert!(tasks.is_empty());
    assert_eq!(p, before);
    assert_eq!(p.mangas_found_list.mangas[0].image_state, None);
}

#[test]
fn coverless_record_owes_only_an_immediate_notice() {
    let (_, tasks) = page_with(vec![manga("a2", "Two", None)]);
    assert_eq!(tasks, vec![Task::NotifyNoCover { manga_id: "a2".to_string() }]);
}

#[test]
fn first_relationship_with_attributes_names_the_cover() {
    let mut d = manga("a1", "One", Some("first.png"));
    d.relationships.push(Relationship {
        attributes: Some(CoverImageAttributes { file_name: "second.png".to_string() }),
    });
    let (_, tasks) = page_with(vec![d]);
    assert_eq!(
        tasks,
        vec![Task::FetchCover { manga_id: "a1".to_string(), file_name: "first.png".to_string() }]
    );
}

#[test]
fn tick_without_a_pending_event_changes_nothing() {
    let (mut p, _) = page_with(vec![manga("a1", "One", Some("c1.png"))]);
    p.scroll_down();
    let before = p.clone();
    let tasks = p.tick(None::<Ev>);
    assert!(tasks.is_empty());
    assert_eq!(p, before);
}

#[test]
fn redraw_without_image_state_changes_nothing() {
    let (mut p, _) = page_with(vec![manga("a1", "One", Some("c1.png"))]);
    let before = p.clone();
    p.apply_redraw(5, &"a1".to_string());
    assert_eq!(p, before);
}

#[test]
fn taking_the_protocol_leaves_the_image_state_empty_handed() {
    let (mut p, _) = page_with(vec![manga("a1", "One", Some("c1.png"))]);
    p.tick(Some(Ev::LoadCover(Some("raster".to_string()), "a1".to_string())));
    p.apply_redraw(42, &"a1".to_string());

    assert_eq!(p.take_cover_protocol(&"a1".to_string()), Some(42));
    let state = p.mangas_found_list.mangas[0].image_state.as_ref().expect("image state");
    assert_eq!(state.protocol, None);
    assert_eq!(p.take_cover_protocol(&"a1".to_string()), None);

    p.apply_redraw(43, &"a1".to_string());
    let state = p.mangas_found_list.mangas[0].image_state.as_ref().expect("image state");
    assert_eq!(state.protocol, Some(43));
}

#[test]
fn typing_mode_toggles_through_actions() {
    let mut p: SearchPage<u64> = SearchPage::init();
    assert_eq!(p.input_mode, InputMode::Idle);
    p.update(SearchPageActions::StartTyping);
    assert_eq!(p.input_mode, InputMode::Typing);
    p.update(SearchPageActions::StopTyping);
    assert_eq!(p.input_mode, InputMode::Idle);
}

#[test]
fn idle_keys_route_to_navigation_actions() {
    let p: SearchPage<u64> = SearchPage::init();
    assert_eq!(
        p.handle_key_events(Key::Char('s')),
        KeyRoute::Emit(SearchPageActions::StartTyping)
    );
    assert_eq!(
        p.handle_key_events(Key::Char('j')),
        KeyRoute::Emit(SearchPageActions::ScrollDown)
    );
    assert_eq!(
        p.handle_key_events(Key::Char('k')),
        KeyRoute::Emit(SearchPageActions::ScrollUp)
    );
    assert_eq!(p.handle_key_events(Key::Char('x')), KeyRoute::Ignore);
    assert_eq!(p.handle_key_events(Key::Enter), KeyRoute::Ignore);
}

#[test]
fn typing_keys_route_to_the_search_bar_or_submit() {
    let mut p: SearchPage<u64> = SearchPage::init();
    p.update(SearchPageActions::StartTyping);
    assert_eq!(p.handle_key_events(Key::Enter), KeyRoute::Emit(SearchPageActions::Search));
    assert_eq!(p.handle_key_events(Key::Esc), KeyRoute::Emit(SearchPageActions::StopTyping));
    assert_eq!(p.handle_key_events(Key::Char('n')), KeyRoute::ForwardToInput);
    assert_eq!(p.handle_key_events(Key::Other), KeyRoute::ForwardToInput);

    p.update(SearchPageActions::Search);
    assert_eq!(p.handle_key_events(Key::Enter), KeyRoute::Ignore);
}

#[test]
fn selected_item_feeds_the_preview() {
    let (mut p, _) = page_with(vec![manga("a1", "One", None), manga("a2", "Two", None)]);
    assert!(p.get_current_manga_selected().is_none());
    p.scroll_down();
    p.scroll_down();
    let item = p.get_current_manga_selected().expect("selection");
    assert_eq!(item.id, "a2");
    assert_eq!(item.title, "Two");
}

#[test]
fn byte_payloads_pass_through_untouched() {
    let mut p: SearchPage<u64> = SearchPage::init();
    let payload = bytes::Bytes::from_static(b"\x89PNG");
    let tasks = p.tick(Some(SearchPageEvents::<bytes::Bytes, String>::DecodeImage(
        Some(payload.clone()),
        "a1".to_string(),
    )));
    assert_eq!(tasks.len(), 1);
    match &tasks[0] {
        PipelineTask::DecodeCover { manga_id, bytes } => {
            assert_eq!(manga_id, "a1");
            assert_eq!(bytes, &payload);
        }
        other => panic!("unexpected task: {:?}", other),
    }
}
