use vstd::prelude::*;

use crate::events::{cover_file, find_cover_file, MangaData, PipelineTask, SearchPageEvents};
use crate::list::{
    find_by_id, first_id_index, has_id, scroll_step, CoverState, MangaItem, MangasFoundList,
};

verus! {

/// Whether a search is in flight. A new search may start only while no other
/// is in flight; the page leaves `Searching` when the search's one completion
/// event arrives, whatever it carries.
#[derive(Debug, Clone, Copy, PartialEq, Eq)]
pub enum PageState {
    Idle,
    Searching,
    DisplayingResults,
}

/// Whether keys currently go to the search bar or to navigation.
#[derive(Debug, Clone, Copy, PartialEq, Eq)]
pub enum InputMode {
    Typing,
    Idle,
}

/// The actions a user can take on the page.
#[derive(Debug, Clone, Copy, PartialEq, Eq)]
pub enum SearchPageActions {
    StartTyping,
    StopTyping,
    Search,
    ScrollUp,
    ScrollDown,
}

/// A key press, reduced to what routing distinguishes.
#[derive(Debug, Clone, Copy, PartialEq, Eq)]
pub enum Key {
    Char(char),
    Enter,
    Esc,
    Other,
}

/// Where a key press goes: it becomes an action, it is handed to the search
/// bar, or nothing happens.
#[derive(Debug, Clone, Copy, PartialEq, Eq)]
pub enum KeyRoute {
    Emit(SearchPageActions),
    ForwardToInput,
    Ignore,
}

/// The key routing table. In idle input mode `s` starts typing and `j`/`k`
/// scroll; while typing, enter submits a search unless one is in flight,
/// escape stops typing, and every other key belongs to the search bar.
pub open spec fn spec_route(mode: InputMode, state: PageState, key: Key) -> KeyRoute {
    match mode {
        InputMode::Idle => match key {
            Key::Char(c) => if c == 's' {
                KeyRoute::Emit(SearchPageActions::StartTyping)
            } else if c == 'j' {
                KeyRoute::Emit(SearchPageActions::ScrollDown)
            } else if c == 'k' {
                KeyRoute::Emit(SearchPageActions::ScrollUp)
            } else {
                KeyRoute::Ignore
            },
            _ => KeyRoute::Ignore,
        },
        InputMode::Typing => match key {
            Key::Enter => if state == PageState::Searching {
                KeyRoute::Ignore
            } else {
                KeyRoute::Emit(SearchPageActions::Search)
            },
            Key::Esc => KeyRoute::Emit(SearchPageActions::StopTyping),
            _ => KeyRoute::ForwardToInput,
        },
    }
}

/// The page: input mode, search state, and the result list with its cursor.
/// `P` is the terminal protocol handle that decoded covers eventually carry;
/// the page stores and routes such handles but never looks inside one.
#[derive(Debug, Clone, PartialEq)]
pub struct SearchPage<P> {
    pub input_mode: InputMode,
    pub state: PageState,
    pub mangas_found_list: MangasFoundList<P>,
}

/// An item built from one record of a search response: the record's fields,
/// and no image pipeline state yet.
pub open spec fn item_of<P>(m: MangaItem<P>, d: MangaData) -> bool {
    &&& m.id == d.id
    &&& m.title == d.title
    &&& m.description == d.description
    &&& m.tags == d.tags
    &&& m.image_state is None
}

/// The task owed for one record of a search response: fetch its cover when
/// the record names one, otherwise report at once that it has none.
pub open spec fn task_of<B, I>(t: PipelineTask<B, I>, d: MangaData) -> bool {
    match cover_file(d.relationships@) {
        Some(f) => t matches PipelineTask::FetchCover { manga_id, file_name } && manga_id == d.id
            && file_name == f,
        None => t matches PipelineTask::NotifyNoCover { manga_id } && manga_id == d.id,
    }
}

/// After a search completes with records: the page displays them, one item
/// per record in response order, and the cursor is reset.
pub open spec fn results_rebuilt<P>(
    pre: SearchPage<P>,
    post: SearchPage<P>,
    data: Seq<MangaData>,
) -> bool {
    &&& post.state == PageState::DisplayingResults
    &&& post.input_mode == pre.input_mode
    &&& post.mangas_found_list.selected is None
    &&& post.mangas_found_list.mangas@.len() == data.len()
    &&& forall|i: int|
        0 <= i < data.len() ==> item_of(#[trigger] post.mangas_found_list.mangas@[i], data[i])
}

/// After a search completes empty-handed: the page displays an empty list.
pub open spec fn results_cleared<P>(pre: SearchPage<P>, post: SearchPage<P>) -> bool {
    &&& post.state == PageState::DisplayingResults
    &&& post.input_mode == pre.input_mode
    &&& post.mangas_found_list.mangas@.len() == 0
    &&& post.mangas_found_list.selected is None
}

/// The tasks owed for a whole response: one per record, in response order.
pub open spec fn tasks_for<B, I>(tasks: Seq<PipelineTask<B, I>>, data: Seq<MangaData>) -> bool {
    &&& tasks.len() == data.len()
    &&& forall|i: int| 0 <= i < data.len() ==> task_of(#[trigger] tasks[i], data[i])
}

/// A decoded cover was attached to the first item carrying `id`: that item
/// gains a fresh, still-empty image state and nothing else changes.
pub open spec fn cover_attached<P>(pre: SearchPage<P>, post: SearchPage<P>, id: Seq<char>) -> bool {
    let k = first_id_index(pre.mangas_found_list.mangas@, id);
    let m = pre.mangas_found_list.mangas@[k];
    &&& post.state == pre.state
    &&& post.input_mode == pre.input_mode
    &&& post.mangas_found_list.selected == pre.mangas_found_list.selected
    &&& post.mangas_found_list.mangas@.len() == pre.mangas_found_list.mangas@.len()
    &&& forall|j: int|
        0 <= j < pre.mangas_found_list.mangas@.len() && j != k
            ==> post.mangas_found_list.mangas@[j] == pre.mangas_found_list.mangas@[j]
    &&& post.mangas_found_list.mangas@[k] == (MangaItem {
        image_state: Some(CoverState { protocol: None }),
        ..m
    })
}

/// A fresh protocol handle was delivered to the first item carrying `id`: if
/// that item has image state, its handle is replaced; otherwise, and for
/// every other item, nothing changes.
pub open spec fn redrawn<P>(
    pre: SearchPage<P>,
    post: SearchPage<P>,
    id: Seq<char>,
    proto: P,
) -> bool {
    let k = first_id_index(pre.mangas_found_list.mangas@, id);
    let m = pre.mangas_found_list.mangas@[k];
    &&& post.state == pre.state
    &&& post.input_mode == pre.input_mode
    &&& post.mangas_found_list.selected == pre.mangas_found_list.selected
    &&& post.mangas_found_list.mangas@.len() == pre.mangas_found_list.mangas@.len()
    &&& forall|j: int|
        0 <= j < pre.mangas_found_list.mangas@.len() && j != k
            ==> post.mangas_found_list.mangas@[j] == pre.mangas_found_list.mangas@[j]
    &&& (m.image_state is None ==> post.mangas_found_list.mangas@[k] == m)
    &&& (m.image_state is Some ==> post.mangas_found_list.mangas@[k] == (MangaItem {
        image_state: Some(CoverState { protocol: Some(proto) }),
        ..m
    }))
}

/// The cursor moved by one scroll step and nothing else changed.
pub open spec fn scrolled<P>(pre: SearchPage<P>, post: SearchPage<P>, down: bool) -> bool {
    &&& post.state == pre.state
    &&& post.input_mode == pre.input_mode
    &&& post.mangas_found_list.mangas == pre.mangas_found_list.mangas
    &&& post.mangas_found_list.selected == scroll_step(
        pre.mangas_found_list.mangas@.len(),
        pre.mangas_found_list.selected,
        down,
    )
}

impl<P> SearchPage<P> {
    /// The page is well formed when its result list is.
    pub open spec fn wf(&self) -> bool {
        self.mangas_found_list.wf()
    }

    /// A fresh page: idle, not searching, no results, no selection.
    pub fn init() -> (r: Self)
        ensures
            r.input_mode == InputMode::Idle,
            r.state == PageState::Idle,
            r.mangas_found_list.mangas@.len() == 0,
            r.mangas_found_list.selected is None,
            r.wf(),
    {
        SearchPage {
            input_mode: InputMode::Idle,
            state: PageState::Idle,
            mangas_found_list: MangasFoundList::new(),
        }
    }

    /// Puts the search bar in focus.
    pub fn focus_search_bar(&mut self)
        ensures
            *final(self) == (SearchPage { input_mode: InputMode::Typing, ..*old(self) }),
    {
        self.input_mode = InputMode::Typing;
    }

    /// Routes a key press according to the current input mode and, for the
    /// enter key, the current page state.
    pub fn handle_key_events(&self, key: Key) -> (r: KeyRoute)
        ensures
            r == spec_route(self.input_mode, self.state, key),
    {
        match self.input_mode {
            InputMode::Idle => match key {
                Key::Char(c) => {
                    if c == 's' {
                        KeyRoute::Emit(SearchPageActions::StartTyping)
                    } else if c == 'j' {
                        KeyRoute::Emit(SearchPageActions::ScrollDown)
                    } else if c == 'k' {
                        KeyRoute::Emit(SearchPageActions::ScrollUp)
                    } else {
                        KeyRoute::Ignore
                    }
                },
                _ => KeyRoute::Ignore,
            },
            InputMode::Typing => match key {
                Key::Enter => match self.state {
                    PageState::Searching => KeyRoute::Ignore,
                    _ => KeyRoute::Emit(SearchPageActions::Search),
                },
                Key::Esc => KeyRoute::Emit(SearchPageActions::StopTyping),
                _ => KeyRoute::ForwardToInput,
            },
        }
    }

    /// Moves the selection cursor one item down, clamped at the last item.
    pub fn scroll_down(&mut self)
        requires
            old(self).wf(),
        ensures
            final(self).wf(),
            scrolled(*old(self), *final(self), true),
    {
        let len = self.mangas_found_list.mangas.len();
        if len > 0 {
            self.mangas_found_list.selected = match self.mangas_found_list.selected {
                None => Some(0),
                Some(i) => if i + 1 < len {
                    Some(i + 1)
                } else {
                    Some(i)
                },
            };
        }
    }

    /// Moves the selection cursor one item up, clamped at the first item.
    pub fn scroll_up(&mut self)
        requires
            old(self).wf(),
        ensures
            final(self).wf(),
            scrolled(*old(self), *final(self), false),
    {
        let len = self.mangas_found_list.mangas.len();
        if len > 0 {
            self.mangas_found_list.selected = match self.mangas_found_list.selected {
                None => Some(len - 1),
                Some(i) => if i > 0 {
                    Some(i - 1)
                } else {
                    Some(i)
                },
            };
        }
    }

    /// Applies one user action. Returns whether the caller owes a search
    /// fetch: true exactly when the action is `Search` and no search is in
    /// flight, in which case the result list was cleared and the page is now
    /// searching. A `Search` while one is in flight changes nothing.
    pub fn update(&mut self, action: SearchPageActions) -> (start_search: bool)
        requires
            old(self).wf(),
        ensures
            final(self).wf(),
            match action {
                SearchPageActions::StartTyping => !start_search && *final(self) == (SearchPage {
                    input_mode: InputMode::Typing,
                    ..*old(self)
                }),
                SearchPageActions::StopTyping => !start_search && *final(self) == (SearchPage {
                    input_mode: InputMode::Idle,
                    ..*old(self)
                }),
                SearchPageActions::Search => if old(self).state == PageState::Searching {
                    !start_search && *final(self) == *old(self)
                } else {
                    &&& start_search
                    &&& final(self).state == PageState::Searching
                    &&& final(self).input_mode == old(self).input_mode
                    &&& final(self).mangas_found_list.mangas@.len() == 0
                    &&& final(self).mangas_found_list.selected is None
                },
                SearchPageActions::ScrollUp => !start_search && scrolled(
                    *old(self),
                    *final(self),
                    false,
                ),
                SearchPageActions::ScrollDown => !start_search && scrolled(
                    *old(self),
                    *final(self),
                    true,
                ),
            },
    {
        match action {
            SearchPageActions::StartTyping => {
                self.focus_search_bar();
                false
            },
            SearchPageActions::StopTyping => {
                self.input_mode = InputMode::Idle;
                false
            },
            SearchPageActions::Search => {
                match self.state {
                    PageState::Searching => false,
                    _ => {
                        self.state = PageState::Searching;
                        self.mangas_found_list.mangas = Vec::new();
                        self.mangas_found_list.selected = None;
                        true
                    },
                }
            },
            SearchPageActions::ScrollUp => {
                self.scroll_up();
                false
            },
            SearchPageActions::ScrollDown => {
                self.scroll_down();
                false
            },
        }
    }

    /// The item under the cursor, if any: what the preview pane shows.
    pub fn get_current_manga_selected(&self) -> (r: Option<&MangaItem<P>>)
        requires
            self.wf(),
        ensures
            match self.mangas_found_list.selected {
                Some(i) => r matches Some(m) && *m == self.mangas_found_list.mangas@[i as int],
                None => r is None,
            },
    {
        match self.mangas_found_list.selected {
            Some(i) => Some(&self.mangas_found_list.mangas[i]),
            None => None,
        }
    }

    /// Delivers a freshly re-encoded protocol handle, tagged with a manga id,
    /// to the list: the first item carrying that id takes it, an unknown id
    /// changes nothing. This is the only way a handle enters the page.
    pub fn apply_redraw(&mut self, new_protocol: P, manga_id: &String)
        requires
            old(self).wf(),
        ensures
            final(self).wf(),
            !has_id(old(self).mangas_found_list.mangas@, manga_id@) ==> *final(self) == *old(
                self,
            ),
            has_id(old(self).mangas_found_list.mangas@, manga_id@) ==> redrawn(
                *old(self),
                *final(self),
                manga_id@,
                new_protocol,
            ),
    {
        match find_by_id(&self.mangas_found_list.mangas, manga_id) {
            Some(k) => {
                let ghost m0 = self.mangas_found_list.mangas@;
                let item = self.mangas_found_list.mangas.remove(k);
                if item.image_state.is_some() {
                    let item2 = MangaItem {
                        image_state: Some(CoverState { protocol: Some(new_protocol) }),
                        ..item
                    };
                    self.mangas_found_list.mangas.insert(k, item2);
                } else {
                    self.mangas_found_list.mangas.insert(k, item);
                }
                proof {
                    assert(self.mangas_found_list.mangas@ =~= m0.update(
                        k as int,
                        self.mangas_found_list.mangas@[k as int],
                    ));
                }
            },
            None => {},
        }
    }

    /// Takes the selected-for-rendering protocol handle of the first item
    /// carrying `manga_id` out of the page, so the render layer can hand it
    /// to that item's resize worker; it comes back through `apply_redraw`.
    /// Returns `None`, changing nothing, when the id is unknown, the item has
    /// no image state, or the handle is already away.
    pub fn take_cover_protocol(&mut self, manga_id: &String) -> (r: Option<P>)
        requires
            old(self).wf(),
        ensures
            final(self).wf(),
            !has_id(old(self).mangas_found_list.mangas@, manga_id@) ==> *final(self) == *old(self)
                && r is None,
            has_id(old(self).mangas_found_list.mangas@, manga_id@) ==> protocol_taken(
                *old(self),
                *final(self),
                manga_id@,
                r,
            ),
    {
        match find_by_id(&self.mangas_found_list.mangas, manga_id) {
            Some(k) => {
                let ghost m0 = self.mangas_found_list.mangas@;
                let item = self.mangas_found_list.mangas.remove(k);
                let MangaItem { id, title, description, tags, image_state } = item;
                let r: Option<P>;
                let new_state: Option<CoverState<P>>;
                match image_state {
                    Some(cs) => {
                        r = cs.protocol;
                        new_state = Some(CoverState { protocol: None });
                    },
                    None => {
                        r = None;
                        new_state = None;
                    },
                }
                self.mangas_found_list.mangas.insert(
                    k,
                    MangaItem { id, title, description, tags, image_state: new_state },
                );
                proof {
                    assert(self.mangas_found_list.mangas@ =~= m0.update(
                        k as int,
                        self.mangas_found_list.mangas@[k as int],
                    ));
                }
                r
            },
            None => None,
        }
    }

    /// Drains at most the one pending pipeline event handed to it and applies
    /// it, returning the background work the caller now owes. With no event
    /// pending the page is left exactly as it was. A search completion
    /// replaces the results and owes one task per record; fetched cover
    /// bytes owe a decode; a decoded cover is attached to its item and owes
    /// a prepared handle; a failed stage, or an id no longer in the list,
    /// owes nothing and changes nothing.
    pub fn tick<B, I>(&mut self, event: Option<SearchPageEvents<B, I>>) -> (tasks: Vec<
        PipelineTask<B, I>,
    >)
        requires
            old(self).wf(),
        ensures
            final(self).wf(),
            event is None ==> *final(self) == *old(self) && tasks@.len() == 0,
            event matches Some(SearchPageEvents::LoadMangasFound(None)) ==> results_cleared(
                *old(self),
                *final(self),
            ) && tasks@.len() == 0,
            event matches Some(SearchPageEvents::LoadMangasFound(Some(resp)))
                ==> results_rebuilt(*old(self), *final(self), resp.data@) && tasks_for(
                tasks@,
                resp.data@,
            ),
            event matches Some(SearchPageEvents::DecodeImage(Some(b), id)) ==> *final(self)
                == *old(self) && tasks@.len() == 1 && tasks@[0]
                == (PipelineTask::<B, I>::DecodeCover { manga_id: id, bytes: b }),
            event matches Some(SearchPageEvents::DecodeImage(None, _)) ==> *final(self) == *old(
                self,
            ) && tasks@.len() == 0,
            event matches Some(SearchPageEvents::LoadCover(Some(img), id)) ==> {
                &&& !has_id(old(self).mangas_found_list.mangas@, id@) ==> *final(self) == *old(
                    self,
                ) && tasks@.len() == 0
                &&& has_id(old(self).mangas_found_list.mangas@, id@) ==> cover_attached(
                    *old(self),
                    *final(self),
                    id@,
                ) && tasks@.len() == 1 && tasks@[0] == (PipelineTask::<B, I>::PrepareCover {
                    manga_id: id,
                    image: img,
                })
            },
            event matches Some(SearchPageEvents::LoadCover(None, _)) ==> *final(self) == *old(
                self,
            ) && tasks@.len() == 0,
    {
        let mut tasks: Vec<PipelineTask<B, I>> = Vec::new();
        match event {
            None => {},
            Some(SearchPageEvents::LoadMangasFound(response)) => {
                self.state = PageState::DisplayingResults;
                match response {
                    Some(resp) => {
                        let mut data = resp.data;
                        let ghost orig = data@;
                        let mut mangas: Vec<MangaItem<P>> = Vec::new();
                        proof {
                            assert(data@ =~= orig.skip(0));
                        }
                        while data.len() > 0
                            invariant
                                mangas@.len() + data@.len() == orig.len(),
                                tasks@.len() == mangas@.len(),
                                data@ == orig.skip(mangas@.len() as int),
                                forall|i: int|
                                    0 <= i < mangas@.len() ==> item_of(
                                        #[trigger] mangas@[i],
                                        orig[i],
                                    ),
                                forall|i: int|
                                    0 <= i < tasks@.len() ==> task_of(
                                        #[trigger] tasks@[i],
                                        orig[i],
                                    ),
                            decreases data@.len(),
                        {
                            let d = data.remove(0);
                            let cover = find_cover_file(&d.relationships);
                            match cover {
                                Some(file_name) => {
                                    tasks.push(
                                        PipelineTask::FetchCover {
                                            manga_id: d.id.clone(),
                                            file_name,
                                        },
                                    );
                                },
                                None => {
                                    tasks.push(
                                        PipelineTask::NotifyNoCover { manga_id: d.id.clone() },
                                    );
                                },
                            }
                            mangas.push(
                                MangaItem {
                                    id: d.id,
                                    title: d.title,
                                    description: d.description,
                                    tags: d.tags,
                                    image_state: None,
                                },
                            );
                            proof {
                                assert(data@ =~= orig.skip(mangas@.len() as int));
                            }
                        }
                        self.mangas_found_list.mangas = mangas;
                        self.mangas_found_list.selected = None;
                    },
                    None => {
                        self.mangas_found_list.mangas = Vec::new();
                        self.mangas_found_list.selected = None;
                    },
                }
            },
            Some(SearchPageEvents::DecodeImage(maybe_bytes, manga_id)) => {
                match maybe_bytes {
                    Some(bytes) => {
                        tasks.push(PipelineTask::DecodeCover { manga_id, bytes });
                    },
                    None => {},
                }
            },
            Some(SearchPageEvents::LoadCover(maybe_image, manga_id)) => {
                match maybe_image {
                    Some(image) => {
                        match find_by_id(&self.mangas_found_list.mangas, &manga_id) {
                            Some(k) => {
                                let ghost m0 = self.mangas_found_list.mangas@;
                                let item = self.mangas_found_list.mangas.remove(k);
                                let item2 = MangaItem {
                                    image_state: Some(CoverState { protocol: None }),
                                    ..item
                                };
                                self.mangas_found_list.mangas.insert(k, item2);
                                tasks.push(
                                    PipelineTask::PrepareCover { manga_id, image },
                                );
                                proof {
                                    assert(self.mangas_found_list.mangas@ =~= m0.update(
                                        k as int,
                                        self.mangas_found_list.mangas@[k as int],
                                    ));
                                }
                            },
                            None => {},
                        }
                    },
                    None => {},
                }
            },
        }
        tasks
    }
}

/// The protocol handle of the first item carrying `id` left the page: `r` is
/// whatever that item's image state held (absent if it held none), the image
/// state itself stays but is now empty-handed, and nothing else changes.
pub open spec fn protocol_taken<P>(
    pre: SearchPage<P>,
    post: SearchPage<P>,
    id: Seq<char>,
    r: Option<P>,
) -> bool {
    let k = first_id_index(pre.mangas_found_list.mangas@, id);
    let m = pre.mangas_found_list.mangas@[k];
    &&& post.state == pre.state
    &&& post.input_mode == pre.input_mode
    &&& post.mangas_found_list.selected == pre.mangas_found_list.selected
    &&& post.mangas_found_list.mangas@.len() == pre.mangas_found_list.mangas@.len()
    &&& forall|j: int|
        0 <= j < pre.mangas_found_list.mangas@.len() && j != k
            ==> post.mangas_found_list.mangas@[j] == pre.mangas_found_list.mangas@[j]
    &&& (m.image_state is None ==> post.mangas_found_list.mangas@[k] == m && r is None)
    &&& (m.image_state matches Some(cs) ==> r == cs.protocol
        && post.mangas_found_list.mangas@[k] == (MangaItem {
        image_state: Some(CoverState { protocol: None }),
        ..m
    }))
}

} // verus!
