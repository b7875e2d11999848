use vstd::prelude::*;

verus! {

/// The image pipeline state that a result item carries once its cover has
/// decoded: the renderable protocol handle, absent until the resize worker
/// reports one back and while the handle is away being re-encoded.
#[derive(Debug, Clone, PartialEq)]
pub struct CoverState<P> {
    pub protocol: Option<P>,
}

/// One entry of the result list. Created when a search response is applied
/// and never changed afterwards, except to attach or replace `image_state`.
/// `P` is the terminal protocol handle produced for its cover.
#[derive(Debug, Clone, PartialEq)]
pub struct MangaItem<P> {
    pub id: String,
    pub title: String,
    pub description: String,
    pub tags: Vec<String>,
    pub image_state: Option<CoverState<P>>,
}

/// The ordered result list together with its selection cursor.
#[derive(Debug, Clone, PartialEq)]
pub struct MangasFoundList<P> {
    pub mangas: Vec<MangaItem<P>>,
    pub selected: Option<usize>,
}

/// Whether some item of `s` carries the id `id`.
pub open spec fn has_id<P>(s: Seq<MangaItem<P>>, id: Seq<char>) -> bool {
    exists|i: int| 0 <= i < s.len() && s[i].id@ == id
}

/// The index of the first item of `s` that carries the id `id`
/// (meaningful only when `has_id(s, id)`).
pub open spec fn first_id_index<P>(s: Seq<MangaItem<P>>, id: Seq<char>) -> int
    decreases s.len(),
{
    if s.len() == 0 {
        0
    } else if s[0].id@ == id {
        0
    } else {
        1 + first_id_index(s.drop_first(), id)
    }
}

/// When `id` occurs in `s`, `first_id_index` names a valid index, that index
/// carries `id`, and no earlier index does.
pub proof fn lemma_first_id_index<P>(s: Seq<MangaItem<P>>, id: Seq<char>)
    requires
        has_id(s, id),
    ensures
        0 <= first_id_index(s, id) < s.len(),
        s[first_id_index(s, id)].id@ == id,
        forall|j: int| 0 <= j < first_id_index(s, id) ==> s[j].id@ != id,
    decreases s.len(),
{
    if s[0].id@ == id {
    } else {
        let w = choose|i: int| 0 <= i < s.len() && s[i].id@ == id;
        assert(s.drop_first()[w - 1].id@ == id);
        lemma_first_id_index(s.drop_first(), id);
        let k = first_id_index(s.drop_first(), id);
        assert forall|j: int| 0 <= j < 1 + k implies s[j].id@ != id by {
            if j > 0 {
                assert(s.drop_first()[j - 1].id@ != id);
            }
        }
    }
}

/// Whether a selection cursor is valid for a list of `len` items: if present,
/// it names an index of the list.
pub open spec fn cursor_in_bounds(len: nat, sel: Option<usize>) -> bool {
    sel matches Some(i) ==> (i as int) < len
}

/// What one scroll move does to the cursor: on an empty list it stays absent;
/// from no selection it enters at the nearest end; otherwise it moves by one
/// and stops at the ends, never wrapping around.
pub open spec fn scroll_step(len: nat, sel: Option<usize>, down: bool) -> Option<usize> {
    if len == 0 {
        None
    } else {
        match sel {
            None => if down {
                Some(0usize)
            } else {
                Some((len - 1) as usize)
            },
            Some(i) => if down {
                if (i as nat) + 1 < len {
                    Some((i + 1) as usize)
                } else {
                    Some(i)
                }
            } else {
                if i > 0 {
                    Some((i - 1) as usize)
                } else {
                    Some(i)
                }
            },
        }
    }
}

impl<P> MangasFoundList<P> {
    /// The list is well formed when its cursor, if present, is a valid index.
    pub open spec fn wf(&self) -> bool {
        cursor_in_bounds(self.mangas@.len(), self.selected)
    }

    /// An empty list with no selection.
    pub fn new() -> (r: Self)
        ensures
            r.mangas@ =~= Seq::<MangaItem<P>>::empty(),
            r.selected is None,
            r.wf(),
    {
        MangasFoundList { mangas: Vec::new(), selected: None }
    }
}

/// Finds the first item carrying `id`, the way every pipeline event is
/// matched to the list: by the id tag alone.
pub fn find_by_id<P>(mangas: &Vec<MangaItem<P>>, id: &String) -> (r: Option<usize>)
    ensures
        match r {
            Some(k) => has_id(mangas@, id@) && k as int == first_id_index(mangas@, id@) && (
            k as int) < mangas@.len() && mangas@[k as int].id@ == id@,
            None => !has_id(mangas@, id@),
        },
{
    let mut i: usize = 0;
    while i < mangas.len()
        invariant
            i <= mangas@.len(),
            forall|j: int| 0 <= j < i ==> mangas@[j].id@ != id@,
        decreases mangas@.len() - i,
    {
        if mangas[i].id == *id {
            proof {
                lemma_first_id_index(mangas@, id@);
                let k = first_id_index(mangas@, id@);
                if k < i {
                    assert(mangas@[k].id@ != id@);
                }
            }
            return Some(i);
        }
        i = i + 1;
    }
    None
}

} // verus!
