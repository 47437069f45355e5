//! The relational store and its data-access operations.
//!
//! `Store` models the two tables the service queries. Rows are
//! kept in ascending identity order, identities are assigned from a
//! counter on insert and never reused, and no referential check ties a
//! painting's `artist_id` or `gallery_id` to an existing row: uniqueness
//! of the identity is the only invariant this layer enforces.

use vstd::prelude::*;
use crate::model::{
    Artist, ArtistModel, DbError, Painting, PaintingModel, artists_view, paintings_view,
};

verus! {

/// The model of the store: the two queried tables and the next identity
/// each would assign.
pub struct StoreModel {
    pub artists: Seq<ArtistModel>,
    pub paintings: Seq<PaintingModel>,
    pub next_artist_id: int,
    pub next_painting_id: int,
}

/// Whether `id` is an assigned identity below `bound`.
pub open spec fn assigned_below(id: Option<int>, bound: int) -> bool {
    match id {
        Some(n) => 1 <= n < bound,
        None => false,
    }
}

/// The identity of an artist row; rows in a well-formed store always
/// have one.
pub open spec fn artist_id_of(a: ArtistModel) -> int {
    a.id->0
}

/// The identity of a painting row; rows in a well-formed store always
/// have one.
pub open spec fn painting_id_of(p: PaintingModel) -> int {
    p.id->0
}

impl StoreModel {
    /// Well-formedness: every row carries an identity below the table's
    /// counter, and identities strictly increase down each table, so each
    /// table is sorted by identity and identities are unique.
    pub open spec fn wf(self) -> bool {
        &&& 1 <= self.next_artist_id <= i32::MAX
        &&& 1 <= self.next_painting_id <= i32::MAX
        &&& forall|i: int|
            0 <= i < self.artists.len() ==> assigned_below(
                #[trigger] self.artists[i].id,
                self.next_artist_id,
            )
        &&& forall|i: int, j: int|
            0 <= i < j < self.artists.len() ==> artist_id_of(#[trigger] self.artists[i])
                < artist_id_of(#[trigger] self.artists[j])
        &&& forall|i: int|
            0 <= i < self.paintings.len() ==> assigned_below(
                #[trigger] self.paintings[i].id,
                self.next_painting_id,
            )
        &&& forall|i: int, j: int|
            0 <= i < j < self.paintings.len() ==> painting_id_of(#[trigger] self.paintings[i])
                < painting_id_of(#[trigger] self.paintings[j])
    }

    /// Whether another artist row can still be assigned an identity.
    pub open spec fn can_insert_artist(self) -> bool {
        self.next_artist_id < i32::MAX
    }

    /// Whether another painting row can still be assigned an identity.
    pub open spec fn can_insert_painting(self) -> bool {
        self.next_painting_id < i32::MAX
    }

    /// The store after a successful artist insert: the submitted fields
    /// are stored under the next identity, which is consumed.
    pub open spec fn with_artist(self, name: Seq<char>, age: int) -> StoreModel {
        StoreModel {
            artists: self.artists.push(
                ArtistModel { id: Some(self.next_artist_id), name, age },
            ),
            next_artist_id: self.next_artist_id + 1,
            ..self
        }
    }

    /// The store after a successful painting insert: the submitted fields
    /// are stored under the next identity, which is consumed. No check
    /// ties `artist_id` or `gallery_id` to an existing row.
    pub open spec fn with_painting(
        self,
        title: Seq<char>,
        artist_id: int,
        gallery_id: int,
    ) -> StoreModel {
        StoreModel {
            paintings: self.paintings.push(
                PaintingModel { id: Some(self.next_painting_id), title, artist_id, gallery_id },
            ),
            next_painting_id: self.next_painting_id + 1,
            ..self
        }
    }

    /// Whether some artist row carries the identity `id`.
    pub open spec fn has_artist(self, id: int) -> bool {
        exists|i: int| 0 <= i < self.artists.len() && self.artists[i].id == Some(id)
    }

    /// The index of the artist row carrying the identity `id`.
    pub open spec fn artist_index(self, id: int) -> int {
        choose|i: int| 0 <= i < self.artists.len() && self.artists[i].id == Some(id)
    }

    /// The artist row carrying the identity `id`.
    pub open spec fn artist_at(self, id: int) -> ArtistModel {
        self.artists[self.artist_index(id)]
    }

    /// Whether some painting row carries the identity `id`.
    pub open spec fn has_painting(self, id: int) -> bool {
        exists|i: int| 0 <= i < self.paintings.len() && self.paintings[i].id == Some(id)
    }

    /// The index of the painting row carrying the identity `id`.
    pub open spec fn painting_index(self, id: int) -> int {
        choose|i: int| 0 <= i < self.paintings.len() && self.paintings[i].id == Some(id)
    }

    /// The painting row carrying the identity `id`.
    pub open spec fn painting_at(self, id: int) -> PaintingModel {
        self.paintings[self.painting_index(id)]
    }

    /// The painting rows whose `artist_id` is `artist_id`, in table order.
    pub open spec fn paintings_of(self, artist_id: int) -> Seq<PaintingModel> {
        rows_of_artist(self.paintings, artist_id)
    }
}

/// The rows of `ps` whose `artist_id` is `artist_id`, in order.
pub open spec fn rows_of_artist(ps: Seq<PaintingModel>, artist_id: int) -> Seq<PaintingModel>
    decreases ps.len(),
{
    if ps.len() == 0 {
        Seq::empty()
    } else {
        let rest = rows_of_artist(ps.drop_last(), artist_id);
        if ps.last().artist_id == artist_id {
            rest.push(ps.last())
        } else {
            rest
        }
    }
}

/// In a well-formed table at most one row carries a given identity:
/// any two matching indices are equal.
pub proof fn lemma_artist_index_unique(s: StoreModel, id: int, i: int, j: int)
    requires
        s.wf(),
        0 <= i < s.artists.len(),
        0 <= j < s.artists.len(),
        s.artists[i].id == Some(id),
        s.artists[j].id == Some(id),
    ensures
        i == j,
{
    if i < j {
        assert(artist_id_of(s.artists[i]) < artist_id_of(s.artists[j]));
    } else if j < i {
        assert(artist_id_of(s.artists[j]) < artist_id_of(s.artists[i]));
    }
}

/// As `lemma_artist_index_unique`, for the painting table.
pub proof fn lemma_painting_index_unique(s: StoreModel, id: int, i: int, j: int)
    requires
        s.wf(),
        0 <= i < s.paintings.len(),
        0 <= j < s.paintings.len(),
        s.paintings[i].id == Some(id),
        s.paintings[j].id == Some(id),
    ensures
        i == j,
{
    if i < j {
        assert(painting_id_of(s.paintings[i]) < painting_id_of(s.paintings[j]));
    } else if j < i {
        assert(painting_id_of(s.paintings[j]) < painting_id_of(s.paintings[i]));
    }
}

/// The store: two queried tables sorted by identity, and the counter
/// each draws its next identity from.
pub struct Store {
    artists: Vec<Artist>,
    paintings: Vec<Painting>,
    next_artist_id: i32,
    next_painting_id: i32,
}

impl View for Store {
    type V = StoreModel;

    closed spec fn view(&self) -> StoreModel {
        StoreModel {
            artists: artists_view(self.artists@),
            paintings: paintings_view(self.paintings@),
            next_artist_id: self.next_artist_id as int,
            next_painting_id: self.next_painting_id as int,
        }
    }
}

impl Store {
    /// Well-formedness of the store is that of its model.
    pub open spec fn wf(&self) -> bool {
        self@.wf()
    }

    /// An empty store: no rows, and both tables will assign identity 1
    /// first.
    pub fn new() -> (s: Store)
        ensures
            s.wf(),
            s@.artists.len() == 0,
            s@.paintings.len() == 0,
            s@.next_artist_id == 1,
            s@.next_painting_id == 1,
    {
        Store { artists: Vec::new(), paintings: Vec::new(), next_artist_id: 1, next_painting_id: 1 }
    }

    /// Inserts an artist row with the submitted name and age under the
    /// next identity. Fails only when the identity space is exhausted;
    /// the generated identity is not read back.
    pub fn insert_artist(&mut self, name: String, age: i32) -> (r: Result<(), DbError>)
        requires
            old(self).wf(),
        ensures
            final(self).wf(),
            old(self)@.can_insert_artist() ==> r == Ok::<(), DbError>(())
                && final(self)@ == old(self)@.with_artist(name@, age as int),
            !old(self)@.can_insert_artist() ==> r == Err::<(), DbError>(DbError::Database)
                && final(self)@ == old(self)@,
    {
        if self.next_artist_id == i32::MAX {
            return Err(DbError::Database);
        }
        let id = self.next_artist_id;
        self.artists.push(Artist { id: Some(id), name, age });
        self.next_artist_id = id + 1;
        proof {
            assert(self@.artists =~= old(self)@.with_artist(name@, age as int).artists);
            assert(self@.paintings =~= old(self)@.paintings);
            assert(self@ == old(self)@.with_artist(name@, age as int));
        }
        Ok(())
    }

    /// Inserts a painting row with the submitted title and references
    /// under the next identity. No referential check is made: whether
    /// the named artist or gallery exists does not matter here. Fails
    /// only when the identity space is exhausted.
    pub fn insert_painting(
        &mut self,
        title: String,
        artist_id: i32,
        gallery_id: i32,
    ) -> (r: Result<(), DbError>)
        requires
            old(self).wf(),
        ensures
            final(self).wf(),
            old(self)@.can_insert_painting() ==> r == Ok::<(), DbError>(())
                && final(self)@ == old(self)@.with_painting(
                title@,
                artist_id as int,
                gallery_id as int,
            ),
            !old(self)@.can_insert_painting() ==> r == Err::<(), DbError>(DbError::Database)
                && final(self)@ == old(self)@,
    {
        if self.next_painting_id == i32::MAX {
            return Err(DbError::Database);
        }
        let id = self.next_painting_id;
        self.paintings.push(Painting { id: Some(id), title, artist_id, gallery_id });
        self.next_painting_id = id + 1;
        proof {
            assert(self@.paintings =~= old(self)@.with_painting(
                title@,
                artist_id as int,
                gallery_id as int,
            ).paintings);
            assert(self@.artists =~= old(self)@.artists);
            assert(self@ == old(self)@.with_painting(title@, artist_id as int, gallery_id as int));
        }
        Ok(())
    }

    /// Every artist row, in ascending identity order. Never fails.
    pub fn list_artists(&self) -> (r: Result<Vec<Artist>, DbError>)
        requires
            self.wf(),
        ensures
            r matches Ok(rows) && artists_view(rows@) == self@.artists,
    {
        let mut rows: Vec<Artist> = Vec::new();
        let mut i: usize = 0;
        while i < self.artists.len()
            invariant
                0 <= i <= self.artists.len(),
                rows@.len() == i,
                forall|k: int| 0 <= k < i ==> (#[trigger] rows@[k])@ == self@.artists[k],
            decreases self.artists.len() - i,
        {
            rows.push(self.artists[i].duplicate());
            i = i + 1;
        }
        proof {
            assert(artists_view(rows@) =~= self@.artists);
        }
        Ok(rows)
    }

    /// Every painting row, in ascending identity order. Never fails.
    pub fn list_paintings(&self) -> (r: Result<Vec<Painting>, DbError>)
        requires
            self.wf(),
        ensures
            r matches Ok(rows) && paintings_view(rows@) == self@.paintings,
    {
        let mut rows: Vec<Painting> = Vec::new();
        let mut i: usize = 0;
        while i < self.paintings.len()
            invariant
                0 <= i <= self.paintings.len(),
                rows@.len() == i,
                forall|k: int| 0 <= k < i ==> (#[trigger] rows@[k])@ == self@.paintings[k],
            decreases self.paintings.len() - i,
        {
            rows.push(self.paintings[i].duplicate());
            i = i + 1;
        }
        proof {
            assert(paintings_view(rows@) =~= self@.paintings);
        }
        Ok(rows)
    }

    /// The artist row carrying the identity `id`, or `NotFound` when no
    /// row does.
    pub fn get_artist_by_id(&self, id: i32) -> (r: Result<Artist, DbError>)
        requires
            self.wf(),
        ensures
            self@.has_artist(id as int) ==> (r matches Ok(a) && a@ == self@.artist_at(id as int)),
            !self@.has_artist(id as int) ==> r == Err::<Artist, DbError>(DbError::NotFound),
    {
        let mut i: usize = 0;
        while i < self.artists.len()
            invariant
                self.wf(),
                0 <= i <= self.artists.len(),
                forall|k: int| 0 <= k < i ==> (#[trigger] self@.artists[k].id) != Some(id as int),
            decreases self.artists.len() - i,
        {
            let row = &self.artists[i];
            match row.id {
                Some(row_id) => {
                    if row_id == id {
                        proof {
                            let j = self@.artist_index(id as int);
                            lemma_artist_index_unique(self@, id as int, i as int, j);
                        }
                        return Ok(row.duplicate());
                    }
                },
                None => {},
            }
            i = i + 1;
        }
        Err(DbError::NotFound)
    }

    /// The painting row carrying the identity `id`, or `NotFound` when
    /// no row does.
    pub fn get_painting_by_id(&self, id: i32) -> (r: Result<Painting, DbError>)
        requires
            self.wf(),
        ensures
            self@.has_painting(id as int) ==> (r matches Ok(p) && p@ == self@.painting_at(id as int)),
            !self@.has_painting(id as int) ==> r == Err::<Painting, DbError>(DbError::NotFound),
    {
        let mut i: usize = 0;
        while i < self.paintings.len()
            invariant
                self.wf(),
                0 <= i <= self.paintings.len(),
                forall|k: int| 0 <= k < i ==> (#[trigger] self@.paintings[k].id) != Some(id as int),
            decreases self.paintings.len() - i,
        {
            let row = &self.paintings[i];
            match row.id {
                Some(row_id) => {
                    if row_id == id {
                        proof {
                            let j = self@.painting_index(id as int);
                            lemma_painting_index_unique(self@, id as int, i as int, j);
                        }
                        return Ok(row.duplicate());
                    }
                },
                None => {},
            }
            i = i + 1;
        }
        Err(DbError::NotFound)
    }

    /// The painting rows whose `artist_id` is `artist_id`, in table
    /// order. An empty result is valid: an artist may have no paintings.
    /// Never fails.
    pub fn list_paintings_by_artist(&self, artist_id: i32) -> (r: Result<Vec<Painting>, DbError>)
        requires
            self.wf(),
        ensures
            r matches Ok(rows) && paintings_view(rows@) == self@.paintings_of(artist_id as int),
    {
        let mut rows: Vec<Painting> = Vec::new();
        let mut i: usize = 0;
        proof {
            assert(paintings_view(rows@) =~= rows_of_artist(
                self@.paintings.take(0),
                artist_id as int,
            ));
        }
        while i < self.paintings.len()
            invariant
                0 <= i <= self.paintings.len(),
                paintings_view(rows@) == rows_of_artist(
                    self@.paintings.take(i as int),
                    artist_id as int,
                ),
            decreases self.paintings.len() - i,
        {
            let row = &self.paintings[i];
            proof {
                let taken = self@.paintings.take(i as int + 1);
                assert(taken.drop_last() =~= self@.paintings.take(i as int));
                assert(taken.last() == self@.paintings[i as int]);
            }
            if row.artist_id == artist_id {
                rows.push(row.duplicate());
            }
            i = i + 1;
            proof {
                assert(paintings_view(rows@) =~= rows_of_artist(
                    self@.paintings.take(i as int),
                    artist_id as int,
                ));
            }
        }
        proof {
            assert(self@.paintings.take(self.paintings@.len() as int) =~= self@.paintings);
        }
        Ok(rows)
    }
}

} // verus!
