//! What the routes guarantee, stated over the store's model and the
//! handlers' response models and proved once for every store and every
//! payload.

use vstd::prelude::*;
use crate::model::{ArtistModel, ArtistWithPaintingsModel, DbError, PaintingModel};
use crate::store::{StoreModel, rows_of_artist};
use crate::handlers::{get_artist_with_paintings_model, get_artists_model};

verus! {

/// Whether some entry of `rows` carries this name and age.
pub open spec fn lists_entry(rows: Seq<ArtistModel>, name: Seq<char>, age: int) -> bool {
    exists|i: int|
        0 <= i < rows.len() && (#[trigger] rows[i]).name == name && rows[i].age == age
}

/// Creating an artist and then listing all artists yields an array that
/// contains an entry with the submitted name and age, whatever the
/// store held before and whatever else it holds.
pub proof fn created_artist_is_listed(s: StoreModel, submitted: ArtistModel)
    requires
        s.wf(),
        s.can_insert_artist(),
    ensures
        ({
            let listing = get_artists_model(s.with_artist(submitted.name, submitted.age));
            listing matches Ok(p) && p.0 == 200 && lists_entry(
                p.1,
                submitted.name,
                submitted.age,
            )
        }),
{
    let after = s.with_artist(submitted.name, submitted.age);
    let w = s.artists.len() as int;
    assert(after.artists[w].name == submitted.name && after.artists[w].age == submitted.age);
    assert(lists_entry(after.artists, submitted.name, submitted.age));
}

/// Listing all artists never fails: on every store it answers 200, and
/// on an empty table the array it answers with is empty.
pub proof fn empty_table_lists_empty(s: StoreModel)
    requires
        s.wf(),
    ensures
        get_artists_model(s) is Ok && get_artists_model(s)->Ok_0.0 == 200,
        s.artists.len() == 0 ==> get_artists_model(s) == Ok::<
            (int, Seq<ArtistModel>),
            (int, DbError),
        >((200, Seq::<ArtistModel>::empty())),
{
    if s.artists.len() == 0 {
        assert(s.artists =~= Seq::<ArtistModel>::empty());
    }
}

/// Looking an artist up under an identity no row carries answers 404
/// with the not-found kind — never 200 and never 500.
pub proof fn missing_artist_answers_not_found(s: StoreModel, id: int)
    requires
        s.wf(),
        !s.has_artist(id),
    ensures
        get_artist_with_paintings_model(s, id) == Err::<
            (int, ArtistWithPaintingsModel),
            (int, DbError),
        >((404, DbError::NotFound)),
{
}

/// No row of `ps` names `artist_id`, so the rows of that artist are
/// none.
proof fn lemma_rows_of_artist_none(ps: Seq<PaintingModel>, artist_id: int)
    requires
        forall|i: int| 0 <= i < ps.len() ==> (#[trigger] ps[i]).artist_id != artist_id,
    ensures
        rows_of_artist(ps, artist_id).len() == 0,
    decreases ps.len(),
{
    if ps.len() > 0 {
        lemma_rows_of_artist_none(ps.drop_last(), artist_id);
    }
}

/// Looking up an artist that exists but has no paintings answers 200
/// with the artist's name and an empty paintings array.
pub proof fn artist_without_paintings_gets_empty_array(s: StoreModel, id: int)
    requires
        s.wf(),
        s.has_artist(id),
        forall|i: int| 0 <= i < s.paintings.len() ==> (#[trigger] s.paintings[i]).artist_id != id,
    ensures
        get_artist_with_paintings_model(s, id) matches Ok(p) && p.0 == 200 && p.1.name
            == s.artist_at(id).name && p.1.paintings.len() == 0,
{
    lemma_rows_of_artist_none(s.paintings, id);
}

/// Two creations with distinct payloads, in whichever order the store
/// carried them out, both succeed and persist two distinct rows: each
/// payload is stored whole, under its own identity, and neither insert
/// loses the other's row.
pub proof fn distinct_creations_persist_distinct_rows(
    s: StoreModel,
    first: ArtistModel,
    second: ArtistModel,
)
    requires
        s.wf(),
        s.next_artist_id + 1 < i32::MAX,
    ensures
        ({
            let once = s.with_artist(first.name, first.age);
            let twice = once.with_artist(second.name, second.age);
            let a = twice.artists[s.artists.len() as int];
            let b = twice.artists[s.artists.len() as int + 1];
            &&& once.can_insert_artist()
            &&& twice.wf()
            &&& twice.artists.len() == s.artists.len() + 2
            &&& a.name == first.name && a.age == first.age
            &&& b.name == second.name && b.age == second.age
            &&& a.id != b.id
        }),
{
}

/// Inserting a painting whose `artist_id` names no artist row succeeds
/// all the same: this layer makes no referential check, so whenever an
/// identity is free the row is persisted as submitted, absent artist or
/// not.
pub proof fn painting_insert_needs_no_artist(s: StoreModel, submitted: PaintingModel)
    requires
        s.wf(),
        s.can_insert_painting(),
        !s.has_artist(submitted.artist_id),
    ensures
        ({
            let after = s.with_painting(
                submitted.title,
                submitted.artist_id,
                submitted.gallery_id,
            );
            &&& after.wf()
            &&& after.paintings.len() == s.paintings.len() + 1
            &&& after.paintings.last().title == submitted.title
            &&& after.paintings.last().artist_id == submitted.artist_id
            &&& after.paintings.last().gallery_id == submitted.gallery_id
        }),
{
}

} // verus!
