//! The request handlers: one per route, each a mapping from the request
//! and the store to a status code and a body.
//!
//! Creation echoes the submitted payload back unchanged — the assigned
//! identity is not read back, so a created artist is returned with the
//! `None` identity it was submitted with — and answers 201, or 500 when
//! the insert fails. Listings answer 200 with every row, or 500 when the
//! statement fails. Lookups answer 200 with the joined body, 404 when
//! either query finds no row, and 500 when one fails for any other
//! database reason. Every failure carries its kind beside the status
//! code, so the edge can serve one consistent error body.
//!
//! Each handler's outcome is fixed by a spec function of the store's
//! model, so that what a route answers on a given store is a single
//! mathematical value. The `*_response` functions carry the same
//! decisions for a caller that runs the queries itself against an
//! outside database and hands their outcomes in as plain values.

use vstd::prelude::*;
use crate::model::{
    Artist, ArtistModel, ArtistWithPaintings, ArtistWithPaintingsModel, DbError, Painting,
    PaintingModel, PaintingWithArtist, PaintingWithArtistModel, artists_view, paintings_view,
};
use crate::store::{Store, StoreModel};

verus! {

/// The model of a response: a status code with the body on success, or
/// with the failure's kind.
pub type DetailedResult<Body> = Result<(int, Body), (int, DbError)>;

/// The status a failed lookup answers with: 404 when no row matched,
/// 500 for any other database failure.
pub open spec fn failure_status(e: DbError) -> int {
    match e {
        DbError::NotFound => 404,
        DbError::Database => 500,
    }
}

/// What a creation answers, given whether the insert succeeded: 201
/// echoing the submitted artist, or 500 with the database kind.
pub open spec fn create_artist_model(
    submitted: ArtistModel,
    inserted: bool,
) -> DetailedResult<ArtistModel> {
    if inserted {
        Ok((201, submitted))
    } else {
        Err((500, DbError::Database))
    }
}

/// What a creation answers, given whether the insert succeeded: 201
/// echoing the submitted painting, or 500 with the database kind.
pub open spec fn create_painting_model(
    submitted: PaintingModel,
    inserted: bool,
) -> DetailedResult<PaintingModel> {
    if inserted {
        Ok((201, submitted))
    } else {
        Err((500, DbError::Database))
    }
}

/// What the artist listing answers: 200 with every artist row in
/// ascending identity order, never a failure.
pub open spec fn get_artists_model(s: StoreModel) -> DetailedResult<Seq<ArtistModel>> {
    Ok((200, s.artists))
}

/// What the painting listing answers: 200 with every painting row in
/// ascending identity order, never a failure.
pub open spec fn get_paintings_model(s: StoreModel) -> DetailedResult<Seq<PaintingModel>> {
    Ok((200, s.paintings))
}

/// What the artist lookup answers: 200 with the artist's name and every
/// painting naming it, or 404 when no artist row carries `id`.
pub open spec fn get_artist_with_paintings_model(
    s: StoreModel,
    id: int,
) -> DetailedResult<ArtistWithPaintingsModel> {
    if s.has_artist(id) {
        Ok(
            (
                200,
                ArtistWithPaintingsModel {
                    name: s.artist_at(id).name,
                    paintings: s.paintings_of(id),
                },
            ),
        )
    } else {
        Err((404, DbError::NotFound))
    }
}

/// What the painting lookup answers: 200 with the painting's title and
/// the artist row its `artist_id` names, or 404 when no painting row
/// carries `id` or the named artist row is absent.
pub open spec fn get_painting_with_artist_model(
    s: StoreModel,
    id: int,
) -> DetailedResult<PaintingWithArtistModel> {
    if !s.has_painting(id) {
        Err((404, DbError::NotFound))
    } else if !s.has_artist(s.painting_at(id).artist_id) {
        Err((404, DbError::NotFound))
    } else {
        Ok(
            (
                200,
                PaintingWithArtistModel {
                    title: s.painting_at(id).title,
                    artist: s.artist_at(s.painting_at(id).artist_id),
                },
            ),
        )
    }
}

/// The model of an executable response.
pub open spec fn detailed_view<B, BM>(
    r: Result<(u16, B), (u16, DbError)>,
    body_view: spec_fn(B) -> BM,
) -> DetailedResult<BM> {
    match r {
        Ok(p) => Ok((p.0 as int, body_view(p.1))),
        Err(e) => Err((e.0 as int, e.1)),
    }
}

/// Maps an artist insert's outcome to the response: 201 echoing the
/// submitted payload on success, or 500 with the failure's kind.
pub fn create_artist_response(
    new_artist: Artist,
    outcome: Result<(), DbError>,
) -> (r: Result<(u16, Artist), (u16, DbError)>)
    ensures
        outcome is Ok ==> (r matches Ok(p) && p.0 == 201 && p.1 == new_artist),
        outcome matches Err(e) ==> (r matches Err(f) && f.0 == 500 && f.1 == e),
{
    match outcome {
        Ok(_) => Ok((201, new_artist)),
        Err(e) => Err((500, e)),
    }
}

/// Maps a painting insert's outcome to the response: 201 echoing the
/// submitted payload on success, or 500 with the failure's kind.
pub fn create_painting_response(
    new_painting: Painting,
    outcome: Result<(), DbError>,
) -> (r: Result<(u16, Painting), (u16, DbError)>)
    ensures
        outcome is Ok ==> (r matches Ok(p) && p.0 == 201 && p.1 == new_painting),
        outcome matches Err(e) ==> (r matches Err(f) && f.0 == 500 && f.1 == e),
{
    match outcome {
        Ok(_) => Ok((201, new_painting)),
        Err(e) => Err((500, e)),
    }
}

/// Maps the artist listing's outcome to the response: 200 with the
/// rows, or 500 with the failure's kind.
pub fn artists_listing_response(
    outcome: Result<Vec<Artist>, DbError>,
) -> (r: Result<(u16, Vec<Artist>), (u16, DbError)>)
    ensures
        outcome matches Ok(rows) ==> (r matches Ok(p) && p.0 == 200 && p.1 == rows),
        outcome matches Err(e) ==> (r matches Err(f) && f.0 == 500 && f.1 == e),
{
    match outcome {
        Ok(rows) => Ok((200, rows)),
        Err(e) => Err((500, e)),
    }
}

/// Maps the painting listing's outcome to the response: 200 with the
/// rows, or 500 carrying the failure's kind.
pub fn paintings_listing_response(
    outcome: Result<Vec<Painting>, DbError>,
) -> (r: Result<(u16, Vec<Painting>), (u16, DbError)>)
    ensures
        outcome matches Ok(rows) ==> (r matches Ok(p) && p.0 == 200 && p.1 == rows),
        outcome matches Err(e) ==> (r matches Err(f) && f.0 == 500 && f.1 == e),
{
    match outcome {
        Ok(rows) => Ok((200, rows)),
        Err(e) => Err((500, e)),
    }
}

/// Maps the two lookup outcomes of the artist join to the response.
/// A failed artist lookup decides alone: the painting outcome is read
/// only when the artist was found. A failure answers 404 when no row
/// matched, 500 for any other database failure, carrying its kind.
pub fn artist_join_response(
    artist_outcome: Result<Artist, DbError>,
    paintings_outcome: Result<Vec<Painting>, DbError>,
) -> (r: Result<(u16, ArtistWithPaintings), (u16, DbError)>)
    ensures
        artist_outcome is Err ==> (r matches Err(f) && f.0 as int == failure_status(
            artist_outcome->Err_0,
        ) && f.1 == artist_outcome->Err_0),
        artist_outcome is Ok && paintings_outcome is Err ==> (r matches Err(f) && f.0 as int
            == failure_status(paintings_outcome->Err_0) && f.1 == paintings_outcome->Err_0),
        artist_outcome is Ok && paintings_outcome is Ok ==> (r matches Ok(p) && p.0 == 200
            && p.1@.name == artist_outcome->Ok_0@.name && p.1@.paintings == paintings_view(
            paintings_outcome->Ok_0@,
        )),
{
    let artist = match artist_outcome {
        Ok(a) => a,
        Err(e) => {
            return Err((lookup_failure_code(e), e));
        },
    };
    let paintings = match paintings_outcome {
        Ok(rows) => rows,
        Err(e) => {
            return Err((lookup_failure_code(e), e));
        },
    };
    Ok((200, ArtistWithPaintings { name: artist.name, paintings }))
}

/// Maps the two lookup outcomes of the painting join to the response,
/// as `artist_join_response` does for the artist join.
pub fn painting_join_response(
    painting_outcome: Result<Painting, DbError>,
    artist_outcome: Result<Artist, DbError>,
) -> (r: Result<(u16, PaintingWithArtist), (u16, DbError)>)
    ensures
        painting_outcome is Err ==> (r matches Err(f) && f.0 as int == failure_status(
            painting_outcome->Err_0,
        ) && f.1 == painting_outcome->Err_0),
        painting_outcome is Ok && artist_outcome is Err ==> (r matches Err(f) && f.0 as int
            == failure_status(artist_outcome->Err_0) && f.1 == artist_outcome->Err_0),
        painting_outcome is Ok && artist_outcome is Ok ==> (r matches Ok(q) && q.0 == 200
            && q.1@.title == painting_outcome->Ok_0@.title && q.1@.artist
            == artist_outcome->Ok_0@),
{
    let painting = match painting_outcome {
        Ok(p) => p,
        Err(e) => {
            return Err((lookup_failure_code(e), e));
        },
    };
    let artist = match artist_outcome {
        Ok(a) => a,
        Err(e) => {
            return Err((lookup_failure_code(e), e));
        },
    };
    Ok((200, PaintingWithArtist { title: painting.title, artist }))
}

/// The code a failed lookup answers with, as `failure_status` gives it.
fn lookup_failure_code(e: DbError) -> (c: u16)
    ensures
        c as int == failure_status(e),
{
    match e {
        DbError::NotFound => 404,
        DbError::Database => 500,
    }
}

/// POST /artists: inserts the submitted artist and echoes it back with
/// 201, or answers 500 when the insert fails; the store is unchanged
/// then.
pub fn create_artist(store: &mut Store, new_artist: Artist) -> (r: Result<
    (u16, Artist),
    (u16, DbError),
>)
    requires
        old(store).wf(),
    ensures
        final(store).wf(),
        detailed_view(r, |a: Artist| a@) == create_artist_model(
            new_artist@,
            old(store)@.can_insert_artist(),
        ),
        old(store)@.can_insert_artist() ==> final(store)@ == old(store)@.with_artist(
            new_artist@.name,
            new_artist@.age,
        ),
        !old(store)@.can_insert_artist() ==> final(store)@ == old(store)@,
{
    let outcome = store.insert_artist(new_artist.name.clone(), new_artist.age);
    create_artist_response(new_artist, outcome)
}

/// POST /paintings: inserts the submitted painting and echoes it back
/// with 201, or answers 500 when the insert fails; the store is
/// unchanged then. Whether the referenced artist or gallery exists is
/// not checked.
pub fn create_painting(
    store: &mut Store,
    new_painting: Painting,
) -> (r: Result<(u16, Painting), (u16, DbError)>)
    requires
        old(store).wf(),
    ensures
        final(store).wf(),
        detailed_view(r, |p: Painting| p@) == create_painting_model(
            new_painting@,
            old(store)@.can_insert_painting(),
        ),
        old(store)@.can_insert_painting() ==> final(store)@ == old(store)@.with_painting(
            new_painting@.title,
            new_painting@.artist_id,
            new_painting@.gallery_id,
        ),
        !old(store)@.can_insert_painting() ==> final(store)@ == old(store)@,
{
    let outcome = store.insert_painting(
        new_painting.title.clone(),
        new_painting.artist_id,
        new_painting.gallery_id,
    );
    create_painting_response(new_painting, outcome)
}

/// GET /artists: answers 200 with every artist row in ascending
/// identity order, never a failure.
pub fn get_artists(store: &Store) -> (r: Result<(u16, Vec<Artist>), (u16, DbError)>)
    requires
        store.wf(),
    ensures
        detailed_view(r, |rows: Vec<Artist>| artists_view(rows@)) == get_artists_model(store@),
{
    artists_listing_response(store.list_artists())
}

/// GET /paintings: answers 200 with every painting row in ascending
/// identity order, never a failure.
pub fn get_paintings(store: &Store) -> (r: Result<(u16, Vec<Painting>), (u16, DbError)>)
    requires
        store.wf(),
    ensures
        detailed_view(r, |rows: Vec<Painting>| paintings_view(rows@)) == get_paintings_model(
            store@,
        ),
{
    paintings_listing_response(store.list_paintings())
}

/// GET /artists/{id}: answers 200 with the artist's name and every
/// painting naming it — an artist without paintings gets an empty
/// array — or 404 when no artist row carries `id`.
pub fn get_artist_with_paintings(
    store: &Store,
    id: i32,
) -> (r: Result<(u16, ArtistWithPaintings), (u16, DbError)>)
    requires
        store.wf(),
    ensures
        detailed_view(r, |b: ArtistWithPaintings| b@) == get_artist_with_paintings_model(
            store@,
            id as int,
        ),
{
    let artist_outcome = store.get_artist_by_id(id);
    match artist_outcome {
        Ok(artist) => {
            let paintings_outcome = store.list_paintings_by_artist(id);
            artist_join_response(Ok(artist), paintings_outcome)
        },
        Err(e) => artist_join_response(Err(e), Ok(Vec::new())),
    }
}

/// GET /paintings/{id}: answers 200 with the painting's title and the
/// artist row its `artist_id` names, or 404 when no painting row
/// carries `id` or the named artist row is absent.
pub fn get_painting_with_artist(
    store: &Store,
    id: i32,
) -> (r: Result<(u16, PaintingWithArtist), (u16, DbError)>)
    requires
        store.wf(),
    ensures
        detailed_view(r, |b: PaintingWithArtist| b@) == get_painting_with_artist_model(
            store@,
            id as int,
        ),
{
    let painting_outcome = store.get_painting_by_id(id);
    match painting_outcome {
        Ok(painting) => {
            let artist_outcome = store.get_artist_by_id(painting.artist_id);
            painting_join_response(Ok(painting), artist_outcome)
        },
        Err(e) => painting_join_response(Err(e), Err(DbError::NotFound)),
    }
}

} // verus!
