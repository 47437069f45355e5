//! The record types that the service stores and serves, and their
//! mathematical models.
//!
//! Each record carries an optional identity: `None` on a create request,
//! where the store has not assigned one yet, and `Some(id)` on every row
//! read back. The models mirror the records field for field, with `int`
//! for the machine integers and `Seq<char>` for the text.

use vstd::prelude::*;

verus! {

/// An artist row: identity, name and age.
#[derive(Debug)]
pub struct Artist {
    pub id: Option<i32>,
    pub name: String,
    pub age: i32,
}

/// A painting row: identity, title and the identities of the artist and
/// gallery it belongs to. Neither reference is checked by this layer.
#[derive(Debug)]
pub struct Painting {
    pub id: Option<i32>,
    pub title: String,
    pub artist_id: i32,
    pub gallery_id: i32,
}

/// The body of a successful artist lookup: the artist's name together
/// with every painting whose `artist_id` names the artist.
#[derive(Debug)]
pub struct ArtistWithPaintings {
    pub name: String,
    pub paintings: Vec<Painting>,
}

/// The body of a successful painting lookup: the painting's title
/// together with the artist row its `artist_id` names.
#[derive(Debug)]
pub struct PaintingWithArtist {
    pub title: String,
    pub artist: Artist,
}

/// Why a store operation failed: either no row matched a lookup, or the
/// statement itself could not be carried out.
#[derive(Clone, Copy, Debug, PartialEq, Eq, Structural)]
pub enum DbError {
    NotFound,
    Database,
}

/// The model of an artist row.
pub struct ArtistModel {
    pub id: Option<int>,
    pub name: Seq<char>,
    pub age: int,
}

/// The model of a painting row.
pub struct PaintingModel {
    pub id: Option<int>,
    pub title: Seq<char>,
    pub artist_id: int,
    pub gallery_id: int,
}

/// The model of an artist lookup body.
pub struct ArtistWithPaintingsModel {
    pub name: Seq<char>,
    pub paintings: Seq<PaintingModel>,
}

/// The model of a painting lookup body.
pub struct PaintingWithArtistModel {
    pub title: Seq<char>,
    pub artist: ArtistModel,
}

/// The model of an optional identity.
pub open spec fn id_view(id: Option<i32>) -> Option<int> {
    match id {
        Some(n) => Some(n as int),
        None => None,
    }
}

impl View for Artist {
    type V = ArtistModel;

    open spec fn view(&self) -> ArtistModel {
        ArtistModel { id: id_view(self.id), name: self.name@, age: self.age as int }
    }
}

impl View for Painting {
    type V = PaintingModel;

    open spec fn view(&self) -> PaintingModel {
        PaintingModel {
            id: id_view(self.id),
            title: self.title@,
            artist_id: self.artist_id as int,
            gallery_id: self.gallery_id as int,
        }
    }
}

impl View for ArtistWithPaintings {
    type V = ArtistWithPaintingsModel;

    open spec fn view(&self) -> ArtistWithPaintingsModel {
        ArtistWithPaintingsModel { name: self.name@, paintings: paintings_view(self.paintings@) }
    }
}

impl View for PaintingWithArtist {
    type V = PaintingWithArtistModel;

    open spec fn view(&self) -> PaintingWithArtistModel {
        PaintingWithArtistModel { title: self.title@, artist: self.artist@ }
    }
}

/// The models of a sequence of artist rows, in order.
pub open spec fn artists_view(rows: Seq<Artist>) -> Seq<ArtistModel> {
    rows.map_values(|a: Artist| a@)
}

/// The models of a sequence of painting rows, in order.
pub open spec fn paintings_view(rows: Seq<Painting>) -> Seq<PaintingModel> {
    rows.map_values(|p: Painting| p@)
}

impl Artist {
    /// A row equal to this one in every field.
    pub fn duplicate(&self) -> (r: Artist)
        ensures
            r == *self,
    {
        Artist { id: self.id, name: self.name.clone(), age: self.age }
    }
}

impl Painting {
    /// A row equal to this one in every field.
    pub fn duplicate(&self) -> (r: Painting)
        ensures
            r == *self,
    {
        Painting {
            id: self.id,
            title: self.title.clone(),
            artist_id: self.artist_id,
            gallery_id: self.gallery_id,
        }
    }
}

} // verus!
