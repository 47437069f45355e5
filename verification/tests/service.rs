use artdb::handlers::{
    create_artist, create_painting, get_artist_with_paintings, get_artists,
    get_painting_with_artist, get_paintings,
};
use artdb::model::{Artist, DbError, Painting};
use artdb::store::Store;

fn artist(name: &str, age: i32) -> Artist {
    Artist { id: None, name: name.to_string(), age }
}

fn painting(title: &str, artist_id: i32, gallery_id: i32) -> Painting {
    Painting { id: None, title: title.to_string(), artist_id, gallery_id }
}

#[test]
fn create_then_list_frida() {
    let mut store = Store::new();

    let created = create_artist(&mut store, artist("Frida", 47)).unwrap();
    assert_eq!(created.0, 201);
    assert_eq!(created.1.id, None);
    assert_eq!(created.1.name, "Frida");
    assert_eq!(created.1.age, 47);

    let listed = get_artists(&store).unwrap();
    assert_eq!(listed.0, 200);
    assert_eq!(listed.1.len(), 1);
    assert_eq!(listed.1[0].id, Some(1));
    assert_eq!(listed.1[0].name, "Frida");
    assert_eq!(listed.1[0].age, 47);
}

#[test]
fn empty_listing_is_ok() {
    let store = Store::new();
    let listed = get_artists(&store).unwrap();
    assert_eq!(listed.0, 200);
    assert!(listed.1.is_empty());

    let paintings = get_paintings(&store).unwrap();
    assert_eq!(paintings.0, 200);
    assert!(paintings.1.is_empty());
}

#[test]
fn missing_artist_is_not_found() {
    let mut store = Store::new();
    create_artist(&mut store, artist("Frida", 47)).unwrap();

    let err = get_artist_with_paintings(&store, 99).unwrap_err();
    assert_eq!(err.0, 404);
    assert_eq!(err.1, DbError::NotFound);
}

#[test]
fn artist_without_paintings_has_empty_array() {
    let mut store = Store::new();
    create_artist(&mut store, artist("Frida", 47)).unwrap();

    let found = get_artist_with_paintings(&store, 1).unwrap();
    assert_eq!(found.0, 200);
    assert_eq!(found.1.name, "Frida");
    assert!(found.1.paintings.is_empty());
}

#[test]
fn artist_lookup_joins_only_its_paintings() {
    let mut store = Store::new();
    create_artist(&mut store, artist("Frida", 47)).unwrap();
    create_artist(&mut store, artist("Diego", 70)).unwrap();
    create_painting(&mut store, painting("The Two Fridas", 1, 1)).unwrap();
    create_painting(&mut store, painting("Flower Carrier", 2, 1)).unwrap();
    create_painting(&mut store, painting("Self-portrait", 1, 2)).unwrap();

    let found = get_artist_with_paintings(&store, 1).unwrap();
    assert_eq!(found.0, 200);
    assert_eq!(found.1.name, "Frida");
    assert_eq!(found.1.paintings.len(), 2);
    assert_eq!(found.1.paintings[0].id, Some(1));
    assert_eq!(found.1.paintings[0].title, "The Two Fridas");
    assert_eq!(found.1.paintings[1].id, Some(3));
    assert_eq!(found.1.paintings[1].title, "Self-portrait");
}

#[test]
fn two_creations_persist_two_rows() {
    let mut store = Store::new();
    let first = create_artist(&mut store, artist("Frida", 47)).unwrap();
    let second = create_artist(&mut store, artist("Diego", 70)).unwrap();
    assert_eq!(first.0, 201);
    assert_eq!(second.0, 201);

    let listed = get_artists(&store).unwrap();
    assert_eq!(listed.1.len(), 2);
    assert_eq!(listed.1[0].id, Some(1));
    assert_eq!(listed.1[0].name, "Frida");
    assert_eq!(listed.1[1].id, Some(2));
    assert_eq!(listed.1[1].name, "Diego");
    assert_ne!(listed.1[0].id, listed.1[1].id);
}

#[test]
fn painting_with_absent_artist_is_created() {
    let mut store = Store::new();
    let created = create_painting(&mut store, painting("Orphan", 42, 7)).unwrap();
    assert_eq!(created.0, 201);
    assert_eq!(created.1.id, None);
    assert_eq!(created.1.artist_id, 42);

    let listed = get_paintings(&store).unwrap();
    assert_eq!(listed.0, 200);
    assert_eq!(listed.1.len(), 1);
    assert_eq!(listed.1[0].id, Some(1));
    assert_eq!(listed.1[0].title, "Orphan");
    assert_eq!(listed.1[0].artist_id, 42);
    assert_eq!(listed.1[0].gallery_id, 7);
}

#[test]
fn painting_lookup_joins_its_artist() {
    let mut store = Store::new();
    create_artist(&mut store, artist("Frida", 47)).unwrap();
    create_painting(&mut store, painting("The Two Fridas", 1, 1)).unwrap();

    let found = get_painting_with_artist(&store, 1).unwrap();
    assert_eq!(found.0, 200);
    assert_eq!(found.1.title, "The Two Fridas");
    assert_eq!(found.1.artist.id, Some(1));
    assert_eq!(found.1.artist.name, "Frida");
    assert_eq!(found.1.artist.age, 47);
}

#[test]
fn missing_painting_is_not_found() {
    let store = Store::new();
    let err = get_painting_with_artist(&store, 1).unwrap_err();
    assert_eq!(err.0, 404);
    assert_eq!(err.1, DbError::NotFound);
}

#[test]
fn painting_whose_artist_is_absent_is_not_found() {
    let mut store = Store::new();
    create_painting(&mut store, painting("Orphan", 42, 7)).unwrap();

    let err = get_painting_with_artist(&store, 1).unwrap_err();
    assert_eq!(err.0, 404);
    assert_eq!(err.1, DbError::NotFound);
}
