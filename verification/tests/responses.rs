use artdb::handlers::{
    artist_join_response, artists_listing_response, create_artist_response,
    create_painting_response, painting_join_response, paintings_listing_response,
};
use artdb::model::{Artist, DbError, Painting};

fn artist(name: &str, age: i32) -> Artist {
    Artist { id: None, name: name.to_string(), age }
}

fn painting(title: &str, artist_id: i32, gallery_id: i32) -> Painting {
    Painting { id: None, title: title.to_string(), artist_id, gallery_id }
}

#[test]
fn successful_insert_answers_created() {
    let created = create_artist_response(artist("Frida", 47), Ok(())).unwrap();
    assert_eq!(created.0, 201);
    assert_eq!(created.1.id, None);
    assert_eq!(created.1.name, "Frida");
    assert_eq!(created.1.age, 47);

    let created = create_painting_response(painting("The Two Fridas", 1, 1), Ok(())).unwrap();
    assert_eq!(created.0, 201);
    assert_eq!(created.1.title, "The Two Fridas");
}

#[test]
fn failed_insert_answers_server_error() {
    let err = create_artist_response(artist("Frida", 47), Err(DbError::Database)).unwrap_err();
    assert_eq!(err, (500, DbError::Database));

    let err =
        create_painting_response(painting("The Two Fridas", 1, 1), Err(DbError::Database))
            .unwrap_err();
    assert_eq!(err, (500, DbError::Database));
}

#[test]
fn successful_listing_answers_ok_with_rows() {
    let rows = vec![Artist { id: Some(1), name: "Frida".to_string(), age: 47 }];
    let listed = artists_listing_response(Ok(rows)).unwrap();
    assert_eq!(listed.0, 200);
    assert_eq!(listed.1.len(), 1);
    assert_eq!(listed.1[0].name, "Frida");
}

#[test]
fn failed_listing_answers_server_error() {
    let err = artists_listing_response(Err(DbError::Database)).unwrap_err();
    assert_eq!(err, (500, DbError::Database));

    let err = paintings_listing_response(Err(DbError::Database)).unwrap_err();
    assert_eq!(err, (500, DbError::Database));
}

#[test]
fn artist_join_maps_outcomes() {
    let frida = Artist { id: Some(1), name: "Frida".to_string(), age: 47 };
    let rows = vec![Painting {
        id: Some(1),
        title: "The Two Fridas".to_string(),
        artist_id: 1,
        gallery_id: 1,
    }];
    let joined = artist_join_response(Ok(frida), Ok(rows)).unwrap();
    assert_eq!(joined.0, 200);
    assert_eq!(joined.1.name, "Frida");
    assert_eq!(joined.1.paintings.len(), 1);

    let err = artist_join_response(Err(DbError::NotFound), Ok(Vec::new())).unwrap_err();
    assert_eq!(err, (404, DbError::NotFound));

    let err = artist_join_response(Err(DbError::Database), Ok(Vec::new())).unwrap_err();
    assert_eq!(err, (500, DbError::Database));
}

#[test]
fn painting_join_maps_outcomes() {
    let frida = Artist { id: Some(1), name: "Frida".to_string(), age: 47 };
    let two_fridas = Painting {
        id: Some(1),
        title: "The Two Fridas".to_string(),
        artist_id: 1,
        gallery_id: 1,
    };
    let joined = painting_join_response(Ok(two_fridas), Ok(frida)).unwrap();
    assert_eq!(joined.0, 200);
    assert_eq!(joined.1.title, "The Two Fridas");
    assert_eq!(joined.1.artist.name, "Frida");

    let err = painting_join_response(Err(DbError::NotFound), Err(DbError::NotFound)).unwrap_err();
    assert_eq!(err, (404, DbError::NotFound));

    let frida = Artist { id: Some(1), name: "Frida".to_string(), age: 47 };
    let err = painting_join_response(Err(DbError::Database), Ok(frida)).unwrap_err();
    assert_eq!(err, (500, DbError::Database));
}
