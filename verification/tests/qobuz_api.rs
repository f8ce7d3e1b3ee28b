use qonos::qobuz_api::{
    api_error, is_success, json_response, tracks_from_response, tracks_request,
    user_from_response, user_url, Album, AlbumImage, Error, Performer, QobuzClient, TrackItem,
    UserResponse,
};

fn item(id: u64, performer: Option<&str>, album: Option<(&str, Option<Option<&str>>)>) -> TrackItem {
    TrackItem {
        id,
        title: format!("Track {id}"),
        duration: 290,
        performer: performer.map(|name| Performer { name: name.to_string() }),
        album: album.map(|(title, image)| Album {
            title: title.to_string(),
            image: image.map(|large| AlbumImage { large: large.map(str::to_string) }),
        }),
    }
}

fn message(e: Error) -> String {
    match e {
        Error::Api(text) => text,
        Error::Http(_) => panic!("not an API error"),
    }
}

#[test]
fn success_is_a_status_of_two_hundred_and_something() {
    assert!(!is_success(199));
    assert!(is_success(200));
    assert!(is_success(299));
    assert!(!is_success(300));
}

#[test]
fn a_failed_response_is_an_api_error_with_status_and_body() {
    assert!(json_response(200, "").is_ok());
    let e = json_response(404, "no such user").unwrap_err();
    assert_eq!(message(e), "404 Not Found: no such user");
    let e = json_response(599, "").unwrap_err();
    assert_eq!(message(e), "599 <unknown status code>: ");
}

#[test]
fn an_api_error_holds_the_described_status_and_the_body() {
    assert_eq!(message(api_error("500 Oops", "body")), "500 Oops: body");
}

#[test]
fn urls_are_those_of_the_api() {
    assert_eq!(user_url(), "https://www.qobuz.com/api.json/0.2/user/get");
    let request = tracks_request(&[1, 22, 333]).unwrap();
    assert_eq!(request.url, "https://www.qobuz.com/api.json/0.2/track/getList");
    assert_eq!(request.body, r#"{"tracks_id":[1,22,333]}"#);
    assert_eq!(tracks_request(&[7]).unwrap().body, r#"{"tracks_id":[7]}"#);
    assert!(tracks_request(&[]).is_none());
}

#[test]
fn the_user_is_taken_from_the_answer() {
    let user = user_from_response(UserResponse {
        id: 12,
        public_id: "qobuz:user:x".to_string(),
        display_name: None,
    });
    assert_eq!(user.id, 12);
    assert_eq!(user.public_id, "qobuz:user:x");
    assert!(user.display_name.is_none());
}

#[test]
fn tracks_without_performer_or_album_are_left_out() {
    let items = vec![
        item(1, Some("Beach House"), Some(("Teen Dream", Some(Some("https://example.com/c.jpg"))))),
        item(2, None, Some(("Teen Dream", None))),
        item(3, Some("Beach House"), None),
        item(4, Some("Low"), Some(("Double Negative", Some(None)))),
        item(5, Some("Low"), Some(("HEY WHAT", None))),
    ];
    let tracks = tracks_from_response(&items);
    assert_eq!(tracks.iter().map(|t| t.id).collect::<Vec<u64>>(), vec![1, 4, 5]);
    assert_eq!(tracks[0].title, "Track 1");
    assert_eq!(tracks[0].duration_secs, 290);
    assert_eq!(tracks[0].duration_ms(), 290000);
    assert_eq!(tracks[0].artist_name, "Beach House");
    assert_eq!(tracks[0].album_title, "Teen Dream");
    assert_eq!(tracks[0].album_image_url.as_deref(), Some("https://example.com/c.jpg"));
    assert!(tracks[1].album_image_url.is_none());
    assert!(tracks[2].album_image_url.is_none());
    assert!(tracks_from_response(&vec![]).is_empty());
}

#[test]
fn tokens_with_control_characters_cannot_be_sent() {
    assert!(QobuzClient::accepts("token", "app"));
    assert!(QobuzClient::accepts("to\tken", "app \u{e9}"));
    assert!(QobuzClient::accepts("", ""));
    assert!(!QobuzClient::accepts("to\nken", "app"));
    assert!(!QobuzClient::accepts("token", "ap\u{7f}p"));
}

#[test]
fn a_client_can_be_built_and_copied() {
    let client = QobuzClient::new("token", "app").unwrap();
    let copy = client.clone();
    let described = format!("{:?}", copy.http());
    assert!(described.contains("x-app-id"));
    assert!(described.contains("\"app\""));
    assert!(described.contains("authorization"));
    assert!(described.contains("\"Bearer token\""));
    assert!(described.contains("\"accept\": \"*/*\""));
}
