use surge::backend::MasterBackend;
use surge::command::{CommandCenter, Step};
use surge::download::get_dl_path_from_ytdl_stdout;
use surge::error::{BackendError, SessionError};
use surge::youtube::yt_json_parser;

fn item(id: &str, title: &str, thumb: Option<&str>) -> String {
    let thumbnails = match thumb {
        Some(u) => format!(
            r#","thumbnails":{{"default":{{"url":"{}"}}}}"#,
            u
        ),
        None => String::new(),
    };
    format!(
        r#"{{"id":{{"videoId":"{}"}},"snippet":{{"title":"{}"{}}}}}"#,
        id, title, thumbnails
    )
}

fn body(items: &[String]) -> String {
    format!(r#"{{"items":[{}]}}"#, items.join(","))
}

#[test]
fn parses_items_in_backend_order() {
    let json = body(&[
        item("id1", "First", Some("http://t/1.jpg")),
        item("id2", "Second", None),
        item("id3", "Third", Some("http://t/3.jpg")),
    ]);
    let results = yt_json_parser(&json).expect("well-formed response");
    assert_eq!(results.len(), 3);
    assert_eq!(results[0].id, "id1");
    assert_eq!(results[0].title, "First");
    assert_eq!(results[0].thumbnail.as_deref(), Some("http://t/1.jpg"));
    assert_eq!(results[1].id, "id2");
    assert_eq!(results[1].thumbnail, None);
    assert_eq!(results[2].id, "id3");
}

#[test]
fn rejects_invalid_json() {
    assert!(matches!(
        yt_json_parser("not json at all"),
        Err(BackendError::MalformedResponse)
    ));
}

#[test]
fn rejects_response_without_items() {
    assert!(matches!(
        yt_json_parser(r#"{"kind":"youtube#searchListResponse"}"#),
        Err(BackendError::MalformedResponse)
    ));
    assert!(matches!(
        yt_json_parser(r#"{"items":"no array"}"#),
        Err(BackendError::MalformedResponse)
    ));
}

#[test]
fn rejects_item_without_title_or_id() {
    let no_title = body(&[String::from(r#"{"id":{"videoId":"x"},"snippet":{}}"#)]);
    assert!(matches!(
        yt_json_parser(&no_title),
        Err(BackendError::MalformedResponse)
    ));
    let no_id = body(&[String::from(r#"{"id":{},"snippet":{"title":"x"}}"#)]);
    assert!(matches!(
        yt_json_parser(&no_id),
        Err(BackendError::MalformedResponse)
    ));
}

#[test]
fn empty_item_list_is_a_valid_response() {
    let results = yt_json_parser(r#"{"items":[]}"#).expect("empty list");
    assert!(results.is_empty());
}

#[test]
fn search_url_encodes_spaces() {
    let backend = MasterBackend::new("SECRET-REDACTED");
    assert_eq!(
        backend.search_request_url("cat videos"),
        "https://www.googleapis.com/youtube/v3/search?part=snippet&q=cat+videos&type=video"
    );
}

#[test]
fn related_url_names_the_video() {
    let backend = MasterBackend::new("SECRET-REDACTED");
    assert_eq!(
        backend.related_request_url("vid42"),
        "https://www.googleapis.com/youtube/v3/search?part=snippet&relatedToVideoId=vid42&type=video"
    );
}

#[test]
fn authed_url_appends_credential() {
    let backend = MasterBackend::new("k123");
    assert_eq!(backend.authed_url("http://x/y?a=b"), "http://x/y?a=b&key=k123");
}

#[test]
fn tool_output_names_destination_file() {
    let out = "[youtube] downloading\n[ffmpeg] Destination: /music/Song Title.flac\nDone\n";
    assert_eq!(
        get_dl_path_from_ytdl_stdout(out).expect("destination line present"),
        "/music/Song Title.flac"
    );
}

#[test]
fn tool_output_without_destination_fails() {
    assert!(get_dl_path_from_ytdl_stdout("nothing useful").is_err());
    assert!(get_dl_path_from_ytdl_stdout("Destination: song.mp3\n").is_err());
}

#[test]
fn query_response_installs_results_and_shows_first() {
    let mut cmd = CommandCenter::new(MasterBackend::new("test-key"));
    let json = body(&[
        item("id1", "First", None),
        item("id2", "Second", None),
    ]);
    let steps = cmd.on_query_response(&json);
    assert_eq!(cmd.currents.len(), 2);
    assert_eq!(cmd.cycle_ctr, 1);
    assert_eq!(steps.len(), 1);
    match &steps[0] {
        Step::ShowResult { index, item } => {
            assert_eq!(*index, 0);
            assert_eq!(item.id, "id1");
        },
        other => panic!("expected the first result, got {:?}", other),
    }
}

#[test]
fn malformed_query_response_is_fatal_and_keeps_state() {
    let mut cmd = CommandCenter::new(MasterBackend::new("test-key"));
    cmd.apply_results(vec![]);
    let steps = cmd.on_query_response("{broken");
    assert_eq!(steps.len(), 1);
    assert!(matches!(
        steps[0],
        Step::Fail(SessionError::Backend(BackendError::MalformedResponse))
    ));
}

#[test]
fn query_response_with_no_results_is_fatal() {
    let mut cmd = CommandCenter::new(MasterBackend::new("test-key"));
    let steps = cmd.on_query_response(r#"{"items":[]}"#);
    assert_eq!(steps.len(), 1);
    assert!(matches!(steps[0], Step::Fail(SessionError::EmptyResults)));
}
