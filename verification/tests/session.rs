use surge::backend::MasterBackend;
use surge::command::{message_text, CommandCenter, MessageKind, Step};
use surge::download::{AudioSource, Downloader};
use surge::error::SessionError;
use surge::player::{next_loop_value, sleep_seconds, time_remain_secs};
use surge::setup::{key_prompt, setup_prompt, setup_value_accepted};

fn json_items(triples: &[(&str, &str)]) -> String {
    let items: Vec<String> = triples
        .iter()
        .map(|(id, title)| {
            format!(r#"{{"id":{{"videoId":"{}"}},"snippet":{{"title":"{}"}}}}"#, id, title)
        })
        .collect();
    format!(r#"{{"items":[{}]}}"#, items.join(","))
}

/// One whole sitting: search, cycle through candidates, select, play the
/// selection, then toggle download mode and queue it as a stream.
#[test]
fn end_to_end_session() {
    let mut cmd = CommandCenter::new(MasterBackend::new("test-key"));
    let dloader = Downloader::new(String::from("/m"), String::from("/t"));

    let steps = cmd.handle_command("search cat videos");
    let query = match &steps[0] {
        Step::QuerySearch { query } => query.clone(),
        other => panic!("expected a query, got {:?}", other),
    };
    assert_eq!(query, "cat videos");

    // The backend answers with three results.
    let body = json_items(&[("r0", "Zero"), ("r1", "One"), ("r2", "Two")]);
    let steps = cmd.on_query_response(&body);
    match &steps[0] {
        Step::ShowResult { index, item } => {
            assert_eq!(*index, 0);
            assert_eq!(item.id, "r0");
        },
        other => panic!("expected result zero, got {:?}", other),
    }
    assert_eq!(cmd.cycle_ctr, 1);

    let steps = cmd.handle_command("cycle");
    match &steps[0] {
        Step::ShowResult { index, item } => {
            assert_eq!(*index, 1);
            assert_eq!(item.id, "r1");
        },
        other => panic!("expected result one, got {:?}", other),
    }
    assert_eq!(cmd.cycle_ctr, 2);

    let steps = cmd.handle_command("select 1");
    match &steps[0] {
        Step::ShowSelected { item } => assert_eq!(item.id, "r1"),
        other => panic!("expected a selection, got {:?}", other),
    }
    assert_eq!(cmd.current.as_ref().unwrap().id, "r1");

    let steps = cmd.handle_command("play");
    let (id, skip) = match &steps[0] {
        Step::PlayAudio { id, skip_download, append } => {
            assert!(!append);
            (id.clone(), *skip_download)
        },
        other => panic!("expected an audio step, got {:?}", other),
    };
    assert_eq!(id, "r1");
    assert!(!skip);
    assert!(matches!(steps[1], Step::Resume));
    match dloader.download_audio_from_yt(&id, skip) {
        AudioSource::Download { url, .. } => {
            assert_eq!(url, "https://www.youtube.com/watch?v=r1");
        },
        other => panic!("play must fetch audio here, got {:?}", other),
    }

    let steps = cmd.handle_command("download");
    assert!(matches!(steps[0], Step::Message(MessageKind::DownloadMode(true))));

    let steps = cmd.handle_command("queue");
    let (id, skip) = match &steps[0] {
        Step::PlayAudio { id, skip_download, append } => {
            assert!(*append);
            (id.clone(), *skip_download)
        },
        other => panic!("expected an audio step, got {:?}", other),
    };
    assert_eq!(id, "r1");
    assert!(skip);
    match dloader.download_audio_from_yt(&id, skip) {
        AudioSource::Url(u) => assert_eq!(u, "https://www.youtube.com/watch?v=r1"),
        other => panic!("queue must stream here, got {:?}", other),
    }
}

#[test]
fn selection_survives_a_new_search() {
    let mut cmd = CommandCenter::new(MasterBackend::new("test-key"));
    cmd.on_query_response(&json_items(&[("a", "A")]));
    cmd.handle_command("select 0");
    assert_eq!(cmd.current.as_ref().unwrap().id, "a");
    cmd.on_query_response(&json_items(&[("b", "B")]));
    assert_eq!(cmd.current.as_ref().unwrap().id, "a");
}

#[test]
fn loop_toggle_values() {
    assert_eq!(next_loop_value("inf"), Some("no"));
    assert_eq!(next_loop_value("yes"), Some("no"));
    assert_eq!(next_loop_value("no"), Some("inf"));
    assert_eq!(next_loop_value("1"), Some("inf"));
    assert_eq!(next_loop_value("surprise"), None);
}

#[test]
fn sleep_falls_back_to_ninety_seconds() {
    assert_eq!(sleep_seconds(Some(12)), 12);
    assert_eq!(sleep_seconds(None), 90);
}

#[test]
fn time_remaining_drops_nonsense() {
    assert_eq!(time_remain_secs(Some(42)), Some(42));
    assert_eq!(time_remain_secs(Some(0)), Some(0));
    assert_eq!(time_remain_secs(Some(-3)), None);
    assert_eq!(time_remain_secs(None), None);
}

#[test]
fn setup_prompts() {
    assert_eq!(setup_prompt("surge"), "<surge setup>");
    assert_eq!(
        key_prompt("<surge setup>", "yt_api_key"),
        "<surge setup> Enter value for yt_api_key: "
    );
    assert!(setup_value_accepted("abc"));
    assert!(!setup_value_accepted(""));
}

#[test]
fn message_texts() {
    assert_eq!(
        message_text(&MessageKind::EmptyQuery),
        "Please enter non-empty search terms"
    );
    assert_eq!(
        message_text(&MessageKind::Unrecognized),
        "Unrecognized command! Try 'help'"
    );
    assert_eq!(
        message_text(&MessageKind::DownloadMode(false)),
        "Toggling download mode: ON"
    );
    assert_eq!(
        message_text(&MessageKind::DownloadMode(true)),
        "Toggling download mode: OFF"
    );
    assert_eq!(
        message_text(&MessageKind::NothingPlaying),
        "Nothing currently playing."
    );
    assert_eq!(
        SessionError::NoSelection.describe(),
        "No current selection"
    );
}
