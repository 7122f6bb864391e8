use surge::backend::{BackendSearchResult, MasterBackend};
use surge::command::{CommandCenter, MessageKind, Step};
use surge::error::SessionError;

fn result(id: &str, title: &str) -> BackendSearchResult {
    BackendSearchResult {
        thumbnail: None,
        id: String::from(id),
        title: String::from(title),
    }
}

fn engine_with(results: Vec<BackendSearchResult>) -> CommandCenter {
    let mut cmd = CommandCenter::new(MasterBackend::new("test-key"));
    cmd.apply_results(results);
    cmd
}

#[test]
fn cycle_wraparound_visits_all_in_order() {
    let mut cmd = engine_with(vec![result("a", "A"), result("b", "B"), result("c", "C")]);
    let mut seen = Vec::new();
    for _ in 0..4 {
        let (i, _) = cmd.cycle().expect("cycle on three results");
        seen.push(i);
    }
    assert_eq!(seen, vec![0, 1, 2, 0]);
}

#[test]
fn cycle_wraparound_from_any_start() {
    let mut cmd = engine_with(vec![result("a", "A"), result("b", "B"), result("c", "C")]);
    cmd.cycle_ctr = 2;
    let mut seen = Vec::new();
    for _ in 0..3 {
        let (i, _) = cmd.cycle().expect("cycle on three results");
        seen.push(i);
    }
    assert_eq!(seen, vec![2, 0, 1]);
}

#[test]
fn cycle_past_the_end_wraps_to_zero() {
    let mut cmd = engine_with(vec![result("a", "A"), result("b", "B")]);
    cmd.cycle_ctr = 17;
    let (i, item) = cmd.cycle().expect("cycle on two results");
    assert_eq!(i, 0);
    assert_eq!(item.id, "a");
    assert_eq!(cmd.cycle_ctr, 1);
}

#[test]
fn cycle_on_empty_results_is_fatal() {
    let mut cmd = CommandCenter::new(MasterBackend::new("test-key"));
    assert!(matches!(cmd.cycle(), Err(SessionError::EmptyResults)));
}

#[test]
fn reset_on_query_shows_index_zero_next() {
    let mut cmd = engine_with(vec![result("a", "A"), result("b", "B"), result("c", "C")]);
    cmd.cycle().unwrap();
    cmd.cycle().unwrap();
    assert_eq!(cmd.cycle_ctr, 2);
    cmd.apply_results(vec![result("x", "X"), result("y", "Y")]);
    assert_eq!(cmd.cycle_ctr, 0);
    let (i, item) = cmd.cycle().unwrap();
    assert_eq!(i, 0);
    assert_eq!(item.id, "x");
}

#[test]
fn select_takes_item_out_of_results() {
    let mut cmd = engine_with(vec![result("a", "A"), result("b", "B"), result("c", "C")]);
    let (i, item) = cmd.select("1").expect("index 1 of three");
    assert_eq!(i, 1);
    assert_eq!(item.id, "b");
    assert_eq!(cmd.current.as_ref().unwrap().id, "b");
    assert_eq!(cmd.currents.len(), 2);
    assert_eq!(cmd.currents[0].id, "a");
    assert_eq!(cmd.currents[1].id, "c");
}

#[test]
fn selection_bounds_never_mutate_selection() {
    let mut cmd = engine_with(vec![result("a", "A"), result("b", "B"), result("c", "C")]);
    cmd.select("0").unwrap();
    assert_eq!(cmd.current.as_ref().unwrap().id, "a");

    for bad in ["3", "99", "-1", "abc", "", "1x", " 2", "+1"] {
        let r = cmd.select(bad);
        assert!(matches!(r, Err(SessionError::BadSelection)), "input {:?}", bad);
        assert_eq!(cmd.current.as_ref().unwrap().id, "a");
        assert_eq!(cmd.currents.len(), 2);
    }
}

#[test]
fn empty_query_rejected_without_state_change() {
    let mut cmd = engine_with(vec![result("a", "A")]);
    cmd.cycle().unwrap();

    for line in ["search", "search "] {
        let steps = cmd.handle_command(line);
        assert_eq!(steps.len(), 1);
        assert!(matches!(
            steps[0],
            Step::Message(MessageKind::EmptyQuery)
        ));
        assert_eq!(cmd.currents.len(), 1);
        assert_eq!(cmd.cycle_ctr, 1);
    }
}

#[test]
fn search_command_queries_backend() {
    let mut cmd = CommandCenter::new(MasterBackend::new("test-key"));
    let steps = cmd.handle_command("search cat videos");
    assert_eq!(steps.len(), 1);
    match &steps[0] {
        Step::QuerySearch { query } => assert_eq!(query, "cat videos"),
        other => panic!("expected a search query, got {:?}", other),
    }
}

#[test]
fn related_without_selection_is_fatal() {
    let mut cmd = CommandCenter::new(MasterBackend::new("test-key"));
    let steps = cmd.handle_command("related");
    assert_eq!(steps.len(), 1);
    assert!(matches!(steps[0], Step::Fail(SessionError::NoSelection)));
}

#[test]
fn related_uses_selected_id() {
    let mut cmd = engine_with(vec![result("vid9", "V")]);
    cmd.select("0").unwrap();
    let steps = cmd.handle_command("related");
    assert_eq!(steps.len(), 1);
    match &steps[0] {
        Step::QueryRelated { id } => assert_eq!(id, "vid9"),
        other => panic!("expected a related query, got {:?}", other),
    }
}

#[test]
fn download_command_toggles_and_reports() {
    let mut cmd = CommandCenter::new(MasterBackend::new("test-key"));
    assert!(!cmd.nodl);
    let steps = cmd.handle_command("download");
    assert!(cmd.nodl);
    assert_eq!(steps.len(), 1);
    assert!(matches!(
        steps[0],
        Step::Message(MessageKind::DownloadMode(true))
    ));
    let steps = cmd.handle_command("download");
    assert!(!cmd.nodl);
    assert!(matches!(
        steps[0],
        Step::Message(MessageKind::DownloadMode(false))
    ));
}

#[test]
fn simple_player_commands_forward() {
    let mut cmd = CommandCenter::new(MasterBackend::new("test-key"));
    assert!(matches!(cmd.handle_command("pause")[0], Step::Pause));
    assert!(matches!(cmd.handle_command("resume")[0], Step::Resume));
    assert!(matches!(cmd.handle_command("stop")[0], Step::Stop));
    assert!(matches!(cmd.handle_command("loop")[0], Step::ToggleLoop));
}

#[test]
fn empty_line_is_a_no_op() {
    let mut cmd = CommandCenter::new(MasterBackend::new("test-key"));
    let steps = cmd.handle_command("");
    assert!(steps.is_empty());
}

#[test]
fn stray_argument_does_not_change_the_verb() {
    let mut cmd = engine_with(vec![result("a", "A"), result("b", "B")]);
    let steps = cmd.handle_command("cycle please");
    assert_eq!(steps.len(), 1);
    match &steps[0] {
        Step::ShowResult { index, item } => {
            assert_eq!(*index, 0);
            assert_eq!(item.id, "a");
        },
        other => panic!("expected a cycled result, got {:?}", other),
    }
}

#[test]
fn help_lists_the_commands() {
    let mut cmd = CommandCenter::new(MasterBackend::new("test-key"));
    let steps = cmd.handle_command("help");
    assert_eq!(steps.len(), 1);
    assert!(matches!(steps[0], Step::Message(MessageKind::Help)));
    assert!(surge::command::message_text(&MessageKind::Help).contains("search"));
}

#[test]
fn unrecognized_command_reports() {
    let mut cmd = CommandCenter::new(MasterBackend::new("test-key"));
    let steps = cmd.handle_command("dance");
    assert_eq!(steps.len(), 1);
    assert!(matches!(
        steps[0],
        Step::Message(MessageKind::Unrecognized)
    ));
}

#[test]
fn now_without_selection_says_nothing_playing() {
    let mut cmd = CommandCenter::new(MasterBackend::new("test-key"));
    let steps = cmd.handle_command("now");
    assert_eq!(steps.len(), 2);
    assert!(matches!(
        steps[0],
        Step::Message(MessageKind::NothingPlaying)
    ));
    assert!(matches!(steps[1], Step::ShowTimeRemaining));
}

#[test]
fn now_shows_current_selection() {
    let mut cmd = engine_with(vec![result("vid1", "First")]);
    cmd.select("0").unwrap();
    let steps = cmd.handle_command("now");
    assert_eq!(steps.len(), 2);
    match &steps[0] {
        Step::ShowNowPlaying { item } => assert_eq!(item.title, "First"),
        other => panic!("expected now-playing, got {:?}", other),
    }
}

#[test]
fn play_with_index_selects_then_plays() {
    let mut cmd = engine_with(vec![result("a", "A"), result("b", "B")]);
    let steps = cmd.handle_command("play 1");
    assert_eq!(steps.len(), 3);
    match &steps[0] {
        Step::ShowSelected { item } => assert_eq!(item.id, "b"),
        other => panic!("expected a selection display, got {:?}", other),
    }
    match &steps[1] {
        Step::PlayAudio { id, skip_download, append } => {
            assert_eq!(id, "b");
            assert!(!skip_download);
            assert!(!append);
        },
        other => panic!("expected an audio step, got {:?}", other),
    }
    assert!(matches!(steps[2], Step::Resume));
    assert_eq!(cmd.current.as_ref().unwrap().id, "b");
}

#[test]
fn play_with_bad_index_is_fatal_and_keeps_state() {
    let mut cmd = engine_with(vec![result("a", "A")]);
    let steps = cmd.handle_command("play 7");
    assert_eq!(steps.len(), 1);
    assert!(matches!(steps[0], Step::Fail(SessionError::BadSelection)));
    assert!(cmd.current.is_none());
    assert_eq!(cmd.currents.len(), 1);
}

#[test]
fn queue_without_selection_is_fatal() {
    let mut cmd = CommandCenter::new(MasterBackend::new("test-key"));
    let steps = cmd.handle_command("queue");
    assert_eq!(steps.len(), 1);
    assert!(matches!(steps[0], Step::Fail(SessionError::NoSelection)));
}
