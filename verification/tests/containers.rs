use tunnel_supervisor::commands::{ListContainerItem, ListContainerResponse, PodmanState};
use tunnel_supervisor::containers::{
    action_for, containers_list, item_from, keep_listed, list_items, parse_state, sort_by_state,
    ContainerAction, ContainerRecord,
};

fn record(id: &str, name: &str, state: &str) -> ContainerRecord {
    ContainerRecord {
        id: Some(id.to_string()),
        names: Some(vec![name.to_string(), format!("{}-alias", name)]),
        state: Some(state.to_string()),
        is_infra: Some(false),
        started_at: Some(1700000000),
        exited_at: None,
    }
}

fn names(items: &[ListContainerItem]) -> Vec<String> {
    items.iter().map(|item| item.name.clone()).collect()
}

#[test]
fn parse_state_reads_the_three_words_and_defaults_to_stopped() {
    assert_eq!(parse_state("running"), PodmanState::Running);
    assert_eq!(parse_state("exited"), PodmanState::Exited);
    assert_eq!(parse_state("stopping"), PodmanState::Stopping);
    assert_eq!(parse_state("stopped"), PodmanState::Stopped);
    assert_eq!(parse_state("Running"), PodmanState::Stopped);
    assert_eq!(parse_state("created"), PodmanState::Stopped);
    assert_eq!(parse_state(""), PodmanState::Stopped);
}

#[test]
fn an_item_takes_the_first_name_and_the_fields_of_its_record() {
    let item = item_from(record("abc123", "api", "running"));
    assert_eq!(item.id, Some("abc123".to_string()));
    assert_eq!(item.name, "api");
    assert_eq!(item.state, PodmanState::Running);
    assert_eq!(item.started_at, Some(1700000000));
    assert_eq!(item.exited_at, None);
}

#[test]
fn an_item_without_a_name_or_a_state_is_unknown_and_stopped() {
    let bare = ContainerRecord {
        id: None,
        names: None,
        state: None,
        is_infra: None,
        started_at: None,
        exited_at: Some(-5),
    };
    let item = item_from(bare.clone());
    assert_eq!(item.id, None);
    assert_eq!(item.name, "unknown");
    assert_eq!(item.state, PodmanState::Stopped);
    assert_eq!(item.exited_at, Some(-5));
    let mut unnamed = bare;
    unnamed.names = Some(Vec::new());
    assert_eq!(item_from(unnamed).name, "unknown");
}

#[test]
fn a_listing_leaves_out_the_infrastructure_container() {
    let mut infra = record("i", "infra", "running");
    infra.is_infra = Some(true);
    let mut unmarked = record("u", "unmarked", "running");
    unmarked.is_infra = None;
    let kept = keep_listed(vec![record("a", "a", "exited"), infra, unmarked, record("b", "b", "running")]);
    assert_eq!(names(&kept), vec!["a", "unmarked", "b"]);
}

#[test]
fn a_listing_is_ordered_by_state_and_keeps_the_order_within_one() {
    let items = list_items(vec![
        record("1", "e1", "exited"),
        record("2", "s1", "created"),
        record("3", "r1", "running"),
        record("4", "g1", "stopping"),
        record("5", "e2", "exited"),
        record("6", "r2", "running"),
        record("7", "s2", "paused"),
        record("8", "g2", "stopping"),
    ]);
    assert_eq!(names(&items), vec!["r1", "r2", "g1", "g2", "s1", "s2", "e1", "e2"]);
    let states: Vec<PodmanState> = items.iter().map(|item| item.state).collect();
    let mut sorted = states.clone();
    sorted.sort();
    assert_eq!(states, sorted);
}

#[test]
fn sorting_agrees_with_a_stable_sort_by_the_state() {
    let given: Vec<ListContainerItem> = ["exited", "running", "x", "stopping", "running", "exited", "y"]
        .iter()
        .enumerate()
        .map(|(i, state)| item_from(record(&i.to_string(), &format!("c{}", i), state)))
        .collect();
    let mut expected = given.clone();
    expected.sort_by_key(|item| item.state);
    let sorted = sort_by_state(given);
    assert_eq!(names(&sorted), names(&expected));
    assert!(sort_by_state(Vec::new()).is_empty());
}

#[test]
fn the_answer_carries_the_listing_or_the_failure() {
    match containers_list(Ok(vec![record("1", "db", "exited"), record("2", "api", "running")])) {
        ListContainerResponse::Listed(items) => assert_eq!(names(&items), vec!["api", "db"]),
        ListContainerResponse::Failed(reason) => panic!("unexpected failure: {}", reason),
    }
    match containers_list(Err("socket not found".to_string())) {
        ListContainerResponse::Failed(reason) => assert_eq!(reason, "socket not found"),
        ListContainerResponse::Listed(_) => panic!("unexpected listing"),
    }
}

#[test]
fn only_running_asks_for_a_start() {
    assert_eq!(action_for(PodmanState::Running), ContainerAction::Start);
    assert_eq!(action_for(PodmanState::Stopping), ContainerAction::Stop);
    assert_eq!(action_for(PodmanState::Stopped), ContainerAction::Stop);
    assert_eq!(action_for(PodmanState::Exited), ContainerAction::Stop);
}
