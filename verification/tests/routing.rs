use tab_client::message::{
    InputChunk, MainShutdown, OutputChunk, Request, Response, TabTerminated, TabsRecv,
    TerminalRecv, TerminalSend,
};
use tab_client::router::{request_tab, route_response, route_terminal, Effect};
use tab_client::state::{TabState, TabStateAvailable, TerminalSizeState};
use tab_client::tab::{CreateTabMetadata, TabMetadata};

fn meta(id: u64, name: &str, dimensions: (u16, u16)) -> TabMetadata {
    TabMetadata {
        id,
        name: String::from(name),
        dimensions,
    }
}

#[test]
fn s1_create_and_select_new_tab() {
    let size = TerminalSizeState((80, 24));
    let req = request_tab(TabState::Awaiting(String::from("work")), &size);
    assert!(
        req == Some(Request::CreateTab(CreateTabMetadata {
            name: String::from("work"),
            dimensions: (80, 24),
        }))
    );

    let m = meta(7, "work", (80, 24));
    let effects = route_response(
        Response::TabUpdate(m.clone()),
        &TabState::Awaiting(String::from("work")),
    );
    assert!(
        effects
            == vec![
                Effect::Metadata(m.clone()),
                Effect::Tabs(TabsRecv::Update(m.clone())),
            ]
    );

    let selected = TabState::Selected(7, m);
    let effects = route_response(
        Response::Output(
            7,
            OutputChunk {
                data: b"hi".to_vec(),
            },
        ),
        &selected,
    );
    assert!(effects == vec![Effect::Terminal(TerminalRecv::Stdout(b"hi".to_vec()))]);
}

#[test]
fn s2_output_to_non_selected_tab_is_dropped() {
    let selected = TabState::Selected(3, meta(3, "three", (80, 24)));
    let effects = route_response(
        Response::Output(
            4,
            OutputChunk {
                data: b"garbage".to_vec(),
            },
        ),
        &selected,
    );
    assert!(effects.is_empty());
}

#[test]
fn s3_selected_tab_termination_triggers_shutdown() {
    let selected = TabState::Selected(9, meta(9, "nine", (80, 24)));
    let effects = route_response(Response::TabTerminated(9), &selected);
    assert!(
        effects
            == vec![
                Effect::Tabs(TabsRecv::Terminated(9)),
                Effect::Terminated(TabTerminated(9)),
                Effect::Shutdown(MainShutdown {}),
            ]
    );
}

#[test]
fn s4_non_selected_tab_termination_does_not_shut_down() {
    let selected = TabState::Selected(9, meta(9, "nine", (80, 24)));
    let effects = route_response(Response::TabTerminated(2), &selected);
    assert!(
        effects
            == vec![
                Effect::Tabs(TabsRecv::Terminated(2)),
                Effect::Terminated(TabTerminated(2)),
            ]
    );
}

#[test]
fn s5_stdin_without_selection_is_dropped() {
    let req = route_terminal(
        TerminalSend::Stdin(b"x".to_vec()),
        &TabState::Unselected,
    );
    assert!(req.is_none());
}

#[test]
fn s6_init_republishes_all_metadata() {
    let m1 = meta(1, "one", (80, 24));
    let m2 = meta(2, "two", (80, 24));
    let effects = route_response(
        Response::Init(vec![(1, m1.clone()), (2, m2.clone())]),
        &TabState::Unselected,
    );
    assert!(
        effects
            == vec![
                Effect::Tabs(TabsRecv::Init(vec![(1, m1.clone()), (2, m2.clone())])),
                Effect::Metadata(m1),
                Effect::Metadata(m2),
            ]
    );
}

#[test]
fn output_forwarded_iff_selected() {
    let chunk = || OutputChunk {
        data: b"bytes".to_vec(),
    };
    let selected = TabState::Selected(5, meta(5, "five", (80, 24)));
    let hit = route_response(Response::Output(5, chunk()), &selected);
    assert!(hit == vec![Effect::Terminal(TerminalRecv::Stdout(b"bytes".to_vec()))]);

    let miss = route_response(Response::Output(6, chunk()), &selected);
    assert!(miss.is_empty());
    let awaiting = route_response(
        Response::Output(5, chunk()),
        &TabState::Awaiting(String::from("five")),
    );
    assert!(awaiting.is_empty());
}

#[test]
fn tab_update_fan_out_ignores_state() {
    let m = meta(11, "log", (40, 12));
    let effects = route_response(Response::TabUpdate(m.clone()), &TabState::Unselected);
    assert!(
        effects
            == vec![
                Effect::Metadata(m.clone()),
                Effect::Tabs(TabsRecv::Update(m)),
            ]
    );
}

#[test]
fn tab_list_becomes_available_tabs() {
    let m = meta(2, "two", (80, 24));
    let effects = route_response(Response::TabList(vec![m.clone()]), &TabState::Unselected);
    assert!(effects == vec![Effect::AvailableTabs(TabStateAvailable(vec![m]))]);
}

#[test]
fn duplicate_awaiting_duplicates_request() {
    let size = TerminalSizeState((120, 40));
    let expected = || {
        Some(Request::CreateTab(CreateTabMetadata {
            name: String::from("dup"),
            dimensions: (120, 40),
        }))
    };
    assert!(request_tab(TabState::Awaiting(String::from("dup")), &size) == expected());
    assert!(request_tab(TabState::Awaiting(String::from("dup")), &size) == expected());
}

#[test]
fn selected_update_requests_nothing() {
    let size = TerminalSizeState((80, 24));
    let m = meta(3, "three", (80, 24));
    assert!(request_tab(TabState::Selected(3, m), &size).is_none());
    assert!(request_tab(TabState::Unselected, &size).is_none());
}

#[test]
fn stdin_forwarded_to_selected_tab() {
    let selected = TabState::Selected(5, meta(5, "five", (80, 24)));
    let req = route_terminal(TerminalSend::Stdin(b"ls\n".to_vec()), &selected);
    assert!(
        req == Some(Request::Input(
            5,
            InputChunk {
                data: b"ls\n".to_vec(),
            },
        ))
    );
}

#[test]
fn resize_is_not_translated() {
    let selected = TabState::Selected(5, meta(5, "five", (80, 24)));
    assert!(route_terminal(TerminalSend::Resize((100, 50)), &selected).is_none());
    assert!(
        route_terminal(
            TerminalSend::Stdin(b"x".to_vec()),
            &TabState::Awaiting(String::from("five")),
        )
        .is_none()
    );
}

#[test]
fn empty_init_emits_only_the_snapshot() {
    let effects = route_response(Response::Init(vec![]), &TabState::Unselected);
    assert!(effects == vec![Effect::Tabs(TabsRecv::Init(vec![]))]);
}

#[test]
fn empty_stdin_is_still_forwarded() {
    let selected = TabState::Selected(8, meta(8, "eight", (80, 24)));
    let req = route_terminal(TerminalSend::Stdin(Vec::new()), &selected);
    assert!(req == Some(Request::Input(8, InputChunk { data: Vec::new() })));
}

#[test]
fn is_selected_matches_only_the_selected_id() {
    let selected = TabState::Selected(9, meta(9, "nine", (80, 24)));
    assert!(selected.is_selected(&9));
    assert!(!selected.is_selected(&2));
    assert!(!TabState::Unselected.is_selected(&9));
    assert!(!TabState::Awaiting(String::from("nine")).is_selected(&9));
}

#[test]
fn tab_state_clone_preserves_the_value() {
    let selected = TabState::Selected(9, meta(9, "nine", (80, 24)));
    assert!(selected.clone() == selected);
    let awaiting = TabState::Awaiting(String::from("w"));
    assert!(awaiting.clone() == awaiting);
}
