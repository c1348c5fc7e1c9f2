//! The routing rules: pure functions from latched state and one incoming
//! event to the ordered list of emissions.

use vstd::prelude::*;
use crate::message::{
    InputChunk, MainShutdown, OutputChunk, Request, Response, TabTerminated, TabsRecv,
    TerminalRecv, TerminalSend,
};
use crate::state::{TabState, TabStateAvailable, TerminalSizeState};
use crate::tab::{CreateTabMetadata, TabId, TabMetadata};

verus! {

/// The request owed for one `TabState` update: a tab the user awaits is
/// asked for once, with the terminal's current dimensions; every other
/// state produces nothing.
pub open spec fn tab_request(update: TabState, size: TerminalSizeState) -> Option<Request> {
    match update {
        TabState::Awaiting(name) => Some(
            Request::CreateTab(CreateTabMetadata { name, dimensions: size.0 }),
        ),
        _ => None,
    }
}

/// Routing rule of the tab requester: on a `TabState` update, emit a
/// `CreateTab` request exactly when the update awaits a tab.
pub fn request_tab(update: TabState, size: &TerminalSizeState) -> (r: Option<Request>)
    ensures
        r == tab_request(update, *size),
{
    match update {
        TabState::Awaiting(name) => Some(
            Request::CreateTab(CreateTabMetadata { name, dimensions: size.0 }),
        ),
        _ => None,
    }
}

/// The request owed for one terminal event: keystrokes go to the selected
/// tab; keystrokes without a selected tab, and every other event, are
/// dropped rather than buffered.
pub open spec fn input_request(msg: TerminalSend, state: TabState) -> Option<Request> {
    match msg {
        TerminalSend::Stdin(data) => match state {
            TabState::Selected(id, _) => Some(Request::Input(id, InputChunk { data })),
            _ => None,
        },
        _ => None,
    }
}

/// Routing rule of the terminal input router: forward `Stdin` bytes as an
/// input request addressed to the selected tab, and only then.
pub fn route_terminal(msg: TerminalSend, state: &TabState) -> (r: Option<Request>)
    ensures
        r == input_request(msg, *state),
{
    match msg {
        TerminalSend::Stdin(data) => match state {
            TabState::Selected(id, _) => Some(Request::Input(*id, InputChunk { data })),
            _ => None,
        },
        _ => None,
    }
}

/// One emission of the daemon response router, in the order the router
/// must perform them before it consumes the next response.
#[derive(PartialEq, Eq, Debug)]
pub enum Effect {
    /// Send on the queued `TabsRecv` channel.
    Tabs(TabsRecv),
    /// Publish on the `TabMetadata` broadcast channel.
    Metadata(TabMetadata),
    /// Send on the queued `TerminalRecv` channel.
    Terminal(TerminalRecv),
    /// Broadcast on the latched `TabStateAvailable` channel.
    AvailableTabs(TabStateAvailable),
    /// Send on the queued `TabTerminated` channel.
    Terminated(TabTerminated),
    /// Send on the queued `MainShutdown` channel.
    Shutdown(MainShutdown),
}

/// The metadata republished for an `Init` snapshot: one `TabMetadata`
/// emission per listed tab, in list order.
pub open spec fn init_metadata_effects(tabs: Seq<(TabId, TabMetadata)>) -> Seq<Effect> {
    Seq::new(tabs.len(), |k: int| Effect::Metadata(tabs[k].1))
}

/// The ordered emissions owed for one daemon response, given the latched
/// `TabState` at the moment of dispatch.
pub open spec fn response_effects(msg: Response, state: TabState) -> Seq<Effect> {
    match msg {
        Response::Init(tabs) => seq![Effect::Tabs(TabsRecv::Init(tabs))]
            + init_metadata_effects(tabs@),
        Response::Output(id, chunk) => if state.spec_is_selected(id) {
            seq![Effect::Terminal(TerminalRecv::Stdout(chunk.data))]
        } else {
            Seq::empty()
        },
        Response::TabUpdate(meta) => seq![
            Effect::Metadata(meta),
            Effect::Tabs(TabsRecv::Update(meta)),
        ],
        Response::TabList(tabs) => seq![Effect::AvailableTabs(TabStateAvailable(tabs))],
        Response::TabTerminated(id) => if state.spec_is_selected(id) {
            seq![
                Effect::Tabs(TabsRecv::Terminated(id)),
                Effect::Terminated(TabTerminated(id)),
                Effect::Shutdown(MainShutdown {}),
            ]
        } else {
            seq![
                Effect::Tabs(TabsRecv::Terminated(id)),
                Effect::Terminated(TabTerminated(id)),
            ]
        },
    }
}

/// Routing rule of the daemon response router: fan one response out to
/// the local channels, in the exact order `response_effects` lists.
pub fn route_response(msg: Response, state: &TabState) -> (r: Vec<Effect>)
    ensures
        r@ == response_effects(msg, *state),
{
    match msg {
        Response::Init(tabs) => {
            let mut metas: Vec<Effect> = Vec::new();
            let mut i: usize = 0;
            while i < tabs.len()
                invariant
                    i <= tabs.len(),
                    metas@.len() == i as int,
                    forall|k: int| 0 <= k < i ==> metas@[k] == Effect::Metadata(tabs@[k].1),
                decreases tabs.len() - i,
            {
                let meta = tabs[i].1.clone();
                metas.push(Effect::Metadata(meta));
                i += 1;
            }
            let mut r: Vec<Effect> = Vec::new();
            r.push(Effect::Tabs(TabsRecv::Init(tabs)));
            r.append(&mut metas);
            proof {
                assert(r@ =~= response_effects(msg, *state));
            }
            r
        },
        Response::Output(id, chunk) => {
            let mut r: Vec<Effect> = Vec::new();
            if state.is_selected(&id) {
                r.push(Effect::Terminal(TerminalRecv::Stdout(chunk.data)));
            }
            proof {
                assert(r@ =~= response_effects(msg, *state));
            }
            r
        },
        Response::TabUpdate(meta) => {
            let mut r: Vec<Effect> = Vec::new();
            let republished = meta.clone();
            r.push(Effect::Metadata(republished));
            r.push(Effect::Tabs(TabsRecv::Update(meta)));
            proof {
                assert(r@ =~= response_effects(msg, *state));
            }
            r
        },
        Response::TabList(tabs) => {
            let mut r: Vec<Effect> = Vec::new();
            r.push(Effect::AvailableTabs(TabStateAvailable(tabs)));
            proof {
                assert(r@ =~= response_effects(msg, *state));
            }
            r
        },
        Response::TabTerminated(id) => {
            let mut r: Vec<Effect> = Vec::new();
            r.push(Effect::Tabs(TabsRecv::Terminated(id)));
            r.push(Effect::Terminated(TabTerminated(id)));
            if state.is_selected(&id) {
                r.push(Effect::Shutdown(MainShutdown {}));
            }
            proof {
                assert(r@ =~= response_effects(msg, *state));
            }
            r
        },
    }
}

/// Output filtering: for an `Output(tab_id, chunk)` response, a
/// `TerminalRecv::Stdout(chunk.data)` emission happens iff the latched
/// state selects exactly `tab_id`; for any other tab the response
/// produces no emission at all — it is discarded, never buffered.
pub proof fn lemma_output_filtering(tab_id: TabId, chunk: OutputChunk, state: TabState)
    ensures
        response_effects(Response::Output(tab_id, chunk), state).contains(
            Effect::Terminal(TerminalRecv::Stdout(chunk.data)),
        ) <==> state.spec_is_selected(tab_id),
        state.spec_is_selected(tab_id) ==> response_effects(Response::Output(tab_id, chunk), state)
            == seq![Effect::Terminal(TerminalRecv::Stdout(chunk.data))],
        !state.spec_is_selected(tab_id) ==> response_effects(Response::Output(tab_id, chunk), state)
            == Seq::<Effect>::empty(),
{
    let effs = response_effects(Response::Output(tab_id, chunk), state);
    if state.spec_is_selected(tab_id) {
        assert(effs[0] == Effect::Terminal(TerminalRecv::Stdout(chunk.data)));
    }
}

/// Metadata update fan-out: a `TabUpdate(meta)` response emits exactly
/// one `TabMetadata` publication and exactly one `TabsRecv::Update`, in
/// that order, both carrying `meta`, whatever the latched state.
pub proof fn lemma_tab_update_effects(meta: TabMetadata, state: TabState)
    ensures
        response_effects(Response::TabUpdate(meta), state).len() == 2,
        response_effects(Response::TabUpdate(meta), state)[0] == Effect::Metadata(meta),
        response_effects(Response::TabUpdate(meta), state)[1] == Effect::Tabs(
            TabsRecv::Update(meta),
        ),
{
}

/// Termination fan-out: a `TabTerminated(id)` response always emits
/// `TabsRecv::Terminated(id)` and then `TabTerminated(id)`; a
/// `MainShutdown` follows, last, iff the latched state selects `id`.
pub proof fn lemma_tab_terminated_effects(id: TabId, state: TabState)
    ensures
        response_effects(Response::TabTerminated(id), state)[0] == Effect::Tabs(
            TabsRecv::Terminated(id),
        ),
        response_effects(Response::TabTerminated(id), state)[1] == Effect::Terminated(
            TabTerminated(id),
        ),
        state.spec_is_selected(id) ==> response_effects(Response::TabTerminated(id), state).len()
            == 3 && response_effects(Response::TabTerminated(id), state)[2] == Effect::Shutdown(
            MainShutdown {},
        ),
        !state.spec_is_selected(id) ==> response_effects(Response::TabTerminated(id), state).len()
            == 2,
{
}

/// Snapshot fan-out: an `Init` snapshot is forwarded first, as one
/// `TabsRecv::Init` carrying the full list, and is then followed by one
/// `TabMetadata` publication per listed tab, in list order — also when
/// the snapshot repeats after a reconnect.
pub proof fn lemma_init_republishes_metadata(tabs: Vec<(TabId, TabMetadata)>, state: TabState)
    ensures
        response_effects(Response::Init(tabs), state).len() == 1 + tabs@.len(),
        response_effects(Response::Init(tabs), state)[0] == Effect::Tabs(TabsRecv::Init(tabs)),
        forall|k: int|
            0 <= k < tabs@.len() ==> response_effects(Response::Init(tabs), state)[1 + k]
                == Effect::Metadata(tabs@[k].1),
{
}

/// Output provenance: over every possible response, a `Stdout` emission
/// happens only for an `Output` response addressed to the currently
/// selected tab, and carries that response's bytes unchanged.
pub proof fn lemma_stdout_only_from_selected(msg: Response, state: TabState, data: Vec<u8>)
    ensures
        response_effects(msg, state).contains(Effect::Terminal(TerminalRecv::Stdout(data)))
            ==> (msg matches Response::Output(id, chunk) && state.spec_is_selected(id)
                && chunk.data == data),
{
    let effs = response_effects(msg, state);
    match msg {
        Response::Init(tabs) => {
            assert forall|k: int| 0 <= k < effs.len() implies effs[k] != Effect::Terminal(
                TerminalRecv::Stdout(data),
            ) by {
                if k >= 1 {
                    assert(effs[k] == init_metadata_effects(tabs@)[k - 1]);
                }
            }
        },
        _ => {},
    }
}

/// Shutdown discipline: over every possible response, a `MainShutdown`
/// emission happens iff the response reports the termination of the
/// currently selected tab.
pub proof fn lemma_shutdown_iff_selected_terminated(msg: Response, state: TabState)
    ensures
        response_effects(msg, state).contains(Effect::Shutdown(MainShutdown {})) <==> (msg matches
            Response::TabTerminated(id) && state.spec_is_selected(id)),
{
    let effs = response_effects(msg, state);
    match msg {
        Response::Init(tabs) => {
            assert forall|k: int| 0 <= k < effs.len() implies effs[k] != Effect::Shutdown(
                MainShutdown {},
            ) by {
                if k >= 1 {
                    assert(effs[k] == init_metadata_effects(tabs@)[k - 1]);
                }
            }
        },
        Response::TabTerminated(id) => {
            if state.spec_is_selected(id) {
                assert(effs[2] == Effect::Shutdown(MainShutdown {}));
            }
        },
        _ => {},
    }
}

/// Tab acquisition: an `Awaiting(name)` update owes exactly one
/// `CreateTab` request carrying that name and the current terminal
/// dimensions; no other update produces a request.
pub proof fn lemma_awaiting_creates_tab(update: TabState, size: TerminalSizeState)
    ensures
        update matches TabState::Awaiting(name) ==> tab_request(update, size) == Some(
            Request::CreateTab(CreateTabMetadata { name, dimensions: size.0 }),
        ),
        update !is Awaiting ==> tab_request(update, size) is None,
{
}

/// Stdin forwarding: a terminal event becomes an input request iff a tab
/// is selected and the event carries stdin bytes; the request is
/// addressed to the selected tab and carries exactly those bytes.
pub proof fn lemma_stdin_forwarding(msg: TerminalSend, state: TabState)
    ensures
        state matches TabState::Selected(id, _) ==> (msg matches TerminalSend::Stdin(data)
            ==> input_request(msg, state) == Some(Request::Input(id, InputChunk { data }))),
        state !is Selected ==> input_request(msg, state) is None,
        msg !is Stdin ==> input_request(msg, state) is None,
{
}

} // verus!
