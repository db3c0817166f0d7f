//! The content resolution gateway: a three-tier fallback chain, written as
//! an explicit state machine.
//!
//! A request path is resolved by at most three probes, in strict order:
//! the static asset directory, then the content-addressed snapshot named by
//! the current root pointer, then the dynamic page renderer.  Each probe is
//! I/O and happens outside this crate; the machine here owns every decision
//! between the probes.  A driver asks `next_action` what to do, performs the
//! probe, feeds the outcome back through `step`, and repeats until the
//! machine has a response to serve.  The renderer is the guaranteed final
//! fallback: a miss, an absent pointer, an unreachable pointer store and a
//! failed snapshot fetch all advance the chain instead of failing the
//! request.  The one genuine fault with no next tier to absorb it — the
//! static directory itself could not be read — is surfaced as an internal
//! error, never silently read as absence.

use vstd::prelude::*;
use vstd::string::StrSliceExecFns;
use vstd::string::StringSliceAdditionalSpecFns;

use crate::media::spec_content_type_for;
use crate::media::content_type_for;
use crate::pointer::PointerModel;
use crate::pointer::RootPointer;
use crate::pointer::current_pointer_index;
use crate::pointer::spec_pointer_le;

verus! {

/// An HTTP response the gateway has decided to serve.
pub struct GatewayResponse {
    pub status: u16,
    pub content_type: String,
    pub body: Vec<u8>,
}

/// Mathematical model of a gateway response.
#[verifier::ext_equal]
pub struct ResponseModel {
    pub status: int,
    pub content_type: Seq<char>,
    pub body: Seq<u8>,
}

impl View for GatewayResponse {
    type V = ResponseModel;

    open spec fn view(&self) -> ResponseModel {
        ResponseModel {
            status: self.status as int,
            content_type: self.content_type@,
            body: self.body@,
        }
    }
}

/// Where a request stands in the fallback chain.
pub enum GatewayState {
    /// About to look the path up in the static asset directory.
    StaticLookup,
    /// About to read the current root pointer.
    PointerLookup,
    /// About to fetch the path from the snapshot at `cid`.
    ContentFetch { cid: String },
    /// About to delegate to the dynamic renderer.
    DynamicRender,
    /// Finished: `response` is what the request gets.
    Served { response: GatewayResponse },
}

/// Model of `GatewayState`.
#[verifier::ext_equal]
pub enum StateModel {
    StaticLookup,
    PointerLookup,
    ContentFetch { cid: Seq<char> },
    DynamicRender,
    Served { response: ResponseModel },
}

impl View for GatewayState {
    type V = StateModel;

    open spec fn view(&self) -> StateModel {
        match self {
            GatewayState::StaticLookup => StateModel::StaticLookup,
            GatewayState::PointerLookup => StateModel::PointerLookup,
            GatewayState::ContentFetch { cid } => StateModel::ContentFetch { cid: cid@ },
            GatewayState::DynamicRender => StateModel::DynamicRender,
            GatewayState::Served { response } => StateModel::Served { response: response@ },
        }
    }
}

/// The outcome of one probe, handed back to the machine.
pub enum GatewayEvent {
    /// The static directory holds the path; `body` is the file's bytes.
    StaticFound { body: Vec<u8> },
    /// The static directory does not hold the path.
    StaticMissing,
    /// The static directory could not be read: a fault, not absence.
    StaticFailed,
    /// The pointer table was read and `pointer` is the current pointer.
    PointerFound { pointer: RootPointer },
    /// The pointer table was read and is empty: a cold start, not an error.
    PointerMissing,
    /// The pointer table could not be read.
    StorageFailed,
    /// The snapshot holds the path; `body` is the fetched bytes.
    FetchFound { body: Vec<u8> },
    /// The snapshot does not hold the path.
    FetchMissing,
    /// The content-addressed backend failed (transport error or a
    /// non-success, non-absent status).
    FetchFailed,
    /// The dynamic renderer produced `response`.
    Rendered { response: GatewayResponse },
}

/// Model of `GatewayEvent`.
#[verifier::ext_equal]
pub enum EventModel {
    StaticFound { body: Seq<u8> },
    StaticMissing,
    StaticFailed,
    PointerFound { pointer: PointerModel },
    PointerMissing,
    StorageFailed,
    FetchFound { body: Seq<u8> },
    FetchMissing,
    FetchFailed,
    Rendered { response: ResponseModel },
}

impl View for GatewayEvent {
    type V = EventModel;

    open spec fn view(&self) -> EventModel {
        match self {
            GatewayEvent::StaticFound { body } => EventModel::StaticFound { body: body@ },
            GatewayEvent::StaticMissing => EventModel::StaticMissing,
            GatewayEvent::StaticFailed => EventModel::StaticFailed,
            GatewayEvent::PointerFound { pointer } => EventModel::PointerFound {
                pointer: pointer@,
            },
            GatewayEvent::PointerMissing => EventModel::PointerMissing,
            GatewayEvent::StorageFailed => EventModel::StorageFailed,
            GatewayEvent::FetchFound { body } => EventModel::FetchFound { body: body@ },
            GatewayEvent::FetchMissing => EventModel::FetchMissing,
            GatewayEvent::FetchFailed => EventModel::FetchFailed,
            GatewayEvent::Rendered { response } => EventModel::Rendered { response: response@ },
        }
    }
}

/// The probe a driver must perform in a given state.
pub enum GatewayAction<'a> {
    /// Look the request path up in the static asset directory.
    ProbeStatic,
    /// Read the pointer table for the current root pointer.
    ReadPointer,
    /// Fetch the request path from the snapshot at `cid`.
    FetchContent { cid: &'a str },
    /// Delegate the request to the dynamic renderer.
    Render,
    /// Send `response`; the request is resolved.
    Respond { response: &'a GatewayResponse },
}

/// Model of `GatewayAction`.
#[verifier::ext_equal]
pub enum ActionModel {
    ProbeStatic,
    ReadPointer,
    FetchContent { cid: Seq<char> },
    Render,
    Respond { response: ResponseModel },
}

/// The probe owed in state `m`.
pub open spec fn spec_next_action(m: StateModel) -> ActionModel {
    match m {
        StateModel::StaticLookup => ActionModel::ProbeStatic,
        StateModel::PointerLookup => ActionModel::ReadPointer,
        StateModel::ContentFetch { cid } => ActionModel::FetchContent { cid },
        StateModel::DynamicRender => ActionModel::Render,
        StateModel::Served { response } => ActionModel::Respond { response },
    }
}

/// The events a probe in state `m` can report.
pub open spec fn spec_accepts(m: StateModel, e: EventModel) -> bool {
    match (m, e) {
        (StateModel::StaticLookup, EventModel::StaticFound { .. }) => true,
        (StateModel::StaticLookup, EventModel::StaticMissing) => true,
        (StateModel::StaticLookup, EventModel::StaticFailed) => true,
        (StateModel::PointerLookup, EventModel::PointerFound { .. }) => true,
        (StateModel::PointerLookup, EventModel::PointerMissing) => true,
        (StateModel::PointerLookup, EventModel::StorageFailed) => true,
        (StateModel::ContentFetch { .. }, EventModel::FetchFound { .. }) => true,
        (StateModel::ContentFetch { .. }, EventModel::FetchMissing) => true,
        (StateModel::ContentFetch { .. }, EventModel::FetchFailed) => true,
        (StateModel::DynamicRender, EventModel::Rendered { .. }) => true,
        _ => false,
    }
}

/// A success response carrying `body` for the request path `path`, typed by
/// the shared extension lookup.
pub open spec fn spec_ok_response(path: Seq<char>, body: Seq<u8>) -> ResponseModel {
    ResponseModel { status: 200, content_type: spec_content_type_for(path), body }
}

/// The response served when the static directory itself cannot be read:
/// an internal error, converted at the boundary rather than read as
/// absence.
pub open spec fn spec_static_fault_response() -> ResponseModel {
    ResponseModel {
        status: 500,
        content_type: "text/plain"@,
        body: "Something went wrong".spec_bytes(),
    }
}

/// The transition relation of the fallback chain, for the request path
/// `path`.  An event that does not answer the state's probe leaves the
/// state unchanged.
pub open spec fn spec_step(m: StateModel, e: EventModel, path: Seq<char>) -> StateModel {
    match (m, e) {
        (StateModel::StaticLookup, EventModel::StaticFound { body }) => StateModel::Served {
            response: spec_ok_response(path, body),
        },
        (StateModel::StaticLookup, EventModel::StaticMissing) => StateModel::PointerLookup,
        (StateModel::StaticLookup, EventModel::StaticFailed) => StateModel::Served {
            response: spec_static_fault_response(),
        },
        (StateModel::PointerLookup, EventModel::PointerFound { pointer }) => StateModel::ContentFetch {
            cid: pointer.cid,
        },
        (StateModel::PointerLookup, EventModel::PointerMissing) => StateModel::DynamicRender,
        (StateModel::PointerLookup, EventModel::StorageFailed) => StateModel::DynamicRender,
        (StateModel::ContentFetch { .. }, EventModel::FetchFound { body }) => StateModel::Served {
            response: spec_ok_response(path, body),
        },
        (StateModel::ContentFetch { .. }, EventModel::FetchMissing) => StateModel::DynamicRender,
        (StateModel::ContentFetch { .. }, EventModel::FetchFailed) => StateModel::DynamicRender,
        (StateModel::DynamicRender, EventModel::Rendered { response }) => StateModel::Served {
            response,
        },
        (other, _) => other,
    }
}

impl GatewayState {
    /// The state a fresh request starts in.
    pub fn start() -> (r: GatewayState)
        ensures
            r@ == StateModel::StaticLookup,
    {
        GatewayState::StaticLookup
    }

    /// The probe owed in this state; mirrors `spec_next_action`.
    pub fn next_action(&self) -> (a: GatewayAction<'_>)
        ensures
            a@ == spec_next_action(self@),
    {
        match self {
            GatewayState::StaticLookup => GatewayAction::ProbeStatic,
            GatewayState::PointerLookup => GatewayAction::ReadPointer,
            GatewayState::ContentFetch { cid } => GatewayAction::FetchContent {
                cid: cid.as_str(),
            },
            GatewayState::DynamicRender => GatewayAction::Render,
            GatewayState::Served { response } => GatewayAction::Respond { response },
        }
    }

    /// Advances the chain by one probe outcome; mirrors `spec_step`.
    pub fn step(self, event: GatewayEvent, path: &str) -> (r: GatewayState)
        ensures
            r@ == spec_step(self@, event@, path@),
    {
        match (self, event) {
            (GatewayState::StaticLookup, GatewayEvent::StaticFound { body }) => {
                GatewayState::Served { response: ok_response(path, body) }
            },
            (GatewayState::StaticLookup, GatewayEvent::StaticMissing) => {
                GatewayState::PointerLookup
            },
            (GatewayState::StaticLookup, GatewayEvent::StaticFailed) => {
                GatewayState::Served { response: static_fault_response() }
            },
            (GatewayState::PointerLookup, GatewayEvent::PointerFound { pointer }) => {
                GatewayState::ContentFetch { cid: pointer.cid }
            },
            (GatewayState::PointerLookup, GatewayEvent::PointerMissing) => {
                GatewayState::DynamicRender
            },
            (GatewayState::PointerLookup, GatewayEvent::StorageFailed) => {
                GatewayState::DynamicRender
            },
            (GatewayState::ContentFetch { .. }, GatewayEvent::FetchFound { body }) => {
                GatewayState::Served { response: ok_response(path, body) }
            },
            (GatewayState::ContentFetch { .. }, GatewayEvent::FetchMissing) => {
                GatewayState::DynamicRender
            },
            (GatewayState::ContentFetch { .. }, GatewayEvent::FetchFailed) => {
                GatewayState::DynamicRender
            },
            (GatewayState::DynamicRender, GatewayEvent::Rendered { response }) => {
                GatewayState::Served { response }
            },
            (other, _) => other,
        }
    }
}

impl<'a> View for GatewayAction<'a> {
    type V = ActionModel;

    open spec fn view(&self) -> ActionModel {
        match self {
            GatewayAction::ProbeStatic => ActionModel::ProbeStatic,
            GatewayAction::ReadPointer => ActionModel::ReadPointer,
            GatewayAction::FetchContent { cid } => ActionModel::FetchContent { cid: cid@ },
            GatewayAction::Render => ActionModel::Render,
            GatewayAction::Respond { response } => ActionModel::Respond { response: response@ },
        }
    }
}

/// A success response for `path` carrying `body`; mirrors
/// `spec_ok_response`.
pub fn ok_response(path: &str, body: Vec<u8>) -> (r: GatewayResponse)
    ensures
        r@ == spec_ok_response(path@, body@),
{
    GatewayResponse { status: 200, content_type: content_type_for(path), body }
}

/// The internal-error response for a static tier that could not be read;
/// mirrors `spec_static_fault_response`.
pub fn static_fault_response() -> (r: GatewayResponse)
    ensures
        r@ == spec_static_fault_response(),
{
    GatewayResponse {
        status: 500,
        content_type: String::from_str("text/plain"),
        body: "Something went wrong".as_bytes_vec(),
    }
}

/// The static tier's reading of a file-service reply; mirrors the rule that
/// only a success status is a hit.
pub fn static_event_of_status(status: u16, body: Vec<u8>) -> (r: GatewayEvent)
    ensures
        status == 200 ==> r@ == (EventModel::StaticFound { body: body@ }),
        status != 200 ==> r@ == EventModel::StaticMissing,
{
    if status == 200 {
        GatewayEvent::StaticFound { body }
    } else {
        GatewayEvent::StaticMissing
    }
}

/// The content-addressed tier's reading of the backend's reply: a
/// 404-equivalent status is a normal miss, any other non-success status is
/// a hard failure, and a success carries the bytes verbatim.
pub fn fetch_event_of_status(status: u16, body: Vec<u8>) -> (r: GatewayEvent)
    ensures
        200 <= status < 300 ==> r@ == (EventModel::FetchFound { body: body@ }),
        status == 404 ==> r@ == EventModel::FetchMissing,
        !(200 <= status < 300) && status != 404 ==> r@ == EventModel::FetchFailed,
{
    if 200 <= status && status < 300 {
        GatewayEvent::FetchFound { body }
    } else if status == 404 {
        GatewayEvent::FetchMissing
    } else {
        GatewayEvent::FetchFailed
    }
}

/// The pointer tier's reading of the pointer table: a failed read is a
/// storage failure, an empty table is a normal absence, and otherwise the
/// current pointer is the row every other row precedes in publication
/// order.
pub fn pointer_event_of_rows(read_ok: bool, rows: Vec<RootPointer>) -> (r: GatewayEvent)
    ensures
        !read_ok ==> r@ == EventModel::StorageFailed,
        read_ok && rows@.len() == 0 ==> r@ == EventModel::PointerMissing,
        read_ok && rows@.len() > 0 ==> (r@ matches EventModel::PointerFound { pointer } && {
            &&& exists|i: int| 0 <= i < rows@.len() && pointer == #[trigger] rows@[i]@
            &&& forall|j: int| 0 <= j < rows@.len() ==> spec_pointer_le(#[trigger] rows@[j]@, pointer)
        }),
{
    if !read_ok {
        return GatewayEvent::StorageFailed;
    }
    let mut rows = rows;
    match current_pointer_index(&rows) {
        None => GatewayEvent::PointerMissing,
        Some(i) => {
            let ghost rows0 = rows@;
            let pointer = rows.remove(i);
            proof {
                assert(pointer == rows0[i as int]);
            }
            GatewayEvent::PointerFound { pointer }
        },
    }
}

/// How many probes a state may still need before a response is served.
pub open spec fn spec_tiers_remaining(m: StateModel) -> int {
    match m {
        StateModel::StaticLookup => 4,
        StateModel::PointerLookup => 3,
        StateModel::ContentFetch { .. } => 2,
        StateModel::DynamicRender => 1,
        StateModel::Served { .. } => 0,
    }
}

/// Law: every answered probe advances the chain strictly toward a served
/// response, and a served response answers no further probe — the fallback
/// chain cannot loop or stall, and the renderer's answer is final.
pub proof fn lemma_chain_progress(m: StateModel, e: EventModel, path: Seq<char>)
    requires
        spec_accepts(m, e),
    ensures
        spec_tiers_remaining(spec_step(m, e, path)) < spec_tiers_remaining(m),
{
}

/// Law: a path present in the static directory is served as exactly that
/// file's bytes with status 200, and the chain is then finished — neither
/// the pointer store nor the content-addressed backend is consulted,
/// whatever their state.
pub proof fn lemma_static_hit_is_served(path: Seq<char>, body: Seq<u8>)
    ensures
        spec_step(StateModel::StaticLookup, EventModel::StaticFound { body }, path)
            == (StateModel::Served { response: spec_ok_response(path, body) }),
        spec_next_action(spec_step(StateModel::StaticLookup, EventModel::StaticFound { body }, path))
            == (ActionModel::Respond { response: spec_ok_response(path, body) }),
{
}

/// Law: without a current root pointer the content-addressed tier is
/// skipped entirely.  A missing pointer and an unreachable pointer store
/// both send the chain straight to dynamic rendering, and a fetch is only
/// ever owed to a state that a recorded pointer produced, with that
/// pointer's own address — the gateway never fetches with an empty or
/// default address.
pub proof fn lemma_no_pointer_skips_fetch(m: StateModel, e: EventModel, path: Seq<char>)
    requires
        spec_accepts(m, e),
    ensures
        spec_step(StateModel::PointerLookup, EventModel::PointerMissing, path)
            == StateModel::DynamicRender,
        spec_step(StateModel::PointerLookup, EventModel::StorageFailed, path)
            == StateModel::DynamicRender,
        spec_step(m, e, path) is ContentFetch ==> m == StateModel::PointerLookup && (e matches
            EventModel::PointerFound { pointer } && spec_step(m, e, path) == (StateModel::ContentFetch {
            cid: pointer.cid,
        })),
{
}

/// Law: a fault while reading the static directory is surfaced as an
/// internal error — it is never read as absence, so it never silently
/// advances the chain the way a miss does.
pub proof fn lemma_static_fault_surfaces(path: Seq<char>)
    ensures
        spec_step(StateModel::StaticLookup, EventModel::StaticFailed, path) == (StateModel::Served {
            response: spec_static_fault_response(),
        }),
        spec_static_fault_response().status == 500,
        spec_step(StateModel::StaticLookup, EventModel::StaticFailed, path)
            != spec_step(StateModel::StaticLookup, EventModel::StaticMissing, path),
{
}

/// Law: a path absent from the static directory and absent from the
/// snapshot is delegated to the renderer, and the gateway serves whatever
/// the renderer returns — it never produces a bare not-found of its own.
/// A backend failure at the fetch (as opposed to a miss) takes the same
/// route: the renderer is the guaranteed final fallback.
pub proof fn lemma_absent_everywhere_renders(
    path: Seq<char>,
    pointer: PointerModel,
    fetch_outcome: EventModel,
    rendered: ResponseModel,
)
    requires
        fetch_outcome is FetchMissing || fetch_outcome is FetchFailed,
    ensures
        ({
            let after_static = spec_step(StateModel::StaticLookup, EventModel::StaticMissing, path);
            let after_pointer = spec_step(
                after_static,
                EventModel::PointerFound { pointer },
                path,
            );
            let after_fetch = spec_step(after_pointer, fetch_outcome, path);
            &&& after_static == StateModel::PointerLookup
            &&& after_pointer == (StateModel::ContentFetch { cid: pointer.cid })
            &&& after_fetch == StateModel::DynamicRender
            &&& spec_step(after_fetch, EventModel::Rendered { response: rendered }, path) == (
            StateModel::Served { response: rendered })
        }),
{
}

/// Law: an `.svg` path served via the content-addressed tier always
/// carries `Content-Type: image/svg+xml`, regardless of what the backend
/// reported.
pub proof fn lemma_svg_from_snapshot(path: Seq<char>, cid: Seq<char>, body: Seq<u8>)
    requires
        crate::media::spec_ends_with_svg(path),
    ensures
        spec_step(StateModel::ContentFetch { cid }, EventModel::FetchFound { body }, path) == (
        StateModel::Served {
            response: ResponseModel { status: 200, content_type: "image/svg+xml"@, body },
        }),
{
}

/// The request path sent to the content-addressed backend for snapshot
/// `cid`: `/ipfs/<cid><path>`, the scheme prefix, then the root address,
/// then the request path (which begins with its own slash; an empty path
/// fetches the root object itself).
pub fn gateway_fetch_path(cid: &str, path: &str) -> (r: String)
    ensures
        r@ == "/ipfs/"@ + cid@ + path@,
{
    let mut s = String::from_str("/ipfs/");
    s.append(cid);
    s.append(path);
    s
}

} // verus!
