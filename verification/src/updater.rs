use vstd::prelude::*;
use vstd::string::*;

use rand::rngs::ThreadRng;
use rand::Rng;

use crate::constants::UPDATE_INTERVAL;
use crate::text::{opt_text_view, str_equals};

verus! {

/// The random number generator of the current thread.
#[verifier::external_type_specification]
#[verifier::external_body]
pub struct ExThreadRng(ThreadRng);

/// Why a text is not a URL.
#[verifier::external_type_specification]
#[verifier::external_body]
pub struct ExUrlParseError(url::ParseError);

/// The serialization of the URL that `url::Url::parse_with_params` makes of `input`,
/// with the pairs `params` appended to its query, or nothing when `input` is not an
/// absolute URL.
pub uninterp spec fn url_with_params(input: Seq<char>, params: Seq<(Seq<char>, Seq<char>)>) -> Option<
    Seq<char>,
>;

/// Calls `rand::thread_rng`: the generator of the current thread. Nothing is stated of it.
#[verifier::external_body]
fn thread_rng() -> ThreadRng {
    rand::thread_rng()
}

/// Calls `Rng::gen_range` on `0..n`: a random index below `n`. The range must not be
/// empty (`gen_range` panics on an empty range); which index comes out is not stated.
#[verifier::external_body]
fn gen_index(rng: &mut ThreadRng, n: usize) -> (r: usize)
    requires
        n > 0,
    ensures
        r < n,
{
    rng.gen_range(0..n)
}

/// Calls `url::Url::parse_with_params`: parses `input` as an absolute URL and appends
/// `params` to its query; the result is the URL's serialization, named by
/// `url_with_params` (the URL standard's parser is not restated here).
#[verifier::external_body]
fn parse_url_with_params(input: &str, params: &Vec<(String, String)>) -> (r: Result<
    String,
    url::ParseError,
>)
    ensures
        match r {
            Ok(s) => url_with_params(input@, params.deep_view()) == Some(s@),
            Err(_) => url_with_params(input@, params.deep_view()) is None,
        },
{
    url::Url::parse_with_params(input, params.iter()).map(String::from)
}

/// How many endpoints are asked for updates.
pub const UPDATE_ENDPOINT_COUNT: usize = 3;

/// The message that starts the checks for updates.
pub open spec fn update_check_request() -> Seq<char> {
    "check_for_update"@
}

/// The endpoints asked for updates.
pub open spec fn update_endpoint_text(index: int) -> Seq<char> {
    if index == 0 {
        "https://www.strem.io/updater/check?product=stremio-shell-ng"@
    } else if index == 1 {
        "https://www.stremio.com/updater/check?product=stremio-shell-ng"@
    } else {
        "https://www.stremio.net/updater/check?product=stremio-shell-ng"@
    }
}

/// The pairs added to an endpoint's query: the architecture, and `rc=true` for a
/// release candidate.
pub open spec fn update_query(arch: Seq<char>, release_candidate: bool) -> Seq<(Seq<char>, Seq<char>)> {
    seq![("arch"@, arch)] + if release_candidate {
        seq![("rc"@, "true"@)]
    } else {
        Seq::empty()
    }
}

/// `url` is what the endpoint `index` gives with the pairs for `arch` and
/// `release_candidate` added to its query (`None`: the endpoint is not a URL).
pub open spec fn is_update_url(index: int, arch: Seq<char>, release_candidate: bool, url: Option<Seq<char>>) -> bool {
    url == url_with_params(update_endpoint_text(index), update_query(arch, release_candidate))
}

/// Whether a message to the updater starts the checks for updates.
pub fn is_update_check_request(message: &str) -> (r: bool)
    ensures
        r == (message@ == update_check_request()),
{
    str_equals(message, "check_for_update")
}

/// One of the endpoints asked for updates.
pub fn update_endpoint(index: usize) -> (r: &'static str)
    requires
        index < UPDATE_ENDPOINT_COUNT,
    ensures
        r@ == update_endpoint_text(index as int),
{
    if index == 0 {
        "https://www.strem.io/updater/check?product=stremio-shell-ng"
    } else if index == 1 {
        "https://www.stremio.com/updater/check?product=stremio-shell-ng"
    } else {
        "https://www.stremio.net/updater/check?product=stremio-shell-ng"
    }
}

/// The pairs to add to an endpoint's query.
pub fn update_query_params(arch: &str, release_candidate: bool) -> (r: Vec<(String, String)>)
    ensures
        r.deep_view() == update_query(arch@, release_candidate),
{
    let mut params: Vec<(String, String)> = Vec::new();
    params.push((String::from_str("arch"), String::from_str(arch)));
    if release_candidate {
        params.push((String::from_str("rc"), String::from_str("true")));
    }
    proof {
        assert(params.deep_view() =~= update_query(arch@, release_candidate));
    }
    params
}

/// The URL asked for updates at the endpoint `index`, with the architecture and, for a
/// release candidate, `rc=true` in its query; `None` when the endpoint is not a URL.
pub fn update_url_at(index: usize, arch: &str, release_candidate: bool) -> (r: Option<String>)
    requires
        index < UPDATE_ENDPOINT_COUNT,
    ensures
        is_update_url(index as int, arch@, release_candidate, opt_text_view(r)),
{
    let params = update_query_params(arch, release_candidate);
    match parse_url_with_params(update_endpoint(index), &params) {
        Ok(url) => Some(url),
        Err(_) => None,
    }
}

/// The URL asked for updates: the one given, or else one of the endpoints, picked at
/// random, with the architecture and, for a release candidate, `rc=true` in its query
/// (`None` when that endpoint is not a URL).
pub fn updater_endpoint(custom: Option<String>, arch: &str, release_candidate: bool) -> (r: Option<
    String,
>)
    ensures
        custom matches Some(c) ==> r matches Some(s) && s@ == c@,
        custom is None ==> exists|i: int|
            0 <= i < UPDATE_ENDPOINT_COUNT && #[trigger] is_update_url(
                i,
                arch@,
                release_candidate,
                opt_text_view(r),
            ),
{
    match custom {
        Some(endpoint) => Some(endpoint),
        None => {
            let mut rng = thread_rng();
            let index = gen_index(&mut rng, UPDATE_ENDPOINT_COUNT);
            update_url_at(index, arch, release_candidate)
        },
    }
}

/// Where the update checks stand: waiting for the web UI to be ready, or running.
#[derive(Clone, Copy, Debug, PartialEq, Eq, Structural)]
pub enum UpdaterState {
    AwaitingStart,
    Running,
}

/// What the update checks' thread learns.
#[derive(Debug)]
pub enum UpdaterEvent {
    /// A message came on the updater's channel.
    Message(String),
    /// A check for updates ended, finding an update to install or not.
    Checked { update_found: bool },
    /// The time between two checks has passed.
    IntervalElapsed,
}

/// The view of an updater event, over texts.
pub enum UpdaterEventView {
    Message(Seq<char>),
    Checked { update_found: bool },
    IntervalElapsed,
}

impl View for UpdaterEvent {
    type V = UpdaterEventView;

    open spec fn view(&self) -> UpdaterEventView {
        match self {
            UpdaterEvent::Message(m) => UpdaterEventView::Message(m@),
            UpdaterEvent::Checked { update_found } => UpdaterEventView::Checked {
                update_found: *update_found,
            },
            UpdaterEvent::IntervalElapsed => UpdaterEventView::IntervalElapsed,
        }
    }
}

/// What the update checks' thread does next.
#[derive(Clone, Copy, Debug, PartialEq, Eq, Structural)]
pub enum UpdaterAction {
    /// Wait for the next message.
    KeepWaiting,
    /// Ask an endpoint (`updater_endpoint`) for updates.
    Check,
    /// Sleep this many seconds; first, when an update was found, keep its setup file
    /// and tell the web UI that an update is available.
    Sleep { seconds: u64, announce_update: bool },
}

/// One step of the update checks: nothing is checked before the start message; from
/// then on each check is followed by a sleep of `UPDATE_INTERVAL` seconds, and each
/// sleep by a check.
pub open spec fn updater_step_spec(state: UpdaterState, event: UpdaterEventView) -> (
    UpdaterState,
    UpdaterAction,
) {
    match state {
        UpdaterState::AwaitingStart => match event {
            UpdaterEventView::Message(m) => if m == update_check_request() {
                (UpdaterState::Running, UpdaterAction::Check)
            } else {
                (UpdaterState::AwaitingStart, UpdaterAction::KeepWaiting)
            },
            _ => (UpdaterState::AwaitingStart, UpdaterAction::KeepWaiting),
        },
        UpdaterState::Running => match event {
            UpdaterEventView::Checked { update_found } => (
                UpdaterState::Running,
                UpdaterAction::Sleep { seconds: UPDATE_INTERVAL, announce_update: update_found },
            ),
            UpdaterEventView::IntervalElapsed => (UpdaterState::Running, UpdaterAction::Check),
            UpdaterEventView::Message(_) => (UpdaterState::Running, UpdaterAction::KeepWaiting),
        },
    }
}

/// The state reached and the actions taken over a run of events.
pub open spec fn updater_run(state: UpdaterState, events: Seq<UpdaterEventView>) -> (
    UpdaterState,
    Seq<UpdaterAction>,
)
    decreases events.len(),
{
    if events.len() == 0 {
        (state, Seq::empty())
    } else {
        let (before, actions) = updater_run(state, events.drop_last());
        let (after, action) = updater_step_spec(before, events.last());
        (after, actions.push(action))
    }
}

/// One step of the update checks.
pub fn updater_step(state: UpdaterState, event: &UpdaterEvent) -> (r: (UpdaterState, UpdaterAction))
    ensures
        r == updater_step_spec(state, event@),
{
    match state {
        UpdaterState::AwaitingStart => match event {
            UpdaterEvent::Message(m) => if is_update_check_request(m.as_str()) {
                (UpdaterState::Running, UpdaterAction::Check)
            } else {
                (UpdaterState::AwaitingStart, UpdaterAction::KeepWaiting)
            },
            _ => (UpdaterState::AwaitingStart, UpdaterAction::KeepWaiting),
        },
        UpdaterState::Running => match event {
            UpdaterEvent::Checked { update_found } => (
                UpdaterState::Running,
                UpdaterAction::Sleep { seconds: UPDATE_INTERVAL, announce_update: *update_found },
            ),
            UpdaterEvent::IntervalElapsed => (UpdaterState::Running, UpdaterAction::Check),
            UpdaterEvent::Message(_) => (UpdaterState::Running, UpdaterAction::KeepWaiting),
        },
    }
}

/// Until the start message arrives, no update is checked and the checks stay waiting.
pub proof fn lemma_no_check_before_start(events: Seq<UpdaterEventView>)
    requires
        forall|i: int|
            0 <= i < events.len() ==> #[trigger] events[i] != UpdaterEventView::Message(
                update_check_request(),
            ),
    ensures
        updater_run(UpdaterState::AwaitingStart, events).0 == UpdaterState::AwaitingStart,
        updater_run(UpdaterState::AwaitingStart, events).1.len() == events.len(),
        forall|j: int|
            0 <= j < events.len() ==> #[trigger] updater_run(UpdaterState::AwaitingStart, events).1[j]
                == UpdaterAction::KeepWaiting,
    decreases events.len(),
{
    if events.len() > 0 {
        let prefix = events.drop_last();
        assert forall|i: int| 0 <= i < prefix.len() implies #[trigger] prefix[i]
            != UpdaterEventView::Message(update_check_request()) by {
            assert(prefix[i] == events[i]);
        }
        lemma_no_check_before_start(prefix);
        assert(events.last() == events[events.len() - 1]);
        let actions = updater_run(UpdaterState::AwaitingStart, events).1;
        let before = updater_run(UpdaterState::AwaitingStart, prefix).1;
        let (after, action) = updater_step_spec(UpdaterState::AwaitingStart, events.last());
        assert(action == UpdaterAction::KeepWaiting);
        assert(actions == before.push(action));
        assert forall|j: int| 0 <= j < events.len() implies #[trigger] actions[j]
            == UpdaterAction::KeepWaiting by {
            if j < prefix.len() {
                assert(actions[j] == before[j]);
            }
        }
    }
}

/// The start message starts the checks at once; once they run, every check is
/// followed by a sleep of `UPDATE_INTERVAL` seconds that announces exactly a found
/// update, and every sleep by a check.
pub proof fn lemma_checks_repeat_every_interval(update_found: bool)
    ensures
        updater_step_spec(
            UpdaterState::AwaitingStart,
            UpdaterEventView::Message(update_check_request()),
        ) == (UpdaterState::Running, UpdaterAction::Check),
        updater_step_spec(UpdaterState::Running, UpdaterEventView::Checked { update_found }) == (
        UpdaterState::Running, UpdaterAction::Sleep {
            seconds: UPDATE_INTERVAL,
            announce_update: update_found,
        }),
        updater_step_spec(UpdaterState::Running, UpdaterEventView::IntervalElapsed) == (
        UpdaterState::Running, UpdaterAction::Check),
        UPDATE_INTERVAL == 12 * 60 * 60,
{
}

/// What is done when the user asks to install a downloaded update.
#[derive(Debug)]
pub enum SetupStep<P> {
    /// Start the setup program with these arguments (no window, no cancel, close the
    /// shell, run it again afterwards), detached and without input or output.
    Launch { program: P, args: Vec<String> },
    /// No setup was downloaded: report it.
    Missing,
}

/// What follows the start of the setup program.
#[derive(Clone, Copy, Debug, PartialEq, Eq, Structural)]
pub enum SetupOutcome {
    /// The setup started: the shell quits.
    Quit,
    /// The setup could not start: report it and keep running.
    Failed,
}

/// The arguments given to the setup program.
pub open spec fn update_setup_args_spec() -> Seq<Seq<char>> {
    seq!["/SILENT"@, "/NOCANCEL"@, "/FORCECLOSEAPPLICATIONS"@, "/TASKS=runapp"@]
}

/// What to do to install the downloaded update, if its setup file is known.
pub fn update_setup_step<P>(setup_file: Option<P>) -> (r: SetupStep<P>)
    ensures
        match setup_file {
            Some(p) => r matches SetupStep::Launch { program, args } && program == p
                && args.deep_view() == update_setup_args_spec(),
            None => r is Missing,
        },
{
    match setup_file {
        Some(program) => {
            let mut args: Vec<String> = Vec::new();
            args.push(String::from_str("/SILENT"));
            args.push(String::from_str("/NOCANCEL"));
            args.push(String::from_str("/FORCECLOSEAPPLICATIONS"));
            args.push(String::from_str("/TASKS=runapp"));
            proof {
                assert(args.deep_view() =~= update_setup_args_spec());
            }
            SetupStep::Launch { program, args }
        },
        None => SetupStep::Missing,
    }
}

/// What follows the attempt to start the setup program: the shell quits exactly when
/// the setup started.
pub fn setup_outcome(started: bool) -> (r: SetupOutcome)
    ensures
        (r == SetupOutcome::Quit) == started,
{
    if started {
        SetupOutcome::Quit
    } else {
        SetupOutcome::Failed
    }
}

} // verus!
