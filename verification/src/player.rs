use vstd::prelude::*;
use vstd::string::*;

use crate::text::{ends_with, has_suffix, starts_with, str_equals};

verus! {

/// The sending half of a channel.
#[verifier::external_type_specification]
#[verifier::external_body]
#[verifier::reject_recursive_types(T)]
pub struct ExSender<T>(flume::Sender<T>);

/// The receiving half of a channel.
#[verifier::external_type_specification]
#[verifier::external_body]
#[verifier::reject_recursive_types(T)]
pub struct ExReceiver<T>(flume::Receiver<T>);

/// The video player embedded in the main window: the channel on which the web UI's
/// requests go to it and its responses come back, once the player is built.
pub struct Player {
    pub channel: Option<(flume::Sender<String>, flume::Receiver<String>)>,
}

impl Default for Player {
    /// A player that is not built yet: it has no channel.
    fn default() -> (r: Self)
        ensures
            r.channel is None,
    {
        Player { channel: None }
    }
}

/// The kind of value of a property that the web UI asks to observe.
#[derive(Clone, Copy, Debug, PartialEq, Eq, Structural)]
pub enum PropertyKind {
    Bool,
    Int,
    Fp,
    Str,
}

/// The format in which mpv reports an observed property.
#[derive(Clone, Copy, Debug, PartialEq, Eq, Structural)]
pub enum ObserveFormat {
    Flag,
    Int64,
    Double,
    String,
}

/// The kind of value that the web UI asks to give a property.
#[derive(Clone, Copy, Debug, PartialEq, Eq, Structural)]
pub enum PropertyValueKind {
    Bool,
    Num,
    Str,
}

/// What the web UI asks of the player.
#[derive(Clone, Copy, Debug, PartialEq, Eq, Structural)]
pub enum PlayerFunction {
    ObserveProp,
    SetProp,
    Command,
}

/// The shape of the arguments that come with a request to the player.
#[derive(Clone, Copy, Debug, PartialEq, Eq, Structural)]
pub enum PlayerArgs {
    ObserveProp(PropertyKind),
    SetProp(PropertyValueKind),
    Command,
}

/// What the player does on a request of the web UI.
#[derive(Clone, Copy, Debug, PartialEq, Eq, Structural)]
pub enum PlayerStep {
    /// Observe the property in this format.
    Observe(ObserveFormat),
    /// Give the property the boolean.
    SetBool,
    /// Give the property the number.
    SetNumber,
    /// Give the property the text, as `string_property_value` makes it.
    SetString,
    /// Run the command.
    Command,
    /// Report the request as unsupported.
    Unsupported,
}

/// The kind of an event that mpv reports.
#[derive(Clone, Copy, Debug, PartialEq, Eq, Structural)]
pub enum MpvEventKind {
    PropertyChange,
    EndFile,
    Shutdown,
    Other,
}

/// What waiting for an mpv event gave.
#[derive(Clone, Copy, Debug, PartialEq, Eq, Structural)]
pub enum EventWait {
    /// An event of this kind.
    Received(MpvEventKind),
    /// An error.
    Failed,
    /// No event (a wake-up or a time-out).
    Empty,
}

/// The response that the player sends to the web UI on an event.
#[derive(Clone, Copy, Debug, PartialEq, Eq, Structural)]
pub enum PlayerResponse {
    /// "mpv-prop-change": a property changed.
    PropChange,
    /// "mpv-event-ended": the file ended.
    Ended,
}

/// What the event loop does next.
#[derive(Clone, Copy, Debug, PartialEq, Eq, Structural)]
pub enum EventStep {
    /// Send this response, then wait again.
    Respond(PlayerResponse),
    /// Leave the loop.
    Stop,
    /// Wait again.
    Continue,
}

/// The format in which a property of this kind is observed.
pub open spec fn observe_format_of(kind: PropertyKind) -> ObserveFormat {
    match kind {
        PropertyKind::Bool => ObserveFormat::Flag,
        PropertyKind::Int => ObserveFormat::Int64,
        PropertyKind::Fp => ObserveFormat::Double,
        PropertyKind::Str => ObserveFormat::String,
    }
}

/// What the player does on a request: an observation comes with a property, a
/// setting with a value and a command with its words; any other pairing is refused.
pub open spec fn player_step_spec(function: PlayerFunction, args: PlayerArgs) -> PlayerStep {
    match (function, args) {
        (PlayerFunction::ObserveProp, PlayerArgs::ObserveProp(kind)) => PlayerStep::Observe(
            observe_format_of(kind),
        ),
        (PlayerFunction::SetProp, PlayerArgs::SetProp(PropertyValueKind::Bool)) => PlayerStep::SetBool,
        (PlayerFunction::SetProp, PlayerArgs::SetProp(PropertyValueKind::Num)) => PlayerStep::SetNumber,
        (PlayerFunction::SetProp, PlayerArgs::SetProp(PropertyValueKind::Str)) => PlayerStep::SetString,
        (PlayerFunction::Command, PlayerArgs::Command) => PlayerStep::Command,
        _ => PlayerStep::Unsupported,
    }
}

/// The text given to a property: for the video output (`vo`), the outputs asked for,
/// ended by a comma when there are any, followed by `gpu-next,`; any other property
/// gets the text as it is.
pub open spec fn string_property_spec(name: Seq<char>, value: Seq<char>) -> Seq<char> {
    if name == "vo"@ {
        (if value.len() > 0 && !ends_with(value, ","@) {
            value + ","@
        } else {
            value
        }) + "gpu-next,"@
    } else {
        value
    }
}

/// A command's word as mpv is given it: within double quotes.
pub open spec fn quoted(word: Seq<char>) -> Seq<char> {
    "\""@ + word + "\""@
}

/// What the event loop does after a wait: a property change and the end of a file
/// are answered, a shutdown leaves the loop, anything else is passed over.
pub open spec fn event_step_spec(wait: EventWait) -> EventStep {
    match wait {
        EventWait::Received(MpvEventKind::PropertyChange) => EventStep::Respond(
            PlayerResponse::PropChange,
        ),
        EventWait::Received(MpvEventKind::EndFile) => EventStep::Respond(PlayerResponse::Ended),
        EventWait::Received(MpvEventKind::Shutdown) => EventStep::Stop,
        _ => EventStep::Continue,
    }
}

/// The name under which a response is sent to the web UI.
pub open spec fn response_name_spec(response: PlayerResponse) -> Seq<char> {
    match response {
        PlayerResponse::PropChange => "mpv-prop-change"@,
        PlayerResponse::Ended => "mpv-event-ended"@,
    }
}

/// The properties that mpv is started with, but for the window it draws in: the
/// title and the audio client's name, the terminal, the log level (debug messages of
/// the player itself in a debug build), quiet output and automatic hardware decoding.
pub open spec fn initial_properties_spec(debug_build: bool) -> Seq<(Seq<char>, Seq<char>)> {
    seq![
        ("title"@, "Stremio"@),
        ("audio-client-name"@, "Stremio"@),
        ("terminal"@, "yes"@),
        ("msg-level"@, if debug_build {
            "all=no,cplayer=debug"@
        } else {
            "all=no"@
        }),
        ("quiet"@, "yes"@),
        ("hwdec"@, "auto"@),
    ]
}

/// The format in which a property of this kind is observed.
pub fn observe_format(kind: PropertyKind) -> (r: ObserveFormat)
    ensures
        r == observe_format_of(kind),
{
    match kind {
        PropertyKind::Bool => ObserveFormat::Flag,
        PropertyKind::Int => ObserveFormat::Int64,
        PropertyKind::Fp => ObserveFormat::Double,
        PropertyKind::Str => ObserveFormat::String,
    }
}

/// What the player does on a request of the web UI.
pub fn player_step(function: PlayerFunction, args: PlayerArgs) -> (r: PlayerStep)
    ensures
        r == player_step_spec(function, args),
{
    match (function, args) {
        (PlayerFunction::ObserveProp, PlayerArgs::ObserveProp(kind)) => PlayerStep::Observe(
            observe_format(kind),
        ),
        (PlayerFunction::SetProp, PlayerArgs::SetProp(PropertyValueKind::Bool)) => PlayerStep::SetBool,
        (PlayerFunction::SetProp, PlayerArgs::SetProp(PropertyValueKind::Num)) => PlayerStep::SetNumber,
        (PlayerFunction::SetProp, PlayerArgs::SetProp(PropertyValueKind::Str)) => PlayerStep::SetString,
        (PlayerFunction::Command, PlayerArgs::Command) => PlayerStep::Command,
        _ => PlayerStep::Unsupported,
    }
}

/// The text to give the property `name` for a request to set it to `value`.
pub fn string_property_value(name: &str, value: &str) -> (r: String)
    ensures
        r@ == string_property_spec(name@, value@),
{
    if str_equals(name, "vo") {
        let mut outputs = String::from_str(value);
        if value.unicode_len() > 0 && !has_suffix(value, ",") {
            outputs = outputs.concat(",");
        }
        outputs.concat("gpu-next,")
    } else {
        String::from_str(value)
    }
}

/// A command's word as mpv is given it.
pub fn quote_command_arg(word: &str) -> (r: String)
    ensures
        r@ == quoted(word@),
{
    String::from_str("\"").concat(word).concat("\"")
}

/// A command's words, after its name, as mpv is given them.
pub fn command_args(words: &Vec<String>) -> (r: Vec<String>)
    ensures
        r@.len() == words@.len(),
        forall|i: int| 0 <= i < words@.len() ==> #[trigger] r@[i]@ == quoted(words@[i]@),
{
    let mut out: Vec<String> = Vec::new();
    let mut i: usize = 0;
    while i < words.len()
        invariant
            i <= words@.len(),
            out@.len() == i,
            forall|j: int| 0 <= j < i ==> #[trigger] out@[j]@ == quoted(words@[j]@),
        decreases words@.len() - i,
    {
        out.push(quote_command_arg(words[i].as_str()));
        i = i + 1;
    }
    out
}

/// What the event loop does after a wait.
pub fn event_step(wait: EventWait) -> (r: EventStep)
    ensures
        r == event_step_spec(wait),
{
    match wait {
        EventWait::Received(MpvEventKind::PropertyChange) => EventStep::Respond(
            PlayerResponse::PropChange,
        ),
        EventWait::Received(MpvEventKind::EndFile) => EventStep::Respond(PlayerResponse::Ended),
        EventWait::Received(MpvEventKind::Shutdown) => EventStep::Stop,
        _ => EventStep::Continue,
    }
}

/// The name under which a response is sent to the web UI.
pub fn response_name(response: PlayerResponse) -> (r: &'static str)
    ensures
        r@ == response_name_spec(response),
{
    match response {
        PlayerResponse::PropChange => "mpv-prop-change",
        PlayerResponse::Ended => "mpv-event-ended",
    }
}

/// The properties that mpv is started with, in order, but for the window it draws in.
pub fn initial_properties(debug_build: bool) -> (r: Vec<(String, String)>)
    ensures
        r.deep_view() == initial_properties_spec(debug_build),
{
    let mut props: Vec<(String, String)> = Vec::new();
    props.push((String::from_str("title"), String::from_str("Stremio")));
    props.push((String::from_str("audio-client-name"), String::from_str("Stremio")));
    props.push((String::from_str("terminal"), String::from_str("yes")));
    let level = if debug_build {
        String::from_str("all=no,cplayer=debug")
    } else {
        String::from_str("all=no")
    };
    props.push((String::from_str("msg-level"), level));
    props.push((String::from_str("quiet"), String::from_str("yes")));
    props.push((String::from_str("hwdec"), String::from_str("auto")));
    proof {
        assert(props.deep_view() =~= initial_properties_spec(debug_build));
    }
    props
}


/// The video outputs given to mpv always end with `gpu-next,` and keep, in front,
/// those the web UI asked for.
pub proof fn lemma_video_output_ends_with_gpu_next(value: Seq<char>)
    ensures
        ends_with(string_property_spec("vo"@, value), "gpu-next,"@),
        starts_with(string_property_spec("vo"@, value), value),
{
    let head = if value.len() > 0 && !ends_with(value, ","@) {
        value + ","@
    } else {
        value
    };
    let r = string_property_spec("vo"@, value);
    assert(r == head + "gpu-next,"@);
    assert(r.subrange(r.len() - "gpu-next,"@.len(), r.len() as int) =~= "gpu-next,"@);
    assert(r.subrange(0, value.len() as int) =~= value);
}

/// Properties other than the video output are given the text as it was asked.
pub proof fn lemma_other_properties_unchanged(name: Seq<char>, value: Seq<char>)
    requires
        name != "vo"@,
    ensures
        string_property_spec(name, value) == value,
{
}

/// A quoted word is the word between two double quotes.
pub proof fn lemma_quoted_word(word: Seq<char>)
    ensures
        quoted(word).len() == word.len() + 2,
        quoted(word)[0] == '"',
        quoted(word)[word.len() + 1int] == '"',
        quoted(word).subrange(1, word.len() + 1int) == word,
{
    reveal_strlit("\"");
    assert(quoted(word).subrange(1, word.len() + 1int) =~= word);
}

/// An observation request is observed in the format of its property's kind: a
/// boolean as a flag, an integer as a 64-bit integer, a number as a double, a text as
/// a string; a setting sets a value of its kind; a command runs; and a request whose
/// arguments are not of its function's kind is refused.
pub proof fn lemma_player_requests(function: PlayerFunction, args: PlayerArgs)
    ensures
        player_step_spec(PlayerFunction::ObserveProp, PlayerArgs::ObserveProp(PropertyKind::Bool))
            == PlayerStep::Observe(ObserveFormat::Flag),
        player_step_spec(PlayerFunction::ObserveProp, PlayerArgs::ObserveProp(PropertyKind::Int))
            == PlayerStep::Observe(ObserveFormat::Int64),
        player_step_spec(PlayerFunction::ObserveProp, PlayerArgs::ObserveProp(PropertyKind::Fp))
            == PlayerStep::Observe(ObserveFormat::Double),
        player_step_spec(PlayerFunction::ObserveProp, PlayerArgs::ObserveProp(PropertyKind::Str))
            == PlayerStep::Observe(ObserveFormat::String),
        player_step_spec(PlayerFunction::SetProp, PlayerArgs::SetProp(PropertyValueKind::Bool))
            == PlayerStep::SetBool,
        player_step_spec(PlayerFunction::SetProp, PlayerArgs::SetProp(PropertyValueKind::Num))
            == PlayerStep::SetNumber,
        player_step_spec(PlayerFunction::SetProp, PlayerArgs::SetProp(PropertyValueKind::Str))
            == PlayerStep::SetString,
        player_step_spec(PlayerFunction::Command, PlayerArgs::Command) == PlayerStep::Command,
        ((function == PlayerFunction::ObserveProp && !(args is ObserveProp)) || (function
            == PlayerFunction::SetProp && !(args is SetProp)) || (function == PlayerFunction::Command
            && !(args is Command))) ==> player_step_spec(function, args) == PlayerStep::Unsupported,
{
}

/// A property change and the end of a file are answered, under the names
/// "mpv-prop-change" and "mpv-event-ended"; a shutdown ends the loop; any other event,
/// an error or no event at all is passed over.
pub proof fn lemma_player_events(wait: EventWait)
    ensures
        event_step_spec(EventWait::Received(MpvEventKind::PropertyChange)) == EventStep::Respond(
            PlayerResponse::PropChange,
        ),
        event_step_spec(EventWait::Received(MpvEventKind::EndFile)) == EventStep::Respond(
            PlayerResponse::Ended,
        ),
        event_step_spec(EventWait::Received(MpvEventKind::Shutdown)) == EventStep::Stop,
        (wait == EventWait::Failed || wait == EventWait::Empty || wait == EventWait::Received(
            MpvEventKind::Other,
        )) ==> event_step_spec(wait) == EventStep::Continue,
        response_name_spec(PlayerResponse::PropChange) == "mpv-prop-change"@,
        response_name_spec(PlayerResponse::Ended) == "mpv-event-ended"@,
{
}

/// The video outputs given to mpv are those asked for, a comma after them when there
/// are some and they do not already end with one, then `gpu-next,`: what comes before
/// `gpu-next,` is the asked outputs, or them and one comma, and it is empty or ends
/// with a comma.
pub proof fn lemma_video_output_list(value: Seq<char>)
    ensures
        ({
            let r = string_property_spec("vo"@, value);
            let head = r.subrange(0, r.len() - "gpu-next,"@.len());
            &&& r.len() >= "gpu-next,"@.len()
            &&& r == head + "gpu-next,"@
            &&& (head == value || head == value + ","@)
            &&& (head.len() == 0 || head[head.len() - 1] == ',')
            &&& (value.len() == 0 ==> head.len() == 0)
            &&& (head == value + ","@ ==> value.len() > 0 && !ends_with(value, ","@))
        }),
{
    reveal_strlit(",");
    let head0 = if value.len() > 0 && !ends_with(value, ","@) {
        value + ","@
    } else {
        value
    };
    let r = string_property_spec("vo"@, value);
    assert(r == head0 + "gpu-next,"@);
    assert(r.subrange(0, r.len() - "gpu-next,"@.len()) =~= head0);
    if head0 == value && value.len() > 0 {
        assert(ends_with(value, ","@));
        assert(value.subrange(value.len() - 1, value.len() as int)[0] == value[value.len() - 1]);
    }
    if head0 == value + ","@ && value + ","@ == value {
        assert((value + ","@).len() == value.len() + 1);
    }
}

} // verus!
