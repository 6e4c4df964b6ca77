use stremio_shell_ng::player::{
    command_args, event_step, initial_properties, observe_format, player_step, quote_command_arg,
    response_name, string_property_value, EventStep, EventWait, MpvEventKind, ObserveFormat,
    Player, PlayerArgs, PlayerFunction, PlayerResponse, PlayerStep, PropertyKind,
    PropertyValueKind,
};

#[test]
fn new_player_has_no_channel() {
    assert!(Player::default().channel.is_none());
}

#[test]
fn video_output_gets_gpu_next() {
    assert_eq!(string_property_value("vo", "d3d11"), "d3d11,gpu-next,");
    assert_eq!(string_property_value("vo", "gpu,"), "gpu,gpu-next,");
    assert_eq!(string_property_value("vo", ""), "gpu-next,");
    assert_eq!(string_property_value("vo", "a,b"), "a,b,gpu-next,");
}

#[test]
fn other_properties_are_set_as_given() {
    assert_eq!(string_property_value("hwdec", "auto"), "auto");
    assert_eq!(string_property_value("VO", "x"), "x");
    assert_eq!(string_property_value("vo2", ""), "");
}

#[test]
fn command_words_are_quoted() {
    assert_eq!(quote_command_arg("loadfile"), "\"loadfile\"");
    assert_eq!(quote_command_arg(""), "\"\"");
    let words = vec!["http://a/b c".to_string(), "replace".to_string()];
    assert_eq!(command_args(&words), vec!["\"http://a/b c\"".to_string(), "\"replace\"".to_string()]);
    assert!(command_args(&vec![]).is_empty());
}

#[test]
fn observed_formats() {
    assert_eq!(observe_format(PropertyKind::Bool), ObserveFormat::Flag);
    assert_eq!(observe_format(PropertyKind::Int), ObserveFormat::Int64);
    assert_eq!(observe_format(PropertyKind::Fp), ObserveFormat::Double);
    assert_eq!(observe_format(PropertyKind::Str), ObserveFormat::String);
}

#[test]
fn requests_and_their_arguments() {
    assert_eq!(
        player_step(PlayerFunction::ObserveProp, PlayerArgs::ObserveProp(PropertyKind::Fp)),
        PlayerStep::Observe(ObserveFormat::Double)
    );
    assert_eq!(
        player_step(PlayerFunction::SetProp, PlayerArgs::SetProp(PropertyValueKind::Bool)),
        PlayerStep::SetBool
    );
    assert_eq!(
        player_step(PlayerFunction::SetProp, PlayerArgs::SetProp(PropertyValueKind::Num)),
        PlayerStep::SetNumber
    );
    assert_eq!(
        player_step(PlayerFunction::SetProp, PlayerArgs::SetProp(PropertyValueKind::Str)),
        PlayerStep::SetString
    );
    assert_eq!(player_step(PlayerFunction::Command, PlayerArgs::Command), PlayerStep::Command);
    assert_eq!(player_step(PlayerFunction::Command, PlayerArgs::SetProp(PropertyValueKind::Str)), PlayerStep::Unsupported);
    assert_eq!(player_step(PlayerFunction::SetProp, PlayerArgs::ObserveProp(PropertyKind::Int)), PlayerStep::Unsupported);
    assert_eq!(player_step(PlayerFunction::ObserveProp, PlayerArgs::Command), PlayerStep::Unsupported);
}

#[test]
fn events() {
    assert_eq!(
        event_step(EventWait::Received(MpvEventKind::PropertyChange)),
        EventStep::Respond(PlayerResponse::PropChange)
    );
    assert_eq!(event_step(EventWait::Received(MpvEventKind::EndFile)), EventStep::Respond(PlayerResponse::Ended));
    assert_eq!(event_step(EventWait::Received(MpvEventKind::Shutdown)), EventStep::Stop);
    assert_eq!(event_step(EventWait::Received(MpvEventKind::Other)), EventStep::Continue);
    assert_eq!(event_step(EventWait::Failed), EventStep::Continue);
    assert_eq!(event_step(EventWait::Empty), EventStep::Continue);
    assert_eq!(response_name(PlayerResponse::PropChange), "mpv-prop-change");
    assert_eq!(response_name(PlayerResponse::Ended), "mpv-event-ended");
}

#[test]
fn mpv_starts_with_these_properties() {
    let s = |a: &str, b: &str| (a.to_string(), b.to_string());
    assert_eq!(
        initial_properties(false),
        vec![
            s("title", "Stremio"),
            s("audio-client-name", "Stremio"),
            s("terminal", "yes"),
            s("msg-level", "all=no"),
            s("quiet", "yes"),
            s("hwdec", "auto"),
        ]
    );
    assert_eq!(initial_properties(true)[3], s("msg-level", "all=no,cplayer=debug"));
}
