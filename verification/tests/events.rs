use hyprland_ipc::error::{DecodeError, Error};
use hyprland_ipc::events::{
    decode, decode_line, decode_record, DataParser, EventStream, HyprlandEvent, Outcome,
    ScreencastOwner, StreamInput, StreamState,
};
use hyprland_ipc::{WindowAddress, WorkspaceId};

fn text(s: &str) -> String {
    s.to_string()
}

fn emitted(line: &str) -> HyprlandEvent {
    match decode_line(line) {
        Outcome::Emit(event) => event,
        other => panic!("{:?} gave {:?}", line, other),
    }
}

#[test]
fn fields_stand_between_commas() {
    let mut parser = DataParser::new("a,b,,c");
    assert_eq!(parser.next(), Ok(text("a")));
    assert_eq!(parser.next_string(), Ok(text("b")));
    assert_eq!(parser.next(), Ok(text("")));
    assert_eq!(parser.next(), Ok(text("c")));
    assert_eq!(parser.next(), Err(DecodeError::UnexpectedEof));
    assert_eq!(parser.next(), Err(DecodeError::UnexpectedEof));
}

#[test]
fn fields_match_the_standard_split() {
    for data in ["", ",", "a", "a,", ",a", "a,b", ",,", "x,,y,", "1,1a,2b", "no commas here"] {
        let mut parser = DataParser::new(data);
        for expected in data.split(',') {
            assert_eq!(parser.next(), Ok(expected.to_string()), "{:?}", data);
        }
        assert_eq!(parser.next(), Err(DecodeError::UnexpectedEof), "{:?}", data);
    }
}

#[test]
fn an_empty_record_is_one_empty_field() {
    let mut parser = DataParser::new("");
    assert_eq!(parser.next(), Ok(text("")));
    assert_eq!(parser.next(), Err(DecodeError::UnexpectedEof));
}

#[test]
fn hex_address_has_no_prefix() {
    assert_eq!(DataParser::new("1a2b").next_window_address(), Ok(WindowAddress(0x1a2b)));
    assert_eq!(DataParser::new("0x1a2b").next_window_address(), Err(DecodeError::InvalidInteger));
    assert_eq!(DataParser::new("").next_window_address(), Err(DecodeError::InvalidInteger));
    assert_eq!(DataParser::new("ffffffffffffffff").next_window_address(), Ok(WindowAddress(u64::MAX)));
    assert_eq!(
        DataParser::new("10000000000000000").next_window_address(),
        Err(DecodeError::InvalidInteger)
    );
}

#[test]
fn workspace_ids_are_hexadecimal_and_signed() {
    assert_eq!(DataParser::new("3").next_workspace_id(), Ok(WorkspaceId(3)));
    assert_eq!(DataParser::new("10").next_workspace_id(), Ok(WorkspaceId(16)));
    assert_eq!(DataParser::new("-62").next_workspace_id(), Ok(WorkspaceId(-98)));
    assert_eq!(DataParser::new("7fffffff").next_workspace_id(), Ok(WorkspaceId(i32::MAX)));
    assert_eq!(DataParser::new("80000000").next_workspace_id(), Err(DecodeError::InvalidInteger));
    assert_eq!(DataParser::new("web").next_workspace_id(), Err(DecodeError::InvalidInteger));
    let mut parser = DataParser::new("1");
    assert_eq!(parser.next_workspace_id(), Ok(WorkspaceId(1)));
    assert_eq!(parser.next_workspace_id(), Err(DecodeError::UnexpectedEof));
}

#[test]
fn an_empty_field_is_no_address() {
    assert_eq!(DataParser::new("").next_maybe_window_address(), Ok(None));
    assert_eq!(DataParser::new(",x").next_maybe_window_address(), Ok(None));
    assert_eq!(
        DataParser::new("1a2b").next_maybe_window_address(),
        Ok(Some(WindowAddress(0x1a2b)))
    );
    assert_eq!(
        DataParser::new("0x1a2b").next_maybe_window_address(),
        Err(DecodeError::InvalidInteger)
    );
    let mut parser = DataParser::new("1");
    assert_eq!(parser.next(), Ok(text("1")));
    assert_eq!(parser.next_maybe_window_address(), Err(DecodeError::UnexpectedEof));
}

#[test]
fn booleans_are_words() {
    assert_eq!(DataParser::new("true").next_bool(), Ok(true));
    assert_eq!(DataParser::new("false").next_bool(), Ok(false));
    assert_eq!(DataParser::new("1").next_bool(), Err(DecodeError::InvalidBoolean));
    assert_eq!(DataParser::new("0").next_bool(), Err(DecodeError::InvalidBoolean));
    assert_eq!(DataParser::new("").next_bool(), Err(DecodeError::InvalidBoolean));
    let mut parser = DataParser::new("true");
    assert_eq!(parser.next_bool(), Ok(true));
    assert_eq!(parser.next_bool(), Err(DecodeError::UnexpectedEof));
}

#[test]
fn the_rest_is_read_in_decimal() {
    assert_eq!(
        DataParser::new("26,43").vec_window_ids(),
        Ok(vec![WindowAddress(26), WindowAddress(43)])
    );
    assert_eq!(DataParser::new("1a,2b").vec_window_ids(), Err(DecodeError::InvalidInteger));
    assert_eq!(DataParser::new("26,2b").vec_window_ids(), Err(DecodeError::InvalidInteger));
    assert_eq!(DataParser::new("").vec_window_ids(), Err(DecodeError::InvalidInteger));
    assert_eq!(DataParser::new("7,").vec_window_ids(), Err(DecodeError::InvalidInteger));
    let mut parser = DataParser::new("true");
    assert_eq!(parser.next_bool(), Ok(true));
    assert_eq!(parser.vec_window_ids(), Ok(vec![]));
    let mut parser = DataParser::new("x,18446744073709551615");
    assert_eq!(parser.next(), Ok(text("x")));
    assert_eq!(parser.vec_window_ids(), Ok(vec![WindowAddress(u64::MAX)]));
}

#[test]
fn workspace_changed_line() {
    assert_eq!(
        decode_line("workspacev2>>3,web"),
        Outcome::Emit(HyprlandEvent::WorkspaceChanged { id: WorkspaceId(3), name: text("web") })
    );
}

#[test]
fn active_window_may_be_none() {
    assert_eq!(
        decode_line("activewindowv2>>,"),
        Outcome::Emit(HyprlandEvent::ActiveWindow { address: None })
    );
    assert_eq!(
        decode_line("activewindowv2>>1a2b,"),
        Outcome::Emit(HyprlandEvent::ActiveWindow { address: Some(WindowAddress(0x1a2b)) })
    );
    assert_eq!(
        decode_line("activewindowv2>>"),
        Outcome::Emit(HyprlandEvent::ActiveWindow { address: None })
    );
}

#[test]
fn legacy_tags_are_passed_over() {
    for tag in [
        "workspace",
        "activewindow",
        "monitoradded",
        "createworkspace",
        "destroyworkspace",
        "moveworkspace",
        "movewindow",
        "windowtitle",
    ] {
        assert_eq!(decode_line(&format!("{}>>3", tag)), Outcome::Skip, "{}", tag);
        assert_eq!(decode_line(&format!("{}>>", tag)), Outcome::Skip, "{}", tag);
        assert_eq!(decode(tag, DataParser::new("whatever,it,holds")), Outcome::Skip, "{}", tag);
    }
}

#[test]
fn unknown_tags_fail() {
    assert_eq!(decode_line("bogus>>x,y"), Outcome::Fail(DecodeError::UnknownTag));
    assert_eq!(decode_line(">>x,y"), Outcome::Fail(DecodeError::UnknownTag));
    assert_eq!(decode_line("Workspacev2>>3,web"), Outcome::Fail(DecodeError::UnknownTag));
    assert_eq!(decode_line("workspacev2 >>3,web"), Outcome::Fail(DecodeError::UnknownTag));
    assert_eq!(decode_line("workspacev>>3,web"), Outcome::Fail(DecodeError::UnknownTag));
    assert_eq!(decode_line("workspacev22>>3,web"), Outcome::Fail(DecodeError::UnknownTag));
    assert_eq!(decode("bogus", DataParser::new("x,y")), Outcome::Fail(DecodeError::UnknownTag));
}

#[test]
fn a_line_without_separator_is_no_record() {
    assert_eq!(decode_line(""), Outcome::Fail(DecodeError::InvalidFormat));
    assert_eq!(decode_line("workspacev2"), Outcome::Fail(DecodeError::InvalidFormat));
    assert_eq!(decode_line("workspacev2>3,web"), Outcome::Fail(DecodeError::InvalidFormat));
    assert_eq!(decode_line("configreloaded>"), Outcome::Fail(DecodeError::InvalidFormat));
    assert_eq!(decode_line(">"), Outcome::Fail(DecodeError::InvalidFormat));
}

#[test]
fn the_first_separator_divides_the_line() {
    assert_eq!(
        decode_line("submap>>a>>b"),
        Outcome::Emit(HyprlandEvent::SubMap { name: text("a>>b") })
    );
    assert_eq!(decode_line("submap>>>"), Outcome::Emit(HyprlandEvent::SubMap { name: text(">") }));
    assert_eq!(decode_line(">submap>>x"), Outcome::Fail(DecodeError::UnknownTag));
    assert_eq!(
        decode_line("windowtitlev2>>1f,a > b"),
        Outcome::Emit(HyprlandEvent::WindowTitle { address: WindowAddress(0x1f), title: text("a > b") })
    );
}

#[test]
fn lines_divide_as_the_standard_library_divides_them() {
    for line in [
        "",
        ">",
        ">>",
        ">>>",
        ">>>>",
        "a>b",
        "a>>b",
        "a>>>b",
        "a>b>>c",
        "submap>>x>>y",
        "submap>>",
        ">>submap",
        "workspacev2>>3,web",
        "workspacev2>3,web",
        "fullscreen>>true",
        "fullscreen>>>true",
        "pin>> 1f,true",
        "configreloaded",
        "configreloaded>>",
    ] {
        let expected = match line.split_once(">>") {
            Some((tag, data)) => decode(tag, DataParser::new(data)),
            None => Outcome::Fail(DecodeError::InvalidFormat),
        };
        assert_eq!(decode_line(line), expected, "{:?}", line);
    }
}

#[test]
fn toggle_group_reads_words_and_decimal_numbers() {
    assert_eq!(decode_line("togglegroup>>1,1a,2b"), Outcome::Fail(DecodeError::InvalidBoolean));
    assert_eq!(decode_line("togglegroup>>true,1a,2b"), Outcome::Fail(DecodeError::InvalidInteger));
    assert_eq!(
        decode_line("togglegroup>>true,26,43"),
        Outcome::Emit(HyprlandEvent::ToggleGroup {
            created: true,
            handles: vec![WindowAddress(26), WindowAddress(43)],
        })
    );
    assert_eq!(
        decode_line("togglegroup>>false"),
        Outcome::Emit(HyprlandEvent::ToggleGroup { created: false, handles: vec![] })
    );
    assert_eq!(decode_line("togglegroup>>false,"), Outcome::Fail(DecodeError::InvalidInteger));
}

#[test]
fn every_tag_gives_its_event() {
    let id = WorkspaceId(0x1f);
    let address = WindowAddress(0x55d2a1);
    assert_eq!(
        emitted("focusedmon>>eDP-1,2"),
        HyprlandEvent::FocusedMonitor { name: text("eDP-1"), workspace: text("2") }
    );
    assert_eq!(emitted("fullscreen>>true"), HyprlandEvent::Fullscreen { enter: true });
    assert_eq!(emitted("fullscreen>>false"), HyprlandEvent::Fullscreen { enter: false });
    assert_eq!(emitted("monitorremoved>>DP-2"), HyprlandEvent::MonitorRemoved { name: text("DP-2") });
    assert_eq!(
        emitted("monitoraddedv2>>1f,DP-2,Dell Inc."),
        HyprlandEvent::MonitorAdded { id, name: text("DP-2"), description: text("Dell Inc.") }
    );
    assert_eq!(
        emitted("createworkspacev2>>1f,mail"),
        HyprlandEvent::CreateWorkspace { id, name: text("mail") }
    );
    assert_eq!(
        emitted("destroyworkspacev2>>1f,mail"),
        HyprlandEvent::DestroyWorkspace { id, name: text("mail") }
    );
    assert_eq!(
        emitted("moveworkspacev2>>1f,mail,DP-2"),
        HyprlandEvent::MoveWorkspace { id, name: text("mail"), monitor: text("DP-2") }
    );
    assert_eq!(
        emitted("renameworkspace>>1f,post"),
        HyprlandEvent::RenameWorkspace { id, new_name: text("post") }
    );
    assert_eq!(
        emitted("activespecial>>,DP-2"),
        HyprlandEvent::ActiveSpecial { workspace: text(""), monitor: text("DP-2") }
    );
    assert_eq!(
        emitted("activelayout>>keychron,English (US)"),
        HyprlandEvent::ActiveLayout { keyboard: text("keychron"), layout: text("English (US)") }
    );
    assert_eq!(
        emitted("openwindow>>55d2a1,2,kitty,term"),
        HyprlandEvent::OpenWindow {
            address,
            workspace: text("2"),
            class: text("kitty"),
            title: text("term"),
        }
    );
    assert_eq!(emitted("closewindow>>55d2a1"), HyprlandEvent::CloseWindow { address });
    assert_eq!(
        emitted("movewindowv2>>55d2a1,1f,mail"),
        HyprlandEvent::MoveWindow { address, workspace_id: id, workspace: text("mail") }
    );
    assert_eq!(emitted("openlayer>>waybar"), HyprlandEvent::OpenLayer { namespace: text("waybar") });
    assert_eq!(emitted("closelayer>>waybar"), HyprlandEvent::CloseLayer { namespace: text("waybar") });
    assert_eq!(emitted("submap>>"), HyprlandEvent::SubMap { name: text("") });
    assert_eq!(
        emitted("changefloatingmode>>55d2a1,true"),
        HyprlandEvent::ChangeFloatingMode { address, floating: true }
    );
    assert_eq!(emitted("urgent>>55d2a1"), HyprlandEvent::Urgent { address });
    assert_eq!(
        emitted("screencast>>true,false"),
        HyprlandEvent::Screencast { state: true, owner: ScreencastOwner::Monitor }
    );
    assert_eq!(
        emitted("screencast>>false,true"),
        HyprlandEvent::Screencast { state: false, owner: ScreencastOwner::Window }
    );
    assert_eq!(
        emitted("windowtitlev2>>55d2a1,term"),
        HyprlandEvent::WindowTitle { address, title: text("term") }
    );
    assert_eq!(emitted("moveintogroup>>55d2a1"), HyprlandEvent::MoveIntoGroup { address });
    assert_eq!(emitted("moveoutofgroup>>55d2a1"), HyprlandEvent::MoveOutOfGroup { address });
    assert_eq!(emitted("ignoregrouplock>>true"), HyprlandEvent::IgnoreGroupLock { state: true });
    assert_eq!(emitted("lockgroups>>false"), HyprlandEvent::LockGroups { state: false });
    assert_eq!(emitted("configreloaded>>"), HyprlandEvent::ConfigReloaded);
    assert_eq!(emitted("pin>>55d2a1,false"), HyprlandEvent::Pin { address, pinned: false });
}

#[test]
fn fields_beyond_the_last_are_left_alone() {
    assert_eq!(
        emitted("workspacev2>>3,web,and,more"),
        HyprlandEvent::WorkspaceChanged { id: WorkspaceId(3), name: text("web") }
    );
    assert_eq!(emitted("configreloaded>>x,y"), HyprlandEvent::ConfigReloaded);
}

#[test]
fn the_first_field_that_fails_decides() {
    assert_eq!(decode_line("workspacev2>>"), Outcome::Fail(DecodeError::InvalidInteger));
    assert_eq!(decode_line("workspacev2>>3"), Outcome::Fail(DecodeError::UnexpectedEof));
    assert_eq!(decode_line("workspacev2>>web,3"), Outcome::Fail(DecodeError::InvalidInteger));
    assert_eq!(decode_line("focusedmon>>eDP-1"), Outcome::Fail(DecodeError::UnexpectedEof));
    assert_eq!(decode_line("openwindow>>55d2a1,2,kitty"), Outcome::Fail(DecodeError::UnexpectedEof));
    assert_eq!(decode_line("openwindow>>0x55d2a1,2,kitty,t"), Outcome::Fail(DecodeError::InvalidInteger));
    assert_eq!(decode_line("movewindowv2>>zz,zz,mail"), Outcome::Fail(DecodeError::InvalidInteger));
    assert_eq!(decode_line("movewindowv2>>1,zz"), Outcome::Fail(DecodeError::InvalidInteger));
    assert_eq!(decode_line("pin>>zz,maybe"), Outcome::Fail(DecodeError::InvalidInteger));
    assert_eq!(decode_line("pin>>1,maybe"), Outcome::Fail(DecodeError::InvalidBoolean));
    assert_eq!(decode_line("pin>>1"), Outcome::Fail(DecodeError::UnexpectedEof));
    assert_eq!(decode_line("screencast>>1,true"), Outcome::Fail(DecodeError::InvalidBoolean));
    assert_eq!(decode_line("screencast>>true,1"), Outcome::Fail(DecodeError::InvalidBoolean));
    assert_eq!(decode_line("fullscreen>>1"), Outcome::Fail(DecodeError::InvalidBoolean));
    assert_eq!(decode_line("closewindow>>"), Outcome::Fail(DecodeError::InvalidInteger));
}

#[test]
fn decoding_by_tag_and_fields() {
    assert_eq!(
        decode("workspacev2", DataParser::new("3,web")),
        Outcome::Emit(HyprlandEvent::WorkspaceChanged { id: WorkspaceId(3), name: text("web") })
    );
    let mut parser = DataParser::new("skipped,a,web");
    assert_eq!(parser.next(), Ok(text("skipped")));
    assert_eq!(
        decode("renameworkspace", parser),
        Outcome::Emit(HyprlandEvent::RenameWorkspace { id: WorkspaceId(10), new_name: text("web") })
    );
}

#[test]
fn a_record_ends_with_its_end_of_line() {
    assert_eq!(
        decode_record("workspacev2>>3,web\n"),
        Outcome::Emit(HyprlandEvent::WorkspaceChanged { id: WorkspaceId(3), name: text("web") })
    );
    assert_eq!(
        decode_record("workspacev2>>3,web"),
        Outcome::Emit(HyprlandEvent::WorkspaceChanged { id: WorkspaceId(3), name: text("we") })
    );
    assert_eq!(decode_record("configreloaded>>\n"), Outcome::Emit(HyprlandEvent::ConfigReloaded));
    assert_eq!(decode_record("configreloaded>>"), Outcome::Fail(DecodeError::InvalidFormat));
    assert_eq!(decode_record(""), Outcome::Fail(DecodeError::InvalidFormat));
    assert_eq!(decode_record("\n"), Outcome::Fail(DecodeError::InvalidFormat));
    assert_eq!(decode_record("workspace>>3\n"), Outcome::Skip);
    assert_eq!(decode_record("bogus>>x,y\n"), Outcome::Fail(DecodeError::UnknownTag));
}

#[test]
fn a_stream_connects_and_reads() {
    let mut stream = EventStream::new();
    assert_eq!(stream.state(), StreamState::Connecting);
    assert_eq!(stream.advance(StreamInput::Connected), None);
    assert_eq!(stream.state(), StreamState::Streaming);
    assert_eq!(
        stream.advance(StreamInput::Record(text("workspacev2>>3,web\n"))),
        Some(Ok(HyprlandEvent::WorkspaceChanged { id: WorkspaceId(3), name: text("web") }))
    );
    assert_eq!(stream.state(), StreamState::Streaming);
}

#[test]
fn a_stream_that_cannot_connect_is_over() {
    let mut stream = EventStream::new();
    assert_eq!(
        stream.advance(StreamInput::ConnectFailed(text("no such file"))),
        Some(Err(Error::Connection(text("no such file"))))
    );
    assert_eq!(stream.state(), StreamState::Terminated);
    assert_eq!(stream.advance(StreamInput::Connected), None);
    assert_eq!(stream.advance(StreamInput::Record(text("workspacev2>>3,web\n"))), None);
    assert_eq!(stream.advance(StreamInput::ConnectFailed(text("again"))), None);
    assert_eq!(stream.state(), StreamState::Terminated);
}

#[test]
fn a_stream_without_configuration_is_over() {
    let mut stream = EventStream::new();
    assert_eq!(stream.advance(StreamInput::NotConfigured), Some(Err(Error::Configuration)));
    assert_eq!(stream.state(), StreamState::Terminated);
    assert_eq!(stream.advance(StreamInput::NotConfigured), None);
    let mut stream = EventStream::new();
    stream.advance(StreamInput::Connected);
    assert_eq!(stream.advance(StreamInput::NotConfigured), None);
    assert_eq!(stream.state(), StreamState::Streaming);
}

#[test]
fn a_stream_goes_on_after_a_legacy_record() {
    let mut stream = EventStream::new();
    stream.advance(StreamInput::Connected);
    assert_eq!(stream.advance(StreamInput::Record(text("workspace>>3\n"))), None);
    assert_eq!(stream.state(), StreamState::Streaming);
    assert_eq!(
        stream.advance(StreamInput::Record(text("fullscreen>>true\n"))),
        Some(Ok(HyprlandEvent::Fullscreen { enter: true }))
    );
}

#[test]
fn a_stream_goes_on_after_a_failure() {
    let mut stream = EventStream::new();
    stream.advance(StreamInput::Connected);
    assert_eq!(
        stream.advance(StreamInput::Record(text("bogus>>x,y\n"))),
        Some(Err(Error::Decode(DecodeError::UnknownTag)))
    );
    assert_eq!(stream.state(), StreamState::Streaming);
    assert_eq!(
        stream.advance(StreamInput::Record(text("no separator\n"))),
        Some(Err(Error::Decode(DecodeError::InvalidFormat)))
    );
    assert_eq!(
        stream.advance(StreamInput::ReadFailed(text("interrupted"))),
        Some(Err(Error::Io(text("interrupted"))))
    );
    assert_eq!(stream.state(), StreamState::Streaming);
    assert_eq!(
        stream.advance(StreamInput::Record(String::new())),
        Some(Err(Error::Decode(DecodeError::InvalidFormat)))
    );
    assert_eq!(stream.state(), StreamState::Streaming);
    assert_eq!(
        stream.advance(StreamInput::Record(text("configreloaded>>\n"))),
        Some(Ok(HyprlandEvent::ConfigReloaded))
    );
}

#[test]
fn a_stream_ends_when_its_consumer_leaves() {
    let mut stream = EventStream::new();
    assert_eq!(stream.advance(StreamInput::Cancelled), None);
    assert_eq!(stream.state(), StreamState::Terminated);
    let mut stream = EventStream::new();
    stream.advance(StreamInput::Connected);
    assert_eq!(stream.advance(StreamInput::Cancelled), None);
    assert_eq!(stream.state(), StreamState::Terminated);
    assert_eq!(stream.advance(StreamInput::Record(text("configreloaded>>\n"))), None);
}

#[test]
fn a_stream_passes_over_what_does_not_fit() {
    let mut stream = EventStream::new();
    assert_eq!(stream.advance(StreamInput::Record(text("configreloaded>>\n"))), None);
    assert_eq!(stream.advance(StreamInput::ReadFailed(text("early"))), None);
    assert_eq!(stream.state(), StreamState::Connecting);
    stream.advance(StreamInput::Connected);
    assert_eq!(stream.advance(StreamInput::Connected), None);
    assert_eq!(stream.advance(StreamInput::ConnectFailed(text("late"))), None);
    assert_eq!(stream.state(), StreamState::Streaming);
}
