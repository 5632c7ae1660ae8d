use webui::events::ClientCommand;
use webui::events::EventArg;
use webui::events::WebUIEvent;
use webui::events::WebUIEventSimple;
use webui::events::WebUIEventType;
use webui::marshal::nul_terminate;
use webui::marshal::read_nul_terminated;
use webui::marshal::MarshalError;
use webui::registry::BindStore;
use webui::window::Window;
use webui::window::WindowIdPool;
use webui::Browser;
use webui::Runtime;

fn fresh_event(element: &str, args: Vec<EventArg>) -> WebUIEvent {
    WebUIEvent::new(1, 4, element.to_string(), 1, 0, 0, 0, String::new(), args)
}

#[test]
fn test_webui_window() {
    let mut pool = WindowIdPool::new();
    let mut win = Window::new(&mut pool);
    assert_eq!(win.id, 1);
    win.show("<span>Hello World</span>");
    win.destroy();
}

#[test]
fn window_identities_are_fresh_and_increasing() {
    let mut pool = WindowIdPool::new();
    let first = Window::new(&mut pool);
    let second = Window::new(&mut pool);
    let third = Window::new(&mut pool);
    assert_eq!(first.id, 1);
    assert_eq!(second.id, 2);
    assert_eq!(third.id, 3);
    let adopted = Window::from_id(2);
    assert_eq!(adopted.id, second.id);
}

#[test]
fn bound_element_fires_its_handler_once_with_matching_payload() {
    let mut pool = WindowIdPool::new();
    let win = Window::new(&mut pool);
    let mut store: BindStore<fn(&mut WebUIEvent)> = BindStore::new();

    fn greet_handler(event: &mut WebUIEvent) {
        assert_eq!(event.element, "greet");
        event.return_string("hello");
    }
    win.bind(&mut store, "greet", greet_handler).unwrap();

    // One delivery for the one occurrence that fired.
    let mut event = fresh_event("greet", vec![]);
    let mut invocations = 0;
    if let Some(handler) = store.get_function(event.win, "greet") {
        handler(&mut event);
        invocations += 1;
    }
    assert_eq!(invocations, 1);
    assert_eq!(
        event.response,
        Some(EventArg::Text("hello".to_string()))
    );
    // An element nobody bound resolves to no handler at all.
    assert!(store.get_function(event.win, "farewell").is_none());
}

#[test]
fn scenario_add_handler_reads_two_integers_and_returns_their_sum() {
    let mut pool = WindowIdPool::new();
    let win = Window::new(&mut pool);
    let mut store: BindStore<fn(&mut WebUIEvent)> = BindStore::new();

    fn add_handler(event: &mut WebUIEvent) {
        assert_eq!(event.get_count(), 2);
        let a = event.get_int_at(0);
        let b = event.get_int_at(1);
        assert_eq!(a, 1);
        assert_eq!(b, 2);
        event.return_int(a + b);
    }
    win.bind(&mut store, "add", add_handler).unwrap();

    let mut event = fresh_event("add", vec![EventArg::Int(1), EventArg::Int(2)]);
    let handler = store
        .get_function(win.id, "add")
        .expect("the bound element must resolve");
    handler(&mut event);
    assert_eq!(event.response, Some(EventArg::Int(3)));
}

#[test]
fn scenario_script_on_disconnected_client_fails_without_blocking() {
    let mut event = fresh_event("ping", vec![]);
    event.connected = false;
    // Even a zero timeout yields the failure flag immediately.
    assert_eq!(event.script("pong();", 0, 1024), Err(()));
}

#[test]
fn scenario_destroying_a_window_twice_is_harmless() {
    let mut pool = WindowIdPool::new();
    let mut win = Window::new(&mut pool);
    win.show("<html></html>");
    win.destroy();
    assert!(win.destroyed);
    assert!(!win.shown);
    win.destroy();
    assert!(win.destroyed);
    assert_eq!(win.id, 1);
}

#[test]
fn window_configuration_calls_update_their_state() {
    let mut pool = WindowIdPool::new();
    let mut win = Window::new(&mut pool);
    win.set_kiosk(true);
    win.set_high_contrast(true);
    win.set_hide(true);
    win.set_public(true);
    win.set_event_blocking(true);
    win.set_size(800, 600);
    win.set_position(24, 48);
    assert!(win.set_port(8080));
    win.set_runtime(Runtime::Deno);
    win.set_root_folder("/srv/assets");
    win.set_profile("work", "/tmp/profile");
    win.set_proxy("socks5://localhost:9050");
    win.set_icon("<svg></svg>", "image/svg+xml");
    assert!(win.kiosk && win.high_contrast && win.hidden);
    assert!(win.public_network && win.event_blocking);
    assert_eq!((win.width, win.height), (800, 600));
    assert_eq!((win.x, win.y), (24, 48));
    assert_eq!(win.get_port(), 8080);
    assert_eq!(win.runtime, Runtime::Deno);
    assert_eq!(win.root_folder, "/srv/assets");
    assert_eq!(win.profile_name, "work");
    assert_eq!(win.profile_path, "/tmp/profile");
    assert_eq!(win.proxy, "socks5://localhost:9050");
    assert_eq!(win.icon, "<svg></svg>");
    assert_eq!(win.icon_kind, "image/svg+xml");
    win.delete_profile();
    assert_eq!(win.profile_name, "");
    assert_eq!(win.profile_path, "");
    assert_eq!(win.get_parent_process_id(), 0);
    assert_eq!(win.get_child_process_id(), 0);
}

#[test]
fn window_show_and_close_drive_the_shown_state() {
    let mut pool = WindowIdPool::new();
    let mut win = Window::new(&mut pool);
    assert!(!win.is_shown());
    assert!(win.show("<p>hi</p>"));
    assert!(win.is_shown());
    assert_eq!(win.browser, Browser::AnyBrowser);
    win.close();
    assert!(!win.is_shown());
    assert!(win.show_browser("<p>hi</p>", Browser::Firefox));
    assert_eq!(win.browser, Browser::Firefox);
    assert!(win.show_wv("<p>hi</p>"));
    assert_eq!(win.browser, Browser::Webview);
}

#[test]
fn window_navigation_and_server_url() {
    let mut pool = WindowIdPool::new();
    let mut win = Window::new(&mut pool);
    assert_eq!(win.get_url(), "");
    win.navigate("http://localhost:8080/app");
    assert_eq!(win.get_url(), "http://localhost:8080/app");
    let base = win.start_server("index.html");
    assert_eq!(base, "http://localhost:8080/app");
    assert!(win.is_shown());
}

#[test]
fn window_script_yields_reply_or_failure_flag() {
    let mut pool = WindowIdPool::new();
    let mut win = Window::new(&mut pool);
    // Nothing is shown yet, so nothing can answer.
    assert_eq!(win.script("compute();", 0, 64), Err(()));
    win.show("<html></html>");
    // Shown, but no client answers.
    assert_eq!(win.script("compute();", 0, 64), Err(()));
    win.reply = Some("42".to_string());
    assert_eq!(win.script("compute();", 0, 64), Ok("42".to_string()));
    // A result buffer too small for the answer is a failure, not a crash.
    assert_eq!(win.script("compute();", 0, 2), Err(()));
    assert_eq!(win.script("compute();", 0, 3), Ok("42".to_string()));
}

#[test]
fn window_run_and_send_raw_log_client_requests() {
    let mut pool = WindowIdPool::new();
    let mut win = Window::new(&mut pool);
    win.run("refresh();");
    win.send_raw("writeBuffer", &[1, 2, 3]);
    assert_eq!(
        win.sent,
        vec![
            ClientCommand::Run("refresh();".to_string()),
            ClientCommand::SendRaw("writeBuffer".to_string(), vec![1, 2, 3]),
        ]
    );
}

#[test]
fn event_getters_answer_their_own_type_and_defaults() {
    let event = fresh_event(
        "probe",
        vec![
            EventArg::Int(-5),
            EventArg::Text("abc".to_string()),
            EventArg::Bool(true),
        ],
    );
    assert_eq!(event.get_count(), 3);
    assert_eq!(event.get_int(), -5);
    assert_eq!(event.get_int_at(0), -5);
    assert_eq!(event.get_string_at(1), "abc");
    assert_eq!(event.get_bool_at(2), true);
    // A typed reading of an argument of another type falls back to the
    // default, and so does a reading past the argument count.
    assert_eq!(event.get_int_at(1), 0);
    assert_eq!(event.get_string(), "");
    assert_eq!(event.get_bool(), false);
    assert_eq!(event.get_int_at(9), 0);
    assert_eq!(event.get_string_at(9), "");
    assert_eq!(event.get_bool_at(9), false);
    // Sizes: 8 for an integer, the text length, 1 for a boolean, 0 past the end.
    assert_eq!(event.get_size(), 8);
    assert_eq!(event.get_size_at(1), 3);
    assert_eq!(event.get_size_at(2), 1);
    assert_eq!(event.get_size_at(9), 0);
}

#[test]
fn event_kind_decoding_recognizes_every_code() {
    assert_eq!(WebUIEventType::from_usize(0), WebUIEventType::Disconnected);
    assert_eq!(WebUIEventType::from_usize(1), WebUIEventType::Connected);
    assert_eq!(WebUIEventType::from_usize(2), WebUIEventType::MouseClick);
    assert_eq!(WebUIEventType::from_usize(3), WebUIEventType::Navigation);
    assert_eq!(WebUIEventType::from_usize(4), WebUIEventType::Callback);
    assert_eq!(WebUIEventType::from_usize(99), WebUIEventType::Unknown);
    assert_eq!(WebUIEventType::Navigation.to_usize(), 3);
}

#[test]
fn event_return_calls_overwrite_the_pending_response() {
    let mut event = fresh_event("calc", vec![]);
    assert_eq!(event.response, None);
    event.return_int(7);
    assert_eq!(event.response, Some(EventArg::Int(7)));
    event.return_bool(true);
    assert_eq!(event.response, Some(EventArg::Bool(true)));
    event.return_string("done");
    assert_eq!(event.response, Some(EventArg::Text("done".to_string())));
}

#[test]
fn event_client_requests_respect_the_connection() {
    let mut event = fresh_event("session", vec![]);
    assert!(event.show_client("<p>next</p>"));
    event.run("ping();");
    event.navigate_client("http://localhost:9000/");
    event.send_raw("blob", &[9, 8]);
    assert_eq!(
        event.sent,
        vec![
            ClientCommand::Show("<p>next</p>".to_string()),
            ClientCommand::Run("ping();".to_string()),
            ClientCommand::Navigate("http://localhost:9000/".to_string()),
            ClientCommand::SendRaw("blob".to_string(), vec![9, 8]),
        ]
    );
    event.close_client();
    assert!(!event.connected);
    // After the close nothing more reaches the client.
    assert!(!event.show_client("<p>gone</p>"));
    event.run("pong();");
    assert_eq!(event.sent.len(), 4);
}

#[test]
fn event_script_yields_reply_or_failure_flag() {
    let mut event = fresh_event("query", vec![]);
    assert_eq!(event.script("state();", 5, 64), Err(()));
    event.reply = Some("ready".to_string());
    assert_eq!(event.script("state();", 5, 64), Ok("ready".to_string()));
    assert_eq!(event.script("state();", 5, 5), Err(()));
    assert_eq!(event.script("state();", 5, 6), Ok("ready".to_string()));
}

#[test]
fn simple_event_accessors_and_response() {
    let mut event = WebUIEventSimple {
        win: 2,
        event_type: WebUIEventType::Callback,
        element: "submit".to_string(),
        event_number: 5,
        bind_id: 1,
        args: vec![EventArg::Text("payload".to_string()), EventArg::Int(12)],
        response: None,
    };
    assert_eq!(event.get_string_at(0), "payload");
    assert_eq!(event.get_int_at(1), 12);
    assert_eq!(event.get_bool_at(0), false);
    assert_eq!(event.get_size_at(0), 7);
    assert_eq!(event.get_size_at(1), 8);
    event.set_response("ok");
    assert_eq!(event.response, Some("ok".to_string()));
    event.set_response("overwritten");
    assert_eq!(event.response, Some("overwritten".to_string()));
}

#[test]
fn browser_choices_keep_their_boundary_encoding() {
    let choices = [
        Browser::NoBrowser,
        Browser::AnyBrowser,
        Browser::Chrome,
        Browser::Firefox,
        Browser::Edge,
        Browser::Safari,
        Browser::Chromium,
        Browser::Opera,
        Browser::Brave,
        Browser::Vivaldi,
        Browser::Epic,
        Browser::Yandex,
        Browser::ChromiumBased,
        Browser::Webview,
    ];
    for (code, choice) in choices.iter().enumerate() {
        assert_eq!(choice.to_usize(), code);
        assert_eq!(Browser::from_usize(code), *choice);
    }
    assert_eq!(Browser::from_usize(14), Browser::NoBrowser);
    assert_eq!(Runtime::NoRuntime.to_usize(), 0);
    assert_eq!(Runtime::Deno.to_usize(), 1);
    assert_eq!(Runtime::NodeJs.to_usize(), 2);
}

#[test]
fn marshalling_frames_and_reads_nul_terminated_buffers() {
    assert_eq!(nul_terminate(b"abc"), Ok(vec![97, 98, 99, 0]));
    assert_eq!(nul_terminate(b""), Ok(vec![0]));
    assert_eq!(
        nul_terminate(&[97, 0, 98]),
        Err(MarshalError::InteriorNul)
    );
    assert_eq!(read_nul_terminated(&[104, 105, 0, 120]), vec![104, 105]);
    assert_eq!(read_nul_terminated(&[0]), Vec::<u8>::new());
    assert_eq!(read_nul_terminated(&[104, 105]), vec![104, 105]);
    // Framing then reading restores the payload.
    let framed = nul_terminate(b"round trip").unwrap();
    assert_eq!(read_nul_terminated(&framed), b"round trip".to_vec());
}
