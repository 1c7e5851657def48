use wasm_mt_hotswap_example::hotpatch::{
    devserver_action, devserver_url, on_devserver_message, running_devserver_url, worker_log_line,
    DevserverAction, DevserverEvent, Patch,
};

fn patch() -> Patch {
    Patch {
        lib: "/wasm/libapp-patch-1.wasm".to_string(),
        map: vec![(1, 2)],
        aslr_reference: 5,
        new_base_address: 6,
        ifunc_count: 7,
    }
}

fn hot_reload(jump_table: &str) -> String {
    format!(
        "{{\"HotReload\":{{\"templates\":[],\"assets\":[],\"ms_elapsed\":3,\"jump_table\":{},\
         \"for_build_id\":null,\"for_pid\":null}}}}",
        jump_table
    )
}

#[test]
fn url_follows_the_page() {
    assert_eq!(
        devserver_url("https:", "example.org", 0),
        "wss://example.org/_dioxus?build_id=0"
    );
    assert_eq!(
        devserver_url("http:", "localhost:8080", 1234567890),
        "ws://localhost:8080/_dioxus?build_id=1234567890"
    );
    assert_eq!(devserver_url("https", "h", 1), "ws://h/_dioxus?build_id=1");
}

#[test]
fn builds_have_different_urls() {
    assert_ne!(devserver_url("http:", "h", 1), devserver_url("http:", "h", 10));
}

#[test]
fn url_of_the_running_build() {
    assert_eq!(
        running_devserver_url("http:", "localhost:8080"),
        format!(
            "ws://localhost:8080/_dioxus?build_id={}",
            dioxus_cli_config::build_id()
        )
    );
}

#[test]
fn patch_is_applied() {
    let action = devserver_action(Ok(DevserverEvent::HotReload(Some(patch()))));
    assert_eq!(action, DevserverAction::ApplyPatch(patch()));
    assert_eq!(
        devserver_action(Ok(DevserverEvent::HotReload(None))),
        DevserverAction::Nothing
    );
}

#[test]
fn other_messages_are_reported() {
    assert_eq!(
        devserver_action(Ok(DevserverEvent::Shutdown)),
        DevserverAction::ConsoleError("Connection to the devserver was closed".to_string())
    );
    assert_eq!(
        devserver_action(Ok(DevserverEvent::Other("FullReloadStart".to_string()))),
        DevserverAction::ConsoleInfo("Ignore devserver message: FullReloadStart".to_string())
    );
    assert_eq!(
        devserver_action(Err("bad".to_string())),
        DevserverAction::ConsoleError("Error parsing devserver message: bad".to_string())
    );
}

#[test]
fn hot_reload_text_is_read() {
    let text = hot_reload(
        "{\"lib\":\"/wasm/libapp-patch-1.wasm\",\"map\":{\"1\":2},\"aslr_reference\":5,\
         \"new_base_address\":6,\"ifunc_count\":7}",
    );
    assert_eq!(
        on_devserver_message(Some(text)),
        DevserverAction::ApplyPatch(patch())
    );
    assert_eq!(
        on_devserver_message(Some(hot_reload("null"))),
        DevserverAction::Nothing
    );
}

#[test]
fn patch_keeps_every_address() {
    let text = hot_reload(
        "{\"lib\":\"p\",\"map\":{\"10\":20,\"11\":21,\"12\":22},\"aslr_reference\":0,\
         \"new_base_address\":0,\"ifunc_count\":0}",
    );
    match on_devserver_message(Some(text)) {
        DevserverAction::ApplyPatch(mut patch) => {
            patch.map.sort();
            assert_eq!(patch.map, vec![(10, 20), (11, 21), (12, 22)]);
        }
        other => panic!("{:?}", other),
    }
}

#[test]
fn plain_texts_are_read() {
    assert_eq!(
        on_devserver_message(Some("\"Shutdown\"".to_string())),
        DevserverAction::ConsoleError("Connection to the devserver was closed".to_string())
    );
    assert_eq!(
        on_devserver_message(Some("\"HotPatchStart\"".to_string())),
        DevserverAction::ConsoleInfo("Ignore devserver message: HotPatchStart".to_string())
    );
    assert_eq!(
        on_devserver_message(Some("{".to_string())),
        DevserverAction::ConsoleError(
            "Error parsing devserver message: EOF while parsing an object at line 1 column 1"
                .to_string()
        )
    );
}

#[test]
fn anything_but_text_is_passed_over() {
    assert_eq!(on_devserver_message(None), DevserverAction::Nothing);
}

#[test]
fn log_line_names_the_thread() {
    assert_eq!(worker_log_line(0), "Worker 0: Test patch data segment");
    assert_eq!(worker_log_line(17), "Worker 17: Test patch data segment");
}
