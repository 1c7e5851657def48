//! The connection to the development server, which sends patches for the
//! running program.

use crate::text::decimal_text;
use dioxus_devtools::DevserverMsg;
use vstd::prelude::*;

verus! {

/// The websocket protocol that goes with the protocol of the page.
pub open spec fn websocket_protocol(protocol: Seq<char>) -> Seq<char> {
    if protocol == "https:"@ {
        "wss:"@
    } else {
        "ws:"@
    }
}

/// The address of the development server of a page: the server stands behind the
/// page's own host, and tells builds of the program apart by their number.
pub open spec fn devserver_address(protocol: Seq<char>, host: Seq<char>, build_id: nat) -> Seq<
    char,
> {
    websocket_protocol(protocol) + "//"@ + host + "/_dioxus?build_id="@ + crate::text::decimal(
        build_id,
    )
}

/// Gives the address of the development server for one build of the program.
pub fn devserver_url(protocol: &str, host: &str, build_id: u64) -> (url: String)
    ensures
        url@ == devserver_address(protocol@, host@, build_id as nat),
{
    let scheme = if protocol.to_owned() == "https:".to_owned() {
        "wss:"
    } else {
        "ws:"
    };
    scheme.to_owned().concat("//").concat(host).concat("/_dioxus?build_id=").concat(
        decimal_text(build_id).as_str(),
    )
}

/// `dioxus_cli_config::build_id`: the number of the build that is running. It is
/// taken from the environment, so nothing is claimed of it.
pub assume_specification[ dioxus_cli_config::build_id ]() -> (id: u64)
;

/// Gives the address of the development server for the build that is running.
pub fn running_devserver_url(protocol: &str, host: &str) -> (url: String)
    ensures
        exists|build_id: u64|
            call_ensures(dioxus_cli_config::build_id, (), build_id) && url@
                == #[trigger] devserver_address(protocol@, host@, build_id as nat),
{
    let build_id: u64 = dioxus_cli_config::build_id();
    devserver_url(protocol, host, build_id)
}

/// A patch for the running program: a library with new code, and which address
/// of the old code each address of the new code replaces.
#[derive(Debug, PartialEq, Eq)]
pub struct Patch {
    pub lib: String,
    /// Pairs of an old and a new address, in no particular order.
    pub map: Vec<(u64, u64)>,
    pub aslr_reference: u64,
    pub new_base_address: u64,
    pub ifunc_count: u64,
}

/// What a patch says.
pub struct PatchView {
    pub lib: Seq<char>,
    pub map: Set<(u64, u64)>,
    pub aslr_reference: u64,
    pub new_base_address: u64,
    pub ifunc_count: u64,
}

impl View for Patch {
    type V = PatchView;

    open spec fn view(&self) -> PatchView {
        PatchView {
            lib: self.lib@,
            map: self.map@.to_set(),
            aslr_reference: self.aslr_reference,
            new_base_address: self.new_base_address,
            ifunc_count: self.ifunc_count,
        }
    }
}

/// A message of the development server, as far as it matters here.
#[derive(Debug, PartialEq, Eq)]
pub enum DevserverEvent {
    /// The program has changed; the patch is there if its code has.
    HotReload(Option<Patch>),
    Shutdown,
    /// Any other message, as it is shown to a developer.
    Other(String),
}

/// What a message of the development server says.
pub enum DevserverEventView {
    HotReload(Option<PatchView>),
    Shutdown,
    Other(Seq<char>),
}

impl View for DevserverEvent {
    type V = DevserverEventView;

    open spec fn view(&self) -> DevserverEventView {
        match self {
            DevserverEvent::HotReload(Some(patch)) => DevserverEventView::HotReload(Some(patch@)),
            DevserverEvent::HotReload(None) => DevserverEventView::HotReload(None),
            DevserverEvent::Shutdown => DevserverEventView::Shutdown,
            DevserverEvent::Other(text) => DevserverEventView::Other(text@),
        }
    }
}

/// What came of reading a message: what it says, or the text of an error.
pub open spec fn parsed_view(parsed: Result<DevserverEvent, String>) -> Result<
    DevserverEventView,
    Seq<char>,
> {
    match parsed {
        Ok(event) => Ok(event@),
        Err(text) => Err(text@),
    }
}

/// What `serde_json` reads from a text as a `DevserverMsg`: the message, or the
/// text of its error.
pub uninterp spec fn devserver_msg(text: Seq<char>) -> Result<DevserverEventView, Seq<char>>;

/// `serde_json::from_str`, which reads a `dioxus_devtools::DevserverMsg`.
///
/// The message is taken apart: of a hot reload the jump table is kept, field by
/// field, and of every other message but a shutdown what its `Debug` output
/// says. Of an error the `Display` output is kept. All that is claimed is that
/// the result depends on the text alone, in any program built for machines of one
/// word size; which texts are messages is not said.
#[verifier::external_body]
fn parse_devserver_msg(text: &str) -> (res: Result<DevserverEvent, String>)
    ensures
        parsed_view(res) == devserver_msg(text@),
{
    match serde_json::from_str::<DevserverMsg>(text) {
        Ok(DevserverMsg::HotReload(msg)) => Ok(DevserverEvent::HotReload(msg.jump_table.map(|table| Patch {
            lib: table.lib.to_string_lossy().into_owned(),
            map: Vec::from_iter(table.map),
            aslr_reference: table.aslr_reference,
            new_base_address: table.new_base_address,
            ifunc_count: table.ifunc_count,
        }))),
        Ok(DevserverMsg::Shutdown) => Ok(DevserverEvent::Shutdown),
        Ok(other) => Ok(DevserverEvent::Other(format!("{:?}", other))),
        Err(error) => Err(error.to_string()),
    }
}

/// What is done about a message of the development server.
#[derive(Debug, PartialEq, Eq)]
pub enum DevserverAction {
    Nothing,
    ApplyPatch(Patch),
    /// Write this line to the console, as an error.
    ConsoleError(String),
    /// Write this line to the console, for information.
    ConsoleInfo(String),
}

/// What is done about a message of the development server.
pub enum DevserverActionView {
    Nothing,
    ApplyPatch(PatchView),
    ConsoleError(Seq<char>),
    ConsoleInfo(Seq<char>),
}

impl View for DevserverAction {
    type V = DevserverActionView;

    open spec fn view(&self) -> DevserverActionView {
        match self {
            DevserverAction::Nothing => DevserverActionView::Nothing,
            DevserverAction::ApplyPatch(patch) => DevserverActionView::ApplyPatch(patch@),
            DevserverAction::ConsoleError(line) => DevserverActionView::ConsoleError(line@),
            DevserverAction::ConsoleInfo(line) => DevserverActionView::ConsoleInfo(line@),
        }
    }
}

/// The response to a message: a patch is applied, the end of the connection and
/// a message that cannot be read are reported as errors, and any message of
/// another kind is noted and passed over.
pub open spec fn devserver_response(
    parsed: Result<DevserverEventView, Seq<char>>,
) -> DevserverActionView {
    match parsed {
        Ok(DevserverEventView::HotReload(Some(patch))) => DevserverActionView::ApplyPatch(patch),
        Ok(DevserverEventView::HotReload(None)) => DevserverActionView::Nothing,
        Ok(DevserverEventView::Shutdown) => DevserverActionView::ConsoleError(
            "Connection to the devserver was closed"@,
        ),
        Ok(DevserverEventView::Other(text)) => DevserverActionView::ConsoleInfo(
            "Ignore devserver message: "@ + text,
        ),
        Err(text) => DevserverActionView::ConsoleError(
            "Error parsing devserver message: "@ + text,
        ),
    }
}

/// Decides what is done about a message that has been read.
pub fn devserver_action(parsed: Result<DevserverEvent, String>) -> (action: DevserverAction)
    ensures
        action@ == devserver_response(parsed_view(parsed)),
        action matches DevserverAction::ApplyPatch(patch) ==> parsed == Ok::<_, String>(
            DevserverEvent::HotReload(Some(patch)),
        ),
{
    match parsed {
        Ok(DevserverEvent::HotReload(jump_table)) => {
            if let Some(patch) = jump_table {
                DevserverAction::ApplyPatch(patch)
            } else {
                DevserverAction::Nothing
            }
        },
        Ok(DevserverEvent::Shutdown) => DevserverAction::ConsoleError(
            "Connection to the devserver was closed".to_owned(),
        ),
        Ok(DevserverEvent::Other(text)) => DevserverAction::ConsoleInfo(
            "Ignore devserver message: ".to_owned().concat(text.as_str()),
        ),
        Err(text) => DevserverAction::ConsoleError(
            "Error parsing devserver message: ".to_owned().concat(text.as_str()),
        ),
    }
}

/// Decides what is done about what came over the connection. Only text is
/// looked at: `None` stands for anything else.
pub fn on_devserver_message(data: Option<String>) -> (action: DevserverAction)
    ensures
        match data {
            Some(text) => action@ == devserver_response(devserver_msg(text@)),
            None => action@ == DevserverActionView::Nothing,
        },
{
    match data {
        Some(text) => devserver_action(parse_devserver_msg(text.as_str())),
        None => DevserverAction::Nothing,
    }
}

/// The line that a worker writes to show which of its code is running.
pub fn worker_log_line(thread_id: usize) -> (line: String)
    ensures
        line@ == "Worker "@ + crate::text::decimal(thread_id as nat)
            + ": Test patch data segment"@,
{
    "Worker ".to_owned().concat(decimal_text(thread_id as u64).as_str()).concat(
        ": Test patch data segment",
    )
}

/// A patch is applied exactly if a hot reload brought it: no other message, and
/// nothing that cannot be read as a message, changes the running program.
pub proof fn law_only_hot_reloads_patch(
    parsed: Result<DevserverEventView, Seq<char>>,
    patch: PatchView,
)
    ensures
        devserver_response(parsed) == DevserverActionView::ApplyPatch(patch) <==> parsed == Ok::<
            DevserverEventView,
            Seq<char>,
        >(DevserverEventView::HotReload(Some(patch))),
{
}

/// The connection is encrypted if the page was, and only then.
pub proof fn law_connection_is_as_secure_as_the_page(protocol: Seq<char>)
    ensures
        websocket_protocol(protocol) == "wss:"@ <==> protocol == "https:"@,
{
    reveal_strlit("wss:");
    reveal_strlit("ws:");
    assert("wss:"@.len() != "ws:"@.len());
}

/// Different builds behind one page have different addresses.
pub proof fn law_builds_have_different_addresses(
    protocol: Seq<char>,
    host: Seq<char>,
    a: nat,
    b: nat,
)
    ensures
        devserver_address(protocol, host, a) == devserver_address(protocol, host, b) ==> a == b,
{
    if devserver_address(protocol, host, a) == devserver_address(protocol, host, b) {
        let prefix = websocket_protocol(protocol) + "//"@ + host + "/_dioxus?build_id="@;
        let of_a = prefix + crate::text::decimal(a);
        let of_b = prefix + crate::text::decimal(b);
        assert(crate::text::decimal(a) =~= of_a.skip(prefix.len() as int));
        assert(crate::text::decimal(b) =~= of_b.skip(prefix.len() as int));
        crate::text::law_decimal_reads_back(a);
        crate::text::law_decimal_reads_back(b);
    }
}

/// The two websocket protocols, and which page gets which.
pub proof fn law_websocket_protocols(protocol: Seq<char>)
    ensures
        protocol == "https:"@ ==> websocket_protocol(protocol) == "wss:"@,
        protocol != "https:"@ ==> websocket_protocol(protocol) == "ws:"@,
{
}

/// The address has the page's own host right after the two slashes, character for
/// character, then the path, and then the number of the build, to the end.
pub proof fn law_address_names_the_host(
    protocol: Seq<char>,
    host: Seq<char>,
    build_id: nat,
    start: int,
)
    requires
        start == if protocol == "https:"@ {
            6int
        } else {
            5int
        },
    ensures
        devserver_address(protocol, host, build_id).len() == start + host.len() + 18
            + crate::text::decimal(build_id).len(),
        devserver_address(protocol, host, build_id).subrange(0, start) == if protocol
            == "https:"@ {
            "wss://"@
        } else {
            "ws://"@
        },
        devserver_address(protocol, host, build_id).subrange(start, start + host.len()) == host,
        devserver_address(protocol, host, build_id).subrange(
            start + host.len(),
            start + host.len() + 18,
        ) == "/_dioxus?build_id="@,
        devserver_address(protocol, host, build_id).skip(start + host.len() + 18)
            == crate::text::decimal(build_id),
{
    reveal_strlit("wss:");
    reveal_strlit("ws:");
    reveal_strlit("//");
    reveal_strlit("wss://");
    reveal_strlit("ws://");
    reveal_strlit("/_dioxus?build_id=");
    let address = devserver_address(protocol, host, build_id);
    let digits = crate::text::decimal(build_id);
    let end = start + host.len() + 18;
    if protocol == "https:"@ {
        assert(address.subrange(0, start) =~= "wss://"@);
    } else {
        assert(address.subrange(0, start) =~= "ws://"@);
    }
    assert(address.subrange(start, start + host.len()) =~= host);
    assert(address.subrange(start + host.len(), end) =~= "/_dioxus?build_id="@);
    assert(address.skip(end) =~= digits);
}

/// For one build, pages on different hosts have different addresses.
pub proof fn law_hosts_have_different_addresses(
    protocol: Seq<char>,
    a: Seq<char>,
    b: Seq<char>,
    build_id: nat,
)
    requires
        devserver_address(protocol, a, build_id) == devserver_address(protocol, b, build_id),
    ensures
        a == b,
{
    let start: int = if protocol == "https:"@ {
        6
    } else {
        5
    };
    law_address_names_the_host(protocol, a, build_id, start);
    law_address_names_the_host(protocol, b, build_id, start);
}

/// Patches that say the same agree in the library, the addresses and the three
/// numbers.
pub proof fn law_patch_views_lose_nothing(a: Patch, b: Patch)
    ensures
        a@ == b@ <==> a.lib@ == b.lib@ && a.map@.to_set() == b.map@.to_set() && a.aslr_reference
            == b.aslr_reference && a.new_base_address == b.new_base_address && a.ifunc_count
            == b.ifunc_count,
{
}

/// What a message says is what it holds.
pub proof fn law_event_views_lose_nothing(event: DevserverEvent)
    ensures
        event matches DevserverEvent::HotReload(Some(patch)) ==> event@
            == DevserverEventView::HotReload(Some(patch@)),
        event matches DevserverEvent::HotReload(None) ==> event@ == DevserverEventView::HotReload(
            None,
        ),
        event == DevserverEvent::Shutdown ==> event@ == DevserverEventView::Shutdown,
        event matches DevserverEvent::Other(text) ==> event@ == DevserverEventView::Other(text@),
{
}

/// What came of reading a message is a message or the text of an error, as it
/// stands.
pub proof fn law_parsed_views_lose_nothing(parsed: Result<DevserverEvent, String>)
    ensures
        parsed matches Ok(event) ==> parsed_view(parsed) == Ok::<DevserverEventView, Seq<char>>(
            event@,
        ),
        parsed matches Err(text) ==> parsed_view(parsed) == Err::<DevserverEventView, Seq<char>>(
            text@,
        ),
{
}

/// What an action is seen as is what it holds, so actions that are seen alike do
/// the same.
pub proof fn law_action_views_lose_nothing(action: DevserverAction)
    ensures
        action == DevserverAction::Nothing <==> action@ == DevserverActionView::Nothing,
        action matches DevserverAction::ApplyPatch(patch) ==> action@
            == DevserverActionView::ApplyPatch(patch@),
        action matches DevserverAction::ConsoleError(line) ==> action@
            == DevserverActionView::ConsoleError(line@),
        action matches DevserverAction::ConsoleInfo(line) ==> action@
            == DevserverActionView::ConsoleInfo(line@),
{
}

/// Every message is answered in one way: a patch is applied as it came, a reload
/// without one does nothing, the end of the connection is an error with a fixed
/// text, and another message or an error is shown whole after a fixed text.
pub proof fn law_messages_of_the_server_are_answered(patch: PatchView, text: Seq<char>)
    ensures
        devserver_response(Ok(DevserverEventView::HotReload(Some(patch))))
            == DevserverActionView::ApplyPatch(patch),
        devserver_response(Ok(DevserverEventView::HotReload(None))) == DevserverActionView::Nothing,
        devserver_response(Ok(DevserverEventView::Shutdown)) == DevserverActionView::ConsoleError(
            "Connection to the devserver was closed"@,
        ),
        devserver_response(Ok(DevserverEventView::Other(text))) matches
            DevserverActionView::ConsoleInfo(line) && line.len() == 26 + text.len() && line.take(26)
            == "Ignore devserver message: "@ && line.skip(26) == text,
        devserver_response(Err(text)) matches DevserverActionView::ConsoleError(line) && line.len()
            == 33 + text.len() && line.take(33) == "Error parsing devserver message: "@
            && line.skip(33) == text,
{
    reveal_strlit("Ignore devserver message: ");
    reveal_strlit("Error parsing devserver message: ");
    let info = "Ignore devserver message: "@;
    let error = "Error parsing devserver message: "@;
    assert((info + text).take(26) =~= info);
    assert((info + text).skip(26) =~= text);
    assert((error + text).take(33) =~= error);
    assert((error + text).skip(33) =~= text);
}

} // verus!
