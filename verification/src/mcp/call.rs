//! Tool calls: the request that reaches the agent, and the reply that goes back.
use vstd::prelude::*;

use crate::json::{object_to_string, value_to_string, value_to_string_pretty, Object};
use crate::mcp::call_id::new_call_id;
use crate::mcp::data_url::split_data_url;
use crate::mcp::tools::{find_tool, AgentTool};

verus! {

/// The JSON-RPC code for a method that does not exist.
pub const METHOD_NOT_FOUND: i32 = -32601;

/// A call that is handed to the agent.
#[derive(Debug)]
pub struct ToolCall {
    pub call_id: String,
    pub name: String,
    pub arguments: String,
}

/// A refusal on the level of the protocol. `data` holds the members of the
/// JSON object that goes with it.
#[derive(Debug)]
pub struct ErrorReply {
    pub code: i32,
    pub message: String,
    pub data: Vec<(String, String)>,
}

/// What a tool produced: a value, and the data URLs of its images.
#[derive(Debug)]
pub struct Invocation {
    pub value: serde_json::Value,
    pub images: Vec<String>,
}

/// One block of a reply.
#[derive(Debug)]
pub enum Content {
    Text(String),
    Image { data: String, mime: String },
}

/// The reply to a call that reached the agent. `stop_watcher` tells whether the
/// task that forwards a cancellation by the client is stopped before replying.
#[derive(Debug)]
pub struct CallReply {
    pub is_error: bool,
    pub content: Vec<Content>,
    pub stop_watcher: bool,
}

/// The characters of a [`ToolCall`].
#[verifier::ext_equal]
pub struct ToolCallView {
    pub call_id: Seq<char>,
    pub name: Seq<char>,
    pub arguments: Seq<char>,
}

impl View for ToolCall {
    type V = ToolCallView;

    open spec fn view(&self) -> ToolCallView {
        ToolCallView { call_id: self.call_id@, name: self.name@, arguments: self.arguments@ }
    }
}

/// The characters of an [`ErrorReply`].
#[verifier::ext_equal]
pub struct ErrorReplyView {
    pub code: int,
    pub message: Seq<char>,
    pub data: Seq<(Seq<char>, Seq<char>)>,
}

impl View for ErrorReply {
    type V = ErrorReplyView;

    open spec fn view(&self) -> ErrorReplyView {
        ErrorReplyView {
            code: self.code as int,
            message: self.message@,
            data: self.data@.map_values(|m: (String, String)| (m.0@, m.1@)),
        }
    }
}

/// The characters of a [`Content`].
#[verifier::ext_equal]
pub enum ContentView {
    Text(Seq<char>),
    Image { data: Seq<char>, mime: Seq<char> },
}

impl View for Content {
    type V = ContentView;

    open spec fn view(&self) -> ContentView {
        match self {
            Content::Text(text) => ContentView::Text(text@),
            Content::Image { data, mime } => ContentView::Image { data: data@, mime: mime@ },
        }
    }
}

/// The characters of a [`CallReply`].
#[verifier::ext_equal]
pub struct CallReplyView {
    pub is_error: bool,
    pub content: Seq<ContentView>,
    pub stop_watcher: bool,
}

impl View for CallReply {
    type V = CallReplyView;

    open spec fn view(&self) -> CallReplyView {
        CallReplyView {
            is_error: self.is_error,
            content: self.content@.map_values(|c: Content| c@),
            stop_watcher: self.stop_watcher,
        }
    }
}

/// The refusal of a call to a tool that does not exist.
pub open spec fn unknown_tool(name: Seq<char>) -> ErrorReplyView {
    ErrorReplyView {
        code: METHOD_NOT_FOUND as int,
        message: "no such tool: "@ + name,
        data: seq![("tool"@, name)],
    }
}

/// The argument text of a call: what serialization wrote, nothing where it
/// failed, and an empty object where the request carries no arguments.
pub open spec fn argument_text(serialized: Option<Option<Seq<char>>>) -> Seq<char> {
    match serialized {
        Some(Some(text)) => text,
        Some(None) => Seq::empty(),
        None => "{}"@,
    }
}

/// What serialization makes of the arguments of a request.
pub open spec fn serialized_arguments(arguments: Option<Object>) -> Option<Option<Seq<char>>> {
    match arguments {
        Some(object) => Some(crate::json::compact_object(crate::json::members(object))),
        None => None,
    }
}

/// The text of a value: indented JSON, or its plain display where that fails.
pub open spec fn value_text(value: serde_json::Value) -> Seq<char> {
    match crate::json::pretty_value(value) {
        Some(text) => text,
        None => crate::json::displayed_value(value),
    }
}

/// The image blocks of a reply: one for each data URL that can be split, in
/// order.
pub open spec fn image_blocks(urls: Seq<Seq<char>>) -> Seq<ContentView>
    decreases urls.len(),
{
    if urls.len() == 0 {
        Seq::empty()
    } else {
        let before = image_blocks(urls.drop_last());
        match crate::mcp::data_url::data_url_parts(urls.last()) {
            Some((mime, data)) => before.push(ContentView::Image { data, mime }),
            None => before,
        }
    }
}

/// The reply to a call that succeeded.
pub open spec fn success_reply(text: Seq<char>, urls: Seq<Seq<char>>) -> CallReplyView {
    CallReplyView {
        is_error: false,
        content: seq![ContentView::Text(text)] + image_blocks(urls),
        stop_watcher: true,
    }
}

/// The reply to a call that failed.
pub open spec fn failure_reply(message: Seq<char>) -> CallReplyView {
    CallReplyView {
        is_error: true,
        content: seq![ContentView::Text(message)],
        stop_watcher: false,
    }
}

/// The reply to a call, by what became of it.
pub open spec fn reply(outcome: Result<Invocation, String>) -> CallReplyView {
    match outcome {
        Ok(invocation) => success_reply(
            value_text(invocation.value),
            crate::text::texts(invocation.images@),
        ),
        Err(message) => failure_reply(message@),
    }
}

/// Refuses a call to a tool that does not exist.
pub fn refuse_call(name: &str) -> (refusal: ErrorReply)
    ensures
        refusal@ == unknown_tool(name@),
{
    let mut message = "no such tool: ".to_owned();
    message.append(name);
    let mut data: Vec<(String, String)> = Vec::new();
    data.push(("tool".to_owned(), name.to_owned()));
    ErrorReply { code: METHOD_NOT_FOUND, message, data }
}

/// Makes a call of an identifier, a tool's name, and what serialization made of
/// the arguments.
pub fn make_call<E>(
    call_id: String,
    name: &str,
    serialized: Option<Result<String, E>>,
) -> (call: ToolCall)
    ensures
        call@ == (ToolCallView {
            call_id: call_id@,
            name: name@,
            arguments: argument_text(
                match serialized {
                    Some(text) => Some(crate::json::written(text)),
                    None => None,
                },
            ),
        }),
{
    let arguments = match serialized {
        Some(Ok(text)) => text,
        Some(Err(_)) => String::new(),
        None => "{}".to_owned(),
    };
    ToolCall { call_id, name: name.to_owned(), arguments }
}

/// Opens a tool call: refuses it where no tool has that name, and otherwise
/// hands the arguments on as JSON text under a fresh identifier.
pub fn call_tool(tools: &Vec<AgentTool>, name: &str, arguments: Option<Object>) -> (call: Result<
    ToolCall,
    ErrorReply,
>)
    ensures
        call is Ok <==> crate::mcp::tools::offers(tools@, name@),
        match call {
            Ok(c) => {
                &&& crate::mcp::call_id::is_call_id(c@.call_id)
                &&& c@.name == name@
                &&& c@.arguments == argument_text(serialized_arguments(arguments))
            },
            Err(refusal) => refusal@ == unknown_tool(name@),
        },
{
    if find_tool(tools, name).is_none() {
        return Err(refuse_call(name));
    }
    proof {
        crate::mcp::tools::lemma_tool_position(tools@, name@);
    }
    let serialized = match &arguments {
        Some(object) => Some(object_to_string(object)),
        None => None,
    };
    Ok(make_call(new_call_id(), name, serialized))
}

/// Replies to a call that failed.
pub fn reply_failure(message: String) -> (answer: CallReply)
    ensures
        answer@ == failure_reply(message@),
{
    let mut content: Vec<Content> = Vec::new();
    content.push(Content::Text(message));
    CallReply { is_error: true, content, stop_watcher: false }
}

/// Replies to a call that succeeded: its text first, then its images. An image
/// whose URL cannot be split is left out.
pub fn reply_success(text: String, images: &Vec<String>) -> (answer: CallReply)
    ensures
        answer@ == success_reply(text@, crate::text::texts(images@)),
{
    let ghost words = text@;
    let ghost urls = crate::text::texts(images@);
    let mut content: Vec<Content> = Vec::new();
    content.push(Content::Text(text));
    assert(urls.take(0) =~= Seq::<Seq<char>>::empty());
    assert(content@.map_values(|c: Content| c@) =~= seq![ContentView::Text(words)]
        + image_blocks(urls.take(0)));
    let mut at: usize = 0;
    while at < images.len()
        invariant
            at <= images@.len(),
            urls == crate::text::texts(images@),
            content@.map_values(|c: Content| c@) == seq![ContentView::Text(words)] + image_blocks(
                urls.take(at as int),
            ),
        decreases images@.len() - at,
    {
        let ghost earlier = content@;
        assert(urls.take(at + 1).drop_last() =~= urls.take(at as int));
        assert(urls.take(at + 1).last() == images@[at as int]@);
        if let Some((mime, data)) = split_data_url(&images[at]) {
            let ghost block = ContentView::Image { data: data@, mime: mime@ };
            content.push(Content::Image { data, mime });
            assert(content@.map_values(|c: Content| c@) =~= earlier.map_values(
                |c: Content| c@,
            ).push(block));
        }
        at += 1;
        assert(content@.map_values(|c: Content| c@) =~= seq![ContentView::Text(words)]
            + image_blocks(urls.take(at as int)));
    }
    assert(urls.take(at as int) =~= urls);
    CallReply { is_error: false, content, stop_watcher: true }
}

/// Closes a tool call: turns what the agent returned, or the message of its
/// error, into the reply.
pub fn finish_call(outcome: Result<Invocation, String>) -> (answer: CallReply)
    ensures
        answer@ == reply(outcome),
{
    match outcome {
        Ok(invocation) => {
            let text = match value_to_string_pretty(&invocation.value) {
                Ok(text) => text,
                Err(_) => value_to_string(&invocation.value),
            };
            reply_success(text, &invocation.images)
        },
        Err(message) => reply_failure(message),
    }
}

/// Every reply starts with a text. It is marked as an error exactly where the
/// call failed, and the watcher is stopped exactly where it succeeded.
pub proof fn law_reply_starts_with_text(outcome: Result<Invocation, String>)
    ensures
        reply(outcome).content.len() > 0,
        reply(outcome).content[0] is Text,
        reply(outcome).is_error <==> outcome is Err,
        reply(outcome).stop_watcher <==> outcome is Ok,
{
}

/// The image block that a data URL yields.
pub open spec fn yields(url: Seq<char>, block: ContentView) -> bool {
    match crate::mcp::data_url::data_url_parts(url) {
        Some((mime, data)) => block == (ContentView::Image { data, mime }),
        None => false,
    }
}

/// There are no more image blocks than URLs, and one of the URLs yields each.
pub proof fn law_no_image_is_invented(urls: Seq<Seq<char>>)
    ensures
        image_blocks(urls).len() <= urls.len(),
        forall|i: int|
            0 <= i < image_blocks(urls).len() ==> exists|j: int|
                0 <= j < urls.len() && yields(#[trigger] urls[j], #[trigger] image_blocks(urls)[i]),
    decreases urls.len(),
{
    if urls.len() > 0 {
        let before = urls.drop_last();
        law_no_image_is_invented(before);
        assert forall|i: int| 0 <= i < image_blocks(urls).len() implies exists|j: int|
            0 <= j < urls.len() && yields(
                #[trigger] urls[j],
                #[trigger] image_blocks(urls)[i],
            ) by {
            let block = image_blocks(urls)[i];
            if i < image_blocks(before).len() {
                assert(image_blocks(before)[i] == block);
                let j = choose|j: int|
                    0 <= j < before.len() && yields(
                        #[trigger] before[j],
                        #[trigger] image_blocks(before)[i],
                    );
                assert(before[j] == urls[j]);
                assert(yields(urls[j], block));
            } else {
                assert(yields(urls[urls.len() - 1], block));
            }
        }
    }
}

/// Where every URL can be split, every image is in the reply, at its place.
pub proof fn law_all_images_are_kept(urls: Seq<Seq<char>>)
    requires
        forall|i: int| 0 <= i < urls.len() ==> (#[trigger] urls[i]).contains(','),
    ensures
        image_blocks(urls).len() == urls.len(),
        forall|i: int|
            0 <= i < urls.len() ==> yields(urls[i], #[trigger] image_blocks(urls)[i]),
    decreases urls.len(),
{
    if urls.len() > 0 {
        let before = urls.drop_last();
        assert forall|i: int| 0 <= i < before.len() implies (#[trigger] before[i]).contains(',') by {
            assert(urls[i].contains(','));
        }
        law_all_images_are_kept(before);
        assert(urls[urls.len() - 1].contains(','));
        crate::mcp::data_url::law_split_needs_a_comma(urls.last());
        assert forall|i: int| 0 <= i < urls.len() implies yields(
            urls[i],
            #[trigger] image_blocks(urls)[i],
        ) by {
            if i < before.len() {
                assert(image_blocks(before)[i] == image_blocks(urls)[i]);
                assert(before[i] == urls[i]);
            }
        }
    }
}

} // verus!
