//! What the answers of the server satisfy, said of the answers themselves.
use vstd::prelude::*;

use crate::json::Object;
use crate::mcp::call::{CallReply, Content, ErrorReply, Invocation, ToolCall};
use crate::mcp::server::{Endpoint, ProtocolVersion, ServerInfo};
use crate::mcp::tools::{AgentTool, McpTool};

verus! {

/// Whether `mime` is the media type of what stands before the comma of a URL.
/// Either it stands right behind `data:`, up to a semicolon or the end, or
/// nothing stands there and it is WebP.
pub open spec fn names_type(meta: Seq<char>, mime: Seq<char>) -> bool {
    ||| {
        &&& mime.len() > 0
        &&& !mime.contains(';')
        &&& exists|rest: Seq<char>|
            #![trigger "data:"@ + mime + rest]
            meta == "data:"@ + mime + rest && (rest.len() == 0 || rest[0] == ';')
    }
    ||| {
        &&& mime == "image/webp"@
        &&& !("data:"@.is_prefix_of(meta)) || meta.len() == 5 || meta[5] == ';'
    }
}

/// Whether a URL reads as a media type and a payload: the payload is what
/// follows a comma that has no comma before it, and the type is named in front
/// of that comma.
pub open spec fn reads_as(url: Seq<char>, mime: Seq<char>, payload: Seq<char>) -> bool {
    exists|meta: Seq<char>|
        #![trigger meta.push(',')]
        url == meta.push(',') + payload && !meta.contains(',') && names_type(meta, mime)
}

/// Whether a block of a reply is the image of a URL.
pub open spec fn shows(block: Content, url: Seq<char>) -> bool {
    match block {
        Content::Image { data, mime } => reads_as(url, mime@, data@),
        Content::Text(_) => false,
    }
}

/// Whether a block of a reply is that text.
pub open spec fn says(block: Content, text: Seq<char>) -> bool {
    match block {
        Content::Text(t) => t@ == text,
        Content::Image { .. } => false,
    }
}

/// The URLs that hold a comma, in order.
pub open spec fn with_comma(urls: Seq<Seq<char>>) -> Seq<Seq<char>> {
    urls.filter(|url: Seq<char>| url.contains(','))
}

/// The number that a text of decimal digits stands for.
pub open spec fn number(text: Seq<char>) -> nat
    decreases text.len(),
{
    if text.len() == 0 {
        0
    } else {
        (number(text.drop_last()) * 10 + (text.last() as int - '0' as int)) as nat
    }
}

/// Whether a text is the usual way to write a number: decimal digits, and no
/// zero in front of others.
pub open spec fn writes(text: Seq<char>, value: nat) -> bool {
    &&& text.len() > 0
    &&& forall|i: int| 0 <= i < text.len() ==> '0' <= #[trigger] text[i] && text[i] <= '9'
    &&& text.len() > 1 ==> text[0] != '0'
    &&& number(text) == value
}

proof fn lemma_cut_unique(
    left: Seq<char>,
    left_rest: Seq<char>,
    right: Seq<char>,
    right_rest: Seq<char>,
    mark: char,
)
    requires
        left.push(mark) + left_rest == right.push(mark) + right_rest,
        !left.contains(mark),
        !right.contains(mark),
    ensures
        left == right,
        left_rest == right_rest,
{
    let whole = left.push(mark) + left_rest;
    let other = right.push(mark) + right_rest;
    assert(whole[left.len() as int] == mark);
    assert(other[right.len() as int] == mark);
    if left.len() < right.len() {
        assert(other[left.len() as int] == right[left.len() as int]);
        assert(right.contains(mark));
    }
    if right.len() < left.len() {
        assert(whole[right.len() as int] == left[right.len() as int]);
        assert(left.contains(mark));
    }
    assert(left =~= whole.take(left.len() as int));
    assert(right =~= other.take(right.len() as int));
    assert(left_rest =~= whole.skip(left.len() as int + 1));
    assert(right_rest =~= other.skip(right.len() as int + 1));
}

proof fn lemma_type_unique(meta: Seq<char>, left: Seq<char>, right: Seq<char>)
    requires
        names_type(meta, left),
        names_type(meta, right),
    ensures
        left == right,
{
    reveal_strlit("data:");
    reveal_strlit("image/webp");
    let scheme = "data:"@;
    let named = |mime: Seq<char>|
        {
            &&& mime.len() > 0
            &&& !mime.contains(';')
            &&& exists|rest: Seq<char>|
                #![trigger "data:"@ + mime + rest]
                meta == "data:"@ + mime + rest && (rest.len() == 0 || rest[0] == ';')
        };
    assert forall|mime: Seq<char>| #[trigger] named(mime) implies scheme.is_prefix_of(meta)
        && meta.len() > 5 && meta[5] != ';' by {
        let rest = choose|rest: Seq<char>|
            #![trigger "data:"@ + mime + rest]
            meta == "data:"@ + mime + rest && (rest.len() == 0 || rest[0] == ';');
        assert(meta == scheme + mime + rest);
        assert(scheme =~= meta.subrange(0, 5));
        assert(meta[5] == mime[0]);
        assert(mime.contains(mime[0]));
    }
    if named(left) && named(right) {
        let left_rest = choose|rest: Seq<char>|
            #![trigger "data:"@ + left + rest]
            meta == "data:"@ + left + rest && (rest.len() == 0 || rest[0] == ';');
        let right_rest = choose|rest: Seq<char>|
            #![trigger "data:"@ + right + rest]
            meta == "data:"@ + right + rest && (rest.len() == 0 || rest[0] == ';');
        let one = scheme + left + left_rest;
        let two = scheme + right + right_rest;
        assert(one == two);
        if left.len() < right.len() {
            assert(left_rest.len() > 0);
            assert(one[5 + left.len() as int] == ';');
            assert(two[5 + left.len() as int] == right[left.len() as int]);
            assert(right.contains(';'));
        }
        if right.len() < left.len() {
            assert(right_rest.len() > 0);
            assert(two[5 + right.len() as int] == ';');
            assert(one[5 + right.len() as int] == left[right.len() as int]);
            assert(left.contains(';'));
        }
        assert(left =~= one.subrange(5, 5 + left.len() as int));
        assert(right =~= two.subrange(5, 5 + right.len() as int));
    }
}

proof fn lemma_media_type(meta: Seq<char>)
    ensures
        names_type(meta, crate::mcp::data_url::media_type(meta)),
{
    reveal_strlit("data:");
    let scheme = "data:"@;
    let rest = meta.skip(5);
    let end = crate::text::position(rest, ';');
    crate::text::lemma_position(rest, ';');
    let named = rest.take(end);
    if scheme.is_prefix_of(meta) {
        if named.len() > 0 {
            let tail = rest.skip(end);
            assert(meta =~= scheme + named + tail);
            assert forall|i: int| 0 <= i < named.len() implies named[i] != ';' by {
                assert(named[i] == rest[i]);
            }
            assert(tail.len() == 0 || tail[0] == ';');
            assert(meta == "data:"@ + named + tail);
        } else if meta.len() != 5 {
            assert(meta[5] == rest[0]);
        }
    }
}

/// A URL splits into a media type and a payload exactly where it reads as them.
/// There is one way to read it, and there is one exactly where it holds a comma.
pub proof fn law_split_reads_the_url(url: Seq<char>, mime: Seq<char>, payload: Seq<char>)
    ensures
        crate::mcp::data_url::data_url_parts(url) == Some((mime, payload)) <==> reads_as(
            url,
            mime,
            payload,
        ),
        crate::mcp::data_url::data_url_parts(url) is None <==> !url.contains(','),
{
    let comma = crate::text::position(url, ',');
    crate::text::lemma_position(url, ',');
    if comma < url.len() {
        let meta = url.take(comma);
        let rest = url.skip(comma + 1);
        lemma_media_type(meta);
        assert(url =~= meta.push(',') + rest);
        assert forall|i: int| 0 <= i < meta.len() implies meta[i] != ',' by {
            assert(meta[i] == url[i]);
        }
        assert(!meta.contains(','));
        let found = crate::mcp::data_url::media_type(meta);
        assert(crate::mcp::data_url::data_url_parts(url) == Some((found, rest)));
        assert(reads_as(url, found, rest));
        if reads_as(url, mime, payload) {
            let other = choose|other: Seq<char>|
                #![trigger other.push(',')]
                url == other.push(',') + payload && !other.contains(',') && names_type(other, mime);
            lemma_cut_unique(meta, rest, other, payload, ',');
            lemma_type_unique(meta, found, mime);
        }
    } else if reads_as(url, mime, payload) {
        let other = choose|other: Seq<char>|
            #![trigger other.push(',')]
            url == other.push(',') + payload && !other.contains(',') && names_type(other, mime);
        assert(url[other.len() as int] == ',');
        assert(url.contains(','));
    }
}

/// What [`crate::mcp::data_url::split_data_url`] hands out is a reading of the
/// URL, and it hands out nothing exactly where the URL holds no comma.
pub proof fn law_split_result(url: Seq<char>, parts: Option<(String, String)>)
    requires
        crate::mcp::data_url::part_texts(parts) == crate::mcp::data_url::data_url_parts(url),
    ensures
        match parts {
            Some((mime, payload)) => reads_as(url, mime@, payload@),
            None => !url.contains(','),
        },
{
    if let Some((mime, payload)) = parts {
        law_split_reads_the_url(url, mime@, payload@);
    } else {
        law_split_reads_the_url(url, Seq::empty(), Seq::empty());
    }
}

proof fn lemma_blocks(urls: Seq<Seq<char>>)
    ensures
        crate::mcp::call::image_blocks(urls).len() == with_comma(urls).len(),
        forall|i: int|
            0 <= i < with_comma(urls).len() ==> match #[trigger] crate::mcp::call::image_blocks(
                urls,
            )[i] {
                crate::mcp::call::ContentView::Image { data, mime } => reads_as(
                    with_comma(urls)[i],
                    mime,
                    data,
                ),
                _ => false,
            },
    decreases urls.len(),
{
    reveal(Seq::filter);
    if urls.len() > 0 {
        let before = urls.drop_last();
        lemma_blocks(before);
        let url = urls.last();
        let parts = crate::mcp::data_url::data_url_parts(url);
        if let Some((mime, data)) = parts {
            law_split_reads_the_url(url, mime, data);
        } else {
            law_split_reads_the_url(url, Seq::empty(), Seq::empty());
        }
        assert forall|i: int| 0 <= i < with_comma(urls).len() implies match
            #[trigger] crate::mcp::call::image_blocks(urls)[i] {
            crate::mcp::call::ContentView::Image { data, mime } => reads_as(
                with_comma(urls)[i],
                mime,
                data,
            ),
            _ => false,
        } by {
            if i < with_comma(before).len() {
                assert(crate::mcp::call::image_blocks(urls)[i]
                    == crate::mcp::call::image_blocks(before)[i]);
                assert(with_comma(urls)[i] == with_comma(before)[i]);
            }
        }
    }
}

proof fn lemma_with_comma_of_all(urls: Seq<Seq<char>>)
    requires
        forall|i: int| 0 <= i < urls.len() ==> (#[trigger] urls[i]).contains(','),
    ensures
        with_comma(urls) == urls,
    decreases urls.len(),
{
    reveal(Seq::filter);
    if urls.len() > 0 {
        let before = urls.drop_last();
        assert forall|i: int| 0 <= i < before.len() implies (#[trigger] before[i]).contains(',') by {
            assert(before[i] == urls[i]);
        }
        lemma_with_comma_of_all(before);
        assert(urls[urls.len() - 1].contains(','));
        assert(with_comma(urls) =~= urls);
    } else {
        assert(with_comma(urls) =~= urls);
    }
}

/// A success is answered with its text, and then with exactly one image for
/// each URL that holds a comma, in the order of the URLs, each with the media
/// type and the payload of its own URL.
pub proof fn law_success_answers_text_and_images(
    text: Seq<char>,
    urls: Seq<Seq<char>>,
    answer: CallReply,
)
    requires
        answer@ == crate::mcp::call::success_reply(text, urls),
    ensures
        !answer.is_error,
        answer.stop_watcher,
        answer.content@.len() == 1 + with_comma(urls).len(),
        says(answer.content@[0], text),
        forall|i: int|
            0 <= i < with_comma(urls).len() ==> shows(
                answer.content@[i + 1],
                #[trigger] with_comma(urls)[i],
            ),
{
    lemma_blocks(urls);
    let seen = answer@.content;
    assert(seen.len() == answer.content@.len());
    assert(seen[0] == answer.content@[0]@);
    assert forall|i: int| 0 <= i < with_comma(urls).len() implies shows(
        answer.content@[i + 1],
        #[trigger] with_comma(urls)[i],
    ) by {
        assert(seen[i + 1] == answer.content@[i + 1]@);
        assert(seen[i + 1] == crate::mcp::call::image_blocks(urls)[i]);
    }
}

/// Whatever a tool returned is answered with its value as indented JSON, or as
/// plain JSON where there is no indented one, and then with exactly one image
/// for each of its URLs that holds a comma, in their order.
pub proof fn law_invocation_is_answered(invocation: Invocation, answer: CallReply)
    requires
        answer@ == crate::mcp::call::reply(Ok(invocation)),
    ensures
        !answer.is_error,
        answer.stop_watcher,
        crate::json::pretty_value(invocation.value) matches Some(text) ==> says(
            answer.content@[0],
            text,
        ),
        crate::json::pretty_value(invocation.value) is None ==> says(
            answer.content@[0],
            crate::json::displayed_value(invocation.value),
        ),
        ({
            let kept = with_comma(crate::text::texts(invocation.images@));
            &&& answer.content@.len() == 1 + kept.len()
            &&& forall|i: int|
                0 <= i < kept.len() ==> shows(answer.content@[i + 1], #[trigger] kept[i])
        }),
{
    law_success_answers_text_and_images(
        crate::mcp::call::value_text(invocation.value),
        crate::text::texts(invocation.images@),
        answer,
    );
}

/// Where all URLs of a tool hold a comma, no image is lost: the answer holds one
/// block more than there are URLs, and block `i + 1` is the image of URL `i`.
pub proof fn law_no_image_is_lost(invocation: Invocation, answer: CallReply)
    requires
        answer@ == crate::mcp::call::reply(Ok(invocation)),
        forall|i: int|
            0 <= i < invocation.images@.len() ==> (#[trigger] invocation.images@[i])@.contains(','),
    ensures
        answer.content@.len() == 1 + invocation.images@.len(),
        forall|i: int|
            0 <= i < invocation.images@.len() ==> shows(
                answer.content@[i + 1],
                (#[trigger] invocation.images@[i])@,
            ),
{
    let urls = crate::text::texts(invocation.images@);
    assert forall|i: int| 0 <= i < urls.len() implies (#[trigger] urls[i]).contains(',') by {
        assert(urls[i] == invocation.images@[i]@);
    }
    lemma_with_comma_of_all(urls);
    law_invocation_is_answered(invocation, answer);
    assert forall|i: int| 0 <= i < invocation.images@.len() implies shows(
        answer.content@[i + 1],
        (#[trigger] invocation.images@[i])@,
    ) by {
        assert(with_comma(urls)[i] == invocation.images@[i]@);
    }
}

/// A failed call is answered with its message alone, marked as an error.
pub proof fn law_failure_answers_message(message: String, answer: CallReply)
    requires
        answer@ == crate::mcp::call::reply(Err(message)) || answer@
            == crate::mcp::call::failure_reply(message@),
    ensures
        answer.is_error,
        !answer.stop_watcher,
        answer.content@.len() == 1,
        says(answer.content@[0], message@),
{
    assert(answer@.content.len() == answer.content@.len());
    assert(answer@.content[0] == answer.content@[0]@);
}

/// A refusal carries the code for a missing method, names the tool at the end
/// of its message, and names it once more as the only member of its data.
pub proof fn law_refusal_names_the_tool(name: Seq<char>, refusal: ErrorReply)
    requires
        refusal@ == crate::mcp::call::unknown_tool(name),
    ensures
        refusal.code == -32601,
        "no such tool: "@.is_prefix_of(refusal.message@),
        refusal.message@.skip("no such tool: "@.len() as int) == name,
        refusal.data@.len() == 1,
        refusal.data@[0].0@ == "tool"@,
        refusal.data@[0].1@ == name,
{
    let prefix = "no such tool: "@;
    assert(prefix =~= refusal.message@.subrange(0, prefix.len() as int));
    assert(refusal.message@.skip(prefix.len() as int) =~= name);
    assert(refusal@.data.len() == refusal.data@.len());
    assert(refusal@.data[0] == (refusal.data@[0].0@, refusal.data@[0].1@));
}

/// The arguments of a call are what serialization wrote of them. A request
/// without arguments hands on an empty object, and one whose arguments cannot
/// be written hands on nothing.
pub proof fn law_arguments_are_handed_on(arguments: Option<Object>, text: Seq<char>)
    requires
        text == crate::mcp::call::argument_text(crate::mcp::call::serialized_arguments(arguments)),
    ensures
        arguments is None ==> text == seq!['{', '}'],
        arguments matches Some(object) ==> match crate::json::compact_object(
            crate::json::members(object),
        ) {
            Some(written) => text == written,
            None => text.len() == 0,
        },
{
    reveal_strlit("{}");
    if arguments is None {
        assert("{}"@ =~= seq!['{', '}']);
    }
}

/// The same of a result of serialization that is given.
pub proof fn law_written_arguments<E>(serialized: Option<Result<String, E>>, text: Seq<char>)
    requires
        text == crate::mcp::call::argument_text(
            match serialized {
                Some(written) => Some(crate::json::written(written)),
                None => None,
            },
        ),
    ensures
        serialized is None ==> text == seq!['{', '}'],
        serialized matches Some(Ok(written)) ==> text == written@,
        serialized matches Some(Err(_)) ==> text.len() == 0,
{
    reveal_strlit("{}");
    if serialized is None {
        assert("{}"@ =~= seq!['{', '}']);
    }
}

/// A call is seen as it is.
pub proof fn law_call_is_seen_as_it_is(call: ToolCall)
    ensures
        call@.call_id == call.call_id@,
        call@.name == call.name@,
        call@.arguments == call.arguments@,
{
}

/// The shape of a call's identifier: five groups of lower-case hexadecimal
/// digits of 8, 4, 4, 4 and 12, of version 4 and the RFC variant.
pub proof fn law_call_ids_have_five_groups(id: Seq<char>)
    requires
        crate::mcp::call_id::is_call_id(id),
    ensures
        id.len() == 8 + 1 + 4 + 1 + 4 + 1 + 4 + 1 + 12,
        forall|i: int|
            0 <= i < id.len() ==> (#[trigger] id[i] == '-' <==> (i == 8 || i == 13 || i == 18 || i
                == 23)),
        forall|i: int|
            0 <= i < id.len() && id[i] != '-' ==> ('0' <= #[trigger] id[i] && id[i] <= '9') || (
            'a' <= id[i] && id[i] <= 'f'),
        id[14] == '4',
        seq!['8', '9', 'a', 'b'].contains(id[19]),
{
    let variants = seq!['8', '9', 'a', 'b'];
    assert(variants[0] == '8' && variants[1] == '9' && variants[2] == 'a' && variants[3] == 'b');
}

/// A name is offered exactly where it is among the names of the tools.
pub proof fn law_offered_names_are_the_tools_names(tools: Seq<AgentTool>, name: Seq<char>)
    ensures
        crate::mcp::tools::offers(tools, name) <==> tools.map_values(
            |t: AgentTool| t.name@,
        ).contains(name),
{
    let names = tools.map_values(|t: AgentTool| t.name@);
    if crate::mcp::tools::offers(tools, name) {
        let k = choose|k: int| 0 <= k < tools.len() && (#[trigger] tools[k]).name@ == name;
        assert(names[k] == name);
    }
    if names.contains(name) {
        let k = choose|k: int| 0 <= k < names.len() && names[k] == name;
        assert(tools[k].name@ == name);
    }
}

/// A tool is described by its own name and description, and by the members of
/// its parameters, of which there are none where they are no object.
pub proof fn law_tool_is_described(tool: AgentTool, answer: McpTool)
    requires
        answer@ == crate::mcp::tools::described(tool),
    ensures
        answer.name@ == tool.name@,
        answer.description@ == tool.description@,
        crate::json::as_object_members(tool.parameters) matches Some(members)
            ==> crate::json::members(answer.input_schema) == members,
        crate::json::as_object_members(tool.parameters) is None ==> crate::json::members(
            answer.input_schema,
        ).len() == 0,
{
}

/// A lookup finds the first tool of a name: the one at `at`, where none before
/// it has its name.
pub proof fn law_lookup_finds_the_first(tools: Seq<AgentTool>, at: int, answer: Option<McpTool>)
    requires
        0 <= at < tools.len(),
        forall|i: int| 0 <= i < at ==> (#[trigger] tools[i]).name@ != tools[at].name@,
        (match answer {
            Some(t) => Some(t@),
            None => None,
        }) == crate::mcp::tools::lookup(tools, tools[at].name@),
    ensures
        answer matches Some(t) && t.name@ == tools[at].name@ && t.description@
            == tools[at].description@ && crate::json::members(t.input_schema) == (
        match crate::json::as_object_members(tools[at].parameters) {
            Some(members) => members,
            None => Seq::empty(),
        }),
{
    let name = tools[at].name@;
    crate::mcp::tools::lemma_tool_position(tools, name);
    let found = crate::mcp::tools::tool_position(tools, name);
    assert(crate::mcp::tools::offers(tools, name));
    if at < found {
        assert(tools[at].name@ != name);
    }
    assert(found == at);
}

/// A lookup finds nothing exactly where no tool has the name.
pub proof fn law_lookup_misses_unknown_names(tools: Seq<AgentTool>, name: Seq<char>)
    ensures
        crate::mcp::tools::lookup(tools, name) is None <==> forall|i: int|
            0 <= i < tools.len() ==> (#[trigger] tools[i]).name@ != name,
{
    crate::mcp::tools::lemma_tool_position(tools, name);
}

/// The server goes by its own name and the given version, offers tools, and
/// announces the revision of November 2025.
pub proof fn law_server_is_announced(version: Seq<char>, info: ServerInfo)
    requires
        info@ == crate::mcp::server::announced(version),
    ensures
        info.name@ == "koharu"@,
        info.version@ == version,
        info.protocol_version.date() == "2025-11-25"@,
        info.offers_tools,
        info.instructions@ == crate::mcp::server::INSTRUCTIONS@,
{
}

/// Every revision that is known is supported, and listed once.
pub proof fn law_every_revision_is_supported(version: ProtocolVersion)
    ensures
        crate::mcp::server::supported().contains(version),
        crate::mcp::server::supported().no_duplicates(),
        crate::mcp::server::supported().len() == 4,
{
    let all = crate::mcp::server::supported();
    assert(all[0] == ProtocolVersion::V20241105);
    assert(all[1] == ProtocolVersion::V20250326);
    assert(all[2] == ProtocolVersion::V20250618);
    assert(all[3] == ProtocolVersion::V20251125);
}

/// A number is written as it is usually written, and reads back as itself.
pub proof fn law_decimal_reads_back(value: nat)
    ensures
        writes(crate::text::decimal(value), value),
        value > 0 ==> crate::text::decimal(value)[0] != '0',
    decreases value,
{
    let text = crate::text::decimal(value);
    let last = crate::text::digit(value % 10);
    assert('0' <= last && last <= '9' && last as int - '0' as int == value % 10);
    if value < 10 {
        assert(text.drop_last() =~= Seq::<char>::empty());
        assert(number(Seq::<char>::empty()) == 0);
        assert(text.last() == last);
    } else {
        let front = crate::text::decimal(value / 10);
        law_decimal_reads_back(value / 10);
        assert(text.drop_last() =~= front);
        assert(text[0] == front[0]);
        assert forall|i: int| 0 <= i < text.len() implies '0' <= #[trigger] text[i] && text[i]
            <= '9' by {
            if i < front.len() {
                assert(text[i] == front[i]);
            }
        }
    }
}

/// Every port but 0 is served, on the loopback address and under `/mcp`. The
/// URL and the message of a failure name the address and the port in decimal.
pub proof fn law_port_is_served_locally(port: nat, place: Option<Endpoint>)
    requires
        (match place {
            Some(e) => Some(e@),
            None => None,
        }) == crate::mcp::server::endpoint(port),
    ensures
        place is None <==> port == 0,
        place matches Some(e) ==> {
            &&& e.host@ == "127.0.0.1"@
            &&& e.port == port
            &&& e.path@ == "/mcp"@
            &&& exists|digits: Seq<char>| #[trigger]
                writes(digits, port) && e.url@ == "http://"@ + e.host@ + ":"@ + digits + e.path@
                    && e.bind_failure@ == "failed to bind the MCP server on "@ + e.host@ + ":"@
                    + digits
        },
{
    if let Some(e) = place {
        let digits = crate::text::decimal(port);
        law_decimal_reads_back(port);
        reveal_strlit("http://");
        reveal_strlit("127.0.0.1");
        reveal_strlit(":");
        reveal_strlit("http://127.0.0.1:");
        reveal_strlit("failed to bind the MCP server on ");
        reveal_strlit("failed to bind the MCP server on 127.0.0.1:");
        assert("http://127.0.0.1:"@ =~= "http://"@ + "127.0.0.1"@ + ":"@);
        assert("failed to bind the MCP server on 127.0.0.1:"@
            =~= "failed to bind the MCP server on "@ + "127.0.0.1"@ + ":"@);
        assert(writes(digits, port));
    }
}

} // verus!
