//! Text-level building blocks for the response encoder: JSON string
//! escaping, decimal rendering of integers, and character-exact string
//! comparison.

use vstd::prelude::*;
use crate::mcp::{
    Implementation, JsonRpcError, JsonRpcResponse, RequestId, ResultBody, ServerCapabilities,
    Tool, ToolContent, ToolsCallResult, ToolsListResult,
};

verus! {

/// The digit character for a value below sixteen (decimal digits reuse
/// the first ten).
pub open spec fn hex_digit(d: nat) -> char {
    if d == 0 { '0' }
    else if d == 1 { '1' }
    else if d == 2 { '2' }
    else if d == 3 { '3' }
    else if d == 4 { '4' }
    else if d == 5 { '5' }
    else if d == 6 { '6' }
    else if d == 7 { '7' }
    else if d == 8 { '8' }
    else if d == 9 { '9' }
    else if d == 10 { 'a' }
    else if d == 11 { 'b' }
    else if d == 12 { 'c' }
    else if d == 13 { 'd' }
    else if d == 14 { 'e' }
    else if d == 15 { 'f' }
    else { '0' }
}

/// How one character appears inside a JSON string literal: quotes,
/// backslashes and the common control characters get a two-character
/// escape, other control characters a `\u00XX` escape, and everything
/// else stands for itself.
pub open spec fn escape_char(c: char) -> Seq<char> {
    if c == '"' { seq!['\\', '"'] }
    else if c == '\\' { seq!['\\', '\\'] }
    else if c == '\n' { seq!['\\', 'n'] }
    else if c == '\r' { seq!['\\', 'r'] }
    else if c == '\t' { seq!['\\', 't'] }
    else if (c as u32) < 32 {
        seq!['\\', 'u', '0', '0',
            hex_digit((c as u32 / 16) as nat),
            hex_digit((c as u32 % 16) as nat)]
    } else {
        seq![c]
    }
}

/// A whole text escaped for inclusion in a JSON string literal.
pub open spec fn escape_text(s: Seq<char>) -> Seq<char>
    decreases s.len(),
{
    if s.len() == 0 {
        Seq::empty()
    } else {
        escape_text(s.drop_last()) + escape_char(s.last())
    }
}

/// The decimal digits of a natural number, most significant first.
pub open spec fn dec_text(n: nat) -> Seq<char>
    decreases n,
{
    if n < 10 {
        seq![hex_digit(n)]
    } else {
        dec_text(n / 10) + seq![hex_digit(n % 10)]
    }
}

/// The decimal rendering of an integer, with a leading minus sign when
/// it is negative.
pub open spec fn int_text(i: int) -> Seq<char> {
    if i < 0 {
        seq!['-'] + dec_text((-i) as nat)
    } else {
        dec_text(i as nat)
    }
}

/// Relies on String::push: appends exactly the given character.
#[verifier::external_body]
pub(crate) fn push_char(s: &mut String, c: char)
    ensures
        final(s)@ == old(s)@.push(c),
{
    s.push(c);
}

/// The digit character for a value below sixteen.
fn hex_digit_char(d: u8) -> (c: char)
    requires
        d < 16,
    ensures
        c == hex_digit(d as nat),
{
    if d == 0 { '0' }
    else if d == 1 { '1' }
    else if d == 2 { '2' }
    else if d == 3 { '3' }
    else if d == 4 { '4' }
    else if d == 5 { '5' }
    else if d == 6 { '6' }
    else if d == 7 { '7' }
    else if d == 8 { '8' }
    else if d == 9 { '9' }
    else if d == 10 { 'a' }
    else if d == 11 { 'b' }
    else if d == 12 { 'c' }
    else if d == 13 { 'd' }
    else if d == 14 { 'e' }
    else { 'f' }
}

/// Appends the JSON string escaping of `s` to `out`.
pub fn escape_into(out: &mut String, s: &str)
    ensures
        final(out)@ == old(out)@ + escape_text(s@),
{
    let n = s.unicode_len();
    let mut i: usize = 0;
    while i < n
        invariant
            i <= n,
            n == s@.len(),
            out@ == old(out)@ + escape_text(s@.subrange(0, i as int)),
        decreases n - i,
    {
        let c = s.get_char(i);
        if c == '"' {
            push_char(out, '\\');
            push_char(out, '"');
        } else if c == '\\' {
            push_char(out, '\\');
            push_char(out, '\\');
        } else if c == '\n' {
            push_char(out, '\\');
            push_char(out, 'n');
        } else if c == '\r' {
            push_char(out, '\\');
            push_char(out, 'r');
        } else if c == '\t' {
            push_char(out, '\\');
            push_char(out, 't');
        } else if (c as u32) < 32 {
            push_char(out, '\\');
            push_char(out, 'u');
            push_char(out, '0');
            push_char(out, '0');
            push_char(out, hex_digit_char((c as u32 / 16) as u8));
            push_char(out, hex_digit_char((c as u32 % 16) as u8));
        } else {
            push_char(out, c);
        }
        proof {
            let pre = s@.subrange(0, i as int);
            let cur = s@.subrange(0, i as int + 1);
            assert(cur.drop_last() =~= pre);
            assert(cur.last() == c);
            assert(out@ =~= old(out)@ + escape_text(pre) + escape_char(c));
            assert(out@ =~= old(out)@ + escape_text(cur));
        }
        i = i + 1;
    }
    proof {
        assert(s@.subrange(0, n as int) =~= s@);
    }
}

/// Appends the decimal digits of `n` to `out`.
fn write_u64(out: &mut String, n: u64)
    ensures
        final(out)@ == old(out)@ + dec_text(n as nat),
    decreases n,
{
    if n >= 10 {
        proof {
            assert(n / 10 < n) by (nonlinear_arith)
                requires n >= 10,
            ;
        }
        write_u64(out, n / 10);
    }
    push_char(out, hex_digit_char((n % 10) as u8));
}

/// Appends the decimal rendering of `x` to `out`.
pub fn write_i32(out: &mut String, x: i32)
    ensures
        final(out)@ == old(out)@ + int_text(x as int),
{
    if x < 0 {
        push_char(out, '-');
        let m: i64 = -(x as i64);
        write_u64(out, m as u64);
    } else {
        write_u64(out, x as u64);
    }
}

/// The position of the first occurrence of `c`, if there is one.
pub open spec fn first_index_of(s: Seq<char>, c: char) -> Option<int>
    decreases s.len(),
{
    if s.len() == 0 {
        None
    } else if s[0] == c {
        Some(0)
    } else {
        match first_index_of(s.drop_first(), c) {
            Some(i) => Some(i + 1),
            None => None,
        }
    }
}

/// A scan that stopped on `c` at position `i`, having seen no earlier
/// occurrence, found the first occurrence.
pub proof fn lemma_first_index_found(s: Seq<char>, c: char, i: int)
    requires
        0 <= i < s.len(),
        forall|k: int| 0 <= k < i ==> s[k] != c,
        s[i] == c,
    ensures
        first_index_of(s, c) == Some(i),
    decreases i,
{
    if i > 0 {
        lemma_first_index_found(s.drop_first(), c, i - 1);
    }
}

/// A scan that saw no occurrence of `c` at all found none.
pub proof fn lemma_first_index_none(s: Seq<char>, c: char)
    requires
        forall|k: int| 0 <= k < s.len() ==> s[k] != c,
    ensures
        first_index_of(s, c) == None::<int>,
    decreases s.len(),
{
    if s.len() > 0 {
        lemma_first_index_none(s.drop_first(), c);
    }
}

/// The position of the first occurrence of `c` at or after `from`, or
/// the text's length when there is none.
pub fn find_char(s: &str, c: char, from: usize) -> (r: usize)
    requires
        from <= s@.len(),
    ensures
        from <= r <= s@.len(),
        r < s@.len() ==> s@[r as int] == c,
        forall|k: int| from <= k < r ==> s@[k] != c,
{
    let n = s.unicode_len();
    let mut j: usize = from;
    while j < n
        invariant
            from <= j <= n,
            n == s@.len(),
            forall|k: int| from <= k < j ==> s@[k] != c,
        decreases n - j,
    {
        if s.get_char(j) == c {
            return j;
        }
        j = j + 1;
    }
    n
}

/// A JSON string literal: the text escaped, between double quotes.
pub open spec fn wire_string(s: Seq<char>) -> Seq<char> {
    seq!['"'] + escape_text(s) + seq!['"']
}

/// A request identifier on the wire: `null`, the number's own text, or
/// a JSON string.
pub open spec fn wire_id(id: RequestId) -> Seq<char> {
    match id {
        RequestId::Null => "null"@,
        RequestId::Num(s) => s@,
        RequestId::Str(s) => wire_string(s@),
    }
}

/// A boolean on the wire.
pub open spec fn wire_bool(b: bool) -> Seq<char> {
    if b {
        "true"@
    } else {
        "false"@
    }
}

/// A server or client identity on the wire.
pub open spec fn wire_implementation(im: Implementation) -> Seq<char> {
    "{\"name\":"@ + wire_string(im.name@) + ",\"version\":"@ + wire_string(im.version@) + "}"@
}

/// The server capability set on the wire.
pub open spec fn wire_capabilities(c: ServerCapabilities) -> Seq<char> {
    if c.tools is Some {
        "{\"tools\":{}}"@
    } else {
        "{}"@
    }
}

/// One tool descriptor on the wire; its schema text is emitted
/// verbatim.
pub open spec fn wire_tool(t: Tool) -> Seq<char> {
    "{\"name\":"@ + wire_string(t.name@) + ",\"description\":"@ + wire_string(t.description@)
        + ",\"inputSchema\":"@ + t.input_schema@ + "}"@
}

/// A comma-separated run of tool descriptors.
pub open spec fn wire_tools(ts: Seq<Tool>) -> Seq<char>
    decreases ts.len(),
{
    if ts.len() == 0 {
        Seq::empty()
    } else if ts.len() == 1 {
        wire_tool(ts[0])
    } else {
        wire_tools(ts.drop_last()) + seq![','] + wire_tool(ts.last())
    }
}

/// One tool content block on the wire.
pub open spec fn wire_content(c: ToolContent) -> Seq<char> {
    "{\"type\":"@ + wire_string(c.content_type@) + ",\"text\":"@ + wire_string(c.text@) + "}"@
}

/// A comma-separated run of content blocks.
pub open spec fn wire_contents(cs: Seq<ToolContent>) -> Seq<char>
    decreases cs.len(),
{
    if cs.len() == 0 {
        Seq::empty()
    } else if cs.len() == 1 {
        wire_content(cs[0])
    } else {
        wire_contents(cs.drop_last()) + seq![','] + wire_content(cs.last())
    }
}

/// A result payload on the wire.
pub open spec fn wire_result(rb: ResultBody) -> Seq<char> {
    match rb {
        ResultBody::Init(ir) => "{\"protocolVersion\":"@ + wire_string(ir.protocol_version@)
            + ",\"capabilities\":"@ + wire_capabilities(ir.capabilities) + ",\"serverInfo\":"@
            + wire_implementation(ir.server_info) + "}"@,
        ResultBody::ToolList(tl) => "{\"tools\":["@ + wire_tools(tl.tools@) + "]}"@,
        ResultBody::ToolCall(tc) => "{\"content\":["@ + wire_contents(tc.content@) + "]"@ + (
        match tc.is_error {
            Some(b) => ",\"isError\":"@ + wire_bool(b),
            None => Seq::<char>::empty(),
        }) + "}"@,
    }
}

/// An error object on the wire; the detail text, when present, is
/// wrapped as a `details` member.
pub open spec fn wire_error(e: JsonRpcError) -> Seq<char> {
    "{\"code\":"@ + int_text(e.code as int) + ",\"message\":"@ + wire_string(e.message@) + (
    match e.data {
        Some(d) => ",\"data\":{\"details\":"@ + wire_string(d@) + "}"@,
        None => Seq::<char>::empty(),
    }) + "}"@
}

/// A whole response on the wire: the protocol tag, the echoed
/// identifier, then the result or the error — whichever is populated.
pub open spec fn wire_response(r: JsonRpcResponse) -> Seq<char> {
    "{\"jsonrpc\":"@ + wire_string(r.jsonrpc@) + ",\"id\":"@ + wire_id(r.id) + (
    match r.result {
        Some(rb) => ",\"result\":"@ + wire_result(rb),
        None => Seq::<char>::empty(),
    }) + (
    match r.error {
        Some(e) => ",\"error\":"@ + wire_error(e),
        None => Seq::<char>::empty(),
    }) + "}"@
}

/// Appends a JSON string literal holding `s`.
pub fn write_json_string(out: &mut String, s: &str)
    ensures
        final(out)@ == old(out)@ + wire_string(s@),
{
    push_char(out, '"');
    escape_into(out, s);
    push_char(out, '"');
    proof {
        assert(out@ =~= old(out)@ + wire_string(s@));
    }
}

/// Appends a request identifier.
fn write_request_id(out: &mut String, id: &RequestId)
    ensures
        final(out)@ == old(out)@ + wire_id(*id),
{
    match id {
        RequestId::Null => {
            out.append("null");
        },
        RequestId::Num(s) => {
            out.append(s.as_str());
        },
        RequestId::Str(s) => {
            write_json_string(out, s.as_str());
        },
    }
}

/// Appends a server or client identity.
fn write_implementation(out: &mut String, im: &Implementation)
    ensures
        final(out)@ == old(out)@ + wire_implementation(*im),
{
    out.append("{\"name\":");
    write_json_string(out, im.name.as_str());
    out.append(",\"version\":");
    write_json_string(out, im.version.as_str());
    out.append("}");
    proof {
        assert(out@ =~= old(out)@ + wire_implementation(*im));
    }
}

/// Appends one tool descriptor.
fn write_tool(out: &mut String, t: &Tool)
    ensures
        final(out)@ == old(out)@ + wire_tool(*t),
{
    out.append("{\"name\":");
    write_json_string(out, t.name.as_str());
    out.append(",\"description\":");
    write_json_string(out, t.description.as_str());
    out.append(",\"inputSchema\":");
    out.append(t.input_schema.as_str());
    out.append("}");
    proof {
        assert(out@ =~= old(out)@ + wire_tool(*t));
    }
}

/// Appends one content block.
fn write_content(out: &mut String, c: &ToolContent)
    ensures
        final(out)@ == old(out)@ + wire_content(*c),
{
    out.append("{\"type\":");
    write_json_string(out, c.content_type.as_str());
    out.append(",\"text\":");
    write_json_string(out, c.text.as_str());
    out.append("}");
    proof {
        assert(out@ =~= old(out)@ + wire_content(*c));
    }
}

/// Appends a result payload.
fn write_result(out: &mut String, rb: &ResultBody)
    ensures
        final(out)@ == old(out)@ + wire_result(*rb),
{
    match rb {
        ResultBody::Init(ir) => {
            out.append("{\"protocolVersion\":");
            write_json_string(out, ir.protocol_version.as_str());
            out.append(",\"capabilities\":");
            if ir.capabilities.tools.is_some() {
                out.append("{\"tools\":{}}");
            } else {
                out.append("{}");
            }
            out.append(",\"serverInfo\":");
            write_implementation(out, &ir.server_info);
            out.append("}");
            proof {
                assert(out@ =~= old(out)@ + wire_result(*rb));
            }
        },
        ResultBody::ToolList(tl) => {
            out.append("{\"tools\":[");
            let n = tl.tools.len();
            let mut i: usize = 0;
            while i < n
                invariant
                    i <= n,
                    n == tl.tools@.len(),
                    out@ == old(out)@ + "{\"tools\":["@ + wire_tools(tl.tools@.subrange(0, i as int)),
                decreases n - i,
            {
                if i > 0 {
                    push_char(out, ',');
                }
                write_tool(out, &tl.tools[i]);
                proof {
                    let pre = tl.tools@.subrange(0, i as int);
                    let cur = tl.tools@.subrange(0, i as int + 1);
                    assert(cur.drop_last() =~= pre);
                    assert(cur.last() == tl.tools@[i as int]);
                    assert(out@ =~= old(out)@ + "{\"tools\":["@ + wire_tools(cur));
                }
                i = i + 1;
            }
            out.append("]}");
            proof {
                assert(tl.tools@.subrange(0, n as int) =~= tl.tools@);
                assert(out@ =~= old(out)@ + wire_result(*rb));
            }
        },
        ResultBody::ToolCall(tc) => {
            out.append("{\"content\":[");
            let n = tc.content.len();
            let mut i: usize = 0;
            while i < n
                invariant
                    i <= n,
                    n == tc.content@.len(),
                    out@ == old(out)@ + "{\"content\":["@ + wire_contents(
                        tc.content@.subrange(0, i as int),
                    ),
                decreases n - i,
            {
                if i > 0 {
                    push_char(out, ',');
                }
                write_content(out, &tc.content[i]);
                proof {
                    let pre = tc.content@.subrange(0, i as int);
                    let cur = tc.content@.subrange(0, i as int + 1);
                    assert(cur.drop_last() =~= pre);
                    assert(cur.last() == tc.content@[i as int]);
                    assert(out@ =~= old(out)@ + "{\"content\":["@ + wire_contents(cur));
                }
                i = i + 1;
            }
            out.append("]");
            match &tc.is_error {
                Some(b) => {
                    out.append(",\"isError\":");
                    if *b {
                        out.append("true");
                    } else {
                        out.append("false");
                    }
                },
                None => {},
            }
            out.append("}");
            proof {
                assert(tc.content@.subrange(0, n as int) =~= tc.content@);
                assert(out@ =~= old(out)@ + wire_result(*rb));
            }
        },
    }
}

/// Appends an error object.
fn write_error(out: &mut String, e: &JsonRpcError)
    ensures
        final(out)@ == old(out)@ + wire_error(*e),
{
    out.append("{\"code\":");
    write_i32(out, e.code);
    out.append(",\"message\":");
    write_json_string(out, e.message.as_str());
    match &e.data {
        Some(d) => {
            out.append(",\"data\":{\"details\":");
            write_json_string(out, d.as_str());
            out.append("}");
        },
        None => {},
    }
    out.append("}");
    proof {
        assert(out@ =~= old(out)@ + wire_error(*e));
    }
}

/// The single text line that carries a response on the output stream,
/// exactly as `wire_response` says (without the trailing newline).
pub fn response_text(r: &JsonRpcResponse) -> (out: String)
    ensures
        out@ == wire_response(*r),
{
    let mut out = String::new();
    out.append("{\"jsonrpc\":");
    write_json_string(&mut out, r.jsonrpc.as_str());
    out.append(",\"id\":");
    write_request_id(&mut out, &r.id);
    match &r.result {
        Some(rb) => {
            out.append(",\"result\":");
            write_result(&mut out, rb);
        },
        None => {},
    }
    match &r.error {
        Some(e) => {
            out.append(",\"error\":");
            write_error(&mut out, e);
        },
        None => {},
    }
    out.append("}");
    proof {
        assert(out@ =~= wire_response(*r));
    }
    out
}

/// Character-exact comparison of two text slices.
pub fn str_eq(a: &str, b: &str) -> (r: bool)
    ensures
        r <==> a@ == b@,
{
    let n = a.unicode_len();
    let m = b.unicode_len();
    if n != m {
        return false;
    }
    let mut i: usize = 0;
    while i < n
        invariant
            i <= n,
            n == a@.len(),
            n == b@.len(),
            forall|k: int| 0 <= k < i ==> a@[k] == b@[k],
        decreases n - i,
    {
        if a.get_char(i) != b.get_char(i) {
            return false;
        }
        i = i + 1;
    }
    proof {
        assert(a@ =~= b@);
    }
    true
}

} // verus!
