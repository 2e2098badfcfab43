//! The request side of the remote protocol: the bearer header and the JSON
//! bodies sent to the inference and embedding endpoints.
use vstd::prelude::*;
use vstd::string::*;

verus! {

/// The hex digit of `d`, in lower case.
pub open spec fn hex_char(d: nat) -> char {
    seq!['0', '1', '2', '3', '4', '5', '6', '7', '8', '9', 'a', 'b', 'c', 'd', 'e', 'f'][d as int]
}

/// How one character stands inside a JSON string literal: quote and
/// backslash behind a backslash, the five control characters that have one
/// their short form, the other controls as `\u00xx`, all else as it is.
pub open spec fn escaped_char(c: char) -> Seq<char> {
    if c == '"' {
        seq!['\\', '"']
    } else if c == '\\' {
        seq!['\\', '\\']
    } else if c == '\u{8}' {
        seq!['\\', 'b']
    } else if c == '\t' {
        seq!['\\', 't']
    } else if c == '\n' {
        seq!['\\', 'n']
    } else if c == '\u{c}' {
        seq!['\\', 'f']
    } else if c == '\r' {
        seq!['\\', 'r']
    } else if (c as u32) < 32 {
        seq!['\\', 'u', '0', '0', hex_char((c as u32 / 16) as nat), hex_char((c as u32 % 16) as nat)]
    } else {
        seq![c]
    }
}

pub open spec fn escaped(s: Seq<char>) -> Seq<char>
    decreases s.len(),
{
    if s.len() == 0 {
        Seq::empty()
    } else {
        escaped(s.drop_last()) + escaped_char(s.last())
    }
}

/// The JSON string literal that holds the text `s`.
pub open spec fn json_string_of(s: Seq<char>) -> Seq<char> {
    seq!['"'] + escaped(s) + seq!['"']
}

/// Relies on serde_json::to_string on a string slice: a quote, each
/// character escaped as `escaped_char` says, a quote; writing into memory
/// does not fail.
#[verifier::external_body]
fn json_string(s: &str) -> (r: Option<String>)
    ensures
        r is Some,
        r matches Some(t) ==> t@ == json_string_of(s@),
{
    serde_json::to_string(s).ok()
}

/// A byte that an HTTP header value may hold, seen per character: a tab,
/// or any character from the space on but DEL (a character above ASCII is
/// encoded as bytes of 128 and above, which are all accepted).
pub open spec fn header_char_ok(c: char) -> bool {
    c == '\t' || (c as u32 >= 32 && c as u32 != 127)
}

pub open spec fn header_text_ok(s: Seq<char>) -> bool {
    forall|i: int| 0 <= i < s.len() ==> #[trigger] header_char_ok(s[i])
}

/// Relies on http::HeaderValue::from_str: it accepts the text exactly when
/// every byte is a tab, or at least 32 and not 127.
#[verifier::external_body]
fn header_value_ok(s: &str) -> (r: bool)
    ensures
        r <==> header_text_ok(s@),
{
    http::HeaderValue::from_str(s).is_ok()
}

/// The value of the `authorization` header for a token.
pub open spec fn bearer_text(token: Seq<char>) -> Seq<char> {
    "bearer "@ + token
}

/// The `authorization` header text for a token.
pub fn bearer(token: &String) -> (r: String)
    ensures
        r@ == bearer_text(token@),
{
    let mut r = String::from_str("bearer ");
    r.append(token.as_str());
    r
}

/// The `authorization` header value for a token, or `None` where the text
/// cannot stand in a header.
pub fn authorization_header(token: &String) -> (r: Option<String>)
    ensures
        r is Some <==> header_text_ok(bearer_text(token@)),
        r matches Some(t) ==> t@ == bearer_text(token@),
{
    let text = bearer(token);
    if header_value_ok(text.as_str()) {
        Some(text)
    } else {
        None
    }
}

pub open spec fn digit_char(d: nat) -> char {
    seq!['0', '1', '2', '3', '4', '5', '6', '7', '8', '9'][d as int]
}

/// The decimal digits of `n`, most significant first, without leading zeros.
pub open spec fn decimal(n: nat) -> Seq<char>
    decreases n,
{
    if n < 10 {
        seq![digit_char(n)]
    } else {
        decimal(n / 10).push(digit_char(n % 10))
    }
}

fn digit_str(d: u32) -> (r: &'static str)
    requires
        d < 10,
    ensures
        r@ == seq![digit_char(d as nat)],
{
    proof {
        reveal_strlit("0");
        reveal_strlit("1");
        reveal_strlit("2");
        reveal_strlit("3");
        reveal_strlit("4");
        reveal_strlit("5");
        reveal_strlit("6");
        reveal_strlit("7");
        reveal_strlit("8");
        reveal_strlit("9");
    }
    let r = match d {
        0 => "0",
        1 => "1",
        2 => "2",
        3 => "3",
        4 => "4",
        5 => "5",
        6 => "6",
        7 => "7",
        8 => "8",
        _ => "9",
    };
    assert(r@ =~= seq![digit_char(d as nat)]);
    r
}

/// Appends the decimal digits of `n`.
pub fn push_decimal(out: &mut String, n: u32)
    ensures
        final(out)@ == old(out)@ + decimal(n as nat),
    decreases n,
{
    if n >= 10 {
        push_decimal(out, n / 10);
    }
    out.append(digit_str(n % 10));
    assert(final(out)@ =~= old(out)@ + decimal(n as nat));
}

/// The generation parameters of one inference call. The three real-valued
/// parameters are carried as the JSON number text that stands for them on
/// the wire.
#[derive(Debug, Clone, PartialEq, Eq)]
pub struct InferencingParams {
    pub max_tokens: u32,
    pub repeat_penalty: String,
    pub repeat_penalty_last_n_token_count: u32,
    pub temperature: String,
    pub top_k: u32,
    pub top_p: String,
}

/// The `options` object of an inference request, fields in wire naming.
pub open spec fn options_json(o: InferencingParams) -> Seq<char> {
    "{\"maxTokens\":"@ + decimal(o.max_tokens as nat)
        + ",\"repeatPenalty\":"@ + o.repeat_penalty@
        + ",\"repeatPenaltyLastNTokenCount\":"@ + decimal(o.repeat_penalty_last_n_token_count as nat)
        + ",\"temperature\":"@ + o.temperature@
        + ",\"topK\":"@ + decimal(o.top_k as nat)
        + ",\"topP\":"@ + o.top_p@
        + "}"@
}

/// An inference request body around already encoded texts: the model, the
/// options object and the prompt, keys in sorted order.
pub open spec fn infer_frame(encoded_model: Seq<char>, o: InferencingParams, encoded_prompt: Seq<char>) -> Seq<char> {
    "{\"model\":"@ + encoded_model
        + ",\"options\":"@ + options_json(o)
        + ",\"prompt\":"@ + encoded_prompt
        + "}"@
}

/// The body of an inference request for a model, a prompt and options.
pub open spec fn infer_body(model: Seq<char>, prompt: Seq<char>, o: InferencingParams) -> Seq<char> {
    infer_frame(json_string_of(model), o, json_string_of(prompt))
}

/// The pieces, separated by commas.
pub open spec fn comma_joined(items: Seq<Seq<char>>) -> Seq<char>
    decreases items.len(),
{
    if items.len() == 0 {
        Seq::empty()
    } else if items.len() == 1 {
        items[0]
    } else {
        comma_joined(items.drop_last()) + ","@ + items.last()
    }
}

pub open spec fn texts(v: Seq<String>) -> Seq<Seq<char>> {
    v.map_values(|s: String| s@)
}

pub open spec fn json_strings(v: Seq<Seq<char>>) -> Seq<Seq<char>> {
    v.map_values(|t: Seq<char>| json_string_of(t))
}

/// An embedding request body around already encoded texts: the input array
/// and the model, keys in sorted order.
pub open spec fn embed_frame(encoded_inputs: Seq<Seq<char>>, encoded_model: Seq<char>) -> Seq<char> {
    "{\"input\":["@ + comma_joined(encoded_inputs) + "],\"model\":"@ + encoded_model + "}"@
}

/// The body of an embedding request for a model and its input texts.
pub open spec fn embed_body(model: Seq<char>, inputs: Seq<Seq<char>>) -> Seq<char> {
    embed_frame(json_strings(inputs), json_string_of(model))
}

fn push_options(out: &mut String, o: &InferencingParams)
    ensures
        final(out)@ == old(out)@ + options_json(*o),
{
    out.append("{\"maxTokens\":");
    push_decimal(out, o.max_tokens);
    out.append(",\"repeatPenalty\":");
    out.append(o.repeat_penalty.as_str());
    out.append(",\"repeatPenaltyLastNTokenCount\":");
    push_decimal(out, o.repeat_penalty_last_n_token_count);
    out.append(",\"temperature\":");
    out.append(o.temperature.as_str());
    out.append(",\"topK\":");
    push_decimal(out, o.top_k);
    out.append(",\"topP\":");
    out.append(o.top_p.as_str());
    out.append("}");
    assert(final(out)@ =~= old(out)@ + options_json(*o));
}

/// Frames an inference request body around the JSON literals of the model
/// and of the prompt.
pub fn frame_infer_body(encoded_model: &String, options: &InferencingParams, encoded_prompt: &String) -> (r: String)
    ensures
        r@ == infer_frame(encoded_model@, *options, encoded_prompt@),
{
    let mut out = String::from_str("{\"model\":");
    out.append(encoded_model.as_str());
    out.append(",\"options\":");
    push_options(&mut out, options);
    out.append(",\"prompt\":");
    out.append(encoded_prompt.as_str());
    out.append("}");
    assert(out@ =~= infer_frame(encoded_model@, *options, encoded_prompt@));
    out
}

/// Frames an embedding request body around the JSON literals of the inputs
/// and of the model.
pub fn frame_embed_body(encoded_inputs: &Vec<String>, encoded_model: &String) -> (r: String)
    ensures
        r@ == embed_frame(texts(encoded_inputs@), encoded_model@),
{
    let ghost all = texts(encoded_inputs@);
    let mut out = String::from_str("{\"input\":[");
    let ghost start = out@;
    let mut i: usize = 0;
    while i < encoded_inputs.len()
        invariant
            i <= encoded_inputs@.len(),
            all == texts(encoded_inputs@),
            out@ == start + comma_joined(all.take(i as int)),
        decreases encoded_inputs@.len() - i,
    {
        if i > 0 {
            out.append(",");
        }
        out.append(encoded_inputs[i].as_str());
        proof {
            let t = all.take(i as int + 1);
            assert(t.drop_last() =~= all.take(i as int));
            if i == 0 {
                assert(t =~= seq![all[0]]);
            }
        }
        i = i + 1;
        assert(out@ =~= start + comma_joined(all.take(i as int)));
    }
    assert(all.take(i as int) =~= all);
    out.append("],\"model\":");
    out.append(encoded_model.as_str());
    out.append("}");
    assert(out@ =~= embed_frame(texts(encoded_inputs@), encoded_model@));
    out
}

/// The JSON body of an inference request, or `None` where a text could not
/// be encoded.
pub fn infer_request_body(model: &String, prompt: &String, options: &InferencingParams) -> (r: Option<String>)
    ensures
        r is Some,
        r matches Some(b) ==> b@ == infer_body(model@, prompt@, *options),
{
    let encoded_model = match json_string(model.as_str()) {
        Some(t) => t,
        None => {
            return None;
        },
    };
    let encoded_prompt = match json_string(prompt.as_str()) {
        Some(t) => t,
        None => {
            return None;
        },
    };
    Some(frame_infer_body(&encoded_model, options, &encoded_prompt))
}

/// The JSON body of an embedding request, or `None` where a text could not
/// be encoded.
pub fn embed_request_body(model: &String, inputs: &Vec<String>) -> (r: Option<String>)
    ensures
        r is Some,
        r matches Some(b) ==> b@ == embed_body(model@, texts(inputs@)),
{
    let mut encoded: Vec<String> = Vec::new();
    let mut i: usize = 0;
    while i < inputs.len()
        invariant
            i <= inputs@.len(),
            texts(encoded@) == json_strings(texts(inputs@).take(i as int)),
        decreases inputs@.len() - i,
    {
        let t = match json_string(inputs[i].as_str()) {
            Some(t) => t,
            None => {
                return None;
            },
        };
        let ghost prev = encoded@;
        let ghost text = t@;
        encoded.push(t);
        proof {
            assert(texts(encoded@) =~= texts(prev).push(text));
            assert(json_strings(texts(inputs@).take(i as int + 1)) =~= json_strings(
                texts(inputs@).take(i as int),
            ).push(json_string_of(inputs@[i as int]@)));
        }
        i = i + 1;
    }
    assert(texts(inputs@).take(i as int) =~= texts(inputs@));
    let encoded_model = match json_string(model.as_str()) {
        Some(t) => t,
        None => {
            return None;
        },
    };
    Some(frame_embed_body(&encoded, &encoded_model))
}

} // verus!
