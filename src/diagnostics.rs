//! The Verifier's diagnostics, read from the JSON lines that a Rust build
//! tool prints, and the Generator's reply read from a service's JSON body.

use vstd::prelude::*;
use crate::audit::opt_view;
use crate::text::{contains, contains_spec, lines, lines_spec};
use vstd::string::StringExecFns;

verus! {

/// One step of a path into a JSON value: a member of an object, or an
/// element of an array.
pub enum JsonStep {
    Key(String),
    Index(usize),
}

pub ghost enum JsonStepView {
    Key(Seq<char>),
    Index(nat),
}

impl View for JsonStep {
    type V = JsonStepView;

    open spec fn view(&self) -> JsonStepView {
        match self {
            JsonStep::Key(k) => JsonStepView::Key(k@),
            JsonStep::Index(i) => JsonStepView::Index(*i as nat),
        }
    }
}

pub open spec fn steps_view(p: Seq<JsonStep>) -> Seq<JsonStepView> {
    p.map_values(|s: JsonStep| s@)
}

/// The string that `serde_json` finds in `text` along `path`: the text parsed
/// as one JSON value (`from_str::<Value>`), followed step by step
/// (`Value::get`), then read as a string (`Value::as_str`).
pub uninterp spec fn json_text_at(text: Seq<char>, path: Seq<JsonStepView>) -> Option<Seq<char>>;

/// The length of the array that `serde_json` finds in `text` along `path`
/// (`from_str::<Value>`, `Value::get`, then `Value::as_array`).
pub uninterp spec fn json_len_at(text: Seq<char>, path: Seq<JsonStepView>) -> Option<nat>;

/// Relies on `serde_json::from_str::<Value>`, `Value::get` and `Value::as_str`:
/// `None` where the text is not JSON, a step is missing, or the end is no string.
#[verifier::external_body]
fn text_at(text: &str, path: &Vec<JsonStep>) -> (r: Option<String>)
    ensures
        opt_view(r) == json_text_at(text@, steps_view(path@)),
{
    let root: serde_json::Value = serde_json::from_str(text).ok()?;
    let mut v = &root;
    for step in path.iter() {
        v = match step {
            JsonStep::Key(k) => v.get(k.as_str())?,
            JsonStep::Index(i) => v.get(*i)?,
        };
    }
    v.as_str().map(|s| s.to_string())
}

/// Relies on `serde_json::from_str::<Value>`, `Value::get` and `Value::as_array`:
/// `None` where the text is not JSON, a step is missing, or the end is no array.
#[verifier::external_body]
fn len_at(text: &str, path: &Vec<JsonStep>) -> (r: Option<usize>)
    ensures
        match r {
            Some(n) => json_len_at(text@, steps_view(path@)) == Some(n as nat),
            None => json_len_at(text@, steps_view(path@)) is None,
        },
{
    let root: serde_json::Value = serde_json::from_str(text).ok()?;
    let mut v = &root;
    for step in path.iter() {
        v = match step {
            JsonStep::Key(k) => v.get(k.as_str())?,
            JsonStep::Index(i) => v.get(*i)?,
        };
    }
    v.as_array().map(|a| a.len())
}

pub open spec fn key(k: &str) -> JsonStepView {
    JsonStepView::Key(k@)
}

fn push_key(p: &mut Vec<JsonStep>, k: &str)
    ensures
        steps_view(final(p)@) == steps_view(old(p)@).push(JsonStepView::Key(k@)),
{
    let ghost before = p@;
    p.push(JsonStep::Key(k.to_owned()));
    proof {
        assert(steps_view(p@) =~= steps_view(before).push(JsonStepView::Key(k@)));
    }
}

fn push_index(p: &mut Vec<JsonStep>, i: usize)
    ensures
        steps_view(final(p)@) == steps_view(old(p)@).push(JsonStepView::Index(i as nat)),
{
    let ghost before = p@;
    p.push(JsonStep::Index(i));
    proof {
        assert(steps_view(p@) =~= steps_view(before).push(JsonStepView::Index(i as nat)));
    }
}

fn empty_path() -> (p: Vec<JsonStep>)
    ensures
        steps_view(p@) == Seq::<JsonStepView>::empty(),
{
    let p: Vec<JsonStep> = Vec::new();
    proof {
        assert(steps_view(p@) =~= Seq::<JsonStepView>::empty());
    }
    p
}

/// `choices[0].message.content`: the reply of a chat-completion body.
pub open spec fn chat_path() -> Seq<JsonStepView> {
    seq![key("choices"), JsonStepView::Index(0), key("message"), key("content")]
}

/// `content[0].text`: the reply of a messages body.
pub open spec fn message_path() -> Seq<JsonStepView> {
    seq![key("content"), JsonStepView::Index(0), key("text")]
}

/// `response`: the reply of a generate body.
pub open spec fn generate_path() -> Seq<JsonStepView> {
    seq![key("response")]
}

/// `candidates[0].content.parts`: the parts of a generate-content body.
pub open spec fn parts_path() -> Seq<JsonStepView> {
    seq![key("candidates"), JsonStepView::Index(0), key("content"), key("parts")]
}

/// `rendered`: the text of a build tool's diagnostic line.
pub open spec fn rendered_path() -> Seq<JsonStepView> {
    seq![key("rendered")]
}

/// `reason`: the kind of a build tool's JSON line.
pub open spec fn reason_path() -> Seq<JsonStepView> {
    seq![key("reason")]
}

/// `message.rendered`: the text of a build tool's compiler message.
pub open spec fn message_rendered_path() -> Seq<JsonStepView> {
    seq![key("message"), key("rendered")]
}

/// Most diagnostics kept from one Verifier run.
pub const MAX_DIAGNOSTICS: usize = 20;

/// Whether a rendered message is an error about the file `file_path`.
pub open spec fn concerns_spec(rendered: Seq<char>, file_path: Seq<char>) -> bool {
    contains_spec(rendered, file_path) && contains_spec(rendered, "err"@)
}

pub fn concerns(rendered: &str, file_path: &str) -> (r: bool)
    ensures
        r == concerns_spec(rendered@, file_path@),
{
    contains(rendered, file_path) && contains(rendered, "err")
}

/// The messages of `found` that concern `file_path`, in order.
pub open spec fn relevant(found: Seq<Seq<char>>, file_path: Seq<char>) -> Seq<Seq<char>> {
    found.filter(|m: Seq<char>| concerns_spec(m, file_path))
}

/// At most the first `MAX_DIAGNOSTICS` of `d`.
pub open spec fn capped(d: Seq<Seq<char>>) -> Seq<Seq<char>> {
    if d.len() <= MAX_DIAGNOSTICS {
        d
    } else {
        d.take(MAX_DIAGNOSTICS as int)
    }
}

/// The diagnostics kept from the rendered messages `found`: those about the
/// file `file_path`, at most `MAX_DIAGNOSTICS` of them, in order.
pub fn select_diagnostics(found: &Vec<String>, file_path: &str) -> (d: Vec<String>)
    ensures
        d.deep_view() == capped(relevant(found.deep_view(), file_path@)),
{
    let mut d: Vec<String> = Vec::new();
    let mut i: usize = 0;
    while i < found.len()
        invariant
            0 <= i <= found.len(),
            d.deep_view() == relevant(found.deep_view().take(i as int), file_path@),
        decreases found.len() - i,
    {
        let ghost prefix = found.deep_view().take(i as int);
        proof {
            assert(found.deep_view().take(i as int + 1) =~= prefix.push(found.deep_view()[i as int]));
            prefix.lemma_filter_push(found.deep_view()[i as int], |m: Seq<char>| concerns_spec(m, file_path@));
        }
        if concerns(found[i].as_str(), file_path) {
            let ghost old_d = d.deep_view();
            d.push(found[i].clone());
            proof {
                assert(d.deep_view() =~= old_d.push(found.deep_view()[i as int]));
            }
        }
        i = i + 1;
    }
    proof {
        assert(found.deep_view().take(i as int) =~= found.deep_view());
    }
    cap(d)
}

/// At most the first `MAX_DIAGNOSTICS` of `d`.
pub fn cap(d: Vec<String>) -> (r: Vec<String>)
    ensures
        r.deep_view() == capped(d.deep_view()),
{
    let mut r = d;
    if r.len() > MAX_DIAGNOSTICS {
        let ghost before = r.deep_view();
        r.truncate(MAX_DIAGNOSTICS);
        proof {
            assert(r.deep_view() =~= capped(before));
        }
    }
    r
}

/// The string at `path` of each of the JSON texts `ls` that has one, in order.
pub open spec fn texts_at(ls: Seq<Seq<char>>, path: Seq<JsonStepView>) -> Seq<Seq<char>>
    decreases ls.len(),
{
    if ls.len() == 0 {
        Seq::empty()
    } else {
        let rest = texts_at(ls.drop_last(), path);
        match json_text_at(ls.last(), path) {
            Some(t) => rest.push(t),
            None => rest,
        }
    }
}

/// The rendered text of each compiler message among the JSON texts `ls`, in order.
pub open spec fn compiler_texts(ls: Seq<Seq<char>>) -> Seq<Seq<char>>
    decreases ls.len(),
{
    if ls.len() == 0 {
        Seq::empty()
    } else {
        let rest = compiler_texts(ls.drop_last());
        if json_text_at(ls.last(), reason_path()) == Some("compiler-message"@) {
            match json_text_at(ls.last(), message_rendered_path()) {
                Some(t) => rest.push(t),
                None => rest,
            }
        } else {
            rest
        }
    }
}

/// The `rendered` text of each JSON line of a build tool's output that has
/// one, in order; lines that are not JSON, or have no such text, are skipped.
pub fn rendered_messages(output: &str) -> (found: Vec<String>)
    ensures
        found.deep_view() == texts_at(lines_spec(output@), rendered_path()),
{
    let all = lines(output);
    let mut path = empty_path();
    push_key(&mut path, "rendered");
    proof {
        reveal_strlit("rendered");
        assert(steps_view(path@) =~= rendered_path());
    }
    let mut found: Vec<String> = Vec::new();
    let mut i: usize = 0;
    while i < all.len()
        invariant
            0 <= i <= all.len(),
            all.deep_view() == lines_spec(output@),
            steps_view(path@) == rendered_path(),
            found.deep_view() == texts_at(all.deep_view().take(i as int), rendered_path()),
        decreases all.len() - i,
    {
        proof {
            assert(all.deep_view().take(i as int + 1).drop_last() =~= all.deep_view().take(i as int));
        }
        let ghost before = found.deep_view();
        if let Some(t) = text_at(all[i].as_str(), &path) {
            found.push(t);
            proof {
                assert(found.deep_view() =~= before.push(t@));
            }
        }
        i = i + 1;
    }
    proof {
        assert(all.deep_view().take(i as int) =~= all.deep_view());
    }
    found
}

/// The Verifier's diagnostics on the file `file_path` from a build tool's JSON
/// output: rendered messages that name the file and an error, at most
/// `MAX_DIAGNOSTICS` of them, in order.
pub fn diagnostics_from_output(output: &str, file_path: &str) -> (d: Vec<String>)
    ensures
        d.deep_view() == capped(relevant(texts_at(lines_spec(output@), rendered_path()), file_path@)),
{
    let found = rendered_messages(output);
    select_diagnostics(&found, file_path)
}

/// The rendered text of every `compiler-message` JSON line of a build tool's
/// output, in order, at most `MAX_DIAGNOSTICS` of them.
pub fn compiler_messages(output: &str) -> (found: Vec<String>)
    ensures
        found.deep_view() == capped(compiler_texts(lines_spec(output@))),
{
    let all = lines(output);
    let mut reason = empty_path();
    push_key(&mut reason, "reason");
    let mut rendered = empty_path();
    push_key(&mut rendered, "message");
    push_key(&mut rendered, "rendered");
    let wanted = "compiler-message".to_owned();
    proof {
        reveal_strlit("reason");
        reveal_strlit("message");
        reveal_strlit("rendered");
        assert(steps_view(reason@) =~= reason_path());
        assert(steps_view(rendered@) =~= message_rendered_path());
    }
    let mut found: Vec<String> = Vec::new();
    let mut i: usize = 0;
    while i < all.len()
        invariant
            0 <= i <= all.len(),
            all.deep_view() == lines_spec(output@),
            steps_view(reason@) == reason_path(),
            steps_view(rendered@) == message_rendered_path(),
            wanted@ == "compiler-message"@,
            found.deep_view() == compiler_texts(all.deep_view().take(i as int)),
        decreases all.len() - i,
    {
        proof {
            assert(all.deep_view().take(i as int + 1).drop_last() =~= all.deep_view().take(i as int));
        }
        let ghost before = found.deep_view();
        let is_message = match text_at(all[i].as_str(), &reason) {
            Some(t) => t.eq(&wanted),
            None => false,
        };
        if is_message {
            if let Some(t) = text_at(all[i].as_str(), &rendered) {
                found.push(t);
                proof {
                    assert(found.deep_view() =~= before.push(t@));
                }
            }
        }
        i = i + 1;
    }
    proof {
        assert(all.deep_view().take(i as int) =~= all.deep_view());
    }
    cap(found)
}

/// The text of the first choice of a chat-completion reply body
/// (`choices[0].message.content`), if the body has that shape.
pub fn chat_reply_text(body: &str) -> (r: Option<String>)
    ensures
        opt_view(r) == json_text_at(body@, chat_path()),
{
    let mut path = empty_path();
    push_key(&mut path, "choices");
    push_index(&mut path, 0);
    push_key(&mut path, "message");
    push_key(&mut path, "content");
    proof {
        assert(steps_view(path@) =~= chat_path());
    }
    text_at(body, &path)
}

/// The text of the first content block of a messages reply body
/// (`content[0].text`), if the body has that shape.
pub fn message_reply_text(body: &str) -> (r: Option<String>)
    ensures
        opt_view(r) == json_text_at(body@, message_path()),
{
    let mut path = empty_path();
    push_key(&mut path, "content");
    push_index(&mut path, 0);
    push_key(&mut path, "text");
    proof {
        assert(steps_view(path@) =~= message_path());
    }
    text_at(body, &path)
}

/// The `response` text of a generate reply body, if it has one.
pub fn generate_reply_text(body: &str) -> (r: Option<String>)
    ensures
        opt_view(r) == json_text_at(body@, generate_path()),
{
    let mut path = empty_path();
    push_key(&mut path, "response");
    proof {
        assert(steps_view(path@) =~= generate_path());
    }
    text_at(body, &path)
}

/// The `text` of the part at `index` of a generate-content body.
pub open spec fn part_path(index: nat) -> Seq<JsonStepView> {
    parts_path().push(JsonStepView::Index(index)).push(key("text"))
}

/// The texts of the first `k` parts of a generate-content body, joined; a
/// part without text adds nothing.
pub open spec fn part_texts(body: Seq<char>, k: nat) -> Seq<char>
    decreases k,
{
    if k == 0 {
        Seq::empty()
    } else {
        part_texts(body, (k - 1) as nat) + match json_text_at(body, part_path((k - 1) as nat)) {
            Some(t) => t,
            None => Seq::empty(),
        }
    }
}

/// The joined texts of all parts of a generate-content body's first candidate.
pub open spec fn parts_reply_spec(body: Seq<char>) -> Seq<char> {
    part_texts(
        body,
        match json_len_at(body, parts_path()) {
            Some(n) => n,
            None => 0,
        },
    )
}

/// The texts of all parts of the first candidate of a generate-content body
/// (`candidates[0].content.parts[i].text`), joined; `None` when that is empty.
pub fn parts_reply_text(body: &str) -> (r: Option<String>)
    ensures
        parts_reply_spec(body@).len() == 0 ==> r is None,
        parts_reply_spec(body@).len() > 0 ==> opt_view(r) == Some(parts_reply_spec(body@)),
{
    let mut parts = empty_path();
    push_key(&mut parts, "candidates");
    push_index(&mut parts, 0);
    push_key(&mut parts, "content");
    push_key(&mut parts, "parts");
    proof {
        assert(steps_view(parts@) =~= parts_path());
    }
    let n: usize = match len_at(body, &parts) {
        Some(n) => n,
        None => 0,
    };
    let mut joined = String::new();
    let mut i: usize = 0;
    while i < n
        invariant
            0 <= i <= n,
            n == (match json_len_at(body@, parts_path()) {
                Some(m) => m,
                None => 0,
            }),
            steps_view(parts@) == parts_path(),
            joined@ == part_texts(body@, i as nat),
        decreases n - i,
    {
        let mut path = empty_path();
        push_key(&mut path, "candidates");
        push_index(&mut path, 0);
        push_key(&mut path, "content");
        push_key(&mut path, "parts");
        push_index(&mut path, i);
        push_key(&mut path, "text");
        proof {
            assert(steps_view(path@) =~= part_path(i as nat));
        }
        match text_at(body, &path) {
            Some(t) => joined.append(t.as_str()),
            None => {
                proof {
                    assert(joined@ + Seq::<char>::empty() =~= joined@);
                }
            },
        }
        i = i + 1;
    }
    if joined.as_str().is_empty() {
        None
    } else {
        Some(joined)
    }
}

} // verus!
