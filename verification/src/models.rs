//! Whether the embedding model is among the models the local Ollama daemon
//! lists. The daemon's `/api/tags` reply is parsed as JSON; the decision reads
//! the `name` of each entry of its `models` array (`None` for an entry without
//! a string name), or finds no list at all when the reply is not JSON or has
//! no `models` array.
use vstd::prelude::*;

verus! {

/// The embedding model the launcher provisions.
pub const MODEL: &'static str = "bge-m3";

/// The part of a model name before its first `:` (the tag separator), or the
/// whole name when it has none.
pub open spec fn name_head(n: Seq<char>) -> Seq<char>
    decreases n.len(),
{
    if n.len() == 0 {
        n
    } else if n[0] == ':' {
        Seq::empty()
    } else {
        seq![n[0]] + name_head(n.drop_first())
    }
}

/// A listed name stands for `model` when it is `model` itself or `model`
/// with a tag (`model:tag`).
pub open spec fn names_model(n: Seq<char>, model: Seq<char>) -> bool {
    n == model || name_head(n) == model
}

/// Some entry of `names` stands for `model`.
pub open spec fn spec_model_listed(names: Seq<Option<Seq<char>>>, model: Seq<char>) -> bool {
    exists|i: int| 0 <= i < names.len() && (#[trigger] names[i] matches Some(n) && names_model(n, model))
}

proof fn lemma_name_head_at(n: Seq<char>, i: int)
    requires
        0 <= i <= n.len(),
        forall|j: int| 0 <= j < i ==> n[j] != ':',
        i == n.len() || n[i] == ':',
    ensures
        name_head(n) == n.subrange(0, i),
    decreases i,
{
    if i == 0 {
        if n.len() == 0 {
            assert(n.subrange(0, 0) =~= n);
        } else {
            assert(n.subrange(0, 0) =~= Seq::<char>::empty());
        }
    } else {
        let rest = n.drop_first();
        assert forall|j: int| 0 <= j < i - 1 implies rest[j] != ':' by {
            assert(rest[j] == n[j + 1]);
        }
        lemma_name_head_at(rest, i - 1);
        assert(n.subrange(0, i) =~= seq![n[0]] + rest.subrange(0, i - 1));
    }
}

/// The part of `n` before its first `:`.
pub fn head_of_name(n: &str) -> (head: String)
    ensures
        head@ == name_head(n@),
{
    let len = n.unicode_len();
    let mut i: usize = 0;
    while i < len
        invariant
            len == n@.len(),
            i <= len,
            forall|j: int| 0 <= j < i ==> n@[j] != ':',
        ensures
            i == len || n@[i as int] == ':',
        decreases len - i,
    {
        if n.get_char(i) == ':' {
            break;
        }
        i = i + 1;
    }
    proof {
        lemma_name_head_at(n@, i as int);
    }
    String::from_str(n.substring_char(0, i))
}

/// Whether the listed name `n` stands for `model`.
pub fn name_matches(n: &str, model: &str) -> (b: bool)
    ensures
        b == names_model(n@, model@),
{
    let wanted = String::from_str(model);
    if String::from_str(n) == wanted {
        return true;
    }
    head_of_name(n) == wanted
}

/// Whether some entry of `names` stands for `model`.
pub fn model_listed(names: &Vec<Option<String>>, model: &str) -> (b: bool)
    ensures
        b == spec_model_listed(names.deep_view(), model@),
{
    let n = names.len();
    for i in 0..n
        invariant
            n == names@.len(),
            forall|j: int|
                0 <= j < i ==> !(#[trigger] names.deep_view()[j] matches Some(nm) && names_model(
                    nm,
                    model@,
                )),
    {
        match &names[i] {
            Some(name) => {
                if name_matches(name.as_str(), model) {
                    assert(names.deep_view()[i as int] == Some(name@));
                    return true;
                }
            },
            None => {},
        }
        assert(names.deep_view()[i as int] == names@[i as int].deep_view());
    }
    false
}

/// The model is present when the daemon's reply lists it; a reply without a
/// model list (or no reply) means it is not.
pub open spec fn spec_model_present(models: Option<Seq<Option<Seq<char>>>>) -> bool {
    match models {
        Some(names) => spec_model_listed(names, MODEL@),
        None => false,
    }
}

/// Whether the embedding model is present, given the names the daemon lists.
pub fn model_present(models: &Option<Vec<Option<String>>>) -> (b: bool)
    ensures
        b == spec_model_present(models.deep_view()),
{
    match models {
        Some(names) => model_listed(names, MODEL),
        None => false,
    }
}

/// Entry `i` of the `models` array of the daemon's `/api/tags` reply `body`,
/// as `serde_json` parses it: `None` when `body` is not JSON or has no
/// `models` array; otherwise the array's length and entry `i`'s `name`
/// string (`None` when `i` is past the end or the entry has no string name).
pub uninterp spec fn spec_tags_reply_names(body: Seq<char>, i: usize) -> Option<(usize, Option<Seq<char>>)>;

/// Parses the `/api/tags` reply `body` with `serde_json::from_str` into a
/// `serde_json::Value` and reads out the length of its `models` array and the
/// `name` of entry `i` (telling the value's variants apart: an array of
/// models, a string name). Trusted: the result is whatever that parse gives,
/// a function of `body` and `i` alone; nothing about JSON syntax is stated.
#[verifier::external_body]
fn tags_reply_names(body: &str, i: usize) -> (entry: Option<(usize, Option<String>)>)
    ensures
        entry.deep_view() == spec_tags_reply_names(body@, i),
{
    let v: serde_json::Value = serde_json::from_str(body).ok()?;
    match &v["models"] {
        serde_json::Value::Array(models) => Some((
            models.len(),
            models.get(i).and_then(|m| match &m["name"] {
                serde_json::Value::String(n) => Some(n.clone()),
                _ => None,
            }),
        )),
        _ => None,
    }
}

/// Entry `i` of the reply's `models` array (of `n` entries) is named `model`
/// or `model:tag`.
pub open spec fn entry_names_model(body: Seq<char>, n: usize, i: usize, model: Seq<char>) -> bool {
    &&& i < n
    &&& spec_tags_reply_names(body, i) matches Some((_, Some(name)))
    &&& names_model(name, model)
}

/// Whether the daemon's `/api/tags` reply `body` lists the embedding model:
/// true exactly when the reply has a `models` array (of `n` entries) and
/// some entry, at any index below `n`, is named `bge-m3` or `bge-m3:tag`.
pub fn model_present_in_reply(body: &str) -> (b: bool)
    ensures
        b <==> (spec_tags_reply_names(body@, 0) matches Some((n, _)) && exists|i: usize|
            #[trigger] entry_names_model(body@, n, i, MODEL@)),
{
    let n = match tags_reply_names(body, 0) {
        None => return false,
        Some((n, _)) => n,
    };
    let mut i: usize = 0;
    while i < n
        invariant
            i <= n,
            spec_tags_reply_names(body@, 0) matches Some((m, _)) && m == n,
            forall|j: usize| j < i ==> !#[trigger] entry_names_model(body@, n, j, MODEL@),
        decreases n - i,
    {
        match tags_reply_names(body, i) {
            Some((_, Some(name))) => {
                if name_matches(name.as_str(), MODEL) {
                    assert(entry_names_model(body@, n, i, MODEL@));
                    return true;
                }
            },
            _ => {},
        }
        i = i + 1;
    }
    false
}

/// Every entry counts, wherever it stands: a reply whose `models` array (of
/// `n` entries) holds, at any index `i < n`, an entry named `bge-m3` or
/// `bge-m3:tag` lists the model, whatever the other entries are.
pub proof fn lemma_any_listed_entry_counts(body: Seq<char>, n: usize, i: usize, tag: Seq<char>)
    requires
        spec_tags_reply_names(body, 0) matches Some((m, _)) && m == n,
        i < n,
        spec_tags_reply_names(body, i) matches Some((_, Some(name))) && (name == MODEL@ || name == MODEL@
            + seq![':'] + tag),
    ensures
        spec_tags_reply_names(body, 0) matches Some((m, _)) && exists|j: usize|
            #[trigger] entry_names_model(body, m, j, MODEL@),
{
    reveal_strlit("bge-m3");
    if let Some((_, Some(name))) = spec_tags_reply_names(body, i) {
        if name != MODEL@ {
            lemma_tagged_name_matches(MODEL@, tag);
        }
    }
    assert(entry_names_model(body, n, i, MODEL@));
}

/// A tagged name stands for its model: `model:tag` matches `model` when the
/// model name itself has no `:`.
pub proof fn lemma_tagged_name_matches(model: Seq<char>, tag: Seq<char>)
    requires
        forall|j: int| 0 <= j < model.len() ==> model[j] != ':',
    ensures
        names_model(model + seq![':'] + tag, model),
{
    let n = model + seq![':'] + tag;
    assert forall|j: int| 0 <= j < model.len() implies n[j] != ':' by {
        assert(n[j] == model[j]);
    }
    lemma_name_head_at(n, model.len() as int);
    assert(n.subrange(0, model.len() as int) =~= model);
}

} // verus!
