//! Values for the log, with what is secret in them left out.

use vstd::prelude::*;

use crate::text::{ascii_lowercase, contains_lowercase, occurs_in};
use crate::web::{
    pair_texts, query_pairs, redacted_mark, shifts_drive, url_query_pairs, url_with_query_pairs,
    with_query_pairs, URL_TEXT_LIMIT,
};

verus! {

/// A JSON value. A number is kept as it is written.
#[derive(Debug)]
pub enum Json {
    Null,
    Bool(bool),
    Number(String),
    String(String),
    Array(Vec<Json>),
    Object(Vec<(String, Json)>),
}

/// A JSON value over texts.
pub enum JsonView {
    Null,
    Bool(bool),
    Number(Seq<char>),
    String(Seq<char>),
    Array(Seq<JsonView>),
    Object(Seq<(Seq<char>, JsonView)>),
}

/// The texts of a JSON value.
pub open spec fn json_view(value: Json) -> JsonView
    decreases value,
{
    match value {
        Json::Null => JsonView::Null,
        Json::Bool(flag) => JsonView::Bool(flag),
        Json::Number(text) => JsonView::Number(text@),
        Json::String(text) => JsonView::String(text@),
        Json::Array(items) => JsonView::Array(
            Seq::new(
                items@.len(),
                |i: int|
                    if 0 <= i < items@.len() {
                        json_view(items@[i])
                    } else {
                        JsonView::Null
                    },
            ),
        ),
        Json::Object(entries) => JsonView::Object(
            Seq::new(
                entries@.len(),
                |i: int|
                    if 0 <= i < entries@.len() {
                        (entries@[i].0@, json_view(entries@[i].1))
                    } else {
                        (Seq::empty(), JsonView::Null)
                    },
            ),
        ),
    }
}

impl View for Json {
    type V = JsonView;

    open spec fn view(&self) -> JsonView {
        json_view(*self)
    }
}

/// A name that holds the word `token`, in any ASCII case.
pub open spec fn names_token(name: Seq<char>) -> bool {
    occurs_in(ascii_lowercase(name), "token"@)
}

/// A name whose value is secret.
pub open spec fn names_secret(name: Seq<char>) -> bool {
    let lower = ascii_lowercase(name);
    ||| occurs_in(lower, "token"@)
    ||| occurs_in(lower, "authorization"@)
    ||| occurs_in(lower, "cookie"@)
    ||| occurs_in(lower, "password"@)
    ||| occurs_in(lower, "secret"@)
}

/// The pairs of a query, with the values of tokens left out.
pub open spec fn redacted_pairs(pairs: Seq<(Seq<char>, Seq<char>)>) -> Seq<
    (Seq<char>, Seq<char>),
> {
    Seq::new(
        pairs.len(),
        |i: int|
            (
                pairs[i].0,
                if names_token(pairs[i].0) {
                    redacted_mark()
                } else {
                    pairs[i].1
                },
            ),
    )
}

/// Some pair of the query is a token.
pub open spec fn has_token(pairs: Seq<(Seq<char>, Seq<char>)>) -> bool {
    exists|i: int| 0 <= i < pairs.len() && names_token(#[trigger] pairs[i].0)
}

/// `text`, with the tokens in its query left out where it is a URL.
pub open spec fn redacted_text(text: Seq<char>) -> Seq<char> {
    match url_query_pairs(text) {
        Some(pairs) if has_token(pairs) => url_with_query_pairs(text, redacted_pairs(pairs))->0,
        _ => text,
    }
}

/// Where `text` is a URL, every token in its query is marked as left out.
pub open spec fn tokens_hidden(text: Seq<char>) -> bool {
    url_query_pairs(text) matches Some(pairs) ==> forall|i: int|
        0 <= i < pairs.len() && names_token((#[trigger] pairs[i]).0) ==> pairs[i].1
            == redacted_mark()
}

/// `text` is no `file` URL with a token whose drive letter is read otherwise than it
/// is written.
pub open spec fn settles(text: Seq<char>) -> bool {
    !(shifts_drive(text) && (url_query_pairs(text) matches Some(pairs) && has_token(pairs)))
}

impl JsonView {
    /// No text that is looked at in the value is a `file` URL with a token whose drive
    /// letter is read otherwise than it is written.
    pub open spec fn texts_settle(self) -> bool
        decreases self,
    {
        match self {
            JsonView::String(text) => settles(text),
            JsonView::Array(items) => forall|i: int|
                0 <= i < items.len() ==> (#[trigger] items[i]).texts_settle(),
            JsonView::Object(entries) => forall|i: int|
                0 <= i < entries.len() && !names_secret((#[trigger] entries[i]).0)
                    ==> entries[i].1.texts_settle(),
            _ => true,
        }
    }

    /// The value, with what is secret in it left out.
    pub open spec fn redacted(self) -> JsonView
        decreases self,
    {
        match self {
            JsonView::String(text) => JsonView::String(redacted_text(text)),
            JsonView::Array(items) => JsonView::Array(
                Seq::new(
                    items.len(),
                    |i: int|
                        if 0 <= i < items.len() {
                            items[i].redacted()
                        } else {
                            JsonView::Null
                        },
                ),
            ),
            JsonView::Object(entries) => JsonView::Object(
                Seq::new(
                    entries.len(),
                    |i: int|
                        if 0 <= i < entries.len() {
                            if names_secret(entries[i].0) {
                                (entries[i].0, JsonView::String(redacted_mark()))
                            } else {
                                (entries[i].0, entries[i].1.redacted())
                            }
                        } else {
                            (Seq::empty(), JsonView::Null)
                        },
                ),
            ),
            other => other,
        }
    }

    /// Nothing secret is left in the value: every value under a secret name is
    /// marked as left out, and so is every token in the query of a URL.
    pub open spec fn secrets_hidden(self) -> bool
        decreases self,
    {
        match self {
            JsonView::String(text) => tokens_hidden(text),
            JsonView::Array(items) => forall|i: int|
                0 <= i < items.len() ==> (#[trigger] items[i]).secrets_hidden(),
            JsonView::Object(entries) => forall|i: int|
                0 <= i < entries.len() ==> if names_secret((#[trigger] entries[i]).0) {
                    entries[i].1 == JsonView::String(redacted_mark())
                } else {
                    entries[i].1.secrets_hidden()
                },
            _ => true,
        }
    }

    /// No text that is looked at in the value is too long to be a URL.
    pub open spec fn texts_fit(self) -> bool
        decreases self,
    {
        match self {
            JsonView::String(text) => text.len() <= URL_TEXT_LIMIT,
            JsonView::Array(items) => forall|i: int|
                0 <= i < items.len() ==> (#[trigger] items[i]).texts_fit(),
            JsonView::Object(entries) => forall|i: int|
                0 <= i < entries.len() && !names_secret((#[trigger] entries[i]).0)
                    ==> entries[i].1.texts_fit(),
            _ => true,
        }
    }
}

/// Whether the value under `name` is secret.
fn secret_name(name: &str) -> (secret: bool)
    ensures
        secret == names_secret(name@),
{
    contains_lowercase(name, "token") || contains_lowercase(name, "authorization")
        || contains_lowercase(name, "cookie") || contains_lowercase(name, "password")
        || contains_lowercase(name, "secret")
}

/// The pairs of a query with the values of tokens left out, and whether there was
/// one.
pub fn redact_pairs(pairs: &Vec<(String, String)>) -> (result: (Vec<(String, String)>, bool))
    ensures
        pair_texts(result.0@) == redacted_pairs(pair_texts(pairs@)),
        result.1 == has_token(pair_texts(pairs@)),
{
    let ghost before = pair_texts(pairs@);
    let mut kept: Vec<(String, String)> = Vec::new();
    let mut changed = false;
    let mut i: usize = 0;
    while i < pairs.len()
        invariant
            before == pair_texts(pairs@),
            i <= pairs@.len(),
            pair_texts(kept@) == redacted_pairs(before).take(i as int),
            changed == exists|j: int| 0 <= j < i && names_token(#[trigger] before[j].0),
        decreases pairs@.len() - i,
    {
        let name = pairs[i].0.clone();
        let token = contains_lowercase(name.as_str(), "token");
        assert(before[i as int] == (pairs@[i as int].0@, pairs@[i as int].1@));
        assert(token == names_token(before[i as int].0));
        let value = if token {
            changed = true;
            "[REDACTED]".to_string()
        } else {
            pairs[i].1.clone()
        };
        let ghost kept_before = pair_texts(kept@);
        kept.push((name, value));
        assert(pair_texts(kept@) =~= kept_before.push((name@, value@)));
        assert(redacted_pairs(before).take(i + 1) =~= redacted_pairs(before).take(i as int).push(
            redacted_pairs(before)[i as int],
        ));
        i = i + 1;
    }
    assert(redacted_pairs(before).take(i as int) =~= redacted_pairs(before));
    (kept, changed)
}

/// `text`, with the tokens in its query left out where it is a URL.
fn redact_text(text: &String) -> (kept: String)
    requires
        text@.len() <= URL_TEXT_LIMIT,
    ensures
        kept@ == redacted_text(text@),
        tokens_hidden(kept@),
        settles(kept@) ==> redacted_text(kept@) == kept@,
{
    if let Some(pairs) = query_pairs(text.as_str()) {
        let (kept, changed) = redact_pairs(&pairs);
        proof {
            let once = redacted_pairs(pair_texts(pairs@));
            assert(redacted_pairs(once) =~= once);
        }
        if changed {
            if let Some(url) = with_query_pairs(text.as_str(), &kept) {
                return url;
            }
        }
    }
    text.clone()
}

/// An item of an array is smaller than the array.
proof fn lemma_array_decreases(value: Json, i: int)
    requires
        value is Array,
        0 <= i < value->Array_0@.len(),
    ensures
        decreases_to!(value => value->Array_0@[i]),
{
}

/// The value of an entry is smaller than the object.
proof fn lemma_object_decreases(value: Json, i: int)
    requires
        value is Object,
        0 <= i < value->Object_0@.len(),
    ensures
        decreases_to!(value => value->Object_0@[i].1),
{
    assert(decreases_to!(value->Object_0@ => value->Object_0@[i]));
    assert(decreases_to!(value->Object_0@[i] => value->Object_0@[i].1));
}

/// Leaves out what is secret in `value`: the values under secret names, and the
/// tokens in the queries of URLs. Leaving it out once more changes nothing, but in a
/// `file` URL with a token that begins with a drive letter and has a host or a dot
/// segment as well.
pub fn redact_json(value: &mut Json)
    requires
        old(value)@.texts_fit(),
    ensures
        final(value)@ == old(value)@.redacted(),
        final(value)@.secrets_hidden(),
        final(value)@.texts_settle() ==> final(value)@.redacted() == final(value)@,
    decreases *old(value),
{
    match value {
        Json::Object(entries) => {
            let ghost given = *entries;
            let ghost before = entries@;
            let ghost texts = old(value)@->Object_0;
            assert forall|j: int|
                0 <= j < before.len() && !names_secret((#[trigger] before[j]).0@) implies before[j].1@.texts_fit() by {
                assert(texts[j] == (before[j].0@, before[j].1@));
            }
            let mut i: usize = 0;
            while i < entries.len()
                invariant
                    *old(value) == Json::Object(given),
                    before == given@,
                    i <= entries@.len() == before.len(),
                    forall|j: int| i <= j < before.len() ==> entries@[j] == before[j],
                    forall|j: int|
                        0 <= j < before.len() && !names_secret((#[trigger] before[j]).0@)
                            ==> before[j].1@.texts_fit(),
                    forall|j: int|
                        0 <= j < i ==> {
                            &&& (#[trigger] entries@[j]).0@ == before[j].0@
                            &&& entries@[j].1@ == if names_secret(before[j].0@) {
                                JsonView::String(redacted_mark())
                            } else {
                                before[j].1@.redacted()
                            }
                            &&& !names_secret(before[j].0@) ==> entries@[j].1@.secrets_hidden()
                            &&& !names_secret(before[j].0@) && entries@[j].1@.texts_settle()
                                ==> entries@[j].1@.redacted() == entries@[j].1@
                        },
                decreases before.len() - i,
            {
                if secret_name(entries[i].0.as_str()) {
                    entries[i].1 = Json::String("[REDACTED]".to_string());
                } else {
                    proof {
                        lemma_object_decreases(*old(value), i as int);
                    }
                    redact_json(&mut entries[i].1);
                }
                i = i + 1;
            }
            let ghost after = Json::Object(*entries)@->Object_0;
            assert(forall|j: int|
                0 <= j < after.len() ==> #[trigger] after[j] == (
                    entries@[j].0@,
                    entries@[j].1@,
                ));
            assert(after =~= old(value)@.redacted()->Object_0);
            proof {
                if JsonView::Object(after).texts_settle() {
                    assert(JsonView::Object(after).redacted()->Object_0 =~= after);
                }
            }
        },
        Json::Array(items) => {
            let ghost given = *items;
            let ghost before = items@;
            let ghost texts = old(value)@->Array_0;
            assert forall|j: int| 0 <= j < before.len() implies (#[trigger] before[j])@.texts_fit() by {
                assert(texts[j] == before[j]@);
            }
            let mut i: usize = 0;
            while i < items.len()
                invariant
                    *old(value) == Json::Array(given),
                    before == given@,
                    i <= items@.len() == before.len(),
                    forall|j: int| i <= j < before.len() ==> items@[j] == before[j],
                    forall|j: int| 0 <= j < before.len() ==> (#[trigger] before[j])@.texts_fit(),
                    forall|j: int|
                        0 <= j < i ==> (#[trigger] items@[j])@ == before[j]@.redacted()
                            && items@[j]@.secrets_hidden() && (items@[j]@.texts_settle()
                            ==> items@[j]@.redacted() == items@[j]@),
                decreases before.len() - i,
            {
                proof {
                    lemma_array_decreases(*old(value), i as int);
                }
                redact_json(&mut items[i]);
                i = i + 1;
            }
            let ghost after = Json::Array(*items)@->Array_0;
            assert(forall|j: int| 0 <= j < after.len() ==> #[trigger] after[j] == items@[j]@);
            assert(after =~= old(value)@.redacted()->Array_0);
            proof {
                if JsonView::Array(after).texts_settle() {
                    assert(JsonView::Array(after).redacted()->Array_0 =~= after);
                }
            }
        },
        Json::String(text) => {
            *text = redact_text(text);
        },
        _ => {},
    }
}

/// What is left out changes no name and no order: an object keeps its names, an
/// array its length, and what is no text, array or object stays as it is.
pub proof fn law_redaction_keeps_the_shape(value: JsonView)
    ensures
        value matches JsonView::Object(entries) ==> {
            &&& value.redacted() is Object
            &&& value.redacted()->Object_0.len() == entries.len()
            &&& forall|i: int|
                0 <= i < entries.len() ==> #[trigger] value.redacted()->Object_0[i].0
                    == entries[i].0
        },
        value matches JsonView::Array(items) ==> {
            &&& value.redacted() is Array
            &&& value.redacted()->Array_0.len() == items.len()
        },
        value is String <==> value.redacted() is String,
        !(value is Object || value is Array || value is String) ==> value.redacted() == value,
{
}

/// A value under a secret name is left out whatever it is, and the mark that
/// stands for it depends on nothing in it.
pub proof fn law_secret_values_leave_no_trace(
    name: Seq<char>,
    one: JsonView,
    other: JsonView,
)
    requires
        names_secret(name),
    ensures
        JsonView::Object(seq![(name, one)]).redacted() == JsonView::Object(
            seq![(name, other)],
        ).redacted(),
        JsonView::Object(seq![(name, one)]).redacted() == JsonView::Object(
            seq![(name, JsonView::String(redacted_mark()))],
        ),
{
    let hidden = JsonView::Object(seq![(name, JsonView::String(redacted_mark()))]);
    assert(JsonView::Object(seq![(name, one)]).redacted()->Object_0 =~= hidden->Object_0);
    assert(JsonView::Object(seq![(name, other)]).redacted()->Object_0 =~= hidden->Object_0);
}

/// A name whose value is secret holds one of five words once its capitals are small
/// letters, wherever in it the word stands; a name that holds none of them is not secret.
pub proof fn law_five_words_make_a_name_secret(name: Seq<char>, before: Seq<char>, behind: Seq<char>)
    ensures
        ascii_lowercase(name) == before + "token"@ + behind ==> names_secret(name) && names_token(
            name,
        ),
        ascii_lowercase(name) == before + "authorization"@ + behind ==> names_secret(name),
        ascii_lowercase(name) == before + "cookie"@ + behind ==> names_secret(name),
        ascii_lowercase(name) == before + "password"@ + behind ==> names_secret(name),
        ascii_lowercase(name) == before + "secret"@ + behind ==> names_secret(name),
        names_secret(name) <==> (occurs_in(ascii_lowercase(name), "token"@) || occurs_in(
            ascii_lowercase(name),
            "authorization"@,
        ) || occurs_in(ascii_lowercase(name), "cookie"@) || occurs_in(
            ascii_lowercase(name),
            "password"@,
        ) || occurs_in(ascii_lowercase(name), "secret"@)),
        names_token(name) <==> occurs_in(ascii_lowercase(name), "token"@),
{
    crate::text::law_part_is_found_wherever_it_stands(before, "token"@, behind, name);
    crate::text::law_part_is_found_wherever_it_stands(before, "authorization"@, behind, name);
    crate::text::law_part_is_found_wherever_it_stands(before, "cookie"@, behind, name);
    crate::text::law_part_is_found_wherever_it_stands(before, "password"@, behind, name);
    crate::text::law_part_is_found_wherever_it_stands(before, "secret"@, behind, name);
}

/// Of a query the values of tokens are left out and nothing else: every name stays, and so
/// does every other value.
pub proof fn law_only_tokens_leave_a_query(pairs: Seq<(Seq<char>, Seq<char>)>, i: int)
    requires
        0 <= i < pairs.len(),
    ensures
        ({
            let kept = redacted_pairs(pairs);
            let token = occurs_in(ascii_lowercase(pairs[i].0), "token"@);
            &&& kept.len() == pairs.len()
            &&& kept[i].0 == pairs[i].0
            &&& token ==> kept[i].1 == "[REDACTED]"@ && has_token(pairs)
            &&& !token ==> kept[i].1 == pairs[i].1
        }),
        has_token(pairs) <==> exists|j: int|
            0 <= j < pairs.len() && occurs_in(ascii_lowercase((#[trigger] pairs[j]).0), "token"@),
{
    if has_token(pairs) {
        let j = choose|j: int| 0 <= j < pairs.len() && names_token(#[trigger] pairs[j].0);
        assert(occurs_in(ascii_lowercase(pairs[j].0), "token"@));
    }
    if exists|j: int|
        0 <= j < pairs.len() && occurs_in(ascii_lowercase((#[trigger] pairs[j]).0), "token"@) {
        let j = choose|j: int|
            0 <= j < pairs.len() && occurs_in(ascii_lowercase((#[trigger] pairs[j]).0), "token"@);
        assert(names_token(pairs[j].0));
    }
    if occurs_in(ascii_lowercase(pairs[i].0), "token"@) {
        assert(names_token(pairs[i].0));
    }
}

/// A text stays as it is unless it is a URL with a token in its query; then it is the same
/// URL with the marked query in place of its own.
pub proof fn law_other_texts_stay(text: Seq<char>)
    ensures
        ({
            let kept = JsonView::String(text).redacted();
            &&& url_query_pairs(text) is None ==> kept == JsonView::String(text)
            &&& url_query_pairs(text) matches Some(pairs) ==> {
                let token = exists|j: int|
                    0 <= j < pairs.len() && occurs_in(
                        ascii_lowercase((#[trigger] pairs[j]).0),
                        "token"@,
                    );
                &&& !token ==> kept == JsonView::String(text)
                &&& token ==> kept == JsonView::String(
                    url_with_query_pairs(text, redacted_pairs(pairs))->0,
                )
            }
        }),
{
    if let Some(pairs) = url_query_pairs(text) {
        if pairs.len() > 0 {
            law_only_tokens_leave_a_query(pairs, 0);
        }
    }
}

/// In an object a value is marked exactly by its name: under a secret name the mark stands
/// in its place, and under another name what is secret inside it is left out in turn. So it
/// is in an array, item by item.
pub proof fn law_values_are_left_out_by_their_names(value: JsonView, i: int)
    requires
        0 <= i,
    ensures
        value matches JsonView::Object(entries) ==> (i < entries.len() ==> {
            let kept = value.redacted()->Object_0[i];
            &&& kept.0 == entries[i].0
            &&& names_secret(entries[i].0) ==> kept.1 == JsonView::String("[REDACTED]"@)
            &&& !names_secret(entries[i].0) ==> kept.1 == entries[i].1.redacted()
        }),
        value matches JsonView::Array(items) ==> (i < items.len() ==> value.redacted()->Array_0[i]
            == items[i].redacted()),
{
}

} // verus!
