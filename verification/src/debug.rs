//! Short previews of response text for diagnostic output.

use vstd::prelude::*;
use crate::text;

verus! {

/// The words of `s`: its maximal runs of non-white-space characters.
pub open spec fn words(s: Seq<char>) -> Seq<Seq<char>>
    decreases s.len(),
{
    if s.len() == 0 {
        Seq::empty()
    } else {
        let init = s.drop_last();
        let w = words(init);
        let c = s.last();
        if text::is_space(c) {
            w
        } else if init.len() > 0 && !text::is_space(init.last()) {
            w.update(w.len() - 1, w.last().push(c))
        } else {
            w.push(seq![c])
        }
    }
}

/// `s` with its words separated by single spaces and no white space around.
pub open spec fn normalized(s: Seq<char>) -> Seq<char> {
    text::joined(words(s), seq![' '])
}

/// At most `limit` characters of the normalized text, with `…` appended when
/// it was cut.
pub open spec fn preview_of(s: Seq<char>, limit: nat) -> Seq<char> {
    let n = normalized(s);
    if n.len() > limit {
        n.take(limit as int).push('…')
    } else {
        n
    }
}

proof fn lemma_join_extend_last(w: Seq<Seq<char>>, c: char)
    requires
        w.len() > 0,
    ensures
        text::joined(w.update(w.len() - 1, w.last().push(c)), seq![' ']) == text::joined(w, seq![' ']).push(c),
{
    let u = w.update(w.len() - 1, w.last().push(c));
    if w.len() == 1 {
        assert(u[0] == w[0].push(c));
    } else {
        assert(u.drop_last() =~= w.drop_last());
        assert(text::joined(u, seq![' ']) =~= text::joined(w, seq![' ']).push(c));
    }
}

proof fn lemma_join_push(w: Seq<Seq<char>>, x: Seq<char>)
    ensures
        text::joined(w.push(x), seq![' ']) == if w.len() == 0 {
            x
        } else {
            text::joined(w, seq![' ']) + seq![' '] + x
        },
{
    assert(w.push(x).drop_last() =~= w);
}

/// The text collapsed to single spaces between words and cut to `limit`
/// characters, with `…` marking a cut.
pub fn preview_text(text: &str, limit: usize) -> (r: String)
    ensures
        r@ == preview_of(text@, limit as nat),
{
    let v = text::chars_of(text);
    let mut out: Vec<char> = Vec::new();
    let mut i: usize = 0;
    assert(v@.take(0) =~= Seq::<char>::empty());
    while i < v.len()
        invariant
            i <= v.len(),
            out@ == normalized(v@.take(i as int)),
            (out@.len() == 0) == (words(v@.take(i as int)).len() == 0),
            i > 0 && !text::is_space(v@[i - 1]) ==> words(v@.take(i as int)).len() > 0,
        decreases v.len() - i,
    {
        let c = v[i];
        let ghost prefix = v@.take(i as int);
        let ghost next = v@.take(i + 1);
        let ghost before = out@;
        assert(next.drop_last() =~= prefix);
        assert(next.last() == c);
        if text::char_is_space(c) {
            assert(words(next) == words(prefix));
        } else if i > 0 && !text::char_is_space(v[i - 1]) {
            proof {
                assert(prefix.last() == v@[i - 1]);
                lemma_join_extend_last(words(prefix), c);
            }
            out.push(c);
        } else {
            proof {
                if i > 0 {
                    assert(prefix.last() == v@[i - 1]);
                }
                assert(words(next) == words(prefix).push(seq![c]));
                lemma_join_push(words(prefix), seq![c]);
            }
            if out.len() > 0 {
                out.push(' ');
            }
            out.push(c);
            proof {
                if words(prefix).len() == 0 {
                    assert(out@ =~= seq![c]);
                } else {
                    assert(out@ =~= before + seq![' '] + seq![c]);
                }
            }
        }
        i += 1;
        assert(v@.take(i as int) == next);
    }
    assert(v@.take(v.len() as int) =~= v@);
    let n = out.len();
    if n > limit {
        let mut cut = text::string_of_range(&out, 0, limit);
        text::push_char(&mut cut, '…');
        cut
    } else {
        text::string_of(&out)
    }
}

/// A JSON value that is no object or array, as a summary shows it; a number
/// is held by its text.
#[derive(Debug, Clone)]
pub enum JsonScalar {
    Null,
    Bool(bool),
    Number(String),
    Text(String),
}

/// What a summary reads of a JSON object: its keys in order, the length of
/// its `items`, `members` and `value` members where they are arrays, its
/// `count` and `totalCount` members where they are unsigned integers, and its
/// `continuationToken` member where present (`None` inside when that member
/// is an object or array).
#[derive(Debug, Clone)]
pub struct JsonObjectShape {
    pub keys: Vec<String>,
    pub items_len: Option<usize>,
    pub members_len: Option<usize>,
    pub value_len: Option<usize>,
    pub count: Option<u64>,
    pub total_count: Option<u64>,
    pub continuation_token: Option<Option<JsonScalar>>,
}

/// What a summary reads of a JSON value.
#[derive(Debug, Clone)]
pub enum JsonShape {
    Object(JsonObjectShape),
    Array(usize),
    Scalar(JsonScalar),
}

/// The text of a scalar: `null`, `true`, `false`, the number, or a preview of
/// at most 80 characters of the string.
pub open spec fn scalar_text(value: JsonScalar) -> Seq<char> {
    match value {
        JsonScalar::Null => "null"@,
        JsonScalar::Bool(b) => if b {
            "true"@
        } else {
            "false"@
        },
        JsonScalar::Number(n) => n@,
        JsonScalar::Text(t) => preview_of(t@, 80),
    }
}

/// `<key>.len=<n>` when the length is known.
pub open spec fn length_part(key: Seq<char>, len: Option<usize>) -> Seq<Seq<char>> {
    match len {
        Some(n) => seq![key + ".len="@ + text::decimal(n as nat)],
        None => Seq::empty(),
    }
}

/// `<key>=<n>` when the count is known.
pub open spec fn count_part(key: Seq<char>, count: Option<u64>) -> Seq<Seq<char>> {
    match count {
        Some(n) => seq![key + "="@ + text::decimal(n as nat)],
        None => Seq::empty(),
    }
}

/// `continuationToken=<text>` when the member is present.
pub open spec fn token_part(token: Option<Option<JsonScalar>>) -> Seq<Seq<char>> {
    match token {
        Some(Some(v)) => seq!["continuationToken="@ + scalar_text(v)],
        Some(None) => seq!["continuationToken="@ + "<complex>"@],
        None => Seq::empty(),
    }
}

/// At most the first eight keys.
pub open spec fn leading_keys(keys: Seq<Seq<char>>) -> Seq<Seq<char>> {
    if keys.len() > 8 {
        keys.take(8)
    } else {
        keys
    }
}

/// The parts of an object's summary, in order.
pub open spec fn object_parts(o: JsonObjectShape) -> Seq<Seq<char>> {
    seq!["keys=["@ + text::joined(leading_keys(o.keys.deep_view()), ", "@) + "]"@]
        + length_part("items"@, o.items_len)
        + length_part("members"@, o.members_len)
        + length_part("value"@, o.value_len)
        + count_part("count"@, o.count)
        + count_part("totalCount"@, o.total_count)
        + token_part(o.continuation_token)
}

/// The one-line summary of a JSON value.
pub open spec fn json_summary(value: JsonShape) -> Seq<char> {
    match value {
        JsonShape::Object(o) => text::joined(object_parts(o), ", "@),
        JsonShape::Array(n) => "array(len="@ + text::decimal(n as nat) + ")"@,
        JsonShape::Scalar(v) => scalar_text(v),
    }
}

fn summarize_scalar(value: &JsonScalar) -> (r: String)
    ensures
        r@ == scalar_text(*value),
{
    match value {
        JsonScalar::Null => "null".to_owned(),
        JsonScalar::Bool(b) => if *b {
            "true".to_owned()
        } else {
            "false".to_owned()
        },
        JsonScalar::Number(n) => n.clone(),
        JsonScalar::Text(t) => preview_text(t.as_str(), 80),
    }
}

fn push_part(parts: &mut Vec<String>, part: String)
    ensures
        final(parts).deep_view() == old(parts).deep_view().push(part@),
{
    parts.push(part);
    assert(parts.deep_view() =~= old(parts).deep_view().push(part@));
}

fn push_length(parts: &mut Vec<String>, key: &str, len: Option<usize>)
    ensures
        final(parts).deep_view() == old(parts).deep_view() + length_part(key@, len),
{
    match len {
        Some(n) => {
            let mut part = key.to_owned();
            part.append(".len=");
            let digits = text::decimal_text(n as u64);
            part.append(digits.as_str());
            push_part(parts, part);
        },
        None => {
            assert(old(parts).deep_view() + length_part(key@, len) =~= old(parts).deep_view());
        },
    }
}

fn push_count(parts: &mut Vec<String>, key: &str, count: Option<u64>)
    ensures
        final(parts).deep_view() == old(parts).deep_view() + count_part(key@, count),
{
    match count {
        Some(n) => {
            let mut part = key.to_owned();
            part.append("=");
            let digits = text::decimal_text(n);
            part.append(digits.as_str());
            push_part(parts, part);
        },
        None => {
            assert(old(parts).deep_view() + count_part(key@, count) =~= old(parts).deep_view());
        },
    }
}

/// The summary of a JSON value for diagnostic output: for an object its first
/// eight keys and the sizes and paging token it carries, for an array its
/// length, for a scalar its text.
pub fn summarize_json(value: &JsonShape) -> (r: String)
    ensures
        r@ == json_summary(*value),
{
    match value {
        JsonShape::Object(o) => {
            let ghost all = o.keys.deep_view();
            let mut keys: Vec<String> = Vec::new();
            let mut k: usize = 0;
            while k < o.keys.len() && k < 8
                invariant
                    all == o.keys.deep_view(),
                    k <= o.keys.len(),
                    k <= 8,
                    keys.deep_view() == all.take(k as int),
                decreases o.keys.len() - k,
            {
                push_part(&mut keys, o.keys[k].clone());
                assert(all[k as int] == o.keys[k as int]@);
                k += 1;
                assert(keys.deep_view() =~= all.take(k as int));
            }
            assert(keys.deep_view() =~= leading_keys(all));
            let mut first = "keys=[".to_owned();
            let listed = text::join_texts(&keys, ", ");
            first.append(listed.as_str());
            first.append("]");
            let mut parts: Vec<String> = Vec::new();
            push_part(&mut parts, first);
            push_length(&mut parts, "items", o.items_len);
            push_length(&mut parts, "members", o.members_len);
            push_length(&mut parts, "value", o.value_len);
            push_count(&mut parts, "count", o.count);
            push_count(&mut parts, "totalCount", o.total_count);
            match &o.continuation_token {
                Some(token) => {
                    let mut part = "continuationToken=".to_owned();
                    match token {
                        Some(v) => {
                            let t = summarize_scalar(v);
                            part.append(t.as_str());
                        },
                        None => part.append("<complex>"),
                    }
                    push_part(&mut parts, part);
                },
                None => {},
            }
            assert(parts.deep_view() =~= object_parts(*o));
            text::join_texts(&parts, ", ")
        },
        JsonShape::Array(n) => {
            let mut out = "array(len=".to_owned();
            let digits = text::decimal_text(*n as u64);
            out.append(digits.as_str());
            out.append(")");
            out
        },
        JsonShape::Scalar(v) => summarize_scalar(v),
    }
}

} // verus!
