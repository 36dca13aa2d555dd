//! The envelope serializer: a classified message becomes a single flat JSON
//! object carrying the fixed `"jsonrpc":"2.0"` marker and the category's own
//! fields at top level. The version is always stamped anew — an incoming
//! version value is never propagated.

use vstd::prelude::*;

use crate::classify::classify_model;
use crate::classify::id_model_of;
use crate::classify::spec_notification_method;
use crate::classify::spec_request_method;
use crate::message::Id;
use crate::message::IdModel;
use crate::message::Message;
use crate::message::MessageModel;
use crate::message::Outcome;
use crate::message::OutcomeModel;
use crate::model::JsonModel;
use crate::model::keys_distinct;
use crate::model::lookup;
use crate::model::strip_key;
use crate::model::lemma_strip_key_props;
use crate::model::lemma_strip_key_push;
use crate::value::clone_value;
use crate::value::field_model;
use crate::value::fields_model;
use crate::value::jmodel;
use crate::value::str_eq;
use crate::value::text_model;
use crate::value::value_fields;
use crate::value::value_of_fields;
use crate::value::value_of_i64;
use crate::value::value_of_string;
use crate::value::value_text;

verus! {

/// The protocol-version field every rendered object opens with.
pub open spec fn version_field() -> (Seq<char>, JsonModel) {
    ("jsonrpc"@, JsonModel::Str("2.0"@))
}

/// The JSON value a correlation token renders to.
pub open spec fn id_json(id: IdModel) -> JsonModel {
    match id {
        IdModel::Num(n) => JsonModel::Int(n as int),
        IdModel::Text(s) => JsonModel::Str(s),
    }
}

/// The `params` field, present exactly when the message carries params.
pub open spec fn params_fields(p: Option<JsonModel>) -> Seq<(Seq<char>, JsonModel)> {
    match p {
        Some(j) => seq![("params"@, j)],
        None => Seq::empty(),
    }
}

/// The one payload field of a response.
pub open spec fn outcome_field(o: OutcomeModel) -> (Seq<char>, JsonModel) {
    match o {
        OutcomeModel::Success(j) => ("result"@, j),
        OutcomeModel::Failure(j) => ("error"@, j),
    }
}

/// What rendering emits: the version stamp first, then the category's own
/// fields, unchanged and un-nested. An unknown object keeps its fields but
/// has any version field of its own replaced by the stamp; an unknown
/// non-object has no fields to wrap and passes through as it is.
pub open spec fn render_model(m: MessageModel) -> JsonModel {
    match m {
        MessageModel::Request { id, method, params } => JsonModel::Obj(
            seq![version_field(), ("id"@, id_json(id)), ("method"@, JsonModel::Str(method))]
                + params_fields(params),
        ),
        MessageModel::Notification { method, params } => JsonModel::Obj(
            seq![version_field(), ("method"@, JsonModel::Str(method))] + params_fields(params),
        ),
        MessageModel::Response { id, outcome } => JsonModel::Obj(
            seq![version_field(), ("id"@, id_json(id)), outcome_field(outcome)],
        ),
        MessageModel::Unknown(j) => match j {
            JsonModel::Obj(fs) => JsonModel::Obj(seq![version_field()] + strip_key(fs, "jsonrpc"@)),
            _ => j,
        },
    }
}

proof fn lemma_key_literals_distinct()
    ensures
        "jsonrpc"@ != "id"@,
        "jsonrpc"@ != "method"@,
        "jsonrpc"@ != "params"@,
        "jsonrpc"@ != "result"@,
        "jsonrpc"@ != "error"@,
        "id"@ != "method"@,
        "id"@ != "params"@,
        "id"@ != "result"@,
        "id"@ != "error"@,
        "method"@ != "params"@,
        "method"@ != "result"@,
        "method"@ != "error"@,
        "result"@ != "error"@,
        "params"@ != "result"@,
        "params"@ != "error"@,
{
    reveal_strlit("jsonrpc");
    reveal_strlit("id");
    reveal_strlit("method");
    reveal_strlit("params");
    reveal_strlit("result");
    reveal_strlit("error");
    assert("jsonrpc"@.len() == 7);
    assert("id"@.len() == 2);
    assert("method"@.len() == 6);
    assert("params"@.len() == 6);
    assert("result"@.len() == 6);
    assert("error"@.len() == 5);
    assert("method"@[0] == 'm');
    assert("params"@[0] == 'p');
    assert("result"@[0] == 'r');
}

/// One step of field lookup.
proof fn lemma_lookup_cons(fs: Seq<(Seq<char>, JsonModel)>, key: Seq<char>)
    requires
        fs.len() > 0,
    ensures
        lookup(fs, key) == (if fs[0].0 == key {
            Some(fs[0].1)
        } else {
            lookup(fs.drop_first(), key)
        }),
{
}

/// Lookup across a two-field prefix.
proof fn lemma_lookup_prefix2(
    a: (Seq<char>, JsonModel),
    b: (Seq<char>, JsonModel),
    tail: Seq<(Seq<char>, JsonModel)>,
    key: Seq<char>,
)
    ensures
        lookup(seq![a, b] + tail, key) == (if a.0 == key {
            Some(a.1)
        } else if b.0 == key {
            Some(b.1)
        } else {
            lookup(tail, key)
        }),
{
    let fs = seq![a, b] + tail;
    assert(fs[0] == a);
    lemma_lookup_cons(fs, key);
    assert(fs.drop_first() =~= seq![b] + tail);
    assert((seq![b] + tail)[0] == b);
    lemma_lookup_cons(seq![b] + tail, key);
    assert((seq![b] + tail).drop_first() =~= tail);
}

/// Lookup across a three-field prefix.
proof fn lemma_lookup_prefix3(
    a: (Seq<char>, JsonModel),
    b: (Seq<char>, JsonModel),
    c: (Seq<char>, JsonModel),
    tail: Seq<(Seq<char>, JsonModel)>,
    key: Seq<char>,
)
    ensures
        lookup(seq![a, b, c] + tail, key) == (if a.0 == key {
            Some(a.1)
        } else if b.0 == key {
            Some(b.1)
        } else if c.0 == key {
            Some(c.1)
        } else {
            lookup(tail, key)
        }),
{
    let fs = seq![a, b, c] + tail;
    assert(fs[0] == a);
    lemma_lookup_cons(fs, key);
    assert(fs.drop_first() =~= seq![b, c] + tail);
    lemma_lookup_prefix2(b, c, tail, key);
}

/// Lookup in the optional params tail.
proof fn lemma_lookup_params(p: Option<JsonModel>, key: Seq<char>)
    ensures
        lookup(params_fields(p), key) == (if key == "params"@ {
            p
        } else {
            None::<JsonModel>
        }),
{
    match p {
        Some(j) => {
            let fs = params_fields(p);
            assert(fs[0] == ("params"@, j));
            lemma_lookup_cons(fs, key);
            assert(fs.drop_first() =~= Seq::<(Seq<char>, JsonModel)>::empty());
        },
        None => {
        },
    }
}

fn id_value(id: &Id) -> (r: serde_json::Value)
    ensures
        jmodel(r) == id_json(id@),
{
    match id {
        Id::Num(n) => value_of_i64(*n),
        Id::Text(s) => value_of_string(s.clone()),
    }
}

impl Message {
    /// Render the envelope: one flat JSON object, `"jsonrpc":"2.0"` stamped
    /// first, then this category's own fields, passed through unchanged.
    pub fn render(&self) -> (r: serde_json::Value)
        ensures
            jmodel(r) == render_model(self@),
    {
        match self {
            Message::Request(req) => {
                let mut fields: Vec<(String, serde_json::Value)> = Vec::new();
                fields.push(("jsonrpc".to_owned(), value_of_string("2.0".to_owned())));
                fields.push(("id".to_owned(), id_value(&req.id)));
                fields.push(("method".to_owned(), value_of_string(req.method.clone())));
                match &req.params {
                    Some(p) => fields.push(("params".to_owned(), clone_value(p))),
                    None => (),
                }
                proof {
                    lemma_key_literals_distinct();
                    assert(fields_model(fields@) =~= seq![
                        version_field(),
                        ("id"@, id_json(req.id@)),
                        ("method"@, JsonModel::Str(req.method@)),
                    ] + params_fields(crate::message::opt_model(req.params)));
                    assert(keys_distinct(fields_model(fields@)));
                }
                value_of_fields(fields)
            },
            Message::Notification(note) => {
                let mut fields: Vec<(String, serde_json::Value)> = Vec::new();
                fields.push(("jsonrpc".to_owned(), value_of_string("2.0".to_owned())));
                fields.push(("method".to_owned(), value_of_string(note.method.clone())));
                match &note.params {
                    Some(p) => fields.push(("params".to_owned(), clone_value(p))),
                    None => (),
                }
                proof {
                    lemma_key_literals_distinct();
                    assert(fields_model(fields@) =~= seq![
                        version_field(),
                        ("method"@, JsonModel::Str(note.method@)),
                    ] + params_fields(crate::message::opt_model(note.params)));
                    assert(keys_distinct(fields_model(fields@)));
                }
                value_of_fields(fields)
            },
            Message::Response(resp) => {
                let mut fields: Vec<(String, serde_json::Value)> = Vec::new();
                fields.push(("jsonrpc".to_owned(), value_of_string("2.0".to_owned())));
                fields.push(("id".to_owned(), id_value(&resp.id)));
                match &resp.outcome {
                    Outcome::Success(payload) => fields.push(
                        ("result".to_owned(), clone_value(payload)),
                    ),
                    Outcome::Failure(payload) => fields.push(
                        ("error".to_owned(), clone_value(payload)),
                    ),
                }
                proof {
                    lemma_key_literals_distinct();
                    assert(fields_model(fields@) =~= seq![
                        version_field(),
                        ("id"@, id_json(resp.id@)),
                        outcome_field(resp.outcome@),
                    ]);
                    assert(keys_distinct(fields_model(fields@)));
                }
                value_of_fields(fields)
            },
            Message::Unknown(u) => {
                let copy = clone_value(&u.value);
                match value_fields(copy) {
                    Err(orig) => orig,
                    Ok(parts) => {
                        let ghost fs0 = fields_model(parts@);
                        let ghost key = "jsonrpc"@;
                        let mut rest = parts;
                        let ghost mut done: Seq<(Seq<char>, JsonModel)> = Seq::empty();
                        let mut out: Vec<(String, serde_json::Value)> = Vec::new();
                        out.push(("jsonrpc".to_owned(), value_of_string("2.0".to_owned())));
                        proof {
                            assert(fields_model(out@) =~= seq![version_field()]);
                            assert(fs0 == done + fields_model(rest@)) by {
                                assert(done + fields_model(rest@) =~= fields_model(rest@));
                            }
                            assert(strip_key(done, key) =~= Seq::<(Seq<char>, JsonModel)>::empty());
                        }
                        while rest.len() > 0
                            invariant
                                keys_distinct(fs0),
                                fs0 == done + fields_model(rest@),
                                fields_model(out@) == seq![version_field()] + strip_key(done, key),
                                key == "jsonrpc"@,
                            decreases rest@.len(),
                        {
                            let ghost rest_before = rest@;
                            let p = rest.remove(0);
                            let keep = !str_eq(p.0.as_str(), "jsonrpc");
                            proof {
                                assert(rest_before =~= seq![p] + rest@);
                                assert(fields_model(rest_before) =~= seq![field_model(p)]
                                    + fields_model(rest@));
                                assert(done + (seq![field_model(p)] + fields_model(rest@)) =~= (
                                done.push(field_model(p))) + fields_model(rest@));
                                lemma_strip_key_push(done, key, field_model(p));
                                done = done.push(field_model(p));
                            }
                            if keep {
                                let ghost before = out@;
                                out.push(p);
                                proof {
                                    assert(out@ == before.push(p));
                                    assert(fields_model(out@) =~= fields_model(before) + seq![
                                        field_model(p),
                                    ]);
                                    assert(fields_model(out@) =~= (seq![version_field()]
                                        + strip_key(done, key)));
                                }
                            }
                        }
                        proof {
                            assert(fields_model(rest@) =~= Seq::<(Seq<char>, JsonModel)>::empty());
                            assert(fs0 =~= done);
                            lemma_strip_key_props(fs0, key);
                            let om = fields_model(out@);
                            assert(keys_distinct(om)) by {
                                assert(forall|i: int|
                                    1 <= i < om.len() ==> #[trigger] om[i] == strip_key(fs0, key)[
                                    i - 1]);
                                assert(forall|i: int| 1 <= i < om.len() ==> (#[trigger] om[i]).0
                                    != key);
                            }
                        }
                        value_of_fields(out)
                    },
                }
            },
        }
    }

    /// Render to text: the envelope object printed as JSON.
    pub fn render_text(&self) -> (r: String)
        ensures
            r@ == text_model(render_model(self@)),
    {
        let v = self.render();
        value_text(&v)
    }
}

/// A message a classifier can produce: its method name, if it has one,
/// validates against the category's own schema.
pub open spec fn wf_message(m: MessageModel) -> bool {
    match m {
        MessageModel::Request { method, .. } => spec_request_method(method),
        MessageModel::Notification { method, .. } => spec_notification_method(method),
        _ => true,
    }
}

/// Law: whatever the classifier returns is well-formed.
pub proof fn lemma_classify_wf(j: JsonModel)
    ensures
        wf_message(classify_model(j)),
{
}

/// Law: the version stamp. Rendering any message with fields to wrap yields
/// an object whose `jsonrpc` field is exactly the string `2.0`, whatever
/// version value, if any, the original input carried.
pub proof fn lemma_version_stamped(m: MessageModel)
    requires
        m matches MessageModel::Unknown(j) ==> j is Obj,
    ensures
        render_model(m) is Obj,
        lookup(render_model(m)->Obj_0, "jsonrpc"@) == Some(JsonModel::Str("2.0"@)),
{
    let fs = render_model(m)->Obj_0;
    assert(fs[0] == version_field());
    lemma_lookup_cons(fs, "jsonrpc"@);
}

/// Law: round-trip stability. For the three recognized categories, a
/// well-formed message survives rendering and re-classification unchanged,
/// so one normalization pass is all a payload ever needs.
pub proof fn lemma_round_trip(m: MessageModel)
    requires
        wf_message(m),
        !(m is Unknown),
    ensures
        classify_model(render_model(m)) == m,
{
    lemma_key_literals_distinct();
    match m {
        MessageModel::Request { id, method, params } => {
            let a = version_field();
            let b = ("id"@, id_json(id));
            let c = ("method"@, JsonModel::Str(method));
            let tail = params_fields(params);
            let fs = seq![a, b, c] + tail;
            lemma_lookup_prefix3(a, b, c, tail, "method"@);
            lemma_lookup_prefix3(a, b, c, tail, "id"@);
            lemma_lookup_prefix3(a, b, c, tail, "params"@);
            lemma_lookup_params(params, "method"@);
            lemma_lookup_params(params, "id"@);
            lemma_lookup_params(params, "params"@);
            assert(lookup(fs, "id"@) == Some(id_json(id)));
            assert(id_model_of(id_json(id)) == Some(id));
        },
        MessageModel::Notification { method, params } => {
            let a = version_field();
            let b = ("method"@, JsonModel::Str(method));
            let tail = params_fields(params);
            let fs = seq![a, b] + tail;
            lemma_lookup_prefix2(a, b, tail, "method"@);
            lemma_lookup_prefix2(a, b, tail, "id"@);
            lemma_lookup_prefix2(a, b, tail, "params"@);
            lemma_lookup_params(params, "method"@);
            lemma_lookup_params(params, "id"@);
            lemma_lookup_params(params, "params"@);
            assert(lookup(fs, "id"@) is None);
        },
        MessageModel::Response { id, outcome } => {
            let a = version_field();
            let b = ("id"@, id_json(id));
            let c = outcome_field(outcome);
            let tail = Seq::<(Seq<char>, JsonModel)>::empty();
            let fs = seq![a, b, c] + tail;
            assert(render_model(m)->Obj_0 =~= fs);
            lemma_lookup_prefix3(a, b, c, tail, "method"@);
            lemma_lookup_prefix3(a, b, c, tail, "id"@);
            lemma_lookup_prefix3(a, b, c, tail, "result"@);
            lemma_lookup_prefix3(a, b, c, tail, "error"@);
            assert(lookup(tail, "method"@) is None);
            assert(lookup(tail, "result"@) is None);
            assert(lookup(tail, "error"@) is None);
            assert(lookup(fs, "id"@) == Some(id_json(id)));
            assert(id_model_of(id_json(id)) == Some(id));
        },
        MessageModel::Unknown(_) => {
        },
    }
}

/// Law: rendering is idempotent after one pass — for a payload classified
/// into one of the three recognized categories, render-classify-render gives
/// the same text shape as a single render.
pub proof fn lemma_render_stable(j: JsonModel)
    requires
        !(classify_model(j) is Unknown),
    ensures
        render_model(classify_model(render_model(classify_model(j)))) == render_model(
            classify_model(j),
        ),
{
    lemma_classify_wf(j);
    lemma_round_trip(classify_model(j));
}

} // verus!

