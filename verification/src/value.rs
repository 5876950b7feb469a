use vstd::prelude::*;
use crate::error::DecodeError;

verus! {

/// A point in time: whole seconds since an epoch plus a fractional part in
/// nanoseconds.
#[derive(Clone, Copy, PartialEq, Eq, Structural, Debug)]
pub struct Timestamp {
    pub seconds: i64,
    pub nanos: u32,
}

/// The kind of payload a field value carries; used to report type mismatches.
#[derive(Clone, Copy, PartialEq, Eq, Structural, Debug)]
pub enum FieldType {
    Null,
    Boolean,
    Integer,
    Double,
    Timestamp,
    Text,
    Reference,
    Array,
    Mapping,
}

/// In-memory tagged field value. Exactly one variant is populated by
/// construction. A `Double` carries the raw bit pattern of the wire's
/// eight-byte binary floating-point payload; the bits are carried through
/// unchanged and never interpreted arithmetically.
#[derive(Debug, PartialEq)]
pub enum Value {
    Null,
    Boolean(bool),
    Integer(i64),
    Double(u64),
    Timestamp(Timestamp),
    Text(String),
    Reference(String),
    Array(Vec<Value>),
    Mapping(Vec<(String, Value)>),
}

/// Mathematical model of a `Value`: strings as character sequences and
/// vectors as sequences.
pub enum ValueModel {
    Null,
    Boolean(bool),
    Integer(i64),
    Double(u64),
    Timestamp(Timestamp),
    Text(Seq<char>),
    Reference(Seq<char>),
    Array(Seq<ValueModel>),
    Mapping(Seq<(Seq<char>, ValueModel)>),
}

pub open spec fn value_model(v: Value) -> ValueModel
    decreases v,
{
    match v {
        Value::Null => ValueModel::Null,
        Value::Boolean(b) => ValueModel::Boolean(b),
        Value::Integer(i) => ValueModel::Integer(i),
        Value::Double(bits) => ValueModel::Double(bits),
        Value::Timestamp(t) => ValueModel::Timestamp(t),
        Value::Text(s) => ValueModel::Text(s@),
        Value::Reference(s) => ValueModel::Reference(s@),
        Value::Array(items) => ValueModel::Array(model_items(items@)),
        Value::Mapping(pairs) => ValueModel::Mapping(model_pairs(pairs@)),
    }
}

pub open spec fn model_items(s: Seq<Value>) -> Seq<ValueModel>
    decreases s,
{
    if s.len() == 0 {
        Seq::empty()
    } else {
        seq![value_model(s[0])] + model_items(s.subrange(1, s.len() as int))
    }
}

pub open spec fn model_pairs(s: Seq<(String, Value)>) -> Seq<(Seq<char>, ValueModel)>
    decreases s,
{
    if s.len() == 0 {
        Seq::empty()
    } else {
        seq![(s[0].0@, value_model(s[0].1))] + model_pairs(s.subrange(1, s.len() as int))
    }
}

impl View for Value {
    type V = ValueModel;

    open spec fn view(&self) -> ValueModel {
        value_model(*self)
    }
}

/// The populated variant of a wire union; mirrors the wire's own tags.
#[derive(Debug, PartialEq)]
pub enum WireKind {
    NullValue,
    BooleanValue(bool),
    IntegerValue(i64),
    DoubleValue(u64),
    TimestampValue(Timestamp),
    StringValue(String),
    ReferenceValue(String),
    ArrayValue(Vec<WireValue>),
    MapValue(Vec<(String, WireValue)>),
}

/// Wire representation of a field value: a union that may be entirely unset.
#[derive(Debug, PartialEq)]
pub struct WireValue {
    pub value_type: Option<WireKind>,
}

/// Mathematical model of a populated wire union.
pub enum WireKindModel {
    NullValue,
    BooleanValue(bool),
    IntegerValue(i64),
    DoubleValue(u64),
    TimestampValue(Timestamp),
    StringValue(Seq<char>),
    ReferenceValue(Seq<char>),
    ArrayValue(Seq<Option<WireKindModel>>),
    MapValue(Seq<(Seq<char>, Option<WireKindModel>)>),
}

pub open spec fn wire_model(w: WireValue) -> Option<WireKindModel>
    decreases w,
{
    match w.value_type {
        Option::None => Option::None,
        Option::Some(k) => Option::Some(wire_kind_model(k)),
    }
}

pub open spec fn wire_kind_model(k: WireKind) -> WireKindModel
    decreases k,
{
    match k {
        WireKind::NullValue => WireKindModel::NullValue,
        WireKind::BooleanValue(b) => WireKindModel::BooleanValue(b),
        WireKind::IntegerValue(i) => WireKindModel::IntegerValue(i),
        WireKind::DoubleValue(bits) => WireKindModel::DoubleValue(bits),
        WireKind::TimestampValue(t) => WireKindModel::TimestampValue(t),
        WireKind::StringValue(s) => WireKindModel::StringValue(s@),
        WireKind::ReferenceValue(s) => WireKindModel::ReferenceValue(s@),
        WireKind::ArrayValue(items) => WireKindModel::ArrayValue(wire_items_model(items@)),
        WireKind::MapValue(pairs) => WireKindModel::MapValue(wire_pairs_model(pairs@)),
    }
}

pub open spec fn wire_items_model(s: Seq<WireValue>) -> Seq<Option<WireKindModel>>
    decreases s,
{
    if s.len() == 0 {
        Seq::empty()
    } else {
        seq![wire_model(s[0])] + wire_items_model(s.subrange(1, s.len() as int))
    }
}

pub open spec fn wire_pairs_model(s: Seq<(String, WireValue)>) -> Seq<(Seq<char>, Option<WireKindModel>)>
    decreases s,
{
    if s.len() == 0 {
        Seq::empty()
    } else {
        seq![(s[0].0@, wire_model(s[0].1))] + wire_pairs_model(s.subrange(1, s.len() as int))
    }
}

impl View for WireValue {
    type V = Option<WireKindModel>;

    open spec fn view(&self) -> Option<WireKindModel> {
        wire_model(*self)
    }
}

/// What encoding a value puts on the wire: every variant maps to the
/// corresponding wire tag, and the union is always populated.
pub open spec fn spec_encode(m: ValueModel) -> WireKindModel
    decreases m,
{
    match m {
        ValueModel::Null => WireKindModel::NullValue,
        ValueModel::Boolean(b) => WireKindModel::BooleanValue(b),
        ValueModel::Integer(i) => WireKindModel::IntegerValue(i),
        ValueModel::Double(bits) => WireKindModel::DoubleValue(bits),
        ValueModel::Timestamp(t) => WireKindModel::TimestampValue(t),
        ValueModel::Text(s) => WireKindModel::StringValue(s),
        ValueModel::Reference(s) => WireKindModel::ReferenceValue(s),
        ValueModel::Array(items) => WireKindModel::ArrayValue(spec_encode_items(items)),
        ValueModel::Mapping(pairs) => WireKindModel::MapValue(spec_encode_pairs(pairs)),
    }
}

pub open spec fn spec_encode_items(s: Seq<ValueModel>) -> Seq<Option<WireKindModel>>
    decreases s,
{
    if s.len() == 0 {
        Seq::empty()
    } else {
        seq![Option::Some(spec_encode(s[0]))] + spec_encode_items(s.subrange(1, s.len() as int))
    }
}

pub open spec fn spec_encode_pairs(s: Seq<(Seq<char>, ValueModel)>) -> Seq<(Seq<char>, Option<WireKindModel>)>
    decreases s,
{
    if s.len() == 0 {
        Seq::empty()
    } else {
        seq![(s[0].0, Option::Some(spec_encode(s[0].1)))] + spec_encode_pairs(s.subrange(1, s.len() as int))
    }
}

/// What decoding a wire union yields: an unset union is an error, never a
/// silent default, and an error anywhere inside an array or map is the
/// error of the whole.
pub open spec fn spec_decode(w: Option<WireKindModel>) -> Result<ValueModel, DecodeError>
    decreases w,
{
    match w {
        Option::None => Result::Err(DecodeError::EmptyValue),
        Option::Some(k) => spec_decode_kind(k),
    }
}

pub open spec fn spec_decode_kind(k: WireKindModel) -> Result<ValueModel, DecodeError>
    decreases k,
{
    match k {
        WireKindModel::NullValue => Result::Ok(ValueModel::Null),
        WireKindModel::BooleanValue(b) => Result::Ok(ValueModel::Boolean(b)),
        WireKindModel::IntegerValue(i) => Result::Ok(ValueModel::Integer(i)),
        WireKindModel::DoubleValue(bits) => Result::Ok(ValueModel::Double(bits)),
        WireKindModel::TimestampValue(t) => Result::Ok(ValueModel::Timestamp(t)),
        WireKindModel::StringValue(s) => Result::Ok(ValueModel::Text(s)),
        WireKindModel::ReferenceValue(s) => Result::Ok(ValueModel::Reference(s)),
        WireKindModel::ArrayValue(items) => match spec_decode_items(items) {
            Result::Ok(ms) => Result::Ok(ValueModel::Array(ms)),
            Result::Err(e) => Result::Err(e),
        },
        WireKindModel::MapValue(pairs) => match spec_decode_pairs(pairs) {
            Result::Ok(ms) => Result::Ok(ValueModel::Mapping(ms)),
            Result::Err(e) => Result::Err(e),
        },
    }
}

pub open spec fn spec_decode_items(s: Seq<Option<WireKindModel>>) -> Result<Seq<ValueModel>, DecodeError>
    decreases s,
{
    if s.len() == 0 {
        Result::Ok(Seq::empty())
    } else {
        match spec_decode(s[0]) {
            Result::Err(e) => Result::Err(e),
            Result::Ok(m) => match spec_decode_items(s.subrange(1, s.len() as int)) {
                Result::Err(e) => Result::Err(e),
                Result::Ok(ms) => Result::Ok(seq![m] + ms),
            },
        }
    }
}

pub open spec fn spec_decode_pairs(s: Seq<(Seq<char>, Option<WireKindModel>)>) -> Result<Seq<(Seq<char>, ValueModel)>, DecodeError>
    decreases s,
{
    if s.len() == 0 {
        Result::Ok(Seq::empty())
    } else {
        match spec_decode(s[0].1) {
            Result::Err(e) => Result::Err(e),
            Result::Ok(m) => match spec_decode_pairs(s.subrange(1, s.len() as int)) {
                Result::Err(e) => Result::Err(e),
                Result::Ok(ms) => Result::Ok(seq![(s[0].0, m)] + ms),
            },
        }
    }
}

/// Round trip: decoding the encoding of any representable value yields
/// exactly that value.
pub proof fn lemma_round_trip(m: ValueModel)
    ensures
        spec_decode(Option::Some(spec_encode(m))) == Result::<ValueModel, DecodeError>::Ok(m),
    decreases m,
{
    match m {
        ValueModel::Array(items) => {
            lemma_round_trip_items(items);
        },
        ValueModel::Mapping(pairs) => {
            lemma_round_trip_pairs(pairs);
        },
        _ => {},
    }
}

proof fn lemma_round_trip_items(s: Seq<ValueModel>)
    ensures
        spec_decode_items(spec_encode_items(s)) == Result::<Seq<ValueModel>, DecodeError>::Ok(s),
    decreases s,
{
    if s.len() == 0 {
        assert(spec_encode_items(s).len() == 0);
        assert(spec_decode_items(spec_encode_items(s)) == Result::<Seq<ValueModel>, DecodeError>::Ok(Seq::<ValueModel>::empty()));
        assert(s =~= Seq::<ValueModel>::empty());
    } else {
        let rest = s.subrange(1, s.len() as int);
        lemma_round_trip(s[0]);
        lemma_round_trip_items(rest);
        let enc = spec_encode_items(s);
        assert(enc == seq![Option::Some(spec_encode(s[0]))] + spec_encode_items(rest));
        assert(enc[0] == Option::Some(spec_encode(s[0])));
        assert(enc.subrange(1, enc.len() as int) =~= spec_encode_items(rest));
        assert(seq![s[0]] + rest =~= s);
    }
}

proof fn lemma_round_trip_pairs(s: Seq<(Seq<char>, ValueModel)>)
    ensures
        spec_decode_pairs(spec_encode_pairs(s)) == Result::<Seq<(Seq<char>, ValueModel)>, DecodeError>::Ok(s),
    decreases s,
{
    if s.len() == 0 {
        assert(spec_encode_pairs(s).len() == 0);
        assert(spec_decode_pairs(spec_encode_pairs(s)) == Result::<Seq<(Seq<char>, ValueModel)>, DecodeError>::Ok(Seq::<(Seq<char>, ValueModel)>::empty()));
        assert(s =~= Seq::<(Seq<char>, ValueModel)>::empty());
    } else {
        let rest = s.subrange(1, s.len() as int);
        lemma_round_trip(s[0].1);
        lemma_round_trip_pairs(rest);
        let enc = spec_encode_pairs(s);
        assert(enc == seq![(s[0].0, Option::Some(spec_encode(s[0].1)))] + spec_encode_pairs(rest));
        assert(enc[0] == (s[0].0, Option::Some(spec_encode(s[0].1))));
        assert(enc.subrange(1, enc.len() as int) =~= spec_encode_pairs(rest));
        assert((s[0].0, s[0].1) == s[0]);
        assert(seq![s[0]] + rest =~= s);
    }
}

/// Encodes a value for the wire. The result's union is always populated.
pub fn encode(v: &Value) -> (r: WireValue)
    ensures
        r@ == Option::Some(spec_encode(v@)),
    decreases *v, 0int,
{
    match v {
        Value::Null => WireValue { value_type: Some(WireKind::NullValue) },
        Value::Boolean(b) => WireValue { value_type: Some(WireKind::BooleanValue(*b)) },
        Value::Integer(i) => WireValue { value_type: Some(WireKind::IntegerValue(*i)) },
        Value::Double(bits) => WireValue { value_type: Some(WireKind::DoubleValue(*bits)) },
        Value::Timestamp(t) => WireValue { value_type: Some(WireKind::TimestampValue(*t)) },
        Value::Text(s) => WireValue { value_type: Some(WireKind::StringValue(s.clone())) },
        Value::Reference(s) => WireValue { value_type: Some(WireKind::ReferenceValue(s.clone())) },
        Value::Array(items) => {
            let encoded = encode_items_from(items, 0);
            proof {
                assert(items@.subrange(0, items@.len() as int) =~= items@);
            }
            WireValue { value_type: Some(WireKind::ArrayValue(encoded)) }
        },
        Value::Mapping(pairs) => {
            let encoded = encode_pairs_from(pairs, 0);
            proof {
                assert(pairs@.subrange(0, pairs@.len() as int) =~= pairs@);
            }
            WireValue { value_type: Some(WireKind::MapValue(encoded)) }
        },
    }
}

fn encode_items_from(items: &Vec<Value>, i: usize) -> (r: Vec<WireValue>)
    requires
        i <= items.len(),
    ensures
        wire_items_model(r@) == spec_encode_items(model_items(items@.subrange(i as int, items@.len() as int))),
    decreases items@, items@.len() - i,
{
    let ghost tail_view = items@.subrange(i as int, items@.len() as int);
    if i == items.len() {
        let r: Vec<WireValue> = Vec::new();
        proof {
            assert(tail_view.len() == 0);
            assert(r@.len() == 0);
        }
        r
    } else {
        let head = encode(&items[i]);
        let mut rest = encode_items_from(items, i + 1);
        let ghost rest_vec_view = rest@;
        rest.insert(0, head);
        proof {
            let rest_view = items@.subrange(i as int + 1, items@.len() as int);
            assert(tail_view[0] == items@[i as int]);
            assert(tail_view.subrange(1, tail_view.len() as int) =~= rest_view);
            let ms = model_items(tail_view);
            assert(ms == seq![value_model(items@[i as int])] + model_items(rest_view));
            assert(ms[0] == value_model(items@[i as int]));
            assert(ms.subrange(1, ms.len() as int) =~= model_items(rest_view));
            assert(spec_encode_items(ms) == seq![Option::Some(spec_encode(ms[0]))]
                + spec_encode_items(model_items(rest_view)));
            assert(rest@ =~= seq![head] + rest_vec_view);
            assert(rest@[0] == head);
            assert(rest@.subrange(1, rest@.len() as int) =~= rest_vec_view);
            assert(wire_items_model(rest@) == seq![wire_model(head)] + wire_items_model(rest_vec_view));
        }
        rest
    }
}

fn encode_pairs_from(pairs: &Vec<(String, Value)>, i: usize) -> (r: Vec<(String, WireValue)>)
    requires
        i <= pairs.len(),
    ensures
        wire_pairs_model(r@) == spec_encode_pairs(model_pairs(pairs@.subrange(i as int, pairs@.len() as int))),
    decreases pairs@, pairs@.len() - i,
{
    let ghost tail_view = pairs@.subrange(i as int, pairs@.len() as int);
    if i == pairs.len() {
        let r: Vec<(String, WireValue)> = Vec::new();
        proof {
            assert(tail_view.len() == 0);
            assert(r@.len() == 0);
        }
        r
    } else {
        let name = pairs[i].0.clone();
        let head = encode(&pairs[i].1);
        let mut rest = encode_pairs_from(pairs, i + 1);
        let ghost rest_vec_view = rest@;
        rest.insert(0, (name, head));
        proof {
            let rest_view = pairs@.subrange(i as int + 1, pairs@.len() as int);
            assert(tail_view[0] == pairs@[i as int]);
            assert(tail_view.subrange(1, tail_view.len() as int) =~= rest_view);
            let ms = model_pairs(tail_view);
            assert(ms == seq![(pairs@[i as int].0@, value_model(pairs@[i as int].1))] + model_pairs(rest_view));
            assert(ms[0] == (pairs@[i as int].0@, value_model(pairs@[i as int].1)));
            assert(ms.subrange(1, ms.len() as int) =~= model_pairs(rest_view));
            assert(spec_encode_pairs(ms) == seq![(ms[0].0, Option::Some(spec_encode(ms[0].1)))]
                + spec_encode_pairs(model_pairs(rest_view)));
            assert(rest@ =~= seq![(name, head)] + rest_vec_view);
            assert(rest@[0] == (name, head));
            assert(rest@.subrange(1, rest@.len() as int) =~= rest_vec_view);
            assert(wire_pairs_model(rest@) == seq![(name@, wire_model(head))] + wire_pairs_model(rest_vec_view));
        }
        rest
    }
}

/// Decodes a wire union. An unset union is rejected as `EmptyValue`, never
/// taken for a default; no coercion is performed anywhere inside.
pub fn decode(w: &WireValue) -> (r: Result<Value, DecodeError>)
    ensures
        spec_decode(w@) is Ok ==> r is Ok && (r->Ok_0)@ == spec_decode(w@)->Ok_0,
        spec_decode(w@) is Err ==> r == Result::<Value, DecodeError>::Err(spec_decode(w@)->Err_0),
    decreases *w, 0int,
{
    match &w.value_type {
        None => Err(DecodeError::EmptyValue),
        Some(k) => match k {
            WireKind::NullValue => Ok(Value::Null),
            WireKind::BooleanValue(b) => Ok(Value::Boolean(*b)),
            WireKind::IntegerValue(i) => Ok(Value::Integer(*i)),
            WireKind::DoubleValue(bits) => Ok(Value::Double(*bits)),
            WireKind::TimestampValue(t) => Ok(Value::Timestamp(*t)),
            WireKind::StringValue(s) => Ok(Value::Text(s.clone())),
            WireKind::ReferenceValue(s) => Ok(Value::Reference(s.clone())),
            WireKind::ArrayValue(items) => {
                proof {
                    assert(items@.subrange(0, items@.len() as int) =~= items@);
                }
                match decode_items_from(items, 0) {
                    Err(e) => Err(e),
                    Ok(vs) => Ok(Value::Array(vs)),
                }
            },
            WireKind::MapValue(pairs) => {
                proof {
                    assert(pairs@.subrange(0, pairs@.len() as int) =~= pairs@);
                }
                match decode_pairs_from(pairs, 0) {
                    Err(e) => Err(e),
                    Ok(vs) => Ok(Value::Mapping(vs)),
                }
            },
        },
    }
}

fn decode_items_from(items: &Vec<WireValue>, i: usize) -> (r: Result<Vec<Value>, DecodeError>)
    requires
        i <= items.len(),
    ensures
        spec_decode_items(wire_items_model(items@.subrange(i as int, items@.len() as int))) is Ok ==> r is Ok
            && model_items((r->Ok_0)@)
                == spec_decode_items(wire_items_model(items@.subrange(i as int, items@.len() as int)))->Ok_0,
        spec_decode_items(wire_items_model(items@.subrange(i as int, items@.len() as int))) is Err ==> r is Err
            && r->Err_0
                == spec_decode_items(wire_items_model(items@.subrange(i as int, items@.len() as int)))->Err_0,
    decreases items@, items@.len() - i,
{
    let ghost tail_view = items@.subrange(i as int, items@.len() as int);
    if i == items.len() {
        let r: Vec<Value> = Vec::new();
        proof {
            assert(tail_view.len() == 0);
            assert(wire_items_model(tail_view).len() == 0);
            assert(model_items(r@) =~= Seq::<ValueModel>::empty());
        }
        Ok(r)
    } else {
        proof {
            let rest_view = items@.subrange(i as int + 1, items@.len() as int);
            assert(tail_view[0] == items@[i as int]);
            assert(tail_view.subrange(1, tail_view.len() as int) =~= rest_view);
            let ws = wire_items_model(tail_view);
            assert(ws == seq![wire_model(items@[i as int])] + wire_items_model(rest_view));
            assert(ws[0] == wire_model(items@[i as int]));
            assert(ws.subrange(1, ws.len() as int) =~= wire_items_model(rest_view));
        }
        match decode(&items[i]) {
            Err(e) => Err(e),
            Ok(v0) => match decode_items_from(items, i + 1) {
                Err(e) => Err(e),
                Ok(mut vs) => {
                    let ghost vs_view = vs@;
                    vs.insert(0, v0);
                    proof {
                        assert(vs@ =~= seq![v0] + vs_view);
                        assert(vs@[0] == v0);
                        assert(vs@.subrange(1, vs@.len() as int) =~= vs_view);
                        assert(model_items(vs@) == seq![value_model(v0)] + model_items(vs_view));
                    }
                    Ok(vs)
                },
            },
        }
    }
}

fn decode_pairs_from(pairs: &Vec<(String, WireValue)>, i: usize) -> (r: Result<Vec<(String, Value)>, DecodeError>)
    requires
        i <= pairs.len(),
    ensures
        spec_decode_pairs(wire_pairs_model(pairs@.subrange(i as int, pairs@.len() as int))) is Ok ==> r is Ok
            && model_pairs((r->Ok_0)@)
                == spec_decode_pairs(wire_pairs_model(pairs@.subrange(i as int, pairs@.len() as int)))->Ok_0,
        spec_decode_pairs(wire_pairs_model(pairs@.subrange(i as int, pairs@.len() as int))) is Err ==> r is Err
            && r->Err_0
                == spec_decode_pairs(wire_pairs_model(pairs@.subrange(i as int, pairs@.len() as int)))->Err_0,
    decreases pairs@, pairs@.len() - i,
{
    let ghost tail_view = pairs@.subrange(i as int, pairs@.len() as int);
    if i == pairs.len() {
        let r: Vec<(String, Value)> = Vec::new();
        proof {
            assert(tail_view.len() == 0);
            assert(wire_pairs_model(tail_view).len() == 0);
            assert(model_pairs(r@) =~= Seq::<(Seq<char>, ValueModel)>::empty());
        }
        Ok(r)
    } else {
        proof {
            let rest_view = pairs@.subrange(i as int + 1, pairs@.len() as int);
            assert(tail_view[0] == pairs@[i as int]);
            assert(tail_view.subrange(1, tail_view.len() as int) =~= rest_view);
            let ws = wire_pairs_model(tail_view);
            assert(ws == seq![(pairs@[i as int].0@, wire_model(pairs@[i as int].1))] + wire_pairs_model(rest_view));
            assert(ws[0] == (pairs@[i as int].0@, wire_model(pairs@[i as int].1)));
            assert(ws.subrange(1, ws.len() as int) =~= wire_pairs_model(rest_view));
        }
        let name = pairs[i].0.clone();
        match decode(&pairs[i].1) {
            Err(e) => Err(e),
            Ok(v0) => match decode_pairs_from(pairs, i + 1) {
                Err(e) => Err(e),
                Ok(mut vs) => {
                    let ghost vs_view = vs@;
                    vs.insert(0, (name, v0));
                    proof {
                        assert(vs@ =~= seq![(name, v0)] + vs_view);
                        assert(vs@[0] == (name, v0));
                        assert(vs@.subrange(1, vs@.len() as int) =~= vs_view);
                        assert(model_pairs(vs@) == seq![(name@, value_model(v0))] + model_pairs(vs_view));
                    }
                    Ok(vs)
                },
            },
        }
    }
}

/// The model of a sequence of named values is its elementwise model.
pub proof fn lemma_model_pairs_index(s: Seq<(String, Value)>)
    ensures
        model_pairs(s).len() == s.len(),
        forall|i: int| 0 <= i < s.len() ==> model_pairs(s)[i] == (s[i].0@, value_model(s[i].1)),
    decreases s.len(),
{
    if s.len() > 0 {
        let rest = s.subrange(1, s.len() as int);
        lemma_model_pairs_index(rest);
        assert forall|i: int| 0 <= i < s.len() implies model_pairs(s)[i] == (s[i].0@, value_model(s[i].1)) by {
            if i > 0 {
                assert(model_pairs(s)[i] == model_pairs(rest)[i - 1]);
                assert(rest[i - 1] == s[i]);
            }
        }
    }
}

/// Encodes a sequence of named values for the wire.
pub fn encode_pairs(pairs: &Vec<(String, Value)>) -> (r: Vec<(String, WireValue)>)
    ensures
        wire_pairs_model(r@) == spec_encode_pairs(model_pairs(pairs@)),
{
    proof {
        assert(pairs@.subrange(0, pairs@.len() as int) =~= pairs@);
    }
    encode_pairs_from(pairs, 0)
}

/// Decodes a sequence of named wire values; an error anywhere is the error
/// of the whole.
pub fn decode_pairs(pairs: &Vec<(String, WireValue)>) -> (r: Result<Vec<(String, Value)>, DecodeError>)
    ensures
        spec_decode_pairs(wire_pairs_model(pairs@)) is Ok ==> r is Ok
            && model_pairs((r->Ok_0)@) == spec_decode_pairs(wire_pairs_model(pairs@))->Ok_0,
        spec_decode_pairs(wire_pairs_model(pairs@)) is Err ==> r is Err
            && r->Err_0 == spec_decode_pairs(wire_pairs_model(pairs@))->Err_0,
{
    proof {
        assert(pairs@.subrange(0, pairs@.len() as int) =~= pairs@);
    }
    decode_pairs_from(pairs, 0)
}

/// The kind of a modelled value.
pub open spec fn spec_type_of(m: ValueModel) -> FieldType {
    match m {
        ValueModel::Null => FieldType::Null,
        ValueModel::Boolean(_) => FieldType::Boolean,
        ValueModel::Integer(_) => FieldType::Integer,
        ValueModel::Double(_) => FieldType::Double,
        ValueModel::Timestamp(_) => FieldType::Timestamp,
        ValueModel::Text(_) => FieldType::Text,
        ValueModel::Reference(_) => FieldType::Reference,
        ValueModel::Array(_) => FieldType::Array,
        ValueModel::Mapping(_) => FieldType::Mapping,
    }
}

impl Value {
    pub fn field_type(&self) -> (r: FieldType)
        ensures
            r == spec_type_of(self@),
    {
        match self {
            Value::Null => FieldType::Null,
            Value::Boolean(_) => FieldType::Boolean,
            Value::Integer(_) => FieldType::Integer,
            Value::Double(_) => FieldType::Double,
            Value::Timestamp(_) => FieldType::Timestamp,
            Value::Text(_) => FieldType::Text,
            Value::Reference(_) => FieldType::Reference,
            Value::Array(_) => FieldType::Array,
            Value::Mapping(_) => FieldType::Mapping,
        }
    }

    /// Strict extraction: the payload exactly when the value is a Boolean,
    /// otherwise the actual kind — never a coerced value.
    pub fn as_boolean(&self) -> (r: Result<bool, FieldType>)
        ensures
            self@ matches ValueModel::Boolean(b) ==> r == Result::<bool, FieldType>::Ok(b),
            !(self@ is Boolean) ==> r == Result::<bool, FieldType>::Err(spec_type_of(self@)),
    {
        match self {
            Value::Boolean(b) => Ok(*b),
            _ => Err(self.field_type()),
        }
    }

    /// Strict extraction of an Integer payload.
    pub fn as_integer(&self) -> (r: Result<i64, FieldType>)
        ensures
            self@ matches ValueModel::Integer(i) ==> r == Result::<i64, FieldType>::Ok(i),
            !(self@ is Integer) ==> r == Result::<i64, FieldType>::Err(spec_type_of(self@)),
    {
        match self {
            Value::Integer(i) => Ok(*i),
            _ => Err(self.field_type()),
        }
    }

    /// Strict extraction of a Double payload, as its raw bit pattern.
    pub fn as_double_bits(&self) -> (r: Result<u64, FieldType>)
        ensures
            self@ matches ValueModel::Double(bits) ==> r == Result::<u64, FieldType>::Ok(bits),
            !(self@ is Double) ==> r == Result::<u64, FieldType>::Err(spec_type_of(self@)),
    {
        match self {
            Value::Double(bits) => Ok(*bits),
            _ => Err(self.field_type()),
        }
    }

    /// Strict extraction of a Timestamp payload.
    pub fn as_timestamp(&self) -> (r: Result<Timestamp, FieldType>)
        ensures
            self@ matches ValueModel::Timestamp(t) ==> r == Result::<Timestamp, FieldType>::Ok(t),
            !(self@ is Timestamp) ==> r == Result::<Timestamp, FieldType>::Err(spec_type_of(self@)),
    {
        match self {
            Value::Timestamp(t) => Ok(*t),
            _ => Err(self.field_type()),
        }
    }

    /// Strict extraction of a String payload.
    pub fn as_text(&self) -> (r: Result<String, FieldType>)
        ensures
            self@ matches ValueModel::Text(s) ==> r is Ok && (r->Ok_0)@ == s,
            !(self@ is Text) ==> r == Result::<String, FieldType>::Err(spec_type_of(self@)),
    {
        match self {
            Value::Text(s) => Ok(s.clone()),
            _ => Err(self.field_type()),
        }
    }

    /// Strict extraction of a Reference payload.
    pub fn as_reference(&self) -> (r: Result<String, FieldType>)
        ensures
            self@ matches ValueModel::Reference(s) ==> r is Ok && (r->Ok_0)@ == s,
            !(self@ is Reference) ==> r == Result::<String, FieldType>::Err(spec_type_of(self@)),
    {
        match self {
            Value::Reference(s) => Ok(s.clone()),
            _ => Err(self.field_type()),
        }
    }

    /// Strict extraction of an Array payload.
    pub fn as_array(&self) -> (r: Result<&Vec<Value>, FieldType>)
        ensures
            self@ matches ValueModel::Array(items) ==> r is Ok && model_items((r->Ok_0)@) == items,
            !(self@ is Array) ==> r == Result::<&Vec<Value>, FieldType>::Err(spec_type_of(self@)),
    {
        match self {
            Value::Array(items) => Ok(items),
            _ => Err(self.field_type()),
        }
    }

    /// Strict extraction of a Map payload.
    pub fn as_mapping(&self) -> (r: Result<&Vec<(String, Value)>, FieldType>)
        ensures
            self@ matches ValueModel::Mapping(pairs) ==> r is Ok && model_pairs((r->Ok_0)@) == pairs,
            !(self@ is Mapping) ==> r == Result::<&Vec<(String, Value)>, FieldType>::Err(spec_type_of(self@)),
    {
        match self {
            Value::Mapping(pairs) => Ok(pairs),
            _ => Err(self.field_type()),
        }
    }
}

} // verus!
