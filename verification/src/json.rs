//! JSON documents: the value type the protocol modules work on, its
//! mathematical model, and the calls into `serde_json` that parse and print it.

use vstd::prelude::*;

use crate::text::same;

verus! {

/// `serde_json::Value`, a parsed document.
#[verifier::external_type_specification]
#[verifier::external_body]
pub struct ExJsonValue(serde_json::Value);

/// `serde_json::Number`, carried through for numbers that are doubles.
#[verifier::external_type_specification]
#[verifier::external_body]
pub struct ExJsonNumber(serde_json::Number);

/// `serde_json::Number::clone` copies the number.
pub assume_specification[ <serde_json::Number as Clone>::clone ](
    number: &serde_json::Number,
) -> (r: serde_json::Number)
    ensures
        r == *number,
;

/// A number that `serde_json` holds as a double. Only numbers that are no integers
/// to `serde_json` are put in here, when a value is taken apart or an integer is
/// turned into a double.
#[derive(Debug, PartialEq)]
pub struct Double {
    number: serde_json::Number,
}

impl Clone for Double {
    fn clone(&self) -> (r: Self)
        ensures
            r == *self,
    {
        Double { number: self.number.clone() }
    }
}

/// A JSON number by the way it is held: a non-negative integer, a negative
/// integer, a whole count that is sent as a double, or any other double.
#[derive(Debug, PartialEq)]
pub enum Num {
    Unsigned(u64),
    Negative(i64),
    Whole(u64),
    Double(Double),
}

/// A JSON document. Object members keep the order in which they were written.
#[derive(Debug, PartialEq)]
pub enum Json {
    Null,
    Bool(bool),
    Number(Num),
    Str(String),
    Array(Vec<Json>),
    Object(Vec<(String, Json)>),
}

/// What a JSON document says.
pub enum JsonV {
    Null,
    Bool(bool),
    Num(Num),
    Str(Seq<char>),
    Arr(Seq<JsonV>),
    Obj(Seq<(Seq<char>, JsonV)>),
}

impl View for Json {
    type V = JsonV;

    open spec fn view(&self) -> JsonV
        decreases self,
    {
        match self {
            Json::Null => JsonV::Null,
            Json::Bool(b) => JsonV::Bool(*b),
            Json::Number(n) => JsonV::Num(*n),
            Json::Str(s) => JsonV::Str(s@),
            Json::Array(items) => JsonV::Arr(
                Seq::new(
                    items@.len(),
                    |i: int|
                        if 0 <= i < items@.len() {
                            items@[i].view()
                        } else {
                            JsonV::Null
                        },
                ),
            ),
            Json::Object(pairs) => JsonV::Obj(
                Seq::new(
                    pairs@.len(),
                    |i: int|
                        if 0 <= i < pairs@.len() {
                            (pairs@[i].0@, pairs@[i].1.view())
                        } else {
                            (Seq::empty(), JsonV::Null)
                        },
                ),
            ),
        }
    }
}

/// The members of an object under construction.
pub open spec fn members(pairs: Seq<(String, Json)>) -> Seq<(Seq<char>, JsonV)> {
    Seq::new(pairs.len(), |i: int| (pairs[i].0@, pairs[i].1@))
}

/// The values of an array under construction.
pub open spec fn items(values: Seq<Json>) -> Seq<JsonV> {
    Seq::new(values.len(), |i: int| values[i]@)
}

/// The view of an object is made of its members' views.
pub broadcast proof fn object_view(pairs: Vec<(String, Json)>)
    ensures
        #[trigger] Json::Object(pairs)@ == JsonV::Obj(members(pairs@)),
{
    reveal_with_fuel(<Json as View>::view, 2);
    let got = Json::Object(pairs)@->Obj_0;
    assert(got.len() == pairs@.len());
    assert forall|i: int| 0 <= i < pairs@.len() implies got[i] == members(pairs@)[i] by {
        assert(got[i] == (pairs@[i].0@, pairs@[i].1@));
    }
    assert(got =~= members(pairs@));
}

/// The view of an array is made of its values' views.
pub broadcast proof fn array_view(values: Vec<Json>)
    ensures
        #[trigger] Json::Array(values)@ == JsonV::Arr(items(values@)),
{
    reveal_with_fuel(<Json as View>::view, 2);
    let got = Json::Array(values)@->Arr_0;
    assert(got.len() == values@.len());
    assert forall|i: int| 0 <= i < values@.len() implies got[i] == items(values@)[i] by {
        assert(got[i] == values@[i]@);
    }
    assert(got =~= items(values@));
}

/// The value stored under `key`: that of the first member with this key.
pub open spec fn lookup(pairs: Seq<(Seq<char>, JsonV)>, key: Seq<char>) -> Option<JsonV>
    decreases pairs.len(),
{
    if pairs.len() == 0 {
        None
    } else if pairs[0].0 == key {
        Some(pairs[0].1)
    } else {
        lookup(pairs.drop_first(), key)
    }
}

/// The members after `key` was set to `value`: a known key keeps its place, a
/// new one goes to the end.
pub open spec fn put(
    pairs: Seq<(Seq<char>, JsonV)>,
    key: Seq<char>,
    value: JsonV,
) -> Seq<(Seq<char>, JsonV)>
    decreases pairs.len(),
{
    if pairs.len() == 0 {
        seq![(key, value)]
    } else if pairs[0].0 == key {
        seq![(key, value)] + pairs.drop_first()
    } else {
        seq![pairs[0]] + put(pairs.drop_first(), key, value)
    }
}

/// The members without the first one under `key`; the rest keep their order.
pub open spec fn without(pairs: Seq<(Seq<char>, JsonV)>, key: Seq<char>) -> Seq<
    (Seq<char>, JsonV),
>
    decreases pairs.len(),
{
    if pairs.len() == 0 {
        pairs
    } else if pairs[0].0 == key {
        pairs.drop_first()
    } else {
        seq![pairs[0]] + without(pairs.drop_first(), key)
    }
}

impl JsonV {
    /// The member `key` of an object; nothing for any other value.
    pub open spec fn get(self, key: Seq<char>) -> Option<JsonV> {
        match self {
            JsonV::Obj(pairs) => lookup(pairs, key),
            _ => None,
        }
    }

    /// The text of a string.
    pub open spec fn str(self) -> Option<Seq<char>> {
        match self {
            JsonV::Str(s) => Some(s),
            _ => None,
        }
    }

    /// The value of a boolean.
    pub open spec fn bool(self) -> Option<bool> {
        match self {
            JsonV::Bool(b) => Some(b),
            _ => None,
        }
    }

    /// The value of a number held as a non-negative integer.
    pub open spec fn u64(self) -> Option<u64> {
        match self {
            JsonV::Num(Num::Unsigned(n)) => Some(n),
            _ => None,
        }
    }

    /// The value of a number held as an integer that fits 64 signed bits.
    pub open spec fn i64(self) -> Option<i64> {
        match self {
            JsonV::Num(Num::Unsigned(n)) => if n <= i64::MAX {
                Some(n as i64)
            } else {
                None
            },
            JsonV::Num(Num::Negative(n)) => Some(n),
            _ => None,
        }
    }

    /// The text stored under `key`.
    pub open spec fn str_at(self, key: Seq<char>) -> Option<Seq<char>> {
        match self.get(key) {
            Some(v) => v.str(),
            None => None,
        }
    }

    /// The boolean stored under `key`.
    pub open spec fn bool_at(self, key: Seq<char>) -> Option<bool> {
        match self.get(key) {
            Some(v) => v.bool(),
            None => None,
        }
    }

    /// The non-negative integer stored under `key`.
    pub open spec fn u64_at(self, key: Seq<char>) -> Option<u64> {
        match self.get(key) {
            Some(v) => v.u64(),
            None => None,
        }
    }

    /// The signed integer stored under `key`.
    pub open spec fn i64_at(self, key: Seq<char>) -> Option<i64> {
        match self.get(key) {
            Some(v) => v.i64(),
            None => None,
        }
    }

    /// The value is an object.
    pub open spec fn is_object(self) -> bool {
        self is Obj
    }
}

/// The views of an optional string.
pub open spec fn opt_view(value: Option<String>) -> Option<Seq<char>> {
    match value {
        Some(s) => Some(s@),
        None => None,
    }
}

/// The view of an optional string slice.
pub open spec fn opt_str_view(value: Option<&str>) -> Option<Seq<char>> {
    match value {
        Some(s) => Some(s@),
        None => None,
    }
}

/// The view of an optional document.
pub open spec fn opt_json(value: Option<Json>) -> Option<JsonV> {
    match value {
        Some(v) => Some(v@),
        None => None,
    }
}

impl Clone for Num {
    fn clone(&self) -> (r: Self)
        ensures
            r == *self,
    {
        match self {
            Num::Unsigned(n) => Num::Unsigned(*n),
            Num::Negative(n) => Num::Negative(*n),
            Num::Whole(n) => Num::Whole(*n),
            Num::Double(n) => Num::Double(n.clone()),
        }
    }
}

impl Clone for Json {
    fn clone(&self) -> (r: Self)
        ensures
            r@ == self@,
        decreases self,
    {
        broadcast use {object_view, array_view};

        match self {
            Json::Null => Json::Null,
            Json::Bool(b) => Json::Bool(*b),
            Json::Number(n) => Json::Number(n.clone()),
            Json::Str(s) => Json::Str(s.clone()),
            Json::Array(values) => {
                let mut out: Vec<Json> = Vec::new();
                let mut i: usize = 0;
                while i < values.len()
                    invariant
                        i <= values.len(),
                        out.len() == i,
                        items(out@) == items(values@).take(i as int),
                        decreases_to!(self => values@),
                    decreases values.len() - i,
                {
                    let ghost before = out@;
                    let copy = values[i].clone();
                    out.push(copy);
                    i += 1;
                    assert(items(out@) =~= items(values@).take(i as int)) by {
                        assert(items(before) =~= items(values@).take(i - 1));
                        assert forall|j: int| 0 <= j < i implies items(out@)[j] == items(
                            values@,
                        ).take(i as int)[j] by {
                            if j < i - 1 {
                                assert(items(before)[j] == items(values@).take(i - 1)[j]);
                            }
                        }
                    }
                }
                assert(items(out@) =~= items(values@));
                Json::Array(out)
            },
            Json::Object(pairs) => {
                let mut out: Vec<(String, Json)> = Vec::new();
                let mut i: usize = 0;
                while i < pairs.len()
                    invariant
                        i <= pairs.len(),
                        out.len() == i,
                        members(out@) == members(pairs@).take(i as int),
                        decreases_to!(self => pairs@),
                    decreases pairs.len() - i,
                {
                    let ghost before = out@;
                    let key = pairs[i].0.clone();
                    let copy = pairs[i].1.clone();
                    out.push((key, copy));
                    i += 1;
                    assert(members(out@) =~= members(pairs@).take(i as int)) by {
                        assert(members(before) =~= members(pairs@).take(i - 1));
                        assert forall|j: int| 0 <= j < i implies members(out@)[j] == members(
                            pairs@,
                        ).take(i as int)[j] by {
                            if j < i - 1 {
                                assert(members(before)[j] == members(pairs@).take(i - 1)[j]);
                            }
                        }
                    }
                }
                assert(members(out@) =~= members(pairs@));
                Json::Object(out)
            },
        }
    }
}

/// The member stored under `key`.
pub fn member<'a>(pairs: &'a Vec<(String, Json)>, key: &str) -> (r: Option<&'a Json>)
    ensures
        match r {
            Some(v) => lookup(members(pairs@), key@) == Some(v@),
            None => lookup(members(pairs@), key@) is None,
        },
{
    let mut i: usize = 0;
    assert(members(pairs@).skip(0) =~= members(pairs@));
    while i < pairs.len()
        invariant
            i <= pairs.len(),
            lookup(members(pairs@), key@) == lookup(members(pairs@).skip(i as int), key@),
        decreases pairs.len() - i,
    {
        proof {
            assert(members(pairs@).skip(i as int)[0] == members(pairs@)[i as int]);
            assert(members(pairs@).skip(i as int).drop_first() =~= members(pairs@).skip(i + 1));
        }
        if same(&pairs[i].0, key) {
            return Some(&pairs[i].1);
        }
        i += 1;
    }
    None
}

/// Sets a member; a known key keeps its place.
pub fn set_member(pairs: &mut Vec<(String, Json)>, key: &str, value: Json)
    ensures
        members(final(pairs)@) == put(members(old(pairs)@), key@, value@),
{
    let ghost before = members(pairs@);
    let mut i: usize = 0;
    assert(before.skip(0) =~= before);
    assert(before.take(0) + put(before, key@, value@) =~= put(before, key@, value@));
    while i < pairs.len()
        invariant
            i <= pairs.len(),
            before == members(old(pairs)@),
            members(pairs@) == before,
            put(before, key@, value@) == before.take(i as int) + put(
                before.skip(i as int),
                key@,
                value@,
            ),
        decreases pairs.len() - i,
    {
        proof {
            assert(before.skip(i as int)[0] == before[i as int]);
            assert(before.skip(i as int).drop_first() =~= before.skip(i + 1));
        }
        if same(&pairs[i].0, key) {
            let ghost v = value@;
            let stored = pairs[i].0.clone();
            let ghost unset = pairs@;
            pairs.set(i, (stored, value));
            assert(forall|j: int|
                #![trigger members(pairs@)[j]]
                0 <= j < pairs@.len() && j != i ==> members(pairs@)[j] == members(unset)[j]);
            assert(members(pairs@) =~= before.take(i as int) + (seq![(key@, v)] + before.skip(
                i + 1,
            )));
            return;
        }
        assert(before.take(i as int) + (seq![before[i as int]] + put(
            before.skip(i + 1),
            key@,
            value@,
        )) =~= before.take(i + 1) + put(before.skip(i + 1), key@, value@));
        i += 1;
    }
    let ghost v = value@;
    pairs.push((key.to_owned(), value));
    assert(before.skip(i as int) =~= Seq::<(Seq<char>, JsonV)>::empty());
    assert(members(pairs@) =~= before.take(i as int) + seq![(key@, v)]);
}

/// Removes a member; the others keep their order.
pub fn remove_member(pairs: &mut Vec<(String, Json)>, key: &str)
    ensures
        members(final(pairs)@) == without(members(old(pairs)@), key@),
{
    let ghost before = members(pairs@);
    let mut i: usize = 0;
    assert(before.skip(0) =~= before);
    assert(before.take(0) + without(before, key@) =~= without(before, key@));
    while i < pairs.len()
        invariant
            i <= pairs.len(),
            before == members(old(pairs)@),
            members(pairs@) == before,
            without(before, key@) == before.take(i as int) + without(before.skip(i as int), key@),
        decreases pairs.len() - i,
    {
        proof {
            assert(before.skip(i as int)[0] == before[i as int]);
            assert(before.skip(i as int).drop_first() =~= before.skip(i + 1));
        }
        if same(&pairs[i].0, key) {
            let ghost unset = pairs@;
            pairs.remove(i);
            assert(forall|j: int|
                #![trigger members(pairs@)[j]]
                0 <= j < pairs@.len() ==> members(pairs@)[j] == members(unset)[if j < i {
                    j
                } else {
                    j + 1
                }]);
            assert(members(pairs@) =~= before.take(i as int) + before.skip(i + 1));
            return;
        }
        assert(before.take(i as int) + (seq![before[i as int]] + without(before.skip(i + 1), key@))
            =~= before.take(i + 1) + without(before.skip(i + 1), key@));
        i += 1;
    }
    assert(before.skip(i as int) =~= Seq::<(Seq<char>, JsonV)>::empty());
    assert(before.take(i as int) + Seq::<(Seq<char>, JsonV)>::empty() =~= before);
}

impl Json {
    /// The member `key` of an object.
    pub fn get(&self, key: &str) -> (r: Option<&Json>)
        ensures
            match r {
                Some(v) => self@.get(key@) == Some(v@),
                None => self@.get(key@) is None,
            },
    {
        broadcast use {object_view, array_view};

        match self {
            Json::Object(pairs) => member(pairs, key),
            _ => None,
        }
    }

    /// The text of a string.
    pub fn as_str(&self) -> (r: Option<&str>)
        ensures
            opt_str_view(r) == self@.str(),
    {
        match self {
            Json::Str(s) => Some(s.as_str()),
            _ => None,
        }
    }

    /// The value of a boolean.
    pub fn as_bool(&self) -> (r: Option<bool>)
        ensures
            r == self@.bool(),
    {
        match self {
            Json::Bool(b) => Some(*b),
            _ => None,
        }
    }

    /// The value of a number held as a non-negative integer.
    pub fn as_u64(&self) -> (r: Option<u64>)
        ensures
            r == self@.u64(),
    {
        match self {
            Json::Number(Num::Unsigned(n)) => Some(*n),
            _ => None,
        }
    }

    /// The value of a number held as an integer that fits 64 signed bits.
    pub fn as_i64(&self) -> (r: Option<i64>)
        ensures
            r == self@.i64(),
    {
        match self {
            Json::Number(Num::Unsigned(n)) => if *n <= i64::MAX as u64 {
                Some(*n as i64)
            } else {
                None
            },
            Json::Number(Num::Negative(n)) => Some(*n),
            _ => None,
        }
    }

    /// The members of an object.
    pub fn as_object(&self) -> (r: Option<&Vec<(String, Json)>>)
        ensures
            match r {
                Some(pairs) => self@ == JsonV::Obj(members(pairs@)),
                None => !self@.is_object(),
            },
    {
        broadcast use {object_view, array_view};

        match self {
            Json::Object(pairs) => Some(pairs),
            _ => None,
        }
    }

    /// The values of an array.
    pub fn as_array(&self) -> (r: Option<&Vec<Json>>)
        ensures
            match r {
                Some(values) => self@ == JsonV::Arr(items(values@)),
                None => !(self@ is Arr),
            },
    {
        broadcast use {object_view, array_view};

        match self {
            Json::Array(values) => Some(values),
            _ => None,
        }
    }

    /// The text stored under `key`.
    pub fn str_at(&self, key: &str) -> (r: Option<&str>)
        ensures
            opt_str_view(r) == self@.str_at(key@),
    {
        match self.get(key) {
            Some(v) => v.as_str(),
            None => None,
        }
    }

    /// The boolean stored under `key`.
    pub fn bool_at(&self, key: &str) -> (r: Option<bool>)
        ensures
            r == self@.bool_at(key@),
    {
        match self.get(key) {
            Some(v) => v.as_bool(),
            None => None,
        }
    }

    /// The non-negative integer stored under `key`.
    pub fn u64_at(&self, key: &str) -> (r: Option<u64>)
        ensures
            r == self@.u64_at(key@),
    {
        match self.get(key) {
            Some(v) => v.as_u64(),
            None => None,
        }
    }

    /// The signed integer stored under `key`.
    pub fn i64_at(&self, key: &str) -> (r: Option<i64>)
        ensures
            r == self@.i64_at(key@),
    {
        match self.get(key) {
            Some(v) => v.as_i64(),
            None => None,
        }
    }

    /// The text stored under `key` is exactly `expected`.
    pub fn str_is(&self, key: &str, expected: &str) -> (r: bool)
        ensures
            r == (self@.str_at(key@) == Some(expected@)),
    {
        match self.str_at(key) {
            Some(s) => same(s, expected),
            None => false,
        }
    }
}

/// The keys of an object are pairwise distinct.
pub open spec fn distinct_keys(pairs: Seq<(Seq<char>, JsonV)>) -> bool {
    forall|i: int, j: int| 0 <= i < j < pairs.len() ==> pairs[i].0 != pairs[j].0
}

/// The document can be held by `serde_json` as it stands: distinct keys at every
/// level, negative integers below zero, no count that is sent as a double.
pub open spec fn sound(value: JsonV) -> bool
    decreases value,
{
    match value {
        JsonV::Num(Num::Negative(n)) => n < 0,
        JsonV::Num(Num::Whole(_)) => false,
        JsonV::Arr(values) => (forall|i: int|
            0 <= i < values.len() ==> sound(#[trigger] values[i])),
        JsonV::Obj(pairs) => distinct_keys(pairs) && forall|i: int|
            0 <= i < pairs.len() ==> sound((#[trigger] pairs[i]).1),
        _ => true,
    }
}

/// The values of a sound array are sound.
pub proof fn sound_item(values: Seq<JsonV>, i: int)
    requires
        sound(JsonV::Arr(values)),
        0 <= i < values.len(),
    ensures
        sound(values[i]),
{
    assert(sound(JsonV::Arr(values)->Arr_0[i]));
}

/// No number in the document is a double.
pub open spec fn integral(value: JsonV) -> bool
    decreases value,
{
    match value {
        JsonV::Num(Num::Double(_)) => false,
        JsonV::Arr(values) => forall|i: int|
            0 <= i < values.len() ==> integral(#[trigger] values[i]),
        JsonV::Obj(pairs) => forall|i: int|
            0 <= i < pairs.len() ==> integral((#[trigger] pairs[i]).1),
        _ => true,
    }
}

/// Arrays and objects are nested at most `limit` deep.
pub open spec fn nested_within(value: JsonV, limit: nat) -> bool
    decreases value,
{
    match value {
        JsonV::Arr(values) => limit > 0 && forall|i: int|
            0 <= i < values.len() ==> nested_within(#[trigger] values[i], (limit - 1) as nat),
        JsonV::Obj(pairs) => limit > 0 && forall|i: int|
            0 <= i < pairs.len() ==> nested_within((#[trigger] pairs[i]).1, (limit - 1) as nat),
        _ => true,
    }
}

/// How deep a document may be nested for the parser to take it.
pub const MAX_NESTING: u64 = 127;

/// The document reads back as itself: `serde_json` can hold it, it is not nested
/// too deep, and it holds no double.
pub open spec fn reads_back(value: JsonV) -> bool {
    sound(value) && integral(value) && nested_within(value, MAX_NESTING as nat)
}

/// One level of a `serde_json::Value`.
pub enum Layer {
    Null,
    Bool(bool),
    Number(Num),
    Str(String),
    Array(Vec<serde_json::Value>),
    Object(Vec<(String, serde_json::Value)>),
}

/// What a `serde_json::Value` holds.
pub uninterp spec fn value_model(value: serde_json::Value) -> JsonV;

/// The document that `serde_json` reads from a byte text, or the error's text.
pub uninterp spec fn parsed_json(bytes: Seq<u8>) -> Result<JsonV, Seq<char>>;

/// The bytes are the text of this document.
pub open spec fn parses_to(bytes: Seq<u8>, value: JsonV) -> bool {
    parsed_json(bytes) == Ok::<JsonV, Seq<char>>(value)
}

/// The bytes are no JSON document; `error` says why.
pub open spec fn parse_fails(bytes: Seq<u8>, error: Seq<char>) -> bool {
    parsed_json(bytes) == Err::<JsonV, Seq<char>>(error)
}

/// The compact text that `serde_json` writes for a document.
pub uninterp spec fn printed_json(value: JsonV) -> Seq<char>;

/// What one level holds.
pub open spec fn layer_model(layer: Layer) -> JsonV {
    match layer {
        Layer::Null => JsonV::Null,
        Layer::Bool(b) => JsonV::Bool(b),
        Layer::Number(n) => JsonV::Num(n),
        Layer::Str(s) => JsonV::Str(s@),
        Layer::Array(values) => JsonV::Arr(
            Seq::new(values@.len(), |i: int| value_model(values@[i])),
        ),
        Layer::Object(pairs) => JsonV::Obj(
            Seq::new(pairs@.len(), |i: int| (pairs@[i].0@, value_model(pairs@[i].1))),
        ),
    }
}

/// Takes a `serde_json::Value` apart, one level: each variant's content is handed
/// out as it is, object members in the order in which they are kept.
#[verifier::external_body]
fn unpack(value: serde_json::Value) -> (r: Layer)
    ensures
        layer_model(r) == value_model(value),
{
    match value {
        serde_json::Value::Null => Layer::Null,
        serde_json::Value::Bool(b) => Layer::Bool(b),
        serde_json::Value::Number(n) => Layer::Number(match (n.as_u64(), n.as_i64()) {
            (Some(u), _) => Num::Unsigned(u),
            (None, Some(i)) => Num::Negative(i),
            (None, None) => Num::Double(Double { number: n }),
        }),
        serde_json::Value::String(s) => Layer::Str(s),
        serde_json::Value::Array(values) => Layer::Array(values),
        serde_json::Value::Object(pairs) => Layer::Object(pairs.into_iter().collect()),
    }
}

/// Builds a `serde_json::Value` from one level. Where the keys are distinct, a
/// negative integer is below zero and no count is sent as a double, the value
/// holds just that level; a double is none of the integers that `serde_json` knows.
#[verifier::external_body]
fn pack(layer: Layer) -> (r: serde_json::Value)
    ensures
        (match layer_model(layer) {
            JsonV::Num(Num::Negative(n)) => n < 0,
            JsonV::Num(Num::Whole(_)) => false,
            JsonV::Obj(pairs) => distinct_keys(pairs),
            _ => true,
        }) ==> value_model(r) == layer_model(layer),
{
    match layer {
        Layer::Null => serde_json::Value::Null,
        Layer::Bool(b) => serde_json::Value::Bool(b),
        Layer::Number(Num::Unsigned(n)) => serde_json::Value::from(n),
        Layer::Number(Num::Negative(n)) => serde_json::Value::from(n),
        Layer::Number(Num::Whole(n)) => serde_json::Value::from(n),
        Layer::Number(Num::Double(n)) => serde_json::Value::Number(n.number),
        Layer::Str(s) => serde_json::Value::String(s),
        Layer::Array(values) => serde_json::Value::Array(values),
        Layer::Object(pairs) => serde_json::Value::Object(pairs.into_iter().collect()),
    }
}

/// `serde_json::from_slice` into a `serde_json::Value`: the same bytes give the
/// same document or the same error.
#[verifier::external_body]
fn read_value(bytes: &[u8]) -> (r: Result<serde_json::Value, String>)
    ensures
        match r {
            Ok(value) => parsed_json(bytes@) is Ok && parsed_json(bytes@)->Ok_0 == value_model(
                value,
            ),
            Err(error) => parsed_json(bytes@) is Err && parsed_json(bytes@)->Err_0 == error@,
        },
{
    serde_json::from_slice(bytes).map_err(|error| error.to_string())
}

/// `serde_json::to_string` of a `serde_json::Value`: one line of text, never empty, which
/// `serde_json::from_slice` reads back where the document holds no double and is
/// not nested too deep.
#[verifier::external_body]
fn write_value(value: &serde_json::Value) -> (r: String)
    ensures
        r@ == printed_json(value_model(*value)),
        r@.len() > 0,
        !r@.contains('\n'),
        reads_back(value_model(*value)) ==> parses_to(
            vstd::utf8::encode_utf8(r@),
            value_model(*value),
        ),
{
    serde_json::to_string(value).unwrap_or_default()
}

/// The library's copy of a `serde_json::Value`.
pub fn json_from_value(value: serde_json::Value) -> (r: Json)
    ensures
        r@ == value_model(value),
    decreases value_model(value),
{
    broadcast use {object_view, array_view};

    let ghost model = value_model(value);
    match unpack(value) {
        Layer::Null => Json::Null,
        Layer::Bool(b) => Json::Bool(b),
        Layer::Number(n) => Json::Number(n),
        Layer::Str(s) => Json::Str(s),
        Layer::Array(values) => {
            let ghost all = model->Arr_0;
            let mut rest = values;
            let mut out: Vec<Json> = Vec::new();
            while rest.len() > 0
                invariant
                    out.len() + rest.len() == all.len(),
                    model == JsonV::Arr(all),
                    forall|i: int|
                        0 <= i < rest.len() ==> value_model(#[trigger] rest@[i]) == all[out.len() + i],
                    forall|i: int| 0 <= i < out.len() ==> (#[trigger] out@[i])@ == all[i],
                    value_model(value) == model,
                decreases rest.len(),
            {
                let first = rest.remove(0);
                assert(value_model(first) == all[out.len() as int]);
                assert(decreases_to!(model => model->Arr_0));
                assert(decreases_to!(model->Arr_0 => model->Arr_0[out.len() as int]));
                let copy = json_from_value(first);
                out.push(copy);
            }
            assert(items(out@) =~= all);
            Json::Array(out)
        },
        Layer::Object(pairs) => {
            let ghost all = model->Obj_0;
            let mut rest = pairs;
            let mut out: Vec<(String, Json)> = Vec::new();
            while rest.len() > 0
                invariant
                    out.len() + rest.len() == all.len(),
                    model == JsonV::Obj(all),
                    forall|i: int|
                        0 <= i < rest.len() ==> (
                        (#[trigger] rest@[i]).0@,
                        value_model(rest@[i].1),
                    ) == all[out.len() + i],
                    forall|i: int|
                        0 <= i < out.len() ==> ((#[trigger] out@[i]).0@, out@[i].1@) == all[i],
                    value_model(value) == model,
                decreases rest.len(),
            {
                let first = rest.remove(0);
                assert((first.0@, value_model(first.1)) == all[out.len() as int]);
                assert(decreases_to!(model => model->Obj_0));
                assert(decreases_to!(model->Obj_0 => model->Obj_0[out.len() as int]));
                assert(decreases_to!(model->Obj_0[out.len() as int] => model->Obj_0[out.len() as int].1));
                let copy = json_from_value(first.1);
                out.push((first.0, copy));
            }
            assert(members(out@) =~= all);
            Json::Object(out)
        },
    }
}

/// The document can be held by `serde_json` once its counts are doubles: distinct
/// keys at every level, and negative integers below zero.
pub open spec fn holdable(value: JsonV) -> bool
    decreases value,
{
    match value {
        JsonV::Num(Num::Negative(n)) => n < 0,
        JsonV::Arr(values) => (forall|i: int|
            0 <= i < values.len() ==> holdable(#[trigger] values[i])),
        JsonV::Obj(pairs) => distinct_keys(pairs) && forall|i: int|
            0 <= i < pairs.len() ==> holdable((#[trigger] pairs[i]).1),
        _ => true,
    }
}

/// The document with its counts as doubles.
pub open spec fn held(value: JsonV) -> JsonV
    decreases value,
{
    match value {
        JsonV::Num(Num::Whole(n)) => JsonV::Num(double_of(Num::Whole(n))),
        JsonV::Arr(values) => JsonV::Arr(
            Seq::new(
                values.len(),
                |i: int|
                    if 0 <= i < values.len() {
                        held(values[i])
                    } else {
                        JsonV::Null
                    },
            ),
        ),
        JsonV::Obj(pairs) => JsonV::Obj(
            Seq::new(
                pairs.len(),
                |i: int|
                    if 0 <= i < pairs.len() {
                        (pairs[i].0, held(pairs[i].1))
                    } else {
                        (Seq::empty(), JsonV::Null)
                    },
            ),
        ),
        _ => value,
    }
}

/// A document without counts is held as it stands.
pub proof fn sound_is_held(value: JsonV)
    requires
        sound(value),
    ensures
        holdable(value),
        held(value) == value,
    decreases value,
{
    match value {
        JsonV::Arr(values) => {
            assert forall|i: int| 0 <= i < values.len() implies holdable(#[trigger] values[i]) && held(
                values[i],
            ) == values[i] by {
                sound_is_held(values[i]);
            }
            assert(held(value)->Arr_0 =~= values);
        },
        JsonV::Obj(pairs) => {
            assert forall|i: int| 0 <= i < pairs.len() implies holdable((#[trigger] pairs[i]).1)
                && held(pairs[i].1) == pairs[i].1 by {
                sound_is_held(pairs[i].1);
            }
            assert(held(value)->Obj_0 =~= pairs);
        },
        _ => {},
    }
}

/// The values of a document that can be held can be held.
pub proof fn holdable_item(values: Seq<JsonV>, i: int)
    requires
        holdable(JsonV::Arr(values)),
        0 <= i < values.len(),
    ensures
        holdable(values[i]),
{
    assert(holdable(JsonV::Arr(values)->Arr_0[i]));
}

/// A number taken as a double.
pub uninterp spec fn double_of(number: Num) -> Num;

/// `serde_json::Number::from_f64` of a number's nearest double: the same number
/// gives the same double, and a double stays as it is.
#[verifier::external_body]
fn nearest_double(number: &Num) -> (r: Num)
    ensures
        r == double_of(*number),
        r is Double,
        *number is Double ==> r == *number,
{
    match number {
        Num::Unsigned(n) => serde_json::Number::from_f64(*n as _).map_or(
            Num::Whole(*n),
            |number| Num::Double(Double { number }),
        ),
        Num::Negative(n) => serde_json::Number::from_f64(*n as _).map_or(
            Num::Negative(*n),
            |number| Num::Double(Double { number }),
        ),
        Num::Whole(n) => serde_json::Number::from_f64(*n as _).map_or(
            Num::Whole(*n),
            |number| Num::Double(Double { number }),
        ),
        Num::Double(n) => Num::Double(n.clone()),
    }
}

/// A number taken as a double.
pub fn as_double(number: &Num) -> (r: Num)
    ensures
        r == double_of(*number),
        r is Double,
{
    nearest_double(number)
}

fn held_number(number: &Num) -> (r: Num)
    ensures
        JsonV::Num(r) == held(JsonV::Num(*number)),
        r !is Whole,
        r is Negative ==> r == *number,
{
    match number {
        Num::Whole(_) => nearest_double(number),
        _ => number.clone(),
    }
}

/// A document as a `serde_json::Value`.
pub fn value_from_json(json: &Json) -> (r: serde_json::Value)
    ensures
        holdable(json@) ==> value_model(r) == held(json@),
    decreases json,
{
    broadcast use {object_view, array_view};

    match json {
        Json::Null => pack(Layer::Null),
        Json::Bool(b) => pack(Layer::Bool(*b)),
        Json::Number(n) => pack(Layer::Number(held_number(n))),
        Json::Str(s) => pack(Layer::Str(s.clone())),
        Json::Array(values) => {
            let ghost all = items(values@);
            assert forall|j: int| 0 <= j < all.len() && holdable(json@) implies holdable(
                #[trigger] all[j],
            ) by {
                holdable_item(all, j);
            }
            let mut out: Vec<serde_json::Value> = Vec::new();
            let mut i: usize = 0;
            while i < values.len()
                invariant
                    i <= values.len(),
                    out.len() == i,
                    all == items(values@),
                    holdable(json@) ==> forall|j: int|
                        0 <= j < all.len() ==> holdable(#[trigger] all[j]),
                    holdable(json@) ==> forall|j: int|
                        0 <= j < i ==> value_model(#[trigger] out@[j]) == held(all[j]),
                    decreases_to!(json => values@),
                decreases values.len() - i,
            {
                assert(all[i as int] == values@[i as int]@);
                let copy = value_from_json(&values[i]);
                out.push(copy);
                i += 1;
            }
            let layer = Layer::Array(out);
            assert(holdable(json@) ==> layer_model(layer)->Arr_0 =~= held(JsonV::Arr(all))->Arr_0);
            pack(layer)
        },
        Json::Object(pairs) => {
            let ghost all = members(pairs@);
            let mut out: Vec<(String, serde_json::Value)> = Vec::new();
            let mut i: usize = 0;
            while i < pairs.len()
                invariant
                    i <= pairs.len(),
                    out.len() == i,
                    all == members(pairs@),
                    holdable(json@) ==> holdable(JsonV::Obj(all)),
                    holdable(json@) ==> forall|j: int|
                        0 <= j < i ==> ((#[trigger] out@[j]).0@, value_model(out@[j].1)) == (
                            all[j].0,
                            held(all[j].1),
                        ),
                    decreases_to!(json => pairs@),
                decreases pairs.len() - i,
            {
                assert(all[i as int] == (pairs@[i as int].0@, pairs@[i as int].1@));
                let copy = value_from_json(&pairs[i].1);
                out.push((pairs[i].0.clone(), copy));
                i += 1;
            }
            let layer = Layer::Object(out);
            assert(holdable(json@) ==> layer_model(layer)->Obj_0 =~= held(JsonV::Obj(all))->Obj_0);
            assert(holdable(json@) ==> distinct_keys(held(JsonV::Obj(all))->Obj_0)) by {
                if holdable(json@) {
                    let kept = held(JsonV::Obj(all))->Obj_0;
                    assert forall|a: int, b: int| 0 <= a < b < kept.len() implies kept[a].0
                        != kept[b].0 by {
                        assert(all[a].0 != all[b].0);
                    }
                }
            }
            pack(layer)
        },
    }
}

/// Reads a JSON document.
pub fn parse_json(bytes: &[u8]) -> (r: Result<Json, String>)
    ensures
        match r {
            Ok(json) => parses_to(bytes@, json@),
            Err(error) => parse_fails(bytes@, error@),
        },
{
    match read_value(bytes) {
        Ok(value) => Ok(json_from_value(value)),
        Err(error) => Err(error),
    }
}

/// Writes a JSON document on one line.
pub fn print_json(json: &Json) -> (r: String)
    ensures
        r@.len() > 0,
        !r@.contains('\n'),
        holdable(json@) ==> r@ == printed_json(held(json@)),
        sound(json@) ==> r@ == printed_json(json@),
        reads_back(json@) ==> parses_to(
            vstd::utf8::encode_utf8(r@),
            json@,
        ),
{
    proof {
        if sound(json@) {
            sound_is_held(json@);
        }
    }
    let value = value_from_json(json);
    write_value(&value)
}


/// Looking a key up after one more member was added at the end.
pub broadcast proof fn lookup_push(
    pairs: Seq<(Seq<char>, JsonV)>,
    pair: (Seq<char>, JsonV),
    key: Seq<char>,
)
    ensures
        #[trigger] lookup(pairs.push(pair), key) == match lookup(pairs, key) {
            Some(v) => Some(v),
            None => if pair.0 == key {
                Some(pair.1)
            } else {
                None
            },
        },
    decreases pairs.len(),
{
    let more = pairs.push(pair);
    if pairs.len() == 0 {
        assert(more[0] == pair);
        assert(lookup(more.drop_first(), key) is None);
    } else {
        assert(more[0] == pairs[0]);
        assert(more.drop_first() =~= pairs.drop_first().push(pair));
        lookup_push(pairs.drop_first(), pair, key);
    }
}

/// Looking a key up in two lists of members, one after the other.
pub proof fn lookup_concat(
    a: Seq<(Seq<char>, JsonV)>,
    b: Seq<(Seq<char>, JsonV)>,
    key: Seq<char>,
)
    ensures
        lookup(a + b, key) == match lookup(a, key) {
            Some(value) => Some(value),
            None => lookup(b, key),
        },
    decreases a.len(),
{
    if a.len() == 0 {
        assert(a + b =~= b);
    } else {
        assert((a + b)[0] == a[0]);
        assert((a + b).drop_first() =~= a.drop_first() + b);
        lookup_concat(a.drop_first(), b, key);
    }
}

/// A key that no member has leads to nothing.
pub proof fn lookup_absent(pairs: Seq<(Seq<char>, JsonV)>, key: Seq<char>)
    requires
        forall|i: int| 0 <= i < pairs.len() ==> (#[trigger] pairs[i]).0 != key,
    ensures
        lookup(pairs, key) is None,
    decreases pairs.len(),
{
    if pairs.len() > 0 {
        assert forall|i: int| 0 <= i < pairs.drop_first().len() implies (
        #[trigger] pairs.drop_first()[i]).0 != key by {
            assert(pairs.drop_first()[i] == pairs[i + 1]);
        }
        lookup_absent(pairs.drop_first(), key);
    }
}

/// No key is found where there is no member.
pub broadcast proof fn lookup_empty(key: Seq<char>)
    ensures
        #[trigger] lookup(Seq::empty(), key) == None::<JsonV>,
{
}

/// A key that is not found is the key of no member.
pub proof fn lookup_none(pairs: Seq<(Seq<char>, JsonV)>, key: Seq<char>)
    requires
        lookup(pairs, key) is None,
    ensures
        forall|i: int| 0 <= i < pairs.len() ==> (#[trigger] pairs[i]).0 != key,
    decreases pairs.len(),
{
    if pairs.len() > 0 {
        lookup_none(pairs.drop_first(), key);
        assert forall|i: int| 0 <= i < pairs.len() implies (#[trigger] pairs[i]).0 != key by {
            if i > 0 {
                assert(pairs.drop_first()[i - 1] == pairs[i]);
            }
        }
    }
}

/// Setting a key that is not there adds a member at the end.
pub proof fn put_new(pairs: Seq<(Seq<char>, JsonV)>, key: Seq<char>, value: JsonV)
    requires
        lookup(pairs, key) is None,
    ensures
        put(pairs, key, value) == pairs.push((key, value)),
    decreases pairs.len(),
{
    if pairs.len() == 0 {
        assert(put(pairs, key, value) =~= pairs.push((key, value)));
    } else {
        put_new(pairs.drop_first(), key, value);
        assert(put(pairs, key, value) =~= pairs.push((key, value)));
    }
}

/// Looking a key up after a member was set.
pub broadcast proof fn lookup_put(
    pairs: Seq<(Seq<char>, JsonV)>,
    set: Seq<char>,
    value: JsonV,
    key: Seq<char>,
)
    ensures
        #[trigger] lookup(put(pairs, set, value), key) == if set == key {
            Some(value)
        } else {
            lookup(pairs, key)
        },
    decreases pairs.len(),
{
    let after = put(pairs, set, value);
    if pairs.len() == 0 {
        assert(after[0] == (set, value));
        assert(after.drop_first() =~= Seq::empty());
        assert(lookup(after.drop_first(), key) is None);
    } else if pairs[0].0 == set {
        assert(after[0] == (set, value));
        assert(after.drop_first() =~= pairs.drop_first());
        assert(lookup(after.drop_first(), key) == lookup(pairs.drop_first(), key));
    } else {
        assert(after[0] == pairs[0]);
        assert(after.drop_first() =~= put(pairs.drop_first(), set, value));
        lookup_put(pairs.drop_first(), set, value, key);
    }
}

/// The document reads back as itself below `limit` levels of nesting.
pub open spec fn fits(value: JsonV, limit: nat) -> bool {
    sound(value) && integral(value) && nested_within(value, limit)
}

/// An empty object reads back as itself.
pub proof fn fits_empty(limit: nat)
    requires
        limit > 0,
    ensures
        fits(JsonV::Obj(Seq::empty()), limit),
{
}

/// Adding a member under a new key keeps an object readable.
pub proof fn fits_push(
    pairs: Seq<(Seq<char>, JsonV)>,
    key: Seq<char>,
    value: JsonV,
    limit: nat,
)
    requires
        limit > 0,
        fits(JsonV::Obj(pairs), limit),
        fits(value, (limit - 1) as nat),
        lookup(pairs, key) is None,
    ensures
        fits(JsonV::Obj(pairs.push((key, value))), limit),
{
    let more = pairs.push((key, value));
    lookup_none(pairs, key);
    let old = JsonV::Obj(pairs);
    let new = JsonV::Obj(more);
    assert forall|i: int| 0 <= i < more.len() implies sound((#[trigger] more[i]).1) && integral(
        more[i].1,
    ) && nested_within(more[i].1, (limit - 1) as nat) by {
        if i < pairs.len() {
            assert(more[i] == pairs[i]);
            assert(old->Obj_0[i] == pairs[i]);
            assert(sound(old->Obj_0[i].1));
            assert(integral(old->Obj_0[i].1));
            assert(nested_within(old->Obj_0[i].1, (limit - 1) as nat));
        }
    }
    assert(distinct_keys(more)) by {
        assert forall|i: int, j: int| 0 <= i < j < more.len() implies more[i].0 != more[j].0 by {
            if j < pairs.len() {
                assert(old->Obj_0[i].0 != old->Obj_0[j].0);
            } else {
                assert(more[i] == pairs[i]);
            }
        }
    }
    assert(sound(new));
    assert(integral(new));
    assert(nested_within(new, limit));
}

/// Adds a member at the end.
pub fn add_member(pairs: &mut Vec<(String, Json)>, key: &str, value: Json)
    ensures
        members(final(pairs)@) == members(old(pairs)@).push((key@, value@)),
{
    let ghost before = pairs@;
    let ghost v = value@;
    pairs.push((key.to_owned(), value));
    assert(members(pairs@) =~= members(before).push((key@, v)));
}

/// Adds a text member at the end.
pub fn add_text(pairs: &mut Vec<(String, Json)>, key: &str, value: &str)
    ensures
        members(final(pairs)@) == members(old(pairs)@).push((key@, JsonV::Str(value@))),
{
    add_member(pairs, key, Json::Str(value.to_owned()));
}

/// The members after an optional one was added at the end.
pub open spec fn push_opt(
    pairs: Seq<(Seq<char>, JsonV)>,
    key: Seq<char>,
    value: Option<JsonV>,
) -> Seq<(Seq<char>, JsonV)> {
    match value {
        Some(v) => pairs.push((key, v)),
        None => pairs,
    }
}

/// The members after an optional text was added at the end.
pub open spec fn push_opt_text(
    pairs: Seq<(Seq<char>, JsonV)>,
    key: Seq<char>,
    value: Option<Seq<char>>,
) -> Seq<(Seq<char>, JsonV)> {
    match value {
        Some(v) => pairs.push((key, JsonV::Str(v))),
        None => pairs,
    }
}

/// Adds a text member at the end where there is a text.
pub fn add_opt_text(pairs: &mut Vec<(String, Json)>, key: &str, value: &Option<String>)
    ensures
        members(final(pairs)@) == push_opt_text(members(old(pairs)@), key@, opt_view(*value)),
{
    if let Some(value) = value {
        add_text(pairs, key, value);
    }
}

/// Adds a copy of a member at the end where there is one.
pub fn add_opt(pairs: &mut Vec<(String, Json)>, key: &str, value: &Option<Json>)
    ensures
        members(final(pairs)@) == push_opt(members(old(pairs)@), key@, opt_json(*value)),
{
    if let Some(value) = value {
        add_member(pairs, key, value.clone());
    }
}

/// The texts of a list of names.
pub open spec fn names_view(names: Seq<&str>) -> Seq<Seq<char>> {
    Seq::new(names.len(), |i: int| names[i]@)
}

/// A record that is given as the list of its fields in their order stands for the
/// object with these members, where the list holds the fields that are `needed` and
/// none that is not one. Any other document stands for itself.
pub open spec fn by_name(value: JsonV, names: Seq<Seq<char>>, needed: nat) -> JsonV {
    match value {
        JsonV::Arr(fields) if needed <= fields.len() <= names.len() => JsonV::Obj(
            Seq::new(fields.len(), |i: int| (names[i], fields[i])),
        ),
        _ => value,
    }
}

/// The document of a record with its fields under their names.
pub fn named(value: &Json, names: Vec<&str>, needed: usize) -> (r: Json)
    ensures
        r@ == by_name(value@, names_view(names@), needed as nat),
{
    broadcast use array_view;

    match value {
        Json::Array(fields) => {
            if needed > fields.len() || fields.len() > names.len() {
                return value.clone();
            }
            let mut pairs = no_members();
            let mut i: usize = 0;
            while i < fields.len()
                invariant
                    i <= fields.len() <= names.len(),
                    members(pairs@) == Seq::new(
                        i as nat,
                        |k: int| (names_view(names@)[k], items(fields@)[k]),
                    ),
                decreases fields.len() - i,
            {
                add_member(&mut pairs, names[i], fields[i].clone());
                i += 1;
                assert(members(pairs@) =~= Seq::new(
                    i as nat,
                    |k: int| (names_view(names@)[k], items(fields@)[k]),
                ));
            }
            let r = object(pairs);
            assert(r@->Obj_0 =~= by_name(
                value@,
                names_view(names@),
                needed as nat,
            )->Obj_0);
            r
        },
        _ => value.clone(),
    }
}

/// No members yet.
pub fn no_members() -> (r: Vec<(String, Json)>)
    ensures
        members(r@) == Seq::<(Seq<char>, JsonV)>::empty(),
{
    let r: Vec<(String, Json)> = Vec::new();
    assert(members(r@) =~= Seq::empty());
    r
}

/// An object made of these members.
pub fn object(pairs: Vec<(String, Json)>) -> (r: Json)
    ensures
        r@ == JsonV::Obj(members(pairs@)),
{
    broadcast use object_view;

    Json::Object(pairs)
}

/// An array made of these values.
pub fn array(values: Vec<Json>) -> (r: Json)
    ensures
        r@ == JsonV::Arr(items(values@)),
{
    broadcast use array_view;

    Json::Array(values)
}

/// A text.
pub fn text(value: &str) -> (r: Json)
    ensures
        r@ == JsonV::Str(value@),
{
    Json::Str(value.to_owned())
}

/// An optional copy.
pub fn copied(value: Option<&Json>) -> (r: Option<Json>)
    ensures
        match (value, r) {
            (Some(a), Some(b)) => a@ == b@,
            (None, None) => true,
            _ => false,
        },
{
    match value {
        Some(value) => Some(value.clone()),
        None => None,
    }
}

/// An optional text of one's own.
pub fn owned(value: Option<&str>) -> (r: Option<String>)
    ensures
        opt_view(r) == opt_str_view(value),
{
    match value {
        Some(text) => Some(text.to_owned()),
        None => None,
    }
}


/// The document that holds an integer.
pub open spec fn int_value(n: int) -> JsonV {
    if n >= 0 {
        JsonV::Num(Num::Unsigned(n as u64))
    } else {
        JsonV::Num(Num::Negative(n as i64))
    }
}

/// The document that holds an integer.
pub fn integer(n: i64) -> (r: Json)
    ensures
        r@ == int_value(n as int),
{
    if n >= 0 {
        Json::Number(Num::Unsigned(n as u64))
    } else {
        Json::Number(Num::Negative(n))
    }
}

/// The document that holds a count.
pub fn count(n: u64) -> (r: Json)
    ensures
        r@ == int_value(n as int),
{
    Json::Number(Num::Unsigned(n))
}

/// The whole part of a number once it is taken as a double.
pub uninterp spec fn whole_part(number: Num) -> int;

/// `serde_json::Number::as_f64`, cut to its whole part: the same number gives the
/// same result, and an integer that a double can hold exactly stays as it is.
#[verifier::external_body]
fn truncate_number(number: &Num) -> (r: i128)
    ensures
        r == whole_part(*number),
        match *number {
            Num::Unsigned(n) => n <= 9007199254740992 ==> r == n,
            Num::Negative(n) => n >= -9007199254740992 ==> r == n,
            Num::Whole(n) => n <= 9007199254740992 ==> r == n,
            Num::Double(_) => true,
        },
{
    match number {
        Num::Unsigned(n) => serde_json::Number::from(*n).as_f64().unwrap_or_default() as i128,
        Num::Negative(n) => serde_json::Number::from(*n).as_f64().unwrap_or_default() as i128,
        Num::Whole(n) => serde_json::Number::from(*n).as_f64().unwrap_or_default() as i128,
        Num::Double(n) => n.number.as_f64().unwrap_or_default() as i128,
    }
}

/// What is left of a number that is taken as a double and cut to its whole part:
/// an integer that a double can hold exactly stays as it is.
pub open spec fn whole_value(number: Num) -> int {
    match number {
        Num::Unsigned(n) if n <= 9007199254740992 => n as int,
        Num::Negative(n) if n >= -9007199254740992 => n as int,
        _ => whole_part(number),
    }
}

/// The number at a key as a double cut to its whole part; 0 where there is no
/// number.
pub open spec fn whole_at(value: JsonV, key: Seq<char>) -> int {
    match value.get(key) {
        Some(JsonV::Num(number)) => whole_value(number),
        _ => 0,
    }
}

/// The nearest value between two bounds.
pub open spec fn clamped(n: int, low: int, high: int) -> int {
    if n < low {
        low
    } else if n > high {
        high
    } else {
        n
    }
}

/// The whole number at a key, as near as a signed integer can hold it.
pub fn signed_at(value: &Json, key: &str) -> (r: i64)
    ensures
        r == clamped(whole_at(value@, key@), i64::MIN as int, i64::MAX as int),
{
    let whole: i128 = match value.get(key) {
        Some(Json::Number(number)) => truncate_number(number),
        _ => 0,
    };
    if whole < i64::MIN as i128 {
        i64::MIN
    } else if whole > i64::MAX as i128 {
        i64::MAX
    } else {
        whole as i64
    }
}

/// The whole number at a key, as near as an unsigned integer can hold it.
pub fn unsigned_at(value: &Json, key: &str) -> (r: u64)
    ensures
        r == clamped(whole_at(value@, key@), 0, u64::MAX as int),
{
    let whole: i128 = match value.get(key) {
        Some(Json::Number(number)) => truncate_number(number),
        _ => 0,
    };
    if whole < 0 {
        0
    } else if whole > u64::MAX as i128 {
        u64::MAX
    } else {
        whole as u64
    }
}

/// How a number reads once it is taken as a double.
pub uninterp spec fn double_text(number: Num) -> Seq<char>;

/// `serde_json::Number::as_f64`, written out as a text: the same number gives the
/// same text.
#[verifier::external_body]
fn write_double(number: &Num) -> (r: String)
    ensures
        r@ == double_text(*number),
{
    match number {
        Num::Unsigned(n) => serde_json::Number::from(*n).as_f64().unwrap_or_default().to_string(),
        Num::Negative(n) => serde_json::Number::from(*n).as_f64().unwrap_or_default().to_string(),
        Num::Whole(n) => serde_json::Number::from(*n).as_f64().unwrap_or_default().to_string(),
        Num::Double(n) => n.number.as_f64().unwrap_or_default().to_string(),
    }
}

/// How the number at a key reads as a double; that of 0 where there is no number.
pub open spec fn double_text_at(value: JsonV, key: Seq<char>) -> Seq<char> {
    match value.get(key) {
        Some(JsonV::Num(number)) => double_text(number),
        _ => double_text(Num::Unsigned(0)),
    }
}

/// How the number at a key reads as a double; that of 0 where there is no number.
pub fn read_double_text(value: &Json, key: &str) -> (r: String)
    ensures
        r@ == double_text_at(value@, key@),
{
    match value.get(key) {
        Some(Json::Number(number)) => write_double(number),
        _ => write_double(&Num::Unsigned(0)),
    }
}

/// The text at a key, empty where there is none.
pub open spec fn text_or_empty(value: JsonV, key: Seq<char>) -> Seq<char> {
    value.str_at(key).unwrap_or(Seq::empty())
}

/// The text at a key, empty where there is none.
pub fn text_at(value: &Json, key: &str) -> (r: String)
    ensures
        r@ == text_or_empty(value@, key@),
{
    match value.str_at(key) {
        Some(text) => text.to_owned(),
        None => String::new(),
    }
}

/// The text that `serde_json` writes for a document over several lines.
pub uninterp spec fn pretty_json(value: JsonV) -> Seq<char>;

/// `serde_json::to_string_pretty` of a `serde_json::Value`: a text which
/// `serde_json::from_slice` reads back, with a line break after it, where the
/// document holds no double and is not nested too deep.
#[verifier::external_body]
fn write_pretty(value: &serde_json::Value) -> (r: String)
    ensures
        r@ == pretty_json(value_model(*value)),
        reads_back(value_model(*value)) ==> parses_to(
            vstd::utf8::encode_utf8(r@.push('\n')),
            value_model(*value),
        ),
{
    serde_json::to_string_pretty(value).unwrap_or_default()
}

/// Writes a JSON document over several lines, with a line break at the end.
pub fn print_pretty(json: &Json) -> (r: String)
    ensures
        holdable(json@) ==> r@ == pretty_json(held(json@)).push('\n'),
        sound(json@) ==> r@ == pretty_json(json@).push('\n'),
        reads_back(json@) ==> parses_to(vstd::utf8::encode_utf8(r@), json@),
{
    proof {
        if sound(json@) {
            sound_is_held(json@);
        }
    }
    let value = value_from_json(json);
    let mut contents = write_pretty(&value);
    contents.push('\n');
    contents
}

/// Adding an optional text under a new key keeps an object readable.
pub proof fn fits_push_opt_text(
    pairs: Seq<(Seq<char>, JsonV)>,
    key: Seq<char>,
    value: Option<Seq<char>>,
    limit: nat,
)
    requires
        limit > 0,
        fits(JsonV::Obj(pairs), limit),
        lookup(pairs, key) is None,
    ensures
        fits(JsonV::Obj(push_opt_text(pairs, key, value)), limit),
{
    if let Some(value) = value {
        fits_push(pairs, key, JsonV::Str(value), limit);
    }
}

/// A member that may be absent or null but otherwise is a text.
pub open spec fn optional_text(value: JsonV, key: Seq<char>) -> bool {
    match value.get(key) {
        None => true,
        Some(member) => member is Null || member is Str,
    }
}

/// A member that is present and not null.
pub open spec fn present(value: JsonV, key: Seq<char>) -> Option<JsonV> {
    match value.get(key) {
        Some(JsonV::Null) => None,
        other => other,
    }
}

/// The member is an integer, or absent, or null.
pub open spec fn optional_integer(value: JsonV, key: Seq<char>) -> bool {
    match value.get(key) {
        None => true,
        Some(JsonV::Null) => true,
        Some(member) => member.i64() is Some,
    }
}

/// The optional member is a truth value, or absent, or null.
pub open spec fn optional_bool(value: JsonV, key: Seq<char>) -> bool {
    match value.get(key) {
        None => true,
        Some(JsonV::Null) => true,
        Some(JsonV::Bool(_)) => true,
        _ => false,
    }
}

/// A copy of a member that is there and no null.
pub fn present_copy(value: &Json, key: &str) -> (r: Option<Json>)
    ensures
        opt_json(r) == present(value@, key@),
{
    match value.get(key) {
        None => None,
        Some(Json::Null) => None,
        Some(member) => Some(member.clone()),
    }
}

/// Whether a member is a text, or absent, or null.
pub fn is_optional_text(value: &Json, key: &str) -> (r: bool)
    ensures
        r == optional_text(value@, key@),
{
    match value.get(key) {
        None => true,
        Some(Json::Null) => true,
        Some(Json::Str(_)) => true,
        _ => false,
    }
}

/// Whether a member is an integer, or absent, or null.
pub fn is_optional_integer(value: &Json, key: &str) -> (r: bool)
    ensures
        r == optional_integer(value@, key@),
{
    match value.get(key) {
        None => true,
        Some(Json::Null) => true,
        Some(member) => member.as_i64().is_some(),
    }
}

/// Whether a member is a truth value, or absent, or null.
pub fn is_optional_bool(value: &Json, key: &str) -> (r: bool)
    ensures
        r == optional_bool(value@, key@),
{
    match value.get(key) {
        None => true,
        Some(Json::Null) => true,
        Some(Json::Bool(_)) => true,
        _ => false,
    }
}

} // verus!
