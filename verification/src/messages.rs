//! Structured messages for the client: a stable key and the values to put
//! into the text that the client renders for it.

use vstd::prelude::*;
use vstd::string::*;

use crate::text::str_eq;

verus! {

/// A value to interpolate into a message: a text or a port number.
#[derive(Debug, Clone, PartialEq, Eq)]
pub enum ParamValue {
    Text(String),
    Number(u16),
}

/// A `ParamValue` with its text as a character sequence.
pub enum ParamValueView {
    Text(Seq<char>),
    Number(u16),
}

impl View for ParamValue {
    type V = ParamValueView;

    open spec fn view(&self) -> ParamValueView {
        match self {
            ParamValue::Text(text) => ParamValueView::Text(text@),
            ParamValue::Number(n) => ParamValueView::Number(*n),
        }
    }
}

/// One named value of a message.
#[derive(Debug, Clone, PartialEq, Eq)]
pub struct Param {
    pub key: String,
    pub value: ParamValue,
}

/// A `Param` with its strings as character sequences.
pub struct ParamView {
    pub key: Seq<char>,
    pub value: ParamValueView,
}

impl View for Param {
    type V = ParamView;

    open spec fn view(&self) -> ParamView {
        ParamView { key: self.key@, value: self.value@ }
    }
}

impl DeepView for Param {
    type V = ParamView;

    open spec fn deep_view(&self) -> ParamView {
        self@
    }
}

/// A message key with its interpolation values. The values form a mapping:
/// the constructors leave no name twice. They stand in the order in which
/// their names were first given.
#[derive(Debug, Clone, PartialEq, Eq)]
pub struct ApiMessage {
    pub id: String,
    pub params: Vec<Param>,
}

/// An `ApiMessage` with its strings as character sequences.
pub struct ApiMessageView {
    pub id: Seq<char>,
    pub params: Seq<ParamView>,
}

impl View for ApiMessage {
    type V = ApiMessageView;

    open spec fn view(&self) -> ApiMessageView {
        ApiMessageView { id: self.id@, params: self.params.deep_view() }
    }
}

impl DeepView for ApiMessage {
    type V = ApiMessageView;

    open spec fn deep_view(&self) -> ApiMessageView {
        self@
    }
}

/// The value `value` under the name `key`.
pub open spec fn param(key: Seq<char>, value: ParamValueView) -> ParamView {
    ParamView { key, value }
}

/// The message `id` without values.
pub open spec fn plain_message(id: Seq<char>) -> ApiMessageView {
    ApiMessageView { id, params: Seq::empty() }
}

/// The message `id` with one value.
pub open spec fn message_with_one(
    id: Seq<char>,
    key: Seq<char>,
    value: ParamValueView,
) -> ApiMessageView {
    ApiMessageView { id, params: seq![param(key, value)] }
}

/// The message `id` with two values.
pub open spec fn message_with_two(
    id: Seq<char>,
    key1: Seq<char>,
    value1: ParamValueView,
    key2: Seq<char>,
    value2: ParamValueView,
) -> ApiMessageView {
    ApiMessageView { id, params: seq![param(key1, value1), param(key2, value2)] }
}

/// No two values have the same name.
pub open spec fn keys_distinct(params: Seq<ParamView>) -> bool {
    forall|i: int, j: int|
        0 <= i < j < params.len() ==> (#[trigger] params[i]).key != (#[trigger] params[j]).key
}

/// The position of the first value from `from` on that has the name `key`;
/// the length of `params` if there is none.
pub open spec fn key_index(params: Seq<ParamView>, key: Seq<char>, from: int) -> int
    decreases params.len() - from,
{
    if from < 0 || from >= params.len() {
        params.len() as int
    } else if params[from].key == key {
        from
    } else {
        key_index(params, key, from + 1)
    }
}

/// `params` after `value` was put into it: in the place of the value with the
/// same name if there is one, and at the end if there is none.
pub open spec fn inserted(params: Seq<ParamView>, value: ParamView) -> Seq<ParamView> {
    let at = key_index(params, value.key, 0);
    if at < params.len() {
        params.update(at, value)
    } else {
        params.push(value)
    }
}

/// The mapping that holds the values of `params`, put in one after the
/// other: of two values with the same name the later one stays.
pub open spec fn as_mapping(params: Seq<ParamView>) -> Seq<ParamView>
    decreases params.len(),
{
    if params.len() == 0 {
        Seq::empty()
    } else {
        inserted(as_mapping(params.drop_last()), params.last())
    }
}

/// `key_index` finds the first value with the name, if there is one.
pub proof fn lemma_key_index(params: Seq<ParamView>, key: Seq<char>, from: int)
    requires
        0 <= from <= params.len(),
    ensures
        from <= key_index(params, key, from) <= params.len(),
        key_index(params, key, from) < params.len() ==> params[key_index(params, key, from)].key
            == key,
        forall|k: int|
            from <= k < key_index(params, key, from) ==> (#[trigger] params[k]).key != key,
    decreases params.len() - from,
{
    if from < params.len() && params[from].key != key {
        lemma_key_index(params, key, from + 1);
    }
}

/// Putting a value into a mapping gives a mapping.
pub proof fn lemma_inserted_is_mapping(params: Seq<ParamView>, value: ParamView)
    requires
        keys_distinct(params),
    ensures
        keys_distinct(inserted(params, value)),
{
    lemma_key_index(params, value.key, 0);
    let after = inserted(params, value);
    let at = key_index(params, value.key, 0);
    assert forall|i: int, j: int| 0 <= i < j < after.len() implies (#[trigger] after[i]).key != (
    #[trigger] after[j]).key by {
        if at < params.len() {
            assert(after[i].key == params[i].key);
            assert(after[j].key == params[j].key);
        } else if j < params.len() {
            assert(params[i].key != params[j].key);
        } else {
            assert(params[i].key != value.key);
        }
    }
}

/// `as_mapping` gives a mapping, and leaves a mapping as it is.
pub proof fn lemma_as_mapping(params: Seq<ParamView>)
    ensures
        keys_distinct(as_mapping(params)),
        keys_distinct(params) ==> as_mapping(params) == params,
    decreases params.len(),
{
    if params.len() > 0 {
        let front = params.drop_last();
        lemma_as_mapping(front);
        lemma_inserted_is_mapping(as_mapping(front), params.last());
        if keys_distinct(params) {
            assert(keys_distinct(front)) by {
                assert forall|i: int, j: int| 0 <= i < j < front.len() implies (
                #[trigger] front[i]).key != (#[trigger] front[j]).key by {
                    assert(params[i].key != params[j].key);
                }
            }
            lemma_key_index(front, params.last().key, 0);
            let at = key_index(front, params.last().key, 0);
            if at < front.len() {
                assert(params[at].key != params[params.len() - 1].key);
            }
            assert(front.push(params.last()) =~= params);
        }
    }
}

/// A copy of a value.
fn copy_param(param: &Param) -> (copy: Param)
    ensures
        copy@ == param@,
{
    Param {
        key: param.key.clone(),
        value: match &param.value {
            ParamValue::Text(text) => ParamValue::Text(text.clone()),
            ParamValue::Number(n) => ParamValue::Number(*n),
        },
    }
}

/// Puts `value` into `params`.
fn insert_param(params: &mut Vec<Param>, value: Param)
    ensures
        final(params).deep_view() == inserted(old(params).deep_view(), value@),
{
    let mut at: usize = 0;
    while at < params.len() && !str_eq(params[at].key.as_str(), value.key.as_str())
        invariant
            at <= params.len(),
            key_index(params.deep_view(), value@.key, 0) == key_index(
                params.deep_view(),
                value@.key,
                at as int,
            ),
        decreases params.len() - at,
    {
        assert(params.deep_view()[at as int] == params[at as int]@);
        at += 1;
    }
    if at < params.len() {
        assert(params.deep_view()[at as int] == params[at as int]@);
        params.set(at, value);
        assert(params.deep_view() =~= old(params).deep_view().update(at as int, value@));
    } else {
        params.push(value);
        assert(params.deep_view() =~= old(params).deep_view().push(value@));
    }
}

impl ApiMessage {
    /// A message without values.
    pub fn new(id: &str) -> (message: ApiMessage)
        ensures
            message@ == plain_message(id@),
    {
        let message = ApiMessage { id: String::from_str(id), params: Vec::new() };
        assert(message.params.deep_view() =~= Seq::empty());
        message
    }

    /// A message with the given values. Of two values with the same name the
    /// later one stays, in the place of the earlier one.
    pub fn with_params(id: &str, params: Vec<Param>) -> (message: ApiMessage)
        ensures
            message@.id == id@,
            message@.params == as_mapping(params.deep_view()),
            keys_distinct(message@.params),
            keys_distinct(params.deep_view()) ==> message@.params == params.deep_view(),
    {
        let mut mapping: Vec<Param> = Vec::new();
        let mut i: usize = 0;
        assert(params.deep_view().take(0) =~= Seq::empty());
        while i < params.len()
            invariant
                i <= params.len(),
                mapping.deep_view() == as_mapping(params.deep_view().take(i as int)),
            decreases params.len() - i,
        {
            let ghost given = params.deep_view();
            assert(given.take(i + 1).drop_last() =~= given.take(i as int));
            assert(given.take(i + 1).last() == params[i as int]@);
            insert_param(&mut mapping, copy_param(&params[i]));
            i += 1;
        }
        proof {
            assert(params.deep_view().take(params.len() as int) =~= params.deep_view());
            lemma_as_mapping(params.deep_view());
        }
        ApiMessage { id: String::from_str(id), params: mapping }
    }
}

/// A list of one named value.
pub fn params1(key: &str, value: ParamValue) -> (params: Vec<Param>)
    ensures
        params.deep_view() == seq![param(key@, value@)],
        keys_distinct(params.deep_view()),
{
    let mut params = Vec::new();
    params.push(Param { key: String::from_str(key), value });
    params
}

/// A list of two named values, in the order given.
pub fn params2(key1: &str, value1: ParamValue, key2: &str, value2: ParamValue) -> (params: Vec<
    Param,
>)
    ensures
        params.deep_view() == seq![param(key1@, value1@), param(key2@, value2@)],
        key1@ != key2@ ==> keys_distinct(params.deep_view()),
{
    let mut params = Vec::new();
    params.push(Param { key: String::from_str(key1), value: value1 });
    params.push(Param { key: String::from_str(key2), value: value2 });
    params
}

/// The body of a failed request.
#[derive(Debug, Clone, PartialEq, Eq)]
pub struct ApiErrorResponse {
    pub error: ApiMessage,
}

impl View for ApiErrorResponse {
    type V = ApiMessageView;

    open spec fn view(&self) -> ApiMessageView {
        self.error@
    }
}

/// An error body that carries `id` without values.
pub fn api_err(id: &str) -> (body: ApiErrorResponse)
    ensures
        body@ == plain_message(id@),
{
    ApiErrorResponse { error: ApiMessage::new(id) }
}

/// An error body that carries `id` with the given values. Of two values with
/// the same name the later one stays.
pub fn api_err_params(id: &str, params: Vec<Param>) -> (body: ApiErrorResponse)
    ensures
        body@.id == id@,
        body@.params == as_mapping(params.deep_view()),
        keys_distinct(body@.params),
        keys_distinct(params.deep_view()) ==> body@.params == params.deep_view(),
{
    ApiErrorResponse { error: ApiMessage::with_params(id, params) }
}

} // verus!
