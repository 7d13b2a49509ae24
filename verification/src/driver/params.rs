//! Parameters of statements: what can be given as such, by position or by name.

use vstd::prelude::*;
use crate::driver::error;
use crate::driver::error::{Error, ErrorModel};
use crate::driver::sealed::Sealed;
use crate::value;
use crate::value::{Real, Value, ValueModel};

verus! {

/// Parameters of a statement.
#[derive(Debug, PartialEq)]
pub enum Params {
    Empty,
    Positional(Vec<Value>),
    Named(Vec<(String, Value)>),
}

/// Parameters of a statement, by what they hold.
pub enum ParamsModel {
    Empty,
    Positional(Seq<ValueModel>),
    Named(Seq<(Seq<char>, ValueModel)>),
}

/// Named values, by what they hold.
pub open spec fn named_models(values: Seq<(String, Value)>) -> Seq<(Seq<char>, ValueModel)> {
    values.map_values(|v: (String, Value)| (v.0@, v.1@))
}

impl View for Params {
    type V = ParamsModel;

    open spec fn view(&self) -> ParamsModel {
        match self {
            Params::Empty => ParamsModel::Empty,
            Params::Positional(values) => ParamsModel::Positional(value::models(values@)),
            Params::Named(values) => ParamsModel::Named(named_models(values@)),
        }
    }
}

/// What parameters came to, by what it holds.
pub open spec fn params_result(r: Result<Params, Error>) -> Result<ParamsModel, ErrorModel> {
    match r {
        Ok(p) => Ok(p@),
        Err(e) => Err(e@),
    }
}

/// What can be a value of a parameter.
pub trait IntoValue: Sized {
    /// The value, or why there is none.
    spec fn value(self) -> Result<ValueModel, ErrorModel>;

    fn into_value(self) -> (r: Result<Value, Error>)
        ensures
            error::value_result(r) == self.value(),
    ;
}

impl IntoValue for i32 {
    open spec fn value(self) -> Result<ValueModel, ErrorModel> {
        Ok(ValueModel::Integer(self as i64))
    }

    fn into_value(self) -> (r: Result<Value, Error>) {
        Ok(Value::Integer(self as i64))
    }
}

impl IntoValue for i64 {
    open spec fn value(self) -> Result<ValueModel, ErrorModel> {
        Ok(ValueModel::Integer(self))
    }

    fn into_value(self) -> (r: Result<Value, Error>) {
        Ok(Value::Integer(self))
    }
}

impl IntoValue for Real {
    open spec fn value(self) -> Result<ValueModel, ErrorModel> {
        Ok(ValueModel::Real(self))
    }

    fn into_value(self) -> (r: Result<Value, Error>) {
        Ok(Value::Real(self))
    }
}

impl IntoValue for &str {
    open spec fn value(self) -> Result<ValueModel, ErrorModel> {
        Ok(ValueModel::Text(self@))
    }

    fn into_value(self) -> (r: Result<Value, Error>) {
        Ok(Value::Text(self.to_owned()))
    }
}

impl IntoValue for String {
    open spec fn value(self) -> Result<ValueModel, ErrorModel> {
        Ok(ValueModel::Text(self@))
    }

    fn into_value(self) -> (r: Result<Value, Error>) {
        Ok(Value::Text(self))
    }
}

impl IntoValue for Vec<u8> {
    open spec fn value(self) -> Result<ValueModel, ErrorModel> {
        Ok(ValueModel::Blob(self@))
    }

    fn into_value(self) -> (r: Result<Value, Error>) {
        Ok(Value::Blob(self))
    }
}

impl IntoValue for Value {
    open spec fn value(self) -> Result<ValueModel, ErrorModel> {
        Ok(self@)
    }

    fn into_value(self) -> (r: Result<Value, Error>) {
        Ok(self)
    }
}

impl IntoValue for Result<Value, Error> {
    open spec fn value(self) -> Result<ValueModel, ErrorModel> {
        error::value_result(self)
    }

    fn into_value(self) -> (r: Result<Value, Error>) {
        self
    }
}

/// What can be given as parameters: nothing; values one after another, in a
/// tuple, an array or a vector; or pairs of a name and a value. A name has the
/// prefix that it has in the statement, as in `:name`, `@name` or `$name`.
pub trait IntoParams: Sealed + Sized {
    /// Whether `r` is what the parameters come to.
    spec fn converts_to(self, r: Result<ParamsModel, ErrorModel>) -> bool;

    fn into_params(self) -> (r: Result<Params, Error>)
        ensures
            self.converts_to(params_result(r)),
    ;
}

/// One more value behind others, unless one of them failed.
pub open spec fn and_value(
    before: Result<Seq<ValueModel>, ErrorModel>,
    v: Result<ValueModel, ErrorModel>,
) -> Result<Seq<ValueModel>, ErrorModel> {
    match before {
        Err(e) => Err(e),
        Ok(values) => match v {
            Err(e) => Err(e),
            Ok(v) => Ok(values.push(v)),
        },
    }
}

/// One more named value behind others, unless one of them failed.
pub open spec fn and_named(
    before: Result<Seq<(Seq<char>, ValueModel)>, ErrorModel>,
    name: Seq<char>,
    v: Result<ValueModel, ErrorModel>,
) -> Result<Seq<(Seq<char>, ValueModel)>, ErrorModel> {
    match before {
        Err(e) => Err(e),
        Ok(values) => match v {
            Err(e) => Err(e),
            Ok(v) => Ok(values.push((name, v))),
        },
    }
}

pub open spec fn no_values() -> Result<Seq<ValueModel>, ErrorModel> {
    Ok(Seq::empty())
}

pub open spec fn no_named() -> Result<Seq<(Seq<char>, ValueModel)>, ErrorModel> {
    Ok(Seq::empty())
}

/// The values of the first `n` items, or the first failure among them.
pub open spec fn values_of<T: IntoValue>(items: Seq<T>, n: nat) -> Result<
    Seq<ValueModel>,
    ErrorModel,
>
    decreases n,
{
    if n == 0 {
        no_values()
    } else {
        and_value(values_of(items, (n - 1) as nat), items[n - 1].value())
    }
}

/// The named values of the first `n` pairs, or the first failure among them.
pub open spec fn named_values_of<T: IntoValue>(items: Seq<(Seq<char>, T)>, n: nat) -> Result<
    Seq<(Seq<char>, ValueModel)>,
    ErrorModel,
>
    decreases n,
{
    if n == 0 {
        no_named()
    } else {
        and_named(
            named_values_of(items, (n - 1) as nat),
            items[n - 1].0,
            items[n - 1].1.value(),
        )
    }
}

pub open spec fn positional(values: Result<Seq<ValueModel>, ErrorModel>) -> Result<
    ParamsModel,
    ErrorModel,
> {
    match values {
        Ok(values) => Ok(ParamsModel::Positional(values)),
        Err(e) => Err(e),
    }
}

pub open spec fn named(values: Result<Seq<(Seq<char>, ValueModel)>, ErrorModel>) -> Result<
    ParamsModel,
    ErrorModel,
> {
    match values {
        Ok(values) => Ok(ParamsModel::Named(values)),
        Err(e) => Err(e),
    }
}

/// Values that were gathered, by what they hold.
pub open spec fn gathered(r: Result<Vec<Value>, Error>) -> Result<Seq<ValueModel>, ErrorModel> {
    match r {
        Ok(values) => Ok(value::models(values@)),
        Err(e) => Err(e@),
    }
}

/// Named values that were gathered, by what they hold.
pub open spec fn gathered_named(r: Result<Vec<(String, Value)>, Error>) -> Result<
    Seq<(Seq<char>, ValueModel)>,
    ErrorModel,
> {
    match r {
        Ok(values) => Ok(named_models(values@)),
        Err(e) => Err(e@),
    }
}

fn start() -> (r: Result<Vec<Value>, Error>)
    ensures
        gathered(r) == no_values(),
{
    let values: Vec<Value> = Vec::new();
    assert(value::models(values@) =~= Seq::empty());
    Ok(values)
}

fn start_named() -> (r: Result<Vec<(String, Value)>, Error>)
    ensures
        gathered_named(r) == no_named(),
{
    let values: Vec<(String, Value)> = Vec::new();
    assert(named_models(values@) =~= Seq::empty());
    Ok(values)
}

fn append<T: IntoValue>(before: Result<Vec<Value>, Error>, item: T) -> (r: Result<
    Vec<Value>,
    Error,
>)
    ensures
        gathered(r) == and_value(gathered(before), item.value()),
{
    match before {
        Err(e) => Err(e),
        Ok(values) => match item.into_value() {
            Err(e) => Err(e),
            Ok(v) => {
                let mut values = values;
                let ghost old_values = values@;
                values.push(v);
                assert(value::models(values@) =~= value::models(old_values).push(v@));
                Ok(values)
            },
        },
    }
}

fn append_named<T: IntoValue>(
    before: Result<Vec<(String, Value)>, Error>,
    name: &str,
    item: T,
) -> (r: Result<Vec<(String, Value)>, Error>)
    ensures
        gathered_named(r) == and_named(gathered_named(before), name@, item.value()),
{
    match before {
        Err(e) => Err(e),
        Ok(values) => match item.into_value() {
            Err(e) => Err(e),
            Ok(v) => {
                let mut values = values;
                let ghost old_values = values@;
                values.push((name.to_owned(), v));
                assert(named_models(values@) =~= named_models(old_values).push((name@, v@)));
                Ok(values)
            },
        },
    }
}

fn by_position(values: Result<Vec<Value>, Error>) -> (r: Result<Params, Error>)
    ensures
        params_result(r) == positional(gathered(values)),
{
    match values {
        Ok(values) => Ok(Params::Positional(values)),
        Err(e) => Err(e),
    }
}

fn by_name(values: Result<Vec<(String, Value)>, Error>) -> (r: Result<Params, Error>)
    ensures
        params_result(r) == named(gathered_named(values)),
{
    match values {
        Ok(values) => Ok(Params::Named(values)),
        Err(e) => Err(e),
    }
}

/// Items as parameters by position.
pub fn params_from_iter<T: IntoValue>(items: Vec<T>) -> (r: Vec<T>)
    ensures
        r == items,
{
    items
}

impl Sealed for () {

}

impl IntoParams for () {
    open spec fn converts_to(self, r: Result<ParamsModel, ErrorModel>) -> bool {
        r == Ok::<ParamsModel, ErrorModel>(ParamsModel::Empty)
    }

    fn into_params(self) -> (r: Result<Params, Error>) {
        Ok(Params::Empty)
    }
}

impl Sealed for Params {

}

impl IntoParams for Params {
    open spec fn converts_to(self, r: Result<ParamsModel, ErrorModel>) -> bool {
        r == Ok::<ParamsModel, ErrorModel>(self@)
    }

    fn into_params(self) -> (r: Result<Params, Error>) {
        Ok(self)
    }
}

fn gather<T: IntoValue>(items: Vec<T>) -> (r: Result<Vec<Value>, Error>)
    ensures
        gathered(r) == values_of(items@, items@.len()),
{
    let ghost all = items@;
    let mut values = start();
    for item in it: items.into_iter()
        invariant
            it.seq() == all,
            gathered(values) == values_of(all, it.index() as nat),
    {
        values = append(values, item);
    }
    values
}

impl<T: IntoValue> Sealed for Vec<T> {

}

impl<T: IntoValue> IntoParams for Vec<T> {
    open spec fn converts_to(self, r: Result<ParamsModel, ErrorModel>) -> bool {
        r == positional(values_of(self@, self@.len()))
    }

    fn into_params(self) -> (r: Result<Params, Error>) {
        by_position(gather(self))
    }
}

/// Pairs of a name and an item, by what the names hold.
pub open spec fn string_pairs<T>(items: Seq<(String, T)>) -> Seq<(Seq<char>, T)> {
    items.map_values(|p: (String, T)| (p.0@, p.1))
}

impl<T: IntoValue> Sealed for Vec<(String, T)> {

}

impl<T: IntoValue> IntoParams for Vec<(String, T)> {
    open spec fn converts_to(self, r: Result<ParamsModel, ErrorModel>) -> bool {
        r == named(named_values_of(string_pairs(self@), self@.len()))
    }

    fn into_params(self) -> (r: Result<Params, Error>) {
        let ghost all = self@;
        let mut values = start_named();
        for item in it: self.into_iter()
            invariant
                it.seq() == all,
                gathered_named(values) == named_values_of(string_pairs(all), it.index() as nat),
        {
            assert(string_pairs(all)[it.index() as int] == (item.0@, item.1));
            let (name, item) = item;
            values = append_named(values, name.as_str(), item);
        }
        by_name(values)
    }
}

/// `Vec::from` of an array: its items, in their order.
#[verifier::external_body]
pub(crate) fn vec_of_array<T, const N: usize>(items: [T; N]) -> (r: Vec<T>)
    ensures
        r@ == items@,
{
    Vec::from(items)
}

impl<T: IntoValue, const N: usize> Sealed for [T; N] {

}

impl<T: IntoValue, const N: usize> IntoParams for [T; N] {
    open spec fn converts_to(self, r: Result<ParamsModel, ErrorModel>) -> bool {
        r == positional(values_of(self@, self@.len()))
    }

    fn into_params(self) -> (r: Result<Params, Error>) {
        vec_of_array(self).into_params()
    }
}

/// Pairs of a name and an item, by what the names hold.
pub open spec fn str_pairs<T>(items: Seq<(&'static str, T)>) -> Seq<(Seq<char>, T)> {
    items.map_values(|p: (&'static str, T)| (p.0@, p.1))
}

impl<T: IntoValue, const N: usize> Sealed for [(&'static str, T); N] {

}

impl<T: IntoValue, const N: usize> IntoParams for [(&'static str, T); N] {
    open spec fn converts_to(self, r: Result<ParamsModel, ErrorModel>) -> bool {
        r == named(named_values_of(str_pairs(self@), self@.len()))
    }

    fn into_params(self) -> (r: Result<Params, Error>) {
        let ghost all = self@;
        let items = vec_of_array(self);
        let mut values = start_named();
        for item in it: items.into_iter()
            invariant
                it.seq() == all,
                gathered_named(values) == named_values_of(str_pairs(all), it.index() as nat),
        {
            assert(str_pairs(all)[it.index() as int] == (item.0@, item.1));
            let (name, item) = item;
            values = append_named(values, name, item);
        }
        by_name(values)
    }
}

impl<T: IntoValue + Clone, const N: usize> Sealed for &[T; N] {

}

impl<T: IntoValue + Clone, const N: usize> IntoParams for &[T; N] {
    /// The parameters are those of clones of the items.
    open spec fn converts_to(self, r: Result<ParamsModel, ErrorModel>) -> bool {
        exists|clones: Seq<T>| #[trigger]
            clones.len() == self@.len() && (forall|i: int|
                0 <= i < clones.len() ==> cloned(#[trigger] self@[i], clones[i])) && r
                == positional(values_of(clones, clones.len()))
    }

    fn into_params(self) -> (r: Result<Params, Error>) {
        let mut items: Vec<T> = Vec::new();
        let mut i: usize = 0;
        while i < N
            invariant
                i <= N,
                self@.len() == N,
                items@.len() == i,
                forall|j: int| 0 <= j < i ==> cloned(#[trigger] self@[j], items@[j]),
            decreases N - i,
        {
            items.push(self[i].clone());
            i = i + 1;
        }
        items.into_params()
    }
}

impl<A: IntoValue> Sealed for (A,) {

}

impl<A: IntoValue> IntoParams for (A,) {
    open spec fn converts_to(self, r: Result<ParamsModel, ErrorModel>) -> bool {
        let values = no_values();
        let values = and_value(values, self.0.value());
        r == positional(values)
    }

    fn into_params(self) -> (r: Result<Params, Error>) {
        let values = start();
        let values = append(values, self.0);
        by_position(values)
    }
}

impl<A: IntoValue, B: IntoValue> Sealed for (A, B) {

}

impl<A: IntoValue, B: IntoValue> IntoParams for (A, B) {
    open spec fn converts_to(self, r: Result<ParamsModel, ErrorModel>) -> bool {
        let values = no_values();
        let values = and_value(values, self.0.value());
        let values = and_value(values, self.1.value());
        r == positional(values)
    }

    fn into_params(self) -> (r: Result<Params, Error>) {
        let values = start();
        let values = append(values, self.0);
        let values = append(values, self.1);
        by_position(values)
    }
}

impl<A: IntoValue, B: IntoValue, C: IntoValue> Sealed for (A, B, C) {

}

impl<A: IntoValue, B: IntoValue, C: IntoValue> IntoParams for (A, B, C) {
    open spec fn converts_to(self, r: Result<ParamsModel, ErrorModel>) -> bool {
        let values = no_values();
        let values = and_value(values, self.0.value());
        let values = and_value(values, self.1.value());
        let values = and_value(values, self.2.value());
        r == positional(values)
    }

    fn into_params(self) -> (r: Result<Params, Error>) {
        let values = start();
        let values = append(values, self.0);
        let values = append(values, self.1);
        let values = append(values, self.2);
        by_position(values)
    }
}

impl<A: IntoValue, B: IntoValue, C: IntoValue, D: IntoValue> Sealed for (A, B, C, D) {

}

impl<A: IntoValue, B: IntoValue, C: IntoValue, D: IntoValue> IntoParams for (A, B, C, D) {
    open spec fn converts_to(self, r: Result<ParamsModel, ErrorModel>) -> bool {
        let values = no_values();
        let values = and_value(values, self.0.value());
        let values = and_value(values, self.1.value());
        let values = and_value(values, self.2.value());
        let values = and_value(values, self.3.value());
        r == positional(values)
    }

    fn into_params(self) -> (r: Result<Params, Error>) {
        let values = start();
        let values = append(values, self.0);
        let values = append(values, self.1);
        let values = append(values, self.2);
        let values = append(values, self.3);
        by_position(values)
    }
}

impl<
    A: IntoValue, B: IntoValue, C: IntoValue, D: IntoValue, E: IntoValue,
> Sealed for (A, B, C, D, E) {

}

impl<
    A: IntoValue, B: IntoValue, C: IntoValue, D: IntoValue, E: IntoValue,
> IntoParams for (A, B, C, D, E) {
    open spec fn converts_to(self, r: Result<ParamsModel, ErrorModel>) -> bool {
        let values = no_values();
        let values = and_value(values, self.0.value());
        let values = and_value(values, self.1.value());
        let values = and_value(values, self.2.value());
        let values = and_value(values, self.3.value());
        let values = and_value(values, self.4.value());
        r == positional(values)
    }

    fn into_params(self) -> (r: Result<Params, Error>) {
        let values = start();
        let values = append(values, self.0);
        let values = append(values, self.1);
        let values = append(values, self.2);
        let values = append(values, self.3);
        let values = append(values, self.4);
        by_position(values)
    }
}

impl<
    A: IntoValue, B: IntoValue, C: IntoValue, D: IntoValue, E: IntoValue, F: IntoValue,
> Sealed for (A, B, C, D, E, F) {

}

impl<
    A: IntoValue, B: IntoValue, C: IntoValue, D: IntoValue, E: IntoValue, F: IntoValue,
> IntoParams for (A, B, C, D, E, F) {
    open spec fn converts_to(self, r: Result<ParamsModel, ErrorModel>) -> bool {
        let values = no_values();
        let values = and_value(values, self.0.value());
        let values = and_value(values, self.1.value());
        let values = and_value(values, self.2.value());
        let values = and_value(values, self.3.value());
        let values = and_value(values, self.4.value());
        let values = and_value(values, self.5.value());
        r == positional(values)
    }

    fn into_params(self) -> (r: Result<Params, Error>) {
        let values = start();
        let values = append(values, self.0);
        let values = append(values, self.1);
        let values = append(values, self.2);
        let values = append(values, self.3);
        let values = append(values, self.4);
        let values = append(values, self.5);
        by_position(values)
    }
}

impl<
    A: IntoValue, B: IntoValue, C: IntoValue, D: IntoValue, E: IntoValue, F: IntoValue,
    G: IntoValue,
> Sealed for (A, B, C, D, E, F, G) {

}

impl<
    A: IntoValue, B: IntoValue, C: IntoValue, D: IntoValue, E: IntoValue, F: IntoValue,
    G: IntoValue,
> IntoParams for (A, B, C, D, E, F, G) {
    open spec fn converts_to(self, r: Result<ParamsModel, ErrorModel>) -> bool {
        let values = no_values();
        let values = and_value(values, self.0.value());
        let values = and_value(values, self.1.value());
        let values = and_value(values, self.2.value());
        let values = and_value(values, self.3.value());
        let values = and_value(values, self.4.value());
        let values = and_value(values, self.5.value());
        let values = and_value(values, self.6.value());
        r == positional(values)
    }

    fn into_params(self) -> (r: Result<Params, Error>) {
        let values = start();
        let values = append(values, self.0);
        let values = append(values, self.1);
        let values = append(values, self.2);
        let values = append(values, self.3);
        let values = append(values, self.4);
        let values = append(values, self.5);
        let values = append(values, self.6);
        by_position(values)
    }
}

impl<
    A: IntoValue, B: IntoValue, C: IntoValue, D: IntoValue, E: IntoValue, F: IntoValue,
    G: IntoValue, H: IntoValue,
> Sealed for (A, B, C, D, E, F, G, H) {

}

impl<
    A: IntoValue, B: IntoValue, C: IntoValue, D: IntoValue, E: IntoValue, F: IntoValue,
    G: IntoValue, H: IntoValue,
> IntoParams for (A, B, C, D, E, F, G, H) {
    open spec fn converts_to(self, r: Result<ParamsModel, ErrorModel>) -> bool {
        let values = no_values();
        let values = and_value(values, self.0.value());
        let values = and_value(values, self.1.value());
        let values = and_value(values, self.2.value());
        let values = and_value(values, self.3.value());
        let values = and_value(values, self.4.value());
        let values = and_value(values, self.5.value());
        let values = and_value(values, self.6.value());
        let values = and_value(values, self.7.value());
        r == positional(values)
    }

    fn into_params(self) -> (r: Result<Params, Error>) {
        let values = start();
        let values = append(values, self.0);
        let values = append(values, self.1);
        let values = append(values, self.2);
        let values = append(values, self.3);
        let values = append(values, self.4);
        let values = append(values, self.5);
        let values = append(values, self.6);
        let values = append(values, self.7);
        by_position(values)
    }
}

impl<
    A: IntoValue, B: IntoValue, C: IntoValue, D: IntoValue, E: IntoValue, F: IntoValue,
    G: IntoValue, H: IntoValue, I: IntoValue,
> Sealed for (A, B, C, D, E, F, G, H, I) {

}

impl<
    A: IntoValue, B: IntoValue, C: IntoValue, D: IntoValue, E: IntoValue, F: IntoValue,
    G: IntoValue, H: IntoValue, I: IntoValue,
> IntoParams for (A, B, C, D, E, F, G, H, I) {
    open spec fn converts_to(self, r: Result<ParamsModel, ErrorModel>) -> bool {
        let values = no_values();
        let values = and_value(values, self.0.value());
        let values = and_value(values, self.1.value());
        let values = and_value(values, self.2.value());
        let values = and_value(values, self.3.value());
        let values = and_value(values, self.4.value());
        let values = and_value(values, self.5.value());
        let values = and_value(values, self.6.value());
        let values = and_value(values, self.7.value());
        let values = and_value(values, self.8.value());
        r == positional(values)
    }

    fn into_params(self) -> (r: Result<Params, Error>) {
        let values = start();
        let values = append(values, self.0);
        let values = append(values, self.1);
        let values = append(values, self.2);
        let values = append(values, self.3);
        let values = append(values, self.4);
        let values = append(values, self.5);
        let values = append(values, self.6);
        let values = append(values, self.7);
        let values = append(values, self.8);
        by_position(values)
    }
}

impl<
    A: IntoValue, B: IntoValue, C: IntoValue, D: IntoValue, E: IntoValue, F: IntoValue,
    G: IntoValue, H: IntoValue, I: IntoValue, J: IntoValue,
> Sealed for (A, B, C, D, E, F, G, H, I, J) {

}

impl<
    A: IntoValue, B: IntoValue, C: IntoValue, D: IntoValue, E: IntoValue, F: IntoValue,
    G: IntoValue, H: IntoValue, I: IntoValue, J: IntoValue,
> IntoParams for (A, B, C, D, E, F, G, H, I, J) {
    open spec fn converts_to(self, r: Result<ParamsModel, ErrorModel>) -> bool {
        let values = no_values();
        let values = and_value(values, self.0.value());
        let values = and_value(values, self.1.value());
        let values = and_value(values, self.2.value());
        let values = and_value(values, self.3.value());
        let values = and_value(values, self.4.value());
        let values = and_value(values, self.5.value());
        let values = and_value(values, self.6.value());
        let values = and_value(values, self.7.value());
        let values = and_value(values, self.8.value());
        let values = and_value(values, self.9.value());
        r == positional(values)
    }

    fn into_params(self) -> (r: Result<Params, Error>) {
        let values = start();
        let values = append(values, self.0);
        let values = append(values, self.1);
        let values = append(values, self.2);
        let values = append(values, self.3);
        let values = append(values, self.4);
        let values = append(values, self.5);
        let values = append(values, self.6);
        let values = append(values, self.7);
        let values = append(values, self.8);
        let values = append(values, self.9);
        by_position(values)
    }
}

impl<
    A: IntoValue, B: IntoValue, C: IntoValue, D: IntoValue, E: IntoValue, F: IntoValue,
    G: IntoValue, H: IntoValue, I: IntoValue, J: IntoValue, K: IntoValue,
> Sealed for (A, B, C, D, E, F, G, H, I, J, K) {

}

impl<
    A: IntoValue, B: IntoValue, C: IntoValue, D: IntoValue, E: IntoValue, F: IntoValue,
    G: IntoValue, H: IntoValue, I: IntoValue, J: IntoValue, K: IntoValue,
> IntoParams for (A, B, C, D, E, F, G, H, I, J, K) {
    open spec fn converts_to(self, r: Result<ParamsModel, ErrorModel>) -> bool {
        let values = no_values();
        let values = and_value(values, self.0.value());
        let values = and_value(values, self.1.value());
        let values = and_value(values, self.2.value());
        let values = and_value(values, self.3.value());
        let values = and_value(values, self.4.value());
        let values = and_value(values, self.5.value());
        let values = and_value(values, self.6.value());
        let values = and_value(values, self.7.value());
        let values = and_value(values, self.8.value());
        let values = and_value(values, self.9.value());
        let values = and_value(values, self.10.value());
        r == positional(values)
    }

    fn into_params(self) -> (r: Result<Params, Error>) {
        let values = start();
        let values = append(values, self.0);
        let values = append(values, self.1);
        let values = append(values, self.2);
        let values = append(values, self.3);
        let values = append(values, self.4);
        let values = append(values, self.5);
        let values = append(values, self.6);
        let values = append(values, self.7);
        let values = append(values, self.8);
        let values = append(values, self.9);
        let values = append(values, self.10);
        by_position(values)
    }
}

impl<
    A: IntoValue, B: IntoValue, C: IntoValue, D: IntoValue, E: IntoValue, F: IntoValue,
    G: IntoValue, H: IntoValue, I: IntoValue, J: IntoValue, K: IntoValue, L: IntoValue,
> Sealed for (A, B, C, D, E, F, G, H, I, J, K, L) {

}

impl<
    A: IntoValue, B: IntoValue, C: IntoValue, D: IntoValue, E: IntoValue, F: IntoValue,
    G: IntoValue, H: IntoValue, I: IntoValue, J: IntoValue, K: IntoValue, L: IntoValue,
> IntoParams for (A, B, C, D, E, F, G, H, I, J, K, L) {
    open spec fn converts_to(self, r: Result<ParamsModel, ErrorModel>) -> bool {
        let values = no_values();
        let values = and_value(values, self.0.value());
        let values = and_value(values, self.1.value());
        let values = and_value(values, self.2.value());
        let values = and_value(values, self.3.value());
        let values = and_value(values, self.4.value());
        let values = and_value(values, self.5.value());
        let values = and_value(values, self.6.value());
        let values = and_value(values, self.7.value());
        let values = and_value(values, self.8.value());
        let values = and_value(values, self.9.value());
        let values = and_value(values, self.10.value());
        let values = and_value(values, self.11.value());
        r == positional(values)
    }

    fn into_params(self) -> (r: Result<Params, Error>) {
        let values = start();
        let values = append(values, self.0);
        let values = append(values, self.1);
        let values = append(values, self.2);
        let values = append(values, self.3);
        let values = append(values, self.4);
        let values = append(values, self.5);
        let values = append(values, self.6);
        let values = append(values, self.7);
        let values = append(values, self.8);
        let values = append(values, self.9);
        let values = append(values, self.10);
        let values = append(values, self.11);
        by_position(values)
    }
}

impl<
    A: IntoValue, B: IntoValue, C: IntoValue, D: IntoValue, E: IntoValue, F: IntoValue,
    G: IntoValue, H: IntoValue, I: IntoValue, J: IntoValue, K: IntoValue, L: IntoValue,
    M: IntoValue,
> Sealed for (A, B, C, D, E, F, G, H, I, J, K, L, M) {

}

impl<
    A: IntoValue, B: IntoValue, C: IntoValue, D: IntoValue, E: IntoValue, F: IntoValue,
    G: IntoValue, H: IntoValue, I: IntoValue, J: IntoValue, K: IntoValue, L: IntoValue,
    M: IntoValue,
> IntoParams for (A, B, C, D, E, F, G, H, I, J, K, L, M) {
    open spec fn converts_to(self, r: Result<ParamsModel, ErrorModel>) -> bool {
        let values = no_values();
        let values = and_value(values, self.0.value());
        let values = and_value(values, self.1.value());
        let values = and_value(values, self.2.value());
        let values = and_value(values, self.3.value());
        let values = and_value(values, self.4.value());
        let values = and_value(values, self.5.value());
        let values = and_value(values, self.6.value());
        let values = and_value(values, self.7.value());
        let values = and_value(values, self.8.value());
        let values = and_value(values, self.9.value());
        let values = and_value(values, self.10.value());
        let values = and_value(values, self.11.value());
        let values = and_value(values, self.12.value());
        r == positional(values)
    }

    fn into_params(self) -> (r: Result<Params, Error>) {
        let values = start();
        let values = append(values, self.0);
        let values = append(values, self.1);
        let values = append(values, self.2);
        let values = append(values, self.3);
        let values = append(values, self.4);
        let values = append(values, self.5);
        let values = append(values, self.6);
        let values = append(values, self.7);
        let values = append(values, self.8);
        let values = append(values, self.9);
        let values = append(values, self.10);
        let values = append(values, self.11);
        let values = append(values, self.12);
        by_position(values)
    }
}

impl<
    A: IntoValue, B: IntoValue, C: IntoValue, D: IntoValue, E: IntoValue, F: IntoValue,
    G: IntoValue, H: IntoValue, I: IntoValue, J: IntoValue, K: IntoValue, L: IntoValue,
    M: IntoValue, N: IntoValue,
> Sealed for (A, B, C, D, E, F, G, H, I, J, K, L, M, N) {

}

impl<
    A: IntoValue, B: IntoValue, C: IntoValue, D: IntoValue, E: IntoValue, F: IntoValue,
    G: IntoValue, H: IntoValue, I: IntoValue, J: IntoValue, K: IntoValue, L: IntoValue,
    M: IntoValue, N: IntoValue,
> IntoParams for (A, B, C, D, E, F, G, H, I, J, K, L, M, N) {
    open spec fn converts_to(self, r: Result<ParamsModel, ErrorModel>) -> bool {
        let values = no_values();
        let values = and_value(values, self.0.value());
        let values = and_value(values, self.1.value());
        let values = and_value(values, self.2.value());
        let values = and_value(values, self.3.value());
        let values = and_value(values, self.4.value());
        let values = and_value(values, self.5.value());
        let values = and_value(values, self.6.value());
        let values = and_value(values, self.7.value());
        let values = and_value(values, self.8.value());
        let values = and_value(values, self.9.value());
        let values = and_value(values, self.10.value());
        let values = and_value(values, self.11.value());
        let values = and_value(values, self.12.value());
        let values = and_value(values, self.13.value());
        r == positional(values)
    }

    fn into_params(self) -> (r: Result<Params, Error>) {
        let values = start();
        let values = append(values, self.0);
        let values = append(values, self.1);
        let values = append(values, self.2);
        let values = append(values, self.3);
        let values = append(values, self.4);
        let values = append(values, self.5);
        let values = append(values, self.6);
        let values = append(values, self.7);
        let values = append(values, self.8);
        let values = append(values, self.9);
        let values = append(values, self.10);
        let values = append(values, self.11);
        let values = append(values, self.12);
        let values = append(values, self.13);
        by_position(values)
    }
}

impl<
    A: IntoValue, B: IntoValue, C: IntoValue, D: IntoValue, E: IntoValue, F: IntoValue,
    G: IntoValue, H: IntoValue, I: IntoValue, J: IntoValue, K: IntoValue, L: IntoValue,
    M: IntoValue, N: IntoValue, O: IntoValue,
> Sealed for (A, B, C, D, E, F, G, H, I, J, K, L, M, N, O) {

}

impl<
    A: IntoValue, B: IntoValue, C: IntoValue, D: IntoValue, E: IntoValue, F: IntoValue,
    G: IntoValue, H: IntoValue, I: IntoValue, J: IntoValue, K: IntoValue, L: IntoValue,
    M: IntoValue, N: IntoValue, O: IntoValue,
> IntoParams for (A, B, C, D, E, F, G, H, I, J, K, L, M, N, O) {
    open spec fn converts_to(self, r: Result<ParamsModel, ErrorModel>) -> bool {
        let values = no_values();
        let values = and_value(values, self.0.value());
        let values = and_value(values, self.1.value());
        let values = and_value(values, self.2.value());
        let values = and_value(values, self.3.value());
        let values = and_value(values, self.4.value());
        let values = and_value(values, self.5.value());
        let values = and_value(values, self.6.value());
        let values = and_value(values, self.7.value());
        let values = and_value(values, self.8.value());
        let values = and_value(values, self.9.value());
        let values = and_value(values, self.10.value());
        let values = and_value(values, self.11.value());
        let values = and_value(values, self.12.value());
        let values = and_value(values, self.13.value());
        let values = and_value(values, self.14.value());
        r == positional(values)
    }

    fn into_params(self) -> (r: Result<Params, Error>) {
        let values = start();
        let values = append(values, self.0);
        let values = append(values, self.1);
        let values = append(values, self.2);
        let values = append(values, self.3);
        let values = append(values, self.4);
        let values = append(values, self.5);
        let values = append(values, self.6);
        let values = append(values, self.7);
        let values = append(values, self.8);
        let values = append(values, self.9);
        let values = append(values, self.10);
        let values = append(values, self.11);
        let values = append(values, self.12);
        let values = append(values, self.13);
        let values = append(values, self.14);
        by_position(values)
    }
}

impl<
    A: IntoValue, B: IntoValue, C: IntoValue, D: IntoValue, E: IntoValue, F: IntoValue,
    G: IntoValue, H: IntoValue, I: IntoValue, J: IntoValue, K: IntoValue, L: IntoValue,
    M: IntoValue, N: IntoValue, O: IntoValue, P: IntoValue,
> Sealed for (A, B, C, D, E, F, G, H, I, J, K, L, M, N, O, P) {

}

impl<
    A: IntoValue, B: IntoValue, C: IntoValue, D: IntoValue, E: IntoValue, F: IntoValue,
    G: IntoValue, H: IntoValue, I: IntoValue, J: IntoValue, K: IntoValue, L: IntoValue,
    M: IntoValue, N: IntoValue, O: IntoValue, P: IntoValue,
> IntoParams for (A, B, C, D, E, F, G, H, I, J, K, L, M, N, O, P) {
    open spec fn converts_to(self, r: Result<ParamsModel, ErrorModel>) -> bool {
        let values = no_values();
        let values = and_value(values, self.0.value());
        let values = and_value(values, self.1.value());
        let values = and_value(values, self.2.value());
        let values = and_value(values, self.3.value());
        let values = and_value(values, self.4.value());
        let values = and_value(values, self.5.value());
        let values = and_value(values, self.6.value());
        let values = and_value(values, self.7.value());
        let values = and_value(values, self.8.value());
        let values = and_value(values, self.9.value());
        let values = and_value(values, self.10.value());
        let values = and_value(values, self.11.value());
        let values = and_value(values, self.12.value());
        let values = and_value(values, self.13.value());
        let values = and_value(values, self.14.value());
        let values = and_value(values, self.15.value());
        r == positional(values)
    }

    fn into_params(self) -> (r: Result<Params, Error>) {
        let values = start();
        let values = append(values, self.0);
        let values = append(values, self.1);
        let values = append(values, self.2);
        let values = append(values, self.3);
        let values = append(values, self.4);
        let values = append(values, self.5);
        let values = append(values, self.6);
        let values = append(values, self.7);
        let values = append(values, self.8);
        let values = append(values, self.9);
        let values = append(values, self.10);
        let values = append(values, self.11);
        let values = append(values, self.12);
        let values = append(values, self.13);
        let values = append(values, self.14);
        let values = append(values, self.15);
        by_position(values)
    }
}

impl<A: IntoValue> Sealed for ((&'static str, A),) {

}

impl<A: IntoValue> IntoParams for ((&'static str, A),) {
    open spec fn converts_to(self, r: Result<ParamsModel, ErrorModel>) -> bool {
        let values = no_named();
        let values = and_named(values, self.0.0@, self.0.1.value());
        r == named(values)
    }

    fn into_params(self) -> (r: Result<Params, Error>) {
        let values = start_named();
        let values = append_named(values, self.0.0, self.0.1);
        by_name(values)
    }
}

impl<A: IntoValue, B: IntoValue> Sealed for ((&'static str, A), (&'static str, B)) {

}

impl<A: IntoValue, B: IntoValue> IntoParams for ((&'static str, A), (&'static str, B)) {
    open spec fn converts_to(self, r: Result<ParamsModel, ErrorModel>) -> bool {
        let values = no_named();
        let values = and_named(values, self.0.0@, self.0.1.value());
        let values = and_named(values, self.1.0@, self.1.1.value());
        r == named(values)
    }

    fn into_params(self) -> (r: Result<Params, Error>) {
        let values = start_named();
        let values = append_named(values, self.0.0, self.0.1);
        let values = append_named(values, self.1.0, self.1.1);
        by_name(values)
    }
}

impl<
    A: IntoValue, B: IntoValue, C: IntoValue,
> Sealed for ((&'static str, A), (&'static str, B), (&'static str, C)) {

}

impl<
    A: IntoValue, B: IntoValue, C: IntoValue,
> IntoParams for ((&'static str, A), (&'static str, B), (&'static str, C)) {
    open spec fn converts_to(self, r: Result<ParamsModel, ErrorModel>) -> bool {
        let values = no_named();
        let values = and_named(values, self.0.0@, self.0.1.value());
        let values = and_named(values, self.1.0@, self.1.1.value());
        let values = and_named(values, self.2.0@, self.2.1.value());
        r == named(values)
    }

    fn into_params(self) -> (r: Result<Params, Error>) {
        let values = start_named();
        let values = append_named(values, self.0.0, self.0.1);
        let values = append_named(values, self.1.0, self.1.1);
        let values = append_named(values, self.2.0, self.2.1);
        by_name(values)
    }
}

impl<
    A: IntoValue, B: IntoValue, C: IntoValue, D: IntoValue,
> Sealed for ((&'static str, A), (&'static str, B), (&'static str, C), (&'static str, D)) {

}

impl<
    A: IntoValue, B: IntoValue, C: IntoValue, D: IntoValue,
> IntoParams for ((&'static str, A), (&'static str, B), (&'static str, C), (&'static str, D)) {
    open spec fn converts_to(self, r: Result<ParamsModel, ErrorModel>) -> bool {
        let values = no_named();
        let values = and_named(values, self.0.0@, self.0.1.value());
        let values = and_named(values, self.1.0@, self.1.1.value());
        let values = and_named(values, self.2.0@, self.2.1.value());
        let values = and_named(values, self.3.0@, self.3.1.value());
        r == named(values)
    }

    fn into_params(self) -> (r: Result<Params, Error>) {
        let values = start_named();
        let values = append_named(values, self.0.0, self.0.1);
        let values = append_named(values, self.1.0, self.1.1);
        let values = append_named(values, self.2.0, self.2.1);
        let values = append_named(values, self.3.0, self.3.1);
        by_name(values)
    }
}

impl<
    A: IntoValue, B: IntoValue, C: IntoValue, D: IntoValue, E: IntoValue,
> Sealed for (
    (&'static str, A), (&'static str, B), (&'static str, C), (&'static str, D), (&'static str, E),
) {

}

impl<
    A: IntoValue, B: IntoValue, C: IntoValue, D: IntoValue, E: IntoValue,
> IntoParams for (
    (&'static str, A), (&'static str, B), (&'static str, C), (&'static str, D), (&'static str, E),
) {
    open spec fn converts_to(self, r: Result<ParamsModel, ErrorModel>) -> bool {
        let values = no_named();
        let values = and_named(values, self.0.0@, self.0.1.value());
        let values = and_named(values, self.1.0@, self.1.1.value());
        let values = and_named(values, self.2.0@, self.2.1.value());
        let values = and_named(values, self.3.0@, self.3.1.value());
        let values = and_named(values, self.4.0@, self.4.1.value());
        r == named(values)
    }

    fn into_params(self) -> (r: Result<Params, Error>) {
        let values = start_named();
        let values = append_named(values, self.0.0, self.0.1);
        let values = append_named(values, self.1.0, self.1.1);
        let values = append_named(values, self.2.0, self.2.1);
        let values = append_named(values, self.3.0, self.3.1);
        let values = append_named(values, self.4.0, self.4.1);
        by_name(values)
    }
}

impl<
    A: IntoValue, B: IntoValue, C: IntoValue, D: IntoValue, E: IntoValue, F: IntoValue,
> Sealed for (
    (&'static str, A), (&'static str, B), (&'static str, C), (&'static str, D), (&'static str, E),
    (&'static str, F),
) {

}

impl<
    A: IntoValue, B: IntoValue, C: IntoValue, D: IntoValue, E: IntoValue, F: IntoValue,
> IntoParams for (
    (&'static str, A), (&'static str, B), (&'static str, C), (&'static str, D), (&'static str, E),
    (&'static str, F),
) {
    open spec fn converts_to(self, r: Result<ParamsModel, ErrorModel>) -> bool {
        let values = no_named();
        let values = and_named(values, self.0.0@, self.0.1.value());
        let values = and_named(values, self.1.0@, self.1.1.value());
        let values = and_named(values, self.2.0@, self.2.1.value());
        let values = and_named(values, self.3.0@, self.3.1.value());
        let values = and_named(values, self.4.0@, self.4.1.value());
        let values = and_named(values, self.5.0@, self.5.1.value());
        r == named(values)
    }

    fn into_params(self) -> (r: Result<Params, Error>) {
        let values = start_named();
        let values = append_named(values, self.0.0, self.0.1);
        let values = append_named(values, self.1.0, self.1.1);
        let values = append_named(values, self.2.0, self.2.1);
        let values = append_named(values, self.3.0, self.3.1);
        let values = append_named(values, self.4.0, self.4.1);
        let values = append_named(values, self.5.0, self.5.1);
        by_name(values)
    }
}

impl<
    A: IntoValue, B: IntoValue, C: IntoValue, D: IntoValue, E: IntoValue, F: IntoValue,
    G: IntoValue,
> Sealed for (
    (&'static str, A), (&'static str, B), (&'static str, C), (&'static str, D), (&'static str, E),
    (&'static str, F), (&'static str, G),
) {

}

impl<
    A: IntoValue, B: IntoValue, C: IntoValue, D: IntoValue, E: IntoValue, F: IntoValue,
    G: IntoValue,
> IntoParams for (
    (&'static str, A), (&'static str, B), (&'static str, C), (&'static str, D), (&'static str, E),
    (&'static str, F), (&'static str, G),
) {
    open spec fn converts_to(self, r: Result<ParamsModel, ErrorModel>) -> bool {
        let values = no_named();
        let values = and_named(values, self.0.0@, self.0.1.value());
        let values = and_named(values, self.1.0@, self.1.1.value());
        let values = and_named(values, self.2.0@, self.2.1.value());
        let values = and_named(values, self.3.0@, self.3.1.value());
        let values = and_named(values, self.4.0@, self.4.1.value());
        let values = and_named(values, self.5.0@, self.5.1.value());
        let values = and_named(values, self.6.0@, self.6.1.value());
        r == named(values)
    }

    fn into_params(self) -> (r: Result<Params, Error>) {
        let values = start_named();
        let values = append_named(values, self.0.0, self.0.1);
        let values = append_named(values, self.1.0, self.1.1);
        let values = append_named(values, self.2.0, self.2.1);
        let values = append_named(values, self.3.0, self.3.1);
        let values = append_named(values, self.4.0, self.4.1);
        let values = append_named(values, self.5.0, self.5.1);
        let values = append_named(values, self.6.0, self.6.1);
        by_name(values)
    }
}

impl<
    A: IntoValue, B: IntoValue, C: IntoValue, D: IntoValue, E: IntoValue, F: IntoValue,
    G: IntoValue, H: IntoValue,
> Sealed for (
    (&'static str, A), (&'static str, B), (&'static str, C), (&'static str, D), (&'static str, E),
    (&'static str, F), (&'static str, G), (&'static str, H),
) {

}

impl<
    A: IntoValue, B: IntoValue, C: IntoValue, D: IntoValue, E: IntoValue, F: IntoValue,
    G: IntoValue, H: IntoValue,
> IntoParams for (
    (&'static str, A), (&'static str, B), (&'static str, C), (&'static str, D), (&'static str, E),
    (&'static str, F), (&'static str, G), (&'static str, H),
) {
    open spec fn converts_to(self, r: Result<ParamsModel, ErrorModel>) -> bool {
        let values = no_named();
        let values = and_named(values, self.0.0@, self.0.1.value());
        let values = and_named(values, self.1.0@, self.1.1.value());
        let values = and_named(values, self.2.0@, self.2.1.value());
        let values = and_named(values, self.3.0@, self.3.1.value());
        let values = and_named(values, self.4.0@, self.4.1.value());
        let values = and_named(values, self.5.0@, self.5.1.value());
        let values = and_named(values, self.6.0@, self.6.1.value());
        let values = and_named(values, self.7.0@, self.7.1.value());
        r == named(values)
    }

    fn into_params(self) -> (r: Result<Params, Error>) {
        let values = start_named();
        let values = append_named(values, self.0.0, self.0.1);
        let values = append_named(values, self.1.0, self.1.1);
        let values = append_named(values, self.2.0, self.2.1);
        let values = append_named(values, self.3.0, self.3.1);
        let values = append_named(values, self.4.0, self.4.1);
        let values = append_named(values, self.5.0, self.5.1);
        let values = append_named(values, self.6.0, self.6.1);
        let values = append_named(values, self.7.0, self.7.1);
        by_name(values)
    }
}

impl<
    A: IntoValue, B: IntoValue, C: IntoValue, D: IntoValue, E: IntoValue, F: IntoValue,
    G: IntoValue, H: IntoValue, I: IntoValue,
> Sealed for (
    (&'static str, A), (&'static str, B), (&'static str, C), (&'static str, D), (&'static str, E),
    (&'static str, F), (&'static str, G), (&'static str, H), (&'static str, I),
) {

}

impl<
    A: IntoValue, B: IntoValue, C: IntoValue, D: IntoValue, E: IntoValue, F: IntoValue,
    G: IntoValue, H: IntoValue, I: IntoValue,
> IntoParams for (
    (&'static str, A), (&'static str, B), (&'static str, C), (&'static str, D), (&'static str, E),
    (&'static str, F), (&'static str, G), (&'static str, H), (&'static str, I),
) {
    open spec fn converts_to(self, r: Result<ParamsModel, ErrorModel>) -> bool {
        let values = no_named();
        let values = and_named(values, self.0.0@, self.0.1.value());
        let values = and_named(values, self.1.0@, self.1.1.value());
        let values = and_named(values, self.2.0@, self.2.1.value());
        let values = and_named(values, self.3.0@, self.3.1.value());
        let values = and_named(values, self.4.0@, self.4.1.value());
        let values = and_named(values, self.5.0@, self.5.1.value());
        let values = and_named(values, self.6.0@, self.6.1.value());
        let values = and_named(values, self.7.0@, self.7.1.value());
        let values = and_named(values, self.8.0@, self.8.1.value());
        r == named(values)
    }

    fn into_params(self) -> (r: Result<Params, Error>) {
        let values = start_named();
        let values = append_named(values, self.0.0, self.0.1);
        let values = append_named(values, self.1.0, self.1.1);
        let values = append_named(values, self.2.0, self.2.1);
        let values = append_named(values, self.3.0, self.3.1);
        let values = append_named(values, self.4.0, self.4.1);
        let values = append_named(values, self.5.0, self.5.1);
        let values = append_named(values, self.6.0, self.6.1);
        let values = append_named(values, self.7.0, self.7.1);
        let values = append_named(values, self.8.0, self.8.1);
        by_name(values)
    }
}

impl<
    A: IntoValue, B: IntoValue, C: IntoValue, D: IntoValue, E: IntoValue, F: IntoValue,
    G: IntoValue, H: IntoValue, I: IntoValue, J: IntoValue,
> Sealed for (
    (&'static str, A), (&'static str, B), (&'static str, C), (&'static str, D), (&'static str, E),
    (&'static str, F), (&'static str, G), (&'static str, H), (&'static str, I), (&'static str, J),
) {

}

impl<
    A: IntoValue, B: IntoValue, C: IntoValue, D: IntoValue, E: IntoValue, F: IntoValue,
    G: IntoValue, H: IntoValue, I: IntoValue, J: IntoValue,
> IntoParams for (
    (&'static str, A), (&'static str, B), (&'static str, C), (&'static str, D), (&'static str, E),
    (&'static str, F), (&'static str, G), (&'static str, H), (&'static str, I), (&'static str, J),
) {
    open spec fn converts_to(self, r: Result<ParamsModel, ErrorModel>) -> bool {
        let values = no_named();
        let values = and_named(values, self.0.0@, self.0.1.value());
        let values = and_named(values, self.1.0@, self.1.1.value());
        let values = and_named(values, self.2.0@, self.2.1.value());
        let values = and_named(values, self.3.0@, self.3.1.value());
        let values = and_named(values, self.4.0@, self.4.1.value());
        let values = and_named(values, self.5.0@, self.5.1.value());
        let values = and_named(values, self.6.0@, self.6.1.value());
        let values = and_named(values, self.7.0@, self.7.1.value());
        let values = and_named(values, self.8.0@, self.8.1.value());
        let values = and_named(values, self.9.0@, self.9.1.value());
        r == named(values)
    }

    fn into_params(self) -> (r: Result<Params, Error>) {
        let values = start_named();
        let values = append_named(values, self.0.0, self.0.1);
        let values = append_named(values, self.1.0, self.1.1);
        let values = append_named(values, self.2.0, self.2.1);
        let values = append_named(values, self.3.0, self.3.1);
        let values = append_named(values, self.4.0, self.4.1);
        let values = append_named(values, self.5.0, self.5.1);
        let values = append_named(values, self.6.0, self.6.1);
        let values = append_named(values, self.7.0, self.7.1);
        let values = append_named(values, self.8.0, self.8.1);
        let values = append_named(values, self.9.0, self.9.1);
        by_name(values)
    }
}

impl<
    A: IntoValue, B: IntoValue, C: IntoValue, D: IntoValue, E: IntoValue, F: IntoValue,
    G: IntoValue, H: IntoValue, I: IntoValue, J: IntoValue, K: IntoValue,
> Sealed for (
    (&'static str, A), (&'static str, B), (&'static str, C), (&'static str, D), (&'static str, E),
    (&'static str, F), (&'static str, G), (&'static str, H), (&'static str, I), (&'static str, J),
    (&'static str, K),
) {

}

impl<
    A: IntoValue, B: IntoValue, C: IntoValue, D: IntoValue, E: IntoValue, F: IntoValue,
    G: IntoValue, H: IntoValue, I: IntoValue, J: IntoValue, K: IntoValue,
> IntoParams for (
    (&'static str, A), (&'static str, B), (&'static str, C), (&'static str, D), (&'static str, E),
    (&'static str, F), (&'static str, G), (&'static str, H), (&'static str, I), (&'static str, J),
    (&'static str, K),
) {
    open spec fn converts_to(self, r: Result<ParamsModel, ErrorModel>) -> bool {
        let values = no_named();
        let values = and_named(values, self.0.0@, self.0.1.value());
        let values = and_named(values, self.1.0@, self.1.1.value());
        let values = and_named(values, self.2.0@, self.2.1.value());
        let values = and_named(values, self.3.0@, self.3.1.value());
        let values = and_named(values, self.4.0@, self.4.1.value());
        let values = and_named(values, self.5.0@, self.5.1.value());
        let values = and_named(values, self.6.0@, self.6.1.value());
        let values = and_named(values, self.7.0@, self.7.1.value());
        let values = and_named(values, self.8.0@, self.8.1.value());
        let values = and_named(values, self.9.0@, self.9.1.value());
        let values = and_named(values, self.10.0@, self.10.1.value());
        r == named(values)
    }

    fn into_params(self) -> (r: Result<Params, Error>) {
        let values = start_named();
        let values = append_named(values, self.0.0, self.0.1);
        let values = append_named(values, self.1.0, self.1.1);
        let values = append_named(values, self.2.0, self.2.1);
        let values = append_named(values, self.3.0, self.3.1);
        let values = append_named(values, self.4.0, self.4.1);
        let values = append_named(values, self.5.0, self.5.1);
        let values = append_named(values, self.6.0, self.6.1);
        let values = append_named(values, self.7.0, self.7.1);
        let values = append_named(values, self.8.0, self.8.1);
        let values = append_named(values, self.9.0, self.9.1);
        let values = append_named(values, self.10.0, self.10.1);
        by_name(values)
    }
}

impl<
    A: IntoValue, B: IntoValue, C: IntoValue, D: IntoValue, E: IntoValue, F: IntoValue,
    G: IntoValue, H: IntoValue, I: IntoValue, J: IntoValue, K: IntoValue, L: IntoValue,
> Sealed for (
    (&'static str, A), (&'static str, B), (&'static str, C), (&'static str, D), (&'static str, E),
    (&'static str, F), (&'static str, G), (&'static str, H), (&'static str, I), (&'static str, J),
    (&'static str, K), (&'static str, L),
) {

}

impl<
    A: IntoValue, B: IntoValue, C: IntoValue, D: IntoValue, E: IntoValue, F: IntoValue,
    G: IntoValue, H: IntoValue, I: IntoValue, J: IntoValue, K: IntoValue, L: IntoValue,
> IntoParams for (
    (&'static str, A), (&'static str, B), (&'static str, C), (&'static str, D), (&'static str, E),
    (&'static str, F), (&'static str, G), (&'static str, H), (&'static str, I), (&'static str, J),
    (&'static str, K), (&'static str, L),
) {
    open spec fn converts_to(self, r: Result<ParamsModel, ErrorModel>) -> bool {
        let values = no_named();
        let values = and_named(values, self.0.0@, self.0.1.value());
        let values = and_named(values, self.1.0@, self.1.1.value());
        let values = and_named(values, self.2.0@, self.2.1.value());
        let values = and_named(values, self.3.0@, self.3.1.value());
        let values = and_named(values, self.4.0@, self.4.1.value());
        let values = and_named(values, self.5.0@, self.5.1.value());
        let values = and_named(values, self.6.0@, self.6.1.value());
        let values = and_named(values, self.7.0@, self.7.1.value());
        let values = and_named(values, self.8.0@, self.8.1.value());
        let values = and_named(values, self.9.0@, self.9.1.value());
        let values = and_named(values, self.10.0@, self.10.1.value());
        let values = and_named(values, self.11.0@, self.11.1.value());
        r == named(values)
    }

    fn into_params(self) -> (r: Result<Params, Error>) {
        let values = start_named();
        let values = append_named(values, self.0.0, self.0.1);
        let values = append_named(values, self.1.0, self.1.1);
        let values = append_named(values, self.2.0, self.2.1);
        let values = append_named(values, self.3.0, self.3.1);
        let values = append_named(values, self.4.0, self.4.1);
        let values = append_named(values, self.5.0, self.5.1);
        let values = append_named(values, self.6.0, self.6.1);
        let values = append_named(values, self.7.0, self.7.1);
        let values = append_named(values, self.8.0, self.8.1);
        let values = append_named(values, self.9.0, self.9.1);
        let values = append_named(values, self.10.0, self.10.1);
        let values = append_named(values, self.11.0, self.11.1);
        by_name(values)
    }
}

impl<
    A: IntoValue, B: IntoValue, C: IntoValue, D: IntoValue, E: IntoValue, F: IntoValue,
    G: IntoValue, H: IntoValue, I: IntoValue, J: IntoValue, K: IntoValue, L: IntoValue,
    M: IntoValue,
> Sealed for (
    (&'static str, A), (&'static str, B), (&'static str, C), (&'static str, D), (&'static str, E),
    (&'static str, F), (&'static str, G), (&'static str, H), (&'static str, I), (&'static str, J),
    (&'static str, K), (&'static str, L), (&'static str, M),
) {

}

impl<
    A: IntoValue, B: IntoValue, C: IntoValue, D: IntoValue, E: IntoValue, F: IntoValue,
    G: IntoValue, H: IntoValue, I: IntoValue, J: IntoValue, K: IntoValue, L: IntoValue,
    M: IntoValue,
> IntoParams for (
    (&'static str, A), (&'static str, B), (&'static str, C), (&'static str, D), (&'static str, E),
    (&'static str, F), (&'static str, G), (&'static str, H), (&'static str, I), (&'static str, J),
    (&'static str, K), (&'static str, L), (&'static str, M),
) {
    open spec fn converts_to(self, r: Result<ParamsModel, ErrorModel>) -> bool {
        let values = no_named();
        let values = and_named(values, self.0.0@, self.0.1.value());
        let values = and_named(values, self.1.0@, self.1.1.value());
        let values = and_named(values, self.2.0@, self.2.1.value());
        let values = and_named(values, self.3.0@, self.3.1.value());
        let values = and_named(values, self.4.0@, self.4.1.value());
        let values = and_named(values, self.5.0@, self.5.1.value());
        let values = and_named(values, self.6.0@, self.6.1.value());
        let values = and_named(values, self.7.0@, self.7.1.value());
        let values = and_named(values, self.8.0@, self.8.1.value());
        let values = and_named(values, self.9.0@, self.9.1.value());
        let values = and_named(values, self.10.0@, self.10.1.value());
        let values = and_named(values, self.11.0@, self.11.1.value());
        let values = and_named(values, self.12.0@, self.12.1.value());
        r == named(values)
    }

    fn into_params(self) -> (r: Result<Params, Error>) {
        let values = start_named();
        let values = append_named(values, self.0.0, self.0.1);
        let values = append_named(values, self.1.0, self.1.1);
        let values = append_named(values, self.2.0, self.2.1);
        let values = append_named(values, self.3.0, self.3.1);
        let values = append_named(values, self.4.0, self.4.1);
        let values = append_named(values, self.5.0, self.5.1);
        let values = append_named(values, self.6.0, self.6.1);
        let values = append_named(values, self.7.0, self.7.1);
        let values = append_named(values, self.8.0, self.8.1);
        let values = append_named(values, self.9.0, self.9.1);
        let values = append_named(values, self.10.0, self.10.1);
        let values = append_named(values, self.11.0, self.11.1);
        let values = append_named(values, self.12.0, self.12.1);
        by_name(values)
    }
}

impl<
    A: IntoValue, B: IntoValue, C: IntoValue, D: IntoValue, E: IntoValue, F: IntoValue,
    G: IntoValue, H: IntoValue, I: IntoValue, J: IntoValue, K: IntoValue, L: IntoValue,
    M: IntoValue, N: IntoValue,
> Sealed for (
    (&'static str, A), (&'static str, B), (&'static str, C), (&'static str, D), (&'static str, E),
    (&'static str, F), (&'static str, G), (&'static str, H), (&'static str, I), (&'static str, J),
    (&'static str, K), (&'static str, L), (&'static str, M), (&'static str, N),
) {

}

impl<
    A: IntoValue, B: IntoValue, C: IntoValue, D: IntoValue, E: IntoValue, F: IntoValue,
    G: IntoValue, H: IntoValue, I: IntoValue, J: IntoValue, K: IntoValue, L: IntoValue,
    M: IntoValue, N: IntoValue,
> IntoParams for (
    (&'static str, A), (&'static str, B), (&'static str, C), (&'static str, D), (&'static str, E),
    (&'static str, F), (&'static str, G), (&'static str, H), (&'static str, I), (&'static str, J),
    (&'static str, K), (&'static str, L), (&'static str, M), (&'static str, N),
) {
    open spec fn converts_to(self, r: Result<ParamsModel, ErrorModel>) -> bool {
        let values = no_named();
        let values = and_named(values, self.0.0@, self.0.1.value());
        let values = and_named(values, self.1.0@, self.1.1.value());
        let values = and_named(values, self.2.0@, self.2.1.value());
        let values = and_named(values, self.3.0@, self.3.1.value());
        let values = and_named(values, self.4.0@, self.4.1.value());
        let values = and_named(values, self.5.0@, self.5.1.value());
        let values = and_named(values, self.6.0@, self.6.1.value());
        let values = and_named(values, self.7.0@, self.7.1.value());
        let values = and_named(values, self.8.0@, self.8.1.value());
        let values = and_named(values, self.9.0@, self.9.1.value());
        let values = and_named(values, self.10.0@, self.10.1.value());
        let values = and_named(values, self.11.0@, self.11.1.value());
        let values = and_named(values, self.12.0@, self.12.1.value());
        let values = and_named(values, self.13.0@, self.13.1.value());
        r == named(values)
    }

    fn into_params(self) -> (r: Result<Params, Error>) {
        let values = start_named();
        let values = append_named(values, self.0.0, self.0.1);
        let values = append_named(values, self.1.0, self.1.1);
        let values = append_named(values, self.2.0, self.2.1);
        let values = append_named(values, self.3.0, self.3.1);
        let values = append_named(values, self.4.0, self.4.1);
        let values = append_named(values, self.5.0, self.5.1);
        let values = append_named(values, self.6.0, self.6.1);
        let values = append_named(values, self.7.0, self.7.1);
        let values = append_named(values, self.8.0, self.8.1);
        let values = append_named(values, self.9.0, self.9.1);
        let values = append_named(values, self.10.0, self.10.1);
        let values = append_named(values, self.11.0, self.11.1);
        let values = append_named(values, self.12.0, self.12.1);
        let values = append_named(values, self.13.0, self.13.1);
        by_name(values)
    }
}

impl<
    A: IntoValue, B: IntoValue, C: IntoValue, D: IntoValue, E: IntoValue, F: IntoValue,
    G: IntoValue, H: IntoValue, I: IntoValue, J: IntoValue, K: IntoValue, L: IntoValue,
    M: IntoValue, N: IntoValue, O: IntoValue,
> Sealed for (
    (&'static str, A), (&'static str, B), (&'static str, C), (&'static str, D), (&'static str, E),
    (&'static str, F), (&'static str, G), (&'static str, H), (&'static str, I), (&'static str, J),
    (&'static str, K), (&'static str, L), (&'static str, M), (&'static str, N), (&'static str, O),
) {

}

impl<
    A: IntoValue, B: IntoValue, C: IntoValue, D: IntoValue, E: IntoValue, F: IntoValue,
    G: IntoValue, H: IntoValue, I: IntoValue, J: IntoValue, K: IntoValue, L: IntoValue,
    M: IntoValue, N: IntoValue, O: IntoValue,
> IntoParams for (
    (&'static str, A), (&'static str, B), (&'static str, C), (&'static str, D), (&'static str, E),
    (&'static str, F), (&'static str, G), (&'static str, H), (&'static str, I), (&'static str, J),
    (&'static str, K), (&'static str, L), (&'static str, M), (&'static str, N), (&'static str, O),
) {
    open spec fn converts_to(self, r: Result<ParamsModel, ErrorModel>) -> bool {
        let values = no_named();
        let values = and_named(values, self.0.0@, self.0.1.value());
        let values = and_named(values, self.1.0@, self.1.1.value());
        let values = and_named(values, self.2.0@, self.2.1.value());
        let values = and_named(values, self.3.0@, self.3.1.value());
        let values = and_named(values, self.4.0@, self.4.1.value());
        let values = and_named(values, self.5.0@, self.5.1.value());
        let values = and_named(values, self.6.0@, self.6.1.value());
        let values = and_named(values, self.7.0@, self.7.1.value());
        let values = and_named(values, self.8.0@, self.8.1.value());
        let values = and_named(values, self.9.0@, self.9.1.value());
        let values = and_named(values, self.10.0@, self.10.1.value());
        let values = and_named(values, self.11.0@, self.11.1.value());
        let values = and_named(values, self.12.0@, self.12.1.value());
        let values = and_named(values, self.13.0@, self.13.1.value());
        let values = and_named(values, self.14.0@, self.14.1.value());
        r == named(values)
    }

    fn into_params(self) -> (r: Result<Params, Error>) {
        let values = start_named();
        let values = append_named(values, self.0.0, self.0.1);
        let values = append_named(values, self.1.0, self.1.1);
        let values = append_named(values, self.2.0, self.2.1);
        let values = append_named(values, self.3.0, self.3.1);
        let values = append_named(values, self.4.0, self.4.1);
        let values = append_named(values, self.5.0, self.5.1);
        let values = append_named(values, self.6.0, self.6.1);
        let values = append_named(values, self.7.0, self.7.1);
        let values = append_named(values, self.8.0, self.8.1);
        let values = append_named(values, self.9.0, self.9.1);
        let values = append_named(values, self.10.0, self.10.1);
        let values = append_named(values, self.11.0, self.11.1);
        let values = append_named(values, self.12.0, self.12.1);
        let values = append_named(values, self.13.0, self.13.1);
        let values = append_named(values, self.14.0, self.14.1);
        by_name(values)
    }
}

impl<
    A: IntoValue, B: IntoValue, C: IntoValue, D: IntoValue, E: IntoValue, F: IntoValue,
    G: IntoValue, H: IntoValue, I: IntoValue, J: IntoValue, K: IntoValue, L: IntoValue,
    M: IntoValue, N: IntoValue, O: IntoValue, P: IntoValue,
> Sealed for (
    (&'static str, A), (&'static str, B), (&'static str, C), (&'static str, D), (&'static str, E),
    (&'static str, F), (&'static str, G), (&'static str, H), (&'static str, I), (&'static str, J),
    (&'static str, K), (&'static str, L), (&'static str, M), (&'static str, N), (&'static str, O),
    (&'static str, P),
) {

}

impl<
    A: IntoValue, B: IntoValue, C: IntoValue, D: IntoValue, E: IntoValue, F: IntoValue,
    G: IntoValue, H: IntoValue, I: IntoValue, J: IntoValue, K: IntoValue, L: IntoValue,
    M: IntoValue, N: IntoValue, O: IntoValue, P: IntoValue,
> IntoParams for (
    (&'static str, A), (&'static str, B), (&'static str, C), (&'static str, D), (&'static str, E),
    (&'static str, F), (&'static str, G), (&'static str, H), (&'static str, I), (&'static str, J),
    (&'static str, K), (&'static str, L), (&'static str, M), (&'static str, N), (&'static str, O),
    (&'static str, P),
) {
    open spec fn converts_to(self, r: Result<ParamsModel, ErrorModel>) -> bool {
        let values = no_named();
        let values = and_named(values, self.0.0@, self.0.1.value());
        let values = and_named(values, self.1.0@, self.1.1.value());
        let values = and_named(values, self.2.0@, self.2.1.value());
        let values = and_named(values, self.3.0@, self.3.1.value());
        let values = and_named(values, self.4.0@, self.4.1.value());
        let values = and_named(values, self.5.0@, self.5.1.value());
        let values = and_named(values, self.6.0@, self.6.1.value());
        let values = and_named(values, self.7.0@, self.7.1.value());
        let values = and_named(values, self.8.0@, self.8.1.value());
        let values = and_named(values, self.9.0@, self.9.1.value());
        let values = and_named(values, self.10.0@, self.10.1.value());
        let values = and_named(values, self.11.0@, self.11.1.value());
        let values = and_named(values, self.12.0@, self.12.1.value());
        let values = and_named(values, self.13.0@, self.13.1.value());
        let values = and_named(values, self.14.0@, self.14.1.value());
        let values = and_named(values, self.15.0@, self.15.1.value());
        r == named(values)
    }

    fn into_params(self) -> (r: Result<Params, Error>) {
        let values = start_named();
        let values = append_named(values, self.0.0, self.0.1);
        let values = append_named(values, self.1.0, self.1.1);
        let values = append_named(values, self.2.0, self.2.1);
        let values = append_named(values, self.3.0, self.3.1);
        let values = append_named(values, self.4.0, self.4.1);
        let values = append_named(values, self.5.0, self.5.1);
        let values = append_named(values, self.6.0, self.6.1);
        let values = append_named(values, self.7.0, self.7.1);
        let values = append_named(values, self.8.0, self.8.1);
        let values = append_named(values, self.9.0, self.9.1);
        let values = append_named(values, self.10.0, self.10.1);
        let values = append_named(values, self.11.0, self.11.1);
        let values = append_named(values, self.12.0, self.12.1);
        let values = append_named(values, self.13.0, self.13.1);
        let values = append_named(values, self.14.0, self.14.1);
        let values = append_named(values, self.15.0, self.15.1);
        by_name(values)
    }
}

} // verus!
