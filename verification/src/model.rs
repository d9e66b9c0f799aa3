//! The rows this crate reads and writes.

use vstd::prelude::*;
use crate::day::Day;

verus! {

/// An exchange rate, carried as the bit pattern of an IEEE 754 double.
///
/// Rates are moved and stored, never calculated with, so the bit pattern is
/// all that is needed. The pattern of all zero bits is the rate `0.0`.
#[derive(Clone, Copy, Debug, PartialEq, Eq, Structural)]
pub struct Rate {
    pub bits: u64,
}

impl Rate {
    /// The rate `0.0`.
    pub open spec fn zero_spec() -> Rate {
        Rate { bits: 0 }
    }

    #[verifier::when_used_as_spec(zero_spec)]
    pub fn zero() -> (r: Rate)
        ensures
            r == Rate::zero_spec(),
    {
        Rate { bits: 0 }
    }

    pub fn from_bits(bits: u64) -> (r: Rate)
        ensures
            r.bits == bits,
    {
        Rate { bits }
    }
}

/// A point in time: seconds since the Unix epoch and nanoseconds within the
/// second.
#[derive(Clone, Copy, Debug, PartialEq, Eq, Structural)]
pub struct Timestamp {
    pub seconds: i64,
    pub nanos: u32,
}

/// A row of the currency table.
///
/// `rate` of `0.0` together with no `last_update_day` marks a row that was
/// created but never filled from the provider.
#[derive(Debug)]
pub struct Currencie {
    pub id: Option<i32>,
    pub created_at: Option<Timestamp>,
    pub updated_at: Option<Timestamp>,
    pub name: Option<String>,
    pub rate: Option<Rate>,
    pub last_update_day: Option<Day>,
}

/// What a [`Currencie`] row holds, with the name as a sequence of characters.
pub struct CurrencieView {
    pub id: Option<i32>,
    pub created_at: Option<Timestamp>,
    pub updated_at: Option<Timestamp>,
    pub name: Option<Seq<char>>,
    pub rate: Option<Rate>,
    pub last_update_day: Option<Day>,
}

/// The view of an optional text.
pub open spec fn text_view(text: Option<String>) -> Option<Seq<char>> {
    match text {
        Some(s) => Some(s@),
        None => None,
    }
}

/// Copies an optional text.
pub fn copy_text(text: &Option<String>) -> (copy: Option<String>)
    ensures
        text_view(copy) == text_view(*text),
{
    match text {
        Some(s) => Some(s.clone()),
        None => None,
    }
}

impl View for Currencie {
    type V = CurrencieView;

    open spec fn view(&self) -> CurrencieView {
        CurrencieView {
            id: self.id,
            created_at: self.created_at,
            updated_at: self.updated_at,
            name: text_view(self.name),
            rate: self.rate,
            last_update_day: self.last_update_day,
        }
    }
}

impl CurrencieView {
    /// The row a code gets when it is first seen: rate `0.0`, never updated,
    /// not yet keyed or timestamped by the table.
    pub open spec fn placeholder(code: Seq<char>) -> CurrencieView {
        CurrencieView {
            id: None,
            created_at: None,
            updated_at: None,
            name: Some(code),
            rate: Some(Rate::zero_spec()),
            last_update_day: None,
        }
    }

    /// The row with a new rate, confirmed on `today`. Key, timestamps and
    /// name stay.
    pub open spec fn refreshed(self, rate: Rate, today: Day) -> CurrencieView {
        CurrencieView { rate: Some(rate), last_update_day: Some(today), ..self }
    }

    /// A row counts as never fetched when it has rate `0.0` and no day of
    /// last update.
    pub open spec fn never_fetched(self) -> bool {
        self.rate == Some(Rate::zero_spec()) && self.last_update_day is None
    }
}

impl Currencie {
    /// The row for a code that has no row yet.
    pub fn placeholder(code: &str) -> (row: Currencie)
        ensures
            row@ == CurrencieView::placeholder(code@),
    {
        Currencie {
            id: None,
            created_at: None,
            updated_at: None,
            name: Some(code.to_owned()),
            rate: Some(Rate::zero()),
            last_update_day: None,
        }
    }

    /// Sets the rate and marks the row as confirmed on `today`.
    pub fn refresh(&mut self, rate: Rate, today: Day)
        ensures
            final(self)@ == old(self)@.refreshed(rate, today),
    {
        self.rate = Some(rate);
        self.last_update_day = Some(today);
    }

    /// A copy of the row.
    pub fn duplicate(&self) -> (copy: Currencie)
        ensures
            copy@ == self@,
    {
        Currencie {
            id: self.id,
            created_at: self.created_at,
            updated_at: self.updated_at,
            name: copy_text(&self.name),
            rate: self.rate,
            last_update_day: self.last_update_day,
        }
    }
}

/// A row of the email table.
#[derive(Debug)]
pub struct Email {
    pub id: Option<i32>,
    pub created_at: Option<Timestamp>,
    pub updated_at: Option<Timestamp>,
    pub email: Option<String>,
    pub currency_id: Option<i32>,
    pub currencie_id: Option<i32>,
}

/// What an [`Email`] row holds.
pub struct EmailView {
    pub id: Option<i32>,
    pub created_at: Option<Timestamp>,
    pub updated_at: Option<Timestamp>,
    pub email: Option<Seq<char>>,
    pub currency_id: Option<i32>,
    pub currencie_id: Option<i32>,
}

impl View for Email {
    type V = EmailView;

    open spec fn view(&self) -> EmailView {
        EmailView {
            id: self.id,
            created_at: self.created_at,
            updated_at: self.updated_at,
            email: text_view(self.email),
            currency_id: self.currency_id,
            currencie_id: self.currencie_id,
        }
    }
}

impl EmailView {
    /// A row that only carries its address.
    pub open spec fn with_address(address: Seq<char>) -> EmailView {
        EmailView {
            id: None,
            created_at: None,
            updated_at: None,
            email: Some(address),
            currency_id: None,
            currencie_id: None,
        }
    }
}

impl Email {
    /// A row for `address` that the table has not keyed yet and that names
    /// no currency.
    pub fn with_address(address: &str) -> (row: Email)
        ensures
            row@ == EmailView::with_address(address@),
    {
        Email {
            id: None,
            created_at: None,
            updated_at: None,
            email: Some(address.to_owned()),
            currency_id: None,
            currencie_id: None,
        }
    }
}

/// A row of the interval table.
#[derive(Debug)]
pub struct Interval {
    pub id: Option<i32>,
    pub created_at: Option<Timestamp>,
    pub updated_at: Option<Timestamp>,
    pub name: Option<String>,
}

/// What an [`Interval`] row holds.
pub struct IntervalView {
    pub id: Option<i32>,
    pub created_at: Option<Timestamp>,
    pub updated_at: Option<Timestamp>,
    pub name: Option<Seq<char>>,
}

impl View for Interval {
    type V = IntervalView;

    open spec fn view(&self) -> IntervalView {
        IntervalView {
            id: self.id,
            created_at: self.created_at,
            updated_at: self.updated_at,
            name: text_view(self.name),
        }
    }
}

impl IntervalView {
    /// A row that only carries its name.
    pub open spec fn named(name: Seq<char>) -> IntervalView {
        IntervalView { id: None, created_at: None, updated_at: None, name: Some(name) }
    }
}

impl Interval {
    /// A row for `name` that the table has not keyed or timestamped yet.
    pub fn named(name: &str) -> (row: Interval)
        ensures
            row@ == IntervalView::named(name@),
    {
        Interval { id: None, created_at: None, updated_at: None, name: Some(name.to_owned()) }
    }
}

/// The columns every row starts with, followed by one free text column.
#[derive(Debug)]
pub struct MyStruct {
    pub id: Option<i32>,
    pub created_at: Option<Timestamp>,
    pub updated_at: Option<Timestamp>,
    pub test: Option<String>,
}

/// An empty row: no key, no timestamps, no text.
pub fn make_struct() -> (made: MyStruct)
    ensures
        made.id is None,
        made.created_at is None,
        made.updated_at is None,
        made.test is None,
{
    MyStruct { id: None, created_at: None, updated_at: None, test: None }
}

} // verus!
