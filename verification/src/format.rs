//! How the results of a search read as text.

use crate::date::{date_text, time_text, TrainDate, TrainTime};
use crate::list::ResultList;
use crate::text::digits_of;
use crate::RzdStationCode;
use vstd::prelude::*;

verus! {

/// A value that can be read as text.
pub trait Text {
    /// The text of the value.
    spec fn text(&self) -> Seq<char>;

    /// The text of the value.
    fn to_text(&self) -> (r: String)
        ensures
            r@ == self.text(),
    ;
}

impl Text for String {
    open spec fn text(&self) -> Seq<char> {
        self@
    }

    fn to_text(&self) -> (r: String) {
        self.clone()
    }
}

impl Text for RzdStationCode {
    open spec fn text(&self) -> Seq<char> {
        digits_of(self.0 as nat)
    }

    fn to_text(&self) -> (r: String) {
        self.to_string()
    }
}

/// The texts of the items, item by item.
pub open spec fn texts_of<T: Text>(items: Seq<T>) -> Seq<Seq<char>> {
    Seq::new(items.len(), |i: int| items[i].text())
}

/// The texts one after the other, each between `before` and `after`.
pub open spec fn all_lines(texts: Seq<Seq<char>>, before: Seq<char>, after: Seq<char>) -> Seq<char>
    decreases texts.len(),
{
    if texts.len() == 0 {
        Seq::empty()
    } else {
        all_lines(texts.drop_last(), before, after) + before + texts.last() + after
    }
}

/// Appends the texts of the items to `out`, each between `before` and `after`.
pub fn push_lines<T: Text>(out: &mut String, items: &Vec<T>, before: &str, after: &str)
    ensures
        final(out)@ == old(out)@ + all_lines(texts_of(items@), before@, after@),
{
    let n: usize = items.len();
    let mut i: usize = 0;
    let ghost texts = texts_of(items@);
    assert(texts.take(0) =~= Seq::<Seq<char>>::empty());
    assert(out@ + Seq::<char>::empty() =~= out@);
    while i < n
        invariant
            n == items@.len(),
            i <= n,
            texts == texts_of(items@),
            out@ == old(out)@ + all_lines(texts.take(i as int), before@, after@),
        decreases n - i,
    {
        let ghost so_far = all_lines(texts.take(i as int), before@, after@);
        proof {
            assert(texts.take(i + 1).drop_last() =~= texts.take(i as int));
            assert(texts.take(i + 1).last() == items@[i as int].text());
        }
        out.append(before);
        let item = items[i].to_text();
        out.append(item.as_str());
        out.append(after);
        proof {
            assert(out@ =~= old(out)@ + (so_far + before@ + items@[i as int].text() + after@));
        }
        i += 1;
    }
    assert(texts.take(n as int) =~= texts);
}

impl<T: Text> Text for ResultList<T> {
    /// The items, each on a line of its own.
    open spec fn text(&self) -> Seq<char> {
        all_lines(texts_of(self.items()), Seq::empty(), "\n"@)
    }

    fn to_text(&self) -> (r: String) {
        let mut out = String::new();
        push_lines(&mut out, &self.0, "", "\n");
        proof {
            reveal_strlit("");
            assert(""@ =~= Seq::<char>::empty());
            assert(Seq::<char>::empty() + all_lines(texts_of(self.0@), ""@, "\n"@) =~= all_lines(
                texts_of(self.0@),
                ""@,
                "\n"@,
            ));
        }
        out
    }
}

/// A date as text, or nothing where there is none.
pub open spec fn date_or_nothing(d: Option<TrainDate>) -> Seq<char> {
    match d {
        Some(d) => date_text(d.year(), d.month(), d.day()),
        None => Seq::empty(),
    }
}

/// A time as text, or nothing where there is none.
pub open spec fn time_or_nothing(t: Option<TrainTime>) -> Seq<char> {
    match t {
        Some(t) => time_text(t.hours(), t.minutes()),
        None => Seq::empty(),
    }
}

/// Appends a date to `out`, if there is one.
pub fn push_date(out: &mut String, d: Option<TrainDate>)
    ensures
        final(out)@ == old(out)@ + date_or_nothing(d),
{
    match d {
        Some(d) => {
            let s = d.to_string();
            out.append(s.as_str());
        },
        None => {
            assert(out@ + Seq::<char>::empty() =~= out@);
        },
    }
}

/// Appends a time to `out`, if there is one.
pub fn push_time(out: &mut String, t: Option<TrainTime>)
    ensures
        final(out)@ == old(out)@ + time_or_nothing(t),
{
    match t {
        Some(t) => {
            let s = t.to_string();
            out.append(s.as_str());
        },
        None => {
            assert(out@ + Seq::<char>::empty() =~= out@);
        },
    }
}

} // verus!
