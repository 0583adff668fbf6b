//! The messages by which the server says what went wrong.
//!
//! A reply may carry several lists of messages. Each message is kept in one
//! form (see `normalized`), the empty ones are dropped, and what is left stays
//! in the order in which the server gave it.

use crate::error::Error;
use crate::json::{is_shape_error, text_at, text_field, Json};
use crate::text::{normalize_message, normalized, views_of};
use vstd::prelude::*;

verus! {

/// The text of a message of the server, which is an object with the field
/// `message`.
pub open spec fn message_of(j: Json) -> Option<Seq<char>> {
    match j.fields() {
        Some(f) => text_at(f, "message"@, "message"@),
        None => None,
    }
}

/// Whether each item is a message of the server.
pub open spec fn are_messages(items: Seq<Json>) -> bool {
    forall|i: int| 0 <= i < items.len() ==> message_of(#[trigger] items[i]) is Some
}

/// The texts of a list of messages of the server.
pub open spec fn messages_of(items: Seq<Json>) -> Seq<Seq<char>> {
    Seq::new(items.len(), |i: int| message_of(items[i]).unwrap())
}

/// Reads a message of the server, as it stands.
pub fn read_message(j: &Json) -> (r: Result<String, Error>)
    ensures
        match message_of(*j) {
            Some(m) => r matches Ok(s) && s@ == m,
            None => r matches Err(e) && is_shape_error(e),
        },
{
    let f = j.as_object()?;
    text_field(f, "message", "message")
}

/// Reads a list of messages of the server, as they stand.
pub fn read_messages(items: Option<&Vec<Json>>) -> (r: Result<Vec<String>, Error>)
    ensures
        match items {
            Some(v) => if are_messages(v@) {
                r matches Ok(m) && views_of(m@) == messages_of(v@)
            } else {
                r matches Err(e) && is_shape_error(e)
            },
            None => r matches Ok(m) && m@.len() == 0,
        },
{
    let mut out: Vec<String> = Vec::new();
    match items {
        None => {},
        Some(v) => {
            let n: usize = v.len();
            let mut i: usize = 0;
            while i < n
                invariant
                    n == v@.len(),
                    i <= n,
                    items == Some(v),
                    out@.len() == i,
                    forall|k: int| 0 <= k < i ==> message_of(#[trigger] v@[k]) is Some,
                    forall|k: int| 0 <= k < i ==> (#[trigger] out@[k])@ == message_of(v@[k]).unwrap(),
                decreases n - i,
            {
                let m = match read_message(&v[i]) {
                    Ok(m) => m,
                    Err(e) => {
                        return Err(e);
                    },
                };
                out.push(m);
                i += 1;
            }
            assert(views_of(out@) =~= messages_of(v@));
        },
    }
    Ok(out)
}

/// The messages that are kept of a list: each in the form in which messages
/// are kept, without those that are empty in that form, in their order.
pub open spec fn kept_messages(messages: Seq<Seq<char>>) -> Seq<Seq<char>>
    decreases messages.len(),
{
    if messages.len() == 0 {
        Seq::empty()
    } else {
        let rest = kept_messages(messages.drop_last());
        let m = normalized(messages.last());
        if m.len() > 0 {
            rest.push(m)
        } else {
            rest
        }
    }
}

/// The messages that are kept of several lists, list after list.
pub open spec fn all_kept_messages(lists: Seq<Seq<Seq<char>>>) -> Seq<Seq<char>>
    decreases lists.len(),
{
    if lists.len() == 0 {
        Seq::empty()
    } else {
        all_kept_messages(lists.drop_last()) + kept_messages(lists.last())
    }
}

/// Appends to `errors` the messages that are kept of `messages`.
pub fn append_kept(errors: &mut Vec<String>, messages: &Vec<String>)
    ensures
        views_of(final(errors)@) == views_of(old(errors)@) + kept_messages(views_of(messages@)),
{
    let n: usize = messages.len();
    let mut i: usize = 0;
    assert(views_of(messages@).take(0) =~= Seq::<Seq<char>>::empty());
    assert(views_of(errors@) + Seq::<Seq<char>>::empty() =~= views_of(errors@));
    while i < n
        invariant
            n == messages@.len(),
            i <= n,
            views_of(errors@) == views_of(old(errors)@) + kept_messages(
                views_of(messages@).take(i as int),
            ),
        decreases n - i,
    {
        let ghost before = views_of(errors@);
        let ghost all = views_of(messages@);
        proof {
            assert(all.take(i + 1).drop_last() == all.take(i as int));
            assert(all.take(i + 1).last() == messages@[i as int]@);
        }
        let m = normalize_message(messages[i].as_str());
        if !m.as_str().is_empty() {
            errors.push(m);
            assert(views_of(errors@) =~= before.push(m@));
            assert(views_of(old(errors)@) + kept_messages(all.take(i as int)).push(m@) =~= (
            views_of(old(errors)@) + kept_messages(all.take(i as int))).push(m@));
        }
        i += 1;
    }
    assert(views_of(messages@).take(n as int) == views_of(messages@));
}

} // verus!
