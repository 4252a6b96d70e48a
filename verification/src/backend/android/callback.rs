//! The decisions behind Cronet's request callbacks: the status and header
//! fields a started response is reported with, the error a failure stands
//! for, where each event is sent, and the table that finds a request's
//! handler again by its id.

use vstd::prelude::*;
use vstd::string::*;
use std::collections::HashMap;
use crate::backend::android::response::{HeaderEntry, entries_view};
use crate::error::Error;
use crate::text::{signed_decimal, spec_signed_decimal};
use crate::wire::{HeaderPair, header_name_from_bytes, header_value_ok, header_value_valid, headers_view, spec_header_name, status_code_from_u16};

verus! {

/// The status a started response reports: the code cut to 16 bits when
/// `StatusCode::from_u16` accepts it (100 to 999); otherwise an internal
/// error "Invalid status code {code}: invalid status code".
pub fn callback_status(status_code: i32) -> (res: Result<u16, Error>)
    ensures
        100 <= status_code as u16 <= 999 ==> res == Ok::<u16, Error>(status_code as u16),
        !(100 <= status_code as u16 <= 999) ==> (res matches Err(Error::Internal(m)) && m@ == "Invalid status code "@
            + spec_signed_decimal(status_code as int) + ": "@ + "invalid status code"@),
{
    match status_code_from_u16(status_code as u16) {
        Ok(s) => Ok(s),
        Err(e) => {
            let mut m = String::from_str("Invalid status code ");
            let d = signed_decimal(status_code as i64);
            m.append(d.as_str());
            m.append(": ");
            m.append(e.as_str());
            Err(Error::Internal(m))
        },
    }
}

/// The valid values among `vals`, in order, each as a field named `n`.
pub open spec fn spec_valid_values(n: Seq<char>, vals: Seq<Seq<char>>) -> Seq<(Seq<char>, Seq<char>)>
    decreases vals.len(),
{
    if vals.len() == 0 {
        Seq::empty()
    } else {
        let r = spec_valid_values(n, vals.drop_last());
        if header_value_ok(vals.last()) {
            r.push((n, vals.last()))
        } else {
            r
        }
    }
}

/// The fields of one entry when invalid names and values are skipped.
pub open spec fn spec_lenient_entry(e: (Seq<char>, Seq<Seq<char>>)) -> Seq<(Seq<char>, Seq<char>)> {
    match spec_header_name(e.0) {
        Some(n) => spec_valid_values(n, e.1),
        None => Seq::empty(),
    }
}

/// The fields of all entries, appended in order, invalid names and
/// values skipped.
pub open spec fn spec_lenient_headers(entries: Seq<(Seq<char>, Seq<Seq<char>>)>) -> Seq<(Seq<char>, Seq<char>)>
    decreases entries.len(),
{
    if entries.len() == 0 {
        Seq::empty()
    } else {
        spec_lenient_headers(entries.drop_last()) + spec_lenient_entry(entries.last())
    }
}

/// The fields of one entry (see `spec_lenient_entry`).
fn lenient_entry(entry: &HeaderEntry) -> (h: Vec<HeaderPair>)
    ensures
        headers_view(h@) == spec_lenient_entry(entry@),
{
    let mut out: Vec<HeaderPair> = Vec::new();
    assert(headers_view(out@) =~= Seq::<(Seq<char>, Seq<char>)>::empty());
    let n = match header_name_from_bytes(entry.name.as_str()) {
        Some(n) => n,
        None => return out,
    };
    let ghost vals = entry@.1;
    let mut i: usize = 0;
    assert(vals.take(0) =~= Seq::<Seq<char>>::empty());
    while i < entry.values.len()
        invariant
            vals == entry@.1,
            vals.len() == entry.values@.len(),
            spec_header_name(entry@.0) == Some(n@),
            i <= entry.values@.len(),
            headers_view(out@) == spec_valid_values(n@, vals.take(i as int)),
        decreases entry.values.len() - i,
    {
        assert(vals.take(i + 1).drop_last() =~= vals.take(i as int));
        assert(vals.take(i + 1).last() == entry.values@[i as int]@);
        if header_value_valid(entry.values[i].as_str()).is_ok() {
            let ghost before = out@;
            out.push(HeaderPair { name: n.clone(), value: entry.values[i].clone() });
            assert(headers_view(out@) =~= headers_view(before).push((n@, entry.values@[i as int]@)));
        }
        i += 1;
    }
    assert(vals.take(vals.len() as int) =~= vals);
    out
}

/// The header fields a started response or a redirect is reported with:
/// every value of every entry under the entry's normalized name, in
/// order, skipping invalid names and values.
pub fn callback_headers(entries: &Vec<HeaderEntry>) -> (h: Vec<HeaderPair>)
    ensures
        headers_view(h@) == spec_lenient_headers(entries_view(entries@)),
{
    let ghost ev = entries_view(entries@);
    let mut out: Vec<HeaderPair> = Vec::new();
    let mut i: usize = 0;
    assert(ev.take(0) =~= Seq::<(Seq<char>, Seq<Seq<char>>)>::empty());
    assert(headers_view(out@) =~= Seq::<(Seq<char>, Seq<char>)>::empty());
    while i < entries.len()
        invariant
            ev == entries_view(entries@),
            ev.len() == entries@.len(),
            i <= entries@.len(),
            headers_view(out@) == spec_lenient_headers(ev.take(i as int)),
        decreases entries.len() - i,
    {
        assert(ev.take(i + 1).drop_last() =~= ev.take(i as int));
        assert(ev.take(i + 1).last() == entries@[i as int]@);
        let f = lenient_entry(&entries[i]);
        let ghost before = out@;
        let ghost fv = f@;
        let mut f = f;
        out.append(&mut f);
        assert(headers_view(out@) =~= headers_view(before) + headers_view(fv));
        i += 1;
    }
    assert(ev.take(ev.len() as int) =~= ev);
    out
}

/// The error a Cronet failure stands for. `code` is the error code of a
/// `NetworkException`; it is `None` for any other exception, or when the
/// exception's class could not be checked.
///
/// Codes 9 and 11 (timed out) are a timeout; 6, 7, 12, 13 and 14 are
/// network errors whose message names the cause; any other code is a
/// network error with the message as given; no code is a network error of
/// code -1.
pub fn map_cronet_error(message: String, code: Option<i32>) -> (e: Error)
    ensures
        code is None ==> (e matches Error::Network { code: c, message: m } && c == -1 && m@ == message@),
        code == Some(9i32) || code == Some(11i32) ==> e is Timeout,
        code == Some(6i32) ==> (e matches Error::Network { code: c, message: m } && c == 6 && m@
            == "Hostname not resolved: "@ + message@),
        code == Some(7i32) ==> (e matches Error::Network { code: c, message: m } && c == 7 && m@
            == "No internet connection: "@ + message@),
        code == Some(12i32) ==> (e matches Error::Network { code: c, message: m } && c == 12 && m@
            == "Connection refused: "@ + message@),
        code == Some(13i32) ==> (e matches Error::Network { code: c, message: m } && c == 13 && m@
            == "Connection reset: "@ + message@),
        code == Some(14i32) ==> (e matches Error::Network { code: c, message: m } && c == 14 && m@
            == "Address unreachable: "@ + message@),
        code is Some && code->0 != 6 && code->0 != 7 && code->0 != 9 && code->0 != 11 && code->0 != 12
            && code->0 != 13 && code->0 != 14 ==> (e matches Error::Network { code: c, message: m } && c
            == code->0 as i64 && m@ == message@),
{
    let c = match code {
        Some(c) => c,
        None => return Error::Network { code: -1, message },
    };
    let prefix = if c == 6 {
        "Hostname not resolved: "
    } else if c == 7 {
        "No internet connection: "
    } else if c == 12 {
        "Connection refused: "
    } else if c == 13 {
        "Connection reset: "
    } else if c == 14 {
        "Address unreachable: "
    } else if c == 9 || c == 11 {
        return Error::Timeout;
    } else {
        return Error::Network { code: c as i64, message };
    };
    let mut m = String::from_str(prefix);
    m.append(message.as_str());
    Error::Network { code: c as i64, message: m }
}

/// Where a failure is reported.
#[derive(Clone, Copy, PartialEq, Eq, Structural, Debug)]
pub enum FailureRoute {
    /// On the response channel, before the response started
    Response,
    /// On the body channel, while the body streams
    Body,
    /// Nowhere: both channels are closed
    Dropped,
}

/// Which of a request's two channels are still open: the one for
/// response events and the one for body data.
#[derive(Clone, Copy, PartialEq, Eq, Structural, Debug)]
pub struct CallbackChannels {
    /// The response channel is open
    pub response_open: bool,
    /// The body channel is open
    pub body_open: bool,
}

impl CallbackChannels {
    /// Both channels open.
    pub fn new() -> (c: Self)
        ensures
            c.response_open && c.body_open,
    {
        CallbackChannels { response_open: true, body_open: true }
    }

    /// Whether a started response or a redirect is sent: when the response
    /// channel is open.
    pub fn sends_response_event(&self) -> (b: bool)
        ensures
            b == self.response_open,
    {
        self.response_open
    }

    /// Whether data that was read is sent: when the body channel is open.
    pub fn sends_body_data(&self) -> (b: bool)
        ensures
            b == self.body_open,
    {
        self.body_open
    }

    /// Success is sent on the response channel when it is open, and the
    /// body channel closes.
    pub fn on_succeeded(&mut self) -> (sent: bool)
        ensures
            sent == old(self).response_open,
            final(self).response_open == old(self).response_open,
            !final(self).body_open,
    {
        self.body_open = false;
        self.response_open
    }

    /// A failure goes to the response channel when it is open, else to the
    /// body channel when that is open; then both close.
    pub fn on_failed(&mut self) -> (route: FailureRoute)
        ensures
            route == (if old(self).response_open {
                FailureRoute::Response
            } else if old(self).body_open {
                FailureRoute::Body
            } else {
                FailureRoute::Dropped
            }),
            !final(self).response_open,
            !final(self).body_open,
    {
        let route = if self.response_open {
            FailureRoute::Response
        } else if self.body_open {
            FailureRoute::Body
        } else {
            FailureRoute::Dropped
        };
        self.response_open = false;
        self.body_open = false;
        route
    }
}

/// The handlers of the requests in flight, each under the id it was
/// registered with; ids are handed out by a counter that starts at 1.
pub struct CallbackRegistry<H> {
    handlers: HashMap<i64, H>,
    next_id: i64,
}

impl<H> CallbackRegistry<H> {
    /// The handlers by id.
    pub closed spec fn handlers(&self) -> Map<i64, H> {
        self.handlers@
    }

    /// The id the next registration gets.
    pub closed spec fn next_id(&self) -> i64 {
        self.next_id
    }

    /// No handlers; the first id is 1.
    pub fn new() -> (r: Self)
        ensures
            r.handlers() == Map::<i64, H>::empty(),
            r.next_id() == 1,
    {
        CallbackRegistry { handlers: HashMap::new(), next_id: 1 }
    }

    /// Registers a handler under the next id, which it returns; the
    /// counter moves on by one (wrapping as the atomic counter does).
    pub fn register_callback_handler(&mut self, handler: H) -> (id: i64)
        ensures
            id == old(self).next_id(),
            final(self).handlers() == old(self).handlers().insert(id, handler),
            final(self).next_id() == (if old(self).next_id() == i64::MAX {
                i64::MIN
            } else {
                (old(self).next_id() + 1) as i64
            }),
    {
        broadcast use vstd::std_specs::hash::group_hash_axioms;

        let id = self.next_id;
        self.next_id = if id == i64::MAX { i64::MIN } else { id + 1 };
        self.handlers.insert(id, handler);
        id
    }

    /// Puts a handler back under its id.
    pub fn reinsert_callback_handler(&mut self, id: i64, handler: H)
        ensures
            final(self).handlers() == old(self).handlers().insert(id, handler),
            final(self).next_id() == old(self).next_id(),
    {
        broadcast use vstd::std_specs::hash::group_hash_axioms;

        self.handlers.insert(id, handler);
    }

    /// Takes the handler of an id out of the table.
    pub fn get_callback_handler(&mut self, id: i64) -> (h: Option<H>)
        ensures
            h == (if old(self).handlers().contains_key(id) {
                Some(old(self).handlers()[id])
            } else {
                None
            }),
            final(self).handlers() == old(self).handlers().remove(id),
            final(self).next_id() == old(self).next_id(),
    {
        broadcast use vstd::std_specs::hash::group_hash_axioms;

        self.handlers.remove(&id)
    }

    /// Removes the handler of an id, if any.
    pub fn unregister_callback_handler(&mut self, id: i64)
        ensures
            final(self).handlers() == old(self).handlers().remove(id),
            final(self).next_id() == old(self).next_id(),
    {
        broadcast use vstd::std_specs::hash::group_hash_axioms;

        let _ = self.handlers.remove(&id);
    }
}

/// A handler that was registered is found again under the id it got,
/// and finding it takes it out of the table.
pub proof fn law_register_then_take<H>(r: CallbackRegistry<H>, h: H, id: i64, after: CallbackRegistry<H>)
    requires
        id == r.next_id(),
        after.handlers() == r.handlers().insert(id, h),
    ensures
        after.handlers().contains_key(id),
        after.handlers()[id] == h,
        after.handlers().remove(id) == r.handlers().remove(id),
{
    assert(after.handlers().remove(id) =~= r.handlers().remove(id));
}

} // verus!
