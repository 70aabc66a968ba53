//! The response object and the status vocabulary that renderers act on.

use vstd::prelude::*;

verus! {

/// The abstract state of a [`Response`]: a header mapping with unique keys,
/// an optional status code, and the body text.
#[verifier::ext_equal]
pub struct ResponseView {
    /// Header names mapped to header values.
    pub headers: Map<Seq<char>, Seq<char>>,
    /// The status code, `None` while the response still has its default.
    pub status: Option<u16>,
    /// The body buffer.
    pub body: Seq<char>,
}

/// The request being answered. It is opaque to this layer: the built-in
/// writers never read or change it.
pub struct Request {}

impl Request {
    /// An empty request.
    pub fn new() -> Request {
        Request {}
    }
}

/// An error status for a response, drawn from the fixed status vocabulary.
pub struct StatusError {
    /// The HTTP status code carried by this error.
    pub code: u16,
}

impl StatusError {
    /// The "internal server error" status.
    pub fn internal_server_error() -> (e: StatusError)
        ensures
            e.code == 500,
    {
        StatusError { code: 500 }
    }
}

/// An in-flight HTTP response: a header mapping with unique keys, a status
/// code and a body buffer.
///
/// Exactly one renderer invocation per request is expected to set the body
/// and content-type; a later write overwrites, it does not append. Header
/// keys are compared exactly; callers use the fixed lower-case header names.
pub struct Response {
    headers: Vec<(String, String)>,
    status: Option<u16>,
    body: String,
}

spec fn header_map_of(entries: Seq<(String, String)>) -> Map<Seq<char>, Seq<char>>
    decreases entries.len(),
{
    if entries.len() == 0 {
        Map::empty()
    } else {
        header_map_of(entries.drop_last()).insert(entries.last().0@, entries.last().1@)
    }
}

spec fn unique_header_keys(entries: Seq<(String, String)>) -> bool {
    forall|i: int, j: int| 0 <= i < j < entries.len() ==> entries[i].0@ != entries[j].0@
}

proof fn lemma_unique_drop_last(entries: Seq<(String, String)>)
    requires
        unique_header_keys(entries),
        entries.len() > 0,
    ensures
        unique_header_keys(entries.drop_last()),
{
    assert forall|i: int, j: int|
        0 <= i < j < entries.drop_last().len() implies entries.drop_last()[i].0@
        != entries.drop_last()[j].0@ by {
        assert(entries.drop_last()[i] == entries[i]);
        assert(entries.drop_last()[j] == entries[j]);
    }
}

proof fn lemma_header_map_absent(entries: Seq<(String, String)>, k: Seq<char>)
    requires
        forall|j: int| 0 <= j < entries.len() ==> entries[j].0@ != k,
    ensures
        !header_map_of(entries).contains_key(k),
    decreases entries.len(),
{
    if entries.len() > 0 {
        assert forall|j: int| 0 <= j < entries.drop_last().len() implies entries.drop_last()[j].0@
            != k by {
            assert(entries.drop_last()[j] == entries[j]);
        }
        lemma_header_map_absent(entries.drop_last(), k);
    }
}

proof fn lemma_header_map_found(entries: Seq<(String, String)>, i: int)
    requires
        unique_header_keys(entries),
        0 <= i < entries.len(),
    ensures
        header_map_of(entries).contains_key(entries[i].0@),
        header_map_of(entries)[entries[i].0@] == entries[i].1@,
    decreases entries.len(),
{
    if i < entries.len() - 1 {
        lemma_unique_drop_last(entries);
        assert(entries.drop_last()[i] == entries[i]);
        lemma_header_map_found(entries.drop_last(), i);
        assert(entries.last().0@ != entries[i].0@);
    }
}

proof fn lemma_header_map_update(entries: Seq<(String, String)>, i: int, p: (String, String))
    requires
        unique_header_keys(entries),
        0 <= i < entries.len(),
        p.0@ == entries[i].0@,
    ensures
        header_map_of(entries.update(i, p)) == header_map_of(entries).insert(p.0@, p.1@),
    decreases entries.len(),
{
    let u = entries.update(i, p);
    if i == entries.len() - 1 {
        assert(u.drop_last() =~= entries.drop_last());
        assert(u.last() == p);
        assert(header_map_of(u) =~= header_map_of(entries).insert(p.0@, p.1@));
    } else {
        assert(u.drop_last() =~= entries.drop_last().update(i, p));
        assert(u.last() == entries.last());
        lemma_unique_drop_last(entries);
        assert(entries.drop_last()[i] == entries[i]);
        lemma_header_map_update(entries.drop_last(), i, p);
        assert(entries.last().0@ != p.0@);
        assert(header_map_of(u) =~= header_map_of(entries).insert(p.0@, p.1@));
    }
}

impl View for Response {
    type V = ResponseView;

    closed spec fn view(&self) -> ResponseView {
        ResponseView {
            headers: header_map_of(self.headers@),
            status: self.status,
            body: self.body@,
        }
    }
}

impl Response {
    #[verifier::type_invariant]
    spec fn wf(&self) -> bool {
        unique_header_keys(self.headers@)
    }

    /// A fresh response: no headers, default status, empty body.
    pub fn new() -> (res: Response)
        ensures
            res@.headers == Map::<Seq<char>, Seq<char>>::empty(),
            res@.status is None,
            res@.body == Seq::<char>::empty(),
    {
        Response { headers: Vec::new(), status: None, body: String::new() }
    }

    /// Sets the header `key` to `value`, replacing any earlier value.
    pub fn insert_header(&mut self, key: &str, value: &str)
        ensures
            final(self)@.headers == old(self)@.headers.insert(key@, value@),
            final(self)@.status == old(self)@.status,
            final(self)@.body == old(self)@.body,
    {
        proof {
            use_type_invariant(&*self);
        }
        let key_owned: String = key.to_owned();
        let value_owned: String = value.to_owned();
        let mut entries: Vec<(String, String)> = Vec::new();
        core::mem::swap(&mut entries, &mut self.headers);
        let ghost entries0 = entries@;
        let mut idx: usize = 0;
        let mut found: bool = false;
        while idx < entries.len() && !found
            invariant
                idx <= entries@.len(),
                entries@ == entries0,
                unique_header_keys(entries0),
                key_owned@ == key@,
                !found ==> forall|j: int| 0 <= j < idx ==> entries@[j].0@ != key@,
                found ==> idx < entries@.len() && entries@[idx as int].0@ == key@,
            decreases (if found { 0int } else { 1int }), entries@.len() - idx,
        {
            if entries[idx].0 == key_owned {
                found = true;
            } else {
                idx += 1;
            }
        }
        if found {
            entries[idx].1 = value_owned;
            proof {
                lemma_header_map_update(entries0, idx as int, entries@[idx as int]);
                assert forall|a: int, b: int|
                    0 <= a < b < entries@.len() implies entries@[a].0@ != entries@[b].0@ by {
                    assert(entries0[a].0@ != entries0[b].0@);
                }
            }
        } else {
            entries.push((key_owned, value_owned));
            proof {
                assert(entries@.drop_last() =~= entries0);
                assert(header_map_of(entries@) == header_map_of(entries0).insert(key@, value@));
                assert forall|a: int, b: int|
                    0 <= a < b < entries@.len() implies entries@[a].0@ != entries@[b].0@ by {
                    if b < entries@.len() - 1 {
                        assert(entries0[a].0@ != entries0[b].0@);
                    }
                }
            }
        }
        self.headers = entries;
    }

    /// The value of the header `key`, if it is set.
    pub fn header_value(&self, key: &str) -> (r: Option<String>)
        ensures
            match r {
                Some(v) => self@.headers.contains_key(key@) && v@ == self@.headers[key@],
                None => !self@.headers.contains_key(key@),
            },
    {
        proof {
            use_type_invariant(&*self);
        }
        let key_owned: String = key.to_owned();
        let mut idx: usize = 0;
        while idx < self.headers.len()
            invariant
                idx <= self.headers@.len(),
                unique_header_keys(self.headers@),
                key_owned@ == key@,
                forall|j: int| 0 <= j < idx ==> self.headers@[j].0@ != key@,
            decreases self.headers@.len() - idx,
        {
            if self.headers[idx].0 == key_owned {
                let v = self.headers[idx].1.clone();
                proof {
                    lemma_header_map_found(self.headers@, idx as int);
                }
                return Some(v);
            }
            idx += 1;
        }
        proof {
            lemma_header_map_absent(self.headers@, key@);
        }
        None
    }

    /// Replaces the body buffer with `content`.
    pub fn write_body(&mut self, content: String)
        ensures
            final(self)@.body == content@,
            final(self)@.headers == old(self)@.headers,
            final(self)@.status == old(self)@.status,
    {
        proof {
            use_type_invariant(&*self);
        }
        self.body = content;
    }

    /// Forces the status of the response to the code of `err`.
    pub fn set_status_error(&mut self, err: StatusError)
        ensures
            final(self)@.status == Some(err.code),
            final(self)@.headers == old(self)@.headers,
            final(self)@.body == old(self)@.body,
    {
        proof {
            use_type_invariant(&*self);
        }
        self.status = Some(err.code);
    }

    /// The status code of the response, `None` while it is still the default.
    pub fn status_code(&self) -> (r: Option<u16>)
        ensures
            r == self@.status,
    {
        self.status
    }

    /// The body buffer.
    pub fn body(&self) -> (r: &String)
        ensures
            r@ == self@.body,
    {
        &self.body
    }
}

} // verus!
