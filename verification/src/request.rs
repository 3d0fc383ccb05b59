//! One outgoing call: method, address, headers and body.
//!
//! The headers are a mapping from names to values. They are kept as a list
//! in which no name occurs twice, so that whoever sends the call can walk the
//! list and send each header once.

use crate::text::option_text;
use vstd::prelude::*;

verus! {

/// The HTTP method of a call.
#[derive(Clone, Copy, Debug, PartialEq, Eq, Structural)]
pub enum Method {
    Get,
    Post,
    Put,
    Delete,
}

/// One header of a call.
#[derive(Debug)]
pub struct Header {
    pub name: String,
    pub value: String,
}

/// The mathematical content of a [`CallRequest`].
pub struct RequestModel {
    pub method: Method,
    pub url: Seq<char>,
    pub headers: Map<Seq<char>, Seq<char>>,
    pub body: Option<Seq<char>>,
}

/// No two of the headers have the same name.
pub open spec fn names_differ(headers: Seq<Header>) -> bool {
    forall|i: int, j: int|
        0 <= i < j < headers.len() ==> (#[trigger] headers[i]).name@ != (#[trigger] headers[j]).name@
}

/// The mapping that a list of headers spells: each header in turn puts its
/// value under its name.
pub open spec fn mapping_of(headers: Seq<Header>) -> Map<Seq<char>, Seq<char>>
    decreases headers.len(),
{
    if headers.len() == 0 {
        Map::empty()
    } else {
        mapping_of(headers.drop_last()).insert(headers.last().name@, headers.last().value@)
    }
}

/// The names in the mapping are those of the headers, and a name that no
/// header has is not in it.
pub proof fn lemma_mapping_names(headers: Seq<Header>, name: Seq<char>)
    ensures
        mapping_of(headers).dom().contains(name) <==> exists|i: int|
            0 <= i < headers.len() && (#[trigger] headers[i]).name@ == name,
    decreases headers.len(),
{
    if headers.len() > 0 {
        let earlier = headers.drop_last();
        lemma_mapping_names(earlier, name);
        if mapping_of(headers).dom().contains(name) {
            if headers.last().name@ == name {
                assert(headers[headers.len() - 1].name@ == name);
            } else {
                let i = choose|i: int| 0 <= i < earlier.len() && (#[trigger] earlier[i]).name@ == name;
                assert(headers[i].name@ == name);
            }
        }
        if exists|i: int| 0 <= i < headers.len() && (#[trigger] headers[i]).name@ == name {
            let i = choose|i: int| 0 <= i < headers.len() && (#[trigger] headers[i]).name@ == name;
            if i < earlier.len() {
                assert(earlier[i].name@ == name);
            }
        }
    }
}

/// Where no name occurs twice, each header's value is the one that the
/// mapping holds under its name.
pub proof fn lemma_mapping_value(headers: Seq<Header>, i: int)
    requires
        names_differ(headers),
        0 <= i < headers.len(),
    ensures
        mapping_of(headers).dom().contains(headers[i].name@),
        mapping_of(headers)[headers[i].name@] == headers[i].value@,
    decreases headers.len(),
{
    let earlier = headers.drop_last();
    if i < headers.len() - 1 {
        assert(names_differ(earlier)) by {
            assert forall|a: int, b: int| 0 <= a < b < earlier.len() implies (
            #[trigger] earlier[a]).name@ != (#[trigger] earlier[b]).name@ by {
                assert(headers[a].name@ != headers[b].name@);
            }
        }
        lemma_mapping_value(earlier, i);
        assert(earlier[i] == headers[i]);
        assert(headers[i].name@ != headers[headers.len() - 1].name@);
    }
}

/// Where no name occurs twice, giving one header a new value under its old
/// name puts that value under the name in the mapping and changes nothing
/// else.
pub proof fn lemma_mapping_update(headers: Seq<Header>, i: int, replacement: Header)
    requires
        names_differ(headers),
        0 <= i < headers.len(),
        replacement.name@ == headers[i].name@,
    ensures
        names_differ(headers.update(i, replacement)),
        mapping_of(headers.update(i, replacement)) == mapping_of(headers).insert(
            replacement.name@,
            replacement.value@,
        ),
    decreases headers.len(),
{
    let updated = headers.update(i, replacement);
    assert(names_differ(updated)) by {
        assert forall|a: int, b: int| 0 <= a < b < updated.len() implies (
        #[trigger] updated[a]).name@ != (#[trigger] updated[b]).name@ by {
            assert(headers[a].name@ != headers[b].name@);
        }
    }
    let earlier = headers.drop_last();
    let last = headers.last();
    if i == headers.len() - 1 {
        assert(updated.drop_last() == earlier);
        assert(mapping_of(updated) == mapping_of(headers).insert(
            replacement.name@,
            replacement.value@,
        ));
    } else {
        assert(names_differ(earlier)) by {
            assert forall|a: int, b: int| 0 <= a < b < earlier.len() implies (
            #[trigger] earlier[a]).name@ != (#[trigger] earlier[b]).name@ by {
                assert(headers[a].name@ != headers[b].name@);
            }
        }
        lemma_mapping_update(earlier, i, replacement);
        assert(updated.drop_last() == earlier.update(i, replacement));
        assert(updated.last() == last);
        assert(headers[i].name@ != headers[headers.len() - 1].name@);
        assert(mapping_of(updated) == mapping_of(headers).insert(
            replacement.name@,
            replacement.value@,
        ));
    }
}

/// One outgoing call. It is made for one logical call and lives as long as
/// that call, its retries included.
#[derive(Debug)]
pub struct CallRequest {
    method: Method,
    url: String,
    headers: Vec<Header>,
    body: Option<String>,
}

impl View for CallRequest {
    type V = RequestModel;

    closed spec fn view(&self) -> RequestModel {
        RequestModel {
            method: self.method,
            url: self.url@,
            headers: mapping_of(self.headers@),
            body: option_text(self.body),
        }
    }
}

impl CallRequest {
    #[verifier::type_invariant]
    closed spec fn well_formed(self) -> bool {
        names_differ(self.headers@)
    }

    /// A call to `url` with no header and no body.
    pub fn new(method: Method, url: String) -> (request: CallRequest)
        ensures
            request@ == (RequestModel {
                method,
                url: url@,
                headers: Map::empty(),
                body: None,
            }),
    {
        CallRequest { method, url, headers: Vec::new(), body: None }
    }

    /// The same call with `body` as its body.
    pub fn with_body(self, body: String) -> (request: CallRequest)
        ensures
            request@ == (RequestModel { body: Some(body@), ..self@ }),
    {
        proof {
            use_type_invariant(&self);
        }
        CallRequest { method: self.method, url: self.url, headers: self.headers, body: Some(body) }
    }

    /// The method of the call.
    pub fn method(&self) -> (method: Method)
        ensures
            method == self@.method,
    {
        self.method
    }

    /// The address of the call.
    pub fn url(&self) -> (url: &str)
        ensures
            url@ == self@.url,
    {
        self.url.as_str()
    }

    /// The body of the call, if it has one.
    pub fn body(&self) -> (body: Option<&str>)
        ensures
            match body {
                Some(b) => self@.body == Some(b@),
                None => self@.body is None,
            },
    {
        match &self.body {
            Some(b) => Some(b.as_str()),
            None => None,
        }
    }

    /// The headers of the call as a list to send: no name occurs twice, and
    /// the list spells the mapping.
    pub fn headers(&self) -> (headers: &Vec<Header>)
        ensures
            names_differ(headers@),
            mapping_of(headers@) == self@.headers,
    {
        proof {
            use_type_invariant(self);
        }
        &self.headers
    }

    /// The position of the header with this name in the list, if there is
    /// one.
    fn position(&self, name: &str) -> (found: Option<usize>)
        ensures
            names_differ(self.headers@),
            match found {
                Some(i) => i < self.headers@.len() && self.headers@[i as int].name@ == name@,
                None => forall|i: int|
                    0 <= i < self.headers@.len() ==> (#[trigger] self.headers@[i]).name@ != name@,
            },
    {
        proof {
            use_type_invariant(self);
        }
        let wanted = String::from_str(name);
        let mut i: usize = 0;
        while i < self.headers.len()
            invariant
                0 <= i <= self.headers@.len(),
                names_differ(self.headers@),
                wanted@ == name@,
                forall|k: int| 0 <= k < i ==> (#[trigger] self.headers@[k]).name@ != name@,
            decreases self.headers@.len() - i,
        {
            if self.headers[i].name == wanted {
                return Some(i);
            }
            i = i + 1;
        }
        None
    }

    /// The value of the header with this name, if the call has one.
    pub fn header(&self, name: &str) -> (value: Option<&str>)
        ensures
            match value {
                Some(v) => self@.headers.dom().contains(name@) && self@.headers[name@] == v@,
                None => !self@.headers.dom().contains(name@),
            },
    {
        match self.position(name) {
            Some(i) => {
                proof {
                    lemma_mapping_value(self.headers@, i as int);
                }
                Some(self.headers[i].value.as_str())
            },
            None => {
                proof {
                    lemma_mapping_names(self.headers@, name@);
                }
                None
            },
        }
    }

    /// Puts `value` under `name` among the headers, in place of the value
    /// that was there if there was one.
    pub fn set_header(&mut self, name: &str, value: &str)
        ensures
            final(self)@ == (RequestModel {
                headers: old(self)@.headers.insert(name@, value@),
                ..old(self)@
            }),
    {
        let header = Header { name: String::from_str(name), value: String::from_str(value) };
        let found = self.position(name);
        let ghost before = self.headers@;
        match found {
            Some(i) => {
                proof {
                    lemma_mapping_update(before, i as int, header);
                }
                let mut headers = Vec::new();
                std::mem::swap(&mut headers, &mut self.headers);
                headers.set(i, header);
                self.headers = headers;
            },
            None => {
                let mut headers = Vec::new();
                std::mem::swap(&mut headers, &mut self.headers);
                headers.push(header);
                proof {
                    assert(headers@.drop_last() == before);
                    assert(names_differ(headers@));
                }
                self.headers = headers;
            },
        }
    }
}

} // verus!
