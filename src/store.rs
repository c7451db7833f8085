use vstd::prelude::*;
use vstd::string::*;

use crate::fingerprint::{fingerprint, fingerprint_of};

verus! {

/// The fingerprint reported for a document that has never been written.
pub open spec fn empty_fingerprint() -> Seq<char> {
    seq!['E', 'M', 'P', 'T', 'Y']
}

/// A document name is a single path segment: not empty, free of separators,
/// and neither the current nor the parent directory.
pub open spec fn name_is_valid(s: Seq<char>) -> bool {
    &&& s.len() > 0
    &&& forall|i: int| 0 <= i < s.len() ==> s[i] != '/'
    &&& !(s.len() == 1 && s[0] == '.')
    &&& !(s.len() == 2 && s[0] == '.' && s[1] == '.')
}

/// The bytes of a chunked body, in order.
pub open spec fn concat_chunks(chunks: Seq<Seq<u8>>) -> Seq<u8>
    decreases chunks.len(),
{
    if chunks.len() == 0 {
        Seq::empty()
    } else {
        concat_chunks(chunks.drop_last()) + chunks.last()
    }
}

pub open spec fn chunks_view(chunks: Seq<Vec<u8>>) -> Seq<Seq<u8>> {
    chunks.map_values(|c: Vec<u8>| c@)
}

/// The fingerprint of a stored document: absent gives the sentinel, a cached
/// sidecar is trusted as it stands, otherwise the content is hashed.
pub open spec fn etag_spec(sidecar: Option<Seq<char>>, content: Option<Seq<u8>>) -> Seq<char> {
    match content {
        None => empty_fingerprint(),
        Some(c) => match sidecar {
            Some(s) => s,
            None => fingerprint_of(c),
        },
    }
}

/// Where a document is read from: the uploaded file when it is there (an
/// absolute name standing for itself), the initial page otherwise.
pub open spec fn path_spec(file: Seq<char>, is_file: bool) -> Seq<char> {
    if is_file {
        if file.len() > 0 && file[0] == '/' {
            file
        } else {
            seq!['u', 'p', 'l', 'o', 'a', 'd', '/'] + file
        }
    } else {
        seq!['i', 'n', 'i', 't', 'i', 'a', 'l', '/', 'i', 'n', 'd', 'e', 'x', '.', 'h', 't', 'm', 'l']
    }
}

#[derive(PartialEq, Eq, Structural, Clone, Copy, Debug)]
pub enum WriteError {
    /// The target is not a single valid segment naming the document.
    InvalidName,
    /// No precondition fingerprint was supplied.
    PreconditionMissing,
    /// The precondition fingerprint is not the current one.
    PreconditionFailed,
    /// Persisting the new content failed.
    Storage,
}

/// What to do with a conditional write once the name has been accepted.
#[derive(PartialEq, Eq, Structural, Clone, Copy, Debug)]
pub enum WriteDecision {
    Accept,
    Reject(WriteError),
}

pub open spec fn decision_spec(precondition: Option<Seq<char>>, current: Seq<char>) -> WriteDecision {
    match precondition {
        None => WriteDecision::Reject(WriteError::PreconditionMissing),
        Some(p) => if p == current {
            WriteDecision::Accept
        } else {
            WriteDecision::Reject(WriteError::PreconditionFailed)
        },
    }
}

/// The abstract state of a store: its document's name, content and cached fingerprint.
pub struct StoreModel {
    pub name: Seq<char>,
    pub content: Option<Seq<u8>>,
    pub sidecar: Option<Seq<char>>,
}

impl StoreModel {
    pub open spec fn fingerprint_for(self, name: Seq<char>) -> Seq<char> {
        if name == self.name {
            etag_spec(self.sidecar, self.content)
        } else {
            empty_fingerprint()
        }
    }

    pub open spec fn document(self, name: Seq<char>) -> Option<Seq<u8>> {
        if name == self.name {
            self.content
        } else {
            None
        }
    }

    /// A conditional write: the state after it, and its outcome.
    pub open spec fn write(self, name: Seq<char>, precondition: Option<Seq<char>>, body: Seq<u8>) -> (
        StoreModel,
        Result<Seq<char>, WriteError>,
    ) {
        if !name_is_valid(name) || name != self.name {
            (self, Err(WriteError::InvalidName))
        } else {
            match decision_spec(precondition, self.fingerprint_for(name)) {
                WriteDecision::Reject(e) => (self, Err(e)),
                WriteDecision::Accept => (
                    StoreModel {
                        name: self.name,
                        content: Some(body),
                        sidecar: Some(fingerprint_of(body)),
                    },
                    Ok(fingerprint_of(body)),
                ),
            }
        }
    }
}

/// A successful write followed by a read of the same name returns exactly the bytes written.
pub proof fn lemma_write_then_read(m: StoreModel, name: Seq<char>, precondition: Option<Seq<char>>, body: Seq<u8>)
    requires
        m.write(name, precondition, body).1 is Ok,
    ensures
        name_is_valid(name),
        m.write(name, precondition, body).0.document(name) == Some(body),
{
}

/// A write whose precondition is not the current fingerprint changes nothing.
pub proof fn lemma_conflict_leaves_store(m: StoreModel, name: Seq<char>, precondition: Seq<char>, body: Seq<u8>)
    requires
        precondition != m.fingerprint_for(name),
    ensures
        m.write(name, Some(precondition), body).0 == m,
        m.write(name, Some(precondition), body).1 is Err,
{
}

/// A write without a precondition is rejected and changes nothing, whatever the state.
pub proof fn lemma_missing_precondition_rejected(m: StoreModel, name: Seq<char>, body: Seq<u8>)
    ensures
        m.write(name, None, body).0 == m,
        m.write(name, None, body).1 is Err,
{
}

/// After a successful write the fingerprint read back is that of the new content,
/// and is the one the write returned.
pub proof fn lemma_write_refreshes_fingerprint(m: StoreModel, name: Seq<char>, precondition: Option<Seq<char>>, body: Seq<u8>)
    requires
        m.write(name, precondition, body).1 is Ok,
    ensures
        m.write(name, precondition, body).0.fingerprint_for(name) == fingerprint_of(body),
        m.write(name, precondition, body).1 == Ok::<Seq<char>, WriteError>(fingerprint_of(body)),
{
}

/// A name holding a separator, or naming the current or parent directory, is
/// refused as invalid and the store is left as it was.
pub proof fn lemma_traversal_rejected(m: StoreModel, name: Seq<char>, precondition: Option<Seq<char>>, body: Seq<u8>)
    requires
        (exists|i: int| 0 <= i < name.len() && name[i] == '/') || name == seq!['.'] || name == seq!['.', '.'],
    ensures
        m.write(name, precondition, body).0 == m,
        m.write(name, precondition, body).1 == Err::<Seq<char>, WriteError>(WriteError::InvalidName),
{
}

/// From an empty store, a write conditioned on the sentinel succeeds with the
/// fingerprint of its body; a following write conditioned on that fingerprint
/// succeeds too, returns the fingerprint of the second body, and replaces the content.
pub proof fn lemma_write_sequence(m: StoreModel, name: Seq<char>, first: Seq<u8>, second: Seq<u8>)
    requires
        name_is_valid(name),
        m.name == name,
        m.content is None,
    ensures
        m.write(name, Some(empty_fingerprint()), first).1 == Ok::<Seq<char>, WriteError>(
            fingerprint_of(first),
        ),
        m.write(name, Some(empty_fingerprint()), first).0.document(name) == Some(first),
        ({
            let after = m.write(name, Some(empty_fingerprint()), first).0;
            &&& after.write(name, Some(fingerprint_of(first)), second).1 == Ok::<
                Seq<char>,
                WriteError,
            >(fingerprint_of(second))
            &&& after.write(name, Some(fingerprint_of(first)), second).0.document(name) == Some(
                second,
            )
        }),
{
}

pub open spec fn outcome_view(r: Result<String, WriteError>) -> Result<Seq<char>, WriteError> {
    match r {
        Ok(f) => Ok(f@),
        Err(e) => Err(e),
    }
}

/// Whether `name` is a single path segment that names no directory.
pub fn path_is_valid(name: &str) -> (r: bool)
    ensures
        r == name_is_valid(name@),
{
    let n = name.unicode_len();
    if n == 0 {
        return false;
    }
    let mut i: usize = 0;
    while i < n
        invariant
            n == name@.len(),
            i <= n,
            forall|j: int| 0 <= j < i ==> name@[j] != '/',
        decreases n - i,
    {
        if name.get_char(i) == '/' {
            return false;
        }
        i = i + 1;
    }
    if n == 1 && name.get_char(0) == '.' {
        return false;
    }
    if n == 2 && name.get_char(0) == '.' && name.get_char(1) == '.' {
        return false;
    }
    true
}

/// The location a document is served from, given whether the uploaded file exists.
pub fn path(file: &str, is_file: bool) -> (r: String)
    ensures
        r@ == path_spec(file@, is_file),
{
    if is_file {
        if file.unicode_len() > 0 && file.get_char(0) == '/' {
            return file.to_owned();
        }
        let mut r = "upload/".to_owned();
        r.append(file);
        proof {
            reveal_strlit("upload/");
        }
        r
    } else {
        proof {
            reveal_strlit("initial/index.html");
        }
        "initial/index.html".to_owned()
    }
}

/// The fingerprint to report for a document, given its sidecar and its content.
pub fn etag_of(sidecar: Option<&str>, content: Option<&[u8]>) -> (r: String)
    ensures
        r@ == etag_spec(
            match sidecar {
                Some(s) => Some(s@),
                None => None,
            },
            match content {
                Some(c) => Some(c@),
                None => None,
            },
        ),
{
    match content {
        None => {
            proof {
                reveal_strlit("EMPTY");
            }
            let r = "EMPTY".to_owned();
            assert(r@ =~= empty_fingerprint());
            r
        },
        Some(c) => match sidecar {
            Some(s) => s.to_owned(),
            None => fingerprint(c),
        },
    }
}

/// Whether a write carrying `precondition` may replace a document whose
/// fingerprint is `current`.
pub fn decide_write(precondition: Option<&str>, current: &str) -> (r: WriteDecision)
    ensures
        r == decision_spec(
            match precondition {
                Some(p) => Some(p@),
                None => None,
            },
            current@,
        ),
{
    match precondition {
        None => WriteDecision::Reject(WriteError::PreconditionMissing),
        Some(p) => {
            let p = p.to_owned();
            let c = current.to_owned();
            if p == c {
                WriteDecision::Accept
            } else {
                WriteDecision::Reject(WriteError::PreconditionFailed)
            }
        },
    }
}

/// One named document, its content once written, and a cached fingerprint.
pub struct DocumentStore {
    name: String,
    content: Option<Vec<u8>>,
    sidecar: Option<String>,
}

impl View for DocumentStore {
    type V = StoreModel;

    closed spec fn view(&self) -> StoreModel {
        StoreModel {
            name: self.name@,
            content: match self.content {
                Some(c) => Some(c@),
                None => None,
            },
            sidecar: match self.sidecar {
                Some(s) => Some(s@),
                None => None,
            },
        }
    }
}

impl DocumentStore {
    /// A store for the document `name`, with nothing written yet.
    pub fn new(name: &str) -> (r: DocumentStore)
        ensures
            r@.name == name@,
            r@.content is None,
            r@.sidecar is None,
    {
        DocumentStore { name: name.to_owned(), content: None, sidecar: None }
    }

    /// A store over content and a sidecar found in durable storage.
    pub fn from_parts(name: &str, content: Option<Vec<u8>>, sidecar: Option<String>) -> (r:
        DocumentStore)
        ensures
            r@.name == name@,
            r@.content == (match content {
                Some(c) => Some(c@),
                None => None::<Seq<u8>>,
            }),
            r@.sidecar == (match sidecar {
                Some(s) => Some(s@),
                None => None::<Seq<char>>,
            }),
    {
        DocumentStore { name: name.to_owned(), content, sidecar }
    }

    fn names_document(&self, name: &str) -> (r: bool)
        ensures
            r == (name@ == self@.name),
    {
        let n = name.to_owned();
        n == self.name
    }

    /// The current fingerprint of the document `name`.
    pub fn read_fingerprint(&self, name: &str) -> (r: String)
        ensures
            r@ == self@.fingerprint_for(name@),
    {
        if !self.names_document(name) {
            return etag_of(None, None);
        }
        let sidecar: Option<&str> = match &self.sidecar {
            Some(s) => Some(s.as_str()),
            None => None,
        };
        let content: Option<&[u8]> = match &self.content {
            Some(c) => Some(c.as_slice()),
            None => None,
        };
        etag_of(sidecar, content)
    }

    /// The content of the document `name`, if it has been written.
    pub fn read_document(&self, name: &str) -> (r: Option<Vec<u8>>)
        ensures
            match r {
                Some(c) => self@.document(name@) == Some(c@),
                None => self@.document(name@) is None,
            },
    {
        if !self.names_document(name) {
            return None;
        }
        match &self.content {
            Some(c) => Some(c.clone()),
            None => None,
        }
    }

    /// Replaces the document `name` with the concatenated `body` when
    /// `precondition` is its current fingerprint, and returns the new fingerprint.
    pub fn write_document(&mut self, name: &str, precondition: Option<&str>, body: &Vec<Vec<u8>>) -> (r:
        Result<String, WriteError>)
        ensures
            (final(self)@, outcome_view(r)) == old(self)@.write(
                name@,
                match precondition {
                    Some(p) => Some(p@),
                    None => None,
                },
                concat_chunks(chunks_view(body@)),
            ),
    {
        if !path_is_valid(name) || !self.names_document(name) {
            return Err(WriteError::InvalidName);
        }
        let current = self.read_fingerprint(name);
        match decide_write(precondition, current.as_str()) {
            WriteDecision::Reject(e) => Err(e),
            WriteDecision::Accept => {
                let content = concat_body(body);
                let f = fingerprint(content.as_slice());
                self.content = Some(content);
                self.sidecar = Some(f.clone());
                Ok(f)
            },
        }
    }
}

/// The bytes of `body`, chunk after chunk.
fn concat_body(body: &Vec<Vec<u8>>) -> (r: Vec<u8>)
    ensures
        r@ == concat_chunks(chunks_view(body@)),
{
    let mut out: Vec<u8> = Vec::new();
    let mut i: usize = 0;
    while i < body.len()
        invariant
            i <= body@.len(),
            out@ == concat_chunks(chunks_view(body@).take(i as int)),
        decreases body@.len() - i,
    {
        let chunk = &body[i];
        let ghost before = out@;
        let mut j: usize = 0;
        while j < chunk.len()
            invariant
                j <= chunk@.len(),
                chunk == body@[i as int],
                out@ == before + chunk@.take(j as int),
            decreases chunk@.len() - j,
        {
            out.push(chunk[j]);
            j = j + 1;
            assert(out@ =~= before + chunk@.take(j as int));
        }
        assert(chunk@.take(j as int) =~= chunk@);
        assert(chunks_view(body@).take(i + 1).drop_last() =~= chunks_view(body@).take(i as int));
        i = i + 1;
    }
    assert(chunks_view(body@).take(i as int) =~= chunks_view(body@));
    out
}

} // verus!
