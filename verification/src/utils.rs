//! Errors and the marshalling of text across the native boundary.

use vstd::prelude::*;
use vstd::string::*;
use vstd::utf8::*;

verus! {

/// What an operation of this library can fail with.
#[derive(Debug, Clone, PartialEq, Eq)]
pub enum Error {
    /// The engine reported `NIX_ERR_UNKNOWN`, with its message.
    NixErrorUnknown(String),
    /// The engine reported `NIX_ERR_OVERFLOW`, with its message.
    NixErrorOverflow(String),
    /// The engine reported `NIX_ERR_KEY`, with its message.
    NixErrorKey(String),
    /// The engine reported `NIX_ERR_NIX_ERROR`, with its message.
    NixErrorNixError(String),
    /// The value handed to a build is no derivation.
    NotDerivation,
    /// Text that cannot cross the boundary, or a status the engine does not document.
    UnknownError,
}

/// An [`Error`] with its message as a sequence of characters.
pub enum ErrorView {
    NixErrorUnknown(Seq<char>),
    NixErrorOverflow(Seq<char>),
    NixErrorKey(Seq<char>),
    NixErrorNixError(Seq<char>),
    NotDerivation,
    UnknownError,
}

impl View for Error {
    type V = ErrorView;

    open spec fn view(&self) -> ErrorView {
        match self {
            Error::NixErrorUnknown(m) => ErrorView::NixErrorUnknown(m@),
            Error::NixErrorOverflow(m) => ErrorView::NixErrorOverflow(m@),
            Error::NixErrorKey(m) => ErrorView::NixErrorKey(m@),
            Error::NixErrorNixError(m) => ErrorView::NixErrorNixError(m@),
            Error::NotDerivation => ErrorView::NotDerivation,
            Error::UnknownError => ErrorView::UnknownError,
        }
    }
}

impl ErrorView {
    /// The error in words: the engine's name for the status and the engine's
    /// message, or a fixed description where the engine gave none.
    pub open spec fn text(self) -> Seq<char> {
        match self {
            ErrorView::NixErrorUnknown(m) => "NIX_ERROR_UNKNOWN: "@ + m,
            ErrorView::NixErrorOverflow(m) => "NIX_ERROR_OVERFLOW: "@ + m,
            ErrorView::NixErrorKey(m) => "NIX_ERROR_KEY: "@ + m,
            ErrorView::NixErrorNixError(m) => "NIX_ERROR_NIX_ERROR: "@ + m,
            ErrorView::NotDerivation => "value is not a derivation"@,
            ErrorView::UnknownError => "unknown error"@,
        }
    }
}

impl Error {
    /// The error in words.
    pub fn to_string(&self) -> (text: String)
        ensures
            text@ == self@.text(),
    {
        match self {
            Error::NixErrorUnknown(m) => {
                let mut text = String::from_str("NIX_ERROR_UNKNOWN: ");
                text.append(m.as_str());
                text
            },
            Error::NixErrorOverflow(m) => {
                let mut text = String::from_str("NIX_ERROR_OVERFLOW: ");
                text.append(m.as_str());
                text
            },
            Error::NixErrorKey(m) => {
                let mut text = String::from_str("NIX_ERROR_KEY: ");
                text.append(m.as_str());
                text
            },
            Error::NixErrorNixError(m) => {
                let mut text = String::from_str("NIX_ERROR_NIX_ERROR: ");
                text.append(m.as_str());
                text
            },
            Error::NotDerivation => String::from_str("value is not a derivation"),
            Error::UnknownError => String::from_str("unknown error"),
        }
    }
}

/// The error of `String::from_utf8`. The library looks at nothing in it.
#[verifier::external_type_specification]
#[verifier::external_body]
pub struct ExFromUtf8Error(std::string::FromUtf8Error);

/// `String::from_utf8` succeeds exactly on well-formed UTF-8, and the string
/// it returns is made of the very bytes it was given.
pub assume_specification[ std::string::String::from_utf8 ](vec: std::vec::Vec<u8>) -> (r: std::result::Result<
    std::string::String,
    std::string::FromUtf8Error,
>)
    ensures
        r is Ok <==> valid_utf8(vec@),
        r matches Ok(s) ==> encode_utf8(s@) == vec@,
;

/// The bytes of a C string: those of `text`, then the terminating nul.
pub open spec fn c_string_of(text: Seq<char>) -> Seq<u8> {
    encode_utf8(text).push(0u8)
}

/// Whether `text` can be a C string: none of its bytes is nul.
pub open spec fn nul_free(text: Seq<char>) -> bool {
    !encode_utf8(text).contains(0u8)
}

/// Turns `text` into a nul-terminated byte string; text with a nul byte inside is refused.
pub fn c_string(text: &str) -> (r: Result<Vec<u8>, Error>)
    ensures
        match r {
            Ok(bytes) => nul_free(text@) && bytes@ == c_string_of(text@),
            Err(e) => !nul_free(text@) && e@ == ErrorView::UnknownError,
        },
{
    let bytes = text.as_bytes();
    let mut out: Vec<u8> = Vec::new();
    let mut i: usize = 0;
    while i < bytes.len()
        invariant
            i <= bytes.len(),
            bytes@ == encode_utf8(text@),
            out@ == bytes@.subrange(0, i as int),
            !out@.contains(0u8),
        decreases bytes.len() - i,
    {
        let b = bytes[i];
        if b == 0 {
            assert(bytes@[i as int] == 0u8);
            return Err(Error::UnknownError);
        }
        out.push(b);
        assert(out@ == bytes@.subrange(0, i + 1));
        i += 1;
    }
    assert(bytes@.subrange(0, i as int) == bytes@);
    out.push(0);
    Ok(out)
}

/// Decodes bytes that the engine handed over as text.
pub fn string_from_c(bytes: Vec<u8>) -> (r: Result<String, Error>)
    ensures
        match r {
            Ok(s) => valid_utf8(bytes@) && s@ == decode_utf8(bytes@),
            Err(e) => !valid_utf8(bytes@) && e@ == ErrorView::UnknownError,
        },
{
    match String::from_utf8(bytes) {
        Ok(s) => {
            proof {
                encode_utf8_decode_utf8(s@);
            }
            Ok(s)
        },
        Err(_) => Err(Error::UnknownError),
    }
}

/// Appends one chunk that the engine pushed to the buffer collecting a string.
pub fn get_string_cb(chunk: &[u8], buffer: &mut Vec<u8>)
    ensures
        final(buffer)@ == old(buffer)@ + chunk@,
{
    let mut i: usize = 0;
    while i < chunk.len()
        invariant
            i <= chunk.len(),
            buffer@ == old(buffer)@ + chunk@.subrange(0, i as int),
        decreases chunk.len() - i,
    {
        buffer.push(chunk[i]);
        i += 1;
    }
    assert(chunk@.subrange(0, i as int) == chunk@);
}

/// The outputs of a build: for each output's name, the path it was realised at.
#[derive(Debug, Clone, PartialEq, Eq)]
pub struct Outputs {
    /// Each reported name with its path, in the order in which the engine reported them.
    pub entries: Vec<(String, String)>,
}

/// The mapping that a sequence of reports amounts to: a later report of a name replaces an earlier one.
pub open spec fn outputs_of(entries: Seq<(String, String)>) -> Map<Seq<char>, Seq<char>>
    decreases entries.len(),
{
    if entries.len() == 0 {
        Map::empty()
    } else {
        outputs_of(entries.drop_last()).insert(entries.last().0@, entries.last().1@)
    }
}

impl View for Outputs {
    type V = Map<Seq<char>, Seq<char>>;

    open spec fn view(&self) -> Map<Seq<char>, Seq<char>> {
        outputs_of(self.entries@)
    }
}

proof fn lemma_outputs_found(entries: Seq<(String, String)>, i: int, name: Seq<char>)
    requires
        0 <= i < entries.len(),
        entries[i].0@ == name,
        forall|j: int| i < j < entries.len() ==> (#[trigger] entries[j]).0@ != name,
    ensures
        outputs_of(entries).contains_key(name),
        outputs_of(entries)[name] == entries[i].1@,
    decreases entries.len(),
{
    if i < entries.len() - 1 {
        let front = entries.drop_last();
        assert(entries.last() == entries[entries.len() - 1]);
        assert forall|j: int| i < j < front.len() implies (#[trigger] front[j]).0@ != name by {
            assert(front[j] == entries[j]);
        }
        lemma_outputs_found(front, i, name);
    }
}

proof fn lemma_outputs_missing(entries: Seq<(String, String)>, name: Seq<char>)
    requires
        forall|j: int| 0 <= j < entries.len() ==> (#[trigger] entries[j]).0@ != name,
    ensures
        !outputs_of(entries).contains_key(name),
    decreases entries.len(),
{
    if entries.len() > 0 {
        let front = entries.drop_last();
        assert(entries.last() == entries[entries.len() - 1]);
        assert forall|j: int| 0 <= j < front.len() implies (#[trigger] front[j]).0@ != name by {
            assert(front[j] == entries[j]);
        }
        lemma_outputs_missing(front, name);
    }
}

impl Outputs {
    /// No outputs yet.
    pub fn new() -> (outputs: Outputs)
        ensures
            outputs@ == Map::<Seq<char>, Seq<char>>::empty(),
    {
        Outputs { entries: Vec::new() }
    }

    /// Records that the output `name` is at `path`, in place of what was recorded for `name` before.
    pub fn insert(&mut self, name: String, path: String)
        ensures
            final(self)@ == old(self)@.insert(name@, path@),
    {
        self.entries.push((name, path));
        assert(self.entries@.drop_last() == old(self).entries@);
    }

    /// The path recorded for the output `name`.
    pub fn get(&self, name: &str) -> (found: Option<&String>)
        ensures
            match found {
                Some(path) => self@.contains_key(name@) && path@ == self@[name@],
                None => !self@.contains_key(name@),
            },
    {
        let key = String::from_str(name);
        let mut i: usize = self.entries.len();
        while i > 0
            invariant
                i <= self.entries.len(),
                key@ == name@,
                forall|j: int| i <= j < self.entries.len() ==> (#[trigger] self.entries@[j]).0@ != name@,
            decreases i,
        {
            i -= 1;
            if self.entries[i].0 == key {
                proof {
                    lemma_outputs_found(self.entries@, i as int, name@);
                }
                return Some(&self.entries[i].1);
            }
        }
        proof {
            lemma_outputs_missing(self.entries@, name@);
        }
        None
    }
}

/// Records one output that the engine reported while realising a derivation:
/// its name and its path, both as the bytes that came. Bytes that are not
/// text are refused, and nothing is recorded.
pub fn build_cb(map: &mut Outputs, out: Vec<u8>, path: Vec<u8>) -> (r: Result<(), Error>)
    ensures
        match r {
            Ok(()) => valid_utf8(out@) && valid_utf8(path@) && final(map)@ == old(map)@.insert(
                decode_utf8(out@),
                decode_utf8(path@),
            ),
            Err(e) => !(valid_utf8(out@) && valid_utf8(path@)) && e@ == ErrorView::UnknownError
                && *final(map) == *old(map),
        },
{
    let out = match string_from_c(out) {
        Ok(out) => out,
        Err(e) => {
            return Err(e);
        },
    };
    let path = match string_from_c(path) {
        Ok(path) => path,
        Err(e) => {
            return Err(e);
        },
    };
    map.insert(out, path);
    Ok(())
}

} // verus!
