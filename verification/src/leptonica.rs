//! Errors raised while preparing file paths and names for the C API.

use vstd::prelude::*;
use vstd::string::*;
use crate::text::{first_nul, is_first_nul, nul_free};

verus! {

/// Why a path or name could not be handed to the C API.
#[derive(Debug, Clone, Copy, PartialEq, Eq, Structural)]
pub enum PixError {
    /// The path is not valid UTF-8.
    InvalidUtf8Path,
    /// The text holds a NUL byte at `position`, so no C string can carry it.
    InteriorNul { position: usize },
}

/// The error for bytes that hold a NUL, naming the first one; `None` when
/// there is none.
pub open spec fn nul_error(bytes: Seq<u8>) -> Option<PixError> {
    if nul_free(bytes) {
        None
    } else {
        Some(PixError::InteriorNul { position: (choose|i: int| is_first_nul(bytes, i)) as usize })
    }
}

/// What becomes of text with these UTF-8 bytes when it is made a C string:
/// the same characters, or the error for its first NUL.
pub open spec fn c_string_of(bytes: Seq<u8>, chars: Seq<char>) -> Result<Seq<char>, PixError> {
    match nul_error(bytes) {
        Some(e) => Err(e),
        None => Ok(chars),
    }
}

/// What becomes of a path, given as its text or as `None` when it is not
/// valid Unicode, when it is turned into a C string.
pub open spec fn path_argument(path: Option<&str>) -> Result<Seq<char>, PixError> {
    match path {
        None => Err(PixError::InvalidUtf8Path),
        Some(text) => c_string_of(text.spec_bytes(), text@),
    }
}

proof fn lemma_first_nul_unique(bytes: Seq<u8>, i: int)
    requires
        is_first_nul(bytes, i),
    ensures
        !nul_free(bytes),
        (choose|k: int| is_first_nul(bytes, k)) == i,
{
    let k = choose|k: int| is_first_nul(bytes, k);
    assert(is_first_nul(bytes, k));
    if k < i {
        assert(bytes[k] != 0);
    } else if i < k {
        assert(bytes[i] != 0);
    }
}

fn check_nul(bytes: &[u8]) -> (res: Option<PixError>)
    ensures
        res == nul_error(bytes@),
        res is None <==> nul_free(bytes@),
        res matches Some(PixError::InteriorNul { position }) ==> is_first_nul(bytes@, position as int),
        res matches Some(e) ==> e is InteriorNul,
{
    match first_nul(bytes) {
        Some(i) => {
            proof {
                lemma_first_nul_unique(bytes@, i as int);
            }
            Some(PixError::InteriorNul { position: i })
        },
        None => None,
    }
}

/// Text becomes a C string unchanged exactly when its bytes hold no NUL;
/// otherwise the failure names the first NUL byte. Nothing else can fail:
/// text that is already UTF-8 is never refused as such.
pub proof fn lemma_c_string_of(bytes: Seq<u8>, chars: Seq<char>)
    ensures
        (forall|j: int| 0 <= j < bytes.len() ==> bytes[j] != 0) ==> c_string_of(bytes, chars) == Ok::<Seq<char>, PixError>(chars),
        c_string_of(bytes, chars) is Ok ==> forall|j: int| 0 <= j < bytes.len() ==> bytes[j] != 0,
        c_string_of(bytes, chars) != Err::<Seq<char>, PixError>(PixError::InvalidUtf8Path),
        forall|p: int| 0 <= p < bytes.len() && bytes[p] == 0 && (forall|j: int| 0 <= j < p ==> bytes[j] != 0)
            ==> c_string_of(bytes, chars) == Err::<Seq<char>, PixError>(PixError::InteriorNul { position: p as usize }),
{
    assert forall|p: int| 0 <= p < bytes.len() && bytes[p] == 0 && (forall|j: int| 0 <= j < p ==> bytes[j] != 0)
        implies c_string_of(bytes, chars) == Err::<Seq<char>, PixError>(PixError::InteriorNul { position: p as usize }) by {
        lemma_first_nul_unique(bytes, p);
    }
    if !nul_free(bytes) {
        let j = choose|j: int| 0 <= j < bytes.len() && bytes[j] == 0;
        lemma_some_nul_has_first(bytes, j);
    }
}

proof fn lemma_some_nul_has_first(bytes: Seq<u8>, j: int)
    requires
        0 <= j < bytes.len(),
        bytes[j] == 0,
    ensures
        exists|p: int| is_first_nul(bytes, p),
    decreases j,
{
    if forall|k: int| 0 <= k < j ==> bytes[k] != 0 {
        assert(is_first_nul(bytes, j));
    } else {
        let k = choose|k: int| 0 <= k < j && bytes[k] == 0;
        lemma_some_nul_has_first(bytes, k);
    }
}

/// A path that is not text is refused as such; a path that is text becomes
/// a C string unchanged exactly when it holds no NUL, and otherwise fails at
/// its first NUL byte, never as invalid Unicode.
pub proof fn lemma_path_argument(path: Option<&str>)
    ensures
        path is None ==> path_argument(path) == Err::<Seq<char>, PixError>(PixError::InvalidUtf8Path),
        path_argument(path) == Err::<Seq<char>, PixError>(PixError::InvalidUtf8Path) ==> path is None,
        path matches Some(text) ==> ((forall|j: int| 0 <= j < text.spec_bytes().len() ==> text.spec_bytes()[j] != 0)
            ==> path_argument(path) == Ok::<Seq<char>, PixError>(text@)),
        path matches Some(text) ==> (path_argument(path) is Ok
            ==> forall|j: int| 0 <= j < text.spec_bytes().len() ==> text.spec_bytes()[j] != 0),
        path matches Some(text) ==> forall|p: int| 0 <= p < text.spec_bytes().len() && text.spec_bytes()[p] == 0
            && (forall|j: int| 0 <= j < p ==> text.spec_bytes()[j] != 0)
            ==> path_argument(path) == Err::<Seq<char>, PixError>(PixError::InteriorNul { position: p as usize }),
{
    if let Some(text) = path {
        lemma_c_string_of(text.spec_bytes(), text@);
    }
}

/// Copies text for use as a C string argument; fails at its first NUL.
pub fn c_string_argument(text: &str) -> (res: Result<String, PixError>)
    ensures
        res matches Ok(s) ==> c_string_of(text.spec_bytes(), text@) == Ok::<Seq<char>, PixError>(s@),
        res matches Err(e) ==> c_string_of(text.spec_bytes(), text@) == Err::<Seq<char>, PixError>(e),
        res is Ok <==> forall|j: int| 0 <= j < text.spec_bytes().len() ==> text.spec_bytes()[j] != 0,
        res matches Ok(s) ==> s@ == text@,
        res matches Err(e) ==> e matches PixError::InteriorNul { position } && position < text.spec_bytes().len()
            && text.spec_bytes()[position as int] == 0
            && forall|j: int| 0 <= j < position ==> text.spec_bytes()[j] != 0,
{
    let bytes = text.as_bytes();
    match check_nul(bytes) {
        Some(e) => Err(e),
        None => Ok(text.to_owned()),
    }
}

/// Turns a path, given as its text or as `None` when it is not valid Unicode
/// (what `Path::to_str` gives), into text fit for a C string argument: fails
/// with `InvalidUtf8Path` when it is not text, then at the first NUL.
pub fn path_to_c_text(path: Option<&str>) -> (res: Result<String, PixError>)
    ensures
        res matches Ok(s) ==> path_argument(path) == Ok::<Seq<char>, PixError>(s@),
        res matches Err(e) ==> path_argument(path) == Err::<Seq<char>, PixError>(e),
        path is None ==> res == Err::<String, PixError>(PixError::InvalidUtf8Path),
        path matches Some(text) ==> (res is Ok <==> forall|j: int| 0 <= j < text.spec_bytes().len() ==> text.spec_bytes()[j] != 0),
        path matches Some(text) ==> (res matches Ok(s) ==> s@ == text@),
        res matches Err(PixError::InteriorNul { position }) ==> path matches Some(text) && position < text.spec_bytes().len()
            && text.spec_bytes()[position as int] == 0
            && forall|j: int| 0 <= j < position ==> text.spec_bytes()[j] != 0,
{
    match path {
        None => Err(PixError::InvalidUtf8Path),
        Some(text) => c_string_argument(text),
    }
}

} // verus!
