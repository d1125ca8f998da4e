use vstd::prelude::*;
use vstd::string::StringExecFns;
use crate::errors::PasteError;
use crate::id::{generate, valid_id, validate};
use crate::store::PasteStore;

verus! {

/// The submission check that runs before any storage work: a missing text
/// field is `MissingField`, an empty one is `EmptyContent`, and only
/// non-empty content passes through unchanged.
pub fn check_submission(content: Option<String>) -> (r: Result<String, PasteError>)
    ensures
        content is None ==> r == Err::<String, PasteError>(PasteError::MissingField),
        content matches Some(c) ==> {
            &&& c@.len() == 0 ==> r == Err::<String, PasteError>(PasteError::EmptyContent)
            &&& c@.len() > 0 ==> r == Ok::<String, PasteError>(c)
        },
{
    match content {
        None => Err(PasteError::MissingField),
        Some(c) => {
            if c.as_str().is_empty() {
                Err(PasteError::EmptyContent)
            } else {
                Ok(c)
            }
        },
    }
}

/// The whole write flow: check the submission, draw a fresh identifier,
/// and persist the content under it. On success the returned identifier
/// is well formed and the store maps it to exactly the submitted content.
/// On a rejected submission the store is left untouched: no paste is
/// created for a missing or empty field.
pub fn submit(store: &mut PasteStore, content: Option<String>) -> (r: Result<String, PasteError>)
    ensures
        content is None ==> {
            &&& r == Err::<String, PasteError>(PasteError::MissingField)
            &&& final(store)@ == old(store)@
        },
        content matches Some(c) ==> {
            &&& c@.len() == 0 ==> r == Err::<String, PasteError>(PasteError::EmptyContent)
                && final(store)@ == old(store)@
            &&& c@.len() > 0 ==> (r matches Ok(id) && valid_id(id@) && final(store)@ == old(
                store,
            )@.insert(id@, c@))
        },
{
    match check_submission(content) {
        Err(e) => Err(e),
        Ok(c) => {
            let id = generate();
            let handle = id.clone();
            match store.write(id, c) {
                Ok(_) => Ok(handle),
                Err(e) => Err(e),
            }
        },
    }
}

/// The whole read flow: validate the caller-supplied identifier before it
/// addresses anything, and only on success look it up. A malformed
/// identifier yields `Validation` without any storage access; a well-formed
/// one yields the stored content, or `NotFound` when nothing is stored
/// under it.
pub fn retrieve(store: &PasteStore, id: &str) -> (r: Result<String, PasteError>)
    ensures
        !valid_id(id@) ==> r == Err::<String, PasteError>(PasteError::Validation),
        valid_id(id@) && store@.contains_key(id@) ==> (r matches Ok(c) && c@ == store@[id@]),
        valid_id(id@) && !store@.contains_key(id@) ==> r == Err::<String, PasteError>(
            PasteError::NotFound,
        ),
{
    if !validate(id) {
        return Err(PasteError::Validation);
    }
    store.read(id)
}

/// The file name that addresses one paste inside the paste directory: the
/// identifier with a `.txt` suffix. Only a validated identifier may name
/// storage, so the suffix is appended to well-formed input alone.
pub fn paste_file_name(id: &str) -> (r: String)
    requires
        valid_id(id@),
    ensures
        r@ == id@ + ".txt"@,
{
    let mut name = id.to_owned();
    name.append(".txt");
    name
}

/// The URL handed back after a successful write: scheme, host, and the
/// fresh identifier, joined as `scheme://host/id`.
pub fn paste_url(scheme: &str, host: &str, id: &str) -> (r: String)
    ensures
        r@ == scheme@ + "://"@ + host@ + "/"@ + id@,
{
    let mut url = scheme.to_owned();
    url.append("://");
    url.append(host);
    url.append("/");
    url.append(id);
    proof {
        assert(url@ =~= scheme@ + "://"@ + host@ + "/"@ + id@);
    }
    url
}

} // verus!
