//! A keyed document store: one document per id, write-once, idempotent delete.
//!
//! The directory-backed store reads and writes the files; this module decides what each
//! operation does and what it answers, and models the store's contents as a map from id to
//! document text.
use crate::text::{join2, join3};
use vstd::prelude::*;

verus! {

/// The extension of every stored document.
pub const DOCUMENT_EXTENSION: &'static str = ".json";

/// Why a store operation failed.
#[derive(Debug)]
pub enum StorageError {
    /// The id is empty, or already taken on save.
    ObjectIdError(String),
    /// The store's root names an existing file rather than a directory.
    InvalidObjectPath,
    /// The document could not be encoded or decoded.
    SerializationError(String),
    /// Reading or writing the document failed.
    IoError(String),
}

pub open spec fn empty_id_message() -> Seq<char> {
    "To save the object, its ID must be set."@
}

pub open spec fn taken_id_message(id: Seq<char>) -> Seq<char> {
    "The ID '"@ + id + "' is already taken."@
}

pub open spec fn invalid_path_message() -> Seq<char> {
    "The object path cannot be set to an existing file"@
}

impl StorageError {
    /// The text shown to a user for this error.
    pub open spec fn message_view(&self) -> Seq<char> {
        match self {
            StorageError::ObjectIdError(m) => m@,
            StorageError::InvalidObjectPath => invalid_path_message(),
            StorageError::SerializationError(m) => m@,
            StorageError::IoError(m) => m@,
        }
    }

    /// The text shown to a user for this error.
    pub fn message(&self) -> (r: String)
        ensures
            r@ == self.message_view(),
    {
        match self {
            StorageError::ObjectIdError(m) => m.clone(),
            StorageError::InvalidObjectPath => "The object path cannot be set to an existing file".to_owned(),
            StorageError::SerializationError(m) => m.clone(),
            StorageError::IoError(m) => m.clone(),
        }
    }
}

/// The file name under which the document for `id` is kept.
pub open spec fn spec_document_name(id: Seq<char>) -> Seq<char> {
    id + DOCUMENT_EXTENSION@
}

/// A store rooted at a directory.
#[derive(Debug)]
pub struct ObjectRepository {
    object_path: String,
}

impl ObjectRepository {
    /// Opens the store rooted at `object_path`; `path_is_file` tells whether that path is an
    /// existing file. The caller creates the directory when it does not exist yet.
    pub fn open(object_path: String, path_is_file: bool) -> (r: Result<ObjectRepository, StorageError>)
        ensures
            path_is_file ==> r matches Err(StorageError::InvalidObjectPath),
            !path_is_file ==> (r matches Ok(repo) && repo.spec_object_path() == object_path@),
    {
        if path_is_file {
            return Err(StorageError::InvalidObjectPath);
        }
        Ok(ObjectRepository { object_path })
    }

    pub closed spec fn spec_object_path(&self) -> Seq<char> {
        self.object_path@
    }

    /// The directory the documents are kept in.
    pub fn object_path(&self) -> (r: &str)
        ensures
            r@ == self.spec_object_path(),
    {
        self.object_path.as_str()
    }

    /// The file name of the document for `id`, relative to the store's directory.
    pub fn document_name(id: &str) -> (r: String)
        ensures
            r@ == spec_document_name(id@),
    {
        join2(id, DOCUMENT_EXTENSION)
    }

    /// Decides a save of the document for `id`; `taken` tells whether a document for `id` is
    /// already stored. On success, the answer is the file name to write the document to.
    pub fn check_save(&self, id: &str, taken: bool) -> (r: Result<String, StorageError>)
        ensures
            save_verdict(id@, taken) is Accepted <==> r is Ok,
            r matches Ok(name) ==> name@ == spec_document_name(id@),
            save_verdict(id@, taken) is EmptyId ==> (r matches Err(StorageError::ObjectIdError(m))
                && m@ == empty_id_message()),
            save_verdict(id@, taken) is IdTaken ==> (r matches Err(StorageError::ObjectIdError(m))
                && m@ == taken_id_message(id@)),
    {
        if id.unicode_len() == 0 {
            return Err(StorageError::ObjectIdError("To save the object, its ID must be set.".to_owned()));
        }
        if taken {
            return Err(StorageError::ObjectIdError(join3("The ID '", id, "' is already taken.")));
        }
        Ok(ObjectRepository::document_name(id))
    }

    /// Decides a delete of the document for `id`; `present` tells whether one is stored.
    /// Deleting always succeeds: the answer is the file to remove, if there is one.
    pub fn delete_target(&self, id: &str, present: bool) -> (r: Option<String>)
        ensures
            r is Some <==> present,
            r matches Some(name) ==> name@ == spec_document_name(id@),
    {
        if present {
            Some(ObjectRepository::document_name(id))
        } else {
            None
        }
    }
}

/// How a save is decided.
pub enum SaveVerdict {
    Accepted,
    EmptyId,
    IdTaken,
}

/// A save needs a non-empty id that is not taken yet.
pub open spec fn save_verdict(id: Seq<char>, taken: bool) -> SaveVerdict {
    if id.len() == 0 {
        SaveVerdict::EmptyId
    } else if taken {
        SaveVerdict::IdTaken
    } else {
        SaveVerdict::Accepted
    }
}

/// The store's contents after saving `doc` under `id`: written only when the save is
/// accepted.
pub open spec fn contents_after_save(contents: Map<Seq<char>, Seq<char>>, id: Seq<char>, doc: Seq<char>) -> Map<Seq<char>, Seq<char>> {
    if save_verdict(id, contents.contains_key(id)) is Accepted {
        contents.insert(id, doc)
    } else {
        contents
    }
}

/// The store's contents after deleting `id`.
pub open spec fn contents_after_delete(contents: Map<Seq<char>, Seq<char>>, id: Seq<char>) -> Map<Seq<char>, Seq<char>> {
    contents.remove(id)
}

/// Write-once: saving under an id that is already stored is refused as taken, and the
/// stored content stays as it was.
pub proof fn lemma_save_is_write_once(contents: Map<Seq<char>, Seq<char>>, id: Seq<char>, doc: Seq<char>)
    requires
        contents.contains_key(id),
    ensures
        id.len() > 0 ==> save_verdict(id, contents.contains_key(id)) is IdTaken,
        contents_after_save(contents, id, doc) == contents,
{
}

/// Idempotent delete: deleting an id that is not stored succeeds with nothing to remove,
/// and leaves the contents as they were.
pub proof fn lemma_delete_is_idempotent(contents: Map<Seq<char>, Seq<char>>, id: Seq<char>)
    requires
        !contents.contains_key(id),
    ensures
        contents_after_delete(contents, id) == contents,
        contents_after_delete(contents_after_delete(contents, id), id) == contents_after_delete(contents, id),
{
    assert(contents.remove(id) =~= contents);
}

} // verus!

