use vstd::prelude::*;

verus! {

#[verifier::external_type_specification]
#[verifier::external_body]
pub struct ExDatabase(usvg::fontdb::Database);

/// The number of font faces held by a font database.
pub uninterp spec fn face_count(db: usvg::fontdb::Database) -> nat;

/// The number of font faces that fontdb finds in a byte string; a collection
/// may hold several, and bytes that are no font hold none.
pub uninterp spec fn faces_in(data: Seq<u8>) -> nat;

/// Relies on fontdb::Database::new: a database without faces.
#[verifier::external_body]
fn empty_database() -> (r: usvg::fontdb::Database)
    ensures
        face_count(r) == 0,
{
    usvg::fontdb::Database::new()
}

/// Relies on fontdb::Database::len: the number of faces held.
#[verifier::external_body]
fn database_len(db: &usvg::fontdb::Database) -> (r: usize)
    ensures
        r == face_count(*db),
{
    db.len()
}

/// Relies on fontdb::Database::load_font_source with an in-memory source: each
/// face parsed from the bytes is added, and the identifiers of the added faces
/// are returned.
#[verifier::external_body]
fn load_binary_source(db: &mut usvg::fontdb::Database, data: Vec<u8>) -> (r: usize)
    ensures
        r == faces_in(data@),
        face_count(*final(db)) == face_count(*old(db)) + r,
{
    db.load_font_source(usvg::fontdb::Source::Binary(std::sync::Arc::new(data))).len()
}

/// Why a font could not be registered.
#[derive(Clone, Copy, Debug, PartialEq, Eq, Structural)]
pub enum FontError {
    /// The bytes hold no font face that could be decoded.
    NotAFont,
}

/// Whether a byte string holds at least one decodable font face.
pub open spec fn is_font_data(data: Seq<u8>) -> bool {
    faces_in(data) > 0
}

/// An owned, append-only store of font faces that scenes are parsed against.
pub struct FontRegistry {
    db: usvg::fontdb::Database,
}

impl FontRegistry {
    /// The number of faces registered so far.
    pub closed spec fn len(&self) -> nat {
        face_count(self.db)
    }

    /// An empty registry.
    pub fn new() -> (r: FontRegistry)
        ensures
            r.len() == 0,
    {
        FontRegistry { db: empty_database() }
    }

    /// The number of faces registered so far.
    pub fn face_count(&self) -> (r: usize)
        ensures
            r == self.len(),
    {
        database_len(&self.db)
    }

    /// Registers every face found in an in-memory font or font collection.
    /// Fails, leaving the registry as it was, where the bytes hold no face.
    /// Whether it succeeds depends on the bytes alone, not on what was
    /// registered before, so loading the same font twice succeeds twice.
    pub fn load_font_data(&mut self, data: Vec<u8>) -> (r: Result<usize, FontError>)
        ensures
            r is Ok <==> is_font_data(data@),
            r matches Ok(n) ==> n == faces_in(data@) && n > 0,
            r matches Err(e) ==> e == FontError::NotAFont,
            final(self).len() == old(self).len() + faces_in(data@),
    {
        let added = load_binary_source(&mut self.db, data);
        if added == 0 {
            Err(FontError::NotAFont)
        } else {
            Ok(added)
        }
    }

    /// The underlying database, to be copied into the parser's options.
    pub fn database(&self) -> (r: &usvg::fontdb::Database) {
        &self.db
    }

    /// The underlying database, for loaders that read the file system.
    pub fn database_mut(&mut self) -> (r: &mut usvg::fontdb::Database) {
        &mut self.db
    }

    /// The underlying database, to hand to the parser's options.
    pub fn into_database(self) -> (r: usvg::fontdb::Database) {
        self.db
    }
}

} // verus!
