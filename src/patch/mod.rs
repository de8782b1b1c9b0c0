//! The product description of a patch: the files it ships, with their
//! versions, and the categories they are grouped in. Each struct reads its
//! fields in declaration order through a decoding session.
use vstd::prelude::*;

use crate::format::de::{Deserializer, Readable};
use crate::format::error::Error;
use crate::format::step::{
    agrees, map_step, optional_step, repeated_string_step, repeated_struct_step, repeated_uint_step,
    scalar_step, string_step, struct_step, Step,
};
use crate::pd::{PersistentDataRecord, TType};

verus! {

/// One version of a file.
#[derive(Debug, PartialEq, Eq)]
#[allow(non_snake_case)]
pub struct CBNPFileVersion {
    pub _VersionNumber: u32,
    pub _FileSize: u32,
    pub _7ZFileSize: u32,
    pub _FileTime: u32,
    pub _PatchSize: u32,
    pub _HashKey: Vec<u32>,
}

/// The value of a [`CBNPFileVersion`].
pub struct FileVersionView {
    pub version_number: u32,
    pub file_size: u32,
    pub packed_size: u32,
    pub file_time: u32,
    pub patch_size: u32,
    pub hash_key: Seq<u32>,
}

impl DeepView for CBNPFileVersion {
    type V = FileVersionView;

    open spec fn deep_view(&self) -> FileVersionView {
        FileVersionView {
            version_number: self._VersionNumber,
            file_size: self._FileSize,
            packed_size: self._7ZFileSize,
            file_time: self._FileTime,
            patch_size: self._PatchSize,
            hash_key: self._HashKey.deep_view(),
        }
    }
}

impl Readable for CBNPFileVersion {
    open spec fn body_step(rec: PersistentDataRecord, tok: int, arg: int) -> Step<FileVersionView> {
        match scalar_step(rec, tok, arg, "_VersionNumber"@, TType::UINT32) {
            Step::Done(version_number, t1, a1) => match scalar_step(
                rec,
                t1,
                a1,
                "_FileSize"@,
                TType::UINT32,
            ) {
                Step::Done(file_size, t2, a2) => match scalar_step(
                    rec,
                    t2,
                    a2,
                    "_7ZFileSize"@,
                    TType::UINT32,
                ) {
                    Step::Done(packed_size, t3, a3) => match scalar_step(
                        rec,
                        t3,
                        a3,
                        "_FileTime"@,
                        TType::UINT32,
                    ) {
                        Step::Done(file_time, t4, a4) => match scalar_step(
                            rec,
                            t4,
                            a4,
                            "_PatchSize"@,
                            TType::UINT32,
                        ) {
                            Step::Done(patch_size, t5, a5) => map_step(
                                repeated_uint_step(rec, t5, a5, "_HashKey"@),
                                |hash_key: Seq<u32>|
                                    FileVersionView {
                                        version_number,
                                        file_size,
                                        packed_size,
                                        file_time,
                                        patch_size,
                                        hash_key,
                                    },
                            ),
                            Step::Failed(e) => Step::Failed(e),
                        },
                        Step::Failed(e) => Step::Failed(e),
                    },
                    Step::Failed(e) => Step::Failed(e),
                },
                Step::Failed(e) => Step::Failed(e),
            },
            Step::Failed(e) => Step::Failed(e),
        }
    }

    fn read(de: &mut Deserializer) -> (r: Result<CBNPFileVersion, Error>) {
        let version_number = match de.read_u32("_VersionNumber") {
            Ok(v) => v,
            Err(e) => return Err(e),
        };
        let file_size = match de.read_u32("_FileSize") {
            Ok(v) => v,
            Err(e) => return Err(e),
        };
        let packed_size = match de.read_u32("_7ZFileSize") {
            Ok(v) => v,
            Err(e) => return Err(e),
        };
        let file_time = match de.read_u32("_FileTime") {
            Ok(v) => v,
            Err(e) => return Err(e),
        };
        let patch_size = match de.read_u32("_PatchSize") {
            Ok(v) => v,
            Err(e) => return Err(e),
        };
        let hash_key = match de.read_repeated_u32("_HashKey") {
            Ok(v) => v,
            Err(e) => return Err(e),
        };
        Ok(CBNPFileVersion {
            _VersionNumber: version_number,
            _FileSize: file_size,
            _7ZFileSize: packed_size,
            _FileTime: file_time,
            _PatchSize: patch_size,
            _HashKey: hash_key,
        })
    }
}

/// A file and its versions.
#[derive(Debug, PartialEq, Eq)]
#[allow(non_snake_case)]
pub struct CBNPFile {
    pub _FileName: String,
    pub _Versions: Vec<CBNPFileVersion>,
}

/// The value of a [`CBNPFile`].
pub struct FileView {
    pub file_name: Seq<char>,
    pub versions: Seq<FileVersionView>,
}

impl DeepView for CBNPFile {
    type V = FileView;

    open spec fn deep_view(&self) -> FileView {
        FileView { file_name: self._FileName@, versions: self._Versions.deep_view() }
    }
}

impl Readable for CBNPFile {
    open spec fn body_step(rec: PersistentDataRecord, tok: int, arg: int) -> Step<FileView> {
        match string_step(rec, tok, arg, "_FileName"@) {
            Step::Done(file_name, t1, a1) => map_step(
                repeated_struct_step(
                    rec,
                    t1,
                    a1,
                    "_Versions"@,
                    |t: int, a: int| CBNPFileVersion::body_step(rec, t, a),
                ),
                |versions: Seq<FileVersionView>| FileView { file_name, versions },
            ),
            Step::Failed(e) => Step::Failed(e),
        }
    }

    fn read(de: &mut Deserializer) -> (r: Result<CBNPFile, Error>) {
        let file_name = match de.read_string("_FileName") {
            Ok(v) => v,
            Err(e) => return Err(e),
        };
        let versions = match de.read_repeated_struct::<CBNPFileVersion>("_Versions") {
            Ok(v) => v,
            Err(e) => return Err(e),
        };
        Ok(CBNPFile { _FileName: file_name, _Versions: versions })
    }
}

/// The files of a patch.
#[derive(Debug, PartialEq, Eq)]
#[allow(non_snake_case)]
pub struct CBNPFileSet {
    pub _Files: Vec<CBNPFile>,
}

impl DeepView for CBNPFileSet {
    type V = Seq<FileView>;

    open spec fn deep_view(&self) -> Seq<FileView> {
        self._Files.deep_view()
    }
}

impl Readable for CBNPFileSet {
    open spec fn body_step(rec: PersistentDataRecord, tok: int, arg: int) -> Step<Seq<FileView>> {
        repeated_struct_step(rec, tok, arg, "_Files"@, |t: int, a: int| CBNPFile::body_step(rec, t, a))
    }

    fn read(de: &mut Deserializer) -> (r: Result<CBNPFileSet, Error>) {
        match de.read_repeated_struct::<CBNPFile>("_Files") {
            Ok(files) => Ok(CBNPFileSet { _Files: files }),
            Err(e) => Err(e),
        }
    }
}

/// A category: a named group of files, with its optional settings.
#[derive(Debug, PartialEq, Eq)]
#[allow(non_snake_case)]
pub struct CBNPCategory {
    pub _Name: String,
    pub _IsOptional: Option<bool>,
    pub _UnpackTo: Option<String>,
    pub _IsIncremental: Option<bool>,
    pub _CatRequired: Option<String>,
    pub _Hidden: Option<bool>,
    pub _Files: Vec<String>,
}

/// The value of a [`CBNPCategory`].
pub struct CategoryView {
    pub name: Seq<char>,
    pub is_optional: Option<bool>,
    pub unpack_to: Option<Seq<char>>,
    pub is_incremental: Option<bool>,
    pub cat_required: Option<Seq<char>>,
    pub hidden: Option<bool>,
    pub files: Seq<Seq<char>>,
}

impl DeepView for CBNPCategory {
    type V = CategoryView;

    open spec fn deep_view(&self) -> CategoryView {
        CategoryView {
            name: self._Name@,
            is_optional: self._IsOptional.deep_view(),
            unpack_to: self._UnpackTo.deep_view(),
            is_incremental: self._IsIncremental.deep_view(),
            cat_required: self._CatRequired.deep_view(),
            hidden: self._Hidden.deep_view(),
            files: self._Files.deep_view(),
        }
    }
}

/// An optional boolean field called `name`.
pub open spec fn optional_bool_step(
    rec: PersistentDataRecord,
    tok: int,
    arg: int,
    name: Seq<char>,
) -> Step<Option<bool>> {
    optional_step(
        rec,
        tok,
        arg,
        name,
        map_step(scalar_step(rec, tok, arg, name, TType::SINT32), |v: u32| v != 0),
    )
}

/// An optional string field called `name`.
pub open spec fn optional_string_step(
    rec: PersistentDataRecord,
    tok: int,
    arg: int,
    name: Seq<char>,
) -> Step<Option<Seq<char>>> {
    optional_step(rec, tok, arg, name, string_step(rec, tok, arg, name))
}

impl Readable for CBNPCategory {
    open spec fn body_step(rec: PersistentDataRecord, tok: int, arg: int) -> Step<CategoryView> {
        match string_step(rec, tok, arg, "_Name"@) {
            Step::Done(name, t1, a1) => match optional_bool_step(rec, t1, a1, "_IsOptional"@) {
                Step::Done(is_optional, t2, a2) => match optional_string_step(
                    rec,
                    t2,
                    a2,
                    "_UnpackTo"@,
                ) {
                    Step::Done(unpack_to, t3, a3) => match optional_bool_step(
                        rec,
                        t3,
                        a3,
                        "_IsIncremental"@,
                    ) {
                        Step::Done(is_incremental, t4, a4) => match optional_string_step(
                            rec,
                            t4,
                            a4,
                            "_CatRequired"@,
                        ) {
                            Step::Done(cat_required, t5, a5) => match optional_bool_step(
                                rec,
                                t5,
                                a5,
                                "_Hidden"@,
                            ) {
                                Step::Done(hidden, t6, a6) => map_step(
                                    repeated_string_step(rec, t6, a6, "_Files"@),
                                    |files: Seq<Seq<char>>|
                                        CategoryView {
                                            name,
                                            is_optional,
                                            unpack_to,
                                            is_incremental,
                                            cat_required,
                                            hidden,
                                            files,
                                        },
                                ),
                                Step::Failed(e) => Step::Failed(e),
                            },
                            Step::Failed(e) => Step::Failed(e),
                        },
                        Step::Failed(e) => Step::Failed(e),
                    },
                    Step::Failed(e) => Step::Failed(e),
                },
                Step::Failed(e) => Step::Failed(e),
            },
            Step::Failed(e) => Step::Failed(e),
        }
    }

    fn read(de: &mut Deserializer) -> (r: Result<CBNPCategory, Error>) {
        let name = match de.read_string("_Name") {
            Ok(v) => v,
            Err(e) => return Err(e),
        };
        let is_optional = match de.read_optional_bool("_IsOptional") {
            Ok(v) => v,
            Err(e) => return Err(e),
        };
        let unpack_to = match de.read_optional_string("_UnpackTo") {
            Ok(v) => v,
            Err(e) => return Err(e),
        };
        let is_incremental = match de.read_optional_bool("_IsIncremental") {
            Ok(v) => v,
            Err(e) => return Err(e),
        };
        let cat_required = match de.read_optional_string("_CatRequired") {
            Ok(v) => v,
            Err(e) => return Err(e),
        };
        let hidden = match de.read_optional_bool("_Hidden") {
            Ok(v) => v,
            Err(e) => return Err(e),
        };
        let files = match de.read_repeated_string("_Files") {
            Ok(v) => v,
            Err(e) => return Err(e),
        };
        Ok(CBNPCategory {
            _Name: name,
            _IsOptional: is_optional,
            _UnpackTo: unpack_to,
            _IsIncremental: is_incremental,
            _CatRequired: cat_required,
            _Hidden: hidden,
            _Files: files,
        })
    }
}

/// The categories of a patch.
#[derive(Debug, PartialEq, Eq)]
#[allow(non_snake_case)]
pub struct CBNPCategorySet {
    pub _Category: Vec<CBNPCategory>,
}

impl DeepView for CBNPCategorySet {
    type V = Seq<CategoryView>;

    open spec fn deep_view(&self) -> Seq<CategoryView> {
        self._Category.deep_view()
    }
}

impl Readable for CBNPCategorySet {
    open spec fn body_step(rec: PersistentDataRecord, tok: int, arg: int) -> Step<Seq<CategoryView>> {
        repeated_struct_step(
            rec,
            tok,
            arg,
            "_Category"@,
            |t: int, a: int| CBNPCategory::body_step(rec, t, a),
        )
    }

    fn read(de: &mut Deserializer) -> (r: Result<CBNPCategorySet, Error>) {
        match de.read_repeated_struct::<CBNPCategory>("_Category") {
            Ok(categories) => Ok(CBNPCategorySet { _Category: categories }),
            Err(e) => Err(e),
        }
    }
}

/// The description of a patch: its file set, then its category set.
#[derive(Debug, PartialEq, Eq)]
#[allow(non_snake_case)]
pub struct CProductDescriptionForClient {
    pub _Files: CBNPFileSet,
    pub _Categories: CBNPCategorySet,
}

/// What a product description at cursor (`tok`, `arg`) of `rec` decodes to:
/// the file set and the category set.
pub open spec fn product_step(rec: PersistentDataRecord, tok: int, arg: int) -> Step<
    (Seq<FileView>, Seq<CategoryView>),
> {
    match struct_step(rec, tok, arg, "_Files"@, |t: int, a: int| CBNPFileSet::body_step(rec, t, a)) {
        Step::Done(files, t1, a1) => map_step(
            struct_step(
                rec,
                t1,
                a1,
                "_Categories"@,
                |t: int, a: int| CBNPCategorySet::body_step(rec, t, a),
            ),
            |categories: Seq<CategoryView>| (files, categories),
        ),
        Step::Failed(e) => Step::Failed(e),
    }
}

impl DeepView for CProductDescriptionForClient {
    type V = (Seq<FileView>, Seq<CategoryView>);

    open spec fn deep_view(&self) -> (Seq<FileView>, Seq<CategoryView>) {
        (self._Files.deep_view(), self._Categories.deep_view())
    }
}

impl Readable for CProductDescriptionForClient {
    open spec fn body_step(rec: PersistentDataRecord, tok: int, arg: int) -> Step<
        (Seq<FileView>, Seq<CategoryView>),
    > {
        product_step(rec, tok, arg)
    }

    fn read(de: &mut Deserializer) -> (r: Result<CProductDescriptionForClient, Error>) {
        let files = match de.read_struct::<CBNPFileSet>("_Files") {
            Ok(v) => v,
            Err(e) => return Err(e),
        };
        let categories = match de.read_struct::<CBNPCategorySet>("_Categories") {
            Ok(v) => v,
            Err(e) => return Err(e),
        };
        Ok(CProductDescriptionForClient { _Files: files, _Categories: categories })
    }
}

impl CProductDescriptionForClient {
    /// Reads a product description at the cursor of `de`.
    pub fn from(de: &mut Deserializer) -> (r: Result<CProductDescriptionForClient, Error>)
        ensures
            old(de).advanced_to(final(de)),
            agrees(
                r,
                product_step(old(de).record(), old(de).tok(), old(de).arg()),
                final(de).tok(),
                final(de).arg(),
            ),
    {
        <CProductDescriptionForClient as Readable>::read(de)
    }
}

} // verus!
