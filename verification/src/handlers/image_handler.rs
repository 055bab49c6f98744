use vstd::prelude::*;
use vstd::string::*;

verus! {

/// The directory under which uploaded images are kept.
pub open spec fn uploads_root() -> Seq<char> {
    "./uploads/"@
}

/// The file that `GET /images/{image_path}` reads: `./uploads/{image_path}`.
pub open spec fn stored_image_path(image_path: Seq<char>) -> Seq<char> {
    uploads_root() + image_path
}

/// The directory of an upload to `dir`: `./uploads/{dir}/`.
pub open spec fn upload_dir(dir: Seq<char>) -> Seq<char> {
    uploads_root() + dir + "/"@
}

/// The path that the answer reports for a saved file: `{dir}/{file_name}`.
pub open spec fn reported_path(dir: Seq<char>, file_name: Seq<char>) -> Seq<char> {
    dir + "/"@ + file_name
}

/// The file that a saved upload is written to: `./uploads/{dir}/{file_name}`.
pub open spec fn destination_path(dir: Seq<char>, file_name: Seq<char>) -> Seq<char> {
    upload_dir(dir) + file_name
}

/// The content types that the multi-file upload accepts: PNG, JPEG and GIF, as the parsed
/// (lower-cased) type text.
pub open spec fn is_legal_image_type(content_type: Seq<char>) -> bool {
    content_type == "image/png"@ || content_type == "image/jpeg"@ || content_type == "image/gif"@
}

/// Exactly PNG, JPEG and GIF are legal upload types; any other type, such as BMP or a
/// type with parameters, is not.
pub proof fn law_only_three_image_types(content_type: Seq<char>)
    ensures
        is_legal_image_type(content_type) <==> (content_type == "image/png"@ || content_type
            == "image/jpeg"@ || content_type == "image/gif"@),
        is_legal_image_type("image/png"@),
        is_legal_image_type("image/jpeg"@),
        is_legal_image_type("image/gif"@),
        !is_legal_image_type("image/bmp"@),
{
    reveal_strlit("image/png");
    reveal_strlit("image/jpeg");
    reveal_strlit("image/gif");
    reveal_strlit("image/bmp");
    assert("image/bmp"@[6] != "image/png"@[6]);
    assert("image/bmp"@.len() != "image/jpeg"@.len());
    assert("image/bmp"@[6] != "image/gif"@[6]);
}

/// Whether a field of the content type `content_type` may be uploaded.
pub fn legal_image_type(content_type: &str) -> (r: bool)
    ensures
        r == is_legal_image_type(content_type@),
        r == (content_type@ == "image/png"@ || content_type@ == "image/jpeg"@ || content_type@
            == "image/gif"@),
{
    let png = String::from_str("image/png");
    let jpeg = String::from_str("image/jpeg");
    let gif = String::from_str("image/gif");
    let t = String::from_str(content_type);
    t == png || t == jpeg || t == gif
}

/// `./uploads/{image_path}`, the file behind `GET /images/{image_path}`.
pub fn image_file_path(image_path: &str) -> (r: String)
    ensures
        r@ == stored_image_path(image_path@),
{
    let mut p = String::from_str("./uploads/");
    p.append(image_path);
    p
}

/// What the upload handler does with one multipart field.
pub enum UploadAction {
    /// The field is passed over and does not count.
    Skip,
    /// The field's file is written to `destination` and reported as `file_path`.
    Save { file_path: String, destination: String },
    /// The field names no file, which the handler does not survive.
    MissingFileName,
}

/// The progress of an image upload: where it goes, how many files it takes, whether it
/// checks their types, and the files saved so far, newest first.
pub struct UploadPlan {
    dir: String,
    order_dir: String,
    max_files: usize,
    max_size: usize,
    check_types: bool,
    paths: Vec<String>,
}

impl UploadPlan {
    /// The directory named by the request.
    pub closed spec fn directory(&self) -> Seq<char> {
        self.dir@
    }

    /// The most files the upload saves.
    pub closed spec fn file_limit(&self) -> nat {
        self.max_files as nat
    }

    /// The largest request body the upload accepts.
    pub closed spec fn size_limit(&self) -> nat {
        self.max_size as nat
    }

    /// Whether only PNG, JPEG and GIF fields are saved.
    pub closed spec fn checks_types(&self) -> bool {
        self.check_types
    }

    /// The reported paths of the files saved so far, newest first.
    pub closed spec fn saved_paths(&self) -> Seq<Seq<char>> {
        self.paths@.map_values(|p: String| p@)
    }

    /// The directory of the upload on disk.
    pub closed spec fn target_dir(&self) -> Seq<char> {
        self.order_dir@
    }

    /// The plan is consistent: its directory on disk is that of its directory, and it has
    /// saved no more files than it takes.
    pub open spec fn well_formed(&self) -> bool {
        &&& self.target_dir() == upload_dir(self.directory())
        &&& self.saved_paths().len() <= self.file_limit()
    }

    fn start(dir: &str, max_files: usize, max_size: usize, check_types: bool) -> (r: Self)
        ensures
            r.well_formed(),
            r.directory() == dir@,
            r.file_limit() == max_files,
            r.size_limit() == max_size,
            r.checks_types() == check_types,
            r.saved_paths() == Seq::<Seq<char>>::empty(),
    {
        let mut order_dir = String::from_str("./uploads/");
        order_dir.append(dir);
        order_dir.append("/");
        let paths: Vec<String> = Vec::new();
        let r = UploadPlan {
            dir: String::from_str(dir),
            order_dir,
            max_files,
            max_size,
            check_types,
            paths,
        };
        assert(r.saved_paths() =~= Seq::<Seq<char>>::empty());
        r
    }

    /// The upload of several images (`POST /images`): at most 3 files of the types PNG, JPEG
    /// or GIF, in a body of at most 5 000 000 bytes.
    pub fn for_many(dir: &str) -> (r: Self)
        ensures
            r.well_formed(),
            r.directory() == dir@,
            r.file_limit() == 3,
            r.size_limit() == 5_000_000,
            r.checks_types(),
            r.saved_paths() == Seq::<Seq<char>>::empty(),
    {
        Self::start(dir, 3, 5_000_000, true)
    }

    /// The upload of one image (`POST /images/image`): the first field, whatever its type, in
    /// a body of at most 20 000 000 bytes.
    pub fn for_one(dir: &str) -> (r: Self)
        ensures
            r.well_formed(),
            r.directory() == dir@,
            r.file_limit() == 1,
            r.size_limit() == 20_000_000,
            !r.checks_types(),
            r.saved_paths() == Seq::<Seq<char>>::empty(),
    {
        Self::start(dir, 1, 20_000_000, false)
    }

    /// The directory that must exist before files are written: `./uploads/{dir}/`.
    pub fn order_dir(&self) -> (r: &str)
        ensures
            r@ == self.target_dir(),
    {
        self.order_dir.as_str()
    }

    /// Whether a request body of `content_length` bytes is accepted; a larger one is
    /// answered 400 before any field is read.
    pub fn size_allowed(&self, content_length: usize) -> (r: bool)
        ensures
            r == (content_length <= self.size_limit()),
    {
        content_length <= self.max_size
    }

    /// Whether the handler reads another field.
    pub fn wants_more(&self) -> (r: bool)
        ensures
            r == (self.saved_paths().len() < self.file_limit()),
    {
        self.paths.len() < self.max_files
    }

    /// Decides on the next field, whose content type is `content_type` and whose file name is
    /// `file_name`: a field of an unaccepted type is skipped and does not count; otherwise a
    /// field without a file name stops the upload; otherwise the file is saved under the
    /// upload's directory and its path is put first in the list of saved files.
    pub fn on_field(&mut self, content_type: Option<&str>, file_name: Option<&str>) -> (r:
        UploadAction)
        requires
            old(self).well_formed(),
            old(self).saved_paths().len() < old(self).file_limit(),
        ensures
            final(self).well_formed(),
            final(self).directory() == old(self).directory(),
            final(self).file_limit() == old(self).file_limit(),
            final(self).size_limit() == old(self).size_limit(),
            final(self).checks_types() == old(self).checks_types(),
            ({
                let accepted = !old(self).checks_types() || match content_type {
                    Some(t) => t@ == "image/png"@ || t@ == "image/jpeg"@ || t@ == "image/gif"@,
                    None => false,
                };
                if !accepted {
                    r is Skip && final(self).saved_paths() == old(self).saved_paths()
                } else {
                    match file_name {
                        None => r is MissingFileName && final(self).saved_paths() == old(
                            self,
                        ).saved_paths(),
                        Some(name) => match r {
                            UploadAction::Save { file_path, destination } => {
                                &&& file_path@ == reported_path(old(self).directory(), name@)
                                &&& destination@ == destination_path(
                                    old(self).directory(),
                                    name@,
                                )
                                &&& final(self).saved_paths() == seq![file_path@] + old(
                                    self,
                                ).saved_paths()
                            },
                            _ => false,
                        },
                    }
                }
            }),
    {
        let accepted = if !self.check_types {
            true
        } else {
            match content_type {
                Some(t) => legal_image_type(t),
                None => false,
            }
        };
        if !accepted {
            return UploadAction::Skip;
        }
        match file_name {
            None => UploadAction::MissingFileName,
            Some(name) => {
                let mut file_path = String::from_str(self.dir.as_str());
                file_path.append("/");
                file_path.append(name);
                let mut destination = String::from_str(self.order_dir.as_str());
                destination.append(name);
                let ghost before = self.saved_paths();
                self.paths.insert(0, file_path.clone());
                assert(self.saved_paths() =~= seq![file_path@] + before);
                UploadAction::Save { file_path, destination }
            },
        }
    }

    /// The paths of the saved files, newest first: the answer of the multi-file upload.
    pub fn paths(&self) -> (r: &Vec<String>)
        ensures
            r@.map_values(|p: String| p@) == self.saved_paths(),
    {
        &self.paths
    }

    /// The answer of the single upload: the path of the saved file, or the empty text where
    /// no file was saved.
    pub fn single_path(&self) -> (r: String)
        ensures
            self.saved_paths().len() == 0 ==> r@ == Seq::<char>::empty(),
            self.saved_paths().len() > 0 ==> r@ == self.saved_paths()[0],
    {
        if self.paths.len() == 0 {
            String::new()
        } else {
            self.paths[0].clone()
        }
    }
}

} // verus!
