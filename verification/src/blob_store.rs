//! Where a rendered image is kept: the name it is stored under, and what an
//! upload of it declares.

use vstd::prelude::*;
use vstd::string::StrSliceExecFns;
use vstd::string::StringExecFns;

verus! {

/// Settings of a store that writes images into a local directory.
#[derive(Clone, Debug)]
pub struct LocalBlobStoreConfig {
    /// Directory that receives one file per token.
    pub out_dir: String,
}

/// Settings of a store that uploads images to a storage bucket.
#[derive(Clone, Debug)]
pub struct GcsBlobStoreConfig {
    /// Bucket that receives one object per token.
    pub bucket_name: String,
}

/// Which store the pipeline writes to.
#[derive(Clone, Debug)]
pub enum BlobStoreConfig {
    Local(LocalBlobStoreConfig),
    Gcs(GcsBlobStoreConfig),
}

/// A store in a local directory.
#[derive(Clone, Debug)]
pub struct LocalBlobStore {
    pub config: LocalBlobStoreConfig,
}

/// What an upload to a bucket declares about one image.
#[derive(Clone, Debug)]
pub struct UploadPlan {
    /// Bucket to upload into.
    pub bucket: String,
    /// Name of the object inside the bucket.
    pub name: String,
    /// Media type of the object.
    pub content_type: String,
    /// Size of the object in bytes.
    pub size: i64,
}

/// File name of a token's image: the address followed by `.png`.
pub open spec fn image_file_name(token_address: Seq<char>) -> Seq<char> {
    token_address + ".png"@
}

/// Object name of a token's image in a bucket: `images/`, then the file name.
pub open spec fn image_object_name(token_address: Seq<char>) -> Seq<char> {
    "images/"@ + image_file_name(token_address)
}

/// Whether `name` ends in `.png`.
pub open spec fn has_image_extension(name: Seq<char>) -> bool {
    &&& name.len() >= 4
    &&& name[name.len() - 4] == '.'
    &&& name[name.len() - 3] == 'p'
    &&& name[name.len() - 2] == 'n'
    &&& name[name.len() - 1] == 'g'
}

/// `name` without the `.png` at its end, however often it is repeated there.
pub open spec fn without_image_extension(name: Seq<char>) -> Seq<char>
    decreases name.len(),
{
    if has_image_extension(name) {
        without_image_extension(name.take(name.len() - 4))
    } else {
        name
    }
}

/// The token address that the name of an image stands for: the name without
/// its `.png` endings.
pub fn trim_image_extension(name: &str) -> (token_address: String)
    ensures
        token_address@ == without_image_extension(name@),
{
    let mut len = name.unicode_len();
    assert(name@.take(len as int) =~= name@);
    while len >= 4 && name.get_char(len - 4) == '.' && name.get_char(len - 3) == 'p'
        && name.get_char(len - 2) == 'n' && name.get_char(len - 1) == 'g'
        invariant
            len <= name@.len(),
            without_image_extension(name@) == without_image_extension(name@.take(len as int)),
        decreases len,
    {
        assert(has_image_extension(name@.take(len as int)));
        assert(name@.take(len as int).take(len - 4) =~= name@.take(len - 4));
        len -= 4;
    }
    assert(!has_image_extension(name@.take(len as int)));
    assert(name@.subrange(0, len as int) =~= name@.take(len as int));
    String::from_str(name.substring_char(0, len))
}

/// The name of a token's image stands for that token, provided the address
/// does not itself end in `.png`.
pub proof fn lemma_file_name_names_its_token(token_address: Seq<char>)
    requires
        !has_image_extension(token_address),
    ensures
        without_image_extension(image_file_name(token_address)) == token_address,
{
    reveal_strlit(".png");
    let name = image_file_name(token_address);
    assert(has_image_extension(name));
    assert(name.take(name.len() - 4) =~= token_address);
    assert(without_image_extension(token_address) == token_address);
    assert(without_image_extension(name) == without_image_extension(
        name.take(name.len() - 4),
    ));
}

impl LocalBlobStore {
    /// A store that writes below the configured directory.
    pub fn new(config: LocalBlobStoreConfig) -> (store: Self)
        ensures
            store.config == config,
    {
        LocalBlobStore { config }
    }

    /// Name of the file, inside the output directory, that holds the image of
    /// `token_address`. Writing the same token again overwrites that file.
    pub fn file_name(&self, token_address: &str) -> (name: String)
        ensures
            name@ == image_file_name(token_address@),
    {
        let mut name = String::from_str(token_address);
        name.append(".png");
        name
    }
}

impl BlobStoreConfig {
    /// The name under which the configured store keeps the image of
    /// `token_address`: the file name in a local directory, the object name
    /// in a bucket.
    pub fn image_name(&self, token_address: &str) -> (name: String)
        ensures
            self is Local ==> name@ == image_file_name(token_address@),
            self is Gcs ==> name@ == image_object_name(token_address@),
    {
        let mut name = match self {
            BlobStoreConfig::Local(_) => String::from_str(token_address),
            BlobStoreConfig::Gcs(_) => {
                let mut name = String::from_str("images/");
                name.append(token_address);
                name
            },
        };
        name.append(".png");
        assert(self is Gcs ==> name@ =~= image_object_name(token_address@));
        name
    }
}

/// One name, one token: the images of two tokens never share a file or an
/// object, so that a write can only replace the image of the same token.
pub proof fn lemma_image_names_tell_tokens_apart(first: Seq<char>, second: Seq<char>)
    ensures
        image_file_name(first) == image_file_name(second) ==> first == second,
        image_object_name(first) == image_object_name(second) ==> first == second,
{
    reveal_strlit(".png");
    reveal_strlit("images/");
    if image_file_name(first) == image_file_name(second) {
        assert(image_file_name(first).len() == first.len() + 4);
        assert(image_file_name(second).len() == second.len() + 4);
        assert forall|i: int| 0 <= i < first.len() implies first[i] == second[i] by {
            assert(image_file_name(first)[i] == first[i]);
            assert(image_file_name(second)[i] == second[i]);
        }
        assert(first =~= second);
    }
    if image_object_name(first) == image_object_name(second) {
        assert(image_object_name(first).len() == first.len() + 11);
        assert(image_object_name(second).len() == second.len() + 11);
        assert forall|i: int| 0 <= i < first.len() implies first[i] == second[i] by {
            assert(image_object_name(first)[i + 7] == first[i]);
            assert(image_object_name(second)[i + 7] == second[i]);
        }
        assert(first =~= second);
    }
}

impl GcsBlobStoreConfig {
    /// The upload that stores `png_data` as the image of `token_address`:
    /// into the configured bucket, under `images/<address>.png`, declared as
    /// `image/png` with the data's length. `None` if the length does not fit
    /// the size field.
    pub fn plan_upload(&self, png_data: &Vec<u8>, token_address: &str) -> (plan: Option<
        UploadPlan,
    >)
        ensures
            plan is Some <==> png_data@.len() <= i64::MAX,
            plan is Some ==> {
                &&& plan->0.bucket@ == self.bucket_name@
                &&& plan->0.name@ == image_object_name(token_address@)
                &&& plan->0.content_type@ == "image/png"@
                &&& plan->0.size == png_data@.len()
            },
    {
        let len: u64 = png_data.len() as u64;
        if len > 0x7fff_ffff_ffff_ffff {
            return None;
        }
        let mut name = String::from_str("images/");
        name.append(token_address);
        name.append(".png");
        assert(name@ =~= image_object_name(token_address@));
        Some(
            UploadPlan {
                bucket: self.bucket_name.clone(),
                name,
                content_type: String::from_str("image/png"),
                size: len as i64,
            },
        )
    }
}

} // verus!
