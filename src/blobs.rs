use vstd::prelude::*;
use vstd::slice::slice_to_vec;
use crate::store::StoreError;

verus! {

/// One command to the object store, on its single bucket.
pub enum BlobCommand {
    /// Write the bytes at a name, replacing any earlier object.
    Put(String, Vec<u8>),
    /// Read the object at a name.
    Get(String),
}

pub enum BlobCommandView {
    Put(Seq<char>, Seq<u8>),
    Get(Seq<char>),
}

impl View for BlobCommand {
    type V = BlobCommandView;

    open spec fn view(&self) -> BlobCommandView {
        match self {
            BlobCommand::Put(name, bytes) => BlobCommandView::Put(name@, bytes@),
            BlobCommand::Get(name) => BlobCommandView::Get(name@),
        }
    }
}

/// The contents of the bucket: from object name to bytes.
pub type Bucket = Map<Seq<char>, Seq<u8>>;

/// The bucket after the object store has carried out a command.
pub open spec fn bucket_after(b: Bucket, cmd: BlobCommandView) -> Bucket {
    match cmd {
        BlobCommandView::Put(name, bytes) => b.insert(name, bytes),
        BlobCommandView::Get(_) => b,
    }
}

/// A reply to `Get(name)` that an object store holding `b` gives: bytes only
/// where the object exists, and then its bytes. A missing object and a
/// failure of the store give the same error.
pub open spec fn get_reply_agrees(b: Bucket, name: Seq<char>, reply: Result<Vec<u8>, StoreError>) -> bool {
    match reply {
        Ok(bytes) => b.contains_key(name) && b[name] == bytes@,
        Err(_) => true,
    }
}

/// The command that writes `content` at `path`.
pub fn upload_file(path: &str, content: &[u8]) -> (r: BlobCommand)
    ensures
        r@ == BlobCommandView::Put(path@, content@),
{
    BlobCommand::Put(path.to_string(), slice_to_vec(content))
}

/// The command that reads the object at `path`.
pub fn download_file(path: &str) -> (r: BlobCommand)
    ensures
        r@ == BlobCommandView::Get(path@),
{
    BlobCommand::Get(path.to_string())
}

} // verus!
