use vstd::prelude::*;
use crate::text::{is_remote, is_remote_reference};

verus! {

/// Track metadata to publish; an absent field is shown as cleared.
#[derive(Debug)]
pub struct MusicMetadata {
    pub title: Option<String>,
    pub artist: Option<String>,
    pub album: Option<String>,
    pub album_artist: Option<String>,
    pub thumbnail: Option<String>,
}

/// Artwork bound to its source: a remote URL or a local file path.
#[derive(Debug)]
pub enum Thumbnail {
    Remote(String),
    LocalFile(String),
}

impl Thumbnail {
    /// A copy of this thumbnail.
    pub fn copy(&self) -> (r: Thumbnail)
        ensures
            r == *self,
    {
        match self {
            Thumbnail::Remote(u) => Thumbnail::Remote(u.clone()),
            Thumbnail::LocalFile(p) => Thumbnail::LocalFile(p.clone()),
        }
    }
}

/// The reference that a thumbnail is bound to.
pub open spec fn thumbnail_reference(t: Thumbnail) -> Seq<char> {
    match t {
        Thumbnail::Remote(u) => u@,
        Thumbnail::LocalFile(p) => p@,
    }
}

/// Decides how a thumbnail reference is resolved: a reference that begins with
/// `http` is a URL, any other a local file path. The reference itself is kept.
pub fn thumbnail_request(reference: &str) -> (r: Thumbnail)
    ensures
        is_remote_reference(reference@) <==> r is Remote,
        thumbnail_reference(r) == reference@,
{
    if is_remote(reference) {
        Thumbnail::Remote(String::from_str(reference))
    } else {
        Thumbnail::LocalFile(String::from_str(reference))
    }
}

impl MusicMetadata {
    /// How the thumbnail of this metadata is to be resolved, if it has one.
    pub fn thumbnail_request(&self) -> (r: Option<Thumbnail>)
        ensures
            self.thumbnail is None <==> r is None,
            self.thumbnail is Some ==> (is_remote_reference(self.thumbnail->Some_0@) <==> r->Some_0 is Remote)
                && thumbnail_reference(r->Some_0) == self.thumbnail->Some_0@,
    {
        match &self.thumbnail {
            Some(s) => Some(thumbnail_request(s.as_str())),
            None => None,
        }
    }
}

} // verus!
