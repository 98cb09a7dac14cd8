//! Classification of a `Content-Type` header into the asset classes the
//! service distinguishes: only images are stored as previews.

use vstd::prelude::*;

verus! {

/// Broad class of an asset, derived from its MIME text.
#[derive(Hash, PartialEq, Eq, Structural, Debug, Clone, Copy)]
pub enum AssetClass {
    Image,
    Video,
    Other,
}

/// A MIME type as reported by an origin server: the raw text and the class
/// the service derives from it.
#[derive(Hash, PartialEq, Debug, Clone)]
pub struct Mime {
    pub mime: String,
    pub class: AssetClass,
}

/// The first five characters of the MIME text spell `image`.
pub open spec fn is_image_mime(s: Seq<char>) -> bool {
    s.len() >= 5 && s.subrange(0, 5) == seq!['i', 'm', 'a', 'g', 'e']
}

/// The class that the service assigns to a MIME text: prefix match only.
pub open spec fn class_of_mime(s: Seq<char>) -> AssetClass {
    if is_image_mime(s) {
        AssetClass::Image
    } else {
        AssetClass::Other
    }
}

impl Mime {
    /// Parses a `Content-Type` text: anything whose text starts with `image`
    /// is an image, everything else is `Other`.
    pub fn from_mime_str(mime: &str) -> (r: Mime)
        ensures
            r.mime@ == mime@,
            r.class == class_of_mime(mime@),
    {
        let n = mime.unicode_len();
        let is_image = n >= 5 && mime.get_char(0) == 'i' && mime.get_char(1) == 'm'
            && mime.get_char(2) == 'a' && mime.get_char(3) == 'g' && mime.get_char(4) == 'e';
        proof {
            if n >= 5 {
                let pre = mime@.subrange(0, 5);
                let img = seq!['i', 'm', 'a', 'g', 'e'];
                if is_image {
                    assert(pre =~= img);
                } else {
                    assert(pre == img ==> {
                        &&& pre[0] == 'i'
                        &&& pre[1] == 'm'
                        &&& pre[2] == 'a'
                        &&& pre[3] == 'g'
                        &&& pre[4] == 'e'
                    });
                }
            }
        }
        let class = if is_image {
            AssetClass::Image
        } else {
            AssetClass::Other
        };
        Mime { mime: mime.to_owned(), class }
    }

    /// The raw MIME text.
    pub fn str(&self) -> (r: &str)
        ensures
            r@ == self.mime@,
    {
        self.mime.as_str()
    }
}

impl Default for Mime {
    /// The MIME used when a response carries no usable `Content-Type`:
    /// `application/octet-stream`, class `Other`.
    fn default() -> (r: Mime)
        ensures
            r.mime@ == "application/octet-stream"@,
            r.class == AssetClass::Other,
    {
        Mime { mime: "application/octet-stream".to_owned(), class: AssetClass::Other }
    }
}

} // verus!
