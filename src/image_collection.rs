//! The images of an event, shown together.

use crate::image::{image_line, Image};
use vstd::prelude::*;

verus! {

/// Whether the image `i` is listed: it has a URL and the URL is not empty.
pub open spec fn listed(i: Image) -> bool {
    i.url matches Some(u) && u@.len() > 0
}

/// The listed images of `imgs`, one line each, indented by two spaces and
/// separated by line breaks.
pub open spec fn listing(imgs: Seq<Image>) -> Seq<char>
    decreases imgs.len(),
{
    if imgs.len() == 0 {
        Seq::empty()
    } else {
        let rest = listing(imgs.drop_last());
        let last = imgs.last();
        if !listed(last) {
            rest
        } else if rest.len() == 0 {
            "  "@ + image_line(last)
        } else {
            rest + "\n"@ + "  "@ + image_line(last)
        }
    }
}

/// A collection of images that can be shown as text.
pub trait ImageCollection {
    /// The text of the collection.
    spec fn shown_images(&self) -> Seq<char>;

    fn to_string(&self) -> (r: String)
        ensures
            r@ == self.shown_images();
}

impl ImageCollection for Vec<Image> {
    open spec fn shown_images(&self) -> Seq<char> {
        listing(self@)
    }

    /// The images with a non-empty URL, one line each, in order.
    fn to_string(&self) -> (r: String) {
        let mut out = String::new();
        let mut i: usize = 0;
        proof {
            reveal_strlit("  ");
        }
        while i < self.len()
            invariant
                i <= self@.len(),
                out@ == listing(self@.subrange(0, i as int)),
            decreases self@.len() - i,
        {
            let img = &self[i];
            let keep = match &img.url {
                Some(u) => u.as_str().unicode_len() > 0,
                None => false,
            };
            proof {
                assert(self@.subrange(0, i + 1).drop_last() =~= self@.subrange(0, i as int));
            }
            if keep {
                if out.as_str().unicode_len() > 0 {
                    out.append("\n");
                }
                out.append("  ");
                let line = img.to_string();
                out.append(line.as_str());
            }
            proof {
                let prefix = self@.subrange(0, i + 1);
                assert(prefix.last() == *img);
                assert(out@ =~= listing(prefix));
            }
            i = i + 1;
        }
        assert(self@.subrange(0, self@.len() as int) =~= self@);
        out
    }
}

} // verus!
