//! The display loop's state: the bitmap being shown, and the texture cache
//! that is filled exactly once, on the first frame.

use vstd::prelude::*;
use crate::bitmap::Bitmap;
use crate::bitmap::BitmapView;

verus! {

/// A renderer-side copy of a bitmap's samples, as handed to the GUI's
/// texture upload. Its mathematical content is the same as a bitmap's.
pub struct Texture {
    width: u32,
    height: u32,
    pixels: Vec<u8>,
}

impl View for Texture {
    type V = BitmapView;

    closed spec fn view(&self) -> BitmapView {
        BitmapView {
            width: self.width as nat,
            height: self.height as nat,
            pixels: self.pixels@,
        }
    }
}

impl Texture {
    pub fn width(&self) -> (w: u32)
        ensures
            w as nat == self@.width,
    {
        self.width
    }

    pub fn height(&self) -> (h: u32)
        ensures
            h as nat == self@.height,
    {
        self.height
    }

    pub fn pixels(&self) -> (p: &Vec<u8>)
        ensures
            p@ == self@.pixels,
    {
        &self.pixels
    }
}

/// The viewer's state: the decoded image it owns for the process lifetime,
/// and the texture derived from it, absent until the first frame.
pub struct Editor {
    image: Bitmap,
    texture: Option<Texture>,
}

/// The mathematical content of the viewer's state.
pub ghost struct EditorView {
    pub image: BitmapView,
    pub texture: Option<BitmapView>,
}

impl View for Editor {
    type V = EditorView;

    closed spec fn view(&self) -> EditorView {
        EditorView {
            image: self.image@,
            texture: match self.texture {
                Option::Some(t) => Some(t@),
                Option::None => None,
            },
        }
    }
}

/// An exact copy of a byte buffer.
fn copy_bytes(src: &Vec<u8>) -> (r: Vec<u8>)
    ensures
        r@ == src@,
{
    let mut out: Vec<u8> = Vec::new();
    let mut i: usize = 0;
    while i < src.len()
        invariant
            i <= src@.len(),
            out@ == src@.subrange(0, i as int),
        decreases src@.len() - i,
    {
        out.push(src[i]);
        i = i + 1;
    }
    out
}

impl Editor {
    /// Holds of every reachable state: the texture, once created, is a copy
    /// of the image.
    pub open spec fn wf(self) -> bool {
        match self@.texture {
            Some(t) => t == self@.image,
            None => true,
        }
    }

    /// True once the texture has been created and cached.
    pub open spec fn ready(self) -> bool {
        self@.texture is Some
    }

    /// A fresh viewer owning the given image, with no texture yet.
    pub fn new(image: Bitmap) -> (e: Editor)
        ensures
            e@.image == image@,
            !e.ready(),
            e.wf(),
    {
        Editor { image, texture: None }
    }

    /// One frame of the display loop. On the first frame the texture is
    /// created from the image and cached; on every later frame the cached
    /// texture is left exactly as it is, never recomputed.
    pub fn update(&mut self) -> (first_frame: bool)
        requires
            old(self).wf(),
        ensures
            final(self).wf(),
            final(self)@.image == old(self)@.image,
            final(self).ready(),
            final(self)@.texture == Some(old(self)@.image),
            old(self).ready() ==> final(self)@ == old(self)@,
            first_frame == !old(self).ready(),
    {
        let first_frame = self.texture.is_none();
        if first_frame {
            let t = Texture {
                width: self.image.width(),
                height: self.image.height(),
                pixels: copy_bytes(self.image.pixels()),
            };
            self.texture = Some(t);
        }
        first_frame
    }

    /// The image this viewer displays.
    pub fn image(&self) -> (b: &Bitmap)
        ensures
            b@ == self@.image,
    {
        &self.image
    }

    /// The cached texture, if the first frame has run.
    pub fn texture(&self) -> (t: &Option<Texture>)
        ensures
            match t {
                Option::Some(tex) => self@.texture == Some(tex@),
                Option::None => self@.texture is None,
            },
    {
        &self.texture
    }
}

} // verus!
