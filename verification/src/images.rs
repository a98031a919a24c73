//! Images drawn in characters: the image file's bytes are decoded in the
//! format that its extension names, shrunk to a fixed size and written as
//! monochrome text, which is sent and shown in place of the picture.
use vstd::prelude::*;
use crate::room_creator::opt_view;
use crate::text::{chars_of, string_from_chars};
use crate::types::{Channel, ImgRender, ImgRenderView, User};

verus! {

/// The width, in pixels, that an image is shrunk to before it is drawn.
pub const ASCII_IMAGE_WIDTH: u32 = 50;

/// The height, in pixels, that an image is shrunk to before it is drawn.
pub const ASCII_IMAGE_HEIGHT: u32 = 70;

/// What drawing the image in `bytes` as monochrome characters gives: the
/// bytes decoded by the `image` crate in the format that the file extension
/// `extension` names, resized to `width` by `height` pixels, and written by
/// `artem` without colour; `None` when the extension names no format the
/// crate knows or the bytes do not decode.
pub uninterp spec fn ascii_art_of(bytes: Seq<u8>, extension: Seq<char>, width: u32, height: u32) -> Option<
    Seq<char>,
>;

/// Decodes `bytes` with `image::load_from_memory_with_format` in the format
/// that `image::ImageFormat::from_extension` gives for `extension`, resizes
/// the image with `DynamicImage::resize_exact` (nearest-neighbour sampling)
/// and draws it with `artem::convert` with colour turned off. Claimed: the
/// result is `ascii_art_of` of the arguments. Without colour `artem` reads no
/// environment, so the text depends on the arguments alone. The four calls
/// stand behind one name because what passes between them is an image of the
/// `image` crate, which has no plain value to name. Sizes of zero make
/// `artem` divide by zero, so they are left out, and so are sizes too large
/// to allocate.
#[verifier::external_body]
fn ascii_art(bytes: &[u8], extension: &str, width: u32, height: u32) -> (r: Option<String>)
    requires
        1 <= width <= 1000,
        1 <= height <= 1000,
    ensures
        opt_view(r) == ascii_art_of(bytes@, extension@, width, height),
{
    let format = match image::ImageFormat::from_extension(extension) {
        Some(f) => f,
        None => return None,
    };
    let img = match image::load_from_memory_with_format(bytes, format) {
        Ok(i) => i,
        Err(_) => return None,
    };
    let conf = artem::config::ConfigBuilder::new().color(false).build();
    Some(artem::convert(img.resize_exact(width, height, image::imageops::FilterType::Nearest), &conf))
}

/// The index of the last `.` in `name`, or -1.
pub open spec fn last_dot(name: Seq<char>) -> int
    decreases name.len(),
{
    if name.len() == 0 {
        -1
    } else if name.last() == '.' {
        name.len() - 1
    } else {
        last_dot(name.drop_last())
    }
}

/// The extension of a file name as `Path::extension` finds it: the text
/// after the last `.`, unless there is no `.` or the only one starts the
/// name.
pub open spec fn name_extension(name: Seq<char>) -> Option<Seq<char>> {
    let i = last_dot(name);
    if i <= 0 {
        None
    } else {
        Some(name.subrange(i + 1, name.len() as int))
    }
}

/// The extension of the file name `name`; see `name_extension`.
pub fn extension_of(name: &str) -> (e: Option<String>)
    ensures
        opt_view(e) == name_extension(name@),
{
    let v = chars_of(name);
    let mut i: usize = v.len();
    assert(v@.subrange(0, v@.len() as int) == v@);
    while i > 0 && v[i - 1] != '.'
        invariant
            i <= v@.len(),
            v@ == name@,
            last_dot(v@) == last_dot(v@.subrange(0, i as int)),
        decreases i,
    {
        proof {
            assert(v@.subrange(0, i as int).drop_last() == v@.subrange(0, i - 1));
        }
        i = i - 1;
    }
    proof {
        if i > 0 {
            assert(v@.subrange(0, i as int).last() == '.');
        } else {
            assert(v@.subrange(0, 0).len() == 0);
        }
        assert(v@.subrange(0, v@.len() as int) == v@);
    }
    if i <= 1 {
        return None;
    }
    let mut out: Vec<char> = Vec::new();
    let mut k: usize = i;
    while k < v.len()
        invariant
            i <= k <= v@.len(),
            out@ == v@.subrange(i as int, k as int),
        decreases v@.len() - k,
    {
        out.push(v[k]);
        proof {
            assert(v@.subrange(i as int, k + 1) == v@.subrange(i as int, k as int).push(v@[k as int]));
        }
        k = k + 1;
    }
    Some(string_from_chars(out.as_slice()))
}

/// The image in the file `file_name`, whose bytes are `bytes`, drawn in
/// characters and addressed from `from` to `to`; `None` when its extension
/// names no image format or the bytes do not decode as one.
pub fn image_render(bytes: &[u8], file_name: &str, from: User, to: Channel) -> (r: Option<ImgRender>)
    ensures
        match name_extension(file_name@) {
            None => r is None,
            Some(ext) => match ascii_art_of(bytes@, ext, ASCII_IMAGE_WIDTH, ASCII_IMAGE_HEIGHT) {
                None => r is None,
                Some(t) => r matches Some(i) && i@ == (ImgRenderView { cache: t, from: from@, to }),
            },
        },
{
    let ext = match extension_of(file_name) {
        None => return None,
        Some(e) => e,
    };
    match ascii_art(bytes, ext.as_str(), ASCII_IMAGE_WIDTH, ASCII_IMAGE_HEIGHT) {
        None => None,
        Some(cache) => Some(ImgRender { cache, from, to }),
    }
}

} // verus!
