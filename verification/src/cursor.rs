//! Cursor themes: loading shapes, and picking the frame of an animated cursor.

use vstd::prelude::*;
use vstd::utf8::encode_utf8;

use crate::text::{parse_unsigned, same, unsigned_value};
use crate::utils::{cast_i32, first_from, first_passes, first_where, in_i32, wrapped_i32};

verus! {

/// A cursor image.
pub struct Image {
    /// Nominal size.
    pub size: u32,
    pub width: u32,
    pub height: u32,
    /// The pixel that points.
    pub xhot: u32,
    pub yhot: u32,
    /// Milliseconds for which the image is shown.
    pub delay: u32,
    pub pixels_rgba: Vec<u8>,
    pub pixels_argb: Vec<u8>,
}

/// What a cursor image shows.
pub struct ImageView {
    pub size: u32,
    pub width: u32,
    pub height: u32,
    pub xhot: u32,
    pub yhot: u32,
    pub delay: u32,
    pub pixels_rgba: Seq<u8>,
    pub pixels_argb: Seq<u8>,
}

impl View for Image {
    type V = ImageView;

    open spec fn view(&self) -> ImageView {
        ImageView {
            size: self.size,
            width: self.width,
            height: self.height,
            xhot: self.xhot,
            yhot: self.yhot,
            delay: self.delay,
            pixels_rgba: self.pixels_rgba@,
            pixels_argb: self.pixels_argb@,
        }
    }
}

impl Image {
    fn copy(&self) -> (image: Image)
        ensures
            image@ == self@,
    {
        let pixels_rgba = self.pixels_rgba.clone();
        let pixels_argb = self.pixels_argb.clone();
        assert(pixels_rgba@ =~= self.pixels_rgba@);
        assert(pixels_argb@ =~= self.pixels_argb@);
        Image {
            size: self.size,
            width: self.width,
            height: self.height,
            xhot: self.xhot,
            yhot: self.yhot,
            delay: self.delay,
            pixels_rgba,
            pixels_argb,
        }
    }
}

/// What the images of a list show.
pub open spec fn images_view(images: Seq<Image>) -> Seq<ImageView> {
    images.map_values(|image: Image| image@)
}

/// The images that `xcursor::parser::parse_xcursor` finds in the content of a cursor file, if it is
/// one.
pub uninterp spec fn xcursor_images(content: Seq<u8>) -> Option<Seq<ImageView>>;

/// An image as a cursor file can hold it: neither empty nor larger than 0x7fff pixels in width or
/// height, with the hotspot in it or on its far edges, and with four bytes for each pixel.
pub open spec fn is_well_formed(image: ImageView) -> bool {
    &&& 0 < image.width <= 0x7fff
    &&& 0 < image.height <= 0x7fff
    &&& image.xhot <= image.width
    &&& image.yhot <= image.height
    &&& image.pixels_rgba.len() == 4 * image.width * image.height
    &&& image.pixels_argb.len() == 4 * image.width * image.height
}

/// Calls `xcursor::parser::parse_xcursor`, which reads the images of a cursor file. Two things are
/// claimed of it: what it finds depends on the content alone, and all images that it finds are well
/// formed.
#[verifier::external_body]
fn parse_xcursor(content: &Vec<u8>) -> (images: Option<Vec<Image>>)
    ensures
        images is Some <==> xcursor_images(content@) is Some,
        images matches Some(found) ==> {
            &&& xcursor_images(content@) == Some(images_view(found@))
            &&& forall|i: int| 0 <= i < found@.len() ==> is_well_formed((#[trigger] found@[i])@)
        },
{
    let convert = |image: xcursor::parser::Image| Image {
        size: image.size,
        width: image.width,
        height: image.height,
        xhot: image.xhot,
        yhot: image.yhot,
        delay: image.delay,
        pixels_rgba: image.pixels_rgba,
        pixels_argb: image.pixels_argb,
    };
    let images = xcursor::parser::parse_xcursor(content);
    images.map(|found| found.into_iter().map(convert).collect())
}

/// Why a shape could not be loaded.
#[derive(Debug, Clone, Copy, PartialEq, Eq, Structural)]
pub enum Error {
    /// The theme has no such cursor.
    NoDefaultCursor,
    /// The file could not be read.
    File,
    /// The file is not a cursor file.
    Parse,
}

/// The file that the theme has for a shape.
pub enum IconFile {
    Missing,
    Unreadable,
    Read(Vec<u8>),
}

/// What the file of a shape comes to.
pub open spec fn loaded_icon(file: IconFile) -> Result<Seq<ImageView>, Error> {
    match file {
        IconFile::Missing => Err(Error::NoDefaultCursor),
        IconFile::Unreadable => Err(Error::File),
        IconFile::Read(content) => match xcursor_images(content@) {
            Some(images) => Ok(images),
            None => Err(Error::Parse),
        },
    }
}

/// What a parsed cursor file comes to.
pub fn icon_from(parsed: Option<Vec<Image>>) -> (icon: Result<Vec<Image>, Error>)
    ensures
        icon == match parsed {
            Some(images) => Ok::<Vec<Image>, Error>(images),
            None => Err::<Vec<Image>, Error>(Error::Parse),
        },
{
    match parsed {
        Some(images) => Ok(images),
        None => Err(Error::Parse),
    }
}

/// Loads a shape from its file.
pub fn load_icon(file: &IconFile) -> (icon: Result<Vec<Image>, Error>)
    ensures
        match icon {
            Ok(images) => {
                &&& loaded_icon(*file) == Ok::<Seq<ImageView>, Error>(images_view(images@))
                &&& forall|i: int| 0 <= i < images@.len() ==> is_well_formed((#[trigger] images@[i])@)
            },
            Err(error) => loaded_icon(*file) == Err::<Seq<ImageView>, Error>(error),
        },
{
    match file {
        IconFile::Missing => Err(Error::NoDefaultCursor),
        IconFile::Unreadable => Err(Error::File),
        IconFile::Read(content) => icon_from(parse_xcursor(content)),
    }
}

/// Number of shapes that are loaded at startup.
pub const SHAPES: usize = 9;

/// The shapes that are loaded at startup. The first one is the fallback for shapes that are not
/// loaded; the others are for the edges of windows.
pub open spec fn shape_names() -> Seq<Seq<char>> {
    seq![
        "default"@,
        "w-resize"@,
        "e-resize"@,
        "n-resize"@,
        "s-resize"@,
        "nw-resize"@,
        "ne-resize"@,
        "sw-resize"@,
        "se-resize"@,
    ]
}

/// Gives the name of a shape that is loaded at startup.
pub fn shape_name(shape: usize) -> (name: &'static str)
    requires
        shape < SHAPES,
    ensures
        name@ == shape_names()[shape as int],
{
    match shape {
        0 => "default",
        1 => "w-resize",
        2 => "e-resize",
        3 => "n-resize",
        4 => "s-resize",
        5 => "nw-resize",
        6 => "ne-resize",
        7 => "sw-resize",
        _ => "se-resize",
    }
}

/// The test for a name.
pub open spec fn is_named(name: Seq<char>) -> spec_fn(Seq<char>) -> bool {
    |own: Seq<char>| own == name
}

/// The shape of a name.
pub open spec fn shape_of(name: Seq<char>) -> Option<int> {
    first_where(shape_names(), is_named(name))
}

fn find_shape(name: &str) -> (shape: Option<usize>)
    ensures
        shape is Some <==> shape_of(name@) is Some,
        shape matches Some(i) ==> shape_of(name@) == Some(i as int) && i < SHAPES,
{
    let ghost test = is_named(name@);
    let mut i: usize = 0;
    while i < SHAPES
        invariant
            i <= SHAPES,
            test == is_named(name@),
            shape_of(name@) == first_from(shape_names(), test, i as int),
        decreases SHAPES - i,
    {
        if same(shape_name(i), name) {
            return Some(i);
        }
        i = i + 1;
    }
    None
}

/// Cursor size where none is configured.
pub const DEFAULT_SIZE: u32 = 24;

/// The cursor size that a setting asks for: a decimal number, or else the default.
pub open spec fn configured_size(setting: Option<Seq<char>>) -> int {
    match setting {
        Some(text) => match unsigned_value(encode_utf8(text), 10, u32::MAX as int) {
            Some(size) => size,
            None => DEFAULT_SIZE as int,
        },
        None => DEFAULT_SIZE as int,
    }
}

/// The image that stands in for a missing default cursor.
pub open spec fn fallback_image(pixels: Seq<u8>) -> ImageView {
    ImageView {
        size: 32,
        width: 64,
        height: 64,
        xhot: 1,
        yhot: 1,
        delay: 1,
        pixels_rgba: pixels,
        pixels_argb: Seq::empty(),
    }
}

/// A cursor theme.
pub struct Cursor {
    /// The images of each shape, as far as the theme has them.
    pub icons: Vec<Option<Vec<Image>>>,
    pub size: u32,
}

impl Cursor {
    /// There is a place for each shape, and the default cursor is there.
    pub open spec fn well_formed(self) -> bool {
        &&& self.icons@.len() == SHAPES
        &&& self.icons@[0] is Some
    }

    /// The images for a shape: its own, or else those of the default cursor.
    pub open spec fn images_for(self, shape: Seq<char>) -> Seq<Image> {
        match shape_of(shape) {
            Some(i) => match self.icons@[i] {
                Some(images) => images@,
                None => self.icons@[0]->0@,
            },
            None => self.icons@[0]->0@,
        }
    }

    /// Loads a cursor theme.
    ///
    /// `size` is the setting for the cursor size, `files` are the files that the theme has for the
    /// shapes, `fallback_pixels` the pixels of the image for a missing default cursor.
    pub fn load(size: Option<&str>, files: &Vec<IconFile>, fallback_pixels: Vec<u8>) -> (cursor:
        Cursor)
        requires
            files@.len() == SHAPES,
        ensures
            cursor.well_formed(),
            cursor.size == configured_size(
                match size {
                    Some(text) => Some(text@),
                    None => None,
                },
            ),
            forall|i: int|
                #![trigger cursor.icons@[i]]
                0 <= i < SHAPES ==> match (cursor.icons@[i], loaded_icon(files@[i])) {
                    (Some(images), Ok(found)) => images_view(images@) == found,
                    (Some(images), Err(_)) => i == 0 && images_view(images@) == seq![
                        fallback_image(fallback_pixels@),
                    ],
                    (None, found) => i != 0 && found is Err,
                },
    {
        let size: u32 = match size {
            Some(text) => match parse_unsigned(text.as_bytes(), 10, u32::MAX) {
                Some(size) => size,
                None => DEFAULT_SIZE,
            },
            None => DEFAULT_SIZE,
        };
        let mut icons: Vec<Option<Vec<Image>>> = Vec::new();
        let mut i: usize = 0;
        while i < SHAPES
            invariant
                i <= SHAPES,
                files@.len() == SHAPES,
                icons@.len() == i,
                forall|j: int|
                    #![trigger icons@[j]]
                    0 <= j < i ==> match (icons@[j], loaded_icon(files@[j])) {
                        (Some(images), Ok(found)) => images_view(images@) == found,
                        (Some(_), Err(_)) => false,
                        (None, found) => found is Err,
                    },
            decreases SHAPES - i,
        {
            match load_icon(&files[i]) {
                Ok(images) => {
                    icons.push(Some(images));
                },
                Err(_) => {
                    icons.push(None);
                },
            }
            i = i + 1;
        }
        if icons[0].is_none() {
            let fallback = Image {
                size: 32,
                width: 64,
                height: 64,
                xhot: 1,
                yhot: 1,
                delay: 1,
                pixels_rgba: fallback_pixels,
                pixels_argb: Vec::new(),
            };
            assert(fallback@ == fallback_image(fallback_pixels@));
            let mut images: Vec<Image> = Vec::new();
            images.push(fallback);
            assert(images_view(images@) =~= seq![fallback_image(fallback_pixels@)]);
            icons.set(0, Some(images));
        }
        Cursor { icons, size }
    }

    /// The frame of a shape can be told: the size in pixels can be written, and so can the times
    /// and sizes of the images.
    pub open spec fn can_show(self, shape: Seq<char>, scale: u32) -> bool {
        let images = self.images_for(shape);
        &&& self.size * scale <= u32::MAX
        &&& can_be_framed(images, (self.size * scale) as u32)
    }

    /// Gives the frame of the default cursor.
    pub fn get_image(&self, scale: u32, millis: u128) -> (image: Image)
        requires
            self.well_formed(),
            self.can_show("default"@, scale),
        ensures
            image@ == frame_of(
                self.images_for("default"@),
                (self.size * scale) as u32,
                millis % 0x1_0000_0000,
            )@,
    {
        self.get_image_for("default", scale, millis)
    }

    /// Gives the frame of a shape at a scale, after some milliseconds. Shapes that are not loaded
    /// look like the default cursor. Times wrap around after 2^32 milliseconds.
    pub fn get_image_for(&self, shape: &str, scale: u32, millis: u128) -> (image: Image)
        requires
            self.well_formed(),
            self.can_show(shape@, scale),
        ensures
            image@ == frame_of(
                self.images_for(shape@),
                (self.size * scale) as u32,
                millis % 0x1_0000_0000,
            )@,
    {
        let size: u32 = self.size * scale;
        let wrapped: u32 = (millis % 0x1_0000_0000) as u32;
        if let Some(i) = find_shape(shape) {
            if let Some(images) = &self.icons[i] {
                return frame(wrapped, size, images);
            }
        }
        let images = self.icons[0].as_ref().unwrap();
        frame(wrapped, size, images)
    }
}

/// How far the nominal size of an image is from a size.
pub open spec fn distance(size: u32, image: Image) -> int {
    let difference = wrapped_i32(size) - wrapped_i32(image.size);
    if difference < 0 {
        -difference
    } else {
        difference
    }
}

/// The first of the `count` first images whose nominal size is nearest to a size.
pub open spec fn nearest_of(images: Seq<Image>, size: u32, count: int) -> int
    decreases count,
{
    if count <= 1 {
        0
    } else {
        let best = nearest_of(images, size, count - 1);
        if distance(size, images[count - 1]) < distance(size, images[best]) {
            count - 1
        } else {
            best
        }
    }
}

/// The first of the images whose nominal size is nearest to a size.
pub open spec fn nearest(images: Seq<Image>, size: u32) -> int {
    nearest_of(images, size, images.len() as int)
}

/// The places of the images with a width and a height, in order.
pub open spec fn places_with(images: Seq<Image>, width: u32, height: u32) -> Seq<int>
    decreases images.len(),
{
    if images.len() == 0 {
        seq![]
    } else {
        let before = places_with(images.drop_last(), width, height);
        if images.last().width == width && images.last().height == height {
            before.push(images.len() - 1)
        } else {
            before
        }
    }
}

/// The frames for a size: the images that are as wide and as high as the nearest one.
pub open spec fn frames(images: Seq<Image>, size: u32) -> Seq<int> {
    let model = images[nearest(images, size)];
    places_with(images, model.width, model.height)
}

/// Milliseconds that the images at some places take together.
pub open spec fn duration(images: Seq<Image>, places: Seq<int>) -> int
    decreases places.len(),
{
    if places.len() == 0 {
        0
    } else {
        duration(images, places.drop_last()) + images[places.last()].delay
    }
}

/// The place of the frame that is shown after some milliseconds of the animation.
pub open spec fn shown_at(images: Seq<Image>, places: Seq<int>, millis: int) -> int
    decreases places.len(),
{
    if places.len() == 0 {
        0
    } else if millis < images[places[0]].delay {
        places[0]
    } else {
        shown_at(images, places.skip(1), millis - images[places[0]].delay)
    }
}

/// The image of a cursor for a size at a time: its frames follow each other, each one for its
/// delay, over and over. A cursor without delays shows its first frame.
pub open spec fn frame_of(images: Seq<Image>, size: u32, millis: u128) -> Image {
    let places = frames(images, size);
    let total = duration(images, places);
    if total == 0 {
        images[places[0]]
    } else {
        images[shown_at(images, places, millis as int % total)]
    }
}

/// A frame can be told: there is an image, distances to the size can be written, and so can the
/// length of the animation.
pub open spec fn can_be_framed(images: Seq<Image>, size: u32) -> bool {
    &&& images.len() > 0
    &&& forall|i: int| 0 <= i < images.len() ==> distance(size, #[trigger] images[i]) <= i32::MAX
    &&& duration(images, frames(images, size)) <= u32::MAX
}

proof fn places_are_sound(images: Seq<Image>, width: u32, height: u32)
    ensures
        forall|k: int|
            0 <= k < places_with(images, width, height).len() ==> {
                let place = #[trigger] places_with(images, width, height)[k];
                0 <= place < images.len() && images[place].width == width && images[place].height
                    == height
            },
    decreases images.len(),
{
    if images.len() > 0 {
        let shorter = images.drop_last();
        places_are_sound(shorter, width, height);
        let before = places_with(shorter, width, height);
        assert forall|k: int| 0 <= k < before.len() implies {
            let place = #[trigger] before[k];
            0 <= place < images.len() && images[place].width == width && images[place].height
                == height
        } by {
            assert(shorter[before[k]] == images[before[k]]);
        }
    }
}

proof fn places_are_complete(images: Seq<Image>, width: u32, height: u32, i: int)
    requires
        0 <= i < images.len(),
        images[i].width == width,
        images[i].height == height,
    ensures
        places_with(images, width, height).contains(i),
    decreases images.len(),
{
    let places = places_with(images, width, height);
    if i == images.len() - 1 {
        assert(places.last() == i);
    } else {
        let shorter = images.drop_last();
        places_are_complete(shorter, width, height, i);
        let before = places_with(shorter, width, height);
        let k = before.index_of(i);
        assert(places[k] == i);
    }
}

proof fn durations_are_not_negative(images: Seq<Image>, places: Seq<int>)
    ensures
        duration(images, places) >= 0,
    decreases places.len(),
{
    if places.len() > 0 {
        durations_are_not_negative(images, places.drop_last());
    }
}

proof fn durations_grow(images: Seq<Image>, places: Seq<int>, count: int)
    requires
        0 <= count <= places.len(),
    ensures
        0 <= duration(images, places.take(count)) <= duration(images, places),
    decreases places.len() - count,
{
    durations_are_not_negative(images, places.take(count));
    if count == places.len() {
        assert(places.take(count) =~= places);
    } else {
        durations_grow(images, places, count + 1);
        assert(places.take(count + 1).drop_last() =~= places.take(count));
    }
}

/// Finds the places of the frames for a size.
pub fn nearest_images(size: u32, images: &Vec<Image>) -> (places: Vec<usize>)
    requires
        images@.len() > 0,
        forall|i: int| 0 <= i < images@.len() ==> distance(size, #[trigger] images@[i]) <= i32::MAX,
    ensures
        places@.map_values(|place: usize| place as int) == frames(images@, size),
        places@.len() > 0,
        forall|k: int| 0 <= k < places@.len() ==> #[trigger] places@[k] < images@.len(),
        forall|k: int| #![trigger places@[k]]
            0 <= k < places@.len() ==> exists|m: int|
                0 <= m < images@.len() && (#[trigger] images@[m]).width
                    == images@[places@[k] as int].width && images@[m].height
                    == images@[places@[k] as int].height && (forall|i: int|
                    0 <= i < images@.len() ==> distance(size, images@[m]) <= distance(
                        size,
                        #[trigger] images@[i],
                    )),
{
    let target: i64 = cast_i32(size) as i64;
    let mut best: usize = 0;
    let mut best_distance: i64 = away(target, images[0].size);
    let mut i: usize = 1;
    while i < images.len()
        invariant
            1 <= i <= images@.len(),
            target == wrapped_i32(size),
            best < i,
            best == nearest_of(images@, size, i as int),
            best_distance == distance(size, images@[best as int]),
        decreases images.len() - i,
    {
        let own: i64 = away(target, images[i].size);
        if own < best_distance {
            best = i;
            best_distance = own;
        }
        i = i + 1;
    }
    let width: u32 = images[best].width;
    let height: u32 = images[best].height;
    let mut places: Vec<usize> = Vec::new();
    let mut k: usize = 0;
    assert(places@.map_values(|place: usize| place as int) =~= places_with(
        images@.take(0),
        width,
        height,
    ));
    while k < images.len()
        invariant
            k <= images@.len(),
            places@.map_values(|place: usize| place as int) == places_with(
                images@.take(k as int),
                width,
                height,
            ),
            forall|j: int| 0 <= j < places@.len() ==> #[trigger] places@[j] < k,
        decreases images.len() - k,
    {
        assert(images@.take(k + 1).drop_last() =~= images@.take(k as int));
        if images[k].width == width && images[k].height == height {
            places.push(k);
        }
        k = k + 1;
        assert(places@.map_values(|place: usize| place as int) =~= places_with(
            images@.take(k as int),
            width,
            height,
        ));
    }
    assert(images@.take(k as int) =~= images@);
    proof {
        places_are_complete(images@, width, height, best as int);
        let shown = places@.map_values(|place: usize| place as int);
        assert(shown.len() == places@.len());
        assert forall|k: int| #![trigger places@[k]] 0 <= k < places@.len() implies exists|m: int|
            0 <= m < images@.len() && (#[trigger] images@[m]).width
                == images@[places@[k] as int].width && images@[m].height
                == images@[places@[k] as int].height && (forall|i: int|
                0 <= i < images@.len() ==> distance(size, images@[m]) <= distance(
                    size,
                    #[trigger] images@[i],
                )) by {
            assert(shown[k] == places@[k]);
            frames_are_nearest(images@, size, k);
        }
    }
    places
}

fn away(target: i64, size: u32) -> (far: i64)
    requires
        in_i32(target as int),
    ensures
        far == if target < wrapped_i32(size) {
            wrapped_i32(size) - target
        } else {
            target - wrapped_i32(size)
        },
{
    let own: i64 = cast_i32(size) as i64;
    if target < own {
        own - target
    } else {
        target - own
    }
}

/// Gives the frame for a size after some milliseconds.
pub fn frame(millis: u32, size: u32, images: &Vec<Image>) -> (image: Image)
    requires
        can_be_framed(images@, size),
    ensures
        image@ == frame_of(images@, size, millis as u128)@,
{
    let places = nearest_images(size, images);
    let ghost shown = frames(images@, size);
    assert(shown.len() == places@.len());
    assert(forall|k: int| 0 <= k < shown.len() ==> shown[k] == #[trigger] places@[k]);
    let mut total: u32 = 0;
    let mut i: usize = 0;
    assert(shown.take(0) =~= Seq::<int>::empty());
    while i < places.len()
        invariant
            i <= places@.len(),
            shown == frames(images@, size),
            shown.len() == places@.len(),
            forall|k: int| 0 <= k < shown.len() ==> shown[k] == #[trigger] places@[k],
            forall|k: int| 0 <= k < places@.len() ==> #[trigger] places@[k] < images@.len(),
            duration(images@, shown) <= u32::MAX,
            total == duration(images@, shown.take(i as int)),
        decreases places.len() - i,
    {
        proof {
            assert(shown.take(i + 1).drop_last() =~= shown.take(i as int));
            durations_grow(images@, shown, i + 1);
        }
        total = total + images[places[i]].delay;
        i = i + 1;
    }
    assert(shown.take(i as int) =~= shown);
    if total == 0 {
        return images[places[0]].copy();
    }
    let mut left: u32 = millis % total;
    let mut k: usize = 0;
    assert(shown.skip(0) =~= shown);
    while k < places.len()
        invariant
            k <= places@.len(),
            shown.len() == places@.len(),
            shown == frames(images@, size),
            forall|j: int| 0 <= j < shown.len() ==> shown[j] == #[trigger] places@[j],
            forall|j: int| 0 <= j < places@.len() ==> #[trigger] places@[j] < images@.len(),
            total == duration(images@, shown),
            total > 0,
            left + duration(images@, shown.take(k as int)) == millis % total,
            shown_at(images@, shown, millis as int % total as int) == shown_at(
                images@,
                shown.skip(k as int),
                left as int,
            ),
        decreases places.len() - k,
    {
        let image = &images[places[k]];
        if left < image.delay {
            return image.copy();
        }
        assert(shown.skip(k as int).skip(1) =~= shown.skip(k + 1));
        assert(shown.take(k + 1).drop_last() =~= shown.take(k as int));
        left = left - image.delay;
        k = k + 1;
    }
    // The delays add up to the total, so one of the frames was shown.
    assert(shown.take(k as int) =~= shown);
    images[0].copy()
}

/// A cursor for X11, which counts in 16 bits.
pub struct X11Cursor {
    pub pixels_rgba: Vec<u8>,
    pub width: u16,
    pub height: u16,
    pub xhot: u16,
    pub yhot: u16,
}

fn low_bits(value: u32) -> (low: u16)
    ensures
        low == value % 0x1_0000,
{
    assert((value as u16) as u32 == value % 0x1_0000) by (bit_vector);
    value as u16
}

/// Makes the cursor for X11 of an image. Sizes and hotspots keep their lower 16 bits.
pub fn x11_cursor(image: Image) -> (cursor: X11Cursor)
    ensures
        cursor.pixels_rgba == image.pixels_rgba,
        cursor.width == image.width % 0x1_0000,
        cursor.height == image.height % 0x1_0000,
        cursor.xhot == image.xhot % 0x1_0000,
        cursor.yhot == image.yhot % 0x1_0000,
{
    X11Cursor {
        width: low_bits(image.width),
        height: low_bits(image.height),
        xhot: low_bits(image.xhot),
        yhot: low_bits(image.yhot),
        pixels_rgba: image.pixels_rgba,
    }
}

/// No image has a nominal size that is nearer than the nearest, and none before it is as near.
pub proof fn nearest_images_are_nearest(images: Seq<Image>, size: u32, count: int, i: int)
    requires
        1 <= count <= images.len(),
        0 <= i < count,
    ensures
        0 <= nearest_of(images, size, count) < count,
        distance(size, images[nearest_of(images, size, count)]) <= distance(size, images[i]),
        i < nearest_of(images, size, count) ==> distance(
            size,
            images[nearest_of(images, size, count)],
        ) < distance(size, images[i]),
    decreases count,
{
    if count > 1 {
        if i < count - 1 {
            nearest_images_are_nearest(images, size, count - 1, i);
        } else {
            nearest_images_are_nearest(images, size, count - 1, 0);
        }
    }
}

/// Animations repeat: a cursor looks the same again after its frames were all shown.
pub proof fn animations_repeat(images: Seq<Image>, size: u32, millis: u128, later: u128)
    requires
        later == millis + duration(images, frames(images, size)),
    ensures
        frame_of(images, size, later) == frame_of(images, size, millis),
{
    let total = duration(images, frames(images, size));
    durations_are_not_negative(images, frames(images, size));
    if total > 0 {
        vstd::arithmetic::div_mod::lemma_mod_add_multiples_vanish(millis as int, total);
        assert((total + millis as int) % total == millis as int % total);
    }
}

/// Each frame is shown for its delay, after the delays of the frames before it.
pub proof fn frames_follow_each_other(images: Seq<Image>, places: Seq<int>, k: int, millis: int)
    requires
        0 <= k < places.len(),
        duration(images, places.take(k)) <= millis < duration(images, places.take(k))
            + images[places[k]].delay,
    ensures
        shown_at(images, places, millis) == places[k],
    decreases k,
{
    if k == 0 {
        assert(places.take(0) =~= Seq::<int>::empty());
    } else {
        let rest = places.skip(1);
        first_delay_comes_off(images, places, k);
        durations_are_not_negative(images, rest.take(k - 1));
        assert(rest[k - 1] == places[k]);
        frames_follow_each_other(images, rest, k - 1, millis - images[places[0]].delay);
    }
}

proof fn first_delay_comes_off(images: Seq<Image>, places: Seq<int>, k: int)
    requires
        1 <= k <= places.len(),
    ensures
        duration(images, places.take(k)) == images[places[0]].delay + duration(
            images,
            places.skip(1).take(k - 1),
        ),
    decreases k,
{
    let rest = places.skip(1);
    assert(places.take(k).drop_last() =~= places.take(k - 1));
    if k == 1 {
        assert(places.take(0) =~= Seq::<int>::empty());
        assert(rest.take(0) =~= Seq::<int>::empty());
    } else {
        first_delay_comes_off(images, places, k - 1);
        assert(rest.take(k - 1).drop_last() =~= rest.take(k - 2));
        assert(rest.take(k - 1).last() == places.take(k).last());
    }
}

/// All frames of an animation have the same width and height.
pub proof fn frames_have_one_size(images: Seq<Image>, size: u32, k: int, l: int)
    requires
        0 <= k < frames(images, size).len(),
        0 <= l < frames(images, size).len(),
    ensures
        images[frames(images, size)[k]].width == images[frames(images, size)[l]].width,
        images[frames(images, size)[k]].height == images[frames(images, size)[l]].height,
{
    let model = images[nearest(images, size)];
    places_are_sound(images, model.width, model.height);
}

/// Every shape that is loaded at startup is found under its own name.
pub proof fn shapes_have_their_own_names(i: int)
    requires
        0 <= i < SHAPES,
    ensures
        shape_of(shape_names()[i]) == Some(i),
{
    reveal_strlit("default");
    reveal_strlit("w-resize");
    reveal_strlit("e-resize");
    reveal_strlit("n-resize");
    reveal_strlit("s-resize");
    reveal_strlit("nw-resize");
    reveal_strlit("ne-resize");
    reveal_strlit("sw-resize");
    reveal_strlit("se-resize");
    let name = shape_names()[i];
    first_passes(shape_names(), is_named(name), 0);
    let found = shape_of(name)->0;
    assert(shape_names()[found].len() == name.len());
    assert(shape_names()[found][0] == name[0]);
    assert(shape_names()[found][1] == name[1]);
}

/// A shape that is not loaded at startup, or that the theme does not have, looks like the default
/// cursor.
pub proof fn unknown_shapes_fall_back(cursor: Cursor, shape: Seq<char>)
    requires
        cursor.well_formed(),
        shape_of(shape) matches Some(i) ==> cursor.icons@[i] is None,
    ensures
        cursor.images_for(shape) == cursor.images_for("default"@),
{
    shapes_have_their_own_names(0);
}

/// Images from cursor files keep their size and hotspot as cursors for X11.
pub proof fn cursor_files_fit_x11(image: ImageView)
    requires
        is_well_formed(image),
    ensures
        image.width % 0x1_0000 == image.width,
        image.height % 0x1_0000 == image.height,
        image.xhot % 0x1_0000 == image.xhot,
        image.yhot % 0x1_0000 == image.yhot,
{
}

/// The distance to an image is by how much its nominal size differs from the size, either way.
pub proof fn distances_are_differences(size: u32, image: Image)
    requires
        size <= i32::MAX,
        image.size <= i32::MAX,
    ensures
        image.size >= size ==> distance(size, image) == image.size - size,
        image.size <= size ==> distance(size, image) == size - image.size,
{
}

/// The frames for a size are as wide and as high as an image that no image of the whole list is
/// nearer than, and that none before it is as near as.
pub proof fn frames_are_nearest(images: Seq<Image>, size: u32, k: int)
    requires
        0 <= k < frames(images, size).len(),
    ensures
        0 <= frames(images, size)[k] < images.len(),
        exists|m: int|
            0 <= m < images.len() && (#[trigger] images[m]).width == images[frames(
                images,
                size,
            )[k]].width && images[m].height == images[frames(images, size)[k]].height && (forall|
                i: int,
            |
                0 <= i < images.len() ==> distance(size, images[m]) <= distance(
                    size,
                    #[trigger] images[i],
                )) && (forall|i: int|
                0 <= i < m ==> distance(size, images[m]) < distance(size, #[trigger] images[i])),
{
    let model = nearest(images, size);
    let width = images[model].width;
    let height = images[model].height;
    places_are_sound(images, width, height);
    assert(images.len() > 0);
    nearest_images_are_nearest(images, size, images.len() as int, 0);
    assert forall|i: int| 0 <= i < images.len() implies distance(size, images[model]) <= distance(
        size,
        #[trigger] images[i],
    ) by {
        nearest_images_are_nearest(images, size, images.len() as int, i);
    }
    assert forall|i: int| 0 <= i < model implies distance(size, images[model]) < distance(
        size,
        #[trigger] images[i],
    ) by {
        nearest_images_are_nearest(images, size, images.len() as int, i);
    }
}

/// No image of a cursor file has a nominal size nearer to the size than the one that the frames are
/// like, told in numbers: none is closer from above, none from below.
pub proof fn frames_are_nearest_in_size(images: Seq<Image>, size: u32, k: int)
    requires
        0 <= k < frames(images, size).len(),
        size <= i32::MAX,
        forall|i: int| 0 <= i < images.len() ==> (#[trigger] images[i]).size <= i32::MAX,
    ensures
        exists|m: int|
            0 <= m < images.len() && (#[trigger] images[m]).width == images[frames(
                images,
                size,
            )[k]].width && images[m].height == images[frames(images, size)[k]].height && (forall|
                i: int,
            |
                0 <= i < images.len() ==> {
                    let own = (#[trigger] images[i]).size;
                    &&& own >= size ==> size - (own - size) <= images[m].size <= own
                    &&& own <= size ==> own <= images[m].size <= size + (size - own)
                }),
{
    frames_are_nearest(images, size, k);
}

proof fn places_grow(images: Seq<Image>, width: u32, height: u32)
    ensures
        forall|k: int, l: int|
            0 <= k < l < places_with(images, width, height).len() ==> #[trigger] places_with(
                images,
                width,
                height,
            )[k] < #[trigger] places_with(images, width, height)[l],
    decreases images.len(),
{
    if images.len() > 0 {
        let places = places_with(images, width, height);
        let before = places_with(images.drop_last(), width, height);
        places_grow(images.drop_last(), width, height);
        places_are_sound(images.drop_last(), width, height);
        assert forall|k: int, l: int| 0 <= k < l < places.len() implies #[trigger] places[k]
            < #[trigger] places[l] by {
            assert(places[k] == before[k]);
            if l < before.len() {
                assert(places[l] == before[l]);
            }
        }
    }
}

/// The frames are in the order of the images, each one once, and no image that is as wide and as high
/// as one of them is left out.
pub proof fn frames_are_complete(images: Seq<Image>, size: u32, k: int, l: int, i: int)
    requires
        0 <= k < frames(images, size).len(),
        0 <= i < images.len(),
        images[i].width == images[frames(images, size)[k]].width,
        images[i].height == images[frames(images, size)[k]].height,
    ensures
        k < l < frames(images, size).len() ==> frames(images, size)[k] < frames(images, size)[l],
        frames(images, size).contains(i),
{
    let model = images[nearest(images, size)];
    places_grow(images, model.width, model.height);
    places_are_sound(images, model.width, model.height);
    places_are_complete(images, model.width, model.height, i);
}

/// Every image list has a frame for every size; one of the frames is shown at every time, and
/// without delays it is the first one.
pub proof fn some_frame_is_shown(images: Seq<Image>, size: u32, millis: u128)
    requires
        images.len() > 0,
    ensures
        frames(images, size).len() > 0,
        exists|k: int|
            0 <= k < frames(images, size).len() && frame_of(images, size, millis)
                == images[#[trigger] frames(images, size)[k]],
        (forall|k: int|
            0 <= k < frames(images, size).len() ==> images[#[trigger] frames(images, size)[k]].delay
                == 0) ==> frame_of(images, size, millis) == images[frames(images, size)[0]],
{
    let places = frames(images, size);
    let model = nearest(images, size);
    nearest_images_are_nearest(images, size, images.len() as int, 0);
    places_are_complete(images, images[model].width, images[model].height, model);
    let total = duration(images, places);
    durations_are_not_negative(images, places);
    if total > 0 {
        some_place_is_shown(images, places, millis as int % total);
    } else {
        assert(frame_of(images, size, millis) == images[places[0]]);
    }
    if forall|k: int| 0 <= k < places.len() ==> images[#[trigger] places[k]].delay == 0 {
        no_delays_take_no_time(images, places);
    }
}

proof fn some_place_is_shown(images: Seq<Image>, places: Seq<int>, millis: int)
    requires
        0 <= millis < duration(images, places),
    ensures
        exists|k: int| 0 <= k < places.len() && #[trigger] places[k] == shown_at(images, places, millis),
    decreases places.len(),
{
    if millis < images[places[0]].delay {
        assert(places[0] == shown_at(images, places, millis));
    } else {
        let rest = places.skip(1);
        first_delay_comes_off(images, places, places.len() as int);
        assert(places.take(places.len() as int) =~= places);
        assert(rest.take(places.len() - 1) =~= rest);
        some_place_is_shown(images, rest, millis - images[places[0]].delay);
        let k = choose|k: int|
            0 <= k < rest.len() && #[trigger] rest[k] == shown_at(
                images,
                rest,
                millis - images[places[0]].delay,
            );
        assert(places[k + 1] == rest[k]);
    }
}

proof fn no_delays_take_no_time(images: Seq<Image>, places: Seq<int>)
    requires
        forall|k: int| 0 <= k < places.len() ==> images[#[trigger] places[k]].delay == 0,
    ensures
        duration(images, places) == 0,
    decreases places.len(),
{
    if places.len() > 0 {
        let shorter = places.drop_last();
        assert forall|k: int| 0 <= k < shorter.len() implies images[#[trigger] shorter[k]].delay
            == 0 by {
            assert(shorter[k] == places[k]);
        }
        no_delays_take_no_time(images, shorter);
        assert(images[places[places.len() - 1]].delay == 0);
    }
}

/// A frame is shown from the moment when the delays of the frames before it have passed until its own
/// delay has passed too, in every round of the animation.
pub proof fn frames_are_shown_in_turn(
    images: Seq<Image>,
    size: u32,
    k: int,
    round: int,
    millis: u128,
)
    requires
        0 <= k < frames(images, size).len(),
        round >= 0,
        ({
            let places = frames(images, size);
            let start = round * duration(images, places) + duration(images, places.take(k));
            start <= millis < start + images[places[k]].delay
        }),
    ensures
        frame_of(images, size, millis) == images[frames(images, size)[k]],
{
    let places = frames(images, size);
    let total = duration(images, places);
    let before = duration(images, places.take(k));
    durations_grow(images, places, k + 1);
    durations_are_not_negative(images, places.take(k));
    assert(places.take(k + 1).drop_last() =~= places.take(k));
    let rest = millis - round * total;
    vstd::arithmetic::div_mod::lemma_fundamental_div_mod_converse(millis as int, total, round, rest);
    frames_follow_each_other(images, places, k, rest);
}

/// The delays of some frames add up: those of two groups take as long as one after the other, and
/// one frame takes its delay.
pub proof fn delays_add_up(images: Seq<Image>, first: Seq<int>, second: Seq<int>, place: int)
    ensures
        duration(images, first + second) == duration(images, first) + duration(images, second),
        duration(images, seq![place]) == images[place].delay,
        duration(images, Seq::<int>::empty()) == 0,
    decreases second.len(),
{
    reveal_with_fuel(duration, 2);
    assert(seq![place].drop_last() =~= Seq::<int>::empty());
    if second.len() == 0 {
        assert(first + second =~= first);
    } else {
        assert((first + second).drop_last() =~= first + second.drop_last());
        delays_add_up(images, first, second.drop_last(), place);
    }
}

/// A shape that the theme has looks like itself: the images at the place of its name are its images.
pub proof fn loaded_shapes_look_like_themselves(cursor: Cursor, i: int)
    requires
        cursor.well_formed(),
        0 <= i < SHAPES,
        cursor.icons@[i] is Some,
    ensures
        cursor.images_for(shape_names()[i]) == cursor.icons@[i]->0@,
{
    shapes_have_their_own_names(i);
}

/// A setting that is a decimal number is the cursor size; without a setting, or with one that is no
/// number of that range, the size is 24.
pub proof fn sizes_are_decimal_numbers(size: u32, text: Seq<char>)
    ensures
        configured_size(Some(crate::text::numeral(size as nat))) == size,
        configured_size(None) == 24,
        unsigned_value(encode_utf8(text), 10, u32::MAX as int) is None ==> configured_size(Some(text))
            == 24,
{
    crate::text::numbers_are_read_back(size as nat, u32::MAX as int);
}

/// A shape is loaded if and only if its file could be read as a cursor file, and with the images of
/// that file. What went wrong otherwise is told apart.
pub proof fn icons_are_what_their_files_hold(content: Vec<u8>)
    ensures
        loaded_icon(IconFile::Missing) == Err::<Seq<ImageView>, Error>(Error::NoDefaultCursor),
        loaded_icon(IconFile::Unreadable) == Err::<Seq<ImageView>, Error>(Error::File),
        xcursor_images(content@) matches Some(images) ==> loaded_icon(IconFile::Read(content)) == Ok::<
            Seq<ImageView>,
            Error,
        >(images),
        xcursor_images(content@) is None ==> loaded_icon(IconFile::Read(content)) == Err::<
            Seq<ImageView>,
            Error,
        >(Error::Parse),
{
}

} // verus!
