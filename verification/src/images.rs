//! Bitmap assets for the panels.
//!
//! An image is a byte blob with an eight-byte header: width and height as
//! little-endian 32-bit values, followed by the raw RGB565 big-endian pixel
//! bytes. The digit and menu picture sets group images for the drawing code.

use vstd::prelude::*;
use crate::state::MenuOption;

verus! {

/// A little-endian 32-bit value read from four bytes.
pub open spec fn le32(b0: u8, b1: u8, b2: u8, b3: u8) -> u32 {
    (b0 + b1 * 0x100 + b2 * 0x10000 + b3 * 0x1000000) as u32
}

/// One image blob: an eight-byte header, then the pixel bytes.
pub struct Image {
    data: Vec<u8>,
}

impl Image {
    /// The blob is long enough to hold the header.
    pub closed spec fn wf(&self) -> bool {
        self.data@.len() >= 8
    }

    /// The raw blob.
    pub closed spec fn spec_data(&self) -> Seq<u8> {
        self.data@
    }

    /// The width recorded in the header.
    pub open spec fn spec_width(&self) -> u32
        recommends
            self.wf(),
    {
        le32(self.spec_data()[0], self.spec_data()[1], self.spec_data()[2], self.spec_data()[3])
    }

    /// The height recorded in the header.
    pub open spec fn spec_height(&self) -> u32
        recommends
            self.wf(),
    {
        le32(self.spec_data()[4], self.spec_data()[5], self.spec_data()[6], self.spec_data()[7])
    }

    /// The pixel bytes after the header.
    pub open spec fn spec_pixels(&self) -> Seq<u8>
        recommends
            self.wf(),
    {
        self.spec_data().skip(8)
    }

    pub fn width(&self) -> (w: u32)
        requires
            self.wf(),
        ensures
            w == self.spec_width(),
    {
        let b0 = self.data[0] as u32;
        let b1 = self.data[1] as u32;
        let b2 = self.data[2] as u32;
        let b3 = self.data[3] as u32;
        b0 + b1 * 0x100 + b2 * 0x10000 + b3 * 0x1000000
    }

    pub fn height(&self) -> (h: u32)
        requires
            self.wf(),
        ensures
            h == self.spec_height(),
    {
        let b0 = self.data[4] as u32;
        let b1 = self.data[5] as u32;
        let b2 = self.data[6] as u32;
        let b3 = self.data[7] as u32;
        b0 + b1 * 0x100 + b2 * 0x10000 + b3 * 0x1000000
    }

    pub fn pixels(&self) -> (p: &[u8])
        requires
            self.wf(),
        ensures
            p@ == self.spec_pixels(),
    {
        let s = self.data.as_slice();
        &s[8..s.len()]
    }
}

/// Wrap a raw blob as an image; the blob must at least hold the header.
pub fn make_image(data: Vec<u8>) -> (img: Image)
    requires
        data@.len() >= 8,
    ensures
        img.wf(),
        img.spec_data() == data@,
{
    Image { data }
}

/// The pictures of the ten digits.
pub struct Numpic {
    digits: Vec<Image>,
}

impl Numpic {
    pub closed spec fn wf(&self) -> bool {
        self.digits@.len() == 10 && forall|i: int| 0 <= i < 10 ==> self.digits@[i].wf()
    }

    pub closed spec fn spec_digits(&self) -> Seq<Image> {
        self.digits@
    }

    /// Group ten digit pictures, digit 0 first.
    pub fn new(digits: Vec<Image>) -> (n: Numpic)
        requires
            digits@.len() == 10,
            forall|i: int| 0 <= i < 10 ==> digits@[i].wf(),
        ensures
            n.wf(),
            n.spec_digits() == digits@,
    {
        Numpic { digits }
    }

    /// The picture of a digit; `None` for a value above 9.
    pub fn get_digit(&self, digit: u8) -> (r: Option<&Image>)
        requires
            self.wf(),
        ensures
            digit < 10 ==> (r matches Some(img) && img == &self.spec_digits()[digit as int]),
            digit >= 10 ==> r is None,
    {
        if (digit as usize) < self.digits.len() {
            Some(&self.digits[digit as usize])
        } else {
            None
        }
    }
}

/// The pictures of the six menu entries, in menu order.
pub struct Menupic {
    entries: Vec<Image>,
}

impl Menupic {
    pub closed spec fn wf(&self) -> bool {
        self.entries@.len() == 6 && forall|i: int| 0 <= i < 6 ==> self.entries@[i].wf()
    }

    pub closed spec fn spec_entries(&self) -> Seq<Image> {
        self.entries@
    }

    /// Group six menu pictures, in the order of the menu entries.
    pub fn new(entries: Vec<Image>) -> (m: Menupic)
        requires
            entries@.len() == 6,
            forall|i: int| 0 <= i < 6 ==> entries@[i].wf(),
        ensures
            m.wf(),
            m.spec_entries() == entries@,
    {
        Menupic { entries }
    }

    /// The picture of one menu entry.
    pub fn get_pic(&self, opt: MenuOption) -> (r: &Image)
        requires
            self.wf(),
        ensures
            r == &self.spec_entries()[opt.index()],
    {
        match opt {
            MenuOption::SetTime => &self.entries[0],
            MenuOption::SetAlarm => &self.entries[1],
            MenuOption::SetRgb => &self.entries[2],
            MenuOption::SetBrightness => &self.entries[3],
            MenuOption::TempHumidity => &self.entries[4],
            MenuOption::Return => &self.entries[5],
        }
    }
}

} // verus!
